use video_archiver::deobfuscate::{decoded, entry_point, rewrite};
use video_archiver::error::ErrorKind;
use video_archiver::markup::{page_fits, MAX_PAGE_CHARS};
use video_archiver::post_info::state_blob;
use video_archiver::posts::extract_posts;
use video_archiver::resolver::{
    acquire_session, endpoint_url, finish_resolve, landing_url, obfuscated_script, prepare_script,
    resolve_query, video_url, ResolverSession,
};

#[test]
fn rewrite_names_the_function_and_adds_the_entry_point() {
    let out = rewrite("eval(function(a,b){return a+b}(1,2))").unwrap();
    assert_eq!(
        out,
        "function decode_impl(a,b){return a+b}\nfunction decode() { return decode_impl(1,2); }"
    );
}

#[test]
fn rewrite_keeps_the_text_around_the_match() {
    let out = rewrite("var x = 1; eval(function(h){return h}(\"abc\")) ; tail").unwrap();
    assert_eq!(
        out,
        "var x = 1; function decode_impl(h){return h}\nfunction decode() { return decode_impl(\"abc\"); } ; tail"
    );
}

#[test]
fn rewrite_refuses_a_script_without_the_evaluator() {
    assert_eq!(rewrite("console.log(1)"), Err(ErrorKind::ProtocolMismatch));
    assert_eq!(rewrite(""), Err(ErrorKind::ProtocolMismatch));
}

#[test]
fn entry_point_is_decode() {
    assert_eq!(entry_point(), "decode");
}

#[test]
fn failed_run_is_a_deobfuscation_failure() {
    assert_eq!(decoded(None), Err(ErrorKind::DeobfuscationFailure));
    assert_eq!(decoded(Some("x".to_string())), Ok("x".to_string()));
    assert_eq!(finish_resolve(None), Err(ErrorKind::DeobfuscationFailure));
}

#[test]
fn video_url_is_the_matching_substring_unmodified() {
    let text = "var a = \"https://host/path?x=1&y=2%20&full_hd=1\"; var b = 2;";
    assert_eq!(video_url(text), Ok("https://host/path?x=1&y=2%20&full_hd=1".to_string()));
    assert_eq!(
        finish_resolve(Some(text.to_string())),
        Ok("https://host/path?x=1&y=2%20&full_hd=1".to_string())
    );
}

#[test]
fn video_url_stops_at_the_first_marker() {
    let text = "https://host/a?full_hd=1&full_hd=1";
    assert_eq!(video_url(text), Ok("https://host/a?full_hd=1".to_string()));
}

#[test]
fn video_url_missing_is_an_error() {
    assert_eq!(video_url("nothing here"), Err(ErrorKind::NoVideoUrlFound));
    assert_eq!(video_url("https://host/path?hd=1"), Err(ErrorKind::NoVideoUrlFound));
    assert_eq!(video_url("http://host/path?full_hd=1"), Err(ErrorKind::NoVideoUrlFound));
    assert_eq!(
        finish_resolve(Some("no address".to_string())),
        Err(ErrorKind::NoVideoUrlFound)
    );
}

#[test]
fn session_token_is_read_from_the_field() {
    let page = "<form><input name=\"q\" value=\"no\"><input name=\"token\" value=\"abc123\"></form>";
    let session = acquire_session(page).unwrap();
    assert_eq!(session.token, "abc123");
}

#[test]
fn page_without_token_is_resolver_unavailable() {
    assert_eq!(
        acquire_session("<form><input name=\"q\" value=\"no\"></form>").unwrap_err(),
        ErrorKind::ResolverUnavailable
    );
    assert_eq!(
        acquire_session("<form><input name=\"token\"></form>").unwrap_err(),
        ErrorKind::ResolverUnavailable
    );
}

#[test]
fn inline_script_is_selected_and_decoded() {
    let page = "<div><script src=\"x.js\"></script><script>var a = 1 && 2 < 3;</script></div>";
    assert_eq!(obfuscated_script(page), Ok("var a = 1 && 2 < 3;".to_string()));
}

#[test]
fn answer_without_script_is_a_protocol_mismatch() {
    assert_eq!(
        obfuscated_script("<div><script src=\"x.js\"></script></div>"),
        Err(ErrorKind::ProtocolMismatch)
    );
    assert_eq!(prepare_script("<p>none</p>"), Err(ErrorKind::ProtocolMismatch));
}

#[test]
fn prepare_script_rewrites_the_inline_script() {
    let page = "<div><script>eval(function(a){return a && a}(\"u\"))</script></div>";
    assert_eq!(
        prepare_script(page),
        Ok("function decode_impl(a){return a && a}\nfunction decode() { return decode_impl(\"u\"); }"
            .to_string())
    );
}

#[test]
fn resolve_query_holds_url_language_and_token() {
    let session = ResolverSession { token: "tok".to_string() };
    let query = resolve_query(&session, "https://www.tiktok.com/@alice/video/123");
    assert_eq!(
        query,
        vec![
            ("url".to_string(), "https://www.tiktok.com/@alice/video/123".to_string()),
            ("lang".to_string(), "en".to_string()),
            ("token".to_string(), "tok".to_string()),
        ]
    );
    assert_eq!(landing_url(), "https://snaptik.app/en");
    assert_eq!(endpoint_url(), "https://snaptik.app/abc.php");
}

#[test]
fn posts_are_extracted_in_document_order() {
    let page = "<div data-e2e=\"user-post-item-list\">\
        <div data-e2e=\"user-post-item\"><a href=\"https://www.tiktok.com/@alice/video/123\">a</a></div>\
        <div data-e2e=\"user-post-item\"><a href=\"https://www.tiktok.com/@alice/video/456\">b</a></div>\
        </div><div data-e2e=\"user-post-item\"><a href=\"https://www.tiktok.com/@bob/video/9\">c</a></div>";
    assert_eq!(
        extract_posts(page),
        Ok(vec![
            "https://www.tiktok.com/@alice/video/123".to_string(),
            "https://www.tiktok.com/@alice/video/456".to_string(),
        ])
    );
}

#[test]
fn document_without_list_or_target_is_refused() {
    assert_eq!(extract_posts("<p>nothing</p>"), Err(ErrorKind::ProtocolMismatch));
    let page = "<div data-e2e=\"user-post-item-list\">\
        <div data-e2e=\"user-post-item\"><a>a</a></div></div>";
    assert_eq!(extract_posts(page), Err(ErrorKind::ProtocolMismatch));
    let empty = "<div data-e2e=\"user-post-item-list\"></div>";
    assert_eq!(extract_posts(empty), Ok(Vec::<String>::new()));
}

#[test]
fn page_too_long_for_the_parser_is_refused() {
    assert_eq!(MAX_PAGE_CHARS, 0x0800_0000);
    let mut page = String::from("<div data-e2e=\"user-post-item-list\"></div>");
    assert!(page_fits(&page));
    assert_eq!(extract_posts(&page), Ok(Vec::<String>::new()));
    let missing = MAX_PAGE_CHARS + 1 - page.len();
    page.extend(std::iter::repeat(' ').take(missing));
    assert_eq!(page.chars().count(), MAX_PAGE_CHARS + 1);
    assert!(!page_fits(&page));
    assert_eq!(extract_posts(&page), Err(ErrorKind::ProtocolMismatch));
    assert_eq!(state_blob(&page), Err(ErrorKind::ProtocolMismatch));
    assert_eq!(obfuscated_script(&page), Err(ErrorKind::ProtocolMismatch));
    assert_eq!(prepare_script(&page), Err(ErrorKind::ProtocolMismatch));
    assert_eq!(acquire_session(&page).unwrap_err(), ErrorKind::ResolverUnavailable);
}
