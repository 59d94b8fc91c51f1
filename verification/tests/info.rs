use video_archiver::decimal::parse_i64;
use video_archiver::error::ErrorKind;
use video_archiver::fetch::{FetchAction, FetchStage, InfoFetch};
use video_archiver::post_info::{
    backoff_seconds, find_entry, ids_are_distinct, locate_entry, post_id, request_headers,
    state_blob, StateEntry, MAX_ATTEMPTS, OFFSET_HOURS,
};

fn entry(id: &str, create_time: &str, author: &str) -> StateEntry {
    StateEntry { id: id.to_string(), create_time: create_time.to_string(), author: author.to_string() }
}

#[test]
fn post_id_is_the_numeric_last_segment() {
    assert_eq!(post_id("https://www.tiktok.com/@alice/video/123"), Some("123".to_string()));
    assert_eq!(post_id("/7"), Some("7".to_string()));
    assert_eq!(post_id("é/ü/007"), Some("007".to_string()));
    assert_eq!(post_id("1/2/3"), Some("3".to_string()));
}

#[test]
fn post_id_needs_a_slash_and_digits() {
    assert_eq!(post_id("a/b/"), None);
    assert_eq!(post_id("/x"), None);
    assert_eq!(post_id("/12x"), None);
    assert_eq!(post_id("/x12"), None);
    assert_eq!(post_id("/1 2"), None);
    assert_eq!(post_id("/١٢"), None);
    assert_eq!(post_id("https://www.tiktok.com/@alice/video/123?lang=en"), None);
    assert_eq!(post_id("123"), None);
    assert_eq!(post_id("no-slash"), None);
    assert_eq!(post_id(""), None);
}

#[test]
fn backoff_delays_are_one_two_four_eight_sixteen() {
    let delays: Vec<u64> = (0..5).map(backoff_seconds).collect();
    assert_eq!(delays, vec![1, 2, 4, 8, 16]);
    assert_eq!(backoff_seconds(63), 1u64 << 63);
    assert_eq!(MAX_ATTEMPTS, 5);
}

#[test]
fn five_missing_answers_give_up_without_failure() {
    let mut fetch = InfoFetch::new("https://www.tiktok.com/@alice/video/123").unwrap();
    let entries: Vec<StateEntry> = vec![entry("999", "1700000000", "bob")];
    let mut slept: Vec<u64> = Vec::new();
    let mut queries = 0;
    while !fetch.is_finished() {
        match fetch.pending() {
            FetchAction::Query => {
                queries += 1;
                fetch.on_state(&entries);
            }
            FetchAction::Sleep(seconds) => {
                slept.push(seconds);
                fetch.on_slept();
            }
            other => panic!("unexpected action {:?}", other),
        }
    }
    assert_eq!(queries, 5);
    assert_eq!(slept, vec![1, 2, 4, 8, 16]);
    assert_eq!(fetch.stage, FetchStage::GaveUp);
    assert_eq!(fetch.pending(), FetchAction::Stop);
    assert!(fetch.into_info().is_none());
}

#[test]
fn item_that_appears_later_is_found() {
    let mut fetch = InfoFetch::new("https://www.tiktok.com/@alice/video/123").unwrap();
    fetch.on_state(&Vec::new());
    assert_eq!(fetch.pending(), FetchAction::Sleep(1));
    fetch.on_slept();
    assert_eq!(fetch.attempt, 1);
    assert_eq!(fetch.pending(), FetchAction::Query);
    fetch.on_state(&vec![entry("123", "1700000000", "alice")]);
    assert_eq!(fetch.stage, FetchStage::Resolving);
    assert_eq!(fetch.pending(), FetchAction::Resolve);
}

#[test]
fn creation_time_is_shown_nine_hours_east() {
    let mut fetch = InfoFetch::new("https://www.tiktok.com/@alice/video/123").unwrap();
    fetch.on_state(&vec![entry("7", "1", "bob"), entry("123", "1700000000", "alice")]);
    fetch.on_resolved(Ok("https://host/v?full_hd=1".to_string()));
    assert_eq!(fetch.stage, FetchStage::Ready);
    let info = fetch.into_info().unwrap();
    assert_eq!(info.id, "123");
    assert_eq!(info.author, "alice");
    assert_eq!(info.download_url, "https://host/v?full_hd=1");
    assert_eq!(info.date, "20231115");
    assert_eq!(info.created_at.unix_seconds, 1700000000);
    assert_eq!(info.created_at.nanosecond, 0);
    assert_eq!(info.created_at.offset_hours, OFFSET_HOURS);
    let shown = time::OffsetDateTime::from_unix_timestamp(info.created_at.unix_seconds)
        .unwrap()
        .to_offset(time::UtcOffset::from_hms(info.created_at.offset_hours, 0, 0).unwrap());
    let text = shown.format(&time::format_description::well_known::Rfc3339).unwrap();
    assert_eq!(text, "2023-11-15T07:13:20+09:00");
    assert_eq!(shown.unix_timestamp(), 1700000000);
    assert_eq!(shown.nanosecond(), info.created_at.nanosecond);
}

#[test]
fn date_rolls_over_at_the_offset() {
    // 2023-01-04T15:00:00Z is midnight of the 5th at nine hours east.
    let mut fetch = InfoFetch::new("x/5").unwrap();
    fetch.on_state(&vec![entry("5", "1672844400", "alice")]);
    assert_eq!(fetch.date, "20230105");
    let mut fetch = InfoFetch::new("x/5").unwrap();
    fetch.on_state(&vec![entry("5", "1672844399", "alice")]);
    assert_eq!(fetch.date, "20230104");
}

#[test]
fn unreadable_creation_time_abandons_the_item() {
    let mut fetch = InfoFetch::new("x/5").unwrap();
    fetch.on_state(&vec![entry("5", "soon", "alice")]);
    assert_eq!(fetch.stage, FetchStage::Failed(ErrorKind::ProtocolMismatch));
    let mut fetch = InfoFetch::new("x/5").unwrap();
    fetch.on_state(&vec![entry("5", "9223372036854775807", "alice")]);
    assert_eq!(fetch.stage, FetchStage::Failed(ErrorKind::ProtocolMismatch));
    assert!(fetch.into_info().is_none());
}

#[test]
fn resolver_error_abandons_the_item() {
    let mut fetch = InfoFetch::new("x/5").unwrap();
    fetch.on_state(&vec![entry("5", "0", "alice")]);
    assert_eq!(fetch.date, "19700101");
    fetch.on_resolved(Err(ErrorKind::NoVideoUrlFound));
    assert_eq!(fetch.stage, FetchStage::Failed(ErrorKind::NoVideoUrlFound));
    fetch.on_error(ErrorKind::Io);
    assert_eq!(fetch.stage, FetchStage::Failed(ErrorKind::NoVideoUrlFound));
}

#[test]
fn reports_that_do_not_fit_change_nothing() {
    let mut fetch = InfoFetch::new("x/5").unwrap();
    fetch.on_slept();
    fetch.on_resolved(Ok("u".to_string()));
    assert_eq!(fetch.stage, FetchStage::Querying);
    assert_eq!(fetch.attempt, 0);
    assert_eq!(fetch.download_url, "");
    fetch.on_error(ErrorKind::Io);
    assert_eq!(fetch.stage, FetchStage::Failed(ErrorKind::Io));
}

#[test]
fn url_without_numeric_segment_has_no_id() {
    assert_eq!(InfoFetch::new("nothing").unwrap_err(), ErrorKind::ProtocolMismatch);
    assert_eq!(InfoFetch::new("a/b").unwrap_err(), ErrorKind::ProtocolMismatch);
    assert_eq!(InfoFetch::new("a/").unwrap_err(), ErrorKind::ProtocolMismatch);
    assert_eq!(InfoFetch::new("a/12").unwrap().id, "12");
}

#[test]
fn end_of_the_protocol_is_an_error_metadata_or_nothing() {
    let mut failed = InfoFetch::new("x/5").unwrap();
    failed.on_error(ErrorKind::Io);
    assert_eq!(failed.into_result().unwrap_err(), ErrorKind::Io);

    let mut given_up = InfoFetch::new("x/5").unwrap();
    for _ in 0..5 {
        given_up.on_missing();
        given_up.on_slept();
    }
    assert_eq!(given_up.stage, FetchStage::GaveUp);
    assert!(given_up.into_result().unwrap().is_none());

    let unfinished = InfoFetch::new("x/5").unwrap();
    assert!(unfinished.into_result().unwrap().is_none());

    let mut ready = InfoFetch::new("x/5").unwrap();
    ready.on_state(&vec![entry("5", "1700000000", "alice")]);
    ready.on_resolved(Ok("https://host/v?full_hd=1".to_string()));
    let info = ready.into_result().unwrap().unwrap();
    assert_eq!(info.id, "5");
    assert_eq!(info.date, "20231115");
    assert_eq!(info.author, "alice");
    assert_eq!(info.download_url, "https://host/v?full_hd=1");
    assert_eq!(info.created_at.unix_seconds, 1700000000);
}

#[test]
fn repeated_ids_are_told_apart_from_distinct_ones() {
    assert!(ids_are_distinct(&Vec::new()));
    assert!(ids_are_distinct(&vec![entry("1", "0", "a")]));
    assert!(ids_are_distinct(&vec![entry("1", "0", "a"), entry("2", "0", "a"), entry("3", "0", "a")]));
    assert!(!ids_are_distinct(&vec![entry("1", "0", "a"), entry("2", "0", "b"), entry("1", "0", "c")]));
    assert!(!ids_are_distinct(&vec![entry("2", "0", "a"), entry("2", "0", "b")]));
}

#[test]
fn entries_are_searched_by_id() {
    let entries = vec![entry("1", "0", "a"), entry("2", "0", "b"), entry("2", "0", "c")];
    assert_eq!(find_entry(&entries, &"2".to_string()), Some(1));
    assert_eq!(find_entry(&entries, &"3".to_string()), None);
    assert_eq!(locate_entry(&entries, &"1".to_string()), Ok(0));
    assert_eq!(locate_entry(&entries, &"".to_string()), Err(ErrorKind::TransientInfoMissing));
}

#[test]
fn state_blob_is_the_script_content() {
    let page = "<div><script id=\"SIGI_STATE\" type=\"application/json\">{\"ItemModule\":{}}</script></div>";
    assert_eq!(state_blob(page), Ok("{\"ItemModule\":{}}".to_string()));
    assert_eq!(
        state_blob("<div><script id=\"OTHER\" type=\"application/json\">{}</script></div>"),
        Err(ErrorKind::ProtocolMismatch)
    );
}

#[test]
fn request_headers_are_minimal() {
    assert_eq!(
        request_headers(),
        vec![
            ("Host".to_string(), "www.tiktok.com".to_string()),
            ("Accept".to_string(), "*/*".to_string()),
            ("User-Agent".to_string(), "HTTPie/2.6.0".to_string()),
        ]
    );
}

#[test]
fn decimal_numbers_are_read_as_std_reads_them() {
    assert_eq!(parse_i64("1700000000"), Some(1700000000));
    assert_eq!(parse_i64("-5"), Some(-5));
    assert_eq!(parse_i64("+7"), Some(7));
    assert_eq!(parse_i64("007"), Some(7));
    assert_eq!(parse_i64("-0"), Some(0));
    assert_eq!(parse_i64("9223372036854775807"), Some(i64::MAX));
    assert_eq!(parse_i64("-9223372036854775808"), Some(i64::MIN));
    assert_eq!(parse_i64("9223372036854775808"), None);
    assert_eq!(parse_i64("-9223372036854775809"), None);
    assert_eq!(parse_i64("99999999999999999999999"), None);
    let samples = [
        "", "+", "-", "--1", "+-1", "12a", "a12", " 12", "12 ", "1_000", "١٢", "0", "+0", "10",
        "-10", "922337203685477580", "9223372036854775806", "-9223372036854775807", "1e3", "0x10",
    ];
    for text in samples {
        assert_eq!(parse_i64(text), text.parse::<i64>().ok(), "for {:?}", text);
    }
}
