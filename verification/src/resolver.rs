//! The resolver service: its session token, the script it answers with, and
//! the video address inside the decoded script.

use vstd::prelude::*;
use crate::error::ErrorKind;
use crate::deobfuscate::{decoded, eval_pattern, rewrite, rewrite_result, text_result};
use crate::markup::{
    decode_entities, entities_decoded, fits_parser, page_fits, select_attribute,
    select_inner_html, selected_attribute, selected_inner_html,
};
use crate::pattern::{captures, occurs_in, regex_captures, whole_match, Captures};

verus! {

/// The token that the resolver hands out once per run.
#[derive(Debug)]
pub struct ResolverSession {
    pub token: String,
}

/// The selector of the landing page's token field.
pub open spec fn token_selector() -> Seq<char> {
    "input[name=\"token\"]"@
}

/// The selector of the one inline script of the resolver's answer.
pub open spec fn script_selector() -> Seq<char> {
    "script:not([src])"@
}

/// A full-quality video address: `https:`, characters of an address, and the
/// marker `full_hd=1` at its end.
pub open spec fn url_pattern() -> Seq<char> {
    "https:[\\./\\w\\?&%=]*?full_hd=1"@
}

/// The address of the resolver's landing page.
pub fn landing_url() -> (r: &'static str)
    ensures
        r@ == "https://snaptik.app/en"@,
{
    "https://snaptik.app/en"
}

/// The address of the resolver's processing endpoint.
pub fn endpoint_url() -> (r: &'static str)
    ensures
        r@ == "https://snaptik.app/abc.php"@,
{
    "https://snaptik.app/abc.php"
}

/// The session for the value of the token field, or the error for a page
/// without one.
pub fn session_from_field(field: Option<String>) -> (r: Result<ResolverSession, ErrorKind>)
    ensures
        match field {
            Some(token) => r == Ok::<ResolverSession, ErrorKind>(ResolverSession { token }),
            None => r == Err::<ResolverSession, ErrorKind>(ErrorKind::ResolverUnavailable),
        },
{
    match field {
        Some(token) => Ok(ResolverSession { token }),
        None => Err(ErrorKind::ResolverUnavailable),
    }
}

/// Reads the session token out of the resolver's landing page. A page too
/// long for the parser, or without the token field, gives no session.
pub fn acquire_session(page: &str) -> (r: Result<ResolverSession, ErrorKind>)
    ensures
        match r {
            Ok(session) => fits_parser(page@) && selected_attribute(
                page@,
                token_selector(),
                "value"@,
            ) == Some(session.token@),
            Err(kind) => kind == ErrorKind::ResolverUnavailable && (!fits_parser(page@)
                || selected_attribute(page@, token_selector(), "value"@) is None),
        },
{
    if !page_fits(page) {
        return Err(ErrorKind::ResolverUnavailable);
    }
    session_from_field(select_attribute(page, "input[name=\"token\"]", "value"))
}

/// The parameters of the request that submits `post_url` to the resolver:
/// the address, the language and the session's token, in this order.
pub fn resolve_query(session: &ResolverSession, post_url: &str) -> (r: Vec<(String, String)>)
    ensures
        r@.len() == 3,
        r@[0].0@ == "url"@ && r@[0].1@ == post_url@,
        r@[1].0@ == "lang"@ && r@[1].1@ == "en"@,
        r@[2].0@ == "token"@ && r@[2].1@ == session.token@,
{
    let mut query: Vec<(String, String)> = Vec::new();
    query.push(("url".to_owned(), post_url.to_owned()));
    query.push(("lang".to_owned(), "en".to_owned()));
    query.push(("token".to_owned(), session.token.clone()));
    query
}

/// The script that was selected, with its character references decoded, or
/// the error for an answer without a script.
pub fn script_from_selection(selected: Option<String>) -> (r: Result<String, ErrorKind>)
    ensures
        match selected {
            Some(script) => text_result(r) == Ok::<Seq<char>, ErrorKind>(
                entities_decoded(script@),
            ),
            None => r == Err::<String, ErrorKind>(ErrorKind::ProtocolMismatch),
        },
{
    match selected {
        Some(script) => Ok(decode_entities(script.as_str())),
        None => Err(ErrorKind::ProtocolMismatch),
    }
}

/// The obfuscated script of the resolver's answer `page`, decoded from HTML.
/// An answer too long for the parser, or without a script, is refused.
pub fn obfuscated_script(page: &str) -> (r: Result<String, ErrorKind>)
    ensures
        fits_parser(page@) ==> match selected_inner_html(page@, script_selector()) {
            Some(script) => text_result(r) == Ok::<Seq<char>, ErrorKind>(
                entities_decoded(script),
            ),
            None => r == Err::<String, ErrorKind>(ErrorKind::ProtocolMismatch),
        },
        !fits_parser(page@) ==> r == Err::<String, ErrorKind>(ErrorKind::ProtocolMismatch),
{
    if !page_fits(page) {
        return Err(ErrorKind::ProtocolMismatch);
    }
    script_from_selection(select_inner_html(page, "script:not([src])"))
}

/// The script to hand to the interpreter for the resolver's answer `page`.
/// An answer too long for the parser, or without a script, is refused.
pub fn prepare_script(page: &str) -> (r: Result<String, ErrorKind>)
    ensures
        fits_parser(page@) ==> match selected_inner_html(page@, script_selector()) {
            Some(script) => text_result(r) == rewrite_result(
                regex_captures(eval_pattern(), entities_decoded(script)),
            ),
            None => r == Err::<String, ErrorKind>(ErrorKind::ProtocolMismatch),
        },
        !fits_parser(page@) ==> r == Err::<String, ErrorKind>(ErrorKind::ProtocolMismatch),
{
    match obfuscated_script(page) {
        Ok(script) => rewrite(script.as_str()),
        Err(kind) => Err(kind),
    }
}

/// The address that was matched, or the error for a text without one.
pub fn url_from_captures(found: Option<Captures>) -> (r: Result<String, ErrorKind>)
    ensures
        match found {
            Some(c) => if c.groups@.len() >= 1 && c.groups@[0] is Some {
                text_result(r) == Ok::<Seq<char>, ErrorKind>(c.groups@[0]->0@)
            } else {
                r == Err::<String, ErrorKind>(ErrorKind::NoVideoUrlFound)
            },
            None => r == Err::<String, ErrorKind>(ErrorKind::NoVideoUrlFound),
        },
{
    match found {
        Some(c) => {
            if c.groups.len() >= 1 {
                match &c.groups[0] {
                    Some(address) => Ok(address.clone()),
                    None => Err(ErrorKind::NoVideoUrlFound),
                }
            } else {
                Err(ErrorKind::NoVideoUrlFound)
            }
        },
        None => Err(ErrorKind::NoVideoUrlFound),
    }
}

/// The full-quality video address in the decoded script: the leftmost match
/// of the address pattern, exactly as it stands in `decoded`.
pub fn video_url(decoded: &str) -> (r: Result<String, ErrorKind>)
    ensures
        match whole_match(url_pattern(), decoded@) {
            Some(address) => text_result(r) == Ok::<Seq<char>, ErrorKind>(address),
            None => r == Err::<String, ErrorKind>(ErrorKind::NoVideoUrlFound),
        },
        r is Ok ==> occurs_in(r->Ok_0@, decoded@),
{
    let found = captures("https:[\\./\\w\\?&%=]*?full_hd=1", decoded);
    proof {
        if found is Some {
            let c = found->0;
            let parts = c.parts();
            assert(parts.1[0] == Some(c.groups@[0]->0@));
            let i = c.before@.len() as int;
            let g = c.group_text(0);
            assert(decoded@.subrange(i, i + g.len()) =~= g);
        }
    }
    url_from_captures(found)
}

/// The direct address for what the interpreter returned: the error of a
/// failed run, or the address in the decoded text.
pub fn finish_resolve(outcome: Option<String>) -> (r: Result<String, ErrorKind>)
    ensures
        match outcome {
            Some(text) => match whole_match(url_pattern(), text@) {
                Some(address) => text_result(r) == Ok::<Seq<char>, ErrorKind>(address),
                None => r == Err::<String, ErrorKind>(ErrorKind::NoVideoUrlFound),
            },
            None => r == Err::<String, ErrorKind>(ErrorKind::DeobfuscationFailure),
        },
        r is Ok ==> outcome is Some && occurs_in(r->Ok_0@, outcome->0@),
{
    match decoded(outcome) {
        Ok(text) => video_url(text.as_str()),
        Err(kind) => Err(kind),
    }
}

} // verus!
