//! Recovering the string that a disguised, self-invoking script evaluates to.
//!
//! The script is rewritten here so that the function literal gets a fixed
//! name and an entry point returns what it computes, in place of handing the
//! result to the dynamic evaluator. A sandboxed interpreter, which the driver
//! supplies, runs the rewritten script.

use vstd::prelude::*;
use vstd::string::*;
use crate::error::ErrorKind;
use crate::pattern::{captures, regex_captures, text_of, Captures};

verus! {

/// The disguised evaluator: `eval(`, a function literal, and its arguments.
pub open spec fn eval_pattern() -> Seq<char> {
    "eval\\((?P<func1>function)(?P<func2>.*})\\s*\\(+(?P<args>.+?)\\)+"@
}

/// The rewritten script: the function literal of `head` and `body` named
/// `decode_impl`, followed by the entry point `decode`, which calls it with
/// `args`; the text around the match is kept.
pub open spec fn rewritten(
    before: Seq<char>,
    head: Seq<char>,
    body: Seq<char>,
    args: Seq<char>,
    after: Seq<char>,
) -> Seq<char> {
    before + head + " decode_impl"@ + body + "\nfunction decode() { return decode_impl("@ + args
        + "); }"@ + after
}

/// The rewritten script for a match with its three groups, or the error for
/// a script that has no such match.
pub open spec fn rewrite_result(
    found: Option<(Seq<char>, Seq<Option<Seq<char>>>, Seq<char>)>,
) -> Result<Seq<char>, ErrorKind> {
    match found {
        Some(parts) => if parts.1.len() >= 4 {
            Ok(
                rewritten(
                    parts.0,
                    text_of(parts.1, 1),
                    text_of(parts.1, 2),
                    text_of(parts.1, 3),
                    parts.2,
                ),
            )
        } else {
            Err(ErrorKind::ProtocolMismatch)
        },
        None => Err(ErrorKind::ProtocolMismatch),
    }
}

/// The outcome as its view.
pub open spec fn text_result(r: Result<String, ErrorKind>) -> Result<Seq<char>, ErrorKind> {
    match r {
        Ok(s) => Ok(s@),
        Err(kind) => Err(kind),
    }
}

/// The name of the function that the interpreter is to call.
pub fn entry_point() -> (r: &'static str)
    ensures
        r@ == "decode"@,
{
    "decode"
}

/// Rewrites what was matched in a script.
pub fn rewrite_captured(found: Option<Captures>) -> (r: Result<String, ErrorKind>)
    ensures
        text_result(r) == rewrite_result(
            match found {
                Some(c) => Some(c.parts()),
                None => None,
            },
        ),
{
    match found {
        Some(c) => {
            if c.groups.len() < 4 {
                return Err(ErrorKind::ProtocolMismatch);
            }
            let mut out = c.before.clone();
            out.append(c.group(1));
            out.append(" decode_impl");
            out.append(c.group(2));
            out.append("\nfunction decode() { return decode_impl(");
            out.append(c.group(3));
            out.append("); }");
            out.append(c.after.as_str());
            proof {
                assert(c.group_text(1) == text_of(c.parts().1, 1));
                assert(c.group_text(2) == text_of(c.parts().1, 2));
                assert(c.group_text(3) == text_of(c.parts().1, 3));
            }
            Ok(out)
        },
        None => Err(ErrorKind::ProtocolMismatch),
    }
}

/// Rewrites `script` for the interpreter. A script without the disguised
/// evaluator is refused.
pub fn rewrite(script: &str) -> (r: Result<String, ErrorKind>)
    ensures
        text_result(r) == rewrite_result(regex_captures(eval_pattern(), script@)),
{
    rewrite_captured(
        captures("eval\\((?P<func1>function)(?P<func2>.*})\\s*\\(+(?P<args>.+?)\\)+", script),
    )
}

/// What the interpreter returned, or the error for a run that failed.
pub fn decoded(outcome: Option<String>) -> (r: Result<String, ErrorKind>)
    ensures
        match outcome {
            Some(text) => r == Ok::<String, ErrorKind>(text),
            None => r == Err::<String, ErrorKind>(ErrorKind::DeobfuscationFailure),
        },
{
    match outcome {
        Some(text) => Ok(text),
        None => Err(ErrorKind::DeobfuscationFailure),
    }
}

} // verus!
