//! Regular-expression matching, done by the `regex` crate.

use vstd::prelude::*;

verus! {

/// What one match of a pattern found in a text: the text before the match,
/// the capture groups (group 0 is the whole match; a group that took no part
/// is `None`), and the text after the match.
#[derive(Debug)]
pub struct Captures {
    pub before: String,
    pub groups: Vec<Option<String>>,
    pub after: String,
}

/// The view of one capture group.
pub open spec fn group_view(group: Option<String>) -> Option<Seq<char>> {
    match group {
        Some(s) => Some(s@),
        None => None,
    }
}

impl Captures {
    /// The three parts as sequences of characters.
    pub open spec fn parts(self) -> (Seq<char>, Seq<Option<Seq<char>>>, Seq<char>) {
        (
            self.before@,
            Seq::new(self.groups@.len(), |i: int| group_view(self.groups@[i])),
            self.after@,
        )
    }

    /// The text of group `index`, empty where the pattern has no such group
    /// or the group took no part in the match.
    pub open spec fn group_text(self, index: int) -> Seq<char> {
        if 0 <= index < self.groups@.len() && self.groups@[index] is Some {
            self.groups@[index]->0@
        } else {
            Seq::empty()
        }
    }

    /// The text of group `index`, as `group_text` defines it.
    pub fn group(&self, index: usize) -> (r: &str)
        ensures
            r@ == self.group_text(index as int),
    {
        proof {
            reveal_strlit("");
            assert(""@ =~= Seq::<char>::empty());
        }
        if index < self.groups.len() {
            match &self.groups[index] {
                Some(s) => s.as_str(),
                None => "",
            }
        } else {
            ""
        }
    }
}

/// The leftmost match of `pattern` in `text` as the `regex` crate finds it:
/// (text before, groups, text after), or `None` where `pattern` is no valid
/// expression or matches nowhere.
pub uninterp spec fn regex_captures(pattern: Seq<char>, text: Seq<char>) -> Option<
    (Seq<char>, Seq<Option<Seq<char>>>, Seq<char>),
>;

/// Calls `regex::Regex::new` on `pattern` and `Regex::captures` on `text`.
/// Trusted: the result is the crate's leftmost match, named by
/// `regex_captures`; group 0 is always present in a match, and the text
/// before it, the match and the text after it make up `text`.
#[verifier::external_body]
pub(crate) fn captures(pattern: &str, text: &str) -> (r: Option<Captures>)
    ensures
        match r {
            Some(c) => {
                &&& regex_captures(pattern@, text@) == Some(c.parts())
                &&& c.groups@.len() >= 1
                &&& c.groups@[0] is Some
                &&& c.before@ + c.group_text(0) + c.after@ == text@
            },
            None => regex_captures(pattern@, text@) is None,
        },
{
    let re = match regex::Regex::new(pattern) {
        Ok(re) => re,
        Err(_) => return None,
    };
    let caps = re.captures(text)?;
    let whole = caps.get(0)?;
    Some(Captures {
        before: text[..whole.start()].to_owned(),
        groups: caps.iter().map(|g| g.map(|m| m.as_str().to_owned())).collect(),
        after: text[whole.end()..].to_owned(),
    })
}

/// The text of group `index` among `groups`, empty where there is no such
/// group or it took no part in the match.
pub open spec fn text_of(groups: Seq<Option<Seq<char>>>, index: int) -> Seq<char> {
    if 0 <= index < groups.len() && groups[index] is Some {
        groups[index]->0
    } else {
        Seq::empty()
    }
}

/// `part` stands somewhere in `whole`, unchanged.
pub open spec fn occurs_in(part: Seq<char>, whole: Seq<char>) -> bool {
    exists|i: int|
        0 <= i && i + part.len() <= whole.len() && #[trigger] whole.subrange(
            i,
            i + part.len(),
        ) == part
}

/// The whole match of `pattern` in `text`, where there is one.
pub open spec fn whole_match(pattern: Seq<char>, text: Seq<char>) -> Option<Seq<char>> {
    match regex_captures(pattern, text) {
        Some(parts) => if parts.1.len() >= 1 && parts.1[0] is Some {
            Some(parts.1[0]->0)
        } else {
            None
        },
        None => None,
    }
}

/// The text of group `index` of the match of `pattern` in `text`: `None`
/// where nothing matches, empty where the group is absent.
pub open spec fn group_match(pattern: Seq<char>, text: Seq<char>, index: int) -> Option<Seq<char>> {
    match regex_captures(pattern, text) {
        Some(parts) => if 0 <= index < parts.1.len() && parts.1[index] is Some {
            Some(parts.1[index]->0)
        } else {
            Some(Seq::empty())
        },
        None => None,
    }
}

/// The text of group `index` of the leftmost match of `pattern` in `text`.
pub fn find_group(pattern: &str, text: &str, index: usize) -> (r: Option<String>)
    ensures
        match r {
            Some(s) => group_match(pattern@, text@, index as int) == Some(s@),
            None => group_match(pattern@, text@, index as int) is None,
        },
{
    match captures(pattern, text) {
        Some(c) => {
            let s = c.group(index).to_owned();
            assert(c.parts().1.len() == c.groups@.len());
            Some(s)
        },
        None => None,
    }
}

} // verus!
