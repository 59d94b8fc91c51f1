//! Metadata of one post: where its id comes from, how the site's state blob
//! is searched, and the bounded retry that waits for an item to appear.

use vstd::prelude::*;
use vstd::string::*;
use vstd::arithmetic::power2::{lemma2_to64, lemma2_to64_rest, lemma_pow2_strictly_increases, lemma_pow2_unfold, pow2};
use crate::error::ErrorKind;
use crate::calendar::formatted_instant;
use crate::decimal::{all_digits, is_digit};
use crate::markup::{fits_parser, page_fits, select_inner_html, selected_inner_html};

verus! {

/// The number of queries made for one post before it is given up.
pub const MAX_ATTEMPTS: u32 = 5;

/// Creation times are shown at this many hours east of UTC.
pub const OFFSET_HOURS: i8 = 9;

/// The selector of the script element that holds the site's state blob.
pub open spec fn state_selector() -> Seq<char> {
    "script[type=\"application/json\"][id=\"SIGI_STATE\"]"@
}

/// The layout of the date that starts a file name: year, month, day.
pub open spec fn date_layout() -> Seq<char> {
    "[year][month][day]"@
}

/// An instant with the offset at which it is shown.
#[derive(Clone, Copy, Debug, PartialEq, Eq, Structural)]
pub struct Timestamp {
    pub unix_seconds: i64,
    pub nanosecond: u32,
    pub offset_hours: i8,
}

/// What is known of a post once it has been resolved.
#[derive(Debug)]
pub struct VideoInfo {
    pub id: String,
    pub created_at: Timestamp,
    /// The creation date at the fixed offset, as eight digits.
    pub date: String,
    pub author: String,
    pub download_url: String,
}

impl VideoInfo {
    /// The timestamp is at the fixed offset, in whole seconds, and `date` is
    /// its calendar date there.
    pub open spec fn wf(self) -> bool {
        &&& self.created_at.offset_hours == OFFSET_HOURS
        &&& self.created_at.nanosecond == 0
        &&& formatted_instant(self.created_at.unix_seconds, OFFSET_HOURS, 0, 0, date_layout())
            == Some(self.date@)
    }
}

/// One item of the site's state blob.
#[derive(Debug)]
pub struct StateEntry {
    pub id: String,
    pub create_time: String,
    pub author: String,
}

/// The headers of the request for a post's page: host, accepted types and
/// client name, in this order.
pub fn request_headers() -> (r: Vec<(String, String)>)
    ensures
        r@.len() == 3,
        r@[0].0@ == "Host"@ && r@[0].1@ == "www.tiktok.com"@,
        r@[1].0@ == "Accept"@ && r@[1].1@ == "*/*"@,
        r@[2].0@ == "User-Agent"@ && r@[2].1@ == "HTTPie/2.6.0"@,
{
    let mut headers: Vec<(String, String)> = Vec::new();
    headers.push(("Host".to_owned(), "www.tiktok.com".to_owned()));
    headers.push(("Accept".to_owned(), "*/*".to_owned()));
    headers.push(("User-Agent".to_owned(), "HTTPie/2.6.0".to_owned()));
    headers
}

/// The index of the last `/` in `s`, if it has one.
pub open spec fn last_slash(s: Seq<char>) -> Option<int>
    decreases s.len(),
{
    if s.len() == 0 {
        None
    } else if s.last() == '/' {
        Some(s.len() - 1)
    } else {
        last_slash(s.drop_last())
    }
}

/// What follows the last `/` of `s`.
pub open spec fn trailing_segment(s: Seq<char>) -> Option<Seq<char>> {
    match last_slash(s) {
        Some(i) => Some(s.subrange(i + 1, s.len() as int)),
        None => None,
    }
}

/// `last_slash` is the greatest index that holds a `/`, and is `None` only
/// where there is no `/` at all.
pub proof fn lemma_last_slash(s: Seq<char>)
    ensures
        match last_slash(s) {
            Some(i) => 0 <= i < s.len() && s[i] == '/' && forall|j: int|
                i < j < s.len() ==> s[j] != '/',
            None => forall|j: int| 0 <= j < s.len() ==> s[j] != '/',
        },
    decreases s.len(),
{
    if s.len() > 0 && s.last() != '/' {
        let t = s.drop_last();
        lemma_last_slash(t);
        assert(forall|j: int| 0 <= j < t.len() ==> t[j] == s[j]);
    }
}

/// The numeric segment at the end of `s`: what follows its last `/`, where
/// that is one digit or more and nothing else.
pub open spec fn numeric_segment(s: Seq<char>) -> Option<Seq<char>> {
    match trailing_segment(s) {
        Some(t) => if t.len() > 0 && all_digits(t) {
            Some(t)
        } else {
            None
        },
        None => None,
    }
}

/// The id of the post at `url`: the digits that follow its last `/`. `None`
/// where `url` has no `/`, or where what follows the last one is empty or
/// holds anything but digits.
pub fn post_id(url: &str) -> (r: Option<String>)
    ensures
        match r {
            Some(id) => numeric_segment(url@) == Some(id@),
            None => numeric_segment(url@) is None,
        },
{
    let n: usize = url.unicode_len();
    let mut i: usize = n;
    assert(url@.subrange(0, n as int) =~= url@);
    while i > 0
        invariant
            n == url@.len(),
            i <= n,
            last_slash(url@) == last_slash(url@.subrange(0, i as int)),
            forall|j: int| i <= j < n ==> is_digit(#[trigger] url@[j]),
        decreases i,
    {
        let c = url.get_char(i - 1);
        if c == '/' {
            if i == n {
                return None;
            }
            let id = url.substring_char(i, n).to_owned();
            proof {
                let t = url@.subrange(i as int, n as int);
                assert forall|j: int| 0 <= j < t.len() implies is_digit(#[trigger] t[j]) by {
                    assert(t[j] == url@[i + j]);
                }
            }
            return Some(id);
        }
        if !(c >= '0' && c <= '9') {
            proof {
                lemma_last_slash(url@.subrange(0, i as int));
                if last_slash(url@) is Some {
                    let k = last_slash(url@)->0;
                    assert(url@.subrange(0, i as int)[i - 1] == c);
                    let t = url@.subrange(k + 1, n as int);
                    assert(t[i - 1 - (k + 1)] == c);
                }
            }
            return None;
        }
        proof {
            assert(url@.subrange(0, i as int).drop_last() =~= url@.subrange(0, i - 1));
        }
        i = i - 1;
    }
    assert(url@.subrange(0, 0).len() == 0);
    None
}

/// The site's state blob as it stands in `page`. A page too long for the
/// parser, or without the blob, is refused.
pub fn state_blob(page: &str) -> (r: Result<String, ErrorKind>)
    ensures
        match r {
            Ok(blob) => fits_parser(page@) && selected_inner_html(page@, state_selector())
                == Some(blob@),
            Err(kind) => kind == ErrorKind::ProtocolMismatch && (!fits_parser(page@)
                || selected_inner_html(page@, state_selector()) is None),
        },
{
    if !page_fits(page) {
        return Err(ErrorKind::ProtocolMismatch);
    }
    blob_from_selection(
        select_inner_html(page, "script[type=\"application/json\"][id=\"SIGI_STATE\"]"),
    )
}

/// The blob that was selected, or the error that stands for its absence.
pub fn blob_from_selection(selected: Option<String>) -> (r: Result<String, ErrorKind>)
    ensures
        match selected {
            Some(blob) => r == Ok::<String, ErrorKind>(blob),
            None => r == Err::<String, ErrorKind>(ErrorKind::ProtocolMismatch),
        },
{
    match selected {
        Some(blob) => Ok(blob),
        None => Err(ErrorKind::ProtocolMismatch),
    }
}

/// The first index in `entries` whose id is `id`.
pub open spec fn first_entry(entries: Seq<StateEntry>, id: Seq<char>) -> Option<int>
    decreases entries.len(),
{
    if entries.len() == 0 {
        None
    } else {
        match first_entry(entries.drop_last(), id) {
            Some(i) => Some(i),
            None => if entries.last().id@ == id {
                Some(entries.len() - 1)
            } else {
                None
            },
        }
    }
}

/// Finds the item `id` in the state blob's items.
pub fn find_entry(entries: &Vec<StateEntry>, id: &String) -> (r: Option<usize>)
    ensures
        match r {
            Some(i) => i < entries@.len() && entries@[i as int].id@ == id@ && forall|j: int|
                0 <= j < i ==> entries@[j].id@ != id@,
            None => forall|j: int| 0 <= j < entries@.len() ==> entries@[j].id@ != id@,
        },
        r is Some <==> first_entry(entries@, id@) is Some,
        r is Some ==> first_entry(entries@, id@) == Some(r->0 as int),
{
    let mut i: usize = 0;
    while i < entries.len()
        invariant
            i <= entries@.len(),
            forall|j: int| 0 <= j < i ==> entries@[j].id@ != id@,
            first_entry(entries@.subrange(0, i as int), id@) is None,
        decreases entries@.len() - i,
    {
        proof {
            assert(entries@.subrange(0, i + 1).drop_last() =~= entries@.subrange(0, i as int));
        }
        if entries[i].id == *id {
            proof {
                lemma_first_entry_prefix(entries@, id@, i + 1);
            }
            return Some(i);
        }
        i = i + 1;
    }
    assert(entries@.subrange(0, i as int) =~= entries@);
    None
}

/// No id occurs twice among `entries`, as in the mapping that the site's
/// blob holds.
pub open spec fn distinct_ids(entries: Seq<StateEntry>) -> bool {
    forall|i: int, j: int|
        0 <= i < j < entries.len() ==> (#[trigger] entries[i]).id@ != (#[trigger] entries[j]).id@
}

/// Whether no id occurs twice among `entries`.
pub fn ids_are_distinct(entries: &Vec<StateEntry>) -> (r: bool)
    ensures
        r == distinct_ids(entries@),
{
    let mut j: usize = 0;
    while j < entries.len()
        invariant
            j <= entries@.len(),
            forall|a: int, b: int|
                0 <= a < b < j ==> (#[trigger] entries@[a]).id@ != (#[trigger] entries@[b]).id@,
        decreases entries@.len() - j,
    {
        let mut i: usize = 0;
        while i < j
            invariant
                i <= j < entries@.len(),
                forall|a: int| 0 <= a < i ==> (#[trigger] entries@[a]).id@ != entries@[j as int].id@,
            decreases j - i,
        {
            if entries[i].id == entries[j].id {
                return false;
            }
            i = i + 1;
        }
        j = j + 1;
    }
    true
}

/// What `first_entry` finds holds the id, and nothing before it does. Where
/// no id occurs twice it is the only item with the id: the list then reads as
/// the mapping it stands for.
pub proof fn lemma_first_entry(entries: Seq<StateEntry>, id: Seq<char>)
    ensures
        match first_entry(entries, id) {
            Some(i) => {
                &&& 0 <= i < entries.len()
                &&& entries[i].id@ == id
                &&& forall|j: int| 0 <= j < i ==> (#[trigger] entries[j]).id@ != id
                &&& distinct_ids(entries) ==> forall|j: int|
                    0 <= j < entries.len() && j != i ==> (#[trigger] entries[j]).id@ != id
            },
            None => forall|j: int| 0 <= j < entries.len() ==> (#[trigger] entries[j]).id@ != id,
        },
    decreases entries.len(),
{
    if entries.len() > 0 {
        let shorter = entries.drop_last();
        lemma_first_entry(shorter, id);
        assert(forall|j: int| 0 <= j < shorter.len() ==> shorter[j] == entries[j]);
        match first_entry(entries, id) {
            Some(i) => {
                if distinct_ids(entries) {
                    assert forall|j: int| 0 <= j < entries.len() && j != i implies (
                    #[trigger] entries[j]).id@ != id by {
                        if j < i {
                            assert(entries[j].id@ != entries[i].id@);
                        } else {
                            assert(entries[i].id@ != entries[j].id@);
                        }
                    }
                }
            },
            None => {},
        }
    }
}

/// The index of the item `id`, or the error that asks for another attempt
/// where the blob does not hold it yet.
pub fn locate_entry(entries: &Vec<StateEntry>, id: &String) -> (r: Result<usize, ErrorKind>)
    ensures
        match r {
            Ok(i) => i < entries@.len() && first_entry(entries@, id@) == Some(i as int),
            Err(kind) => kind == ErrorKind::TransientInfoMissing && first_entry(
                entries@,
                id@,
            ) is None,
        },
{
    match find_entry(entries, id) {
        Some(i) => Ok(i),
        None => Err(ErrorKind::TransientInfoMissing),
    }
}

/// A match within a prefix is the match within the whole.
pub proof fn lemma_first_entry_prefix(entries: Seq<StateEntry>, id: Seq<char>, k: int)
    requires
        0 <= k <= entries.len(),
        first_entry(entries.subrange(0, k), id) is Some,
    ensures
        first_entry(entries, id) == first_entry(entries.subrange(0, k), id),
    decreases entries.len() - k,
{
    if k < entries.len() {
        assert(entries.subrange(0, k + 1).drop_last() =~= entries.subrange(0, k));
        lemma_first_entry_prefix(entries, id, k + 1);
    } else {
        assert(entries.subrange(0, k) =~= entries);
    }
}

/// The seconds to wait after the failed query number `attempt`, counted from
/// zero: one second, doubled with each attempt.
pub open spec fn delay(attempt: nat) -> nat {
    pow2(attempt)
}

/// The seconds to wait after the failed query number `attempt`.
pub fn backoff_seconds(attempt: u32) -> (r: u64)
    requires
        attempt < 64,
    ensures
        r == delay(attempt as nat),
{
    let mut r: u64 = 1;
    let mut i: u32 = 0;
    proof {
        lemma2_to64();
    }
    while i < attempt
        invariant
            i <= attempt < 64,
            r == pow2(i as nat),
        decreases attempt - i,
    {
        proof {
            lemma2_to64_rest();
            lemma_pow2_strictly_increases(i as nat, 63);
            lemma_pow2_unfold((i + 1) as nat);
        }
        r = r * 2;
        i = i + 1;
    }
    r
}

} // verus!
