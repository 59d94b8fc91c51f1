//! The names of the files of one post, and the glob that finds a post that
//! was downloaded before.

use vstd::prelude::*;
use vstd::string::*;

verus! {

/// The glob that matches the final file of post `id` under `dir`, whatever
/// its date and author.
pub open spec fn dedup_pattern_spec(dir: Seq<char>, id: Seq<char>) -> Seq<char> {
    dir + "/[0-9]*_"@ + id + "_*.mp4"@
}

/// The name of the final file: date, id and author, joined by `_`.
pub open spec fn final_name_spec(date: Seq<char>, id: Seq<char>, author: Seq<char>) -> Seq<char> {
    date + "_"@ + id + "_"@ + author + ".mp4"@
}

/// The name of the file that holds the download until it is remuxed.
pub open spec fn temp_name_spec(final_name: Seq<char>) -> Seq<char> {
    final_name + ".temp"@
}

/// A path under `dir` for post `id`: a leading part, the id and a trailing
/// part, joined by `_`, with the extension of a finished file.
pub open spec fn path_shape(dir: Seq<char>, id: Seq<char>, lead: Seq<char>, trail: Seq<char>) -> Seq<
    char,
> {
    dir + "/"@ + lead + "_"@ + id + "_"@ + trail + ".mp4"@
}

/// `s` ends with `suffix`.
pub open spec fn ends_with(s: Seq<char>, suffix: Seq<char>) -> bool {
    s.len() >= suffix.len() && s.subrange(s.len() - suffix.len(), s.len() as int) == suffix
}

pub fn dedup_pattern(dir: &str, id: &str) -> (r: String)
    ensures
        r@ == dedup_pattern_spec(dir@, id@),
{
    let mut out = dir.to_owned();
    out.append("/[0-9]*_");
    out.append(id);
    out.append("_*.mp4");
    out
}

pub fn final_name(date: &str, id: &str, author: &str) -> (r: String)
    ensures
        r@ == final_name_spec(date@, id@, author@),
{
    let mut out = date.to_owned();
    out.append("_");
    out.append(id);
    out.append("_");
    out.append(author);
    out.append(".mp4");
    out
}

pub fn temp_name(final_name: &str) -> (r: String)
    ensures
        r@ == temp_name_spec(final_name@),
{
    let mut out = final_name.to_owned();
    out.append(".temp");
    out
}

/// A final name ends in `.mp4` and a temporary name never does: a download
/// that is not yet remuxed cannot pass for a finished one.
pub proof fn lemma_temp_is_not_final(date: Seq<char>, id: Seq<char>, author: Seq<char>, name: Seq<char>)
    ensures
        ends_with(final_name_spec(date, id, author), ".mp4"@),
        !ends_with(temp_name_spec(name), ".mp4"@),
        ends_with(temp_name_spec(name), ".temp"@),
{
    reveal_strlit(".mp4");
    reveal_strlit(".temp");
    let f = final_name_spec(date, id, author);
    assert(f.subrange(f.len() - 4, f.len() as int) =~= ".mp4"@);
    let t = temp_name_spec(name);
    assert(t.subrange(t.len() - 5, t.len() as int) =~= ".temp"@);
    let tail = t.subrange(t.len() - 4, t.len() as int);
    assert(tail[3] == 'p');
    assert(".mp4"@[3] == '4');
}

/// The final file of a post, placed in its directory, has the shape that the
/// glob for an earlier download of the same post describes: the date stands
/// where the glob has a digit and a wildcard, the author where it has its
/// second wildcard. A later run therefore finds what an earlier one wrote.
pub proof fn lemma_final_name_fits_glob(dir: Seq<char>, id: Seq<char>, date: Seq<char>, author: Seq<char>)
    ensures
        dedup_pattern_spec(dir, id) == path_shape(dir, id, "[0-9]*"@, "*"@),
        dir + "/"@ + final_name_spec(date, id, author) == path_shape(dir, id, date, author),
{
    reveal_strlit("/[0-9]*_");
    reveal_strlit("/");
    reveal_strlit("[0-9]*");
    reveal_strlit("_");
    reveal_strlit("_*.mp4");
    reveal_strlit("*");
    reveal_strlit(".mp4");
    assert("/[0-9]*_"@ =~= "/"@ + "[0-9]*"@ + "_"@);
    assert("_*.mp4"@ =~= "_"@ + "*"@ + ".mp4"@);
    assert(dedup_pattern_spec(dir, id) =~= path_shape(dir, id, "[0-9]*"@, "*"@));
    assert(dir + "/"@ + final_name_spec(date, id, author) =~= path_shape(dir, id, date, author));
}

} // verus!
