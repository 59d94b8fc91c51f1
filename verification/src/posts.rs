//! The post references of the input document.

use vstd::prelude::*;
use crate::error::ErrorKind;
use crate::markup::{fits_parser, nested_attributes, page_fits, select_nested_attributes, values_view};

verus! {

/// The selector of the element that holds the list of posts.
pub open spec fn list_selector() -> Seq<char> {
    "div[data-e2e=\"user-post-item-list\"]"@
}

/// The selector of one post's link within the list.
pub open spec fn link_selector() -> Seq<char> {
    "div[data-e2e=\"user-post-item\"] a"@
}

/// The references for the link targets that were read: all of them, in
/// order, where the list was found and every link has a target.
pub open spec fn references_of(links: Option<Seq<Option<Seq<char>>>>) -> Result<
    Seq<Seq<char>>,
    ErrorKind,
> {
    match links {
        Some(values) => if forall|i: int| 0 <= i < values.len() ==> values[i] is Some {
            Ok(Seq::new(values.len(), |i: int| values[i]->0))
        } else {
            Err(ErrorKind::ProtocolMismatch)
        },
        None => Err(ErrorKind::ProtocolMismatch),
    }
}

/// The references as sequences of characters.
pub open spec fn references_view(r: Result<Vec<String>, ErrorKind>) -> Result<
    Seq<Seq<char>>,
    ErrorKind,
> {
    match r {
        Ok(v) => Ok(Seq::new(v@.len(), |i: int| v@[i]@)),
        Err(kind) => Err(kind),
    }
}

/// The post references for the link targets that were read. A document
/// without the list, or with a link that has no target, is refused.
pub fn posts_from_links(links: Option<Vec<Option<String>>>) -> (r: Result<Vec<String>, ErrorKind>)
    ensures
        references_view(r) == references_of(
            match links {
                Some(values) => Some(values_view(values@)),
                None => None,
            },
        ),
{
    match links {
        Some(values) => {
            let ghost target = values_view(values@);
            let mut out: Vec<String> = Vec::new();
            let mut i: usize = 0;
            while i < values.len()
                invariant
                    i <= values@.len(),
                    target == values_view(values@),
                    links == Some(values),
                    out@.len() == i,
                    forall|j: int| 0 <= j < i ==> target[j] == Some(#[trigger] out@[j]@),
                decreases values@.len() - i,
            {
                match &values[i] {
                    Some(href) => {
                        out.push(href.clone());
                    },
                    None => {
                        assert(target[i as int] is None);
                        return Err(ErrorKind::ProtocolMismatch);
                    },
                }
                i = i + 1;
            }
            assert forall|k: int| 0 <= k < target.len() implies target[k] is Some by {
                assert(target[k] == Some(out@[k]@));
            }
            assert(Seq::new(out@.len(), |i: int| out@[i]@) =~= Seq::new(
                target.len(),
                |i: int| target[i]->0,
            ));
            Ok(out)
        },
        None => Err(ErrorKind::ProtocolMismatch),
    }
}

/// The post references in the document `page`, in document order. A
/// document too long for the parser is refused.
pub fn extract_posts(page: &str) -> (r: Result<Vec<String>, ErrorKind>)
    ensures
        fits_parser(page@) ==> references_view(r) == references_of(
            nested_attributes(page@, list_selector(), link_selector(), "href"@),
        ),
        !fits_parser(page@) ==> r == Err::<Vec<String>, ErrorKind>(ErrorKind::ProtocolMismatch),
{
    if !page_fits(page) {
        return Err(ErrorKind::ProtocolMismatch);
    }
    posts_from_links(
        select_nested_attributes(
            page,
            "div[data-e2e=\"user-post-item-list\"]",
            "div[data-e2e=\"user-post-item\"] a",
            "href",
        ),
    )
}

} // verus!
