//! The view of one digest: the stored document with a navigation bar put in.

use crate::front::{failure_status, Failure, NOT_FOUND};
use crate::markup::{BODY_OPEN, HEAD_CLOSE, NAV_BAR, NAV_STYLE};
use crate::text::{occurs_in, replace_first, replace_first_in};
use vstd::prelude::*;
use vstd::string::*;

verus! {

/// The stored document with the style of the navigation bar put in front of
/// the first tag that closes a head, and the bar itself behind the first tag
/// that opens a body. Where a tag is missing, nothing is put in for it.
pub open spec fn with_navigation(html: Seq<char>) -> Seq<char> {
    replace_first(
        replace_first(html, HEAD_CLOSE@, NAV_STYLE@ + HEAD_CLOSE@),
        BODY_OPEN@,
        BODY_OPEN@ + NAV_BAR@,
    )
}

/// A document that has neither of the two tags stays as it is.
pub proof fn lemma_without_tags_unchanged(html: Seq<char>)
    requires
        !occurs_in(html, HEAD_CLOSE@),
        !occurs_in(html, BODY_OPEN@),
    ensures
        with_navigation(html) == html,
{
}

/// The stored document with the navigation bar put in.
pub fn inject_navigation(html: &str) -> (page: String)
    ensures
        page@ == with_navigation(html@),
{
    let mut style = NAV_STYLE.to_owned();
    style.append(HEAD_CLOSE);
    let styled = replace_first_in(html, HEAD_CLOSE, style.as_str());
    let mut bar = BODY_OPEN.to_owned();
    bar.append(NAV_BAR);
    replace_first_in(styled.as_str(), BODY_OPEN, bar.as_str())
}

/// The answer to a request for the digest of `date`, given what the store
/// holds for it: the document with the navigation bar, or the failure of a
/// digest that is not there.
pub fn digest_page(date: &str, stored: Option<String>) -> (r: Result<String, Failure>)
    ensures
        match stored {
            Some(html) => r matches Ok(page) && page@ == with_navigation(html@),
            None => r matches Err(f) && f matches Failure::NoDigest { date: d } && d@ == date@
                && failure_status(f) == NOT_FOUND,
        },
{
    match stored {
        Some(html) => Ok(inject_navigation(html.as_str())),
        None => Err(Failure::NoDigest { date: date.to_owned() }),
    }
}

} // verus!
