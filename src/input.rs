//! Validation of user input to local-state commands.

use vstd::prelude::*;
use vstd::string::*;
use crate::error::Error;

verus! {

/// What `str::trim` leaves of a text.
pub uninterp spec fn trim_of(s: Seq<char>) -> Seq<char>;

/// Relies on `str::trim`: the text without leading and trailing white
/// space; the result depends on the characters alone.
#[verifier::external_body]
fn trim_text(s: &str) -> (r: &str)
    ensures
        r@ == trim_of(s@),
{
    s.trim()
}

/// The name under which a view is stored: the given name, trimmed. A name
/// that is blank is refused.
pub fn view_name(name: &str) -> (r: Result<String, Error>)
    ensures
        trim_of(name@).len() > 0 ==> (r matches Ok(n) && n@ == trim_of(name@)),
        trim_of(name@).len() == 0 ==> r matches Err(Error::InvalidInput(_)),
{
    let trimmed = trim_text(name);
    if trimmed.unicode_len() == 0 {
        Err(Error::InvalidInput(String::from_str("View name cannot be empty")))
    } else {
        Ok(String::from_str(trimmed))
    }
}

/// Checks the key of a local draft: neither part may be blank.
pub fn check_draft_key(related_id: &str, draft_type: &str) -> (r: Result<(), Error>)
    ensures
        r is Ok == (trim_of(related_id@).len() > 0 && trim_of(draft_type@).len() > 0),
        r is Err ==> r matches Err(Error::InvalidInput(_)),
{
    if trim_text(related_id).unicode_len() == 0 || trim_text(draft_type).unicode_len() == 0 {
        Err(Error::InvalidInput(String::from_str("related_id and draft_type cannot be empty")))
    } else {
        Ok(())
    }
}

} // verus!
