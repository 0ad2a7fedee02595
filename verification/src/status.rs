//! The status of a directory entry.
use crate::text::{lowercase, same_text_ignoring_case};
use vstd::prelude::*;
use vstd::string::*;

verus! {

/// Status of the [`crate::Entry`]
#[derive(Debug, Clone, Copy, PartialEq, Eq, Structural)]
pub enum Status {
    Active,
    Deleted,
    National,
    Proposed,
}

/// The status that a cell names, whatever the case of its letters; `None` for
/// any other text.
pub open spec fn status_of(s: Seq<char>) -> Option<Status> {
    let l = lowercase(s);
    if l == "active"@ {
        Some(Status::Active)
    } else if l == "deleted"@ {
        Some(Status::Deleted)
    } else if l == "national"@ {
        Some(Status::National)
    } else if l == "proposed"@ {
        Some(Status::Proposed)
    } else {
        None
    }
}

/// Decodes a status cell. A text that names no status is an error, which
/// carries the text as it was found.
pub fn deserialize_status(s: &str) -> (r: Result<Status, String>)
    ensures
        match r {
            Ok(status) => status_of(s@) == Some(status),
            Err(found) => status_of(s@) is None && found@ == s@,
        },
{
    if same_text_ignoring_case(s, "active") {
        Ok(Status::Active)
    } else if same_text_ignoring_case(s, "deleted") {
        Ok(Status::Deleted)
    } else if same_text_ignoring_case(s, "national") {
        Ok(Status::National)
    } else if same_text_ignoring_case(s, "proposed") {
        Ok(Status::Proposed)
    } else {
        Err(String::from_str(s))
    }
}

/// A status cell is read without regard to case: any spelling of `active`
/// gives `Active`, and a text such as `unknown` names no status.
pub proof fn status_ignores_case()
    ensures
        status_of("active"@) == Some(Status::Active),
        status_of("Active"@) == Some(Status::Active),
        status_of("ACTIVE"@) == Some(Status::Active),
        status_of("unknown"@) is None,
        forall|s: Seq<char>| status_of(lowercase(s)) == status_of(s),
{
    reveal_strlit("active");
    reveal_strlit("Active");
    reveal_strlit("ACTIVE");
    reveal_strlit("unknown");
    reveal_strlit("deleted");
    reveal_strlit("national");
    reveal_strlit("proposed");
    assert(lowercase("active"@) =~= "active"@);
    assert(lowercase("Active"@) =~= "active"@);
    assert(lowercase("ACTIVE"@) =~= "active"@);
    assert(lowercase("unknown"@) =~= "unknown"@);
    assert("unknown"@[0] == 'u' && "deleted"@[0] == 'd');
    assert forall|s: Seq<char>| status_of(lowercase(s)) == status_of(s) by {
        assert(lowercase(lowercase(s)) =~= lowercase(s));
    }
}

} // verus!
