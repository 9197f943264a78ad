//! Where a unit's identity word comes from.

use vstd::prelude::*;
use crate::utils::type_alias::Id;

verus! {

/// The source of the identity word. A unit has one word, and it never
/// changes: every reading gives `spec_system_info`.
pub trait SystemInfo {
    spec fn spec_system_info(&self) -> Id;

    fn get_system_info(&self) -> (id: Id)
        ensures
            id == self.spec_system_info(),
    ;
}

} // verus!
