//! Orderable identity wrappers: stack frames and variable scopes ordered
//! solely by their numeric identifier, for deterministic presentation.

use vstd::prelude::*;

verus! {

/// A stack frame, identified by its adapter-issued id.
#[derive(Debug, PartialEq)]
pub struct StackFrame {
    pub id: u64,
    pub name: String,
}

/// A variable scope, identified by its variables reference.
#[derive(Debug, PartialEq)]
pub struct Scope {
    pub variables_reference: u64,
    pub name: String,
}

/// The three-way order of two identifiers.
pub open spec fn spec_cmp_ids(a: int, b: int) -> core::cmp::Ordering {
    if a < b {
        core::cmp::Ordering::Less
    } else if a == b {
        core::cmp::Ordering::Equal
    } else {
        core::cmp::Ordering::Greater
    }
}

impl StackFrame {
    /// Three-way comparison keyed solely on the frame id: frames with equal
    /// ids compare equal whatever their other fields hold.
    pub fn cmp(&self, other: &StackFrame) -> (r: core::cmp::Ordering)
        ensures
            r == spec_cmp_ids(self.id as int, other.id as int),
            self.id == other.id ==> r == core::cmp::Ordering::Equal,
    {
        if self.id < other.id {
            core::cmp::Ordering::Less
        } else if self.id == other.id {
            core::cmp::Ordering::Equal
        } else {
            core::cmp::Ordering::Greater
        }
    }
}

impl Scope {
    /// Three-way comparison keyed solely on the variables reference: scopes
    /// with equal references compare equal whatever their other fields hold.
    pub fn cmp(&self, other: &Scope) -> (r: core::cmp::Ordering)
        ensures
            r == spec_cmp_ids(self.variables_reference as int, other.variables_reference as int),
            self.variables_reference == other.variables_reference ==> r
                == core::cmp::Ordering::Equal,
    {
        if self.variables_reference < other.variables_reference {
            core::cmp::Ordering::Less
        } else if self.variables_reference == other.variables_reference {
            core::cmp::Ordering::Equal
        } else {
            core::cmp::Ordering::Greater
        }
    }
}

} // verus!
