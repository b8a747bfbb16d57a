//! When two paths count as one file.

use vstd::prelude::*;

verus! {

/// What the filesystem uses to tell files apart: the device a file lives on
/// and its inode number there. Two paths are hardlinks of one file exactly
/// when they have the same identity.
#[derive(Debug, Clone, Copy, PartialEq, Eq, Structural)]
pub struct LinkIdentity {
    pub device_id: u64,
    pub inode_number: u64,
}

/// Whether two metadata lookups found one and the same file. A lookup that
/// failed is `None`, and then the answer is no.
pub open spec fn same_file(a: Option<LinkIdentity>, b: Option<LinkIdentity>) -> bool {
    a is Some && b is Some && a->0 == b->0
}

} // verus!
