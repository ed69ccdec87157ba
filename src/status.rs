//! Per-path status flags, as reported by the version-control backend.

use vstd::prelude::*;

verus! {

/// The flags of one change record. Several may be set at once: a path can
/// differ between HEAD and the index and again between the index and the
/// working directory.
#[derive(Clone, Copy, Debug, PartialEq, Eq, Structural)]
pub struct StatusFlags {
    pub index_new: bool,
    pub index_modified: bool,
    pub index_deleted: bool,
    pub index_renamed: bool,
    pub index_typechange: bool,
    pub wt_new: bool,
    pub wt_modified: bool,
    pub wt_deleted: bool,
    pub wt_typechange: bool,
    pub wt_renamed: bool,
    pub wt_unreadable: bool,
    pub ignored: bool,
    pub conflicted: bool,
}

impl StatusFlags {
    /// Some index-side flag is set, or the path is conflicted.
    pub open spec fn spec_is_staged(self) -> bool {
        self.index_new || self.index_modified || self.index_deleted || self.index_renamed
            || self.index_typechange || self.conflicted
    }

    /// The record carries the ignored flag and nothing else.
    pub open spec fn spec_is_ignored_only(self) -> bool {
        self == (StatusFlags { ignored: true, ..StatusFlags::spec_none() })
    }

    pub open spec fn spec_none() -> StatusFlags {
        StatusFlags {
            index_new: false,
            index_modified: false,
            index_deleted: false,
            index_renamed: false,
            index_typechange: false,
            wt_new: false,
            wt_modified: false,
            wt_deleted: false,
            wt_typechange: false,
            wt_renamed: false,
            wt_unreadable: false,
            ignored: false,
            conflicted: false,
        }
    }

    /// No flag set: the path is unchanged.
    pub fn none() -> (r: StatusFlags)
        ensures
            r == StatusFlags::spec_none(),
    {
        StatusFlags {
            index_new: false,
            index_modified: false,
            index_deleted: false,
            index_renamed: false,
            index_typechange: false,
            wt_new: false,
            wt_modified: false,
            wt_deleted: false,
            wt_typechange: false,
            wt_renamed: false,
            wt_unreadable: false,
            ignored: false,
            conflicted: false,
        }
    }

    /// Whether the path's change is already recorded in the index. Index-side
    /// flags decide, whatever worktree-side flags stand beside them; a path
    /// with worktree-side flags only, or with no flag, is not staged.
    pub fn is_staged(&self) -> (r: bool)
        ensures
            r == self.spec_is_staged(),
    {
        if self.index_new || self.index_modified || self.index_deleted {
            true
        } else if self.index_renamed || self.index_typechange {
            true
        } else {
            self.conflicted
        }
    }

    /// Whether the record's status is exactly "ignored".
    pub fn is_ignored_only(&self) -> (r: bool)
        ensures
            r == self.spec_is_ignored_only(),
    {
        let only = StatusFlags { ignored: true, ..StatusFlags::none() };
        *self == only
    }
}

} // verus!
