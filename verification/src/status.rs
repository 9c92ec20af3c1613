//! The status of one repository: six independent flags, a derived severity,
//! and the aggregation of per-entry change bits into the three dirtiness
//! flags.

use vstd::prelude::*;

verus! {

/// Change bits of one working-tree or index status entry, as the library
/// encodes them. One entry may carry several bits.
pub const ENTRY_INDEX_NEW: u32 = 0x0001;

pub const ENTRY_INDEX_MODIFIED: u32 = 0x0002;

pub const ENTRY_INDEX_DELETED: u32 = 0x0004;

pub const ENTRY_INDEX_RENAMED: u32 = 0x0008;

pub const ENTRY_INDEX_TYPECHANGE: u32 = 0x0010;

pub const ENTRY_WT_NEW: u32 = 0x0080;

pub const ENTRY_WT_MODIFIED: u32 = 0x0100;

pub const ENTRY_WT_DELETED: u32 = 0x0200;

pub const ENTRY_WT_TYPECHANGE: u32 = 0x0400;

pub const ENTRY_WT_RENAMED: u32 = 0x0800;

pub const ENTRY_CONFLICTED: u32 = 0x8000;

/// The bits that count as an uncommitted change: modifications, deletions,
/// renames and type changes in either the index or the working tree, and
/// conflicts.
pub const ENTRY_UNCOMMITTED_MASK: u32 = ENTRY_INDEX_MODIFIED | ENTRY_INDEX_DELETED
    | ENTRY_INDEX_RENAMED | ENTRY_INDEX_TYPECHANGE | ENTRY_WT_MODIFIED | ENTRY_WT_DELETED
    | ENTRY_WT_TYPECHANGE | ENTRY_WT_RENAMED | ENTRY_CONFLICTED;

/// Six independent flags describing one repository. A freshly
/// default-constructed status (all flags false) means clean.
#[derive(Clone, Copy, PartialEq, Eq, Structural, Debug)]
pub struct RepoStatus {
    pub uncommitted_changes: bool,
    pub untracked_files: bool,
    pub new_files: bool,
    pub local_ahead: bool,
    pub local_behind: bool,
    pub err_check: bool,
}

/// Display-only ranking of a status, strongest first: Dirty outranks
/// AheadBehind, which outranks NeedSync, which outranks Clean.
#[derive(Clone, Copy, PartialEq, Eq, Structural, Debug)]
pub enum RepoSeverity {
    Clean,
    NeedSync,
    AheadBehind,
    Dirty,
}

impl RepoStatus {
    /// The all-false status.
    pub open spec fn clean_spec() -> RepoStatus {
        RepoStatus {
            uncommitted_changes: false,
            untracked_files: false,
            new_files: false,
            local_ahead: false,
            local_behind: false,
            err_check: false,
        }
    }

    pub fn new() -> (r: RepoStatus)
        ensures
            r == RepoStatus::clean_spec(),
    {
        RepoStatus {
            uncommitted_changes: false,
            untracked_files: false,
            new_files: false,
            local_ahead: false,
            local_behind: false,
            err_check: false,
        }
    }

    pub fn is_clean(&self) -> (r: bool)
        ensures
            r == (*self == RepoStatus::clean_spec()),
    {
        *self == RepoStatus::new()
    }

    /// Strict priority: any dirtiness flag makes the status Dirty; otherwise
    /// any divergence flag makes it AheadBehind; otherwise a recorded check
    /// error makes it NeedSync; otherwise it is Clean.
    pub open spec fn severity_spec(self) -> RepoSeverity {
        if self.uncommitted_changes || self.untracked_files || self.new_files {
            RepoSeverity::Dirty
        } else if self.local_behind || self.local_ahead {
            RepoSeverity::AheadBehind
        } else if self.err_check {
            RepoSeverity::NeedSync
        } else {
            RepoSeverity::Clean
        }
    }

    pub fn severity(&self) -> (s: RepoSeverity)
        ensures
            s == self.severity_spec(),
    {
        if self.uncommitted_changes || self.untracked_files || self.new_files {
            RepoSeverity::Dirty
        } else if self.local_behind || self.local_ahead {
            RepoSeverity::AheadBehind
        } else if self.err_check {
            RepoSeverity::NeedSync
        } else {
            RepoSeverity::Clean
        }
    }
}

impl Default for RepoStatus {
    fn default() -> (r: RepoStatus)
        ensures
            r == RepoStatus::clean_spec(),
    {
        RepoStatus::new()
    }
}

/// Whether one status entry is a file present only in the working tree.
pub open spec fn entry_untracked(bits: u32) -> bool {
    bits & ENTRY_WT_NEW != 0
}

/// Whether one status entry is a file staged as new in the index.
pub open spec fn entry_new_file(bits: u32) -> bool {
    bits & ENTRY_INDEX_NEW != 0
}

/// Whether one status entry carries an uncommitted change.
pub open spec fn entry_uncommitted(bits: u32) -> bool {
    bits & ENTRY_UNCOMMITTED_MASK != 0
}

impl RepoStatus {
    /// Fold the status entries of one repository into the three dirtiness
    /// flags; the divergence and error flags pass through unchanged.
    pub fn apply_entries(self, entries: &Vec<u32>) -> (r: RepoStatus)
        ensures
            r.untracked_files == (self.untracked_files || exists|i: int|
                0 <= i < entries@.len() && entry_untracked(#[trigger] entries@[i])),
            r.new_files == (self.new_files || exists|i: int|
                0 <= i < entries@.len() && entry_new_file(#[trigger] entries@[i])),
            r.uncommitted_changes == (self.uncommitted_changes || exists|i: int|
                0 <= i < entries@.len() && entry_uncommitted(#[trigger] entries@[i])),
            r.local_ahead == self.local_ahead,
            r.local_behind == self.local_behind,
            r.err_check == self.err_check,
    {
        let mut r = self;
        let mut i: usize = 0;
        while i < entries.len()
            invariant
                0 <= i <= entries@.len(),
                r.untracked_files == (self.untracked_files || exists|j: int|
                    0 <= j < i && entry_untracked(#[trigger] entries@[j])),
                r.new_files == (self.new_files || exists|j: int|
                    0 <= j < i && entry_new_file(#[trigger] entries@[j])),
                r.uncommitted_changes == (self.uncommitted_changes || exists|j: int|
                    0 <= j < i && entry_uncommitted(#[trigger] entries@[j])),
                r.local_ahead == self.local_ahead,
                r.local_behind == self.local_behind,
                r.err_check == self.err_check,
            decreases entries@.len() - i,
        {
            let bits = entries[i];
            if bits & ENTRY_WT_NEW != 0 {
                r.untracked_files = true;
            }
            if bits & ENTRY_INDEX_NEW != 0 {
                r.new_files = true;
            }
            if bits & ENTRY_UNCOMMITTED_MASK != 0 {
                r.uncommitted_changes = true;
            }
            i = i + 1;
        }
        r
    }
}

impl RepoStatus {
    /// The five-character state column: untracked, staged-new, modified,
    /// ahead/behind, check-error; `_` for each flag that is off. A diverged
    /// branch (ahead and behind at once) shows the ahead mark.
    pub open spec fn state_chars(self) -> Seq<char> {
        seq![
            if self.untracked_files { '?' } else { '_' },
            if self.new_files { '+' } else { '_' },
            if self.uncommitted_changes { 'M' } else { '_' },
            if self.local_ahead { '^' } else if self.local_behind { 'v' } else { '_' },
            if self.err_check { 'X' } else { '_' },
        ]
    }

    /// Render the state column.
    pub fn state_string(&self) -> (r: String)
        ensures
            r@ == self.state_chars(),
    {
        proof {
            reveal_strlit("?");
            reveal_strlit("+");
            reveal_strlit("M");
            reveal_strlit("^");
            reveal_strlit("v");
            reveal_strlit("X");
            reveal_strlit("_");
        }
        let mut r = String::new();
        r.append(if self.untracked_files { "?" } else { "_" });
        r.append(if self.new_files { "+" } else { "_" });
        r.append(if self.uncommitted_changes { "M" } else { "_" });
        r.append(
            if self.local_ahead {
                "^"
            } else if self.local_behind {
                "v"
            } else {
                "_"
            },
        );
        r.append(if self.err_check { "X" } else { "_" });
        proof {
            assert(r@ =~= self.state_chars());
        }
        r
    }
}

} // verus!
