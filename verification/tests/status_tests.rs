use git_summary::status::RepoSeverity;
use git_summary::status::RepoStatus;
use git_summary::status::ENTRY_CONFLICTED;
use git_summary::status::ENTRY_INDEX_NEW;
use git_summary::status::ENTRY_WT_MODIFIED;
use git_summary::status::ENTRY_WT_NEW;

fn clean() -> RepoStatus {
    RepoStatus {
        uncommitted_changes: false,
        untracked_files: false,
        new_files: false,
        local_ahead: false,
        local_behind: false,
        err_check: false,
    }
}

#[test]
fn default_is_clean() {
    let st = RepoStatus::default();
    assert!(st.is_clean());
    assert_eq!(st, clean());
    assert!(matches!(st.severity(), RepoSeverity::Clean));
}

#[test]
fn any_flag_breaks_cleanliness() {
    let mut st = clean();
    st.err_check = true;
    assert!(!st.is_clean());
    let mut st2 = clean();
    st2.local_ahead = true;
    assert!(!st2.is_clean());
}

#[test]
fn severity_ranking() {
    let mut st = clean();
    st.err_check = true;
    assert!(matches!(st.severity(), RepoSeverity::NeedSync));
    st.local_behind = true;
    assert!(matches!(st.severity(), RepoSeverity::AheadBehind));
    st.untracked_files = true;
    assert!(matches!(st.severity(), RepoSeverity::Dirty));
}

#[test]
fn dirty_outranks_need_sync() {
    let mut st = clean();
    st.uncommitted_changes = true;
    st.err_check = true;
    assert!(matches!(st.severity(), RepoSeverity::Dirty));
}

#[test]
fn state_string_clean() {
    assert_eq!(clean().state_string(), "_____");
}

#[test]
fn state_string_flags() {
    let mut st = clean();
    st.untracked_files = true;
    st.local_ahead = true;
    st.err_check = true;
    assert_eq!(st.state_string(), "?__^X");
    let mut st2 = clean();
    st2.new_files = true;
    st2.uncommitted_changes = true;
    st2.local_behind = true;
    assert_eq!(st2.state_string(), "_+Mv_");
    let mut st3 = clean();
    st3.local_ahead = true;
    st3.local_behind = true;
    assert_eq!(st3.state_string(), "___^_");
}

#[test]
fn apply_entries_sets_dirtiness_flags() {
    let st = clean().apply_entries(&vec![ENTRY_WT_NEW]);
    assert!(st.untracked_files && !st.new_files && !st.uncommitted_changes);

    let st = clean().apply_entries(&vec![ENTRY_INDEX_NEW | ENTRY_WT_MODIFIED]);
    assert!(!st.untracked_files && st.new_files && st.uncommitted_changes);

    let st = clean().apply_entries(&vec![0, ENTRY_CONFLICTED]);
    assert!(st.uncommitted_changes && !st.untracked_files && !st.new_files);

    let st = clean().apply_entries(&vec![]);
    assert!(st.is_clean());
}

#[test]
fn apply_entries_keeps_divergence_flags() {
    let mut base = clean();
    base.local_ahead = true;
    base.err_check = true;
    let st = base.apply_entries(&vec![ENTRY_WT_NEW]);
    assert!(st.local_ahead && st.err_check && st.untracked_files);
    assert!(!st.local_behind);
}
