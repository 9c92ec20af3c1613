use git_summary::engine::ahead_repository_reports_ahead;
use git_summary::engine::clean_repository_reports_clean;
use git_summary::engine::fetched_clean_repository_reports_clean;
use git_summary::engine::Action;
use git_summary::engine::Engine;
use git_summary::engine::Event;
use git_summary::engine::RemoteLookup;
use git_summary::engine::RepoError;
use git_summary::engine::UpstreamInfo;
use git_summary::status::RepoSeverity;
use git_summary::status::RepoStatus;
use git_summary::status::ENTRY_WT_MODIFIED;

const HEAD: [u8; 20] = [1u8; 20];
const UPSTREAM: [u8; 20] = [2u8; 20];
const MOVED: [u8; 20] = [3u8; 20];

fn upstream_with_ref(name: &str) -> Event {
    Event::Upstream(Some(UpstreamInfo {
        oid: UPSTREAM,
        ref_name: Some(name.to_string()),
        is_remote: true,
    }))
}

fn finish(engine: Engine, ahead: Option<bool>, behind: Option<bool>, entries: Vec<u32>) -> RepoStatus {
    let (engine, action) = engine.step(Event::Ahead(ahead));
    assert!(matches!(action, Action::CheckDescendant(a, b) if a == UPSTREAM || a == MOVED || b == HEAD));
    let (engine, action) = engine.step(Event::Behind(behind));
    assert!(matches!(action, Action::ReadStatuses));
    let (_, action) = engine.step(Event::Entries(Some(entries)));
    match action {
        Action::Finish(Ok(st)) => st,
        other => panic!("expected a finished status, got {:?}", other),
    }
}

#[test]
fn clean_repository_is_all_false() {
    // No divergence, no changes: the all-false status, clean, severity Clean.
    let engine = Engine::start(false);
    let (engine, action) = engine.step(Event::Head(Some(HEAD)));
    assert!(matches!(action, Action::ResolveUpstream));
    let (engine, action) = engine.step(Event::Upstream(Some(UpstreamInfo {
        oid: UPSTREAM,
        ref_name: None,
        is_remote: false,
    })));
    assert!(matches!(action, Action::CheckDescendant(a, b) if a == HEAD && b == UPSTREAM));
    let st = finish(engine, Some(false), Some(false), vec![]);
    assert_eq!(st, RepoStatus::default());
    assert!(st.is_clean());
    assert!(matches!(st.severity(), RepoSeverity::Clean));
}

#[test]
fn ahead_repository_reports_ahead_severity() {
    // Two commits ahead, none behind: ahead set, behind clear, AheadBehind.
    let engine = Engine::start(false);
    let (engine, _) = engine.step(Event::Head(Some(HEAD)));
    let (engine, _) = engine.step(Event::Upstream(Some(UpstreamInfo {
        oid: UPSTREAM,
        ref_name: None,
        is_remote: false,
    })));
    let st = finish(engine, Some(true), Some(false), vec![]);
    assert!(st.local_ahead);
    assert!(!st.local_behind);
    assert!(!st.err_check);
    assert!(matches!(st.severity(), RepoSeverity::AheadBehind));
}

#[test]
fn unreachable_remote_with_changes_is_dirty() {
    // Uncommitted modifications plus an unreachable remote under fetching:
    // both flags set, and Dirty outranks NeedSync.
    let engine = Engine::start(true);
    let (engine, _) = engine.step(Event::Head(Some(HEAD)));
    let (engine, action) = engine.step(upstream_with_ref("refs/remotes/origin/main"));
    assert!(matches!(action, Action::LookupRemote(name) if name == "origin"));
    let (engine, action) = engine.step(Event::RemoteUrl(RemoteLookup::Url(
        "https://github.com/example/project.git".to_string(),
    )));
    match &action {
        Action::Probe(sd) => {
            assert_eq!(sd.host, "github.com");
            assert_eq!(sd.port, 443);
        },
        other => panic!("expected a probe, got {:?}", other),
    }
    let (engine, action) = engine.step(Event::Reachable(false));
    assert!(matches!(action, Action::CheckDescendant(a, b) if a == HEAD && b == UPSTREAM));
    let st = finish(engine, Some(false), Some(false), vec![ENTRY_WT_MODIFIED]);
    assert!(st.uncommitted_changes);
    assert!(st.err_check);
    assert!(!st.untracked_files);
    assert!(matches!(st.severity(), RepoSeverity::Dirty));
}

#[test]
fn no_head_is_fatal() {
    let engine = Engine::start(true);
    let (engine, action) = engine.step(Event::Head(None));
    assert!(matches!(engine, Engine::Done));
    assert!(matches!(action, Action::Finish(Err(RepoError::NoHead))));
}

#[test]
fn unreadable_entries_are_fatal() {
    let engine = Engine::start(false);
    let (engine, _) = engine.step(Event::Head(Some(HEAD)));
    let (engine, action) = engine.step(Event::Upstream(None));
    assert!(matches!(action, Action::ReadStatuses));
    let (_, action) = engine.step(Event::Entries(None));
    assert!(matches!(
        action,
        Action::Finish(Err(RepoError::StatusEnumerationFailure))
    ));
}

#[test]
fn no_upstream_means_no_divergence() {
    let engine = Engine::start(true);
    let (engine, _) = engine.step(Event::Head(Some(HEAD)));
    let (engine, action) = engine.step(Event::Upstream(None));
    assert!(matches!(action, Action::ReadStatuses));
    let (_, action) = engine.step(Event::Entries(Some(vec![])));
    match action {
        Action::Finish(Ok(st)) => {
            assert!(st.is_clean());
        },
        other => panic!("expected a finished status, got {:?}", other),
    }
}

#[test]
fn unparseable_ref_skips_fetch_and_records_error() {
    let engine = Engine::start(true);
    let (engine, _) = engine.step(Event::Head(Some(HEAD)));
    let (engine, action) = engine.step(upstream_with_ref("refs/heads/main"));
    assert!(matches!(action, Action::CheckDescendant(a, b) if a == HEAD && b == UPSTREAM));
    let st = finish(engine, Some(false), Some(false), vec![]);
    assert!(st.err_check);
    assert!(matches!(st.severity(), RepoSeverity::NeedSync));
}

#[test]
fn successful_fetch_uses_fresh_upstream() {
    let engine = Engine::start(true);
    let (engine, _) = engine.step(Event::Head(Some(HEAD)));
    let (engine, action) = engine.step(upstream_with_ref("refs/remotes/origin/main"));
    assert!(matches!(action, Action::LookupRemote(name) if name == "origin"));
    // A filesystem remote has no network origin, so nothing is probed.
    let (engine, action) = engine.step(Event::RemoteUrl(RemoteLookup::Url(
        "/srv/mirrors/project".to_string(),
    )));
    assert!(matches!(action, Action::Fetch(branch) if branch == "main"));
    let (engine, action) = engine.step(Event::Fetched(true));
    assert!(matches!(action, Action::ResolveUpstreamAgain));
    let (engine, action) = engine.step(Event::UpstreamAgain(Some(MOVED)));
    assert!(matches!(action, Action::CheckDescendant(a, b) if a == HEAD && b == MOVED));
    let st = finish(engine, Some(false), Some(true), vec![]);
    assert!(st.local_behind);
    assert!(!st.err_check);
}

#[test]
fn failed_fetch_keeps_old_upstream_and_records_error() {
    let engine = Engine::start(true);
    let (engine, _) = engine.step(Event::Head(Some(HEAD)));
    let (engine, _) = engine.step(upstream_with_ref("refs/remotes/origin/main"));
    let (engine, action) = engine.step(Event::RemoteUrl(RemoteLookup::NoUrl));
    assert!(matches!(action, Action::Fetch(branch) if branch == "main"));
    let (engine, action) = engine.step(Event::Fetched(false));
    assert!(matches!(action, Action::CheckDescendant(a, b) if a == HEAD && b == UPSTREAM));
    let st = finish(engine, Some(false), Some(false), vec![]);
    assert!(st.err_check);
}

#[test]
fn missing_remote_records_error() {
    let engine = Engine::start(true);
    let (engine, _) = engine.step(Event::Head(Some(HEAD)));
    let (engine, _) = engine.step(upstream_with_ref("refs/remotes/origin/main"));
    let (engine, action) = engine.step(Event::RemoteUrl(RemoteLookup::Missing));
    assert!(matches!(action, Action::CheckDescendant(a, b) if a == HEAD && b == UPSTREAM));
    let st = finish(engine, Some(false), Some(false), vec![]);
    assert!(st.err_check);
}

#[test]
fn reachable_remote_fetches() {
    let engine = Engine::start(true);
    let (engine, _) = engine.step(Event::Head(Some(HEAD)));
    let (engine, _) = engine.step(upstream_with_ref("refs/remotes/origin/dev"));
    let (engine, action) = engine.step(Event::RemoteUrl(RemoteLookup::Url(
        "http://mirror.test:8080/repo.git".to_string(),
    )));
    match &action {
        Action::Probe(sd) => {
            assert_eq!(sd.host, "mirror.test");
            assert_eq!(sd.port, 8080);
        },
        other => panic!("expected a probe, got {:?}", other),
    }
    let (_, action) = engine.step(Event::Reachable(true));
    assert!(matches!(action, Action::Fetch(branch) if branch == "dev"));
}

#[test]
fn failed_ancestry_test_records_error() {
    let engine = Engine::start(false);
    let (engine, _) = engine.step(Event::Head(Some(HEAD)));
    let (engine, _) = engine.step(Event::Upstream(Some(UpstreamInfo {
        oid: UPSTREAM,
        ref_name: None,
        is_remote: false,
    })));
    let st = finish(engine, None, Some(false), vec![]);
    assert!(!st.local_ahead);
    assert!(st.err_check);
}

#[test]
fn law_clean_repository_runs() {
    let clean = RepoStatus::default();
    assert_eq!(clean_repository_reports_clean(false, HEAD, UPSTREAM), Ok(clean));
    assert_eq!(clean_repository_reports_clean(true, HEAD, UPSTREAM), Ok(clean));
}

#[test]
fn law_fetched_clean_repository_runs() {
    let clean = RepoStatus::default();
    let with_origin = fetched_clean_repository_reports_clean(
        HEAD,
        UPSTREAM,
        MOVED,
        "refs/remotes/origin/main".to_string(),
        "https://example.test/repo.git".to_string(),
    );
    assert_eq!(with_origin, Ok(clean));
    let without_origin = fetched_clean_repository_reports_clean(
        HEAD,
        UPSTREAM,
        MOVED,
        "refs/remotes/origin/main".to_string(),
        "/srv/mirrors/repo".to_string(),
    );
    assert_eq!(without_origin, Ok(clean));
}

#[test]
fn law_ahead_repository_runs() {
    let st = ahead_repository_reports_ahead(false, HEAD, UPSTREAM).unwrap();
    assert!(st.local_ahead && !st.local_behind && !st.err_check);
    assert!(matches!(st.severity(), RepoSeverity::AheadBehind));
}
