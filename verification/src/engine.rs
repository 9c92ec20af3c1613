//! The per-repository status engine.
//!
//! Computing one repository's status needs repository and network access at
//! several points: resolving HEAD and the upstream, probing the remote host,
//! fetching, ancestry tests, and enumerating status entries. The engine owns
//! every decision between those points, as a verified step function from the
//! current state and the latest observation to the next state and the next
//! action; the driver merely performs each action against the repository and
//! feeds back what it observed.
//!
//! Error discipline: an unresolvable HEAD and a failed status enumeration
//! are fatal for the repository; everything else (unparseable upstream
//! reference, missing remote, unreachable host, failed fetch, failed
//! re-resolution or ancestry test) is recorded in-band by setting the
//! `err_check` flag and computation continues with the data at hand.

use crate::net::SocketData;
use crate::refname::parse_remote_from_ref;
use crate::refname::spec_parse_remote_ref;
use crate::status::entry_new_file;
use crate::status::entry_uncommitted;
use crate::status::entry_untracked;
use crate::status::RepoSeverity;
use crate::status::RepoStatus;
use vstd::prelude::*;

verus! {

/// A commit id, as the twenty raw object-id bytes.
pub type OidBytes = [u8; 20];

/// Why one repository's status cannot be computed at all.
#[derive(Clone, Copy, PartialEq, Eq, Structural, Debug)]
pub enum RepoError {
    /// HEAD could not be resolved to a commit (for instance an unborn
    /// branch).
    NoHead,
    /// The working-tree and index status entries could not be read.
    StatusEnumerationFailure,
}

/// What the driver observed about the configured upstream.
#[derive(Debug)]
pub struct UpstreamInfo {
    /// The upstream's commit id.
    pub oid: OidBytes,
    /// The fully-qualified name of the upstream reference, when the upstream
    /// came from a named reference that has a textual name.
    pub ref_name: Option<String>,
    /// Whether that reference is a remote-tracking reference.
    pub is_remote: bool,
}

/// How looking up the configured remote went.
#[derive(Debug)]
pub enum RemoteLookup {
    /// The remote does not exist (or could not be loaded).
    Missing,
    /// The remote exists but has no URL configured.
    NoUrl,
    /// The remote's URL.
    Url(String),
}

/// One observation handed to the engine, answering the pending action.
#[derive(Debug)]
pub enum Event {
    /// The commit id HEAD resolves to, if any.
    Head(Option<OidBytes>),
    /// The configured upstream, if any.
    Upstream(Option<UpstreamInfo>),
    /// The result of looking up the remote named by the last action.
    RemoteUrl(RemoteLookup),
    /// Whether the probed endpoint accepted a connection.
    Reachable(bool),
    /// Whether the fetch succeeded.
    Fetched(bool),
    /// The upstream's commit id after the fetch, if it resolved again.
    UpstreamAgain(Option<OidBytes>),
    /// Whether the first commit of the last ancestry check is a proper
    /// descendant of the second; nothing if the test itself failed.
    Ahead(Option<bool>),
    /// The same for the opposite direction.
    Behind(Option<bool>),
    /// The change bits of every working-tree and index status entry, or
    /// nothing if enumeration failed.
    Entries(Option<Vec<u32>>),
}

/// What the driver must do next, after feeding an event.
#[derive(Debug)]
pub enum Action {
    /// Resolve the configured upstream of HEAD's branch.
    ResolveUpstream,
    /// Look up the named remote and report its URL.
    LookupRemote(String),
    /// Probe whether this endpoint accepts a TCP connection (through the
    /// shared reachability cache).
    Probe(SocketData),
    /// Fetch the named branch from the remote looked up before.
    Fetch(String),
    /// Resolve the upstream's commit id anew, after the fetch.
    ResolveUpstreamAgain,
    /// Test whether the first commit is a proper descendant of the second.
    CheckDescendant(OidBytes, OidBytes),
    /// Enumerate all working-tree and index status entries.
    ReadStatuses,
    /// The computation is over; this is its outcome.
    Finish(Result<RepoStatus, RepoError>),
}

/// Where the engine stands in one repository's status computation. Each
/// state waits for exactly one kind of event.
#[derive(Debug)]
pub enum Engine {
    /// Waiting for HEAD's commit id.
    AtHead { do_fetch: bool },
    /// Waiting for the upstream resolution.
    AtUpstream { do_fetch: bool, head: OidBytes },
    /// Waiting for the remote lookup.
    AtRemote { head: OidBytes, upstream: OidBytes, branch: String },
    /// Waiting for the reachability verdict.
    AtProbe { head: OidBytes, upstream: OidBytes, branch: String },
    /// Waiting for the fetch outcome.
    AtFetch { head: OidBytes, upstream: OidBytes },
    /// Waiting for the post-fetch upstream commit id.
    AtUpstreamAgain { head: OidBytes, upstream: OidBytes },
    /// Waiting for the ahead ancestry test.
    AtAhead { head: OidBytes, upstream: OidBytes, err: bool },
    /// Waiting for the behind ancestry test.
    AtBehind { head: OidBytes, upstream: OidBytes, err: bool, ahead: bool },
    /// Waiting for the status entries.
    AtEntries { partial: RepoStatus },
    /// Finished; no further event fits.
    Done,
}

/// Whether an event answers what the state is waiting for.
pub open spec fn expects(s: Engine, e: Event) -> bool {
    match (s, e) {
        (Engine::AtHead { .. }, Event::Head(_)) => true,
        (Engine::AtUpstream { .. }, Event::Upstream(_)) => true,
        (Engine::AtRemote { .. }, Event::RemoteUrl(_)) => true,
        (Engine::AtProbe { .. }, Event::Reachable(_)) => true,
        (Engine::AtFetch { .. }, Event::Fetched(_)) => true,
        (Engine::AtUpstreamAgain { .. }, Event::UpstreamAgain(_)) => true,
        (Engine::AtAhead { .. }, Event::Ahead(_)) => true,
        (Engine::AtBehind { .. }, Event::Behind(_)) => true,
        (Engine::AtEntries { .. }, Event::Entries(_)) => true,
        _ => false,
    }
}

impl Engine {
    /// Begin the computation for one repository. The driver's first duty is
    /// to resolve HEAD and feed `Event::Head`.
    pub fn start(do_fetch: bool) -> (r: Engine)
        ensures
            r == (Engine::AtHead { do_fetch }),
    {
        Engine::AtHead { do_fetch }
    }

    /// Consume one observation and decide the next action. The transition
    /// table is stated case by case in the `ensures` clauses; together they
    /// cover every state/event pair that `expects` admits.
    pub fn step(self, e: Event) -> (r: (Engine, Action))
        requires
            expects(self, e),
        ensures
            // An unresolvable HEAD is fatal for this repository.
            self matches Engine::AtHead { .. } ==> e matches Event::Head(None) ==> r == (
                Engine::Done,
                Action::Finish(Err(RepoError::NoHead)),
            ),
            // With HEAD in hand, ask for the upstream.
            self matches Engine::AtHead { do_fetch } ==> e matches Event::Head(Some(h)) ==> r == (
                (Engine::AtUpstream { do_fetch, head: h }),
                Action::ResolveUpstream,
            ),
            // No upstream: no fetch, both divergence flags stay false; only
            // the working-tree/index entries remain to be read.
            self matches Engine::AtUpstream { .. } ==> e matches Event::Upstream(None) ==> r == (
                (Engine::AtEntries { partial: RepoStatus::clean_spec() }),
                Action::ReadStatuses,
            ),
            // Upstream present but fetching is off, or the upstream has no
            // named reference to fetch through: proceed to the ancestry
            // tests against the current upstream commit.
            self matches Engine::AtUpstream { do_fetch, head } ==> e matches Event::Upstream(
                Some(u),
            ) ==> (!do_fetch || u.ref_name is None) ==> r == (
                (Engine::AtAhead { head, upstream: u.oid, err: false }),
                Action::CheckDescendant(head, u.oid),
            ),
            // A reference name that does not parse as remote/branch: the
            // fetch is skipped and recorded in-band; computation continues
            // on pre-fetch data.
            self matches Engine::AtUpstream { do_fetch, head } ==> e matches Event::Upstream(
                Some(u),
            ) ==> do_fetch ==> (u.ref_name matches Some(name) ==> spec_parse_remote_ref(
                u.is_remote,
                name@,
            ) is None ==> r == (
                (Engine::AtAhead { head, upstream: u.oid, err: true }),
                Action::CheckDescendant(head, u.oid),
            )),
            // A well-formed remote-tracking name: ask for that remote.
            self matches Engine::AtUpstream { do_fetch, head } ==> e matches Event::Upstream(
                Some(u),
            ) ==> do_fetch ==> (u.ref_name matches Some(name) ==> (spec_parse_remote_ref(
                u.is_remote,
                name@,
            ) matches Some(rb) ==> {
                &&& r.0 matches Engine::AtRemote { head: h2, upstream, branch }
                &&& h2 == head
                &&& upstream == u.oid
                &&& branch@ == rb.1
                &&& r.1 matches Action::LookupRemote(rname)
                &&& rname@ == rb.0
            })),
            // The remote cannot be loaded: fetch skipped, recorded in-band.
            self matches Engine::AtRemote { head, upstream, .. } ==> e matches Event::RemoteUrl(
                RemoteLookup::Missing,
            ) ==> r == (
                (Engine::AtAhead { head, upstream, err: true }),
                Action::CheckDescendant(head, upstream),
            ),
            // A remote without a URL: nothing to probe, fetch directly.
            self matches Engine::AtRemote { head, upstream, branch } ==> e
                matches Event::RemoteUrl(RemoteLookup::NoUrl) ==> r == (
                (Engine::AtFetch { head, upstream }),
                Action::Fetch(branch),
            ),
            // A URL with a network origin: gate the fetch on reachability,
            // through the shared cache.
            self matches Engine::AtRemote { head, upstream, branch } ==> e
                matches Event::RemoteUrl(RemoteLookup::Url(url))
                ==> crate::net::url_origin_of(url@) matches Some(o) ==> ({
                &&& r.0 matches Engine::AtProbe { head: h2, upstream: u2, branch: b2 }
                &&& h2 == head
                &&& u2 == upstream
                &&& b2 == branch
                &&& r.1 matches Action::Probe(sd)
                &&& sd.host@ == o.0
                &&& sd.port == o.1
            }),
            // A URL without a network origin (for instance a filesystem
            // remote): fetch directly, with no reachability probe.
            self matches Engine::AtRemote { head, upstream, branch } ==> e
                matches Event::RemoteUrl(RemoteLookup::Url(url))
                ==> crate::net::url_origin_of(url@) is None ==> r == (
                (Engine::AtFetch { head, upstream }),
                Action::Fetch(branch),
            ),
            // Unreachable host: skip the fetch, record in-band.
            self matches Engine::AtProbe { head, upstream, .. } ==> e matches Event::Reachable(
                false,
            ) ==> r == (
                (Engine::AtAhead { head, upstream, err: true }),
                Action::CheckDescendant(head, upstream),
            ),
            // Reachable: fetch.
            self matches Engine::AtProbe { head, upstream, branch } ==> e
                matches Event::Reachable(true) ==> r == (
                (Engine::AtFetch { head, upstream }),
                Action::Fetch(branch),
            ),
            // Fetch failure: recorded in-band, continue on pre-fetch data.
            self matches Engine::AtFetch { head, upstream } ==> e matches Event::Fetched(false)
                ==> r == (
                (Engine::AtAhead { head, upstream, err: true }),
                Action::CheckDescendant(head, upstream),
            ),
            // Fetch success: the upstream commit may have moved; resolve it
            // again.
            self matches Engine::AtFetch { head, upstream } ==> e matches Event::Fetched(true)
                ==> r == ((Engine::AtUpstreamAgain { head, upstream }), Action::ResolveUpstreamAgain),
            // Use the fresh upstream commit for the ancestry tests.
            self matches Engine::AtUpstreamAgain { head, .. } ==> e matches Event::UpstreamAgain(
                Some(new_oid),
            ) ==> r == (
                (Engine::AtAhead { head, upstream: new_oid, err: false }),
                Action::CheckDescendant(head, new_oid),
            ),
            // The upstream no longer resolves after the fetch: recorded
            // in-band, continue with the pre-fetch commit.
            self matches Engine::AtUpstreamAgain { head, upstream } ==> e
                matches Event::UpstreamAgain(None) ==> r == (
                (Engine::AtAhead { head, upstream, err: true }),
                Action::CheckDescendant(head, upstream),
            ),
            // Record the ahead verdict (a failed test counts as in-band
            // error and no divergence), then test the other direction.
            self matches Engine::AtAhead { head, upstream, err } ==> e matches Event::Ahead(res)
                ==> r == (
                (Engine::AtBehind {
                    head,
                    upstream,
                    err: err || res is None,
                    ahead: res == Some(true),
                }),
                Action::CheckDescendant(upstream, head),
            ),
            // Both directions known: only the entries remain.
            self matches Engine::AtBehind { err, ahead, .. } ==> e matches Event::Behind(res)
                ==> r == (
                (Engine::AtEntries {
                    partial: RepoStatus {
                        uncommitted_changes: false,
                        untracked_files: false,
                        new_files: false,
                        local_ahead: ahead,
                        local_behind: res == Some(true),
                        err_check: err || res is None,
                    },
                }),
                Action::ReadStatuses,
            ),
            // Unreadable status entries are fatal for this repository.
            self matches Engine::AtEntries { .. } ==> e matches Event::Entries(None) ==> r == (
                Engine::Done,
                Action::Finish(Err(RepoError::StatusEnumerationFailure)),
            ),
            // Fold the entries into the dirtiness flags and finish.
            self matches Engine::AtEntries { partial } ==> e matches Event::Entries(Some(list))
                ==> ({
                &&& r.0 == Engine::Done
                &&& r.1 matches Action::Finish(Ok(st))
                &&& st.local_ahead == partial.local_ahead
                &&& st.local_behind == partial.local_behind
                &&& st.err_check == partial.err_check
                &&& st.untracked_files == (partial.untracked_files || exists|i: int|
                    0 <= i < list@.len() && entry_untracked(#[trigger] list@[i]))
                &&& st.new_files == (partial.new_files || exists|i: int|
                    0 <= i < list@.len() && entry_new_file(#[trigger] list@[i]))
                &&& st.uncommitted_changes == (partial.uncommitted_changes || exists|i: int|
                    0 <= i < list@.len() && entry_uncommitted(#[trigger] list@[i]))
            }),
    {
        match (self, e) {
            (Engine::AtHead { do_fetch: _ }, Event::Head(None)) => {
                (Engine::Done, Action::Finish(Err(RepoError::NoHead)))
            },
            (Engine::AtHead { do_fetch }, Event::Head(Some(h))) => {
                (Engine::AtUpstream { do_fetch, head: h }, Action::ResolveUpstream)
            },
            (Engine::AtUpstream { do_fetch: _, head: _ }, Event::Upstream(None)) => {
                (Engine::AtEntries { partial: RepoStatus::new() }, Action::ReadStatuses)
            },
            (Engine::AtUpstream { do_fetch, head }, Event::Upstream(Some(u))) => {
                if do_fetch {
                    match u.ref_name {
                        Some(name) => {
                            match parse_remote_from_ref(u.is_remote, name.as_str()) {
                                Some((remote, branch)) => {
                                    (
                                        Engine::AtRemote { head, upstream: u.oid, branch },
                                        Action::LookupRemote(remote),
                                    )
                                },
                                None => {
                                    (
                                        Engine::AtAhead { head, upstream: u.oid, err: true },
                                        Action::CheckDescendant(head, u.oid),
                                    )
                                },
                            }
                        },
                        None => {
                            (
                                Engine::AtAhead { head, upstream: u.oid, err: false },
                                Action::CheckDescendant(head, u.oid),
                            )
                        },
                    }
                } else {
                    (
                        Engine::AtAhead { head, upstream: u.oid, err: false },
                        Action::CheckDescendant(head, u.oid),
                    )
                }
            },
            (Engine::AtRemote { head, upstream, branch: _ }, Event::RemoteUrl(
                RemoteLookup::Missing,
            )) => {
                (
                    Engine::AtAhead { head, upstream, err: true },
                    Action::CheckDescendant(head, upstream),
                )
            },
            (Engine::AtRemote { head, upstream, branch }, Event::RemoteUrl(
                RemoteLookup::NoUrl,
            )) => { (Engine::AtFetch { head, upstream }, Action::Fetch(branch)) },
            (Engine::AtRemote { head, upstream, branch }, Event::RemoteUrl(
                RemoteLookup::Url(url),
            )) => {
                match crate::net::parse_url_origin(url.as_str()) {
                    Some(sd) => {
                        (Engine::AtProbe { head, upstream, branch }, Action::Probe(sd))
                    },
                    None => { (Engine::AtFetch { head, upstream }, Action::Fetch(branch)) },
                }
            },
            (Engine::AtProbe { head, upstream, branch: _ }, Event::Reachable(false)) => {
                (
                    Engine::AtAhead { head, upstream, err: true },
                    Action::CheckDescendant(head, upstream),
                )
            },
            (Engine::AtProbe { head, upstream, branch }, Event::Reachable(true)) => {
                (Engine::AtFetch { head, upstream }, Action::Fetch(branch))
            },
            (Engine::AtFetch { head, upstream }, Event::Fetched(false)) => {
                (
                    Engine::AtAhead { head, upstream, err: true },
                    Action::CheckDescendant(head, upstream),
                )
            },
            (Engine::AtFetch { head, upstream }, Event::Fetched(true)) => {
                (Engine::AtUpstreamAgain { head, upstream }, Action::ResolveUpstreamAgain)
            },
            (Engine::AtUpstreamAgain { head, upstream: _ }, Event::UpstreamAgain(
                Some(new_oid),
            )) => {
                (
                    Engine::AtAhead { head, upstream: new_oid, err: false },
                    Action::CheckDescendant(head, new_oid),
                )
            },
            (Engine::AtUpstreamAgain { head, upstream }, Event::UpstreamAgain(None)) => {
                (
                    Engine::AtAhead { head, upstream, err: true },
                    Action::CheckDescendant(head, upstream),
                )
            },
            (Engine::AtAhead { head, upstream, err }, Event::Ahead(res)) => {
                let (ahead, err2) = match res {
                    Some(b) => (b, err),
                    None => (false, true),
                };
                (
                    Engine::AtBehind { head, upstream, err: err2, ahead },
                    Action::CheckDescendant(upstream, head),
                )
            },
            (Engine::AtBehind { head: _, upstream: _, err, ahead }, Event::Behind(res)) => {
                let (behind, err2) = match res {
                    Some(b) => (b, err),
                    None => (false, true),
                };
                (
                    Engine::AtEntries {
                        partial: RepoStatus {
                            uncommitted_changes: false,
                            untracked_files: false,
                            new_files: false,
                            local_ahead: ahead,
                            local_behind: behind,
                            err_check: err2,
                        },
                    },
                    Action::ReadStatuses,
                )
            },
            (Engine::AtEntries { partial: _ }, Event::Entries(None)) => {
                (Engine::Done, Action::Finish(Err(RepoError::StatusEnumerationFailure)))
            },
            (Engine::AtEntries { partial }, Event::Entries(Some(list))) => {
                let st = partial.apply_entries(&list);
                (Engine::Done, Action::Finish(Ok(st)))
            },
            _ => {
                proof {
                    assert(false);
                }
                vstd::pervasive::unreached()
            },
        }
    }
}

/// Law: a clean repository reports the all-false status. For every pair of
/// commit ids and either fetch setting, a run over an upstream that is
/// neither ahead nor behind (and carries no named reference to fetch
/// through), with no status entries, finishes with the default status —
/// so `is_clean` holds of it.
pub fn clean_repository_reports_clean(do_fetch: bool, head: OidBytes, upstream: OidBytes) -> (r:
    Result<RepoStatus, RepoError>)
    ensures
        r == Ok::<RepoStatus, RepoError>(RepoStatus::clean_spec()),
{
    let engine = Engine::start(do_fetch);
    let (engine, _) = engine.step(Event::Head(Some(head)));
    let (engine, _) = engine.step(
        Event::Upstream(Some(UpstreamInfo { oid: upstream, ref_name: None, is_remote: false })),
    );
    let (engine, _) = engine.step(Event::Ahead(Some(false)));
    let (engine, _) = engine.step(Event::Behind(Some(false)));
    let (_, action) = engine.step(Event::Entries(Some(Vec::new())));
    match action {
        Action::Finish(r) => r,
        _ => {
            proof {
                assert(false);
            }
            vstd::pervasive::unreached()
        },
    }
}

/// Law: a clean repository stays clean through a successful fetch. For every
/// pair of commit ids, every well-formed remote-tracking reference name and
/// every remote URL, a fetching run whose probe (if the URL has a network
/// origin) finds the host reachable, whose fetch succeeds, and whose
/// re-resolved upstream is neither ahead nor behind, with no status entries,
/// finishes with the default status.
pub fn fetched_clean_repository_reports_clean(
    head: OidBytes,
    upstream: OidBytes,
    moved: OidBytes,
    ref_name: String,
    url: String,
) -> (r: Result<RepoStatus, RepoError>)
    requires
        spec_parse_remote_ref(true, ref_name@) is Some,
    ensures
        r == Ok::<RepoStatus, RepoError>(RepoStatus::clean_spec()),
{
    let engine = Engine::start(true);
    let (engine, _) = engine.step(Event::Head(Some(head)));
    let (engine, _) = engine.step(
        Event::Upstream(
            Some(UpstreamInfo { oid: upstream, ref_name: Some(ref_name), is_remote: true }),
        ),
    );
    let (engine, action) = engine.step(Event::RemoteUrl(RemoteLookup::Url(url)));
    // With a network origin the reachability verdict is asked for first;
    // without one the fetch is issued directly.
    let engine = match action {
        Action::Probe(_) => {
            let (engine, _) = engine.step(Event::Reachable(true));
            engine
        },
        Action::Fetch(_) => engine,
        _ => {
            proof {
                assert(false);
            }
            vstd::pervasive::unreached()
        },
    };
    let (engine, _) = engine.step(Event::Fetched(true));
    let (engine, _) = engine.step(Event::UpstreamAgain(Some(moved)));
    let (engine, _) = engine.step(Event::Ahead(Some(false)));
    let (engine, _) = engine.step(Event::Behind(Some(false)));
    let (_, action) = engine.step(Event::Entries(Some(Vec::new())));
    match action {
        Action::Finish(r) => r,
        _ => {
            proof {
                assert(false);
            }
            vstd::pervasive::unreached()
        },
    }
}

/// Law: a repository ahead of its upstream and not behind reports exactly
/// that, and its severity is the divergence rank. For every pair of commit
/// ids and either fetch setting, a run whose ahead test holds and whose
/// behind test does not, with no status entries, finishes with only
/// `local_ahead` set.
pub fn ahead_repository_reports_ahead(do_fetch: bool, head: OidBytes, upstream: OidBytes) -> (r:
    Result<RepoStatus, RepoError>)
    ensures
        r matches Ok(st) && st == (RepoStatus {
            uncommitted_changes: false,
            untracked_files: false,
            new_files: false,
            local_ahead: true,
            local_behind: false,
            err_check: false,
        }) && st.severity_spec() == RepoSeverity::AheadBehind,
{
    let engine = Engine::start(do_fetch);
    let (engine, _) = engine.step(Event::Head(Some(head)));
    let (engine, _) = engine.step(
        Event::Upstream(Some(UpstreamInfo { oid: upstream, ref_name: None, is_remote: false })),
    );
    let (engine, _) = engine.step(Event::Ahead(Some(true)));
    let (engine, _) = engine.step(Event::Behind(Some(false)));
    let (_, action) = engine.step(Event::Entries(Some(Vec::new())));
    match action {
        Action::Finish(r) => r,
        _ => {
            proof {
                assert(false);
            }
            vstd::pervasive::unreached()
        },
    }
}

} // verus!
