//! The deduplication key for reachability probing: a resolved remote host
//! and port, extracted from a remote's URL.

use vstd::prelude::*;

verus! {

/// A remote endpoint: host (domain name or IP literal, as text) plus port.
/// Two values are equal exactly when host text and port match; the value is
/// the key under which reachability results are shared across repositories.
#[derive(Debug)]
pub struct SocketData {
    pub host: String,
    pub port: u16,
}

impl SocketData {
    /// Key equality: same host text and same port.
    pub open spec fn key_eq(&self, other: &SocketData) -> bool {
        self.host@ == other.host@ && self.port == other.port
    }
}

impl PartialEq for SocketData {
    fn eq(&self, other: &SocketData) -> (r: bool) {
        self.host == other.host && self.port == other.port
    }
}

impl vstd::std_specs::cmp::PartialEqSpecImpl for SocketData {
    open spec fn obeys_eq_spec() -> bool {
        true
    }

    open spec fn eq_spec(&self, other: &SocketData) -> bool {
        self.key_eq(other)
    }
}

impl Clone for SocketData {
    fn clone(&self) -> (r: SocketData)
        ensures
            r == *self,
    {
        SocketData { host: self.host.clone(), port: self.port }
    }
}

/// The network origin of a URL string, if it has one: the pair of host text
/// and port that the url crate's parser and origin computation yield. Both
/// depend on the URL string alone.
pub uninterp spec fn url_origin_of(s: Seq<char>) -> Option<(Seq<char>, u16)>;

/// Relies on url::Url::parse and url::Url::origin: a URL whose scheme has a
/// tuple origin (ftp, http, https, ws, wss — and blob wrapping one of these)
/// yields its host and its port (explicit, or the scheme's default);
/// anything unparseable, and any scheme with an opaque origin (ssh, file,
/// and the rest), yields nothing. The result is a function of the URL
/// string alone.
#[verifier::external_body]
pub(crate) fn parse_url_origin(s: &str) -> (r: Option<SocketData>)
    ensures
        match (r, url_origin_of(s@)) {
            (Some(sd), Some(o)) => sd.host@ == o.0 && sd.port == o.1,
            (None, None) => true,
            _ => false,
        },
{
    match url::Url::parse(s) {
        Ok(u) => match u.origin() {
            url::Origin::Tuple(_, host, port) => {
                Some(SocketData { host: host.to_string(), port })
            },
            url::Origin::Opaque(_) => None,
        },
        Err(_) => None,
    }
}

} // verus!
