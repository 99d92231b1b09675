//! The permission checkpoint consumed before any capability-sensitive call:
//! network, file system, process spawn, environment, timing and native
//! extensions. A denial short-circuits the call with a typed error before
//! any native effect occurs. The policy is held as plain allow flags and
//! allow lists; what fills them is outside this core.

use crate::errors::CoreError;
use vstd::prelude::*;

verus! {

/// A parsed locator of a network or file target, as the checkpoint reads
/// it: scheme, host, optional port and path.
pub struct UrlParts {
    pub scheme: String,
    pub host: String,
    pub port: Option<u16>,
    pub path: String,
}

/// What parsing a locator text yields — its scheme, host, port and path —
/// or nothing for a text that is not a valid locator; the outcome depends
/// on the text alone.
pub uninterp spec fn url_parts_of(s: Seq<char>) -> Option<
    (Seq<char>, Seq<char>, Option<u16>, Seq<char>),
>;

/// Relies on url::Url::parse and the accessors scheme, host_str, port and
/// path: a valid locator parses into those components, an invalid one is
/// refused, and the outcome is a function of the text alone. A locator
/// without a host yields an empty host.
#[verifier::external_body]
pub(crate) fn parse_url(s: &str) -> (r: Option<UrlParts>)
    ensures
        (r is Some) <==> url_parts_of(s@) is Some,
        r is Some ==> {
            let parts = url_parts_of(s@)->Some_0;
            &&& (r->Some_0).scheme@ == parts.0
            &&& (r->Some_0).host@ == parts.1
            &&& (r->Some_0).port == parts.2
            &&& (r->Some_0).path@ == parts.3
        },
{
    match url::Url::parse(s) {
        Ok(u) => Some(UrlParts {
            scheme: u.scheme().to_string(),
            host: u.host_str().unwrap_or("").to_string(),
            port: u.port(),
            path: u.path().to_string(),
        }),
        Err(_) => None,
    }
}

/// The permission policy of one execution context.
pub struct Permissions {
    pub allow_net: bool,
    pub net_allowlist: Vec<(String, u16)>,
    pub allow_read: bool,
    pub read_allowlist: Vec<String>,
    pub allow_write: bool,
    pub write_allowlist: Vec<String>,
    pub allow_env: bool,
    pub allow_run: bool,
    pub allow_hrtime: bool,
    pub allow_plugin: bool,
}

impl Permissions {
    /// Whether the policy admits contacting `host` at `port`: either the
    /// blanket network allowance, or an allow-list entry naming exactly
    /// that host and port.
    pub open spec fn net_allowed(self, host: Seq<char>, port: u16) -> bool {
        self.allow_net || exists|i: int|
            0 <= i < self.net_allowlist@.len() && (#[trigger] self.net_allowlist@[i]).0@ == host
                && self.net_allowlist@[i].1 == port
    }

    /// Whether the policy admits reading `path`: the blanket allowance, or
    /// an allow-list entry naming the path.
    pub open spec fn read_allowed(self, path: Seq<char>) -> bool {
        self.allow_read || exists|i: int|
            0 <= i < self.read_allowlist@.len() && (#[trigger] self.read_allowlist@[i])@ == path
    }

    /// Whether the policy admits writing `path`.
    pub open spec fn write_allowed(self, path: Seq<char>) -> bool {
        self.allow_write || exists|i: int|
            0 <= i < self.write_allowlist@.len() && (#[trigger] self.write_allowlist@[i])@ == path
    }

    /// A policy that admits everything.
    pub fn allow_all() -> (p: Permissions)
        ensures
            p.allow_net && p.allow_read && p.allow_write && p.allow_env && p.allow_run
                && p.allow_hrtime && p.allow_plugin,
    {
        Permissions {
            allow_net: true,
            net_allowlist: Vec::new(),
            allow_read: true,
            read_allowlist: Vec::new(),
            allow_write: true,
            write_allowlist: Vec::new(),
            allow_env: true,
            allow_run: true,
            allow_hrtime: true,
            allow_plugin: true,
        }
    }

    /// A policy that refuses everything.
    pub fn deny_all() -> (p: Permissions)
        ensures
            !p.allow_net && !p.allow_read && !p.allow_write && !p.allow_env && !p.allow_run
                && !p.allow_hrtime && !p.allow_plugin,
            p.net_allowlist@.len() == 0,
            p.read_allowlist@.len() == 0,
            p.write_allowlist@.len() == 0,
    {
        Permissions {
            allow_net: false,
            net_allowlist: Vec::new(),
            allow_read: false,
            read_allowlist: Vec::new(),
            allow_write: false,
            write_allowlist: Vec::new(),
            allow_env: false,
            allow_run: false,
            allow_hrtime: false,
            allow_plugin: false,
        }
    }

    /// Checks a network target: allowed exactly when the policy admits the
    /// host and port, refused with a typed permission error otherwise.
    pub fn check_net(&self, hostname: &str, port: u16) -> (r: Result<(), CoreError>)
        ensures
            (r is Ok) <==> self.net_allowed(hostname@, port),
            r is Err ==> r->Err_0 == CoreError::PermissionDenied,
    {
        if self.allow_net {
            return Ok(());
        }
        let wanted: String = hostname.to_owned();
        let n = self.net_allowlist.len();
        let mut i: usize = 0;
        while i < n
            invariant
                n == self.net_allowlist@.len(),
                0 <= i <= n,
                wanted@ == hostname@,
                forall|j: int|
                    0 <= j < i ==> !((#[trigger] self.net_allowlist@[j]).0@ == hostname@
                        && self.net_allowlist@[j].1 == port),
            decreases n - i,
        {
            if self.net_allowlist[i].0 == wanted && self.net_allowlist[i].1 == port {
                return Ok(());
            }
            i = i + 1;
        }
        Err(CoreError::PermissionDenied)
    }

    /// Checks a file read: allowed exactly when the policy admits the path.
    pub fn check_read(&self, path: &str) -> (r: Result<(), CoreError>)
        ensures
            (r is Ok) <==> self.read_allowed(path@),
            r is Err ==> r->Err_0 == CoreError::PermissionDenied,
    {
        if self.allow_read {
            return Ok(());
        }
        let wanted: String = path.to_owned();
        let n = self.read_allowlist.len();
        let mut i: usize = 0;
        while i < n
            invariant
                n == self.read_allowlist@.len(),
                0 <= i <= n,
                wanted@ == path@,
                forall|j: int| 0 <= j < i ==> !((#[trigger] self.read_allowlist@[j])@ == path@),
            decreases n - i,
        {
            if self.read_allowlist[i] == wanted {
                return Ok(());
            }
            i = i + 1;
        }
        Err(CoreError::PermissionDenied)
    }

    /// Checks a file write: allowed exactly when the policy admits the
    /// path.
    pub fn check_write(&self, path: &str) -> (r: Result<(), CoreError>)
        ensures
            (r is Ok) <==> self.write_allowed(path@),
            r is Err ==> r->Err_0 == CoreError::PermissionDenied,
    {
        if self.allow_write {
            return Ok(());
        }
        let wanted: String = path.to_owned();
        let n = self.write_allowlist.len();
        let mut i: usize = 0;
        while i < n
            invariant
                n == self.write_allowlist@.len(),
                0 <= i <= n,
                wanted@ == path@,
                forall|j: int| 0 <= j < i ==> !((#[trigger] self.write_allowlist@[j])@ == path@),
            decreases n - i,
        {
            if self.write_allowlist[i] == wanted {
                return Ok(());
            }
            i = i + 1;
        }
        Err(CoreError::PermissionDenied)
    }

    /// Checks access to the environment.
    pub fn check_env(&self) -> (r: Result<(), CoreError>)
        ensures
            (r is Ok) <==> self.allow_env,
            r is Err ==> r->Err_0 == CoreError::PermissionDenied,
    {
        if self.allow_env {
            Ok(())
        } else {
            Err(CoreError::PermissionDenied)
        }
    }

    /// Checks spawning a subprocess.
    pub fn check_run(&self) -> (r: Result<(), CoreError>)
        ensures
            (r is Ok) <==> self.allow_run,
            r is Err ==> r->Err_0 == CoreError::PermissionDenied,
    {
        if self.allow_run {
            Ok(())
        } else {
            Err(CoreError::PermissionDenied)
        }
    }

    /// Checks access to high-resolution time.
    pub fn check_hrtime(&self) -> (r: Result<(), CoreError>)
        ensures
            (r is Ok) <==> self.allow_hrtime,
            r is Err ==> r->Err_0 == CoreError::PermissionDenied,
    {
        if self.allow_hrtime {
            Ok(())
        } else {
            Err(CoreError::PermissionDenied)
        }
    }

    /// Checks loading a native extension.
    pub fn check_plugin(&self) -> (r: Result<(), CoreError>)
        ensures
            (r is Ok) <==> self.allow_plugin,
            r is Err ==> r->Err_0 == CoreError::PermissionDenied,
    {
        if self.allow_plugin {
            Ok(())
        } else {
            Err(CoreError::PermissionDenied)
        }
    }

    /// The port a network check uses for a locator: its own, or for a web
    /// locator that carries none, the scheme's well-known port.
    pub open spec fn effective_port_spec(u: UrlParts) -> Option<u16> {
        match u.port {
            Option::Some(p) => Option::Some(p),
            Option::None => {
                if u.scheme@ == "http"@ {
                    Option::Some(80)
                } else if u.scheme@ == "https"@ {
                    Option::Some(443)
                } else {
                    Option::None
                }
            },
        }
    }

    /// The port a network check uses for a locator that carries none: the
    /// scheme's well-known port.
    pub fn effective_port(u: &UrlParts) -> (r: Option<u16>)
        ensures
            r == Self::effective_port_spec(*u),
    {
        match u.port {
            Option::Some(p) => Some(p),
            Option::None => {
                let http: String = "http".to_owned();
                let https: String = "https".to_owned();
                if u.scheme == http {
                    Some(80)
                } else if u.scheme == https {
                    Some(443)
                } else {
                    None
                }
            },
        }
    }

    /// Checks a network target given as a parsed locator; a locator whose
    /// scheme has no known port is refused.
    pub fn check_net_url(&self, u: &UrlParts) -> (r: Result<(), CoreError>)
        ensures
            (r is Ok) == (match Self::effective_port_spec(*u) {
                Option::Some(p) => self.net_allowed(u.host@, p),
                Option::None => false,
            }),
            r is Err ==> r->Err_0 == CoreError::PermissionDenied,
    {
        match Self::effective_port(u) {
            Option::Some(p) => self.check_net(u.host.as_str(), p),
            Option::None => Err(CoreError::PermissionDenied),
        }
    }
}

} // verus!
