//! The connection builder: an accumulator of connection settings that is
//! consumed exactly once.
//!
//! Setters fill optional fields one call at a time.  `build` consumes the
//! accumulator and assembles the final connection request, attaching a TLS
//! section only when some TLS setting was touched.  Once consumed, every
//! further setter fails with `SpentBuilder` and a second `build` fails with
//! `AlreadyBuilt`; the network handshake itself is the broker client's
//! business, done by the shell with the request this module assembles.

use vstd::prelude::*;

use crate::error::SessionError;

verus! {

/// The TLS settings as the host accumulates them: empty paths mean unset.
#[derive(Clone, Debug)]
pub struct TlsProperties {
    pub client_certificate_path: String,
    pub client_private_key_path: String,
    pub server_certificate_path: String,
    pub trust_certificates: bool,
}

impl Default for TlsProperties {
    /// All paths empty and trust switched off.
    fn default() -> (r: Self)
        ensures
            r.client_certificate_path@.len() == 0,
            r.client_private_key_path@.len() == 0,
            r.server_certificate_path@.len() == 0,
            !r.trust_certificates,
    {
        TlsProperties {
            client_certificate_path: String::new(),
            client_private_key_path: String::new(),
            server_certificate_path: String::new(),
            trust_certificates: false,
        }
    }
}

/// The connection settings accumulated so far; every field is optional.
#[derive(Clone, Debug)]
pub struct ConnectionConfig {
    pub host: Option<String>,
    pub port: Option<u16>,
    pub username: Option<String>,
    pub password: Option<String>,
    pub virtual_host: Option<String>,
    pub heartbeat: Option<u32>,
    pub load_balancer_mode: Option<bool>,
}

/// The TLS section of an assembled connection request.
#[derive(Clone, Debug)]
pub struct TlsConfig {
    /// Client certificate and private key paths, when a client
    /// certificate was configured.
    pub client_certificates: Option<(String, String)>,
    /// Path of the trusted root certificate, when one was configured.
    pub root_certificates: Option<String>,
    /// Whether to accept any server certificate.  Applied whenever a TLS
    /// section is attached at all.
    pub trust_all_certificates: bool,
}

/// Everything the broker client needs to attempt the handshake.
#[derive(Clone, Debug)]
pub struct ConnectionRequest {
    pub config: ConnectionConfig,
    pub tls: Option<TlsConfig>,
}

/// The two states of the accumulator: still configurable, or consumed.
pub enum BuilderState {
    /// Still accumulating: the settings so far, and the TLS settings if
    /// any TLS setter has run.
    Configuring(ConnectionConfig, Option<TlsProperties>),
    /// `build` has consumed the accumulator.
    Spent,
}

/// The deferred connection builder.
pub struct Builder {
    state: BuilderState,
}

/// The TLS section that `build` assembles from the accumulated settings:
/// none when no TLS setter ever ran; otherwise the client certificate pair
/// when a client certificate path was set, the root certificate when a
/// server certificate path was set, and the trust flag as it stands.
pub open spec fn assembled_tls(tp: Option<TlsProperties>) -> Option<TlsConfig> {
    match tp {
        Option::None => Option::None,
        Option::Some(p) => Option::Some(
            TlsConfig {
                client_certificates: if p.client_certificate_path@.len() > 0 {
                    Option::Some((p.client_certificate_path, p.client_private_key_path))
                } else {
                    Option::None
                },
                root_certificates: if p.server_certificate_path@.len() > 0 {
                    Option::Some(p.server_certificate_path)
                } else {
                    Option::None
                },
                trust_all_certificates: p.trust_certificates,
            },
        ),
    }
}

impl Builder {
    /// The accumulator's current state.
    pub closed spec fn state_spec(self) -> BuilderState {
        self.state
    }

    /// Whether the accumulator can still be configured.
    pub open spec fn is_configuring(self) -> bool {
        self.state_spec() is Configuring
    }

    /// A fresh accumulator: no setting made, no TLS touched.
    pub fn new() -> (r: Self)
        ensures
            r.state_spec() matches BuilderState::Configuring(c, tp) && c.host is None
                && c.port is None && c.username is None && c.password is None
                && c.virtual_host is None && c.heartbeat is None
                && c.load_balancer_mode is None && tp is None,
    {
        Builder {
            state: BuilderState::Configuring(
                ConnectionConfig {
                    host: None,
                    port: None,
                    username: None,
                    password: None,
                    virtual_host: None,
                    heartbeat: None,
                    load_balancer_mode: None,
                },
                None,
            ),
        }
    }

    /// Sets the broker host name.
    pub fn set_host(&mut self, host: String) -> (r: Result<(), SessionError>)
        ensures
            old(self).state_spec() matches BuilderState::Configuring(c, tp) ==> (r is Ok
                && final(self).state_spec() == BuilderState::Configuring(
                (ConnectionConfig { host: Some(host), ..c }),
                tp,
            )),
            old(self).state_spec() is Spent ==> (r matches Err(e) && e is SpentBuilder
                && *final(self) == *old(self)),
    {
        match &mut self.state {
            BuilderState::Configuring(c, _) => {
                c.host = Some(host);
                Ok(())
            },
            BuilderState::Spent => Err(SessionError::SpentBuilder),
        }
    }

    /// Sets the broker port.
    pub fn set_port(&mut self, port: u16) -> (r: Result<(), SessionError>)
        ensures
            old(self).state_spec() matches BuilderState::Configuring(c, tp) ==> (r is Ok
                && final(self).state_spec() == BuilderState::Configuring(
                (ConnectionConfig { port: Some(port), ..c }),
                tp,
            )),
            old(self).state_spec() is Spent ==> (r matches Err(e) && e is SpentBuilder
                && *final(self) == *old(self)),
    {
        match &mut self.state {
            BuilderState::Configuring(c, _) => {
                c.port = Some(port);
                Ok(())
            },
            BuilderState::Spent => Err(SessionError::SpentBuilder),
        }
    }

    /// Sets the user name the handshake authenticates with.
    pub fn set_username(&mut self, username: String) -> (r: Result<(), SessionError>)
        ensures
            old(self).state_spec() matches BuilderState::Configuring(c, tp) ==> (r is Ok
                && final(self).state_spec() == BuilderState::Configuring(
                (ConnectionConfig { username: Some(username), ..c }),
                tp,
            )),
            old(self).state_spec() is Spent ==> (r matches Err(e) && e is SpentBuilder
                && *final(self) == *old(self)),
    {
        match &mut self.state {
            BuilderState::Configuring(c, _) => {
                c.username = Some(username);
                Ok(())
            },
            BuilderState::Spent => Err(SessionError::SpentBuilder),
        }
    }

    /// Sets the password the handshake authenticates with.
    pub fn set_password(&mut self, password: String) -> (r: Result<(), SessionError>)
        ensures
            old(self).state_spec() matches BuilderState::Configuring(c, tp) ==> (r is Ok
                && final(self).state_spec() == BuilderState::Configuring(
                (ConnectionConfig { password: Some(password), ..c }),
                tp,
            )),
            old(self).state_spec() is Spent ==> (r matches Err(e) && e is SpentBuilder
                && *final(self) == *old(self)),
    {
        match &mut self.state {
            BuilderState::Configuring(c, _) => {
                c.password = Some(password);
                Ok(())
            },
            BuilderState::Spent => Err(SessionError::SpentBuilder),
        }
    }

    /// Sets the virtual host to open the connection against.
    pub fn set_virtual_host(&mut self, virtual_host: String) -> (r: Result<(), SessionError>)
        ensures
            old(self).state_spec() matches BuilderState::Configuring(c, tp) ==> (r is Ok
                && final(self).state_spec() == BuilderState::Configuring(
                (ConnectionConfig { virtual_host: Some(virtual_host), ..c }),
                tp,
            )),
            old(self).state_spec() is Spent ==> (r matches Err(e) && e is SpentBuilder
                && *final(self) == *old(self)),
    {
        match &mut self.state {
            BuilderState::Configuring(c, _) => {
                c.virtual_host = Some(virtual_host);
                Ok(())
            },
            BuilderState::Spent => Err(SessionError::SpentBuilder),
        }
    }

    /// Sets the heartbeat interval, in seconds.
    pub fn set_heartbeat(&mut self, heartbeat: u32) -> (r: Result<(), SessionError>)
        ensures
            old(self).state_spec() matches BuilderState::Configuring(c, tp) ==> (r is Ok
                && final(self).state_spec() == BuilderState::Configuring(
                (ConnectionConfig { heartbeat: Some(heartbeat), ..c }),
                tp,
            )),
            old(self).state_spec() is Spent ==> (r matches Err(e) && e is SpentBuilder
                && *final(self) == *old(self)),
    {
        match &mut self.state {
            BuilderState::Configuring(c, _) => {
                c.heartbeat = Some(heartbeat);
                Ok(())
            },
            BuilderState::Spent => Err(SessionError::SpentBuilder),
        }
    }

    /// Sets whether the client connects through a load balancer.
    pub fn set_load_balancer_mode(&mut self, mode: bool) -> (r: Result<(), SessionError>)
        ensures
            old(self).state_spec() matches BuilderState::Configuring(c, tp) ==> (r is Ok
                && final(self).state_spec() == BuilderState::Configuring(
                (ConnectionConfig { load_balancer_mode: Some(mode), ..c }),
                tp,
            )),
            old(self).state_spec() is Spent ==> (r matches Err(e) && e is SpentBuilder
                && *final(self) == *old(self)),
    {
        match &mut self.state {
            BuilderState::Configuring(c, _) => {
                c.load_balancer_mode = Some(mode);
                Ok(())
            },
            BuilderState::Spent => Err(SessionError::SpentBuilder),
        }
    }

    /// Stages the client certificate and private key paths, touching the
    /// TLS settings.
    pub fn add_client_certificates_keys(
        &mut self,
        certificate_path: String,
        private_key_path: String,
    ) -> (r: Result<(), SessionError>)
        ensures
            old(self).state_spec() matches BuilderState::Configuring(c, tp) ==> ({
                &&& r is Ok
                &&& final(self).state_spec() matches BuilderState::Configuring(c2, tp2)
                &&& c2 == c
                &&& tp2 matches Some(p2)
                &&& p2.client_certificate_path == certificate_path
                &&& p2.client_private_key_path == private_key_path
                &&& p2.server_certificate_path@ == staged_server_path(tp)
                &&& p2.trust_certificates == staged_trust(tp)
            }),
            old(self).state_spec() is Spent ==> (r matches Err(e) && e is SpentBuilder
                && *final(self) == *old(self)),
    {
        match &mut self.state {
            BuilderState::Configuring(_, tp) => {
                let mut p = take_tls(tp);
                p.client_certificate_path = certificate_path;
                p.client_private_key_path = private_key_path;
                *tp = Some(p);
                Ok(())
            },
            BuilderState::Spent => Err(SessionError::SpentBuilder),
        }
    }

    /// Stages the trusted root certificate path, touching the TLS settings.
    pub fn add_root_certificates(&mut self, certificate_path: String) -> (r: Result<
        (),
        SessionError,
    >)
        ensures
            old(self).state_spec() matches BuilderState::Configuring(c, tp) ==> ({
                &&& r is Ok
                &&& final(self).state_spec() matches BuilderState::Configuring(c2, tp2)
                &&& c2 == c
                &&& tp2 matches Some(p2)
                &&& p2.server_certificate_path == certificate_path
                &&& p2.client_certificate_path@ == staged_client_cert(tp)
                &&& p2.client_private_key_path@ == staged_client_key(tp)
                &&& p2.trust_certificates == staged_trust(tp)
            }),
            old(self).state_spec() is Spent ==> (r matches Err(e) && e is SpentBuilder
                && *final(self) == *old(self)),
    {
        match &mut self.state {
            BuilderState::Configuring(_, tp) => {
                let mut p = take_tls(tp);
                p.server_certificate_path = certificate_path;
                *tp = Some(p);
                Ok(())
            },
            BuilderState::Spent => Err(SessionError::SpentBuilder),
        }
    }

    /// Stages whether any server certificate is to be accepted, touching
    /// the TLS settings.
    pub fn trust_certificates(&mut self, trust: bool) -> (r: Result<(), SessionError>)
        ensures
            old(self).state_spec() matches BuilderState::Configuring(c, tp) ==> ({
                &&& r is Ok
                &&& final(self).state_spec() matches BuilderState::Configuring(c2, tp2)
                &&& c2 == c
                &&& tp2 matches Some(p2)
                &&& p2.trust_certificates == trust
                &&& p2.client_certificate_path@ == staged_client_cert(tp)
                &&& p2.client_private_key_path@ == staged_client_key(tp)
                &&& p2.server_certificate_path@ == staged_server_path(tp)
            }),
            old(self).state_spec() is Spent ==> (r matches Err(e) && e is SpentBuilder
                && *final(self) == *old(self)),
    {
        match &mut self.state {
            BuilderState::Configuring(_, tp) => {
                let mut p = take_tls(tp);
                p.trust_certificates = trust;
                *tp = Some(p);
                Ok(())
            },
            BuilderState::Spent => Err(SessionError::SpentBuilder),
        }
    }

    /// Consumes the accumulator and assembles the connection request the
    /// shell hands to the broker client.  A second call finds the
    /// accumulator spent and fails with `AlreadyBuilt`.
    pub fn build(&mut self) -> (r: Result<ConnectionRequest, SessionError>)
        ensures
            old(self).state_spec() matches BuilderState::Configuring(c, tp) ==> (r matches Ok(req)
                && req.config == c && req.tls == assembled_tls(tp)),
            old(self).state_spec() is Configuring ==> final(self).state_spec() is Spent,
            old(self).state_spec() is Spent ==> (r matches Err(e) && e is AlreadyBuilt
                && *final(self) == *old(self)),
    {
        let mut st = BuilderState::Spent;
        core::mem::swap(&mut st, &mut self.state);
        match st {
            BuilderState::Configuring(config, tp) => {
                let tls = match tp {
                    None => None,
                    Some(p) => {
                        let client_certificates = if p.client_certificate_path.as_str().unicode_len()
                            > 0 {
                            Some((p.client_certificate_path, p.client_private_key_path))
                        } else {
                            None
                        };
                        let root_certificates = if p.server_certificate_path.as_str().unicode_len()
                            > 0 {
                            Some(p.server_certificate_path)
                        } else {
                            None
                        };
                        Some(
                            TlsConfig {
                                client_certificates,
                                root_certificates,
                                trust_all_certificates: p.trust_certificates,
                            },
                        )
                    },
                };
                Ok(ConnectionRequest { config, tls })
            },
            BuilderState::Spent => Err(SessionError::AlreadyBuilt),
        }
    }
}

/// The client certificate path staged so far; empty when TLS is untouched.
pub open spec fn staged_client_cert(tp: Option<TlsProperties>) -> Seq<char> {
    match tp {
        Option::Some(p) => p.client_certificate_path@,
        Option::None => Seq::empty(),
    }
}

/// The client private key path staged so far; empty when TLS is untouched.
pub open spec fn staged_client_key(tp: Option<TlsProperties>) -> Seq<char> {
    match tp {
        Option::Some(p) => p.client_private_key_path@,
        Option::None => Seq::empty(),
    }
}

/// The server certificate path staged so far; empty when TLS is untouched.
pub open spec fn staged_server_path(tp: Option<TlsProperties>) -> Seq<char> {
    match tp {
        Option::Some(p) => p.server_certificate_path@,
        Option::None => Seq::empty(),
    }
}

/// The trust flag staged so far; off when TLS is untouched.
pub open spec fn staged_trust(tp: Option<TlsProperties>) -> bool {
    match tp {
        Option::Some(p) => p.trust_certificates,
        Option::None => false,
    }
}

/// One connection session as the host sees it: the deferred builder and,
/// once built and registered, the handle that names the connection.
pub struct EnvironmentSession {
    /// The connection settings being accumulated.
    pub builder: Builder,
    id: i32,
}

impl EnvironmentSession {
    /// The registered handle, or -1 while none is.
    pub closed spec fn handle_spec(self) -> int {
        self.id as int
    }

    /// The accumulator as the contracts see it.
    pub closed spec fn builder_spec(self) -> Builder {
        self.builder
    }

    /// A fresh session around a fresh accumulator, with no handle yet.
    pub fn new() -> (r: Self)
        ensures
            r.builder_spec().is_configuring(),
            r.handle_spec() == -1,
    {
        EnvironmentSession { builder: Builder::new(), id: -1 }
    }

    /// Records the handle the registry assigned to the built connection.
    pub fn record_handle(&mut self, h: i32)
        requires
            h >= 1,
        ensures
            final(self).handle_spec() == h,
            final(self).builder_spec() == old(self).builder_spec(),
    {
        self.id = h;
    }

    /// The handle of the built connection.  Fails with `NoConnection`
    /// until a build has succeeded and been registered.
    pub fn handle(&self) -> (r: Result<i32, SessionError>)
        ensures
            self.handle_spec() >= 1 ==> (r matches Ok(h) && h == self.handle_spec()),
            self.handle_spec() < 1 ==> (r matches Err(e) && e is NoConnection),
    {
        if self.id >= 1 {
            Ok(self.id)
        } else {
            Err(SessionError::NoConnection)
        }
    }
}

/// Takes the staged TLS settings out of `tp`, creating defaults on first
/// touch.
fn take_tls(tp: &mut Option<TlsProperties>) -> (r: TlsProperties)
    ensures
        r.client_certificate_path@ == staged_client_cert(*old(tp)),
        r.client_private_key_path@ == staged_client_key(*old(tp)),
        r.server_certificate_path@ == staged_server_path(*old(tp)),
        r.trust_certificates == staged_trust(*old(tp)),
        *old(tp) matches Some(p) ==> r == p,
        *final(tp) is None,
{
    let mut out: Option<TlsProperties> = None;
    core::mem::swap(&mut out, tp);
    match out {
        Some(p) => p,
        None => TlsProperties::default(),
    }
}

} // verus!
