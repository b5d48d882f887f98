//! Lifecycle of the single logical upload server: start in loopback-only or
//! all-interfaces mode, lease extension, synchronous stop, status with
//! implicit expiry, and the generation-guarded auto-shutdown decision.

use vstd::prelude::*;

use crate::binder::spec_attempt_in_use;
use crate::network::Ipv4Addr;
use crate::token::{
    pruned_of, spec_token_valid, wf_token_seq, AuthError, PhoneTokenResponse, TokenStore,
};
use crate::{DEFAULT_SERVER_PORT, PHONE_TOKEN_TTL_MS, PHONE_UPLOAD_TTL_MS};

verus! {

/// Whether the listener accepts only loopback connections, accepts every
/// interface, or does not exist.
#[derive(Clone, Copy, PartialEq, Eq, Structural, Debug)]
pub enum ServerBindMode {
    NotRunning,
    LocalhostOnly,
    AllInterfaces,
}

/// The externally visible upload status: whether LAN uploads are enabled,
/// and until when.
#[derive(Clone, Copy, PartialEq, Eq, Structural, Debug)]
pub struct PhoneUploadStatusResponse {
    pub enabled: bool,
    pub expires_at: i64,
}

/// What the caller of `set_phone_upload_enabled` must do next: restart the
/// loopback-only listener, bind on all interfaces for the given lease, or
/// nothing, the lease having been extended in place.
pub enum EnableAction {
    RestartLoopback,
    BindAllInterfaces(i64),
    Extended(PhoneUploadStatusResponse),
}

/// What the caller starting the loopback-only listener must do next: nothing
/// when a listener already runs, else bind on loopback and commit.
#[derive(Clone, Copy, PartialEq, Eq, Structural, Debug)]
pub enum StartAction {
    AlreadyRunning,
    BindLoopback,
}

/// The ports tried after the default one, in order.
pub fn fallback_ports() -> (r: Vec<u16>)
    ensures
        r@ == seq![8788u16, 8789u16, 8790u16, 8800u16, 8880u16],
{
    let mut v: Vec<u16> = Vec::new();
    v.push(8788);
    v.push(8789);
    v.push(8790);
    v.push(8800);
    v.push(8880);
    assert(v@ =~= seq![8788u16, 8789u16, 8790u16, 8800u16, 8880u16]);
    v
}

/// The single logical upload server: its running flag, lease expiry,
/// generation counter, bind mode, active port and token store.
pub struct PhoneServer {
    running: bool,
    expires_at: i64,
    generation: u64,
    bind_mode: ServerBindMode,
    active_port: u16,
    tokens: TokenStore,
}

impl PhoneServer {
    /// Whether a listener instance is live.
    pub closed spec fn running(self) -> bool {
        self.running
    }

    /// When the current lease expires; 0 means it never does.
    pub closed spec fn expires_at(self) -> i64 {
        self.expires_at
    }

    /// The generation of the current instance or lease.
    pub closed spec fn generation(self) -> u64 {
        self.generation
    }

    /// The current bind mode.
    pub closed spec fn bind_mode(self) -> ServerBindMode {
        self.bind_mode
    }

    /// The bound port, or 0 when no listener exists.
    pub closed spec fn active_port_raw(self) -> u16 {
        self.active_port
    }

    /// The outstanding upload tokens.
    pub closed spec fn tokens(self) -> Seq<(Seq<char>, int)> {
        self.tokens@
    }

    /// The state invariant: the bind mode names a live listener exactly when
    /// one is running, the port is set exactly then, a stopped server has no
    /// lease and no tokens, and token values are unique.
    pub open spec fn wf(self) -> bool {
        &&& (self.bind_mode() is NotRunning <==> !self.running())
        &&& (self.running() <==> self.active_port_raw() != 0)
        &&& (!self.running() ==> self.expires_at() == 0)
        &&& (!self.running() ==> self.tokens().len() == 0)
        &&& wf_token_seq(self.tokens())
    }

    /// A stopped server, with generation 0.
    pub fn new() -> (r: PhoneServer)
        ensures
            r.wf(),
            !r.running(),
            r.bind_mode() is NotRunning,
            r.expires_at() == 0,
            r.generation() == 0,
            r.active_port_raw() == 0,
            r.tokens().len() == 0,
    {
        PhoneServer {
            running: false,
            expires_at: 0,
            generation: 0,
            bind_mode: ServerBindMode::NotRunning,
            active_port: 0,
            tokens: TokenStore::new(),
        }
    }

    /// Whether a listener instance is live.
    pub fn is_running(&self) -> (r: bool)
        ensures
            r == self.running(),
    {
        self.running
    }

    /// The current bind mode.
    pub fn get_bind_mode(&self) -> (r: ServerBindMode)
        ensures
            r == self.bind_mode(),
    {
        self.bind_mode
    }

    /// The port to reach the server on: the bound port, or the default one
    /// when no listener exists.
    pub fn get_active_port(&self) -> (r: u16)
        ensures
            r == (if self.active_port_raw() == 0 {
                DEFAULT_SERVER_PORT
            } else {
                self.active_port_raw()
            }),
    {
        if self.active_port == 0 {
            DEFAULT_SERVER_PORT
        } else {
            self.active_port
        }
    }

    /// Records the bound port. The port is 0 exactly when no listener exists.
    pub fn set_active_port(&mut self, port: u16)
        requires
            old(self).wf(),
            (port == 0) == !old(self).running(),
        ensures
            final(self).wf(),
            final(self).active_port_raw() == port,
            final(self).running() == old(self).running(),
            final(self).expires_at() == old(self).expires_at(),
            final(self).generation() == old(self).generation(),
            final(self).bind_mode() == old(self).bind_mode(),
            final(self).tokens() == old(self).tokens(),
    {
        self.active_port = port;
    }

    /// The generation of the current instance or lease.
    pub fn current_generation(&self) -> (r: u64)
        ensures
            r == self.generation(),
    {
        self.generation
    }

    /// When the current lease expires; 0 means it never does.
    pub fn lease_expires_at(&self) -> (r: i64)
        ensures
            r == self.expires_at(),
    {
        self.expires_at
    }
}

/// `post` is `pre` stopped: nothing runs, no mode, no port, no lease, no
/// tokens; the generation is kept.
pub open spec fn spec_stopped_from(post: PhoneServer, pre: PhoneServer) -> bool {
    &&& !post.running()
    &&& post.bind_mode() is NotRunning
    &&& post.active_port_raw() == 0
    &&& post.expires_at() == 0
    &&& post.tokens().len() == 0
    &&& post.generation() == pre.generation()
}

/// The lease of `s` has expired at `now`: a lease exists and its expiry has
/// been reached.
pub open spec fn spec_lease_expired(s: PhoneServer, now: int) -> bool {
    s.running() && s.expires_at() > 0 && s.expires_at() <= now
}

/// The port this process holds: the active port while running, none after a
/// stop.
pub open spec fn spec_held_port(s: PhoneServer) -> Option<u16> {
    if s.running() {
        Some(s.active_port_raw())
    } else {
        None
    }
}

/// LAN uploads are on at `now`: the lease has not expired and the listener
/// covers all interfaces.
pub open spec fn spec_enabled_now(s: PhoneServer, now: int) -> bool {
    !spec_lease_expired(s, now) && s.bind_mode() is AllInterfaces
}

/// The armed auto-shutdown fires only when the server still runs under the
/// very generation and expiry it was armed with.
pub open spec fn spec_should_auto_stop(s: PhoneServer, generation: u64, expires_at: i64) -> bool {
    s.running() && s.generation() == generation && s.expires_at() == expires_at
}

impl PhoneServer {
    /// Stops the server: clears the running flag, bind mode, port and lease,
    /// and drops every token. Idempotent. The caller must signal the
    /// background task and wait for it to finish before binding again.
    pub fn stop_phone_server(&mut self) -> (r: PhoneUploadStatusResponse)
        requires
            old(self).wf(),
        ensures
            final(self).wf(),
            spec_stopped_from(*final(self), *old(self)),
            r.enabled == false,
            r.expires_at == 0,
    {
        if !self.running {
            return PhoneUploadStatusResponse { enabled: false, expires_at: 0 };
        }
        self.running = false;
        self.expires_at = 0;
        self.active_port = 0;
        self.bind_mode = ServerBindMode::NotRunning;
        self.tokens.clear_phone_tokens();
        PhoneUploadStatusResponse { enabled: false, expires_at: 0 }
    }

    /// The current status at time `now`: an expired lease first stops the
    /// server; `enabled` is true only in all-interfaces mode, never for the
    /// loopback-only integration listener.
    pub fn status_at(&mut self, now: i64) -> (r: PhoneUploadStatusResponse)
        requires
            old(self).wf(),
        ensures
            final(self).wf(),
            spec_lease_expired(*old(self), now as int) ==> spec_stopped_from(
                *final(self),
                *old(self),
            ),
            !spec_lease_expired(*old(self), now as int) ==> *final(self) == *old(self),
            r.enabled == (!spec_lease_expired(*old(self), now as int) && old(self).bind_mode()
                is AllInterfaces),
            r.expires_at == (if r.enabled {
                old(self).expires_at()
            } else {
                0
            }),
    {
        if self.running && self.expires_at > 0 && self.expires_at <= now {
            let _ = self.stop_phone_server();
        }
        let phone_enabled = match self.bind_mode {
            ServerBindMode::AllInterfaces => true,
            _ => false,
        };
        PhoneUploadStatusResponse {
            enabled: phone_enabled && self.running,
            expires_at: if phone_enabled {
                self.expires_at
            } else {
                0
            },
        }
    }

    /// The current status, read off the host clock: `status_at` at the
    /// instant `now_millis` returns. Whatever the clock returned, either the
    /// state is untouched and `enabled` reports the all-interfaces mode, or a
    /// lease existed, it was found expired, and the server was stopped.
    pub fn phone_upload_status(&mut self) -> (r: PhoneUploadStatusResponse)
        requires
            old(self).wf(),
        ensures
            final(self).wf(),
            final(self).generation() == old(self).generation(),
            (*final(self) == *old(self) && r.enabled == (old(self).bind_mode() is AllInterfaces))
                || (old(self).running() && old(self).expires_at() > 0 && spec_stopped_from(
                *final(self),
                *old(self),
            ) && !r.enabled),
            r.enabled ==> final(self).running() && final(self).bind_mode() is AllInterfaces
                && r.expires_at == final(self).expires_at(),
            !r.enabled ==> r.expires_at == 0,
    {
        let now = crate::host::now_millis();
        self.status_at(now)
    }

    /// Decides the loopback-only start: a no-op when a listener already runs
    /// in any mode; otherwise the caller binds on loopback and commits the
    /// bound port through `on_loopback_bound`.
    pub fn start_extension_server(&self) -> (r: StartAction)
        ensures
            r == (if self.running() {
                StartAction::AlreadyRunning
            } else {
                StartAction::BindLoopback
            }),
    {
        if self.running {
            StartAction::AlreadyRunning
        } else {
            StartAction::BindLoopback
        }
    }

    /// Decides the arming of the auto-shutdown for the current lease: the
    /// generation and expiry the timer must capture, or nothing when the
    /// lease never expires (an expiry of 0).
    pub fn arm_auto_shutdown(&self) -> (r: Option<(u64, i64)>)
        ensures
            r is Some <==> self.expires_at() > 0,
            r is Some ==> r == Some((self.generation(), self.expires_at())),
    {
        if self.expires_at > 0 {
            Some((self.generation, self.expires_at))
        } else {
            None
        }
    }

    /// Commits a successful loopback-only bind: the persistent integration
    /// listener, which never expires. The generation advances.
    pub fn on_loopback_bound(&mut self, port: u16)
        requires
            old(self).wf(),
            !old(self).running(),
            port != 0,
        ensures
            final(self).wf(),
            final(self).running(),
            final(self).bind_mode() is LocalhostOnly,
            final(self).active_port_raw() == port,
            final(self).expires_at() == 0,
            final(self).generation() != old(self).generation(),
            final(self).generation() == (old(self).generation() as int + 1) % 0x1_0000_0000_0000_0000,
            final(self).tokens() == old(self).tokens(),
    {
        self.running = true;
        self.expires_at = 0;
        self.active_port = port;
        self.bind_mode = ServerBindMode::LocalhostOnly;
        self.generation = self.generation.wrapping_add(1);
    }

    /// Commits a successful all-interfaces bind with a lease of
    /// `duration_ms`. The generation advances; the returned status carries
    /// the new expiry.
    pub fn on_all_interfaces_bound(&mut self, now: i64, duration_ms: i64, port: u16) -> (r:
        PhoneUploadStatusResponse)
        requires
            old(self).wf(),
            !old(self).running(),
            port != 0,
            0 <= now,
            0 < duration_ms,
            now + duration_ms <= i64::MAX,
        ensures
            final(self).wf(),
            final(self).running(),
            final(self).bind_mode() is AllInterfaces,
            final(self).active_port_raw() == port,
            final(self).expires_at() == now + duration_ms,
            final(self).generation() != old(self).generation(),
            final(self).generation() == (old(self).generation() as int + 1) % 0x1_0000_0000_0000_0000,
            final(self).tokens() == old(self).tokens(),
            r.enabled == true,
            r.expires_at == now + duration_ms,
    {
        self.running = true;
        self.expires_at = now + duration_ms;
        self.active_port = port;
        self.bind_mode = ServerBindMode::AllInterfaces;
        self.generation = self.generation.wrapping_add(1);
        PhoneUploadStatusResponse { enabled: true, expires_at: self.expires_at }
    }

    /// Extends the current all-interfaces lease in place: the expiry becomes
    /// `now + duration_ms` and the generation advances, invalidating every
    /// previously armed auto-shutdown. No rebind happens.
    pub fn extend_lease(&mut self, now: i64, duration_ms: i64) -> (r: PhoneUploadStatusResponse)
        requires
            old(self).wf(),
            old(self).running(),
            old(self).bind_mode() is AllInterfaces,
            0 <= now,
            0 < duration_ms,
            now + duration_ms <= i64::MAX,
        ensures
            final(self).wf(),
            final(self).running(),
            final(self).bind_mode() is AllInterfaces,
            final(self).active_port_raw() == old(self).active_port_raw(),
            final(self).expires_at() == now + duration_ms,
            final(self).generation() != old(self).generation(),
            final(self).generation() == (old(self).generation() as int + 1) % 0x1_0000_0000_0000_0000,
            final(self).tokens() == old(self).tokens(),
            r.enabled == true,
            r.expires_at == now + duration_ms,
    {
        self.expires_at = now + duration_ms;
        self.generation = self.generation.wrapping_add(1);
        PhoneUploadStatusResponse { enabled: true, expires_at: self.expires_at }
    }

    /// The armed auto-shutdown firing: stops the server only when it still
    /// runs under the generation and expiry the timer was armed with; any
    /// intervening start, extension or stop makes this a silent no-op.
    pub fn auto_shutdown_fire(&mut self, generation: u64, expires_at: i64) -> (stopped: bool)
        requires
            old(self).wf(),
        ensures
            final(self).wf(),
            stopped == spec_should_auto_stop(*old(self), generation, expires_at),
            stopped ==> spec_stopped_from(*final(self), *old(self)),
            !stopped ==> *final(self) == *old(self),
    {
        let should_stop = self.running && self.generation == generation && self.expires_at
            == expires_at;
        if should_stop {
            let _ = self.stop_phone_server();
        }
        should_stop
    }
}

/// The lease duration that `set_phone_upload_enabled` applies: the requested
/// one, the default when none is given, clamped to be non-negative.
pub open spec fn spec_duration_of(duration_ms: Option<i64>) -> int {
    let d = match duration_ms {
        Some(d) => d as int,
        None => PHONE_UPLOAD_TTL_MS as int,
    };
    if d < 0 {
        0
    } else {
        d
    }
}

impl PhoneServer {
    /// Decides how to enable or disable LAN uploads. Disabling, or a zero
    /// duration, stops the server so the loopback-only listener can be
    /// restarted. Enabling from loopback-only mode stops that instance first:
    /// the two bind modes are mutually exclusive on the port. Enabling while
    /// already on all interfaces extends the lease in place. Enabling while
    /// stopped asks for a fresh all-interfaces bind.
    pub fn set_phone_upload_enabled(&mut self, enabled: bool, duration_ms: Option<i64>, now: i64)
        -> (r: EnableAction)
        requires
            old(self).wf(),
            0 <= now,
            now + spec_duration_of(duration_ms) <= i64::MAX,
        ensures
            final(self).wf(),
            (!enabled || spec_duration_of(duration_ms) == 0) ==> r is RestartLoopback
                && spec_stopped_from(*final(self), *old(self)),
            enabled && spec_duration_of(duration_ms) > 0 ==> match old(self).bind_mode() {
                ServerBindMode::LocalhostOnly => r == EnableAction::BindAllInterfaces(
                    spec_duration_of(duration_ms) as i64,
                ) && spec_stopped_from(*final(self), *old(self)),
                ServerBindMode::AllInterfaces => {
                    &&& r == EnableAction::Extended(
                        PhoneUploadStatusResponse {
                            enabled: true,
                            expires_at: (now + spec_duration_of(duration_ms)) as i64,
                        },
                    )
                    &&& final(self).running()
                    &&& final(self).bind_mode() is AllInterfaces
                    &&& final(self).active_port_raw() == old(self).active_port_raw()
                    &&& final(self).expires_at() == now + spec_duration_of(duration_ms)
                    &&& final(self).generation() != old(self).generation()
                    &&& final(self).generation() == (old(self).generation() as int + 1)
                        % 0x1_0000_0000_0000_0000
                    &&& final(self).tokens() == old(self).tokens()
                },
                ServerBindMode::NotRunning => r == EnableAction::BindAllInterfaces(
                    spec_duration_of(duration_ms) as i64,
                ) && *final(self) == *old(self),
            },
    {
        if !enabled {
            let _ = self.stop_phone_server();
            return EnableAction::RestartLoopback;
        }
        let requested = match duration_ms {
            Some(d) => d,
            None => PHONE_UPLOAD_TTL_MS,
        };
        let duration = if requested < 0 {
            0
        } else {
            requested
        };
        if duration == 0 {
            let _ = self.stop_phone_server();
            return EnableAction::RestartLoopback;
        }
        match self.bind_mode {
            ServerBindMode::LocalhostOnly => {
                let _ = self.stop_phone_server();
                EnableAction::BindAllInterfaces(duration)
            },
            ServerBindMode::AllInterfaces => {
                let status = self.extend_lease(now, duration);
                EnableAction::Extended(status)
            },
            ServerBindMode::NotRunning => EnableAction::BindAllInterfaces(duration),
        }
    }

    /// Authorizes a caller: loopback callers are always allowed; others need
    /// LAN uploads enabled and a valid, unexpired token. Expired tokens are
    /// pruned on the way.
    pub fn validate_token(&mut self, caller: Ipv4Addr, token: Option<&str>, now: i64) -> (r:
        Result<(), AuthError>)
        requires
            old(self).wf(),
        ensures
            final(self).wf(),
            caller.spec_is_loopback() ==> r is Ok && *final(self) == *old(self),
            !caller.spec_is_loopback() ==> {
                &&& !spec_enabled_now(*old(self), now as int) ==> r == Err::<(), AuthError>(
                    AuthError::UploadsOff,
                ) && (if spec_lease_expired(*old(self), now as int) {
                    spec_stopped_from(*final(self), *old(self))
                } else {
                    *final(self) == *old(self)
                })
                &&& spec_enabled_now(*old(self), now as int) ==> match token {
                    None => r == Err::<(), AuthError>(AuthError::MissingToken) && *final(self)
                        == *old(self),
                    Some(t) => {
                        &&& t@.len() == 0 ==> r == Err::<(), AuthError>(AuthError::MissingToken)
                            && *final(self) == *old(self)
                        &&& t@.len() > 0 ==> {
                            &&& r == (if spec_token_valid(old(self).tokens(), t@, now as int) {
                                Ok::<(), AuthError>(())
                            } else {
                                Err::<(), AuthError>(AuthError::InvalidToken)
                            })
                            &&& pruned_of(old(self).tokens(), final(self).tokens(), now as int)
                            &&& final(self).running() == old(self).running()
                            &&& final(self).bind_mode() == old(self).bind_mode()
                            &&& final(self).expires_at() == old(self).expires_at()
                            &&& final(self).generation() == old(self).generation()
                            &&& final(self).active_port_raw() == old(self).active_port_raw()
                        }
                    },
                }
            },
    {
        let is_loopback = caller.is_loopback();
        if is_loopback {
            return Ok(());
        }
        let status = self.status_at(now);
        if !status.enabled {
            return Err(AuthError::UploadsOff);
        }
        let t = match token {
            Some(t) => t,
            None => {
                return Err(AuthError::MissingToken);
            },
        };
        if t.is_empty() {
            return Err(AuthError::MissingToken);
        }
        if self.tokens.validate(t, now) {
            Ok(())
        } else {
            Err(AuthError::InvalidToken)
        }
    }

    /// Issues a fresh upload token, valid for the token TTL from `now`;
    /// refused while LAN uploads are off. An expired lease first stops the
    /// server, as in `status_at`.
    pub fn phone_token_handler(&mut self, now: i64) -> (r: Result<PhoneTokenResponse, AuthError>)
        requires
            old(self).wf(),
            0 <= now,
            now + PHONE_TOKEN_TTL_MS <= i64::MAX,
        ensures
            final(self).wf(),
            !spec_enabled_now(*old(self), now as int) ==> r == Err::<
                PhoneTokenResponse,
                AuthError,
            >(AuthError::UploadsOff) && (if spec_lease_expired(*old(self), now as int) {
                spec_stopped_from(*final(self), *old(self))
            } else {
                *final(self) == *old(self)
            }),
            spec_enabled_now(*old(self), now as int) ==> (match r {
                Ok(tok) => {
                    &&& tok.expires_at == now + PHONE_TOKEN_TTL_MS
                    &&& tok.token@.len() == 36
                    &&& crate::token::in_store(
                        final(self).tokens(),
                        tok.token@,
                        tok.expires_at as int,
                    )
                    &&& forall|v: Seq<char>, x: int|
                        v != tok.token@ ==> crate::token::in_store(final(self).tokens(), v, x)
                            == crate::token::in_store(old(self).tokens(), v, x)
                    &&& final(self).running() == old(self).running()
                    &&& final(self).bind_mode() == old(self).bind_mode()
                    &&& final(self).expires_at() == old(self).expires_at()
                    &&& final(self).generation() == old(self).generation()
                    &&& final(self).active_port_raw() == old(self).active_port_raw()
                },
                Err(_) => false,
            }),
    {
        let status = self.status_at(now);
        if !status.enabled {
            return Err(AuthError::UploadsOff);
        }
        let resp = self.tokens.issue(now, PHONE_TOKEN_TTL_MS);
        Ok(resp)
    }
}

/// At most one bind mode is active at any instant: a server state holds one
/// mode, never the loopback-only and the all-interfaces mode together.
pub proof fn lemma_bind_modes_exclusive(s: PhoneServer)
    ensures
        !(s.bind_mode() is LocalhostOnly && s.bind_mode() is AllInterfaces),
        s.wf() ==> ((s.bind_mode() is LocalhostOnly || s.bind_mode() is AllInterfaces)
            <==> s.running()),
{
}

/// Stop releases the port synchronously: right after a stop, this process
/// holds no port, so a bind attempt on the port the server used cannot find
/// it in use unless another process holds it.
pub proof fn lemma_stop_frees_port(
    pre: PhoneServer,
    post: PhoneServer,
    p: u16,
    others: Seq<u16>,
)
    requires
        pre.wf(),
        pre.running(),
        pre.active_port_raw() == p,
        spec_stopped_from(post, pre),
        !others.contains(p),
    ensures
        !spec_attempt_in_use(p, others, spec_held_port(post)),
{
}

/// One lease extension, as `extend_lease` commits it.
pub open spec fn spec_extended(pre: PhoneServer, post: PhoneServer, now: int, d: int) -> bool {
    &&& post.running()
    &&& post.expires_at() == now + d
    &&& post.generation() != pre.generation()
}

/// Extending a lease again, with the same duration and at a time no earlier,
/// never shortens the expiry.
pub proof fn lemma_repeated_extension_never_shortens(
    s0: PhoneServer,
    s1: PhoneServer,
    s2: PhoneServer,
    t1: int,
    t2: int,
    d: int,
)
    requires
        spec_extended(s0, s1, t1, d),
        spec_extended(s1, s2, t2, d),
        t1 <= t2,
    ensures
        s2.expires_at() >= s1.expires_at(),
{
}

/// An auto-shutdown armed for an earlier generation never stops a server
/// whose generation has since advanced.
pub proof fn lemma_stale_timer_noop(s: PhoneServer, generation: u64, expires_at: i64)
    requires
        s.generation() != generation,
    ensures
        !spec_should_auto_stop(s, generation, expires_at),
{
}

/// Any extension supersedes the timers armed before it: a timer armed with
/// the pre-extension generation can never fire afterwards.
pub proof fn lemma_extension_supersedes_timer(
    pre: PhoneServer,
    post: PhoneServer,
    now: int,
    d: int,
    expires_at: i64,
)
    requires
        spec_extended(pre, post, now, d),
    ensures
        !spec_should_auto_stop(post, pre.generation(), expires_at),
{
}

} // verus!
