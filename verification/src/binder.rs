//! Port binding policy: try a primary port then ordered fallbacks, with
//! bounded retries per port, and aggregate every failure when all ports are
//! exhausted.

use vstd::prelude::*;
use vstd::string::*;

use crate::text::{dec_rep, u64_to_string};

verus! {

/// Why one bind attempt failed, as classified from the OS error.
#[derive(Clone, Copy, PartialEq, Eq, Structural, Debug)]
pub enum BindErrorKind {
    PermissionDenied,
    AddrInUse,
    Other,
}

/// One port given up on, and why.
#[derive(Clone, Copy, PartialEq, Eq, Structural, Debug)]
pub struct PortFailure {
    pub port: u16,
    pub kind: BindErrorKind,
}

/// The bind policy, stepped from outside: the caller attempts the port that
/// `current_port` names, reports each failure, and either retries the same
/// port after a delay or moves to the next.
pub struct PortBinder {
    ports: Vec<u16>,
    max_retries_per_port: u32,
    port_idx: usize,
    attempt: u32,
    failures: Vec<PortFailure>,
}

impl PortBinder {
    /// The ports to try, primary first.
    pub closed spec fn ports(self) -> Seq<u16> {
        self.ports@
    }

    /// How many retries each port gets after its first attempt.
    pub closed spec fn max_retries(self) -> u32 {
        self.max_retries_per_port
    }

    /// The position of the port currently being tried.
    pub closed spec fn idx(self) -> int {
        self.port_idx as int
    }

    /// How many attempts on the current port have already failed.
    pub closed spec fn attempts_used(self) -> u32 {
        self.attempt
    }

    /// The ports given up on so far, in order, each with its cause.
    pub closed spec fn failures(self) -> Seq<PortFailure> {
        self.failures@
    }

    /// The position never runs past the port list, and the retry count never
    /// runs past its budget.
    pub open spec fn wf(self) -> bool {
        &&& 0 <= self.idx() <= self.ports().len()
        &&& self.attempts_used() <= self.max_retries()
        &&& self.idx() == self.ports().len() ==> self.attempts_used() == 0
    }

    /// How many attempts may still be made. It shrinks with every reported
    /// failure, so the whole bind routine is finite: at most
    /// `(retries + 1) * port count` attempts, one delay each.
    pub open spec fn remaining_attempts(self) -> int {
        (self.ports().len() - self.idx()) * (self.max_retries() as int + 1) - self.attempts_used()
    }

    /// A binder for the given primary port, fallbacks and retry budget.
    pub fn new(primary: u16, fallbacks: &Vec<u16>, max_retries_per_port: u32) -> (r: PortBinder)
        ensures
            r.wf(),
            r.ports() == seq![primary] + fallbacks@,
            r.max_retries() == max_retries_per_port,
            r.idx() == 0,
            r.attempts_used() == 0,
            r.failures() == Seq::<PortFailure>::empty(),
    {
        let mut ports: Vec<u16> = Vec::new();
        ports.push(primary);
        let mut k: usize = 0;
        let n = fallbacks.len();
        while k < n
            invariant
                n == fallbacks@.len(),
                k <= n,
                ports@ == seq![primary] + fallbacks@.subrange(0, k as int),
            decreases n - k,
        {
            ports.push(fallbacks[k]);
            assert(ports@ =~= seq![primary] + fallbacks@.subrange(0, k as int + 1));
            k = k + 1;
        }
        assert(ports@ =~= seq![primary] + fallbacks@);
        PortBinder { ports, max_retries_per_port, port_idx: 0, attempt: 0, failures: Vec::new() }
    }

    /// The port to attempt next, or `None` when every port is exhausted.
    pub fn current_port(&self) -> (r: Option<u16>)
        requires
            self.wf(),
        ensures
            self.idx() < self.ports().len() ==> r == Some(self.ports()[self.idx()]),
            self.idx() == self.ports().len() ==> r is None,
    {
        if self.port_idx < self.ports.len() {
            Some(self.ports[self.port_idx])
        } else {
            None
        }
    }

    /// Applies the policy to one failed attempt on the current port. Returns
    /// true when the same port is to be retried after the fixed delay:
    /// address-in-use retries up to the budget; permission-denied and any
    /// other error give the port up at once. A port given up on is recorded
    /// with its cause, and the next port becomes current.
    pub fn record_failure(&mut self, kind: BindErrorKind) -> (retry: bool)
        requires
            old(self).wf(),
            old(self).idx() < old(self).ports().len(),
        ensures
            final(self).wf(),
            final(self).ports() == old(self).ports(),
            final(self).max_retries() == old(self).max_retries(),
            retry == (kind is AddrInUse && old(self).attempts_used() < old(self).max_retries()),
            retry ==> final(self).idx() == old(self).idx() && final(self).attempts_used() == old(
                self,
            ).attempts_used() + 1 && final(self).failures() == old(self).failures(),
            !retry ==> final(self).idx() == old(self).idx() + 1 && final(self).attempts_used() == 0
                && final(self).failures() == old(self).failures().push(
                PortFailure { port: old(self).ports()[old(self).idx()], kind },
            ),
            final(self).remaining_attempts() < old(self).remaining_attempts(),
    {
        proof {
            let n = self.ports@.len() - self.port_idx;
            let m = self.max_retries_per_port as int + 1;
            assert((n - 1) * m == n * m - m) by (nonlinear_arith);
            assert(n >= 1 && m >= 1 ==> n * m >= m) by (nonlinear_arith);
        }
        let len = self.ports.len();
        assert(self.port_idx < len);
        let port = self.ports[self.port_idx];
        match kind {
            BindErrorKind::AddrInUse => {
                if self.attempt < self.max_retries_per_port {
                    self.attempt = self.attempt + 1;
                    true
                } else {
                    self.failures.push(PortFailure { port, kind: BindErrorKind::AddrInUse });
                    self.port_idx = self.port_idx + 1;
                    self.attempt = 0;
                    false
                }
            },
            _ => {
                self.failures.push(PortFailure { port, kind });
                self.port_idx = self.port_idx + 1;
                self.attempt = 0;
                false
            },
        }
    }
}

/// The wording recorded for one failure cause.
pub open spec fn spec_kind_rep(kind: BindErrorKind) -> Seq<char> {
    match kind {
        BindErrorKind::PermissionDenied => "permission denied"@,
        BindErrorKind::AddrInUse => "in use"@,
        BindErrorKind::Other => "error"@,
    }
}

/// The wording recorded for one given-up port.
pub open spec fn spec_failure_rep(f: PortFailure) -> Seq<char> {
    "Port "@ + dec_rep(f.port as nat) + ": "@ + spec_kind_rep(f.kind)
}

/// The per-port failure texts joined with `"; "`.
pub open spec fn spec_failures_rep(s: Seq<PortFailure>) -> Seq<char>
    decreases s.len(),
{
    if s.len() == 0 {
        Seq::empty()
    } else if s.len() == 1 {
        spec_failure_rep(s[0])
    } else {
        spec_failures_rep(s.drop_last()) + "; "@ + spec_failure_rep(s.last())
    }
}

/// The port numbers joined with `", "`.
pub open spec fn spec_ports_rep(s: Seq<u16>) -> Seq<char>
    decreases s.len(),
{
    if s.len() == 0 {
        Seq::empty()
    } else if s.len() == 1 {
        dec_rep(s[0] as nat)
    } else {
        spec_ports_rep(s.drop_last()) + ", "@ + dec_rep(s.last() as nat)
    }
}

/// The aggregated error returned when every port is exhausted: it names every
/// attempted port and each one's cause.
pub open spec fn spec_bind_error_rep(ports: Seq<u16>, failures: Seq<PortFailure>) -> Seq<char> {
    "Failed to start server - all ports unavailable. Tried ports "@ + spec_ports_rep(ports) + ": "@
        + spec_failures_rep(failures)
        + ". This may be caused by a firewall, antivirus software, or reserved port ranges. Try adding a firewall exception for this application."@
}

fn kind_text(kind: BindErrorKind) -> (r: &'static str)
    ensures
        r@ == spec_kind_rep(kind),
{
    match kind {
        BindErrorKind::PermissionDenied => "permission denied",
        BindErrorKind::AddrInUse => "in use",
        BindErrorKind::Other => "error",
    }
}

impl PortBinder {
    /// The aggregated, human-readable error naming every attempted port and
    /// each recorded cause.
    pub fn aggregate_error(&self) -> (r: String)
        ensures
            r@ == spec_bind_error_rep(self.ports(), self.failures()),
    {
        let mut s = String::from_str(
            "Failed to start server - all ports unavailable. Tried ports ",
        );
        let mut k: usize = 0;
        let n = self.ports.len();
        let mut ports_text = String::new();
        while k < n
            invariant
                n == self.ports@.len(),
                k <= n,
                ports_text@ == spec_ports_rep(self.ports@.subrange(0, k as int)),
            decreases n - k,
        {
            if k > 0 {
                ports_text.append(", ");
            }
            let p = u64_to_string(self.ports[k] as u64);
            ports_text.append(p.as_str());
            proof {
                let pre = self.ports@.subrange(0, k as int);
                let cur = self.ports@.subrange(0, k as int + 1);
                assert(cur.drop_last() =~= pre);
                assert(cur.last() == self.ports@[k as int]);
            }
            k = k + 1;
        }
        assert(self.ports@.subrange(0, n as int) =~= self.ports@);
        s.append(ports_text.as_str());
        s.append(": ");
        let mut k: usize = 0;
        let m = self.failures.len();
        let mut fail_text = String::new();
        while k < m
            invariant
                m == self.failures@.len(),
                k <= m,
                fail_text@ == spec_failures_rep(self.failures@.subrange(0, k as int)),
            decreases m - k,
        {
            if k > 0 {
                fail_text.append("; ");
            }
            fail_text.append("Port ");
            let p = u64_to_string(self.failures[k].port as u64);
            fail_text.append(p.as_str());
            fail_text.append(": ");
            fail_text.append(kind_text(self.failures[k].kind));
            proof {
                let pre = self.failures@.subrange(0, k as int);
                let cur = self.failures@.subrange(0, k as int + 1);
                assert(cur.drop_last() =~= pre);
                assert(cur.last() == self.failures@[k as int]);
            }
            k = k + 1;
        }
        assert(self.failures@.subrange(0, m as int) =~= self.failures@);
        s.append(fail_text.as_str());
        s.append(
            ". This may be caused by a firewall, antivirus software, or reserved port ranges. Try adding a firewall exception for this application.",
        );
        s
    }
}

/// In a model where `others` are the ports held by other processes and `held`
/// is the port this process still holds, a bind attempt on `p` reports
/// address-in-use exactly when someone holds `p`.
pub open spec fn spec_attempt_in_use(p: u16, others: Seq<u16>, held: Option<u16>) -> bool {
    others.contains(p) || held == Some(p)
}

/// The list of ports a binder tries: the primary first, then the fallbacks.
pub open spec fn binder_ports(primary: u16, fallbacks: Seq<u16>) -> Seq<u16> {
    seq![primary] + fallbacks
}

/// Some port of the list is not occupied.
pub open spec fn some_port_free(ports: Seq<u16>, occupied: Seq<u16>) -> bool {
    exists|i: int| 0 <= i < ports.len() && !occupied.contains(ports[i])
}

/// The position of the first port not occupied; the list's length when every
/// port is occupied.
pub open spec fn first_free_index(ports: Seq<u16>, occupied: Seq<u16>) -> int
    decreases ports.len(),
{
    if ports.len() == 0 {
        0
    } else if !occupied.contains(ports[0]) {
        0
    } else {
        1 + first_free_index(ports.drop_first(), occupied)
    }
}

proof fn lemma_first_free_index(ports: Seq<u16>, occupied: Seq<u16>, i: int)
    requires
        0 <= i < ports.len(),
        !occupied.contains(ports[i]),
        forall|k: int| 0 <= k < i ==> occupied.contains(#[trigger] ports[k]),
    ensures
        first_free_index(ports, occupied) == i,
    decreases ports.len(),
{
    if i > 0 {
        let rest = ports.drop_first();
        assert(forall|k: int| 0 <= k < i - 1 ==> occupied.contains(#[trigger] rest[k]));
        lemma_first_free_index(rest, occupied, i - 1);
    }
}

/// One failure per port, each address-in-use.
pub open spec fn all_in_use_failures(ports: Seq<u16>) -> Seq<PortFailure> {
    Seq::new(ports.len(), |i: int| PortFailure { port: ports[i], kind: BindErrorKind::AddrInUse })
}

/// Whether `v` holds `p`.
fn contains_port(v: &Vec<u16>, p: u16) -> (r: bool)
    ensures
        r == v@.contains(p),
{
    let n = v.len();
    let mut i: usize = 0;
    while i < n
        invariant
            n == v@.len(),
            i <= n,
            forall|k: int| 0 <= k < i ==> v@[k] != p,
        decreases n - i,
    {
        if v[i] == p {
            assert(v@.contains(p));
            return true;
        }
        i = i + 1;
    }
    assert(!v@.contains(p));
    false
}

/// Runs the whole bind policy in the model where exactly the ports of
/// `occupied` are held by other processes: an attempt on a held port fails
/// with address-in-use, any other attempt succeeds. Whatever the retry
/// budget, the policy binds the first free port of the list; when every port
/// is held it returns the aggregated error naming each port as in use.
pub fn bind_first_free(
    primary: u16,
    fallbacks: &Vec<u16>,
    max_retries_per_port: u32,
    occupied: &Vec<u16>,
) -> (r: Result<u16, String>)
    ensures
        some_port_free(binder_ports(primary, fallbacks@), occupied@) ==> r == Ok::<u16, String>(
            binder_ports(primary, fallbacks@)[first_free_index(
                binder_ports(primary, fallbacks@),
                occupied@,
            )],
        ),
        !some_port_free(binder_ports(primary, fallbacks@), occupied@) ==> (match r {
            Ok(_) => false,
            Err(m) => m@ == spec_bind_error_rep(
                binder_ports(primary, fallbacks@),
                all_in_use_failures(binder_ports(primary, fallbacks@)),
            ),
        }),
{
    let ghost ports = binder_ports(primary, fallbacks@);
    let mut binder = PortBinder::new(primary, fallbacks, max_retries_per_port);
    assert(binder.failures() =~= all_in_use_failures(ports.subrange(0, 0)));
    loop
        invariant
            binder.wf(),
            binder.ports() == ports,
            ports == binder_ports(primary, fallbacks@),
            forall|k: int| 0 <= k < binder.idx() ==> occupied@.contains(#[trigger] ports[k]),
            binder.failures() == all_in_use_failures(ports.subrange(0, binder.idx())),
        decreases binder.remaining_attempts(),
    {
        match binder.current_port() {
            Some(port) => {
                if !contains_port(occupied, port) {
                    proof {
                        lemma_first_free_index(ports, occupied@, binder.idx());
                    }
                    return Ok(port);
                }
                let retry = binder.record_failure(BindErrorKind::AddrInUse);
                proof {
                    if !retry {
                        assert(binder.failures() =~= all_in_use_failures(
                            ports.subrange(0, binder.idx()),
                        ));
                    }
                    let n = binder.ports().len() - binder.idx();
                    let m = binder.max_retries() as int + 1;
                    assert(n >= 1 && m >= 1 ==> n * m >= m) by (nonlinear_arith);
                    assert(binder.remaining_attempts() >= 0);
                }
            },
            None => {
                assert(!some_port_free(ports, occupied@));
                assert(ports.subrange(0, ports.len() as int) =~= ports);
                return Err(binder.aggregate_error());
            },
        }
    }
}

} // verus!
