use vstd::prelude::*;

use crate::agent::bootstrap::{is_auth_code, is_fatal_code, GrpcCode};
use crate::clock::{imax, imin, max_millis, since_unix_epoch, system_now, Duration};
use crate::config::AppConfig;
use crate::model::host::{HostFacts, HostRegistration};
use crate::text::{
    string_views,
    blank, concat3, decimal_spec, decimal_string, is_blank, str_eq, trim_spec, trimmed_string,
};

verus! {

/// The targets not yet given up on and the position of the current one,
/// after giving up on the current target: past the last target nothing is
/// left.
pub open spec fn advanced(targets: Seq<Seq<char>>, position: nat) -> (Seq<Seq<char>>, nat) {
    if targets.len() > 0 && position + 1 >= targets.len() {
        (Seq::empty(), position + 1)
    } else if targets.len() > 0 {
        (targets, position + 1)
    } else {
        (targets, position)
    }
}

/// The targets and position after giving up `k` times.
pub open spec fn advanced_n(targets: Seq<Seq<char>>, position: nat, k: nat) -> (Seq<Seq<char>>, nat)
    decreases k,
{
    if k == 0 {
        (targets, position)
    } else {
        advanced_n(advanced(targets, position).0, advanced(targets, position).1, (k - 1) as nat)
    }
}

/// The target offered at a position: none once nothing is left.
pub open spec fn offered(targets: Seq<Seq<char>>, position: nat) -> Option<Seq<char>> {
    if targets.len() == 0 {
        None
    } else {
        Some(targets[(position % targets.len()) as int])
    }
}

proof fn lemma_advanced_empty(position: nat, k: nat)
    ensures
        advanced_n(Seq::empty(), position, k).0.len() == 0,
    decreases k,
{
    if k > 0 {
        lemma_advanced_empty(advanced(Seq::empty(), position).1, (k - 1) as nat);
    }
}

proof fn lemma_advanced_n(targets: Seq<Seq<char>>, position: nat, k: nat)
    requires
        position < targets.len(),
    ensures
        position + k < targets.len() ==> advanced_n(targets, position, k) == (targets, position + k),
        position + k >= targets.len() ==> advanced_n(targets, position, k).0.len() == 0,
    decreases k,
{
    if k > 0 {
        if position + 1 < targets.len() {
            lemma_advanced_n(targets, position + 1, (k - 1) as nat);
        } else {
            lemma_advanced_empty(position + 1, (k - 1) as nat);
        }
    }
}

/// A selector offers the targets of its assignment in order, each once:
/// after giving up on `k` of them it offers the next one, and once it gave
/// up on every one it offers none.
pub proof fn law_selector_offers_each_target_once(targets: Seq<Seq<char>>, k: nat)
    ensures
        offered(advanced_n(targets, 0, k).0, advanced_n(targets, 0, k).1) == (if k < targets.len() {
            Some(targets[k as int])
        } else {
            None::<Seq<char>>
        }),
{
    if targets.len() == 0 {
        assert(targets =~= Seq::<Seq<char>>::empty());
        lemma_advanced_empty(0, k);
    } else {
        lemma_advanced_n(targets, 0, k);
        if k < targets.len() {
            assert(k % targets.len() == k) by (nonlinear_arith)
                requires
                    k < targets.len(),
            ;
        }
    }
}

/// Walks the runtime targets of one assignment in order, each once, with a
/// backoff that doubles (up to a cap) on every failover.
pub struct RuntimeTargetSelector {
    targets: Vec<String>,
    index: usize,
    backoff: Duration,
    base_backoff: Duration,
    max_backoff: Duration,
}

impl RuntimeTargetSelector {
    #[verifier::type_invariant]
    closed spec fn inv(self) -> bool {
        self.targets@.len() == 0 || self.index < self.targets@.len()
    }

    /// The targets not yet given up on (empty once every target failed).
    pub closed spec fn targets(&self) -> Seq<Seq<char>> {
        string_views(self.targets@)
    }

    pub closed spec fn position(&self) -> nat {
        self.index as nat
    }

    pub closed spec fn backoff(&self) -> Duration {
        self.backoff
    }

    pub closed spec fn base_backoff(&self) -> Duration {
        self.base_backoff
    }

    pub closed spec fn max_backoff(&self) -> Duration {
        self.max_backoff
    }

    /// The backoff lies between the base and the maximum.
    pub open spec fn backoff_in_bounds(&self) -> bool {
        self.base_backoff()@ <= self.backoff()@ <= self.max_backoff()@
    }

    /// The target `current` returns.
    pub open spec fn current_spec(&self) -> Option<Seq<char>> {
        offered(self.targets(), self.position())
    }

    pub fn new(targets: Vec<String>, base_backoff: Duration, max_backoff: Duration) -> (s: Self)
        ensures
            s.targets() == string_views(targets@),
            s.position() == 0,
            s.backoff() == base_backoff,
            s.base_backoff() == base_backoff,
            s.max_backoff() == max_backoff,
    {
        RuntimeTargetSelector { targets, index: 0, backoff: base_backoff, base_backoff, max_backoff }
    }

    pub fn current(&self) -> (r: Option<&str>)
        ensures
            match r {
                Some(t) => self.current_spec() == Some(t@),
                None => self.current_spec() is None,
            },
    {
        proof {
            use_type_invariant(self);
        }
        if self.targets.len() == 0 {
            return None;
        }
        let i = self.index % self.targets.len();
        Some(self.targets[i].as_str())
    }

    /// Gives up on the current target. After the last target the selector
    /// is exhausted and the backoff stays; otherwise the next target
    /// becomes current and the backoff doubles, capped at the maximum.
    pub fn advance(&mut self)
        ensures
            (final(self).targets(), final(self).position()) == advanced(
                old(self).targets(),
                old(self).position(),
            ),
            old(self).backoff_in_bounds() ==> final(self).backoff_in_bounds(),
            final(self).base_backoff() == old(self).base_backoff(),
            final(self).max_backoff() == old(self).max_backoff(),
            if old(self).targets().len() > 0 && old(self).position() + 1 >= old(self).targets().len() {
                &&& final(self).targets().len() == 0
                &&& final(self).backoff() == old(self).backoff()
            } else {
                &&& final(self).targets() == old(self).targets()
                &&& final(self).position() == (if old(self).targets().len() > 0 {
                    old(self).position() + 1
                } else {
                    old(self).position()
                })
                &&& final(self).backoff()@ == imin(
                    old(self).backoff()@ * 2,
                    old(self).max_backoff()@,
                )
            },
    {
        proof {
            use_type_invariant(&*self);
        }
        if self.targets.len() > 0 {
            if self.index + 1 >= self.targets.len() {
                self.targets = Vec::new();
                self.index = self.index + 1;
                assert(self.targets@ =~= Seq::<String>::empty());
                return;
            }
            self.index = self.index + 1;
        }
        self.backoff = self.backoff.doubled_capped(self.max_backoff);
    }

    /// The wait before trying the next target: the backoff plus a jitter
    /// below a fifth of it (at least one millisecond of range), the jitter
    /// taken from `clock_millis` modulo that range.
    pub fn failover_delay_at(&self, clock_millis: u64) -> (d: Duration)
        ensures
            d@ == imin(
                self.backoff()@ + (clock_millis as int) % imax(self.backoff()@ / 5, 1),
                max_millis(),
            ),
            self.backoff()@ <= d@,
    {
        let cap: u128 = if self.backoff.as_millis() / 5 > 1 {
            self.backoff.as_millis() / 5
        } else {
            1
        };
        let jitter: u128 = clock_millis as u128 % cap;
        assert(jitter <= clock_millis) by (nonlinear_arith)
            requires
                jitter == clock_millis as u128 % cap,
                cap >= 1,
        ;
        self.backoff.saturating_add(Duration::from_millis(jitter as u64))
    }

    /// The wait before trying the next target, jittered by the sub-second
    /// part of the clock.
    pub fn failover_delay(&self) -> (d: Duration)
        ensures
            self.backoff()@ <= d@,
            d@ <= self.backoff()@ + imax(self.backoff()@ / 5, 1),
    {
        let (_, nanos) = since_unix_epoch(system_now());
        self.failover_delay_at((nanos / 1_000_000) as u64)
    }

    pub fn reset_backoff(&mut self)
        ensures
            old(self).base_backoff()@ <= old(self).max_backoff()@ ==> final(self).backoff_in_bounds(),
            final(self).targets() == old(self).targets(),
            final(self).position() == old(self).position(),
            final(self).base_backoff() == old(self).base_backoff(),
            final(self).max_backoff() == old(self).max_backoff(),
            final(self).backoff() == old(self).base_backoff(),
    {
        proof {
            use_type_invariant(&*self);
        }
        self.backoff = self.base_backoff;
    }
}


/// The dataplane assignment the control plane answered with.
#[derive(Clone, Debug)]
pub struct AssignmentResponse {
    pub preferred_dp_id: String,
    pub preferred_dp_addr: String,
    pub candidate_grpc_addrs: Vec<String>,
    pub assignment_epoch: i64,
    pub refresh_after_sec: i64,
}

/// The last assignment the agent resolved, kept for reuse while it has not
/// expired.
#[derive(Debug)]
pub struct AssignmentCache {
    pub preferred_dp_id: String,
    pub preferred_target: String,
    pub candidates: Vec<String>,
    pub assignment_epoch: i64,
    pub refresh_after: Duration,
    /// Milliseconds since the Unix epoch.
    pub expires_at: u128,
}

/// What the agent sends to resolve its assignment.
#[derive(Clone, Debug)]
pub struct AssignmentRequest {
    pub agent_id: String,
    pub host_id: String,
    pub zone_id: String,
    pub last_assignment_epoch: i64,
    pub current_dp_id: String,
}

/// The non-blank entries of `addrs`, trimmed, in order.
pub open spec fn trimmed_nonblank(addrs: Seq<Seq<char>>) -> Seq<Seq<char>>
    decreases addrs.len(),
{
    if addrs.len() == 0 {
        Seq::empty()
    } else {
        let rest = trimmed_nonblank(addrs.drop_last());
        if is_blank(addrs.last()) {
            rest
        } else {
            rest.push(trim_spec(addrs.last()))
        }
    }
}

/// The dataplane targets of an answer: its candidates' addresses, else its
/// preferred address.
pub open spec fn assignment_candidates(resp: AssignmentResponse) -> Seq<Seq<char>> {
    let c = trimmed_nonblank(string_views(resp.candidate_grpc_addrs@));
    if c.len() == 0 && !is_blank(resp.preferred_dp_addr@) {
        seq![trim_spec(resp.preferred_dp_addr@)]
    } else {
        c
    }
}

pub open spec fn refresh_secs(resp: AssignmentResponse) -> int {
    if resp.refresh_after_sec >= 5 {
        resp.refresh_after_sec as int
    } else {
        5
    }
}

pub fn copy_strings(v: &Vec<String>) -> (r: Vec<String>)
    ensures
        r@ == v@,
{
    let mut r: Vec<String> = Vec::new();
    let mut i: usize = 0;
    while i < v.len()
        invariant
            i <= v.len(),
            r@ == v@.subrange(0, i as int),
        decreases v.len() - i,
    {
        r.push(v[i].clone());
        assert(v@.subrange(0, i + 1) =~= v@.subrange(0, i as int).push(v@[i as int]));
        i = i + 1;
    }
    assert(v@.subrange(0, v@.len() as int) =~= v@);
    r
}

/// An assignment as plain values.
pub struct AssignmentView {
    pub preferred_dp_id: Seq<char>,
    pub preferred_target: Seq<char>,
    pub candidates: Seq<Seq<char>>,
    pub assignment_epoch: i64,
    pub refresh_after: int,
    pub expires_at: u128,
}

impl View for AssignmentCache {
    type V = AssignmentView;

    open spec fn view(&self) -> AssignmentView {
        AssignmentView {
            preferred_dp_id: self.preferred_dp_id@,
            preferred_target: self.preferred_target@,
            candidates: string_views(self.candidates@),
            assignment_epoch: self.assignment_epoch,
            refresh_after: self.refresh_after@,
            expires_at: self.expires_at,
        }
    }
}

pub open spec fn opt_assignment_view(o: Option<AssignmentCache>) -> Option<AssignmentView> {
    match o {
        Some(a) => Some(a@),
        None => None,
    }
}

impl AssignmentCache {
    pub fn copy(&self) -> (r: AssignmentCache)
        ensures
            r@ == self@,
    {
        AssignmentCache {
            preferred_dp_id: self.preferred_dp_id.clone(),
            preferred_target: self.preferred_target.clone(),
            candidates: copy_strings(&self.candidates),
            assignment_epoch: self.assignment_epoch,
            refresh_after: self.refresh_after,
            expires_at: self.expires_at,
        }
    }
}

/// Turns an assignment answer received at `now_millis` into the cached
/// assignment: the candidate targets, a refresh period of the answered
/// seconds (at least five), and an expiry twice that period after now.
/// Refused when the answer names no target at all.
pub fn assignment_from_response(resp: &AssignmentResponse, now_millis: u128) -> (r: Result<
    AssignmentCache,
    String,
>)
    requires
        now_millis <= max_millis(),
    ensures
        match r {
            Ok(a) => {
                &&& assignment_candidates(*resp).len() > 0
                &&& string_views(a.candidates@) == assignment_candidates(*resp)
                &&& a.preferred_dp_id@ == resp.preferred_dp_id@
                &&& a.preferred_target@ == resp.preferred_dp_addr@
                &&& a.assignment_epoch == resp.assignment_epoch
                &&& a.refresh_after@ == refresh_secs(*resp) * 1000
                &&& a.expires_at == now_millis + 2 * a.refresh_after@
            },
            Err(e) => assignment_candidates(*resp).len() == 0 && e@
                == "runtime assignment returned no dataplane candidates"@,
        },
{
    let mut candidates: Vec<String> = Vec::new();
    let ghost addrs = string_views(resp.candidate_grpc_addrs@);
    let mut i: usize = 0;
    while i < resp.candidate_grpc_addrs.len()
        invariant
            i <= resp.candidate_grpc_addrs.len(),
            addrs == string_views(resp.candidate_grpc_addrs@),
            string_views(candidates@) == trimmed_nonblank(addrs.subrange(0, i as int)),
        decreases resp.candidate_grpc_addrs.len() - i,
    {
        assert(addrs.subrange(0, i + 1).drop_last() =~= addrs.subrange(0, i as int));
        let item = &resp.candidate_grpc_addrs[i];
        if !blank(item.as_str()) {
            let t = trimmed_string(item.as_str());
            let ghost before = candidates@;
            candidates.push(t);
            assert(string_views(candidates@) =~= string_views(before).push(t@));
        }
        i = i + 1;
    }
    assert(addrs.subrange(0, addrs.len() as int) =~= addrs);
    if candidates.len() == 0 && !blank(resp.preferred_dp_addr.as_str()) {
        let ghost before = candidates@;
        candidates.push(trimmed_string(resp.preferred_dp_addr.as_str()));
        assert(string_views(candidates@) =~= seq![trim_spec(resp.preferred_dp_addr@)]);
    }
    if candidates.len() == 0 {
        return Err(crate::text::str_to_string("runtime assignment returned no dataplane candidates"));
    }
    let secs: u64 = if resp.refresh_after_sec >= 5 {
        resp.refresh_after_sec as u64
    } else {
        5
    };
    let refresh_after = Duration::from_secs(secs);
    let expires_at: u128 = now_millis + 2 * refresh_after.as_millis();
    Ok(
        AssignmentCache {
            preferred_dp_id: resp.preferred_dp_id.clone(),
            preferred_target: resp.preferred_dp_addr.clone(),
            candidates,
            assignment_epoch: resp.assignment_epoch,
            refresh_after,
            expires_at,
        },
    )
}

/// The request that resolves the assignment of this host, naming the
/// epoch and dataplane of the assignment currently held (zero and empty
/// when none is).
pub fn assignment_request(config: &AppConfig, facts: &HostFacts, current: Option<&AssignmentCache>) -> (r:
    AssignmentRequest)
    ensures
        r.agent_id@ == facts.agent_id@,
        r.host_id@ == facts.host_id@,
        r.zone_id@ == config.app.zone_id@,
        r.last_assignment_epoch == (match current {
            Some(c) => c.assignment_epoch,
            None => 0,
        }),
        r.current_dp_id@ == (match current {
            Some(c) => c.preferred_dp_id@,
            None => Seq::<char>::empty(),
        }),
{
    let (epoch, dp) = match current {
        Some(c) => (c.assignment_epoch, c.preferred_dp_id.clone()),
        None => (0, String::new()),
    };
    AssignmentRequest {
        agent_id: facts.agent_id.clone(),
        host_id: facts.host_id.clone(),
        zone_id: config.app.zone_id.clone(),
        last_assignment_epoch: epoch,
        current_dp_id: dp,
    }
}

/// Whether a refreshed assignment moved this host to another preferred
/// target than the one its session runs against.
pub fn assignment_moved(updated: &AssignmentCache, session_target: &str) -> (r: bool)
    ensures
        r == (updated.preferred_target@ != session_target@),
{
    !str_eq(updated.preferred_target.as_str(), session_target)
}

/// What to do when resolving the assignment failed.
#[derive(Debug)]
pub enum AssignmentFallback {
    /// Keep serving the cached assignment, still valid.
    UseCached(AssignmentCache),
    /// Sleep this long, then resolve again.
    Retry(Duration),
}

/// What to do after a session against a target failed.
#[derive(Clone, Copy, Debug, PartialEq, Eq, Structural)]
pub enum SessionFailure {
    /// The bootstrap token or request was rejected: stop connecting.
    Fatal,
    /// Wait, then try the next target of the assignment.
    Retry { clear_identity: bool, wait: Duration },
    /// Every target failed: resolve the assignment again.
    Exhausted { clear_identity: bool },
}

/// The decisions of the agent's connect loop: which assignment to use,
/// how long to back off, and when to give up on a target or an
/// assignment.
pub struct ConnectLoop {
    cache: Option<AssignmentCache>,
    backoff: Duration,
    base_backoff: Duration,
    max_backoff: Duration,
}

impl ConnectLoop {
    /// The backoff lies between the base and the maximum.
    pub open spec fn backoff_in_bounds(&self) -> bool {
        self.base_backoff()@ <= self.backoff()@ <= self.max_backoff()@
    }

    pub closed spec fn cache(&self) -> Option<AssignmentView> {
        opt_assignment_view(self.cache)
    }

    pub closed spec fn backoff(&self) -> Duration {
        self.backoff
    }

    pub closed spec fn base_backoff(&self) -> Duration {
        self.base_backoff
    }

    pub closed spec fn max_backoff(&self) -> Duration {
        self.max_backoff
    }

    pub fn new(config: &AppConfig) -> (s: Self)
        ensures
            config.agent.failover_base_backoff@ <= config.agent.failover_max_backoff@
                ==> s.backoff_in_bounds(),
            s.cache() is None,
            s.backoff() == config.agent.failover_base_backoff,
            s.base_backoff() == config.agent.failover_base_backoff,
            s.max_backoff() == config.agent.failover_max_backoff,
    {
        ConnectLoop {
            cache: None,
            backoff: config.agent.failover_base_backoff,
            base_backoff: config.agent.failover_base_backoff,
            max_backoff: config.agent.failover_max_backoff,
        }
    }

    pub fn cached(&self) -> (r: Option<&AssignmentCache>)
        ensures
            match r {
                Some(c) => self.cache() == Some(c@),
                None => self.cache() is None,
            },
    {
        match &self.cache {
            Some(c) => Some(c),
            None => None,
        }
    }

    /// Resolving the assignment failed at `now_millis`: the cached
    /// assignment is used while it has not expired and names a target;
    /// otherwise the loop sleeps the current backoff, which then doubles
    /// (capped).
    pub fn assignment_failed(&mut self, now_millis: u128) -> (r: AssignmentFallback)
        ensures
            old(self).backoff_in_bounds() ==> final(self).backoff_in_bounds(),
            final(self).cache() == old(self).cache(),
            final(self).base_backoff() == old(self).base_backoff(),
            final(self).max_backoff() == old(self).max_backoff(),
            match old(self).cache() {
                Some(c) if now_millis < c.expires_at && c.candidates.len() > 0 => r matches AssignmentFallback::UseCached(u)
                    && u@ == c && final(self).backoff() == old(self).backoff(),
                _ => r matches AssignmentFallback::Retry(d) && d == old(self).backoff() && final(self).backoff()@ == imin(old(self).backoff()@ * 2, old(self).max_backoff()@),
            },
            final(self).backoff()@ == backoff_step(
                old(self).backoff()@,
                old(self).base_backoff()@,
                old(self).max_backoff()@,
                fallback_outcome(r),
            ),
    {
        match &self.cache {
            Some(c) => {
                if now_millis < c.expires_at && c.candidates.len() > 0 {
                    return AssignmentFallback::UseCached(c.copy());
                }
            },
            None => {},
        }
        let sleep = self.backoff;
        self.backoff = self.backoff.doubled_capped(self.max_backoff);
        AssignmentFallback::Retry(sleep)
    }

    /// An assignment was obtained: it becomes the cached one, and its
    /// candidates are tried in order from the base backoff.
    pub fn assignment_resolved(&mut self, assignment: &AssignmentCache) -> (sel:
        RuntimeTargetSelector)
        ensures
            old(self).backoff_in_bounds() ==> final(self).backoff_in_bounds()
                && sel.backoff_in_bounds(),
            final(self).cache() == Some(assignment@),
            final(self).backoff() == old(self).backoff(),
            final(self).base_backoff() == old(self).base_backoff(),
            final(self).max_backoff() == old(self).max_backoff(),
            sel.targets() == string_views(assignment.candidates@),
            sel.position() == 0,
            sel.backoff() == old(self).base_backoff(),
            sel.base_backoff() == old(self).base_backoff(),
            sel.max_backoff() == old(self).max_backoff(),
            final(self).backoff()@ == backoff_step(
                old(self).backoff()@,
                old(self).base_backoff()@,
                old(self).max_backoff()@,
                ConnectOutcome::AssignmentResolved,
            ),
    {
        self.cache = Some(assignment.copy());
        RuntimeTargetSelector::new(
            copy_strings(&assignment.candidates),
            self.base_backoff,
            self.max_backoff,
        )
    }

    /// A session ended cleanly: both backoffs return to the base.
    pub fn session_succeeded(&mut self, selector: &mut RuntimeTargetSelector)
        ensures
            old(self).backoff_in_bounds() ==> final(self).backoff_in_bounds(),
            old(selector).backoff_in_bounds() ==> final(selector).backoff_in_bounds(),
            final(self).cache() == old(self).cache(),
            final(self).backoff() == old(self).base_backoff(),
            final(self).base_backoff() == old(self).base_backoff(),
            final(self).max_backoff() == old(self).max_backoff(),
            final(selector).backoff() == old(selector).base_backoff(),
            final(selector).targets() == old(selector).targets(),
            final(selector).position() == old(selector).position(),
            final(self).backoff()@ == backoff_step(
                old(self).backoff()@,
                old(self).base_backoff()@,
                old(self).max_backoff()@,
                ConnectOutcome::SessionSucceeded,
            ),
    {
        selector.reset_backoff();
        self.backoff = self.base_backoff;
    }

    /// A session against the selector's current target failed with a
    /// failure whose gRPC status is `status_code`. A rejected bootstrap is
    /// fatal. Otherwise the target is given up on; when none is left the
    /// cached assignment is dropped and the backoff doubles, else the loop
    /// waits the larger of the jittered failover delay (jitter from
    /// `clock_millis`) and the backoff. Authentication failures ask for the
    /// stored identity to be cleared.
    pub fn session_failed(
        &mut self,
        selector: &mut RuntimeTargetSelector,
        status_code: Option<GrpcCode>,
        clock_millis: u64,
    ) -> (r: SessionFailure)
        ensures
            old(self).backoff_in_bounds() ==> final(self).backoff_in_bounds(),
            old(selector).backoff_in_bounds() ==> final(selector).backoff_in_bounds(),
            r matches SessionFailure::Retry { wait, .. } ==> old(self).backoff()@ <= wait@,
            !is_fatal_code(status_code) ==> (final(selector).targets(), final(selector).position())
                == advanced(old(selector).targets(), old(selector).position()),
            final(self).base_backoff() == old(self).base_backoff(),
            final(self).max_backoff() == old(self).max_backoff(),
            is_fatal_code(status_code) ==> r == SessionFailure::Fatal && final(self).cache() == old(
                self).cache() && final(self).backoff() == old(self).backoff() && *final(selector)
                == *old(selector),
            !is_fatal_code(status_code) ==> match r {
                SessionFailure::Fatal => false,
                SessionFailure::Retry { clear_identity, wait } => {
                    &&& clear_identity == is_auth_code(status_code)
                    &&& final(selector).current_spec() is Some
                    &&& wait@ == imax(
                        imin(
                            old(selector).backoff()@ + (clock_millis as int) % imax(
                                old(selector).backoff()@ / 5,
                                1,
                            ),
                            max_millis(),
                        ),
                        old(self).backoff()@,
                    )
                    &&& final(self).cache() == old(self).cache()
                    &&& final(self).backoff() == old(self).backoff()
                },
                SessionFailure::Exhausted { clear_identity } => {
                    &&& clear_identity == is_auth_code(status_code)
                    &&& final(selector).current_spec() is None
                    &&& final(self).cache() is None
                    &&& final(self).backoff()@ == imin(
                        old(self).backoff()@ * 2,
                        old(self).max_backoff()@,
                    )
                },
            },
            final(self).backoff()@ == backoff_step(
                old(self).backoff()@,
                old(self).base_backoff()@,
                old(self).max_backoff()@,
                failure_outcome(r),
            ),
    {
        if crate::agent::bootstrap::is_fatal_bootstrap_error(status_code) {
            return SessionFailure::Fatal;
        }
        let clear_identity = crate::agent::bootstrap::is_auth_failure(status_code);
        let retry_in = selector.failover_delay_at(clock_millis).max(self.backoff);
        selector.advance();
        if selector.current().is_none() {
            self.cache = None;
            self.backoff = self.backoff.doubled_capped(self.max_backoff);
            return SessionFailure::Exhausted { clear_identity };
        }
        SessionFailure::Retry { clear_identity, wait: retry_in }
    }
}

/// How one decision of the connect loop came out, as far as its backoff is
/// concerned.
#[derive(Clone, Copy, Debug, PartialEq, Eq, Structural)]
pub enum ConnectOutcome {
    /// Resolving failed and no usable cached assignment was left.
    AssignmentRetry,
    /// Resolving failed and the cached assignment is served.
    CachedReused,
    /// A fresh assignment was resolved.
    AssignmentResolved,
    /// A session ended cleanly.
    SessionSucceeded,
    /// A session failed with a rejected bootstrap.
    SessionFatal,
    /// A session failed and another target is left.
    TargetRetry,
    /// A session failed and no target is left.
    TargetsExhausted,
}

/// The backoff after one decision: it doubles, capped at `max`, when the
/// loop has to resolve again, returns to `base` after a clean session, and
/// stays otherwise.
pub open spec fn backoff_step(b: int, base: int, max: int, o: ConnectOutcome) -> int {
    match o {
        ConnectOutcome::AssignmentRetry => imin(b * 2, max),
        ConnectOutcome::TargetsExhausted => imin(b * 2, max),
        ConnectOutcome::SessionSucceeded => base,
        _ => b,
    }
}

/// The backoff after a run of decisions that started at `base`.
pub open spec fn backoff_after(base: int, max: int, run: Seq<ConnectOutcome>) -> int
    decreases run.len(),
{
    if run.len() == 0 {
        base
    } else {
        backoff_step(backoff_after(base, max, run.drop_last()), base, max, run.last())
    }
}

/// The outcome an assignment fallback stands for.
pub open spec fn fallback_outcome(r: AssignmentFallback) -> ConnectOutcome {
    match r {
        AssignmentFallback::UseCached(_) => ConnectOutcome::CachedReused,
        AssignmentFallback::Retry(_) => ConnectOutcome::AssignmentRetry,
    }
}

/// The outcome a session failure stands for.
pub open spec fn failure_outcome(r: SessionFailure) -> ConnectOutcome {
    match r {
        SessionFailure::Fatal => ConnectOutcome::SessionFatal,
        SessionFailure::Retry { .. } => ConnectOutcome::TargetRetry,
        SessionFailure::Exhausted { .. } => ConnectOutcome::TargetsExhausted,
    }
}

/// Over any run of the connect loop that starts at the base backoff, with
/// a base no longer than the maximum: the backoff (which is also every
/// wait after a failed assignment) stays between the base and the
/// maximum, returns to the base after each clean session, doubles capped
/// at the maximum each time the loop has to resolve again, and is left
/// alone by every other decision.
pub proof fn law_connect_backoff_over_a_run(base: int, max: int, run: Seq<ConnectOutcome>)
    requires
        0 <= base <= max,
    ensures
        forall|k: int|
            0 <= k <= run.len() ==> base <= #[trigger] backoff_after(base, max, run.take(k)) <= max,
        forall|k: int|
            0 <= k < run.len() ==> #[trigger] backoff_after(base, max, run.take(k + 1))
                == backoff_step(backoff_after(base, max, run.take(k)), base, max, run[k]),
    decreases run.len(),
{
    assert forall|k: int| 0 <= k < run.len() implies #[trigger] backoff_after(
        base,
        max,
        run.take(k + 1),
    ) == backoff_step(backoff_after(base, max, run.take(k)), base, max, run[k]) by {
        assert(run.take(k + 1).drop_last() =~= run.take(k));
    }
    assert forall|k: int| 0 <= k <= run.len() implies base <= #[trigger] backoff_after(
        base,
        max,
        run.take(k),
    ) <= max by {
        lemma_backoff_bounded(base, max, run.take(k));
    }
}

proof fn lemma_backoff_bounded(base: int, max: int, run: Seq<ConnectOutcome>)
    requires
        0 <= base <= max,
    ensures
        base <= backoff_after(base, max, run) <= max,
    decreases run.len(),
{
    if run.len() > 0 {
        lemma_backoff_bounded(base, max, run.drop_last());
    }
}

/// What happened while a session ran.
#[derive(Clone, Debug)]
pub enum SessionEvent {
    ShutdownRequested,
    AssignmentChanged,
    FrameHandled,
    FrameFailed(String),
    StreamClosed,
    StreamFailed(String),
}

/// How a session goes on after an event.
#[derive(Clone, Debug)]
pub enum SessionStep {
    Continue,
    /// The session ends without error.
    Finish,
    /// The session ends with this error; its helper tasks are stopped.
    Fail(String),
}

/// The session's reaction to an event: a shutdown request or the server
/// closing the stream ends it cleanly; a changed assignment, a frame that
/// could not be handled, or a stream error ends it with an error.
pub fn session_step(event: SessionEvent) -> (r: SessionStep)
    ensures
        match event {
            SessionEvent::ShutdownRequested => r is Finish,
            SessionEvent::StreamClosed => r is Finish,
            SessionEvent::FrameHandled => r is Continue,
            SessionEvent::AssignmentChanged => r matches SessionStep::Fail(e) && e@
                == "runtime assignment changed"@,
            SessionEvent::FrameFailed(e) => r matches SessionStep::Fail(x) && x@ == e@,
            SessionEvent::StreamFailed(e) => r matches SessionStep::Fail(x) && x@ == e@,
        },
{
    match event {
        SessionEvent::ShutdownRequested => SessionStep::Finish,
        SessionEvent::StreamClosed => SessionStep::Finish,
        SessionEvent::FrameHandled => SessionStep::Continue,
        SessionEvent::AssignmentChanged => SessionStep::Fail(
            crate::text::str_to_string("runtime assignment changed"),
        ),
        SessionEvent::FrameFailed(e) => SessionStep::Fail(e),
        SessionEvent::StreamFailed(e) => SessionStep::Fail(e),
    }
}

/// Telemetry of a session: idle while no zone is assigned, else pushed
/// for the trimmed zone at least every five seconds.
pub fn telemetry_schedule(config: &AppConfig) -> (r: Option<(String, Duration)>)
    ensures
        match r {
            None => is_blank(config.app.zone_id@),
            Some((zone, period)) => !is_blank(config.app.zone_id@) && zone@ == config.app.zone_id@
                && period@ == imax(config.agent.telemetry_interval@, 5000),
        },
{
    if blank(config.app.zone_id.as_str()) {
        return None;
    }
    Some((config.app.zone_id.clone(), config.agent.telemetry_interval.max(Duration::from_secs(5))))
}

/// The heartbeat period: the configured interval, at least one second.
pub fn heartbeat_period(interval: Duration) -> (d: Duration)
    ensures
        d@ == imax(interval@, 1000),
{
    interval.max(Duration::from_secs(1))
}

/// The stream id of a session opened at `unix_secs`:
/// `"{agent_id}-{unix_secs}"`.
pub fn stream_id_at(agent_id: &str, unix_secs: u64) -> (r: String)
    ensures
        r@ == agent_id@ + "-"@ + decimal_spec(unix_secs as nat),
{
    let n = decimal_string(unix_secs);
    concat3(agent_id, "-", n.as_str())
}

/// The stream id of a session opened now.
pub fn new_stream_id(agent_id: &str) -> (r: String)
    ensures
        exists|t: u64| r@ == agent_id@ + "-"@ + decimal_spec(t as nat),
{
    let (secs, _) = since_unix_epoch(system_now());
    stream_id_at(agent_id, secs)
}

} // verus!
