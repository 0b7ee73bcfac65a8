//! Retry pacing of replica-sync restarts and the recovery decisions of a
//! topic subscription.
use vstd::prelude::*;

verus! {

/// Time after a delivery during which a public topic is not probed again.
pub const PUBLIC_TOPIC_RECOVERY_GRACE_MS: i64 = 3000;

/// `a + b`, clamped to the range of `i64`.
pub open spec fn saturating_sum(a: int, b: int) -> i64 {
    if a + b > i64::MAX {
        i64::MAX
    } else if a + b < i64::MIN {
        i64::MIN
    } else {
        (a + b) as i64
    }
}

/// `a + b` clamped to the range of `i64`, as `i64::saturating_add` computes it.
pub fn saturating_add_i64(a: i64, b: i64) -> (res: i64)
    ensures
        res == saturating_sum(a as int, b as int),
{
    match a.checked_add(b) {
        Some(sum) => sum,
        None => if b > 0 {
            i64::MAX
        } else {
            i64::MIN
        },
    }
}

/// The delay before the restart after the `step`-th one: 3 s, then 10 s,
/// then 30 s for every later restart.
pub open spec fn backoff_delay(step: nat) -> i64 {
    if step == 0 {
        3000
    } else if step == 1 {
        10000
    } else {
        30000
    }
}

/// The delay in milliseconds for a step of the backoff.
pub fn recovery_backoff_delay_ms(step: usize) -> (res: i64)
    ensures
        res == backoff_delay(step as nat),
{
    if step == 0 {
        3000
    } else if step == 1 {
        10000
    } else {
        30000
    }
}

/// When the next replica-sync restart may happen, and how far the delays
/// have grown.
#[derive(Clone, Copy, Debug, PartialEq, Eq)]
pub struct SubscriptionRecoveryBackoff {
    next_retry_at_ms: i64,
    step: usize,
}

impl SubscriptionRecoveryBackoff {
    #[verifier::type_invariant]
    spec fn step_in_range(&self) -> bool {
        self.step <= 2
    }

    /// The earliest time, in milliseconds, at which a restart is allowed.
    pub closed spec fn next_retry_at(&self) -> i64 {
        self.next_retry_at_ms
    }

    /// How many delays have been used, capped at 2.
    pub closed spec fn step_count(&self) -> nat {
        self.step as nat
    }

    /// The retry time and the step, together.
    pub open spec fn state(&self) -> (i64, nat) {
        (self.next_retry_at(), self.step_count())
    }

    /// The retry time and step after a restart attempt at `now_ms`: unchanged
    /// when a restart is not yet allowed, advanced by one delay when it is.
    pub open spec fn attempted(&self, now_ms: i64) -> (i64, nat) {
        if self.next_retry_at() <= now_ms {
            (
                saturating_sum(now_ms as int, backoff_delay(self.step_count()) as int),
                if self.step_count() < 2 {
                    self.step_count() + 1
                } else {
                    2
                },
            )
        } else {
            self.state()
        }
    }

    /// A backoff that allows a restart at once.
    pub fn new() -> (res: SubscriptionRecoveryBackoff)
        ensures
            res.next_retry_at() == 0,
            res.step_count() == 0,
    {
        SubscriptionRecoveryBackoff { next_retry_at_ms: 0, step: 0 }
    }

    pub fn next_retry_at_ms(&self) -> (res: i64)
        ensures
            res == self.next_retry_at(),
    {
        self.next_retry_at_ms
    }

    pub fn step(&self) -> (res: usize)
        ensures
            res == self.step_count(),
            res <= 2,
    {
        proof { use_type_invariant(self); }
        self.step
    }

    /// Forgets all delays: a restart is allowed at once.
    pub fn reset(&mut self)
        ensures
            final(self).next_retry_at() == 0,
            final(self).step_count() == 0,
    {
        proof { use_type_invariant(&*self); }
        self.next_retry_at_ms = 0;
        self.step = 0;
    }

    /// Whether a restart is allowed at `now_ms`.
    pub fn ready(&self, now_ms: i64) -> (res: bool)
        ensures
            res == (self.next_retry_at() <= now_ms),
    {
        self.next_retry_at_ms <= now_ms
    }

    /// Records a restart at `now_ms`: the next one waits for the current
    /// step's delay, and the step grows up to its cap.
    pub fn schedule(&mut self, now_ms: i64)
        ensures
            final(self).next_retry_at() == saturating_sum(
                now_ms as int,
                backoff_delay(old(self).step_count()) as int,
            ),
            final(self).step_count() == if old(self).step_count() < 2 {
                old(self).step_count() + 1
            } else {
                2
            },
    {
        proof { use_type_invariant(&*self); }
        let delay_ms = recovery_backoff_delay_ms(self.step);
        self.next_retry_at_ms = saturating_add_i64(now_ms, delay_ms);
        if self.step + 1 < 3 {
            self.step = self.step + 1;
        }
    }

    /// Decides whether to restart the replica sync now; when it does, the
    /// restart is recorded with `schedule`.  A refused restart changes nothing.
    pub fn begin_restart(&mut self, now_ms: i64) -> (res: bool)
        ensures
            res == (old(self).next_retry_at() <= now_ms),
            res ==> final(self).next_retry_at() == saturating_sum(
                now_ms as int,
                backoff_delay(old(self).step_count()) as int,
            ) && final(self).step_count() == if old(self).step_count() < 2 {
                old(self).step_count() + 1
            } else {
                2
            },
            !res ==> *final(self) == *old(self),
            final(self).state() == old(self).attempted(now_ms),
    {
        if !self.ready(now_ms) {
            return false;
        }
        self.schedule(now_ms);
        true
    }
}

impl Default for SubscriptionRecoveryBackoff {
    fn default() -> (res: SubscriptionRecoveryBackoff)
        ensures
            res.next_retry_at() == 0,
            res.step_count() == 0,
    {
        SubscriptionRecoveryBackoff::new()
    }
}

/// What the subscription loop does after a hydration attempt.
#[derive(Clone, Copy, Debug, PartialEq, Eq, Structural)]
pub struct RecoveryOutcome {
    /// Record docs-assisted delivery activity for the current subscription generation.
    pub record_docs_activity: bool,
    /// Set the last-sync time to now.
    pub mark_synced: bool,
    /// Ask the docs layer to restart the replica sync.
    pub restart_replica_sync: bool,
}

/// The recovery state of one topic subscription: the restart backoff and the
/// time of the next docs probe.  Only public topics are probed.
#[derive(Clone, Copy, Debug, PartialEq, Eq)]
pub struct SubscriptionRecovery {
    backoff: SubscriptionRecoveryBackoff,
    probe_due_at_ms: i64,
    public_topic: bool,
}

/// Whether a due probe of a public topic should hydrate from docs: not when
/// a live topic peer is connected and no docs-assist peer is known, and not
/// when neither a docs-assist peer nor a configured topic peer is known.
pub open spec fn probe_hydrates(
    has_live_topic_peer: bool,
    has_configured_topic_peer: bool,
    docs_assist_peer_count: nat,
) -> bool {
    !(has_live_topic_peer && docs_assist_peer_count == 0) && !(docs_assist_peer_count == 0
        && !has_configured_topic_peer)
}

/// The decision `probe_hydrates` for a due probe.
pub fn probe_should_hydrate(
    has_live_topic_peer: bool,
    has_configured_topic_peer: bool,
    docs_assist_peer_count: usize,
) -> (res: bool)
    ensures
        res == probe_hydrates(
            has_live_topic_peer,
            has_configured_topic_peer,
            docs_assist_peer_count as nat,
        ),
{
    if has_live_topic_peer && docs_assist_peer_count == 0 {
        return false;
    }
    if docs_assist_peer_count == 0 && !has_configured_topic_peer {
        return false;
    }
    true
}

impl SubscriptionRecovery {
    pub closed spec fn backoff(&self) -> SubscriptionRecoveryBackoff {
        self.backoff
    }

    /// When the next docs probe is due, in milliseconds.
    pub closed spec fn probe_due_at(&self) -> i64 {
        self.probe_due_at_ms
    }

    /// Whether the subscription is to a public topic.
    pub closed spec fn is_public(&self) -> bool {
        self.public_topic
    }

    /// The state of a subscription started at `now_ms`: no restart pending and
    /// the first probe one grace period later.
    pub fn start(public_topic: bool, now_ms: i64) -> (res: SubscriptionRecovery)
        ensures
            res.is_public() == public_topic,
            res.backoff().state() == (0i64, 0nat),
            res.probe_due_at() == saturating_sum(
                now_ms as int,
                PUBLIC_TOPIC_RECOVERY_GRACE_MS as int,
            ),
    {
        SubscriptionRecovery {
            backoff: SubscriptionRecoveryBackoff::new(),
            probe_due_at_ms: saturating_add_i64(now_ms, PUBLIC_TOPIC_RECOVERY_GRACE_MS),
            public_topic,
        }
    }

    pub fn backoff_state(&self) -> (res: SubscriptionRecoveryBackoff)
        ensures
            res == self.backoff(),
    {
        self.backoff
    }

    pub fn probe_due_at_ms(&self) -> (res: i64)
        ensures
            res == self.probe_due_at(),
    {
        self.probe_due_at_ms
    }

    pub fn is_public_topic(&self) -> (res: bool)
        ensures
            res == self.is_public(),
    {
        self.public_topic
    }

    /// After a document event hydrated nothing from its own key, whether the
    /// whole replica is hydrated again: only for private-channel subscriptions.
    pub fn doc_event_needs_full_hydration(&self, hydrated: usize) -> (res: bool)
        ensures
            res == (hydrated == 0 && !self.is_public()),
    {
        hydrated == 0 && !self.public_topic
    }

    /// After a hint hydrated nothing from the objects it names, whether the
    /// whole replica is hydrated again: always.
    pub fn hint_needs_full_hydration(&self, hydrated: usize) -> (res: bool)
        ensures
            res == (hydrated == 0),
    {
        hydrated == 0
    }

    /// The state after a document event whose hydration produced `hydrated`
    /// projections.  Success resets the backoff, and for a public topic fed by
    /// a remote peer records docs activity and postpones the probe.  Failure
    /// attempts a backoff-paced restart, and for a public topic fed by a
    /// remote peer postpones the probe.
    pub fn on_doc_event(&mut self, hydrated: usize, had_source_peer: bool, now_ms: i64) -> (res:
        RecoveryOutcome)
        ensures
            final(self).is_public() == old(self).is_public(),
            hydrated > 0 ==> {
                &&& final(self).backoff().state() == (0i64, 0nat)
                &&& res == RecoveryOutcome {
                    record_docs_activity: old(self).is_public() && had_source_peer,
                    mark_synced: true,
                    restart_replica_sync: false,
                }
            },
            hydrated == 0 ==> {
                &&& final(self).backoff().state() == old(self).backoff().attempted(now_ms)
                &&& res == RecoveryOutcome {
                    record_docs_activity: false,
                    mark_synced: false,
                    restart_replica_sync: old(self).backoff().next_retry_at() <= now_ms,
                }
            },
            final(self).probe_due_at() == if old(self).is_public() && had_source_peer {
                saturating_sum(now_ms as int, PUBLIC_TOPIC_RECOVERY_GRACE_MS as int)
            } else {
                old(self).probe_due_at()
            },
    {
        if hydrated > 0 {
            self.backoff.reset();
            let record = self.public_topic && had_source_peer;
            if record {
                self.probe_due_at_ms = saturating_add_i64(now_ms, PUBLIC_TOPIC_RECOVERY_GRACE_MS);
            }
            RecoveryOutcome { record_docs_activity: record, mark_synced: true, restart_replica_sync: false }
        } else {
            let restart = self.backoff.begin_restart(now_ms);
            if self.public_topic && had_source_peer {
                self.probe_due_at_ms = saturating_add_i64(now_ms, PUBLIC_TOPIC_RECOVERY_GRACE_MS);
            }
            RecoveryOutcome { record_docs_activity: false, mark_synced: false, restart_replica_sync: restart }
        }
    }

    /// The state after a hint whose hydration produced `hydrated` projections.
    /// Success resets the backoff, and for a public topic with a known source
    /// peer records docs activity and postpones the probe.  Failure attempts a
    /// backoff-paced restart and always postpones the probe.
    pub fn on_hint(&mut self, hydrated: usize, has_source_peer: bool, now_ms: i64) -> (res:
        RecoveryOutcome)
        ensures
            final(self).is_public() == old(self).is_public(),
            hydrated > 0 ==> {
                &&& final(self).backoff().state() == (0i64, 0nat)
                &&& res == RecoveryOutcome {
                    record_docs_activity: old(self).is_public() && has_source_peer,
                    mark_synced: true,
                    restart_replica_sync: false,
                }
                &&& final(self).probe_due_at() == if old(self).is_public() && has_source_peer {
                    saturating_sum(now_ms as int, PUBLIC_TOPIC_RECOVERY_GRACE_MS as int)
                } else {
                    old(self).probe_due_at()
                }
            },
            hydrated == 0 ==> {
                &&& final(self).backoff().state() == old(self).backoff().attempted(now_ms)
                &&& res == RecoveryOutcome {
                    record_docs_activity: false,
                    mark_synced: false,
                    restart_replica_sync: old(self).backoff().next_retry_at() <= now_ms,
                }
                &&& final(self).probe_due_at() == saturating_sum(
                    now_ms as int,
                    PUBLIC_TOPIC_RECOVERY_GRACE_MS as int,
                )
            },
    {
        if hydrated > 0 {
            self.backoff.reset();
            let record = self.public_topic && has_source_peer;
            if record {
                self.probe_due_at_ms = saturating_add_i64(now_ms, PUBLIC_TOPIC_RECOVERY_GRACE_MS);
            }
            RecoveryOutcome { record_docs_activity: record, mark_synced: true, restart_replica_sync: false }
        } else {
            let restart = self.backoff.begin_restart(now_ms);
            self.probe_due_at_ms = saturating_add_i64(now_ms, PUBLIC_TOPIC_RECOVERY_GRACE_MS);
            RecoveryOutcome { record_docs_activity: false, mark_synced: false, restart_replica_sync: restart }
        }
    }

    /// Whether the periodic docs probe runs at `now_ms`: only for a public
    /// topic whose probe is due.
    pub fn probe_due(&self, now_ms: i64) -> (res: bool)
        ensures
            res == (self.is_public() && self.probe_due_at() <= now_ms),
    {
        self.public_topic && self.probe_due_at_ms <= now_ms
    }

    /// The state after a probe whose hydration produced `hydrated`
    /// projections.  Success records docs activity when a docs-assist peer is
    /// known and resets the backoff; failure attempts a backoff-paced restart.
    /// Either way the next probe is one grace period later.
    pub fn on_probe(&mut self, hydrated: usize, docs_assist_peer_count: usize, now_ms: i64) -> (res:
        RecoveryOutcome)
        ensures
            final(self).is_public() == old(self).is_public(),
            final(self).probe_due_at() == saturating_sum(
                now_ms as int,
                PUBLIC_TOPIC_RECOVERY_GRACE_MS as int,
            ),
            hydrated > 0 ==> {
                &&& final(self).backoff().state() == (0i64, 0nat)
                &&& res == RecoveryOutcome {
                    record_docs_activity: docs_assist_peer_count > 0,
                    mark_synced: true,
                    restart_replica_sync: false,
                }
            },
            hydrated == 0 ==> {
                &&& final(self).backoff().state() == old(self).backoff().attempted(now_ms)
                &&& res == RecoveryOutcome {
                    record_docs_activity: false,
                    mark_synced: false,
                    restart_replica_sync: old(self).backoff().next_retry_at() <= now_ms,
                }
            },
    {
        self.probe_due_at_ms = saturating_add_i64(now_ms, PUBLIC_TOPIC_RECOVERY_GRACE_MS);
        if hydrated > 0 {
            self.backoff.reset();
            RecoveryOutcome {
                record_docs_activity: docs_assist_peer_count > 0,
                mark_synced: true,
                restart_replica_sync: false,
            }
        } else {
            let restart = self.backoff.begin_restart(now_ms);
            RecoveryOutcome { record_docs_activity: false, mark_synced: false, restart_replica_sync: restart }
        }
    }
}

/// Once a restart was claimed at `first`, no further restart is claimed
/// before the delay of that step has passed.
pub proof fn restart_attempts_are_paced(b: SubscriptionRecoveryBackoff, first: i64, second: i64)
    requires
        b.next_retry_at() <= first,
        second < saturating_sum(first as int, backoff_delay(b.step_count()) as int),
    ensures
        b.attempted(first).0 > second,
{
}

/// The delays of successive restarts never shrink and never exceed 30 s.
pub proof fn backoff_delays_grow_to_a_cap(i: nat, j: nat)
    requires
        i <= j,
    ensures
        backoff_delay(i) <= backoff_delay(j),
        backoff_delay(j) <= 30000,
        backoff_delay(i) >= 3000,
{
}

} // verus!
