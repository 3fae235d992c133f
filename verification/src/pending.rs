//! Pending-work tracker and poll-hook lifecycle.
//!
//! A count of outstanding callback-bearing jobs and a one-shot registration
//! flag together decide when the host must register its periodic poll point
//! and when it may let it go. The host is single-threaded: every transition
//! below happens on the host thread, so the state lives in one owned value.

use vstd::prelude::*;

verus! {

/// Abstract state of the tracker: the observable counter and flag beside the
/// running totals of callback-bearing submissions and drains.
pub ghost struct TrackerView {
    pub pending: nat,
    pub registered: bool,
    pub submitted: nat,
    pub drained: nat,
}

/// The state a fresh tracker starts in.
pub open spec fn init_view() -> TrackerView {
    TrackerView { pending: 0, registered: false, submitted: 0, drained: 0 }
}

/// Effect of counting one callback-bearing submission.
pub open spec fn spec_note_submitted(v: TrackerView) -> TrackerView {
    TrackerView { pending: v.pending + 1, submitted: v.submitted + 1, ..v }
}

/// Effect of a drain that hands back `count` callback-bearing jobs. The
/// decrement is clamped so the counter can never go below zero; under the
/// library's own flows a drain never exceeds the outstanding count.
pub open spec fn spec_decrease(v: TrackerView, count: nat) -> TrackerView {
    let d = if count <= v.pending {
        count
    } else {
        v.pending
    };
    TrackerView { pending: (v.pending - d) as nat, drained: v.drained + d, ..v }
}

/// Effect of the test-and-set registration check.
pub open spec fn spec_should_register(v: TrackerView) -> TrackerView {
    TrackerView { registered: true, ..v }
}

/// Effect of dropping the registration.
pub open spec fn spec_mark_unregistered(v: TrackerView) -> TrackerView {
    TrackerView { registered: false, ..v }
}

/// Counter of outstanding callback-bearing jobs plus the poll-hook
/// registration flag.
pub struct PendingTracker {
    callbacks_pending: usize,
    hook_registered: bool,
    submitted: Ghost<nat>,
    drained: Ghost<nat>,
}

impl View for PendingTracker {
    type V = TrackerView;

    closed spec fn view(&self) -> TrackerView {
        TrackerView {
            pending: self.callbacks_pending as nat,
            registered: self.hook_registered,
            submitted: self.submitted@,
            drained: self.drained@,
        }
    }
}

impl PendingTracker {
    /// The counter always balances the totals: outstanding work is exactly
    /// what was submitted and not yet drained.
    pub open spec fn wf(self) -> bool {
        self@.submitted == self@.drained + self@.pending
    }

    pub fn new() -> (r: Self)
        ensures
            r@ == init_view(),
            r.wf(),
    {
        PendingTracker {
            callbacks_pending: 0,
            hook_registered: false,
            submitted: Ghost(0),
            drained: Ghost(0),
        }
    }

    /// The number of callback-bearing jobs still in flight.
    pub fn get_callbacks_pending(&self) -> (r: usize)
        ensures
            r == self@.pending,
    {
        self.callbacks_pending
    }

    /// Counts one callback-bearing submission, before the job is handed off.
    pub fn note_callback_submitted(&mut self)
        requires
            old(self).wf(),
            old(self)@.pending < usize::MAX,
        ensures
            final(self).wf(),
            final(self)@ == spec_note_submitted(old(self)@),
    {
        self.callbacks_pending = self.callbacks_pending + 1;
        proof {
            self.submitted@ = self.submitted@ + 1;
        }
    }

    /// Takes back what was counted for a submission the queue refused.
    pub fn forget_callback_submitted(&mut self)
        requires
            old(self).wf(),
            old(self)@.pending >= 1,
        ensures
            final(self).wf(),
            final(self)@ == (TrackerView {
                pending: (old(self)@.pending - 1) as nat,
                submitted: (old(self)@.submitted - 1) as nat,
                ..old(self)@
            }),
    {
        self.callbacks_pending = self.callbacks_pending - 1;
        proof {
            self.submitted@ = (self.submitted@ - 1) as nat;
        }
    }

    /// Subtracts the callback-bearing jobs drained in one poll cycle.
    pub fn decrease_callbacks_pending(&mut self, count: usize)
        requires
            old(self).wf(),
        ensures
            final(self).wf(),
            final(self)@ == spec_decrease(old(self)@, count as nat),
    {
        let d = if count <= self.callbacks_pending {
            count
        } else {
            self.callbacks_pending
        };
        self.callbacks_pending = self.callbacks_pending - d;
        proof {
            self.drained@ = (self.drained@ + d) as nat;
        }
    }

    /// Test-and-set registration check: true only for the single call that
    /// moved the flag from unregistered to registered.
    pub fn should_register_hook(&mut self) -> (r: bool)
        ensures
            final(self)@ == spec_should_register(old(self)@),
            r == !old(self)@.registered,
            final(self).wf() == old(self).wf(),
    {
        let was = self.hook_registered;
        self.hook_registered = true;
        !was
    }

    /// Records that the host dropped its poll point.
    pub fn mark_hook_unregistered(&mut self)
        ensures
            final(self)@ == spec_mark_unregistered(old(self)@),
            final(self).wf() == old(self).wf(),
    {
        self.hook_registered = false;
    }
}

/// One tracker-visible event: a submission (with or without a callback) or a
/// drain of `count` callback-bearing jobs.
pub enum CounterEvent {
    Submit { has_callback: bool },
    Drain { count: usize },
}

/// Effect of one event on the abstract state.
pub open spec fn spec_apply_event(v: TrackerView, e: CounterEvent) -> TrackerView {
    match e {
        CounterEvent::Submit { has_callback } => if has_callback {
            spec_note_submitted(v)
        } else {
            v
        },
        CounterEvent::Drain { count } => spec_decrease(v, count as nat),
    }
}

/// Effect of a whole event sequence, first event first.
pub open spec fn spec_apply_events(v: TrackerView, es: Seq<CounterEvent>) -> TrackerView
    decreases es.len(),
{
    if es.len() == 0 {
        v
    } else {
        spec_apply_event(spec_apply_events(v, es.drop_last()), es.last())
    }
}

/// Callback-bearing submissions in the trace.
pub open spec fn spec_submitted_in(es: Seq<CounterEvent>) -> nat
    decreases es.len(),
{
    if es.len() == 0 {
        0
    } else {
        spec_submitted_in(es.drop_last()) + (match es.last() {
            CounterEvent::Submit { has_callback } => if has_callback {
                1nat
            } else {
                0nat
            },
            CounterEvent::Drain { .. } => 0nat,
        })
    }
}

/// Callback-bearing jobs drained in the trace.
pub open spec fn spec_drained_in(es: Seq<CounterEvent>) -> nat
    decreases es.len(),
{
    if es.len() == 0 {
        0
    } else {
        spec_drained_in(es.drop_last()) + (match es.last() {
            CounterEvent::Submit { .. } => 0nat,
            CounterEvent::Drain { count } => count as nat,
        })
    }
}

/// The trace never drains more than is outstanding — which is how the
/// library itself always drives the tracker.
pub open spec fn spec_wf_trace(es: Seq<CounterEvent>) -> bool
    decreases es.len(),
{
    if es.len() == 0 {
        true
    } else {
        spec_wf_trace(es.drop_last()) && (match es.last() {
            CounterEvent::Submit { .. } => true,
            CounterEvent::Drain { count } => count as nat <= spec_apply_events(
                init_view(),
                es.drop_last(),
            ).pending,
        })
    }
}

/// Counter monotonicity: over any sequence of submissions and drains the
/// pending counter never goes below zero, and when no drain overshoots it is
/// exactly the callback-bearing submissions so far minus the callback-bearing
/// jobs drained so far.
pub proof fn lemma_counter_balance(es: Seq<CounterEvent>)
    ensures
        spec_apply_events(init_view(), es).pending >= 0,
        spec_apply_events(init_view(), es).submitted == spec_apply_events(init_view(), es).drained
            + spec_apply_events(init_view(), es).pending,
        spec_wf_trace(es) ==> spec_apply_events(init_view(), es).pending == spec_submitted_in(es)
            - spec_drained_in(es),
        spec_wf_trace(es) ==> spec_apply_events(init_view(), es).submitted == spec_submitted_in(es)
            && spec_apply_events(init_view(), es).drained == spec_drained_in(es),
    decreases es.len(),
{
    if es.len() > 0 {
        lemma_counter_balance(es.drop_last());
    }
}

/// The outcomes of `n` registration checks made in a row from state `v`.
pub open spec fn spec_register_results(v: TrackerView, n: nat) -> Seq<bool>
    decreases n,
{
    if n == 0 {
        Seq::empty()
    } else {
        seq![!v.registered] + spec_register_results(spec_should_register(v), (n - 1) as nat)
    }
}

/// How many of the checks answered true.
pub open spec fn spec_count_trues(s: Seq<bool>) -> nat
    decreases s.len(),
{
    if s.len() == 0 {
        0
    } else {
        (if s[0] {
            1nat
        } else {
            0nat
        }) + spec_count_trues(s.skip(1))
    }
}

/// Exactly-once registration: out of any number of registration checks made
/// while the hook starts unregistered, exactly one answers true — only the
/// caller that performed the unregistered-to-registered transition is told to
/// register the poll point.
pub proof fn lemma_exactly_once_registration(v: TrackerView, n: nat)
    requires
        n >= 1,
        !v.registered,
    ensures
        spec_count_trues(spec_register_results(v, n)) == 1,
{
    lemma_register_results_count(v, n);
}

/// A registered state never answers true again; an unregistered state answers
/// true exactly once over any positive number of checks.
proof fn lemma_register_results_count(v: TrackerView, n: nat)
    ensures
        spec_count_trues(spec_register_results(v, n)) == (if v.registered || n == 0 {
            0nat
        } else {
            1nat
        }),
    decreases n,
{
    if n > 0 {
        lemma_register_results_count(spec_should_register(v), (n - 1) as nat);
        assert(spec_register_results(v, n).skip(1) =~= spec_register_results(
            spec_should_register(v),
            (n - 1) as nat,
        ));
    }
}

} // verus!
