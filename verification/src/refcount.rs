//! The strong/weak reference-count state machine of a weak-capable
//! envelope, and the laws that hold over every sequence of counter events.
//!
//! Every counter operation of the runtime is one atomic instruction, so a
//! concurrent history of operations acts on the envelope as some single
//! sequence of these events. The laws below therefore quantify over all
//! event sequences in which each caller holds the ticket its event spends:
//! the payload is destroyed exactly once, exactly when the running strong
//! total first reaches zero; weak traffic never touches the payload while
//! a strong ticket lives; and once the strong count has reached zero no
//! later upgrade can succeed.
use vstd::prelude::*;

verus! {

/// One counter event on a weak-capable envelope.
#[derive(PartialEq, Eq, Structural)]
pub enum RcEvent {
    AddRef,
    Release,
    AddRefWeak,
    ReleaseWeak,
    TryUpgrade,
    TryDowngrade,
}

/// The counter state of a weak-capable envelope: the two counts and
/// whether the payload is still constructed.
pub struct RcState {
    pub strong: nat,
    pub weak: nat,
    pub live: bool,
}

/// The state of a freshly created weak-capable envelope: one strong
/// ticket, whose existence implicitly holds the one weak ticket.
pub open spec fn rc_init() -> RcState {
    RcState { strong: 1, weak: 1, live: true }
}

/// The envelope invariant: the payload is constructed exactly while a
/// strong ticket lives, and a live strong ticket holds a weak ticket.
pub open spec fn rc_wf(s: RcState) -> bool {
    (s.live <==> s.strong > 0) && (s.strong > 0 ==> s.weak > 0)
}

/// Whether a caller may issue the event: each event spends or relies on a
/// ticket the caller must hold. Releasing a weak ticket while strong
/// tickets live requires a weak ticket beyond the one the strong side
/// holds.
pub open spec fn rc_enabled(s: RcState, e: RcEvent) -> bool {
    match e {
        RcEvent::AddRef => s.strong >= 1,
        RcEvent::Release => s.strong >= 1,
        RcEvent::AddRefWeak => s.weak >= 1,
        RcEvent::ReleaseWeak => s.weak >= 1 && (s.strong >= 1 ==> s.weak >= 2),
        RcEvent::TryUpgrade => s.weak >= 1,
        RcEvent::TryDowngrade => s.strong >= 1,
    }
}

/// The effect of one event. A release of the last strong ticket destroys
/// the payload and gives back the weak ticket the strong side held; an
/// upgrade increments only if it observes a nonzero strong count; a
/// downgrade is an unconditional increment, since the strong ticket the
/// caller holds proves the envelope is not mid-teardown.
pub open spec fn rc_step(s: RcState, e: RcEvent) -> RcState {
    match e {
        RcEvent::AddRef => RcState { strong: s.strong + 1, weak: s.weak, live: s.live },
        RcEvent::Release => if s.strong == 1 {
            RcState { strong: 0, weak: (s.weak - 1) as nat, live: false }
        } else {
            RcState { strong: (s.strong - 1) as nat, weak: s.weak, live: s.live }
        },
        RcEvent::AddRefWeak => RcState { strong: s.strong, weak: s.weak + 1, live: s.live },
        RcEvent::ReleaseWeak => RcState {
            strong: s.strong,
            weak: (s.weak - 1) as nat,
            live: s.live,
        },
        RcEvent::TryUpgrade => if s.strong > 0 {
            RcState { strong: s.strong + 1, weak: s.weak, live: s.live }
        } else {
            s
        },
        RcEvent::TryDowngrade => RcState { strong: s.strong, weak: s.weak + 1, live: s.live },
    }
}

/// Whether an upgrade issued in state `s` returns a new strong ticket.
pub open spec fn rc_upgrade_succeeds(s: RcState) -> bool {
    s.strong > 0
}

/// The step at which the payload is destroyed: the release of the last
/// strong ticket.
pub open spec fn rc_destroys(s: RcState, e: RcEvent) -> bool {
    e == RcEvent::Release && s.strong == 1
}

/// The state after a sequence of events.
pub open spec fn rc_run(s: RcState, tr: Seq<RcEvent>) -> RcState
    decreases tr.len(),
{
    if tr.len() == 0 {
        s
    } else {
        rc_run(rc_step(s, tr[0]), tr.skip(1))
    }
}

/// Whether every event of the sequence is enabled in the state it meets:
/// each caller spends only tickets it holds.
pub open spec fn rc_valid_from(s: RcState, tr: Seq<RcEvent>) -> bool
    decreases tr.len(),
{
    tr.len() == 0 || (rc_enabled(s, tr[0]) && rc_valid_from(rc_step(s, tr[0]), tr.skip(1)))
}

/// Running a single event is stepping it.
pub proof fn lemma_rc_run_one(s: RcState, e: RcEvent)
    ensures
        rc_run(s, seq![e]) == rc_step(s, e),
{
    let u = seq![e];
    assert(u.len() == 1 && u[0] == e);
    assert(u.skip(1) =~= Seq::<RcEvent>::empty());
    assert(rc_run(s, u) == rc_run(rc_step(s, e), u.skip(1)));
    assert(rc_run(rc_step(s, e), Seq::<RcEvent>::empty()) == rc_step(s, e));
}

/// One enabled event preserves the envelope invariant.
pub proof fn lemma_rc_wf_step(s: RcState, e: RcEvent)
    requires
        rc_wf(s),
        rc_enabled(s, e),
    ensures
        rc_wf(rc_step(s, e)),
{
}

/// Every valid event sequence preserves the envelope invariant.
pub proof fn lemma_rc_wf_run(s: RcState, tr: Seq<RcEvent>)
    requires
        rc_wf(s),
        rc_valid_from(s, tr),
    ensures
        rc_wf(rc_run(s, tr)),
    decreases tr.len(),
{
    if tr.len() > 0 {
        lemma_rc_wf_step(s, tr[0]);
        lemma_rc_wf_run(rc_step(s, tr[0]), tr.skip(1));
    }
}

/// Running a sequence splits at any point into running its head part and
/// then its tail part, and validity splits with it.
pub proof fn lemma_rc_split(s: RcState, tr: Seq<RcEvent>, n: int)
    requires
        0 <= n <= tr.len(),
        rc_valid_from(s, tr),
    ensures
        rc_valid_from(s, tr.take(n)),
        rc_valid_from(rc_run(s, tr.take(n)), tr.skip(n)),
        rc_run(s, tr) == rc_run(rc_run(s, tr.take(n)), tr.skip(n)),
    decreases n,
{
    if n == 0 {
        assert(tr.take(0) =~= Seq::<RcEvent>::empty());
        assert(tr.skip(0) =~= tr);
    } else {
        let s1 = rc_step(s, tr[0]);
        lemma_rc_split(s1, tr.skip(1), n - 1);
        assert(tr.skip(1).take(n - 1) =~= tr.take(n).skip(1));
        assert(tr.take(n)[0] == tr[0]);
        assert(tr.skip(1).skip(n - 1) =~= tr.skip(n));
        assert(rc_run(s, tr.take(n)) == rc_run(s1, tr.take(n).skip(1)));
    }
}

/// Once the strong count is zero it stays zero: no valid event can raise
/// it, and every later upgrade observes zero and fails. This is the half
/// of weak/strong independence that makes an upgrade failure permanent.
pub proof fn lemma_strong_zero_absorbing(s: RcState, tr: Seq<RcEvent>)
    requires
        s.strong == 0,
        rc_valid_from(s, tr),
    ensures
        rc_run(s, tr).strong == 0,
        forall|n: int|
            0 <= n <= tr.len() ==> #[trigger] rc_run(s, tr.take(n)).strong == 0
                && !rc_upgrade_succeeds(rc_run(s, tr.take(n))),
    decreases tr.len(),
{
    if tr.len() == 0 {
        assert forall|n: int| 0 <= n <= tr.len() implies #[trigger] rc_run(s, tr.take(n)).strong
            == 0 by {
            assert(tr.take(n) =~= tr);
        }
    } else {
        let s1 = rc_step(s, tr[0]);
        assert(s1.strong == 0);
        lemma_strong_zero_absorbing(s1, tr.skip(1));
        assert forall|n: int| 0 <= n <= tr.len() implies #[trigger] rc_run(s, tr.take(n)).strong
            == 0 by {
            if n == 0 {
                assert(tr.take(0) =~= Seq::<RcEvent>::empty());
            } else {
                assert(tr.skip(1).take(n - 1) =~= tr.take(n).skip(1));
                assert(tr.take(n)[0] == tr[0]);
                assert(rc_run(s, tr.take(n)) == rc_run(s1, tr.skip(1).take(n - 1)));
            }
        }
    }
}

/// Weak-side events leave the strong count and the payload untouched:
/// creating or releasing weak tickets cannot destroy a payload that a
/// strong ticket keeps alive.
pub proof fn lemma_weak_event_leaves_payload(s: RcState, e: RcEvent)
    requires
        e == RcEvent::AddRefWeak || e == RcEvent::ReleaseWeak || e == RcEvent::TryDowngrade,
    ensures
        rc_step(s, e).strong == s.strong,
        rc_step(s, e).live == s.live,
{
}

/// A sequence of weak-side events alone leaves the strong count and the
/// payload exactly as they were.
pub proof fn lemma_weak_trace_leaves_payload(s: RcState, tr: Seq<RcEvent>)
    requires
        rc_valid_from(s, tr),
        forall|n: int|
            0 <= n < tr.len() ==> tr[n] == RcEvent::AddRefWeak || tr[n] == RcEvent::ReleaseWeak
                || tr[n] == RcEvent::TryDowngrade,
    ensures
        rc_run(s, tr).strong == s.strong,
        rc_run(s, tr).live == s.live,
    decreases tr.len(),
{
    if tr.len() > 0 {
        lemma_weak_event_leaves_payload(s, tr[0]);
        lemma_weak_trace_leaves_payload(rc_step(s, tr[0]), tr.skip(1));
    }
}

/// If one event takes the strong count from positive to zero, it is the
/// release of the last strong ticket: nothing else lowers the count, so
/// the zero-crossing step and the destroying step are the same step.
pub proof fn lemma_zero_crossing_is_destruction(s: RcState, e: RcEvent)
    requires
        rc_enabled(s, e),
        s.strong > 0,
        rc_step(s, e).strong == 0,
    ensures
        rc_destroys(s, e),
{
}

/// Refcount conservation: over any valid event sequence from a live
/// well-formed state, the payload is destroyed at most once, and a
/// destruction happens at position `n` exactly when the running strong
/// total first reaches zero after the event at `n`.
pub proof fn lemma_destroyed_exactly_once(s: RcState, tr: Seq<RcEvent>)
    requires
        rc_wf(s),
        s.strong > 0,
        rc_valid_from(s, tr),
    ensures
        forall|n: int|
            0 <= n < tr.len() ==> (#[trigger] rc_destroys(rc_run(s, tr.take(n)), tr[n]) <==> (
            rc_run(s, tr.take(n)).strong > 0 && rc_run(s, tr.take(n + 1)).strong == 0)),
        forall|n1: int, n2: int|
            0 <= n1 < tr.len() && 0 <= n2 < tr.len() && #[trigger] rc_destroys(
                rc_run(s, tr.take(n1)),
                tr[n1],
            ) && #[trigger] rc_destroys(rc_run(s, tr.take(n2)), tr[n2]) ==> n1 == n2,
{
    assert forall|n: int| 0 <= n < tr.len() implies (#[trigger] rc_destroys(
        rc_run(s, tr.take(n)),
        tr[n],
    ) <==> (rc_run(s, tr.take(n)).strong > 0 && rc_run(s, tr.take(n + 1)).strong == 0)) by {
        let sn = rc_run(s, tr.take(n));
        lemma_rc_split(s, tr, n);
        lemma_rc_wf_run(s, tr.take(n));
        assert(rc_valid_from(sn, tr.skip(n)));
        assert(tr.skip(n)[0] == tr[n]);
        assert(rc_enabled(sn, tr[n]));
        let sn1 = rc_step(sn, tr[n]);
        assert(rc_run(s, tr.take(n + 1)) == sn1) by {
            lemma_rc_split(s, tr, n + 1);
            assert(tr.take(n + 1).take(n) =~= tr.take(n));
            lemma_rc_split(s, tr.take(n + 1), n);
            assert(tr.take(n + 1).skip(n) =~= seq![tr[n]]);
            lemma_rc_run_one(sn, tr[n]);
        }
        if rc_destroys(sn, tr[n]) {
            assert(sn.strong == 1 && sn1.strong == 0);
        }
        if sn.strong > 0 && sn1.strong == 0 {
            lemma_zero_crossing_is_destruction(sn, tr[n]);
        }
    }
    assert forall|n1: int, n2: int|
        0 <= n1 < tr.len() && 0 <= n2 < tr.len() && #[trigger] rc_destroys(
            rc_run(s, tr.take(n1)),
            tr[n1],
        ) && #[trigger] rc_destroys(rc_run(s, tr.take(n2)), tr[n2]) implies n1 == n2 by {
        if n1 != n2 {
            let a = if n1 < n2 {
                n1
            } else {
                n2
            };
            let b = if n1 < n2 {
                n2
            } else {
                n1
            };
            lemma_rc_split(s, tr, a + 1);
            let sa1 = rc_run(s, tr.take(a + 1));
            assert(rc_destroys(rc_run(s, tr.take(a)), tr[a]));
            assert(sa1.strong == 0) by {
                lemma_rc_split(s, tr, a);
                lemma_rc_split(s, tr.take(a + 1), a);
                assert(tr.take(a + 1).take(a) =~= tr.take(a));
                assert(tr.take(a + 1).skip(a) =~= seq![tr[a]]);
                lemma_rc_run_one(rc_run(s, tr.take(a)), tr[a]);
            }
            lemma_strong_zero_absorbing(sa1, tr.skip(a + 1));
            assert(tr.skip(a + 1).take(b - a - 1) =~= tr.take(b).skip(a + 1)) by {
                assert(tr.skip(a + 1).take(b - a - 1) =~= tr.subrange(a + 1, b));
                assert(tr.take(b).skip(a + 1) =~= tr.subrange(a + 1, b));
            }
            assert(rc_run(s, tr.take(b)) == rc_run(sa1, tr.take(b).skip(a + 1))) by {
                lemma_rc_split(s, tr, b);
                lemma_rc_split(s, tr.take(b), a + 1);
                assert(tr.take(b).take(a + 1) =~= tr.take(a + 1));
            }
            assert(rc_run(s, tr.take(b)).strong == 0);
            assert(rc_destroys(rc_run(s, tr.take(b)), tr[b]));
            assert(false);
        }
    }
}

} // verus!
