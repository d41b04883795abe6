//! What follows from the alert engine's rules: each kind is decided by its
//! own timer and its own thresholds, fires at most once per evaluation, and
//! stays silent for a cooldown after it fired.

use vstd::prelude::*;
use crate::alert::{
    armed, check_kind, check_rule, check_rules, count_kind, culprit_of, event_of, exceeded, fires,
    head_of, AlertCondition, AlertEventView, AlertKind, CooldownState, COOLDOWN_MS,
};
use crate::ranking::{lemma_ranking_exists, lemma_ranking_head, ranking_of};
use crate::snapshot::{top_usage, ProcessInfo, Snapshot};

verus! {

proof fn lemma_count_concat(a: Seq<AlertEventView>, b: Seq<AlertEventView>, kind: AlertKind)
    ensures
        count_kind(a + b, kind) == count_kind(a, kind) + count_kind(b, kind),
    decreases b.len(),
{
    if b.len() == 0 {
        assert(a + b =~= a);
    } else {
        assert((a + b).drop_last() =~= a + b.drop_last());
        assert((a + b).last() == b.last());
        lemma_count_concat(a, b.drop_last(), kind);
    }
}

proof fn lemma_count_one(e: AlertEventView, kind: AlertKind)
    ensures
        count_kind(seq![e], kind) == if e.kind == kind {
            1nat
        } else {
            0nat
        },
        count_kind(Seq::empty(), kind) == 0,
{
    assert(count_kind(Seq::empty(), kind) == 0);
    assert(seq![e].drop_last() =~= Seq::<AlertEventView>::empty());
    assert(seq![e].last() == e);
}

/// Checking a rule for one kind touches no other kind: it raises an alert
/// of the watched kind only, at most one, and moves only that kind's timer.
proof fn lemma_check_kind(
    state: CooldownState,
    rule: AlertCondition,
    checked: AlertKind,
    snapshot: Snapshot,
    kind: AlertKind,
)
    ensures
        ({
            let out = check_kind(state, rule, checked, snapshot);
            let hit = checked == kind && exceeded(rule, kind, snapshot) && armed(
                state.spec_last_fired(kind),
                snapshot.timestamp,
            );
            &&& count_kind(out.1, kind) == if hit {
                1nat
            } else {
                0nat
            }
            &&& out.0.spec_last_fired(kind) == if hit {
                Some(snapshot.timestamp)
            } else {
                state.spec_last_fired(kind)
            }
        }),
{
    lemma_count_one(event_of(rule, checked, snapshot), kind);
}

/// One rule, seen from one kind: an alert of that kind is raised exactly
/// when the rule's threshold for it is exceeded and the kind is armed.
proof fn lemma_check_rule(state: CooldownState, rule: AlertCondition, snapshot: Snapshot, kind: AlertKind)
    ensures
        ({
            let out = check_rule(state, rule, snapshot);
            let hit = exceeded(rule, kind, snapshot) && armed(
                state.spec_last_fired(kind),
                snapshot.timestamp,
            );
            &&& count_kind(out.1, kind) == if hit {
                1nat
            } else {
                0nat
            }
            &&& out.0.spec_last_fired(kind) == if hit {
                Some(snapshot.timestamp)
            } else {
                state.spec_last_fired(kind)
            }
        }),
{
    let cpu = check_kind(state, rule, AlertKind::Cpu, snapshot);
    let memory = check_kind(cpu.0, rule, AlertKind::Memory, snapshot);
    let network = check_kind(memory.0, rule, AlertKind::Network, snapshot);
    lemma_check_kind(state, rule, AlertKind::Cpu, snapshot, kind);
    lemma_check_kind(cpu.0, rule, AlertKind::Memory, snapshot, kind);
    lemma_check_kind(memory.0, rule, AlertKind::Network, snapshot, kind);
    lemma_count_concat(cpu.1, memory.1, kind);
    lemma_count_concat(cpu.1 + memory.1, network.1, kind);
}

/// Independence and cooldown. In one evaluation a kind raises exactly one
/// alert if it is armed and some rule's threshold for it is exceeded, and
/// none otherwise, whatever the other kinds do. Its timer restarts at the
/// snapshot's time if it fired and is left as it was if it did not: a check
/// made while cooling down does not prolong the cooldown.
pub proof fn lemma_kind_outcome(
    state: CooldownState,
    rules: Seq<AlertCondition>,
    snapshot: Snapshot,
    kind: AlertKind,
)
    ensures
        count_kind(check_rules(state, rules, snapshot).1, kind) == if fires(
            state,
            rules,
            kind,
            snapshot,
        ) {
            1nat
        } else {
            0nat
        },
        check_rules(state, rules, snapshot).0.spec_last_fired(kind) == if fires(
            state,
            rules,
            kind,
            snapshot,
        ) {
            Some(snapshot.timestamp)
        } else {
            state.spec_last_fired(kind)
        },
    decreases rules.len(),
{
    if rules.len() > 0 {
        let front = rules.drop_last();
        let before = check_rules(state, front, snapshot);
        let last = check_rule(before.0, rules.last(), snapshot);
        lemma_kind_outcome(state, front, snapshot, kind);
        lemma_check_rule(before.0, rules.last(), snapshot, kind);
        lemma_count_concat(before.1, last.1, kind);
        if fires(state, front, kind, snapshot) {
            let i = choose|i: int| 0 <= i < front.len() && #[trigger] exceeded(front[i], kind, snapshot);
            assert(exceeded(rules[i], kind, snapshot));
        } else if fires(state, rules, kind, snapshot) {
            let i = choose|i: int| 0 <= i < rules.len() && #[trigger] exceeded(rules[i], kind, snapshot);
            if i < front.len() {
                assert(exceeded(front[i], kind, snapshot));
            }
        } else {
            if exceeded(rules.last(), kind, snapshot) {
                assert(exceeded(rules[rules.len() - 1], kind, snapshot));
            }
        }
    }
}

/// Every alert is of exactly one of the three kinds.
pub proof fn lemma_count_total(events: Seq<AlertEventView>)
    ensures
        events.len() == count_kind(events, AlertKind::Cpu) + count_kind(events, AlertKind::Memory)
            + count_kind(events, AlertKind::Network),
    decreases events.len(),
{
    if events.len() > 0 {
        lemma_count_total(events.drop_last());
    }
}

/// A snapshot that exceeds a CPU, a memory and a network threshold while all
/// three kinds are armed raises exactly three alerts, one of each kind.
pub proof fn lemma_three_kinds_three_alerts(
    state: CooldownState,
    rules: Seq<AlertCondition>,
    snapshot: Snapshot,
)
    requires
        fires(state, rules, AlertKind::Cpu, snapshot),
        fires(state, rules, AlertKind::Memory, snapshot),
        fires(state, rules, AlertKind::Network, snapshot),
    ensures
        check_rules(state, rules, snapshot).1.len() == 3,
        count_kind(check_rules(state, rules, snapshot).1, AlertKind::Cpu) == 1,
        count_kind(check_rules(state, rules, snapshot).1, AlertKind::Memory) == 1,
        count_kind(check_rules(state, rules, snapshot).1, AlertKind::Network) == 1,
{
    lemma_kind_outcome(state, rules, snapshot, AlertKind::Cpu);
    lemma_kind_outcome(state, rules, snapshot, AlertKind::Memory);
    lemma_kind_outcome(state, rules, snapshot, AlertKind::Network);
    lemma_count_total(check_rules(state, rules, snapshot).1);
}

/// Two evaluations in a row. If a kind fired on the first snapshot, then on
/// the second it is silent while less than a cooldown has passed, however
/// far the reading is above the threshold, and it fires again once a
/// cooldown has passed and a threshold is still exceeded.
pub proof fn lemma_cooldown_between_evaluations(
    state: CooldownState,
    rules: Seq<AlertCondition>,
    first: Snapshot,
    second: Snapshot,
    kind: AlertKind,
)
    requires
        fires(state, rules, kind, first),
    ensures
        ({
            let after = check_rules(state, rules, first).0;
            let again = count_kind(check_rules(after, rules, second).1, kind);
            &&& second.timestamp - first.timestamp < COOLDOWN_MS ==> again == 0
            &&& second.timestamp - first.timestamp >= COOLDOWN_MS && (exists|i: int|
                0 <= i < rules.len() && #[trigger] exceeded(rules[i], kind, second)) ==> again
                == 1
        }),
{
    let after = check_rules(state, rules, first).0;
    lemma_kind_outcome(state, rules, first, kind);
    lemma_kind_outcome(after, rules, second, kind);
}

/// The culprit is the process with the largest reading, and among several
/// with the largest reading the one that the provider listed first: the head
/// of a ranking that shows at least one place names the first position `h`
/// of the table whose reading no other exceeds.
pub proof fn lemma_culprit_is_first_heaviest(
    processes: Seq<ProcessInfo>,
    keys: Seq<u64>,
    k: nat,
    cores: nat,
    normalize: bool,
    m: int,
)
    requires
        keys.len() == processes.len(),
        keys.len() <= usize::MAX,
        k >= 1,
        0 <= m < keys.len(),
    ensures
        ({
            let h = ranking_of(keys, k)[0] as int;
            &&& 0 <= h < keys.len()
            &&& keys[h] >= keys[m]
            &&& m < h ==> keys[h] > keys[m]
            &&& head_of(top_usage(processes, keys, k), cores, normalize) matches Some(c)
            &&& c.pid == processes[h].pid
            &&& c.name == processes[h].name@
        }),
{
    lemma_ranking_exists(keys, k);
    lemma_ranking_head(keys, k, ranking_of(keys, k), m);
}

/// Without a ranked process there is no culprit, and the alert is raised all
/// the same.
pub proof fn lemma_no_process_no_culprit(rule: AlertCondition, snapshot: Snapshot, kind: AlertKind)
    requires
        snapshot.top_cpu_processes@.len() == 0,
        snapshot.top_mem_processes@.len() == 0,
    ensures
        culprit_of(snapshot, kind) is None,
        event_of(rule, kind, snapshot).culprit_process is None,
        forall|state: CooldownState|
            exceeded(rule, kind, snapshot) && armed(
                state.spec_last_fired(kind),
                snapshot.timestamp,
            ) ==> #[trigger] check_kind(state, rule, kind, snapshot).1.len() == 1,
{
}

} // verus!
