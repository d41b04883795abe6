//! Threshold alerts with one cooldown timer per kind of alert.

use vstd::prelude::*;
use crate::alert_laws::lemma_kind_outcome;
use crate::notice::{message_of, render_message};
use crate::snapshot::{ProcessUsage, Snapshot};
use crate::units::{normalize_process_cpu, share_of_system};

verus! {

/// The least time between two alerts of the same kind, in milliseconds.
pub const COOLDOWN_MS: u64 = 10_000;

/// What an alert is about. Each kind is rate-limited on its own.
#[derive(Clone, Copy, Debug, PartialEq, Eq)]
pub enum AlertKind {
    Cpu,
    Memory,
    Network,
}

/// One rule: the readings above which an alert is due. CPU and memory are in
/// hundredths of a percent, the network in hundredths of a megabit per second
/// of download.
#[derive(Clone, Copy, Debug, PartialEq, Eq)]
pub struct AlertCondition {
    pub cpu_threshold: u32,
    pub memory_threshold: u32,
    pub network_threshold: u64,
}

/// When each kind of alert last fired, if it ever did.
#[derive(Clone, Copy, Debug, PartialEq, Eq)]
pub struct CooldownState {
    pub cpu: Option<u64>,
    pub memory: Option<u64>,
    pub network: Option<u64>,
}

/// The process most responsible for an alert, with its own reading: its
/// share of the machine in hundredths of a percent for CPU, bytes for memory.
#[derive(Clone, Debug, PartialEq, Eq)]
pub struct Culprit {
    pub pid: u32,
    pub name: String,
    pub value: u64,
}

/// One fired alert.
#[derive(Clone, Debug, PartialEq, Eq)]
pub struct AlertEvent {
    pub kind: AlertKind,
    pub snapshot_timestamp: u64,
    pub message: String,
    pub offending_value: u64,
    pub threshold: u64,
    pub culprit_process: Option<Culprit>,
}

/// The alert engine: the configured rules and the cooldown timers.
pub struct AlertManager {
    alerts: Vec<AlertCondition>,
    last_alert: CooldownState,
}

/// A culprit as plain values.
pub struct CulpritView {
    pub pid: u32,
    pub name: Seq<char>,
    pub value: u64,
}

/// An alert as plain values.
pub struct AlertEventView {
    pub kind: AlertKind,
    pub snapshot_timestamp: u64,
    pub message: Seq<char>,
    pub offending_value: u64,
    pub threshold: u64,
    pub culprit_process: Option<CulpritView>,
}

impl View for Culprit {
    type V = CulpritView;

    open spec fn view(&self) -> CulpritView {
        CulpritView { pid: self.pid, name: self.name@, value: self.value }
    }
}

impl View for AlertEvent {
    type V = AlertEventView;

    open spec fn view(&self) -> AlertEventView {
        AlertEventView {
            kind: self.kind,
            snapshot_timestamp: self.snapshot_timestamp,
            message: self.message@,
            offending_value: self.offending_value,
            threshold: self.threshold,
            culprit_process: match self.culprit_process {
                Some(c) => Some(c@),
                None => None,
            },
        }
    }
}

/// The alerts of a list as plain values.
pub open spec fn event_views(events: Seq<AlertEvent>) -> Seq<AlertEventView> {
    events.map_values(|e: AlertEvent| e@)
}

/// A kind is armed at `now` when it never fired or last fired at least a
/// cooldown ago; a clock that ran backwards leaves it cooling down.
pub open spec fn armed(last: Option<u64>, now: u64) -> bool {
    match last {
        Some(t) => now - t >= COOLDOWN_MS,
        None => true,
    }
}

impl CooldownState {
    /// When `kind` last fired.
    pub open spec fn spec_last_fired(self, kind: AlertKind) -> Option<u64> {
        match kind {
            AlertKind::Cpu => self.cpu,
            AlertKind::Memory => self.memory,
            AlertKind::Network => self.network,
        }
    }

    /// The timers after `kind` fired at `now`: the others are untouched.
    pub open spec fn spec_fired(self, kind: AlertKind, now: u64) -> CooldownState {
        match kind {
            AlertKind::Cpu => CooldownState { cpu: Some(now), ..self },
            AlertKind::Memory => CooldownState { memory: Some(now), ..self },
            AlertKind::Network => CooldownState { network: Some(now), ..self },
        }
    }

    /// Timers of an engine that has not fired yet: every kind is armed.
    pub fn new() -> (s: CooldownState)
        ensures
            s == (CooldownState { cpu: None, memory: None, network: None }),
    {
        CooldownState { cpu: None, memory: None, network: None }
    }

    /// When `kind` last fired.
    pub fn last_fired(&self, kind: AlertKind) -> (r: Option<u64>)
        ensures
            r == self.spec_last_fired(kind),
    {
        match kind {
            AlertKind::Cpu => self.cpu,
            AlertKind::Memory => self.memory,
            AlertKind::Network => self.network,
        }
    }

    /// Whether `kind` may fire at `now`.
    pub fn is_armed(&self, kind: AlertKind, now: u64) -> (r: bool)
        ensures
            r == armed(self.spec_last_fired(kind), now),
    {
        match self.last_fired(kind) {
            Some(t) => now >= t && now - t >= COOLDOWN_MS,
            None => true,
        }
    }

    /// The timers after `kind` fired at `now`.
    pub fn fired(self, kind: AlertKind, now: u64) -> (r: CooldownState)
        ensures
            r == self.spec_fired(kind, now),
    {
        match kind {
            AlertKind::Cpu => CooldownState { cpu: Some(now), memory: self.memory, network: self.network },
            AlertKind::Memory => CooldownState { cpu: self.cpu, memory: Some(now), network: self.network },
            AlertKind::Network => CooldownState { cpu: self.cpu, memory: self.memory, network: Some(now) },
        }
    }
}

/// The reading that a kind of alert watches: the average CPU, the memory in
/// use as a share of the total, or the download throughput.
pub open spec fn reading(snapshot: Snapshot, kind: AlertKind) -> nat {
    match kind {
        AlertKind::Cpu => snapshot.avg_cpu as nat,
        AlertKind::Memory => snapshot.spec_memory_percent(),
        AlertKind::Network => snapshot.network_down as nat,
    }
}

/// The threshold that a rule sets for a kind of alert.
pub open spec fn threshold(rule: AlertCondition, kind: AlertKind) -> nat {
    match kind {
        AlertKind::Cpu => rule.cpu_threshold as nat,
        AlertKind::Memory => rule.memory_threshold as nat,
        AlertKind::Network => rule.network_threshold as nat,
    }
}

/// The reading is strictly above the rule's threshold.
pub open spec fn exceeded(rule: AlertCondition, kind: AlertKind, snapshot: Snapshot) -> bool {
    reading(snapshot, kind) > threshold(rule, kind)
}

/// The head of a ranking as a culprit, if the ranking has one.
pub open spec fn head_of(top: Seq<ProcessUsage>, cores: nat, normalize: bool) -> Option<
    CulpritView,
> {
    if top.len() == 0 {
        None
    } else {
        Some(
            CulpritView {
                pid: top[0].pid,
                name: top[0].name@,
                value: if normalize {
                    share_of_system(top[0].value as nat, cores) as u64
                } else {
                    top[0].value
                },
            },
        )
    }
}

/// The process most responsible for an alert: the head of the CPU ranking
/// with its share of the whole machine, the head of the memory ranking with
/// its bytes, and nobody for the network or when the ranking is empty.
pub open spec fn culprit_of(snapshot: Snapshot, kind: AlertKind) -> Option<CulpritView> {
    match kind {
        AlertKind::Cpu => head_of(snapshot.top_cpu_processes@, snapshot.per_core_cpu@.len(), true),
        AlertKind::Memory => head_of(snapshot.top_mem_processes@, 0, false),
        AlertKind::Network => None,
    }
}

/// The alert that a rule raises for a kind on a snapshot.
pub open spec fn event_of(rule: AlertCondition, kind: AlertKind, snapshot: Snapshot) -> AlertEventView {
    AlertEventView {
        kind,
        snapshot_timestamp: snapshot.timestamp,
        message: message_of(
            kind,
            culprit_of(snapshot, kind),
            reading(snapshot, kind),
            threshold(rule, kind),
        ),
        offending_value: reading(snapshot, kind) as u64,
        threshold: threshold(rule, kind) as u64,
        culprit_process: culprit_of(snapshot, kind),
    }
}

/// One rule checked for one kind: an exceeded, armed condition fires and
/// restarts that kind's timer; anything else changes nothing.
pub open spec fn check_kind(
    state: CooldownState,
    rule: AlertCondition,
    kind: AlertKind,
    snapshot: Snapshot,
) -> (CooldownState, Seq<AlertEventView>) {
    if exceeded(rule, kind, snapshot) && armed(state.spec_last_fired(kind), snapshot.timestamp) {
        (state.spec_fired(kind, snapshot.timestamp), seq![event_of(rule, kind, snapshot)])
    } else {
        (state, Seq::empty())
    }
}

/// One rule checked for CPU, then memory, then network, each on its own.
pub open spec fn check_rule(state: CooldownState, rule: AlertCondition, snapshot: Snapshot) -> (
    CooldownState,
    Seq<AlertEventView>,
) {
    let cpu = check_kind(state, rule, AlertKind::Cpu, snapshot);
    let memory = check_kind(cpu.0, rule, AlertKind::Memory, snapshot);
    let network = check_kind(memory.0, rule, AlertKind::Network, snapshot);
    (network.0, cpu.1 + memory.1 + network.1)
}

/// The rules checked in the order in which they were added.
pub open spec fn check_rules(state: CooldownState, rules: Seq<AlertCondition>, snapshot: Snapshot) -> (
    CooldownState,
    Seq<AlertEventView>,
)
    decreases rules.len(),
{
    if rules.len() == 0 {
        (state, Seq::empty())
    } else {
        let before = check_rules(state, rules.drop_last(), snapshot);
        let last = check_rule(before.0, rules.last(), snapshot);
        (last.0, before.1 + last.1)
    }
}

/// How many of the alerts are of the given kind.
pub open spec fn count_kind(events: Seq<AlertEventView>, kind: AlertKind) -> nat
    decreases events.len(),
{
    if events.len() == 0 {
        0
    } else {
        count_kind(events.drop_last(), kind) + if events.last().kind == kind {
            1nat
        } else {
            0nat
        }
    }
}

/// A kind fires in an evaluation exactly when it is armed at the snapshot's
/// time and some rule's threshold for it is exceeded.
pub open spec fn fires(
    state: CooldownState,
    rules: Seq<AlertCondition>,
    kind: AlertKind,
    snapshot: Snapshot,
) -> bool {
    &&& armed(state.spec_last_fired(kind), snapshot.timestamp)
    &&& exists|i: int| 0 <= i < rules.len() && #[trigger] exceeded(rules[i], kind, snapshot)
}

/// The culprit at the head of a ranking.
fn head_culprit(top: &Vec<ProcessUsage>, cores: usize, normalize: bool) -> (r: Option<Culprit>)
    ensures
        (match r {
            Some(c) => Some(c@),
            None => None,
        }) == head_of(top@, cores as nat, normalize),
{
    if top.len() == 0 {
        None
    } else {
        let head: &ProcessUsage = &top[0];
        let value: u64 = if normalize {
            normalize_process_cpu(head.value, cores)
        } else {
            head.value
        };
        Some(Culprit { pid: head.pid, name: head.name.clone(), value })
    }
}

/// The alert that a rule raises for a kind on a snapshot.
fn make_event(rule: &AlertCondition, kind: AlertKind, snapshot: &Snapshot) -> (e: AlertEvent)
    requires
        snapshot.wf(),
    ensures
        e@ == event_of(*rule, kind, *snapshot),
{
    let culprit: Option<Culprit> = match kind {
        AlertKind::Cpu => head_culprit(&snapshot.top_cpu_processes, snapshot.core_count(), true),
        AlertKind::Memory => head_culprit(&snapshot.top_mem_processes, 0, false),
        AlertKind::Network => None,
    };
    let value: u64 = current_reading(snapshot, kind);
    let limit: u64 = rule_threshold(rule, kind);
    let message: String = render_message(kind, &culprit, value, limit);
    AlertEvent {
        kind,
        snapshot_timestamp: snapshot.timestamp,
        message,
        offending_value: value,
        threshold: limit,
        culprit_process: culprit,
    }
}

/// The reading that a kind of alert watches.
pub fn current_reading(snapshot: &Snapshot, kind: AlertKind) -> (r: u64)
    requires
        snapshot.wf(),
    ensures
        r == reading(*snapshot, kind),
{
    match kind {
        AlertKind::Cpu => snapshot.avg_cpu as u64,
        AlertKind::Memory => snapshot.memory_percent() as u64,
        AlertKind::Network => snapshot.network_down,
    }
}

/// The threshold that a rule sets for a kind of alert.
pub fn rule_threshold(rule: &AlertCondition, kind: AlertKind) -> (r: u64)
    ensures
        r == threshold(*rule, kind),
{
    match kind {
        AlertKind::Cpu => rule.cpu_threshold as u64,
        AlertKind::Memory => rule.memory_threshold as u64,
        AlertKind::Network => rule.network_threshold,
    }
}

/// Checks one rule for one kind.
fn evaluate_kind(state: CooldownState, rule: &AlertCondition, kind: AlertKind, snapshot: &Snapshot) -> (r: (
    CooldownState,
    Option<AlertEvent>,
))
    requires
        snapshot.wf(),
    ensures
        r.0 == check_kind(state, *rule, kind, *snapshot).0,
        (match r.1 {
            Some(e) => seq![e@],
            None => Seq::empty(),
        }) == check_kind(state, *rule, kind, *snapshot).1,
{
    if current_reading(snapshot, kind) > rule_threshold(rule, kind) && state.is_armed(
        kind,
        snapshot.timestamp,
    ) {
        let event: AlertEvent = make_event(rule, kind, snapshot);
        (state.fired(kind, snapshot.timestamp), Some(event))
    } else {
        (state, None)
    }
}

impl AlertManager {
    /// The configured rules, in the order in which they were added.
    pub closed spec fn rules(&self) -> Seq<AlertCondition> {
        self.alerts@
    }

    /// The cooldown timers.
    pub closed spec fn cooldowns(&self) -> CooldownState {
        self.last_alert
    }

    /// An engine with the default rule (CPU above 80 %, memory above 80 %,
    /// download above 10 Mbps) and every kind armed.
    pub fn new() -> (m: AlertManager)
        ensures
            m.rules() == seq![
                (AlertCondition {
                    cpu_threshold: 8_000,
                    memory_threshold: 8_000,
                    network_threshold: 1_000,
                }),
            ],
            m.cooldowns() == (CooldownState { cpu: None, memory: None, network: None }),
    {
        let mut manager = AlertManager { alerts: Vec::new(), last_alert: CooldownState::new() };
        manager.add_alert(
            AlertCondition { cpu_threshold: 8_000, memory_threshold: 8_000, network_threshold: 1_000 },
        );
        assert(manager.alerts@ =~= seq![
            (AlertCondition {
                cpu_threshold: 8_000,
                memory_threshold: 8_000,
                network_threshold: 1_000,
            }),
        ]);
        manager
    }

    /// Adds a rule behind those already configured; the timers are untouched.
    pub fn add_alert(&mut self, alert: AlertCondition)
        ensures
            final(self).rules() == old(self).rules().push(alert),
            final(self).cooldowns() == old(self).cooldowns(),
    {
        self.alerts.push(alert);
    }

    /// When `kind` last fired.
    pub fn last_fired(&self, kind: AlertKind) -> (r: Option<u64>)
        ensures
            r == self.cooldowns().spec_last_fired(kind),
    {
        self.last_alert.last_fired(kind)
    }

    /// Evaluates the snapshot against every rule, at the snapshot's own
    /// time. Each rule is checked for CPU, memory and network independently;
    /// an exceeded condition whose kind is armed yields an alert and restarts
    /// that kind's timer, one that is cooling down yields nothing and leaves
    /// the timer as it was. So each kind raises one alert if it is armed and
    /// one of its thresholds is exceeded, and none otherwise.
    pub fn check_alerts(&mut self, snapshot: &Snapshot) -> (events: Vec<AlertEvent>)
        requires
            snapshot.wf(),
        ensures
            final(self).rules() == old(self).rules(),
            final(self).cooldowns() == check_rules(
                old(self).cooldowns(),
                old(self).rules(),
                *snapshot,
            ).0,
            event_views(events@) == check_rules(
                old(self).cooldowns(),
                old(self).rules(),
                *snapshot,
            ).1,
            forall|kind: AlertKind|
                #![trigger count_kind(event_views(events@), kind)]
                count_kind(event_views(events@), kind) == if fires(
                    old(self).cooldowns(),
                    old(self).rules(),
                    kind,
                    *snapshot,
                ) {
                    1nat
                } else {
                    0nat
                },
            forall|kind: AlertKind|
                #![trigger final(self).cooldowns().spec_last_fired(kind)]
                final(self).cooldowns().spec_last_fired(kind) == if fires(
                    old(self).cooldowns(),
                    old(self).rules(),
                    kind,
                    *snapshot,
                ) {
                    Some(snapshot.timestamp)
                } else {
                    old(self).cooldowns().spec_last_fired(kind)
                },
    {
        let ghost start = self.last_alert;
        let ghost rules = self.alerts@;
        let n: usize = self.alerts.len();
        let mut events: Vec<AlertEvent> = Vec::new();
        let mut i: usize = 0;
        assert(event_views(events@) =~= Seq::empty());
        while i < n
            invariant
                snapshot.wf(),
                n == rules.len(),
                i <= n,
                self.alerts@ == rules,
                self.last_alert == check_rules(start, rules.take(i as int), *snapshot).0,
                event_views(events@) == check_rules(start, rules.take(i as int), *snapshot).1,
            decreases n - i,
        {
            let rule: AlertCondition = self.alerts[i];
            let ghost before = event_views(events@);
            let ghost state = self.last_alert;
            let cpu = evaluate_kind(self.last_alert, &rule, AlertKind::Cpu, snapshot);
            let memory = evaluate_kind(cpu.0, &rule, AlertKind::Memory, snapshot);
            let network = evaluate_kind(memory.0, &rule, AlertKind::Network, snapshot);
            self.last_alert = network.0;
            let ghost mut shown = before;
            match cpu.1 {
                Some(e) => {
                    proof {
                        shown = shown.push(e@);
                    }
                    events.push(e);
                },
                None => {},
            }
            assert(event_views(events@) =~= shown);
            match memory.1 {
                Some(e) => {
                    proof {
                        shown = shown.push(e@);
                    }
                    events.push(e);
                },
                None => {},
            }
            assert(event_views(events@) =~= shown);
            match network.1 {
                Some(e) => {
                    proof {
                        shown = shown.push(e@);
                    }
                    events.push(e);
                },
                None => {},
            }
            assert(event_views(events@) =~= shown);
            proof {
                assert(rules.take(i + 1).drop_last() =~= rules.take(i as int));
                assert(rules.take(i + 1).last() == rule);
                assert(shown =~= before + check_rule(state, rule, *snapshot).1);
            }
            i = i + 1;
        }
        proof {
            assert(rules.take(n as int) =~= rules);
            assert forall|kind: AlertKind|
                count_kind(event_views(events@), kind) == if fires(start, rules, kind, *snapshot) {
                    1nat
                } else {
                    0nat
                } && self.last_alert.spec_last_fired(kind) == if fires(
                    start,
                    rules,
                    kind,
                    *snapshot,
                ) {
                    Some(snapshot.timestamp)
                } else {
                    start.spec_last_fired(kind)
                } by {
                lemma_kind_outcome(start, rules, *snapshot, kind);
            }
        }
        events
    }
}

} // verus!
