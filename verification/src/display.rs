//! What the display shows: a rolling history of CPU and memory usage and the
//! two process rankings, refreshed at most once a second.

use vstd::prelude::*;
use crate::snapshot::{ProcessUsage, Snapshot};
use crate::text::{fixed2, push_fixed2};
use crate::units::{mebi_hundredths, normalize_process_cpu, share_of_system, to_mebi_hundredths};

verus! {

/// How many samples each history holds.
pub const HISTORY_LEN: usize = 60;

/// The least time between two refreshes, in milliseconds.
pub const REFRESH_MS: u64 = 1000;

/// The state behind the display.
pub struct MonitorApp {
    last_update: u64,
    cpu_history: Vec<u32>,
    ram_history: Vec<u32>,
    top_cpu: Vec<ProcessUsage>,
    top_ram: Vec<ProcessUsage>,
    dark_mode: bool,
}

/// The display state as plain values. Histories run from the oldest sample
/// to the newest, in hundredths of a percent; the CPU ranking carries shares
/// of the whole machine, the memory ranking hundredths of a mebibyte.
pub struct MonitorAppView {
    pub last_update: u64,
    pub cpu_history: Seq<u32>,
    pub ram_history: Seq<u32>,
    pub top_cpu: Seq<ProcessUsage>,
    pub top_ram: Seq<ProcessUsage>,
    pub dark_mode: bool,
}

impl View for MonitorApp {
    type V = MonitorAppView;

    closed spec fn view(&self) -> MonitorAppView {
        MonitorAppView {
            last_update: self.last_update,
            cpu_history: self.cpu_history@,
            ram_history: self.ram_history@,
            top_cpu: self.top_cpu@,
            top_ram: self.top_ram@,
            dark_mode: self.dark_mode,
        }
    }
}

/// A refresh is due when more than the refresh period has passed.
pub open spec fn due(last_update: u64, now: u64) -> bool {
    now - last_update > REFRESH_MS
}

/// A history after a new sample came in: the oldest sample leaves, the new
/// one is the last, the length stays.
pub open spec fn rolled(history: Seq<u32>, sample: u32) -> Seq<u32> {
    history.push(sample).skip(1)
}

/// A CPU ranking as shown: each reading as a share of the whole machine.
pub open spec fn shown_cpu(top: Seq<ProcessUsage>, cores: nat) -> Seq<ProcessUsage> {
    Seq::new(
        top.len(),
        |i: int|
            ProcessUsage {
                pid: top[i].pid,
                name: top[i].name,
                value: share_of_system(top[i].value as nat, cores) as u64,
            },
    )
}

/// A memory ranking as shown: each size in hundredths of a mebibyte.
pub open spec fn shown_ram(top: Seq<ProcessUsage>) -> Seq<ProcessUsage> {
    Seq::new(
        top.len(),
        |i: int|
            ProcessUsage {
                pid: top[i].pid,
                name: top[i].name,
                value: mebi_hundredths(top[i].value as nat) as u64,
            },
    )
}

/// The display state after `snapshot` was offered at `now`: taken in when a
/// refresh is due, ignored otherwise.
pub open spec fn refreshed(app: MonitorAppView, now: u64, snapshot: Snapshot) -> MonitorAppView {
    if due(app.last_update, now) {
        MonitorAppView {
            last_update: now,
            cpu_history: rolled(app.cpu_history, snapshot.avg_cpu),
            ram_history: rolled(app.ram_history, snapshot.spec_memory_percent() as u32),
            top_cpu: shown_cpu(snapshot.top_cpu_processes@, snapshot.per_core_cpu@.len()),
            top_ram: shown_ram(snapshot.top_mem_processes@),
            dark_mode: app.dark_mode,
        }
    } else {
        app
    }
}

/// The state of a display that was started at `now` and has shown nothing yet.
pub open spec fn initial(now: u64) -> MonitorAppView {
    MonitorAppView {
        last_update: now,
        cpu_history: Seq::new(HISTORY_LEN as nat, |i: int| 0u32),
        ram_history: Seq::new(HISTORY_LEN as nat, |i: int| 0u32),
        top_cpu: Seq::empty(),
        top_ram: Seq::empty(),
        dark_mode: true,
    }
}

/// The label above a history plot.
pub open spec fn usage_label(name: Seq<char>, history: Seq<u32>) -> Seq<char> {
    name + ": "@ + fixed2(history.last() as nat) + "%"@
}

/// Offering the same snapshot a second time at the same instant changes
/// nothing: what is shown depends on the snapshots taken in, not on how
/// often they were offered.
pub proof fn lemma_refresh_idempotent(app: MonitorAppView, now: u64, snapshot: Snapshot)
    ensures
        refreshed(refreshed(app, now, snapshot), now, snapshot) == refreshed(app, now, snapshot),
{
}

/// A history keeps its length however many samples come in, and the newest
/// sample is its last entry.
pub proof fn lemma_rolled_keeps_length(history: Seq<u32>, sample: u32)
    requires
        history.len() > 0,
    ensures
        rolled(history, sample).len() == history.len(),
        rolled(history, sample).last() == sample,
        forall|i: int| 0 <= i < history.len() - 1 ==> rolled(history, sample)[i] == history[i + 1],
{
}

fn zeros(n: usize) -> (v: Vec<u32>)
    ensures
        v@ == Seq::new(n as nat, |i: int| 0u32),
{
    let mut v: Vec<u32> = Vec::new();
    let mut i: usize = 0;
    while i < n
        invariant
            i <= n,
            v@ =~= Seq::new(i as nat, |j: int| 0u32),
        decreases n - i,
    {
        v.push(0);
        i = i + 1;
    }
    v
}

fn roll(history: &Vec<u32>, sample: u32) -> (next: Vec<u32>)
    ensures
        next@ == rolled(history@, sample),
{
    let n: usize = history.len();
    let mut next: Vec<u32> = Vec::new();
    if n == 0 {
        assert(next@ =~= rolled(history@, sample));
        return next;
    }
    let mut i: usize = 1;
    while i < n
        invariant
            n == history.len(),
            1 <= i <= n,
            next@ =~= history@.subrange(1, i as int),
        decreases n - i,
    {
        next.push(history[i]);
        i = i + 1;
    }
    next.push(sample);
    assert(next@ =~= rolled(history@, sample));
    next
}

impl MonitorApp {
    /// Both histories are always full.
    #[verifier::type_invariant]
    spec fn full_histories(self) -> bool {
        &&& self.cpu_history@.len() == HISTORY_LEN
        &&& self.ram_history@.len() == HISTORY_LEN
    }

    /// A display started at `now`: histories of zeros, no ranking, dark theme.
    pub fn new(now: u64) -> (app: MonitorApp)
        ensures
            app@ == initial(now),
    {
        MonitorApp {
            last_update: now,
            cpu_history: zeros(HISTORY_LEN),
            ram_history: zeros(HISTORY_LEN),
            top_cpu: Vec::new(),
            top_ram: Vec::new(),
            dark_mode: true,
        }
    }

    /// Offers a snapshot to the display at `now`. It is taken in, and `true`
    /// returned, when more than a second has passed since the last refresh:
    /// the histories roll on by one sample and the rankings are replaced.
    /// Otherwise nothing changes.
    pub fn refresh(&mut self, now: u64, snapshot: &Snapshot) -> (did: bool)
        requires
            snapshot.wf(),
        ensures
            final(self)@ == refreshed(old(self)@, now, *snapshot),
            did == due(old(self)@.last_update, now),
            final(self)@.cpu_history.len() == HISTORY_LEN,
            final(self)@.ram_history.len() == HISTORY_LEN,
    {
        proof {
            use_type_invariant(&*self);
        }
        if !(now > self.last_update && now - self.last_update > REFRESH_MS) {
            return false;
        }
        let cores: usize = snapshot.core_count();
        let cpu_history: Vec<u32> = roll(&self.cpu_history, snapshot.avg_cpu);
        let ram_history: Vec<u32> = roll(&self.ram_history, snapshot.memory_percent());
        let n: usize = snapshot.top_cpu_processes.len();
        let mut top_cpu: Vec<ProcessUsage> = Vec::new();
        let mut i: usize = 0;
        while i < n
            invariant
                n == snapshot.top_cpu_processes.len(),
                i <= n,
                top_cpu@ =~= shown_cpu(snapshot.top_cpu_processes@, cores as nat).take(i as int),
            decreases n - i,
        {
            let p: &ProcessUsage = &snapshot.top_cpu_processes[i];
            top_cpu.push(
                ProcessUsage {
                    pid: p.pid,
                    name: p.name.clone(),
                    value: normalize_process_cpu(p.value, cores),
                },
            );
            i = i + 1;
        }
        let m: usize = snapshot.top_mem_processes.len();
        let mut top_ram: Vec<ProcessUsage> = Vec::new();
        let mut j: usize = 0;
        while j < m
            invariant
                m == snapshot.top_mem_processes.len(),
                j <= m,
                top_ram@ =~= shown_ram(snapshot.top_mem_processes@).take(j as int),
            decreases m - j,
        {
            let p: &ProcessUsage = &snapshot.top_mem_processes[j];
            top_ram.push(
                ProcessUsage {
                    pid: p.pid,
                    name: p.name.clone(),
                    value: to_mebi_hundredths(p.value),
                },
            );
            j = j + 1;
        }
        self.cpu_history = cpu_history;
        self.ram_history = ram_history;
        self.top_cpu = top_cpu;
        self.top_ram = top_ram;
        self.last_update = now;
        proof {
            assert(self.top_cpu@ =~= shown_cpu(snapshot.top_cpu_processes@, cores as nat));
            assert(self.top_ram@ =~= shown_ram(snapshot.top_mem_processes@));
        }
        true
    }

    /// Switches between the dark and the light theme; nothing else changes.
    pub fn toggle_theme(&mut self)
        ensures
            final(self)@ == (MonitorAppView { dark_mode: !old(self)@.dark_mode, ..old(self)@ }),
    {
        proof {
            use_type_invariant(&*self);
        }
        self.dark_mode = !self.dark_mode;
    }

    /// Whether the dark theme is on.
    pub fn dark_mode(&self) -> (r: bool)
        ensures
            r == self@.dark_mode,
    {
        self.dark_mode
    }

    /// The text on the button that switches the theme: it names the theme
    /// that a press would bring.
    pub fn theme_button_label(&self) -> (r: &'static str)
        ensures
            r@ == if self@.dark_mode {
                "Modo Claro"@
            } else {
                "Modo Oscuro"@
            },
    {
        if self.dark_mode {
            "Modo Claro"
        } else {
            "Modo Oscuro"
        }
    }

    /// The CPU history, oldest sample first.
    pub fn cpu_history(&self) -> (r: &Vec<u32>)
        ensures
            r@ == self@.cpu_history,
            r@.len() == HISTORY_LEN,
    {
        proof {
            use_type_invariant(self);
        }
        &self.cpu_history
    }

    /// The memory history, oldest sample first.
    pub fn ram_history(&self) -> (r: &Vec<u32>)
        ensures
            r@ == self@.ram_history,
            r@.len() == HISTORY_LEN,
    {
        proof {
            use_type_invariant(self);
        }
        &self.ram_history
    }

    /// The CPU ranking as shown.
    pub fn top_cpu(&self) -> (r: &Vec<ProcessUsage>)
        ensures
            r@ == self@.top_cpu,
    {
        &self.top_cpu
    }

    /// The memory ranking as shown.
    pub fn top_ram(&self) -> (r: &Vec<ProcessUsage>)
        ensures
            r@ == self@.top_ram,
    {
        &self.top_ram
    }

    /// The label above the CPU plot: the newest sample.
    pub fn cpu_label(&self) -> (r: String)
        ensures
            r@ == usage_label("CPU"@, self@.cpu_history),
    {
        proof {
            use_type_invariant(self);
        }
        let mut out: String = String::new();
        out.append("CPU");
        out.append(": ");
        push_fixed2(&mut out, self.cpu_history[self.cpu_history.len() - 1] as u64);
        out.append("%");
        assert(out@ =~= usage_label("CPU"@, self@.cpu_history));
        out
    }

    /// The label above the memory plot: the newest sample.
    pub fn ram_label(&self) -> (r: String)
        ensures
            r@ == usage_label("RAM"@, self@.ram_history),
    {
        proof {
            use_type_invariant(self);
        }
        let mut out: String = String::new();
        out.append("RAM");
        out.append(": ");
        push_fixed2(&mut out, self.ram_history[self.ram_history.len() - 1] as u64);
        out.append("%");
        assert(out@ =~= usage_label("RAM"@, self@.ram_history));
        out
    }
}

impl Default for MonitorApp {
    /// A display started at the epoch.
    fn default() -> (app: MonitorApp)
        ensures
            app@ == initial(0),
    {
        MonitorApp::new(0)
    }
}

} // verus!
