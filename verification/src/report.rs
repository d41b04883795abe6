//! The record of one cycle as text: one field per column of the persistent
//! store, and the same record as a block for the log.

use vstd::prelude::*;
use crate::snapshot::{DiskInfo, ProcessUsage, Snapshot};
use crate::text::{
    decimal, fixed2, joined, lemma_views_push, push_decimal, push_fixed2, push_joined, views_of,
};
use crate::timefmt::{local_clock_text, timestamp_text};
use crate::units::{mebi_hundredths, normalize_process_cpu, share_of_system, to_mebi_hundredths};

verus! {

/// One cycle's record, every field rendered.
#[derive(Clone, Debug, PartialEq, Eq)]
pub struct MetricsRecord {
    pub timestamp: String,
    pub per_core_cpu: String,
    pub avg_cpu: String,
    pub total_memory: String,
    pub used_memory: String,
    pub top_mem_processes: String,
    pub disks: String,
    pub network: String,
    pub top_cpu_processes: String,
}

/// A record as plain text.
pub struct MetricsRecordView {
    pub timestamp: Seq<char>,
    pub per_core_cpu: Seq<char>,
    pub avg_cpu: Seq<char>,
    pub total_memory: Seq<char>,
    pub used_memory: Seq<char>,
    pub top_mem_processes: Seq<char>,
    pub disks: Seq<char>,
    pub network: Seq<char>,
    pub top_cpu_processes: Seq<char>,
}

impl View for MetricsRecord {
    type V = MetricsRecordView;

    open spec fn view(&self) -> MetricsRecordView {
        MetricsRecordView {
            timestamp: self.timestamp@,
            per_core_cpu: self.per_core_cpu@,
            avg_cpu: self.avg_cpu@,
            total_memory: self.total_memory@,
            used_memory: self.used_memory@,
            top_mem_processes: self.top_mem_processes@,
            disks: self.disks@,
            network: self.network@,
            top_cpu_processes: self.top_cpu_processes@,
        }
    }
}

/// What separates the entries of a list inside one field.
pub open spec fn separator() -> Seq<char> {
    " | "@
}

/// One core's usage, cores counted from one.
pub open spec fn core_label(index: int, usage: u32) -> Seq<char> {
    "CPU "@ + decimal((index + 1) as nat) + ": "@ + fixed2(usage as nat) + "%"@
}

/// The labels of all cores, in core order.
pub open spec fn core_labels(values: Seq<u32>) -> Seq<Seq<char>> {
    Seq::new(values.len(), |i: int| core_label(i, values[i]))
}

/// A process of the CPU ranking with its share of the whole machine.
pub open spec fn cpu_entry(p: ProcessUsage, cores: nat) -> Seq<char> {
    "["@ + decimal(p.pid as nat) + "] "@ + p.name@ + " (CPU: "@ + fixed2(
        share_of_system(p.value as nat, cores),
    ) + "%)"@
}

/// The entries of a CPU ranking, in ranking order.
pub open spec fn cpu_entries(top: Seq<ProcessUsage>, cores: nat) -> Seq<Seq<char>> {
    Seq::new(top.len(), |i: int| cpu_entry(top[i], cores))
}

/// A process of the memory ranking with its size in mebibytes.
pub open spec fn memory_entry(p: ProcessUsage) -> Seq<char> {
    "["@ + decimal(p.pid as nat) + "] "@ + p.name@ + " (Mem: "@ + fixed2(
        mebi_hundredths(p.value as nat),
    ) + " MB)"@
}

/// The entries of a memory ranking, in ranking order.
pub open spec fn memory_entries(top: Seq<ProcessUsage>) -> Seq<Seq<char>> {
    Seq::new(top.len(), |i: int| memory_entry(top[i]))
}

/// A disk with what was read from it and written to it, in mebibytes.
pub open spec fn disk_entry(d: DiskInfo) -> Seq<char> {
    "["@ + d.mount@ + "][Tipo: "@ + d.kind@ + "] Lectura: "@ + fixed2(
        mebi_hundredths(d.read_bytes as nat),
    ) + " MB | Escritura: "@ + fixed2(mebi_hundredths(d.written_bytes as nat)) + " MB"@
}

/// The entries of all disks, in the provider's order.
pub open spec fn disk_entries(disks: Seq<DiskInfo>) -> Seq<Seq<char>> {
    Seq::new(disks.len(), |i: int| disk_entry(disks[i]))
}

/// A size in mebibytes with its unit.
pub open spec fn size_text(bytes: u64) -> Seq<char> {
    fixed2(mebi_hundredths(bytes as nat)) + " MB"@
}

/// The throughput of the watched interface in both directions.
pub open spec fn network_summary(interface: Seq<char>, down: u64, up: u64) -> Seq<char> {
    interface + ": "@ + fixed2(down as nat) + " Mbps (down) / "@ + fixed2(up as nat)
        + " Mbps (up)"@
}

/// The record of a snapshot taken at the instant that `time_text` names, on
/// a host whose watched interface is called `interface`.
pub open spec fn record_of(snapshot: Snapshot, time_text: Seq<char>, interface: Seq<char>) -> MetricsRecordView {
    MetricsRecordView {
        timestamp: time_text,
        per_core_cpu: joined(core_labels(snapshot.per_core_cpu@), separator()),
        avg_cpu: fixed2(snapshot.avg_cpu as nat),
        total_memory: size_text(snapshot.total_memory_bytes),
        used_memory: size_text(snapshot.used_memory_bytes),
        top_mem_processes: joined(memory_entries(snapshot.top_mem_processes@), separator()),
        disks: joined(disk_entries(snapshot.disks@), separator()),
        network: network_summary(interface, snapshot.network_down, snapshot.network_up),
        top_cpu_processes: joined(
            cpu_entries(snapshot.top_cpu_processes@, snapshot.per_core_cpu@.len()),
            separator(),
        ),
    }
}

/// The text that names the instant of a snapshot on a clock `offset_secs`
/// seconds east of UTC: the wall-clock date and time, or the milliseconds
/// since the epoch where the calendar does not reach.
pub open spec fn time_text_of(epoch_ms: u64, offset_secs: i32) -> Seq<char> {
    match local_clock_text(epoch_ms, offset_secs) {
        Some(text) => text,
        None => decimal(epoch_ms as nat),
    }
}

/// The line of the log block that says that the record reached the store.
pub open spec fn stored_line(stored: bool) -> Seq<char> {
    if stored {
        "Datos insertados en SQLite exitosamente.\n"@
    } else {
        Seq::empty()
    }
}

/// The record as a block of lines for the log. The block says that the
/// record was stored only if it was.
pub open spec fn log_block(r: MetricsRecordView, stored: bool) -> Seq<char> {
    "=== Información del sistema ===\nFecha y hora: "@ + r.timestamp
        + "\nCPU Uso (por núcleo): "@ + r.per_core_cpu + "\nCPU Uso (promedio total): "@
        + r.avg_cpu + "%\nMemoria total: "@ + r.total_memory + ", Memoria usada: "@
        + r.used_memory + "\nProcesos más demandantes de CPU:\n"@ + r.top_cpu_processes
        + "\nProcesos más demandantes de RAM:\n"@ + r.top_mem_processes + "\nDiscos:\n"@
        + r.disks + "\nRedes:\n"@ + r.network + "\n"@ + stored_line(stored)
        + "=====================================\n\n"@
}

fn core_parts(values: &Vec<u32>) -> (parts: Vec<String>)
    ensures
        views_of(parts@) == core_labels(values@),
{
    let n: usize = values.len();
    let mut parts: Vec<String> = Vec::new();
    let mut i: usize = 0;
    while i < n
        invariant
            n == values.len(),
            i <= n,
            views_of(parts@) =~= core_labels(values@).take(i as int),
        decreases n - i,
    {
        let mut s: String = String::new();
        s.append("CPU ");
        push_decimal(&mut s, (i as u64) + 1);
        s.append(": ");
        push_fixed2(&mut s, values[i] as u64);
        s.append("%");
        assert(s@ =~= core_label(i as int, values@[i as int]));
        proof {
            lemma_views_push(parts@, s);
        }
        parts.push(s);
        i = i + 1;
    }
    assert(core_labels(values@).take(n as int) =~= core_labels(values@));
    parts
}

fn cpu_parts(top: &Vec<ProcessUsage>, cores: usize) -> (parts: Vec<String>)
    ensures
        views_of(parts@) == cpu_entries(top@, cores as nat),
{
    let n: usize = top.len();
    let mut parts: Vec<String> = Vec::new();
    let mut i: usize = 0;
    while i < n
        invariant
            n == top.len(),
            i <= n,
            views_of(parts@) =~= cpu_entries(top@, cores as nat).take(i as int),
        decreases n - i,
    {
        let p: &ProcessUsage = &top[i];
        let mut s: String = String::new();
        s.append("[");
        push_decimal(&mut s, p.pid as u64);
        s.append("] ");
        s.append(p.name.as_str());
        s.append(" (CPU: ");
        push_fixed2(&mut s, normalize_process_cpu(p.value, cores));
        s.append("%)");
        assert(s@ =~= cpu_entry(top@[i as int], cores as nat));
        proof {
            lemma_views_push(parts@, s);
        }
        parts.push(s);
        i = i + 1;
    }
    assert(cpu_entries(top@, cores as nat).take(n as int) =~= cpu_entries(top@, cores as nat));
    parts
}

fn memory_parts(top: &Vec<ProcessUsage>) -> (parts: Vec<String>)
    ensures
        views_of(parts@) == memory_entries(top@),
{
    let n: usize = top.len();
    let mut parts: Vec<String> = Vec::new();
    let mut i: usize = 0;
    while i < n
        invariant
            n == top.len(),
            i <= n,
            views_of(parts@) =~= memory_entries(top@).take(i as int),
        decreases n - i,
    {
        let p: &ProcessUsage = &top[i];
        let mut s: String = String::new();
        s.append("[");
        push_decimal(&mut s, p.pid as u64);
        s.append("] ");
        s.append(p.name.as_str());
        s.append(" (Mem: ");
        push_fixed2(&mut s, to_mebi_hundredths(p.value));
        s.append(" MB)");
        assert(s@ =~= memory_entry(top@[i as int]));
        proof {
            lemma_views_push(parts@, s);
        }
        parts.push(s);
        i = i + 1;
    }
    assert(memory_entries(top@).take(n as int) =~= memory_entries(top@));
    parts
}

fn disk_parts(disks: &Vec<DiskInfo>) -> (parts: Vec<String>)
    ensures
        views_of(parts@) == disk_entries(disks@),
{
    let n: usize = disks.len();
    let mut parts: Vec<String> = Vec::new();
    let mut i: usize = 0;
    while i < n
        invariant
            n == disks.len(),
            i <= n,
            views_of(parts@) =~= disk_entries(disks@).take(i as int),
        decreases n - i,
    {
        let d: &DiskInfo = &disks[i];
        let mut s: String = String::new();
        s.append("[");
        s.append(d.mount.as_str());
        s.append("][Tipo: ");
        s.append(d.kind.as_str());
        s.append("] Lectura: ");
        push_fixed2(&mut s, to_mebi_hundredths(d.read_bytes));
        s.append(" MB | Escritura: ");
        push_fixed2(&mut s, to_mebi_hundredths(d.written_bytes));
        s.append(" MB");
        assert(s@ =~= disk_entry(disks@[i as int]));
        proof {
            lemma_views_push(parts@, s);
        }
        parts.push(s);
        i = i + 1;
    }
    assert(disk_entries(disks@).take(n as int) =~= disk_entries(disks@));
    parts
}

fn join_parts(parts: &Vec<String>) -> (r: String)
    ensures
        r@ == joined(views_of(parts@), separator()),
{
    let mut out: String = String::new();
    push_joined(&mut out, parts, " | ");
    assert(out@ =~= joined(views_of(parts@), separator()));
    out
}

fn size_string(bytes: u64) -> (r: String)
    ensures
        r@ == size_text(bytes),
{
    let mut out: String = String::new();
    push_fixed2(&mut out, to_mebi_hundredths(bytes));
    out.append(" MB");
    assert(out@ =~= size_text(bytes));
    out
}

/// Renders the record of a snapshot. `time_text` names the instant of the
/// snapshot, `interface` the watched network interface.
pub fn render_record(snapshot: &Snapshot, time_text: &str, interface: &str) -> (r: MetricsRecord)
    ensures
        r@ == record_of(*snapshot, time_text@, interface@),
{
    let mut timestamp: String = String::new();
    timestamp.append(time_text);
    assert(timestamp@ =~= time_text@);
    let mut avg_cpu: String = String::new();
    push_fixed2(&mut avg_cpu, snapshot.avg_cpu as u64);
    assert(avg_cpu@ =~= fixed2(snapshot.avg_cpu as nat));
    let mut network: String = String::new();
    network.append(interface);
    network.append(": ");
    push_fixed2(&mut network, snapshot.network_down);
    network.append(" Mbps (down) / ");
    push_fixed2(&mut network, snapshot.network_up);
    network.append(" Mbps (up)");
    assert(network@ =~= network_summary(interface@, snapshot.network_down, snapshot.network_up));
    MetricsRecord {
        timestamp,
        per_core_cpu: join_parts(&core_parts(&snapshot.per_core_cpu)),
        avg_cpu,
        total_memory: size_string(snapshot.total_memory_bytes),
        used_memory: size_string(snapshot.used_memory_bytes),
        top_mem_processes: join_parts(&memory_parts(&snapshot.top_mem_processes)),
        disks: join_parts(&disk_parts(&snapshot.disks)),
        network,
        top_cpu_processes: join_parts(
            &cpu_parts(&snapshot.top_cpu_processes, snapshot.per_core_cpu.len()),
        ),
    }
}

/// Renders the record of a snapshot whose instant is read on a clock
/// `offset_secs` seconds east of UTC.
pub fn render_record_at(snapshot: &Snapshot, offset_secs: i32, interface: &str) -> (r: MetricsRecord)
    ensures
        r@ == record_of(*snapshot, time_text_of(snapshot.timestamp, offset_secs), interface@),
{
    match timestamp_text(snapshot.timestamp, offset_secs) {
        Some(text) => render_record(snapshot, text.as_str(), interface),
        None => {
            let mut text: String = String::new();
            push_decimal(&mut text, snapshot.timestamp);
            assert(text@ =~= decimal(snapshot.timestamp as nat));
            render_record(snapshot, text.as_str(), interface)
        },
    }
}

/// Renders a record as a block of lines for the log. `stored` says whether
/// the record reached the store.
pub fn render_log(record: &MetricsRecord, stored: bool) -> (r: String)
    ensures
        r@ == log_block(record@, stored),
{
    let mut out: String = String::new();
    out.append("=== Información del sistema ===\nFecha y hora: ");
    out.append(record.timestamp.as_str());
    out.append("\nCPU Uso (por núcleo): ");
    out.append(record.per_core_cpu.as_str());
    out.append("\nCPU Uso (promedio total): ");
    out.append(record.avg_cpu.as_str());
    out.append("%\nMemoria total: ");
    out.append(record.total_memory.as_str());
    out.append(", Memoria usada: ");
    out.append(record.used_memory.as_str());
    out.append("\nProcesos más demandantes de CPU:\n");
    out.append(record.top_cpu_processes.as_str());
    out.append("\nProcesos más demandantes de RAM:\n");
    out.append(record.top_mem_processes.as_str());
    out.append("\nDiscos:\n");
    out.append(record.disks.as_str());
    out.append("\nRedes:\n");
    out.append(record.network.as_str());
    out.append("\n");
    if stored {
        out.append("Datos insertados en SQLite exitosamente.\n");
    }
    out.append("=====================================\n\n");
    assert(out@ =~= log_block(record@, stored));
    out
}

} // verus!
