//! The latest reading of the host and the figures derived from it.

use vstd::prelude::*;
use crate::snapshot::{DiskInfo, RawMetrics};
use crate::text::{fixed2, lemma_views_push, push_fixed2, views_of};
use crate::units::{
    mean, mean_of, mebi_hundredths, megabit_hundredths, to_mebi_hundredths, to_megabit_hundredths,
};

verus! {

/// Holds the provider's latest reading.
pub struct Monitor {
    sys: RawMetrics,
}

/// One disk on a line of its own.
pub open spec fn disk_line(d: DiskInfo) -> Seq<char> {
    "["@ + d.mount@ + "] Tipo: "@ + d.kind@ + " | Lectura: "@ + fixed2(
        mebi_hundredths(d.read_bytes as nat),
    ) + " MB | Escritura: "@ + fixed2(mebi_hundredths(d.written_bytes as nat)) + " MB"@
}

/// The lines of all disks, in the provider's order.
pub open spec fn disk_lines(disks: Seq<DiskInfo>) -> Seq<Seq<char>> {
    Seq::new(disks.len(), |i: int| disk_line(disks[i]))
}

impl Monitor {
    /// The reading that the monitor holds.
    pub closed spec fn reading(&self) -> RawMetrics {
        self.sys
    }

    /// A monitor that holds a first reading.
    pub fn new(reading: RawMetrics) -> (m: Monitor)
        ensures
            m.reading() == reading,
    {
        Monitor { sys: reading }
    }

    /// Replaces the reading by a newer one.
    pub fn update_metrics(&mut self, reading: RawMetrics)
        ensures
            final(self).reading() == reading,
    {
        self.sys = reading;
    }

    /// The average usage over all cores, in hundredths of a percent; zero
    /// when the reading lists no core.
    pub fn get_cpu_usage(&self) -> (r: u32)
        ensures
            r == mean_of(self.reading().per_core_cpu@),
    {
        mean(&self.sys.per_core_cpu)
    }

    /// The total memory and the memory in use, in bytes, as the provider
    /// reported them.
    pub fn get_memory_usage(&self) -> (r: (u64, u64))
        ensures
            r.0 == self.reading().total_memory,
            r.1 == self.reading().used_memory,
    {
        (self.sys.total_memory, self.sys.used_memory)
    }

    /// What the watched interface has received and sent in all, in
    /// hundredths of a megabit; zeros when the interface is absent.
    pub fn get_network_usage(&self) -> (r: (u64, u64))
        ensures
            r.0 == match self.reading().network {
                Some(c) => megabit_hundredths(c.received as nat),
                None => 0,
            },
            r.1 == match self.reading().network {
                Some(c) => megabit_hundredths(c.transmitted as nat),
                None => 0,
            },
    {
        match self.sys.network {
            Some(c) => (to_megabit_hundredths(c.received), to_megabit_hundredths(c.transmitted)),
            None => (0, 0),
        }
    }

    /// One line per disk: mount point, kind, and what was read and written.
    pub fn get_disk_usage(&self) -> (lines: Vec<String>)
        ensures
            views_of(lines@) == disk_lines(self.reading().disks@),
    {
        let disks: &Vec<DiskInfo> = &self.sys.disks;
        let n: usize = disks.len();
        let mut lines: Vec<String> = Vec::new();
        let mut i: usize = 0;
        while i < n
            invariant
                n == disks.len(),
                i <= n,
                views_of(lines@) =~= disk_lines(disks@).take(i as int),
            decreases n - i,
        {
            let d: &DiskInfo = &disks[i];
            let mut s: String = String::new();
            s.append("[");
            s.append(d.mount.as_str());
            s.append("] Tipo: ");
            s.append(d.kind.as_str());
            s.append(" | Lectura: ");
            push_fixed2(&mut s, to_mebi_hundredths(d.read_bytes));
            s.append(" MB | Escritura: ");
            push_fixed2(&mut s, to_mebi_hundredths(d.written_bytes));
            s.append(" MB");
            assert(s@ =~= disk_line(disks@[i as int]));
            proof {
                lemma_views_push(lines@, s);
            }
            lines.push(s);
            i = i + 1;
        }
        assert(disk_lines(disks@).take(n as int) =~= disk_lines(disks@));
        lines
    }
}

} // verus!
