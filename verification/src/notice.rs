//! The text of an alert: a short title for its kind and a body that names
//! the reading, the threshold it passed and, where one is known, the process
//! most responsible.

use vstd::prelude::*;
use crate::alert::{AlertKind, Culprit, CulpritView};
use crate::text::{fixed2, push_fixed2};
use crate::units::{mebi_hundredths, to_mebi_hundredths};

verus! {

/// The title of an alert of the given kind.
pub open spec fn title_of(kind: AlertKind) -> Seq<char> {
    match kind {
        AlertKind::Cpu => "⚠️ ¡Alerta de CPU!"@,
        AlertKind::Memory => "⚠️ ¡Alerta de Memoria!"@,
        AlertKind::Network => "⚠️ ¡Alerta de Red!"@,
    }
}

/// The line that names the culprit: its name and its own reading, as a share
/// of the machine for CPU and in mebibytes for memory.
pub open spec fn culprit_line(kind: AlertKind, culprit: CulpritView) -> Seq<char> {
    match kind {
        AlertKind::Memory => "Proceso: "@ + culprit.name + " ("@ + fixed2(
            mebi_hundredths(culprit.value as nat),
        ) + " MB)\n"@,
        _ => "Proceso: "@ + culprit.name + " ("@ + fixed2(culprit.value as nat) + "%)\n"@,
    }
}

/// The line that gives the reading and the threshold it passed.
pub open spec fn reading_line(kind: AlertKind, value: nat, threshold: nat) -> Seq<char> {
    match kind {
        AlertKind::Cpu => "Uso total de CPU: "@ + fixed2(value) + "% (>"@ + fixed2(threshold)
            + "%)"@,
        AlertKind::Memory => "Uso de memoria: "@ + fixed2(value) + "% (>"@ + fixed2(threshold)
            + "%)"@,
        AlertKind::Network => "Velocidad de red: "@ + fixed2(value) + " Mbps (>"@ + fixed2(
            threshold,
        ) + " Mbps)"@,
    }
}

/// The body of an alert: the culprit's line when there is a culprit, then
/// the reading's line.
pub open spec fn message_of(
    kind: AlertKind,
    culprit: Option<CulpritView>,
    value: nat,
    threshold: nat,
) -> Seq<char> {
    match culprit {
        Some(c) => culprit_line(kind, c) + reading_line(kind, value, threshold),
        None => reading_line(kind, value, threshold),
    }
}

/// The title of an alert of the given kind.
pub fn title(kind: AlertKind) -> (r: &'static str)
    ensures
        r@ == title_of(kind),
{
    match kind {
        AlertKind::Cpu => "⚠️ ¡Alerta de CPU!",
        AlertKind::Memory => "⚠️ ¡Alerta de Memoria!",
        AlertKind::Network => "⚠️ ¡Alerta de Red!",
    }
}

fn push_culprit_line(out: &mut String, kind: AlertKind, culprit: &Culprit)
    ensures
        final(out)@ == old(out)@ + culprit_line(kind, culprit@),
{
    out.append("Proceso: ");
    out.append(culprit.name.as_str());
    out.append(" (");
    match kind {
        AlertKind::Memory => {
            push_fixed2(out, to_mebi_hundredths(culprit.value));
            out.append(" MB)\n");
        },
        _ => {
            push_fixed2(out, culprit.value);
            out.append("%)\n");
        },
    }
    assert(out@ =~= old(out)@ + culprit_line(kind, culprit@));
}

fn push_reading_line(out: &mut String, kind: AlertKind, value: u64, threshold: u64)
    ensures
        final(out)@ == old(out)@ + reading_line(kind, value as nat, threshold as nat),
{
    match kind {
        AlertKind::Cpu => {
            out.append("Uso total de CPU: ");
            push_fixed2(out, value);
            out.append("% (>");
            push_fixed2(out, threshold);
            out.append("%)");
        },
        AlertKind::Memory => {
            out.append("Uso de memoria: ");
            push_fixed2(out, value);
            out.append("% (>");
            push_fixed2(out, threshold);
            out.append("%)");
        },
        AlertKind::Network => {
            out.append("Velocidad de red: ");
            push_fixed2(out, value);
            out.append(" Mbps (>");
            push_fixed2(out, threshold);
            out.append(" Mbps)");
        },
    }
    assert(out@ =~= old(out)@ + reading_line(kind, value as nat, threshold as nat));
}

/// Renders the body of an alert.
pub fn render_message(kind: AlertKind, culprit: &Option<Culprit>, value: u64, threshold: u64) -> (r:
    String)
    ensures
        r@ == message_of(
            kind,
            match *culprit {
                Some(c) => Some(c@),
                None => None,
            },
            value as nat,
            threshold as nat,
        ),
{
    let mut out: String = String::new();
    match culprit {
        Some(c) => {
            push_culprit_line(&mut out, kind, c);
        },
        None => {},
    }
    push_reading_line(&mut out, kind, value, threshold);
    assert(out@ =~= message_of(
        kind,
        match *culprit {
            Some(c) => Some(c@),
            None => None,
        },
        value as nat,
        threshold as nat,
    ));
    out
}

} // verus!
