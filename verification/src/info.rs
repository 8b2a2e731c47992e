//! The system-information report: formats host statistics that the caller
//! has gathered, omitting every statistic whose query failed.
//!
//! Each statistic arrives as an `Option` of plain values; a failed query
//! is `None` and its field is left out of the report, never failing the
//! report as a whole.

use vstd::prelude::*;
use crate::text::{dec_str, dec_digit, u64_to_string, push_char};

verus! {

/// One decimal digit of tenths: `q.t` for the value `b / unit`, with `t`
/// the first digit of the remainder's fraction.
pub open spec fn scaled_text(b: nat, unit: nat) -> Seq<char> {
    dec_str(b / unit) + seq!['.'] + seq![dec_digit((b % unit) * 10 / unit)]
}

/// A byte count in the largest binary unit it reaches, with one decimal.
pub open spec fn size_text(b: nat) -> Seq<char> {
    if b < 1024 {
        dec_str(b) + " B"@
    } else if b < 1048576 {
        scaled_text(b, 1024) + " KiB"@
    } else if b < 1073741824 {
        scaled_text(b, 1048576) + " MiB"@
    } else if b < 1099511627776 {
        scaled_text(b, 1073741824) + " GiB"@
    } else {
        scaled_text(b, 1099511627776) + " TiB"@
    }
}

fn scaled_ex(b: u64, unit: u64) -> (r: String)
    requires
        1 <= unit <= 1099511627776,
    ensures
        r@ == scaled_text(b as nat, unit as nat),
{
    let q = b / unit;
    let rem = b % unit;
    let tenth: u64 = rem * 10 / unit;
    let mut s = u64_to_string(q);
    push_char(&mut s, '.');
    push_char(&mut s, (48 + ((tenth % 10) as u8)) as char);
    proof {
        assert(s@ =~= scaled_text(b as nat, unit as nat));
    }
    s
}

/// Renders a byte count for display.
pub fn format_size(b: u64) -> (r: String)
    ensures
        r@ == size_text(b as nat),
{
    if b < 1024 {
        let mut s = u64_to_string(b);
        s.append(" B");
        s
    } else if b < 1048576 {
        let mut s = scaled_ex(b, 1024);
        s.append(" KiB");
        s
    } else if b < 1073741824 {
        let mut s = scaled_ex(b, 1048576);
        s.append(" MiB");
        s
    } else if b < 1099511627776 {
        let mut s = scaled_ex(b, 1073741824);
        s.append(" GiB");
        s
    } else {
        let mut s = scaled_ex(b, 1099511627776);
        s.append(" TiB");
        s
    }
}

/// A load given in tenths of a percent, as `q.t`.
pub open spec fn percent_text(permille: u64) -> Seq<char> {
    dec_str(permille as nat / 10) + seq!['.'] + seq![dec_digit(permille as nat % 10)]
}

fn percent_ex(permille: u64) -> (r: String)
    ensures
        r@ == percent_text(permille),
{
    let mut s = u64_to_string(permille / 10);
    push_char(&mut s, '.');
    push_char(&mut s, (48 + ((permille % 10) as u8)) as char);
    proof {
        assert(s@ =~= percent_text(permille));
    }
    s
}

/// The uptime field: the boot instant as a platform timestamp tag,
/// relative-formatted by the chat client.
pub open spec fn uptime_text(now_secs: u64, uptime_secs: u64) -> Seq<char> {
    "<t:"@ + dec_str(
        if uptime_secs <= now_secs {
            (now_secs - uptime_secs) as nat
        } else {
            0
        },
    ) + ":R>"@
}

/// The memory field: used (total minus free) and total bytes.
pub open spec fn memory_text(total: u64, free: u64) -> Seq<char> {
    size_text(
        if free <= total {
            (total - free) as nat
        } else {
            0
        },
    ) + " used / "@ + size_text(total as nat) + " total"@
}

/// The CPU load field: the three aggregate loads in tenths of a percent.
pub open spec fn cpu_text(user: u64, system: u64, idle: u64) -> Seq<char> {
    "System: "@ + percent_text(user) + "%\nUser: "@ + percent_text(system) + "%\nIdle: "@
        + percent_text(idle) + "%"@
}

/// The disk field: available and total bytes of the root mount.
pub open spec fn disk_text(avail: u64, total: u64) -> Seq<char> {
    size_text(avail as nat) + " used / "@ + size_text(total as nat) + " total"@
}

/// The report's fields: one entry for each statistic whose query
/// succeeded, in a fixed order, and nothing for the ones that failed.
pub open spec fn info_fields_spec(
    now_secs: u64,
    uptime: Option<u64>,
    memory: Option<(u64, u64)>,
    cpu: Option<(u64, u64, u64)>,
    cpu_temp: Option<Seq<char>>,
    disk: Option<(u64, u64)>,
) -> Seq<(Seq<char>, Seq<char>, bool)> {
    (match uptime {
        Some(u) => seq![("Uptime"@, uptime_text(now_secs, u), false)],
        None => Seq::empty(),
    }) + (match memory {
        Some(m) => seq![("Memory"@, memory_text(m.0, m.1), false)],
        None => Seq::empty(),
    }) + (match cpu {
        Some(c) => seq![("CPU Load"@, cpu_text(c.0, c.1, c.2), false)],
        None => Seq::empty(),
    }) + (match cpu_temp {
        Some(t) => seq![("CPU Temperature"@, t, false)],
        None => Seq::empty(),
    }) + (match disk {
        Some(d) => seq![("Disk Usage"@, disk_text(d.0, d.1), false)],
        None => Seq::empty(),
    })
}

/// Builds the report's fields from the statistics the caller gathered.
/// A statistic whose query failed is handed in as `None` and only its own
/// field is omitted; the report itself always succeeds.
pub fn info_fields(
    now_secs: u64,
    uptime: Option<u64>,
    memory: Option<(u64, u64)>,
    cpu: Option<(u64, u64, u64)>,
    cpu_temp: Option<String>,
    disk: Option<(u64, u64)>,
) -> (r: Vec<(String, String, bool)>)
    ensures
        r.deep_view() == info_fields_spec(
            now_secs,
            uptime,
            memory,
            cpu,
            cpu_temp.deep_view(),
            disk,
        ),
{
    let mut fields: Vec<(String, String, bool)> = Vec::new();
    if let Some(u) = uptime {
        let mut v = String::new();
        v.append("<t:");
        let boot = if u <= now_secs {
            now_secs - u
        } else {
            0
        };
        let digits = u64_to_string(boot);
        v.append(digits.as_str());
        v.append(":R>");
        fields.push(("Uptime".to_owned(), v, false));
    }
    if let Some((total, free)) = memory {
        let used = if free <= total {
            total - free
        } else {
            0
        };
        let mut v = format_size(used);
        v.append(" used / ");
        let t = format_size(total);
        v.append(t.as_str());
        v.append(" total");
        fields.push(("Memory".to_owned(), v, false));
    }
    if let Some((user, system, idle)) = cpu {
        let mut v = String::new();
        v.append("System: ");
        let pu = percent_ex(user);
        v.append(pu.as_str());
        v.append("%\nUser: ");
        let ps = percent_ex(system);
        v.append(ps.as_str());
        v.append("%\nIdle: ");
        let pi = percent_ex(idle);
        v.append(pi.as_str());
        v.append("%");
        fields.push(("CPU Load".to_owned(), v, false));
    }
    if let Some(t) = cpu_temp {
        fields.push(("CPU Temperature".to_owned(), t, false));
    }
    if let Some((avail, total)) = disk {
        let mut v = format_size(avail);
        v.append(" used / ");
        let t = format_size(total);
        v.append(t.as_str());
        v.append(" total");
        fields.push(("Disk Usage".to_owned(), v, false));
    }
    proof {
        assert(fields.deep_view() =~= info_fields_spec(
            now_secs,
            uptime,
            memory,
            cpu,
            cpu_temp.deep_view(),
            disk,
        ));
    }
    fields
}

/// The report's length is the number of statistics that succeeded: no
/// failure removes more than its own field.
pub proof fn lemma_info_fields_len(
    now_secs: u64,
    uptime: Option<u64>,
    memory: Option<(u64, u64)>,
    cpu: Option<(u64, u64, u64)>,
    cpu_temp: Option<Seq<char>>,
    disk: Option<(u64, u64)>,
)
    ensures
        info_fields_spec(now_secs, uptime, memory, cpu, cpu_temp, disk).len() == (if uptime
            is Some {
            1int
        } else {
            0int
        }) + (if memory is Some {
            1int
        } else {
            0int
        }) + (if cpu is Some {
            1int
        } else {
            0int
        }) + (if cpu_temp is Some {
            1int
        } else {
            0int
        }) + (if disk is Some {
            1int
        } else {
            0int
        }),
{
}

/// A failed uptime query only drops the uptime field: the report equals
/// the full report with its first entry removed.
pub proof fn lemma_uptime_failure_omits_only_uptime(
    now_secs: u64,
    u: u64,
    memory: Option<(u64, u64)>,
    cpu: Option<(u64, u64, u64)>,
    cpu_temp: Option<Seq<char>>,
    disk: Option<(u64, u64)>,
)
    ensures
        info_fields_spec(now_secs, None, memory, cpu, cpu_temp, disk) == info_fields_spec(
            now_secs,
            Some(u),
            memory,
            cpu,
            cpu_temp,
            disk,
        ).skip(1),
{
    assert(info_fields_spec(now_secs, None, memory, cpu, cpu_temp, disk) =~= info_fields_spec(
        now_secs,
        Some(u),
        memory,
        cpu,
        cpu_temp,
        disk,
    ).skip(1));
}

} // verus!
