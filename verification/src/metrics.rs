//! The system load shown by the desktop widgets, read from the kernel's
//! counters and from `nvidia-smi`; percentages, which are fractions, are
//! the caller's to compute from the counts given here.
use vstd::prelude::*;
use crate::paths::{lines_of, split_chars, split_on, split_whitespace_chars, split_ws, text_lines};
use crate::text::{chars_of, parse_u64_chars, parse_u64_spec, starts_with, starts_with_str, string_of, trim, trim_chars};

verus! {

broadcast use vstd::string::group_string_axioms;

/// The number in field `i`, or 0 when there is no such field or it is not
/// a number.
pub open spec fn field_value(parts: Seq<Seq<char>>, i: int) -> nat {
    if 0 <= i < parts.len() {
        match parse_u64_spec(parts[i]) {
            Some(v) => v as nat,
            None => 0,
        }
    } else {
        0
    }
}

/// The fields of the first line of `/proc/stat`, when it has at least
/// five.
pub open spec fn cpu_line(stat: Seq<char>) -> Option<Seq<Seq<char>>> {
    let lines = text_lines(stat);
    if lines.len() == 0 {
        None
    } else {
        let parts = split_ws(lines[0]);
        if parts.len() >= 5 {
            Some(parts)
        } else {
            None
        }
    }
}

/// The idle time (idle and waiting on I/O) and the total time (user,
/// nice, system, idle, I/O wait, interrupts and soft interrupts) that the
/// first line of `/proc/stat` counts.
pub open spec fn cpu_times(stat: Seq<char>) -> Option<(nat, nat)> {
    match cpu_line(stat) {
        Some(p) => Some((
            field_value(p, 4) + field_value(p, 5),
            field_value(p, 1) + field_value(p, 2) + field_value(p, 3) + field_value(p, 4) + field_value(p, 5)
                + field_value(p, 6) + field_value(p, 7),
        )),
        None => None,
    }
}

fn field_of(parts: &Vec<Vec<char>>, i: usize) -> (r: u64)
    ensures
        r == field_value(parts@.map_values(|x: Vec<char>| x@), i as int),
{
    if i < parts.len() {
        assert(parts@.map_values(|x: Vec<char>| x@)[i as int] == parts@[i as int]@);
        match parse_u64_chars(parts[i].as_slice()) {
            Some(v) => v,
            None => 0,
        }
    } else {
        0
    }
}

/// The idle and total time counted on the first line of `/proc/stat`
/// (`stat`), when that line has its fields; the counts are such that
/// their total fits in 64 bits.
pub fn cpu_counters(stat: &str) -> (r: Option<(u64, u64)>)
    requires
        cpu_times(stat@) matches Some(t) ==> t.1 <= u64::MAX,
    ensures
        match r {
            Some((idle, total)) => cpu_times(stat@) == Some((idle as nat, total as nat)),
            None => cpu_times(stat@) is None,
        },
{
    let lines = lines_of(stat);
    if lines.len() == 0 {
        return None;
    }
    assert(lines@.map_values(|x: Vec<char>| x@)[0] == lines@[0]@);
    let parts = split_whitespace_chars(lines[0].as_slice());
    if parts.len() < 5 {
        return None;
    }
    let user = field_of(&parts, 1);
    let nice = field_of(&parts, 2);
    let system = field_of(&parts, 3);
    let idle = field_of(&parts, 4);
    let iowait = field_of(&parts, 5);
    let irq = field_of(&parts, 6);
    let softirq = field_of(&parts, 7);
    let total_idle = idle + iowait;
    let total = user + nice + system + idle + iowait + irq + softirq;
    Some((total_idle, total))
}

/// The busy time and the total time that passed between two readings
/// (idle, total) of the counters, each not below zero.
pub fn cpu_busy(prev: (u64, u64), now: (u64, u64)) -> (r: (u64, u64))
    ensures
        r.1 == (if now.1 >= prev.1 {
            now.1 - prev.1
        } else {
            0
        }),
        r.0 == ({
            let d_idle: int = if now.0 >= prev.0 {
                now.0 - prev.0
            } else {
                0
            };
            if r.1 >= d_idle {
                r.1 - d_idle
            } else {
                0
            }
        }),
{
    let delta_total = now.1.saturating_sub(prev.1);
    let delta_idle = now.0.saturating_sub(prev.0);
    (delta_total.saturating_sub(delta_idle), delta_total)
}

/// The value of the last line of `/proc/meminfo` that starts with `key`,
/// or 0 when there is none.
pub open spec fn mem_value(lines: Seq<Seq<char>>, key: Seq<char>) -> nat
    decreases lines.len(),
{
    if lines.len() == 0 {
        0
    } else if starts_with(lines.last(), key) {
        field_value(split_ws(lines.last()), 1)
    } else {
        mem_value(lines.drop_last(), key)
    }
}

/// The total and the used memory in MiB that `/proc/meminfo` reports: the
/// total, and the total less what is available (not below zero).
pub open spec fn memory_mb(meminfo: Seq<char>) -> (nat, nat) {
    let lines = text_lines(meminfo);
    let total = mem_value(lines, "MemTotal:"@);
    let avail = mem_value(lines, "MemAvailable:"@);
    let used: nat = if total >= avail {
        (total - avail) as nat
    } else {
        0
    };
    (total / 1024, used / 1024)
}

/// The total and the used memory in MiB, from the text of `/proc/meminfo`.
pub fn memory_usage(meminfo: &str) -> (r: (u64, u64))
    ensures
        (r.0 as nat, r.1 as nat) == memory_mb(meminfo@),
{
    let lines = lines_of(meminfo);
    let ghost lv = lines@.map_values(|x: Vec<char>| x@);
    let mut total: u64 = 0;
    let mut avail: u64 = 0;
    let mut i: usize = 0;
    assert(lv.take(0) == Seq::<Seq<char>>::empty());
    while i < lines.len()
        invariant
            i <= lines.len(),
            lv == lines@.map_values(|x: Vec<char>| x@),
            total == mem_value(lv.take(i as int), "MemTotal:"@),
            avail == mem_value(lv.take(i as int), "MemAvailable:"@),
        decreases lines.len() - i,
    {
        assert(lv.take(i + 1).drop_last() == lv.take(i as int));
        assert(lv.take(i + 1).last() == lines@[i as int]@);
        proof {
            reveal_strlit("MemTotal:");
            reveal_strlit("MemAvailable:");
        }
        if starts_with_str(lines[i].as_slice(), "MemTotal:") {
            let parts = split_whitespace_chars(lines[i].as_slice());
            total = field_of(&parts, 1);
            proof {
                let l = lines@[i as int]@;
                if starts_with(l, "MemAvailable:"@) {
                    assert(l.subrange(0, 9) == "MemTotal:"@);
                    assert(l.subrange(0, 13) == "MemAvailable:"@);
                    assert(l[3] == "MemTotal:"@[3]);
                    assert(l[3] == "MemAvailable:"@[3]);
                }
            }
        } else if starts_with_str(lines[i].as_slice(), "MemAvailable:") {
            let parts = split_whitespace_chars(lines[i].as_slice());
            avail = field_of(&parts, 1);
            assert(!starts_with(lines@[i as int]@, "MemTotal:"@));
        }
        i += 1;
    }
    assert(lv.take(lines.len() as int) == lv);
    (total / 1024, total.saturating_sub(avail) / 1024)
}

/// What `nvidia-smi` reported: the utilisation as printed, the video
/// memory used in MiB, and the adapter's name when it printed one.
#[derive(Debug, Clone, PartialEq)]
pub struct NvidiaReading {
    pub usage_text: String,
    pub vram_used_mb: u64,
    pub name: Option<String>,
}

/// The text an optional string holds.
pub open spec fn opt_text(v: Option<String>) -> Option<Seq<char>> {
    match v {
        Some(s) => Some(s@),
        None => None,
    }
}

/// The comma-separated fields of the trimmed output, each trimmed.
pub open spec fn smi_fields(out: Seq<char>) -> Seq<Seq<char>> {
    split_on(trim(out), ',').map_values(|p: Seq<char>| trim(p))
}

/// Reads the output of `nvidia-smi --query-gpu=utilization.gpu,memory.used,name
/// --format=csv,noheader,nounits`; nothing when it has fewer than two
/// fields.
pub fn nvidia_reading(out: &str) -> (r: Option<NvidiaReading>)
    ensures
        smi_fields(out@).len() < 2 ==> r is None,
        smi_fields(out@).len() >= 2 ==> (r matches Some(n) && n.usage_text@ == smi_fields(out@)[0] && n.vram_used_mb
            == field_value(smi_fields(out@), 1) && opt_text(n.name) == (if smi_fields(out@).len() >= 3
            && smi_fields(out@)[2].len() > 0 {
            Some(smi_fields(out@)[2])
        } else {
            None
        })),
{
    let t = trim_chars(chars_of(out).as_slice());
    let raw = split_chars(t.as_slice(), ',');
    let ghost fields = smi_fields(out@);
    let mut parts: Vec<Vec<char>> = Vec::new();
    let mut i: usize = 0;
    while i < raw.len()
        invariant
            i <= raw.len(),
            raw@.map_values(|x: Vec<char>| x@) == split_on(t@, ','),
            t@ == trim(out@),
            fields == smi_fields(out@),
            parts@.map_values(|x: Vec<char>| x@) == split_on(t@, ',').take(i as int).map_values(|p: Seq<char>| trim(p)),
        decreases raw.len() - i,
    {
        let ghost before = parts@.map_values(|x: Vec<char>| x@);
        assert(raw@.map_values(|x: Vec<char>| x@)[i as int] == raw@[i as int]@);
        parts.push(trim_chars(raw[i].as_slice()));
        assert(parts@.map_values(|x: Vec<char>| x@) == before.push(trim(raw@[i as int]@)));
        assert(split_on(t@, ',').take(i + 1) == split_on(t@, ',').take(i as int).push(split_on(t@, ',')[i as int]));
        i += 1;
    }
    assert(split_on(t@, ',').take(raw.len() as int) == split_on(t@, ','));
    assert(parts@.map_values(|x: Vec<char>| x@) == fields);
    if parts.len() < 2 {
        return None;
    }
    assert(fields[0] == parts@[0]@);
    let vram = field_of(&parts, 1);
    let name = if parts.len() >= 3 && parts[2].len() > 0 {
        assert(fields[2] == parts@[2]@);
        Some(string_of(parts[2].as_slice()))
    } else {
        None
    };
    Some(NvidiaReading { usage_text: string_of(parts[0].as_slice()), vram_used_mb: vram, name })
}

/// The adapter's name shown: the one `nvidia-smi` printed, else the first
/// adapter found, else a generic one.
pub fn gpu_label(nvidia_name: Option<String>, first_adapter: Option<String>) -> (r: String)
    ensures
        r@ == match nvidia_name {
            Some(n) => n@,
            None => match first_adapter {
                Some(a) => a@,
                None => "Auto Graphics Processing Unit"@,
            },
        },
{
    match nvidia_name {
        Some(n) => n,
        None => match first_adapter {
            Some(a) => a,
            None => "Auto Graphics Processing Unit".to_string(),
        },
    }
}

/// The busy-percentage files of the first four graphics cards, read in
/// turn when `nvidia-smi` printed no name.
pub open spec fn busy_files_of() -> Seq<Seq<char>> {
    seq![
        "/sys/class/drm/card0/device/gpu_busy_percent"@,
        "/sys/class/drm/card1/device/gpu_busy_percent"@,
        "/sys/class/drm/card2/device/gpu_busy_percent"@,
        "/sys/class/drm/card3/device/gpu_busy_percent"@,
    ]
}

/// The busy-percentage files read in turn.
pub fn gpu_busy_files() -> (r: Vec<String>)
    ensures
        r@.map_values(|x: String| x@) == busy_files_of(),
{
    let mut v: Vec<String> = Vec::new();
    v.push("/sys/class/drm/card0/device/gpu_busy_percent".to_string());
    v.push("/sys/class/drm/card1/device/gpu_busy_percent".to_string());
    v.push("/sys/class/drm/card2/device/gpu_busy_percent".to_string());
    v.push("/sys/class/drm/card3/device/gpu_busy_percent".to_string());
    assert(v@.map_values(|x: String| x@) =~= busy_files_of());
    v
}

/// The idle and total time of the first line of `/proc/stat`, or nothing
/// when the line lacks its fields or its total does not fit in 64 bits.
pub fn cpu_counters_checked(stat: &str) -> (r: Option<(u64, u64)>)
    ensures
        match r {
            Some((idle, total)) => cpu_times(stat@) == Some((idle as nat, total as nat)),
            None => match cpu_times(stat@) {
                Some(t) => t.1 > u64::MAX,
                None => true,
            },
        },
{
    let lines = lines_of(stat);
    if lines.len() == 0 {
        return None;
    }
    assert(lines@.map_values(|x: Vec<char>| x@)[0] == lines@[0]@);
    let parts = split_whitespace_chars(lines[0].as_slice());
    if parts.len() < 5 {
        return None;
    }
    let mut total: u64 = 0;
    let mut k: usize = 1;
    let ghost p = parts@.map_values(|x: Vec<char>| x@);
    assert(cpu_line(stat@) == Some(p));
    while k <= 7
        invariant
            1 <= k <= 8,
            p == parts@.map_values(|x: Vec<char>| x@),
            cpu_times(stat@) == Some((
                field_value(p, 4) + field_value(p, 5),
                field_value(p, 1) + field_value(p, 2) + field_value(p, 3) + field_value(p, 4) + field_value(p, 5)
                    + field_value(p, 6) + field_value(p, 7),
            )),
            total as int == (if k > 1 { field_value(p, 1) } else { 0 }) + (if k > 2 { field_value(p, 2) } else { 0 }) + (
            if k > 3 { field_value(p, 3) } else { 0 }) + (if k > 4 { field_value(p, 4) } else { 0 }) + (if k > 5 {
                field_value(p, 5)
            } else {
                0
            }) + (if k > 6 { field_value(p, 6) } else { 0 }) + (if k > 7 { field_value(p, 7) } else { 0 }),
        decreases 8 - k,
    {
        let v = field_of(&parts, k);
        match total.checked_add(v) {
            Some(t) => total = t,
            None => {
                return None;
            },
        }
        k += 1;
    }
    let idle = field_of(&parts, 4);
    let iowait = field_of(&parts, 5);
    Some((idle + iowait, total))
}

} // verus!
