//! The readings of a node: what the kernel's text files say of memory and
//! processor time, as whole numbers.

use crate::text::{
    lines, lines_of, parse_unsigned, starts_with, views, words, words_of, written_number,
    has_prefix,
};
use vstd::prelude::*;

verus! {

/// The number in the second word of a line, 0 where there is none or it
/// does not fit 64 bits.
pub open spec fn meminfo_value_of(line: Seq<char>) -> nat {
    let parts = words_of(line);
    if parts.len() >= 2 {
        match written_number(parts[1]) {
            Some(n) => if n <= u64::MAX {
                n
            } else {
                0
            },
            None => 0,
        }
    } else {
        0
    }
}

pub fn parse_meminfo_value(line: &str) -> (value: u64)
    ensures
        value == meminfo_value_of(line@),
{
    let parts = words(line);
    if parts.len() >= 2 {
        match parse_unsigned(parts[1].as_str()) {
            Some(n) => n,
            None => 0,
        }
    } else {
        0
    }
}

/// The value of the last line that begins with `label`, 0 where there is
/// none.
pub open spec fn labelled_value(lines: Seq<Seq<char>>, label: Seq<char>) -> nat
    decreases lines.len(),
{
    if lines.len() == 0 {
        0
    } else if has_prefix(lines.last(), label) {
        meminfo_value_of(lines.last())
    } else {
        labelled_value(lines.drop_last(), label)
    }
}

/// Memory in use and in total, in mebibytes.
#[derive(Debug, Clone, Copy, PartialEq, Eq, Structural)]
pub struct Memory {
    pub used_mb: u64,
    pub total_mb: u64,
}

/// The memory of a node. The total is the `MemTotal` line and what is
/// available the `MemAvailable` line, each as whole mebibytes; what is used
/// is the difference, and none where more is reported available than there
/// is.
pub open spec fn memory_of(meminfo: Seq<char>) -> Memory {
    let total = labelled_value(lines_of(meminfo), "MemTotal:"@) / 1024;
    let available = labelled_value(lines_of(meminfo), "MemAvailable:"@) / 1024;
    Memory {
        used_mb: if available <= total {
            (total - available) as u64
        } else {
            0
        },
        total_mb: total as u64,
    }
}

pub fn read_memory(meminfo: &str) -> (memory: Memory)
    ensures
        memory == memory_of(meminfo@),
{
    let all = lines(meminfo);
    let mut total_kb: u64 = 0;
    let mut available_kb: u64 = 0;
    let mut i: usize = 0;
    while i < all.len()
        invariant
            i <= all.len(),
            total_kb == labelled_value(views(all@).take(i as int), "MemTotal:"@),
            available_kb == labelled_value(views(all@).take(i as int), "MemAvailable:"@),
        decreases all.len() - i,
    {
        proof {
            let t = views(all@).take(i + 1);
            assert(t.drop_last() =~= views(all@).take(i as int));
            assert(t.last() == all@[i as int]@);
            reveal_strlit("MemTotal:");
            reveal_strlit("MemAvailable:");
            let a = "MemTotal:"@;
            let b = "MemAvailable:"@;
            assert(a[3] == 'T' && b[3] == 'A');
            if has_prefix(t.last(), a) && has_prefix(t.last(), b) {
                assert(t.last().take(a.len() as int)[3] == t.last()[3]);
                assert(t.last().take(b.len() as int)[3] == t.last()[3]);
            }
        }
        let line = all[i].as_str();
        if starts_with(line, "MemTotal:") {
            total_kb = parse_meminfo_value(line);
        } else if starts_with(line, "MemAvailable:") {
            available_kb = parse_meminfo_value(line);
        }
        i += 1;
    }
    assert(views(all@).take(all.len() as int) =~= views(all@));
    let total_mb = total_kb / 1024;
    let available_mb = available_kb / 1024;
    Memory {
        used_mb: if available_mb <= total_mb {
            total_mb - available_mb
        } else {
            0
        },
        total_mb,
    }
}

/// Processor time: idle ticks and all ticks.
#[derive(Debug, Clone, Copy, PartialEq, Eq, Structural)]
pub struct CpuTicks {
    pub idle: u64,
    pub total: u64,
}

/// The numbers among the words of a line after its first word; a word that
/// writes no number of 64 bits is passed over.
pub open spec fn tick_values(parts: Seq<Seq<char>>) -> Seq<u64>
    decreases parts.len(),
{
    if parts.len() <= 1 {
        Seq::empty()
    } else {
        let before = tick_values(parts.drop_last());
        match written_number(parts.last()) {
            Some(n) => if n <= u64::MAX {
                before.push(n as u64)
            } else {
                before
            },
            None => before,
        }
    }
}

/// The sum of the values; it wraps where it leaves 64 bits.
pub open spec fn wrapping_sum(values: Seq<u64>) -> u64
    decreases values.len(),
{
    if values.len() == 0 {
        0
    } else {
        ((wrapping_sum(values.drop_last()) + values.last()) % 0x1_0000_0000_0000_0000) as u64
    }
}

/// The ticks of the summary line of the processor statistics: the fourth
/// value is the idle time, the sum of all is the total. A line with fewer
/// than four values has none.
pub open spec fn cpu_ticks_of(line: Seq<char>) -> Option<CpuTicks> {
    let values = tick_values(words_of(line));
    if values.len() < 4 {
        None
    } else {
        Some(CpuTicks { idle: values[3], total: wrapping_sum(values) })
    }
}

pub fn parse_cpu_line(line: &str) -> (ticks: Option<CpuTicks>)
    ensures
        ticks == cpu_ticks_of(line@),
{
    let parts = words(line);
    let mut values: Vec<u64> = Vec::new();
    let mut total: u64 = 0;
    let mut i: usize = 1;
    if parts.len() <= 1 {
        assert(tick_values(views(parts@)) =~= Seq::<u64>::empty());
        return None;
    }
    assert(views(parts@).take(1).len() == 1);
    while i < parts.len()
        invariant
            1 <= i <= parts.len(),
            values@ == tick_values(views(parts@).take(i as int)),
            total == wrapping_sum(values@),
        decreases parts.len() - i,
    {
        proof {
            let t = views(parts@).take(i + 1);
            assert(t.drop_last() =~= views(parts@).take(i as int));
            assert(t.last() == parts@[i as int]@);
        }
        match parse_unsigned(parts[i].as_str()) {
            Some(n) => {
                let ghost before = values@;
                values.push(n);
                assert(values@.drop_last() =~= before);
                total = total.wrapping_add(n);
            },
            None => {},
        }
        i += 1;
    }
    assert(views(parts@).take(parts.len() as int) =~= views(parts@));
    if values.len() < 4 {
        None
    } else {
        Some(CpuTicks { idle: values[3], total })
    }
}

/// The ticks between two readings: never negative.
pub open spec fn ticks_between(first: CpuTicks, second: CpuTicks) -> CpuTicks {
    CpuTicks {
        idle: if second.idle >= first.idle {
            (second.idle - first.idle) as u64
        } else {
            0
        },
        total: if second.total >= first.total {
            (second.total - first.total) as u64
        } else {
            0
        },
    }
}

/// The ticks that passed between two readings of the processor statistics.
/// A reading without ticks counts as no idle time in one tick.
pub fn cpu_delta(first: Option<CpuTicks>, second: Option<CpuTicks>) -> (delta: CpuTicks)
    ensures
        delta == ticks_between(
            match first {
                Some(t) => t,
                None => CpuTicks { idle: 0, total: 1 },
            },
            match second {
                Some(t) => t,
                None => CpuTicks { idle: 0, total: 1 },
            },
        ),
{
    let a = match first {
        Some(t) => t,
        None => CpuTicks { idle: 0, total: 1 },
    };
    let b = match second {
        Some(t) => t,
        None => CpuTicks { idle: 0, total: 1 },
    };
    CpuTicks { idle: b.idle.saturating_sub(a.idle), total: b.total.saturating_sub(a.total) }
}

/// The first line of a text, empty where the text is.
pub fn first_line(text: &str) -> (line: String)
    ensures
        line@ == (if lines_of(text@).len() > 0 {
            lines_of(text@)[0]
        } else {
            Seq::<char>::empty()
        }),
{
    let mut all = lines(text);
    if all.len() > 0 {
        all.swap_remove(0)
    } else {
        String::new()
    }
}

} // verus!
