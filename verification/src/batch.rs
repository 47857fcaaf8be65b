//! Bounded fan-out: work is cut into batches of a fixed width, the units of
//! one batch run at once, and a batch is awaited as a whole before the next
//! one starts.
//!
//! The unit of work is anything that has a position in a list: a batch is a
//! range of positions.

use crate::text::{
    find_char, from_chars_range, index_of_from, lemma_find_char, split_chars, split_of,
    to_chars, trim, trim_bounds, trimmed, views, same_text,
};
use vstd::prelude::*;

verus! {

/// Whether `ranges` cuts the positions `0..n` into batches of width `width`:
/// the ranges follow each other without gap from 0 to `n`, none is empty,
/// and every range but the last is exactly `width` long, the last at most.
pub open spec fn is_batching(ranges: Seq<(usize, usize)>, n: nat, width: nat) -> bool {
    &&& n == 0 ==> ranges.len() == 0
    &&& n > 0 ==> ranges.len() > 0 && ranges[0].0 == 0 && ranges.last().1 == n
    &&& forall|k: int|
        0 <= k < ranges.len() ==> (#[trigger] ranges[k]).0 < ranges[k].1 <= ranges[k].0 + width
    &&& forall|k: int|
        0 <= k < ranges.len() - 1 ==> (#[trigger] ranges[k]).1 == ranges[k + 1].0 && ranges[k].1
            == ranges[k].0 + width
}

/// The width of a batch for a requested number of concurrent jobs: at least
/// one.
pub fn batch_width(jobs: u8) -> (width: usize)
    ensures
        width == (if jobs == 0 {
            1int
        } else {
            jobs as int
        }),
{
    if jobs == 0 {
        1
    } else {
        jobs as usize
    }
}

/// Cuts `n` units of work into batches of `width`.
pub fn batch_ranges(n: usize, width: usize) -> (ranges: Vec<(usize, usize)>)
    requires
        width > 0,
    ensures
        is_batching(ranges@, n as nat, width as nat),
{
    let mut ranges: Vec<(usize, usize)> = Vec::new();
    let mut start: usize = 0;
    while start < n
        invariant
            width > 0,
            start <= n,
            start == 0 <==> ranges.len() == 0,
            ranges.len() > 0 ==> ranges@[0].0 == 0 && ranges@.last().1 == start,
            forall|k: int|
                0 <= k < ranges.len() ==> (#[trigger] ranges@[k]).0 < ranges@[k].1 <= ranges@[k].0
                    + width,
            forall|k: int|
                0 <= k < ranges.len() - 1 ==> (#[trigger] ranges@[k]).1 == ranges@[k + 1].0,
            forall|k: int|
                0 <= k < ranges.len() ==> (#[trigger] ranges@[k]).1 == ranges@[k].0 + width,
        decreases n - start,
    {
        let end = if n - start <= width {
            n
        } else {
            start + width
        };
        if end == n {
            ranges.push((start, end));
            return ranges;
        }
        ranges.push((start, end));
        start = end;
    }
    ranges
}

/// The batches of a list of names.
pub fn batches(names: &Vec<String>, width: usize) -> (cut: Vec<Vec<String>>)
    requires
        width > 0,
    ensures
        exists|ranges: Seq<(usize, usize)>|
            {
                &&& is_batching(ranges, names@.len(), width as nat)
                &&& cut@.len() == ranges.len()
                &&& forall|k: int|
                    0 <= k < cut@.len() ==> views((#[trigger] cut@[k])@) == views(names@).subrange(
                        ranges[k].0 as int,
                        ranges[k].1 as int,
                    )
            },
{
    let ranges = batch_ranges(names.len(), width);
    let mut cut: Vec<Vec<String>> = Vec::new();
    let mut k: usize = 0;
    while k < ranges.len()
        invariant
            k <= ranges.len(),
            cut.len() == k,
            is_batching(ranges@, names@.len(), width as nat),
            forall|j: int|
                0 <= j < k ==> views((#[trigger] cut@[j])@) == views(names@).subrange(
                    ranges@[j].0 as int,
                    ranges@[j].1 as int,
                ),
        decreases ranges.len() - k,
    {
        let (from, to) = ranges[k];
        proof {
            lemma_batching_in_bounds(ranges@, names@.len(), width as nat, k as int);
        }
        let mut batch: Vec<String> = Vec::new();
        let mut i: usize = from;
        while i < to
            invariant
                from <= i <= to <= names.len(),
                batch.len() == i - from,
                forall|j: int| 0 <= j < i - from ==> batch@[j]@ == names@[from + j]@,
            decreases to - i,
        {
            batch.push(names[i].clone());
            i += 1;
        }
        assert(views(batch@) =~= views(names@).subrange(from as int, to as int));
        cut.push(batch);
        k += 1;
    }
    cut
}

/// Every batch lies within the work, and the batches stand in order.
pub proof fn lemma_batching_in_bounds(ranges: Seq<(usize, usize)>, n: nat, width: nat, k: int)
    requires
        is_batching(ranges, n, width),
        0 <= k < ranges.len(),
    ensures
        ranges[k].1 <= n,
    decreases ranges.len() - k,
{
    if k < ranges.len() - 1 {
        lemma_batching_in_bounds(ranges, n, width, k + 1);
        assert(ranges[k].1 == ranges[k + 1].0);
        assert(ranges[k + 1].0 < ranges[k + 1].1);
    } else {
        assert(ranges.last() == ranges[k]);
    }
}

// ---------------------------------------------------------------------------
// Collecting the exit status of each job
// ---------------------------------------------------------------------------

/// The name in a status line `name:code`, without the white space around
/// it; `None` for a line without a colon.
pub open spec fn status_name(line: Seq<char>) -> Option<Seq<char>> {
    let colon = find_char(line, ':');
    if 0 <= colon < line.len() {
        Some(trimmed(line.take(colon)))
    } else {
        None
    }
}

/// Whether a status line reports a failure: it has a colon, and what
/// follows the first colon is not `0`.
pub open spec fn reports_failure(line: Seq<char>) -> bool {
    let colon = find_char(line, ':');
    0 <= colon < line.len() && trimmed(line.skip(colon + 1)) != "0"@
}

/// What a status line reports: the name and the code, each without the
/// white space around it. A line without a colon reports nothing.
pub open spec fn status_of(line: Seq<char>) -> Option<(Seq<char>, Seq<char>)> {
    let colon = find_char(line, ':');
    if 0 <= colon < line.len() {
        Some((trimmed(line.take(colon)), trimmed(line.skip(colon + 1))))
    } else {
        None
    }
}

/// What the status lines report, in order.
pub open spec fn statuses_of(lines: Seq<Seq<char>>) -> Seq<(Seq<char>, Seq<char>)>
    decreases lines.len(),
{
    if lines.len() == 0 {
        Seq::empty()
    } else {
        let before = statuses_of(lines.drop_last());
        match status_of(lines.last()) {
            Some(status) => before.push(status),
            None => before,
        }
    }
}

/// The jobs of a batch with the code each ended with, from what the status
/// markers hold.
pub fn job_statuses(output: &str) -> (statuses: Vec<(String, String)>)
    ensures
        crate::scanner::pair_views(statuses@) == statuses_of(split_of(trimmed(output@), '\n')),
{
    let text = trim(output);
    let v = to_chars(text.as_str());
    assert(v@.skip(0) =~= v@);
    let status_lines = split_chars(&v, 0, '\n');
    let mut statuses: Vec<(String, String)> = Vec::new();
    let mut i: usize = 0;
    assert(crate::scanner::pair_views(statuses@) =~= statuses_of(views(status_lines@).take(0)));
    while i < status_lines.len()
        invariant
            i <= status_lines.len(),
            crate::scanner::pair_views(statuses@) == statuses_of(
                views(status_lines@).take(i as int),
            ),
        decreases status_lines.len() - i,
    {
        proof {
            let t = views(status_lines@).take(i + 1);
            assert(t.drop_last() =~= views(status_lines@).take(i as int));
            assert(t.last() == status_lines@[i as int]@);
        }
        let line = to_chars(status_lines[i].as_str());
        assert(line@.skip(0) =~= line@);
        let colon = index_of_from(&line, ':', 0);
        proof {
            lemma_find_char(line@, ':');
        }
        if colon < line.len() {
            let (a, b) = trim_bounds(&line, colon + 1, line.len());
            let code = from_chars_range(&line, a, b);
            let (na, nb) = trim_bounds(&line, 0, colon);
            let name = from_chars_range(&line, na, nb);
            proof {
                assert(line@.subrange(colon + 1, line.len() as int) =~= line@.skip(colon + 1));
                assert(line@.subrange(0, colon as int) =~= line@.take(colon as int));
            }
            let ghost before = crate::scanner::pair_views(statuses@);
            statuses.push((name, code));
            assert(crate::scanner::pair_views(statuses@) =~= before.push(
                (trimmed(line@.take(colon as int)), trimmed(line@.skip(colon + 1))),
            ));
        }
        i += 1;
    }
    assert(views(status_lines@).take(status_lines.len() as int) =~= views(status_lines@));
    statuses
}

/// Whether a job ended well: its code is `0`.
pub fn succeeded(code: &str) -> (r: bool)
    ensures
        r == (code@ == "0"@),
{
    same_text(code, "0")
}

/// The names that the status lines report as failed, in order.
pub open spec fn failed_names(lines: Seq<Seq<char>>) -> Seq<Seq<char>>
    decreases lines.len(),
{
    if lines.len() == 0 {
        Seq::empty()
    } else {
        let before = failed_names(lines.drop_last());
        if reports_failure(lines.last()) {
            before.push(status_name(lines.last())->0)
        } else {
            before
        }
    }
}

/// The jobs of a batch that failed, from what the status markers hold: the
/// output is cut at line feeds, after the white space around it is dropped,
/// and each line is `name:code`.
pub fn failed_jobs(output: &str) -> (failed: Vec<String>)
    ensures
        views(failed@) == failed_names(split_of(trimmed(output@), '\n')),
{
    let text = trim(output);
    let v = to_chars(text.as_str());
    assert(v@.skip(0) =~= v@);
    let status_lines = split_chars(&v, 0, '\n');
    let mut failed: Vec<String> = Vec::new();
    let mut i: usize = 0;
    while i < status_lines.len()
        invariant
            i <= status_lines.len(),
            views(failed@) == failed_names(views(status_lines@).take(i as int)),
        decreases status_lines.len() - i,
    {
        proof {
            let t = views(status_lines@).take(i + 1);
            assert(t.drop_last() =~= views(status_lines@).take(i as int));
            assert(t.last() == status_lines@[i as int]@);
        }
        let line = to_chars(status_lines[i].as_str());
        assert(line@.skip(0) =~= line@);
        let colon = index_of_from(&line, ':', 0);
        proof {
            lemma_find_char(line@, ':');
        }
        if colon < line.len() {
            let (a, b) = trim_bounds(&line, colon + 1, line.len());
            let code = from_chars_range(&line, a, b);
            proof {
                assert(line@.subrange(colon + 1, line.len() as int) =~= line@.skip(colon + 1));
            }
            if !same_text(code.as_str(), "0") {
                let (na, nb) = trim_bounds(&line, 0, colon);
                let name = from_chars_range(&line, na, nb);
                proof {
                    assert(line@.subrange(0, colon as int) =~= line@.take(colon as int));
                }
                let ghost before = views(failed@);
                failed.push(name);
                assert(views(failed@) =~= before.push(trimmed(line@.take(colon as int))));
            }
        }
        i += 1;
    }
    assert(views(status_lines@).take(status_lines.len() as int) =~= views(status_lines@));
    failed
}

} // verus!
