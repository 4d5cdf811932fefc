//! Line-oriented edits of the Postfix and Dovecot map files: removing the
//! entries of a key, and replacing or adding one.

use vstd::prelude::*;
use crate::text::{chars_of, has_prefix, starts_with_chars};

verus! {

/// The views of a list of lines.
pub open spec fn line_views(lines: Seq<String>) -> Seq<Seq<char>> {
    lines.map_values(|l: String| l@)
}

/// A line survives the removal of `prefix` entries: it is empty or does
/// not start with `prefix`.
pub open spec fn keeps_line(line: Seq<char>, prefix: Seq<char>) -> bool {
    line.len() == 0 || !has_prefix(line, prefix)
}

/// The lines kept when the entries starting with `prefix` are removed,
/// in their order.
pub open spec fn kept_lines(lines: Seq<Seq<char>>, prefix: Seq<char>) -> Seq<Seq<char>>
    decreases lines.len(),
{
    if lines.len() == 0 {
        Seq::empty()
    } else if keeps_line(lines.last(), prefix) {
        kept_lines(lines.drop_last(), prefix).push(lines.last())
    } else {
        kept_lines(lines.drop_last(), prefix)
    }
}

proof fn lemma_kept_len(lines: Seq<Seq<char>>, prefix: Seq<char>)
    ensures
        kept_lines(lines, prefix).len() <= lines.len(),
    decreases lines.len(),
{
    if lines.len() > 0 {
        lemma_kept_len(lines.drop_last(), prefix);
    }
}

/// Removes the non-empty lines that start with `prefix`; returns the lines
/// kept and how many were removed.
pub fn remove_lines_matching(lines: &Vec<String>, prefix: &str) -> (r: (Vec<String>, usize))
    ensures
        line_views(r.0@) == kept_lines(line_views(lines@), prefix@),
        r.1 == lines@.len() - kept_lines(line_views(lines@), prefix@).len(),
{
    let p = chars_of(prefix);
    let mut out: Vec<String> = Vec::new();
    let mut i: usize = 0;
    let ghost lv = line_views(lines@);
    while i < lines.len()
        invariant
            i <= lines@.len(),
            lv == line_views(lines@),
            p@ == prefix@,
            line_views(out@) == kept_lines(lv.take(i as int), prefix@),
        decreases lines@.len() - i,
    {
        assert(lv.take(i + 1).drop_last() =~= lv.take(i as int));
        assert(lv.take(i + 1).last() == lines@[i as int]@);
        let lc = chars_of(lines[i].as_str());
        if lc.len() == 0 || !starts_with_chars(&lc, &p) {
            let ghost before = out@;
            out.push(lines[i].clone());
            assert(line_views(out@) =~= line_views(before).push(lines@[i as int]@));
        }
        i = i + 1;
    }
    assert(lv.take(lines@.len() as int) =~= lv);
    proof {
        lemma_kept_len(lv, prefix@);
    }
    let removed = lines.len() - out.len();
    (out, removed)
}

/// The index of the first line starting with `prefix` at or after `from`,
/// or `lines.len()` when there is none.
pub open spec fn first_with_prefix(lines: Seq<Seq<char>>, prefix: Seq<char>, from: int) -> int
    decreases lines.len() - from,
{
    if from >= lines.len() {
        lines.len() as int
    } else if has_prefix(lines[from], prefix) {
        from
    } else {
        first_with_prefix(lines, prefix, from + 1)
    }
}

/// `lines` with the first line starting with `prefix` replaced by
/// `new_line`, or with `new_line` added at the end when none does.
pub open spec fn upserted(lines: Seq<Seq<char>>, prefix: Seq<char>, new_line: Seq<char>) -> Seq<
    Seq<char>,
> {
    let k = first_with_prefix(lines, prefix, 0);
    if k < lines.len() {
        lines.update(k, new_line)
    } else {
        lines.push(new_line)
    }
}

proof fn lemma_first_with_prefix_bounds(lines: Seq<Seq<char>>, prefix: Seq<char>, from: int)
    requires
        0 <= from,
    ensures
        from <= first_with_prefix(lines, prefix, from) <= lines.len() || (from > lines.len()
            && first_with_prefix(lines, prefix, from) == lines.len()),
        first_with_prefix(lines, prefix, from) < lines.len() ==> has_prefix(
            lines[first_with_prefix(lines, prefix, from)],
            prefix,
        ),
        forall|j: int|
            from <= j < first_with_prefix(lines, prefix, from) ==> !has_prefix(
                #[trigger] lines[j],
                prefix,
            ),
    decreases lines.len() - from,
{
    if from < lines.len() && !has_prefix(lines[from], prefix) {
        lemma_first_with_prefix_bounds(lines, prefix, from + 1);
    }
}

/// Replaces the first line that starts with `prefix` by `new_line`, or
/// appends `new_line` when no line does.
pub fn upsert_line(input: Vec<String>, prefix: &str, new_line: &str) -> (r: Vec<String>)
    ensures
        line_views(r@) == upserted(line_views(input@), prefix@, new_line@),
{
    let p = chars_of(prefix);
    let mut lines = input;
    let ghost lv = line_views(lines@);
    let mut i: usize = 0;
    while i < lines.len()
        invariant
            i <= lines@.len(),
            lv == line_views(lines@),
            lv == line_views(input@),
            p@ == prefix@,
            first_with_prefix(lv, prefix@, 0) == first_with_prefix(lv, prefix@, i as int),
        decreases lines@.len() - i,
    {
        let lc = chars_of(lines[i].as_str());
        if starts_with_chars(&lc, &p) {
            assert(lv[i as int] == lc@);
            assert(first_with_prefix(lv, prefix@, i as int) == i);
            lines.set(i, String::from_str(new_line));
            assert(line_views(lines@) =~= lv.update(i as int, new_line@));
            return lines;
        }
        assert(lv[i as int] == lc@);
        i = i + 1;
    }
    lines.push(String::from_str(new_line));
    assert(line_views(lines@) =~= lv.push(new_line@));
    lines
}

/// After an upsert, the line is present, and the first line starting with
/// the prefix is that line when the line itself starts with the prefix.
pub proof fn lemma_upsert_present(lines: Seq<Seq<char>>, prefix: Seq<char>, new_line: Seq<char>)
    ensures
        upserted(lines, prefix, new_line).contains(new_line),
        upserted(lines, prefix, new_line).len() == lines.len() || upserted(
            lines,
            prefix,
            new_line,
        ).len() == lines.len() + 1,
{
    lemma_first_with_prefix_bounds(lines, prefix, 0);
    let k = first_with_prefix(lines, prefix, 0);
    let u = upserted(lines, prefix, new_line);
    if k < lines.len() {
        assert(u[k] == new_line);
    } else {
        assert(u[lines.len() as int] == new_line);
    }
}

/// Upserting the same line twice is the same as upserting it once, when the
/// line starts with the prefix it is keyed by.
pub proof fn lemma_upsert_idempotent(lines: Seq<Seq<char>>, prefix: Seq<char>, new_line: Seq<char>)
    requires
        has_prefix(new_line, prefix),
    ensures
        upserted(upserted(lines, prefix, new_line), prefix, new_line) == upserted(
            lines,
            prefix,
            new_line,
        ),
{
    lemma_first_with_prefix_bounds(lines, prefix, 0);
    let k = first_with_prefix(lines, prefix, 0);
    let u = upserted(lines, prefix, new_line);
    lemma_first_with_prefix_bounds(u, prefix, 0);
    let k2 = first_with_prefix(u, prefix, 0);
    if k < lines.len() {
        assert(u[k] == new_line);
        if k2 < k {
            assert(u[k2] == lines[k2]);
        }
        if k2 > k {
            assert(!has_prefix(u[k], prefix));
        }
        assert(k2 == k);
        assert(u.update(k, new_line) =~= u);
    } else {
        assert(u[lines.len() as int] == new_line);
        if k2 < lines.len() {
            assert(u[k2] == lines[k2]);
        }
        if k2 > lines.len() {
            assert(!has_prefix(u[lines.len() as int], prefix));
        }
        assert(k2 == lines.len());
        assert(u.update(k2, new_line) =~= u);
    }
}

/// After removing the entries of a prefix, no non-empty line starts with it.
pub proof fn lemma_removed_prefix_absent(lines: Seq<Seq<char>>, prefix: Seq<char>)
    ensures
        forall|i: int|
            0 <= i < kept_lines(lines, prefix).len() ==> keeps_line(
                #[trigger] kept_lines(lines, prefix)[i],
                prefix,
            ),
    decreases lines.len(),
{
    if lines.len() > 0 {
        lemma_removed_prefix_absent(lines.drop_last(), prefix);
        let k = kept_lines(lines.drop_last(), prefix);
        if keeps_line(lines.last(), prefix) {
            assert forall|i: int|
                0 <= i < kept_lines(lines, prefix).len() implies keeps_line(
                #[trigger] kept_lines(lines, prefix)[i],
                prefix,
            ) by {
                if i < k.len() {
                    assert(kept_lines(lines, prefix)[i] == k[i]);
                }
            }
        }
    }
}

} // verus!
