//! Server metrics read from `/proc`: memory, disk and network counters, and
//! the numbers printed by `du` and `wc`.

use vstd::prelude::*;
use crate::text::{
    has_prefix, lines_chars, lines_of, nth_word_u64, starts_with_chars, word_u64_or_zero, words,
    words_chars, is_digit, parse_unsigned, parse_u64_bounded, chars_of, trim, trim_chars,
};

verus! {

/// The value of a `/proc/meminfo`-style line: its second word as a number
/// (kB), or 0.
pub open spec fn kb_line_value(line: Seq<char>) -> nat {
    word_u64_or_zero(line, 1)
}

/// Reads the number of kB on a `/proc/meminfo` line, or 0 when there is
/// none.
pub fn parse_kb_line(line: &str) -> (r: u64)
    ensures
        r == kb_line_value(line@),
{
    let v = chars_of(line);
    nth_word_u64(&v, 1)
}

/// `MemTotal` and `MemAvailable` (kB) after reading `lines`: the last
/// line starting with each key sets it; both start at 0.
pub open spec fn meminfo_state(lines: Seq<Seq<char>>) -> (nat, nat)
    decreases lines.len(),
{
    if lines.len() == 0 {
        (0, 0)
    } else {
        let prev = meminfo_state(lines.drop_last());
        let line = lines.last();
        if has_prefix(line, "MemTotal:"@) {
            (kb_line_value(line), prev.1)
        } else if has_prefix(line, "MemAvailable:"@) {
            (prev.0, kb_line_value(line))
        } else {
            prev
        }
    }
}

/// Memory in use and in total, in bytes, from the text of `/proc/meminfo`:
/// total minus available (never below 0), both times 1024.
pub open spec fn meminfo_of(content: Seq<char>) -> (int, int) {
    let st = meminfo_state(lines_of(content));
    let used: int = if st.0 >= st.1 { st.0 - st.1 } else { 0 };
    (used * 1024, st.0 as int * 1024)
}

/// Memory in use and in total (bytes) from the text of `/proc/meminfo`;
/// the kB figures it holds must fit in a `u64` once multiplied by 1024.
pub fn meminfo_from(content: &str) -> (r: (u64, u64))
    requires
        meminfo_state(lines_of(content@)).0 * 1024 <= u64::MAX,
    ensures
        r.0 == meminfo_of(content@).0,
        r.1 == meminfo_of(content@).1,
{
    let cv = chars_of(content);
    let ls = lines_chars(&cv);
    let ghost lv = lines_of(content@);
    let total_key = chars_of("MemTotal:");
    let avail_key = chars_of("MemAvailable:");
    let mut total: u64 = 0;
    let mut available: u64 = 0;
    let mut i: usize = 0;
    while i < ls.len()
        invariant
            ls@.len() == lv.len(),
            forall|k: int| 0 <= k < ls@.len() ==> #[trigger] ls@[k]@ == lv[k],
            total_key@ == "MemTotal:"@,
            avail_key@ == "MemAvailable:"@,
            i <= ls@.len(),
            (total as nat, available as nat) == meminfo_state(lv.take(i as int)),
        decreases ls@.len() - i,
    {
        assert(lv.take(i + 1).drop_last() =~= lv.take(i as int));
        assert(lv.take(i + 1).last() == ls@[i as int]@);
        let line = &ls[i];
        if starts_with_chars(line, &total_key) {
            total = nth_word_u64(line, 1);
        } else if starts_with_chars(line, &avail_key) {
            available = nth_word_u64(line, 1);
        }
        i = i + 1;
    }
    assert(lv.take(lv.len() as int) =~= lv);
    let used = total.saturating_sub(available);
    (used * 1024, total * 1024)
}

/// The first word of `s` as a `u64`, or 0 (what the agent takes from the
/// output of `du -sb`).
pub fn first_word_u64(s: &str) -> (r: u64)
    ensures
        r == word_u64_or_zero(s@, 0),
{
    let v = chars_of(s);
    nth_word_u64(&v, 0)
}

/// Whether a device name from `/proc/diskstats` is a whole disk: an `sd*`
/// or `vd*` device whose name does not end in a digit (`sda`, not `sda1`),
/// or an NVMe namespace `nvme*` with no `p` partition part (`nvme0n1`, not
/// `nvme0n1p1`).
pub open spec fn is_whole_disk(name: Seq<char>) -> bool {
    ((has_prefix(name, "sd"@) || has_prefix(name, "vd"@)) && !(name.len() > 0 && is_digit(name.last())))
        || (has_prefix(name, "nvme"@) && !name.skip(4).contains('p'))
}

/// Sectors read and written (summed with saturation) over the whole disks
/// among `lines` of `/proc/diskstats`; lines of fewer than 14 words are
/// skipped.
pub open spec fn diskstats_state(lines: Seq<Seq<char>>) -> (nat, nat)
    decreases lines.len(),
{
    if lines.len() == 0 {
        (0, 0)
    } else {
        let prev = diskstats_state(lines.drop_last());
        let w = words(lines.last());
        if w.len() >= 14 && is_whole_disk(w[2]) {
            (
                sat_add(prev.0, word_u64_or_zero(lines.last(), 5)),
                sat_add(prev.1, word_u64_or_zero(lines.last(), 9)),
            )
        } else {
            prev
        }
    }
}

/// `a + b`, saturating at `u64::MAX`.
pub open spec fn sat_add(a: nat, b: nat) -> nat {
    if a + b > u64::MAX {
        u64::MAX as nat
    } else {
        a + b
    }
}

/// Whether a device name is a whole disk.
fn whole_disk(name: &Vec<char>) -> (r: bool)
    ensures
        r == is_whole_disk(name@),
{
    proof {
        reveal_strlit("nvme");
    }
    let sd = chars_of("sd");
    let vd = chars_of("vd");
    let nvme = chars_of("nvme");
    let n = name.len();
    if (starts_with_chars(name, &sd) || starts_with_chars(name, &vd)) && !(n > 0 && '0' <= name[n - 1]
        && name[n - 1] <= '9') {
        return true;
    }
    if !starts_with_chars(name, &nvme) {
        return false;
    }
    let mut i: usize = 4;
    while i < n
        invariant
            4 <= i <= n,
            n == name@.len(),
            forall|k: int| 4 <= k < i ==> name@[k] != 'p',
            !((has_prefix(name@, "sd"@) || has_prefix(name@, "vd"@)) && !(name@.len() > 0 && is_digit(
                name@.last(),
            ))),
        decreases n - i,
    {
        if name[i] == 'p' {
            assert(name@.skip(4)[i - 4] == 'p');
            assert(name@.skip(4).contains('p'));
            return false;
        }
        i = i + 1;
    }
    assert forall|k: int| 0 <= k < name@.skip(4).len() implies name@.skip(4)[k] != 'p' by {
        assert(name@.skip(4)[k] == name@[k + 4]);
    }
    true
}

/// Kilobytes read and written on whole disks, from the text of
/// `/proc/diskstats` (512-byte sectors, halved).
pub fn diskstats_from(content: &str) -> (r: (u64, u64))
    ensures
        r.0 == diskstats_state(lines_of(content@)).0 / 2,
        r.1 == diskstats_state(lines_of(content@)).1 / 2,
{
    let cv = chars_of(content);
    let ls = lines_chars(&cv);
    let ghost lv = lines_of(content@);
    let mut rd: u64 = 0;
    let mut wr: u64 = 0;
    let mut i: usize = 0;
    while i < ls.len()
        invariant
            ls@.len() == lv.len(),
            forall|k: int| 0 <= k < ls@.len() ==> #[trigger] ls@[k]@ == lv[k],
            i <= ls@.len(),
            (rd as nat, wr as nat) == diskstats_state(lv.take(i as int)),
        decreases ls@.len() - i,
    {
        assert(lv.take(i + 1).drop_last() =~= lv.take(i as int));
        assert(lv.take(i + 1).last() == ls@[i as int]@);
        let line = &ls[i];
        let w = words_chars(line);
        if w.len() >= 14 && whole_disk(&w[2]) {
            rd = rd.saturating_add(nth_word_u64(line, 5));
            wr = wr.saturating_add(nth_word_u64(line, 9));
        }
        i = i + 1;
    }
    assert(lv.take(lv.len() as int) =~= lv);
    (rd / 2, wr / 2)
}

/// Bytes received and sent (summed with saturation) over `lines` of
/// `/proc/net/dev` after its two header lines, loopback excluded, lines of
/// fewer than 10 words skipped.
pub open spec fn net_dev_state(lines: Seq<Seq<char>>) -> (nat, nat)
    decreases lines.len(),
{
    if lines.len() == 0 {
        (0, 0)
    } else {
        let prev = net_dev_state(lines.drop_last());
        let t = trim(lines.last());
        if !has_prefix(t, "lo:"@) && words(t).len() >= 10 {
            (sat_add(prev.0, word_u64_or_zero(t, 1)), sat_add(prev.1, word_u64_or_zero(t, 9)))
        } else {
            prev
        }
    }
}

/// The lines after the first two (none when there are fewer).
pub open spec fn after_headers(lines: Seq<Seq<char>>) -> Seq<Seq<char>> {
    if lines.len() >= 2 {
        lines.skip(2)
    } else {
        Seq::empty()
    }
}

/// Kilobytes received and sent on all interfaces but loopback, from the
/// text of `/proc/net/dev`.
pub fn net_dev_from(content: &str) -> (r: (u64, u64))
    ensures
        r.0 == net_dev_state(after_headers(lines_of(content@))).0 / 1024,
        r.1 == net_dev_state(after_headers(lines_of(content@))).1 / 1024,
{
    let cv = chars_of(content);
    let ls = lines_chars(&cv);
    let ghost lv = after_headers(lines_of(content@));
    let lo = chars_of("lo:");
    let mut rx: u64 = 0;
    let mut tx: u64 = 0;
    let mut i: usize = 2;
    if ls.len() < 2 {
        assert(lv.take(0) =~= lv);
        return (0, 0);
    }
    assert(lv =~= lines_of(content@).skip(2));
    while i < ls.len()
        invariant
            ls@.len() == lines_of(content@).len(),
            ls@.len() >= 2,
            lv == lines_of(content@).skip(2),
            forall|k: int| 0 <= k < ls@.len() ==> #[trigger] ls@[k]@ == lines_of(content@)[k],
            lo@ == "lo:"@,
            2 <= i <= ls@.len(),
            (rx as nat, tx as nat) == net_dev_state(lv.take(i - 2)),
        decreases ls@.len() - i,
    {
        assert(lv.take(i - 2 + 1).drop_last() =~= lv.take(i - 2));
        assert(lv.take(i - 2 + 1).last() == ls@[i as int]@);
        let t = trim_chars(&ls[i]);
        if !starts_with_chars(&t, &lo) {
            let w = words_chars(&t);
            if w.len() >= 10 {
                rx = rx.saturating_add(nth_word_u64(&t, 1));
                tx = tx.saturating_add(nth_word_u64(&t, 9));
            }
        }
        i = i + 1;
    }
    assert(lv.take(lv.len() as int) =~= lv);
    (rx / 1024, tx / 1024)
}

} // verus!
