//! Host statistics shown on the settings page, read from `/proc` texts.

use vstd::prelude::*;
use crate::text::{
    chars_of, lines_chars, lines_of, parse_u64_bounded, parse_unsigned, split_chars, split_on, vec_eq,
    word_u64_or_zero, words, words_chars,
};

verus! {

/// The first word of a line, or nothing.
pub open spec fn first_word_of(line: Seq<char>) -> Seq<char> {
    if words(line).len() > 0 {
        words(line)[0]
    } else {
        Seq::empty()
    }
}

/// `MemTotal`, `MemFree` and `MemAvailable` (kB) after reading `lines`: a
/// line whose first word is the key sets it to its second word's number (0
/// when there is none); later lines win; all start at 0.
pub open spec fn mem_state(lines: Seq<Seq<char>>) -> (nat, nat, nat)
    decreases lines.len(),
{
    if lines.len() == 0 {
        (0, 0, 0)
    } else {
        let p = mem_state(lines.drop_last());
        let key = first_word_of(lines.last());
        let v = word_u64_or_zero(lines.last(), 1);
        if key == "MemTotal:"@ {
            (v, p.1, p.2)
        } else if key == "MemFree:"@ {
            (p.0, v, p.2)
        } else if key == "MemAvailable:"@ {
            (p.0, p.1, v)
        } else {
            p
        }
    }
}

/// Memory in MB from the text of `/proc/meminfo`: total, used (total less
/// available, never below 0) and free.
pub open spec fn host_memory_of(content: Seq<char>) -> (nat, nat, nat) {
    let st = mem_state(lines_of(content));
    let total = st.0 / 1024;
    let avail = st.2 / 1024;
    (total, if total >= avail { (total - avail) as nat } else { 0 }, st.1 / 1024)
}

fn word_is(w: &Vec<char>, lit: &str) -> (r: bool)
    ensures
        r == (w@ == lit@),
{
    let l = chars_of(lit);
    vec_eq(w, &l)
}

/// Memory in MB (total, used, free) from the text of `/proc/meminfo`.
pub fn host_memory_mb(content: &str) -> (r: (u64, u64, u64))
    ensures
        r.0 == host_memory_of(content@).0,
        r.1 == host_memory_of(content@).1,
        r.2 == host_memory_of(content@).2,
{
    let cv = chars_of(content);
    let ls = lines_chars(&cv);
    let ghost lv = lines_of(content@);
    let mut total: u64 = 0;
    let mut free: u64 = 0;
    let mut avail: u64 = 0;
    let mut i: usize = 0;
    while i < ls.len()
        invariant
            i <= ls@.len(),
            ls@.len() == lv.len(),
            lv == lines_of(content@),
            forall|k: int| 0 <= k < ls@.len() ==> #[trigger] ls@[k]@ == lv[k],
            mem_state(lv.take(i as int)) == (total as nat, free as nat, avail as nat),
        decreases ls@.len() - i,
    {
        let line = &ls[i];
        assert(lv.take(i + 1).drop_last() =~= lv.take(i as int));
        assert(lv.take(i + 1).last() == line@);
        let w = words_chars(line);
        let v = crate::text::nth_word_u64(line, 1);
        let ghost p = mem_state(lv.take(i as int));
        let ghost key = first_word_of(line@);
        assert(mem_state(lv.take(i + 1)) == (if key == "MemTotal:"@ {
            (v as nat, p.1, p.2)
        } else if key == "MemFree:"@ {
            (p.0, v as nat, p.2)
        } else if key == "MemAvailable:"@ {
            (p.0, p.1, v as nat)
        } else {
            p
        }));
        if w.len() > 0 {
            assert(key == w@[0]@);
            if word_is(&w[0], "MemTotal:") {
                total = v;
            } else if word_is(&w[0], "MemFree:") {
                free = v;
            } else if word_is(&w[0], "MemAvailable:") {
                avail = v;
            }
        } else {
            proof {
                reveal_strlit("MemTotal:");
                reveal_strlit("MemFree:");
                reveal_strlit("MemAvailable:");
                assert("MemTotal:"@.len() > 0);
                assert("MemFree:"@.len() > 0);
                assert("MemAvailable:"@.len() > 0);
            }
            assert(key.len() == 0);
        }
        i = i + 1;
    }
    assert(lv.take(ls@.len() as int) =~= lv);
    let total_mb = total / 1024;
    let avail_mb = avail / 1024;
    let used_mb = if total_mb >= avail_mb { total_mb - avail_mb } else { 0 };
    (total_mb, used_mb, free / 1024)
}

/// The numbers among some words, in order: the words that parse as a
/// `u64`.
pub open spec fn parsed_numbers(ws: Seq<Seq<char>>) -> Seq<nat>
    decreases ws.len(),
{
    if ws.len() == 0 {
        Seq::empty()
    } else {
        match parse_unsigned(ws.last(), u64::MAX as nat) {
            Some(v) => parsed_numbers(ws.drop_last()).push(v),
            None => parsed_numbers(ws.drop_last()),
        }
    }
}

/// The sum of some numbers.
pub open spec fn sum_of(s: Seq<nat>) -> nat
    decreases s.len(),
{
    if s.len() == 0 {
        0
    } else {
        sum_of(s.drop_last()) + s.last()
    }
}

/// The CPU time fields of `/proc/stat`: the numbers among the eight words
/// after the first on its first line.
pub open spec fn cpu_fields(content: Seq<char>) -> Seq<nat> {
    let ls = lines_of(content);
    let first = if ls.len() > 0 { ls[0] } else { Seq::empty() };
    let w = words(first);
    let rest = if w.len() > 0 { w.drop_first() } else { w };
    parsed_numbers(if rest.len() > 8 { rest.take(8) } else { rest })
}

/// The field at `i`, or 0.
pub open spec fn field_or_zero(s: Seq<nat>, i: int) -> nat {
    if 0 <= i < s.len() {
        s[i]
    } else {
        0
    }
}

/// Total and idle (idle plus iowait) CPU time from the text of `/proc/stat`,
/// whose first-line figures must add up within a `u64`.
pub fn cpu_times(content: &str) -> (r: (u64, u64))
    requires
        sum_of(cpu_fields(content@)) <= u64::MAX,
    ensures
        r.0 == sum_of(cpu_fields(content@)),
        r.1 == field_or_zero(cpu_fields(content@), 3) + field_or_zero(cpu_fields(content@), 4),
{
    let cv = chars_of(content);
    let ls = lines_chars(&cv);
    let ghost lv = lines_of(content@);
    let empty: Vec<char> = Vec::new();
    let first: &Vec<char> = if ls.len() > 0 { &ls[0] } else { &empty };
    let w = words_chars(first);
    let ghost ws = words(first@);
    let ghost rest = if ws.len() > 0 { ws.drop_first() } else { ws };
    let ghost picked = if rest.len() > 8 { rest.take(8) } else { rest };
    let start: usize = if w.len() > 0 { 1 } else { 0 };
    let end: usize = if w.len() > 9 { 9 } else { w.len() };
    let mut nums: Vec<u64> = Vec::new();
    let mut j: usize = start;
    assert(picked =~= ws.subrange(start as int, end as int));
    proof {
        assert(ws.subrange(start as int, start as int) =~= Seq::<Seq<char>>::empty());
    }
    while j < end
        invariant
            start <= j <= end,
            end <= w@.len(),
            w@.len() == ws.len(),
            forall|k: int| 0 <= k < w@.len() ==> #[trigger] w@[k]@ == ws[k],
            nums@.len() == parsed_numbers(ws.subrange(start as int, j as int)).len(),
            forall|k: int| 0 <= k < nums@.len() ==> nums@[k] as nat == #[trigger] parsed_numbers(ws.subrange(start as int, j as int))[k],
        decreases end - j,
    {
        assert(ws.subrange(start as int, j + 1).drop_last() =~= ws.subrange(start as int, j as int));
        assert(ws.subrange(start as int, j + 1).last() == w@[j as int]@);
        match parse_u64_bounded(&w[j], u64::MAX) {
            Some(v) => {
                nums.push(v);
            },
            None => {},
        }
        j = j + 1;
    }
    let ghost fields = parsed_numbers(picked);
    assert(fields == cpu_fields(content@));
    let mut total: u64 = 0;
    let mut k: usize = 0;
    while k < nums.len()
        invariant
            k <= nums@.len(),
            nums@.len() == fields.len(),
            forall|q: int| 0 <= q < nums@.len() ==> nums@[q] as nat == #[trigger] fields[q],
            sum_of(fields) <= u64::MAX,
            total == sum_of(fields.take(k as int)),
        decreases nums@.len() - k,
    {
        assert(fields.take(k + 1).drop_last() =~= fields.take(k as int));
        proof {
            lemma_sum_prefix(fields, k as int + 1);
        }
        total = total + nums[k];
        k = k + 1;
    }
    assert(fields.take(nums@.len() as int) =~= fields);
    let a: u64 = if nums.len() > 3 { nums[3] } else { 0 };
    let b: u64 = if nums.len() > 4 { nums[4] } else { 0 };
    proof {
        if nums@.len() > 4 {
            lemma_sum_prefix(fields, 5);
            lemma_sum_prefix(fields, 4);
            assert(fields.take(5).drop_last() =~= fields.take(4));
            assert(fields.take(4).drop_last() =~= fields.take(3));
            lemma_sum_prefix(fields, 3);
        }
    }
    (total, a + b)
}

/// A prefix sums to no more than the whole.
proof fn lemma_sum_prefix(s: Seq<nat>, n: int)
    requires
        0 <= n <= s.len(),
    ensures
        sum_of(s.take(n)) <= sum_of(s),
    decreases s.len() - n,
{
    if n < s.len() {
        lemma_sum_prefix(s, n + 1);
        assert(s.take(n + 1).drop_last() =~= s.take(n));
    } else {
        assert(s.take(n) =~= s);
    }
}

/// The number of processes from the text of `/proc/loadavg`: the part after
/// the `/` of its fourth field, or 0.
pub open spec fn process_count_of(content: Seq<char>) -> nat {
    let w = words(content);
    let field = if w.len() > 3 { w[3] } else { "0/0"@ };
    let parts = split_on(field, '/');
    if parts.len() > 1 {
        match parse_unsigned(parts[1], u32::MAX as nat) {
            Some(n) => n,
            None => 0,
        }
    } else {
        0
    }
}

/// The number of processes the system runs, from `/proc/loadavg`.
pub fn process_count(content: &str) -> (r: u32)
    ensures
        r == process_count_of(content@),
{
    let cv = chars_of(content);
    let w = words_chars(&cv);
    let field: Vec<char> = if w.len() > 3 { w[3].clone() } else { chars_of("0/0") };
    assert(field@ == (if words(content@).len() > 3 { words(content@)[3] } else { "0/0"@ }));
    let parts = split_chars(&field, '/');
    if parts.len() > 1 {
        match parse_u64_bounded(&parts[1], u32::MAX as u64) {
            Some(n) => n as u32,
            None => 0,
        }
    } else {
        0
    }
}

} // verus!
