//! The Postfix mail queue as `mailq` prints it.

use vstd::prelude::*;
use crate::mail::postfix::is_ascii_alnum;
use crate::patterns::{regex_captures, regex_captures_of};
use crate::text::{
    chars_of, has_prefix, lines_chars, lines_of, parse_unsigned, parse_u64_bounded,
    starts_with_chars, string_from_chars, trim, trim_chars,
};

verus! {

/// The pattern of the first line of a queue entry: queue id, size, arrival
/// time and sender.
pub const ENTRY_PATTERN: &'static str = "^([0-9A-F]+)\\s+(\\S+)\\s+(\\w{3}\\s+\\w{3}\\s+\\d+\\s+\\d{2}:\\d{2}:\\d{2})\\s+(\\S+)";

/// One message in the queue.
#[derive(Debug)]
pub struct QueueEntry {
    pub id: String,
    pub size: u64,
    pub arrival_time: String,
    pub sender: String,
    pub recipients: Vec<String>,
    pub reason: Option<String>,
}

/// A queue entry as plain values.
pub struct EntryView {
    pub id: Seq<char>,
    pub size: nat,
    pub arrival_time: Seq<char>,
    pub sender: Seq<char>,
    pub recipients: Seq<Seq<char>>,
    pub reason: Option<Seq<char>>,
}

/// The plain values of a queue entry.
pub open spec fn entry_view(e: QueueEntry) -> EntryView {
    EntryView {
        id: e.id@,
        size: e.size as nat,
        arrival_time: e.arrival_time@,
        sender: e.sender@,
        recipients: e.recipients@.map_values(|r: String| r@),
        reason: match e.reason {
            Some(r) => Some(r@),
            None => None,
        },
    }
}

/// `s` without its leading `c`s (`str::trim_start_matches` with a char).
pub open spec fn strip_leading(s: Seq<char>, c: char) -> Seq<char>
    decreases s.len(),
{
    if s.len() > 0 && s[0] == c {
        strip_leading(s.drop_first(), c)
    } else {
        s
    }
}

/// The entry started by a line whose pattern groups are `caps`: the id
/// without leading `!`, the size (0 when it is not a number), the arrival
/// time and the sender; no entry when the groups are missing.
pub open spec fn entry_from_captures(caps: Option<Seq<Seq<char>>>) -> Option<EntryView> {
    match caps {
        Some(c) => if c.len() >= 5 {
            Some(
                EntryView {
                    id: strip_leading(c[1], '!'),
                    size: match parse_unsigned(c[2], u64::MAX as nat) {
                        Some(n) => n,
                        None => 0,
                    },
                    arrival_time: c[3],
                    sender: c[4],
                    recipients: Seq::empty(),
                    reason: None,
                },
            )
        } else {
            None
        },
        None => None,
    }
}

/// The state of the parse: the entries done and the one being read.
pub struct MailqState {
    pub done: Seq<EntryView>,
    pub current: Option<EntryView>,
}

/// The entries done plus the one being read, if any.
pub open spec fn finish(st: MailqState) -> Seq<EntryView> {
    match st.current {
        Some(e) => st.done.push(e),
        None => st.done,
    }
}

/// A line `mailq` prints that carries nothing: a header or ruler line
/// starting with `-`, an empty line, or the empty-queue notice.
pub open spec fn is_noise(line: Seq<char>) -> bool {
    has_prefix(line, "-"@) || line.len() == 0 || has_prefix(line, "Mail queue is empty"@)
}

/// The parse after one more line: a line starting with a letter or digit
/// closes the current entry and starts a new one (when it matches the
/// entry pattern); any other line adds a recipient (when it holds `@`) or
/// the reason (when not empty) to the current entry.
pub open spec fn mailq_step(st: MailqState, line: Seq<char>) -> MailqState {
    if is_noise(line) {
        st
    } else if is_ascii_alnum(line[0]) {
        MailqState {
            done: finish(st),
            current: entry_from_captures(regex_captures_of(ENTRY_PATTERN@, line)),
        }
    } else {
        match st.current {
            Some(e) => {
                let t = trim(line);
                if t.contains('@') {
                    MailqState {
                        done: st.done,
                        current: Some(EntryView { recipients: e.recipients.push(t), ..e }),
                    }
                } else if t.len() > 0 {
                    MailqState { done: st.done, current: Some(EntryView { reason: Some(t), ..e }) }
                } else {
                    st
                }
            },
            None => st,
        }
    }
}

/// The parse after all of `lines`.
pub open spec fn mailq_state(lines: Seq<Seq<char>>) -> MailqState
    decreases lines.len(),
{
    if lines.len() == 0 {
        MailqState { done: Seq::empty(), current: None }
    } else {
        mailq_step(mailq_state(lines.drop_last()), lines.last())
    }
}

/// The entries of a `mailq` listing.
pub open spec fn mailq_entries(output: Seq<char>) -> Seq<EntryView> {
    finish(mailq_state(lines_of(output)))
}

/// A recipient line of `mailq`: indented (it starts with neither a letter,
/// a digit nor `-`) and holding `@` once trimmed.
pub open spec fn is_recipient_line(line: Seq<char>) -> bool {
    line.len() > 0 && line[0] != '-' && !is_ascii_alnum(line[0]) && trim(line).contains('@')
}

/// Recipient lines add up: each recipient line that follows an entry adds
/// its trimmed text to that entry's recipients, after the ones before it,
/// and changes nothing else.
pub proof fn lemma_recipient_lines_append(lines: Seq<Seq<char>>, extra: Seq<Seq<char>>)
    requires
        mailq_state(lines).current is Some,
        forall|k: int| 0 <= k < extra.len() ==> is_recipient_line(#[trigger] extra[k]),
    ensures
        mailq_state(lines + extra).done == mailq_state(lines).done,
        mailq_state(lines + extra).current matches Some(e) && {
            let e0 = mailq_state(lines).current->Some_0;
            &&& e.recipients == e0.recipients + extra.map_values(|l: Seq<char>| trim(l))
            &&& e.id == e0.id
            &&& e.size == e0.size
            &&& e.arrival_time == e0.arrival_time
            &&& e.sender == e0.sender
            &&& e.reason == e0.reason
        },
    decreases extra.len(),
{
    if extra.len() == 0 {
        assert(lines + extra =~= lines);
        assert(extra.map_values(|l: Seq<char>| trim(l)) =~= Seq::<Seq<char>>::empty());
        let e0 = mailq_state(lines).current->Some_0;
        assert(e0.recipients + Seq::<Seq<char>>::empty() =~= e0.recipients);
    } else {
        let init = extra.drop_last();
        let last = extra.last();
        assert forall|k: int| 0 <= k < init.len() implies is_recipient_line(#[trigger] init[k]) by {
            assert(init[k] == extra[k]);
        }
        lemma_recipient_lines_append(lines, init);
        assert((lines + extra).drop_last() =~= lines + init);
        assert((lines + extra).last() == last);
        assert(is_recipient_line(extra[extra.len() - 1]));
        reveal_strlit("-");
        reveal_strlit("Mail queue is empty");
        assert(!has_prefix(last, "-"@)) by {
            if has_prefix(last, "-"@) {
                assert(last.subrange(0, 1)[0] == last[0]);
            }
        }
        assert(!has_prefix(last, "Mail queue is empty"@)) by {
            if has_prefix(last, "Mail queue is empty"@) {
                assert(last.subrange(0, 19)[0] == last[0]);
            }
        }
        let e0 = mailq_state(lines).current->Some_0;
        assert(extra.map_values(|l: Seq<char>| trim(l)) =~= init.map_values(|l: Seq<char>| trim(l)).push(trim(last)));
        assert(e0.recipients + extra.map_values(|l: Seq<char>| trim(l)) =~= (e0.recipients + init.map_values(
            |l: Seq<char>| trim(l),
        )).push(trim(last)));
    }
}

/// The recipients of an entry are exactly the recipient lines that follow
/// its entry line, trimmed and in order.
pub proof fn lemma_entry_recipients(prefix: Seq<Seq<char>>, entry_line: Seq<char>, extra: Seq<Seq<char>>)
    requires
        mailq_state(prefix.push(entry_line)).current is Some,
        entry_line.len() > 0,
        is_ascii_alnum(entry_line[0]),
        !has_prefix(entry_line, "Mail queue is empty"@),
        forall|k: int| 0 <= k < extra.len() ==> is_recipient_line(#[trigger] extra[k]),
    ensures
        mailq_state(prefix.push(entry_line) + extra).current matches Some(e) && e.recipients == extra.map_values(
            |l: Seq<char>| trim(l),
        ),
        extra.map_values(|l: Seq<char>| trim(l)).len() == extra.len(),
{
    reveal_strlit("-");
    assert(!has_prefix(entry_line, "-"@)) by {
        if has_prefix(entry_line, "-"@) {
            assert(entry_line.subrange(0, 1)[0] == entry_line[0]);
        }
    }
    assert(prefix.push(entry_line).drop_last() =~= prefix);
    assert(prefix.push(entry_line).last() == entry_line);
    lemma_recipient_lines_append(prefix.push(entry_line), extra);
    assert(Seq::<Seq<char>>::empty() + extra.map_values(|l: Seq<char>| trim(l)) =~= extra.map_values(
        |l: Seq<char>| trim(l),
    ));
}

/// A reason line: an indented line without `@` that is not blank once
/// trimmed. It gives the entry being read its reason, replacing an earlier
/// one, and changes nothing else.
pub proof fn lemma_reason_line(lines: Seq<Seq<char>>, line: Seq<char>)
    requires
        mailq_state(lines).current is Some,
        line.len() > 0,
        line[0] != '-',
        !is_ascii_alnum(line[0]),
        !trim(line).contains('@'),
        trim(line).len() > 0,
    ensures
        mailq_state(lines.push(line)).done == mailq_state(lines).done,
        mailq_state(lines.push(line)).current matches Some(e) && {
            let e0 = mailq_state(lines).current->Some_0;
            &&& e.reason == Some(trim(line))
            &&& e.recipients == e0.recipients
            &&& e.id == e0.id
            &&& e.sender == e0.sender
        },
{
    reveal_strlit("-");
    reveal_strlit("Mail queue is empty");
    assert(lines.push(line).drop_last() =~= lines);
    assert(!has_prefix(line, "-"@)) by {
        if has_prefix(line, "-"@) {
            assert(line.subrange(0, 1)[0] == line[0]);
        }
    }
    assert(!has_prefix(line, "Mail queue is empty"@)) by {
        if has_prefix(line, "Mail queue is empty"@) {
            assert(line.subrange(0, 19)[0] == line[0]);
        }
    }
}

/// A line starting with a letter or digit ends the entry being read: that
/// entry joins the finished ones, after them, and the line starts a new
/// entry (when it matches the entry pattern) with no recipients and no
/// reason yet.
pub proof fn lemma_entry_line(lines: Seq<Seq<char>>, line: Seq<char>)
    requires
        line.len() > 0,
        is_ascii_alnum(line[0]),
        !has_prefix(line, "Mail queue is empty"@),
    ensures
        mailq_state(lines.push(line)).done == match mailq_state(lines).current {
            Some(e) => mailq_state(lines).done.push(e),
            None => mailq_state(lines).done,
        },
        mailq_state(lines.push(line)).current matches Some(e) ==> e.recipients.len() == 0 && e.reason is None,
{
    reveal_strlit("-");
    assert(lines.push(line).drop_last() =~= lines);
    assert(!has_prefix(line, "-"@)) by {
        if has_prefix(line, "-"@) {
            assert(line.subrange(0, 1)[0] == line[0]);
        }
    }
}

/// Rulers, headers, blank lines and the empty-queue notice change nothing.
pub proof fn lemma_noise_line(lines: Seq<Seq<char>>, line: Seq<char>)
    requires
        line.len() == 0 || line[0] == '-' || has_prefix(line, "Mail queue is empty"@),
    ensures
        mailq_state(lines.push(line)) == mailq_state(lines),
{
    reveal_strlit("-");
    assert(lines.push(line).drop_last() =~= lines);
    if line.len() > 0 && line[0] == '-' {
        assert(line.subrange(0, 1) =~= "-"@);
    }
}

/// Drops the leading `c`s of `s`.
fn strip_leading_chars(s: &Vec<char>, c: char) -> (r: Vec<char>)
    ensures
        r@ == strip_leading(s@, c),
{
    let mut i: usize = 0;
    assert(s@.skip(0) =~= s@);
    while i < s.len() && s[i] == c
        invariant
            i <= s@.len(),
            strip_leading(s@, c) == strip_leading(s@.skip(i as int), c),
        decreases s@.len() - i,
    {
        assert(s@.skip(i as int).drop_first() =~= s@.skip(i + 1));
        i = i + 1;
    }
    let r = crate::text::slice_chars(s, i, s.len());
    assert(r@ =~= s@.skip(i as int));
    assert(strip_leading(s@.skip(i as int), c) == s@.skip(i as int));
    r
}

/// The texts of a line's pattern groups.
pub open spec fn captures_view(caps: Option<Vec<String>>) -> Option<Seq<Seq<char>>> {
    match caps {
        Some(v) => Some(crate::mail::lines::line_views(v@)),
        None => None,
    }
}

/// Builds the queue entry a line's pattern groups describe: the id without
/// leading `!`, the size as a number (0 when it does not parse), the arrival
/// time and the sender, no recipients yet; none without the groups.
pub fn entry_from(caps: Option<Vec<String>>) -> (r: Option<QueueEntry>)
    ensures
        match entry_from_captures(captures_view(caps)) {
            Some(e) => r matches Some(q) && entry_view(q) == e,
            None => r is None,
        },
{
    match caps {
        Some(v) => {
            if v.len() >= 5 {
                let idc = chars_of(v[1].as_str());
                let id = strip_leading_chars(&idc, '!');
                let sc = chars_of(v[2].as_str());
                let size = match parse_u64_bounded(&sc, u64::MAX) {
                    Some(n) => n,
                    None => 0,
                };
                let e = QueueEntry {
                    id: string_from_chars(&id),
                    size,
                    arrival_time: v[3].clone(),
                    sender: v[4].clone(),
                    recipients: Vec::new(),
                    reason: None,
                };
                assert(e.recipients@.map_values(|r: String| r@) =~= Seq::<Seq<char>>::empty());
                Some(e)
            } else {
                None
            }
        },
        None => None,
    }
}

/// Parses the output of `mailq` into queue entries.
pub fn parse_mailq(output: &str) -> (r: Vec<QueueEntry>)
    ensures
        r@.map_values(|e: QueueEntry| entry_view(e)) == mailq_entries(output@),
{
    let ov = chars_of(output);
    let ls = lines_chars(&ov);
    let ghost lv = lines_of(output@);
    let dash = chars_of("-");
    let empty_notice = chars_of("Mail queue is empty");
    let mut entries: Vec<QueueEntry> = Vec::new();
    let mut current: Option<QueueEntry> = None;
    let mut i: usize = 0;
    while i < ls.len()
        invariant
            ls@.len() == lv.len(),
            lv == lines_of(output@),
            forall|k: int| 0 <= k < ls@.len() ==> #[trigger] ls@[k]@ == lv[k],
            dash@ == "-"@,
            empty_notice@ == "Mail queue is empty"@,
            i <= ls@.len(),
            entries@.map_values(|e: QueueEntry| entry_view(e)) == mailq_state(
                lv.take(i as int),
            ).done,
            match mailq_state(lv.take(i as int)).current {
                Some(e) => current matches Some(c) && entry_view(c) == e,
                None => current is None,
            },
        decreases ls@.len() - i,
    {
        assert(lv.take(i + 1).drop_last() =~= lv.take(i as int));
        assert(lv.take(i + 1).last() == ls@[i as int]@);
        let line = &ls[i];
        let ghost before = mailq_state(lv.take(i as int));
        if starts_with_chars(line, &dash) || line.len() == 0 || starts_with_chars(
            line,
            &empty_notice,
        ) {
            i = i + 1;
            continue;
        }
        if is_alnum(line[0]) {
            let ghost old_entries = entries@;
            match current.take() {
                Some(e) => {
                    entries.push(e);
                },
                None => {},
            }
            assert(entries@.map_values(|e: QueueEntry| entry_view(e)) =~= finish(before));
            let ls_str = string_from_chars(line);
            let caps = regex_captures(ENTRY_PATTERN, ls_str.as_str());
            proof {
                if caps is Some {
                    assert(crate::mail::lines::line_views(caps->Some_0@) =~= regex_captures_of(
                        ENTRY_PATTERN@,
                        line@,
                    )->Some_0);
                }
            }
            assert(captures_view(caps) == regex_captures_of(ENTRY_PATTERN@, line@));
            current = entry_from(caps);
            i = i + 1;
            continue;
        }
        match current.take() {
            Some(mut e) => {
                let t = trim_chars(line);
                let mut has_at = false;
                let mut j: usize = 0;
                while j < t.len()
                    invariant
                        j <= t@.len(),
                        has_at == exists|k: int| 0 <= k < j && t@[k] == '@',
                    decreases t@.len() - j,
                {
                    if t[j] == '@' {
                        has_at = true;
                    }
                    j = j + 1;
                }
                assert(has_at == t@.contains('@'));
                if has_at {
                    let ghost rv = e.recipients@;
                    e.recipients.push(string_from_chars(&t));
                    assert(e.recipients@.map_values(|r: String| r@) =~= rv.map_values(
                        |r: String| r@,
                    ).push(t@));
                } else if t.len() > 0 {
                    e.reason = Some(string_from_chars(&t));
                }
                current = Some(e);
            },
            None => {},
        }
        i = i + 1;
    }
    assert(lv.take(lv.len() as int) =~= lv);
    match current {
        Some(e) => {
            entries.push(e);
        },
        None => {},
    }
    entries
}

/// Whether `c` is an ASCII letter or digit.
fn is_alnum(c: char) -> (r: bool)
    ensures
        r == is_ascii_alnum(c),
{
    crate::mail::postfix::ascii_alnum(c)
}

} // verus!
