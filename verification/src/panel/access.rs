//! SSH keys and FTP/SFTP accounts of a site.

use vstd::prelude::*;
use vstd::string::StringSliceAdditionalSpecFns;
use crate::agent::backup::{hex_of, sha256, sha256_hex};
use crate::mail::postfix::{split_once, split_once_chars};
use crate::text::{
    chars_of, concat_all, concat_strs, contains_chars, contains_seq, decimal, decimal_string, has_prefix,
    occurs_at, starts_with_chars, string_from_chars, trim, trim_chars, views_of,
};

verus! {

#[derive(Debug)]
pub struct UpdateFtpUserRequest {
    pub home_subdir: Option<String>,
    pub quota_mb:    Option<i32>,
    pub enabled:     Option<bool>,
}

#[derive(Debug)]
pub struct AddSshKeyRequest {
    pub label:      String,
    pub public_key: String,
}

#[derive(Debug)]
pub struct SshKeyItem {
    pub id:          String,
    pub label:       String,
    pub public_key:  String,
    pub fingerprint: String,
    pub created_at:  String,
}

#[derive(Debug)]
pub struct SetSftpPasswordRequest {
    pub password: String,
}

#[derive(Debug)]
pub struct CreateFtpUserRequest {
    pub username: String,
    pub password: String,
}

#[derive(Debug)]
pub struct ChangeFtpPasswordRequest {
    pub password: String,
}


/// The first two space-separated fields of a key line and the rest
/// (`splitn(3, ' ')`): type, key data and, when there is one, the comment.
pub open spec fn key_fields(line: Seq<char>) -> Option<(Seq<char>, Seq<char>, Option<Seq<char>>)> {
    match split_once(line, ' ') {
        Some((a, rest)) => match split_once(rest, ' ') {
            Some((b, c)) => Some((a, b, Some(c))),
            None => Some((a, rest, None)),
        },
        None => None,
    }
}

/// Splits a key line into its fields.
pub fn split_key_fields(line: &Vec<char>) -> (r: Option<(Vec<char>, Vec<char>, Option<Vec<char>>)>)
    ensures
        match key_fields(line@) {
            Some(f) => r matches Some(g) && g.0@ == f.0 && g.1@ == f.1 && match f.2 {
                Some(c) => g.2 matches Some(d) && d@ == c,
                None => g.2 is None,
            },
            None => r is None,
        },
{
    match split_once_chars(line, ' ') {
        Some((a, rest)) => match split_once_chars(&rest, ' ') {
            Some((b, c)) => Some((a, b, Some(c))),
            None => Some((a, rest, None)),
        },
        None => None,
    }
}

/// The key data (base64 part) of a public key line.
pub open spec fn key_data_of(public_key: Seq<char>) -> Option<Seq<char>> {
    match key_fields(trim(public_key)) {
        Some(f) => Some(f.1),
        None => None,
    }
}

/// Extracts the key data from a public key line.
pub fn extract_key_data(public_key: &str) -> (r: Option<String>)
    ensures
        match key_data_of(public_key@) {
            Some(d) => r matches Some(s) && s@ == d,
            None => r is None,
        },
{
    let v = chars_of(public_key);
    let t = trim_chars(&v);
    match split_key_fields(&t) {
        Some((_a, b, _c)) => Some(string_from_chars(&b)),
        None => None,
    }
}

/// The id of a key: the first 32 hex digits of the SHA-256 of its key data.
pub open spec fn key_id_of(key_data: Seq<char>) -> Seq<char> {
    hex_of(sha256(encode_utf8_of(key_data))).take(32)
}

/// UTF-8 bytes of text.
pub open spec fn encode_utf8_of(s: Seq<char>) -> Seq<u8> {
    vstd::utf8::encode_utf8(s)
}

/// Computes the id of a key from its key data.
pub fn key_id_from_data(key_data: &str) -> (r: String)
    ensures
        r@ == key_id_of(key_data@),
{
    let h = sha256_hex(key_data.as_bytes());
    let hv = chars_of(h.as_str());
    proof {
        crate::agent::backup::lemma_hex_len(sha256(key_data.spec_bytes()));
    }
    let t = crate::text::slice_chars(&hv, 0, 32);
    assert(t@ =~= hv@.take(32));
    string_from_chars(&t)
}

/// The key types accepted for SSH access.
pub open spec fn ssh_key_prefixes() -> Seq<Seq<char>> {
    seq![
        "ssh-rsa"@,
        "ssh-ed25519"@,
        "ecdsa-sha2-nistp256"@,
        "ecdsa-sha2-nistp384"@,
        "ecdsa-sha2-nistp521"@,
        "sk-ssh-ed25519@openssh.com"@,
        "sk-ecdsa-sha2-nistp256@openssh.com"@,
    ]
}

/// Characters refused in an SSH key line.
pub open spec fn is_key_forbidden(c: char) -> bool {
    c == '\n' || c == '\r' || c == ';' || c == '&' || c == '|' || c == '$' || c == '`'
}

/// Why a public key is refused, if it is: it must start with a known key
/// type, have non-empty key data, and hold no line break or shell
/// metacharacter.
pub open spec fn ssh_key_problem(key: Seq<char>) -> Option<Seq<char>> {
    let k = trim(key);
    if !(exists|i: int| 0 <= i < 7 && has_prefix(k, #[trigger] ssh_key_prefixes()[i])) {
        Some("Public key must start with ssh-rsa, ssh-ed25519, or ecdsa-sha2-*"@)
    } else if !(key_fields(k) matches Some(f) && f.1.len() > 0) {
        Some("Invalid SSH public key format"@)
    } else if exists|i: int| 0 <= i < k.len() && is_key_forbidden(#[trigger] k[i]) {
        Some("SSH key contains invalid characters"@)
    } else {
        None
    }
}

/// Checks the form of an SSH public key.
pub fn validate_ssh_key(key: &str) -> (r: Result<(), String>)
    ensures
        match ssh_key_problem(key@) {
            Some(m) => r matches Err(e) && e@ == m,
            None => r is Ok,
        },
{
    let v = chars_of(key);
    let k = trim_chars(&v);
    let prefixes: Vec<&str> = vec![
        "ssh-rsa",
        "ssh-ed25519",
        "ecdsa-sha2-nistp256",
        "ecdsa-sha2-nistp384",
        "ecdsa-sha2-nistp521",
        "sk-ssh-ed25519@openssh.com",
        "sk-ecdsa-sha2-nistp256@openssh.com",
    ];
    assert(forall|i: int| 0 <= i < 7 ==> #[trigger] prefixes@[i]@ == ssh_key_prefixes()[i]);
    let mut any = false;
    let mut i: usize = 0;
    while i < 7
        invariant
            i <= 7,
            prefixes@.len() == 7,
            forall|q: int| 0 <= q < 7 ==> #[trigger] prefixes@[q]@ == ssh_key_prefixes()[q],
            any == exists|q: int| 0 <= q < i && has_prefix(k@, #[trigger] ssh_key_prefixes()[q]),
        decreases 7 - i,
    {
        let pc = chars_of(prefixes[i]);
        if starts_with_chars(&k, &pc) {
            any = true;
        }
        i = i + 1;
    }
    if !any {
        return Err(String::from_str("Public key must start with ssh-rsa, ssh-ed25519, or ecdsa-sha2-*"));
    }
    match split_key_fields(&k) {
        Some((_a, b, _c)) => {
            if b.len() == 0 {
                return Err(String::from_str("Invalid SSH public key format"));
            }
        },
        None => {
            return Err(String::from_str("Invalid SSH public key format"));
        },
    }
    assert(key_fields(k@) matches Some(f) && f.1.len() > 0);
    let mut j: usize = 0;
    while j < k.len()
        invariant
            j <= k@.len(),
            k@ == trim(key@),
            exists|q: int| 0 <= q < 7 && has_prefix(k@, #[trigger] ssh_key_prefixes()[q]),
            key_fields(k@) matches Some(f) && f.1.len() > 0,
            forall|q: int| 0 <= q < j ==> !is_key_forbidden(#[trigger] k@[q]),
        decreases k@.len() - j,
    {
        let c = k[j];
        if c == '\n' || c == '\r' || c == ';' || c == '&' || c == '|' || c == '$' || c == '`' {
            assert(is_key_forbidden(k@[j as int]));
            return Err(String::from_str("SSH key contains invalid characters"));
        }
        j = j + 1;
    }
    Ok(())
}

/// Characters removed from a key label.
pub open spec fn is_label_forbidden(c: char) -> bool {
    c == '\n' || c == '\r' || c == ';' || c == '&' || c == '|' || c == '$' || c == '`' || c == '<'
        || c == '>' || c == '\'' || c == '"' || c == '\\'
}

/// `s` without the characters that `drop` selects.
pub open spec fn without_chars(s: Seq<char>, drop: spec_fn(char) -> bool) -> Seq<char>
    decreases s.len(),
{
    if s.len() == 0 {
        Seq::empty()
    } else if drop(s.last()) {
        without_chars(s.drop_last(), drop)
    } else {
        without_chars(s.drop_last(), drop).push(s.last())
    }
}

/// A label with the shell metacharacters removed.
pub open spec fn filtered_label(label: Seq<char>) -> Seq<char> {
    without_chars(trim(label), |c: char| is_label_forbidden(c))
}

/// The longest beginning of `s` whose UTF-8 form has at most `n` bytes:
/// characters are dropped from the end until it fits, so the cut always
/// falls between characters.
pub open spec fn fit_bytes(s: Seq<char>, n: nat) -> Seq<char>
    decreases s.len(),
{
    if encode_utf8_of(s).len() <= n || s.len() == 0 {
        s
    } else {
        fit_bytes(s.drop_last(), n)
    }
}

/// A key label as written: trimmed, shell metacharacters removed, cut to at
/// most 64 bytes at the last character boundary that fits.
pub open spec fn clean_label(label: Seq<char>) -> Seq<char> {
    fit_bytes(filtered_label(label), 64)
}

/// Cleans a key label: trims it, removes shell metacharacters and keeps at
/// most 64 bytes, cutting between characters.
pub fn sanitize_key_label(label: &str) -> (r: String)
    ensures
        r@ == clean_label(label@),
        encode_utf8_of(r@).len() <= 64,
{
    let v = chars_of(label);
    let t = trim_chars(&v);
    let mut f: Vec<char> = Vec::new();
    let mut i: usize = 0;
    while i < t.len()
        invariant
            i <= t@.len(),
            t@ == trim(label@),
            f@ == without_chars(t@.take(i as int), |c: char| is_label_forbidden(c)),
        decreases t@.len() - i,
    {
        assert(t@.take(i + 1).drop_last() =~= t@.take(i as int));
        let c = t[i];
        if !(c == '\n' || c == '\r' || c == ';' || c == '&' || c == '|' || c == '$' || c == '`' || c
            == '<' || c == '>' || c == '\'' || c == '"' || c == '\\') {
            f.push(c);
        }
        i = i + 1;
    }
    assert(t@.take(t@.len() as int) =~= t@);
    let ghost full = f@;
    assert(full == filtered_label(label@));
    loop
        invariant
            full == filtered_label(label@),
            fit_bytes(full, 64) == fit_bytes(f@, 64),
        decreases f@.len(),
    {
        let st = string_from_chars(&f);
        let nbytes = st.as_str().as_bytes().len();
        if nbytes <= 64 {
            return st;
        }
        if f.len() == 0 {
            assert(encode_utf8_of(f@) =~= Seq::<u8>::empty());
            assert(false);
            return st;
        }
        let ghost before = f@;
        f.pop();
        assert(f@ == before.drop_last());
    }
}

/// The line written to `authorized_keys`: the trimmed key with its comment
/// replaced by the label, or the trimmed key as it is when the label is
/// empty or the key has a single field.
pub open spec fn key_line_of(public_key: Seq<char>, label: Seq<char>) -> Seq<char> {
    let t = trim(public_key);
    if label.len() == 0 {
        t
    } else {
        match key_fields(t) {
            Some(f) => f.0 + seq![' '] + f.1 + seq![' '] + label,
            None => t,
        }
    }
}

/// Builds the `authorized_keys` line of a key and its cleaned label.
pub fn key_line(public_key: &str, label: &str) -> (r: String)
    ensures
        r@ == key_line_of(public_key@, label@),
{
    let v = chars_of(public_key);
    let t = trim_chars(&v);
    if label.is_empty() {
        return string_from_chars(&t);
    }
    match split_key_fields(&t) {
        Some((a, b, _c)) => {
            let mut out = string_from_chars(&a);
            crate::text::push_char(&mut out, ' ');
            let bs = string_from_chars(&b);
            out.append(bs.as_str());
            crate::text::push_char(&mut out, ' ');
            out.append(label);
            assert(out@ =~= a@ + seq![' '] + b@ + seq![' '] + label@);
            out
        },
        None => string_from_chars(&t),
    }
}

/// The label reported for a key: the cleaned label, or else the key's own
/// comment, or else `<type> key`.
pub open spec fn reported_label_of(key_line: Seq<char>, label: Seq<char>) -> Seq<char> {
    if label.len() > 0 {
        label
    } else {
        match key_fields(key_line) {
            Some(f) => match f.2 {
                Some(c) => c,
                None => f.0 + " key"@,
            },
            None => key_line + " key"@,
        }
    }
}

/// The label a newly added key is reported with, from the trimmed key and
/// the cleaned label.
pub fn reported_label(trimmed_key: &str, label: &str) -> (r: String)
    ensures
        r@ == reported_label_of(trimmed_key@, label@),
{
    let lv = chars_of(label);
    if lv.len() > 0 {
        return String::from_str(label);
    }
    let kv = chars_of(trimmed_key);
    match split_key_fields(&kv) {
        Some((a, _b, c)) => match c {
            Some(cv) => string_from_chars(&cv),
            None => {
                let mut l = string_from_chars(&a);
                l.append(" key");
                l
            },
        },
        None => {
            let mut l = String::from_str(trimmed_key);
            l.append(" key");
            l
        },
    }
}

/// A key listed from `authorized_keys`: id, label and line.
pub open spec fn listed_key_of(line: Seq<char>) -> Option<(Seq<char>, Seq<char>, Seq<char>)> {
    let t = trim(line);
    if t.len() == 0 || has_prefix(t, "#"@) {
        None
    } else {
        match key_fields(t) {
            Some(f) => Some((
                key_id_of(f.1),
                match f.2 {
                    Some(c) => if c.len() > 0 {
                        c
                    } else {
                        f.0 + " key"@
                    },
                    None => f.0 + " key"@,
                },
                t,
            )),
            None => None,
        }
    }
}

/// Reads one `authorized_keys` line: blank lines, comments and lines of a
/// single field list no key.
pub fn parse_authorized_key_line(line: &str) -> (r: Option<(String, String, String)>)
    ensures
        match listed_key_of(line@) {
            Some(k) => r matches Some(q) && q.0@ == k.0 && q.1@ == k.1 && q.2@ == k.2,
            None => r is None,
        },
{
    let v = chars_of(line);
    let t = trim_chars(&v);
    let hash = chars_of("#");
    if t.len() == 0 || starts_with_chars(&t, &hash) {
        return None;
    }
    match split_key_fields(&t) {
        Some((a, b, c)) => {
            let bs = string_from_chars(&b);
            let id = key_id_from_data(bs.as_str());
            let label = match c {
                Some(cv) => if cv.len() > 0 {
                    string_from_chars(&cv)
                } else {
                    let mut l = string_from_chars(&a);
                    l.append(" key");
                    l
                },
                None => {
                    let mut l = string_from_chars(&a);
                    l.append(" key");
                    l
                },
            };
            Some((id, label, string_from_chars(&t)))
        },
        None => None,
    }
}

/// An `authorized_keys` line holds the key with this id.
pub open spec fn holds_key(line: Seq<char>, key_id: Seq<char>) -> bool {
    listed_key_of(line) matches Some(k) && k.0 == key_id
}

/// The lines that do not hold the key, in their order.
pub open spec fn lines_without_key(lines: Seq<Seq<char>>, key_id: Seq<char>) -> Seq<Seq<char>>
    decreases lines.len(),
{
    if lines.len() == 0 {
        Seq::empty()
    } else if holds_key(lines.last(), key_id) {
        lines_without_key(lines.drop_last(), key_id)
    } else {
        lines_without_key(lines.drop_last(), key_id).push(lines.last())
    }
}

/// Lines joined with `\n` between them (`join("\n")`).
pub open spec fn joined_lines(lines: Seq<Seq<char>>) -> Seq<char>
    decreases lines.len(),
{
    if lines.len() == 0 {
        Seq::empty()
    } else if lines.len() == 1 {
        lines[0]
    } else {
        joined_lines(lines.drop_last()) + "\n"@ + lines.last()
    }
}

/// `authorized_keys` without the lines of a key: the lines kept, joined
/// with `\n` and ended by one when not empty; none when no line held it.
pub open spec fn authorized_keys_without(content: Seq<char>, key_id: Seq<char>) -> Option<Seq<char>> {
    let lines = crate::text::lines_of(content);
    if forall|k: int| 0 <= k < lines.len() ==> !holds_key(#[trigger] lines[k], key_id) {
        None
    } else {
        let j = joined_lines(lines_without_key(lines, key_id));
        Some(if j.len() > 0 { j + "\n"@ } else { j })
    }
}

/// No line that is kept when a key is removed holds that key.
pub proof fn lemma_removed_key_absent(lines: Seq<Seq<char>>, key_id: Seq<char>)
    ensures
        forall|k: int| 0 <= k < lines_without_key(lines, key_id).len()
            ==> !holds_key(#[trigger] lines_without_key(lines, key_id)[k], key_id),
    decreases lines.len(),
{
    if lines.len() > 0 {
        let init = lines.drop_last();
        lemma_removed_key_absent(init, key_id);
        let prev = lines_without_key(init, key_id);
        if !holds_key(lines.last(), key_id) {
            assert forall|k: int| 0 <= k < prev.push(lines.last()).len() implies !holds_key(
                #[trigger] prev.push(lines.last())[k],
                key_id,
            ) by {
                if k < prev.len() {
                    assert(prev.push(lines.last())[k] == prev[k]);
                }
            }
        }
    }
}

#[verifier::spinoff_prover]
#[verifier::rlimit(30)]
proof fn lemma_without_key_len(lines: Seq<Seq<char>>, key_id: Seq<char>)
    ensures
        lines_without_key(lines, key_id).len() <= lines.len(),
        (forall|k: int| 0 <= k < lines.len() ==> !holds_key(#[trigger] lines[k], key_id))
            <==> lines_without_key(lines, key_id).len() == lines.len(),
    decreases lines.len(),
{
    if lines.len() > 0 {
        let init = lines.drop_last();
        lemma_without_key_len(init, key_id);
        if forall|k: int| 0 <= k < lines.len() ==> !holds_key(#[trigger] lines[k], key_id) {
            assert forall|k: int| 0 <= k < init.len() implies !holds_key(#[trigger] init[k], key_id) by {
                assert(init[k] == lines[k]);
            }
            assert(!holds_key(lines[lines.len() - 1], key_id));
        }
        if !holds_key(lines.last(), key_id) && lines_without_key(lines, key_id).len() == lines.len() {
            assert forall|k: int| 0 <= k < lines.len() implies !holds_key(#[trigger] lines[k], key_id) by {
                if k < lines.len() - 1 {
                    assert(init[k] == lines[k]);
                }
            }
        }
    }
}

proof fn lemma_joined_push(prev: Seq<Seq<char>>, line: Seq<char>)
    ensures
        joined_lines(prev.push(line)) == if prev.len() == 0 {
            line
        } else {
            joined_lines(prev) + "\n"@ + line
        },
{
    assert(prev.push(line).drop_last() =~= prev);
    if prev.len() == 0 {
        assert(prev.push(line)[0] == line);
    }
}

/// Whether an `authorized_keys` line holds the key with this id.
fn line_holds_key(line: &Vec<char>, key_id: &str) -> (r: bool)
    ensures
        r == holds_key(line@, key_id@),
{
    let text = string_from_chars(line);
    match parse_authorized_key_line(text.as_str()) {
        Some((id, _label, _line)) => crate::text::str_eq(id.as_str(), key_id),
        None => false,
    }
}

/// Appends a line, after a `\n` unless it is the first.
fn push_joined(out: &mut Vec<char>, line: &Vec<char>, first: bool)
    ensures
        final(out)@ == if first {
            old(out)@ + line@
        } else {
            old(out)@ + "\n"@ + line@
        },
{
    proof {
        reveal_strlit("\n");
    }
    if !first {
        out.push('\n');
    }
    let ghost before = out@;
    let mut j: usize = 0;
    while j < line.len()
        invariant
            j <= line@.len(),
            out@ == before + line@.take(j as int),
        decreases line@.len() - j,
    {
        out.push(line[j]);
        assert(line@.take(j + 1) =~= line@.take(j as int).push(line@[j as int]));
        j = j + 1;
    }
    assert(line@.take(j as int) =~= line@);
    assert(old(out)@ + "\n"@ + line@ =~= old(out)@.push('\n') + line@);
}

/// Removes the lines that hold a key from `authorized_keys` content; `None`
/// when no line holds it (the file is then left as it is).
#[verifier::spinoff_prover]
#[verifier::rlimit(30)]
pub fn remove_authorized_key(content: &str, key_id: &str) -> (r: Option<String>)
    ensures
        match authorized_keys_without(content@, key_id@) {
            Some(c) => r matches Some(s) && s@ == c,
            None => r is None,
        },
{
    let cv = chars_of(content);
    let lines = crate::text::lines_chars(&cv);
    let ghost lv = crate::text::lines_of(content@);
    let mut out: Vec<char> = Vec::new();
    let mut kept: usize = 0;
    let mut i: usize = 0;
    while i < lines.len()
        invariant
            i <= lines@.len(),
            lines@.len() == lv.len(),
            forall|k: int| 0 <= k < lines@.len() ==> #[trigger] lines@[k]@ == lv[k],
            kept as int == lines_without_key(lv.take(i as int), key_id@).len(),
            out@ == joined_lines(lines_without_key(lv.take(i as int), key_id@)),
            kept <= i,
        decreases lines@.len() - i,
    {
        let ghost prev = lines_without_key(lv.take(i as int), key_id@);
        assert(lv.take(i + 1).drop_last() =~= lv.take(i as int));
        assert(lv.take(i + 1).last() == lv[i as int]);
        assert(lines@[i as int]@ == lv[i as int]);
        proof {
            lemma_without_key_len(lv.take(i as int), key_id@);
        }
        if !line_holds_key(&lines[i], key_id) {
            push_joined(&mut out, &lines[i], kept == 0);
            proof {
                lemma_joined_push(prev, lv[i as int]);
            }
            kept = kept + 1;
        }
        i = i + 1;
    }
    assert(lv.take(lv.len() as int) =~= lv);
    proof {
        lemma_keys_without(content@, key_id@);
        reveal_strlit("\n");
    }
    if kept == lines.len() {
        return None;
    }
    if out.len() > 0 {
        out.push('\n');
        assert(out@ =~= joined_lines(lines_without_key(lv, key_id@)) + "\n"@);
    }
    Some(string_from_chars(&out))
}

proof fn lemma_keys_without(content: Seq<char>, key_id: Seq<char>)
    ensures
        ({
            let lines = crate::text::lines_of(content);
            let kept = lines_without_key(lines, key_id);
            authorized_keys_without(content, key_id) == if kept.len() == lines.len() {
                None
            } else {
                let j = joined_lines(kept);
                Some(if j.len() > 0 { j + "\n"@ } else { j })
            }
        }),
{
    lemma_without_key_len(crate::text::lines_of(content), key_id);
}

/// A character allowed in an FTP user name.
pub open spec fn is_ftp_user_char(c: char) -> bool {
    ('0' <= c <= '9') || ('a' <= c <= 'z') || ('A' <= c <= 'Z') || c == '_' || c == '-'
}

/// Checks an FTP user name: 3–32 bytes of ASCII letters, digits, `_` and `-`.
pub fn validate_ftp_username(username: &str) -> (r: Result<(), String>)
    ensures
        (username.len() < 3 || username.len() > 32) ==> (r matches Err(m) && m@
            == "FTP username must be 3-32 characters"@),
        r is Ok <==> 3 <= username.len() <= 32 && forall|i: int|
            0 <= i < username@.len() ==> is_ftp_user_char(#[trigger] username@[i]),
        3 <= username.len() <= 32 ==> (r matches Err(m) ==> m@
            == "FTP username may only contain letters, numbers, underscores, and hyphens"@),
{
    let n = username.len();
    if n < 3 || n > 32 {
        return Err(String::from_str("FTP username must be 3-32 characters"));
    }
    let v = chars_of(username);
    let mut i: usize = 0;
    while i < v.len()
        invariant
            i <= v@.len(),
            v@ == username@,
            3 <= n <= 32,
            n == username.len(),
            forall|k: int| 0 <= k < i ==> is_ftp_user_char(#[trigger] v@[k]),
        decreases v@.len() - i,
    {
        let c = v[i];
        if !(('0' <= c && c <= '9') || ('a' <= c && c <= 'z') || ('A' <= c && c <= 'Z') || c == '_' || c
            == '-') {
            assert(!is_ftp_user_char(v@[i as int]));
            return Err(
                String::from_str(
                    "FTP username may only contain letters, numbers, underscores, and hyphens",
                ),
            );
        }
        i = i + 1;
    }
    Ok(())
}

/// Characters refused in an FTP home directory.
pub open spec fn is_subdir_forbidden(c: char) -> bool {
    c == '\0' || c == '\n' || c == '\r' || c == ';' || c == '&' || c == '|' || c == '$' || c == '`'
}

/// Checks an FTP home sub-directory: it starts with `/`, holds no `..` and
/// no control or shell metacharacter.
pub fn validate_home_subdir(path: &str) -> (r: Result<(), String>)
    ensures
        !has_prefix(path@, "/"@) ==> (r matches Err(m) && m@ == "home_subdir must start with '/'"@),
        has_prefix(path@, "/"@) && contains_seq(path@, ".."@) ==> (r matches Err(m) && m@
            == "home_subdir must not contain '..'"@),
        r is Ok <==> has_prefix(path@, "/"@) && !contains_seq(path@, ".."@) && forall|i: int|
            0 <= i < path@.len() ==> !is_subdir_forbidden(#[trigger] path@[i]),
        has_prefix(path@, "/"@) && !contains_seq(path@, ".."@) ==> (r matches Err(m) ==> m@
            == "home_subdir contains invalid characters"@),
{
    let v = chars_of(path);
    let slash = chars_of("/");
    if !starts_with_chars(&v, &slash) {
        return Err(String::from_str("home_subdir must start with '/'"));
    }
    let dd = chars_of("..");
    if contains_chars(&v, &dd) {
        return Err(String::from_str("home_subdir must not contain '..'"));
    }
    let mut i: usize = 0;
    while i < v.len()
        invariant
            i <= v@.len(),
            v@ == path@,
            has_prefix(path@, "/"@),
            !contains_seq(path@, ".."@),
            forall|k: int| 0 <= k < i ==> !is_subdir_forbidden(#[trigger] v@[k]),
        decreases v@.len() - i,
    {
        let c = v[i];
        if c == '\0' || c == '\n' || c == '\r' || c == ';' || c == '&' || c == '|' || c == '$' || c
            == '`' {
            assert(is_subdir_forbidden(v@[i as int]));
            return Err(String::from_str("home_subdir contains invalid characters"));
        }
        i = i + 1;
    }
    Ok(())
}

/// Whether a password may be handed to `openssl passwd`: it holds no line
/// break or NUL.
pub fn crypt_password_ok(password: &str) -> (r: bool)
    ensures
        r == forall|i: int|
            0 <= i < password@.len() ==> #[trigger] password@[i] != '\n' && password@[i] != '\r'
                && password@[i] != '\0',
{
    let v = chars_of(password);
    let mut i: usize = 0;
    while i < v.len()
        invariant
            i <= v@.len(),
            v@ == password@,
            forall|k: int|
                0 <= k < i ==> #[trigger] v@[k] != '\n' && v@[k] != '\r' && v@[k] != '\0',
        decreases v@.len() - i,
    {
        let c = v[i];
        if c == '\n' || c == '\r' || c == '\0' {
            assert(v@[i as int] == c);
            return false;
        }
        i = i + 1;
    }
    true
}

/// The pure-ftpd quota argument: `<quota*1024>M` for a positive quota,
/// none otherwise.
pub fn ftp_quota_arg(quota_mb: i32) -> (r: Option<String>)
    requires
        quota_mb <= i32::MAX / 1024,
    ensures
        quota_mb > 0 ==> (r matches Some(q) && q@ == decimal((quota_mb * 1024) as nat) + "M"@),
        quota_mb <= 0 ==> r is None,
{
    if quota_mb > 0 {
        let mut q = decimal_string((quota_mb * 1024) as u64);
        q.append("M");
        Some(q)
    } else {
        None
    }
}

/// The sshd `Match` block that jails a site user in its home over SFTP.
pub open spec fn sftp_match_block(unix_user: Seq<char>) -> Seq<char> {
    concat_all(
        seq![
            "\n# JottiCP SFTP chroot for site "@,
            unix_user,
            "\nMatch User "@,
            unix_user,
            "\n  ChrootDirectory /home/"@,
            unix_user,
            "\n  ForceCommand internal-sftp\n  AllowTcpForwarding no\n  X11Forwarding no\n"@,
        ],
    )
}

/// The line that marks a user's block as present.
pub open spec fn sftp_marker(unix_user: Seq<char>) -> Seq<char> {
    "Match User "@ + unix_user
}

/// The SFTP configuration with a user's block: unchanged when it already
/// names the user, else with the block appended.
pub open spec fn sftp_config_with(existing: Seq<char>, unix_user: Seq<char>) -> Seq<char> {
    if contains_seq(existing, sftp_marker(unix_user)) {
        existing
    } else {
        existing + sftp_match_block(unix_user)
    }
}

proof fn lemma_block_has_marker(unix_user: Seq<char>)
    ensures
        occurs_at(sftp_match_block(unix_user), sftp_marker(unix_user), ("\n# JottiCP SFTP chroot for site "@ + unix_user + "\n"@).len() as int),
{
    reveal_with_fuel(concat_all, 8);
    let pre = "\n# JottiCP SFTP chroot for site "@ + unix_user + "\n"@;
    let b = sftp_match_block(unix_user);
    reveal_strlit("\nMatch User ");
    reveal_strlit("\n");
    reveal_strlit("Match User ");
    assert("\nMatch User "@ =~= "\n"@ + "Match User "@);
    assert(b =~= pre + sftp_marker(unix_user) + "\n  ChrootDirectory /home/"@ + unix_user
        + "\n  ForceCommand internal-sftp\n  AllowTcpForwarding no\n  X11Forwarding no\n"@);
    assert(b.subrange(pre.len() as int, pre.len() + sftp_marker(unix_user).len() as int) =~= sftp_marker(unix_user));
}

/// Adding a user's SFTP block twice gives what adding it once gives.
pub proof fn lemma_sftp_config_idempotent(existing: Seq<char>, unix_user: Seq<char>)
    ensures
        sftp_config_with(sftp_config_with(existing, unix_user), unix_user) == sftp_config_with(existing, unix_user),
{
    if !contains_seq(existing, sftp_marker(unix_user)) {
        let b = sftp_match_block(unix_user);
        let m = sftp_marker(unix_user);
        lemma_block_has_marker(unix_user);
        let k = ("\n# JottiCP SFTP chroot for site "@ + unix_user + "\n"@).len() as int;
        let all = existing + b;
        assert(all.subrange(existing.len() + k, existing.len() + k + m.len()) =~= b.subrange(k, k + m.len()));
        assert(occurs_at(all, m, existing.len() + k));
    }
}

/// What `sshd -t` said of the configuration after the SFTP block was added.
#[derive(Debug)]
pub enum SshdCheck {
    /// It accepted the configuration.
    Passed,
    /// It refused it, with its standard error.
    Refused(String),
    /// It could not be run, with the error's text.
    NotRun(String),
}

/// How an SFTP configuration request is answered after the check.
#[derive(Debug, PartialEq, Eq)]
pub enum SftpAnswer {
    /// Go on: fix the home's ownership and reload sshd.
    Proceed,
    /// Write this text back over the configuration file and answer with a
    /// validation error with this message.
    RestoreInvalid { content: String, message: String },
    /// Write this text back and answer with an internal error with this
    /// message.
    RestoreInternal { content: String, message: String },
}

/// Decides what follows the `sshd -t` check: on a refusal, or when it could
/// not run, the configuration as it was before the request is restored and
/// the request fails.
pub fn sftp_after_check(existing: &str, check: SshdCheck) -> (r: SftpAnswer)
    ensures
        match check {
            SshdCheck::Passed => r == SftpAnswer::Proceed,
            SshdCheck::Refused(e) => r matches SftpAnswer::RestoreInvalid { content, message } && content@
                == existing@ && message@ == "sshd config invalid: "@ + e@,
            SshdCheck::NotRun(e) => r matches SftpAnswer::RestoreInternal { content, message } && content@
                == existing@ && message@ == "sshd -t: "@ + e@,
        },
{
    match check {
        SshdCheck::Passed => SftpAnswer::Proceed,
        SshdCheck::Refused(e) => SftpAnswer::RestoreInvalid {
            content: String::from_str(existing),
            message: crate::text::concat2("sshd config invalid: ", e.as_str()),
        },
        SshdCheck::NotRun(e) => SftpAnswer::RestoreInternal {
            content: String::from_str(existing),
            message: crate::text::concat2("sshd -t: ", e.as_str()),
        },
    }
}

/// Adds a user's SFTP chroot block to the sshd configuration unless it is
/// already there; tells whether the text changed.
pub fn sftp_config_update(existing: &str, unix_user: &str) -> (r: (String, bool))
    ensures
        r.0@ == sftp_config_with(existing@, unix_user@),
        r.1 == !contains_seq(existing@, sftp_marker(unix_user@)),
{
    let mut marker = String::from_str("Match User ");
    marker.append(unix_user);
    let ev = chars_of(existing);
    let mv = chars_of(marker.as_str());
    if contains_chars(&ev, &mv) {
        return (String::from_str(existing), false);
    }
    let parts: Vec<&str> = vec![
        existing,
        "\n# JottiCP SFTP chroot for site ",
        unix_user,
        "\nMatch User ",
        unix_user,
        "\n  ChrootDirectory /home/",
        unix_user,
        "\n  ForceCommand internal-sftp\n  AllowTcpForwarding no\n  X11Forwarding no\n",
    ];
    let r = concat_strs(&parts);
    proof {
        reveal_with_fuel(concat_all, 9);
        assert(views_of(parts@) =~= seq![
            existing@,
            "\n# JottiCP SFTP chroot for site "@,
            unix_user@,
            "\nMatch User "@,
            unix_user@,
            "\n  ChrootDirectory /home/"@,
            unix_user@,
            "\n  ForceCommand internal-sftp\n  AllowTcpForwarding no\n  X11Forwarding no\n"@,
        ]);
        assert(concat_all(views_of(parts@)) =~= existing@ + sftp_match_block(unix_user@));
    }
    (r, true)
}

} // verus!
