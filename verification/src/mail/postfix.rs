//! Mail accounts, domains, forwarders, autoresponders, rate limits, relays
//! and DKIM: the checks on each request and the entries written for it.

use vstd::prelude::*;
use crate::mail::MailError;
use crate::mail::lines::{line_views, first_with_prefix, upserted, upsert_line};
use crate::text::{
    chars_of, concat_all, concat_strs, decimal, decimal_string, has_prefix, lower_case,
    starts_with_chars, str_eq, string_from_chars, to_lowercase, trim, trim_chars, vec_eq,
    views_of, join_path, join_path_str, contains_seq, contains_chars,
};

verus! {

/// The Sieve test that stops outside a start–end date window.
pub open spec fn sieve_date_window_text(start: Seq<char>, end: Seq<char>) -> Seq<char> {
    concat_all(
        seq![
            "  if not (currentdate :is \"date\" \""@,
            start,
            "\" or currentdate :value \"ge\" \"date\" \""@,
            start,
            "\") {\n    stop;\n  }\n  if currentdate :value \"gt\" \"date\" \""@,
            end,
            "\" {\n    stop;\n  }\n"@,
        ],
    )
}

/// Renders the Sieve date test for a start and an end date.
pub fn sieve_date_window(start: &str, end: &str) -> (r: String)
    ensures
        r@ == sieve_date_window_text(start@, end@),
{
    let parts: Vec<&str> = vec![
        "  if not (currentdate :is \"date\" \"",
        start,
        "\" or currentdate :value \"ge\" \"date\" \"",
        start,
        "\") {\n    stop;\n  }\n  if currentdate :value \"gt\" \"date\" \"",
        end,
        "\" {\n    stop;\n  }\n",
    ];
    assert(views_of(parts@) =~= seq![
        "  if not (currentdate :is \"date\" \""@,
        start@,
        "\" or currentdate :value \"ge\" \"date\" \""@,
        start@,
        "\") {\n    stop;\n  }\n  if currentdate :value \"gt\" \"date\" \""@,
        end@,
        "\" {\n    stop;\n  }\n"@,
    ]);
    concat_strs(&parts)
}

/// The Sieve test that stops before a start date.
pub open spec fn sieve_date_from_text(start: Seq<char>) -> Seq<char> {
    concat_all(
        seq![
            "  if not currentdate :value \"ge\" \"date\" \""@,
            start,
            "\" {\n    stop;\n  }\n"@,
        ],
    )
}

/// Renders the Sieve date test for a start date.
pub fn sieve_date_from(start: &str) -> (r: String)
    ensures
        r@ == sieve_date_from_text(start@),
{
    let parts: Vec<&str> = vec![
        "  if not currentdate :value \"ge\" \"date\" \"",
        start,
        "\" {\n    stop;\n  }\n",
    ];
    assert(views_of(parts@) =~= seq![
        "  if not currentdate :value \"ge\" \"date\" \""@,
        start@,
        "\" {\n    stop;\n  }\n"@,
    ]);
    concat_strs(&parts)
}

/// The Sieve test that stops after an end date.
pub open spec fn sieve_date_until_text(end: Seq<char>) -> Seq<char> {
    concat_all(
        seq![
            "  if currentdate :value \"gt\" \"date\" \""@,
            end,
            "\" {\n    stop;\n  }\n"@,
        ],
    )
}

/// Renders the Sieve date test for an end date.
pub fn sieve_date_until(end: &str) -> (r: String)
    ensures
        r@ == sieve_date_until_text(end@),
{
    let parts: Vec<&str> = vec![
        "  if currentdate :value \"gt\" \"date\" \"",
        end,
        "\" {\n    stop;\n  }\n",
    ];
    assert(views_of(parts@) =~= seq![
        "  if currentdate :value \"gt\" \"date\" \""@,
        end@,
        "\" {\n    stop;\n  }\n"@,
    ]);
    concat_strs(&parts)
}

/// A vacation Sieve script around a date test.
pub open spec fn vacation_script_text(date_check: Seq<char>, subject: Seq<char>, body: Seq<char>) -> Seq<char> {
    concat_all(
        seq![
            "require [\"vacation\", \"date\", \"relational\"];\nif header :contains \"X-Spam-Flag\" \"YES\" {\n  stop;\n}\n"@,
            date_check,
            "vacation\n  :days 1\n  :subject \""@,
            subject,
            "\"\n  \""@,
            body,
            "\";\n"@,
        ],
    )
}

/// Renders a vacation Sieve script around the given date test.
pub fn vacation_script(date_check: &str, subject: &str, body: &str) -> (r: String)
    ensures
        r@ == vacation_script_text(date_check@, subject@, body@),
{
    let parts: Vec<&str> = vec![
        "require [\"vacation\", \"date\", \"relational\"];\nif header :contains \"X-Spam-Flag\" \"YES\" {\n  stop;\n}\n",
        date_check,
        "vacation\n  :days 1\n  :subject \"",
        subject,
        "\"\n  \"",
        body,
        "\";\n",
    ];
    assert(views_of(parts@) =~= seq![
        "require [\"vacation\", \"date\", \"relational\"];\nif header :contains \"X-Spam-Flag\" \"YES\" {\n  stop;\n}\n"@,
        date_check@,
        "vacation\n  :days 1\n  :subject \""@,
        subject@,
        "\"\n  \""@,
        body@,
        "\";\n"@,
    ]);
    concat_strs(&parts)
}

/// A Dovecot passwd-file entry with a storage quota.
pub open spec fn dovecot_user_line_text(email: Seq<char>, hashed: Seq<char>, home_dir: Seq<char>, quota_mb: Seq<char>) -> Seq<char> {
    concat_all(
        seq![
            email,
            ":"@,
            hashed,
            ":::"@,
            home_dir,
            "::userdb_quota_rule=*:storage="@,
            quota_mb,
            "M"@,
        ],
    )
}

/// Renders a Dovecot passwd-file entry with a storage quota.
pub fn dovecot_user_line(email: &str, hashed: &str, home_dir: &str, quota_mb: &str) -> (r: String)
    ensures
        r@ == dovecot_user_line_text(email@, hashed@, home_dir@, quota_mb@),
{
    let parts: Vec<&str> = vec![
        email,
        ":",
        hashed,
        ":::",
        home_dir,
        "::userdb_quota_rule=*:storage=",
        quota_mb,
        "M",
    ];
    assert(views_of(parts@) =~= seq![
        email@,
        ":"@,
        hashed@,
        ":::"@,
        home_dir@,
        "::userdb_quota_rule=*:storage="@,
        quota_mb@,
        "M"@,
    ]);
    concat_strs(&parts)
}

/// A Postfix virtual mailbox map entry.
pub open spec fn mailbox_map_line_text(email: Seq<char>, domain: Seq<char>, username: Seq<char>) -> Seq<char> {
    concat_all(
        seq![
            email,
            " "@,
            domain,
            "/"@,
            username,
            "/"@,
        ],
    )
}

/// Renders a Postfix virtual mailbox map entry.
pub fn mailbox_map_line(email: &str, domain: &str, username: &str) -> (r: String)
    ensures
        r@ == mailbox_map_line_text(email@, domain@, username@),
{
    let parts: Vec<&str> = vec![
        email,
        " ",
        domain,
        "/",
        username,
        "/",
    ];
    assert(views_of(parts@) =~= seq![
        email@,
        " "@,
        domain@,
        "/"@,
        username@,
        "/"@,
    ]);
    concat_strs(&parts)
}

/// The mail home directory of an account.
pub open spec fn mail_home_dir_text(domain: Seq<char>, username: Seq<char>) -> Seq<char> {
    concat_all(
        seq![
            "/var/mail/vhosts/"@,
            domain,
            "/"@,
            username,
        ],
    )
}

/// The mail home directory of an account.
pub fn mail_home_dir(domain: &str, username: &str) -> (r: String)
    ensures
        r@ == mail_home_dir_text(domain@, username@),
{
    let parts: Vec<&str> = vec![
        "/var/mail/vhosts/",
        domain,
        "/",
        username,
    ];
    assert(views_of(parts@) =~= seq![
        "/var/mail/vhosts/"@,
        domain@,
        "/"@,
        username@,
    ]);
    concat_strs(&parts)
}

/// The Postfix relay target of a smarthost.
pub open spec fn smarthost_relay_text(host: Seq<char>, port: Seq<char>) -> Seq<char> {
    concat_all(
        seq![
            "smtp:["@,
            host,
            "]:"@,
            port,
        ],
    )
}

/// The Postfix relay target of a smarthost.
pub fn smarthost_relay(host: &str, port: u16) -> (r: String)
    ensures
        r@ == smarthost_relay_text(host@, decimal(port as nat)),
{
    let port_s = decimal_string(port as u64);
    let parts: Vec<&str> = vec![
        "smtp:[",
        host,
        "]:",
        port_s.as_str(),
    ];
    assert(views_of(parts@) =~= seq![
        "smtp:["@,
        host@,
        "]:"@,
        port_s@,
    ]);
    concat_strs(&parts)
}

/// The SASL password map key of a smarthost.
pub open spec fn smarthost_sasl_key_text(host: Seq<char>, port: Seq<char>) -> Seq<char> {
    concat_all(
        seq![
            "["@,
            host,
            "]:"@,
            port,
        ],
    )
}

/// The SASL password map key of a smarthost.
pub fn smarthost_sasl_key(host: &str, port: u16) -> (r: String)
    ensures
        r@ == smarthost_sasl_key_text(host@, decimal(port as nat)),
{
    let port_s = decimal_string(port as u64);
    let parts: Vec<&str> = vec![
        "[",
        host,
        "]:",
        port_s.as_str(),
    ];
    assert(views_of(parts@) =~= seq![
        "["@,
        host@,
        "]:"@,
        port_s@,
    ]);
    concat_strs(&parts)
}

/// The DNS name of a domain's DKIM key.
pub open spec fn dkim_dns_name_text(domain: Seq<char>) -> Seq<char> {
    concat_all(
        seq![
            "mail._domainkey."@,
            domain,
        ],
    )
}

/// The DNS name of a domain's DKIM key.
pub fn dkim_dns_name(domain: &str) -> (r: String)
    ensures
        r@ == dkim_dns_name_text(domain@),
{
    let parts: Vec<&str> = vec![
        "mail._domainkey.",
        domain,
    ];
    assert(views_of(parts@) =~= seq![
        "mail._domainkey."@,
        domain@,
    ]);
    concat_strs(&parts)
}


/// Whether some line, trimmed, equals `s`.
pub open spec fn has_trimmed_line(lines: Seq<Seq<char>>, s: Seq<char>) -> bool {
    exists|i: int| 0 <= i < lines.len() && trim(#[trigger] lines[i]) == s
}

/// Whether some line starts with `p`.
pub open spec fn has_line_with_prefix(lines: Seq<Seq<char>>, p: Seq<char>) -> bool {
    exists|i: int| 0 <= i < lines.len() && has_prefix(#[trigger] lines[i], p)
}

fn any_trimmed_line(lines: &Vec<String>, s: &Vec<char>) -> (r: bool)
    ensures
        r == has_trimmed_line(line_views(lines@), s@),
{
    let ghost lv = line_views(lines@);
    let mut i: usize = 0;
    while i < lines.len()
        invariant
            i <= lines@.len(),
            lv == line_views(lines@),
            forall|k: int| 0 <= k < i ==> trim(#[trigger] lv[k]) != s@,
        decreases lines@.len() - i,
    {
        let lc = chars_of(lines[i].as_str());
        let t = trim_chars(&lc);
        assert(lv[i as int] == lc@);
        if vec_eq(&t, s) {
            return true;
        }
        i = i + 1;
    }
    false
}

fn any_line_with_prefix(lines: &Vec<String>, p: &Vec<char>) -> (r: bool)
    ensures
        r == has_line_with_prefix(line_views(lines@), p@),
{
    let ghost lv = line_views(lines@);
    let mut i: usize = 0;
    while i < lines.len()
        invariant
            i <= lines@.len(),
            lv == line_views(lines@),
            forall|k: int| 0 <= k < i ==> !has_prefix(#[trigger] lv[k], p@),
        decreases lines@.len() - i,
    {
        let lc = chars_of(lines[i].as_str());
        assert(lv[i as int] == lc@);
        if starts_with_chars(&lc, p) {
            return true;
        }
        i = i + 1;
    }
    false
}

/// Checks a domain to add to the virtual domains file, already lower-cased:
/// refused when empty or already listed; the domain is handed back.
pub fn add_domain_check(domain: String, existing: &Vec<String>) -> (r: Result<String, MailError>)
    ensures
        domain@.len() == 0 ==> (r matches Err(MailError::BadRequest(m)) && m@
            == "domain is required"@),
        domain@.len() > 0 && has_trimmed_line(line_views(existing@), domain@) ==> (r matches Err(
            MailError::Conflict(m),
        ) && m@ == "domain '"@ + domain@ + "' already exists"@),
        r is Ok <==> domain@.len() > 0 && !has_trimmed_line(line_views(existing@), domain@),
        r matches Ok(d) ==> d@ == domain@,
{
    if domain.as_str().is_empty() {
        return Err(MailError::BadRequest(String::from_str("domain is required")));
    }
    let dc = chars_of(domain.as_str());
    if any_trimmed_line(existing, &dc) {
        let mut m = String::from_str("domain '");
        m.append(domain.as_str());
        m.append("' already exists");
        assert(m@ =~= "domain '"@ + domain@ + "' already exists"@);
        return Err(MailError::Conflict(m));
    }
    Ok(domain)
}

/// The new virtual domain for an `add domain` request: lower-cased, then
/// checked against the domains already listed.
pub fn add_domain_plan(domain: &str, existing: &Vec<String>) -> (r: Result<String, MailError>)
    ensures
        r is Ok <==> lower_case(domain@).len() > 0 && !has_trimmed_line(
            line_views(existing@),
            lower_case(domain@),
        ),
        r matches Ok(d) ==> d@ == lower_case(domain@),
        lower_case(domain@).len() == 0 ==> (r matches Err(MailError::BadRequest(m)) && m@
            == "domain is required"@),
        lower_case(domain@).len() > 0 && has_trimmed_line(line_views(existing@), lower_case(domain@)) ==> (
        r matches Err(MailError::Conflict(m)) && m@ == "domain '"@ + lower_case(domain@) + "' already exists"@),
{
    let d = to_lowercase(domain);
    add_domain_check(d, existing)
}

/// A new mail account, after its checks.
pub struct AccountPlan {
    /// `user@domain`.
    pub email: String,
    /// The account's mail home directory.
    pub home_dir: String,
    /// The storage quota in MB.
    pub quota_mb: u64,
    /// The Postfix virtual mailbox map entry.
    pub mailbox_line: String,
}

/// Checks an account request whose user name and domain are already
/// lower-cased: both must be non-empty, the password at least 8 bytes, and
/// no Dovecot user line may start with `user@domain:`. The quota defaults
/// to 1024 MB.
pub fn create_account_plan(
    domain: &str,
    username: &str,
    password: &str,
    quota_mb: Option<u64>,
    existing_users: &Vec<String>,
) -> (r: Result<AccountPlan, MailError>)
    ensures
        (username@.len() == 0 || domain@.len() == 0) ==> (r matches Err(MailError::BadRequest(m))
            && m@ == "username and domain are required"@),
        (username@.len() > 0 && domain@.len() > 0 && password.len() < 8) ==> (r matches Err(
            MailError::BadRequest(m),
        ) && m@ == "password must be at least 8 characters"@),
        (username@.len() > 0 && domain@.len() > 0 && password.len() >= 8 && has_line_with_prefix(
            line_views(existing_users@),
            username@ + seq!['@'] + domain@ + seq![':'],
        )) ==> (r matches Err(MailError::Conflict(m)) && m@ == "account '"@ + username@ + seq!['@']
            + domain@ + "' already exists"@),
        r is Ok <==> username@.len() > 0 && domain@.len() > 0 && password.len() >= 8
            && !has_line_with_prefix(
            line_views(existing_users@),
            username@ + seq!['@'] + domain@ + seq![':'],
        ),
        r matches Ok(p) ==> {
            &&& p.email@ == username@ + seq!['@'] + domain@
            &&& p.home_dir@ == mail_home_dir_text(domain@, username@)
            &&& p.quota_mb == (match quota_mb {
                Some(q) => q,
                None => 1024,
            })
            &&& p.mailbox_line@ == mailbox_map_line_text(p.email@, domain@, username@)
        },
{
    let mut email = String::from_str(username);
    crate::text::push_char(&mut email, '@');
    email.append(domain);
    assert(email@ =~= username@ + seq!['@'] + domain@);
    let quota = match quota_mb {
        Some(q) => q,
        None => 1024,
    };
    if username.is_empty() || domain.is_empty() {
        return Err(MailError::BadRequest(String::from_str("username and domain are required")));
    }
    if password.len() < 8 {
        return Err(MailError::BadRequest(String::from_str("password must be at least 8 characters")));
    }
    let mut key = email.clone();
    crate::text::push_char(&mut key, ':');
    let kc = chars_of(key.as_str());
    assert(kc@ =~= username@ + seq!['@'] + domain@ + seq![':']);
    if any_line_with_prefix(existing_users, &kc) {
        let mut m = String::from_str("account '");
        m.append(email.as_str());
        m.append("' already exists");
        assert(m@ =~= "account '"@ + username@ + seq!['@'] + domain@ + "' already exists"@);
        return Err(MailError::Conflict(m));
    }
    let home_dir = mail_home_dir(domain, username);
    let mailbox_line = mailbox_map_line(email.as_str(), domain, username);
    Ok(AccountPlan { email, home_dir, quota_mb: quota, mailbox_line })
}

/// The Dovecot entry of a new account, given its password hash.
pub fn account_user_line(email: &str, hashed: &str, home_dir: &str, quota_mb: u64) -> (r: String)
    ensures
        r@ == dovecot_user_line_text(email@, hashed@, home_dir@, decimal(quota_mb as nat)),
{
    let q = decimal_string(quota_mb);
    dovecot_user_line(email, hashed, home_dir, q.as_str())
}

/// The index of the first `c` in `s` (meaningful when `s` holds one).
pub open spec fn first_index(s: Seq<char>, c: char) -> int {
    choose|i: int| 0 <= i < s.len() && s[i] == c && forall|j: int| 0 <= j < i ==> s[j] != c
}

/// `s` split at its first `c`, when it holds one.
pub open spec fn split_once(s: Seq<char>, c: char) -> Option<(Seq<char>, Seq<char>)> {
    if s.contains(c) {
        let i = first_index(s, c);
        Some((s.take(i), s.skip(i + 1)))
    } else {
        None
    }
}

/// The first index of `c` is the one before which `c` does not occur.
pub proof fn lemma_first_index(s: Seq<char>, c: char, i: int)
    requires
        0 <= i < s.len(),
        s[i] == c,
        forall|j: int| 0 <= j < i ==> s[j] != c,
    ensures
        first_index(s, c) == i,
        s.contains(c),
{
    assert(s[i] == c);
    let k = first_index(s, c);
    assert(0 <= k < s.len() && s[k] == c && forall|j: int| 0 <= j < k ==> s[j] != c);
    if k < i {
        assert(s[k] != c);
    }
    if k > i {
        assert(s[i] != c);
    }
}

/// Splits `s` at its first `c` (`splitn(2, c)` with both parts).
pub fn split_once_chars(s: &Vec<char>, c: char) -> (r: Option<(Vec<char>, Vec<char>)>)
    ensures
        match split_once(s@, c) {
            Some(p) => r matches Some(q) && q.0@ == p.0 && q.1@ == p.1,
            None => r is None,
        },
{
    let n = s.len();
    let mut i: usize = 0;
    while i < n
        invariant
            n == s@.len(),
            i <= n,
            forall|k: int| 0 <= k < i ==> s@[k] != c,
        decreases n - i,
    {
        if s[i] == c {
            proof {
                lemma_first_index(s@, c, i as int);
            }
            let a = crate::text::slice_chars(s, 0, i);
            let b = crate::text::slice_chars(s, i + 1, n);
            assert(a@ =~= s@.take(i as int));
            assert(b@ =~= s@.skip(i + 1));
            return Some((a, b));
        }
        i = i + 1;
    }
    assert(!s@.contains(c));
    None
}

/// Splits an address into user and domain at its first `@`; `None` when it
/// holds no `@`.
pub fn split_email(email: &str) -> (r: Option<(String, String)>)
    ensures
        match split_once(email@, '@') {
            Some(p) => r matches Some(q) && q.0@ == p.0 && q.1@ == p.1,
            None => r is None,
        },
{
    let v = chars_of(email);
    match split_once_chars(&v, '@') {
        Some((a, b)) => Some((string_from_chars(&a), string_from_chars(&b))),
        None => None,
    }
}

/// The first line starting with `prefix` from index `from` whose text has
/// a second `:` after the prefix's `email:` (so that it splits into at
/// least three `:`-separated parts).
pub open spec fn password_line_index(lines: Seq<Seq<char>>, prefix: Seq<char>, from: int) -> int
    decreases lines.len() - from,
{
    if from >= lines.len() {
        lines.len() as int
    } else if has_prefix(lines[from], prefix) && split_once(
        split_once(lines[from], ':').unwrap().1,
        ':',
    ) is Some {
        from
    } else {
        password_line_index(lines, prefix, from + 1)
    }
}

/// A Dovecot entry with its password field replaced: `email:hashed:` and
/// everything after the line's second `:`.
pub open spec fn with_new_password(line: Seq<char>, email: Seq<char>, hashed: Seq<char>) -> Seq<
    char,
> {
    email + seq![':'] + hashed + seq![':'] + split_once(split_once(line, ':').unwrap().1, ':').unwrap().1
}

/// Replaces the password hash of `email` in the Dovecot users file: the
/// first line starting with `email:` that has a second `:` gets
/// `email:hashed:` followed by the rest of its fields; `None` when no line
/// qualifies.
#[verifier::spinoff_prover]
#[verifier::rlimit(30)]
pub fn change_password_lines(input: Vec<String>, email: &str, hashed: &str) -> (r: Option<
    Vec<String>,
>)
    ensures
        ({
            let lv = line_views(input@);
            let p = email@ + seq![':'];
            let k = password_line_index(lv, p, 0);
            if k < lv.len() {
                r matches Some(v) && line_views(v@) == lv.update(
                    k,
                    with_new_password(lv[k], email@, hashed@),
                )
            } else {
                r is None
            }
        }),
{
    let mut prefix = String::from_str(email);
    crate::text::push_char(&mut prefix, ':');
    let pc = chars_of(prefix.as_str());
    let mut lines = input;
    let ghost lv = line_views(lines@);
    let mut i: usize = 0;
    while i < lines.len()
        invariant
            i <= lines@.len(),
            lv == line_views(lines@),
            lv == line_views(input@),
            pc@ == email@ + seq![':'],
            password_line_index(lv, pc@, 0) == password_line_index(lv, pc@, i as int),
        decreases lines@.len() - i,
    {
        let lc = chars_of(lines[i].as_str());
        assert(lv[i as int] == lc@);
        if starts_with_chars(&lc, &pc) {
            assert(lc@.subrange(0, pc@.len() as int) == pc@);
            assert(lc@[email@.len() as int] == pc@[email@.len() as int]);
            assert(lc@.contains(':'));
            match split_once_chars(&lc, ':') {
                Some((_first, rest)) => {
                    match split_once_chars(&rest, ':') {
                        Some((_second, tail)) => {
                            let mut out = String::from_str(email);
                            crate::text::push_char(&mut out, ':');
                            out.append(hashed);
                            crate::text::push_char(&mut out, ':');
                            let t = string_from_chars(&tail);
                            out.append(t.as_str());
                            assert(out@ =~= with_new_password(lv[i as int], email@, hashed@));
                            assert(password_line_index(lv, pc@, i as int) == i);
                            lines.set(i, out);
                            assert(line_views(lines@) =~= lv.update(
                                i as int,
                                with_new_password(lv[i as int], email@, hashed@),
                            ));
                            return Some(lines);
                        },
                        None => {},
                    }
                },
                None => {},
            }
        }
        i = i + 1;
    }
    None
}

/// A new forwarder after its checks, from already lower-cased addresses:
/// both must be given and differ, and no alias line may start with
/// `from `; the alias line `from to` is handed back.
pub fn forwarder_line(from: &str, to: &str, existing: &Vec<String>) -> (r: Result<String, MailError>)
    ensures
        (from@.len() == 0 || to@.len() == 0) ==> (r matches Err(MailError::BadRequest(m)) && m@
            == "from_address and to_address are required"@),
        (from@.len() > 0 && to@.len() > 0 && from@ == to@) ==> (r matches Err(
            MailError::BadRequest(m),
        ) && m@ == "from_address and to_address must be different"@),
        r is Ok <==> from@.len() > 0 && to@.len() > 0 && from@ != to@ && !has_line_with_prefix(
            line_views(existing@),
            from@ + seq![' '],
        ),
        (from@.len() > 0 && to@.len() > 0 && from@ != to@ && has_line_with_prefix(
            line_views(existing@),
            from@ + seq![' '],
        )) ==> (r matches Err(MailError::Conflict(m)) && m@ == "forwarder for '"@ + from@
            + "' already exists"@),
        r matches Ok(l) ==> l@ == from@ + seq![' '] + to@,
{
    if from.is_empty() || to.is_empty() {
        return Err(
            MailError::BadRequest(String::from_str("from_address and to_address are required")),
        );
    }
    if str_eq(from, to) {
        return Err(
            MailError::BadRequest(String::from_str("from_address and to_address must be different")),
        );
    }
    let mut key = String::from_str(from);
    crate::text::push_char(&mut key, ' ');
    let kc = chars_of(key.as_str());
    assert(kc@ =~= from@ + seq![' ']);
    if any_line_with_prefix(existing, &kc) {
        let mut m = String::from_str("forwarder for '");
        m.append(from);
        m.append("' already exists");
        assert(m@ =~= "forwarder for '"@ + from@ + "' already exists"@);
        return Err(MailError::Conflict(m));
    }
    let mut line = key;
    line.append(to);
    assert(line@ =~= from@ + seq![' '] + to@);
    Ok(line)
}

/// The date test of a vacation script for optional start and end dates.
pub open spec fn date_check_of(start: Option<Seq<char>>, end: Option<Seq<char>>) -> Seq<char> {
    match (start, end) {
        (Some(s), Some(e)) => sieve_date_window_text(s, e),
        (Some(s), None) => sieve_date_from_text(s),
        (None, Some(e)) => sieve_date_until_text(e),
        (None, None) => Seq::empty(),
    }
}

/// The view of an optional string slice.
pub open spec fn opt_view(o: Option<&str>) -> Option<Seq<char>> {
    match o {
        Some(s) => Some(s@),
        None => None,
    }
}

/// Renders the vacation Sieve script of an autoresponder: spam is left
/// alone, replies go out at most daily, and only between the optional
/// start and end dates.
pub fn build_vacation_sieve(
    subject: &str,
    body: &str,
    start_date: Option<&str>,
    end_date: Option<&str>,
) -> (r: String)
    ensures
        r@ == vacation_script_text(
            date_check_of(opt_view(start_date), opt_view(end_date)),
            subject@,
            body@,
        ),
{
    let date_check = match (start_date, end_date) {
        (Some(s), Some(e)) => sieve_date_window(s, e),
        (Some(s), None) => sieve_date_from(s),
        (None, Some(e)) => sieve_date_until(e),
        (None, None) => String::new(),
    };
    vacation_script(date_check.as_str(), subject, body)
}

/// The sending plans a domain's hourly limit defaults from.
#[derive(Debug, Clone, Copy, PartialEq, Eq)]
pub enum Plan {
    /// 500 messages an hour.
    Community,
    /// 5000 messages an hour.
    Pro,
}

impl Plan {
    /// The plan a request without one gets: `Community`.
    pub fn default_plan() -> (r: Plan)
        ensures
            r == Plan::Community,
    {
        Plan::Community
    }
}

/// The hourly sending limit: the override when given, else 5000 for Pro and
/// 500 for Community.
pub open spec fn hourly_limit(plan: Plan, limit_per_hour: Option<u32>) -> u32 {
    match limit_per_hour {
        Some(l) => l,
        None => match plan {
            Plan::Pro => 5000,
            Plan::Community => 500,
        },
    }
}

/// The entries a rate limit writes.
pub struct RateLimitPlan {
    /// Messages per hour.
    pub limit_per_hour: u32,
    /// `limit/3600`.
    pub rate_entry: String,
    /// The rate map key, `domain@<domain>`.
    pub map_key: String,
}

/// The rate limit of an already lower-cased domain: refused when the
/// domain is empty; otherwise the limit, the `limit/3600` entry and the
/// `domain@<domain>` key.
pub fn rate_limit_plan(domain: &str, plan: Plan, limit_per_hour: Option<u32>) -> (r: Result<
    RateLimitPlan,
    MailError,
>)
    ensures
        r is Err <==> domain@.len() == 0,
        r matches Err(e) ==> (e matches MailError::BadRequest(m) && m@ == "domain is required"@),
        r matches Ok(p) ==> {
            &&& p.limit_per_hour == hourly_limit(plan, limit_per_hour)
            &&& p.rate_entry@ == decimal(p.limit_per_hour as nat) + "/3600"@
            &&& p.map_key@ == "domain@"@ + domain@
        },
{
    if domain.is_empty() {
        return Err(MailError::BadRequest(String::from_str("domain is required")));
    }
    let limit = match limit_per_hour {
        Some(l) => l,
        None => match plan {
            Plan::Pro => 5000,
            Plan::Community => 500,
        },
    };
    let mut rate_entry = decimal_string(limit as u64);
    rate_entry.append("/3600");
    let mut map_key = String::from_str("domain@");
    map_key.append(domain);
    Ok(RateLimitPlan { limit_per_hour: limit, rate_entry, map_key })
}

/// The rate map after setting a domain's limit: the entry `key rate`
/// replaces the first line keyed `key ` or is added.
pub fn rate_limit_lines(lines: Vec<String>, plan: &RateLimitPlan) -> (r: Vec<String>)
    ensures
        line_views(r@) == upserted(
            line_views(lines@),
            plan.map_key@ + seq![' '],
            plan.map_key@ + seq![' '] + plan.rate_entry@,
        ),
{
    let mut prefix = plan.map_key.clone();
    crate::text::push_char(&mut prefix, ' ');
    assert(prefix@ =~= plan.map_key@ + seq![' ']);
    let mut new_line = prefix.clone();
    new_line.append(plan.rate_entry.as_str());
    assert(new_line@ =~= plan.map_key@ + seq![' '] + plan.rate_entry@);
    upsert_line(lines, prefix.as_str(), new_line.as_str())
}

/// The `main.cf` fragment that wires Postfix to policyd-rate-limit.
pub const RATE_LIMIT_MAINCF_FRAGMENT: &'static str = "# ── JottiCP: policyd-rate-limit integration ──────────────────────────────────\n# TODO: install policyd-rate-limit (apt install policyd-rate-limit)\n# TODO: configure /etc/policyd-rate-limit.conf with:\n#   [limits]\n#   default = 500/3600\n#   config_file = /etc/postfix/rate_limits\n# TODO: start the daemon: systemctl enable --now policyd-rate-limit\n#\n# Add to /etc/postfix/main.cf:\n# smtpd_recipient_restrictions =\n#     permit_mynetworks\n#     permit_sasl_authenticated\n#     check_policy_service inet:127.0.0.1:10033\n#     reject_unauth_destination\n# ─────────────────────────────────────────────────────────────────────────────\n";

/// The Postfix `main.cf` fragment for the policyd-rate-limit integration.
pub fn postfix_rate_limit_maincf_fragment() -> (r: &'static str)
    ensures
        r@ == RATE_LIMIT_MAINCF_FRAGMENT@,
{
    RATE_LIMIT_MAINCF_FRAGMENT
}

/// The Sieve script of a mailbox, `<base>/<email>.sieve`, for addresses
/// without `/` or `..`.
pub open spec fn sieve_path_of(sieve_base: Seq<char>, email: Seq<char>) -> Option<Seq<char>> {
    if email.contains('/') || contains_seq(email, ".."@) {
        None
    } else {
        Some(join_path(sieve_base, email + ".sieve"@))
    }
}

/// Where a mailbox's Sieve script lives; `None` for addresses that could
/// leave the Sieve directory.
pub fn sieve_path_for_email(sieve_base: &str, email: &str) -> (r: Option<String>)
    ensures
        match sieve_path_of(sieve_base@, email@) {
            Some(p) => r matches Some(q) && q@ == p,
            None => r is None,
        },
{
    let ev = chars_of(email);
    let mut i: usize = 0;
    while i < ev.len()
        invariant
            i <= ev@.len(),
            ev@ == email@,
            forall|k: int| 0 <= k < i ==> ev@[k] != '/',
        decreases ev@.len() - i,
    {
        if ev[i] == '/' {
            assert(ev@[i as int] == '/');
            assert(email@.contains('/'));
            return None;
        }
        i = i + 1;
    }
    let dd = chars_of("..");
    if contains_chars(&ev, &dd) {
        return None;
    }
    let mut name = String::from_str(email);
    name.append(".sieve");
    Some(join_path_str(sieve_base, name.as_str()))
}

/// The TLS security level written for a relay's `tls` mode: `may` for
/// `none`, `encrypt` otherwise.
pub open spec fn tls_level_of(tls: Seq<char>) -> Seq<char> {
    if tls == "none"@ {
        "may"@
    } else {
        "encrypt"@
    }
}

/// The `main.cf` settings a SASL relay needs, in order.
pub open spec fn sasl_settings(tls: Seq<char>) -> Seq<(Seq<char>, Seq<char>)> {
    seq![
        ("smtp_sasl_auth_enable"@, "yes"@),
        ("smtp_sasl_password_maps"@, "hash:/etc/postfix/sasl_passwd"@),
        ("smtp_sasl_security_options"@, "noanonymous"@),
        ("smtp_tls_security_level"@, tls_level_of(tls)),
    ]
}

/// `lines` after adding, for each of the first `n` settings whose key no
/// line starts with, the line `key = value`.
pub open spec fn with_settings(lines: Seq<Seq<char>>, settings: Seq<(Seq<char>, Seq<char>)>, n: int) -> Seq<
    Seq<char>,
>
    decreases n,
{
    if n <= 0 {
        lines
    } else {
        let prev = with_settings(lines, settings, n - 1);
        let (k, v) = settings[n - 1];
        if exists|i: int| 0 <= i < prev.len() && has_prefix(#[trigger] prev[i], k) {
            prev
        } else {
            prev.push(k + " = "@ + v)
        }
    }
}

/// Some line starts with the key.
pub open spec fn key_present(lines: Seq<Seq<char>>, key: Seq<char>) -> bool {
    exists|i: int| 0 <= i < lines.len() && has_prefix(#[trigger] lines[i], key)
}

proof fn lemma_settings_keys_present(lines: Seq<Seq<char>>, settings: Seq<(Seq<char>, Seq<char>)>, n: int)
    requires
        0 <= n <= settings.len(),
    ensures
        forall|j: int| 0 <= j < n ==> #[trigger] key_present(with_settings(lines, settings, n), settings[j].0),
    decreases n,
{
    if n > 0 {
        lemma_settings_keys_present(lines, settings, n - 1);
        let prev = with_settings(lines, settings, n - 1);
        let cur = with_settings(lines, settings, n);
        let (k, v) = settings[n - 1];
        if !key_present(prev, k) {
            assert(cur == prev.push(k + " = "@ + v));
            assert((k + " = "@ + v).subrange(0, k.len() as int) =~= k);
            assert(has_prefix(cur[prev.len() as int], k));
        }
        assert forall|j: int| 0 <= j < n implies #[trigger] key_present(cur, settings[j].0) by {
            if j < n - 1 {
                assert(key_present(prev, settings[j].0));
                let i0 = choose|i: int| 0 <= i < prev.len() && has_prefix(#[trigger] prev[i], settings[j].0);
                assert(cur[i0] == prev[i0]);
            }
        }
    }
}

proof fn lemma_settings_keep_present(lines: Seq<Seq<char>>, settings: Seq<(Seq<char>, Seq<char>)>, m: int)
    requires
        0 <= m <= settings.len(),
        forall|j: int| 0 <= j < m ==> #[trigger] key_present(lines, settings[j].0),
    ensures
        with_settings(lines, settings, m) == lines,
    decreases m,
{
    if m > 0 {
        lemma_settings_keep_present(lines, settings, m - 1);
        assert(key_present(lines, settings[m - 1].0));
    }
}

/// Adding the SASL relay settings a second time changes nothing: each key
/// is present after the first time.
pub proof fn lemma_sasl_settings_idempotent(lines: Seq<Seq<char>>, tls: Seq<char>)
    ensures
        with_settings(with_settings(lines, sasl_settings(tls), 4), sasl_settings(tls), 4) == with_settings(
            lines,
            sasl_settings(tls),
            4,
        ),
{
    lemma_settings_keys_present(lines, sasl_settings(tls), 4);
    lemma_settings_keep_present(with_settings(lines, sasl_settings(tls), 4), sasl_settings(tls), 4);
}

/// The `main.cf` lines with the SASL relay settings added where their key
/// is missing, and whether anything was added.
pub fn ensure_sasl_lines(input: Vec<String>, tls: &str) -> (r: (Vec<String>, bool))
    ensures
        line_views(r.0@) == with_settings(line_views(input@), sasl_settings(tls@), 4),
        r.1 == (line_views(r.0@).len() != input@.len()),
{
    let level = if str_eq(tls, "none") { "may" } else { "encrypt" };
    let keys: Vec<&str> = vec![
        "smtp_sasl_auth_enable",
        "smtp_sasl_password_maps",
        "smtp_sasl_security_options",
        "smtp_tls_security_level",
    ];
    let vals: Vec<&str> = vec!["yes", "hash:/etc/postfix/sasl_passwd", "noanonymous", level];
    let ghost st = sasl_settings(tls@);
    assert(forall|j: int| 0 <= j < 4 ==> #[trigger] st[j].0 == keys@[j]@ && st[j].1 == vals@[j]@);
    let mut lines = input;
    let ghost lv0 = line_views(lines@);
    let n0 = lines.len();
    let mut j: usize = 0;
    while j < 4
        invariant
            j <= 4,
            keys@.len() == 4,
            vals@.len() == 4,
            lv0 == line_views(input@),
            st == sasl_settings(tls@),
            forall|q: int| 0 <= q < 4 ==> #[trigger] st[q].0 == keys@[q]@ && st[q].1 == vals@[q]@,
            line_views(lines@) == with_settings(lv0, st, j as int),
            n0 == lv0.len(),
        decreases 4 - j,
    {
        let kc = chars_of(keys[j]);
        let ghost prev = line_views(lines@);
        let mut found = false;
        let mut i: usize = 0;
        while i < lines.len() && !found
            invariant
                i <= lines@.len(),
                prev == line_views(lines@),
                kc@ == keys@[j as int]@,
                found ==> exists|q: int| 0 <= q < i && has_prefix(#[trigger] prev[q], kc@),
                !found ==> forall|q: int| 0 <= q < i ==> !has_prefix(#[trigger] prev[q], kc@),
            decreases lines@.len() - i,
        {
            let lc = chars_of(lines[i].as_str());
            assert(prev[i as int] == lc@);
            if starts_with_chars(&lc, &kc) {
                found = true;
            }
            i = i + 1;
        }
        if !found {
            let mut l = String::from_str(keys[j]);
            l.append(" = ");
            l.append(vals[j]);
            lines.push(l);
            assert(line_views(lines@) =~= prev.push(st[j as int].0 + " = "@ + st[j as int].1));
        }
        j = j + 1;
    }
    let changed = lines.len() != n0;
    assert(line_views(lines@).len() == lines@.len());
    (lines, changed)
}

proof fn lemma_with_settings_grows(lines: Seq<Seq<char>>, settings: Seq<(Seq<char>, Seq<char>)>, n: int)
    ensures
        with_settings(lines, settings, n).len() >= lines.len(),
    decreases n,
{
    if n > 0 {
        lemma_with_settings_grows(lines, settings, n - 1);
    }
}

/// A queue id the daemon acts on: ASCII letters and digits only.
pub open spec fn valid_queue_id(id: Seq<char>) -> bool {
    forall|i: int| 0 <= i < id.len() ==> is_ascii_alnum(#[trigger] id[i])
}

/// `c` is an ASCII letter or digit.
pub open spec fn is_ascii_alnum(c: char) -> bool {
    ('0' <= c <= '9') || ('a' <= c <= 'z') || ('A' <= c <= 'Z')
}

/// Whether `c` is an ASCII letter or digit.
pub fn ascii_alnum(c: char) -> (r: bool)
    ensures
        r == is_ascii_alnum(c),
{
    ('0' <= c && c <= '9') || ('a' <= c && c <= 'z') || ('A' <= c && c <= 'Z')
}

/// Checks a queue id before it is handed to `postqueue`.
pub fn queue_id_ok(id: &str) -> (r: bool)
    ensures
        r == valid_queue_id(id@),
{
    let v = chars_of(id);
    let mut i: usize = 0;
    while i < v.len()
        invariant
            i <= v@.len(),
            v@ == id@,
            forall|k: int| 0 <= k < i ==> is_ascii_alnum(#[trigger] v@[k]),
        decreases v@.len() - i,
    {
        if !ascii_alnum(v[i]) {
            assert(!is_ascii_alnum(v@[i as int]));
            assert(v@[i as int] == id@[i as int]);
            return false;
        }
        i = i + 1;
    }
    true
}

/// The `tls` mode of a relay request that names none: `tls`.
pub fn default_tls_mode() -> (r: String)
    ensures
        r@ == "tls"@,
{
    String::from_str("tls")
}

/// The map entries that bind a domain's outgoing mail to an address.
pub struct IpBindPlan {
    /// Key prefix of the sender transport entry, `@domain `.
    pub transport_prefix: String,
    /// `@domain   smtp_bind:IP`.
    pub transport_entry: String,
    /// Key prefix of the bind map entry, `IP `.
    pub bind_prefix: String,
    /// `IP   inet_interfaces=IP`.
    pub bind_entry: String,
}

/// The entries binding an already lower-cased domain to an outgoing IP
/// address (trimmed, with `ip_is_address` telling whether it parses as an
/// IP address): refused for an empty domain, then for an empty or
/// unparsable address.
pub fn ip_bind_plan(domain: &str, ip: &str, ip_is_address: bool) -> (r: Result<IpBindPlan, MailError>)
    ensures
        domain@.len() == 0 ==> (r matches Err(MailError::BadRequest(m)) && m@ == "domain is required"@),
        domain@.len() > 0 && (ip@.len() == 0 || !ip_is_address) ==> (r matches Err(
            MailError::BadRequest(m),
        ) && m@ == "invalid ip_address: "@ + ip@),
        r is Ok <==> domain@.len() > 0 && ip@.len() > 0 && ip_is_address,
        r matches Ok(p) ==> {
            &&& p.transport_prefix@ == seq!['@'] + domain@ + seq![' ']
            &&& p.transport_entry@ == seq!['@'] + domain@ + "   smtp_bind:"@ + ip@
            &&& p.bind_prefix@ == ip@ + seq![' ']
            &&& p.bind_entry@ == ip@ + "   inet_interfaces="@ + ip@
        },
{
    if domain.is_empty() {
        return Err(MailError::BadRequest(String::from_str("domain is required")));
    }
    if ip.is_empty() || !ip_is_address {
        let mut m = String::from_str("invalid ip_address: ");
        m.append(ip);
        return Err(MailError::BadRequest(m));
    }
    let mut key = String::new();
    crate::text::push_char(&mut key, '@');
    key.append(domain);
    let mut transport_prefix = key.clone();
    crate::text::push_char(&mut transport_prefix, ' ');
    let mut transport_entry = key;
    transport_entry.append("   smtp_bind:");
    transport_entry.append(ip);
    let mut bind_prefix = String::from_str(ip);
    crate::text::push_char(&mut bind_prefix, ' ');
    let mut bind_entry = String::from_str(ip);
    bind_entry.append("   inet_interfaces=");
    bind_entry.append(ip);
    assert(transport_prefix@ =~= seq!['@'] + domain@ + seq![' ']);
    assert(transport_entry@ =~= seq!['@'] + domain@ + "   smtp_bind:"@ + ip@);
    assert(bind_prefix@ =~= ip@ + seq![' ']);
    Ok(IpBindPlan { transport_prefix, transport_entry, bind_prefix, bind_entry })
}

/// The map entries of a domain's relay host.
pub struct SmarthostPlan {
    /// `smtp:[host]:port`.
    pub relay: String,
    /// Key prefix of the transport entry, `domain `.
    pub transport_prefix: String,
    /// `domain smtp:[host]:port`.
    pub transport_entry: String,
    /// With credentials: the SASL key prefix `[host]:port ` and the entry
    /// `[host]:port user:password`.
    pub sasl: Option<(String, String)>,
}

/// The relay entries of an already lower-cased domain: refused when the
/// domain or host is empty, or the port is 0; SASL entries only when both a
/// user name and a password are given.
pub fn smarthost_plan(
    domain: &str,
    host: &str,
    port: u16,
    username: Option<&str>,
    password: Option<&str>,
) -> (r: Result<SmarthostPlan, MailError>)
    ensures
        (domain@.len() == 0 || host@.len() == 0) ==> (r matches Err(MailError::BadRequest(m)) && m@
            == "domain and host are required"@),
        (domain@.len() > 0 && host@.len() > 0 && port == 0) ==> (r matches Err(
            MailError::BadRequest(m),
        ) && m@ == "port must be > 0"@),
        r is Ok <==> domain@.len() > 0 && host@.len() > 0 && port > 0,
        r matches Ok(p) ==> {
            &&& p.relay@ == smarthost_relay_text(host@, decimal(port as nat))
            &&& p.transport_prefix@ == domain@ + seq![' ']
            &&& p.transport_entry@ == domain@ + seq![' '] + p.relay@
            &&& match (username, password) {
                (Some(u), Some(pw)) => p.sasl matches Some(e) && e.0@ == smarthost_sasl_key_text(
                    host@,
                    decimal(port as nat),
                ) + seq![' '] && e.1@ == smarthost_sasl_key_text(host@, decimal(port as nat))
                    + seq![' '] + u@ + seq![':'] + pw@,
                _ => p.sasl is None,
            }
        },
{
    if domain.is_empty() || host.is_empty() {
        return Err(MailError::BadRequest(String::from_str("domain and host are required")));
    }
    if port == 0 {
        return Err(MailError::BadRequest(String::from_str("port must be > 0")));
    }
    let relay = smarthost_relay(host, port);
    let mut transport_prefix = String::from_str(domain);
    crate::text::push_char(&mut transport_prefix, ' ');
    let mut transport_entry = transport_prefix.clone();
    transport_entry.append(relay.as_str());
    assert(transport_prefix@ =~= domain@ + seq![' ']);
    let sasl = match (username, password) {
        (Some(u), Some(pw)) => {
            let key = smarthost_sasl_key(host, port);
            let mut pre = key.clone();
            crate::text::push_char(&mut pre, ' ');
            let mut entry = pre.clone();
            entry.append(u);
            crate::text::push_char(&mut entry, ':');
            entry.append(pw);
            assert(pre@ =~= key@ + seq![' ']);
            assert(entry@ =~= key@ + seq![' '] + u@ + seq![':'] + pw@);
            Some((pre, entry))
        },
        _ => None,
    };
    Ok(SmarthostPlan { relay, transport_prefix, transport_entry, sasl })
}

/// The DNS TXT value `rspamadm dkim_keygen` printed: the first line that
/// holds `v=DKIM1`, trimmed, or else the whole output trimmed.
pub open spec fn dkim_value_of(stdout: Seq<char>) -> Seq<char> {
    let ls = crate::text::lines_of(stdout);
    if exists|i: int| 0 <= i < ls.len() && contains_seq(#[trigger] ls[i], "v=DKIM1"@) {
        trim(ls[dkim_line_index(ls, 0)])
    } else {
        trim(stdout)
    }
}

/// The index of the first of `lines` from `from` on that holds `v=DKIM1`.
pub open spec fn dkim_line_index(lines: Seq<Seq<char>>, from: int) -> int
    decreases lines.len() - from,
{
    if from >= lines.len() {
        lines.len() as int
    } else if contains_seq(lines[from], "v=DKIM1"@) {
        from
    } else {
        dkim_line_index(lines, from + 1)
    }
}

/// Extracts the DKIM TXT record value from the output of `rspamadm`.
pub fn dkim_dns_value(stdout: &str) -> (r: String)
    ensures
        r@ == dkim_value_of(stdout@),
{
    let sv = chars_of(stdout);
    let ls = crate::text::lines_chars(&sv);
    let ghost lv = crate::text::lines_of(stdout@);
    let key = chars_of("v=DKIM1");
    let mut i: usize = 0;
    while i < ls.len()
        invariant
            ls@.len() == lv.len(),
            lv == crate::text::lines_of(stdout@),
            forall|k: int| 0 <= k < ls@.len() ==> #[trigger] ls@[k]@ == lv[k],
            key@ == "v=DKIM1"@,
            i <= ls@.len(),
            forall|k: int| 0 <= k < i ==> !contains_seq(#[trigger] lv[k], "v=DKIM1"@),
            dkim_line_index(lv, 0) == dkim_line_index(lv, i as int),
        decreases ls@.len() - i,
    {
        if contains_chars(&ls[i], &key) {
            assert(dkim_line_index(lv, i as int) == i);
            let t = trim_chars(&ls[i]);
            return string_from_chars(&t);
        }
        i = i + 1;
    }
    assert(!exists|k: int| 0 <= k < lv.len() && contains_seq(#[trigger] lv[k], "v=DKIM1"@));
    crate::text::trim_str(stdout)
}

} // verus!
