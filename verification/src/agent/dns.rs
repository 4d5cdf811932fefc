//! DNS zones and records: the names, SOA content and record data the agent
//! sends to PowerDNS.

use vstd::prelude::*;
use crate::agent::AgentError;
use crate::text::{
    all_digits, chars_of, decimal, decimal_string, ends_with_chars, has_suffix, is_digit, is_ws,
    str_eq, string_from_chars, trim, trim_chars, trim_start,
};

verus! {

/// `s` with a final dot, added when missing.
pub open spec fn with_dot(s: Seq<char>) -> Seq<char> {
    if s.len() > 0 && s.last() == '.' {
        s
    } else {
        s.push('.')
    }
}

/// Makes a name fully qualified by appending a dot when it has none.
pub fn ensure_dot(s: &str) -> (r: String)
    ensures
        r@ == with_dot(s@),
{
    let v = chars_of(s);
    let n = v.len();
    if n > 0 && v[n - 1] == '.' {
        String::from_str(s)
    } else {
        let mut r = String::from_str(s);
        r.append(".");
        proof {
            reveal_strlit(".");
        }
        assert(r@ =~= s@.push('.'));
        r
    }
}

/// A qualified name ends with a dot, and qualifying it again changes nothing.
pub proof fn lemma_with_dot_idempotent(s: Seq<char>)
    ensures
        with_dot(s).len() > 0,
        with_dot(s).last() == '.',
        with_dot(with_dot(s)) == with_dot(s),
{
}

/// `s` without any trailing `c` (`str::trim_end_matches` with a character).
pub open spec fn strip_trailing(s: Seq<char>, c: char) -> Seq<char>
    decreases s.len(),
{
    if s.len() > 0 && s.last() == c {
        strip_trailing(s.drop_last(), c)
    } else {
        s
    }
}

proof fn lemma_strip_trailing_take(s: Seq<char>, c: char, j: int)
    requires
        0 <= j <= s.len(),
        forall|k: int| j <= k < s.len() ==> #[trigger] s[k] == c,
    ensures
        strip_trailing(s, c) == strip_trailing(s.take(j), c),
    decreases s.len() - j,
{
    if j < s.len() {
        assert(s.drop_last().take(j) =~= s.take(j));
        lemma_strip_trailing_take(s.drop_last(), c, j);
    } else {
        assert(s.take(j) =~= s);
    }
}

/// Drops every trailing `c` from `s`.
pub fn strip_trailing_chars(s: &Vec<char>, c: char) -> (r: Vec<char>)
    ensures
        r@ == strip_trailing(s@, c),
{
    let mut j = s.len();
    while j > 0 && s[j - 1] == c
        invariant
            j <= s@.len(),
            forall|k: int| j <= k < s@.len() ==> #[trigger] s@[k] == c,
        decreases j,
    {
        j = j - 1;
    }
    proof {
        lemma_strip_trailing_take(s@, c, j as int);
    }
    let r = crate::text::slice_chars(s, 0, j);
    assert(r@ =~= s@.take(j as int));
    r
}

/// The fully qualified name of a record called `name` in the zone
/// `zone_fqdn`: the zone itself for an empty name or `@`; a name already
/// inside the zone, qualified; any other name, prefixed to the zone.
pub open spec fn record_fqdn_of(name: Seq<char>, zone_fqdn: Seq<char>) -> Seq<char> {
    let n = trim(name);
    let z = strip_trailing(zone_fqdn, '.');
    let nn = strip_trailing(n, '.');
    if n.len() == 0 || n == seq!['@'] {
        zone_fqdn
    } else if nn == z || has_suffix(nn, seq!['.'] + z) {
        with_dot(nn)
    } else {
        nn + seq!['.'] + zone_fqdn
    }
}

/// A record name qualified against a fully qualified zone is itself fully
/// qualified: it ends with a dot.
pub proof fn lemma_record_fqdn_qualified(name: Seq<char>, zone: Seq<char>)
    ensures
        record_fqdn_of(name, with_dot(zone)).len() > 0,
        record_fqdn_of(name, with_dot(zone)).last() == '.',
{
    let zf = with_dot(zone);
    let n = trim(name);
    let nn = strip_trailing(n, '.');
    if !(n.len() == 0 || n == seq!['@']) && !(nn == strip_trailing(zf, '.') || has_suffix(nn, seq!['.'] + strip_trailing(zf, '.'))) {
        let r = nn + seq!['.'] + zf;
        assert(r.last() == zf.last());
    }
}

/// Qualifies a record name against its zone.
pub fn record_fqdn(name: &str, zone_fqdn: &str) -> (r: String)
    ensures
        r@ == record_fqdn_of(name@, zone_fqdn@),
{
    let nv = chars_of(name);
    let n = trim_chars(&nv);
    if n.len() == 0 || (n.len() == 1 && n[0] == '@') {
        assert(n@.len() == 1 ==> n@ =~= seq!['@'] || n@[0] != '@');
        return String::from_str(zone_fqdn);
    }
    assert(n@ != seq!['@']) by {
        if n@ == seq!['@'] {
            assert(n@[0] == '@');
        }
    }
    let zv = chars_of(zone_fqdn);
    let z = strip_trailing_chars(&zv, '.');
    let nn = strip_trailing_chars(&n, '.');
    let mut dz: Vec<char> = Vec::new();
    dz.push('.');
    let mut k: usize = 0;
    while k < z.len()
        invariant
            k <= z@.len(),
            dz@ == seq!['.'] + z@.take(k as int),
        decreases z@.len() - k,
    {
        dz.push(z[k]);
        assert(z@.take(k + 1) =~= z@.take(k as int).push(z@[k as int]));
        k = k + 1;
    }
    assert(z@.take(z@.len() as int) =~= z@);
    if crate::text::vec_eq(&nn, &z) || ends_with_chars(&nn, &dz) {
        let s = string_from_chars(&nn);
        ensure_dot(s.as_str())
    } else {
        let mut out = nn.clone();
        out.push('.');
        let mut i: usize = 0;
        let ghost base = out@;
        while i < zv.len()
            invariant
                i <= zv@.len(),
                out@ == base + zv@.take(i as int),
            decreases zv@.len() - i,
        {
            out.push(zv[i]);
            assert(zv@.take(i + 1) =~= zv@.take(i as int).push(zv@[i as int]));
            i = i + 1;
        }
        assert(zv@.take(zv@.len() as int) =~= zv@);
        assert(out@ =~= nn@ + seq!['.'] + zone_fqdn@);
        string_from_chars(&out)
    }
}

/// The characters of `t` up to its first whitespace.
pub open spec fn leading_word(t: Seq<char>) -> Seq<char>
    decreases t.len(),
{
    if t.len() == 0 || is_ws(t[0]) {
        Seq::empty()
    } else {
        seq![t[0]] + leading_word(t.drop_first())
    }
}

/// The first whitespace-separated word of `s` (empty when there is none).
pub open spec fn first_word(s: Seq<char>) -> Seq<char> {
    leading_word(trim_start(s))
}

/// The first whitespace-separated word of `s` exists and is made of ASCII
/// digits.
pub open spec fn first_word_is_number(s: Seq<char>) -> bool {
    first_word(s).len() > 0 && all_digits(first_word(s))
}

proof fn lemma_leading_word_prefix(t: Seq<char>, k: int)
    requires
        0 <= k <= t.len(),
        forall|i: int| 0 <= i < k ==> !is_ws(#[trigger] t[i]),
        k == t.len() || is_ws(t[k]),
    ensures
        leading_word(t) == t.take(k),
    decreases k,
{
    if k == 0 {
        assert(t.take(0) =~= Seq::<char>::empty());
    } else {
        lemma_leading_word_prefix(t.drop_first(), k - 1);
        assert(t.take(k) =~= seq![t[0]] + t.drop_first().take(k - 1));
    }
}

/// Whether the first whitespace-separated word of `s` is a number.
pub fn first_word_numeric(s: &Vec<char>) -> (r: bool)
    ensures
        r == first_word_is_number(s@),
{
    let n = s.len();
    let mut i: usize = 0;
    while i < n && crate::text::is_ws_char(s[i])
        invariant
            n == s@.len(),
            i <= n,
            forall|k: int| 0 <= k < i ==> is_ws(#[trigger] s@[k]),
        decreases n - i,
    {
        i = i + 1;
    }
    proof {
        crate::text::lemma_trim_start_skip(s@, i as int);
        assert(s@.skip(i as int).len() == 0 || !is_ws(s@.skip(i as int)[0]));
    }
    let ghost t = s@.skip(i as int);
    assert(trim_start(t) == t);
    let mut j = i;
    let mut digits = true;
    while j < n && !crate::text::is_ws_char(s[j])
        invariant
            n == s@.len(),
            i <= j <= n,
            t == s@.skip(i as int),
            forall|k: int| 0 <= k < j - i ==> !is_ws(#[trigger] t[k]),
            digits == all_digits(t.take(j - i)),
        decreases n - j,
    {
        let c = s[j];
        assert(t[j - i] == c);
        let d = '0' <= c && c <= '9';
        assert(all_digits(t.take(j - i + 1)) == (all_digits(t.take(j - i)) && is_digit(c))) by {
            let a = t.take(j - i);
            let b = t.take(j - i + 1);
            assert(b =~= a.push(c));
            if all_digits(b) {
                assert forall|q: int| 0 <= q < a.len() implies is_digit(#[trigger] a[q]) by {
                    assert(a[q] == b[q]);
                }
                assert(is_digit(b[j - i]));
            }
        }
        digits = digits && d;
        j = j + 1;
    }
    proof {
        lemma_leading_word_prefix(t, j - i);
    }
    j > i && digits
}

/// The content sent for a record: for MX and SRV records with a positive
/// priority and content not already starting with a number, the priority
/// and a space in front; otherwise the content as given.
pub open spec fn record_content_of(rtype: Seq<char>, content: Seq<char>, priority: i32) -> Seq<
    char,
> {
    if (rtype == "MX"@ || rtype == "SRV"@) && priority > 0 && !first_word_is_number(content) {
        decimal(priority as nat) + seq![' '] + content
    } else {
        content
    }
}

/// Puts an MX or SRV record's priority in front of its content unless the
/// content already starts with one.
pub fn record_content(rtype: &str, content: &str, priority: i32) -> (r: String)
    ensures
        r@ == record_content_of(rtype@, content@, priority),
{
    let is_mx_srv = str_eq(rtype, "MX") || str_eq(rtype, "SRV");
    let cv = chars_of(content);
    if is_mx_srv && priority > 0 && !first_word_numeric(&cv) {
        let mut r = decimal_string(priority as u64);
        r.append(" ");
        r.append(content);
        proof {
            reveal_strlit(" ");
        }
        assert(r@ =~= decimal(priority as nat) + seq![' '] + content@);
        r
    } else {
        String::from_str(content)
    }
}

/// The SOA responsible-person address of a zone: `hostmaster.<zone>.` by
/// default, else the given address with `@` written as `.`, and a final dot.
pub open spec fn soa_admin_of(zone: Seq<char>, admin: Seq<char>) -> Seq<char> {
    if admin.len() == 0 {
        "hostmaster."@ + zone + seq!['.']
    } else {
        admin.map_values(|c: char| if c == '@' { '.' } else { c }).push('.')
    }
}

/// The SOA responsible-person address of a zone.
pub fn soa_admin(zone: &str, admin: &str) -> (r: String)
    ensures
        r@ == soa_admin_of(zone@, admin@),
{
    proof {
        reveal_strlit(".");
    }
    if admin.is_empty() {
        let mut r = String::from_str("hostmaster.");
        r.append(zone);
        r.append(".");
        assert(r@ =~= "hostmaster."@ + zone@ + seq!['.']);
        r
    } else {
        let mut r = String::new();
        let ghost a = admin@;
        for c in it: admin.chars()
            invariant
                it.seq() == a,
                r@ == a.take(it.index() as int).map_values(
                    |c: char| if c == '@' { '.' } else { c },
                ),
        {
            let m = if c == '@' { '.' } else { c };
            crate::text::push_char(&mut r, m);
            assert(a.take(it.index() as int + 1).map_values(
                |c: char| if c == '@' { '.' } else { c },
            ) =~= a.take(it.index() as int).map_values(
                |c: char| if c == '@' { '.' } else { c },
            ).push(m));
        }
        assert(a.take(a.len() as int) =~= a);
        crate::text::push_char(&mut r, '.');
        r
    }
}

/// A name server, or `fallback` when none is given.
pub open spec fn name_server_or(ns: Seq<char>, fallback: Seq<char>) -> Seq<char> {
    if ns.len() == 0 {
        fallback
    } else {
        ns
    }
}

/// What a new zone is created with in PowerDNS.
pub struct ZonePlan {
    /// The zone's fully qualified name.
    pub zone_fqdn: String,
    /// The primary name server.
    pub ns1: String,
    /// The secondary name server.
    pub ns2: String,
    /// The content of the zone's SOA record.
    pub soa: String,
}

/// The SOA record content for a primary name server and admin address.
pub open spec fn soa_content_of(ns1: Seq<char>, admin_email: Seq<char>) -> Seq<char> {
    ns1 + seq![' '] + admin_email + " 1 10800 3600 604800 300"@
}

/// The zone a `CreateDnsZone` request makes: the qualified zone name, the
/// name servers (`ns1.jotticp.local.` and `ns2.jotticp.local.` by default)
/// and the SOA record built from them.
pub fn zone_plan(zone: &str, ns1: &str, ns2: &str, admin: &str) -> (r: ZonePlan)
    ensures
        r.zone_fqdn@ == with_dot(zone@),
        r.ns1@ == name_server_or(ns1@, "ns1.jotticp.local."@),
        r.ns2@ == name_server_or(ns2@, "ns2.jotticp.local."@),
        r.soa@ == soa_content_of(r.ns1@, soa_admin_of(zone@, admin@)),
{
    let zone_fqdn = ensure_dot(zone);
    let admin_email = soa_admin(zone, admin);
    let n1 = if ns1.is_empty() { String::from_str("ns1.jotticp.local.") } else { String::from_str(ns1) };
    let n2 = if ns2.is_empty() { String::from_str("ns2.jotticp.local.") } else { String::from_str(ns2) };
    let mut soa = n1.clone();
    soa.append(" ");
    soa.append(admin_email.as_str());
    soa.append(" 1 10800 3600 604800 300");
    proof {
        reveal_strlit(" ");
    }
    assert(soa@ =~= soa_content_of(n1@, admin_email@));
    ZonePlan { zone_fqdn, ns1: n1, ns2: n2, soa }
}

/// The TTL a record is written with: the requested one when positive, else
/// 3600 seconds.
pub fn record_ttl(ttl: i32) -> (r: i32)
    ensures
        r == (if ttl > 0 { ttl } else { 3600 }),
{
    if ttl > 0 { ttl } else { 3600 }
}

/// The record type as sent to PowerDNS: trimmed and upper-cased.
pub uninterp spec fn upper_case(s: Seq<char>) -> Seq<char>;

/// `str::to_uppercase`: the string with each character mapped to its
/// Unicode upper case (a character may map to several).
#[verifier::external_body]
fn to_uppercase(s: &str) -> (r: String)
    ensures
        r@ == upper_case(s@),
{
    s.to_uppercase()
}

/// A record change sent to PowerDNS.
pub struct RecordPlan {
    /// The zone's fully qualified name.
    pub zone_fqdn: String,
    /// The record's fully qualified name.
    pub name: String,
    /// The record type, upper-cased.
    pub rtype: String,
    /// The TTL.
    pub ttl: i32,
    /// The record content.
    pub content: String,
}

/// The record change for an already upper-cased record type: refused when
/// the type is empty.
pub fn record_plan_for_type(
    zone: &str,
    name: &str,
    upper_rtype: String,
    content: &str,
    ttl: i32,
    priority: i32,
) -> (r: Result<RecordPlan, AgentError>)
    ensures
        upper_rtype@.len() == 0 <==> r is Err,
        r matches Err(e) ==> (e matches AgentError::InvalidArgument(m) && m@ == "rtype required"@),
        r matches Ok(p) ==> {
            &&& p.zone_fqdn@ == with_dot(zone@)
            &&& p.name@ == record_fqdn_of(name@, with_dot(zone@))
            &&& p.rtype@ == upper_rtype@
            &&& p.ttl == (if ttl > 0 { ttl } else { 3600 })
            &&& p.content@ == record_content_of(upper_rtype@, trim(content@), priority)
        },
{
    if upper_rtype.as_str().is_empty() {
        return Err(AgentError::InvalidArgument(String::from_str("rtype required")));
    }
    let zone_fqdn = ensure_dot(zone);
    let rname = record_fqdn(name, zone_fqdn.as_str());
    let t = crate::text::trim_str(content);
    let c = record_content(upper_rtype.as_str(), t.as_str(), priority);
    Ok(RecordPlan { zone_fqdn, name: rname, rtype: upper_rtype, ttl: record_ttl(ttl), content: c })
}

/// The record change an `UpsertDnsRecord` request makes: the type trimmed
/// and upper-cased (refused when empty), the name qualified against the
/// zone, the TTL defaulted and the content given its priority.
pub fn upsert_record_plan(
    zone: &str,
    name: &str,
    rtype: &str,
    content: &str,
    ttl: i32,
    priority: i32,
) -> (r: Result<RecordPlan, AgentError>)
    ensures
        upper_case(trim(rtype@)).len() == 0 <==> r is Err,
        r matches Err(e) ==> (e matches AgentError::InvalidArgument(m) && m@ == "rtype required"@),
        r matches Ok(p) ==> {
            &&& p.zone_fqdn@ == with_dot(zone@)
            &&& p.name@ == record_fqdn_of(name@, with_dot(zone@))
            &&& p.rtype@ == upper_case(trim(rtype@))
            &&& p.ttl == (if ttl > 0 { ttl } else { 3600 })
            &&& p.content@ == record_content_of(p.rtype@, trim(content@), priority)
        },
{
    let t = crate::text::trim_str(rtype);
    let u = to_uppercase(t.as_str());
    record_plan_for_type(zone, name, u, content, ttl, priority)
}

} // verus!
