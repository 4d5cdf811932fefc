//! Cloudflare DNS sync and the stored API tokens.

use vstd::prelude::*;
use vstd::string::StringSliceAdditionalSpecFns;
use vstd::utf8::{decode_utf8, encode_utf8, valid_utf8};
use crate::text::{all_hex, all_hex_chars, chars_of, decimal, decimal_string, str_eq, trim, trim_chars};

verus! {

#[derive(Debug)]
pub struct AddTokenRequest {
    pub label:   String,
    pub api_token: String,
    pub zone_id: String,
    pub domain:  String,
    /// Proxy all A/AAAA records through Cloudflare (orange-cloud).
    pub proxy:   Option<bool>,
}

#[derive(Debug)]
pub struct SyncRequest {
    /// If true, enable orange-cloud proxy on synced records.
    pub proxy: Option<bool>,
}


/// The key token ciphers use when no internal token is configured.
pub const FALLBACK_KEY: &'static str = "jotticp_default_key_change_me";

/// The bytes of the cipher key: the internal token's, or the fallback's.
pub open spec fn cipher_key(internal_token: Option<Seq<char>>) -> Seq<u8> {
    match internal_token {
        Some(t) => encode_utf8(t),
        None => encode_utf8(FALLBACK_KEY@),
    }
}

/// Each byte XOR-ed with the key byte at the same position, the key
/// repeated as often as needed.
pub open spec fn xor_cycle(data: Seq<u8>, key: Seq<u8>) -> Seq<u8> {
    Seq::new(data.len(), |i: int| (data[i] ^ key[i % key.len() as int]) as u8)
}

/// XORs data with a repeating key.
fn xor_with_key(data: &[u8], key: &[u8]) -> (r: Vec<u8>)
    requires
        key@.len() > 0,
    ensures
        r@ == xor_cycle(data@, key@),
{
    let mut out: Vec<u8> = Vec::new();
    let mut i: usize = 0;
    while i < data.len()
        invariant
            key@.len() > 0,
            i <= data@.len(),
            out@ == xor_cycle(data@, key@).take(i as int),
        decreases data@.len() - i,
    {
        out.push(data[i] ^ key[i % key.len()]);
        assert(out@ =~= xor_cycle(data@, key@).take(i + 1));
        i = i + 1;
    }
    assert(xor_cycle(data@, key@).take(data@.len() as int) =~= xor_cycle(data@, key@));
    out
}

/// XOR-ing twice with the same key gives the data back.
pub proof fn lemma_xor_cycle_involution(data: Seq<u8>, key: Seq<u8>)
    requires
        key.len() > 0,
    ensures
        xor_cycle(xor_cycle(data, key), key) == data,
{
    assert forall|i: int| 0 <= i < data.len() implies #[trigger] xor_cycle(xor_cycle(data, key), key)[i]
        == data[i] by {
        let a = data[i];
        let k = key[i % key.len() as int];
        assert(((a ^ k) as u8 ^ k) as u8 == a) by (bit_vector);
    }
    assert(xor_cycle(xor_cycle(data, key), key) =~= data);
}

/// The standard base64 text of bytes.
pub uninterp spec fn base64_text(bytes: Seq<u8>) -> Seq<char>;

/// The bytes standard base64 text decodes to, if it is valid.
pub uninterp spec fn base64_bytes(text: Seq<char>) -> Option<Seq<u8>>;

/// `base64::engine::general_purpose::STANDARD.encode`; decoding its output
/// gives the bytes back.
#[verifier::external_body]
fn base64_encode(bytes: &[u8]) -> (r: String)
    ensures
        r@ == base64_text(bytes@),
        base64_bytes(r@) == Some(bytes@),
{
    base64::Engine::encode(&base64::engine::general_purpose::STANDARD, bytes)
}

/// `base64::engine::general_purpose::STANDARD.decode`.
#[verifier::external_body]
fn base64_decode(text: &str) -> (r: Option<Vec<u8>>)
    ensures
        match base64_bytes(text@) {
            Some(b) => r matches Some(v) && v@ == b,
            None => r is None,
        },
{
    base64::Engine::decode(&base64::engine::general_purpose::STANDARD, text).ok()
}

/// `String::from_utf8`: the text of valid UTF-8, `None` otherwise.
#[verifier::external_body]
pub(crate) fn string_from_utf8(bytes: Vec<u8>) -> (r: Option<String>)
    ensures
        r is Some <==> valid_utf8(bytes@),
        r matches Some(s) ==> s@ == decode_utf8(bytes@),
{
    String::from_utf8(bytes).ok()
}

/// A stored token's plain text: base64-decoded, XOR-ed with the key and
/// read as UTF-8; empty when any step fails.
pub open spec fn token_decrypted(enc: Seq<char>, key: Seq<u8>) -> Seq<char> {
    match base64_bytes(enc) {
        Some(b) => if valid_utf8(xor_cycle(b, key)) {
            decode_utf8(xor_cycle(b, key))
        } else {
            Seq::empty()
        },
        None => Seq::empty(),
    }
}

/// The key in use is not empty: no internal token, or a non-empty one.
pub open spec fn usable_key(internal_token: Option<Seq<char>>) -> bool {
    match internal_token {
        Some(t) => t.len() > 0,
        None => true,
    }
}

proof fn lemma_key_nonempty(internal_token: Option<Seq<char>>)
    requires
        usable_key(internal_token),
    ensures
        cipher_key(internal_token).len() > 0,
{
    reveal_strlit("jotticp_default_key_change_me");
    match internal_token {
        Some(t) => {
            vstd::utf8::encode_utf8_first_scalar(t);
            assert(vstd::utf8::encode_scalar(t[0] as u32).len() > 0);
            assert(encode_utf8(t) == vstd::utf8::encode_scalar(t[0] as u32) + encode_utf8(t.drop_first()));
        },
        None => {
            let f = FALLBACK_KEY@;
            vstd::utf8::encode_utf8_first_scalar(f);
            assert(encode_utf8(f) == vstd::utf8::encode_scalar(f[0] as u32) + encode_utf8(f.drop_first()));
        },
    }
}

/// Obscures an API token for storage: its bytes XOR-ed with the key
/// (the internal token, or the fallback) and base64-encoded. Decrypting the
/// result with the same key gives the token back.
pub fn encrypt_token(token: &str, internal_token: Option<&str>) -> (r: String)
    requires
        usable_key(match internal_token {
            Some(t) => Some(t@),
            None => None,
        }),
    ensures
        ({
            let key = cipher_key(match internal_token {
                Some(t) => Some(t@),
                None => None,
            });
            &&& r@ == base64_text(xor_cycle(token.spec_bytes(), key))
            &&& token_decrypted(r@, key) == token@
        }),
{
    let key: &str = match internal_token {
        Some(t) => t,
        None => FALLBACK_KEY,
    };
    let ghost kv = cipher_key(match internal_token {
        Some(t) => Some(t@),
        None => None,
    });
    proof {
        lemma_key_nonempty(match internal_token {
            Some(t) => Some(t@),
            None => None,
        });
    }
    let kb = key.as_bytes();
    assert(kb@ == kv);
    let enc = xor_with_key(token.as_bytes(), kb);
    let r = base64_encode(enc.as_slice());
    proof {
        lemma_xor_cycle_involution(token.spec_bytes(), kv);
        vstd::utf8::encode_utf8_valid_utf8(token@);
        vstd::utf8::encode_utf8_decode_utf8(token@);
    }
    r
}

/// Recovers a stored API token; an undecodable one gives the empty string.
pub fn decrypt_token(enc: &str, internal_token: Option<&str>) -> (r: String)
    requires
        usable_key(match internal_token {
            Some(t) => Some(t@),
            None => None,
        }),
    ensures
        r@ == token_decrypted(enc@, cipher_key(match internal_token {
            Some(t) => Some(t@),
            None => None,
        })),
{
    let key: &str = match internal_token {
        Some(t) => t,
        None => FALLBACK_KEY,
    };
    proof {
        lemma_key_nonempty(match internal_token {
            Some(t) => Some(t@),
            None => None,
        });
    }
    match base64_decode(enc) {
        Some(bytes) => {
            let dec = xor_with_key(bytes.as_slice(), key.as_bytes());
            match string_from_utf8(dec) {
                Some(s) => s,
                None => String::new(),
            }
        },
        None => String::new(),
    }
}

/// Checks a new Cloudflare token's form fields, in order: a label of 1–128
/// bytes (non-blank), a non-blank API token, and a zone id of exactly 32
/// hex digits.
pub fn check_token_fields(label: &str, api_token: &str, zone_id: &str) -> (r: Result<(), String>)
    ensures
        (trim(label@).len() == 0 || label.len() > 128) ==> (r matches Err(m) && m@ == "label must be 1-128 characters"@),
        !(trim(label@).len() == 0 || label.len() > 128) && trim(api_token@).len() == 0 ==> (r matches Err(m)
            && m@ == "api_token is required"@),
        !(trim(label@).len() == 0 || label.len() > 128) && trim(api_token@).len() > 0 && (zone_id@.len()
            != 32 || !all_hex(zone_id@)) ==> (r matches Err(m) && m@ == "zone_id must be a 32-char hex string"@),
        r is Ok <==> !(trim(label@).len() == 0 || label.len() > 128) && trim(api_token@).len() > 0 && zone_id@.len()
            == 32 && all_hex(zone_id@),
{
    let lv = chars_of(label);
    if trim_chars(&lv).len() == 0 || label.len() > 128 {
        return Err(String::from_str("label must be 1-128 characters"));
    }
    let av = chars_of(api_token);
    if trim_chars(&av).len() == 0 {
        return Err(String::from_str("api_token is required"));
    }
    let zv = chars_of(zone_id);
    if zv.len() != 32 || !all_hex_chars(&zv) {
        return Err(String::from_str("zone_id must be a 32-char hex string"));
    }
    Ok(())
}

/// A DNS record of the panel's zone, to be mirrored to Cloudflare.
pub struct ZoneRecord {
    pub record_type: String,
    pub name: String,
    pub content: String,
    pub ttl: i32,
    pub priority: Option<i32>,
}

/// A record Cloudflare already holds: type, name and id.
pub struct CfRecord {
    pub record_type: String,
    pub name: String,
    pub id: String,
}

/// What syncing one record sends to Cloudflare.
pub struct SyncAction {
    /// The API path posted to: the existing record's, or the zone's records.
    pub path: String,
    /// The record's Cloudflare name.
    pub name: String,
    /// Whether the orange-cloud proxy is switched on.
    pub proxied: bool,
    /// The record's type, content, TTL and priority, as sent.
    pub record_type: String,
    pub content: String,
    pub ttl: i32,
    pub priority: Option<i32>,
}

/// The Cloudflare name of a record: the domain itself for `@` or the
/// domain, else `name.domain`.
pub open spec fn cf_name_of(name: Seq<char>, domain: Seq<char>) -> Seq<char> {
    if name == "@"@ || name == domain {
        domain
    } else {
        name + seq!['.'] + domain
    }
}

/// The index of the first Cloudflare record with this type and name.
pub open spec fn existing_index(existing: Seq<CfRecord>, rtype: Seq<char>, name: Seq<char>, from: int) -> int
    decreases existing.len() - from,
{
    if from >= existing.len() {
        existing.len() as int
    } else if existing[from].record_type@ == rtype && existing[from].name@ == name {
        from
    } else {
        existing_index(existing, rtype, name, from + 1)
    }
}

/// What syncing a record does: nothing for SOA and NS records; otherwise
/// an update of the matching Cloudflare record, or a creation; the proxy is
/// on for A and AAAA records when proxying is asked for.
pub open spec fn sync_action_of(rec: ZoneRecord, domain: Seq<char>, zone_id: Seq<char>, proxy: bool, existing: Seq<CfRecord>) -> Option<(Seq<char>, Seq<char>, bool)> {
    let t = rec.record_type@;
    if t == "SOA"@ || t == "NS"@ {
        None
    } else {
        let name = cf_name_of(rec.name@, domain);
        let k = existing_index(existing, t, name, 0);
        let path = if k < existing.len() {
            "/zones/"@ + zone_id + "/dns_records/"@ + existing[k].id@
        } else {
            "/zones/"@ + zone_id + "/dns_records"@
        };
        Some((path, name, proxy && (t == "A"@ || t == "AAAA"@)))
    }
}

/// Which synced records are proxied: A and AAAA records are synced, and
/// proxied exactly when the proxy is asked for; records of any other type
/// are never proxied.
pub proof fn lemma_sync_proxied(
    rec: ZoneRecord,
    domain: Seq<char>,
    zone_id: Seq<char>,
    proxy: bool,
    existing: Seq<CfRecord>,
)
    ensures
        (rec.record_type@ == "A"@ || rec.record_type@ == "AAAA"@) ==> (sync_action_of(
            rec,
            domain,
            zone_id,
            proxy,
            existing,
        ) matches Some(a) && a.2 == proxy),
        !(rec.record_type@ == "A"@ || rec.record_type@ == "AAAA"@) ==> (sync_action_of(
            rec,
            domain,
            zone_id,
            proxy,
            existing,
        ) matches Some(a) ==> !a.2),
{
    reveal_strlit("A");
    reveal_strlit("AAAA");
    reveal_strlit("SOA");
    reveal_strlit("NS");
    assert("A"@.len() == 1 && "AAAA"@.len() == 4 && "SOA"@.len() == 3 && "NS"@.len() == 2);
}

/// The first matching record is found.
proof fn lemma_existing_first(existing: Seq<CfRecord>, t: Seq<char>, name: Seq<char>, from: int, i: int)
    requires
        0 <= from <= i < existing.len(),
        existing[i].record_type@ == t && existing[i].name@ == name,
        forall|j: int|
            from <= j < i ==> !((#[trigger] existing[j]).record_type@ == t && existing[j].name@ == name),
    ensures
        existing_index(existing, t, name, from) == i,
    decreases i - from,
{
    if from < i {
        lemma_existing_first(existing, t, name, from + 1, i);
    }
}

/// No matching record is found when there is none.
proof fn lemma_existing_absent(existing: Seq<CfRecord>, t: Seq<char>, name: Seq<char>, from: int)
    requires
        0 <= from,
        forall|j: int|
            from <= j < existing.len() ==> !((#[trigger] existing[j]).record_type@ == t && existing[j].name@
                == name),
    ensures
        existing_index(existing, t, name, from) >= existing.len(),
    decreases existing.len() - from,
{
    if from < existing.len() {
        lemma_existing_absent(existing, t, name, from + 1);
    }
}

/// Where and under which name a record is synced: SOA and NS records are
/// not synced, every other record is; its Cloudflare name is the domain for
/// `@` or the domain itself, else `name.domain`; it updates the first
/// Cloudflare record of the same type and name, at that record's path, and
/// is created at the zone's records path when there is none.
pub proof fn lemma_sync_target(
    rec: ZoneRecord,
    domain: Seq<char>,
    zone_id: Seq<char>,
    proxy: bool,
    existing: Seq<CfRecord>,
)
    ensures
        (rec.record_type@ == "SOA"@ || rec.record_type@ == "NS"@) <==> sync_action_of(
            rec,
            domain,
            zone_id,
            proxy,
            existing,
        ) is None,
        sync_action_of(rec, domain, zone_id, proxy, existing) matches Some(a) ==> {
            &&& (rec.name@ == "@"@ || rec.name@ == domain) ==> a.1 == domain
            &&& !(rec.name@ == "@"@ || rec.name@ == domain) ==> a.1 == rec.name@ + "."@ + domain
            &&& forall|i: int|
                #![trigger existing[i]]
                0 <= i < existing.len() && existing[i].record_type@ == rec.record_type@ && existing[i].name@ == a.1
                    && (forall|j: int|
                    0 <= j < i ==> !((#[trigger] existing[j]).record_type@ == rec.record_type@ && existing[j].name@
                        == a.1)) ==> a.0 == "/zones/"@ + zone_id + "/dns_records/"@ + existing[i].id@
            &&& (forall|i: int|
                0 <= i < existing.len() ==> !((#[trigger] existing[i]).record_type@ == rec.record_type@
                    && existing[i].name@ == a.1)) ==> a.0 == "/zones/"@ + zone_id + "/dns_records"@
        },
{
    reveal_strlit(".");
    assert("."@ =~= seq!['.']);
    match sync_action_of(rec, domain, zone_id, proxy, existing) {
        Some(a) => {
            let t = rec.record_type@;
            assert forall|i: int|
                #![trigger existing[i]]
                0 <= i < existing.len() && existing[i].record_type@ == t && existing[i].name@ == a.1 && (forall|j: int|
                    0 <= j < i ==> !((#[trigger] existing[j]).record_type@ == t && existing[j].name@ == a.1))
                implies a.0 == "/zones/"@ + zone_id + "/dns_records/"@ + existing[i].id@ by {
                lemma_existing_first(existing, t, a.1, 0, i);
            }
            if forall|i: int|
                0 <= i < existing.len() ==> !((#[trigger] existing[i]).record_type@ == t && existing[i].name@ == a.1) {
                lemma_existing_absent(existing, t, a.1, 0);
            }
        },
        None => {},
    }
}

/// The index of the first Cloudflare record with this type and name.
fn find_existing(existing: &Vec<CfRecord>, t: &str, name: &str) -> (r: usize)
    ensures
        r == existing_index(existing@, t@, name@, 0),
{
    let mut i: usize = 0;
    while i < existing.len()
        invariant
            i <= existing@.len(),
            existing_index(existing@, t@, name@, 0) == existing_index(existing@, t@, name@, i as int),
        decreases existing@.len() - i,
    {
        if str_eq(existing[i].record_type.as_str(), t) && str_eq(existing[i].name.as_str(), name) {
            return i;
        }
        i = i + 1;
    }
    i
}

/// Decides what syncing one record to Cloudflare sends.
pub fn sync_action(rec: &ZoneRecord, domain: &str, zone_id: &str, proxy: bool, existing: &Vec<CfRecord>) -> (r: Option<SyncAction>)
    ensures
        match sync_action_of(*rec, domain@, zone_id@, proxy, existing@) {
            Some(a) => r matches Some(s) && s.path@ == a.0 && s.name@ == a.1 && s.proxied == a.2
                && s.record_type@ == rec.record_type@ && s.content@ == rec.content@ && s.ttl == rec.ttl
                && s.priority == rec.priority,
            None => r is None,
        },
{
    let t = rec.record_type.as_str();
    if str_eq(t, "SOA") || str_eq(t, "NS") {
        return None;
    }
    let name = if str_eq(rec.name.as_str(), "@") || str_eq(rec.name.as_str(), domain) {
        String::from_str(domain)
    } else {
        let mut n = rec.name.clone();
        n.append(".");
        n.append(domain);
        proof {
            reveal_strlit(".");
        }
        assert(n@ =~= rec.name@ + seq!['.'] + domain@);
        n
    };
    let i = find_existing(existing, t, name.as_str());
    let mut path = String::from_str("/zones/");
    path.append(zone_id);
    if i < existing.len() {
        path.append("/dns_records/");
        path.append(existing[i].id.as_str());
    } else {
        path.append("/dns_records");
    }
    let proxied = proxy && (str_eq(t, "A") || str_eq(t, "AAAA"));
    Some(SyncAction {
        path,
        name,
        proxied,
        record_type: String::from_str(t),
        content: String::from_str(rec.content.as_str()),
        ttl: rec.ttl,
        priority: rec.priority,
    })
}

/// How many of the records' posts succeeded.
pub open spec fn count_ok(outcomes: Seq<bool>) -> nat
    decreases outcomes.len(),
{
    if outcomes.len() == 0 {
        0
    } else {
        count_ok(outcomes.drop_last()) + if outcomes.last() { 1nat } else { 0nat }
    }
}

/// Counts a sync's results, one per record posted: the records synced and
/// the errors.
pub fn sync_tally(outcomes: &Vec<bool>) -> (r: (u64, u64))
    requires
        outcomes@.len() <= u64::MAX,
    ensures
        r.0 == count_ok(outcomes@),
        r.0 + r.1 == outcomes@.len(),
{
    let mut synced: u64 = 0;
    let mut errors: u64 = 0;
    let mut i: usize = 0;
    while i < outcomes.len()
        invariant
            i <= outcomes@.len(),
            outcomes@.len() <= u64::MAX,
            synced == count_ok(outcomes@.take(i as int)),
            synced + errors == i,
        decreases outcomes@.len() - i,
    {
        assert(outcomes@.take(i + 1).drop_last() =~= outcomes@.take(i as int));
        if outcomes[i] {
            synced = synced + 1;
        } else {
            errors = errors + 1;
        }
        i = i + 1;
    }
    assert(outcomes@.take(i as int) =~= outcomes@);
    (synced, errors)
}

/// The summary of a sync: `Synced N records to Cloudflare (M errors)`.
pub fn sync_message(synced: u64, errors: u64) -> (r: String)
    ensures
        r@ == "Synced "@ + decimal(synced as nat) + " records to Cloudflare ("@ + decimal(errors as nat)
            + " errors)"@,
{
    let mut m = String::from_str("Synced ");
    let a = decimal_string(synced);
    m.append(a.as_str());
    m.append(" records to Cloudflare (");
    let b = decimal_string(errors);
    m.append(b.as_str());
    m.append(" errors)");
    m
}

} // verus!
