//! The admin IP allowlist: which client addresses may use admin sessions.

use vstd::prelude::*;
use crate::text::{
    chars_of, parse_u64_bounded, parse_unsigned, split_chars, split_on, string_from_chars, trim,
    trim_chars,
};
use crate::mail::postfix::{split_once, split_once_chars};

verus! {

/// An IP address as its numeric value.
#[derive(Debug, Clone, Copy, PartialEq, Eq, Structural)]
pub enum IpAddress {
    /// An IPv4 address, most significant octet first.
    V4(u32),
    /// An IPv6 address, most significant group first.
    V6(u128),
}

/// The IPv4 netmask of a prefix length (at most 32).
pub open spec fn mask_v4(prefix: u32) -> u32 {
    if prefix == 0 {
        0
    } else {
        (0xffff_ffffu32 << ((32 - prefix) as u32)) as u32
    }
}

/// The IPv6 netmask of a prefix length (at most 128).
pub open spec fn mask_v6(prefix: u32) -> u128 {
    if prefix == 0 {
        0
    } else {
        (0xffff_ffff_ffff_ffff_ffff_ffff_ffff_ffffu128 << ((128 - prefix) as u128)) as u128
    }
}

/// Whether `ip` lies in the network `net/prefix` (same family; prefix at
/// most 32 for IPv4 and 128 for IPv6).
pub open spec fn in_network(ip: IpAddress, net: IpAddress, prefix: nat) -> bool {
    match (ip, net) {
        (IpAddress::V4(c), IpAddress::V4(n)) => prefix <= 32 && (c & mask_v4(prefix as u32)) == (n
            & mask_v4(prefix as u32)),
        (IpAddress::V6(c), IpAddress::V6(n)) => prefix <= 128 && (c & mask_v6(prefix as u32)) == (n
            & mask_v6(prefix as u32)),
        _ => false,
    }
}

/// One allowlist entry: its address part, parsed (`None` when it is not an
/// IP address), and the text after its `/`, if any.
pub struct AllowEntry {
    pub addr: Option<IpAddress>,
    pub prefix: Option<String>,
}

/// Whether `ip` matches an entry: with a prefix, it must parse as a number
/// up to 255 and `ip` lie in that network; without one, `ip` must equal the
/// address.
pub open spec fn entry_admits(ip: IpAddress, e: AllowEntry) -> bool {
    match e.prefix {
        Some(p) => match (parse_unsigned(p@, 255), e.addr) {
            (Some(len), Some(net)) => in_network(ip, net, len),
            _ => false,
        },
        None => e.addr == Some(ip),
    }
}

/// Whether `ip` lies in a network.
pub fn ip_in_network(ip: IpAddress, net: IpAddress, prefix: u8) -> (r: bool)
    ensures
        r == in_network(ip, net, prefix as nat),
{
    match (ip, net) {
        (IpAddress::V4(c), IpAddress::V4(n)) => {
            if prefix > 32 {
                return false;
            }
            let p = prefix as u32;
            let mask: u32 = if p == 0 { 0 } else { 0xffff_ffffu32 << (32 - p) };
            (c & mask) == (n & mask)
        },
        (IpAddress::V6(c), IpAddress::V6(n)) => {
            if prefix > 128 {
                return false;
            }
            let p = prefix as u32;
            let mask: u128 = if p == 0 {
                0
            } else {
                0xffff_ffff_ffff_ffff_ffff_ffff_ffff_ffffu128 << ((128 - p) as u128)
            };
            (c & mask) == (n & mask)
        },
        _ => false,
    }
}

/// Checks a client address against one allowlist entry.
pub fn ip_in_cidr(ip: IpAddress, entry: &AllowEntry) -> (r: bool)
    ensures
        r == entry_admits(ip, *entry),
{
    match &entry.prefix {
        Some(p) => {
            let pc = chars_of(p.as_str());
            match (parse_u64_bounded(&pc, 255), entry.addr) {
                (Some(len), Some(net)) => ip_in_network(ip, net, len as u8),
                _ => false,
            }
        },
        None => match entry.addr {
            Some(a) => a == ip,
            None => false,
        },
    }
}

/// A `/32` IPv4 network holds exactly its own address, and `/0` holds every
/// IPv4 address.
pub proof fn lemma_v4_prefix_extremes(c: u32, n: u32)
    ensures
        in_network(IpAddress::V4(c), IpAddress::V4(n), 32) <==> c == n,
        in_network(IpAddress::V4(c), IpAddress::V4(n), 0),
{
    assert(mask_v4(32) == 0xffff_ffffu32) by (bit_vector);
    assert((c & 0xffff_ffffu32) == c) by (bit_vector);
    assert((n & 0xffff_ffffu32) == n) by (bit_vector);
    assert((c & 0u32) == (n & 0u32)) by (bit_vector);
}

/// The entries of an allowlist: its comma-separated items, trimmed, the
/// empty ones dropped.
pub open spec fn allowlist_items(list: Seq<char>) -> Seq<Seq<char>> {
    nonempty_trimmed(split_on(list, ','))
}

/// The items trimmed, the empty ones dropped.
pub open spec fn nonempty_trimmed(items: Seq<Seq<char>>) -> Seq<Seq<char>>
    decreases items.len(),
{
    if items.len() == 0 {
        Seq::empty()
    } else if trim(items.last()).len() > 0 {
        nonempty_trimmed(items.drop_last()).push(trim(items.last()))
    } else {
        nonempty_trimmed(items.drop_last())
    }
}

/// Splits an allowlist into its trimmed, non-empty items.
pub fn allowlist_entries(list: &str) -> (r: Vec<String>)
    ensures
        r@.map_values(|s: String| s@) == allowlist_items(list@),
{
    let v = chars_of(list);
    let pieces = split_chars(&v, ',');
    let ghost pv = split_on(list@, ',');
    let mut out: Vec<String> = Vec::new();
    let mut i: usize = 0;
    while i < pieces.len()
        invariant
            i <= pieces@.len(),
            pieces@.len() == pv.len(),
            pv == split_on(list@, ','),
            forall|k: int| 0 <= k < pieces@.len() ==> #[trigger] pieces@[k]@ == pv[k],
            out@.map_values(|s: String| s@) == nonempty_trimmed(pv.take(i as int)),
        decreases pieces@.len() - i,
    {
        let t = trim_chars(&pieces[i]);
        let ghost before = out@.map_values(|s: String| s@);
        assert(pv.take(i + 1).drop_last() =~= pv.take(i as int));
        assert(pv.take(i + 1).last() == pieces@[i as int]@);
        if t.len() > 0 {
            out.push(string_from_chars(&t));
            assert(out@.map_values(|s: String| s@) =~= before.push(t@));
        }
        i = i + 1;
    }
    assert(pv.take(pieces@.len() as int) =~= pv);
    out
}

/// Splits an allowlist item at its first `/` into address and prefix text.
pub fn split_cidr(item: &str) -> (r: (String, Option<String>))
    ensures
        match split_once(item@, '/') {
            Some(p) => r.0@ == p.0 && (r.1 matches Some(q) && q@ == p.1),
            None => r.0@ == item@ && r.1 is None,
        },
{
    let v = chars_of(item);
    match split_once_chars(&v, '/') {
        Some((a, b)) => (string_from_chars(&a), Some(string_from_chars(&b))),
        None => (String::from_str(item), None),
    }
}

/// Whether an admin session from `ip` is let through: always when the
/// allowlist is blank, else when some entry admits `ip`.
pub open spec fn admin_ip_allowed(ip: IpAddress, list_blank: bool, entries: Seq<AllowEntry>) -> bool {
    list_blank || exists|i: int| 0 <= i < entries.len() && entry_admits(ip, #[trigger] entries[i])
}

/// Decides an admin request's client address against the allowlist
/// (`list` is its text; `entries` its parsed items).
pub fn admin_ip_check(ip: IpAddress, list: &str, entries: &Vec<AllowEntry>) -> (r: bool)
    ensures
        r == admin_ip_allowed(ip, trim(list@).len() == 0, entries@),
{
    let v = chars_of(list);
    let t = trim_chars(&v);
    if t.len() == 0 {
        return true;
    }
    let mut i: usize = 0;
    while i < entries.len()
        invariant
            i <= entries@.len(),
            forall|k: int| 0 <= k < i ==> !entry_admits(ip, #[trigger] entries@[k]),
        decreases entries@.len() - i,
    {
        if ip_in_cidr(ip, &entries[i]) {
            return true;
        }
        i = i + 1;
    }
    false
}


/// The address part of an allowlist item: the text before its first `/`,
/// or the whole item.
pub open spec fn addr_part(item: Seq<char>) -> Seq<char> {
    match split_once(item, '/') {
        Some((a, _)) => a,
        None => item,
    }
}

/// Whether an allowlist item admits `ip`, given its address part parsed
/// (`None` when it is not an IP address): with a `/prefix`, the prefix must
/// be a number up to 255 and `ip` lie in that network; without one, `ip`
/// must equal the address.
pub open spec fn item_admits(ip: IpAddress, item: Seq<char>, addr: Option<IpAddress>) -> bool {
    match split_once(item, '/') {
        Some((_, p)) => match (parse_unsigned(p, 255), addr) {
            (Some(len), Some(net)) => in_network(ip, net, len),
            _ => false,
        },
        None => addr == Some(ip),
    }
}

/// The address parts of the allowlist's items, in order: the texts the
/// caller parses as IP addresses.
pub fn allowlist_addresses(allowlist: &str) -> (r: Vec<String>)
    ensures
        r@.len() == allowlist_items(allowlist@).len(),
        forall|k: int| 0 <= k < r@.len() ==> (#[trigger] r@[k])@ == addr_part(allowlist_items(allowlist@)[k]),
{
    let items = allowlist_entries(allowlist);
    let ghost iv = allowlist_items(allowlist@);
    let mut out: Vec<String> = Vec::new();
    let mut i: usize = 0;
    while i < items.len()
        invariant
            i <= items@.len(),
            items@.map_values(|s: String| s@) == iv,
            out@.len() == i,
            forall|k: int| 0 <= k < i ==> (#[trigger] out@[k])@ == addr_part(iv[k]),
        decreases items@.len() - i,
    {
        assert(items@.map_values(|s: String| s@)[i as int] == items@[i as int]@);
        let (a, _p) = split_cidr(items[i].as_str());
        out.push(a);
        i = i + 1;
    }
    out
}

/// Whether a request from `ip` passes the admin allowlist: requests whose
/// token does not carry the admin role always pass; admin requests pass
/// when the allowlist text is blank or one of its comma-separated, trimmed,
/// non-empty items admits `ip` (`addrs` holds each item's address part,
/// parsed).
pub open spec fn admin_gate_allows(
    token_role: Option<Seq<char>>,
    allowlist: Seq<char>,
    addrs: Seq<Option<IpAddress>>,
    ip: IpAddress,
) -> bool {
    token_role != Some("admin"@) || trim(allowlist).len() == 0 || exists|i: int|
        0 <= i < allowlist_items(allowlist).len() && item_admits(
            ip,
            #[trigger] allowlist_items(allowlist)[i],
            addrs[i],
        )
}

/// The admin allowlist gate: `token_role` is the role of the request's
/// valid bearer token, if it has one; `allowlist` is the setting's text and
/// `addrs` the address part of each of its items (see
/// [`allowlist_addresses`]) parsed as an IP address.
pub fn admin_gate(token_role: Option<&str>, allowlist: &str, addrs: &Vec<Option<IpAddress>>, ip: IpAddress) -> (r: bool)
    requires
        addrs@.len() == allowlist_items(allowlist@).len(),
    ensures
        r == admin_gate_allows(
            match token_role {
                Some(t) => Some(t@),
                None => None,
            },
            allowlist@,
            addrs@,
            ip,
        ),
{
    let is_admin = match token_role {
        Some(t) => crate::text::str_eq(t, "admin"),
        None => false,
    };
    proof {
        reveal_strlit("admin");
    }
    if !is_admin {
        return true;
    }
    let v = chars_of(allowlist);
    let t = trim_chars(&v);
    if t.len() == 0 {
        return true;
    }
    let items = allowlist_entries(allowlist);
    let ghost iv = allowlist_items(allowlist@);
    let mut i: usize = 0;
    while i < items.len()
        invariant
            i <= items@.len(),
            iv == allowlist_items(allowlist@),
            items@.map_values(|s: String| s@) == iv,
            addrs@.len() == iv.len(),
            forall|k: int| 0 <= k < i ==> !item_admits(ip, #[trigger] iv[k], addrs@[k]),
        decreases items@.len() - i,
    {
        assert(items@.map_values(|s: String| s@)[i as int] == items@[i as int]@);
        let (_a, prefix) = split_cidr(items[i].as_str());
        let entry = AllowEntry { addr: addrs[i], prefix };
        if ip_in_cidr(ip, &entry) {
            return true;
        }
        i = i + 1;
    }
    false
}

} // verus!
