//! Language runtimes (Python, Node.js, Ruby, .NET): per-site port
//! allocation, version validation and the systemd units and nginx upstreams
//! written for each site.

use vstd::prelude::*;
use crate::agent::AgentError;
use vstd::string::StringSliceAdditionalSpecFns;
use crate::text::{chars_of, concat3, debug_quoted, debug_str, concat_all, concat_strs, decimal, decimal_string, views_of, is_digit, parse_unsigned, parse_u64_bounded, split_acc, split_chars, split_on};

verus! {

/// First port of the range handed to site app servers.
pub const PORT_RANGE_START: u16 = 8100;

/// End (exclusive) of the range handed to site app servers.
pub const PORT_RANGE_END: u16 = 9100;

/// The hash of a byte string: `acc * 31 + b`, wrapping at 32 bits.
pub open spec fn port_hash(bytes: Seq<u8>) -> u32
    decreases bytes.len(),
{
    if bytes.len() == 0 {
        0
    } else {
        ((port_hash(bytes.drop_last()) as nat * 31 + bytes.last() as nat) % 0x1_0000_0000) as u32
    }
}

/// The bytes of a site id that the port is derived from: its last four.
pub open spec fn port_tail(bytes: Seq<u8>) -> Seq<u8> {
    if bytes.len() >= 4 {
        bytes.subrange(bytes.len() - 4, bytes.len() as int)
    } else {
        bytes
    }
}

/// The port first tried for a site id.
pub open spec fn candidate_port(bytes: Seq<u8>) -> u16 {
    (8100 + port_hash(port_tail(bytes)) % 1000) as u16
}

/// The port tried at step `offset` when probing forward from `candidate`.
pub open spec fn probe(candidate: u16, offset: nat) -> u16 {
    (8100 + ((candidate - 8100) + offset) % 1000) as u16
}

/// The first free port in probe order from step `offset` on, or the
/// candidate itself when every port of the range is taken.
pub open spec fn first_free(candidate: u16, occupied: Seq<u16>, offset: nat) -> u16
    decreases 1000 - offset,
{
    if offset >= 1000 {
        candidate
    } else if !occupied.contains(probe(candidate, offset)) {
        probe(candidate, offset)
    } else {
        first_free(candidate, occupied, offset + 1)
    }
}

/// Slicing the last four bytes of `site_id` is well-defined.
pub open spec fn tail_on_char_boundary(site_id: &str) -> bool {
    site_id.spec_bytes().len() < 4 || vstd::utf8::is_char_boundary(
        site_id.spec_bytes(),
        site_id.spec_bytes().len() - 4,
    )
}

/// The port first tried for `site_id`: 8100 plus the hash of its last four
/// bytes modulo 1000.
pub fn port_candidate(site_id: &str) -> (p: u16)
    requires
        tail_on_char_boundary(site_id),
    ensures
        p == candidate_port(site_id.spec_bytes()),
        PORT_RANGE_START <= p < PORT_RANGE_END,
{
    let b = site_id.as_bytes();
    let n = b.len();
    let start: usize = if n >= 4 { n - 4 } else { 0 };
    let ghost tail = port_tail(b@);
    assert(tail =~= b@.subrange(start as int, n as int));
    let mut h: u32 = 0;
    let mut i = start;
    while i < n
        invariant
            start <= i <= n,
            n == b@.len(),
            tail == b@.subrange(start as int, n as int),
            h == port_hash(b@.subrange(start as int, i as int)),
        decreases n - i,
    {
        let ghost pre = b@.subrange(start as int, i as int);
        let ghost nxt = b@.subrange(start as int, i + 1);
        assert(nxt.drop_last() =~= pre);
        let x = b[i];
        assert(nxt.last() == x);
        let prod = h.wrapping_mul(31);
        let h2 = prod.wrapping_add(x as u32);
        proof {
            assert(prod as nat == (h as nat * 31) % 0x1_0000_0000);
            assert(h2 as nat == (prod as nat + x as nat) % 0x1_0000_0000);
            assert(((h as nat * 31) % 0x1_0000_0000 + x as nat) % 0x1_0000_0000 == (h as nat * 31
                + x as nat) % 0x1_0000_0000) by (nonlinear_arith);
        }
        h = h2;
        i = i + 1;
    }
    8100 + (h % 1000) as u16
}

/// The port tried `offset` steps after `candidate`, wrapping inside the range.
pub fn probe_port(candidate: u16, offset: u16) -> (p: u16)
    requires
        PORT_RANGE_START <= candidate < PORT_RANGE_END,
        offset < 1000,
    ensures
        p == probe(candidate, offset as nat),
        PORT_RANGE_START <= p < PORT_RANGE_END,
{
    8100 + (candidate - 8100 + offset) % 1000
}

/// Whether `v` holds `x`.
fn contains_port(v: &Vec<u16>, x: u16) -> (r: bool)
    ensures
        r == v@.contains(x),
{
    let mut i: usize = 0;
    while i < v.len()
        invariant
            i <= v@.len(),
            forall|k: int| 0 <= k < i ==> v@[k] != x,
        decreases v@.len() - i,
    {
        if v[i] == x {
            assert(v@[i as int] == x);
            return true;
        }
        i = i + 1;
    }
    false
}

proof fn lemma_first_free_in_range(candidate: u16, occupied: Seq<u16>, offset: nat)
    requires
        8100 <= candidate < 9100,
    ensures
        8100 <= first_free(candidate, occupied, offset) < 9100,
        first_free(candidate, occupied, offset) != candidate ==> !occupied.contains(
            first_free(candidate, occupied, offset),
        ),
    decreases 1000 - offset,
{
    if offset < 1000 && occupied.contains(probe(candidate, offset)) {
        lemma_first_free_in_range(candidate, occupied, offset + 1);
    }
}

proof fn lemma_first_free_reaches(candidate: u16, occupied: Seq<u16>, offset: nat, target: nat)
    requires
        8100 <= candidate < 9100,
        offset <= target < 1000,
        !occupied.contains(probe(candidate, target)),
    ensures
        !occupied.contains(first_free(candidate, occupied, offset)),
    decreases target - offset,
{
    if occupied.contains(probe(candidate, offset)) {
        lemma_first_free_reaches(candidate, occupied, offset + 1, target);
    }
}

/// Probing forward finds a free port whenever the range holds one: if some
/// port of 8100..9100 is not occupied, the allocated port is not occupied.
pub proof fn lemma_first_free_is_free(candidate: u16, occupied: Seq<u16>, free_port: u16)
    requires
        8100 <= candidate < 9100,
        8100 <= free_port < 9100,
        !occupied.contains(free_port),
    ensures
        !occupied.contains(first_free(candidate, occupied, 0)),
{
    let target: nat = ((free_port - candidate + 1000) % 1000) as nat;
    assert(probe(candidate, target) == free_port);
    lemma_first_free_reaches(candidate, occupied, 0, target);
}

/// With no port occupied, a site gets its first candidate: repeated calls
/// for the same id agree.
pub proof fn lemma_unoccupied_gives_candidate(candidate: u16)
    requires
        8100 <= candidate < 9100,
    ensures
        first_free(candidate, Seq::<u16>::empty(), 0) == candidate,
{
    assert(probe(candidate, 0) == candidate);
}

/// Every port of the range 8100..9100 is occupied.
pub open spec fn range_full(occupied: Seq<u16>) -> bool {
    forall|q: u16| 8100 <= q < 9100 ==> occupied.contains(q)
}

/// The port a site's app server listens on: probing forward from the
/// site's candidate port, the first one not in `occupied`; none when all
/// 1000 ports of the range are occupied.
pub fn allocate_port(site_id: &str, occupied: &Vec<u16>) -> (r: Option<u16>)
    requires
        tail_on_char_boundary(site_id),
    ensures
        r is None <==> range_full(occupied@),
        r matches Some(p) ==> p == first_free(candidate_port(site_id.spec_bytes()), occupied@, 0)
            && PORT_RANGE_START <= p < PORT_RANGE_END && !occupied@.contains(p),
{
    let candidate = port_candidate(site_id);
    let ghost c = candidate;
    let mut offset: u16 = 0;
    proof {
        lemma_first_free_in_range(c, occupied@, 0);
    }
    while offset < 1000
        invariant
            c == candidate,
            candidate == candidate_port(site_id.spec_bytes()),
            8100 <= candidate < 9100,
            offset <= 1000,
            first_free(c, occupied@, 0) == first_free(c, occupied@, offset as nat),
            forall|k: nat| k < offset ==> occupied@.contains(#[trigger] probe(c, k)),
        decreases 1000 - offset,
    {
        let port = probe_port(candidate, offset);
        if !contains_port(occupied, port) {
            proof {
                if range_full(occupied@) {
                    assert(occupied@.contains(port));
                }
            }
            return Some(port);
        }
        offset = offset + 1;
    }
    assert forall|q: u16| 8100 <= q < 9100 implies occupied@.contains(q) by {
        let t: nat = ((q - c + 1000) % 1000) as nat;
        assert(probe(c, t) == q);
    }
    None
}

/// Characters a site id may hold: hex digits and hyphens.
pub open spec fn is_site_id_char(c: char) -> bool {
    ('0' <= c <= '9') || ('a' <= c <= 'f') || ('A' <= c <= 'F') || c == '-'
}

/// A site id safe to put in a file path: 1 to 64 bytes of hex digits and
/// hyphens.
pub open spec fn valid_site_id(s: Seq<char>, byte_len: usize) -> bool {
    1 <= byte_len <= 64 && forall|i: int| 0 <= i < s.len() ==> is_site_id_char(#[trigger] s[i])
}

/// Whether every character of `s` satisfies `is_site_id_char`.
fn all_site_id_chars(s: &Vec<char>) -> (r: bool)
    ensures
        r == forall|i: int| 0 <= i < s@.len() ==> is_site_id_char(#[trigger] s@[i]),
{
    let mut i: usize = 0;
    while i < s.len()
        invariant
            i <= s@.len(),
            forall|k: int| 0 <= k < i ==> is_site_id_char(#[trigger] s@[k]),
        decreases s@.len() - i,
    {
        let c = s[i];
        if !(('0' <= c && c <= '9') || ('a' <= c && c <= 'f') || ('A' <= c && c <= 'F') || c
            == '-') {
            assert(!is_site_id_char(s@[i as int]));
            return false;
        }
        i = i + 1;
    }
    true
}

/// Checks that a site id is safe for file paths (1–64 bytes of hex digits
/// and hyphens) and hands it back.
pub fn sanitize_site_id(site_id: &str) -> (r: Result<&str, AgentError>)
    ensures
        r is Ok <==> valid_site_id(site_id@, site_id.len()),
        r matches Ok(s) ==> s == site_id,
        (site_id.len() == 0 || site_id.len() > 64) ==> (r matches Err(
            AgentError::InvalidArgument(m),
        ) && m@ == "site_id must be 1–64 characters"@),
        (1 <= site_id.len() <= 64 && !valid_site_id(
            site_id@,
            site_id.len(),
        )) ==> (r matches Err(AgentError::InvalidArgument(m)) && m@
            == "site_id must contain only hex digits and hyphens"@),
{
    let n = site_id.len();
    if n == 0 || n > 64 {
        return Err(AgentError::InvalidArgument(String::from_str("site_id must be 1–64 characters")));
    }
    let cs = chars_of(site_id);
    if !all_site_id_chars(&cs) {
        return Err(
            AgentError::InvalidArgument(
                String::from_str("site_id must contain only hex digits and hyphens"),
            ),
        );
    }
    Ok(site_id)
}

/// `s` is made of ASCII digits and dots only.
pub open spec fn digits_and_dots(s: Seq<char>) -> bool {
    forall|i: int| 0 <= i < s.len() ==> (is_digit(#[trigger] s[i]) || s[i] == '.')
}

/// Whether `s` is made of ASCII digits and dots only.
pub fn all_digits_or_dots(s: &Vec<char>) -> (r: bool)
    ensures
        r == digits_and_dots(s@),
{
    let mut i: usize = 0;
    while i < s.len()
        invariant
            i <= s@.len(),
            forall|k: int| 0 <= k < i ==> (is_digit(#[trigger] s@[k]) || s@[k] == '.'),
        decreases s@.len() - i,
    {
        let c = s[i];
        if !(('0' <= c && c <= '9') || c == '.') {
            assert(!(is_digit(s@[i as int]) || s@[i as int] == '.'));
            return false;
        }
        i = i + 1;
    }
    true
}

/// The refusal of a version: `invalid <field>: <version, quoted> <hint>`.
pub open spec fn bad_version_text(field: Seq<char>, v: Seq<char>, hint: Seq<char>) -> Seq<char> {
    "invalid "@ + field + ": "@ + debug_quoted(v) + hint
}

/// Builds the refusal of a version.
fn bad_version(field: &str, v: &str, hint: &str) -> (r: String)
    ensures
        r@ == bad_version_text(field@, v@, hint@),
{
    let head = concat3("invalid ", field, ": ");
    let q = debug_str(v);
    concat3(head.as_str(), q.as_str(), hint)
}

/// A Python version the agent accepts: `3` followed by at most four more
/// bytes of digits and dots.
pub open spec fn valid_python_version(v: Seq<char>, byte_len: usize) -> bool {
    v.len() > 0 && v[0] == '3' && byte_len <= 5 && digits_and_dots(v)
}

/// The interpreter for a requested Python version: `python3` for none,
/// `python<version>` for a valid one.
pub fn validated_python_bin(version: &str) -> (r: Result<String, AgentError>)
    ensures
        version@.len() == 0 ==> (r matches Ok(b) && b@ == "python3"@),
        version@.len() > 0 ==> (r is Ok <==> valid_python_version(
            version@,
            version.len(),
        )),
        version@.len() > 0 && valid_python_version(version@, version.len()) ==> (
        r matches Ok(b) && b@ == "python"@ + version@),
        r matches Err(e) ==> (e matches AgentError::InvalidArgument(m) && m@ == bad_version_text(
            "python_version"@,
            version@,
            " \u{2014} expected e.g. \"3.12\""@,
        )),
{
    let cs = chars_of(version);
    if cs.len() == 0 {
        return Ok(String::from_str("python3"));
    }
    if cs[0] == '3' && version.len() <= 5 && all_digits_or_dots(&cs) {
        let mut b = String::from_str("python");
        b.append(version);
        return Ok(b);
    }
    Err(AgentError::InvalidArgument(bad_version("python_version", version, " \u{2014} expected e.g. \"3.12\"")))
}

/// A version string starting with a digit, of at most `max_len` bytes of
/// digits and dots.
pub open spec fn valid_numeric_version(v: Seq<char>, byte_len: usize, max_len: usize) -> bool {
    v.len() > 0 && byte_len <= max_len && is_digit(v[0]) && digits_and_dots(v)
}

/// Checks a numeric version of at most `max_len` bytes.
fn check_numeric_version(version: &str, max_len: usize) -> (r: bool)
    ensures
        r == valid_numeric_version(version@, version.len(), max_len),
{
    let cs = chars_of(version);
    cs.len() > 0 && version.len() <= max_len && '0' <= cs[0] && cs[0] <= '9' && all_digits_or_dots(
        &cs,
    )
}

/// A Node.js version such as `20` or `20.11.1` (at most 8 bytes).
pub fn validated_node_version(version: &str) -> (r: Result<String, AgentError>)
    ensures
        r is Ok <==> valid_numeric_version(version@, version.len(), 8),
        r matches Ok(v) ==> v@ == version@,
        version@.len() == 0 ==> (r matches Err(AgentError::InvalidArgument(m)) && m@ == "node_version must not be empty"@),
        version@.len() > 0 ==> (r matches Err(e) ==> (e matches AgentError::InvalidArgument(m) && m@ == bad_version_text(
            "node_version"@,
            version@,
            " \u{2014} expected e.g. \"20\" or \"20.11\""@,
        ))),
{
    if version.is_empty() {
        return Err(AgentError::InvalidArgument(String::from_str("node_version must not be empty")));
    }
    if check_numeric_version(version, 8) {
        return Ok(String::from_str(version));
    }
    Err(AgentError::InvalidArgument(bad_version("node_version", version, " \u{2014} expected e.g. \"20\" or \"20.11\"")))
}

/// A Ruby version such as `3.3` or `3.3.0` (at most 8 bytes).
pub fn validated_ruby_version(version: &str) -> (r: Result<String, AgentError>)
    ensures
        r is Ok <==> valid_numeric_version(version@, version.len(), 8),
        r matches Ok(v) ==> v@ == version@,
        version@.len() == 0 ==> (r matches Err(AgentError::InvalidArgument(m)) && m@ == "ruby_version must not be empty"@),
        version@.len() > 0 ==> (r matches Err(e) ==> (e matches AgentError::InvalidArgument(m) && m@ == bad_version_text(
            "ruby_version"@,
            version@,
            " \u{2014} expected e.g. \"3.3\" or \"3.3.0\""@,
        ))),
{
    if version.is_empty() {
        return Err(AgentError::InvalidArgument(String::from_str("ruby_version must not be empty")));
    }
    if check_numeric_version(version, 8) {
        return Ok(String::from_str(version));
    }
    Err(AgentError::InvalidArgument(bad_version("ruby_version", version, " \u{2014} expected e.g. \"3.3\" or \"3.3.0\"")))
}

/// The major number of a version: its part before the first dot, parsed as
/// a `u32`, or 0 where that does not parse.
pub open spec fn major_version(v: Seq<char>) -> nat {
    match parse_unsigned(split_on(v, '.')[0], 0xffff_ffff) {
        Some(n) => n,
        None => 0,
    }
}

proof fn lemma_split_acc_nonempty(s: Seq<char>, c: char, cur: Seq<char>)
    ensures
        split_acc(s, c, cur).len() > 0,
    decreases s.len(),
{
    if s.len() > 0 {
        if s[0] == c {
            lemma_split_acc_nonempty(s.drop_first(), c, Seq::empty());
        } else {
            lemma_split_acc_nonempty(s.drop_first(), c, cur.push(s[0]));
        }
    }
}

/// A .NET version of at most 6 bytes whose major number is 8 or more.
pub open spec fn valid_dotnet_version(v: Seq<char>, byte_len: usize) -> bool {
    valid_numeric_version(v, byte_len, 6) && major_version(v) >= 8
}

/// A .NET (Core, 8 or later) version such as `8` or `9.0`.
pub fn validated_dotnet_version(version: &str) -> (r: Result<String, AgentError>)
    ensures
        r is Ok <==> valid_dotnet_version(version@, version.len()),
        r matches Ok(v) ==> v@ == version@,
        version@.len() == 0 ==> (r matches Err(AgentError::InvalidArgument(m)) && m@ == "dotnet_version must not be empty"@),
        version@.len() > 0 ==> (r matches Err(e) ==> (e matches AgentError::InvalidArgument(m) && m@ == bad_version_text(
            "dotnet_version"@,
            version@,
            " \u{2014} expected \"8\" or \"9\" (.NET Core/5+ only, NOT Framework)"@,
        ))),
{
    if version.is_empty() {
        return Err(
            AgentError::InvalidArgument(String::from_str("dotnet_version must not be empty")),
        );
    }
    if check_numeric_version(version, 6) {
        let cs = chars_of(version);
        let pieces = split_chars(&cs, '.');
        proof {
            lemma_split_acc_nonempty(cs@, '.', Seq::empty());
        }
        let major: u64 = match parse_u64_bounded(&pieces[0], 0xffff_ffff) {
            Some(m) => m,
            None => 0,
        };
        if major >= 8 {
            return Ok(String::from_str(version));
        }
    }
    Err(
        AgentError::InvalidArgument(
            bad_version("dotnet_version", version, " \u{2014} expected \"8\" or \"9\" (.NET Core/5+ only, NOT Framework)"),
        ),
    )
}

} // verus!

verus! {

/// The systemd unit of a Python (uWSGI) site.
pub open spec fn python_unit_text(unix_user: Seq<char>, port: Seq<char>) -> Seq<char> {
    concat_all(
        seq![
            "[Unit]\nDescription=JottiCP Python site — "@,
            unix_user,
            "\nAfter=network.target\n\n[Service]\nType=notify\nUser="@,
            unix_user,
            "\nGroup="@,
            unix_user,
            "\nWorkingDirectory=/home/"@,
            unix_user,
            "\nExecStart=/home/"@,
            unix_user,
            "/.venv/bin/uwsgi --http-socket 127.0.0.1:"@,
            port,
            " --venv /home/"@,
            unix_user,
            "/.venv --module wsgi:application --master --processes 2 --threads 2 --harakiri 60 --max-requests 5000 --vacuum --die-on-term\nExecReload=/bin/kill -HUP $MAINPID\nRestart=on-failure\nRestartSec=5s\n# Cgroup isolation — site resource limits enforced by jotti-cron\nSlice=website-"@,
            unix_user,
            ".slice\nPrivateTmp=yes\nNoNewPrivileges=yes\n\n[Install]\nWantedBy=multi-user.target\n"@,
        ],
    )
}

/// Renders the systemd unit that runs a Python site under uWSGI.
pub fn python_unit(unix_user: &str, port: u16) -> (r: String)
    ensures
        r@ == python_unit_text(unix_user@, decimal(port as nat)),
{
    let port_s = decimal_string(port as u64);
    let parts: Vec<&str> = vec![
        "[Unit]\nDescription=JottiCP Python site — ",
        unix_user,
        "\nAfter=network.target\n\n[Service]\nType=notify\nUser=",
        unix_user,
        "\nGroup=",
        unix_user,
        "\nWorkingDirectory=/home/",
        unix_user,
        "\nExecStart=/home/",
        unix_user,
        "/.venv/bin/uwsgi --http-socket 127.0.0.1:",
        port_s.as_str(),
        " --venv /home/",
        unix_user,
        "/.venv --module wsgi:application --master --processes 2 --threads 2 --harakiri 60 --max-requests 5000 --vacuum --die-on-term\nExecReload=/bin/kill -HUP $MAINPID\nRestart=on-failure\nRestartSec=5s\n# Cgroup isolation — site resource limits enforced by jotti-cron\nSlice=website-",
        unix_user,
        ".slice\nPrivateTmp=yes\nNoNewPrivileges=yes\n\n[Install]\nWantedBy=multi-user.target\n",
    ];
    assert(views_of(parts@) =~= seq![
        "[Unit]\nDescription=JottiCP Python site — "@,
        unix_user@,
        "\nAfter=network.target\n\n[Service]\nType=notify\nUser="@,
        unix_user@,
        "\nGroup="@,
        unix_user@,
        "\nWorkingDirectory=/home/"@,
        unix_user@,
        "\nExecStart=/home/"@,
        unix_user@,
        "/.venv/bin/uwsgi --http-socket 127.0.0.1:"@,
        port_s@,
        " --venv /home/"@,
        unix_user@,
        "/.venv --module wsgi:application --master --processes 2 --threads 2 --harakiri 60 --max-requests 5000 --vacuum --die-on-term\nExecReload=/bin/kill -HUP $MAINPID\nRestart=on-failure\nRestartSec=5s\n# Cgroup isolation — site resource limits enforced by jotti-cron\nSlice=website-"@,
        unix_user@,
        ".slice\nPrivateTmp=yes\nNoNewPrivileges=yes\n\n[Install]\nWantedBy=multi-user.target\n"@,
    ]);
    concat_strs(&parts)
}

/// The shell command that installs a Node.js version with nvm.
pub open spec fn node_install_command_text(unix_user: Seq<char>, node_version: Seq<char>) -> Seq<char> {
    concat_all(
        seq![
            "source /home/"@,
            unix_user,
            "/.nvm/nvm.sh && nvm install "@,
            node_version,
            " && nvm use "@,
            node_version,
        ],
    )
}

/// Renders the nvm command that installs and selects a Node.js version.
pub fn node_install_command(unix_user: &str, node_version: &str) -> (r: String)
    ensures
        r@ == node_install_command_text(unix_user@, node_version@),
{
    let parts: Vec<&str> = vec![
        "source /home/",
        unix_user,
        "/.nvm/nvm.sh && nvm install ",
        node_version,
        " && nvm use ",
        node_version,
    ];
    assert(views_of(parts@) =~= seq![
        "source /home/"@,
        unix_user@,
        "/.nvm/nvm.sh && nvm install "@,
        node_version@,
        " && nvm use "@,
        node_version@,
    ]);
    concat_strs(&parts)
}

/// The systemd unit of a Node.js site.
pub open spec fn node_unit_text(unix_user: Seq<char>, node_version: Seq<char>, port: Seq<char>) -> Seq<char> {
    concat_all(
        seq![
            "[Unit]\nDescription=JottiCP Node.js site — "@,
            unix_user,
            "\nAfter=network.target\n\n[Service]\nType=simple\nUser="@,
            unix_user,
            "\nGroup="@,
            unix_user,
            "\nWorkingDirectory=/home/"@,
            unix_user,
            "\nEnvironment=PORT="@,
            port,
            "\nEnvironment=NODE_ENV=production\nExecStart=/home/"@,
            unix_user,
            "/.nvm/versions/node/v"@,
            node_version,
            "/bin/node /home/"@,
            unix_user,
            "/app.js "@,
            port,
            "\nRestart=on-failure\nRestartSec=5s\n# Cgroup isolation\nSlice=website-"@,
            unix_user,
            ".slice\nPrivateTmp=yes\nNoNewPrivileges=yes\n\n[Install]\nWantedBy=multi-user.target\n"@,
        ],
    )
}

/// Renders the systemd unit that runs a Node.js site.
pub fn node_unit(unix_user: &str, node_version: &str, port: u16) -> (r: String)
    ensures
        r@ == node_unit_text(unix_user@, node_version@, decimal(port as nat)),
{
    let port_s = decimal_string(port as u64);
    let parts: Vec<&str> = vec![
        "[Unit]\nDescription=JottiCP Node.js site — ",
        unix_user,
        "\nAfter=network.target\n\n[Service]\nType=simple\nUser=",
        unix_user,
        "\nGroup=",
        unix_user,
        "\nWorkingDirectory=/home/",
        unix_user,
        "\nEnvironment=PORT=",
        port_s.as_str(),
        "\nEnvironment=NODE_ENV=production\nExecStart=/home/",
        unix_user,
        "/.nvm/versions/node/v",
        node_version,
        "/bin/node /home/",
        unix_user,
        "/app.js ",
        port_s.as_str(),
        "\nRestart=on-failure\nRestartSec=5s\n# Cgroup isolation\nSlice=website-",
        unix_user,
        ".slice\nPrivateTmp=yes\nNoNewPrivileges=yes\n\n[Install]\nWantedBy=multi-user.target\n",
    ];
    assert(views_of(parts@) =~= seq![
        "[Unit]\nDescription=JottiCP Node.js site — "@,
        unix_user@,
        "\nAfter=network.target\n\n[Service]\nType=simple\nUser="@,
        unix_user@,
        "\nGroup="@,
        unix_user@,
        "\nWorkingDirectory=/home/"@,
        unix_user@,
        "\nEnvironment=PORT="@,
        port_s@,
        "\nEnvironment=NODE_ENV=production\nExecStart=/home/"@,
        unix_user@,
        "/.nvm/versions/node/v"@,
        node_version@,
        "/bin/node /home/"@,
        unix_user@,
        "/app.js "@,
        port_s@,
        "\nRestart=on-failure\nRestartSec=5s\n# Cgroup isolation\nSlice=website-"@,
        unix_user@,
        ".slice\nPrivateTmp=yes\nNoNewPrivileges=yes\n\n[Install]\nWantedBy=multi-user.target\n"@,
    ]);
    concat_strs(&parts)
}

/// The shell command that installs a Ruby version and Puma with rbenv.
pub open spec fn ruby_install_command_text(unix_user: Seq<char>, ruby_version: Seq<char>) -> Seq<char> {
    concat_all(
        seq![
            "export RBENV_ROOT=/home/"@,
            unix_user,
            "/.rbenv && export PATH=/home/"@,
            unix_user,
            "/.rbenv/bin:/home/"@,
            unix_user,
            "/.rbenv/shims:$PATH && rbenv install --skip-existing "@,
            ruby_version,
            " && rbenv global "@,
            ruby_version,
            " && gem install puma --no-document"@,
        ],
    )
}

/// Renders the rbenv command that installs a Ruby version and Puma.
pub fn ruby_install_command(unix_user: &str, ruby_version: &str) -> (r: String)
    ensures
        r@ == ruby_install_command_text(unix_user@, ruby_version@),
{
    let parts: Vec<&str> = vec![
        "export RBENV_ROOT=/home/",
        unix_user,
        "/.rbenv && export PATH=/home/",
        unix_user,
        "/.rbenv/bin:/home/",
        unix_user,
        "/.rbenv/shims:$PATH && rbenv install --skip-existing ",
        ruby_version,
        " && rbenv global ",
        ruby_version,
        " && gem install puma --no-document",
    ];
    assert(views_of(parts@) =~= seq![
        "export RBENV_ROOT=/home/"@,
        unix_user@,
        "/.rbenv && export PATH=/home/"@,
        unix_user@,
        "/.rbenv/bin:/home/"@,
        unix_user@,
        "/.rbenv/shims:$PATH && rbenv install --skip-existing "@,
        ruby_version@,
        " && rbenv global "@,
        ruby_version@,
        " && gem install puma --no-document"@,
    ]);
    concat_strs(&parts)
}

/// The default Puma configuration of a Ruby site.
pub open spec fn puma_config_text(unix_user: Seq<char>, port: Seq<char>) -> Seq<char> {
    concat_all(
        seq![
            "# Puma configuration — generated by JottiCP\nport        "@,
            port,
            "\nenvironment 'production'\nworkers     2\nthreads     1, 4\npidfile     '/home/"@,
            unix_user,
            "/tmp/puma.pid'\nbind        'tcp://127.0.0.1:"@,
            port,
            "'\n"@,
        ],
    )
}

/// Renders the default Puma configuration of a Ruby site.
pub fn puma_config(unix_user: &str, port: u16) -> (r: String)
    ensures
        r@ == puma_config_text(unix_user@, decimal(port as nat)),
{
    let port_s = decimal_string(port as u64);
    let parts: Vec<&str> = vec![
        "# Puma configuration — generated by JottiCP\nport        ",
        port_s.as_str(),
        "\nenvironment 'production'\nworkers     2\nthreads     1, 4\npidfile     '/home/",
        unix_user,
        "/tmp/puma.pid'\nbind        'tcp://127.0.0.1:",
        port_s.as_str(),
        "'\n",
    ];
    assert(views_of(parts@) =~= seq![
        "# Puma configuration — generated by JottiCP\nport        "@,
        port_s@,
        "\nenvironment 'production'\nworkers     2\nthreads     1, 4\npidfile     '/home/"@,
        unix_user@,
        "/tmp/puma.pid'\nbind        'tcp://127.0.0.1:"@,
        port_s@,
        "'\n"@,
    ]);
    concat_strs(&parts)
}

/// The systemd unit of a Ruby (Puma) site.
pub open spec fn ruby_unit_text(unix_user: Seq<char>, ruby_version: Seq<char>) -> Seq<char> {
    concat_all(
        seq![
            "[Unit]\nDescription=JottiCP Ruby/Puma site — "@,
            unix_user,
            "\nAfter=network.target\n\n[Service]\nType=simple\nUser="@,
            unix_user,
            "\nGroup="@,
            unix_user,
            "\nWorkingDirectory=/home/"@,
            unix_user,
            "\nEnvironment=RAILS_ENV=production\nEnvironment=RACK_ENV=production\nExecStart=/home/"@,
            unix_user,
            "/.rbenv/versions/"@,
            ruby_version,
            "/bin/puma -C /home/"@,
            unix_user,
            "/puma.rb\nExecReload=/bin/kill -USR2 $MAINPID\nRestart=on-failure\nRestartSec=5s\n# Cgroup isolation\nSlice=website-"@,
            unix_user,
            ".slice\nPrivateTmp=yes\nNoNewPrivileges=yes\n\n[Install]\nWantedBy=multi-user.target\n"@,
        ],
    )
}

/// Renders the systemd unit that runs a Ruby site under Puma.
pub fn ruby_unit(unix_user: &str, ruby_version: &str) -> (r: String)
    ensures
        r@ == ruby_unit_text(unix_user@, ruby_version@),
{
    let parts: Vec<&str> = vec![
        "[Unit]\nDescription=JottiCP Ruby/Puma site — ",
        unix_user,
        "\nAfter=network.target\n\n[Service]\nType=simple\nUser=",
        unix_user,
        "\nGroup=",
        unix_user,
        "\nWorkingDirectory=/home/",
        unix_user,
        "\nEnvironment=RAILS_ENV=production\nEnvironment=RACK_ENV=production\nExecStart=/home/",
        unix_user,
        "/.rbenv/versions/",
        ruby_version,
        "/bin/puma -C /home/",
        unix_user,
        "/puma.rb\nExecReload=/bin/kill -USR2 $MAINPID\nRestart=on-failure\nRestartSec=5s\n# Cgroup isolation\nSlice=website-",
        unix_user,
        ".slice\nPrivateTmp=yes\nNoNewPrivileges=yes\n\n[Install]\nWantedBy=multi-user.target\n",
    ];
    assert(views_of(parts@) =~= seq![
        "[Unit]\nDescription=JottiCP Ruby/Puma site — "@,
        unix_user@,
        "\nAfter=network.target\n\n[Service]\nType=simple\nUser="@,
        unix_user@,
        "\nGroup="@,
        unix_user@,
        "\nWorkingDirectory=/home/"@,
        unix_user@,
        "\nEnvironment=RAILS_ENV=production\nEnvironment=RACK_ENV=production\nExecStart=/home/"@,
        unix_user@,
        "/.rbenv/versions/"@,
        ruby_version@,
        "/bin/puma -C /home/"@,
        unix_user@,
        "/puma.rb\nExecReload=/bin/kill -USR2 $MAINPID\nRestart=on-failure\nRestartSec=5s\n# Cgroup isolation\nSlice=website-"@,
        unix_user@,
        ".slice\nPrivateTmp=yes\nNoNewPrivileges=yes\n\n[Install]\nWantedBy=multi-user.target\n"@,
    ]);
    concat_strs(&parts)
}

/// The Kestrel environment file of a .NET site.
pub open spec fn dotnet_env_text(port: Seq<char>) -> Seq<char> {
    concat_all(
        seq![
            "ASPNETCORE_ENVIRONMENT=Production\nASPNETCORE_URLS=http://127.0.0.1:"@,
            port,
            "\nDOTNET_ROOT=/usr/lib/dotnet\n"@,
        ],
    )
}

/// Renders the environment file that points Kestrel at the site's port.
pub fn dotnet_env(port: u16) -> (r: String)
    ensures
        r@ == dotnet_env_text(decimal(port as nat)),
{
    let port_s = decimal_string(port as u64);
    let parts: Vec<&str> = vec![
        "ASPNETCORE_ENVIRONMENT=Production\nASPNETCORE_URLS=http://127.0.0.1:",
        port_s.as_str(),
        "\nDOTNET_ROOT=/usr/lib/dotnet\n",
    ];
    assert(views_of(parts@) =~= seq![
        "ASPNETCORE_ENVIRONMENT=Production\nASPNETCORE_URLS=http://127.0.0.1:"@,
        port_s@,
        "\nDOTNET_ROOT=/usr/lib/dotnet\n"@,
    ]);
    concat_strs(&parts)
}

/// The systemd unit of a .NET site.
pub open spec fn dotnet_unit_text(unix_user: Seq<char>, dotnet_version: Seq<char>, site_id: Seq<char>, port: Seq<char>) -> Seq<char> {
    concat_all(
        seq![
            "[Unit]\nDescription=JottiCP .NET "@,
            dotnet_version,
            " site — "@,
            unix_user,
            "\nAfter=network.target\n\n[Service]\nType=simple\nUser="@,
            unix_user,
            "\nGroup="@,
            unix_user,
            "\nWorkingDirectory=/home/"@,
            unix_user,
            "/app\nEnvironmentFile=/etc/jottiecp/dotnet/"@,
            site_id,
            ".env\nExecStart=/usr/bin/dotnet run --project /home/"@,
            unix_user,
            "/app --urls http://127.0.0.1:"@,
            port,
            "\nRestart=on-failure\nRestartSec=5s\n# Cgroup isolation\nSlice=website-"@,
            unix_user,
            ".slice\nPrivateTmp=yes\nNoNewPrivileges=yes\n# .NET specific\nLimitNOFILE=65536\n\n[Install]\nWantedBy=multi-user.target\n"@,
        ],
    )
}

/// Renders the systemd unit that runs a .NET site with `dotnet run`.
pub fn dotnet_unit(unix_user: &str, dotnet_version: &str, site_id: &str, port: u16) -> (r: String)
    ensures
        r@ == dotnet_unit_text(unix_user@, dotnet_version@, site_id@, decimal(port as nat)),
{
    let port_s = decimal_string(port as u64);
    let parts: Vec<&str> = vec![
        "[Unit]\nDescription=JottiCP .NET ",
        dotnet_version,
        " site — ",
        unix_user,
        "\nAfter=network.target\n\n[Service]\nType=simple\nUser=",
        unix_user,
        "\nGroup=",
        unix_user,
        "\nWorkingDirectory=/home/",
        unix_user,
        "/app\nEnvironmentFile=/etc/jottiecp/dotnet/",
        site_id,
        ".env\nExecStart=/usr/bin/dotnet run --project /home/",
        unix_user,
        "/app --urls http://127.0.0.1:",
        port_s.as_str(),
        "\nRestart=on-failure\nRestartSec=5s\n# Cgroup isolation\nSlice=website-",
        unix_user,
        ".slice\nPrivateTmp=yes\nNoNewPrivileges=yes\n# .NET specific\nLimitNOFILE=65536\n\n[Install]\nWantedBy=multi-user.target\n",
    ];
    assert(views_of(parts@) =~= seq![
        "[Unit]\nDescription=JottiCP .NET "@,
        dotnet_version@,
        " site — "@,
        unix_user@,
        "\nAfter=network.target\n\n[Service]\nType=simple\nUser="@,
        unix_user@,
        "\nGroup="@,
        unix_user@,
        "\nWorkingDirectory=/home/"@,
        unix_user@,
        "/app\nEnvironmentFile=/etc/jottiecp/dotnet/"@,
        site_id@,
        ".env\nExecStart=/usr/bin/dotnet run --project /home/"@,
        unix_user@,
        "/app --urls http://127.0.0.1:"@,
        port_s@,
        "\nRestart=on-failure\nRestartSec=5s\n# Cgroup isolation\nSlice=website-"@,
        unix_user@,
        ".slice\nPrivateTmp=yes\nNoNewPrivileges=yes\n# .NET specific\nLimitNOFILE=65536\n\n[Install]\nWantedBy=multi-user.target\n"@,
    ]);
    concat_strs(&parts)
}

/// The nginx upstream block of a site's app server.
pub open spec fn nginx_upstream_text(safe_id: Seq<char>, port: Seq<char>) -> Seq<char> {
    concat_all(
        seq![
            "# jotti-agent managed — do not edit manually\nupstream orbit_"@,
            safe_id,
            " {\n    server 127.0.0.1:"@,
            port,
            ";\n    keepalive 16;\n}\n"@,
        ],
    )
}

/// Renders the nginx upstream that proxies to a site's app server.
pub fn nginx_upstream(safe_id: &str, port: u16) -> (r: String)
    ensures
        r@ == nginx_upstream_text(safe_id@, decimal(port as nat)),
{
    let port_s = decimal_string(port as u64);
    let parts: Vec<&str> = vec![
        "# jotti-agent managed — do not edit manually\nupstream orbit_",
        safe_id,
        " {\n    server 127.0.0.1:",
        port_s.as_str(),
        ";\n    keepalive 16;\n}\n",
    ];
    assert(views_of(parts@) =~= seq![
        "# jotti-agent managed — do not edit manually\nupstream orbit_"@,
        safe_id@,
        " {\n    server 127.0.0.1:"@,
        port_s@,
        ";\n    keepalive 16;\n}\n"@,
    ]);
    concat_strs(&parts)
}

/// Where the systemd unit of a site is written.
pub open spec fn site_unit_path_text(safe_id: Seq<char>) -> Seq<char> {
    concat_all(
        seq![
            "/etc/systemd/system/jotti-site-"@,
            safe_id,
            ".service"@,
        ],
    )
}

/// The path of the systemd unit of a site.
pub fn site_unit_path(safe_id: &str) -> (r: String)
    ensures
        r@ == site_unit_path_text(safe_id@),
{
    let parts: Vec<&str> = vec![
        "/etc/systemd/system/jotti-site-",
        safe_id,
        ".service",
    ];
    assert(views_of(parts@) =~= seq![
        "/etc/systemd/system/jotti-site-"@,
        safe_id@,
        ".service"@,
    ]);
    concat_strs(&parts)
}

/// Where the nginx upstream of a site is written.
pub open spec fn nginx_upstream_path_text(safe_id: Seq<char>) -> Seq<char> {
    concat_all(
        seq![
            "/etc/nginx/conf.d/upstream-"@,
            safe_id,
            ".conf"@,
        ],
    )
}

/// The path of the nginx upstream of a site.
pub fn nginx_upstream_path(safe_id: &str) -> (r: String)
    ensures
        r@ == nginx_upstream_path_text(safe_id@),
{
    let parts: Vec<&str> = vec![
        "/etc/nginx/conf.d/upstream-",
        safe_id,
        ".conf",
    ];
    assert(views_of(parts@) =~= seq![
        "/etc/nginx/conf.d/upstream-"@,
        safe_id@,
        ".conf"@,
    ]);
    concat_strs(&parts)
}

/// Where the Kestrel environment file of a site is written.
pub open spec fn dotnet_env_path_text(site_id: Seq<char>) -> Seq<char> {
    concat_all(
        seq![
            "/etc/jottiecp/dotnet/"@,
            site_id,
            ".env"@,
        ],
    )
}

/// The path of the Kestrel environment file of a site.
pub fn dotnet_env_path(site_id: &str) -> (r: String)
    ensures
        r@ == dotnet_env_path_text(site_id@),
{
    let parts: Vec<&str> = vec![
        "/etc/jottiecp/dotnet/",
        site_id,
        ".env",
    ];
    assert(views_of(parts@) =~= seq![
        "/etc/jottiecp/dotnet/"@,
        site_id@,
        ".env"@,
    ]);
    concat_strs(&parts)
}

} // verus!
