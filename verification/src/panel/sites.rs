//! Sites: domains, users, tags, logs and web servers.

use vstd::prelude::*;
use vstd::string::StringSliceAdditionalSpecFns;
use crate::panel::branding::DOMAIN_PATTERN;
use crate::patterns::{regex_is_match, regex_matches};
use crate::text::{
    chars_of, contains_chars, contains_seq, lower_case, str_eq, string_from_chars, to_lowercase,
    trim, trim_str,
};

verus! {

#[derive(Debug)]
pub struct UpdateSiteRequest {
    pub php_version:  Option<String>,
    pub web_server:   Option<String>,
    pub disk_quota_mb: Option<i64>,
    pub bandwidth_quota_gb: Option<i64>,
}

#[derive(Debug)]
pub struct LogsQuery {
    pub log_type: String,
    pub lines: usize,
}

#[derive(Debug)]
pub struct LogsResponse {
    pub lines:   Vec<String>,
    pub content: String,
    pub source:  String,
    pub found:   bool,
}

#[derive(Debug)]
pub struct CloneSiteRequest {
    /// Target domain for the cloned site.
    pub target_domain: String,
    /// Whether to copy the database (default true).
    pub copy_db: bool,
}

#[derive(Debug)]
pub struct PreviewUrlResponse {
    pub preview_url: String,
    pub instructions: String,
}

#[derive(Debug)]
pub struct TagsResponse {
    pub tags: Vec<String>,
}

#[derive(Debug)]
pub struct SetTagsRequest {
    pub tags: Vec<String>,
}

#[derive(Debug)]
pub struct SwitchWebserverRequest {
    pub web_server: String,
}

#[derive(Debug)]
pub struct SwitchWebserverResponse {
    pub domain:     String,
    pub web_server: String,
    pub message:    String,
}


/// The plan a site is created on when none is given.
pub fn default_plan() -> (r: String)
    ensures
        r@ == "community"@,
{
    String::from_str("community")
}

/// The log shown when none is asked for.
pub fn default_log_type() -> (r: String)
    ensures
        r@ == "access"@,
{
    String::from_str("access")
}

/// The number of log lines shown when none is asked for.
pub fn default_lines() -> (r: usize)
    ensures
        r == 200,
{
    200
}

/// The default of flags that are on unless turned off.
pub fn bool_true() -> (r: bool)
    ensures
        r,
{
    true
}

/// A site domain the panel accepts: it matches the domain pattern and is
/// at most 253 bytes.
pub fn is_valid_domain(domain: &str) -> (r: bool)
    ensures
        r == (regex_is_match(DOMAIN_PATTERN@, domain@) && domain.spec_bytes().len() <= 253),
{
    regex_matches(DOMAIN_PATTERN, domain) && domain.as_bytes().len() <= 253
}

/// A new site's domain as stored: lower-cased, then trimmed.
pub fn normalize_domain(domain: &str) -> (r: String)
    ensures
        r@ == trim(lower_case(domain@)),
{
    let l = to_lowercase(domain);
    trim_str(l.as_str())
}

/// The system user of a site: `orbit_` and the first 24 characters of the
/// domain with dots and hyphens turned into underscores.
pub open spec fn site_unix_user(domain: Seq<char>) -> Seq<char> {
    let m = domain.map_values(|c: char| if c == '.' || c == '-' { '_' } else { c });
    "orbit_"@ + if m.len() <= 24 {
        m
    } else {
        m.take(24)
    }
}

/// Derives the system user of a new site from its domain.
pub fn unix_user_for_site(domain: &str) -> (r: String)
    ensures
        r@ == site_unix_user(domain@),
{
    let v = chars_of(domain);
    let ghost m = domain@.map_values(|c: char| if c == '.' || c == '-' { '_' } else { c });
    let mut r = String::from_str("orbit_");
    let n: usize = if v.len() <= 24 { v.len() } else { 24 };
    let mut i: usize = 0;
    while i < n
        invariant
            i <= n,
            n <= v@.len(),
            v@ == domain@,
            m == domain@.map_values(|c: char| if c == '.' || c == '-' { '_' } else { c }),
            r@ == "orbit_"@ + m.take(i as int),
        decreases n - i,
    {
        let c = v[i];
        let d = if c == '.' || c == '-' { '_' } else { c };
        crate::text::push_char(&mut r, d);
        assert(m.take(i + 1) =~= m.take(i as int).push(d));
        i = i + 1;
    }
    assert(m.len() <= 24 ==> m.take(n as int) =~= m);
    r
}

/// The log kinds a site's logs can be read for.
#[derive(Debug, Clone, Copy, PartialEq, Eq)]
pub enum LogKind {
    Access,
    Error,
    Php,
    App,
}

/// The log kind a request names, if it is one.
pub open spec fn log_kind_of(t: Seq<char>) -> Option<LogKind> {
    if t == "access"@ {
        Some(LogKind::Access)
    } else if t == "error"@ {
        Some(LogKind::Error)
    } else if t == "php"@ {
        Some(LogKind::Php)
    } else if t == "app"@ {
        Some(LogKind::App)
    } else {
        None
    }
}

/// The files tried, in order, for a site's log of a kind.
pub open spec fn log_candidates_of(kind: LogKind, domain: Seq<char>, unix_user: Seq<char>, php_version: Seq<char>) -> Seq<Seq<char>> {
    match kind {
        LogKind::Access => seq![
            "/var/log/nginx/"@ + domain + "-access.log"@,
            "/var/log/nginx/access-"@ + domain + ".log"@,
            "/home/"@ + unix_user + "/logs/access.log"@,
        ],
        LogKind::Error => seq![
            "/var/log/nginx/"@ + domain + "-error.log"@,
            "/var/log/nginx/error-"@ + domain + ".log"@,
            "/home/"@ + unix_user + "/logs/error.log"@,
        ],
        LogKind::Php => seq![
            "/var/log/php/"@ + domain + ".log"@,
            "/var/log/php/fpm/"@ + domain + ".log"@,
            "/home/"@ + unix_user + "/logs/php-error.log"@,
            "/var/log/php"@ + php_version + "-fpm.log"@,
        ],
        LogKind::App => seq![
            "/home/"@ + unix_user + "/logs/app.log"@,
            "/home/"@ + unix_user + "/public_html/storage/logs/laravel.log"@,
            "/home/"@ + unix_user + "/public_html/var/log/app.log"@,
        ],
    }
}

/// The log files to try, in order, for a site's log of the given type;
/// unknown types are refused.
pub fn log_candidates(log_type: &str, domain: &str, unix_user: &str, php_version: &str) -> (r: Result<Vec<String>, String>)
    ensures
        match log_kind_of(log_type@) {
            Some(k) => r matches Ok(v) && v@.len() == log_candidates_of(k, domain@, unix_user@, php_version@).len()
                && forall|i: int| 0 <= i < v@.len() ==> #[trigger] v@[i]@ == log_candidates_of(k, domain@, unix_user@, php_version@)[i],
            None => r matches Err(m) && m@ == "type must be access, error, php, or app"@,
        },
{
    if str_eq(log_type, "access") {
        Ok(vec![
            crate::text::concat3("/var/log/nginx/", domain, "-access.log"),
            crate::text::concat3("/var/log/nginx/access-", domain, ".log"),
            crate::text::concat3("/home/", unix_user, "/logs/access.log"),
        ])
    } else if str_eq(log_type, "error") {
        Ok(vec![
            crate::text::concat3("/var/log/nginx/", domain, "-error.log"),
            crate::text::concat3("/var/log/nginx/error-", domain, ".log"),
            crate::text::concat3("/home/", unix_user, "/logs/error.log"),
        ])
    } else if str_eq(log_type, "php") {
        Ok(vec![
            crate::text::concat3("/var/log/php/", domain, ".log"),
            crate::text::concat3("/var/log/php/fpm/", domain, ".log"),
            crate::text::concat3("/home/", unix_user, "/logs/php-error.log"),
            crate::text::concat3("/var/log/php", php_version, "-fpm.log"),
        ])
    } else if str_eq(log_type, "app") {
        Ok(vec![
            crate::text::concat3("/home/", unix_user, "/logs/app.log"),
            crate::text::concat3("/home/", unix_user, "/public_html/storage/logs/laravel.log"),
            crate::text::concat3("/home/", unix_user, "/public_html/var/log/app.log"),
        ])
    } else {
        Err(String::from_str("type must be access, error, php, or app"))
    }
}

/// The number of log lines read: the request's, kept within 10 to 5000.
pub fn log_line_count(lines: usize) -> (r: usize)
    ensures
        r == (if lines < 10 { 10 } else if lines > 5000 { 5000 } else { lines }),
{
    if lines < 10 {
        10
    } else if lines > 5000 {
        5000
    } else {
        lines
    }
}

/// A page of the site list.
pub struct Page {
    pub limit: i64,
    pub offset: i64,
}

/// `v` kept within `lo` and `hi`.
pub open spec fn clamp(v: i64, lo: i64, hi: i64) -> i64 {
    if v < lo {
        lo
    } else if v > hi {
        hi
    } else {
        v
    }
}

/// The page of the site list a query asks for: `per_page` (default 100)
/// and `limit` (default `per_page`) kept within 1 to 500, `page` at least
/// 1 (default 1), and `offset` (default the page's first row) at least 0.
pub fn list_page(per_page: Option<i64>, page: Option<i64>, limit: Option<i64>, offset: Option<i64>) -> (r: Page)
    requires
        offset is None ==> (match page {
            Some(p) => p <= 1 || (p - 1) * 500 <= i64::MAX,
            None => true,
        }),
    ensures
        ({
            let pp = clamp(match per_page { Some(v) => v, None => 100 }, 1, 500);
            let pg = match page { Some(v) => if v < 1 { 1 } else { v }, None => 1 };
            &&& r.limit == clamp(match limit { Some(v) => v, None => pp }, 1, 500)
            &&& r.offset == (match offset {
                Some(o) => if o < 0 { 0 } else { o },
                None => ((pg - 1) * pp) as i64,
            })
        }),
{
    let pp0 = match per_page { Some(v) => v, None => 100 };
    let pp = if pp0 < 1 { 1 } else if pp0 > 500 { 500 } else { pp0 };
    let pg = match page { Some(v) => if v < 1 { 1 } else { v }, None => 1 };
    let l0 = match limit { Some(v) => v, None => pp };
    let l = if l0 < 1 { 1 } else if l0 > 500 { 500 } else { l0 };
    let o = match offset {
        Some(o) => if o < 0 { 0 } else { o },
        None => {
            assert((pg - 1) * pp <= (pg - 1) * 500) by (nonlinear_arith)
                requires pg >= 1, pp <= 500;
            assert(0 <= (pg - 1) * pp) by (nonlinear_arith)
                requires pg >= 1, pp >= 1;
            (pg - 1) * pp
        },
    };
    Page { limit: l, offset: o }
}

/// The preview address of a site and how to use it.
pub fn preview_url(domain: &str, server_ip: &str) -> (r: PreviewUrlResponse)
    ensures
        r.preview_url@ == "http://"@ + domain@,
        r.instructions@ == "Add this to your local /etc/hosts file to preview:\n"@ + server_ip@ + seq![' '] + domain@,
{
    let mut u = String::from_str("http://");
    u.append(domain);
    let mut i = String::from_str("Add this to your local /etc/hosts file to preview:\n");
    i.append(server_ip);
    crate::text::push_char(&mut i, ' ');
    i.append(domain);
    assert(i@ =~= "Add this to your local /etc/hosts file to preview:\n"@ + server_ip@ + seq![' '] + domain@);
    PreviewUrlResponse { preview_url: u, instructions: i }
}

/// A character allowed in a site tag.
pub open spec fn is_tag_char(c: char) -> bool {
    ('0' <= c <= '9') || ('a' <= c <= 'z') || ('A' <= c <= 'Z') || c == '-' || c == '_'
}

/// The first problem with a tag, if any.
pub open spec fn tag_problem(tag: Seq<char>) -> Option<Seq<char>> {
    let n = vstd::utf8::encode_utf8(tag).len();
    if tag.len() == 0 || n > 32 {
        Some("Each tag must be 1-32 characters"@)
    } else if !(forall|i: int| 0 <= i < tag.len() ==> is_tag_char(#[trigger] tag[i])) {
        Some("Tag '"@ + tag + "' contains invalid characters"@)
    } else {
        None
    }
}

/// The index of the first tag with a problem, from `from` on.
pub open spec fn first_bad_tag(tags: Seq<String>, from: int) -> int
    decreases tags.len() - from,
{
    if from >= tags.len() {
        tags.len() as int
    } else if tag_problem(tags[from]@) is Some {
        from
    } else {
        first_bad_tag(tags, from + 1)
    }
}

fn check_tag(tag: &String) -> (r: Result<(), String>)
    ensures
        match tag_problem(tag@) {
            Some(m) => r matches Err(e) && e@ == m,
            None => r is Ok,
        },
{
    let v = chars_of(tag.as_str());
    let n = tag.as_str().as_bytes().len();
    if v.len() == 0 || n > 32 {
        return Err(String::from_str("Each tag must be 1-32 characters"));
    }
    let mut i: usize = 0;
    while i < v.len()
        invariant
            i <= v@.len(),
            v@ == tag@,
            v@.len() > 0,
            n <= 32,
            n == vstd::utf8::encode_utf8(tag@).len(),
            forall|k: int| 0 <= k < i ==> is_tag_char(#[trigger] v@[k]),
        decreases v@.len() - i,
    {
        let c = v[i];
        if !(('0' <= c && c <= '9') || ('a' <= c && c <= 'z') || ('A' <= c && c <= 'Z') || c == '-' || c == '_') {
            assert(!is_tag_char(v@[i as int]));
            let mut m = String::from_str("Tag '");
            m.append(tag.as_str());
            m.append("' contains invalid characters");
            return Err(m);
        }
        i = i + 1;
    }
    Ok(())
}

/// Checks a site's new tags: at most 20, each 1–32 bytes of ASCII letters,
/// digits, `-` and `_`; the first bad tag is reported.
pub fn validate_tags(req: &SetTagsRequest) -> (r: Result<(), String>)
    ensures
        req.tags@.len() > 20 ==> (r matches Err(m) && m@ == "Maximum 20 tags allowed"@),
        req.tags@.len() <= 20 ==> match (if first_bad_tag(req.tags@, 0) < req.tags@.len() {
            tag_problem(req.tags@[first_bad_tag(req.tags@, 0)]@)
        } else {
            None
        }) {
            Some(m) => r matches Err(e) && e@ == m,
            None => r is Ok,
        },
{
    if req.tags.len() > 20 {
        return Err(String::from_str("Maximum 20 tags allowed"));
    }
    let mut i: usize = 0;
    while i < req.tags.len()
        invariant
            i <= req.tags@.len(),
            req.tags@.len() <= 20,
            first_bad_tag(req.tags@, 0) == first_bad_tag(req.tags@, i as int),
        decreases req.tags@.len() - i,
    {
        match check_tag(&req.tags[i]) {
            Ok(()) => {},
            Err(e) => {
                return Err(e);
            },
        }
        i = i + 1;
    }
    Ok(())
}

/// The web servers a site can run on.
pub open spec fn valid_web_server(ws: Seq<char>) -> bool {
    ws == "nginx"@ || ws == "apache"@ || ws == "ols"@
}

/// Checks a web server switch: admins only, to nginx, apache or ols, for a
/// site whose domain and user cannot escape their directories.
pub fn check_switch_webserver(is_admin: bool, web_server: &str, domain: &str, unix_user: &str) -> (r: Result<(), String>)
    ensures
        !is_admin ==> (r matches Err(m) && m@ == "Admin access required"@),
        is_admin && !valid_web_server(web_server@) ==> (r matches Err(m) && m@ == "web_server must be nginx, apache, or ols"@),
        r is Ok <==> is_admin && valid_web_server(web_server@) && !domain@.contains('/') && !contains_seq(domain@, ".."@)
            && !unix_user@.contains('/'),
        is_admin && valid_web_server(web_server@) ==> (r matches Err(m) ==> m@ == "Invalid domain or unix_user"@),
{
    if !is_admin {
        return Err(String::from_str("Admin access required"));
    }
    if !(str_eq(web_server, "nginx") || str_eq(web_server, "apache") || str_eq(web_server, "ols")) {
        return Err(String::from_str("web_server must be nginx, apache, or ols"));
    }
    let dv = chars_of(domain);
    let uv = chars_of(unix_user);
    let dd = chars_of("..");
    let slash = chars_of("/");
    proof {
        reveal_strlit("/");
    }
    assert(slash@ =~= seq!['/']);
    if contains_chars(&dv, &slash) || contains_chars(&dv, &dd) || contains_chars(&uv, &slash) {
        proof {
            lemma_contains_char(dv@, '/');
            lemma_contains_char(uv@, '/');
        }
        return Err(String::from_str("Invalid domain or unix_user"));
    }
    proof {
        lemma_contains_char(dv@, '/');
        lemma_contains_char(uv@, '/');
    }
    Ok(())
}

/// Holding a one-character text is holding that character.
pub proof fn lemma_contains_char(s: Seq<char>, c: char)
    ensures
        contains_seq(s, seq![c]) <==> s.contains(c),
{
    if s.contains(c) {
        let i = choose|i: int| 0 <= i < s.len() && s[i] == c;
        assert(s.subrange(i, i + 1) =~= seq![c]);
        assert(crate::text::occurs_at(s, seq![c], i));
    }
    if contains_seq(s, seq![c]) {
        let i = choose|i: int| crate::text::occurs_at(s, seq![c], i);
        assert(s.subrange(i, i + 1)[0] == c);
        assert(s[i] == c);
    }
}

/// The pattern of a PHP version, `7.x` or `8.x`.
pub const PHP_VERSION_PATTERN: &'static str = "^[78]\\.[0-9]+$";

/// Checks a requested PHP version against the version pattern.
pub fn check_php_version(version: &str) -> (r: Result<(), String>)
    ensures
        r is Ok <==> regex_is_match(PHP_VERSION_PATTERN@, version@),
        r matches Err(m) ==> m@ == "Invalid PHP version: "@ + version@,
{
    if regex_matches(PHP_VERSION_PATTERN, version) {
        Ok(())
    } else {
        let mut m = String::from_str("Invalid PHP version: ");
        m.append(version);
        Err(m)
    }
}


/// Checks a clone's target domain: it must be a valid domain, and not one
/// a live site already uses.
pub fn check_clone_target(target_domain: &str, taken: bool) -> (r: Result<(), String>)
    ensures
        !(regex_is_match(DOMAIN_PATTERN@, target_domain@) && target_domain.spec_bytes().len() <= 253) ==> (
        r matches Err(m) && m@ == "Invalid target domain"@),
        (regex_is_match(DOMAIN_PATTERN@, target_domain@) && target_domain.spec_bytes().len() <= 253) ==> (
        taken <==> r is Err),
        (regex_is_match(DOMAIN_PATTERN@, target_domain@) && target_domain.spec_bytes().len() <= 253 && taken)
            ==> (r matches Err(m) && m@ == "Domain '"@ + target_domain@ + "' is already in use"@),
{
    if !is_valid_domain(target_domain) {
        return Err(String::from_str("Invalid target domain"));
    }
    if taken {
        return Err(crate::text::concat3("Domain '", target_domain, "' is already in use"));
    }
    Ok(())
}

/// The system user of a site's clone: `s` and the first eight hex digits of
/// the SHA-256 of the clone's domain.
pub fn clone_unix_user(target_domain: &str) -> (r: String)
    ensures
        r@ == "s"@ + crate::agent::backup::hex_of(crate::agent::backup::sha256(target_domain.spec_bytes())).take(8),
{
    let h = crate::agent::backup::sha256_hex(target_domain.as_bytes());
    proof {
        crate::agent::backup::lemma_hex_len(crate::agent::backup::sha256(target_domain.spec_bytes()));
    }
    let hv = chars_of(h.as_str());
    let head = crate::text::slice_chars(&hv, 0, 8);
    assert(head@ =~= hv@.take(8));
    let hs = string_from_chars(&head);
    crate::text::concat2("s", hs.as_str())
}

/// The text after the last `c` of `s`, or all of `s` when it holds none.
pub open spec fn last_segment(s: Seq<char>, c: char) -> Seq<char>
    decreases s.len(),
{
    if s.len() == 0 {
        s
    } else if s.last() == c {
        Seq::empty()
    } else {
        last_segment(s.drop_last(), c).push(s.last())
    }
}

proof fn lemma_last_segment_tail(u: Seq<char>, t: Seq<char>, c: char)
    requires
        !t.contains(c),
    ensures
        last_segment(u + t, c) == last_segment(u, c) + t,
    decreases t.len(),
{
    if t.len() == 0 {
        assert(u + t =~= u);
        assert(last_segment(u, c) + t =~= last_segment(u, c));
    } else {
        let t0 = t.drop_last();
        assert(!t0.contains(c)) by {
            if t0.contains(c) {
                let k = choose|k: int| 0 <= k < t0.len() && t0[k] == c;
                assert(t[k] == c);
            }
        }
        lemma_last_segment_tail(u, t0, c);
        assert((u + t).drop_last() =~= u + t0);
        assert((u + t).last() == t.last());
        assert(t.last() != c) by {
            assert(t[t.len() - 1] == t.last());
        }
        assert(last_segment(u, c) + t =~= (last_segment(u, c) + t0).push(t.last()));
    }
}

/// The name of a cloned database: the clone's system user, `_`, and the
/// part of the source database's name after its last `_`.
pub fn clone_db_name(dst_unix: &str, src_db: &str) -> (r: String)
    ensures
        r@ == dst_unix@ + "_"@ + last_segment(src_db@, '_'),
{
    let v = chars_of(src_db);
    let n = v.len();
    let mut i: usize = n;
    while i > 0 && v[i - 1] != '_'
        invariant
            i <= n,
            n == v@.len(),
            forall|k: int| i <= k < n ==> v@[k] != '_',
        decreases i,
    {
        i = i - 1;
    }
    let tail = crate::text::slice_chars(&v, i, n);
    proof {
        let u = v@.take(i as int);
        assert(v@ =~= u + tail@);
        assert(!tail@.contains('_')) by {
            if tail@.contains('_') {
                let k = choose|k: int| 0 <= k < tail@.len() && tail@[k] == '_';
                assert(v@[i + k] == '_');
            }
        }
        lemma_last_segment_tail(u, tail@, '_');
        if i > 0 {
            assert(u.last() == '_');
            assert(last_segment(u, '_') =~= Seq::<char>::empty());
        } else {
            assert(u =~= Seq::<char>::empty());
        }
        assert(last_segment(v@, '_') =~= tail@);
    }
    let ts = string_from_chars(&tail);
    crate::text::concat3(dst_unix, "_", ts.as_str())
}

/// What cloning a site runs for its files: create the clone's user with
/// its home, copy the web root over with `rsync`, and give the home to the
/// clone's user.
#[derive(Debug)]
pub struct CloneFilesPlan {
    pub useradd_args: Vec<String>,
    pub dst_docroot: String,
    pub rsync_args: Vec<String>,
    pub chown_args: Vec<String>,
}

/// The views of a list of strings.
pub open spec fn texts(v: Seq<String>) -> Seq<Seq<char>> {
    crate::mail::lines::line_views(v)
}

/// The file steps of cloning the site of `src_unix` to `dst_unix`.
pub fn clone_files_plan(src_unix: &str, dst_unix: &str) -> (r: CloneFilesPlan)
    ensures
        texts(r.useradd_args@) == seq![
            "-m"@,
            "-d"@,
            "/home/"@ + dst_unix@,
            "-s"@,
            "/sbin/nologin"@,
            dst_unix@,
        ],
        r.dst_docroot@ == "/home/"@ + dst_unix@ + "/public_html"@,
        texts(r.rsync_args@) == seq![
            "-a"@,
            "--delete"@,
            "/home/"@ + src_unix@ + "/public_html/"@,
            "/home/"@ + dst_unix@ + "/public_html"@,
        ],
        texts(r.chown_args@) == seq!["-R"@, dst_unix@ + ":"@ + dst_unix@, "/home/"@ + dst_unix@],
{
    let home = crate::text::concat2("/home/", dst_unix);
    let docroot = crate::text::concat3("/home/", dst_unix, "/public_html");
    let src_root = crate::text::concat3("/home/", src_unix, "/public_html/");
    let mut useradd: Vec<String> = Vec::new();
    useradd.push(String::from_str("-m"));
    useradd.push(String::from_str("-d"));
    useradd.push(home.clone());
    useradd.push(String::from_str("-s"));
    useradd.push(String::from_str("/sbin/nologin"));
    useradd.push(String::from_str(dst_unix));
    let mut rsync: Vec<String> = Vec::new();
    rsync.push(String::from_str("-a"));
    rsync.push(String::from_str("--delete"));
    rsync.push(src_root);
    rsync.push(docroot.clone());
    let mut chown: Vec<String> = Vec::new();
    chown.push(String::from_str("-R"));
    chown.push(crate::text::concat3(dst_unix, ":", dst_unix));
    chown.push(home);
    let r = CloneFilesPlan { useradd_args: useradd, dst_docroot: docroot, rsync_args: rsync, chown_args: chown };
    assert(texts(r.useradd_args@) =~= seq!["-m"@, "-d"@, "/home/"@ + dst_unix@, "-s"@, "/sbin/nologin"@, dst_unix@]);
    assert(texts(r.rsync_args@) =~= seq![
        "-a"@,
        "--delete"@,
        "/home/"@ + src_unix@ + "/public_html/"@,
        "/home/"@ + dst_unix@ + "/public_html"@,
    ]);
    assert(texts(r.chown_args@) =~= seq!["-R"@, dst_unix@ + ":"@ + dst_unix@, "/home/"@ + dst_unix@]);
    r
}

/// What cloning one MySQL database runs: dump the source, create the
/// clone's database, load the dump into it, and point the WordPress site
/// and home URLs at the new domain.
#[derive(Debug)]
pub struct CloneDbPlan {
    pub dst_db: String,
    pub dump_args: Vec<String>,
    pub create_sql: String,
    pub replace_sql: String,
}

/// The steps that clone the database `src_db` of the site at `src_domain`
/// to the clone of `dst_unix` at `target_domain`.
pub fn clone_db_plan(dst_unix: &str, src_db: &str, src_domain: &str, target_domain: &str) -> (r: CloneDbPlan)
    ensures
        r.dst_db@ == dst_unix@ + "_"@ + last_segment(src_db@, '_'),
        texts(r.dump_args@) == seq!["--single-transaction"@, src_db@],
        r.create_sql@ == "CREATE DATABASE IF NOT EXISTS `"@ + r.dst_db@ + "`"@,
        r.replace_sql@ == "UPDATE wp_options SET option_value = REPLACE(option_value, '"@ + src_domain@
            + "', '"@ + target_domain@ + "') WHERE option_name IN ('siteurl','home');"@,
{
    let dst_db = clone_db_name(dst_unix, src_db);
    let mut dump: Vec<String> = Vec::new();
    dump.push(String::from_str("--single-transaction"));
    dump.push(String::from_str(src_db));
    let create = crate::text::concat3("CREATE DATABASE IF NOT EXISTS `", dst_db.as_str(), "`");
    let a = crate::text::concat3("UPDATE wp_options SET option_value = REPLACE(option_value, '", src_domain, "', '");
    let replace = crate::text::concat3(a.as_str(), target_domain, "') WHERE option_name IN ('siteurl','home');");
    assert(texts(dump@) =~= seq!["--single-transaction"@, src_db@]);
    CloneDbPlan { dst_db, dump_args: dump, create_sql: create, replace_sql: replace }
}

} // verus!
