//! Panel settings, hardening and service status.

use vstd::prelude::*;
use crate::mail::postfix::{split_once, split_once_chars};
use crate::text::{
    chars_of, decimal, decimal_string, has_prefix, lines_chars, lines_of, starts_with_chars, str_eq,
    string_from_chars, trim, trim_chars, vec_eq,
};

verus! {

#[derive(Debug)]
pub struct PanelSettings {
    pub panel_domain:       String,
    pub admin_email:        String,
    pub smtp_from:          String,
    pub orbit_env:          String,
    pub max_upload_mb:      u64,
    pub acme_directory:     String,
    pub default_web_server: String,
    pub default_php:        String,
    pub language:           String,
    pub timezone:           String,
    pub date_format:        String,
    pub maintenance_mode:   bool,
    pub registration_open:  bool,
    pub version:            String,
}

#[derive(Debug)]
pub struct UpdateSettingsRequest {
    pub panel_domain:       Option<String>,
    pub admin_email:        Option<String>,
    pub smtp_from:          Option<String>,
    pub max_upload_mb:      Option<u64>,
    pub default_web_server: Option<String>,
    pub maintenance_mode:   Option<bool>,
    pub registration_open:  Option<bool>,
    pub default_php:        Option<String>,
    pub language:           Option<String>,
    pub timezone:           Option<String>,
    pub date_format:        Option<String>,
}

#[derive(Debug)]
pub struct SmtpTestResponse {
    pub success: bool,
    pub message: String,
}

#[derive(Debug)]
pub struct LicenseInfo {
    pub plan:       String,
    pub expires_at: Option<String>,
    pub servers:    i32,
    pub max_servers: i32,
}

#[derive(Debug)]
pub struct HardeningStatus {
    /// True if /etc/sysctl.d/99-jottiecp-hardening.conf exists.
    pub applied:     bool,
    /// Key=value pairs parsed from the hardening config.
    pub parameters:  Vec<(String, String)>,
}

#[derive(Debug)]
pub struct EmailRateLimits {
    pub per_hour:   i32,
    pub per_day:    i32,
    pub per_month:  i32,
    pub enabled:    bool,
}

#[derive(Debug)]
pub struct ServiceStatus {
    pub name:    String,
    pub label:   String,
    pub active:  bool,
    pub enabled: bool,
    pub pid:     Option<u32>,
}

#[derive(Debug)]
pub struct TopSite {
    pub id:         String,
    pub domain:     String,
    pub unix_user:  String,
    pub web_server: String,
    pub status:     String,
    pub disk_mb:    u64,
    pub req_count:  u64,
}


/// The settings an update writes, in order, and the error that stopped it,
/// if one did (the writes before it have happened).
pub struct SettingsUpdate {
    pub writes: Vec<(String, String)>,
    pub error: Option<String>,
}

/// The languages the panel speaks.
pub open spec fn valid_language(l: Seq<char>) -> bool {
    l == "en"@ || l == "ru"@ || l == "ar"@ || l == "fr"@ || l == "es"@ || l == "de"@ || l == "pt"@
        || l == "zh-CN"@
}

/// The default web servers the panel offers.
pub open spec fn valid_default_web_server(ws: Seq<char>) -> bool {
    ws == "ols"@ || ws == "nginx"@ || ws == "apache"@ || ws == "lse"@
}

/// One field of a settings update: absent, a setting to write, or the
/// error that stops the update.
pub enum SettingStep {
    Skip,
    Write(Seq<char>, Seq<char>),
    Fail(Seq<char>),
}

/// The step of an optional text field that is written as it is when valid.
pub open spec fn text_step(field: Option<String>, key: Seq<char>, valid: spec_fn(Seq<char>) -> bool, error: Seq<char>) -> SettingStep {
    match field {
        None => SettingStep::Skip,
        Some(v) => if valid(v@) {
            SettingStep::Write(key, v@)
        } else {
            SettingStep::Fail(error)
        },
    }
}

/// The text a flag is stored as.
pub open spec fn flag_text(b: bool) -> Seq<char> {
    if b {
        "true"@
    } else {
        "false"@
    }
}

/// The steps of a settings update, in the order the fields are applied.
pub open spec fn settings_steps(req: UpdateSettingsRequest) -> Seq<SettingStep> {
    seq![
        text_step(req.admin_email, "admin_email"@, |e: Seq<char>| e.contains('@'), "Invalid admin email"@),
        text_step(req.smtp_from, "smtp_from"@, |e: Seq<char>| e.contains('@'), "Invalid smtp_from email"@),
        match req.max_upload_mb {
            None => SettingStep::Skip,
            Some(mb) => if 1 <= mb <= 10240 {
                SettingStep::Write("max_upload_mb"@, decimal(mb as nat))
            } else {
                SettingStep::Fail("max_upload_mb must be 1–10240"@)
            },
        },
        text_step(
            req.default_web_server,
            "default_web_server"@,
            |w: Seq<char>| valid_default_web_server(w),
            "default_web_server must be ols, nginx, apache, or lse"@,
        ),
        match req.maintenance_mode {
            None => SettingStep::Skip,
            Some(b) => SettingStep::Write("maintenance_mode"@, flag_text(b)),
        },
        match req.registration_open {
            None => SettingStep::Skip,
            Some(b) => SettingStep::Write("registration_open"@, flag_text(b)),
        },
        text_step(req.panel_domain, "panel_domain"@, |d: Seq<char>| true, Seq::empty()),
        text_step(req.language, "language"@, |l: Seq<char>| valid_language(l), "Invalid language"@),
        text_step(req.timezone, "timezone"@, |t: Seq<char>| true, Seq::empty()),
        text_step(req.date_format, "date_format"@, |d: Seq<char>| true, Seq::empty()),
        text_step(req.default_php, "default_php"@, |p: Seq<char>| true, Seq::empty()),
    ]
}

/// The writes and the error of running steps in order: each write is made,
/// and the first failure stops the run.
pub open spec fn run_steps(steps: Seq<SettingStep>) -> (Seq<(Seq<char>, Seq<char>)>, Option<Seq<char>>)
    decreases steps.len(),
{
    if steps.len() == 0 {
        (Seq::empty(), None)
    } else {
        match steps[0] {
            SettingStep::Skip => run_steps(steps.drop_first()),
            SettingStep::Write(k, v) => (seq![(k, v)] + run_steps(steps.drop_first()).0, run_steps(steps.drop_first()).1),
            SettingStep::Fail(m) => (Seq::empty(), Some(m)),
        }
    }
}

/// The views of the written settings.
pub open spec fn writes_view(w: Seq<(String, String)>) -> Seq<(Seq<char>, Seq<char>)> {
    w.map_values(|p: (String, String)| (p.0@, p.1@))
}

/// The languages the panel accepts are exactly en, ru, ar, fr, es, de, pt
/// and zh-CN: an update that sets only the language writes it as given when
/// it is one of them, and otherwise is refused with `Invalid language`,
/// writing nothing.
pub proof fn lemma_language_choices(req: UpdateSettingsRequest, l: String)
    requires
        req.language == Some(l),
        req.panel_domain is None,
        req.admin_email is None,
        req.smtp_from is None,
        req.max_upload_mb is None,
        req.default_web_server is None,
        req.maintenance_mode is None,
        req.registration_open is None,
        req.default_php is None,
        req.timezone is None,
        req.date_format is None,
    ensures
        (l@ == "en"@ || l@ == "ru"@ || l@ == "ar"@ || l@ == "fr"@ || l@ == "es"@ || l@ == "de"@ || l@ == "pt"@
            || l@ == "zh-CN"@) ==> run_steps(settings_steps(req)) == (
            seq![("language"@, l@)],
            None::<Seq<char>>,
        ),
        !(l@ == "en"@ || l@ == "ru"@ || l@ == "ar"@ || l@ == "fr"@ || l@ == "es"@ || l@ == "de"@ || l@ == "pt"@
            || l@ == "zh-CN"@) ==> run_steps(settings_steps(req)) == (
            Seq::<(Seq<char>, Seq<char>)>::empty(),
            Some("Invalid language"@),
        ),
{
    let steps = settings_steps(req);
    let lang = text_step(req.language, "language"@, |x: Seq<char>| valid_language(x), "Invalid language"@);
    let tail = seq![SettingStep::Skip, SettingStep::Skip, SettingStep::Skip];
    assert(run_steps(tail) == (Seq::<(Seq<char>, Seq<char>)>::empty(), None::<Seq<char>>)) by {
        reveal_with_fuel(run_steps, 4);
        assert(tail.drop_first() =~= seq![SettingStep::Skip, SettingStep::Skip]);
        assert(tail.drop_first().drop_first() =~= seq![SettingStep::Skip]);
        assert(tail.drop_first().drop_first().drop_first() =~= Seq::<SettingStep>::empty());
    }
    let from_lang = seq![lang].add(tail);
    assert(steps.skip(7) =~= from_lang);
    assert(from_lang.drop_first() =~= tail);
    assert(from_lang[0] == lang);
    assert(valid_language(l@) ==> run_steps(from_lang) == (seq![("language"@, l@)], None::<Seq<char>>)) by {
        if valid_language(l@) {
            assert(seq![("language"@, l@)] + Seq::<(Seq<char>, Seq<char>)>::empty() =~= seq![("language"@, l@)]);
        }
    }
    lemma_leading_skips(steps, 7);
}

/// Fields left out of an update change nothing: leading skipped steps can
/// be dropped.
proof fn lemma_leading_skips(steps: Seq<SettingStep>, k: int)
    requires
        0 <= k <= steps.len(),
        forall|i: int| 0 <= i < k ==> (#[trigger] steps[i]) is Skip,
    ensures
        run_steps(steps) == run_steps(steps.skip(k)),
    decreases k,
{
    if k > 0 {
        assert forall|i: int| 0 <= i < k - 1 implies (#[trigger] steps.drop_first()[i]) is Skip by {
            assert(steps.drop_first()[i] == steps[i + 1]);
        }
        lemma_leading_skips(steps.drop_first(), k - 1);
        assert(steps.drop_first().skip(k - 1) =~= steps.skip(k));
        assert(steps[0] is Skip);
    } else {
        assert(steps.skip(0) =~= steps);
    }
}

/// Whether the update carries its `i`-th field, in the order the fields
/// are applied: admin e-mail, sender, upload limit, default web server,
/// maintenance mode, registration, panel domain, language, time zone, date
/// format, default PHP.
pub open spec fn field_given(req: UpdateSettingsRequest, i: int) -> bool {
    if i == 0 {
        req.admin_email is Some
    } else if i == 1 {
        req.smtp_from is Some
    } else if i == 2 {
        req.max_upload_mb is Some
    } else if i == 3 {
        req.default_web_server is Some
    } else if i == 4 {
        req.maintenance_mode is Some
    } else if i == 5 {
        req.registration_open is Some
    } else if i == 6 {
        req.panel_domain is Some
    } else if i == 7 {
        req.language is Some
    } else if i == 8 {
        req.timezone is Some
    } else if i == 9 {
        req.date_format is Some
    } else {
        req.default_php is Some
    }
}

/// Steps that all skip write nothing and fail nowhere.
proof fn lemma_all_skip(steps: Seq<SettingStep>)
    requires
        forall|i: int| 0 <= i < steps.len() ==> (#[trigger] steps[i]) is Skip,
    ensures
        run_steps(steps) == (Seq::<(Seq<char>, Seq<char>)>::empty(), None::<Seq<char>>),
    decreases steps.len(),
{
    if steps.len() > 0 {
        assert forall|i: int| 0 <= i < steps.len() - 1 implies (#[trigger] steps.drop_first()[i]) is Skip by {
            assert(steps.drop_first()[i] == steps[i + 1]);
        }
        lemma_all_skip(steps.drop_first());
        assert(steps[0] is Skip);
    }
}

/// An update that carries one field alone: what it writes and the error it
/// stops with. An e-mail field must hold `@`; the upload limit must be 1 to
/// 10240 MB and is written in decimal; the default web server must be ols,
/// nginx, apache or lse; a flag is written `true` or `false`; the panel
/// domain, time zone, date format and default PHP version are written as
/// given.
pub proof fn lemma_single_setting(req: UpdateSettingsRequest, k: int)
    requires
        0 <= k < 11,
        forall|i: int| 0 <= i < 11 && i != k ==> !field_given(req, i),
    ensures
        k == 0 ==> (req.admin_email matches Some(e) ==> run_steps(settings_steps(req)) == if e@.contains('@') {
            (seq![("admin_email"@, e@)], None::<Seq<char>>)
        } else {
            (Seq::<(Seq<char>, Seq<char>)>::empty(), Some("Invalid admin email"@))
        }),
        k == 1 ==> (req.smtp_from matches Some(e) ==> run_steps(settings_steps(req)) == if e@.contains('@') {
            (seq![("smtp_from"@, e@)], None::<Seq<char>>)
        } else {
            (Seq::<(Seq<char>, Seq<char>)>::empty(), Some("Invalid smtp_from email"@))
        }),
        k == 2 ==> (req.max_upload_mb matches Some(mb) ==> run_steps(settings_steps(req)) == if 1 <= mb
            <= 10240 {
            (seq![("max_upload_mb"@, decimal(mb as nat))], None::<Seq<char>>)
        } else {
            (Seq::<(Seq<char>, Seq<char>)>::empty(), Some("max_upload_mb must be 1–10240"@))
        }),
        k == 3 ==> (req.default_web_server matches Some(w) ==> run_steps(settings_steps(req)) == if w@ == "ols"@
            || w@ == "nginx"@ || w@ == "apache"@ || w@ == "lse"@ {
            (seq![("default_web_server"@, w@)], None::<Seq<char>>)
        } else {
            (
                Seq::<(Seq<char>, Seq<char>)>::empty(),
                Some("default_web_server must be ols, nginx, apache, or lse"@),
            )
        }),
        k == 4 ==> (req.maintenance_mode matches Some(b) ==> run_steps(settings_steps(req)) == (
            seq![("maintenance_mode"@, if b { "true"@ } else { "false"@ })],
            None::<Seq<char>>,
        )),
        k == 5 ==> (req.registration_open matches Some(b) ==> run_steps(settings_steps(req)) == (
            seq![("registration_open"@, if b { "true"@ } else { "false"@ })],
            None::<Seq<char>>,
        )),
        k == 6 ==> (req.panel_domain matches Some(d) ==> run_steps(settings_steps(req)) == (
            seq![("panel_domain"@, d@)],
            None::<Seq<char>>,
        )),
        k == 8 ==> (req.timezone matches Some(t) ==> run_steps(settings_steps(req)) == (
            seq![("timezone"@, t@)],
            None::<Seq<char>>,
        )),
        k == 9 ==> (req.date_format matches Some(d) ==> run_steps(settings_steps(req)) == (
            seq![("date_format"@, d@)],
            None::<Seq<char>>,
        )),
        k == 10 ==> (req.default_php matches Some(v) ==> run_steps(settings_steps(req)) == (
            seq![("default_php"@, v@)],
            None::<Seq<char>>,
        )),
{
    let steps = settings_steps(req);
    assert forall|i: int| 0 <= i < 11 && i != k implies (#[trigger] steps[i]) is Skip by {
        assert(!field_given(req, i));
    }
    lemma_leading_skips(steps, k);
    let rest = steps.skip(k);
    assert forall|i: int| 0 <= i < rest.drop_first().len() implies (#[trigger] rest.drop_first()[i]) is Skip by {
        assert(rest.drop_first()[i] == steps[k + 1 + i]);
    }
    lemma_all_skip(rest.drop_first());
    assert(rest[0] == steps[k]);
    let w = run_steps(rest.drop_first()).0;
    assert(w =~= Seq::<(Seq<char>, Seq<char>)>::empty());
    match steps[k] {
        SettingStep::Write(a, b) => {
            assert(seq![(a, b)] + w =~= seq![(a, b)]);
        },
        _ => {},
    }
}

/// The first invalid field stops the update: an admin e-mail without `@`
/// refuses the update, writing nothing, whatever else it carries.
pub proof fn lemma_invalid_admin_email_stops(req: UpdateSettingsRequest)
    requires
        req.admin_email matches Some(e) && !e@.contains('@'),
    ensures
        run_steps(settings_steps(req)) == (Seq::<(Seq<char>, Seq<char>)>::empty(), Some("Invalid admin email"@)),
{
}

/// The writes done so far followed by the outcome of the steps left.
pub open spec fn after(done: Seq<(Seq<char>, Seq<char>)>, rest: (Seq<(Seq<char>, Seq<char>)>, Option<Seq<char>>)) -> (
    Seq<(Seq<char>, Seq<char>)>,
    Option<Seq<char>>,
) {
    (done + rest.0, rest.1)
}

/// Running the next step of an update.
proof fn lemma_next_step(all: Seq<SettingStep>, done: Seq<(Seq<char>, Seq<char>)>, rest: Seq<SettingStep>)
    requires
        rest.len() > 0,
        run_steps(all) == after(done, run_steps(rest)),
    ensures
        rest[0] is Skip ==> run_steps(all) == after(done, run_steps(rest.drop_first())),
        rest[0] matches SettingStep::Write(k, v) ==> run_steps(all) == after(
            done.push((k, v)),
            run_steps(rest.drop_first()),
        ),
        rest[0] matches SettingStep::Fail(m) ==> run_steps(all) == (done, Some(m)),
{
    match rest[0] {
        SettingStep::Write(k, v) => {
            let r = run_steps(rest.drop_first());
            assert(done + (seq![(k, v)] + r.0) =~= done.push((k, v)) + r.0);
        },
        SettingStep::Fail(m) => {
            assert(done + Seq::<(Seq<char>, Seq<char>)>::empty() =~= done);
        },
        SettingStep::Skip => {},
    }
}

fn push_write(writes: &mut Vec<(String, String)>, key: &str, value: &str)
    ensures
        writes_view(final(writes)@) == writes_view(old(writes)@).push((key@, value@)),
{
    writes.push((String::from_str(key), String::from_str(value)));
    assert(writes_view(writes@) =~= writes_view(old(writes)@).push((key@, value@)));
}

/// Applies a settings update in the order of its fields: admin e-mail and
/// sender must hold `@`, the upload limit be 1–10240 MB, the web server
/// one of ols, nginx, apache and lse, the language a supported one; the
/// first invalid field stops the update after the writes before it.
#[verifier::spinoff_prover]
#[verifier::rlimit(60)]
pub fn settings_update(req: &UpdateSettingsRequest) -> (r: SettingsUpdate)
    ensures
        (writes_view(r.writes@), match r.error {
            Some(m) => Some(m@),
            None => None,
        }) == run_steps(settings_steps(*req)),
{
    let mut writes: Vec<(String, String)> = Vec::new();
    let ghost all = settings_steps(*req);
    let ghost mut rest = all;
    assert(writes_view(writes@) + run_steps(rest).0 =~= run_steps(rest).0);
    proof { lemma_next_step(all, writes_view(writes@), rest); }
    match &req.admin_email {
        Some(e) => {
            if !has_at(e.as_str()) {
                return SettingsUpdate { writes, error: Some(String::from_str("Invalid admin email")) };
            }
            push_write(&mut writes, "admin_email", e.as_str());
        },
        None => {},
    }
    proof { rest = rest.drop_first(); lemma_next_step(all, writes_view(writes@), rest); }
    match &req.smtp_from {
        Some(e) => {
            if !has_at(e.as_str()) {
                return SettingsUpdate { writes, error: Some(String::from_str("Invalid smtp_from email")) };
            }
            push_write(&mut writes, "smtp_from", e.as_str());
        },
        None => {},
    }
    proof { rest = rest.drop_first(); lemma_next_step(all, writes_view(writes@), rest); }
    match req.max_upload_mb {
        Some(mb) => {
            if mb < 1 || mb > 10240 {
                return SettingsUpdate { writes, error: Some(String::from_str("max_upload_mb must be 1–10240")) };
            }
            let v = decimal_string(mb);
            push_write(&mut writes, "max_upload_mb", v.as_str());
        },
        None => {},
    }
    proof { rest = rest.drop_first(); lemma_next_step(all, writes_view(writes@), rest); }
    match &req.default_web_server {
        Some(w) => {
            let ws = w.as_str();
            if !(str_eq(ws, "ols") || str_eq(ws, "nginx") || str_eq(ws, "apache") || str_eq(ws, "lse")) {
                return SettingsUpdate {
                    writes,
                    error: Some(String::from_str("default_web_server must be ols, nginx, apache, or lse")),
                };
            }
            push_write(&mut writes, "default_web_server", ws);
        },
        None => {},
    }
    proof { rest = rest.drop_first(); lemma_next_step(all, writes_view(writes@), rest); }
    match req.maintenance_mode {
        Some(b) => push_write(&mut writes, "maintenance_mode", if b { "true" } else { "false" }),
        None => {},
    }
    proof { rest = rest.drop_first(); lemma_next_step(all, writes_view(writes@), rest); }
    match req.registration_open {
        Some(b) => push_write(&mut writes, "registration_open", if b { "true" } else { "false" }),
        None => {},
    }
    proof { rest = rest.drop_first(); lemma_next_step(all, writes_view(writes@), rest); }
    match &req.panel_domain {
        Some(d) => push_write(&mut writes, "panel_domain", d.as_str()),
        None => {},
    }
    proof { rest = rest.drop_first(); lemma_next_step(all, writes_view(writes@), rest); }
    match &req.language {
        Some(l) => {
            let ls = l.as_str();
            if !(str_eq(ls, "en") || str_eq(ls, "ru") || str_eq(ls, "ar") || str_eq(ls, "fr") || str_eq(ls, "es")
                || str_eq(ls, "de") || str_eq(ls, "pt") || str_eq(ls, "zh-CN")) {
                return SettingsUpdate { writes, error: Some(String::from_str("Invalid language")) };
            }
            push_write(&mut writes, "language", ls);
        },
        None => {},
    }
    proof { rest = rest.drop_first(); lemma_next_step(all, writes_view(writes@), rest); }
    match &req.timezone {
        Some(t) => push_write(&mut writes, "timezone", t.as_str()),
        None => {},
    }
    proof { rest = rest.drop_first(); lemma_next_step(all, writes_view(writes@), rest); }
    match &req.date_format {
        Some(d) => push_write(&mut writes, "date_format", d.as_str()),
        None => {},
    }
    proof { rest = rest.drop_first(); lemma_next_step(all, writes_view(writes@), rest); }
    match &req.default_php {
        Some(p) => push_write(&mut writes, "default_php", p.as_str()),
        None => {},
    }
    proof { rest = rest.drop_first(); }
    assert(writes_view(writes@) + Seq::<(Seq<char>, Seq<char>)>::empty() =~= writes_view(writes@));
    SettingsUpdate { writes, error: None }
}

/// Whether text holds an `@`.
fn has_at(s: &str) -> (r: bool)
    ensures
        r == s@.contains('@'),
{
    let v = chars_of(s);
    let mut i: usize = 0;
    while i < v.len()
        invariant
            i <= v@.len(),
            v@ == s@,
            forall|k: int| 0 <= k < i ==> v@[k] != '@',
        decreases v@.len() - i,
    {
        if v[i] == '@' {
            assert(v@[i as int] == '@');
            return true;
        }
        i = i + 1;
    }
    false
}

/// The `key = value` settings of a sysctl file after reading `lines`:
/// blank lines and comments skipped, each `key=value` line (trimmed on both
/// sides of its first `=`) setting its key, later lines winning.
pub open spec fn hardening_map(lines: Seq<Seq<char>>) -> Map<Seq<char>, Seq<char>>
    decreases lines.len(),
{
    if lines.len() == 0 {
        Map::empty()
    } else {
        let prev = hardening_map(lines.drop_last());
        let t = trim(lines.last());
        if t.len() == 0 || has_prefix(t, "#"@) {
            prev
        } else {
            match split_once(t, '=') {
                Some((k, v)) => prev.insert(trim(k), trim(v)),
                None => prev,
            }
        }
    }
}

/// The map a list of distinct-keyed pairs stands for.
pub open spec fn pairs_map(pairs: Seq<(String, String)>) -> Map<Seq<char>, Seq<char>>
    decreases pairs.len(),
{
    if pairs.len() == 0 {
        Map::empty()
    } else {
        pairs_map(pairs.drop_last()).insert(pairs.last().0@, pairs.last().1@)
    }
}

/// No two pairs share a key.
pub open spec fn keys_distinct(pairs: Seq<(String, String)>) -> bool {
    forall|i: int, j: int| 0 <= i < j < pairs.len() ==> #[trigger] pairs[i].0@ != #[trigger] pairs[j].0@
}

proof fn lemma_pairs_map_set(pairs: Seq<(String, String)>, idx: int, v: (String, String))
    requires
        keys_distinct(pairs),
        0 <= idx < pairs.len(),
        v.0@ == pairs[idx].0@,
    ensures
        pairs_map(pairs.update(idx, v)) == pairs_map(pairs).insert(v.0@, v.1@),
        keys_distinct(pairs.update(idx, v)),
    decreases pairs.len(),
{
    let u = pairs.update(idx, v);
    if idx == pairs.len() - 1 {
        assert(u.drop_last() =~= pairs.drop_last());
        assert(pairs_map(pairs).insert(v.0@, v.1@) =~= pairs_map(pairs.drop_last()).insert(v.0@, v.1@));
    } else {
        assert(u.drop_last() =~= pairs.drop_last().update(idx, v));
        lemma_pairs_map_set(pairs.drop_last(), idx, v);
        assert(pairs.last().0@ != v.0@);
        assert(pairs_map(u) =~= pairs_map(pairs).insert(v.0@, v.1@));
    }
    assert forall|i: int, j: int| 0 <= i < j < u.len() implies #[trigger] u[i].0@ != #[trigger] u[j].0@ by {
        if i == idx {
            assert(pairs[j].0@ != pairs[idx].0@);
        } else if j == idx {
            assert(pairs[i].0@ != pairs[idx].0@);
        } else {
            assert(pairs[i].0@ != pairs[j].0@);
        }
    }
}

/// Reads a sysctl hardening file into its settings, one pair per key.
pub fn parse_hardening(content: &str) -> (r: Vec<(String, String)>)
    ensures
        keys_distinct(r@),
        pairs_map(r@) == hardening_map(lines_of(content@)),
{
    let cv = chars_of(content);
    let ls = lines_chars(&cv);
    let ghost lv = lines_of(content@);
    let hash = chars_of("#");
    let mut out: Vec<(String, String)> = Vec::new();
    let mut i: usize = 0;
    while i < ls.len()
        invariant
            ls@.len() == lv.len(),
            lv == lines_of(content@),
            forall|k: int| 0 <= k < ls@.len() ==> #[trigger] ls@[k]@ == lv[k],
            hash@ == "#"@,
            i <= ls@.len(),
            keys_distinct(out@),
            pairs_map(out@) == hardening_map(lv.take(i as int)),
        decreases ls@.len() - i,
    {
        assert(lv.take(i + 1).drop_last() =~= lv.take(i as int));
        assert(lv.take(i + 1).last() == ls@[i as int]@);
        let t = trim_chars(&ls[i]);
        if t.len() > 0 && !starts_with_chars(&t, &hash) {
            match split_once_chars(&t, '=') {
                Some((k, v)) => {
                    let kt = trim_chars(&k);
                    let vt = trim_chars(&v);
                    let pair = (string_from_chars(&kt), string_from_chars(&vt));
                    let mut j: usize = 0;
                    let mut found = false;
                    while j < out.len() && !found
                        invariant
                            j <= out@.len(),
                            kt@ == pair.0@,
                            !found ==> forall|q: int| 0 <= q < j ==> out@[q].0@ != kt@,
                            found ==> j > 0 && out@[j - 1].0@ == kt@,
                        decreases out@.len() - j,
                    {
                        if vec_eq(&chars_of(out[j].0.as_str()), &kt) {
                            found = true;
                        }
                        j = j + 1;
                    }
                    if found {
                        let ghost before = out@;
                        proof {
                            lemma_pairs_map_set(before, j - 1, pair);
                        }
                        out.set(j - 1, pair);
                    } else {
                        let ghost before = out@;
                        out.push(pair);
                        assert(out@.drop_last() =~= before);
                        assert forall|a: int, b: int| 0 <= a < b < out@.len() implies #[trigger] out@[a].0@ != #[trigger] out@[b].0@ by {
                            if b == out@.len() - 1 {
                                assert(before[a].0@ != kt@);
                            } else {
                                assert(before[a].0@ != before[b].0@);
                            }
                        }
                    }
                },
                None => {},
            }
        }
        i = i + 1;
    }
    assert(lv.take(lv.len() as int) =~= lv);
    out
}

/// The services the panel manages: unit name and label.
pub open spec fn managed_services() -> Seq<(Seq<char>, Seq<char>)> {
    seq![
        ("nginx"@, "Nginx"@),
        ("php8.3-fpm"@, "PHP-FPM"@),
        ("postgresql"@, "PostgreSQL"@),
        ("mariadb"@, "MariaDB"@),
        ("valkey"@, "Valkey (Cache)"@),
        ("cloudflared"@, "Cloudflare Tunnel"@),
        ("fail2ban"@, "Fail2ban"@),
        ("jotti-panel"@, "Jotti Panel"@),
        ("orbit-ui"@, "Orbit UI"@),
    ]
}

/// The managed services, unit name and label.
pub fn managed_services_list() -> (r: Vec<(&'static str, &'static str)>)
    ensures
        r@.len() == 9,
        forall|i: int| 0 <= i < 9 ==> #[trigger] r@[i].0@ == managed_services()[i].0 && r@[i].1@ == managed_services()[i].1,
{
    vec![
        ("nginx", "Nginx"),
        ("php8.3-fpm", "PHP-FPM"),
        ("postgresql", "PostgreSQL"),
        ("mariadb", "MariaDB"),
        ("valkey", "Valkey (Cache)"),
        ("cloudflared", "Cloudflare Tunnel"),
        ("fail2ban", "Fail2ban"),
        ("jotti-panel", "Jotti Panel"),
        ("orbit-ui", "Orbit UI"),
    ]
}

/// Only managed services may be restarted.
pub fn check_restart_service(name: &str) -> (r: Result<(), String>)
    ensures
        r is Ok <==> exists|i: int| 0 <= i < 9 && #[trigger] managed_services()[i].0 == name@,
        r matches Err(m) ==> m@ == "Service '"@ + name@ + "' is not in the managed list"@,
{
    let list = managed_services_list();
    let mut i: usize = 0;
    while i < list.len()
        invariant
            i <= 9,
            list@.len() == 9,
            forall|q: int| 0 <= q < 9 ==> #[trigger] list@[q].0@ == managed_services()[q].0,
            forall|q: int| 0 <= q < i ==> managed_services()[q].0 != name@,
        decreases 9 - i,
    {
        if str_eq(list[i].0, name) {
            return Ok(());
        }
        i = i + 1;
    }
    let mut m = String::from_str("Service '");
    m.append(name);
    m.append("' is not in the managed list");
    Err(m)
}

/// The panel editions.
#[derive(Debug, Clone, Copy, PartialEq, Eq)]
pub enum OrbitEnv {
    Community,
    Pro,
    Enterprise,
}

/// The licence of an edition: its plan name and server limit.
pub fn license_plan(env: OrbitEnv) -> (r: (&'static str, i32))
    ensures
        match env {
            OrbitEnv::Community => r.0@ == "community"@ && r.1 == 3,
            OrbitEnv::Pro => r.0@ == "pro"@ && r.1 == 999,
            OrbitEnv::Enterprise => r.0@ == "enterprise"@ && r.1 == 9999,
        },
{
    match env {
        OrbitEnv::Community => ("community", 3),
        OrbitEnv::Pro => ("pro", 999),
        OrbitEnv::Enterprise => ("enterprise", 9999),
    }
}

/// The answer of the SMTP test while no SMTP server is configured.
pub fn smtp_test_result() -> (r: SmtpTestResponse)
    ensures
        !r.success,
        r.message@ == "SMTP test not yet configured — set SMTP_HOST in environment"@,
{
    SmtpTestResponse {
        success: false,
        message: String::from_str("SMTP test not yet configured — set SMTP_HOST in environment"),
    }
}

} // verus!
