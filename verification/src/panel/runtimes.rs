//! Site language runtimes.

use vstd::prelude::*;
use crate::agent::runtime::{all_digits_or_dots, digits_and_dots};
use crate::mail::postfix::{split_once, split_once_chars};
use crate::patterns::{regex_is_match, regex_matches};
use crate::text::{
    chars_of, debug_quoted, debug_str, lines_chars, lines_of, lower_case, str_eq, string_from_chars, to_lowercase, trim,
    trim_chars, vec_eq,
};

verus! {

#[derive(Debug)]
pub struct SetRuntimeRequest {
    pub runtime:     String,
    pub version:     Option<String>,
    /// Python entry point, e.g. "main:app", "wsgi:application".
    /// Ignored for nodejs/php.
    pub entry_point: Option<String>,
}

#[derive(Debug)]
pub struct NodeProcessAction {
    pub action: String,
}


/// The runtimes a site can run.
pub open spec fn valid_runtime(r: Seq<char>) -> bool {
    r == "php"@ || r == "nodejs"@ || r == "python"@
}

/// The version used when a request names none.
pub open spec fn default_version(runtime: Seq<char>) -> Seq<char> {
    if runtime == "nodejs"@ {
        "20"@
    } else if runtime == "python"@ {
        "3.12"@
    } else {
        "latest"@
    }
}

/// The pattern of a Python entry point, `module:callable`.
pub const ENTRY_POINT_PATTERN: &'static str = "^[a-zA-Z_][a-zA-Z0-9_.]*:[a-zA-Z_][a-zA-Z0-9_]*$";

/// A runtime switch after its checks.
pub struct RuntimePlan {
    pub runtime: String,
    pub version: String,
    pub entry_point: String,
}

/// The version a switch uses: the requested one when non-empty, else the
/// runtime's default.
pub open spec fn chosen_version(runtime: Seq<char>, version: Option<Seq<char>>) -> Seq<char> {
    match version {
        Some(v) => if v.len() > 0 { v } else { default_version(runtime) },
        None => default_version(runtime),
    }
}

/// The entry point a switch uses: the requested one when non-empty, else
/// `main:app`.
pub open spec fn chosen_entry_point(entry_point: Option<Seq<char>>) -> Seq<char> {
    match entry_point {
        Some(e) => if e.len() > 0 { e } else { "main:app"@ },
        None => "main:app"@,
    }
}

/// The outcome of a runtime switch: runtime, version and entry point, or
/// the refusal, checked in this order.
pub open spec fn runtime_plan_of(runtime: Seq<char>, version: Option<Seq<char>>, entry_point: Option<Seq<char>>) -> Result<
    (Seq<char>, Seq<char>, Seq<char>),
    Seq<char>,
> {
    let v = chosen_version(runtime, version);
    let e = chosen_entry_point(entry_point);
    if !valid_runtime(runtime) {
        Err("runtime must be one of: php, nodejs, python"@)
    } else if runtime != "php"@ && !(digits_and_dots(v) && vstd::utf8::encode_utf8(v).len() <= 8) {
        Err("version must be digits and dots only (e.g. \"3.12\", \"20\"); got "@ + debug_quoted(v))
    } else if runtime == "python"@ && !regex_is_match(ENTRY_POINT_PATTERN@, e) {
        Err("entry_point must be 'module:callable' (e.g. 'main:app'); got: "@ + debug_quoted(e))
    } else {
        Ok((runtime, v, e))
    }
}

/// The view of an optional owned string.
pub open spec fn opt_text(o: Option<String>) -> Option<Seq<char>> {
    match o {
        Some(s) => Some(s@),
        None => None,
    }
}

/// Checks a runtime switch whose runtime name is already lower-cased: the
/// runtime must be php, nodejs or python; the version (the requested one,
/// or the runtime's default) must be digits and dots of at most 8 bytes
/// except for PHP; a Python entry point (default `main:app`) must read
/// `module:callable`.
pub fn runtime_plan_for(runtime: String, version: Option<String>, entry_point: Option<String>) -> (r: Result<RuntimePlan, String>)
    ensures
        match runtime_plan_of(runtime@, opt_text(version), opt_text(entry_point)) {
            Ok(p) => r matches Ok(q) && q.runtime@ == p.0 && q.version@ == p.1 && q.entry_point@ == p.2,
            Err(m) => r matches Err(e) && e@ == m,
        },
{
    let rt = runtime.as_str();
    if !(str_eq(rt, "php") || str_eq(rt, "nodejs") || str_eq(rt, "python")) {
        return Err(String::from_str("runtime must be one of: php, nodejs, python"));
    }
    let ver: String = match version {
        Some(v) => if v.as_str().is_empty() {
            if str_eq(rt, "nodejs") { String::from_str("20") } else if str_eq(rt, "python") { String::from_str("3.12") } else { String::from_str("latest") }
        } else {
            v
        },
        None => if str_eq(rt, "nodejs") { String::from_str("20") } else if str_eq(rt, "python") { String::from_str("3.12") } else { String::from_str("latest") },
    };
    if !str_eq(rt, "php") {
        let vc = chars_of(ver.as_str());
        if !all_digits_or_dots(&vc) || ver.as_str().as_bytes().len() > 8 {
            let mut m = String::from_str("version must be digits and dots only (e.g. \"3.12\", \"20\"); got ");
            let d = debug_str(ver.as_str());
            m.append(d.as_str());
            return Err(m);
        }
    }
    let ep: String = match entry_point {
        Some(e) => if e.as_str().is_empty() { String::from_str("main:app") } else { e },
        None => String::from_str("main:app"),
    };
    if str_eq(rt, "python") {
        if !regex_matches(ENTRY_POINT_PATTERN, ep.as_str()) {
            let mut m = String::from_str("entry_point must be 'module:callable' (e.g. 'main:app'); got: ");
            let d = debug_str(ep.as_str());
            m.append(d.as_str());
            return Err(m);
        }
    }
    Ok(RuntimePlan { runtime, version: ver, entry_point: ep })
}

/// Checks a runtime switch request: the runtime name is lower-cased first.
pub fn runtime_plan(req: &SetRuntimeRequest) -> (r: Result<RuntimePlan, String>)
    ensures
        match runtime_plan_of(lower_case(req.runtime@), opt_text(req.version), opt_text(req.entry_point)) {
            Ok(p) => r matches Ok(q) && q.runtime@ == p.0 && q.version@ == p.1 && q.entry_point@ == p.2,
            Err(m) => r matches Err(e) && e@ == m,
        },
{
    let rt = to_lowercase(req.runtime.as_str());
    runtime_plan_for(rt, req.version.clone(), req.entry_point.clone())
}

/// What switching a site's runtime does with the runtime it ran before.
#[derive(Debug, Clone, Copy, PartialEq, Eq)]
pub enum Teardown {
    /// Nothing to remove: the site ran PHP.
    Nothing,
    /// Remove the previous runtime entirely: its service and its vhost.
    Deprovision,
    /// Same runtime again: keep its service running until the new unit
    /// replaces it, remove only the vhost, which is written anew.
    RemoveVhost,
}

/// The teardown for a switch from `prev` to `next`.
pub open spec fn teardown_of(prev: Seq<char>, next: Seq<char>) -> Teardown {
    if prev == "php"@ {
        Teardown::Nothing
    } else if prev == next {
        Teardown::RemoveVhost
    } else {
        Teardown::Deprovision
    }
}

/// What becomes of the runtime a site ran (`php` when none is recorded)
/// when it switches to `next`.
pub fn previous_runtime_teardown(prev: &Option<String>, next: &str) -> (r: Teardown)
    ensures
        r == teardown_of(
            match prev {
                Some(p) => p@,
                None => "php"@,
            },
            next@,
        ),
{
    let p: &str = match prev {
        Some(p) => p.as_str(),
        None => "php",
    };
    if str_eq(p, "php") {
        Teardown::Nothing
    } else if str_eq(p, next) {
        Teardown::RemoveVhost
    } else {
        Teardown::Deprovision
    }
}

/// The systemd unit of a site's Node.js process.
pub fn nodejs_unit(domain: &str) -> (r: String)
    ensures
        r@ == "jotticp-nodejs-"@ + domain@,
{
    let mut r = String::from_str("jotticp-nodejs-");
    r.append(domain);
    r
}

/// The `systemctl` action for a Node.js process action.
pub fn node_action(action: &str) -> (r: Result<&'static str, String>)
    ensures
        action@ == "start"@ ==> (r matches Ok(a) && a@ == "start"@),
        action@ == "stop"@ ==> (r matches Ok(a) && a@ == "stop"@),
        action@ == "restart"@ ==> (r matches Ok(a) && a@ == "restart"@),
        !(action@ == "start"@ || action@ == "stop"@ || action@ == "restart"@) ==> (r matches Err(m) && m@
            == "action must be: start, stop, restart"@),
{
    if str_eq(action, "start") {
        Ok("start")
    } else if str_eq(action, "stop") {
        Ok("stop")
    } else if str_eq(action, "restart") {
        Ok("restart")
    } else {
        Err(String::from_str("action must be: start, stop, restart"))
    }
}

/// The status shown for a Node.js process from its systemd states.
pub open spec fn node_status_of(active: Seq<char>, sub: Seq<char>) -> Seq<char> {
    if active == "active"@ {
        if sub == "running"@ {
            "online"@
        } else {
            sub
        }
    } else if active == "failed"@ {
        "errored"@
    } else if active == "inactive"@ {
        "stopped"@
    } else {
        active
    }
}

/// Maps systemd's active and sub state to the status shown.
pub fn node_status(active: &str, sub: &str) -> (r: String)
    ensures
        r@ == node_status_of(active@, sub@),
{
    if str_eq(active, "active") {
        if str_eq(sub, "running") { String::from_str("online") } else { String::from_str(sub) }
    } else if str_eq(active, "failed") {
        String::from_str("errored")
    } else if str_eq(active, "inactive") {
        String::from_str("stopped")
    } else {
        String::from_str(active)
    }
}

/// The value of property `key` in `systemctl show` output: the value of the
/// last `key=value` line for it, both sides trimmed.
pub open spec fn show_property(lines: Seq<Seq<char>>, key: Seq<char>) -> Option<Seq<char>>
    decreases lines.len(),
{
    if lines.len() == 0 {
        None
    } else {
        match split_once(lines.last(), '=') {
            Some((k, v)) => if trim(k) == key {
                Some(trim(v))
            } else {
                show_property(lines.drop_last(), key)
            },
            None => show_property(lines.drop_last(), key),
        }
    }
}

/// Reads one property from `systemctl show` output.
pub fn systemctl_property(output: &str, key: &str) -> (r: Option<String>)
    ensures
        match show_property(lines_of(output@), key@) {
            Some(v) => r matches Some(s) && s@ == v,
            None => r is None,
        },
{
    let ov = chars_of(output);
    let ls = lines_chars(&ov);
    let ghost lv = lines_of(output@);
    let kc = chars_of(key);
    let mut i: usize = ls.len();
    assert(lv.take(lv.len() as int) =~= lv);
    while i > 0
        invariant
            ls@.len() == lv.len(),
            lv == lines_of(output@),
            forall|k: int| 0 <= k < ls@.len() ==> #[trigger] ls@[k]@ == lv[k],
            kc@ == key@,
            i <= ls@.len(),
            show_property(lv, key@) == show_property(lv.take(i as int), key@),
        decreases i,
    {
        let line = &ls[i - 1];
        assert(lv.take(i as int).last() == ls@[i - 1]@);
        assert(lv.take(i as int).drop_last() =~= lv.take(i - 1));
        match split_once_chars(line, '=') {
            Some((k, v)) => {
                let kt = trim_chars(&k);
                if vec_eq(&kt, &kc) {
                    let vt = trim_chars(&v);
                    return Some(string_from_chars(&vt));
                }
            },
            None => {},
        }
        i = i - 1;
    }
    assert(lv.take(0) =~= Seq::<Seq<char>>::empty());
    None
}

} // verus!
