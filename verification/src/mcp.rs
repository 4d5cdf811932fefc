//! The MCP server: request authentication, JSON-RPC method routing and the
//! mapping of tool calls onto panel API calls.

use vstd::prelude::*;
use crate::text::{chars_of, has_prefix, str_eq, starts_with_chars, string_from_chars};
use serde_json::Value;

verus! {

/// Compares two byte strings in time that depends only on their lengths:
/// every byte pair is XOR-ed into an accumulator, with no early exit.
pub fn constant_time_eq(a: &[u8], b: &[u8]) -> (r: bool)
    ensures
        r == (a@ == b@),
{
    if a.len() != b.len() {
        return false;
    }
    let mut acc: u8 = 0;
    let mut i: usize = 0;
    while i < a.len()
        invariant
            a@.len() == b@.len(),
            i <= a@.len(),
            (acc == 0) == (forall|k: int| 0 <= k < i ==> a@[k] == b@[k]),
        decreases a@.len() - i,
    {
        let x = a[i];
        let y = b[i];
        let next = acc | (x ^ y);
        assert(next == 0 <==> (acc == 0 && x == y)) by (bit_vector)
            requires
                next == acc | (x ^ y),
        ;
        acc = next;
        i = i + 1;
    }
    assert((acc == 0) ==> a@ =~= b@);
    acc == 0
}

/// Why a request to the HTTP transport was refused.
#[derive(Debug, Clone, Copy, PartialEq, Eq)]
pub enum AuthError {
    /// No bearer token was sent.
    Missing,
    /// The bearer token is not the configured key.
    Invalid,
}

/// The token of an `Authorization` header: what follows `Bearer `, or
/// nothing.
pub open spec fn bearer_token(header: Option<Seq<char>>) -> Seq<char> {
    match header {
        Some(h) => if has_prefix(h, "Bearer "@) {
            h.skip(7)
        } else {
            Seq::empty()
        },
        None => Seq::empty(),
    }
}

/// The view of an optional string slice.
pub open spec fn opt_str(o: Option<&str>) -> Option<Seq<char>> {
    match o {
        Some(s) => Some(s@),
        None => None,
    }
}

/// Checks the `Authorization` header (as text, when it is readable) of a
/// request against the configured API key: a missing or empty bearer token
/// is `Missing`, a different one `Invalid`.
pub fn require_auth(header: Option<&str>, api_key: &str) -> (r: Result<(), AuthError>)
    ensures
        bearer_token(opt_str(header)).len() == 0 ==> r == Err::<(), AuthError>(AuthError::Missing),
        bearer_token(opt_str(header)).len() > 0 ==> (r is Ok <==> bearer_token(opt_str(header))
            == api_key@),
        bearer_token(opt_str(header)).len() > 0 && bearer_token(opt_str(header)) != api_key@ ==> r
            == Err::<(), AuthError>(AuthError::Invalid),
{
    let provided: String = match header {
        Some(h) => {
            let hc = chars_of(h);
            let pre = chars_of("Bearer ");
            proof {
                reveal_strlit("Bearer ");
            }
            if starts_with_chars(&hc, &pre) {
                let t = crate::text::slice_chars(&hc, 7, hc.len());
                assert(t@ =~= h@.skip(7));
                string_from_chars(&t)
            } else {
                String::new()
            }
        },
        None => String::new(),
    };
    if provided.as_str().is_empty() {
        return Err(AuthError::Missing);
    }
    let pb = provided.as_str().as_bytes();
    let kb = api_key.as_bytes();
    let same = constant_time_eq(pb, kb);
    proof {
        vstd::utf8::encode_utf8_decode_utf8(provided@);
        vstd::utf8::encode_utf8_decode_utf8(api_key@);
    }
    if !same {
        return Err(AuthError::Invalid);
    }
    Ok(())
}

/// What the server does with a JSON-RPC message.
#[derive(Debug, Clone, PartialEq, Eq)]
pub enum RpcAction {
    /// Send nothing back (a notification).
    Ignore,
    /// Answer `initialize` with the server's capabilities.
    Initialize,
    /// Answer `ping` with an empty result.
    Ping,
    /// Answer `tools/list` with the tool definitions.
    ListTools,
    /// Run the tool named in the parameters.
    CallTool,
    /// Answer with error -32601 and this message.
    MethodNotFound(String),
}

/// The action for a message with `method` (empty when absent) that does or
/// does not carry an id: messages without an id are never answered.
pub open spec fn rpc_action_of(method: Seq<char>, has_id: bool) -> RpcActionView {
    if method == "notifications/initialized"@ || !has_id {
        RpcActionView::Ignore
    } else if method == "initialize"@ {
        RpcActionView::Initialize
    } else if method == "ping"@ {
        RpcActionView::Ping
    } else if method == "tools/list"@ {
        RpcActionView::ListTools
    } else if method == "tools/call"@ {
        RpcActionView::CallTool
    } else {
        RpcActionView::MethodNotFound("Method not found: "@ + method)
    }
}

/// An action as plain values.
pub enum RpcActionView {
    Ignore,
    Initialize,
    Ping,
    ListTools,
    CallTool,
    MethodNotFound(Seq<char>),
}

/// The plain values of an action.
pub open spec fn rpc_action_view(a: RpcAction) -> RpcActionView {
    match a {
        RpcAction::Ignore => RpcActionView::Ignore,
        RpcAction::Initialize => RpcActionView::Initialize,
        RpcAction::Ping => RpcActionView::Ping,
        RpcAction::ListTools => RpcActionView::ListTools,
        RpcAction::CallTool => RpcActionView::CallTool,
        RpcAction::MethodNotFound(m) => RpcActionView::MethodNotFound(m@),
    }
}

/// Routes a parsed JSON-RPC message by its method and whether it has an id.
pub fn route_message(method: &str, has_id: bool) -> (r: RpcAction)
    ensures
        rpc_action_view(r) == rpc_action_of(method@, has_id),
{
    if str_eq(method, "notifications/initialized") || !has_id {
        RpcAction::Ignore
    } else if str_eq(method, "initialize") {
        RpcAction::Initialize
    } else if str_eq(method, "ping") {
        RpcAction::Ping
    } else if str_eq(method, "tools/list") {
        RpcAction::ListTools
    } else if str_eq(method, "tools/call") {
        RpcAction::CallTool
    } else {
        let mut m = String::from_str("Method not found: ");
        m.append(method);
        RpcAction::MethodNotFound(m)
    }
}

/// A notification (a message without an id) is never answered.
pub proof fn lemma_notifications_unanswered(method: Seq<char>)
    ensures
        rpc_action_of(method, false) is Ignore,
{
}

/// A value among a tool call's arguments, as far as tools read it.
#[derive(Debug, Clone)]
pub enum ArgValue {
    /// A JSON string.
    Str(String),
    /// A JSON boolean.
    Bool(bool),
    /// A JSON number that fits in a `u64`.
    UInt(u64),
    /// Any other JSON value.
    Other,
}

/// The arguments of a tool call: the members of the JSON object, in order.
#[derive(Debug)]
pub struct ToolArgs {
    pub fields: Vec<(String, ArgValue)>,
}

/// The index of the first member named `key`, or the number of members.
pub open spec fn field_index(fields: Seq<(String, ArgValue)>, key: Seq<char>, from: int) -> int
    decreases fields.len() - from,
{
    if from >= fields.len() {
        fields.len() as int
    } else if fields[from].0@ == key {
        from
    } else {
        field_index(fields, key, from + 1)
    }
}

/// The member named `key`, when there is one.
pub open spec fn arg_of(args: ToolArgs, key: Seq<char>) -> Option<ArgValue> {
    let i = field_index(args.fields@, key, 0);
    if i < args.fields@.len() {
        Some(args.fields@[i].1)
    } else {
        None
    }
}

/// The member named `key` as a string (`get(key).and_then(as_str)`).
pub open spec fn str_arg(args: ToolArgs, key: Seq<char>) -> Option<Seq<char>> {
    match arg_of(args, key) {
        Some(ArgValue::Str(s)) => Some(s@),
        _ => None,
    }
}

/// Looks up the member named `key`.
pub fn get_arg<'a>(args: &'a ToolArgs, key: &str) -> (r: Option<&'a ArgValue>)
    ensures
        match arg_of(*args, key@) {
            Some(v) => r == Some(&v),
            None => r is None,
        },
{
    let mut i: usize = 0;
    while i < args.fields.len()
        invariant
            i <= args.fields@.len(),
            field_index(args.fields@, key@, 0) == field_index(args.fields@, key@, i as int),
        decreases args.fields@.len() - i,
    {
        if str_eq(args.fields[i].0.as_str(), key) {
            return Some(&args.fields[i].1);
        }
        i = i + 1;
    }
    None
}

/// Looks up the member named `key` as a string.
pub fn get_str_arg(args: &ToolArgs, key: &str) -> (r: Option<String>)
    ensures
        match str_arg(*args, key@) {
            Some(s) => r matches Some(t) && t@ == s,
            None => r is None,
        },
{
    match get_arg(args, key) {
        Some(ArgValue::Str(s)) => Some(s.clone()),
        _ => None,
    }
}

/// The panel API call a tool invocation makes.
#[derive(Debug)]
pub enum ToolCall {
    /// `list_sites`, with its optional `search`.
    ListSites(Option<String>),
    /// `list_email_accounts`, with its optional `domain`.
    ListEmailAccounts(Option<String>),
    /// `list_dns_zones`, with its optional `search`.
    ListDnsZones(Option<String>),
    /// `list_databases`, with its optional `site_id`.
    ListDatabases(Option<String>),
    /// `get_server_stats`, with its optional `server_id`.
    GetServerStats(Option<String>),
    /// `list_installed_apps`, with its optional `site_id`.
    ListInstalledApps(Option<String>),
    /// `list_cron_jobs`, with its optional `site_id`.
    ListCronJobs(Option<String>),
    /// `delete_site`, with its `site_id`.
    DeleteSite(String),
    /// `get_site_stats`, with its `site_id`.
    GetSiteStats(String),
    /// `delete_email_account`, with its `account_id`.
    DeleteEmailAccount(String),
    /// `create_dns_record`, with its `zone_id`.
    CreateDnsRecord(String),
    /// `renew_ssl`, with its `cert_id`.
    RenewSsl(String),
    /// `create_site`, with the arguments as given.
    CreateSite,
    /// `create_email_account`, with the arguments as given.
    CreateEmailAccount,
    /// `create_database`, with the arguments as given.
    CreateDatabase,
    /// `install_app`, with the arguments as given.
    InstallApp,
    /// `create_cron_job`, with the arguments as given.
    CreateCronJob,
    /// `list_ssl_certs`, with `expiring_soon` (false when absent).
    ListSslCerts(bool),
    /// `trigger_backup`, with the site id and the backup type (`full` when absent).
    TriggerBackup(String, String),
    /// `get_system_logs`, with the limit (truncated to 32 bits), action and user id.
    GetSystemLogs(Option<u32>, Option<String>, Option<String>),
}

/// A tool call as plain values.
pub enum ToolCallView {
    ListSites(Option<Seq<char>>),
    ListEmailAccounts(Option<Seq<char>>),
    ListDnsZones(Option<Seq<char>>),
    ListDatabases(Option<Seq<char>>),
    GetServerStats(Option<Seq<char>>),
    ListInstalledApps(Option<Seq<char>>),
    ListCronJobs(Option<Seq<char>>),
    DeleteSite(Seq<char>),
    GetSiteStats(Seq<char>),
    DeleteEmailAccount(Seq<char>),
    CreateDnsRecord(Seq<char>),
    RenewSsl(Seq<char>),
    CreateSite,
    CreateEmailAccount,
    CreateDatabase,
    InstallApp,
    CreateCronJob,
    ListSslCerts(bool),
    TriggerBackup(Seq<char>, Seq<char>),
    GetSystemLogs(Option<u32>, Option<Seq<char>>, Option<Seq<char>>),
}

/// The view of an optional owned string.
pub open spec fn opt_string(o: Option<String>) -> Option<Seq<char>> {
    match o {
        Some(s) => Some(s@),
        None => None,
    }
}

/// The plain values of a tool call.
pub open spec fn tool_call_view(c: ToolCall) -> ToolCallView {
    match c {
        ToolCall::ListSites(a) => ToolCallView::ListSites(opt_string(a)),
        ToolCall::ListEmailAccounts(a) => ToolCallView::ListEmailAccounts(opt_string(a)),
        ToolCall::ListDnsZones(a) => ToolCallView::ListDnsZones(opt_string(a)),
        ToolCall::ListDatabases(a) => ToolCallView::ListDatabases(opt_string(a)),
        ToolCall::GetServerStats(a) => ToolCallView::GetServerStats(opt_string(a)),
        ToolCall::ListInstalledApps(a) => ToolCallView::ListInstalledApps(opt_string(a)),
        ToolCall::ListCronJobs(a) => ToolCallView::ListCronJobs(opt_string(a)),
        ToolCall::DeleteSite(a) => ToolCallView::DeleteSite(a@),
        ToolCall::GetSiteStats(a) => ToolCallView::GetSiteStats(a@),
        ToolCall::DeleteEmailAccount(a) => ToolCallView::DeleteEmailAccount(a@),
        ToolCall::CreateDnsRecord(a) => ToolCallView::CreateDnsRecord(a@),
        ToolCall::RenewSsl(a) => ToolCallView::RenewSsl(a@),
        ToolCall::CreateSite => ToolCallView::CreateSite,
        ToolCall::CreateEmailAccount => ToolCallView::CreateEmailAccount,
        ToolCall::CreateDatabase => ToolCallView::CreateDatabase,
        ToolCall::InstallApp => ToolCallView::InstallApp,
        ToolCall::CreateCronJob => ToolCallView::CreateCronJob,
        ToolCall::ListSslCerts(b) => ToolCallView::ListSslCerts(b),
        ToolCall::TriggerBackup(a, b) => ToolCallView::TriggerBackup(a@, b@),
        ToolCall::GetSystemLogs(l, a, u) => ToolCallView::GetSystemLogs(l, opt_string(a), opt_string(u)),
    }
}

/// The call a tool invocation makes, or the error it is refused with.
pub open spec fn tool_call_of(name: Seq<char>, args: ToolArgs) -> Result<ToolCallView, Seq<char>> {
    if name == "list_sites"@ {
        Ok(ToolCallView::ListSites(str_arg(args, "search"@)))
    } else if name == "list_email_accounts"@ {
        Ok(ToolCallView::ListEmailAccounts(str_arg(args, "domain"@)))
    } else if name == "list_dns_zones"@ {
        Ok(ToolCallView::ListDnsZones(str_arg(args, "search"@)))
    } else if name == "list_databases"@ {
        Ok(ToolCallView::ListDatabases(str_arg(args, "site_id"@)))
    } else if name == "get_server_stats"@ {
        Ok(ToolCallView::GetServerStats(str_arg(args, "server_id"@)))
    } else if name == "list_installed_apps"@ {
        Ok(ToolCallView::ListInstalledApps(str_arg(args, "site_id"@)))
    } else if name == "list_cron_jobs"@ {
        Ok(ToolCallView::ListCronJobs(str_arg(args, "site_id"@)))
    } else if name == "delete_site"@ {
        match str_arg(args, "site_id"@) { Some(a) => Ok(ToolCallView::DeleteSite(a)), None => Err("site_id is required"@) }
    } else if name == "get_site_stats"@ {
        match str_arg(args, "site_id"@) { Some(a) => Ok(ToolCallView::GetSiteStats(a)), None => Err("site_id is required"@) }
    } else if name == "delete_email_account"@ {
        match str_arg(args, "account_id"@) { Some(a) => Ok(ToolCallView::DeleteEmailAccount(a)), None => Err("account_id is required"@) }
    } else if name == "create_dns_record"@ {
        match str_arg(args, "zone_id"@) { Some(a) => Ok(ToolCallView::CreateDnsRecord(a)), None => Err("zone_id is required"@) }
    } else if name == "renew_ssl"@ {
        match str_arg(args, "cert_id"@) { Some(a) => Ok(ToolCallView::RenewSsl(a)), None => Err("cert_id is required"@) }
    } else if name == "create_site"@ {
        Ok(ToolCallView::CreateSite)
    } else if name == "create_email_account"@ {
        Ok(ToolCallView::CreateEmailAccount)
    } else if name == "create_database"@ {
        Ok(ToolCallView::CreateDatabase)
    } else if name == "install_app"@ {
        Ok(ToolCallView::InstallApp)
    } else if name == "create_cron_job"@ {
        Ok(ToolCallView::CreateCronJob)
    } else if name == "list_ssl_certs"@ {
        Ok(ToolCallView::ListSslCerts(match arg_of(args, "expiring_soon"@) { Some(ArgValue::Bool(b)) => b, _ => false }))
    } else if name == "trigger_backup"@ {
        match str_arg(args, "site_id"@) { Some(a) => Ok(ToolCallView::TriggerBackup(a, match str_arg(args, "type"@) { Some(t) => t, None => "full"@ })), None => Err("site_id is required"@) }
    } else if name == "get_system_logs"@ {
        Ok(ToolCallView::GetSystemLogs(match arg_of(args, "limit"@) { Some(ArgValue::UInt(n)) => Some(n as u32), _ => None }, str_arg(args, "action"@), str_arg(args, "user_id"@)))
    } else {
        Err("Unknown tool: "@ + name)
    }
}

/// The first member named `key` is found: at the first index holding it.
proof fn lemma_field_index_first(fields: Seq<(String, ArgValue)>, key: Seq<char>, from: int, i: int)
    requires
        0 <= from <= i < fields.len(),
        fields[i].0@ == key,
        forall|j: int| from <= j < i ==> (#[trigger] fields[j]).0@ != key,
    ensures
        field_index(fields, key, from) == i,
    decreases i - from,
{
    if from < i {
        lemma_field_index_first(fields, key, from + 1, i);
    }
}

/// A key that no member has is not found.
proof fn lemma_field_index_absent(fields: Seq<(String, ArgValue)>, key: Seq<char>, from: int)
    requires
        0 <= from,
        forall|j: int| from <= j < fields.len() ==> (#[trigger] fields[j]).0@ != key,
    ensures
        field_index(fields, key, from) == fields.len(),
    decreases fields.len() - from,
{
    if from < fields.len() {
        lemma_field_index_absent(fields, key, from + 1);
    }
}

/// `list_databases` filters by the string argument named `site_id` and by
/// nothing else: the call carries the value of the first member named
/// `site_id` when that value is a string, and no filter when there is no
/// such member or its value is not a string, whatever the other members are.
pub proof fn lemma_list_databases_filter(args: ToolArgs)
    ensures
        tool_call_of("list_databases"@, args) matches Ok(ToolCallView::ListDatabases(f)) && (forall|i: int|
            #![trigger args.fields@[i]]
            0 <= i < args.fields@.len() && args.fields@[i].0@ == "site_id"@ && (forall|j: int|
                0 <= j < i ==> (#[trigger] args.fields@[j]).0@ != "site_id"@) ==> f == match args.fields@[i].1 {
                ArgValue::Str(s) => Some(s@),
                _ => None::<Seq<char>>,
            }) && ((forall|i: int| 0 <= i < args.fields@.len() ==> (#[trigger] args.fields@[i]).0@ != "site_id"@)
            ==> f is None),
{
    reveal_strlit("list_databases");
    reveal_strlit("list_sites");
    reveal_strlit("list_email_accounts");
    reveal_strlit("list_dns_zones");
    assert("list_databases"@[6] != "list_dns_zones"@[6]);
    let fs = args.fields@;
    assert forall|i: int|
        #![trigger fs[i]]
        0 <= i < fs.len() && fs[i].0@ == "site_id"@ && (forall|j: int| 0 <= j < i ==> (#[trigger] fs[j]).0@ != "site_id"@)
        implies str_arg(args, "site_id"@) == match fs[i].1 {
        ArgValue::Str(s) => Some(s@),
        _ => None::<Seq<char>>,
    } by {
        lemma_field_index_first(fs, "site_id"@, 0, i);
    }
    if forall|i: int| 0 <= i < fs.len() ==> (#[trigger] fs[i]).0@ != "site_id"@ {
        lemma_field_index_absent(fs, "site_id"@, 0);
    }
}

/// A string argument is the value of the first member with its name, when
/// that value is a string; there is none when no member has the name or
/// the first one's value is not a string.
pub proof fn lemma_str_arg_first(args: ToolArgs, key: Seq<char>)
    ensures
        forall|i: int|
            #![trigger args.fields@[i]]
            0 <= i < args.fields@.len() && args.fields@[i].0@ == key && (forall|j: int|
                0 <= j < i ==> (#[trigger] args.fields@[j]).0@ != key) ==> str_arg(args, key) == match args.fields@[i].1 {
                ArgValue::Str(s) => Some(s@),
                _ => None::<Seq<char>>,
            },
        (forall|i: int| 0 <= i < args.fields@.len() ==> (#[trigger] args.fields@[i]).0@ != key) ==> str_arg(args, key)
            is None,
{
    let fs = args.fields@;
    assert forall|i: int|
        #![trigger fs[i]]
        0 <= i < fs.len() && fs[i].0@ == key && (forall|j: int| 0 <= j < i ==> (#[trigger] fs[j]).0@ != key)
        implies str_arg(args, key) == match fs[i].1 {
        ArgValue::Str(s) => Some(s@),
        _ => None::<Seq<char>>,
    } by {
        lemma_field_index_first(fs, key, 0, i);
    }
    if forall|i: int| 0 <= i < fs.len() ==> (#[trigger] fs[i]).0@ != key {
        lemma_field_index_absent(fs, key, 0);
    }
}

/// Which argument each tool reads: the listing tools filter by their
/// optional string argument (`search`, `domain`, `site_id` or
/// `server_id`); the tools that act on one thing need its id and are
/// refused without it; a backup is `full` unless a `type` is given; SSL
/// certificates are listed all unless `expiring_soon` is `true`.
pub proof fn lemma_tool_arguments(args: ToolArgs)
    ensures
        tool_call_of("list_sites"@, args) == Ok::<ToolCallView, Seq<char>>(ToolCallView::ListSites(str_arg(args, "search"@))),
        tool_call_of("list_email_accounts"@, args) == Ok::<ToolCallView, Seq<char>>(
            ToolCallView::ListEmailAccounts(str_arg(args, "domain"@)),
        ),
        tool_call_of("list_dns_zones"@, args) == Ok::<ToolCallView, Seq<char>>(
            ToolCallView::ListDnsZones(str_arg(args, "search"@)),
        ),
        tool_call_of("list_databases"@, args) == Ok::<ToolCallView, Seq<char>>(
            ToolCallView::ListDatabases(str_arg(args, "site_id"@)),
        ),
        tool_call_of("get_server_stats"@, args) == Ok::<ToolCallView, Seq<char>>(
            ToolCallView::GetServerStats(str_arg(args, "server_id"@)),
        ),
        tool_call_of("list_installed_apps"@, args) == Ok::<ToolCallView, Seq<char>>(
            ToolCallView::ListInstalledApps(str_arg(args, "site_id"@)),
        ),
        tool_call_of("list_cron_jobs"@, args) == Ok::<ToolCallView, Seq<char>>(
            ToolCallView::ListCronJobs(str_arg(args, "site_id"@)),
        ),
        tool_call_of("delete_site"@, args) == match str_arg(args, "site_id"@) {
            Some(a) => Ok(ToolCallView::DeleteSite(a)),
            None => Err("site_id is required"@),
        },
        tool_call_of("get_site_stats"@, args) == match str_arg(args, "site_id"@) {
            Some(a) => Ok(ToolCallView::GetSiteStats(a)),
            None => Err("site_id is required"@),
        },
        tool_call_of("delete_email_account"@, args) == match str_arg(args, "account_id"@) {
            Some(a) => Ok(ToolCallView::DeleteEmailAccount(a)),
            None => Err("account_id is required"@),
        },
        tool_call_of("create_dns_record"@, args) == match str_arg(args, "zone_id"@) {
            Some(a) => Ok(ToolCallView::CreateDnsRecord(a)),
            None => Err("zone_id is required"@),
        },
        tool_call_of("renew_ssl"@, args) == match str_arg(args, "cert_id"@) {
            Some(a) => Ok(ToolCallView::RenewSsl(a)),
            None => Err("cert_id is required"@),
        },
        tool_call_of("create_site"@, args) == Ok::<ToolCallView, Seq<char>>(ToolCallView::CreateSite),
        tool_call_of("create_email_account"@, args) == Ok::<ToolCallView, Seq<char>>(ToolCallView::CreateEmailAccount),
        tool_call_of("create_database"@, args) == Ok::<ToolCallView, Seq<char>>(ToolCallView::CreateDatabase),
        tool_call_of("install_app"@, args) == Ok::<ToolCallView, Seq<char>>(ToolCallView::InstallApp),
        tool_call_of("create_cron_job"@, args) == Ok::<ToolCallView, Seq<char>>(ToolCallView::CreateCronJob),
        tool_call_of("list_ssl_certs"@, args) == Ok::<ToolCallView, Seq<char>>(
            ToolCallView::ListSslCerts(arg_of(args, "expiring_soon"@) == Some(ArgValue::Bool(true))),
        ),
        tool_call_of("trigger_backup"@, args) == match str_arg(args, "site_id"@) {
            Some(a) => Ok(ToolCallView::TriggerBackup(a, match str_arg(args, "type"@) {
                Some(t) => t,
                None => "full"@,
            })),
            None => Err("site_id is required"@),
        },
{
    reveal_strlit("list_sites");
    reveal_strlit("list_email_accounts");
    reveal_strlit("list_dns_zones");
    reveal_strlit("list_databases");
    reveal_strlit("get_server_stats");
    reveal_strlit("list_installed_apps");
    reveal_strlit("list_cron_jobs");
    reveal_strlit("delete_site");
    reveal_strlit("get_site_stats");
    reveal_strlit("delete_email_account");
    reveal_strlit("create_dns_record");
    reveal_strlit("renew_ssl");
    reveal_strlit("create_site");
    reveal_strlit("create_email_account");
    reveal_strlit("create_database");
    reveal_strlit("install_app");
    reveal_strlit("create_cron_job");
    reveal_strlit("list_ssl_certs");
    reveal_strlit("trigger_backup");
    reveal_strlit("get_system_logs");
    assert("list_sites"@.len() == 10);
    assert("list_email_accounts"@.len() == 19);
    assert("list_dns_zones"@.len() == 14);
    assert("list_databases"@.len() == 14);
    assert("get_server_stats"@.len() == 16);
    assert("list_installed_apps"@.len() == 19);
    assert("list_cron_jobs"@.len() == 14);
    assert("delete_site"@.len() == 11);
    assert("get_site_stats"@.len() == 14);
    assert("delete_email_account"@.len() == 20);
    assert("create_dns_record"@.len() == 17);
    assert("renew_ssl"@.len() == 9);
    assert("create_site"@.len() == 11);
    assert("create_email_account"@.len() == 20);
    assert("create_database"@.len() == 15);
    assert("install_app"@.len() == 11);
    assert("create_cron_job"@.len() == 15);
    assert("list_ssl_certs"@.len() == 14);
    assert("trigger_backup"@.len() == 14);
    assert("get_system_logs"@.len() == 15);
    assert("list_databases"@[6] != "list_dns_zones"@[6]);
    assert("list_installed_apps"@[5] != "list_email_accounts"@[5]);
    assert("list_cron_jobs"@[5] != "list_dns_zones"@[5]);
    assert("list_cron_jobs"@[5] != "list_databases"@[5]);
    assert("get_site_stats"@[0] != "list_dns_zones"@[0]);
    assert("get_site_stats"@[0] != "list_databases"@[0]);
    assert("get_site_stats"@[0] != "list_cron_jobs"@[0]);
    assert("create_site"@[0] != "delete_site"@[0]);
    assert("create_email_account"@[0] != "delete_email_account"@[0]);
    assert("install_app"@[0] != "delete_site"@[0]);
    assert("install_app"@[0] != "create_site"@[0]);
    assert("create_cron_job"@[7] != "create_database"@[7]);
    assert("list_ssl_certs"@[5] != "list_dns_zones"@[5]);
    assert("list_ssl_certs"@[5] != "list_databases"@[5]);
    assert("list_ssl_certs"@[5] != "list_cron_jobs"@[5]);
    assert("list_ssl_certs"@[0] != "get_site_stats"@[0]);
    assert("trigger_backup"@[0] != "list_dns_zones"@[0]);
    assert("trigger_backup"@[0] != "list_databases"@[0]);
    assert("trigger_backup"@[0] != "list_cron_jobs"@[0]);
    assert("trigger_backup"@[0] != "get_site_stats"@[0]);
    assert("trigger_backup"@[0] != "list_ssl_certs"@[0]);
    assert("get_system_logs"@[0] != "create_database"@[0]);
    assert("get_system_logs"@[0] != "create_cron_job"@[0]);
}

/// Any other tool name is refused as unknown, naming the tool.
pub proof fn lemma_unknown_tools(name: Seq<char>, args: ToolArgs)
    requires
        name != "list_sites"@ && name != "list_email_accounts"@ && name != "list_dns_zones"@ && name != "list_databases"@ && name != "get_server_stats"@ && name != "list_installed_apps"@ && name != "list_cron_jobs"@ && name != "delete_site"@ && name != "get_site_stats"@ && name != "delete_email_account"@ && name != "create_dns_record"@ && name != "renew_ssl"@ && name != "create_site"@ && name != "create_email_account"@ && name != "create_database"@ && name != "install_app"@ && name != "create_cron_job"@ && name != "list_ssl_certs"@ && name != "trigger_backup"@ && name != "get_system_logs"@,
    ensures
        tool_call_of(name, args) == Err::<ToolCallView, Seq<char>>("Unknown tool: "@ + name),
{
}

/// Maps a tool invocation onto the panel API call it makes: tools that
/// need an id are refused without one, unknown tools are refused.
pub fn dispatch_tool(name: &str, args: &ToolArgs) -> (r: Result<ToolCall, String>)
    ensures
        match tool_call_of(name@, *args) {
            Ok(c) => r matches Ok(t) && tool_call_view(t) == c,
            Err(m) => r matches Err(e) && e@ == m,
        },
{
    if str_eq(name, "list_sites") {
        Ok(ToolCall::ListSites(get_str_arg(args, "search")))
    } else if str_eq(name, "list_email_accounts") {
        Ok(ToolCall::ListEmailAccounts(get_str_arg(args, "domain")))
    } else if str_eq(name, "list_dns_zones") {
        Ok(ToolCall::ListDnsZones(get_str_arg(args, "search")))
    } else if str_eq(name, "list_databases") {
        Ok(ToolCall::ListDatabases(get_str_arg(args, "site_id")))
    } else if str_eq(name, "get_server_stats") {
        Ok(ToolCall::GetServerStats(get_str_arg(args, "server_id")))
    } else if str_eq(name, "list_installed_apps") {
        Ok(ToolCall::ListInstalledApps(get_str_arg(args, "site_id")))
    } else if str_eq(name, "list_cron_jobs") {
        Ok(ToolCall::ListCronJobs(get_str_arg(args, "site_id")))
    } else if str_eq(name, "delete_site") {
        match get_str_arg(args, "site_id") {
            Some(a) => Ok(ToolCall::DeleteSite(a)),
            None => Err(String::from_str("site_id is required")),
        }
    } else if str_eq(name, "get_site_stats") {
        match get_str_arg(args, "site_id") {
            Some(a) => Ok(ToolCall::GetSiteStats(a)),
            None => Err(String::from_str("site_id is required")),
        }
    } else if str_eq(name, "delete_email_account") {
        match get_str_arg(args, "account_id") {
            Some(a) => Ok(ToolCall::DeleteEmailAccount(a)),
            None => Err(String::from_str("account_id is required")),
        }
    } else if str_eq(name, "create_dns_record") {
        match get_str_arg(args, "zone_id") {
            Some(a) => Ok(ToolCall::CreateDnsRecord(a)),
            None => Err(String::from_str("zone_id is required")),
        }
    } else if str_eq(name, "renew_ssl") {
        match get_str_arg(args, "cert_id") {
            Some(a) => Ok(ToolCall::RenewSsl(a)),
            None => Err(String::from_str("cert_id is required")),
        }
    } else if str_eq(name, "create_site") {
        Ok(ToolCall::CreateSite)
    } else if str_eq(name, "create_email_account") {
        Ok(ToolCall::CreateEmailAccount)
    } else if str_eq(name, "create_database") {
        Ok(ToolCall::CreateDatabase)
    } else if str_eq(name, "install_app") {
        Ok(ToolCall::InstallApp)
    } else if str_eq(name, "create_cron_job") {
        Ok(ToolCall::CreateCronJob)
    } else if str_eq(name, "list_ssl_certs") {
        let b = match get_arg(args, "expiring_soon") {
            Some(ArgValue::Bool(b)) => *b,
            _ => false,
        };
        Ok(ToolCall::ListSslCerts(b))
    } else if str_eq(name, "trigger_backup") {
        match get_str_arg(args, "site_id") {
            Some(a) => {
                let t = match get_str_arg(args, "type") {
                    Some(t) => t,
                    None => String::from_str("full"),
                };
                Ok(ToolCall::TriggerBackup(a, t))
            },
            None => Err(String::from_str("site_id is required")),
        }
    } else if str_eq(name, "get_system_logs") {
        let limit = match get_arg(args, "limit") {
            Some(ArgValue::UInt(n)) => Some(*n as u32),
            _ => None,
        };
        Ok(ToolCall::GetSystemLogs(limit, get_str_arg(args, "action"), get_str_arg(args, "user_id")))
    } else {
        let mut m = String::from_str("Unknown tool: ");
        m.append(name);
        Err(m)
    }
}


/// A JSON-RPC message as the server reads it.
#[derive(Debug)]
pub struct RpcMessage {
    /// The `id` member as compact JSON text, when there is one.
    pub id: Option<String>,
    /// The `method` member, when it is a string.
    pub method: Option<String>,
    /// `params.name`, when it is a string.
    pub tool_name: Option<String>,
    /// The members of `params.arguments`, when it is an object.
    pub args: ToolArgs,
}

/// A tool argument as plain values.
pub enum ArgView {
    Str(Seq<char>),
    Bool(bool),
    UInt(u64),
    Other,
}

/// The plain values of a tool argument.
pub open spec fn arg_view(a: ArgValue) -> ArgView {
    match a {
        ArgValue::Str(s) => ArgView::Str(s@),
        ArgValue::Bool(b) => ArgView::Bool(b),
        ArgValue::UInt(n) => ArgView::UInt(n),
        ArgValue::Other => ArgView::Other,
    }
}

/// A JSON-RPC message as plain values.
pub struct RpcMessageView {
    pub id: Option<Seq<char>>,
    pub method: Option<Seq<char>>,
    pub tool_name: Option<Seq<char>>,
    pub args: Seq<(Seq<char>, ArgView)>,
}

/// The text of an optional string.
pub open spec fn opt_text(s: Option<String>) -> Option<Seq<char>> {
    match s {
        Some(t) => Some(t@),
        None => None,
    }
}

/// The plain values of a message.
pub open spec fn rpc_message_view(m: RpcMessage) -> RpcMessageView {
    RpcMessageView {
        id: opt_text(m.id),
        method: opt_text(m.method),
        tool_name: opt_text(m.tool_name),
        args: m.args.fields@.map_values(|f: (String, ArgValue)| (f.0@, arg_view(f.1))),
    }
}

/// The top level of a JSON value: its kind; for a string, its text; for an
/// object, its members, each value written out as compact JSON text.
pub enum JsonTop {
    Null,
    Bool(bool),
    Number,
    Str(String),
    Array,
    Object(Vec<(String, String)>),
}

/// The plain values of the top level of a JSON value.
pub enum JsonTopView {
    Null,
    Bool(bool),
    Number,
    Str(Seq<char>),
    Array,
    Object(Seq<(Seq<char>, Seq<char>)>),
}

/// The texts of a list of members.
pub open spec fn members_view(ms: Seq<(String, String)>) -> Seq<(Seq<char>, Seq<char>)> {
    ms.map_values(|m: (String, String)| (m.0@, m.1@))
}

/// The plain values of a read.
pub open spec fn json_top_view(r: Result<JsonTop, String>) -> Result<JsonTopView, Seq<char>> {
    match r {
        Err(e) => Err(e@),
        Ok(JsonTop::Null) => Ok(JsonTopView::Null),
        Ok(JsonTop::Bool(b)) => Ok(JsonTopView::Bool(b)),
        Ok(JsonTop::Number) => Ok(JsonTopView::Number),
        Ok(JsonTop::Str(s)) => Ok(JsonTopView::Str(s@)),
        Ok(JsonTop::Array) => Ok(JsonTopView::Array),
        Ok(JsonTop::Object(ms)) => Ok(JsonTopView::Object(members_view(ms@))),
    }
}

/// What `serde_json::from_str::<serde_json::Value>` makes of a text, at its
/// top level, or the parse error's text.
pub uninterp spec fn json_top_of(text: Seq<char>) -> Result<JsonTopView, Seq<char>>;

/// `serde_json::from_str::<serde_json::Value>`, the value's top level taken
/// apart by variant: a string's text, an object's members with each value
/// written back by `to_string` (compact JSON). Named, not described.
#[verifier::external_body]
pub(crate) fn json_top(text: &str) -> (r: Result<JsonTop, String>)
    ensures
        json_top_view(r) == json_top_of(text@),
{
    match serde_json::from_str::<Value>(text) {
        Err(e) => Err(e.to_string()),
        Ok(Value::Null) => Ok(JsonTop::Null),
        Ok(Value::Bool(b)) => Ok(JsonTop::Bool(b)),
        Ok(Value::Number(_)) => Ok(JsonTop::Number),
        Ok(Value::String(t)) => Ok(JsonTop::Str(t)),
        Ok(Value::Array(_)) => Ok(JsonTop::Array),
        Ok(Value::Object(m)) => Ok(JsonTop::Object(m.into_iter().map(|(k, v)| (k, v.to_string())).collect())),
    }
}

/// The value, as compact JSON text, of the first member named `key`.
pub open spec fn member_of(members: Seq<(Seq<char>, Seq<char>)>, key: Seq<char>) -> Option<Seq<char>>
    decreases members.len(),
{
    if members.len() == 0 {
        None
    } else if members[0].0 == key {
        Some(members[0].1)
    } else {
        member_of(members.drop_first(), key)
    }
}

/// The members of a read value: an object's; none for anything else.
pub open spec fn members_of(top: Result<JsonTopView, Seq<char>>) -> Seq<(Seq<char>, Seq<char>)> {
    match top {
        Ok(JsonTopView::Object(ms)) => ms,
        _ => Seq::empty(),
    }
}

/// The string that a member's JSON text holds, when it holds a string.
pub open spec fn string_member(text: Option<Seq<char>>) -> Option<Seq<char>> {
    match text {
        Some(t) => match json_top_of(t) {
            Ok(JsonTopView::Str(s)) => Some(s),
            _ => None,
        },
        None => None,
    }
}

/// The members of the object that a member's JSON text holds; none when
/// it holds no object.
pub open spec fn object_member(text: Option<Seq<char>>) -> Seq<(Seq<char>, Seq<char>)> {
    match text {
        Some(t) => members_of(json_top_of(t)),
        None => Seq::empty(),
    }
}

/// The value, as compact JSON text, of the first member named `key`.
pub(crate) fn find_member(members: &Vec<(String, String)>, key: &str) -> (r: Option<String>)
    ensures
        opt_text(r) == member_of(members_view(members@), key@),
{
    let ghost mv = members_view(members@);
    let mut i: usize = 0;
    assert(mv.skip(0) =~= mv);
    while i < members.len()
        invariant
            i <= members@.len(),
            mv == members_view(members@),
            mv.len() == members@.len(),
            member_of(mv, key@) == member_of(mv.skip(i as int), key@),
        decreases members@.len() - i,
    {
        assert(mv.skip(i as int)[0] == mv[i as int]);
        assert(mv[i as int] == (members@[i as int].0@, members@[i as int].1@));
        if str_eq(members[i].0.as_str(), key) {
            return Some(members[i].1.clone());
        }
        assert(mv.skip(i as int).drop_first() =~= mv.skip(i + 1));
        i = i + 1;
    }
    None
}

/// The string that a member's JSON text holds, when it holds a string.
pub(crate) fn string_value(text: &Option<String>) -> (r: Option<String>)
    ensures
        opt_text(r) == string_member(opt_text(*text)),
{
    match text {
        Some(t) => match json_top(t.as_str()) {
            Ok(JsonTop::Str(s)) => Some(s),
            _ => None,
        },
        None => None,
    }
}

/// The members of the object that a member's JSON text holds; none when it
/// holds no object.
fn object_members(text: &Option<String>) -> (r: Vec<(String, String)>)
    ensures
        members_view(r@) == object_member(opt_text(*text)),
{
    match text {
        Some(t) => match json_top(t.as_str()) {
            Ok(JsonTop::Object(ms)) => ms,
            _ => {
                let e: Vec<(String, String)> = Vec::new();
                assert(members_view(e@) =~= Seq::<(Seq<char>, Seq<char>)>::empty());
                e
            },
        },
        None => {
            let e: Vec<(String, String)> = Vec::new();
            assert(members_view(e@) =~= Seq::<(Seq<char>, Seq<char>)>::empty());
            e
        },
    }
}

/// A tool argument from its value's JSON text, as the tools read it: a
/// string, a boolean, a number that fits in a `u64` (plain digits), or
/// something else.
pub open spec fn arg_of_json(text: Seq<char>) -> ArgView {
    if text == "true"@ {
        ArgView::Bool(true)
    } else if text == "false"@ {
        ArgView::Bool(false)
    } else if text.len() > 0 && text[0] == '"' {
        match json_top_of(text) {
            Ok(JsonTopView::Str(s)) => ArgView::Str(s),
            _ => ArgView::Other,
        }
    } else {
        match crate::text::parse_unsigned(text, u64::MAX as nat) {
            Some(n) => ArgView::UInt(n as u64),
            None => ArgView::Other,
        }
    }
}

/// Reads a tool argument from its value's JSON text.
pub fn arg_from_json(text: &str) -> (r: ArgValue)
    ensures
        arg_view(r) == arg_of_json(text@),
{
    proof {
        reveal_strlit("true");
        reveal_strlit("false");
    }
    if str_eq(text, "true") {
        return ArgValue::Bool(true);
    }
    if str_eq(text, "false") {
        return ArgValue::Bool(false);
    }
    let v = chars_of(text);
    if v.len() > 0 && v[0] == '"' {
        return match json_top(text) {
            Ok(JsonTop::Str(s)) => ArgValue::Str(s),
            _ => ArgValue::Other,
        };
    }
    match crate::text::parse_u64_bounded(&v, u64::MAX) {
        Some(n) => ArgValue::UInt(n),
        None => ArgValue::Other,
    }
}

/// A message as the server reads it, from its members: `id` as compact
/// JSON text, `method` and `params.name` when strings, and each member of
/// `params.arguments` (when an object) read as a tool argument.
pub open spec fn message_of_members(ms: Seq<(Seq<char>, Seq<char>)>) -> RpcMessageView {
    let params = object_member(member_of(ms, "params"@));
    RpcMessageView {
        id: member_of(ms, "id"@),
        method: string_member(member_of(ms, "method"@)),
        tool_name: string_member(member_of(params, "name"@)),
        args: object_member(member_of(params, "arguments"@)).map_values(
            |a: (Seq<char>, Seq<char>)| (a.0, arg_of_json(a.1)),
        ),
    }
}

/// What reading a line gives: the message, or the parse error's text.
pub open spec fn rpc_read_of(raw: Seq<char>) -> Result<RpcMessageView, Seq<char>> {
    match json_top_of(raw) {
        Ok(t) => Ok(message_of_members(members_of(Ok(t)))),
        Err(e) => Err(e),
    }
}

/// The plain values of a parse result.
pub open spec fn rpc_parse_view(r: Result<RpcMessage, String>) -> Result<RpcMessageView, Seq<char>> {
    match r {
        Ok(m) => Ok(rpc_message_view(m)),
        Err(e) => Err(e@),
    }
}

/// Reads a line of the stdio transport as a JSON-RPC message.
pub fn parse_rpc(raw: &str) -> (r: Result<RpcMessage, String>)
    ensures
        rpc_parse_view(r) == rpc_read_of(raw@),
{
    let top = match json_top(raw) {
        Err(e) => return Err(e),
        Ok(t) => t,
    };
    let ms: Vec<(String, String)> = match top {
        JsonTop::Object(ms) => ms,
        _ => Vec::new(),
    };
    assert(members_view(ms@) =~= members_of(json_top_of(raw@)));
    let id = find_member(&ms, "id");
    let method = string_value(&find_member(&ms, "method"));
    let params = object_members(&find_member(&ms, "params"));
    let tool_name = string_value(&find_member(&params, "name"));
    let args = object_members(&find_member(&params, "arguments"));
    let ghost fv = members_view(args@);
    let mut fields: Vec<(String, ArgValue)> = Vec::new();
    let mut k: usize = 0;
    while k < args.len()
        invariant
            k <= args@.len(),
            fv == members_view(args@),
            fields@.len() == k,
            forall|j: int| 0 <= j < k ==> (#[trigger] fields@[j]).0@ == fv[j].0 && arg_view(fields@[j].1)
                == arg_of_json(fv[j].1),
        decreases args@.len() - k,
    {
        let name = args[k].0.clone();
        let value = arg_from_json(args[k].1.as_str());
        fields.push((name, value));
        k = k + 1;
    }
    let m = RpcMessage { id, method, tool_name, args: ToolArgs { fields } };
    assert(rpc_message_view(m).args =~= fv.map_values(|a: (Seq<char>, Seq<char>)| (a.0, arg_of_json(a.1))));
    Ok(m)
}

/// What `serde_json::to_string` gives for a string: the JSON string
/// literal, quoted and escaped.
pub uninterp spec fn json_quoted_of(s: Seq<char>) -> Seq<char>;

/// `serde_json::to_string(&str)`: the JSON string literal of a text. Named,
/// not described.
#[verifier::external_body]
fn json_quoted(s: &str) -> (r: String)
    ensures
        r@ == json_quoted_of(s@),
{
    serde_json::to_string(s).unwrap_or_default()
}

/// The compact JSON text of a result reply.
pub open spec fn result_reply_text(id: Seq<char>, result: Seq<char>) -> Seq<char> {
    "{\"id\":"@ + id + ",\"jsonrpc\":\"2.0\",\"result\":"@ + result + "}"@
}

/// The compact JSON text of an error reply.
pub open spec fn error_reply_text(id: Seq<char>, code: Seq<char>, message: Seq<char>) -> Seq<char> {
    "{\"error\":{\"code\":"@ + code + ",\"message\":"@ + json_quoted_of(message) + "},\"id\":"@ + id
        + ",\"jsonrpc\":\"2.0\"}"@
}

/// The result of a tool call: its text as one text item, flagged as an
/// error or not.
pub open spec fn tool_result_text(text: Seq<char>, is_error: bool) -> Seq<char> {
    "{\"content\":[{\"text\":"@ + json_quoted_of(text) + ",\"type\":\"text\"}],\"isError\":"@ + (if is_error {
        "true"@
    } else {
        "false"@
    }) + "}"@
}

/// The reply to a message with `id` (its JSON text; `null` when absent)
/// routed to `action`: none for a notification; the server's capabilities
/// (with its `version`); an empty result for `ping`; the tool list (`tools`,
/// JSON text); a tool's output (`tool`: its result as pretty JSON text, or
/// its error), which is never a JSON-RPC error but a result flagged
/// `isError`; or error -32601 for an unknown method.
pub open spec fn rpc_reply_text(
    id: Option<Seq<char>>,
    action: RpcActionView,
    tool: Option<Result<Seq<char>, Seq<char>>>,
    tools: Seq<char>,
    version: Seq<char>,
) -> Option<Seq<char>> {
    let i = match id {
        Some(t) => t,
        None => "null"@,
    };
    match action {
        RpcActionView::Ignore => None,
        RpcActionView::Initialize => Some(result_reply_text(
            i,
            "{\"capabilities\":{\"tools\":{}},\"protocolVersion\":\"2024-11-05\",\"serverInfo\":{\"name\":\"jotti-mcp\",\"version\":"@
                + json_quoted_of(version) + "}}"@,
        )),
        RpcActionView::Ping => Some(result_reply_text(i, "{}"@)),
        RpcActionView::ListTools => Some(result_reply_text(i, "{\"tools\":"@ + tools + "}"@)),
        RpcActionView::CallTool => match tool {
            Some(Ok(t)) => Some(result_reply_text(i, tool_result_text(t, false))),
            Some(Err(e)) => Some(result_reply_text(i, tool_result_text("Error: "@ + e, true))),
            None => None,
        },
        RpcActionView::MethodNotFound(m) => Some(error_reply_text(i, "-32601"@, m)),
    }
}

/// The reply to a line that is not JSON: error -32700 with a null id.
pub open spec fn parse_error_reply_text(error: Seq<char>) -> Seq<char> {
    error_reply_text("null"@, "-32700"@, "Parse error: "@ + error)
}

fn cat(parts: &Vec<&str>) -> (r: String)
    ensures
        r@ == crate::text::concat_all(crate::text::views_of(parts@)),
{
    crate::text::concat_strs(parts)
}

/// Builds the error reply with a code and message.
fn error_reply(id: &str, code: &str, message: &str) -> (r: String)
    ensures
        r@ == error_reply_text(id@, code@, message@),
{
    let q = json_quoted(message);
    let parts: Vec<&str> = vec!["{\"error\":{\"code\":", code, ",\"message\":", q.as_str(), "},\"id\":", id, ",\"jsonrpc\":\"2.0\"}"];
    let r = cat(&parts);
    proof {
        reveal_with_fuel(crate::text::concat_all, 8);
        assert(crate::text::views_of(parts@) =~= seq!["{\"error\":{\"code\":"@, code@, ",\"message\":"@, q@, "},\"id\":"@, id@, ",\"jsonrpc\":\"2.0\"}"@]);
    }
    assert(r@ =~= error_reply_text(id@, code@, message@));
    r
}

/// Builds a result reply.
fn result_reply(id: &str, result: &str) -> (r: String)
    ensures
        r@ == result_reply_text(id@, result@),
{
    let parts: Vec<&str> = vec!["{\"id\":", id, ",\"jsonrpc\":\"2.0\",\"result\":", result, "}"];
    let r = cat(&parts);
    proof {
        reveal_with_fuel(crate::text::concat_all, 6);
        assert(crate::text::views_of(parts@) =~= seq!["{\"id\":"@, id@, ",\"jsonrpc\":\"2.0\",\"result\":"@, result@, "}"@]);
    }
    assert(r@ =~= result_reply_text(id@, result@));
    r
}

/// Builds a tool call's result.
fn tool_result(text: &str, is_error: bool) -> (r: String)
    ensures
        r@ == tool_result_text(text@, is_error),
{
    let q = json_quoted(text);
    let flag = if is_error { "true" } else { "false" };
    let parts: Vec<&str> = vec!["{\"content\":[{\"text\":", q.as_str(), ",\"type\":\"text\"}],\"isError\":", flag, "}"];
    let r = cat(&parts);
    proof {
        reveal_with_fuel(crate::text::concat_all, 6);
        assert(crate::text::views_of(parts@) =~= seq!["{\"content\":[{\"text\":"@, q@, ",\"type\":\"text\"}],\"isError\":"@, flag@, "}"@]);
    }
    assert(r@ =~= tool_result_text(text@, is_error));
    r
}

/// The reply a message gets once it is routed (and, for a tool call, the
/// tool has run).
pub fn rpc_reply(
    id: Option<&str>,
    action: &RpcAction,
    tool: Option<Result<String, String>>,
    tools: &str,
    version: &str,
) -> (r: Option<String>)
    ensures
        opt_text(r) == rpc_reply_text(
            match id {
                Some(t) => Some(t@),
                None => None,
            },
            rpc_action_view(*action),
            match tool {
                Some(Ok(t)) => Some(Ok(t@)),
                Some(Err(e)) => Some(Err(e@)),
                None => None,
            },
            tools@,
            version@,
        ),
{
    let i = match id {
        Some(t) => t,
        None => "null",
    };
    proof {
        reveal_strlit("null");
    }
    match action {
        RpcAction::Ignore => None,
        RpcAction::Initialize => {
            let q = json_quoted(version);
            let parts: Vec<&str> = vec!["{\"capabilities\":{\"tools\":{}},\"protocolVersion\":\"2024-11-05\",\"serverInfo\":{\"name\":\"jotti-mcp\",\"version\":", q.as_str(), "}}"];
            let body = cat(&parts);
            proof {
                reveal_with_fuel(crate::text::concat_all, 4);
                assert(crate::text::views_of(parts@) =~= seq!["{\"capabilities\":{\"tools\":{}},\"protocolVersion\":\"2024-11-05\",\"serverInfo\":{\"name\":\"jotti-mcp\",\"version\":"@, q@, "}}"@]);
            }
            assert(body@ =~= "{\"capabilities\":{\"tools\":{}},\"protocolVersion\":\"2024-11-05\",\"serverInfo\":{\"name\":\"jotti-mcp\",\"version\":"@ + json_quoted_of(version@) + "}}"@);
            Some(result_reply(i, body.as_str()))
        },
        RpcAction::Ping => Some(result_reply(i, "{}")),
        RpcAction::ListTools => {
            let body = crate::text::concat3("{\"tools\":", tools, "}");
            Some(result_reply(i, body.as_str()))
        },
        RpcAction::CallTool => match tool {
            Some(Ok(t)) => {
                let body = tool_result(t.as_str(), false);
                Some(result_reply(i, body.as_str()))
            },
            Some(Err(e)) => {
                let msg = crate::text::concat2("Error: ", e.as_str());
                let body = tool_result(msg.as_str(), true);
                Some(result_reply(i, body.as_str()))
            },
            None => None,
        },
        RpcAction::MethodNotFound(m) => Some(error_reply(i, "-32601", m.as_str())),
    }
}

/// The reply to a line that is not JSON.
pub fn parse_error_reply(error: &str) -> (r: String)
    ensures
        r@ == parse_error_reply_text(error@),
{
    let m = crate::text::concat2("Parse error: ", error);
    error_reply("null", "-32700", m.as_str())
}

} // verus!
