use jotti::cli::{
    api_error_message, api_url, auth_header, base_url_from, cmd_config_set, cmd_config_set_url,
    confirm_answer, login_step, shorten, sites_list_path, CliConfig, LoginStep, SiteStatus,
};
use jotti::mcp::{
    constant_time_eq, dispatch_tool, get_arg, get_str_arg, require_auth, route_message, ArgValue,
    AuthError, RpcAction, ToolArgs, ToolCall,
};

#[test]
fn api_url_drops_trailing_slashes() {
    assert_eq!(api_url("https://panel.example.com/", "/api/v1/sites"), "https://panel.example.com/api/v1/sites");
    assert_eq!(api_url("https://panel.example.com//", "/x"), "https://panel.example.com/x");
    assert_eq!(api_url("https://panel.example.com", "/x"), "https://panel.example.com/x");
    // The same URL whatever the number of trailing slashes.
    assert_eq!(api_url("http://a/", "/p"), api_url("http://a", "/p"));
}

#[test]
fn auth_header_and_paths() {
    assert_eq!(auth_header(Some("tok")).as_deref(), Some("Bearer tok"));
    assert_eq!(auth_header(None), None);
    assert_eq!(sites_list_path(None, None), "/api/v1/sites");
    assert_eq!(sites_list_path(Some("s1"), None), "/api/v1/sites?server_id=s1");
    assert_eq!(
        sites_list_path(Some("s1"), Some(SiteStatus::Suspended)),
        "/api/v1/sites?server_id=s1&status=suspended"
    );
    assert_eq!(sites_list_path(None, Some(SiteStatus::Active)), "/api/v1/sites?status=active");
    assert_eq!(shorten("abcdef", 3), "abc");
    assert_eq!(shorten("ab", 3), "ab");
    assert_eq!(shorten("héllo", 2), "hé");
}

#[test]
fn config_commands() {
    let (cfg, msg) = cmd_config_set_url(CliConfig { url: None }, "https://p.example".to_string());
    assert_eq!(cfg.url.as_deref(), Some("https://p.example"));
    assert_eq!(msg, "Panel URL set to 'https://p.example'");
    let r = cmd_config_set(CliConfig { url: None }, "url", "https://q".to_string()).unwrap();
    assert_eq!(r.0.url.as_deref(), Some("https://q"));
    assert_eq!(
        cmd_config_set(CliConfig { url: None }, "color", "x".to_string()).err().as_deref(),
        Some("unknown config key 'color' — supported keys: url")
    );
    let cfg = CliConfig { url: Some("https://c".to_string()) };
    assert_eq!(base_url_from(Some("https://env".to_string()), &cfg).unwrap(), "https://env");
    assert_eq!(base_url_from(None, &cfg).unwrap(), "https://c");
    assert_eq!(
        base_url_from(None, &CliConfig { url: None }).err().as_deref(),
        Some("no base URL configured — run `orbit config set-url https://panel.example.com`")
    );
}

#[test]
fn prompts_and_login() {
    assert!(confirm_answer("y\n"));
    assert!(confirm_answer(" Y "));
    assert!(!confirm_answer("yes"));
    assert!(!confirm_answer(""));
    assert!(matches!(login_step(Some(true), Some("s".to_string()), None), LoginStep::NeedTotp(ref s) if s == "s"));
    assert!(matches!(login_step(Some(true), None, Some("t".to_string())), LoginStep::NeedTotp(ref s) if s.is_empty()));
    assert!(matches!(login_step(Some(false), None, Some("t".to_string())), LoginStep::Token(ref t) if t == "t"));
    assert!(matches!(login_step(None, None, None), LoginStep::NoToken));
    assert_eq!(api_error_message("body", Some("bad")), "bad");
    assert_eq!(api_error_message("body", None), "body");
}

#[test]
fn constant_time_comparison() {
    assert!(constant_time_eq(b"secret", b"secret"));
    assert!(!constant_time_eq(b"secret", b"secreT"));
    assert!(!constant_time_eq(b"secret", b"secret!"));
    assert!(constant_time_eq(b"", b""));
}

#[test]
fn bearer_auth_checks() {
    assert_eq!(require_auth(Some("Bearer k1"), "k1"), Ok(()));
    assert_eq!(require_auth(Some("Bearer k2"), "k1"), Err(AuthError::Invalid));
    assert_eq!(require_auth(None, "k1"), Err(AuthError::Missing));
    assert_eq!(require_auth(Some("Basic k1"), "k1"), Err(AuthError::Missing));
    assert_eq!(require_auth(Some("Bearer "), "k1"), Err(AuthError::Missing));
}

#[test]
fn rpc_routing() {
    assert_eq!(route_message("initialize", true), RpcAction::Initialize);
    assert_eq!(route_message("ping", true), RpcAction::Ping);
    assert_eq!(route_message("tools/list", true), RpcAction::ListTools);
    assert_eq!(route_message("tools/call", true), RpcAction::CallTool);
    assert_eq!(route_message("notifications/initialized", true), RpcAction::Ignore);
    // A message without an id is never answered.
    assert_eq!(route_message("tools/call", false), RpcAction::Ignore);
    assert_eq!(route_message("bogus", true), RpcAction::MethodNotFound("Method not found: bogus".to_string()));
}

fn args(v: Vec<(&str, ArgValue)>) -> ToolArgs {
    ToolArgs { fields: v.into_iter().map(|(k, a)| (k.to_string(), a)).collect() }
}

#[test]
fn tool_arguments_lookup() {
    let a = args(vec![("x", ArgValue::Str("1".to_string())), ("x", ArgValue::Str("2".to_string())), ("b", ArgValue::Bool(true))]);
    assert!(matches!(get_arg(&a, "x"), Some(ArgValue::Str(s)) if s == "1"));
    assert_eq!(get_str_arg(&a, "x").as_deref(), Some("1"));
    assert_eq!(get_str_arg(&a, "b"), None);
    assert!(get_arg(&a, "nope").is_none());
}

#[test]
fn tool_dispatch() {
    let none = args(vec![]);
    assert!(matches!(dispatch_tool("list_sites", &none), Ok(ToolCall::ListSites(None))));
    assert_eq!(dispatch_tool("delete_site", &none).err().as_deref(), Some("site_id is required"));
    assert_eq!(dispatch_tool("renew_ssl", &none).err().as_deref(), Some("cert_id is required"));
    assert_eq!(dispatch_tool("frobnicate", &none).err().as_deref(), Some("Unknown tool: frobnicate"));
    let a = args(vec![("site_id", ArgValue::Str("s1".to_string()))]);
    assert!(matches!(dispatch_tool("trigger_backup", &a), Ok(ToolCall::TriggerBackup(ref s, ref t)) if s == "s1" && t == "full"));
    assert!(matches!(dispatch_tool("delete_site", &a), Ok(ToolCall::DeleteSite(ref s)) if s == "s1"));
    let a = args(vec![("expiring_soon", ArgValue::Bool(true))]);
    assert!(matches!(dispatch_tool("list_ssl_certs", &a), Ok(ToolCall::ListSslCerts(true))));
    assert!(matches!(dispatch_tool("list_ssl_certs", &none), Ok(ToolCall::ListSslCerts(false))));
    let a = args(vec![("limit", ArgValue::UInt(0x1_0000_0005)), ("action", ArgValue::Str("login".to_string()))]);
    assert!(matches!(dispatch_tool("get_system_logs", &a),
        Ok(ToolCall::GetSystemLogs(Some(5), Some(ref act), None)) if act == "login"));
}
