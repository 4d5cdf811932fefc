use jotti::agent::journal::{AgentService, Journal, JournalEntry, JournalError, OpStatus};
use jotti::agent::sites::run_outcome;
use jotti::agent::AgentError;
use jotti::cli::{response_outcome, ResponseBody};
use jotti::mail::queue::entry_from;
use jotti::mcp::{arg_from_json, parse_error_reply, parse_rpc, route_message, rpc_reply, ArgValue, RpcAction};
use jotti::panel::access::sanitize_key_label;

#[test]
fn reload_exit_status_becomes_the_result() {
    let args = vec!["reload-or-restart".to_string(), "php8.3-fpm".to_string()];
    assert_eq!(run_outcome("/bin/systemctl", &args, Ok((true, Some(0)))), Ok(()));
    assert_eq!(
        run_outcome("/bin/systemctl", &args, Ok((false, Some(1)))),
        Err(AgentError::Internal(
            "/bin/systemctl [\"reload-or-restart\", \"php8.3-fpm\"] failed with exit code Some(1)".to_string()
        ))
    );
    assert_eq!(
        run_outcome("/bin/systemctl", &args, Err("No such file".into())),
        Err(AgentError::Internal("exec /bin/systemctl failed: No such file".to_string()))
    );
}

#[test]
fn key_labels_cut_between_characters() {
    let label = format!("{}é", "a".repeat(63));
    assert_eq!(sanitize_key_label(&label), "a".repeat(63));
    let label = format!("{}é", "a".repeat(62));
    assert_eq!(sanitize_key_label(&label), label);
}

#[test]
fn queue_entry_from_groups() {
    let caps = vec![
        "A1B2C3!* 1234 Mon Jan 1 00:00:00 a@b.c".to_string(),
        "!A1B2C3".to_string(),
        "1234".to_string(),
        "Mon Jan 1 00:00:00".to_string(),
        "a@b.c".to_string(),
    ];
    let e = entry_from(Some(caps)).unwrap();
    assert_eq!(e.id, "A1B2C3");
    assert_eq!(e.size, 1234);
    assert_eq!(e.sender, "a@b.c");
    assert!(e.recipients.is_empty() && e.reason.is_none());
    assert!(entry_from(None).is_none());
    assert!(entry_from(Some(vec!["x".to_string()])).is_none());
}

#[test]
fn journal_tracks_pending_operations() {
    let mut j = Journal::new();
    j.begin_op_with_id("a".into(), "create_site".into(), Some("x.com".into()), "{}".into(), 200).unwrap();
    j.begin_op_with_id("b".into(), "create_database".into(), None, "{}".into(), 100).unwrap();
    j.begin_op_with_id("c".into(), "create_dns_zone".into(), None, "{}".into(), 150).unwrap();
    let ids: Vec<String> = j.pending_ops().into_iter().map(|e| e.id).collect();
    assert_eq!(ids, vec!["b", "c", "a"]);
    j.finish_op("c", 300);
    j.fail_op("b", "boom", 301);
    let p = j.pending_ops();
    assert_eq!(p.len(), 1);
    assert_eq!(p[0].id, "a");
    let b = j.entries().iter().find(|e| e.id == "b").unwrap();
    assert_eq!(b.status, OpStatus::Failed);
    assert_eq!(b.error_msg.as_deref(), Some("boom"));
    assert_eq!(b.updated_at, 301);
    assert_eq!(b.created_at, 100);
    let c = j.entries().iter().find(|e| e.id == "c").unwrap();
    assert_eq!(c.status, OpStatus::Done);
    assert_eq!(c.error_msg, None);
}

#[test]
fn journal_refuses_a_taken_id() {
    let mut j = Journal::new();
    assert_eq!(j.begin_op_with_id("a".into(), "create_site".into(), None, "{}".into(), 10), Ok(()));
    assert!(j.has_id("a"));
    assert!(!j.has_id("b"));
    assert_eq!(
        j.begin_op_with_id("a".into(), "delete_site".into(), None, "{}".into(), 20),
        Err(JournalError::DuplicateId)
    );
    assert_eq!(j.entries().len(), 1);
    assert_eq!(j.entries()[0].op_type, "create_site");
    j.finish_op("a", 30);
    assert!(j.pending_ops().is_empty());
}

#[test]
fn journal_generates_fresh_ids() {
    let mut j = Journal::new();
    let a = j.begin_op("create_site".into(), Some("x.com".into()), "{\"php\":\"8.3\"}".into(), 5).unwrap();
    let b = j.begin_op("create_site".into(), Some("y.com".into()), "{}".into(), 5).unwrap();
    assert_ne!(a, b);
    assert_eq!(a.len(), 36);
    assert_eq!(a.chars().filter(|c| *c == '-').count(), 4);
    let p = j.pending_ops();
    assert_eq!(p.len(), 2);
    assert_eq!(p.iter().filter(|e| e.id == a).count(), 1);
    assert_eq!(p[0].id, a);
    assert_eq!(p[0].domain.as_deref(), Some("x.com"));
    assert_eq!(p[0].payload, "{\"php\":\"8.3\"}");
    assert_eq!(p[0].status, OpStatus::Pending);
    assert_eq!((p[0].created_at, p[0].updated_at), (5, 5));
}

#[test]
fn cli_response_outcomes() {
    assert_eq!(
        response_outcome(404, Some("Not Found"), "{\"error\":\"site not found\"}"),
        Err("API error 404 Not Found: site not found".to_string())
    );
    assert_eq!(
        response_outcome(500, Some("Internal Server Error"), "oops"),
        Err("API error 500 Internal Server Error: oops".to_string())
    );
    assert_eq!(response_outcome(204, Some("No Content"), ""), Ok(ResponseBody::Null));
    assert_eq!(response_outcome(200, Some("OK"), "{\"a\":1}"), Ok(ResponseBody::Json("{\"a\":1}".to_string())));
    assert_eq!(response_outcome(200, Some("OK"), "nope"), Err("parse response JSON: nope".to_string()));
}

#[test]
fn mcp_messages_and_replies() {
    let m = parse_rpc("{\"jsonrpc\":\"2.0\",\"id\":7,\"method\":\"tools/call\",\"params\":{\"name\":\"list_sites\",\"arguments\":{\"search\":\"x\",\"limit\":5,\"force\":true,\"f\":1.5}}}").unwrap();
    assert_eq!(m.id.as_deref(), Some("7"));
    assert_eq!(m.method.as_deref(), Some("tools/call"));
    assert_eq!(m.tool_name.as_deref(), Some("list_sites"));
    let a = &m.args.fields;
    assert_eq!(a.len(), 4);
    assert!(a.iter().any(|(k, v)| k == "search" && matches!(v, ArgValue::Str(s) if s == "x")));
    assert!(a.iter().any(|(k, v)| k == "limit" && matches!(v, ArgValue::UInt(5))));
    assert!(a.iter().any(|(k, v)| k == "force" && matches!(v, ArgValue::Bool(true))));
    assert!(a.iter().any(|(k, v)| k == "f" && matches!(v, ArgValue::Other)));
    assert!(parse_rpc("{not json").is_err());
    assert!(matches!(arg_from_json("\"a\\\"b\""), ArgValue::Str(s) if s == "a\"b"));

    let act = route_message("tools/call", true);
    assert_eq!(
        rpc_reply(Some("7"), &act, Some(Ok("{}".into())), "[]", "1.0"),
        Some("{\"id\":7,\"jsonrpc\":\"2.0\",\"result\":{\"content\":[{\"text\":\"{}\",\"type\":\"text\"}],\"isError\":false}}".to_string())
    );
    assert_eq!(
        rpc_reply(Some("7"), &act, Some(Err("boom".into())), "[]", "1.0"),
        Some("{\"id\":7,\"jsonrpc\":\"2.0\",\"result\":{\"content\":[{\"text\":\"Error: boom\",\"type\":\"text\"}],\"isError\":true}}".to_string())
    );
    assert_eq!(
        rpc_reply(Some("\"x\""), &route_message("nope", true), None, "[]", "1.0"),
        Some("{\"error\":{\"code\":-32601,\"message\":\"Method not found: nope\"},\"id\":\"x\",\"jsonrpc\":\"2.0\"}".to_string())
    );
    assert_eq!(rpc_reply(None, &route_message("ping", false), None, "[]", "1.0"), None);
    assert_eq!(
        rpc_reply(Some("1"), &RpcAction::Ping, None, "[]", "1.0"),
        Some("{\"id\":1,\"jsonrpc\":\"2.0\",\"result\":{}}".to_string())
    );
    assert_eq!(
        rpc_reply(Some("1"), &RpcAction::Initialize, None, "[]", "1.0"),
        Some("{\"id\":1,\"jsonrpc\":\"2.0\",\"result\":{\"capabilities\":{\"tools\":{}},\"protocolVersion\":\"2024-11-05\",\"serverInfo\":{\"name\":\"jotti-mcp\",\"version\":\"1.0\"}}}".to_string())
    );
    assert_eq!(
        parse_error_reply("EOF"),
        "{\"error\":{\"code\":-32700,\"message\":\"Parse error: EOF\"},\"id\":null,\"jsonrpc\":\"2.0\"}"
    );
}

fn row(id: &str, status: OpStatus, created_at: i64) -> JournalEntry {
    JournalEntry {
        id: id.to_string(),
        op_type: "create_site".to_string(),
        domain: None,
        payload: "{}".to_string(),
        status,
        created_at,
        updated_at: created_at,
        error_msg: None,
    }
}

#[test]
fn journal_from_stored_rows() {
    let j = Journal::from_rows(vec![
        row("a", OpStatus::Done, 1),
        row("b", OpStatus::Pending, 2),
        row("c", OpStatus::Pending, 2),
    ])
    .unwrap();
    let ids: Vec<String> = j.pending_ops().into_iter().map(|e| e.id).collect();
    assert_eq!(ids, vec!["b", "c"]);
    assert!(j.has_id("a"));
    assert!(Journal::from_rows(vec![row("a", OpStatus::Pending, 2), row("b", OpStatus::Pending, 1)]).is_none());
    assert!(Journal::from_rows(vec![row("a", OpStatus::Pending, 1), row("a", OpStatus::Done, 2)]).is_none());
    assert!(Journal::from_rows(Vec::new()).unwrap().entries().is_empty());
}

#[test]
fn rpc_members_that_are_not_what_is_read() {
    let m = parse_rpc("{\"id\":\"x\",\"method\":5,\"params\":[1]}").unwrap();
    assert_eq!(m.id.as_deref(), Some("\"x\""));
    assert_eq!(m.method, None);
    assert_eq!(m.tool_name, None);
    assert!(m.args.fields.is_empty());
    let n = parse_rpc("[1,2]").unwrap();
    assert!(n.id.is_none() && n.method.is_none() && n.tool_name.is_none() && n.args.fields.is_empty());
    let p = parse_rpc("{\"method\":\"tools/call\",\"params\":{\"name\":7,\"arguments\":\"a\"}}").unwrap();
    assert_eq!(p.method.as_deref(), Some("tools/call"));
    assert_eq!(p.tool_name, None);
    assert!(p.args.fields.is_empty());
    assert!(parse_rpc("nope").is_err());
    assert_eq!(
        response_outcome(400, Some("Bad Request"), "{\"error\":42}"),
        Err("API error 400 Bad Request: {\"error\":42}".to_string())
    );
    assert_eq!(
        response_outcome(403, Some("Forbidden"), "[\"error\"]"),
        Err("API error 403 Forbidden: [\"error\"]".to_string())
    );
}

#[test]
fn agent_settles_operations_from_their_outcome() {
    let mut svc = AgentService { journal: Journal::new() };
    svc.journal.begin_op_with_id("a".into(), "create_database".into(), None, "{}".into(), 1).unwrap();
    svc.journal.begin_op_with_id("b".into(), "create_dns_zone".into(), None, "{}".into(), 2).unwrap();
    let ok: Result<u32, AgentError> = Ok(3);
    svc.settle_op("a", &ok, 10);
    let bad: Result<u32, AgentError> = Err(AgentError::InvalidArgument("db_password too short".into()));
    svc.settle_op("b", &bad, 11);
    let e = svc.journal.entries();
    assert_eq!((e[0].status, e[0].updated_at, e[0].error_msg.clone()), (OpStatus::Done, 10, None));
    assert_eq!(e[1].status, OpStatus::Failed);
    assert_eq!(e[1].error_msg.as_deref(), Some("db_password too short"));
    assert!(svc.journal.pending_ops().is_empty());
    assert_eq!(AgentError::Internal("x".into()).message(), "x");
}
