use jotti::mail::lines::{remove_lines_matching, upsert_line};
use jotti::mail::postfix::{
    account_user_line, add_domain_plan, build_vacation_sieve, change_password_lines,
    create_account_plan, dkim_dns_name, dkim_dns_value, ensure_sasl_lines, forwarder_line,
    ip_bind_plan, mail_home_dir, mailbox_map_line, queue_id_ok, rate_limit_lines, rate_limit_plan,
    sieve_path_for_email, smarthost_plan, split_email, Plan,
};
use jotti::mail::queue::parse_mailq;
use jotti::mail::MailError;

fn lines(v: &[&str]) -> Vec<String> {
    v.iter().map(|s| s.to_string()).collect()
}

#[test]
fn remove_lines_drops_only_matching_entries() {
    let input = lines(&["a@x.com b", "", "c@x.com d", "a@x.com e"]);
    let (kept, removed) = remove_lines_matching(&input, "a@x.com ");
    assert_eq!(kept, lines(&["", "c@x.com d"]));
    assert_eq!(removed, 2);
    let (kept, removed) = remove_lines_matching(&input, "zzz");
    assert_eq!(kept, input);
    assert_eq!(removed, 0);
}

#[test]
fn upsert_line_replaces_first_or_appends() {
    let input = lines(&["k1 v1", "k2 v2", "k1 v3"]);
    assert_eq!(upsert_line(input.clone(), "k1 ", "k1 new"), lines(&["k1 new", "k2 v2", "k1 v3"]));
    assert_eq!(upsert_line(input.clone(), "k9 ", "k9 x"), lines(&["k1 v1", "k2 v2", "k1 v3", "k9 x"]));
    // Upserting twice gives what upserting once gives.
    let once = upsert_line(input.clone(), "k9 ", "k9 x");
    assert_eq!(upsert_line(once.clone(), "k9 ", "k9 x"), once);
}

#[test]
fn add_domain_plan_checks() {
    let existing = lines(&["example.com", " other.org "]);
    assert_eq!(add_domain_plan("New.COM", &existing).unwrap(), "new.com");
    assert!(matches!(add_domain_plan("OTHER.org", &existing), Err(MailError::Conflict(_))));
    assert!(matches!(add_domain_plan("", &existing), Err(MailError::BadRequest(ref m)) if m == "domain is required"));
}

#[test]
fn create_account_plan_checks() {
    let users = lines(&["bob@x.com:{SHA512-CRYPT}h:::::userdb_quota_rule=*:storage=1024M"]);
    let p = create_account_plan("x.com", "alice", "password1", None, &users).unwrap();
    assert_eq!(p.email, "alice@x.com");
    assert_eq!(p.quota_mb, 1024);
    assert_eq!(p.home_dir, mail_home_dir("x.com", "alice"));
    assert_eq!(p.mailbox_line, mailbox_map_line("alice@x.com", "x.com", "alice"));
    assert_eq!(mail_home_dir("x.com", "alice"), "/var/mail/vhosts/x.com/alice");
    assert_eq!(mailbox_map_line("alice@x.com", "x.com", "alice"), "alice@x.com x.com/alice/");
    assert!(matches!(create_account_plan("x.com", "", "password1", None, &users),
        Err(MailError::BadRequest(ref m)) if m == "username and domain are required"));
    assert!(matches!(create_account_plan("x.com", "alice", "short", None, &users),
        Err(MailError::BadRequest(ref m)) if m == "password must be at least 8 characters"));
    assert!(matches!(create_account_plan("x.com", "bob", "password1", Some(5), &users),
        Err(MailError::Conflict(ref m)) if m == "account 'bob@x.com' already exists"));
    assert_eq!(create_account_plan("x.com", "carol", "password1", Some(5), &users).unwrap().quota_mb, 5);
}

#[test]
fn account_user_line_format() {
    assert_eq!(
        account_user_line("a@x.com", "{SHA512-CRYPT}h", "/var/mail/vhosts/x.com/a", 512),
        "a@x.com:{SHA512-CRYPT}h:::/var/mail/vhosts/x.com/a::userdb_quota_rule=*:storage=512M"
    );
}

#[test]
fn change_password_keeps_other_fields() {
    let input = lines(&["b@x.com:old:rest", "a@x.com:old:::home::quota"]);
    assert_eq!(
        change_password_lines(input.clone(), "a@x.com", "new"),
        Some(lines(&["b@x.com:old:rest", "a@x.com:new:::home::quota"]))
    );
    assert_eq!(change_password_lines(input.clone(), "c@x.com", "new"), None);
    // A line without a second `:` does not qualify.
    assert_eq!(change_password_lines(lines(&["a@x.com:only"]), "a@x.com", "new"), None);
}

#[test]
fn forwarder_line_checks() {
    let existing = lines(&["a@x.com b@y.com"]);
    assert_eq!(forwarder_line("c@x.com", "d@y.com", &existing).unwrap(), "c@x.com d@y.com");
    assert!(matches!(forwarder_line("", "d@y.com", &existing),
        Err(MailError::BadRequest(ref m)) if m == "from_address and to_address are required"));
    assert!(matches!(forwarder_line("c@x.com", "c@x.com", &existing),
        Err(MailError::BadRequest(ref m)) if m == "from_address and to_address must be different"));
    assert!(matches!(forwarder_line("a@x.com", "z@y.com", &existing),
        Err(MailError::Conflict(ref m)) if m == "forwarder for 'a@x.com' already exists"));
}

#[test]
fn vacation_sieve_scripts() {
    let plain = build_vacation_sieve("Away", "Back soon", None, None);
    assert_eq!(
        plain,
        "require [\"vacation\", \"date\", \"relational\"];\nif header :contains \"X-Spam-Flag\" \"YES\" {\n  stop;\n}\nvacation\n  :days 1\n  :subject \"Away\"\n  \"Back soon\";\n"
    );
    let window = build_vacation_sieve("Away", "Back", Some("2024-01-01"), Some("2024-01-31"));
    assert!(window.contains("  if not (currentdate :is \"date\" \"2024-01-01\" or currentdate :value \"ge\" \"date\" \"2024-01-01\") {\n    stop;\n  }\n"));
    assert!(window.contains("  if currentdate :value \"gt\" \"date\" \"2024-01-31\" {\n    stop;\n  }\n"));
    let from = build_vacation_sieve("Away", "Back", Some("2024-01-01"), None);
    assert!(from.contains("  if not currentdate :value \"ge\" \"date\" \"2024-01-01\" {\n    stop;\n  }\n"));
}

#[test]
fn rate_limits_by_plan() {
    let p = rate_limit_plan("x.com", Plan::Community, None).unwrap();
    assert_eq!(p.limit_per_hour, 500);
    assert_eq!(p.rate_entry, "500/3600");
    assert_eq!(p.map_key, "domain@x.com");
    assert_eq!(rate_limit_plan("x.com", Plan::Pro, None).unwrap().limit_per_hour, 5000);
    assert_eq!(rate_limit_plan("x.com", Plan::Pro, Some(42)).unwrap().rate_entry, "42/3600");
    assert!(matches!(rate_limit_plan("", Plan::Pro, None), Err(MailError::BadRequest(ref m)) if m == "domain is required"));
    assert_eq!(Plan::default_plan(), Plan::Community);
    let out = rate_limit_lines(lines(&["domain@y.com 1/3600", "domain@x.com 9/3600"]), &p);
    assert_eq!(out, lines(&["domain@y.com 1/3600", "domain@x.com 500/3600"]));
}

#[test]
fn sieve_paths_refuse_escapes() {
    assert_eq!(sieve_path_for_email("/var/sieve", "a@x.com").as_deref(), Some("/var/sieve/a@x.com.sieve"));
    assert_eq!(sieve_path_for_email("/var/sieve/", "a@x.com").as_deref(), Some("/var/sieve/a@x.com.sieve"));
    assert_eq!(sieve_path_for_email("/var/sieve", "../etc@x.com"), None);
    assert_eq!(sieve_path_for_email("/var/sieve", "a/b@x.com"), None);
}

#[test]
fn sasl_settings_added_once() {
    let (out, changed) = ensure_sasl_lines(lines(&["myhostname = mail"]), "tls");
    assert!(changed);
    assert_eq!(
        out,
        lines(&[
            "myhostname = mail",
            "smtp_sasl_auth_enable = yes",
            "smtp_sasl_password_maps = hash:/etc/postfix/sasl_passwd",
            "smtp_sasl_security_options = noanonymous",
            "smtp_tls_security_level = encrypt"
        ])
    );
    let (again, changed) = ensure_sasl_lines(out.clone(), "tls");
    assert!(!changed);
    assert_eq!(again, out);
    let (none, _) = ensure_sasl_lines(vec![], "none");
    assert_eq!(none.last().unwrap(), "smtp_tls_security_level = may");
}

#[test]
fn queue_ids_and_addresses() {
    assert!(queue_id_ok("4F2A1B3C9D"));
    assert!(!queue_id_ok("4F2A;rm"));
    assert!(queue_id_ok(""));
    assert_eq!(split_email("a@b@c"), Some(("a".to_string(), "b@c".to_string())));
    assert_eq!(split_email("nobody"), None);
    assert_eq!(dkim_dns_name("x.com"), "mail._domainkey.x.com");
}

#[test]
fn ip_bind_and_smarthost_plans() {
    let p = ip_bind_plan("x.com", "192.0.2.1", true).unwrap();
    assert_eq!(p.transport_prefix, "@x.com ");
    assert_eq!(p.transport_entry, "@x.com   smtp_bind:192.0.2.1");
    assert_eq!(p.bind_prefix, "192.0.2.1 ");
    assert_eq!(p.bind_entry, "192.0.2.1   inet_interfaces=192.0.2.1");
    assert!(matches!(ip_bind_plan("x.com", "nope", false), Err(MailError::BadRequest(ref m)) if m == "invalid ip_address: nope"));
    assert!(matches!(ip_bind_plan("", "192.0.2.1", true), Err(MailError::BadRequest(ref m)) if m == "domain is required"));
    let s = smarthost_plan("x.com", "relay.net", 587, Some("u"), Some("pw")).unwrap();
    assert_eq!(s.relay, "smtp:[relay.net]:587");
    assert_eq!(s.transport_entry, "x.com smtp:[relay.net]:587");
    assert_eq!(s.sasl, Some(("[relay.net]:587 ".to_string(), "[relay.net]:587 u:pw".to_string())));
    assert_eq!(smarthost_plan("x.com", "relay.net", 25, Some("u"), None).unwrap().sasl, None);
    assert!(matches!(smarthost_plan("x.com", "relay.net", 0, None, None), Err(MailError::BadRequest(ref m)) if m == "port must be > 0"));
    assert!(matches!(smarthost_plan("x.com", "", 25, None, None), Err(MailError::BadRequest(ref m)) if m == "domain and host are required"));
}

#[test]
fn dkim_value_from_keygen_output() {
    assert_eq!(
        dkim_dns_value("selector\n  v=DKIM1; k=rsa; p=ABC  \nother\n"),
        "v=DKIM1; k=rsa; p=ABC"
    );
    assert_eq!(dkim_dns_value("  p=XYZ \n"), "p=XYZ");
}

#[test]
fn mailq_output_parsed() {
    let out = "-Queue ID-  --Size-- ----Arrival Time---- -Sender/Recipient-------\n4F2A1B3C9D     1234 Mon Jan  1 12:00:00  sender@x.com\n     (connect to mx.y.com timed out)\n                                         rcpt@y.com\n\n5A6B7C8D9E     99 Tue Feb 12 08:30:00  other@x.com\n                                         r2@z.com\n-- 2 Kbytes in 2 Requests.\n";
    let entries = parse_mailq(out);
    assert_eq!(entries.len(), 2);
    assert_eq!(entries[0].id, "4F2A1B3C9D");
    assert_eq!(entries[0].size, 1234);
    assert_eq!(entries[0].arrival_time, "Mon Jan  1 12:00:00");
    assert_eq!(entries[0].sender, "sender@x.com");
    assert_eq!(entries[0].recipients, vec!["rcpt@y.com".to_string()]);
    assert_eq!(entries[0].reason.as_deref(), Some("(connect to mx.y.com timed out)"));
    assert_eq!(entries[1].size, 99);
    assert_eq!(entries[1].arrival_time, "Tue Feb 12 08:30:00");
    assert_eq!(entries[1].sender, "other@x.com");
    assert_eq!(entries[1].recipients, vec!["r2@z.com".to_string()]);
    assert_eq!(entries[1].reason, None);
    assert!(parse_mailq("Mail queue is empty\n").is_empty());
}

#[test]
fn mailq_unmatched_entry_line_drops_its_entry() {
    // A queue id followed by `*` does not match the entry pattern: the entry
    // and its continuation lines are dropped.
    let out = "4F2A1B3C9D*    1234 Mon Jan  1 12:00:00  sender@x.com\n   rcpt@y.com\nAB12    7 Mon Jan  1 12:00:00  s@x.com\n";
    let entries = parse_mailq(out);
    assert_eq!(entries.len(), 1);
    assert_eq!(entries[0].id, "AB12");
    assert_eq!(entries[0].size, 7);
    assert!(entries[0].recipients.is_empty());
}
