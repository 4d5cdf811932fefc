use jotti::panel::admin_ip::{admin_gate, allowlist_addresses};
use jotti::panel::auth::{hash_backup_code, hash_password, use_backup_code, verify_backup_code, verify_password};
use jotti::panel::access::{remove_authorized_key, sftp_config_update};
use jotti::panel::access::{
    crypt_password_ok, extract_key_data, ftp_quota_arg, key_id_from_data, key_line,
    parse_authorized_key_line, sanitize_key_label, validate_ftp_username, validate_home_subdir,
    validate_ssh_key,
};
use jotti::panel::admin_ip::{
    admin_ip_check, allowlist_entries, ip_in_cidr, ip_in_network, split_cidr, AllowEntry, IpAddress,
};
use jotti::panel::auth::{
    login, logout_ttl, provisioning_uri, second_step_allowed, url_encode,
    LoginAccount, LoginDecision,
};

const ED_KEY: &str = "ssh-ed25519 AAAAC3NzaC1lZDI1NTE5AAAAIGtest user@host";

#[test]
fn ssh_key_checks() {
    assert_eq!(validate_ssh_key(ED_KEY), Ok(()));
    assert_eq!(validate_ssh_key("  ssh-rsa AAAAB3 x  "), Ok(()));
    assert_eq!(
        validate_ssh_key("ssh-dss AAAA"),
        Err("Public key must start with ssh-rsa, ssh-ed25519, or ecdsa-sha2-*".to_string())
    );
    assert_eq!(validate_ssh_key("ssh-rsa"), Err("Invalid SSH public key format".to_string()));
    assert_eq!(validate_ssh_key("ssh-rsa  x"), Err("Invalid SSH public key format".to_string()));
    assert_eq!(
        validate_ssh_key("ssh-rsa AAAA; rm -rf /"),
        Err("SSH key contains invalid characters".to_string())
    );
}

#[test]
fn ssh_key_fields_and_ids() {
    assert_eq!(extract_key_data(ED_KEY).as_deref(), Some("AAAAC3NzaC1lZDI1NTE5AAAAIGtest"));
    assert_eq!(extract_key_data("ssh-rsa").as_deref(), None);
    assert_eq!(key_id_from_data("AAAAC3NzaC1lZDI1NTE5AAAAIGtest"), "8ec67fd0a81b11cff35d08c3c7f389bc");
    assert_eq!(key_id_from_data("AAAA"), "63c1dd951ffedf6f7fd968ad4efa39b8");
}

#[test]
fn ssh_key_labels_and_lines() {
    assert_eq!(sanitize_key_label("  my;laptop$ "), "mylaptop");
    assert_eq!(sanitize_key_label(&"x".repeat(70)), "x".repeat(64));
    assert_eq!(key_line(ED_KEY, "work"), "ssh-ed25519 AAAAC3NzaC1lZDI1NTE5AAAAIGtest work");
    assert_eq!(key_line(&format!(" {} ", ED_KEY), ""), ED_KEY);
    assert_eq!(key_line("single", "work"), "single");
}

#[test]
fn authorized_keys_lines() {
    let (id, label, line) = parse_authorized_key_line(ED_KEY).unwrap();
    assert_eq!(id, "8ec67fd0a81b11cff35d08c3c7f389bc");
    assert_eq!(label, "user@host");
    assert_eq!(line, ED_KEY);
    let (_, label, _) = parse_authorized_key_line("ssh-rsa AAAA").unwrap();
    assert_eq!(label, "ssh-rsa key");
    assert_eq!(parse_authorized_key_line("# comment"), None);
    assert_eq!(parse_authorized_key_line("   "), None);
    assert_eq!(parse_authorized_key_line("lonely"), None);
}

#[test]
fn ftp_checks() {
    assert_eq!(validate_ftp_username("site_ftp-1"), Ok(()));
    assert_eq!(validate_ftp_username("ab"), Err("FTP username must be 3-32 characters".to_string()));
    assert_eq!(
        validate_ftp_username("bad user"),
        Err("FTP username may only contain letters, numbers, underscores, and hyphens".to_string())
    );
    assert_eq!(validate_home_subdir("/public_html"), Ok(()));
    assert_eq!(validate_home_subdir("public_html"), Err("home_subdir must start with '/'".to_string()));
    assert_eq!(validate_home_subdir("/a/../b"), Err("home_subdir must not contain '..'".to_string()));
    assert!(validate_home_subdir("/a;b").is_err());
    assert!(crypt_password_ok("p@ss word"));
    assert!(!crypt_password_ok("pass\nword"));
    assert_eq!(ftp_quota_arg(100).as_deref(), Some("102400M"));
    assert_eq!(ftp_quota_arg(0), None);
    assert_eq!(ftp_quota_arg(-3), None);
}

fn v4(a: u8, b: u8, c: u8, d: u8) -> IpAddress {
    IpAddress::V4(u32::from_be_bytes([a, b, c, d]))
}

#[test]
fn networks_and_prefixes() {
    assert!(ip_in_network(v4(10, 1, 2, 3), v4(10, 0, 0, 0), 8));
    assert!(!ip_in_network(v4(11, 1, 2, 3), v4(10, 0, 0, 0), 8));
    assert!(ip_in_network(v4(10, 1, 2, 3), v4(10, 1, 2, 3), 32));
    assert!(!ip_in_network(v4(10, 1, 2, 4), v4(10, 1, 2, 3), 32));
    assert!(ip_in_network(v4(1, 2, 3, 4), v4(200, 0, 0, 0), 0));
    assert!(!ip_in_network(v4(1, 2, 3, 4), v4(1, 2, 3, 4), 33));
    assert!(!ip_in_network(v4(1, 2, 3, 4), IpAddress::V6(1), 0));
    let net6 = IpAddress::V6(0x2001_0db8u128 << 96);
    assert!(ip_in_network(IpAddress::V6((0x2001_0db8u128 << 96) | 5), net6, 32));
    assert!(!ip_in_network(IpAddress::V6(0x2001_0db9u128 << 96), net6, 32));
}

#[test]
fn allowlist_parsing_and_check() {
    assert_eq!(allowlist_entries(" 10.0.0.0/8, ,192.0.2.1,"), vec!["10.0.0.0/8", "192.0.2.1"]);
    assert_eq!(split_cidr("10.0.0.0/8"), ("10.0.0.0".to_string(), Some("8".to_string())));
    assert_eq!(split_cidr("192.0.2.1"), ("192.0.2.1".to_string(), None));
    let entries = vec![
        AllowEntry { addr: Some(v4(10, 0, 0, 0)), prefix: Some("8".to_string()) },
        AllowEntry { addr: Some(v4(192, 0, 2, 1)), prefix: None },
    ];
    assert!(ip_in_cidr(v4(10, 9, 9, 9), &entries[0]));
    assert!(!ip_in_cidr(v4(10, 9, 9, 9), &AllowEntry { addr: Some(v4(10, 0, 0, 0)), prefix: Some("x".to_string()) }));
    assert!(!ip_in_cidr(v4(10, 9, 9, 9), &AllowEntry { addr: None, prefix: Some("8".to_string()) }));
    assert!(admin_ip_check(v4(10, 9, 9, 9), "10.0.0.0/8,192.0.2.1", &entries));
    assert!(admin_ip_check(v4(192, 0, 2, 1), "10.0.0.0/8,192.0.2.1", &entries));
    assert!(!admin_ip_check(v4(192, 0, 2, 2), "10.0.0.0/8,192.0.2.1", &entries));
    // A blank allowlist lets every address through.
    assert!(admin_ip_check(v4(8, 8, 8, 8), "   ", &vec![]));
}

fn account(failed: i32, locked_until: Option<i64>, totp: bool) -> Option<LoginAccount> {
    Some(LoginAccount { failed_login_count: failed, locked_until, totp_enabled: totp })
}

#[test]
fn login_decisions() {
    let now = 1_000_000;
    assert_eq!(login(None, true, now), LoginDecision::UnknownAccount);
    assert_eq!(login(account(0, Some(now + 60), false), true, now), LoginDecision::Locked(60));
    assert_eq!(
        login(account(3, None, false), false, now),
        LoginDecision::BadPassword { failed_login_count: 4, locked_until: None }
    );
    // The tenth consecutive failure locks the account for 15 minutes.
    assert_eq!(
        login(account(9, None, false), false, now),
        LoginDecision::BadPassword { failed_login_count: 10, locked_until: Some(now + 900) }
    );
    // A lock that has run out no longer refuses.
    assert_eq!(
        login(account(10, Some(now - 1), false), true, now),
        LoginDecision::Success { totp_required: false, interim_exp: now + 120, session_exp: Some(now + 28800) }
    );
    assert_eq!(
        login(account(0, None, true), true, now),
        LoginDecision::Success { totp_required: true, interim_exp: now + 120, session_exp: None }
    );
    // A locked account is refused even with the right password.
    assert!(matches!(login(account(10, Some(now + 900), false), true, now), LoginDecision::Locked(900)));
}

#[test]
fn session_helpers() {
    assert_eq!(logout_ttl(150, 100), 50);
    assert_eq!(logout_ttl(100, 150), 0);
    assert!(second_step_allowed(false));
    assert!(!second_step_allowed(true));
}

#[test]
fn totp_provisioning_uri() {
    assert_eq!(url_encode("a b@c.d/é"), "a%20b%40c.d%2F%C3%A9");
    assert_eq!(url_encode("AZaz09-_.~"), "AZaz09-_.~");
    assert_eq!(
        provisioning_uri("me@x.com", "JBSWY3DP"),
        "otpauth://totp/JottiCP:me%40x.com?secret=JBSWY3DP&issuer=JottiCP"
    );
}

#[test]
fn refresh_tokens() {
    assert_eq!(jotti::panel::auth::refresh_key("abc"), "refresh:abc");
    assert_eq!(jotti::panel::auth::REFRESH_TOKEN_SECONDS, 30 * 86400);
}

#[test]
fn sftp_chroot_blocks() {
    let block = "\n# JottiCP SFTP chroot for site u1\nMatch User u1\n  ChrootDirectory /home/u1\n  ForceCommand internal-sftp\n  AllowTcpForwarding no\n  X11Forwarding no\n";
    let (once, changed) = sftp_config_update("# sshd\n", "u1");
    assert!(changed);
    assert_eq!(once, format!("# sshd\n{}", block));
    // Adding the same user again changes nothing.
    let (twice, changed) = sftp_config_update(&once, "u1");
    assert!(!changed);
    assert_eq!(twice, once);
    let (other, changed) = sftp_config_update(&once, "u2");
    assert!(changed);
    assert!(other.ends_with("Match User u2\n  ChrootDirectory /home/u2\n  ForceCommand internal-sftp\n  AllowTcpForwarding no\n  X11Forwarding no\n"));
}

#[test]
fn reported_key_labels() {
    assert_eq!(jotti::panel::access::reported_label("ssh-rsa AAAA me@host", "work"), "work");
    assert_eq!(jotti::panel::access::reported_label("ssh-rsa AAAA me@host", ""), "me@host");
    assert_eq!(jotti::panel::access::reported_label("ssh-rsa AAAA", ""), "ssh-rsa key");
    assert_eq!(jotti::panel::access::reported_label("ssh-rsa", ""), "ssh-rsa key");
}

#[test]
fn argon2_password_hashes() {
    let h = hash_password("correct horse").unwrap();
    assert!(h.starts_with("$argon2id$"));
    assert_eq!(verify_password("correct horse", &h), Ok(true));
    assert_eq!(verify_password("wrong horse", &h), Ok(false));
    assert!(verify_password("x", "not-a-hash").unwrap_err().starts_with("Invalid password hash in DB: "));
    assert!(!verify_backup_code("x", "not-a-hash"));
    let c = hash_backup_code("ABCD-1234").unwrap();
    assert!(verify_backup_code("ABCD-1234", &c));
    let stored = vec!["garbage".to_string(), c.clone(), "other".to_string()];
    assert_eq!(use_backup_code(stored.clone(), "ABCD-1234"), Some(vec!["garbage".to_string(), "other".to_string()]));
    assert_eq!(use_backup_code(stored, "WXYZ-0000"), None);
}

#[test]
fn authorized_key_removal() {
    let content = "ssh-ed25519 AAAA one\n# comment\n\nssh-rsa BBBB two\r\nssh-ed25519 AAAA again\n";
    let id = key_id_from_data("AAAA");
    assert_eq!(
        remove_authorized_key(content, &id),
        Some("# comment\n\nssh-rsa BBBB two\n".to_string())
    );
    assert_eq!(remove_authorized_key(content, "0123456789abcdef0123456789abcdef"), None);
    assert_eq!(remove_authorized_key("ssh-ed25519 AAAA one\n", &id), Some(String::new()));
    assert_eq!(remove_authorized_key("", &id), None);
    // A single-field line lists no key and is kept.
    assert_eq!(
        remove_authorized_key("AAAA\nssh-ed25519 AAAA x", &id),
        Some("AAAA\n".to_string())
    );
}

#[test]
fn admin_gate_decisions() {
    let list = " 203.0.113.0/24 , ,10.0.0.1";
    assert_eq!(allowlist_addresses(list), vec!["203.0.113.0".to_string(), "10.0.0.1".to_string()]);
    let addrs = vec![Some(v4(203, 0, 113, 0)), Some(v4(10, 0, 0, 1))];
    assert!(admin_gate(Some("admin"), list, &addrs, v4(203, 0, 113, 77)));
    assert!(admin_gate(Some("admin"), list, &addrs, v4(10, 0, 0, 1)));
    assert!(!admin_gate(Some("admin"), list, &addrs, v4(10, 0, 0, 2)));
    // Non-admin requests and blank lists always pass.
    assert!(admin_gate(Some("reseller"), list, &addrs, v4(10, 0, 0, 2)));
    assert!(admin_gate(None, list, &addrs, v4(10, 0, 0, 2)));
    assert!(admin_gate(Some("admin"), "  ", &vec![], v4(10, 0, 0, 2)));
    // An item whose address does not parse admits nothing.
    assert!(!admin_gate(Some("admin"), "bogus/8", &vec![None], v4(10, 0, 0, 2)));
}
