use jotti::panel::apps::{already_installed, check_app_id, check_site_active};
use jotti::panel::apps::{
    builtin_app_manifests, fill_port, fill_random_hex, git_init_commands, install_shell_command,
    verify_archive_signature, InstallMethod,
};
use jotti::panel::backups::{
    check_backup_settings, check_backup_type, check_restore, BackupSettingsRequest, RestoreRequest,
    TriggerBackupRequest,
};
use jotti::panel::branding::{is_image_bytes, is_valid_domain, is_valid_hex_color, logo_path_to_url};
use jotti::panel::cloudflare::{
    check_token_fields, decrypt_token, encrypt_token, sync_action, sync_message, sync_tally, CfRecord,
    ZoneRecord,
};
use jotti::panel::databases::{is_strong_password, is_valid_db_name};

#[test]
fn install_methods_and_commands() {
    assert_eq!(InstallMethod::from_str("composer"), InstallMethod::Composer);
    assert_eq!(InstallMethod::from_str("npx"), InstallMethod::Npx);
    assert_eq!(InstallMethod::from_str("pip"), InstallMethod::Pip);
    assert_eq!(InstallMethod::from_str("npm"), InstallMethod::Npm);
    assert_eq!(InstallMethod::from_str("zip"), InstallMethod::Archive);
    assert_eq!(
        install_shell_command(InstallMethod::Composer, "alice", "create-project laravel/laravel .").unwrap(),
        "sudo -u alice composer create-project laravel/laravel . --working-dir=/home/alice/public_html"
    );
    assert_eq!(
        install_shell_command(InstallMethod::Npm, "alice", "install").unwrap(),
        "sudo -u alice bash -c \"source /home/alice/.nvm/nvm.sh && cd /home/alice && npm install\""
    );
    assert_eq!(
        install_shell_command(InstallMethod::Pip, "alice", "pip install django").unwrap(),
        "sudo -u alice bash -c \"source /home/alice/.venv/bin/activate && pip install django\""
    );
    assert_eq!(
        install_shell_command(InstallMethod::Archive, "alice", "x").err().as_deref(),
        Some("Archive method should be handled by the existing installer engine, not dispatch_app_install_by_method()")
    );
    assert_eq!(
        git_init_commands(InstallMethod::Composer, "alice"),
        vec![
            "sudo -u alice git -C /home/alice/public_html init",
            "sudo -u alice git -C /home/alice/public_html add -A",
            "sudo -u alice git -C /home/alice/public_html commit -m \"Initial JottiCP install\""
        ]
    );
    assert_eq!(git_init_commands(InstallMethod::Npx, "bob")[0], "sudo -u bob git -C /home/bob init");
}

#[test]
fn manifest_placeholders() {
    assert_eq!(fill_port("uvicorn --port PORT; echo PORT", 8123), "uvicorn --port 8123; echo 8123");
    assert_eq!(fill_random_hex("no secret here"), "no secret here");
    let filled = fill_random_hex("KEY=RANDOM_32BYTES_HEX");
    assert!(filled.starts_with("KEY="));
    assert_eq!(filled.len(), 4 + 64);
    assert!(filled[4..].chars().all(|c| c.is_ascii_hexdigit() && !c.is_ascii_uppercase()));
    assert_ne!(fill_random_hex("RANDOM_32BYTES_HEX"), "RANDOM_32BYTES_HEX");
}

#[test]
fn builtin_app_list() {
    let apps = builtin_app_manifests();
    assert_eq!(apps.len(), 17);
    assert_eq!(apps[0].id, "wordpress");
    assert_eq!(apps[0].name, "WordPress");
    assert_eq!(apps[16].id, "n8n");
    assert!(apps.iter().all(|a| a.version == "latest" && a.icon_url.is_none() && !a.requires_pro));
}

#[test]
fn archive_signature_checks() {
    assert!(verify_archive_signature(b"data", "zz", "00").is_err());
    assert_eq!(
        verify_archive_signature(b"data", "0011", "00").err().as_deref(),
        Some("pubkey must be exactly 32 bytes")
    );
    // The Ed25519 base point is a valid key; a 1-byte signature is refused.
    let key = "5866666666666666666666666666666666666666666666666666666666666666";
    assert_eq!(
        verify_archive_signature(b"data", key, "00").err().as_deref(),
        Some("signature must be exactly 64 bytes")
    );
    // A well-formed but wrong signature does not verify.
    assert!(verify_archive_signature(b"data", key, &"00".repeat(64)).is_err());
}

#[test]
fn backup_request_checks() {
    assert_eq!(check_backup_type(&TriggerBackupRequest { backup_type: "full".into() }), Ok(()));
    assert_eq!(
        check_backup_type(&TriggerBackupRequest { backup_type: "all".into() }),
        Err("type must be one of: full, files, database".to_string())
    );
    let same = RestoreRequest { target: "same".into(), new_domain: None };
    assert_eq!(check_restore("completed", &same), Ok(()));
    assert_eq!(
        check_restore("running", &same),
        Err("Cannot restore backup with status 'running'. Only completed backups can be restored.".to_string())
    );
    assert_eq!(
        check_restore("completed", &RestoreRequest { target: "elsewhere".into(), new_domain: None }),
        Err("target must be one of: same, new_site".to_string())
    );
    assert_eq!(
        check_restore("completed", &RestoreRequest { target: "new_site".into(), new_domain: None }),
        Err("new_domain is required when target is 'new_site'".to_string())
    );
    assert_eq!(
        check_restore("completed", &RestoreRequest { target: "new_site".into(), new_domain: Some("Shop.Example.COM".into()) }),
        Ok(())
    );
    assert_eq!(
        check_restore("completed", &RestoreRequest { target: "new_site".into(), new_domain: Some("not a domain".into()) }),
        Err("new_domain is not a valid domain name".to_string())
    );
}

fn settings() -> BackupSettingsRequest {
    BackupSettingsRequest {
        daily_time: None,
        retention_days: None,
        retention_weeks: None,
        destination: None,
        s3_bucket: None,
        s3_region: None,
        s3_access_key: None,
        s3_secret_key: None,
        sftp_host: None,
        sftp_user: None,
        sftp_path: None,
    }
}

#[test]
fn backup_settings_checks() {
    assert_eq!(check_backup_settings(&settings()), Ok(()));
    let mut s = settings();
    s.destination = Some("ftp".into());
    assert_eq!(check_backup_settings(&s), Err("destination must be one of: local, s3, sftp".to_string()));
    let mut s = settings();
    s.destination = Some("s3".into());
    assert_eq!(check_backup_settings(&s), Err("s3_bucket is required when destination is 's3'".to_string()));
    s.s3_bucket = Some("b".into());
    assert_eq!(check_backup_settings(&s), Ok(()));
    let mut s = settings();
    s.destination = Some("sftp".into());
    assert_eq!(check_backup_settings(&s), Err("sftp_host is required when destination is 'sftp'".to_string()));
    let mut s = settings();
    s.daily_time = Some("24:00".into());
    assert_eq!(check_backup_settings(&s), Err("daily_time must be in HH:MM format (24h)".to_string()));
    s.daily_time = Some("23:59".into());
    assert_eq!(check_backup_settings(&s), Ok(()));
    s.retention_days = Some(0);
    assert_eq!(check_backup_settings(&s), Err("retention_days must be between 1 and 365".to_string()));
    s.retention_days = Some(365);
    s.retention_weeks = Some(53);
    assert_eq!(check_backup_settings(&s), Err("retention_weeks must be between 1 and 52".to_string()));
}

#[test]
fn branding_checks() {
    assert!(is_image_bytes(&[0x89, 0x50, 0x4E, 0x47, 0x0D]));
    assert!(is_image_bytes(&[0xFF, 0xD8, 0xFF]));
    assert!(is_image_bytes(b"RIFF\0\0\0\0WEBPVP8 "));
    assert!(!is_image_bytes(b"GIF89a"));
    assert!(!is_image_bytes(&[0xFF, 0xD8]));
    assert!(is_valid_hex_color("#a1B2c3"));
    assert!(is_valid_hex_color(" #fff "));
    assert!(!is_valid_hex_color("#ffff"));
    assert!(!is_valid_hex_color("fff"));
    assert!(!is_valid_hex_color("#ggg"));
    assert_eq!(logo_path_to_url("/etc/jottiecp/branding/r1/logo.png"), "/api/v1/static/branding/r1/logo.png");
    assert!(is_valid_domain("Panel.Example.com"));
    assert!(!is_valid_domain("-bad.example.com"));
    assert!(!is_valid_domain("localhost"));
}

#[test]
fn database_names_and_passwords() {
    assert!(is_valid_db_name("shop_db1"));
    assert!(is_valid_db_name("_x"));
    assert!(is_valid_db_name("données"));
    assert!(!is_valid_db_name("1shop"));
    assert!(!is_valid_db_name("shop-db"));
    assert!(!is_valid_db_name(""));
    assert!(!is_valid_db_name(&"a".repeat(65)));
    assert!(is_strong_password("Abcdef1!"));
    assert!(!is_strong_password("Abcdef12"));
    assert!(!is_strong_password("abcdef1!"));
}

#[test]
fn token_cipher_round_trip() {
    assert_eq!(encrypt_token("tok", None), "HgAf");
    assert_eq!(encrypt_token("abc", Some("K")), "Kiko");
    assert_eq!(decrypt_token("HgAf", None), "tok");
    for t in ["", "cf-token-123", "ünïcödé"] {
        assert_eq!(decrypt_token(&encrypt_token(t, Some("secret")), Some("secret")), t);
        assert_eq!(decrypt_token(&encrypt_token(t, None), None), t);
    }
    // Text that is not base64 decrypts to nothing.
    assert_eq!(decrypt_token("***", None), "");
}

#[test]
fn cloudflare_token_fields() {
    let zone = "0123456789abcdef0123456789abcdef";
    assert_eq!(check_token_fields("main", "tok", zone), Ok(()));
    assert_eq!(check_token_fields(" ", "tok", zone), Err("label must be 1-128 characters".to_string()));
    assert_eq!(check_token_fields("main", "  ", zone), Err("api_token is required".to_string()));
    assert_eq!(check_token_fields("main", "tok", "xyz"), Err("zone_id must be a 32-char hex string".to_string()));
    assert_eq!(check_token_fields("main", "tok", "abc"), Err("zone_id must be a 32-char hex string".to_string()));
    assert_eq!(check_token_fields("main", "tok", "0123456789abcdef0123456789abcde"), Err("zone_id must be a 32-char hex string".to_string()));
}

#[test]
fn cloudflare_sync_actions() {
    let existing = vec![CfRecord { record_type: "A".into(), name: "www.x.com".into(), id: "r1".into() }];
    let rec = |t: &str, n: &str| ZoneRecord { record_type: t.into(), name: n.into(), content: "1.2.3.4".into(), ttl: 300, priority: None };
    let a = sync_action(&rec("A", "www"), "x.com", "z1", true, &existing).unwrap();
    assert_eq!(a.path, "/zones/z1/dns_records/r1");
    assert_eq!(a.name, "www.x.com");
    assert!(a.proxied);
    assert_eq!((a.record_type.as_str(), a.content.as_str(), a.ttl, a.priority), ("A", "1.2.3.4", 300, None));
    let mx = ZoneRecord { record_type: "MX".into(), name: "@".into(), content: "mail.x.com".into(), ttl: 1, priority: Some(10) };
    let m = sync_action(&mx, "x.com", "z1", true, &existing).unwrap();
    assert_eq!((m.ttl, m.priority, m.proxied), (1, Some(10), false));
    let b = sync_action(&rec("TXT", "@"), "x.com", "z1", true, &existing).unwrap();
    assert_eq!(b.path, "/zones/z1/dns_records");
    assert_eq!(b.name, "x.com");
    assert!(!b.proxied);
    assert!(sync_action(&rec("NS", "@"), "x.com", "z1", true, &existing).is_none());
    assert!(sync_action(&rec("SOA", "@"), "x.com", "z1", true, &existing).is_none());
    assert_eq!(sync_message(3, 1), "Synced 3 records to Cloudflare (1 errors)");
    assert_eq!(sync_tally(&vec![true, false, true, true]), (3, 1));
    assert_eq!(sync_tally(&vec![]), (0, 0));
}

use jotti::panel::databases::{
    check_db_limit, check_db_name, check_db_password, check_db_type, check_valkey_absent,
    db_manager_supported, db_user_name, valkey_db_name,
};

#[test]
fn panel_database_requests() {
    assert_eq!(check_db_type("postgresql"), Ok("postgres".to_string()));
    assert_eq!(check_db_type("mariadb"), Ok("mariadb".to_string()));
    assert_eq!(
        check_db_type("valkey"),
        Err("db_type must be one of: mysql, mariadb, postgres, ferretdb. Use /databases/valkey or /databases/surrealdb for those types.".to_string())
    );
    assert_eq!(check_db_name("shop"), Ok(()));
    assert_eq!(check_db_name("9x"), Err("db_name must be 1-64 chars, alphanumeric and underscores only".to_string()));
    assert_eq!(check_db_limit(4, 5), Ok(()));
    assert_eq!(check_db_limit(5, 5), Err("Site has reached the maximum of 5 databases".to_string()));
    assert_eq!(db_user_name("orbit_verylongdomain_example", "wordpress_db"), "orbit_orbit_verylongdo_wordpres");
    assert_eq!(db_user_name("u1", "db"), "orbit_u1_db");
    assert_eq!(valkey_db_name("orbit_shop_example_com"), "valkey_orbit_shop_examp");
    assert_eq!(check_valkey_absent(0), Ok(()));
    assert_eq!(check_valkey_absent(1), Err("Site already has a Valkey instance".to_string()));
    assert!(db_manager_supported("mysql"));
    assert!(!db_manager_supported("postgres"));
    assert_eq!(check_db_password("Str0ng!Password"), Ok(()));
    assert_eq!(check_db_password("Sh0rt!"), Err("Password must be at least 12 characters".to_string()));
    assert_eq!(
        check_db_password("alllowercase123"),
        Err("Password must contain at least one uppercase letter, one lowercase letter, one digit, and one special character".to_string())
    );
}

#[test]
fn app_install_requests() {
    let ids: Vec<String> = vec!["wordpress".into(), "ghost".into()];
    assert_eq!(check_app_id(&ids, "ghost"), Ok(()));
    assert_eq!(check_app_id(&ids, "drupal"), Err("Unknown app_id: drupal".to_string()));
    assert_eq!(check_site_active("a.com", Some("active")), Ok(()));
    assert_eq!(
        check_site_active("a.com", Some("suspended")),
        Err("Site 'a.com' is not active (status: Some(\"suspended\"))".to_string())
    );
    assert_eq!(check_site_active("a.com", None), Err("Site 'a.com' is not active (status: None)".to_string()));
    assert_eq!(already_installed("ghost"), "ghost is already installed on this site");
}

use jotti::panel::apps::{app_manifest_from, manifests_or_builtin, AppManifestFields};

fn fields(has_app: bool, id: Option<&str>) -> AppManifestFields {
    AppManifestFields {
        has_app,
        id: id.map(String::from),
        name: None,
        description: None,
        version: None,
        category: None,
        icon_url: None,
        requires_pro: None,
    }
}

#[test]
fn app_manifest_defaults() {
    let m = app_manifest_from(fields(true, Some("blog"))).unwrap();
    assert_eq!(m.id, "blog");
    assert_eq!(m.name, "blog");
    assert_eq!(m.description, "");
    assert_eq!(m.version, "latest");
    assert_eq!(m.category, "other");
    assert_eq!(m.icon_url, None);
    assert!(!m.requires_pro);
    let mut f = fields(true, Some("shop"));
    f.name = Some("Shop".into());
    f.version = Some("2.1".into());
    f.category = Some("ecommerce".into());
    f.icon_url = Some("/i.png".into());
    f.requires_pro = Some(true);
    let m = app_manifest_from(f).unwrap();
    assert_eq!((m.name.as_str(), m.version.as_str(), m.category.as_str()), ("Shop", "2.1", "ecommerce"));
    assert_eq!(m.icon_url.as_deref(), Some("/i.png"));
    assert!(m.requires_pro);
}

#[test]
fn app_manifest_needs_section_and_id() {
    assert!(app_manifest_from(fields(false, Some("blog"))).is_none());
    assert!(app_manifest_from(fields(true, None)).is_none());
    assert!(app_manifest_from(fields(true, Some(""))).is_none());
}

#[test]
fn manifests_fall_back_to_builtin() {
    let all = manifests_or_builtin(Vec::new());
    assert!(all.len() > 10);
    assert_eq!(all[0].id, "wordpress");
    let one = manifests_or_builtin(vec![app_manifest_from(fields(true, Some("x"))).unwrap()]);
    assert_eq!(one.len(), 1);
    assert_eq!(one[0].id, "x");
}
