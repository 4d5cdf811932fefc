use jotti::panel::filemanager::{
    order_entries, DirEntry, archive_format, entry_target, normalize_path, safe_resolve_new, zip_entry_target, ArchiveFormat,
    PathError,
};
use jotti::panel::git_deploy::{check_deploy_record, require_admin, DeployRecordError};
use jotti::panel::logs::{default_limit, log_files, SiteLogContext};
use jotti::panel::plugins::{check_slug, sanitize_slug};
use jotti::panel::runtimes::{
    previous_runtime_teardown, Teardown, node_action, node_status, nodejs_unit, runtime_plan, runtime_plan_for, systemctl_property,
    SetRuntimeRequest,
};
use jotti::panel::settings::{
    check_restart_service, license_plan, managed_services_list, parse_hardening, settings_update,
    smtp_test_result, OrbitEnv, UpdateSettingsRequest,
};
use jotti::panel::sites::{
    bool_true, check_clone_target, check_php_version, clone_db_name, clone_db_plan, clone_files_plan,
    clone_unix_user, check_switch_webserver, default_lines, default_log_type,
    default_plan, is_valid_domain, list_page, log_candidates, log_line_count, normalize_domain,
    preview_url, unix_user_for_site, validate_tags, SetTagsRequest,
};

#[test]
fn path_normalization() {
    assert_eq!(normalize_path("/home/a/./b/../c"), "/home/a/c");
    assert_eq!(normalize_path("/../x"), "/x");
    assert_eq!(normalize_path("a//b/"), "a/b");
    assert_eq!(safe_resolve_new("/home/u", "docs/new.txt"), Ok("/home/u/docs/new.txt".to_string()));
    assert_eq!(safe_resolve_new("/home/u", "/docs/../x"), Ok("/home/u/x".to_string()));
    assert_eq!(safe_resolve_new("/home/u", "../v/x"), Err(PathError::Traversal));
    assert_eq!(safe_resolve_new("/home/u", "a/../../../etc"), Err(PathError::Traversal));
}

#[test]
fn extraction_targets() {
    assert_eq!(archive_format("/home/u/site.TAR.GZ"), Ok(ArchiveFormat::TarGz));
    assert_eq!(archive_format("x.tgz"), Ok(ArchiveFormat::TarGz));
    assert_eq!(archive_format("x.zip"), Ok(ArchiveFormat::Zip));
    assert_eq!(
        archive_format("x.rar").err().as_deref(),
        Some("Unsupported archive format. Supported: .tar.gz, .tgz, .zip")
    );
    assert_eq!(entry_target("/home/u/out", "/home/u/out", "a/b.txt").as_deref(), Some("/home/u/out/a/b.txt"));
    assert_eq!(entry_target("/home/u/out", "/home/u/out", "../../etc/passwd"), None);
    assert_eq!(entry_target("/home/u/out", "/home/u/out", "/etc/passwd"), None);
    assert_eq!(entry_target("/home/u/out", "/home/u", "../x"), Some("/home/u/x".to_string()));
    assert_eq!(zip_entry_target("/home/u/out", "/home/u", "a\0b"), None);
    assert_eq!(zip_entry_target("/home/u/out", "/home/u", "a/b").as_deref(), Some("/home/u/out/a/b"));
}

#[test]
fn deploy_records() {
    let sha1 = "0123456789abcdef0123456789abcdef01234567";
    assert_eq!(check_deploy_record(Some("tok"), Some("Bearer tok"), &format!(" {} ", sha1)), Ok(sha1.to_string()));
    assert_eq!(check_deploy_record(Some("tok"), Some("Bearer nope"), sha1), Err(DeployRecordError::Unauthorized));
    assert_eq!(check_deploy_record(None, Some("Bearer tok"), sha1), Err(DeployRecordError::Unauthorized));
    assert_eq!(check_deploy_record(Some(""), Some("Bearer "), sha1), Err(DeployRecordError::Unauthorized));
    assert_eq!(
        check_deploy_record(Some("tok"), Some("Bearer tok"), "abc"),
        Err(DeployRecordError::Validation("commit hash must be a 40- or 64-character hex string".to_string()))
    );
    assert!(check_deploy_record(Some("tok"), Some("Bearer tok"), &"a".repeat(64)).is_ok());
    assert_eq!(require_admin("admin"), Ok(()));
    assert_eq!(require_admin("user"), Err("admin role required".to_string()));
}

#[test]
fn log_file_lists() {
    assert_eq!(default_limit(), 500);
    let site = SiteLogContext { unix_user: "u".into(), domain: "d.com".into(), php_version: "8.3".into() };
    assert_eq!(log_files("error", Some(&site), false).unwrap(), vec!["/home/u/logs/error.log", "/var/log/nginx/d.com-error.log"]);
    assert_eq!(log_files("php", Some(&site), false).unwrap(), vec!["/home/u/logs/php-error.log", "/var/log/php8.3-fpm.log"]);
    assert_eq!(log_files("other", Some(&site), false).unwrap(), vec!["/home/u/logs/access.log", "/var/log/nginx/d.com-access.log"]);
    assert_eq!(log_files("firewall", None, true).unwrap(), vec!["/var/log/ufw.log", "/var/log/fail2ban.log"]);
    assert_eq!(log_files("mail", None, true).unwrap(), vec!["/var/log/mail.log"]);
    assert_eq!(log_files("mail", None, false), Err("System logs require admin role".to_string()));
}

#[test]
fn plugin_slugs() {
    assert_eq!(sanitize_slug("  My-Plugin_2 ").unwrap(), "my-plugin_2");
    assert_eq!(sanitize_slug("").err().as_deref(), Some("Plugin slug must be 1–64 characters"));
    assert_eq!(
        sanitize_slug("bad/slug").err().as_deref(),
        Some("Plugin slug must contain only letters, digits, hyphens, and underscores")
    );
    assert_eq!(sanitize_slug("-lead").err().as_deref(), Some("Invalid plugin slug"));
    assert_eq!(check_slug("ok".to_string()), Ok("ok".to_string()));
    assert!(check_slug("x".repeat(65)).is_err());
}

#[test]
fn runtime_switches() {
    let p = runtime_plan_for("python".into(), None, None).unwrap();
    assert_eq!((p.runtime.as_str(), p.version.as_str(), p.entry_point.as_str()), ("python", "3.12", "main:app"));
    let p = runtime_plan_for("nodejs".into(), Some("".into()), None).unwrap();
    assert_eq!(p.version, "20");
    let p = runtime_plan_for("php".into(), None, Some("x".into())).unwrap();
    assert_eq!(p.version, "latest");
    assert_eq!(
        runtime_plan_for("ruby".into(), None, None).err().as_deref(),
        Some("runtime must be one of: php, nodejs, python")
    );
    assert_eq!(
        runtime_plan_for("nodejs".into(), Some("20; rm".into()), None).err().as_deref(),
        Some("version must be digits and dots only (e.g. \"3.12\", \"20\"); got \"20; rm\"")
    );
    assert_eq!(
        runtime_plan_for("python".into(), None, Some("app".into())).err().as_deref(),
        Some("entry_point must be 'module:callable' (e.g. 'main:app'); got: \"app\"")
    );
    let req = SetRuntimeRequest { runtime: "PYTHON".into(), version: Some("3.11".into()), entry_point: Some("wsgi:application".into()) };
    let p = runtime_plan(&req).unwrap();
    assert_eq!((p.runtime.as_str(), p.version.as_str(), p.entry_point.as_str()), ("python", "3.11", "wsgi:application"));
}

#[test]
fn node_process_helpers() {
    assert_eq!(nodejs_unit("a.com"), "jotticp-nodejs-a.com");
    assert_eq!(node_action("start"), Ok("start"));
    assert_eq!(node_action("restart"), Ok("restart"));
    assert_eq!(node_action("kill"), Err("action must be: start, stop, restart".to_string()));
    assert_eq!(node_status("active", "running"), "online");
    assert_eq!(node_status("active", "exited"), "exited");
    assert_eq!(node_status("failed", "x"), "errored");
    assert_eq!(node_status("inactive", "dead"), "stopped");
    assert_eq!(node_status("activating", "start"), "activating");
    let out = "MainPID=0\nActiveState = active\nMainPID=1234\n";
    assert_eq!(systemctl_property(out, "MainPID").as_deref(), Some("1234"));
    assert_eq!(systemctl_property(out, "ActiveState").as_deref(), Some("active"));
    assert_eq!(systemctl_property(out, "Nope"), None);
}

fn empty_settings() -> UpdateSettingsRequest {
    UpdateSettingsRequest {
        panel_domain: None,
        admin_email: None,
        smtp_from: None,
        max_upload_mb: None,
        default_web_server: None,
        maintenance_mode: None,
        registration_open: None,
        default_php: None,
        language: None,
        timezone: None,
        date_format: None,
    }
}

#[test]
fn settings_updates_in_order() {
    let u = settings_update(&empty_settings());
    assert!(u.writes.is_empty());
    assert_eq!(u.error, None);
    let mut r = empty_settings();
    r.admin_email = Some("a@x.com".into());
    r.max_upload_mb = Some(64);
    r.maintenance_mode = Some(true);
    r.language = Some("fr".into());
    r.default_php = Some("8.3".into());
    let u = settings_update(&r);
    assert_eq!(u.error, None);
    assert_eq!(
        u.writes,
        vec![
            ("admin_email".to_string(), "a@x.com".to_string()),
            ("max_upload_mb".to_string(), "64".to_string()),
            ("maintenance_mode".to_string(), "true".to_string()),
            ("language".to_string(), "fr".to_string()),
            ("default_php".to_string(), "8.3".to_string()),
        ]
    );
    // The first invalid field stops the update after the writes before it.
    r.language = Some("xx".into());
    let u = settings_update(&r);
    assert_eq!(u.error.as_deref(), Some("Invalid language"));
    assert_eq!(u.writes.len(), 3);
    let mut r = empty_settings();
    r.max_upload_mb = Some(0);
    assert_eq!(settings_update(&r).error.as_deref(), Some("max_upload_mb must be 1–10240"));
    let mut r = empty_settings();
    r.smtp_from = Some("nobody".into());
    assert_eq!(settings_update(&r).error.as_deref(), Some("Invalid smtp_from email"));
    let mut r = empty_settings();
    r.default_web_server = Some("iis".into());
    assert_eq!(
        settings_update(&r).error.as_deref(),
        Some("default_web_server must be ols, nginx, apache, or lse")
    );
    let mut r = empty_settings();
    r.admin_email = Some("bad".into());
    r.timezone = Some("UTC".into());
    let u = settings_update(&r);
    assert_eq!(u.error.as_deref(), Some("Invalid admin email"));
    assert!(u.writes.is_empty());
}

#[test]
fn hardening_file_parsed() {
    let content = "# comment\nnet.ipv4.ip_forward = 0\n\nkernel.kptr_restrict=2\nnet.ipv4.ip_forward=1\nnot a setting\n";
    let mut got = parse_hardening(content);
    got.sort();
    assert_eq!(
        got,
        vec![
            ("kernel.kptr_restrict".to_string(), "2".to_string()),
            ("net.ipv4.ip_forward".to_string(), "1".to_string()),
        ]
    );
    assert!(parse_hardening("").is_empty());
}

#[test]
fn managed_services() {
    let list = managed_services_list();
    assert_eq!(list.len(), 9);
    assert_eq!(list[0], ("nginx", "Nginx"));
    assert_eq!(check_restart_service("nginx"), Ok(()));
    assert_eq!(
        check_restart_service("sshd"),
        Err("Service 'sshd' is not in the managed list".to_string())
    );
    assert_eq!(license_plan(OrbitEnv::Community), ("community", 3));
    assert_eq!(license_plan(OrbitEnv::Pro), ("pro", 999));
    assert_eq!(license_plan(OrbitEnv::Enterprise), ("enterprise", 9999));
    let t = smtp_test_result();
    assert!(!t.success);
    assert_eq!(t.message, "SMTP test not yet configured — set SMTP_HOST in environment");
}

#[test]
fn site_defaults_and_names() {
    assert_eq!(default_plan(), "community");
    assert_eq!(default_log_type(), "access");
    assert_eq!(default_lines(), 200);
    assert!(bool_true());
    assert!(is_valid_domain("shop.example.com"));
    assert!(!is_valid_domain("Shop.Example.com"));
    assert!(!is_valid_domain("no_underscores.com"));
    assert_eq!(normalize_domain("  Shop.Example.COM "), "shop.example.com");
    assert_eq!(unix_user_for_site("shop.my-site.com"), "orbit_shop_my_site_com");
    assert_eq!(unix_user_for_site("a-very-long-domain-name.example.com"), "orbit_a_very_long_domain_name_");
    assert_eq!(preview_url("a.com", "192.0.2.1").preview_url, "http://a.com");
    assert_eq!(
        preview_url("a.com", "192.0.2.1").instructions,
        "Add this to your local /etc/hosts file to preview:\n192.0.2.1 a.com"
    );
}

#[test]
fn site_log_candidates() {
    assert_eq!(
        log_candidates("access", "a.com", "u", "8.3").unwrap(),
        vec!["/var/log/nginx/a.com-access.log", "/var/log/nginx/access-a.com.log", "/home/u/logs/access.log"]
    );
    assert_eq!(log_candidates("php", "a.com", "u", "8.3").unwrap()[3], "/var/log/php8.3-fpm.log");
    assert_eq!(log_candidates("app", "a.com", "u", "8.3").unwrap()[1], "/home/u/public_html/storage/logs/laravel.log");
    assert_eq!(
        log_candidates("audit", "a.com", "u", "8.3").err().as_deref(),
        Some("type must be access, error, php, or app")
    );
    assert_eq!(log_line_count(1), 10);
    assert_eq!(log_line_count(300), 300);
    assert_eq!(log_line_count(99999), 5000);
}

#[test]
fn site_list_pages() {
    let p = list_page(None, None, None, None);
    assert_eq!((p.limit, p.offset), (100, 0));
    let p = list_page(Some(50), Some(3), None, None);
    assert_eq!((p.limit, p.offset), (50, 100));
    let p = list_page(Some(9999), Some(0), Some(0), Some(-5));
    assert_eq!((p.limit, p.offset), (1, 0));
    let p = list_page(Some(10), Some(2), Some(700), Some(7));
    assert_eq!((p.limit, p.offset), (500, 7));
}

#[test]
fn site_tags_and_switches() {
    assert_eq!(validate_tags(&SetTagsRequest { tags: vec!["prod".into(), "eu-1".into()] }), Ok(()));
    assert_eq!(
        validate_tags(&SetTagsRequest { tags: vec!["ok".into(), "bad tag".into(), "".into()] }),
        Err("Tag 'bad tag' contains invalid characters".to_string())
    );
    assert_eq!(
        validate_tags(&SetTagsRequest { tags: vec!["".into()] }),
        Err("Each tag must be 1-32 characters".to_string())
    );
    assert_eq!(
        validate_tags(&SetTagsRequest { tags: (0..21).map(|i| format!("t{}", i)).collect() }),
        Err("Maximum 20 tags allowed".to_string())
    );
    assert_eq!(check_switch_webserver(true, "nginx", "a.com", "u"), Ok(()));
    assert_eq!(check_switch_webserver(false, "nginx", "a.com", "u"), Err("Admin access required".to_string()));
    assert_eq!(
        check_switch_webserver(true, "iis", "a.com", "u"),
        Err("web_server must be nginx, apache, or ols".to_string())
    );
    assert_eq!(
        check_switch_webserver(true, "ols", "../a.com", "u"),
        Err("Invalid domain or unix_user".to_string())
    );
    assert_eq!(check_php_version("8.3"), Ok(()));
    assert_eq!(check_php_version("9.0"), Err("Invalid PHP version: 9.0".to_string()));
}

#[test]
fn clone_target_checks() {
    assert_eq!(check_clone_target("copy.example.com", false), Ok(()));
    assert_eq!(
        check_clone_target("copy.example.com", true),
        Err("Domain 'copy.example.com' is already in use".to_string())
    );
    assert_eq!(check_clone_target("Not A Domain", false), Err("Invalid target domain".to_string()));
    assert_eq!(check_clone_target("nodot", true), Err("Invalid target domain".to_string()));
}

#[test]
fn clone_user_and_database_names() {
    // SHA-256 of "abc" begins ba7816bf.
    assert_eq!(clone_unix_user("abc"), "sba7816bf");
    let h = hex::encode(<sha2::Sha256 as sha2::Digest>::digest(b"copy.example.com"));
    assert_eq!(clone_unix_user("copy.example.com"), format!("s{}", &h[..8]));
    assert_ne!(clone_unix_user("copy.example.com"), clone_unix_user("copy2.example.com"));
    assert_eq!(clone_db_name("s1234abcd", "sdeadbeef_wp"), "s1234abcd_wp");
    assert_eq!(clone_db_name("s1", "a_b_c"), "s1_c");
    assert_eq!(clone_db_name("s1", "plain"), "s1_plain");
    assert_eq!(clone_db_name("s1", "trail_"), "s1_");
    assert_eq!(clone_db_name("s1", ""), "s1_");
}

#[test]
fn clone_plans() {
    let f = clone_files_plan("saaaa1111", "sbbbb2222");
    assert_eq!(f.useradd_args, vec!["-m", "-d", "/home/sbbbb2222", "-s", "/sbin/nologin", "sbbbb2222"]);
    assert_eq!(f.dst_docroot, "/home/sbbbb2222/public_html");
    assert_eq!(
        f.rsync_args,
        vec!["-a", "--delete", "/home/saaaa1111/public_html/", "/home/sbbbb2222/public_html"]
    );
    assert_eq!(f.chown_args, vec!["-R", "sbbbb2222:sbbbb2222", "/home/sbbbb2222"]);
    let d = clone_db_plan("sbbbb2222", "saaaa1111_wp", "old.example.com", "new.example.com");
    assert_eq!(d.dst_db, "sbbbb2222_wp");
    assert_eq!(d.dump_args, vec!["--single-transaction", "saaaa1111_wp"]);
    assert_eq!(d.create_sql, "CREATE DATABASE IF NOT EXISTS `sbbbb2222_wp`");
    assert_eq!(
        d.replace_sql,
        "UPDATE wp_options SET option_value = REPLACE(option_value, 'old.example.com', 'new.example.com') WHERE option_name IN ('siteurl','home');"
    );
}

fn dir_entry(name: &str, is_dir: bool) -> DirEntry {
    DirEntry {
        name: name.to_string(),
        path: format!("/{}", name),
        is_dir,
        size: 0,
        modified_at: String::new(),
        permissions: "0644".to_string(),
        owner: String::new(),
    }
}

#[test]
fn listing_puts_directories_first_then_names() {
    let v = vec![
        dir_entry("zeta.txt", false),
        dir_entry("logs", true),
        dir_entry("Alpha.txt", false),
        dir_entry("alpha.txt", false),
        dir_entry("alp", false),
        dir_entry("cache", true),
        dir_entry("\u{e9}t\u{e9}", false),
    ];
    let names: Vec<(String, bool)> = order_entries(v).into_iter().map(|e| (e.name, e.is_dir)).collect();
    assert_eq!(
        names,
        vec![
            ("cache".to_string(), true),
            ("logs".to_string(), true),
            ("Alpha.txt".to_string(), false),
            ("alp".to_string(), false),
            ("alpha.txt".to_string(), false),
            ("zeta.txt".to_string(), false),
            ("\u{e9}t\u{e9}".to_string(), false),
        ]
    );
    assert!(order_entries(Vec::new()).is_empty());
}

#[test]
fn switching_runtimes_tears_down_the_previous_one() {
    assert_eq!(previous_runtime_teardown(&None, "nodejs"), Teardown::Nothing);
    assert_eq!(previous_runtime_teardown(&Some("php".to_string()), "python"), Teardown::Nothing);
    assert_eq!(previous_runtime_teardown(&Some("php".to_string()), "php"), Teardown::Nothing);
    assert_eq!(previous_runtime_teardown(&Some("nodejs".to_string()), "nodejs"), Teardown::RemoveVhost);
    assert_eq!(previous_runtime_teardown(&Some("python".to_string()), "nodejs"), Teardown::Deprovision);
    assert_eq!(previous_runtime_teardown(&Some("nodejs".to_string()), "php"), Teardown::Deprovision);
}
