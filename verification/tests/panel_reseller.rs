use jotti::panel::notifications::{notification_query, ListNotificationsQuery};
use jotti::panel::reseller::{
    already_registered, check_client_password, check_impersonation, check_new_package,
    check_package_unused, client_page, normalize_client_email, reseller_role, IMPERSONATION_SECONDS,
};

#[test]
fn reseller_roles_and_pages() {
    assert_eq!(reseller_role("admin"), Ok(true));
    assert_eq!(reseller_role("reseller"), Ok(false));
    assert_eq!(reseller_role("user"), Err("Admin or reseller role required".to_string()));
    assert_eq!(client_page(None, None), (100, 0));
    assert_eq!(client_page(Some(900), Some(20)), (500, 20));
    assert_eq!(client_page(Some(-3), None), (-3, 0));
}

#[test]
fn reseller_client_and_package_checks() {
    assert_eq!(check_client_password("123456789012"), Ok(()));
    assert_eq!(check_client_password("short"), Err("Password must be at least 12 characters".to_string()));
    assert_eq!(normalize_client_email("  Bob@Example.COM "), "bob@example.com");
    assert_eq!(already_registered("bob@example.com"), "Email bob@example.com is already registered");
    assert_eq!(check_new_package("Starter", 1), Ok(()));
    assert_eq!(check_new_package("  ", 5), Err("Package name is required".to_string()));
    assert_eq!(check_new_package("Starter", 0), Err("max_sites must be at least 1".to_string()));
    assert_eq!(check_package_unused(0), Ok(()));
    assert_eq!(
        check_package_unused(3),
        Err("Cannot delete package: 3 active subscriber(s) are assigned to it".to_string())
    );
    assert_eq!(check_impersonation("user"), Ok(()));
    assert_eq!(check_impersonation("admin"), Err("Cannot impersonate an admin account".to_string()));
    assert_eq!(IMPERSONATION_SECONDS, 60 * 60);
}

#[test]
fn notification_listing_query() {
    let q = ListNotificationsQuery { unread_only: None, limit: None };
    assert_eq!(notification_query(&q), (50, false));
    let q = ListNotificationsQuery { unread_only: Some(true), limit: Some(1000) };
    assert_eq!(notification_query(&q), (200, true));
}

use jotti::panel::plugins::{
    check_plugin_upload, is_plugin_field, plugin_archive_path, plugin_install_dir, plugin_requires_plan,
    MAX_PLUGIN_BYTES,
};

#[test]
fn plugin_uploads() {
    assert!(is_plugin_field("plugin"));
    assert!(is_plugin_field("file"));
    assert!(!is_plugin_field("archive"));
    assert_eq!(check_plugin_upload(&[0x1f, 0x8b, 0]), Ok(()));
    assert_eq!(check_plugin_upload(b"PK"), Err("Plugin file must be a .tar.gz archive".to_string()));
    assert_eq!(check_plugin_upload(&[0x1f]), Err("Plugin file must be a .tar.gz archive".to_string()));
    let big = vec![0x1fu8; MAX_PLUGIN_BYTES + 1];
    assert_eq!(check_plugin_upload(&big), Err("Plugin archive must be ≤ 50 MB".to_string()));
    assert_eq!(MAX_PLUGIN_BYTES, 50 * 1024 * 1024);
    let dir = plugin_install_dir("seo-tools");
    assert_eq!(dir, "/var/jotticp/plugins/seo-tools");
    assert_eq!(plugin_archive_path(&dir, "p.tar.gz"), "/var/jotticp/plugins/seo-tools/p.tar.gz");
    assert_eq!(plugin_requires_plan(None), "community");
    assert_eq!(plugin_requires_plan(Some("pro")), "pro");
}

use jotti::panel::host::{cpu_times, host_memory_mb, process_count};

#[test]
fn host_statistics_from_proc() {
    let meminfo = "MemTotal:       8192000 kB\nMemFree:        1024000 kB\nMemAvailable:   4096000 kB\nBuffers: 1 kB\n";
    assert_eq!(host_memory_mb(meminfo), (8000, 4000, 1000));
    assert_eq!(host_memory_mb("MemTotal: 1024 kB\nMemAvailable: 4096 kB\n"), (1, 0, 0));
    assert_eq!(host_memory_mb(""), (0, 0, 0));
    let stat = "cpu  100 5 50 800 20 0 3 0 0 0\ncpu0 1 2 3 4 5 6 7 8\n";
    assert_eq!(cpu_times(stat), (978, 820));
    assert_eq!(cpu_times("cpu 1 x 2\n"), (3, 0));
    assert_eq!(cpu_times(""), (0, 0));
    assert_eq!(process_count("0.52 0.58 0.59 3/412 12345\n"), 412);
    assert_eq!(process_count("0.52 0.58 0.59\n"), 0);
    assert_eq!(process_count("1 2 3 4/x 5"), 0);
}

use jotti::panel::plugins::plugin_manifest_text;

fn plugin_tgz(files: &[(&str, &[u8])]) -> Vec<u8> {
    let mut b = tar::Builder::new(Vec::new());
    for (name, data) in files {
        let mut h = tar::Header::new_gnu();
        h.set_size(data.len() as u64);
        h.set_mode(0o644);
        h.set_cksum();
        b.append_data(&mut h, name, *data).unwrap();
    }
    let tar = b.into_inner().unwrap();
    let mut enc = flate2::write::GzEncoder::new(Vec::new(), flate2::Compression::default());
    std::io::Write::write_all(&mut enc, &tar).unwrap();
    enc.finish().unwrap()
}

#[test]
fn plugin_manifest_is_read_from_the_archive() {
    let toml = b"[plugin]\nslug = \"hello\"\n";
    let a = plugin_tgz(&[("README.md", b"hi"), ("pkg/jotti-plugin.toml", toml), ("jotti-plugin.toml", b"x")]);
    assert_eq!(plugin_manifest_text(&a), Ok("[plugin]\nslug = \"hello\"\n".to_string()));
    let none = plugin_tgz(&[("README.md", b"hi")]);
    assert_eq!(plugin_manifest_text(&none), Err("jotti-plugin.toml not found in archive root".to_string()));
    let bad = plugin_tgz(&[("jotti-plugin.toml", &[0xff, 0xfe])]);
    assert_eq!(plugin_manifest_text(&bad), Err("stream did not contain valid UTF-8".to_string()));
    assert!(plugin_manifest_text(b"not gzip").is_err());
}
