use std::io::Write;

use jotti::panel::migration::{
    check_archive_size, check_cpanel_upload, check_plesk_upload, cpanel_archive_path, cpanel_job_dir,
    cpanel_verdict, file_name, has_parent_component, is_gzip, is_zip, plesk_archive_path,
    plesk_takes_field, plesk_tar_verdict, plesk_zip_verdict, safe_filename, sanitize_name,
    validate_cpanel_archive, validate_plesk_archive, ArchiveSource, TarListing, MAX_ARCHIVE_BYTES,
};

/// A tar stream with one empty regular file per name; names are written
/// into the header as they are, so absolute and `..` paths can be made.
fn tar_bytes(names: &[&str]) -> Vec<u8> {
    let mut out = Vec::new();
    for name in names {
        let mut header = tar::Header::new_old();
        {
            let bytes = header.as_mut_bytes();
            bytes[..name.len()].copy_from_slice(name.as_bytes());
        }
        header.set_size(0);
        header.set_mode(0o644);
        header.set_entry_type(tar::EntryType::Regular);
        header.set_cksum();
        out.extend_from_slice(header.as_bytes());
    }
    out.extend_from_slice(&[0u8; 1024]);
    out
}

fn gzip(data: &[u8]) -> Vec<u8> {
    let mut enc = flate2::write::GzEncoder::new(Vec::new(), flate2::Compression::default());
    enc.write_all(data).unwrap();
    enc.finish().unwrap()
}

fn zip_bytes(names: &[&str]) -> Vec<u8> {
    let mut w = zip::ZipWriter::new(std::io::Cursor::new(Vec::new()));
    let opts = zip::write::SimpleFileOptions::default().compression_method(zip::CompressionMethod::Stored);
    for name in names {
        w.start_file(*name, opts).unwrap();
        w.write_all(b"x").unwrap();
    }
    w.finish().unwrap().into_inner()
}

#[test]
fn upload_size_limit() {
    assert_eq!(MAX_ARCHIVE_BYTES, 2 * 1024 * 1024 * 1024);
    assert_eq!(check_archive_size(ArchiveSource::Cpanel, MAX_ARCHIVE_BYTES), Ok(()));
    assert_eq!(
        check_archive_size(ArchiveSource::Cpanel, MAX_ARCHIVE_BYTES + 1),
        Err("Archive exceeds the maximum allowed size of 2 GB".to_string())
    );
    assert_eq!(
        check_archive_size(ArchiveSource::Plesk, MAX_ARCHIVE_BYTES + 1),
        Err("Archive too large (max 2 GB)".to_string())
    );
}

#[test]
fn magic_numbers() {
    assert!(is_gzip(&[0x1f, 0x8b, 8]));
    assert!(!is_gzip(&[0x1f]));
    assert!(is_zip(b"PK\x03\x04"));
    assert!(!is_zip(b"P"));
}

#[test]
fn stored_file_names() {
    assert_eq!(file_name("dir/sub/backup.tar.gz").as_deref(), Some("backup.tar.gz"));
    assert_eq!(file_name("backup.tar.gz/").as_deref(), Some("backup.tar.gz"));
    assert_eq!(file_name("a/./"), Some("a".to_string()));
    assert_eq!(file_name("../.."), None);
    assert_eq!(file_name("/"), None);
    assert_eq!(file_name(""), None);
    assert_eq!(sanitize_name("my backup (1).tar.gz"), "my_backup__1_.tar.gz");
    assert_eq!(safe_filename("../../etc/cron.d/evil sh"), "evil_sh");
    assert_eq!(safe_filename(".."), "archive.tar.gz");
    assert_eq!(safe_filename("C:\\x\\y.tgz"), "C__x_y.tgz");
    assert_eq!(safe_filename("résumé.tar.gz"), "r_sum_.tar.gz");
    for name in ["", ".", "..", "/", "a/..", "x/y/z"] {
        let s = safe_filename(name);
        assert!(!s.is_empty() && s != "." && s != ".." && !s.contains('/'));
    }
}

#[test]
fn job_paths() {
    assert_eq!(cpanel_job_dir("j1"), "/tmp/orbit-migration-j1");
    assert_eq!(cpanel_archive_path("j1", "a.tar.gz"), "/tmp/orbit-migration-j1/a.tar.gz");
    assert_eq!(plesk_archive_path("j2"), "/tmp/jottiecp_migration_j2.tar.gz");
    assert!(plesk_takes_field(Some("archive"), true));
    assert!(plesk_takes_field(Some("file"), true));
    assert!(!plesk_takes_field(Some("other"), true));
    assert!(plesk_takes_field(Some("other"), false));
    assert!(plesk_takes_field(None, false));
    assert!(!plesk_takes_field(None, true));
}

#[test]
fn parent_components() {
    assert!(has_parent_component(&"a/../b".chars().collect()));
    assert!(has_parent_component(&"..".chars().collect()));
    assert!(!has_parent_component(&"a/..b/c".chars().collect()));
    assert!(!has_parent_component(&"a/b".chars().collect()));
}

fn listing(paths: &[Result<&str, &str>], failure: Option<&str>) -> TarListing {
    TarListing {
        paths: paths.iter().map(|p| p.map(|s| s.to_string()).map_err(|s| s.to_string())).collect(),
        failure: failure.map(|s| s.to_string()),
    }
}

#[test]
fn cpanel_entry_verdicts() {
    assert_eq!(cpanel_verdict(&listing(&[Ok("cpmove-bob/homedir/x")], None)), Ok(true));
    assert_eq!(cpanel_verdict(&listing(&[Ok("random/file")], None)), Ok(false));
    assert_eq!(
        cpanel_verdict(&listing(&[Ok("homedir/"), Ok("/etc/passwd")], None)),
        Err("Archive contains absolute path '/etc/passwd' — potential zip-slip attack".to_string())
    );
    assert_eq!(
        cpanel_verdict(&listing(&[Ok("a/../../b")], None)),
        Err("Archive contains path traversal component '..': 'a/../../b'".to_string())
    );
    // Undecodable paths are passed over; a read error comes after the entries before it.
    assert_eq!(cpanel_verdict(&listing(&[Err("bad"), Ok("mysql/db.sql")], None)), Ok(true));
    assert_eq!(cpanel_verdict(&listing(&[Ok("meta/")], Some("unexpected EOF"))), Err("unexpected EOF".to_string()));
    assert_eq!(
        cpanel_verdict(&listing(&[Ok("/abs")], Some("unexpected EOF"))),
        Err("Archive contains absolute path '/abs' — potential zip-slip attack".to_string())
    );
}

#[test]
fn plesk_entry_verdicts() {
    assert_eq!(plesk_tar_verdict(&listing(&[Ok("x/backup_info.xml")], None)), Ok(true));
    assert_eq!(plesk_tar_verdict(&listing(&[Ok("other")], None)), Ok(false));
    assert_eq!(
        plesk_tar_verdict(&listing(&[Ok("a..b")], None)),
        Err("Archive contains path traversal component: 'a..b'".to_string())
    );
    assert_eq!(plesk_tar_verdict(&listing(&[Err("bad name")], None)), Err("Path error: bad name".to_string()));
    assert_eq!(plesk_tar_verdict(&listing(&[], Some("boom"))), Err("Tar entry error: boom".to_string()));
    assert_eq!(plesk_zip_verdict(&Ok(vec![None, Some("dump/backup_info.xml".to_string())])), Ok(true));
    assert_eq!(plesk_zip_verdict(&Ok(vec![Some("a".to_string())])), Ok(false));
    assert_eq!(plesk_zip_verdict(&Err("bad".to_string())), Err("ZIP read error: bad".to_string()));
}

#[test]
fn cpanel_archives_read_with_tar() {
    let good = gzip(&tar_bytes(&["cpmove-bob/", "cpmove-bob/homedir/index.html"]));
    assert_eq!(validate_cpanel_archive(&good), Ok(true));
    assert_eq!(check_cpanel_upload(&good), Ok(()));
    let other = gzip(&tar_bytes(&["site/index.html"]));
    assert_eq!(validate_cpanel_archive(&other), Ok(false));
    assert_eq!(
        check_cpanel_upload(&other),
        Err("This does not appear to be a valid cPanel backup archive. Expected a cPanel full backup (cpmove-*.tar.gz) or a cPanel account backup containing homedir/.".to_string())
    );
    let evil = gzip(&tar_bytes(&["homedir/", "../../etc/cron.d/x"]));
    assert_eq!(
        check_cpanel_upload(&evil),
        Err("Archive validation failed: Archive contains path traversal component '..': '../../etc/cron.d/x'".to_string())
    );
    let abs = gzip(&tar_bytes(&["/etc/passwd"]));
    assert_eq!(
        validate_cpanel_archive(&abs),
        Err("Archive contains absolute path '/etc/passwd' — potential zip-slip attack".to_string())
    );
    assert_eq!(
        check_cpanel_upload(b"PK\x03\x04 not gzip"),
        Err("Uploaded file is not a valid gzip archive".to_string())
    );
    // Every entry is looked at, the forty-first too.
    let mut names: Vec<String> = (0..40).map(|i| format!("f{}", i)).collect();
    names.push("homedir/".to_string());
    let refs: Vec<&str> = names.iter().map(|s| s.as_str()).collect();
    assert_eq!(validate_cpanel_archive(&gzip(&tar_bytes(&refs))), Ok(true));
    let mut names: Vec<String> = (0..40).map(|i| format!("homedir/f{}", i)).collect();
    names.push("../../etc/passwd".to_string());
    let refs: Vec<&str> = names.iter().map(|s| s.as_str()).collect();
    assert_eq!(
        validate_cpanel_archive(&gzip(&tar_bytes(&refs))),
        Err("Archive contains path traversal component '..': '../../etc/passwd'".to_string())
    );
    assert!(validate_cpanel_archive(&[0x1f, 0x8b, 0, 0]).is_err());
}

#[test]
fn plesk_archives_read_with_tar_and_zip() {
    let tgz = gzip(&tar_bytes(&["domains/a.com/httpdocs/index.php"]));
    assert_eq!(validate_plesk_archive(&tgz), Ok(true));
    assert_eq!(check_plesk_upload(&tgz), Ok(()));
    let plain = tar_bytes(&["backup_info.xml"]);
    assert_eq!(validate_plesk_archive(&plain), Ok(true));
    let other = tar_bytes(&["readme.txt"]);
    assert_eq!(validate_plesk_archive(&other), Ok(false));
    assert_eq!(
        check_plesk_upload(&other),
        Err("File does not appear to be a valid Plesk backup archive. Expected a .tar.gz containing backup_info.xml or a domains/ directory structure.".to_string())
    );
    assert_eq!(
        check_plesk_upload(&tar_bytes(&["a/../b"])),
        Err("Archive validation failed: Archive contains path traversal component: 'a/../b'".to_string())
    );
    assert_eq!(validate_plesk_archive(&zip_bytes(&["x/backup_info.xml"])), Ok(true));
    assert_eq!(validate_plesk_archive(&zip_bytes(&["x/other.xml"])), Ok(false));
    assert!(validate_plesk_archive(b"PK garbage").unwrap_err().starts_with("ZIP read error: "));
    assert_eq!(
        check_plesk_upload(&[]),
        Err("No archive file in request. Use multipart field 'archive'".to_string())
    );
}
