use jotti::panel::access::{sftp_after_check, SftpAnswer, SshdCheck};
use jotti::panel::apps::{check_not_installed, install_outcome, InstallRow};
use jotti::panel::auth::{login_grant, AccountIdentity};
use jotti::panel::branding::{resize_answer, ImageStep};
use jotti::panel::filemanager::{entry_target_checked, extraction_targets, TarEntryKind};
use jotti::panel::reseller::impersonation_grant;

fn who(role: &str) -> AccountIdentity {
    AccountIdentity {
        user_id: "u-1".to_string(),
        email: "a@b.c".to_string(),
        role: role.to_string(),
        wizard_complete: true,
    }
}

#[test]
fn login_grant_without_totp() {
    let g = login_grant(&who("user"), false, 1000);
    assert_eq!(g.interim.iat, 1000);
    assert_eq!(g.interim.exp, 1120);
    assert!(!g.interim.totp_verified);
    assert_eq!(g.interim.sub, "u-1");
    let s = g.session.unwrap();
    assert_eq!(s.exp, 1000 + 28800);
    assert!(s.totp_verified);
    assert_eq!(g.expires_in, Some(28800));
    assert_eq!(g.user_id.as_deref(), Some("u-1"));
    assert_eq!(g.email.as_deref(), Some("a@b.c"));
    assert_eq!(g.role.as_deref(), Some("user"));
    assert_eq!(g.wizard_complete, Some(true));
}

#[test]
fn login_grant_with_totp_and_negative_clock() {
    let g = login_grant(&who("user"), true, -5000);
    assert_eq!(g.interim.exp, -4880);
    assert!(g.session.is_none() && g.expires_in.is_none() && g.user_id.is_none());
}

#[test]
fn impersonation_tokens() {
    let g = impersonation_grant(&who("user"), "r-9", 50).unwrap();
    assert_eq!(g.claims.sub, "u-1");
    assert_eq!(g.claims.exp, 3650);
    assert!(g.claims.totp_verified);
    assert_eq!(g.claims.impersonated_by.as_deref(), Some("r-9"));
    assert_eq!(g.expires_in, 3600);
    assert_eq!(g.audit.action, "login_as_client");
    assert_eq!(g.audit.user_id, "r-9");
    assert_eq!(g.audit.resource_id, "u-1");
    assert!(g.audit.success);
    assert_eq!(impersonation_grant(&who("admin"), "r-9", 50).err(), Some("Cannot impersonate an admin account".to_string()));
}

#[test]
fn install_command_outcomes() {
    assert_eq!(install_outcome(true, "exit status: 0", "out", "err"), Ok("out\nerr".to_string()));
    assert_eq!(
        install_outcome(false, "exit status: 1", "", "warn\nfatal: boom\n"),
        Err("Install command exited with exit status: 1: fatal: boom".to_string())
    );
    assert_eq!(
        install_outcome(false, "exit status: 2", "x", ""),
        Err("Install command exited with exit status: 2: (no output)".to_string())
    );
}

#[test]
fn second_install_refused() {
    let row = |s: &str, d: bool| InstallRow { status: s.to_string(), deleted: d };
    assert_eq!(check_not_installed("wp", &vec![]), Ok(()));
    assert_eq!(check_not_installed("wp", &vec![row("failed", false), row("active", true)]), Ok(()));
    assert_eq!(
        check_not_installed("wp", &vec![row("failed", false), row("installing", false)]),
        Err("wp is already installed on this site".to_string())
    );
}

#[test]
fn sftp_check_outcomes() {
    assert_eq!(sftp_after_check("old", SshdCheck::Passed), SftpAnswer::Proceed);
    assert_eq!(
        sftp_after_check("old", SshdCheck::Refused("bad line".into())),
        SftpAnswer::RestoreInvalid { content: "old".into(), message: "sshd config invalid: bad line".into() }
    );
    assert_eq!(
        sftp_after_check("old", SshdCheck::NotRun("no sshd".into())),
        SftpAnswer::RestoreInternal { content: "old".into(), message: "sshd -t: no sshd".into() }
    );
}

#[test]
fn extraction_refuses_paths_through_links() {
    let links = vec!["/home/u/x/lnk".to_string()];
    assert_eq!(entry_target_checked("/home/u/x", "/home/u/x", &links, "lnk/cron.d/x"), None);
    assert_eq!(
        entry_target_checked("/home/u/x", "/home/u/x", &links, "lnk"),
        Some("/home/u/x/lnk".to_string())
    );
    assert_eq!(
        entry_target_checked("/home/u/x", "/home/u/x", &links, "dir/file"),
        Some("/home/u/x/dir/file".to_string())
    );
    assert_eq!(entry_target_checked("/home/u/x", "/home/u/x", &vec![], "../../etc/x"), None);
}

#[test]
fn logo_step_messages() {
    assert_eq!(resize_answer(Ok(vec![1, 2])), Ok(vec![1, 2]));
    assert_eq!(
        resize_answer(Err((ImageStep::Decode, "bad".into()))),
        Err("Cannot decode image: bad".to_string())
    );
    assert_eq!(
        resize_answer(Err((ImageStep::Read, "io".into()))),
        Err("Cannot read image: io".to_string())
    );
}

#[test]
fn extraction_skips_escapes_and_entries_under_earlier_links() {
    let entries = vec![
        ("site/".to_string(), TarEntryKind::Directory),
        ("site/index.php".to_string(), TarEntryKind::Other),
        ("../../etc/passwd".to_string(), TarEntryKind::Other),
        ("lnk".to_string(), TarEntryKind::Symlink),
        ("lnk/cron.d/x".to_string(), TarEntryKind::Other),
        ("lnk2/a".to_string(), TarEntryKind::Other),
    ];
    assert_eq!(
        extraction_targets("/home/u/x", "/home/u/x", &entries),
        vec![
            Some("/home/u/x/site".to_string()),
            Some("/home/u/x/site/index.php".to_string()),
            None,
            Some("/home/u/x/lnk".to_string()),
            None,
            Some("/home/u/x/lnk2/a".to_string()),
        ]
    );
    // A link that is itself skipped does not block later entries.
    let skipped_link = vec![
        ("../out".to_string(), TarEntryKind::Symlink),
        ("a".to_string(), TarEntryKind::Other),
    ];
    assert_eq!(
        extraction_targets("/home/u/x", "/home/u/x", &skipped_link),
        vec![None, Some("/home/u/x/a".to_string())]
    );
}
