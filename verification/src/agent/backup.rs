//! Site backups: where archives go, the commands that make them, the
//! digests of what was written and the manifest that describes a backup.

use vstd::prelude::*;
use crate::text::{concat_all, concat_strs, views_of};

verus! {

/// What a finished backup reports.
#[derive(Debug)]
pub struct BackupResult {
    /// Where the manifest was written.
    pub manifest_path: String,
    /// Size of the files archive and database dump together.
    pub total_bytes: u64,
}

/// The description of one backup, written next to its archives.
#[derive(Debug)]
pub struct BackupManifest {
    pub site_id: String,
    pub domain: String,
    pub unix_user: String,
    pub created_at: String,
    pub files_path: String,
    pub db_path: Option<String>,
    pub files_sha256: String,
    pub db_sha256: Option<String>,
    pub total_bytes: u64,
}

/// The directory that holds one day's backups of a site.
pub open spec fn backup_dir_text(site_id: Seq<char>, date: Seq<char>) -> Seq<char> {
    concat_all(
        seq![
            "/var/backups/jottiecp/"@,
            site_id,
            "/"@,
            date,
        ],
    )
}

/// The directory of a site's backups for one day.
pub fn backup_dir(site_id: &str, date: &str) -> (r: String)
    ensures
        r@ == backup_dir_text(site_id@, date@),
{
    let parts: Vec<&str> = vec![
        "/var/backups/jottiecp/",
        site_id,
        "/",
        date,
    ];
    assert(views_of(parts@) =~= seq![
        "/var/backups/jottiecp/"@,
        site_id@,
        "/"@,
        date@,
    ]);
    concat_strs(&parts)
}

/// The archive of a site's files in a backup directory.
pub open spec fn files_archive_path_text(dir: Seq<char>, ts: Seq<char>) -> Seq<char> {
    concat_all(
        seq![
            dir,
            "/files-"@,
            ts,
            ".tar.gz"@,
        ],
    )
}

/// The path of the files archive of a backup.
pub fn files_archive_path(dir: &str, ts: &str) -> (r: String)
    ensures
        r@ == files_archive_path_text(dir@, ts@),
{
    let parts: Vec<&str> = vec![
        dir,
        "/files-",
        ts,
        ".tar.gz",
    ];
    assert(views_of(parts@) =~= seq![
        dir@,
        "/files-"@,
        ts@,
        ".tar.gz"@,
    ]);
    concat_strs(&parts)
}

/// The compressed database dump in a backup directory.
pub open spec fn db_dump_path_text(dir: Seq<char>, ts: Seq<char>) -> Seq<char> {
    concat_all(
        seq![
            dir,
            "/db-"@,
            ts,
            ".sql.gz"@,
        ],
    )
}

/// The path of the database dump of a backup.
pub fn db_dump_path(dir: &str, ts: &str) -> (r: String)
    ensures
        r@ == db_dump_path_text(dir@, ts@),
{
    let parts: Vec<&str> = vec![
        dir,
        "/db-",
        ts,
        ".sql.gz",
    ];
    assert(views_of(parts@) =~= seq![
        dir@,
        "/db-"@,
        ts@,
        ".sql.gz"@,
    ]);
    concat_strs(&parts)
}

/// The manifest of a backup directory.
pub open spec fn manifest_path_text(dir: Seq<char>) -> Seq<char> {
    concat_all(
        seq![
            dir,
            "/manifest"@,
            ".json"@,
        ],
    )
}

/// The path of the manifest of a backup.
pub fn manifest_path(dir: &str) -> (r: String)
    ensures
        r@ == manifest_path_text(dir@),
{
    let parts: Vec<&str> = vec![
        dir,
        "/manifest",
        ".json",
    ];
    assert(views_of(parts@) =~= seq![
        dir@,
        "/manifest"@,
        ".json"@,
    ]);
    concat_strs(&parts)
}

/// A site user's home directory.
pub open spec fn site_home_text(unix_user: Seq<char>) -> Seq<char> {
    concat_all(
        seq![
            "/home/"@,
            unix_user,
        ],
    )
}

/// The home directory of a site user.
pub fn site_home(unix_user: &str) -> (r: String)
    ensures
        r@ == site_home_text(unix_user@),
{
    let parts: Vec<&str> = vec![
        "/home/",
        unix_user,
    ];
    assert(views_of(parts@) =~= seq![
        "/home/"@,
        unix_user@,
    ]);
    concat_strs(&parts)
}

/// The database a backup dumps: the given name unless it is empty.
pub fn effective_db_name(db_name: Option<&str>) -> (r: Option<&str>)
    ensures
        match db_name {
            Some(d) => if d@.len() > 0 {
                r == Some(d)
            } else {
                r is None
            },
            None => r is None,
        },
{
    match db_name {
        Some(d) => if d.is_empty() {
            None
        } else {
            Some(d)
        },
        None => None,
    }
}

/// The `tar` arguments that archive a site's home, leaving caches and
/// `node_modules` out.
pub open spec fn tar_args_of(files_archive: Seq<char>, unix_user: Seq<char>) -> Seq<Seq<char>> {
    seq![
        "-czf"@,
        files_archive,
        "-C"@,
        "/home"@,
        unix_user,
        "--exclude=.cache"@,
        "--exclude=.npm"@,
        "--exclude=node_modules"@,
    ]
}

/// The `/bin/tar` arguments of a files backup.
pub fn backup_tar_args(files_archive: &str, unix_user: &str) -> (r: Vec<String>)
    ensures
        r@.len() == tar_args_of(files_archive@, unix_user@).len(),
        forall|i: int| 0 <= i < r@.len() ==> #[trigger] r@[i]@ == tar_args_of(
            files_archive@,
            unix_user@,
        )[i],
{
    let r: Vec<String> = vec![
        String::from_str("-czf"),
        String::from_str(files_archive),
        String::from_str("-C"),
        String::from_str("/home"),
        String::from_str(unix_user),
        String::from_str("--exclude=.cache"),
        String::from_str("--exclude=.npm"),
        String::from_str("--exclude=node_modules"),
    ];
    r
}

/// The `mysqldump` arguments that dump one database consistently.
pub open spec fn mysqldump_args_of(db: Seq<char>) -> Seq<Seq<char>> {
    seq![
        "--single-transaction"@,
        "--quick"@,
        "--lock-tables=false"@,
        "--default-character-set=utf8mb4"@,
        db,
    ]
}

/// The `/usr/bin/mysqldump` arguments of a database backup.
pub fn mysqldump_args(db: &str) -> (r: Vec<String>)
    ensures
        r@.len() == mysqldump_args_of(db@).len(),
        forall|i: int| 0 <= i < r@.len() ==> #[trigger] r@[i]@ == mysqldump_args_of(db@)[i],
{
    let r: Vec<String> = vec![
        String::from_str("--single-transaction"),
        String::from_str("--quick"),
        String::from_str("--lock-tables=false"),
        String::from_str("--default-character-set=utf8mb4"),
        String::from_str(db),
    ];
    r
}

/// Lower-case hexadecimal digit of a nibble.
pub open spec fn hex_digit(n: u8) -> char {
    if n < 10 {
        ((n + 48) as u32) as char
    } else {
        ((n + 87) as u32) as char
    }
}

/// Lower-case hexadecimal text of a byte string, two digits per byte.
pub open spec fn hex_of(bytes: Seq<u8>) -> Seq<char>
    decreases bytes.len(),
{
    if bytes.len() == 0 {
        Seq::empty()
    } else {
        hex_of(bytes.drop_last()) + seq![hex_digit(bytes.last() / 16), hex_digit(bytes.last() % 16)]
    }
}

/// `hex::encode`: the lower-case hexadecimal text of the bytes.
#[verifier::external_body]
pub(crate) fn hex_encode(bytes: &[u8]) -> (r: String)
    ensures
        r@ == hex_of(bytes@),
{
    hex::encode(bytes)
}

/// The SHA-256 digest of a byte string.
pub uninterp spec fn sha256(data: Seq<u8>) -> Seq<u8>;

/// `sha2::Sha256::digest`: the 32-byte SHA-256 digest of the data.
#[verifier::external_body]
pub(crate) fn sha256_digest(data: &[u8]) -> (r: Vec<u8>)
    ensures
        r@ == sha256(data@),
        r@.len() == 32,
{
    <sha2::Sha256 as sha2::Digest>::digest(data).to_vec()
}

/// The SHA-256 of `data` in lower-case hex, as written in a manifest.
pub fn sha256_hex(data: &[u8]) -> (r: String)
    ensures
        r@ == hex_of(sha256(data@)),
        sha256(data@).len() == 32,
{
    let d = sha256_digest(data);
    hex_encode(d.as_slice())
}

/// How the database step of a backup went.
#[derive(Debug)]
pub enum DumpOutcome {
    /// No database to dump: none was named, or the name was empty.
    Skipped,
    /// `mysqldump` exited with an error; the backup goes on without a dump.
    Failed,
    /// The compressed dump was written: its path, SHA-256 and size.
    Written { path: String, sha256: String, size: u64 },
}

/// The database a backup dumps: none when no name or an empty name was
/// given; a name that is not a plain identifier is refused.
pub fn dump_target(db_name: Option<&str>) -> (r: Result<Option<&str>, crate::agent::AgentError>)
    ensures
        match db_name {
            None => r == Ok::<Option<&str>, crate::agent::AgentError>(None),
            Some(d) => if d@.len() == 0 {
                r == Ok::<Option<&str>, crate::agent::AgentError>(None)
            } else if crate::agent::database::valid_db_ident(d) {
                r == Ok::<Option<&str>, crate::agent::AgentError>(Some(d))
            } else {
                r matches Err(crate::agent::AgentError::InvalidArgument(m)) && m@
                    == crate::agent::database::bad_ident_text(d@)
            },
        },
{
    match db_name {
        None => Ok(None),
        Some(d) => {
            if d.unicode_len() == 0 {
                Ok(None)
            } else {
                match crate::agent::database::check_db_ident(d) {
                    Ok(()) => Ok(Some(d)),
                    Err(e) => Err(e),
                }
            }
        },
    }
}

/// The text `{:?}` gives for an exit code.
pub open spec fn exit_code_text(code: Option<u8>) -> Seq<char> {
    match code {
        Some(c) => "Some("@ + crate::text::decimal(c as nat) + ")"@,
        None => "None"@,
    }
}

/// The files step fails the whole backup when `tar` does not succeed.
pub fn tar_status(success: bool, code: Option<u8>) -> (r: Result<(), crate::agent::AgentError>)
    ensures
        success ==> r is Ok,
        !success ==> (r matches Err(crate::agent::AgentError::Internal(m)) && m@ == "tar failed with exit code "@
            + exit_code_text(code)),
{
    if success {
        return Ok(());
    }
    let mut m = String::from_str("tar failed with exit code ");
    match code {
        Some(c) => {
            m.append("Some(");
            let d = crate::text::decimal_string(c as u64);
            m.append(d.as_str());
            m.append(")");
        },
        None => m.append("None"),
    }
    Err(crate::agent::AgentError::Internal(m))
}

/// Assembles a backup's manifest from its files archive and the outcome of
/// its database step: a skipped or failed dump leaves the backup standing
/// with no dump path, no dump hash and only the archive's size; a written
/// dump adds its path, hash and size.
pub fn backup_manifest(
    site_id: &str,
    domain: &str,
    unix_user: &str,
    created_at: String,
    files_path: String,
    files_sha256: String,
    files_size: u64,
    dump: DumpOutcome,
) -> (r: BackupManifest)
    requires
        dump matches DumpOutcome::Written { size, .. } ==> files_size + size <= u64::MAX,
    ensures
        r.site_id@ == site_id@,
        r.domain@ == domain@,
        r.unix_user@ == unix_user@,
        r.created_at == created_at,
        r.files_path == files_path,
        r.files_sha256 == files_sha256,
        match dump {
            DumpOutcome::Written { path, sha256, size } => r.db_path == Some(path) && r.db_sha256 == Some(sha256)
                && r.total_bytes == files_size + size,
            _ => r.db_path is None && r.db_sha256 is None && r.total_bytes == files_size,
        },
{
    let (db_path, db_sha256, total_bytes) = match dump {
        DumpOutcome::Written { path, sha256, size } => (Some(path), Some(sha256), files_size + size),
        _ => (None, None, files_size),
    };
    BackupManifest {
        site_id: String::from_str(site_id),
        domain: String::from_str(domain),
        unix_user: String::from_str(unix_user),
        created_at,
        files_path,
        db_path,
        files_sha256,
        db_sha256,
        total_bytes,
    }
}

/// What a finished backup answers: where its manifest lies in the backup
/// directory, and the manifest's total size.
pub fn backup_result(dir: &str, manifest: &BackupManifest) -> (r: BackupResult)
    ensures
        r.manifest_path@ == manifest_path_text(dir@),
        r.total_bytes == manifest.total_bytes,
{
    BackupResult { manifest_path: manifest_path(dir), total_bytes: manifest.total_bytes }
}

} // verus!

verus! {

/// Hex text has two digits per byte.
pub proof fn lemma_hex_len(bytes: Seq<u8>)
    ensures
        hex_of(bytes).len() == 2 * bytes.len(),
    decreases bytes.len(),
{
    if bytes.len() > 0 {
        lemma_hex_len(bytes.drop_last());
    }
}

} // verus!
