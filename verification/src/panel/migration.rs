//! Imports of backups made by other hosting panels: the size and format an
//! upload must have, the name it is stored under, and the checks on the
//! paths inside the archive that tell a cPanel or Plesk backup apart and
//! refuse archives that would write outside their directory.

use vstd::prelude::*;
use crate::text::{
    chars_of, concat2, concat3, contains_chars, contains_seq, split_chars, split_on,
    string_from_chars, vec_eq, views_of,
};

verus! {

/// Largest upload accepted for an import (2 GiB).
pub const MAX_ARCHIVE_BYTES: usize = 2147483648;

/// Which panel an uploaded backup comes from.
#[derive(Debug, Clone, Copy, PartialEq, Eq)]
pub enum ArchiveSource {
    Cpanel,
    Plesk,
}

/// The refusal of an upload over [`MAX_ARCHIVE_BYTES`].
pub open spec fn too_large_text(source: ArchiveSource) -> Seq<char> {
    match source {
        ArchiveSource::Cpanel => "Archive exceeds the maximum allowed size of 2 GB"@,
        ArchiveSource::Plesk => "Archive too large (max 2 GB)"@,
    }
}

/// An upload of `len` bytes is accepted by size, or refused with the
/// message of its importer.
pub fn check_archive_size(source: ArchiveSource, len: usize) -> (r: Result<(), String>)
    ensures
        r is Ok <==> len <= MAX_ARCHIVE_BYTES,
        r matches Err(m) ==> m@ == too_large_text(source),
{
    if len <= MAX_ARCHIVE_BYTES {
        Ok(())
    } else {
        match source {
            ArchiveSource::Cpanel => Err(String::from_str("Archive exceeds the maximum allowed size of 2 GB")),
            ArchiveSource::Plesk => Err(String::from_str("Archive too large (max 2 GB)")),
        }
    }
}

/// The bytes begin with the gzip magic number `1f 8b`.
pub open spec fn gzip_magic(bytes: Seq<u8>) -> bool {
    bytes.len() >= 2 && bytes[0] == 0x1f && bytes[1] == 0x8b
}

/// The bytes begin with `PK`, the start of a zip archive.
pub open spec fn zip_magic(bytes: Seq<u8>) -> bool {
    bytes.len() >= 2 && bytes[0] == 0x50 && bytes[1] == 0x4b
}

/// Whether an upload starts like a gzip stream.
pub fn is_gzip(bytes: &[u8]) -> (r: bool)
    ensures
        r == gzip_magic(bytes@),
{
    bytes.len() >= 2 && bytes[0] == 0x1f && bytes[1] == 0x8b
}

/// Whether an upload starts like a zip archive.
pub fn is_zip(bytes: &[u8]) -> (r: bool)
    ensures
        r == zip_magic(bytes@),
{
    bytes.len() >= 2 && bytes[0] == 0x50 && bytes[1] == 0x4b
}

/// The last name in a list of path pieces, read from the end: empty pieces
/// and `.` are passed over, and a `..` (or nothing at all) gives no name.
pub open spec fn last_name(pieces: Seq<Seq<char>>) -> Option<Seq<char>>
    decreases pieces.len(),
{
    if pieces.len() == 0 {
        None
    } else if pieces.last().len() == 0 || pieces.last() == "."@ {
        last_name(pieces.drop_last())
    } else if pieces.last() == ".."@ {
        None
    } else {
        Some(pieces.last())
    }
}

/// The final component of a path (`Path::file_name`), when it is a name.
pub open spec fn file_name_of(path: Seq<char>) -> Option<Seq<char>> {
    last_name(split_on(path, '/'))
}

/// Characters kept in a stored file name.
pub open spec fn name_char_ok(c: char) -> bool {
    ('a' <= c <= 'z') || ('A' <= c <= 'Z') || ('0' <= c <= '9') || c == '.' || c == '-' || c == '_'
}

/// Each character that is not kept becomes `_`.
pub open spec fn sanitized_chars(s: Seq<char>) -> Seq<char> {
    s.map_values(|c: char| if name_char_ok(c) { c } else { '_' })
}

/// The name under which an uploaded archive is stored: the final component
/// of the uploaded name with unsafe characters replaced, or
/// `archive.tar.gz` when nothing usable is left.
pub open spec fn safe_filename_text(original: Seq<char>) -> Seq<char> {
    let base = match file_name_of(original) {
        Some(b) => b,
        None => "archive.tar.gz"@,
    };
    if sanitized_chars(base).len() == 0 {
        "archive.tar.gz"@
    } else {
        sanitized_chars(base)
    }
}

/// Whether a piece is exactly the given two-or-one character name.
fn piece_is(piece: &Vec<char>, name: &str) -> (r: bool)
    ensures
        r == (piece@ == name@),
{
    let n = chars_of(name);
    vec_eq(piece, &n)
}

/// The final component of a path, if it is a name.
pub fn file_name(path: &str) -> (r: Option<String>)
    ensures
        match file_name_of(path@) {
            Some(b) => r matches Some(s) && s@ == b,
            None => r is None,
        },
{
    let chars = chars_of(path);
    let pieces = split_chars(&chars, '/');
    let ghost all = split_on(path@, '/');
    let mut i: usize = pieces.len();
    assert(all.take(i as int) =~= all);
    while i > 0
        invariant
            all == split_on(path@, '/'),
            i <= pieces@.len(),
            pieces@.len() == all.len(),
            forall|k: int| 0 <= k < pieces@.len() ==> #[trigger] pieces@[k]@ == all[k],
            last_name(all) == last_name(all.take(i as int)),
        decreases i,
    {
        let piece = &pieces[i - 1];
        let ghost t = all.take(i as int);
        assert(t.last() == piece@);
        assert(t.drop_last() =~= all.take(i - 1));
        if piece.len() == 0 || piece_is(piece, ".") {
            i = i - 1;
        } else if piece_is(piece, "..") {
            assert(last_name(t) == None::<Seq<char>>);
            return None;
        } else {
            assert(last_name(t) == Some(piece@));
            return Some(string_from_chars(piece));
        }
    }
    assert(all.take(0) =~= Seq::<Seq<char>>::empty());
    None
}

/// Replaces each character outside `[A-Za-z0-9._-]` by `_`.
pub fn sanitize_name(s: &str) -> (r: String)
    ensures
        r@ == sanitized_chars(s@),
{
    let chars = chars_of(s);
    let mut out: Vec<char> = Vec::new();
    let n = chars.len();
    for i in 0..n
        invariant
            n == chars@.len(),
            chars@ == s@,
            out@ == sanitized_chars(s@.take(i as int)),
    {
        let c = chars[i];
        let keep = ('a' <= c && c <= 'z') || ('A' <= c && c <= 'Z') || ('0' <= c && c <= '9')
            || c == '.' || c == '-' || c == '_';
        if keep {
            out.push(c);
        } else {
            out.push('_');
        }
        assert(sanitized_chars(s@.take(i + 1)) =~= sanitized_chars(s@.take(i as int)).push(
            if name_char_ok(c) { c } else { '_' },
        ));
    }
    assert(s@.take(n as int) =~= s@);
    string_from_chars(&out)
}

/// The name an uploaded cPanel archive is stored under.
pub fn safe_filename(original: &str) -> (r: String)
    ensures
        r@ == safe_filename_text(original@),
{
    let base = match file_name(original) {
        Some(b) => b,
        None => String::from_str("archive.tar.gz"),
    };
    let sanitized = sanitize_name(base.as_str());
    if sanitized.as_str().unicode_len() == 0 {
        String::from_str("archive.tar.gz")
    } else {
        sanitized
    }
}

/// The view of what was read for one archive entry: its path, or the text
/// of the error met while decoding the path.
pub open spec fn entry_view(e: Result<String, String>) -> Result<Seq<char>, Seq<char>> {
    match e {
        Ok(p) => Ok(p@),
        Err(m) => Err(m@),
    }
}

/// The views of the entries read from an archive.
pub open spec fn entries_view(v: Seq<Result<String, String>>) -> Seq<Result<Seq<char>, Seq<char>>> {
    v.map_values(|e: Result<String, String>| entry_view(e))
}

/// The view of an optional text.
pub open spec fn text_opt_view(o: Option<String>) -> Option<Seq<char>> {
    match o {
        Some(t) => Some(t@),
        None => None,
    }
}

/// The view of a verdict that carries a message when it fails.
pub open spec fn verdict_view<T>(r: Result<T, String>) -> Result<T, Seq<char>> {
    match r {
        Ok(v) => Ok(v),
        Err(m) => Err(m@),
    }
}

/// The entries of a tar stream in the order `tar` reads them: for each, its
/// path or the error met decoding it; and the error that stopped the
/// reading, if one did.
pub struct TarListing {
    pub paths: Vec<Result<String, String>>,
    pub failure: Option<String>,
}

/// What `tar` reads from a gzip-compressed tar archive held in `bytes`,
/// stopping after `limit` entries: the entry paths and the error that
/// stopped the reading, if any.
pub uninterp spec fn tar_gz_listing_of(bytes: Seq<u8>, limit: usize) -> (
    Seq<Result<Seq<char>, Seq<char>>>,
    Option<Seq<char>>,
);

/// What `tar` reads from an uncompressed tar archive held in `bytes`.
pub uninterp spec fn tar_listing_of(bytes: Seq<u8>) -> (
    Seq<Result<Seq<char>, Seq<char>>>,
    Option<Seq<char>>,
);

/// What the `zip` crate reads from a zip archive held in `bytes`: the name
/// of each file it can open (in the order of the central directory), or the
/// text of the error that stopped it from opening the archive.
pub uninterp spec fn zip_listing_of(bytes: Seq<u8>) -> Result<Seq<Option<Seq<char>>>, Seq<char>>;

/// `tar::Archive::entries` over a `flate2::read::GzDecoder`, read up to
/// `limit` entries; each entry path is taken with `to_string_lossy`. The
/// result is named, not described. (`entries` fails only on an archive that
/// was already read from, which a fresh one is not.)
#[verifier::external_body]
fn list_tar_gz(bytes: &[u8], limit: usize) -> (r: TarListing)
    ensures
        (entries_view(r.paths@), text_opt_view(r.failure)) == tar_gz_listing_of(bytes@, limit),
{
    let (mut archive, mut paths) = (tar::Archive::new(flate2::read::GzDecoder::new(std::io::Cursor::new(bytes))), Vec::new());
    let entries = match archive.entries() {
        Ok(entries) => entries,
        Err(e) => return TarListing { paths, failure: Some(e.to_string()) },
    };
    for entry in entries.take(limit) {
        match entry {
            Ok(entry) => paths.push(match entry.path() {
                Ok(p) => Ok(p.to_string_lossy().into_owned()),
                Err(e) => Err(e.to_string()),
            }),
            Err(e) => return TarListing { paths, failure: Some(e.to_string()) },
        }
    }
    TarListing { paths, failure: None }
}

/// `tar::Archive::entries` over the bytes as they are, read to the end;
/// each entry path is taken with `to_string_lossy`. The result is named,
/// not described.
#[verifier::external_body]
fn list_tar(bytes: &[u8]) -> (r: TarListing)
    ensures
        (entries_view(r.paths@), text_opt_view(r.failure)) == tar_listing_of(bytes@),
{
    let (mut archive, mut paths) = (tar::Archive::new(std::io::Cursor::new(bytes)), Vec::new());
    let entries = match archive.entries() {
        Ok(entries) => entries,
        Err(e) => return TarListing { paths, failure: Some(e.to_string()) },
    };
    for entry in entries {
        match entry {
            Ok(entry) => paths.push(match entry.path() {
                Ok(p) => Ok(p.to_string_lossy().into_owned()),
                Err(e) => Err(e.to_string()),
            }),
            Err(e) => return TarListing { paths, failure: Some(e.to_string()) },
        }
    }
    TarListing { paths, failure: None }
}

/// The view of a zip listing.
pub open spec fn zip_view(r: Result<Vec<Option<String>>, String>) -> Result<Seq<Option<Seq<char>>>, Seq<char>> {
    match r {
        Ok(names) => Ok(names@.map_values(|n: Option<String>| text_opt_view(n))),
        Err(m) => Err(m@),
    }
}

/// `zip::ZipArchive::new`, then `by_index` and `name` for each file: the
/// names of the files that open (`None` for one that does not), or the text
/// of the error from opening the archive. The result is named, not
/// described.
#[verifier::external_body]
fn list_zip(bytes: &[u8]) -> (r: Result<Vec<Option<String>>, String>)
    ensures
        zip_view(r) == zip_listing_of(bytes@),
{
    let mut zip = match zip::ZipArchive::new(std::io::Cursor::new(bytes)) {
        Ok(z) => z,
        Err(e) => return Err(e.to_string()),
    };
    let mut names = Vec::new();
    for i in 0..zip.len() {
        names.push(match zip.by_index(i) {
            Ok(file) => Some(file.name().to_string()),
            Err(_) => None,
        });
    }
    Ok(names)
}

/// Entry paths whose presence marks a cPanel backup.
pub open spec fn cpanel_indicators() -> Seq<Seq<char>> {
    seq![
        "homedir/"@,
        "homedir.tar.gz"@,
        "cpmove-"@,
        "cp_build_"@,
        "mysql/"@,
        "mysql.sql"@,
        "emails/"@,
        "dnszones/"@,
        "crontabs/"@,
        "userdata/"@,
        "meta/"@,
    ]
}

/// Entry paths whose presence marks a Plesk backup.
pub open spec fn plesk_indicators() -> Seq<Seq<char>> {
    seq!["backup_info.xml"@, "domains/"@, "httpdocs/"@, "conf/vhost.conf"@]
}

/// The path contains one of the indicators.
pub open spec fn mentions_any(path: Seq<char>, indicators: Seq<Seq<char>>) -> bool {
    exists|k: int| 0 <= k < indicators.len() && contains_seq(path, #[trigger] indicators[k])
}

/// One of the `/`-separated components of the path is `..`.
pub open spec fn has_parent_piece(path: Seq<char>) -> bool {
    split_on(path, '/').contains(".."@)
}

/// A path that starts at the root.
pub open spec fn rooted(path: Seq<char>) -> bool {
    path.len() > 0 && path[0] == '/'
}

/// A finding so far combined with the verdict on the entries that follow.
pub open spec fn and_found(found: bool, rest: Result<bool, Seq<char>>) -> Result<bool, Seq<char>> {
    match rest {
        Ok(b) => Ok(found || b),
        Err(e) => Err(e),
    }
}

/// The refusal of an entry with an absolute path.
pub open spec fn absolute_path_text(path: Seq<char>) -> Seq<char> {
    "Archive contains absolute path '"@ + path + "' \u{2014} potential zip-slip attack"@
}

/// The refusal of an entry with a `..` component.
pub open spec fn parent_piece_text(path: Seq<char>) -> Seq<char> {
    "Archive contains path traversal component '..': '"@ + path + "'"@
}

/// The verdict on a cPanel upload's entries, in order: the first entry with
/// an absolute path or a `..` component refuses the archive; an entry whose
/// path could not be decoded is passed over; an error that stopped the
/// reading refuses it once the entries before it have passed; otherwise the
/// archive is a cPanel backup when some path mentions a cPanel indicator.
pub open spec fn cpanel_scan(entries: Seq<Result<Seq<char>, Seq<char>>>, failure: Option<Seq<char>>) -> Result<bool, Seq<char>>
    decreases entries.len(),
{
    if entries.len() == 0 {
        match failure {
            Some(e) => Err(e),
            None => Ok(false),
        }
    } else {
        match entries[0] {
            Ok(p) => if rooted(p) {
                Err(absolute_path_text(p))
            } else if has_parent_piece(p) {
                Err(parent_piece_text(p))
            } else {
                and_found(mentions_any(p, cpanel_indicators()), cpanel_scan(entries.drop_first(), failure))
            },
            Err(_) => cpanel_scan(entries.drop_first(), failure),
        }
    }
}

/// Whether one of the `/`-separated components of a path is `..`.
pub fn has_parent_component(path: &Vec<char>) -> (r: bool)
    ensures
        r == has_parent_piece(path@),
{
    let pieces = split_chars(path, '/');
    let ghost all = split_on(path@, '/');
    let n = pieces.len();
    for i in 0..n
        invariant
            n == pieces@.len(),
            all == split_on(path@, '/'),
            pieces@.len() == all.len(),
            forall|k: int| 0 <= k < pieces@.len() ==> #[trigger] pieces@[k]@ == all[k],
            forall|k: int| 0 <= k < i ==> all[k] != ".."@,
    {
        if piece_is(&pieces[i], "..") {
            assert(all[i as int] == ".."@);
            return true;
        }
    }
    false
}

/// Whether a path contains one of the given indicators.
fn mentions_any_of(path: &Vec<char>, indicators: &Vec<&str>) -> (r: bool)
    ensures
        r == mentions_any(path@, views_of(indicators@)),
{
    let n = indicators.len();
    for i in 0..n
        invariant
            n == indicators@.len(),
            forall|k: int| 0 <= k < i ==> !contains_seq(path@, #[trigger] views_of(indicators@)[k]),
    {
        let pat = chars_of(indicators[i]);
        if contains_chars(path, &pat) {
            assert(contains_seq(path@, views_of(indicators@)[i as int]));
            return true;
        }
    }
    false
}

/// The cPanel indicators as string slices.
fn cpanel_indicator_list() -> (r: Vec<&'static str>)
    ensures
        views_of(r@) == cpanel_indicators(),
{
    let r: Vec<&str> = vec![
        "homedir/",
        "homedir.tar.gz",
        "cpmove-",
        "cp_build_",
        "mysql/",
        "mysql.sql",
        "emails/",
        "dnszones/",
        "crontabs/",
        "userdata/",
        "meta/",
    ];
    assert(views_of(r@) =~= cpanel_indicators());
    r
}

/// The Plesk indicators as string slices.
fn plesk_indicator_list() -> (r: Vec<&'static str>)
    ensures
        views_of(r@) == plesk_indicators(),
{
    let r: Vec<&str> = vec!["backup_info.xml", "domains/", "httpdocs/", "conf/vhost.conf"];
    assert(views_of(r@) =~= plesk_indicators());
    r
}

/// The verdict on the entries listed from a cPanel upload.
pub fn cpanel_verdict(listing: &TarListing) -> (r: Result<bool, String>)
    ensures
        verdict_view(r) == cpanel_scan(entries_view(listing.paths@), text_opt_view(listing.failure)),
{
    let indicators = cpanel_indicator_list();
    let ghost all = entries_view(listing.paths@);
    let ghost failure = text_opt_view(listing.failure);
    let n = listing.paths.len();
    let mut found = false;
    assert(all.skip(0) =~= all);
    for i in 0..n
        invariant
            n == listing.paths@.len(),
            all == entries_view(listing.paths@),
            failure == text_opt_view(listing.failure),
            views_of(indicators@) == cpanel_indicators(),
            cpanel_scan(all, failure) == and_found(found, cpanel_scan(all.skip(i as int), failure)),
    {
        let ghost rest = all.skip(i as int);
        assert(rest.drop_first() =~= all.skip(i + 1));
        assert(rest[0] == entry_view(listing.paths@[i as int]));
        match &listing.paths[i] {
            Ok(p) => {
                let path = chars_of(p.as_str());
                if path.len() > 0 && path[0] == '/' {
                    return Err(concat3("Archive contains absolute path '", p.as_str(), "' \u{2014} potential zip-slip attack"));
                }
                if has_parent_component(&path) {
                    return Err(concat3("Archive contains path traversal component '..': '", p.as_str(), "'"));
                }
                let m = mentions_any_of(&path, &indicators);
                found = found || m;
            },
            Err(_) => {},
        }
    }
    assert(all.skip(n as int) =~= Seq::<Result<Seq<char>, Seq<char>>>::empty());
    match &listing.failure {
        Some(e) => Err(e.clone()),
        None => Ok(found),
    }
}

/// The verdict on a cPanel upload: what [`cpanel_scan`] says of every
/// entry that `tar` reads from the gzip stream.
pub open spec fn cpanel_archive_verdict(bytes: Seq<u8>) -> Result<bool, Seq<char>> {
    let listing = tar_gz_listing_of(bytes, usize::MAX);
    cpanel_scan(listing.0, listing.1)
}

/// Whether a gzip upload holds a cPanel backup; an error when any entry
/// would escape the extraction directory (an absolute path or a `..`
/// component) or the archive cannot be read. Every entry is checked.
pub fn validate_cpanel_archive(bytes: &[u8]) -> (r: Result<bool, String>)
    ensures
        verdict_view(r) == cpanel_archive_verdict(bytes@),
        r is Ok ==> forall|k: int|
            0 <= k < tar_gz_listing_of(bytes@, usize::MAX).0.len() ==> (
            #[trigger] tar_gz_listing_of(bytes@, usize::MAX).0[k] matches Ok(p) ==> !rooted(p)
                && !has_parent_piece(p)),
{
    let listing = list_tar_gz(bytes, usize::MAX);
    let r = cpanel_verdict(&listing);
    proof {
        if r is Ok {
            let l = tar_gz_listing_of(bytes@, usize::MAX);
            lemma_cpanel_accepted_paths_stay_inside(l.0, l.1);
        }
    }
    r
}

/// The refusal of a Plesk entry whose path contains `..`.
pub open spec fn plesk_traversal_text(path: Seq<char>) -> Seq<char> {
    "Archive contains path traversal component: '"@ + path + "'"@
}

/// The verdict on a Plesk tar upload's entries, in order: an entry whose
/// path cannot be decoded, or whose path contains `..` anywhere, refuses the
/// archive; so does an error that stopped the reading; otherwise it is a
/// Plesk backup when some path mentions a Plesk indicator.
pub open spec fn plesk_tar_scan(entries: Seq<Result<Seq<char>, Seq<char>>>, failure: Option<Seq<char>>) -> Result<bool, Seq<char>>
    decreases entries.len(),
{
    if entries.len() == 0 {
        match failure {
            Some(e) => Err("Tar entry error: "@ + e),
            None => Ok(false),
        }
    } else {
        match entries[0] {
            Ok(p) => if contains_seq(p, ".."@) {
                Err(plesk_traversal_text(p))
            } else {
                and_found(mentions_any(p, plesk_indicators()), plesk_tar_scan(entries.drop_first(), failure))
            },
            Err(m) => Err("Path error: "@ + m),
        }
    }
}

/// The verdict on a Plesk zip upload: a Plesk backup when the name of some
/// file that opens contains `backup_info.xml`.
pub open spec fn plesk_zip_scan(listing: Result<Seq<Option<Seq<char>>>, Seq<char>>) -> Result<bool, Seq<char>> {
    match listing {
        Ok(names) => Ok(
            exists|k: int|
                0 <= k < names.len() && (#[trigger] names[k] matches Some(n) && contains_seq(n, "backup_info.xml"@)),
        ),
        Err(e) => Err("ZIP read error: "@ + e),
    }
}

/// The verdict on the entries listed from a Plesk tar upload.
pub fn plesk_tar_verdict(listing: &TarListing) -> (r: Result<bool, String>)
    ensures
        verdict_view(r) == plesk_tar_scan(entries_view(listing.paths@), text_opt_view(listing.failure)),
{
    let indicators = plesk_indicator_list();
    let dots = chars_of("..");
    let ghost all = entries_view(listing.paths@);
    let ghost failure = text_opt_view(listing.failure);
    let n = listing.paths.len();
    let mut found = false;
    assert(all.skip(0) =~= all);
    for i in 0..n
        invariant
            n == listing.paths@.len(),
            all == entries_view(listing.paths@),
            failure == text_opt_view(listing.failure),
            views_of(indicators@) == plesk_indicators(),
            dots@ == ".."@,
            plesk_tar_scan(all, failure) == and_found(found, plesk_tar_scan(all.skip(i as int), failure)),
    {
        let ghost rest = all.skip(i as int);
        assert(rest.drop_first() =~= all.skip(i + 1));
        assert(rest[0] == entry_view(listing.paths@[i as int]));
        match &listing.paths[i] {
            Ok(p) => {
                let path = chars_of(p.as_str());
                if contains_chars(&path, &dots) {
                    return Err(concat3("Archive contains path traversal component: '", p.as_str(), "'"));
                }
                let m = mentions_any_of(&path, &indicators);
                found = found || m;
            },
            Err(m) => {
                return Err(concat2("Path error: ", m.as_str()));
            },
        }
    }
    assert(all.skip(n as int) =~= Seq::<Result<Seq<char>, Seq<char>>>::empty());
    match &listing.failure {
        Some(e) => Err(concat2("Tar entry error: ", e.as_str())),
        None => Ok(found),
    }
}

/// The verdict on the names listed from a Plesk zip upload.
pub fn plesk_zip_verdict(listing: &Result<Vec<Option<String>>, String>) -> (r: Result<bool, String>)
    ensures
        verdict_view(r) == plesk_zip_scan(zip_view(*listing)),
{
    match listing {
        Err(e) => Err(concat2("ZIP read error: ", e.as_str())),
        Ok(names) => {
            let marker = chars_of("backup_info.xml");
            let ghost all = names@.map_values(|n: Option<String>| text_opt_view(n));
            let n = names.len();
            for i in 0..n
                invariant
                    n == names@.len(),
                    all == names@.map_values(|n: Option<String>| text_opt_view(n)),
                    marker@ == "backup_info.xml"@,
                    zip_view(*listing) == Ok::<Seq<Option<Seq<char>>>, Seq<char>>(all),
                    forall|k: int|
                        0 <= k < i ==> !(#[trigger] all[k] matches Some(t) && contains_seq(t, "backup_info.xml"@)),
            {
                if let Some(name) = &names[i] {
                    let chars = chars_of(name.as_str());
                    if contains_chars(&chars, &marker) {
                        assert(all[i as int] == Some(name@));
                        assert(all[i as int] matches Some(t) && contains_seq(t, "backup_info.xml"@));
                        assert(plesk_zip_scan(zip_view(*listing)) == Ok::<bool, Seq<char>>(true));
                        return Ok(true);
                    }
                }
                assert(all[i as int] == text_opt_view(names@[i as int]));
            }
            Ok(false)
        },
    }
}

/// The verdict on a Plesk upload, by its first bytes: a zip archive is
/// judged by its file names, anything else as a tar stream, gunzipped when
/// it starts like gzip.
pub open spec fn plesk_archive_verdict(bytes: Seq<u8>) -> Result<bool, Seq<char>> {
    if zip_magic(bytes) {
        plesk_zip_scan(zip_listing_of(bytes))
    } else if gzip_magic(bytes) {
        let listing = tar_gz_listing_of(bytes, usize::MAX);
        plesk_tar_scan(listing.0, listing.1)
    } else {
        let listing = tar_listing_of(bytes);
        plesk_tar_scan(listing.0, listing.1)
    }
}

/// Whether an upload holds a Plesk backup; an error when an entry path
/// contains `..` or the archive cannot be read.
pub fn validate_plesk_archive(data: &[u8]) -> (r: Result<bool, String>)
    ensures
        verdict_view(r) == plesk_archive_verdict(data@),
{
    if is_zip(data) {
        let names = list_zip(data);
        plesk_zip_verdict(&names)
    } else if is_gzip(data) {
        let listing = list_tar_gz(data, usize::MAX);
        plesk_tar_verdict(&listing)
    } else {
        let listing = list_tar(data);
        plesk_tar_verdict(&listing)
    }
}

/// The refusal of a cPanel upload that does not start like gzip.
pub open spec fn not_gzip_text() -> Seq<char> {
    "Uploaded file is not a valid gzip archive"@
}

/// The refusal of a readable archive that holds no cPanel backup.
pub open spec fn not_cpanel_text() -> Seq<char> {
    "This does not appear to be a valid cPanel backup archive. Expected a cPanel full backup (cpmove-*.tar.gz) or a cPanel account backup containing homedir/."@
}

/// The refusal of a readable archive that holds no Plesk backup.
pub open spec fn not_plesk_text() -> Seq<char> {
    "File does not appear to be a valid Plesk backup archive. Expected a .tar.gz containing backup_info.xml or a domains/ directory structure."@
}

/// The refusal of a Plesk import that received no bytes.
pub open spec fn no_archive_text() -> Seq<char> {
    "No archive file in request. Use multipart field 'archive'"@
}

/// What an importer answers once it has the verdict on an archive: the
/// validation error, the refusal of an archive of the wrong kind, or
/// acceptance.
pub open spec fn import_answer(verdict: Result<bool, Seq<char>>, wrong_kind: Seq<char>) -> Result<(), Seq<char>> {
    match verdict {
        Err(e) => Err("Archive validation failed: "@ + e),
        Ok(false) => Err(wrong_kind),
        Ok(true) => Ok(()),
    }
}

/// The importer's answer for a verdict, with the refusal of its kind.
pub fn answer_for_verdict(source: ArchiveSource, verdict: &Result<bool, String>) -> (r: Result<(), String>)
    ensures
        verdict_view(r) == import_answer(
            verdict_view(*verdict),
            match source {
                ArchiveSource::Cpanel => not_cpanel_text(),
                ArchiveSource::Plesk => not_plesk_text(),
            },
        ),
{
    match verdict {
        Err(e) => Err(concat2("Archive validation failed: ", e.as_str())),
        Ok(false) => match source {
            ArchiveSource::Cpanel => Err(String::from_str(
                "This does not appear to be a valid cPanel backup archive. Expected a cPanel full backup (cpmove-*.tar.gz) or a cPanel account backup containing homedir/.",
            )),
            ArchiveSource::Plesk => Err(String::from_str(
                "File does not appear to be a valid Plesk backup archive. Expected a .tar.gz containing backup_info.xml or a domains/ directory structure.",
            )),
        },
        Ok(true) => Ok(()),
    }
}

/// What the cPanel importer answers an upload of the given bytes.
pub open spec fn cpanel_upload_answer(bytes: Seq<u8>) -> Result<(), Seq<char>> {
    if !gzip_magic(bytes) {
        Err(not_gzip_text())
    } else {
        import_answer(cpanel_archive_verdict(bytes), not_cpanel_text())
    }
}

/// Checks an uploaded cPanel archive: it must be gzip, read without an
/// entry escaping its directory, and look like a cPanel backup.
pub fn check_cpanel_upload(bytes: &[u8]) -> (r: Result<(), String>)
    ensures
        verdict_view(r) == cpanel_upload_answer(bytes@),
{
    if !is_gzip(bytes) {
        return Err(String::from_str("Uploaded file is not a valid gzip archive"));
    }
    let verdict = validate_cpanel_archive(bytes);
    answer_for_verdict(ArchiveSource::Cpanel, &verdict)
}

/// What the Plesk importer answers an upload of the given bytes.
pub open spec fn plesk_upload_answer(bytes: Seq<u8>) -> Result<(), Seq<char>> {
    if bytes.len() == 0 {
        Err(no_archive_text())
    } else {
        import_answer(plesk_archive_verdict(bytes), not_plesk_text())
    }
}

/// Checks an uploaded Plesk archive: it must not be empty, read without an
/// entry path containing `..`, and look like a Plesk backup.
pub fn check_plesk_upload(bytes: &[u8]) -> (r: Result<(), String>)
    ensures
        verdict_view(r) == plesk_upload_answer(bytes@),
{
    if bytes.len() == 0 {
        return Err(String::from_str("No archive file in request. Use multipart field 'archive'"));
    }
    let verdict = validate_plesk_archive(bytes);
    answer_for_verdict(ArchiveSource::Plesk, &verdict)
}

/// Whether the Plesk importer reads a multipart field: one named `archive`
/// or `file`, or any field while none has been read yet.
pub fn plesk_takes_field(name: Option<&str>, found: bool) -> (r: bool)
    ensures
        r == ((match name {
            Some(n) => n@ == "archive"@ || n@ == "file"@,
            None => false,
        }) || !found),
{
    match name {
        Some(n) => {
            let c = chars_of(n);
            let a = chars_of("archive");
            let f = chars_of("file");
            vec_eq(&c, &a) || vec_eq(&c, &f) || !found
        },
        None => !found,
    }
}

/// The directory a cPanel import job keeps its archive in.
pub open spec fn cpanel_job_dir_text(job_id: Seq<char>) -> Seq<char> {
    "/tmp/orbit-migration-"@ + job_id
}

/// The directory a cPanel import job keeps its archive in.
pub fn cpanel_job_dir(job_id: &str) -> (r: String)
    ensures
        r@ == cpanel_job_dir_text(job_id@),
{
    concat2("/tmp/orbit-migration-", job_id)
}

/// Where a cPanel import job stores its archive.
pub fn cpanel_archive_path(job_id: &str, safe_name: &str) -> (r: String)
    ensures
        r@ == cpanel_job_dir_text(job_id@) + "/"@ + safe_name@,
{
    let dir = cpanel_job_dir(job_id);
    concat3(dir.as_str(), "/", safe_name)
}

/// Where a Plesk import job stores its archive.
pub fn plesk_archive_path(job_id: &str) -> (r: String)
    ensures
        r@ == "/tmp/jottiecp_migration_"@ + job_id@ + ".tar.gz"@,
{
    concat3("/tmp/jottiecp_migration_", job_id, ".tar.gz")
}

/// A name that is one plain path component: not empty, not `.` or `..`,
/// and made only of characters kept in stored names (so no `/`).
pub open spec fn single_component(name: Seq<char>) -> bool {
    &&& name.len() > 0
    &&& name != "."@
    &&& name != ".."@
    &&& forall|i: int| 0 <= i < name.len() ==> name_char_ok(#[trigger] name[i])
}

/// The name found by [`last_name`] is one of the pieces, and neither empty
/// nor `.` or `..`.
proof fn lemma_last_name_plain(pieces: Seq<Seq<char>>)
    ensures
        last_name(pieces) matches Some(b) ==> b.len() > 0 && b != "."@ && b != ".."@,
    decreases pieces.len(),
{
    if pieces.len() > 0 && (pieces.last().len() == 0 || pieces.last() == "."@) {
        lemma_last_name_plain(pieces.drop_last());
    }
}

/// Whatever name an upload arrives with, the name it is stored under is a
/// single plain path component, so the stored archive stays inside the
/// job's directory.
pub proof fn lemma_safe_filename_single_component(original: Seq<char>)
    ensures
        single_component(safe_filename_text(original)),
{
    reveal_strlit("archive.tar.gz");
    reveal_strlit(".");
    reveal_strlit("..");
    lemma_last_name_plain(split_on(original, '/'));
    let base = match file_name_of(original) {
        Some(b) => b,
        None => "archive.tar.gz"@,
    };
    let t = sanitized_chars(base);
    assert(t.len() == base.len());
    if t.len() > 0 {
        assert forall|i: int| 0 <= i < t.len() implies name_char_ok(#[trigger] t[i]) by {}
        if t == "."@ || t == ".."@ {
            assert forall|i: int| 0 <= i < t.len() implies base[i] == '.' by {
                assert(t[i] == '.');
            }
            if t == "."@ {
                assert(base =~= "."@);
            } else {
                assert(base =~= ".."@);
            }
        }
    }
    let a = "archive.tar.gz"@;
    assert forall|i: int| 0 <= i < a.len() implies name_char_ok(#[trigger] a[i]) by {}
}

/// An accepted cPanel archive has no entry, among those checked, whose path
/// is absolute or has a `..` component.
pub proof fn lemma_cpanel_accepted_paths_stay_inside(
    entries: Seq<Result<Seq<char>, Seq<char>>>,
    failure: Option<Seq<char>>,
)
    requires
        cpanel_scan(entries, failure) is Ok,
    ensures
        forall|k: int|
            0 <= k < entries.len() ==> (#[trigger] entries[k] matches Ok(p) ==> !rooted(p) && !has_parent_piece(p)),
    decreases entries.len(),
{
    if entries.len() > 0 {
        lemma_cpanel_accepted_paths_stay_inside(entries.drop_first(), failure);
        assert forall|k: int| 0 <= k < entries.len() implies (#[trigger] entries[k] matches Ok(p) ==> !rooted(p)
            && !has_parent_piece(p)) by {
            if k > 0 {
                assert(entries[k] == entries.drop_first()[k - 1]);
            }
        }
    }
}

/// An accepted Plesk tar archive has no entry whose path contains `..`, and
/// every entry path could be decoded.
pub proof fn lemma_plesk_accepted_paths_plain(
    entries: Seq<Result<Seq<char>, Seq<char>>>,
    failure: Option<Seq<char>>,
)
    requires
        plesk_tar_scan(entries, failure) is Ok,
    ensures
        forall|k: int| 0 <= k < entries.len() ==> (#[trigger] entries[k] matches Ok(p) && !contains_seq(p, ".."@)),
    decreases entries.len(),
{
    if entries.len() > 0 {
        lemma_plesk_accepted_paths_plain(entries.drop_first(), failure);
        assert forall|k: int| 0 <= k < entries.len() implies (#[trigger] entries[k] matches Ok(p) && !contains_seq(
            p,
            ".."@,
        )) by {
            if k > 0 {
                assert(entries[k] == entries.drop_first()[k - 1]);
            }
        }
    }
}

} // verus!
