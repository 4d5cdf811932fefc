//! Panel plugins: the slugs plugins are stored under.

use std::io::{Cursor, Read};
use vstd::prelude::*;
use vstd::string::StringSliceAdditionalSpecFns;
use crate::text::{
    chars_of, concat3, contains_chars, contains_seq, lower_case, str_eq, to_lowercase, trim, trim_str,
};

verus! {

/// A character allowed in a plugin slug.
pub open spec fn is_slug_char(c: char) -> bool {
    ('0' <= c <= '9') || ('a' <= c <= 'z') || ('A' <= c <= 'Z') || c == '-' || c == '_'
}

/// Why a slug is refused, for the trimmed, lower-cased slug `s` of `n`
/// bytes; `None` when it is accepted.
pub open spec fn slug_problem(s: Seq<char>, n: usize) -> Option<Seq<char>> {
    if s.len() == 0 || n > 64 {
        Some("Plugin slug must be 1–64 characters"@)
    } else if !(forall|i: int| 0 <= i < s.len() ==> is_slug_char(#[trigger] s[i])) {
        Some("Plugin slug must contain only letters, digits, hyphens, and underscores"@)
    } else if contains_seq(s, ".."@) || s[0] == '-' {
        Some("Invalid plugin slug"@)
    } else {
        None
    }
}

/// Checks a normalised slug.
pub fn check_slug(s: String) -> (r: Result<String, String>)
    ensures
        match slug_problem(s@, vstd::utf8::encode_utf8(s@).len() as usize) {
            Some(m) => r matches Err(e) && e@ == m,
            None => r matches Ok(v) && v@ == s@,
        },
{
    let v = chars_of(s.as_str());
    let n = s.as_str().len();
    if v.len() == 0 || n > 64 {
        return Err(String::from_str("Plugin slug must be 1–64 characters"));
    }
    let mut i: usize = 0;
    while i < v.len()
        invariant
            i <= v@.len(),
            v@ == s@,
            v@.len() > 0,
            n <= 64,
            n == vstd::utf8::encode_utf8(s@).len() as usize,
            forall|k: int| 0 <= k < i ==> is_slug_char(#[trigger] v@[k]),
        decreases v@.len() - i,
    {
        let c = v[i];
        if !(('0' <= c && c <= '9') || ('a' <= c && c <= 'z') || ('A' <= c && c <= 'Z') || c == '-'
            || c == '_') {
            assert(!is_slug_char(v@[i as int]));
            return Err(
                String::from_str(
                    "Plugin slug must contain only letters, digits, hyphens, and underscores",
                ),
            );
        }
        i = i + 1;
    }
    let dd = chars_of("..");
    if contains_chars(&v, &dd) || v[0] == '-' {
        return Err(String::from_str("Invalid plugin slug"));
    }
    Ok(s)
}

/// Normalises a plugin slug (trimmed and lower-cased) and checks it:
/// 1–64 bytes of ASCII letters, digits, `-` and `_`, no `..`, not
/// starting with `-`.
pub fn sanitize_slug(slug: &str) -> (r: Result<String, String>)
    ensures
        ({
            let s = lower_case(trim(slug@));
            match slug_problem(s, vstd::utf8::encode_utf8(s).len() as usize) {
                Some(m) => r matches Err(e) && e@ == m,
                None => r matches Ok(v) && v@ == s,
            }
        }),
{
    let t = trim_str(slug);
    let s = to_lowercase(t.as_str());
    check_slug(s)
}

/// Largest plugin archive accepted (50 MiB).
pub const MAX_PLUGIN_BYTES: usize = 52428800;

/// Where plugins are installed.
pub const PLUGIN_INSTALL_DIR: &'static str = "/var/jotticp/plugins";

/// Whether a multipart field carries the plugin archive: it is named
/// `plugin` or `file`.
pub fn is_plugin_field(name: &str) -> (r: bool)
    ensures
        r == (name@ == "plugin"@ || name@ == "file"@),
{
    str_eq(name, "plugin") || str_eq(name, "file")
}

/// Checks an uploaded plugin archive: at most 50 MiB and starting like
/// gzip.
pub fn check_plugin_upload(data: &[u8]) -> (r: Result<(), String>)
    ensures
        data@.len() > MAX_PLUGIN_BYTES ==> (r matches Err(m) && m@ == "Plugin archive must be \u{2264} 50 MB"@),
        data@.len() <= MAX_PLUGIN_BYTES && !(data@.len() >= 2 && data@[0] == 0x1f && data@[1] == 0x8b) ==> (
        r matches Err(m) && m@ == "Plugin file must be a .tar.gz archive"@),
        r is Ok <==> data@.len() <= MAX_PLUGIN_BYTES && data@.len() >= 2 && data@[0] == 0x1f && data@[1] == 0x8b,
{
    if data.len() > MAX_PLUGIN_BYTES {
        return Err(String::from_str("Plugin archive must be \u{2264} 50 MB"));
    }
    if data.len() < 2 || data[0] != 0x1f || data[1] != 0x8b {
        return Err(String::from_str("Plugin file must be a .tar.gz archive"));
    }
    Ok(())
}

/// The directory a plugin is installed in.
pub fn plugin_install_dir(slug: &str) -> (r: String)
    ensures
        r@ == PLUGIN_INSTALL_DIR@ + "/"@ + slug@,
{
    concat3(PLUGIN_INSTALL_DIR, "/", slug)
}

/// Where an uploaded plugin archive is written in its directory.
pub fn plugin_archive_path(install_dir: &str, filename: &str) -> (r: String)
    ensures
        r@ == install_dir@ + "/"@ + filename@,
{
    concat3(install_dir, "/", filename)
}

/// The plan a plugin needs: the manifest's, or `community` when it names
/// none.
pub fn plugin_requires_plan(requires_plan: Option<&str>) -> (r: String)
    ensures
        r@ == (match requires_plan {
            Some(p) => p@,
            None => "community"@,
        }),
{
    match requires_plan {
        Some(p) => String::from_str(p),
        None => String::from_str("community"),
    }
}


/// An entry of a tar stream with its contents: its path and the bytes read
/// from it (or the read error's text), or the error that stopped the
/// reading.
pub type TarFile = Result<(String, Result<Vec<u8>, String>), String>;

/// The view of a tar entry with its contents.
pub open spec fn tar_file_view(f: TarFile) -> Result<(Seq<char>, Result<Seq<u8>, Seq<char>>), Seq<char>> {
    match f {
        Ok((p, Ok(b))) => Ok((p@, Ok(b@))),
        Ok((p, Err(e))) => Ok((p@, Err(e@))),
        Err(e) => Err(e@),
    }
}

/// The view of tar entries with their contents.
pub open spec fn tar_files_view(v: Seq<TarFile>) -> Seq<Result<(Seq<char>, Result<Seq<u8>, Seq<char>>), Seq<char>>> {
    v.map_values(|f: TarFile| tar_file_view(f))
}

/// What `tar::Archive::entries` over the gunzipped bytes yields, in order:
/// each entry's path (read lossily as text) and its contents read to the
/// end, or the error met reading the entry or its path, which ends the list.
pub uninterp spec fn tar_gz_files_of(data: Seq<u8>) -> Seq<Result<(Seq<char>, Result<Seq<u8>, Seq<char>>), Seq<char>>>;

/// `tar::Archive::entries` over `GzDecoder`, reading each entry's path and
/// contents; an error on an entry or its path is the last item. Named, not
/// described.
#[verifier::external_body]
fn list_tar_gz_files(data: &[u8]) -> (r: Vec<TarFile>)
    ensures
        tar_files_view(r@) == tar_gz_files_of(data@),
{
    let (mut archive, mut out) = (tar::Archive::new(flate2::read::GzDecoder::new(Cursor::new(data))), Vec::new());
    let entries = match archive.entries() {
        Ok(e) => e,
        Err(e) => return vec![Err(e.to_string())],
    };
    for entry in entries {
        let item = entry.and_then(|mut x| {
            let (p, mut b) = (x.path()?.to_string_lossy().into_owned(), Vec::new());
            Ok((p, x.read_to_end(&mut b).map(|_| b).map_err(|e| e.to_string())))
        });
        let stop = item.is_err();
        out.push(item.map_err(|e| e.to_string()));
        if stop { break; }
    }
    out
}

/// The entry that holds a plugin's manifest: its file name is
/// `jotti-plugin.toml`.
pub open spec fn is_manifest_entry(path: Seq<char>) -> bool {
    crate::panel::migration::file_name_of(path) == Some("jotti-plugin.toml"@)
}

/// The manifest text of a plugin archive from its entries: the first entry
/// named `jotti-plugin.toml`, read as UTF-8; an error met before it, or in
/// reading it, is the answer; no such entry is refused.
pub open spec fn manifest_text_from(
    entries: Seq<Result<(Seq<char>, Result<Seq<u8>, Seq<char>>), Seq<char>>>,
) -> Result<Seq<char>, Seq<char>>
    decreases entries.len(),
{
    if entries.len() == 0 {
        Err("jotti-plugin.toml not found in archive root"@)
    } else {
        match entries[0] {
            Err(e) => Err(e),
            Ok((p, content)) => if is_manifest_entry(p) {
                match content {
                    Err(e) => Err(e),
                    Ok(b) => if vstd::utf8::valid_utf8(b) {
                        Ok(vstd::utf8::decode_utf8(b))
                    } else {
                        Err("stream did not contain valid UTF-8"@)
                    },
                }
            } else {
                manifest_text_from(entries.drop_first())
            },
        }
    }
}

/// Reads the text of `jotti-plugin.toml` from an uploaded plugin archive
/// (a gzipped tar).
pub fn plugin_manifest_text(data: &[u8]) -> (r: Result<String, String>)
    ensures
        match manifest_text_from(tar_gz_files_of(data@)) {
            Ok(t) => r matches Ok(s) && s@ == t,
            Err(e) => r matches Err(m) && m@ == e,
        },
{
    let files = list_tar_gz_files(data);
    let ghost all = tar_files_view(files@);
    let n = files.len();
    assert(all.skip(0) =~= all);
    for i in 0..n
        invariant
            n == files@.len(),
            all == tar_files_view(files@),
            all == tar_gz_files_of(data@),
            manifest_text_from(all) == manifest_text_from(all.skip(i as int)),
    {
        let ghost rest = all.skip(i as int);
        assert(rest.drop_first() =~= all.skip(i + 1));
        assert(rest[0] == tar_file_view(files@[i as int]));
        match &files[i] {
            Err(e) => return Err(String::from_str(e.as_str())),
            Ok((path, content)) => {
                let named = match crate::panel::migration::file_name(path.as_str()) {
                    Some(f) => str_eq(f.as_str(), "jotti-plugin.toml"),
                    None => false,
                };
                if named {
                    return match content {
                        Err(e) => Err(String::from_str(e.as_str())),
                        Ok(b) => match crate::panel::cloudflare::string_from_utf8(copy_bytes(b)) {
                            Some(t) => Ok(t),
                            None => Err(String::from_str("stream did not contain valid UTF-8")),
                        },
                    };
                }
            },
        }
    }
    assert(all.skip(n as int) =~= Seq::<Result<(Seq<char>, Result<Seq<u8>, Seq<char>>), Seq<char>>>::empty());
    Err(String::from_str("jotti-plugin.toml not found in archive root"))
}

/// A copy of some bytes.
fn copy_bytes(b: &Vec<u8>) -> (r: Vec<u8>)
    ensures
        r@ == b@,
{
    let mut out: Vec<u8> = Vec::new();
    for i in 0..b.len()
        invariant
            out@ == b@.take(i as int),
    {
        out.push(b[i]);
        assert(out@ =~= b@.take(i + 1));
    }
    assert(b@.take(b@.len() as int) =~= b@);
    out
}

} // verus!
