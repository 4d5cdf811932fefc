//! The web file manager.

use vstd::prelude::*;
use crate::text::{
    chars_of, ends_with_chars, has_suffix, join_path, join_path_str, lower_case, split_chars, split_on,
    string_from_chars, to_lowercase,
};
use crate::mail::queue::strip_leading;

verus! {

#[derive(Debug)]
pub struct DirEntry {
    pub name:         String,
    pub path:         String,
    pub is_dir:       bool,
    pub size:         u64,
    pub modified_at:  String,
    pub permissions:  String,
    pub owner:        String,
}

#[derive(Debug)]
pub struct ListDirResponse {
    pub entries: Vec<DirEntry>,
    pub path:    String,
}


/// `a` comes before `b` in the order of characters: at the first place
/// where they differ, or as a proper prefix of `b`. On UTF-8 text this is the
/// byte order that `String` compares by.
pub open spec fn text_lt(a: Seq<char>, b: Seq<char>) -> bool
    decreases a.len(),
{
    if a.len() == 0 {
        b.len() > 0
    } else if b.len() == 0 {
        false
    } else if a[0] != b[0] {
        a[0] < b[0]
    } else {
        text_lt(a.drop_first(), b.drop_first())
    }
}

/// A directory listing shows `a` before `b`: directories before files,
/// and names ascending among directories and among files.
pub open spec fn listed_before(a: DirEntry, b: DirEntry) -> bool {
    (a.is_dir && !b.is_dir) || (a.is_dir == b.is_dir && text_lt(a.name@, b.name@))
}

/// No entry of `s` is listed before an entry that precedes it.
pub open spec fn listing_ordered(s: Seq<DirEntry>) -> bool {
    forall|i: int, j: int| 0 <= i < j < s.len() ==> !listed_before(#[trigger] s[j], #[trigger] s[i])
}

/// Of two texts at most one comes before the other, and two texts neither
/// of which comes before the other are equal.
proof fn lemma_text_lt_pair(a: Seq<char>, b: Seq<char>)
    ensures
        text_lt(a, b) ==> !text_lt(b, a),
        !text_lt(a, b) && !text_lt(b, a) ==> a == b,
    decreases a.len(),
{
    if a.len() == 0 && b.len() == 0 {
        assert(a =~= b);
    } else if a.len() > 0 && b.len() > 0 && a[0] == b[0] {
        lemma_text_lt_pair(a.drop_first(), b.drop_first());
        if a.drop_first() == b.drop_first() {
            assert forall|k: int| 0 <= k < a.len() implies a[k] == b[k] by {
                if k > 0 {
                    assert(a[k] == a.drop_first()[k - 1]);
                    assert(b[k] == b.drop_first()[k - 1]);
                }
            }
            assert(a =~= b);
        }
    }
}

/// The order of texts is transitive.
proof fn lemma_text_lt_trans(a: Seq<char>, b: Seq<char>, c: Seq<char>)
    requires
        text_lt(a, b),
        text_lt(b, c),
    ensures
        text_lt(a, c),
    decreases a.len(),
{
    if a.len() > 0 && a[0] == b[0] && b[0] == c[0] {
        lemma_text_lt_trans(a.drop_first(), b.drop_first(), c.drop_first());
    }
}

/// The listing order is asymmetric, and whatever is listed before `a` is
/// listed before `b` or `b` is listed before `a`.
proof fn lemma_listed_before(a: DirEntry, b: DirEntry, c: DirEntry)
    ensures
        listed_before(a, b) ==> !listed_before(b, a),
        listed_before(c, a) ==> listed_before(c, b) || listed_before(b, a),
{
    lemma_text_lt_pair(a.name@, b.name@);
    lemma_text_lt_pair(b.name@, c.name@);
    lemma_text_lt_pair(a.name@, c.name@);
    if text_lt(a.name@, b.name@) && text_lt(b.name@, c.name@) {
        lemma_text_lt_trans(a.name@, b.name@, c.name@);
    }
}

/// Whether `a` comes before `b` in the order of characters.
fn text_lt_exec(a: &str, b: &str) -> (r: bool)
    ensures
        r == text_lt(a@, b@),
{
    let av = chars_of(a);
    let bv = chars_of(b);
    let mut i: usize = 0;
    assert(a@.skip(0) =~= a@ && b@.skip(0) =~= b@);
    while i < av.len() && i < bv.len() && av[i] == bv[i]
        invariant
            av@ == a@,
            bv@ == b@,
            i <= av@.len(),
            i <= bv@.len(),
            text_lt(a@, b@) == text_lt(a@.skip(i as int), b@.skip(i as int)),
        decreases av@.len() - i,
    {
        assert(a@.skip(i as int).drop_first() =~= a@.skip(i + 1));
        assert(b@.skip(i as int).drop_first() =~= b@.skip(i + 1));
        i = i + 1;
    }
    if i == av.len() {
        i < bv.len()
    } else if i == bv.len() {
        false
    } else {
        av[i] < bv[i]
    }
}

/// Whether a listing shows `a` before `b`.
fn listed_before_exec(a: &DirEntry, b: &DirEntry) -> (r: bool)
    ensures
        r == listed_before(*a, *b),
{
    if a.is_dir && !b.is_dir {
        true
    } else if a.is_dir == b.is_dir {
        text_lt_exec(a.name.as_str(), b.name.as_str())
    } else {
        false
    }
}

/// The entries of a directory in listing order: directories first, then
/// files, each group by ascending name. Entries that neither precedes keep
/// the order they came in.
pub fn order_entries(v: Vec<DirEntry>) -> (r: Vec<DirEntry>)
    ensures
        r@.to_multiset() == v@.to_multiset(),
        listing_ordered(r@),
{
    let ghost orig = v@;
    let ghost mut done: int = 0;
    let mut rest = v;
    let mut out: Vec<DirEntry> = Vec::new();
    proof {
        assert(orig.subrange(0, 0) =~= Seq::<DirEntry>::empty());
        assert(rest@ =~= orig.subrange(0, orig.len() as int));
    }
    while rest.len() > 0
        invariant
            0 <= done <= orig.len(),
            rest@ == orig.subrange(done, orig.len() as int),
            out@.to_multiset() == orig.subrange(0, done).to_multiset(),
            listing_ordered(out@),
        decreases rest@.len(),
    {
        let x = rest.remove(0);
        let ghost before = out@;
        let mut p: usize = out.len();
        while p > 0 && listed_before_exec(&x, &out[p - 1])
            invariant
                out@ == before,
                p <= before.len(),
                forall|k: int| p <= k < before.len() ==> listed_before(x, #[trigger] before[k]),
            decreases p,
        {
            p = p - 1;
        }
        out.insert(p, x);
        proof {
            let ne = out@;
            assert(ne =~= before.insert(p as int, x));
            assert forall|i: int, j: int| 0 <= i < j < ne.len() implies !listed_before(#[trigger] ne[j], #[trigger] ne[i]) by {
                if j < p {
                    assert(ne[i] == before[i] && ne[j] == before[j]);
                } else if j == p {
                    assert(ne[i] == before[i]);
                    lemma_listed_before(before[i], before[p - 1], x);
                    if i < p - 1 {
                        assert(!listed_before(before[p - 1], before[i]));
                    }
                } else if i < p {
                    assert(ne[i] == before[i] && ne[j] == before[j - 1]);
                } else if i == p {
                    assert(ne[j] == before[j - 1]);
                    assert(listed_before(x, before[j - 1]));
                    lemma_listed_before(x, before[j - 1], x);
                } else {
                    assert(ne[i] == before[i - 1] && ne[j] == before[j - 1]);
                }
            }
            vstd::seq_lib::to_multiset_insert(before, p as int, x);
            assert(orig.subrange(0, done + 1) =~= orig.subrange(0, done).push(x));
            vstd::seq_lib::to_multiset_build(orig.subrange(0, done), x);
            done = done + 1;
            assert(rest@ =~= orig.subrange(done, orig.len() as int));
        }
    }
    proof {
        assert(orig.subrange(0, done) =~= orig);
    }
    out
}

/// The directory stack after walking path pieces: `..` leaves the last
/// directory (none at the top), empty pieces and `.` are skipped, any other
/// piece is entered.
pub open spec fn walk(pieces: Seq<Seq<char>>) -> Seq<Seq<char>>
    decreases pieces.len(),
{
    if pieces.len() == 0 {
        Seq::empty()
    } else {
        let prev = walk(pieces.drop_last());
        let p = pieces.last();
        if p == ".."@ {
            if prev.len() > 0 {
                prev.drop_last()
            } else {
                prev
            }
        } else if p.len() == 0 || p == "."@ {
            prev
        } else {
            prev.push(p)
        }
    }
}

/// `parts` joined with `/`.
pub open spec fn join_slash(parts: Seq<Seq<char>>) -> Seq<char>
    decreases parts.len(),
{
    if parts.len() == 0 {
        Seq::empty()
    } else if parts.len() == 1 {
        parts[0]
    } else {
        join_slash(parts.drop_last()) + seq!['/'] + parts.last()
    }
}

/// The directories of a path once `.` and `..` are resolved lexically.
pub open spec fn normal_parts(path: Seq<char>) -> Seq<Seq<char>> {
    walk(split_on(path, '/'))
}

/// A path is absolute.
pub open spec fn is_absolute(path: Seq<char>) -> bool {
    path.len() > 0 && path[0] == '/'
}

/// A path with `.` and `..` resolved lexically, without touching the
/// file system; `..` at the top stays at the top.
pub open spec fn normalized(path: Seq<char>) -> Seq<char> {
    if is_absolute(path) {
        seq!['/'] + join_slash(normal_parts(path))
    } else {
        join_slash(normal_parts(path))
    }
}

proof fn lemma_walk_clean(pieces: Seq<Seq<char>>)
    ensures
        forall|i: int|
            0 <= i < walk(pieces).len() ==> #[trigger] walk(pieces)[i] != ".."@ && walk(pieces)[i]
                != "."@ && walk(pieces)[i].len() > 0,
    decreases pieces.len(),
{
    if pieces.len() > 0 {
        lemma_walk_clean(pieces.drop_last());
        let prev = walk(pieces.drop_last());
        assert forall|i: int| 0 <= i < walk(pieces).len() implies #[trigger] walk(pieces)[i]
            != ".."@ && walk(pieces)[i] != "."@ && walk(pieces)[i].len() > 0 by {
            if i < prev.len() {
                assert(walk(pieces)[i] == prev[i]);
            }
        }
    }
}

/// A normalized path holds no `.`, `..` or empty directory names.
pub proof fn lemma_normalized_is_clean(path: Seq<char>)
    ensures
        forall|i: int|
            0 <= i < normal_parts(path).len() ==> #[trigger] normal_parts(path)[i] != ".."@
                && normal_parts(path)[i] != "."@ && normal_parts(path)[i].len() > 0,
{
    lemma_walk_clean(split_on(path, '/'));
}

/// Walks path pieces.
fn walk_exec(pieces: &Vec<Vec<char>>) -> (r: Vec<Vec<char>>)
    ensures
        r@.len() == walk(pieces@.map_values(|p: Vec<char>| p@)).len(),
        forall|k: int| 0 <= k < r@.len() ==> #[trigger] r@[k]@ == walk(
            pieces@.map_values(|p: Vec<char>| p@),
        )[k],
{
    let ghost pv = pieces@.map_values(|p: Vec<char>| p@);
    let dots = chars_of("..");
    let dot = chars_of(".");
    let mut out: Vec<Vec<char>> = Vec::new();
    let mut i: usize = 0;
    while i < pieces.len()
        invariant
            i <= pieces@.len(),
            pv == pieces@.map_values(|p: Vec<char>| p@),
            dots@ == ".."@,
            dot@ == "."@,
            out@.len() == walk(pv.take(i as int)).len(),
            forall|k: int| 0 <= k < out@.len() ==> #[trigger] out@[k]@ == walk(pv.take(i as int))[k],
        decreases pieces@.len() - i,
    {
        assert(pv.take(i + 1).drop_last() =~= pv.take(i as int));
        assert(pv.take(i + 1).last() == pieces@[i as int]@);
        let ghost prev = walk(pv.take(i as int));
        let p = &pieces[i];
        if crate::text::vec_eq(p, &dots) {
            if out.len() > 0 {
                out.pop();
                assert forall|k: int| 0 <= k < out@.len() implies #[trigger] out@[k]@
                    == prev.drop_last()[k] by {}
            }
        } else if p.len() == 0 || crate::text::vec_eq(p, &dot) {
        } else {
            out.push(p.clone());
            assert forall|k: int| 0 <= k < out@.len() implies #[trigger] out@[k]@ == prev.push(
                pieces@[i as int]@,
            )[k] by {}
        }
        i = i + 1;
    }
    assert(pv.take(pieces@.len() as int) =~= pv);
    out
}

/// Joins path pieces with `/`.
fn join_slash_exec(parts: &Vec<Vec<char>>) -> (r: Vec<char>)
    ensures
        r@ == join_slash(parts@.map_values(|p: Vec<char>| p@)),
{
    let ghost pv = parts@.map_values(|p: Vec<char>| p@);
    let mut out: Vec<char> = Vec::new();
    let mut i: usize = 0;
    while i < parts.len()
        invariant
            i <= parts@.len(),
            pv == parts@.map_values(|p: Vec<char>| p@),
            out@ == join_slash(pv.take(i as int)),
        decreases parts@.len() - i,
    {
        assert(pv.take(i + 1).drop_last() =~= pv.take(i as int));
        assert(pv.take(i + 1).last() == parts@[i as int]@);
        let ghost before = out@;
        if i > 0 {
            out.push('/');
        }
        let p = &parts[i];
        let mut j: usize = 0;
        let ghost mid = out@;
        while j < p.len()
            invariant
                j <= p@.len(),
                out@ == mid + p@.take(j as int),
            decreases p@.len() - j,
        {
            out.push(p[j]);
            assert(p@.take(j + 1) =~= p@.take(j as int).push(p@[j as int]));
            j = j + 1;
        }
        assert(p@.take(p@.len() as int) =~= p@);
        if i == 0 {
            assert(pv.take(1) =~= seq![parts@[0]@]);
            assert(out@ =~= parts@[0]@);
        } else {
            assert(out@ =~= before + seq!['/'] + parts@[i as int]@);
        }
        i = i + 1;
    }
    assert(pv.take(parts@.len() as int) =~= pv);
    out
}

/// Resolves `.` and `..` in a path lexically (`..` at the top is dropped).
pub fn normalize_path(path: &str) -> (r: String)
    ensures
        r@ == normalized(path@),
{
    let v = chars_of(path);
    let pieces = split_chars(&v, '/');
    assert(pieces@.map_values(|p: Vec<char>| p@) =~= split_on(path@, '/'));
    let parts = walk_exec(&pieces);
    assert(parts@.map_values(|p: Vec<char>| p@) =~= normal_parts(path@));
    let joined = join_slash_exec(&parts);
    if v.len() > 0 && v[0] == '/' {
        let mut out: Vec<char> = Vec::new();
        out.push('/');
        let mut k: usize = 0;
        while k < joined.len()
            invariant
                k <= joined@.len(),
                out@ == seq!['/'] + joined@.take(k as int),
            decreases joined@.len() - k,
        {
            out.push(joined[k]);
            assert(joined@.take(k + 1) =~= joined@.take(k as int).push(joined@[k as int]));
            k = k + 1;
        }
        assert(joined@.take(joined@.len() as int) =~= joined@);
        string_from_chars(&out)
    } else {
        string_from_chars(&joined)
    }
}

/// Why a file manager path was refused.
#[derive(Debug, Clone, Copy, PartialEq, Eq)]
pub enum PathError {
    /// The path leaves the site's home.
    Traversal,
}

/// Where a new file named by `user_path` goes under `base`: leading slashes
/// dropped, joined onto the base, `.` and `..` resolved.
pub open spec fn new_path_target(base: Seq<char>, user_path: Seq<char>) -> Seq<char> {
    normalized(join_path(base, strip_leading(user_path, '/')))
}

/// A path lies inside `base`: both absolute or both relative, and the
/// directories of `base` are the first directories of the path.
pub open spec fn inside(base: Seq<char>, path: Seq<char>) -> bool {
    is_absolute(base) == is_absolute(path) && normal_parts(base).len() <= normal_parts(path).len()
        && normal_parts(path).take(normal_parts(base).len() as int) == normal_parts(base)
}

/// Resolves a user-supplied path for a file that may not exist yet inside
/// the site home `base` (an already resolved path, free of `.` and `..`),
/// refusing any path that ends up outside it.
pub fn safe_resolve_new(base: &str, user_path: &str) -> (r: Result<String, PathError>)
    ensures
        match r {
            Ok(p) => p@ == new_path_target(base@, user_path@) && inside(base@, p@),
            Err(_) => !inside(base@, new_path_target(base@, user_path@)),
        },
{
    let uv = chars_of(user_path);
    let mut i: usize = 0;
    assert(uv@.skip(0) =~= uv@);
    while i < uv.len() && uv[i] == '/'
        invariant
            i <= uv@.len(),
            uv@ == user_path@,
            strip_leading(uv@, '/') == strip_leading(uv@.skip(i as int), '/'),
        decreases uv@.len() - i,
    {
        assert(uv@.skip(i as int).drop_first() =~= uv@.skip(i + 1));
        i = i + 1;
    }
    let stripped = crate::text::slice_chars(&uv, i, uv.len());
    assert(stripped@ =~= uv@.skip(i as int));
    assert(strip_leading(stripped@, '/') == stripped@);
    let ss = string_from_chars(&stripped);
    let candidate = join_path_str(base, ss.as_str());
    let n = normalize_path(candidate.as_str());
    if inside_exec(base, n.as_str()) {
        Ok(n)
    } else {
        Err(PathError::Traversal)
    }
}

/// Whether `path` lies inside `base`.
fn inside_exec(base: &str, path: &str) -> (r: bool)
    ensures
        r == inside(base@, path@),
{
    let bv = chars_of(base);
    let pv = chars_of(path);
    let b_abs = bv.len() > 0 && bv[0] == '/';
    let p_abs = pv.len() > 0 && pv[0] == '/';
    assert(b_abs == is_absolute(base@));
    assert(p_abs == is_absolute(path@));
    if b_abs != p_abs {
        return false;
    }
    let bs = split_chars(&bv, '/');
    assert(bs@.map_values(|p: Vec<char>| p@) =~= split_on(base@, '/'));
    let ps = split_chars(&pv, '/');
    assert(ps@.map_values(|p: Vec<char>| p@) =~= split_on(path@, '/'));
    let bp = walk_exec(&bs);
    let pp = walk_exec(&ps);
    let ghost nb = normal_parts(base@);
    let ghost np = normal_parts(path@);
    if bp.len() > pp.len() {
        return false;
    }
    let mut k: usize = 0;
    while k < bp.len()
        invariant
            nb == normal_parts(base@),
            np == normal_parts(path@),
            bp@.len() == nb.len(),
            pp@.len() == np.len(),
            forall|q: int| 0 <= q < bp@.len() ==> #[trigger] bp@[q]@ == nb[q],
            forall|q: int| 0 <= q < pp@.len() ==> #[trigger] pp@[q]@ == np[q],
            bp@.len() <= pp@.len(),
            k <= bp@.len(),
            forall|q: int| 0 <= q < k ==> nb[q] == np[q],
        decreases bp@.len() - k,
    {
        if !crate::text::vec_eq(&bp[k], &pp[k]) {
            assert(np.take(nb.len() as int)[k as int] != nb[k as int]);
            return false;
        }
        k = k + 1;
    }
    assert(np.take(nb.len() as int) =~= nb);
    true
}

/// The archive formats the file manager can extract.
#[derive(Debug, Clone, Copy, PartialEq, Eq)]
pub enum ArchiveFormat {
    TarGz,
    Zip,
}

/// The format of an archive by the end of its lower-cased path: `.tar.gz`
/// or `.tgz` for a gzip tarball, `.zip` for a zip archive.
pub open spec fn archive_format_of(path: Seq<char>) -> Option<ArchiveFormat> {
    let l = lower_case(path);
    if has_suffix(l, ".tar.gz"@) || has_suffix(l, ".tgz"@) {
        Some(ArchiveFormat::TarGz)
    } else if has_suffix(l, ".zip"@) {
        Some(ArchiveFormat::Zip)
    } else {
        None
    }
}

/// Which extractor an archive path calls for, or the refusal of any other.
pub fn archive_format(path: &str) -> (r: Result<ArchiveFormat, String>)
    ensures
        match archive_format_of(path@) {
            Some(f) => r == Ok::<ArchiveFormat, String>(f),
            None => r matches Err(m) && m@ == "Unsupported archive format. Supported: .tar.gz, .tgz, .zip"@,
        },
{
    let lower = to_lowercase(path);
    let l = chars_of(lower.as_str());
    let tgz = chars_of(".tar.gz");
    let short = chars_of(".tgz");
    let zip = chars_of(".zip");
    if ends_with_chars(&l, &tgz) || ends_with_chars(&l, &short) {
        Ok(ArchiveFormat::TarGz)
    } else if ends_with_chars(&l, &zip) {
        Ok(ArchiveFormat::Zip)
    } else {
        Err(String::from_str("Unsupported archive format. Supported: .tar.gz, .tgz, .zip"))
    }
}

/// `Path::join` of an entry path onto a directory: an absolute entry
/// replaces the directory.
pub open spec fn join_entry(dir: Seq<char>, entry: Seq<char>) -> Seq<char> {
    if is_absolute(entry) {
        entry
    } else {
        join_path(dir, entry)
    }
}

/// Where an archive entry is written when extracted into `dest`: the joined
/// path, normalized, provided it lies inside `limit` (the extraction
/// directory for a tarball, the site home for a zip archive); `None` for an
/// entry that would escape it.
pub open spec fn entry_target_of(dest: Seq<char>, limit: Seq<char>, entry: Seq<char>) -> Option<Seq<char>> {
    let target = normalized(join_entry(dest, entry));
    if inside(limit, target) {
        Some(target)
    } else {
        None
    }
}

/// Where an archive entry is extracted to, or `None` when it would land
/// outside `limit` and is skipped.
pub fn entry_target(dest: &str, limit: &str, entry: &str) -> (r: Option<String>)
    ensures
        match entry_target_of(dest@, limit@, entry@) {
            Some(t) => r matches Some(p) && p@ == t,
            None => r is None,
        },
{
    let ev = chars_of(entry);
    let joined = if ev.len() > 0 && ev[0] == '/' {
        String::from_str(entry)
    } else {
        join_path_str(dest, entry)
    };
    let target = normalize_path(joined.as_str());
    if inside_exec(limit, target.as_str()) {
        Some(target)
    } else {
        None
    }
}

/// `path` lies strictly below `dir`: inside it and not `dir` itself.
pub open spec fn below(dir: Seq<char>, path: Seq<char>) -> bool {
    inside(dir, path) && !inside(path, dir)
}

/// Where an archive entry is extracted to when `links` are the places where
/// symbolic links were already extracted: as [`entry_target_of`], and
/// `None` as well for a target that would pass through one of the links.
pub open spec fn entry_target_past_links(
    dest: Seq<char>,
    limit: Seq<char>,
    links: Seq<Seq<char>>,
    entry: Seq<char>,
) -> Option<Seq<char>> {
    match entry_target_of(dest, limit, entry) {
        Some(t) => if exists|k: int| 0 <= k < links.len() && below(#[trigger] links[k], t) {
            None
        } else {
            Some(t)
        },
        None => None,
    }
}

/// Where an archive entry is extracted to, given the places where symbolic
/// links were extracted before it: `None` when it would land outside
/// `limit` or beneath one of those links.
pub fn entry_target_checked(dest: &str, limit: &str, links: &Vec<String>, entry: &str) -> (r: Option<String>)
    ensures
        match entry_target_past_links(dest@, limit@, crate::mail::lines::line_views(links@), entry@) {
            Some(t) => r matches Some(p) && p@ == t,
            None => r is None,
        },
{
    let ghost lv = crate::mail::lines::line_views(links@);
    let t = match entry_target(dest, limit, entry) {
        Some(t) => t,
        None => return None,
    };
    let mut k: usize = 0;
    while k < links.len()
        invariant
            k <= links@.len(),
            lv == crate::mail::lines::line_views(links@),
            entry_target_of(dest@, limit@, entry@) == Some(t@),
            forall|j: int| 0 <= j < k ==> !below(#[trigger] lv[j], t@),
        decreases links@.len() - k,
    {
        assert(lv[k as int] == links@[k as int]@);
        if inside_exec(links[k].as_str(), t.as_str()) && !inside_exec(t.as_str(), links[k].as_str()) {
            assert(below(lv[k as int], t@));
            return None;
        }
        k = k + 1;
    }
    Some(t)
}

/// A checked target is inside the limit and beneath none of the links
/// extracted before it.
pub proof fn lemma_checked_target_avoids_links(
    dest: Seq<char>,
    limit: Seq<char>,
    links: Seq<Seq<char>>,
    entry: Seq<char>,
)
    ensures
        entry_target_past_links(dest, limit, links, entry) matches Some(t) ==> inside(limit, t) && forall|k: int|
            0 <= k < links.len() ==> !below(#[trigger] links[k], t),
{
}

/// What a tar entry is, as far as extracting it is concerned.
#[derive(Debug, Clone, Copy, PartialEq, Eq)]
pub enum TarEntryKind {
    /// A directory: created.
    Directory,
    /// A symbolic link: unpacked, and nothing later is extracted beneath it.
    Symlink,
    /// Anything else: unpacked.
    Other,
}

/// The paths and kinds of archive entries.
pub open spec fn entry_views(entries: Seq<(String, TarEntryKind)>) -> Seq<(Seq<char>, TarEntryKind)> {
    entries.map_values(|e: (String, TarEntryKind)| (e.0@, e.1))
}

/// The places where symbolic links land once `entries` were extracted in
/// order into `dest`, entries landing outside `limit` or beneath an
/// earlier link being skipped.
pub open spec fn extracted_links(
    dest: Seq<char>,
    limit: Seq<char>,
    entries: Seq<(Seq<char>, TarEntryKind)>,
) -> Seq<Seq<char>>
    decreases entries.len(),
{
    if entries.len() == 0 {
        Seq::empty()
    } else {
        let before = extracted_links(dest, limit, entries.drop_last());
        match entry_target_past_links(dest, limit, before, entries.last().0) {
            Some(t) => if entries.last().1 == TarEntryKind::Symlink {
                before.push(t)
            } else {
                before
            },
            None => before,
        }
    }
}

/// Where the entry at `k` lands when `entries` are extracted in order:
/// `None` when it is skipped.
pub open spec fn extraction_target(
    dest: Seq<char>,
    limit: Seq<char>,
    entries: Seq<(Seq<char>, TarEntryKind)>,
    k: int,
) -> Option<Seq<char>> {
    entry_target_past_links(dest, limit, extracted_links(dest, limit, entries.take(k)), entries[k].0)
}

/// Where each entry of a tar archive is extracted to, in archive order:
/// `None` for an entry that is skipped because it would land outside
/// `limit` or beneath a symbolic link extracted before it.
pub fn extraction_targets(dest: &str, limit: &str, entries: &Vec<(String, TarEntryKind)>) -> (r: Vec<Option<String>>)
    ensures
        r@.len() == entries@.len(),
        forall|k: int|
            0 <= k < entries@.len() ==> match extraction_target(dest@, limit@, entry_views(entries@), k) {
                Some(t) => #[trigger] r@[k] matches Some(p) && p@ == t,
                None => r@[k] is None,
            },
{
    let ghost ev = entry_views(entries@);
    let mut links: Vec<String> = Vec::new();
    let mut out: Vec<Option<String>> = Vec::new();
    let mut i: usize = 0;
    assert(ev.take(0) =~= Seq::<(Seq<char>, TarEntryKind)>::empty());
    assert(crate::mail::lines::line_views(links@) =~= Seq::<Seq<char>>::empty());
    while i < entries.len()
        invariant
            i <= entries@.len(),
            ev == entry_views(entries@),
            ev.len() == entries@.len(),
            out@.len() == i,
            crate::mail::lines::line_views(links@) == extracted_links(dest@, limit@, ev.take(i as int)),
            forall|k: int|
                0 <= k < i ==> match extraction_target(dest@, limit@, ev, k) {
                    Some(t) => #[trigger] out@[k] matches Some(p) && p@ == t,
                    None => out@[k] is None,
                },
        decreases entries@.len() - i,
    {
        let ghost before_links = crate::mail::lines::line_views(links@);
        assert(ev[i as int] == (entries@[i as int].0@, entries@[i as int].1));
        assert(ev.take(i + 1).drop_last() =~= ev.take(i as int));
        assert(ev.take(i + 1).last() == ev[i as int]);
        let target = entry_target_checked(dest, limit, &links, entries[i].0.as_str());
        match target {
            Some(t) => {
                match entries[i].1 {
                    TarEntryKind::Symlink => {
                        links.push(t.clone());
                        assert(crate::mail::lines::line_views(links@) =~= before_links.push(t@));
                    },
                    _ => {},
                }
                out.push(Some(t));
            },
            None => {
                out.push(None);
            },
        }
        i = i + 1;
    }
    assert(ev =~= entry_views(entries@));
    out
}

/// Where a zip entry is extracted to: as [`entry_target`] against the site
/// home, and `None` for a name holding a NUL character.
pub fn zip_entry_target(dest: &str, base: &str, name: &str) -> (r: Option<String>)
    ensures
        name@.contains('\0') ==> r is None,
        !name@.contains('\0') ==> match entry_target_of(dest@, base@, name@) {
            Some(t) => r matches Some(p) && p@ == t,
            None => r is None,
        },
{
    let nv = chars_of(name);
    let mut i: usize = 0;
    while i < nv.len()
        invariant
            nv@ == name@,
            i <= nv@.len(),
            forall|k: int| 0 <= k < i ==> nv@[k] != '\0',
        decreases nv@.len() - i,
    {
        if nv[i] == '\0' {
            assert(name@[i as int] == '\0');
            return None;
        }
        i = i + 1;
    }
    entry_target(dest, base, name)
}

/// An extracted entry never lands outside the directory it is checked
/// against.
pub proof fn lemma_entry_target_inside(dest: Seq<char>, limit: Seq<char>, entry: Seq<char>)
    ensures
        entry_target_of(dest, limit, entry) matches Some(t) ==> inside(limit, t),
{
}

} // verus!
