//! Package archive file names: the package name they carry and the
//! extensions that pacman accepts.

use vstd::prelude::*;
use crate::text::{
    chars_of, concat, ends_with, find_last, last_index_of, lemma_last_index_of_bounds,
    lemma_last_index_of_is, starts_with, sub_vec, vec_ends_with, vec_eq,
};
use crate::error::{AppError, AppErrorKind};

verus! {

/// The name part of a package file name `name-pkgver-pkgrel-arch[.pkg.tar.zst]`:
/// the `.pkg.tar.zst` suffix is dropped, then the last two `-` fields
/// (pkgrel, arch) and the version field before them.
pub open spec fn spec_extract_pkgname(filename: Seq<char>) -> Seq<char> {
    let sfx = ".pkg.tar.zst"@;
    let base = if ends_with(filename, sfx) { filename.subrange(0, filename.len() - sfx.len()) } else { filename };
    let d1 = last_index_of(base, '-');
    let a = base.subrange(0, d1);
    let d2 = last_index_of(a, '-');
    let name_ver = a.subrange(0, d2);
    let d3 = last_index_of(name_ver, '-');
    if d1 < 0 || d2 < 0 {
        base
    } else if d3 < 0 {
        name_ver
    } else {
        name_ver.subrange(0, d3)
    }
}

/// Package name carried by a package file name, e.g.
/// `baz-git-r100.abcdef-1-any.pkg.tar.zst` gives `baz-git`.
pub fn extract_pkgname(filename: &str) -> (r: String)
    requires
        filename@.len() < 0x7fff_ffff_ffff_ffff,
    ensures
        r@ == spec_extract_pkgname(filename@),
{
    proof { reveal_strlit(".pkg.tar.zst"); }
    let v = chars_of(filename);
    let sfx = chars_of(".pkg.tar.zst");
    let base_len = if vec_ends_with(&v, &sfx) { v.len() - sfx.len() } else { v.len() };
    let ghost base = v@.subrange(0, base_len as int);
    assert(base =~= (if ends_with(filename@, ".pkg.tar.zst"@) {
        filename@.subrange(0, filename@.len() - ".pkg.tar.zst"@.len())
    } else {
        filename@
    }));
    let d1 = find_last(&v, base_len, '-');
    proof { lemma_last_index_of_bounds(base, '-'); }
    if d1 < 0 {
        return String::from_str(filename.substring_char(0, base_len));
    }
    let d1 = d1 as usize;
    assert(v@.subrange(0, d1 as int) =~= base.subrange(0, d1 as int));
    let d2 = find_last(&v, d1, '-');
    proof { lemma_last_index_of_bounds(base.subrange(0, d1 as int), '-'); }
    if d2 < 0 {
        return String::from_str(filename.substring_char(0, base_len));
    }
    let d2 = d2 as usize;
    assert(v@.subrange(0, d2 as int) =~= base.subrange(0, d1 as int).subrange(0, d2 as int));
    let d3 = find_last(&v, d2, '-');
    proof { lemma_last_index_of_bounds(v@.subrange(0, d2 as int), '-'); }
    if d3 < 0 {
        String::from_str(filename.substring_char(0, d2))
    } else {
        let d3 = d3 as usize;
        assert(v@.subrange(0, d2 as int).subrange(0, d3 as int) =~= v@.subrange(0, d3 as int));
        String::from_str(filename.substring_char(0, d3))
    }
}

/// A package file name gives back the package name it was made from: for
/// `{name}-{pkgver}-{pkgrel}-{arch}.pkg.tar.zst` with no `-` in the
/// version, release and architecture fields, the name (which may itself
/// hold `-`).
pub proof fn lemma_extract_pkgname_inverts_file_name(
    name: Seq<char>,
    pkgver: Seq<char>,
    pkgrel: Seq<char>,
    arch: Seq<char>,
)
    requires
        !pkgver.contains('-'),
        !pkgrel.contains('-'),
        !arch.contains('-'),
    ensures
        spec_extract_pkgname(name + "-"@ + pkgver + "-"@ + pkgrel + "-"@ + arch + ".pkg.tar.zst"@) == name,
{
    reveal_strlit("-");
    reveal_strlit(".pkg.tar.zst");
    let sfx = ".pkg.tar.zst"@;
    let name_ver = name + "-"@ + pkgver;
    let a = name_ver + "-"@ + pkgrel;
    let base = a + "-"@ + arch;
    let filename = base + sfx;
    assert(filename.subrange(filename.len() - sfx.len(), filename.len() as int) =~= sfx);
    assert(ends_with(filename, sfx));
    assert(filename.subrange(0, filename.len() - sfx.len()) =~= base);
    assert forall|j: int| a.len() < j < base.len() implies base[j] != '-' by {
        assert(base[j] == arch[j - a.len() - 1]);
        if base[j] == '-' {
            assert(arch.contains('-'));
        }
    }
    assert(base[a.len() as int] == '-');
    lemma_last_index_of_is(base, '-', a.len() as int);
    assert(base.subrange(0, a.len() as int) =~= a);
    assert forall|j: int| name_ver.len() < j < a.len() implies a[j] != '-' by {
        assert(a[j] == pkgrel[j - name_ver.len() - 1]);
        if a[j] == '-' {
            assert(pkgrel.contains('-'));
        }
    }
    assert(a[name_ver.len() as int] == '-');
    lemma_last_index_of_is(a, '-', name_ver.len() as int);
    assert(a.subrange(0, name_ver.len() as int) =~= name_ver);
    assert forall|j: int| name.len() < j < name_ver.len() implies name_ver[j] != '-' by {
        assert(name_ver[j] == pkgver[j - name.len() - 1]);
        if name_ver[j] == '-' {
            assert(pkgver.contains('-'));
        }
    }
    assert(name_ver[name.len() as int] == '-');
    lemma_last_index_of_is(name_ver, '-', name.len() as int);
    assert(name_ver.subrange(0, name.len() as int) =~= name);
}

/// The package name shown for a cache or backup entry: its recorded name,
/// or the name carried by its file name when none was recorded.
pub fn entry_pkgname(name: &str, filename: &str) -> (r: String)
    requires
        filename@.len() < 0x7fff_ffff_ffff_ffff,
    ensures
        r@ == (if name@.len() == 0 { spec_extract_pkgname(filename@) } else { name@ }),
{
    if name.unicode_len() == 0 {
        extract_pkgname(filename)
    } else {
        String::from_str(name)
    }
}

// ---------------------------------------------------------------------------
// Package paths
// ---------------------------------------------------------------------------

/// The file name endings of pacman packages.
pub open spec fn pkg_extensions() -> Seq<Seq<char>> {
    seq![".pkg.tar.zst"@, ".pkg.tar.xz"@, ".pkg.tar"@, ".tar.zst"@, ".tar.xz"@]
}

/// `path` ends with one of the pacman package endings.
pub open spec fn spec_has_pkg_extension(path: Seq<char>) -> bool {
    exists|k: int| 0 <= k < pkg_extensions().len() && ends_with(path, #[trigger] pkg_extensions()[k])
}

/// Whether `path` ends with one of the pacman package endings.
pub fn has_pkg_extension(path: &str) -> (r: bool)
    ensures
        r == spec_has_pkg_extension(path@),
{
    let v = chars_of(path);
    let e0 = chars_of(".pkg.tar.zst");
    let e1 = chars_of(".pkg.tar.xz");
    let e2 = chars_of(".pkg.tar");
    let e3 = chars_of(".tar.zst");
    let e4 = chars_of(".tar.xz");
    let r = vec_ends_with(&v, &e0) || vec_ends_with(&v, &e1) || vec_ends_with(&v, &e2)
        || vec_ends_with(&v, &e3) || vec_ends_with(&v, &e4);
    proof {
        let exts = pkg_extensions();
        assert(exts[0] == e0@ && exts[1] == e1@ && exts[2] == e2@ && exts[3] == e3@ && exts[4] == e4@);
        if r {
            if ends_with(v@, e0@) { assert(ends_with(path@, exts[0])); }
            else if ends_with(v@, e1@) { assert(ends_with(path@, exts[1])); }
            else if ends_with(v@, e2@) { assert(ends_with(path@, exts[2])); }
            else if ends_with(v@, e3@) { assert(ends_with(path@, exts[3])); }
            else { assert(ends_with(path@, exts[4])); }
        }
    }
    r
}

/// The path components `x` contributes between two separators: none when
/// it is empty or `.`, itself otherwise.
pub open spec fn kept_segment(x: Seq<char>) -> Seq<Seq<char>> {
    if x.len() == 0 || x == "."@ {
        Seq::empty()
    } else {
        seq![x]
    }
}

/// The normal components of `p` (`..` included), split at `/`, with empty
/// and `.` segments dropped.
pub open spec fn path_segments(p: Seq<char>) -> Seq<Seq<char>>
    decreases p.len(),
{
    let k = last_index_of(p, '/');
    if k < 0 {
        kept_segment(p)
    } else {
        proof { lemma_last_index_of_bounds(p, '/'); }
        path_segments(p.subrange(0, k)) + kept_segment(p.subrange(k + 1, p.len() as int))
    }
}

/// The components of `p` as `std::path::Path::components` gives them on
/// Unix: `/` for the root, `.` for a leading current-directory mark of a
/// relative path, then the normal components.
pub open spec fn path_components(p: Seq<char>) -> Seq<Seq<char>> {
    let head = if p.len() > 0 && p[0] == '/' {
        seq!["/"@]
    } else if p == "."@ || starts_with(p, "./"@) {
        seq!["."@]
    } else {
        Seq::empty()
    };
    head + path_segments(p)
}

/// `std::path::Path::starts_with`: the components of `base` are a prefix
/// of those of `path`.
pub open spec fn spec_path_starts_with(path: Seq<char>, base: Seq<char>) -> bool {
    let c = path_components(path);
    let b = path_components(base);
    b.len() <= c.len() && c.subrange(0, b.len() as int) == b
}

/// The views of a list of character vectors.
pub open spec fn char_views(v: Seq<Vec<char>>) -> Seq<Seq<char>> {
    v.map_values(|x: Vec<char>| x@)
}

proof fn lemma_path_segments_step(p: Seq<char>, start: int, i: int)
    requires
        0 <= start <= i <= p.len(),
        start == 0 || p[start - 1] == '/',
        forall|k: int| start <= k < i ==> p[k] != '/',
    ensures
        path_segments(p.subrange(0, i)) == (if start == 0 {
            Seq::<Seq<char>>::empty()
        } else {
            path_segments(p.subrange(0, start - 1))
        }) + kept_segment(p.subrange(start, i)),
{
    let s = p.subrange(0, i);
    lemma_last_index_of_is(s, '/', start - 1);
    if start == 0 {
        assert(s.subrange(0, i) =~= s);
        assert(s =~= p.subrange(start, i));
        assert(Seq::<Seq<char>>::empty() + kept_segment(s) =~= kept_segment(s));
    } else {
        assert(s.subrange(0, start - 1) =~= p.subrange(0, start - 1));
        assert(s.subrange(start, s.len() as int) =~= p.subrange(start, i));
    }
}

/// The components of the path `p` (see `path_components`).
pub fn components_of(p: &Vec<char>) -> (r: Vec<Vec<char>>)
    ensures
        char_views(r@) == path_components(p@),
{
    let mut out: Vec<Vec<char>> = Vec::new();
    if p.len() > 0 && p[0] == '/' {
        out.push(chars_of("/"));
    } else {
        let dot = chars_of(".");
        let dot_slash = chars_of("./");
        if vec_eq(p, &dot) || (p.len() >= 2 && p[0] == '.' && p[1] == '/') {
            proof {
                if p.len() >= 2 && p[0] == '.' && p[1] == '/' {
                    reveal_strlit("./");
                    assert(p@.subrange(0, 2) =~= "./"@);
                }
            }
            out.push(dot);
        } else {
            proof {
                reveal_strlit("./");
                if starts_with(p@, "./"@) {
                    assert(p@.subrange(0, 2)[0] == '.');
                    assert(p@.subrange(0, 2)[1] == '/');
                }
            }
        }
    }
    let ghost head = char_views(out@);
    let mut start: usize = 0;
    let mut i: usize = 0;
    while i < p.len()
        invariant
            start <= i <= p.len(),
            start == 0 || p@[start - 1] == '/',
            forall|k: int| start <= k < i ==> p@[k] != '/',
            char_views(out@) == head + (if start == 0 {
                Seq::<Seq<char>>::empty()
            } else {
                path_segments(p@.subrange(0, start - 1))
            }),
        decreases p.len() - i,
    {
        if p[i] == '/' {
            proof { lemma_path_segments_step(p@, start as int, i as int); }
            let seg = sub_vec(p, start, i);
            let dot = chars_of(".");
            let ghost old_out = out@;
            if seg.len() > 0 && !vec_eq(&seg, &dot) {
                out.push(seg);
                assert(char_views(out@) =~= char_views(old_out).push(seg@));
            }
            assert(char_views(out@) =~= head + path_segments(p@.subrange(0, i as int)));
            start = i + 1;
        }
        i = i + 1;
    }
    proof { lemma_path_segments_step(p@, start as int, i as int); }
    let seg = sub_vec(p, start, i);
    let dot = chars_of(".");
    let ghost old_out = out@;
    if seg.len() > 0 && !vec_eq(&seg, &dot) {
        out.push(seg);
        assert(char_views(out@) =~= char_views(old_out).push(seg@));
    }
    assert(p@.subrange(0, i as int) =~= p@);
    assert(char_views(out@) =~= head + path_segments(p@));
    out
}

/// Whether the components of `base` are a prefix of those of `path`.
pub fn path_starts_with(path: &str, base: &str) -> (r: bool)
    ensures
        r == spec_path_starts_with(path@, base@),
{
    let pv = chars_of(path);
    let bv = chars_of(base);
    let c = components_of(&pv);
    let b = components_of(&bv);
    if b.len() > c.len() {
        return false;
    }
    let mut k: usize = 0;
    while k < b.len()
        invariant
            b.len() <= c.len(),
            k <= b.len(),
            char_views(c@) == path_components(path@),
            char_views(b@) == path_components(base@),
            forall|j: int| 0 <= j < k ==> c@[j]@ == b@[j]@,
        decreases b.len() - k,
    {
        if !vec_eq(&c[k], &b[k]) {
            assert(char_views(c@).subrange(0, b.len() as int)[k as int] != char_views(b@)[k as int]);
            return false;
        }
        k = k + 1;
    }
    assert(char_views(c@).subrange(0, b.len() as int) =~= char_views(b@));
    true
}

/// The first checks on a package path handed in by the user: it must be
/// absolute and carry a pacman package ending.
pub open spec fn spec_package_path_syntax(path: Seq<char>) -> Result<(), (AppErrorKind, Seq<char>)> {
    if !(path.len() > 0 && path[0] == '/') {
        Err((AppErrorKind::InvalidInput, "路径必须是绝对路径: "@ + path))
    } else if !spec_has_pkg_extension(path) {
        Err((AppErrorKind::InvalidInput, "仅允许操作 pacman 包文件: "@ + path))
    } else {
        Ok(())
    }
}

/// Checks that `full_path` is absolute and names a pacman package file.
pub fn check_package_path_syntax(full_path: &str) -> (r: Result<(), AppError>)
    ensures
        match r {
            Ok(()) => spec_package_path_syntax(full_path@) == Ok::<(), (AppErrorKind, Seq<char>)>(()),
            Err(e) => spec_package_path_syntax(full_path@) == Err::<(), (AppErrorKind, Seq<char>)>(e@),
        },
{
    let n = full_path.unicode_len();
    if !(n > 0 && full_path.get_char(0) == '/') {
        return Err(AppError::InvalidInput(concat("路径必须是绝对路径: ", full_path)));
    }
    if !has_pkg_extension(full_path) {
        return Err(AppError::InvalidInput(concat("仅允许操作 pacman 包文件: ", full_path)));
    }
    Ok(())
}

/// Some root of `roots` is a component prefix of `path`.
pub open spec fn spec_within_roots(path: Seq<char>, roots: Seq<String>) -> bool {
    exists|k: int| 0 <= k < roots.len() && spec_path_starts_with(path, #[trigger] roots[k]@)
}

/// The remaining checks, on what the file system said of the path: its
/// canonical form (or why it could not be had), whether that is a regular
/// file, and the canonical allowed roots.
pub open spec fn spec_package_path_result(
    path: Seq<char>,
    canonical: Result<Seq<char>, Seq<char>>,
    is_file: bool,
    roots: Seq<String>,
) -> Result<Seq<char>, (AppErrorKind, Seq<char>)> {
    match canonical {
        Err(why) => Err((AppErrorKind::InvalidInput, "无法访问路径 "@ + path + ": "@ + why)),
        Ok(canon) => if !is_file {
            Err((AppErrorKind::InvalidInput, "路径不是普通文件: "@ + path))
        } else if !spec_within_roots(canon, roots) {
            Err((AppErrorKind::InvalidInput, "路径不在允许的备份目录内: "@ + path))
        } else {
            Ok(canon)
        },
    }
}

/// Completes the check of a package path once the file system has been
/// asked: the path must resolve, be a regular file, and lie within one of
/// the allowed roots; the resolved path is returned.
pub fn finish_package_path_check(
    full_path: &str,
    canonical: Result<String, String>,
    is_file: bool,
    roots: &Vec<String>,
) -> (r: Result<String, AppError>)
    ensures
        match r {
            Ok(p) => spec_package_path_result(
                full_path@,
                match canonical { Ok(c) => Ok(c@), Err(w) => Err(w@) },
                is_file,
                roots@,
            ) == Ok::<Seq<char>, (AppErrorKind, Seq<char>)>(p@),
            Err(e) => spec_package_path_result(
                full_path@,
                match canonical { Ok(c) => Ok(c@), Err(w) => Err(w@) },
                is_file,
                roots@,
            ) == Err::<Seq<char>, (AppErrorKind, Seq<char>)>(e@),
        },
{
    match canonical {
        Err(why) => {
            let mut m = concat("无法访问路径 ", full_path);
            m.append(": ");
            m.append(why.as_str());
            Err(AppError::InvalidInput(m))
        },
        Ok(canon) => {
            if !is_file {
                return Err(AppError::InvalidInput(concat("路径不是普通文件: ", full_path)));
            }
            let mut k: usize = 0;
            while k < roots.len()
                invariant
                    k <= roots.len(),
                    is_file,
                    canonical matches Ok(c) && c@ == canon@,
                    forall|j: int| 0 <= j < k ==> !spec_path_starts_with(canon@, #[trigger] roots@[j]@),
                decreases roots.len() - k,
            {
                if path_starts_with(canon.as_str(), roots[k].as_str()) {
                    assert(spec_path_starts_with(canon@, roots@[k as int]@));
                    assert(spec_within_roots(canon@, roots@));
                    return Ok(canon);
                }
                k = k + 1;
            }
            Err(AppError::InvalidInput(concat("路径不在允许的备份目录内: ", full_path)))
        },
    }
}

/// Any allowed root admits a path, not only the first: a regular file whose
/// canonical path has root `k` of `roots` as a component prefix is accepted
/// as that canonical path. A regular file under none of the roots is
/// refused as outside them, a path that is no regular file is refused as
/// such, and a path that could not be resolved is refused with the reason.
pub proof fn lemma_path_within_any_root(
    path: Seq<char>,
    canon: Seq<char>,
    why: Seq<char>,
    is_file: bool,
    roots: Seq<String>,
    k: int,
)
    ensures
        (is_file && 0 <= k < roots.len() && spec_path_starts_with(canon, roots[k]@))
            ==> spec_package_path_result(path, Ok(canon), is_file, roots)
                == Ok::<Seq<char>, (AppErrorKind, Seq<char>)>(canon),
        (is_file && forall|j: int| 0 <= j < roots.len() ==> !spec_path_starts_with(canon, #[trigger] roots[j]@))
            ==> spec_package_path_result(path, Ok(canon), is_file, roots)
                == Err::<Seq<char>, (AppErrorKind, Seq<char>)>(
                    (AppErrorKind::InvalidInput, "路径不在允许的备份目录内: "@ + path)),
        !is_file ==> spec_package_path_result(path, Ok(canon), is_file, roots)
            == Err::<Seq<char>, (AppErrorKind, Seq<char>)>((AppErrorKind::InvalidInput, "路径不是普通文件: "@ + path)),
        spec_package_path_result(path, Err(why), is_file, roots)
            == Err::<Seq<char>, (AppErrorKind, Seq<char>)>(
                (AppErrorKind::InvalidInput, "无法访问路径 "@ + path + ": "@ + why)),
{
}

} // verus!
