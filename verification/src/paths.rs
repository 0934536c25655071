use crate::text::{
    chars_eq, chars_of, pieces, push_chars, push_str, rows_of, split_chars, str_eq, string_of,
};
use crate::types::ComponentType;
use vstd::prelude::*;

verus! {

/// Whether a piece of a path names something: it is neither empty nor a
/// single dot.
pub open spec fn names_something(p: Seq<char>) -> bool {
    p.len() > 0 && p != "."@
}

/// The pieces that name something, in order.
pub open spec fn naming_pieces(ps: Seq<Seq<char>>) -> Seq<Seq<char>>
    decreases ps.len(),
{
    if ps.len() == 0 {
        Seq::empty()
    } else if names_something(ps.last()) {
        naming_pieces(ps.drop_last()).push(ps.last())
    } else {
        naming_pieces(ps.drop_last())
    }
}

/// The segments of a path: what stands between its slashes, without empty
/// segments and single dots.
pub open spec fn path_segments(path: Seq<char>) -> Seq<Seq<char>> {
    naming_pieces(pieces(path, '/'))
}

/// The last segment of a path; none where the path has no segment or ends
/// in `..`.
pub open spec fn file_name_of(path: Seq<char>) -> Option<Seq<char>> {
    let segs = path_segments(path);
    if segs.len() == 0 || segs.last() == ".."@ {
        None
    } else {
        Some(segs.last())
    }
}

/// Whether a file name is that of a component's metadata file.
pub open spec fn is_metadata_name(name: Seq<char>) -> bool {
    name == "metadata.json"@ || name == "metadata.desktop"@
}

/// The name under which the component at an installed path is known: the
/// directory that holds the metadata file where the path names one, else the
/// last segment of the path.
pub open spec fn directory_name_of(path: Seq<char>) -> Option<Seq<char>> {
    let segs = path_segments(path);
    if segs.len() == 0 || segs.last() == ".."@ {
        None
    } else if is_metadata_name(segs.last()) {
        if segs.len() >= 2 && segs[segs.len() - 2] != ".."@ {
            Some(segs[segs.len() - 2])
        } else {
            None
        }
    } else {
        Some(segs.last())
    }
}

/// The segments of a path.
pub fn segments(path: &str) -> (r: Vec<Vec<char>>)
    ensures
        rows_of(r@) == path_segments(path@),
{
    let v = chars_of(path);
    let ps = split_chars(&v, '/');
    let ghost all = rows_of(ps@);
    let mut r: Vec<Vec<char>> = Vec::new();
    let dot = chars_of(".");
    proof {
        reveal_strlit(".");
        assert(all.take(0) =~= Seq::<Seq<char>>::empty());
        assert(rows_of(r@) =~= Seq::<Seq<char>>::empty());
    }
    let mut i: usize = 0;
    while i < ps.len()
        invariant
            i <= ps.len(),
            all == rows_of(ps@),
            dot@ == "."@,
            rows_of(r@) == naming_pieces(all.take(i as int)),
        decreases ps.len() - i,
    {
        let ghost before = r@;
        proof {
            assert(all.take(i as int + 1).drop_last() =~= all.take(i as int));
            assert(all.take(i as int + 1).last() == ps@[i as int]@);
        }
        if ps[i].len() > 0 && !chars_eq(&ps[i], &dot) {
            let piece = ps[i].clone();
            proof {
                assert(piece@ == ps@[i as int]@);
            }
            r.push(piece);
            proof {
                assert(rows_of(r@) =~= rows_of(before).push(piece@));
            }
        }
        i += 1;
    }
    proof {
        assert(all.take(i as int) =~= all);
    }
    r
}

/// The last segment of a path.
pub fn file_name(path: &str) -> (r: Option<String>)
    ensures
        r is Some == file_name_of(path@) is Some,
        r matches Some(s) ==> file_name_of(path@) == Some(s@),
{
    let segs = segments(path);
    let dotdot = chars_of("..");
    if segs.len() == 0 {
        return None;
    }
    let last = &segs[segs.len() - 1];
    proof {
        assert(rows_of(segs@).last() == last@);
    }
    if chars_eq(last, &dotdot) {
        return None;
    }
    Some(string_of(last))
}

/// The name under which the component at an installed path is known.
pub fn extract_directory_name(path: &str) -> (r: Option<String>)
    ensures
        r is Some == directory_name_of(path@) is Some,
        r matches Some(s) ==> directory_name_of(path@) == Some(s@),
{
    let segs = segments(path);
    let dotdot = chars_of("..");
    let json = chars_of("metadata.json");
    let desktop = chars_of("metadata.desktop");
    if segs.len() == 0 {
        return None;
    }
    let n = segs.len();
    let last = &segs[n - 1];
    proof {
        assert(rows_of(segs@).last() == last@);
    }
    if chars_eq(last, &dotdot) {
        return None;
    }
    if chars_eq(last, &json) || chars_eq(last, &desktop) {
        if n >= 2 {
            let parent = &segs[n - 2];
            proof {
                assert(rows_of(segs@)[n - 2] == parent@);
            }
            if !chars_eq(parent, &dotdot) {
                return Some(string_of(parent));
            }
        }
        return None;
    }
    Some(string_of(last))
}

/// A path with a further path joined to it: the further path alone where it
/// is absolute or the first is empty, else the two with one slash between.
pub open spec fn joined(base: Seq<char>, rel: Seq<char>) -> Seq<char> {
    if rel.len() > 0 && rel[0] == '/' {
        rel
    } else if base.len() == 0 {
        rel
    } else if base.last() == '/' {
        base + rel
    } else {
        base + seq!['/'] + rel
    }
}

/// Joins a further path to a path.
pub fn join_path(base: &str, rel: &str) -> (r: String)
    ensures
        r@ == joined(base@, rel@),
{
    let b = chars_of(base);
    let q = chars_of(rel);
    if q.len() > 0 && q[0] == '/' {
        return string_of(&q);
    }
    if b.len() == 0 {
        return string_of(&q);
    }
    let mut out: Vec<char> = Vec::new();
    push_chars(&mut out, &b);
    if b[b.len() - 1] != '/' {
        out.push('/');
    }
    push_chars(&mut out, &q);
    proof {
        assert(out@ =~= joined(base@, rel@));
    }
    string_of(&out)
}

/// Whether a path lies in a part of the system that only the
/// administrator may change: it is absolute and its first segment is `usr`,
/// `lib` or `etc`.
pub open spec fn system_owned(path: Seq<char>) -> bool {
    let segs = path_segments(path);
    path.len() > 0 && path[0] == '/' && segs.len() > 0 && (segs[0] == "usr"@ || segs[0] == "lib"@
        || segs[0] == "etc"@)
}

/// Whether a path lies in a part of the system that only the
/// administrator may change.
pub fn is_system_path(path: &str) -> (r: bool)
    ensures
        r == system_owned(path@),
{
    let v = chars_of(path);
    if v.len() == 0 || v[0] != '/' {
        return false;
    }
    let segs = segments(path);
    if segs.len() == 0 {
        return false;
    }
    let usr = chars_of("usr");
    let lib = chars_of("lib");
    let etc = chars_of("etc");
    proof {
        assert(rows_of(segs@)[0] == segs@[0]@);
    }
    chars_eq(&segs[0], &usr) || chars_eq(&segs[0], &lib) || chars_eq(&segs[0], &etc)
}

/// Whether changing a path takes more rights than the process has.
pub fn needs_elevation(path: &str, is_root: bool) -> (r: bool)
    ensures
        r == (system_owned(path@) && !is_root),
{
    is_system_path(path) && !is_root
}

/// `nix::unistd::Uid::effective().is_root()`: whether the process runs with
/// the administrator's rights. Nothing is promised of the answer.
#[verifier::external_body]
pub fn is_root() -> bool {
    nix::unistd::Uid::effective().is_root()
}

/// Whether changing a path takes more rights than this process has.
///
/// A path outside the system's own directories never does.
pub fn needs_sudo(path: &str) -> (r: bool)
    ensures
        r ==> system_owned(path@),
{
    let root = is_root();
    needs_elevation(path, root)
}

/// The user's data directory: the one that the environment names, else
/// `.local/share` below the home directory.
pub fn data_home(xdg_data_home: Option<&str>, home: &str) -> (r: String)
    ensures
        r@ == match xdg_data_home {
            Some(d) => d@,
            None => joined(home@, ".local/share"@),
        },
{
    match xdg_data_home {
        Some(d) => d.to_owned(),
        None => join_path(home, ".local/share"),
    }
}

/// The user's cache directory: the one that the environment names, else
/// `.cache` below the home directory.
pub fn cache_home(xdg_cache_home: Option<&str>, home: &str) -> (r: String)
    ensures
        r@ == match xdg_cache_home {
            Some(d) => d@,
            None => joined(home@, ".cache"@),
        },
{
    match xdg_cache_home {
        Some(d) => d.to_owned(),
        None => join_path(home, ".cache"),
    }
}

/// The directory of the registry files below a data directory.
pub fn knewstuff_dir(data_home: &str) -> (r: String)
    ensures
        r@ == joined(data_home@, "knewstuff3"@),
{
    join_path(data_home, "knewstuff3")
}

/// Where the registry file of a kind lies below the registry directory.
pub fn registry_path(component_type: ComponentType, knewstuff_dir: &str) -> (r: Option<String>)
    ensures
        r is Some,
        component_type.registry_name() is Some,
        r->0@ == joined(knewstuff_dir@, component_type.registry_name()->0),
{
    match component_type.registry_file() {
        Some(f) => Some(join_path(knewstuff_dir, f)),
        None => None,
    }
}

/// Where a kind is installed below the user's data directory; the empty
/// path for a kind that is installed system-wide only.
pub fn user_path(component_type: ComponentType, data_home: &str) -> (r: String)
    ensures
        r@ == match component_type.user_dir() {
            Some(suffix) => joined(data_home@, suffix),
            None => Seq::<char>::empty(),
        },
{
    match component_type.user_suffix() {
        Some(suffix) => join_path(data_home, suffix),
        None => String::new(),
    }
}

/// The directory under which all backups are kept.
pub fn backup_base_dir(cache_home: &str) -> (r: String)
    ensures
        r@ == joined(cache_home@, "plasmoid-updater/backups"@),
{
    join_path(cache_home, "plasmoid-updater/backups")
}

/// Where the backup of a component goes: below the backup directory, under
/// the time of the backup, the kind's backup directory and the component's name.
pub open spec fn backup_location(
    cache_home: Seq<char>,
    timestamp: Seq<char>,
    kind: ComponentType,
    directory_name: Seq<char>,
) -> Seq<char> {
    joined(
        joined(
            joined(joined(cache_home, "plasmoid-updater/backups"@), timestamp),
            kind.backup_dir(),
        ),
        directory_name,
    )
}

/// Where the backup of a component goes.
pub fn backup_path(
    cache_home: &str,
    timestamp: &str,
    kind: ComponentType,
    directory_name: &str,
) -> (r: String)
    ensures
        r@ == backup_location(cache_home@, timestamp@, kind, directory_name@),
{
    let base = backup_base_dir(cache_home);
    let stamped = join_path(base.as_str(), timestamp);
    let typed = join_path(stamped.as_str(), kind.backup_subdir());
    join_path(typed.as_str(), directory_name)
}

/// The directory for downloads and extraction: `plasmoid-updater` below the
/// temporary directory that the environment names, else below `/tmp`.
pub fn temp_dir(tmpdir: Option<&str>) -> (r: String)
    ensures
        r@ == joined(
            match tmpdir {
                Some(d) => d@,
                None => "/tmp"@,
            },
            "plasmoid-updater"@,
        ),
{
    match tmpdir {
        Some(d) => join_path(d, "plasmoid-updater"),
        None => join_path("/tmp", "plasmoid-updater"),
    }
}

} // verus!
