use crate::error::Error;
use crate::paths::{file_name, file_name_of, join_path, joined};
use crate::text::{
    chars_of, ends_with, has_suffix, lowercased, push_str, str_eq, string_of, to_lowercase,
};
use crate::types::ComponentType;
use vstd::prelude::*;

verus! {

/// One file or directory of an unpacked archive.
#[derive(Debug)]
pub struct ArchiveEntry {
    /// The path of the entry.
    pub path: String,
    /// The path of the directory that holds the entry.
    pub parent: String,
    /// The name of the entry within its directory.
    pub name: String,
    pub is_dir: bool,
    pub is_file: bool,
}

/// The mathematical value of an [`ArchiveEntry`].
pub struct ArchiveEntryView {
    pub path: Seq<char>,
    pub parent: Seq<char>,
    pub name: Seq<char>,
    pub is_dir: bool,
    pub is_file: bool,
}

impl View for ArchiveEntry {
    type V = ArchiveEntryView;

    open spec fn view(&self) -> ArchiveEntryView {
        ArchiveEntryView {
            path: self.path@,
            parent: self.parent@,
            name: self.name@,
            is_dir: self.is_dir,
            is_file: self.is_file,
        }
    }
}

/// The views of the entries of an archive.
pub open spec fn listing_views(listing: Seq<ArchiveEntry>) -> Seq<ArchiveEntryView> {
    listing.map_values(|e: ArchiveEntry| e@)
}

/// How a kind without a packaging type is installed from an archive.
#[derive(Clone, Copy, Debug, PartialEq, Eq, Structural)]
pub enum InstallStrategy {
    /// The first color scheme file of the archive is copied.
    ColorScheme,
    /// The first directory with an `index.theme` is copied.
    IconTheme,
    /// A wallpaper directory is copied, or else the first image.
    Wallpaper,
    /// The directory with the layout of the kind is copied.
    ThemeDir,
}

/// The way in which a kind is installed from an archive; none for a kind
/// that the packaging tool installs.
pub open spec fn strategy_of(kind: ComponentType) -> Option<InstallStrategy> {
    match kind {
        ComponentType::ColorScheme => Some(InstallStrategy::ColorScheme),
        ComponentType::IconTheme => Some(InstallStrategy::IconTheme),
        ComponentType::Wallpaper => Some(InstallStrategy::Wallpaper),
        ComponentType::AuroraeDecoration => Some(InstallStrategy::ThemeDir),
        ComponentType::GlobalTheme => Some(InstallStrategy::ThemeDir),
        ComponentType::PlasmaStyle => Some(InstallStrategy::ThemeDir),
        ComponentType::SplashScreen => Some(InstallStrategy::ThemeDir),
        ComponentType::SddmTheme => Some(InstallStrategy::ThemeDir),
        _ => None,
    }
}

/// Returns the way in which a kind is installed from an archive, or `None`
/// for a kind that the packaging tool installs.
pub fn get_install_strategy(component_type: ComponentType) -> (r: Option<InstallStrategy>)
    ensures
        r == strategy_of(component_type),
{
    match component_type {
        ComponentType::ColorScheme => Some(InstallStrategy::ColorScheme),
        ComponentType::IconTheme => Some(InstallStrategy::IconTheme),
        ComponentType::Wallpaper => Some(InstallStrategy::Wallpaper),
        ComponentType::AuroraeDecoration => Some(InstallStrategy::ThemeDir),
        ComponentType::GlobalTheme => Some(InstallStrategy::ThemeDir),
        ComponentType::PlasmaStyle => Some(InstallStrategy::ThemeDir),
        ComponentType::SplashScreen => Some(InstallStrategy::ThemeDir),
        ComponentType::SddmTheme => Some(InstallStrategy::ThemeDir),
        _ => None,
    }
}

/// A kind is installed from an archive in a way of its own exactly where
/// it has no packaging type.
pub proof fn strategy_or_packaging(kind: ComponentType)
    ensures
        strategy_of(kind) is Some <==> kind.packaging() is None,
{
}

/// Whether a file name is that of a color scheme.
pub open spec fn is_color_scheme_name(name: Seq<char>) -> bool {
    has_suffix(name, ".colors"@) || has_suffix(name, ".colorscheme"@)
}

/// Whether a file name is that of an image.
pub open spec fn is_image_name(name: Seq<char>) -> bool {
    has_suffix(name, ".jpg"@) || has_suffix(name, ".jpeg"@) || has_suffix(name, ".png"@)
        || has_suffix(name, ".webp"@) || has_suffix(name, ".svg"@)
}

fn color_scheme_name(name: &str) -> (r: bool)
    ensures
        r == is_color_scheme_name(name@),
{
    ends_with(name, ".colors") || ends_with(name, ".colorscheme")
}

fn image_name(name: &str) -> (r: bool)
    ensures
        r == is_image_name(name@),
{
    ends_with(name, ".jpg") || ends_with(name, ".jpeg") || ends_with(name, ".png") || ends_with(
        name,
        ".webp",
    ) || ends_with(name, ".svg")
}

/// Whether a download is the component itself, not an archive of it: a
/// color scheme file for a color scheme, an image for a wallpaper. The case
/// of the file name does not count.
pub open spec fn single_file(path: Seq<char>, kind: ComponentType) -> bool {
    match file_name_of(path) {
        None => false,
        Some(name) => match kind {
            ComponentType::ColorScheme => is_color_scheme_name(lowercased(name)),
            ComponentType::Wallpaper => is_image_name(lowercased(name)),
            _ => false,
        },
    }
}

/// Returns `true` if the path is a single-file component.
pub fn is_single_file_component(path: &str, component_type: ComponentType) -> (r: bool)
    ensures
        r == single_file(path@, component_type),
{
    let name = match file_name(path) {
        Some(n) => n,
        None => {
            return false;
        },
    };
    let lower = to_lowercase(name.as_str());
    match component_type {
        ComponentType::ColorScheme => color_scheme_name(lower.as_str()),
        ComponentType::Wallpaper => image_name(lower.as_str()),
        _ => false,
    }
}

/// Returns `true` if a downloaded file can be installed as it is.
pub fn is_raw_installable_file(path: &str, component_type: ComponentType) -> (r: bool)
    ensures
        r == single_file(path@, component_type),
{
    is_single_file_component(path, component_type)
}

/// Whether a directory of the archive holds an entry with a name.
pub open spec fn dir_has(listing: Seq<ArchiveEntryView>, dir: Seq<char>, name: Seq<char>) -> bool {
    exists|i: int|
        0 <= i < listing.len() && (#[trigger] listing[i]).parent == dir && listing[i].name == name
}

/// Whether a directory of the archive holds an entry with a name.
pub fn dir_contains(listing: &Vec<ArchiveEntry>, dir: &str, name: &str) -> (r: bool)
    ensures
        r == dir_has(listing_views(listing@), dir@, name@),
{
    let mut i: usize = 0;
    while i < listing.len()
        invariant
            i <= listing.len(),
            forall|j: int|
                0 <= j < i ==> !((#[trigger] listing_views(listing@)[j]).parent == dir@
                    && listing_views(listing@)[j].name == name@),
        decreases listing.len() - i,
    {
        proof {
            assert(listing_views(listing@)[i as int] == listing@[i as int]@);
        }
        if str_eq(listing[i].parent.as_str(), dir) && str_eq(listing[i].name.as_str(), name) {
            return true;
        }
        i += 1;
    }
    false
}

/// Whether a directory of the archive has the layout of a kind.
pub open spec fn has_structure(listing: Seq<ArchiveEntryView>, dir: Seq<char>, kind: ComponentType) -> bool {
    match kind {
        ComponentType::AuroraeDecoration => dir_has(listing, dir, "decoration.svg"@) || dir_has(
            listing,
            dir,
            "aurorae"@,
        ),
        ComponentType::GlobalTheme => dir_has(listing, dir, "metadata.json"@) || dir_has(
            listing,
            dir,
            "metadata.desktop"@,
        ),
        ComponentType::SplashScreen => dir_has(listing, dir, "metadata.json"@) || dir_has(
            listing,
            dir,
            "metadata.desktop"@,
        ),
        ComponentType::PlasmaStyle => dir_has(listing, dir, "colors"@) || dir_has(
            listing,
            dir,
            "widgets"@,
        ) || dir_has(listing, dir, "metadata.desktop"@),
        ComponentType::SddmTheme => dir_has(listing, dir, "theme.conf"@) || dir_has(
            listing,
            dir,
            "Main.qml"@,
        ),
        ComponentType::KWinSwitcher => dir_has(listing, dir, "metadata.json"@) || dir_has(
            listing,
            dir,
            "contents"@,
        ),
        _ => false,
    }
}

/// Whether a directory of the archive has the layout of a kind.
pub fn has_component_structure(listing: &Vec<ArchiveEntry>, dir: &str, component_type: ComponentType) -> (r:
    bool)
    ensures
        r == has_structure(listing_views(listing@), dir@, component_type),
{
    match component_type {
        ComponentType::AuroraeDecoration => dir_contains(listing, dir, "decoration.svg")
            || dir_contains(listing, dir, "aurorae"),
        ComponentType::GlobalTheme | ComponentType::SplashScreen => dir_contains(
            listing,
            dir,
            "metadata.json",
        ) || dir_contains(listing, dir, "metadata.desktop"),
        ComponentType::PlasmaStyle => dir_contains(listing, dir, "colors") || dir_contains(
            listing,
            dir,
            "widgets",
        ) || dir_contains(listing, dir, "metadata.desktop"),
        ComponentType::SddmTheme => dir_contains(listing, dir, "theme.conf") || dir_contains(
            listing,
            dir,
            "Main.qml",
        ),
        ComponentType::KWinSwitcher => dir_contains(listing, dir, "metadata.json") || dir_contains(
            listing,
            dir,
            "contents",
        ),
        _ => false,
    }
}

/// The position of the first entry of the archive that a predicate holds
/// of, or the number of entries where it holds of none.
pub open spec fn first_entry(
    listing: Seq<ArchiveEntryView>,
    pred: spec_fn(ArchiveEntryView) -> bool,
) -> int
    decreases listing.len(),
{
    if listing.len() == 0 {
        0
    } else if pred(listing[0]) {
        0
    } else {
        1 + first_entry(listing.skip(1), pred)
    }
}

/// A position before which the predicate holds of no entry, and at which
/// it holds or the archive ends, is the first of its kind.
pub proof fn first_entry_unique(
    listing: Seq<ArchiveEntryView>,
    pred: spec_fn(ArchiveEntryView) -> bool,
    i: int,
)
    requires
        0 <= i <= listing.len(),
        i < listing.len() ==> pred(listing[i]),
        forall|j: int| 0 <= j < i ==> !pred(#[trigger] listing[j]),
    ensures
        first_entry(listing, pred) == i,
    decreases listing.len(),
{
    if listing.len() > 0 && i > 0 {
        assert(!pred(listing[0]));
        assert forall|j: int| 0 <= j < i - 1 implies !pred(#[trigger] listing.skip(1)[j]) by {
            assert(listing.skip(1)[j] == listing[j + 1]);
        }
        first_entry_unique(listing.skip(1), pred, i - 1);
    }
}

/// The path of the first entry that the predicate holds of.
pub open spec fn first_path(
    listing: Seq<ArchiveEntryView>,
    pred: spec_fn(ArchiveEntryView) -> bool,
) -> Option<Seq<char>> {
    let i = first_entry(listing, pred);
    if 0 <= i < listing.len() {
        Some(listing[i].path)
    } else {
        None
    }
}

/// Whether an entry is a directory that holds one of two names.
pub open spec fn holds_either(
    listing: Seq<ArchiveEntryView>,
    a: Seq<char>,
    b: Seq<char>,
) -> spec_fn(ArchiveEntryView) -> bool {
    |e: ArchiveEntryView| e.is_dir && (dir_has(listing, e.path, a) || dir_has(listing, e.path, b))
}

/// The first directory that holds one of two names: the root of the
/// archive where it does, else the first such directory of the listing.
pub open spec fn dir_with_either(
    root: Seq<char>,
    listing: Seq<ArchiveEntryView>,
    a: Seq<char>,
    b: Seq<char>,
) -> Option<Seq<char>> {
    if dir_has(listing, root, a) || dir_has(listing, root, b) {
        Some(root)
    } else {
        first_path(listing, holds_either(listing, a, b))
    }
}

/// Finds the first directory of an unpacked archive that holds one of two
/// names. The listing gives the entries below the root in the order in which
/// a walk that visits a directory before what it holds meets them.
#[verifier::loop_isolation(false)]
pub fn find_dir_with_either(root: &str, listing: &Vec<ArchiveEntry>, a: &str, b: &str) -> (r: Option<
    String,
>)
    ensures
        r is Some == dir_with_either(root@, listing_views(listing@), a@, b@) is Some,
        r matches Some(p) ==> dir_with_either(root@, listing_views(listing@), a@, b@) == Some(p@),
{
    if dir_contains(listing, root, a) || dir_contains(listing, root, b) {
        return Some(root.to_owned());
    }
    let ghost all = listing_views(listing@);
    let ghost pred = holds_either(all, a@, b@);
    let mut i: usize = 0;
    while i < listing.len()
        invariant
            i <= listing.len(),
            all == listing_views(listing@),
            pred == holds_either(all, a@, b@),
            forall|j: int| 0 <= j < i ==> !pred(#[trigger] all[j]),
        decreases listing.len() - i,
    {
        let e = &listing[i];
        proof {
            assert(all[i as int] == e@);
        }
        if e.is_dir && (dir_contains(listing, e.path.as_str(), a) || dir_contains(
            listing,
            e.path.as_str(),
            b,
        )) {
            proof {
                first_entry_unique(all, pred, i as int);
            }
            return Some(e.path.clone());
        }
        i += 1;
    }
    proof {
        first_entry_unique(all, pred, i as int);
    }
    None
}

/// The directory of a package in an unpacked archive: the first that holds
/// a `metadata.json`, else the first that holds a `metadata.desktop`.
pub open spec fn package_dir(root: Seq<char>, listing: Seq<ArchiveEntryView>) -> Option<Seq<char>> {
    if dir_with_either(root, listing, "metadata.json"@, "metadata.json"@) is Some {
        dir_with_either(root, listing, "metadata.json"@, "metadata.json"@)
    } else {
        dir_with_either(root, listing, "metadata.desktop"@, "metadata.desktop"@)
    }
}

/// Finds the directory of the package in an unpacked archive.
pub fn find_package_dir(root: &str, listing: &Vec<ArchiveEntry>) -> (r: Option<String>)
    ensures
        r is Some == package_dir(root@, listing_views(listing@)) is Some,
        r matches Some(p) ==> package_dir(root@, listing_views(listing@)) == Some(p@),
{
    match find_dir_with_either(root, listing, "metadata.json", "metadata.json") {
        Some(p) => Some(p),
        None => find_dir_with_either(root, listing, "metadata.desktop", "metadata.desktop"),
    }
}

/// Finds the first `metadata.json` of an unpacked archive.
pub fn find_metadata_json(root: &str, listing: &Vec<ArchiveEntry>) -> (r: Option<String>)
    ensures
        r is Some == dir_with_either(
            root@,
            listing_views(listing@),
            "metadata.json"@,
            "metadata.json"@,
        ) is Some,
        r matches Some(p) ==> p@ == joined(
            dir_with_either(root@, listing_views(listing@), "metadata.json"@, "metadata.json"@)->0,
            "metadata.json"@,
        ),
{
    match find_dir_with_either(root, listing, "metadata.json", "metadata.json") {
        Some(dir) => Some(join_path(dir.as_str(), "metadata.json")),
        None => None,
    }
}

/// Finds the directory of an icon theme in an unpacked archive: the first
/// that holds an `index.theme`.
pub fn find_icon_theme_dir(root: &str, listing: &Vec<ArchiveEntry>) -> (r: Option<String>)
    ensures
        r is Some == dir_with_either(
            root@,
            listing_views(listing@),
            "index.theme"@,
            "index.theme"@,
        ) is Some,
        r matches Some(p) ==> dir_with_either(
            root@,
            listing_views(listing@),
            "index.theme"@,
            "index.theme"@,
        ) == Some(p@),
{
    find_dir_with_either(root, listing, "index.theme", "index.theme")
}

/// Whether an entry is a color scheme file.
pub open spec fn is_color_scheme_file() -> spec_fn(ArchiveEntryView) -> bool {
    |e: ArchiveEntryView| e.is_file && is_color_scheme_name(e.name)
}

/// Locates the first color scheme file of an unpacked archive.
pub fn locate_color_scheme_file(listing: &Vec<ArchiveEntry>) -> (r: Option<String>)
    ensures
        r is Some == first_path(listing_views(listing@), is_color_scheme_file()) is Some,
        r matches Some(p) ==> first_path(listing_views(listing@), is_color_scheme_file()) == Some(
            p@,
        ),
{
    let ghost all = listing_views(listing@);
    let ghost pred = is_color_scheme_file();
    let mut i: usize = 0;
    while i < listing.len()
        invariant
            i <= listing.len(),
            all == listing_views(listing@),
            pred == is_color_scheme_file(),
            forall|j: int| 0 <= j < i ==> !pred(#[trigger] all[j]),
        decreases listing.len() - i,
    {
        let e = &listing[i];
        proof {
            assert(all[i as int] == e@);
        }
        if e.is_file && color_scheme_name(e.name.as_str()) {
            proof {
                first_entry_unique(all, pred, i as int);
            }
            return Some(e.path.clone());
        }
        i += 1;
    }
    proof {
        first_entry_unique(all, pred, i as int);
    }
    None
}

/// Whether an entry is an image directly below the root.
pub open spec fn is_top_image(root: Seq<char>) -> spec_fn(ArchiveEntryView) -> bool {
    |e: ArchiveEntryView| e.is_file && e.parent == root && is_image_name(lowercased(e.name))
}

/// What to install from an archive.
#[derive(Debug)]
pub struct InstallSource {
    pub path: String,
    /// Whether the source is one file, not a directory.
    pub is_file: bool,
}

/// The mathematical value of an [`InstallSource`].
pub struct InstallSourceView {
    pub path: Seq<char>,
    pub is_file: bool,
}

impl View for InstallSource {
    type V = InstallSourceView;

    open spec fn view(&self) -> InstallSourceView {
        InstallSourceView { path: self.path@, is_file: self.is_file }
    }
}

/// The wallpaper of an unpacked archive: the first directory that holds
/// `contents` or a `metadata.json`, else the first image directly below the root.
pub open spec fn wallpaper_source(root: Seq<char>, listing: Seq<ArchiveEntryView>) -> Option<
    InstallSourceView,
> {
    match dir_with_either(root, listing, "contents"@, "metadata.json"@) {
        Some(p) => Some(InstallSourceView { path: p, is_file: false }),
        None => match first_path(listing, is_top_image(root)) {
            Some(p) => Some(InstallSourceView { path: p, is_file: true }),
            None => None,
        },
    }
}

/// Finds the wallpaper of an unpacked archive.
#[verifier::loop_isolation(false)]
pub fn find_wallpaper_source(root: &str, listing: &Vec<ArchiveEntry>) -> (r: Option<InstallSource>)
    ensures
        r is Some == wallpaper_source(root@, listing_views(listing@)) is Some,
        r matches Some(s) ==> wallpaper_source(root@, listing_views(listing@)) == Some(s@),
{
    match find_dir_with_either(root, listing, "contents", "metadata.json") {
        Some(p) => {
            return Some(InstallSource { path: p, is_file: false });
        },
        None => {},
    }
    let ghost all = listing_views(listing@);
    let ghost pred = is_top_image(root@);
    let mut i: usize = 0;
    while i < listing.len()
        invariant
            i <= listing.len(),
            all == listing_views(listing@),
            pred == is_top_image(root@),
            forall|j: int| 0 <= j < i ==> !pred(#[trigger] all[j]),
        decreases listing.len() - i,
    {
        let e = &listing[i];
        proof {
            assert(all[i as int] == e@);
        }
        if e.is_file && str_eq(e.parent.as_str(), root) {
            let lower = to_lowercase(e.name.as_str());
            if image_name(lower.as_str()) {
                proof {
                    first_entry_unique(all, pred, i as int);
                }
                return Some(InstallSource { path: e.path.clone(), is_file: true });
            }
        }
        i += 1;
    }
    proof {
        first_entry_unique(all, pred, i as int);
    }
    None
}

/// Whether an entry is a directory directly below the root with the
/// layout of a kind.
pub open spec fn is_component_dir(
    root: Seq<char>,
    listing: Seq<ArchiveEntryView>,
    kind: ComponentType,
) -> spec_fn(ArchiveEntryView) -> bool {
    |e: ArchiveEntryView| e.is_dir && e.parent == root && has_structure(listing, e.path, kind)
}

/// The directory of a component in an unpacked archive: the root where it
/// has the layout of the kind, else the first directory directly below it
/// that has.
pub open spec fn component_root(
    root: Seq<char>,
    listing: Seq<ArchiveEntryView>,
    kind: ComponentType,
) -> Option<Seq<char>> {
    if has_structure(listing, root, kind) {
        Some(root)
    } else {
        first_path(listing, is_component_dir(root, listing, kind))
    }
}

/// Finds the root directory of a component within an unpacked archive.
#[verifier::loop_isolation(false)]
pub fn find_component_root_in_archive(
    root: &str,
    listing: &Vec<ArchiveEntry>,
    component_type: ComponentType,
) -> (r: Option<String>)
    ensures
        r is Some == component_root(root@, listing_views(listing@), component_type) is Some,
        r matches Some(p) ==> component_root(root@, listing_views(listing@), component_type)
            == Some(p@),
{
    if has_component_structure(listing, root, component_type) {
        return Some(root.to_owned());
    }
    let ghost all = listing_views(listing@);
    let ghost pred = is_component_dir(root@, all, component_type);
    let mut i: usize = 0;
    while i < listing.len()
        invariant
            i <= listing.len(),
            all == listing_views(listing@),
            pred == is_component_dir(root@, all, component_type),
            forall|j: int| 0 <= j < i ==> !pred(#[trigger] all[j]),
        decreases listing.len() - i,
    {
        let e = &listing[i];
        proof {
            assert(all[i as int] == e@);
        }
        if e.is_dir && str_eq(e.parent.as_str(), root) && has_component_structure(
            listing,
            e.path.as_str(),
            component_type,
        ) {
            proof {
                first_entry_unique(all, pred, i as int);
            }
            return Some(e.path.clone());
        }
        i += 1;
    }
    proof {
        first_entry_unique(all, pred, i as int);
    }
    None
}

/// What is installed from an unpacked archive for a kind that is
/// installed by copying; none where the archive holds nothing of the kind, or
/// the kind is installed by the packaging tool.
pub open spec fn direct_source(root: Seq<char>, listing: Seq<ArchiveEntryView>, kind: ComponentType) -> Option<
    InstallSourceView,
> {
    match strategy_of(kind) {
        Some(InstallStrategy::ColorScheme) => match first_path(listing, is_color_scheme_file()) {
            Some(p) => Some(InstallSourceView { path: p, is_file: true }),
            None => None,
        },
        Some(InstallStrategy::IconTheme) => match dir_with_either(
            root,
            listing,
            "index.theme"@,
            "index.theme"@,
        ) {
            Some(p) => Some(InstallSourceView { path: p, is_file: false }),
            None => None,
        },
        Some(InstallStrategy::Wallpaper) => wallpaper_source(root, listing),
        Some(InstallStrategy::ThemeDir) => match component_root(root, listing, kind) {
            Some(p) => Some(InstallSourceView { path: p, is_file: false }),
            None => None,
        },
        None => None,
    }
}

/// The message of the error for an archive from which a kind cannot be installed.
pub open spec fn direct_failure(kind: ComponentType) -> Seq<char> {
    match strategy_of(kind) {
        Some(InstallStrategy::ColorScheme) => "no color scheme file found in archive"@,
        Some(InstallStrategy::IconTheme) => "no icon theme (index.theme) found in archive"@,
        Some(InstallStrategy::Wallpaper) => "no wallpaper found in archive"@,
        Some(InstallStrategy::ThemeDir) => "no valid "@ + kind.label()
            + " structure found in archive"@,
        None => kind.label() + " should use kpackagetool"@,
    }
}

/// Decides what to install from an unpacked archive for a kind that is
/// installed by copying files.
pub fn install_direct(root: &str, listing: &Vec<ArchiveEntry>, component_type: ComponentType) -> (r:
    Result<InstallSource, Error>)
    ensures
        r is Ok == direct_source(root@, listing_views(listing@), component_type) is Some,
        r matches Ok(s) ==> direct_source(root@, listing_views(listing@), component_type) == Some(
            s@,
        ),
        r matches Err(e) ==> e matches Error::InstallFailed(m) && m@ == direct_failure(
            component_type,
        ),
{
    match get_install_strategy(component_type) {
        Some(InstallStrategy::ColorScheme) => match locate_color_scheme_file(listing) {
            Some(p) => Ok(InstallSource { path: p, is_file: true }),
            None => Err(Error::install("no color scheme file found in archive")),
        },
        Some(InstallStrategy::IconTheme) => match find_icon_theme_dir(root, listing) {
            Some(p) => Ok(InstallSource { path: p, is_file: false }),
            None => Err(Error::install("no icon theme (index.theme) found in archive")),
        },
        Some(InstallStrategy::Wallpaper) => match find_wallpaper_source(root, listing) {
            Some(s) => Ok(s),
            None => Err(Error::install("no wallpaper found in archive")),
        },
        Some(InstallStrategy::ThemeDir) => match find_component_root_in_archive(
            root,
            listing,
            component_type,
        ) {
            Some(p) => Ok(InstallSource { path: p, is_file: false }),
            None => {
                let mut msg = chars_of("no valid ");
                push_str(&mut msg, component_type.display_name());
                push_str(&mut msg, " structure found in archive");
                let text = string_of(&msg);
                Err(Error::install(text.as_str()))
            },
        },
        None => {
            let mut msg = chars_of(component_type.display_name());
            push_str(&mut msg, " should use kpackagetool");
            let text = string_of(&msg);
            Err(Error::install(text.as_str()))
        },
    }
}

/// The arguments with which the packaging tool installs a package: the
/// packaging type, `--global` for a system-wide install, and the directory.
pub open spec fn tool_arguments(packaging: Seq<char>, global: bool, package_dir: Seq<char>) -> Seq<
    Seq<char>,
> {
    if global {
        seq!["-t"@, packaging, "--global"@, "-u"@, package_dir]
    } else {
        seq!["-t"@, packaging, "-u"@, package_dir]
    }
}

/// The arguments with which the packaging tool installs a package of a
/// kind. Fails for a kind without a packaging type.
pub fn install_via_kpackagetool(package_dir: &str, component_type: ComponentType, global: bool) -> (r:
    Result<Vec<String>, Error>)
    ensures
        r is Ok == component_type.packaging() is Some,
        r matches Ok(args) ==> crate::registry::texts(args@) == tool_arguments(
            component_type.packaging()->0,
            global,
            package_dir@,
        ),
        r matches Err(e) ==> e matches Error::InstallFailed(m) && m@ == component_type.label()
            + " has no kpackage type"@,
{
    let packaging = match component_type.kpackage_type() {
        Some(t) => t,
        None => {
            let mut msg = chars_of(component_type.display_name());
            push_str(&mut msg, " has no kpackage type");
            let text = string_of(&msg);
            return Err(Error::install(text.as_str()));
        },
    };
    let mut args: Vec<String> = Vec::new();
    args.push("-t".to_owned());
    args.push(packaging.to_owned());
    if global {
        args.push("--global".to_owned());
    }
    args.push("-u".to_owned());
    args.push(package_dir.to_owned());
    proof {
        assert(crate::registry::texts(args@) =~= tool_arguments(
            component_type.packaging()->0,
            global,
            package_dir@,
        ));
    }
    Ok(args)
}

} // verus!
