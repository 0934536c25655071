use crate::text::{decimal, push_decimal, push_str, string_of};
use vstd::prelude::*;

verus! {

/// Kind of desktop component.
///
/// Each kind fixes the catalog category it is published under, where it is
/// installed, which registry file tracks it and how it is packaged.
#[derive(Clone, Copy, Debug, PartialEq, Eq, Hash, Structural)]
pub enum ComponentType {
    PlasmaWidget,
    WallpaperPlugin,
    KWinEffect,
    KWinScript,
    KWinSwitcher,
    GlobalTheme,
    PlasmaStyle,
    AuroraeDecoration,
    ColorScheme,
    SplashScreen,
    SddmTheme,
    IconTheme,
    Wallpaper,
}

impl ComponentType {
    /// The catalog category of the kind.
    pub open spec fn category(self) -> u16 {
        match self {
            Self::PlasmaWidget => 705,
            Self::WallpaperPlugin => 715,
            Self::KWinEffect => 719,
            Self::KWinScript => 720,
            Self::KWinSwitcher => 721,
            Self::GlobalTheme => 722,
            Self::PlasmaStyle => 709,
            Self::AuroraeDecoration => 114,
            Self::ColorScheme => 112,
            Self::SplashScreen => 708,
            Self::SddmTheme => 101,
            Self::IconTheme => 132,
            Self::Wallpaper => 299,
        }
    }

    /// The packaging type handed to the packaging tool; `None` for kinds that
    /// are installed by copying files.
    pub open spec fn packaging(self) -> Option<Seq<char>> {
        match self {
            Self::PlasmaWidget => Some("Plasma/Applet"@),
            Self::WallpaperPlugin => Some("Plasma/Wallpaper"@),
            Self::KWinEffect => Some("KWin/Effect"@),
            Self::KWinScript => Some("KWin/Script"@),
            Self::KWinSwitcher => Some("KWin/WindowSwitcher"@),
            _ => None,
        }
    }

    /// Whether the kind leaves no metadata on disk and is known from its
    /// registry file alone.
    pub open spec fn is_registry_only(self) -> bool {
        self == Self::IconTheme || self == Self::Wallpaper || self == Self::ColorScheme
    }

    /// The install directory below the user's data directory; `None` for a
    /// kind that is installed system-wide only.
    pub open spec fn user_dir(self) -> Option<Seq<char>> {
        match self {
            Self::PlasmaWidget => Some("plasma/plasmoids"@),
            Self::WallpaperPlugin => Some("plasma/wallpapers"@),
            Self::KWinEffect => Some("kwin/effects"@),
            Self::KWinScript => Some("kwin/scripts"@),
            Self::KWinSwitcher => Some("kwin/tabbox"@),
            Self::GlobalTheme => Some("plasma/look-and-feel"@),
            Self::SplashScreen => Some("plasma/look-and-feel"@),
            Self::PlasmaStyle => Some("plasma/desktoptheme"@),
            Self::AuroraeDecoration => Some("aurorae/themes"@),
            Self::ColorScheme => Some("color-schemes"@),
            Self::SddmTheme => None,
            Self::IconTheme => Some("icons"@),
            Self::Wallpaper => Some("wallpapers"@),
        }
    }

    /// The system-wide install directory.
    pub open spec fn system_dir(self) -> Seq<char> {
        match self {
            Self::PlasmaWidget => "/usr/share/plasma/plasmoids"@,
            Self::WallpaperPlugin => "/usr/share/plasma/wallpapers"@,
            Self::KWinEffect => "/usr/share/kwin/effects"@,
            Self::KWinScript => "/usr/share/kwin/scripts"@,
            Self::KWinSwitcher => "/usr/share/kwin/tabbox"@,
            Self::GlobalTheme => "/usr/share/plasma/look-and-feel"@,
            Self::SplashScreen => "/usr/share/plasma/look-and-feel"@,
            Self::PlasmaStyle => "/usr/share/plasma/desktoptheme"@,
            Self::AuroraeDecoration => "/usr/share/aurorae/themes"@,
            Self::ColorScheme => "/usr/share/color-schemes"@,
            Self::SddmTheme => "/usr/share/sddm/themes"@,
            Self::IconTheme => "/usr/share/icons"@,
            Self::Wallpaper => "/usr/share/wallpapers"@,
        }
    }

    /// The directory under which backups of the kind are kept.
    pub open spec fn backup_dir(self) -> Seq<char> {
        match self {
            Self::PlasmaWidget => "plasma-plasmoids"@,
            Self::WallpaperPlugin => "plasma-wallpapers"@,
            Self::KWinEffect => "kwin-effects"@,
            Self::KWinScript => "kwin-scripts"@,
            Self::KWinSwitcher => "kwin-tabbox"@,
            Self::GlobalTheme => "plasma-look-and-feel"@,
            Self::PlasmaStyle => "plasma-desktoptheme"@,
            Self::AuroraeDecoration => "aurorae-themes"@,
            Self::ColorScheme => "color-schemes"@,
            Self::SplashScreen => "plasma-splash"@,
            Self::SddmTheme => "sddm-themes"@,
            Self::IconTheme => "icons"@,
            Self::Wallpaper => "wallpapers"@,
        }
    }

    /// The name of the registry file that tracks the kind.
    pub open spec fn registry_name(self) -> Option<Seq<char>> {
        match self {
            Self::PlasmaWidget => Some("plasmoids.knsregistry"@),
            Self::KWinEffect => Some("kwineffect.knsregistry"@),
            Self::KWinScript => Some("kwinscripts.knsregistry"@),
            Self::KWinSwitcher => Some("kwinswitcher.knsregistry"@),
            Self::WallpaperPlugin => Some("wallpaperplugin.knsregistry"@),
            Self::GlobalTheme => Some("lookandfeel.knsregistry"@),
            Self::PlasmaStyle => Some("plasma-themes.knsregistry"@),
            Self::AuroraeDecoration => Some("aurorae.knsregistry"@),
            Self::ColorScheme => Some("colorschemes.knsregistry"@),
            Self::SplashScreen => Some("ksplash.knsregistry"@),
            Self::SddmTheme => Some("sddmtheme.knsregistry"@),
            Self::IconTheme => Some("icons.knsregistry"@),
            Self::Wallpaper => Some("wallpaper.knsregistry"@),
        }
    }

    /// Whether a catalog type id belongs to the kind: its own category, or
    /// for widgets one of the subcategories 706 to 713 and 723.
    pub open spec fn owns_type_id(self, id: u16) -> bool {
        id == self.category() || (self == Self::PlasmaWidget && ((706 <= id && id <= 713) || id
            == 723))
    }

    /// The human-readable label of the kind.
    pub open spec fn label(self) -> Seq<char> {
        match self {
            Self::PlasmaWidget => "Plasma Widget"@,
            Self::WallpaperPlugin => "Wallpaper Plugin"@,
            Self::KWinEffect => "KWin Effect"@,
            Self::KWinScript => "KWin Script"@,
            Self::KWinSwitcher => "KWin Switcher"@,
            Self::GlobalTheme => "Global Theme"@,
            Self::PlasmaStyle => "Plasma Style"@,
            Self::AuroraeDecoration => "Aurorae Decoration"@,
            Self::ColorScheme => "Color Scheme"@,
            Self::SplashScreen => "Splash Screen"@,
            Self::SddmTheme => "SDDM Theme"@,
            Self::IconTheme => "Icon Theme"@,
            Self::Wallpaper => "Wallpaper"@,
        }
    }

    /// All thirteen kinds, in the order in which they are scanned.
    pub open spec fn every() -> Seq<ComponentType> {
        seq![
            Self::PlasmaWidget,
            Self::WallpaperPlugin,
            Self::KWinEffect,
            Self::KWinScript,
            Self::KWinSwitcher,
            Self::GlobalTheme,
            Self::PlasmaStyle,
            Self::AuroraeDecoration,
            Self::ColorScheme,
            Self::SplashScreen,
            Self::SddmTheme,
            Self::IconTheme,
            Self::Wallpaper,
        ]
    }

    /// The kinds that can be installed below the user's data directory.
    pub open spec fn every_user() -> Seq<ComponentType> {
        seq![
            Self::PlasmaWidget,
            Self::WallpaperPlugin,
            Self::KWinEffect,
            Self::KWinScript,
            Self::KWinSwitcher,
            Self::GlobalTheme,
            Self::PlasmaStyle,
            Self::AuroraeDecoration,
            Self::ColorScheme,
            Self::SplashScreen,
            Self::IconTheme,
            Self::Wallpaper,
        ]
    }

    pub fn category_id(self) -> (r: u16)
        ensures
            r == self.category(),
    {
        match self {
            Self::PlasmaWidget => 705,
            Self::WallpaperPlugin => 715,
            Self::KWinEffect => 719,
            Self::KWinScript => 720,
            Self::KWinSwitcher => 721,
            Self::GlobalTheme => 722,
            Self::PlasmaStyle => 709,
            Self::AuroraeDecoration => 114,
            Self::ColorScheme => 112,
            Self::SplashScreen => 708,
            Self::SddmTheme => 101,
            Self::IconTheme => 132,
            Self::Wallpaper => 299,
        }
    }

    pub fn kpackage_type(self) -> (r: Option<&'static str>)
        ensures
            r is Some == self.packaging() is Some,
            r matches Some(s) ==> self.packaging() == Some(s@),
    {
        match self {
            Self::PlasmaWidget => Some("Plasma/Applet"),
            Self::WallpaperPlugin => Some("Plasma/Wallpaper"),
            Self::KWinEffect => Some("KWin/Effect"),
            Self::KWinScript => Some("KWin/Script"),
            Self::KWinSwitcher => Some("KWin/WindowSwitcher"),
            _ => None,
        }
    }

    pub fn registry_only(self) -> (r: bool)
        ensures
            r == self.is_registry_only(),
    {
        match self {
            Self::IconTheme | Self::Wallpaper | Self::ColorScheme => true,
            _ => false,
        }
    }

    pub fn matches_type_id(self, id: u16) -> (r: bool)
        ensures
            r == self.owns_type_id(id),
    {
        if id == self.category_id() {
            return true;
        }
        match self {
            Self::PlasmaWidget => (706 <= id && id <= 713) || id == 723,
            _ => false,
        }
    }

    pub fn user_suffix(self) -> (r: Option<&'static str>)
        ensures
            r is Some == self.user_dir() is Some,
            r matches Some(s) ==> self.user_dir() == Some(s@),
    {
        match self {
            Self::PlasmaWidget => Some("plasma/plasmoids"),
            Self::WallpaperPlugin => Some("plasma/wallpapers"),
            Self::KWinEffect => Some("kwin/effects"),
            Self::KWinScript => Some("kwin/scripts"),
            Self::KWinSwitcher => Some("kwin/tabbox"),
            Self::GlobalTheme | Self::SplashScreen => Some("plasma/look-and-feel"),
            Self::PlasmaStyle => Some("plasma/desktoptheme"),
            Self::AuroraeDecoration => Some("aurorae/themes"),
            Self::ColorScheme => Some("color-schemes"),
            Self::SddmTheme => None,
            Self::IconTheme => Some("icons"),
            Self::Wallpaper => Some("wallpapers"),
        }
    }

    pub fn system_path_str(self) -> (r: &'static str)
        ensures
            r@ == self.system_dir(),
    {
        match self {
            Self::PlasmaWidget => "/usr/share/plasma/plasmoids",
            Self::WallpaperPlugin => "/usr/share/plasma/wallpapers",
            Self::KWinEffect => "/usr/share/kwin/effects",
            Self::KWinScript => "/usr/share/kwin/scripts",
            Self::KWinSwitcher => "/usr/share/kwin/tabbox",
            Self::GlobalTheme | Self::SplashScreen => "/usr/share/plasma/look-and-feel",
            Self::PlasmaStyle => "/usr/share/plasma/desktoptheme",
            Self::AuroraeDecoration => "/usr/share/aurorae/themes",
            Self::ColorScheme => "/usr/share/color-schemes",
            Self::SddmTheme => "/usr/share/sddm/themes",
            Self::IconTheme => "/usr/share/icons",
            Self::Wallpaper => "/usr/share/wallpapers",
        }
    }

    pub fn system_path(self) -> (r: String)
        ensures
            r@ == self.system_dir(),
    {
        self.system_path_str().to_owned()
    }

    /// Where the kind is installed below the user's data directory; the
    /// empty path for a kind that is installed system-wide only.
    pub fn user_path(self, data_home: &str) -> (r: String)
        ensures
            r@ == match self.user_dir() {
                Some(suffix) => crate::paths::joined(data_home@, suffix),
                None => Seq::<char>::empty(),
            },
    {
        crate::paths::user_path(self, data_home)
    }

    pub fn backup_subdir(self) -> (r: &'static str)
        ensures
            r@ == self.backup_dir(),
    {
        match self {
            Self::PlasmaWidget => "plasma-plasmoids",
            Self::WallpaperPlugin => "plasma-wallpapers",
            Self::KWinEffect => "kwin-effects",
            Self::KWinScript => "kwin-scripts",
            Self::KWinSwitcher => "kwin-tabbox",
            Self::GlobalTheme => "plasma-look-and-feel",
            Self::PlasmaStyle => "plasma-desktoptheme",
            Self::AuroraeDecoration => "aurorae-themes",
            Self::ColorScheme => "color-schemes",
            Self::SplashScreen => "plasma-splash",
            Self::SddmTheme => "sddm-themes",
            Self::IconTheme => "icons",
            Self::Wallpaper => "wallpapers",
        }
    }

    pub fn registry_file(self) -> (r: Option<&'static str>)
        ensures
            r is Some,
            self.registry_name() == Some(r->0@),
    {
        match self {
            Self::PlasmaWidget => Some("plasmoids.knsregistry"),
            Self::KWinEffect => Some("kwineffect.knsregistry"),
            Self::KWinScript => Some("kwinscripts.knsregistry"),
            Self::KWinSwitcher => Some("kwinswitcher.knsregistry"),
            Self::WallpaperPlugin => Some("wallpaperplugin.knsregistry"),
            Self::GlobalTheme => Some("lookandfeel.knsregistry"),
            Self::PlasmaStyle => Some("plasma-themes.knsregistry"),
            Self::AuroraeDecoration => Some("aurorae.knsregistry"),
            Self::ColorScheme => Some("colorschemes.knsregistry"),
            Self::SplashScreen => Some("ksplash.knsregistry"),
            Self::SddmTheme => Some("sddmtheme.knsregistry"),
            Self::IconTheme => Some("icons.knsregistry"),
            Self::Wallpaper => Some("wallpaper.knsregistry"),
        }
    }

    /// The label shown to the user.
    pub fn display_name(self) -> (r: &'static str)
        ensures
            r@ == self.label(),
    {
        match self {
            Self::PlasmaWidget => "Plasma Widget",
            Self::WallpaperPlugin => "Wallpaper Plugin",
            Self::KWinEffect => "KWin Effect",
            Self::KWinScript => "KWin Script",
            Self::KWinSwitcher => "KWin Switcher",
            Self::GlobalTheme => "Global Theme",
            Self::PlasmaStyle => "Plasma Style",
            Self::AuroraeDecoration => "Aurorae Decoration",
            Self::ColorScheme => "Color Scheme",
            Self::SplashScreen => "Splash Screen",
            Self::SddmTheme => "SDDM Theme",
            Self::IconTheme => "Icon Theme",
            Self::Wallpaper => "Wallpaper",
        }
    }

    pub fn all() -> (r: Vec<ComponentType>)
        ensures
            r@ == Self::every(),
    {
        let r = vec![
            Self::PlasmaWidget,
            Self::WallpaperPlugin,
            Self::KWinEffect,
            Self::KWinScript,
            Self::KWinSwitcher,
            Self::GlobalTheme,
            Self::PlasmaStyle,
            Self::AuroraeDecoration,
            Self::ColorScheme,
            Self::SplashScreen,
            Self::SddmTheme,
            Self::IconTheme,
            Self::Wallpaper,
        ];
        assert(r@ =~= Self::every());
        r
    }

    pub fn all_user() -> (r: Vec<ComponentType>)
        ensures
            r@ == Self::every_user(),
    {
        let r = vec![
            Self::PlasmaWidget,
            Self::WallpaperPlugin,
            Self::KWinEffect,
            Self::KWinScript,
            Self::KWinSwitcher,
            Self::GlobalTheme,
            Self::PlasmaStyle,
            Self::AuroraeDecoration,
            Self::ColorScheme,
            Self::SplashScreen,
            Self::IconTheme,
            Self::Wallpaper,
        ];
        assert(r@ =~= Self::every_user());
        r
    }
}

/// The user-installable kinds are all kinds but the login-manager theme, in
/// the same order.
pub proof fn user_kinds_are_all_but_sddm()
    ensures
        ComponentType::every_user() == ComponentType::every().filter(
            |k: ComponentType| k.user_dir() is Some,
        ),
{
    let all = ComponentType::every();
    let f = |k: ComponentType| k.user_dir() is Some;
    reveal_with_fuel(Seq::filter, 14);
    assert(all.filter(f) =~= ComponentType::every_user());
}

/// The view of an optional text.
pub open spec fn opt_text(o: Option<String>) -> Option<Seq<char>> {
    match o {
        Some(s) => Some(s@),
        None => None,
    }
}

/// A copy of an optional text.
pub fn clone_opt(o: &Option<String>) -> (r: Option<String>)
    ensures
        opt_text(r) == opt_text(*o),
{
    match o {
        Some(s) => Some(s.clone()),
        None => None,
    }
}

/// A component found on this machine.
#[derive(Debug)]
pub struct InstalledComponent {
    /// The label shown to the user.
    pub name: String,
    /// The name of the component's directory or file: its identity within a kind.
    pub directory_name: String,
    /// The installed version; may be empty or no version at all.
    pub version: String,
    pub component_type: ComponentType,
    /// Where the component is installed, as an absolute path.
    pub path: String,
    pub is_system: bool,
    /// The release date of the installed revision in ISO form; may be empty.
    pub release_date: String,
}

/// The mathematical value of an [`InstalledComponent`].
pub struct InstalledComponentView {
    pub name: Seq<char>,
    pub directory_name: Seq<char>,
    pub version: Seq<char>,
    pub component_type: ComponentType,
    pub path: Seq<char>,
    pub is_system: bool,
    pub release_date: Seq<char>,
}

impl View for InstalledComponent {
    type V = InstalledComponentView;

    open spec fn view(&self) -> InstalledComponentView {
        InstalledComponentView {
            name: self.name@,
            directory_name: self.directory_name@,
            version: self.version@,
            component_type: self.component_type,
            path: self.path@,
            is_system: self.is_system,
            release_date: self.release_date@,
        }
    }
}

impl Clone for InstalledComponent {
    fn clone(&self) -> (r: Self)
        ensures
            r@ == self@,
    {
        InstalledComponent {
            name: self.name.clone(),
            directory_name: self.directory_name.clone(),
            version: self.version.clone(),
            component_type: self.component_type,
            path: self.path.clone(),
            is_system: self.is_system,
            release_date: self.release_date.clone(),
        }
    }
}

/// One way to download a catalog entry.
#[derive(Debug)]
pub struct DownloadLink {
    pub url: String,
    /// The version that the link delivers.
    pub version: String,
    /// The MD5 checksum of the download in hexadecimal, where the catalog gives one.
    pub checksum: Option<String>,
    pub size_kb: Option<u64>,
}

/// The mathematical value of a [`DownloadLink`].
pub struct DownloadLinkView {
    pub url: Seq<char>,
    pub version: Seq<char>,
    pub checksum: Option<Seq<char>>,
    pub size_kb: Option<u64>,
}

impl View for DownloadLink {
    type V = DownloadLinkView;

    open spec fn view(&self) -> DownloadLinkView {
        DownloadLinkView {
            url: self.url@,
            version: self.version@,
            checksum: opt_text(self.checksum),
            size_kb: self.size_kb,
        }
    }
}

impl Clone for DownloadLink {
    fn clone(&self) -> (r: Self)
        ensures
            r@ == self@,
    {
        DownloadLink {
            url: self.url.clone(),
            version: self.version.clone(),
            checksum: clone_opt(&self.checksum),
            size_kb: self.size_kb,
        }
    }
}

/// The views of a run of download links.
pub open spec fn link_views(links: Seq<DownloadLink>) -> Seq<DownloadLinkView> {
    links.map_values(|l: DownloadLink| l@)
}

/// A component as the catalog publishes it.
#[derive(Debug)]
pub struct StoreEntry {
    pub id: u64,
    pub name: String,
    pub version: String,
    pub type_id: u16,
    pub download_links: Vec<DownloadLink>,
    /// When the entry last changed, as an ISO timestamp.
    pub changed_date: String,
}

/// The mathematical value of a [`StoreEntry`].
pub struct StoreEntryView {
    pub id: u64,
    pub name: Seq<char>,
    pub version: Seq<char>,
    pub type_id: u16,
    pub download_links: Seq<DownloadLinkView>,
    pub changed_date: Seq<char>,
}

impl View for StoreEntry {
    type V = StoreEntryView;

    open spec fn view(&self) -> StoreEntryView {
        StoreEntryView {
            id: self.id,
            name: self.name@,
            version: self.version@,
            type_id: self.type_id,
            download_links: link_views(self.download_links@),
            changed_date: self.changed_date@,
        }
    }
}

/// A copy of a run of download links.
pub fn clone_links(links: &Vec<DownloadLink>) -> (r: Vec<DownloadLink>)
    ensures
        link_views(r@) == link_views(links@),
{
    let mut r: Vec<DownloadLink> = Vec::new();
    let mut i: usize = 0;
    while i < links.len()
        invariant
            i <= links.len(),
            r@.len() == i,
            forall|j: int| 0 <= j < i ==> r@[j]@ == links@[j]@,
        decreases links.len() - i,
    {
        r.push(links[i].clone());
        i += 1;
    }
    proof {
        assert(link_views(r@) =~= link_views(links@));
    }
    r
}

impl Clone for StoreEntry {
    fn clone(&self) -> (r: Self)
        ensures
            r@ == self@,
    {
        StoreEntry {
            id: self.id,
            name: self.name.clone(),
            version: self.version.clone(),
            type_id: self.type_id,
            download_links: clone_links(&self.download_links),
            changed_date: self.changed_date.clone(),
        }
    }
}

/// The views of a run of catalog entries.
pub open spec fn entry_views(entries: Seq<StoreEntry>) -> Seq<StoreEntryView> {
    entries.map_values(|e: StoreEntry| e@)
}

/// The views of a run of installed components.
pub open spec fn component_views(components: Seq<InstalledComponent>) -> Seq<
    InstalledComponentView,
> {
    components.map_values(|c: InstalledComponent| c@)
}

/// The address of a catalog entry's page in the store.
pub open spec fn store_page(content_id: u64) -> Seq<char> {
    "https://store.kde.org/p/"@ + decimal(content_id as nat)
}

/// The address of a catalog entry's page in the store.
pub fn store_url_for(content_id: u64) -> (r: String)
    ensures
        r@ == store_page(content_id),
{
    let mut v: Vec<char> = Vec::new();
    push_str(&mut v, "https://store.kde.org/p/");
    push_decimal(&mut v, content_id);
    proof {
        assert(v@ =~= store_page(content_id));
    }
    string_of(&v)
}

/// A newer revision that the catalog offers for an installed component.
#[derive(Debug)]
pub struct AvailableUpdate {
    pub installed: InstalledComponent,
    pub content_id: u64,
    pub latest_version: String,
    pub download_url: String,
    pub store_url: String,
    pub release_date: String,
    pub checksum: Option<String>,
    /// The size of the download in bytes.
    pub download_size: Option<u64>,
}

/// The mathematical value of an [`AvailableUpdate`].
pub struct AvailableUpdateView {
    pub installed: InstalledComponentView,
    pub content_id: u64,
    pub latest_version: Seq<char>,
    pub download_url: Seq<char>,
    pub store_url: Seq<char>,
    pub release_date: Seq<char>,
    pub checksum: Option<Seq<char>>,
    pub download_size: Option<u64>,
}

impl View for AvailableUpdate {
    type V = AvailableUpdateView;

    open spec fn view(&self) -> AvailableUpdateView {
        AvailableUpdateView {
            installed: self.installed@,
            content_id: self.content_id,
            latest_version: self.latest_version@,
            download_url: self.download_url@,
            store_url: self.store_url@,
            release_date: self.release_date@,
            checksum: opt_text(self.checksum),
            download_size: self.download_size,
        }
    }
}

impl Clone for AvailableUpdate {
    fn clone(&self) -> (r: Self)
        ensures
            r@ == self@,
    {
        AvailableUpdate {
            installed: self.installed.clone(),
            content_id: self.content_id,
            latest_version: self.latest_version.clone(),
            download_url: self.download_url.clone(),
            store_url: self.store_url.clone(),
            release_date: self.release_date.clone(),
            checksum: clone_opt(&self.checksum),
            download_size: self.download_size,
        }
    }
}

/// The views of a run of updates.
pub open spec fn update_views(updates: Seq<AvailableUpdate>) -> Seq<AvailableUpdateView> {
    updates.map_values(|u: AvailableUpdate| u@)
}

/// The update that joins an installed component with what the catalog says of it.
pub open spec fn joined_update(
    installed: InstalledComponentView,
    content_id: u64,
    latest_version: Seq<char>,
    download_url: Seq<char>,
    release_date: Seq<char>,
    checksum: Option<Seq<char>>,
    download_size: Option<u64>,
) -> AvailableUpdateView {
    AvailableUpdateView {
        installed,
        content_id,
        latest_version,
        download_url,
        store_url: store_page(content_id),
        release_date,
        checksum,
        download_size,
    }
}

/// Collects the parts of an [`AvailableUpdate`] before it is built.
pub struct AvailableUpdateBuilder {
    pub installed: InstalledComponent,
    pub content_id: u64,
    pub latest_version: String,
    pub download_url: String,
    pub release_date: String,
    pub checksum: Option<String>,
    pub download_size: Option<u64>,
}

impl AvailableUpdateBuilder {
    /// The update that the builder stands for.
    pub open spec fn built(self) -> AvailableUpdateView {
        joined_update(
            self.installed@,
            self.content_id,
            self.latest_version@,
            self.download_url@,
            self.release_date@,
            opt_text(self.checksum),
            self.download_size,
        )
    }

    pub fn checksum(self, checksum: Option<String>) -> (r: Self)
        ensures
            r == (AvailableUpdateBuilder { checksum, ..self }),
    {
        let mut b = self;
        b.checksum = checksum;
        b
    }

    pub fn download_size(self, size: Option<u64>) -> (r: Self)
        ensures
            r == (AvailableUpdateBuilder { download_size: size, ..self }),
    {
        let mut b = self;
        b.download_size = size;
        b
    }

    pub fn build(self) -> (r: AvailableUpdate)
        ensures
            r@ == self.built(),
    {
        let store_url = store_url_for(self.content_id);
        AvailableUpdate {
            installed: self.installed,
            content_id: self.content_id,
            latest_version: self.latest_version,
            download_url: self.download_url,
            store_url,
            release_date: self.release_date,
            checksum: self.checksum,
            download_size: self.download_size,
        }
    }
}

impl AvailableUpdate {
    pub fn builder(
        installed: InstalledComponent,
        content_id: u64,
        latest_version: String,
        download_url: String,
        release_date: String,
    ) -> (r: AvailableUpdateBuilder)
        ensures
            r == (AvailableUpdateBuilder {
                installed,
                content_id,
                latest_version,
                download_url,
                release_date,
                checksum: None,
                download_size: None,
            }),
    {
        AvailableUpdateBuilder {
            installed,
            content_id,
            latest_version,
            download_url,
            release_date,
            checksum: None,
            download_size: None,
        }
    }

    pub fn new(
        installed: InstalledComponent,
        content_id: u64,
        latest_version: String,
        download_url: String,
        release_date: String,
    ) -> (r: Self)
        ensures
            r@ == joined_update(
                installed@,
                content_id,
                latest_version@,
                download_url@,
                release_date@,
                None,
                None,
            ),
    {
        let store_url = store_url_for(content_id);
        AvailableUpdate {
            installed,
            content_id,
            latest_version,
            download_url,
            store_url,
            release_date,
            checksum: None,
            download_size: None,
        }
    }

    pub fn with_checksum(self, checksum: Option<String>) -> (r: Self)
        ensures
            r == (AvailableUpdate { checksum, ..self }),
    {
        let mut u = self;
        u.checksum = checksum;
        u
    }

    pub fn with_download_size(self, size: Option<u64>) -> (r: Self)
        ensures
            r == (AvailableUpdate { download_size: size, ..self }),
    {
        let mut u = self;
        u.download_size = size;
        u
    }
}

/// The plugin section of a component's metadata file.
#[derive(Debug)]
pub struct KPluginInfo {
    pub name: Option<String>,
    pub version: Option<String>,
    pub description: Option<String>,
    pub icon: Option<String>,
}

/// What a component's metadata file says of it.
#[derive(Debug)]
pub struct PackageMetadata {
    pub kplugin: Option<KPluginInfo>,
    pub kpackage_structure: Option<String>,
}

impl PackageMetadata {
    /// The name that the plugin section gives.
    pub open spec fn plugin_name(self) -> Option<Seq<char>> {
        match self.kplugin {
            Some(k) => opt_text(k.name),
            None => None,
        }
    }

    /// The version that the plugin section gives.
    pub open spec fn plugin_version(self) -> Option<Seq<char>> {
        match self.kplugin {
            Some(k) => opt_text(k.version),
            None => None,
        }
    }

    pub fn name(&self) -> (r: Option<&str>)
        ensures
            r is Some == self.plugin_name() is Some,
            r matches Some(s) ==> self.plugin_name() == Some(s@),
    {
        match &self.kplugin {
            Some(k) => match &k.name {
                Some(n) => Some(n.as_str()),
                None => None,
            },
            None => None,
        }
    }

    pub fn version(&self) -> (r: Option<&str>)
        ensures
            r is Some == self.plugin_version() is Some,
            r matches Some(s) ==> self.plugin_version() == Some(s@),
    {
        match &self.kplugin {
            Some(k) => match &k.version {
                Some(n) => Some(n.as_str()),
                None => None,
            },
            None => None,
        }
    }
}

/// The outcome of a batch of updates, name by name.
#[derive(Debug)]
pub struct UpdateSummary {
    pub succeeded: Vec<String>,
    /// The components that failed, each with the reason.
    pub failed: Vec<(String, String)>,
    pub skipped: Vec<String>,
}

impl UpdateSummary {
    /// A summary of no updates.
    pub fn new() -> (r: Self)
        ensures
            r.succeeded@.len() == 0,
            r.failed@.len() == 0,
            r.skipped@.len() == 0,
    {
        UpdateSummary { succeeded: Vec::new(), failed: Vec::new(), skipped: Vec::new() }
    }

    pub fn add_success(&mut self, name: String)
        ensures
            final(self).succeeded@ == old(self).succeeded@.push(name),
            final(self).failed == old(self).failed,
            final(self).skipped == old(self).skipped,
    {
        self.succeeded.push(name);
    }

    pub fn add_failure(&mut self, name: String, reason: String)
        ensures
            final(self).failed@ == old(self).failed@.push((name, reason)),
            final(self).succeeded == old(self).succeeded,
            final(self).skipped == old(self).skipped,
    {
        self.failed.push((name, reason));
    }

    pub fn add_skipped(&mut self, name: String)
        ensures
            final(self).skipped@ == old(self).skipped@.push(name),
            final(self).succeeded == old(self).succeeded,
            final(self).failed == old(self).failed,
    {
        self.skipped.push(name);
    }

    pub fn has_failures(&self) -> (r: bool)
        ensures
            r == (self.failed@.len() > 0),
    {
        self.failed.len() > 0
    }

    /// The number of components that the batch went through, saturating at
    /// the largest number the machine can hold.
    pub fn total_processed(&self) -> (r: usize)
        ensures
            r as int == if self.succeeded@.len() + self.failed@.len() + self.skipped@.len()
                <= usize::MAX {
                self.succeeded@.len() + self.failed@.len() + self.skipped@.len()
            } else {
                usize::MAX as nat
            },
    {
        self.succeeded.len().saturating_add(self.failed.len()).saturating_add(self.skipped.len())
    }

    pub fn exit_code(&self) -> (r: i32)
        ensures
            r == if self.failed@.len() > 0 {
                1i32
            } else {
                0i32
            },
    {
        if self.has_failures() {
            1
        } else {
            0
        }
    }

    pub fn merge(&mut self, other: UpdateSummary)
        ensures
            final(self).succeeded@ == old(self).succeeded@ + other.succeeded@,
            final(self).failed@ == old(self).failed@ + other.failed@,
            final(self).skipped@ == old(self).skipped@ + other.skipped@,
    {
        let mut other = other;
        self.succeeded.append(&mut other.succeeded);
        self.failed.append(&mut other.failed);
        self.skipped.append(&mut other.skipped);
    }
}

/// Why a component could not be checked, with what is known of it.
#[derive(Debug)]
pub struct ComponentDiagnostic {
    pub name: String,
    pub reason: String,
    pub installed_version: Option<String>,
    pub available_version: Option<String>,
    pub content_id: Option<u64>,
}

/// The mathematical value of a [`ComponentDiagnostic`].
pub struct DiagnosticView {
    pub name: Seq<char>,
    pub reason: Seq<char>,
    pub installed_version: Option<Seq<char>>,
    pub available_version: Option<Seq<char>>,
    pub content_id: Option<u64>,
}

impl View for ComponentDiagnostic {
    type V = DiagnosticView;

    open spec fn view(&self) -> DiagnosticView {
        DiagnosticView {
            name: self.name@,
            reason: self.reason@,
            installed_version: opt_text(self.installed_version),
            available_version: opt_text(self.available_version),
            content_id: self.content_id,
        }
    }
}

/// The views of a run of diagnostics.
pub open spec fn diagnostic_views(ds: Seq<ComponentDiagnostic>) -> Seq<DiagnosticView> {
    ds.map_values(|d: ComponentDiagnostic| d@)
}

impl ComponentDiagnostic {
    pub fn new(name: String, reason: String) -> (r: Self)
        ensures
            r == (ComponentDiagnostic {
                name,
                reason,
                installed_version: None,
                available_version: None,
                content_id: None,
            }),
    {
        ComponentDiagnostic {
            name,
            reason,
            installed_version: None,
            available_version: None,
            content_id: None,
        }
    }

    pub fn with_versions(self, installed: Option<String>, available: Option<String>) -> (r: Self)
        ensures
            r == (ComponentDiagnostic {
                installed_version: installed,
                available_version: available,
                ..self
            }),
    {
        let mut d = self;
        d.installed_version = installed;
        d.available_version = available;
        d
    }

    pub fn with_content_id(self, id: u64) -> (r: Self)
        ensures
            r == (ComponentDiagnostic { content_id: Some(id), ..self }),
    {
        let mut d = self;
        d.content_id = Some(id);
        d
    }
}

/// What a check found: the updates on offer, and the components that could
/// not be matched or evaluated.
#[derive(Debug)]
pub struct UpdateCheckResult {
    pub updates: Vec<AvailableUpdate>,
    /// Components that no catalog entry could be found for.
    pub unresolved: Vec<ComponentDiagnostic>,
    /// Components that were matched but whose entry could not be used.
    pub check_failures: Vec<ComponentDiagnostic>,
}

/// The mathematical value of an [`UpdateCheckResult`].
pub struct CheckResultView {
    pub updates: Seq<AvailableUpdateView>,
    pub unresolved: Seq<DiagnosticView>,
    pub check_failures: Seq<DiagnosticView>,
}

impl View for UpdateCheckResult {
    type V = CheckResultView;

    open spec fn view(&self) -> CheckResultView {
        CheckResultView {
            updates: update_views(self.updates@),
            unresolved: diagnostic_views(self.unresolved@),
            check_failures: diagnostic_views(self.check_failures@),
        }
    }
}

impl UpdateCheckResult {
    pub fn new() -> (r: Self)
        ensures
            r.updates@.len() == 0,
            r.unresolved@.len() == 0,
            r.check_failures@.len() == 0,
    {
        UpdateCheckResult { updates: Vec::new(), unresolved: Vec::new(), check_failures: Vec::new() }
    }

    pub fn add_update(&mut self, update: AvailableUpdate)
        ensures
            final(self).updates@ == old(self).updates@.push(update),
            final(self).unresolved == old(self).unresolved,
            final(self).check_failures == old(self).check_failures,
    {
        self.updates.push(update);
    }

    pub fn add_unresolved(&mut self, diagnostic: ComponentDiagnostic)
        ensures
            final(self).unresolved@ == old(self).unresolved@.push(diagnostic),
            final(self).updates == old(self).updates,
            final(self).check_failures == old(self).check_failures,
    {
        self.unresolved.push(diagnostic);
    }

    pub fn add_check_failure(&mut self, diagnostic: ComponentDiagnostic)
        ensures
            final(self).check_failures@ == old(self).check_failures@.push(diagnostic),
            final(self).updates == old(self).updates,
            final(self).unresolved == old(self).unresolved,
    {
        self.check_failures.push(diagnostic);
    }

    pub fn has_issues(&self) -> (r: bool)
        ensures
            r == (self.unresolved@.len() > 0 || self.check_failures@.len() > 0),
    {
        self.unresolved.len() > 0 || self.check_failures.len() > 0
    }
}

/// What a check found, with each problem as a pair of name and reason.
#[derive(Debug)]
pub struct CheckResult {
    pub updates: Vec<AvailableUpdate>,
    pub unresolved: Vec<(String, String)>,
    pub check_failures: Vec<(String, String)>,
}

impl CheckResult {
    pub fn new() -> (r: Self)
        ensures
            r.updates@.len() == 0,
            r.unresolved@.len() == 0,
            r.check_failures@.len() == 0,
    {
        CheckResult { updates: Vec::new(), unresolved: Vec::new(), check_failures: Vec::new() }
    }

    pub fn add_update(&mut self, update: AvailableUpdate)
        ensures
            final(self).updates@ == old(self).updates@.push(update),
            final(self).unresolved == old(self).unresolved,
            final(self).check_failures == old(self).check_failures,
    {
        self.updates.push(update);
    }

    pub fn add_unresolved(&mut self, name: String, reason: String)
        ensures
            final(self).unresolved@ == old(self).unresolved@.push((name, reason)),
            final(self).updates == old(self).updates,
            final(self).check_failures == old(self).check_failures,
    {
        self.unresolved.push((name, reason));
    }

    pub fn add_check_failure(&mut self, name: String, reason: String)
        ensures
            final(self).check_failures@ == old(self).check_failures@.push((name, reason)),
            final(self).updates == old(self).updates,
            final(self).unresolved == old(self).unresolved,
    {
        self.check_failures.push((name, reason));
    }

    pub fn has_issues(&self) -> (r: bool)
        ensures
            r == (self.unresolved@.len() > 0 || self.check_failures@.len() > 0),
    {
        self.unresolved.len() > 0 || self.check_failures.len() > 0
    }

    pub fn merge(&mut self, other: CheckResult)
        ensures
            final(self).updates@ == old(self).updates@ + other.updates@,
            final(self).unresolved@ == old(self).unresolved@ + other.unresolved@,
            final(self).check_failures@ == old(self).check_failures@ + other.check_failures@,
    {
        let mut other = other;
        self.updates.append(&mut other.updates);
        self.unresolved.append(&mut other.unresolved);
        self.check_failures.append(&mut other.check_failures);
    }
}

/// The envelope in which a result or an error is reported as data.
#[derive(Debug)]
pub struct JsonOutput<T> {
    pub success: bool,
    pub error: Option<String>,
    pub data: Option<T>,
}

impl<T> JsonOutput<T> {
    pub fn ok(data: T) -> (r: Self)
        ensures
            r.success,
            r.error is None,
            r.data == Some(data),
    {
        JsonOutput { success: true, error: None, data: Some(data) }
    }

    pub fn err(msg: &str) -> (r: Self)
        ensures
            !r.success,
            r.error is Some,
            r.error->0@ == msg@,
            r.data is None,
    {
        JsonOutput { success: false, error: Some(msg.to_owned()), data: None }
    }
}

} // verus!
