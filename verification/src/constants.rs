//! Names and places that the shell knows by heart.

use itertools::Itertools;
use vstd::prelude::*;

verus! {

/// Window classes of the system's own popups: task switching, task view,
/// and the panel with the quick settings.
pub const NATIVE_UI_POPUP_CLASSES: [&'static str; 3] = [
    "ForegroundStaging",
    "XamlExplorerHostIslandWindow",
    "ControlCenterWindow",
];

/// Programs whose windows never count as covering the toolbar.
pub const OVERLAP_BLACK_LIST_BY_EXE: [&'static str; 6] = [
    "msedgewebview2.exe",
    "SearchHost.exe",
    "StartMenuExperienceHost.exe",
    "ShellExperienceHost.exe",
    "GameBar.exe",
    "SnippingTool.exe",
];

/// `Itertools::collect_vec` of itertools, on the owned copies of `names`:
/// the items come out as a vector, in the order of the iteration, as
/// `Iterator::collect` gives them.
#[verifier::external_body]
fn collect_names(names: &Vec<&'static str>) -> (owned: Vec<String>)
    ensures
        owned@.len() == names@.len(),
        forall|i: int| 0 <= i < names@.len() ==> (#[trigger] owned@[i])@ == names@[i]@,
{
    names.iter().map(|x| x.to_string()).collect_vec()
}

/// Applications that resize themselves after they open, and are tiled once
/// more after a delay.
pub fn force_retiling_after_add() -> (names: Vec<String>)
    ensures
        names@.len() == 1,
        names@[0]@ == "WhatsApp"@,
{
    let mut listed: Vec<&'static str> = Vec::new();
    listed.push("WhatsApp");
    collect_names(&listed)
}

/// The place of the icon that stands for an application without one.
#[derive(Clone, Debug)]
pub struct Icons {
    missing_app: String,
}

impl Icons {
    pub closed spec fn spec_missing_app(&self) -> Seq<char> {
        self.missing_app@
    }

    /// The icons, given the place where the fallback icon was found.
    pub fn new(missing_app: String) -> (icons: Self)
        ensures
            icons.spec_missing_app() == missing_app@,
    {
        Icons { missing_app }
    }

    pub fn missing_app(&self) -> (path: &str)
        ensures
            path@ == self.spec_missing_app(),
    {
        self.missing_app.as_str()
    }
}

/// What `std::path::Path::join` makes of a base path and a path to adjoin,
/// both as text, on the platform that the library is built for.
pub uninterp spec fn joined_path(base: Seq<char>, child: Seq<char>) -> Seq<char>;

/// `std::path::Path::join`: the path `child` adjoined to `base`. Both are
/// text, so the joined path is text too and nothing is lost in taking it
/// as such.
#[verifier::external_body]
fn join_path(base: &str, child: &str) -> (path: String)
    ensures
        path@ == joined_path(base@, child@),
{
    std::path::Path::new(base).join(child).to_string_lossy().into_owned()
}

/// The files and directories of the shell, as text.
pub struct CommonPaths {
    pub history: Seq<char>,
    pub settings: Seq<char>,
    pub weg_items: Seq<char>,
    pub icons: Seq<char>,
    pub user_themes: Seq<char>,
    pub bundled_themes: Seq<char>,
    pub user_plugins: Seq<char>,
    pub bundled_plugins: Seq<char>,
    pub user_app_configs: Seq<char>,
    pub bundled_app_configs: Seq<char>,
    pub user_layouts: Seq<char>,
    pub bundled_layouts: Seq<char>,
    pub user_placeholders: Seq<char>,
    pub bundled_placeholders: Seq<char>,
    pub widgets: Seq<char>,
    pub bundled_widgets: Seq<char>,
    pub wallpapers: Seq<char>,
    pub profiles: Seq<char>,
    pub bundled_profiles: Seq<char>,
}

/// The places under the directory for the user's data and under the
/// directory of the bundled resources.
pub open spec fn common_paths(data_dir: Seq<char>, resource_dir: Seq<char>) -> CommonPaths {
    CommonPaths {
        history: joined_path(data_dir, "history"@),
        settings: joined_path(data_dir, "settings.json"@),
        weg_items: joined_path(data_dir, "seelenweg_items_v2.yml"@),
        icons: joined_path(data_dir, "icons"@),
        user_themes: joined_path(data_dir, "themes"@),
        bundled_themes: joined_path(resource_dir, "static/themes"@),
        user_plugins: joined_path(data_dir, "plugins"@),
        bundled_plugins: joined_path(resource_dir, "static/plugins"@),
        user_app_configs: joined_path(data_dir, "applications.yml"@),
        bundled_app_configs: joined_path(resource_dir, "static/apps_templates"@),
        user_layouts: joined_path(data_dir, "layouts"@),
        bundled_layouts: joined_path(resource_dir, "static/layouts"@),
        user_placeholders: joined_path(data_dir, "placeholders"@),
        bundled_placeholders: joined_path(resource_dir, "static/placeholders"@),
        widgets: joined_path(data_dir, "widgets"@),
        bundled_widgets: joined_path(resource_dir, "static/widgets"@),
        wallpapers: joined_path(data_dir, "wallpapers"@),
        profiles: joined_path(data_dir, "profiles"@),
        bundled_profiles: joined_path(resource_dir, "static/profiles"@),
    }
}

#[derive(Clone, Debug)]
pub struct SeelenCommon {
    history: String,
    settings: String,
    weg_items: String,
    icons: String,
    user_themes: String,
    bundled_themes: String,
    user_plugins: String,
    bundled_plugins: String,
    user_app_configs: String,
    bundled_app_configs: String,
    user_layouts: String,
    bundled_layouts: String,
    user_placeholders: String,
    bundled_placeholders: String,
    widgets: String,
    bundled_widgets: String,
    wallpapers: String,
    profiles: String,
    bundled_profiles: String,
}

impl View for SeelenCommon {
    type V = CommonPaths;

    closed spec fn view(&self) -> CommonPaths {
        CommonPaths {
            history: self.history@,
            settings: self.settings@,
            weg_items: self.weg_items@,
            icons: self.icons@,
            user_themes: self.user_themes@,
            bundled_themes: self.bundled_themes@,
            user_plugins: self.user_plugins@,
            bundled_plugins: self.bundled_plugins@,
            user_app_configs: self.user_app_configs@,
            bundled_app_configs: self.bundled_app_configs@,
            user_layouts: self.user_layouts@,
            bundled_layouts: self.bundled_layouts@,
            user_placeholders: self.user_placeholders@,
            bundled_placeholders: self.bundled_placeholders@,
            widgets: self.widgets@,
            bundled_widgets: self.bundled_widgets@,
            wallpapers: self.wallpapers@,
            profiles: self.profiles@,
            bundled_profiles: self.bundled_profiles@,
        }
    }
}

impl SeelenCommon {
    /// The shell's places, for an application whose data lives in
    /// `data_dir` and whose bundled resources live in `resource_dir`.
    pub fn new(data_dir: &str, resource_dir: &str) -> (common: Self)
        ensures
            common@ == common_paths(data_dir@, resource_dir@),
    {
        SeelenCommon {
            history: join_path(data_dir, "history"),
            settings: join_path(data_dir, "settings.json"),
            weg_items: join_path(data_dir, "seelenweg_items_v2.yml"),
            icons: join_path(data_dir, "icons"),
            user_themes: join_path(data_dir, "themes"),
            bundled_themes: join_path(resource_dir, "static/themes"),
            user_plugins: join_path(data_dir, "plugins"),
            bundled_plugins: join_path(resource_dir, "static/plugins"),
            user_app_configs: join_path(data_dir, "applications.yml"),
            bundled_app_configs: join_path(resource_dir, "static/apps_templates"),
            user_layouts: join_path(data_dir, "layouts"),
            bundled_layouts: join_path(resource_dir, "static/layouts"),
            user_placeholders: join_path(data_dir, "placeholders"),
            bundled_placeholders: join_path(resource_dir, "static/placeholders"),
            widgets: join_path(data_dir, "widgets"),
            bundled_widgets: join_path(resource_dir, "static/widgets"),
            wallpapers: join_path(data_dir, "wallpapers"),
            profiles: join_path(data_dir, "profiles"),
            bundled_profiles: join_path(resource_dir, "static/profiles"),
        }
    }

    pub fn settings_path(&self) -> (path: &str)
        ensures
            path@ == self@.settings,
    {
        self.settings.as_str()
    }

    pub fn weg_items_path(&self) -> (path: &str)
        ensures
            path@ == self@.weg_items,
    {
        self.weg_items.as_str()
    }

    pub fn history_path(&self) -> (path: &str)
        ensures
            path@ == self@.history,
    {
        self.history.as_str()
    }

    pub fn icons_path(&self) -> (path: &str)
        ensures
            path@ == self@.icons,
    {
        self.icons.as_str()
    }

    pub fn user_themes_path(&self) -> (path: &str)
        ensures
            path@ == self@.user_themes,
    {
        self.user_themes.as_str()
    }

    pub fn bundled_themes_path(&self) -> (path: &str)
        ensures
            path@ == self@.bundled_themes,
    {
        self.bundled_themes.as_str()
    }

    pub fn user_plugins_path(&self) -> (path: &str)
        ensures
            path@ == self@.user_plugins,
    {
        self.user_plugins.as_str()
    }

    pub fn bundled_plugins_path(&self) -> (path: &str)
        ensures
            path@ == self@.bundled_plugins,
    {
        self.bundled_plugins.as_str()
    }

    pub fn user_app_configs_path(&self) -> (path: &str)
        ensures
            path@ == self@.user_app_configs,
    {
        self.user_app_configs.as_str()
    }

    pub fn bundled_app_configs_path(&self) -> (path: &str)
        ensures
            path@ == self@.bundled_app_configs,
    {
        self.bundled_app_configs.as_str()
    }

    pub fn user_layouts_path(&self) -> (path: &str)
        ensures
            path@ == self@.user_layouts,
    {
        self.user_layouts.as_str()
    }

    pub fn bundled_layouts_path(&self) -> (path: &str)
        ensures
            path@ == self@.bundled_layouts,
    {
        self.bundled_layouts.as_str()
    }

    pub fn user_placeholders_path(&self) -> (path: &str)
        ensures
            path@ == self@.user_placeholders,
    {
        self.user_placeholders.as_str()
    }

    pub fn bundled_placeholders_path(&self) -> (path: &str)
        ensures
            path@ == self@.bundled_placeholders,
    {
        self.bundled_placeholders.as_str()
    }

    pub fn user_widgets_path(&self) -> (path: &str)
        ensures
            path@ == self@.widgets,
    {
        self.widgets.as_str()
    }

    pub fn bundled_widgets_path(&self) -> (path: &str)
        ensures
            path@ == self@.bundled_widgets,
    {
        self.bundled_widgets.as_str()
    }

    pub fn wallpapers_path(&self) -> (path: &str)
        ensures
            path@ == self@.wallpapers,
    {
        self.wallpapers.as_str()
    }

    pub fn user_profiles_path(&self) -> (path: &str)
        ensures
            path@ == self@.profiles,
    {
        self.profiles.as_str()
    }

    pub fn bundled_profiles_path(&self) -> (path: &str)
        ensures
            path@ == self@.bundled_profiles,
    {
        self.bundled_profiles.as_str()
    }
}

} // verus!
