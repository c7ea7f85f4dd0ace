use vstd::prelude::*;
use vstd::string::*;

verus! {

/// The application ID of the wallpaper renderer on the platform.
pub const WALLPAPER_ENGINE_ID: u32 = 431960;

/// `dir` and `name` joined by one path separator.
pub open spec fn join(dir: Seq<char>, name: Seq<char>) -> Seq<char> {
    dir + seq!['/'] + name
}

/// Appends `name` to `dir` after a path separator.
pub fn join_path(dir: &String, name: &str) -> (r: String)
    ensures
        r@ == join(dir@, name@),
{
    let mut r = dir.clone();
    r.append("/");
    proof {
        reveal_strlit("/");
    }
    r.append(name);
    r
}

/// The directories of one platform installation that the launcher reads or
/// hands on, all derived from its root.
pub struct SteamPaths {
    pub steam: String,
    pub steamapps: String,
    pub common: String,
    pub compat_tools: String,
    pub compat_data: String,
    pub workshop_content: String,
    pub wallpaper_engine: String,
}

impl SteamPaths {
    /// How every directory follows from the root.
    pub open spec fn derived_from(&self, root: Seq<char>) -> bool {
        let apps = join(root, "steamapps"@);
        &&& self.steam@ == root
        &&& self.steamapps@ == apps
        &&& self.common@ == join(apps, "common"@)
        &&& self.compat_tools@ == join(root, "compatibilitytools.d"@)
        &&& self.compat_data@ == join(join(apps, "compatdata"@), "431960"@)
        &&& self.workshop_content@ == join(join(apps, "workshop/content"@), "431960"@)
        &&& self.wallpaper_engine@ == join(join(apps, "common"@), "wallpaper_engine"@)
    }

    /// Derives every directory from the platform's root directory
    /// (`~/.steam/steam`).
    pub fn new(root: &String) -> (r: SteamPaths)
        ensures
            r.derived_from(root@),
    {
        let steamapps = join_path(root, "steamapps");
        let common = join_path(&steamapps, "common");
        let compat_tools = join_path(root, "compatibilitytools.d");
        let compat_data = join_path(&join_path(&steamapps, "compatdata"), "431960");
        let workshop_content = join_path(&join_path(&steamapps, "workshop/content"), "431960");
        let wallpaper_engine = join_path(&common, "wallpaper_engine");
        SteamPaths {
            steam: root.clone(),
            steamapps,
            common,
            compat_tools,
            compat_data,
            workshop_content,
            wallpaper_engine,
        }
    }
}

} // verus!
