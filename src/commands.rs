use vstd::prelude::*;
use vstd::string::*;

use crate::compat::{internal_name_of, string_from_chars, SteamCompat};
use crate::launch::LaunchPath;
use crate::paths::{join, join_path, SteamPaths, WALLPAPER_ENGINE_ID};

verus! {

/// The texts of a list of strings.
pub open spec fn views(v: Seq<String>) -> Seq<Seq<char>> {
    v.map_values(|s: String| s@)
}

pub open spec fn digit_char(d: nat) -> char {
    seq!['0', '1', '2', '3', '4', '5', '6', '7', '8', '9'][d as int]
}

/// The decimal digits of `n`, without leading zeros.
pub open spec fn decimal_of(n: nat) -> Seq<char>
    decreases n,
{
    if n < 10 {
        seq![digit_char(n)]
    } else {
        decimal_of(n / 10).push(digit_char(n % 10))
    }
}

fn digit(d: u64) -> (c: char)
    requires
        d < 10,
    ensures
        c == digit_char(d as nat),
{
    if d == 0 {
        '0'
    } else if d == 1 {
        '1'
    } else if d == 2 {
        '2'
    } else if d == 3 {
        '3'
    } else if d == 4 {
        '4'
    } else if d == 5 {
        '5'
    } else if d == 6 {
        '6'
    } else if d == 7 {
        '7'
    } else if d == 8 {
        '8'
    } else {
        '9'
    }
}

/// `n` written in decimal.
pub fn decimal(n: u64) -> (r: String)
    ensures
        r@ == decimal_of(n as nat),
{
    let mut v: Vec<char> = Vec::new();
    let mut m: u64 = n;
    while m >= 10
        invariant
            decimal_of(n as nat) == decimal_of(m as nat) + v@,
        decreases m,
    {
        let c = digit(m % 10);
        let ghost before = v@;
        v.insert(0, c);
        assert(decimal_of(m as nat) == decimal_of((m / 10) as nat).push(c));
        assert(decimal_of((m / 10) as nat).push(c) + before =~= decimal_of((m / 10) as nat) + v@);
        m = m / 10;
    }
    let ghost before = v@;
    v.insert(0, digit(m));
    assert(decimal_of(m as nat) + before =~= v@);
    string_from_chars(&v)
}

/// Appends a copy of `s` to `v`.
fn push_text(v: &mut Vec<String>, s: &str)
    ensures
        views(final(v)@) == views(old(v)@).push(s@),
{
    v.push(String::from_str(s));
    assert(views(v@) =~= views(old(v)@).push(s@));
}

/// The title of the window that item `index` renders in.
pub open spec fn window_title_of(index: nat) -> Seq<char> {
    "Wallpaper #"@ + decimal_of(index)
}

/// The title that the window of item `index` is searched by.
pub fn window_title(index: usize) -> (r: String)
    ensures
        r@ == window_title_of(index as nat),
{
    let mut r = String::from_str("Wallpaper #");
    let d = decimal(index as u64);
    r.append(d.as_str());
    r
}

/// The folder that the platform downloads item `id` to.
pub fn item_dir(paths: &SteamPaths, id: &String) -> (r: String)
    ensures
        r@ == join(paths.workshop_content@, id@),
{
    join_path(&paths.workshop_content, id.as_str())
}

/// The item's metadata file as the compatibility runtime sees it: the real
/// root appears there as drive `Z:`.
pub fn project_file_arg(dir: &String) -> (r: String)
    ensures
        r@ == "Z:"@ + join(dir@, "project.json"@),
{
    let p = join_path(dir, "project.json");
    let mut r = String::from_str("Z:");
    r.append(p.as_str());
    r
}

/// The renderer's executable for an architecture, `"64"` or `"32"`; none for
/// any other selector.
pub fn renderer_executable(paths: &SteamPaths, arch: &String) -> (r: Option<String>)
    ensures
        arch@ == "64"@ ==> r is Some && r->Some_0@ == join(paths.wallpaper_engine@, "wallpaper64.exe"@),
        arch@ == "32"@ ==> r is Some && r->Some_0@ == join(paths.wallpaper_engine@, "wallpaper32.exe"@),
        arch@ != "64"@ && arch@ != "32"@ ==> r is None,
{
    let a = arch.as_str();
    proof {
        reveal_strlit("64");
        reveal_strlit("32");
    }
    if a.unicode_len() == 2 && a.get_char(0) == '6' && a.get_char(1) == '4' {
        assert(arch@ =~= "64"@);
        Some(join_path(&paths.wallpaper_engine, "wallpaper64.exe"))
    } else if a.unicode_len() == 2 && a.get_char(0) == '3' && a.get_char(1) == '2' {
        assert(arch@ =~= "32"@);
        Some(join_path(&paths.wallpaper_engine, "wallpaper32.exe"))
    } else {
        assert(arch@ != "64"@ && arch@ != "32"@) by {
            if arch@ == "64"@ {
                assert(arch@[0] == '6' && arch@[1] == '4');
            }
            if arch@ == "32"@ {
                assert(arch@[0] == '3' && arch@[1] == '2');
            }
        }
        None
    }
}

/// The compatibility runtime's entry point inside a tool's folder.
pub fn runtime_entry(tool: &SteamCompat) -> (r: String)
    ensures
        r@ == join(tool.path@, "proton"@),
{
    join_path(&tool.path, "proton")
}

/// The renderer's control flags that open one item in a window of its own.
pub open spec fn open_flags(file: Seq<char>, title: Seq<char>) -> Seq<Seq<char>> {
    seq![
        "-nobrowse"@,
        "-control"@,
        "openWallpaper"@,
        "-file"@,
        file,
        "-playInWindow"@,
        title,
        "-width"@,
        "1920"@,
        "-height"@,
        "1080"@,
    ]
}

fn push_open_flags(v: &mut Vec<String>, file: &String, title: &String)
    ensures
        views(final(v)@) == views(old(v)@) + open_flags(file@, title@),
{
    push_text(v, "-nobrowse");
    push_text(v, "-control");
    push_text(v, "openWallpaper");
    push_text(v, "-file");
    push_text(v, file.as_str());
    push_text(v, "-playInWindow");
    push_text(v, title.as_str());
    push_text(v, "-width");
    push_text(v, "1920");
    push_text(v, "-height");
    push_text(v, "1080");
    assert(views(v@) =~= views(old(v)@) + open_flags(file@, title@));
}

/// The arguments of a launch: for the platform's client, or for the
/// compatibility runtime's entry point, which runs the renderer's executable
/// `exe` itself.
pub fn launch_args(path: LaunchPath, exe: &String, file: &String, title: &String) -> (r: Vec<String>)
    ensures
        path == LaunchPath::Platform ==> views(r@) == seq!["-applaunch"@, decimal_of(
            WALLPAPER_ENGINE_ID as nat,
        )] + open_flags(file@, title@),
        path == LaunchPath::Direct ==> views(r@) == seq!["run"@, exe@] + open_flags(
            file@,
            title@,
        ),
{
    let mut r: Vec<String> = Vec::new();
    match path {
        LaunchPath::Platform => {
            push_text(&mut r, "-applaunch");
            let id = decimal(WALLPAPER_ENGINE_ID as u64);
            push_text(&mut r, id.as_str());
        },
        LaunchPath::Direct => {
            push_text(&mut r, "run");
            push_text(&mut r, exe.as_str());
        },
    }
    let ghost head = views(r@);
    push_open_flags(&mut r, file, title);
    assert(head.len() == 2);
    r
}

/// The compatibility runtime's arguments that tell the renderer to stop
/// rendering.
pub fn final_stop_args(exe: &String) -> (r: Vec<String>)
    ensures
        views(r@) == seq!["run"@, exe@, "-nobrowse"@, "-control"@, "stop"@],
{
    let mut r: Vec<String> = Vec::new();
    push_text(&mut r, "run");
    push_text(&mut r, exe.as_str());
    push_text(&mut r, "-nobrowse");
    push_text(&mut r, "-control");
    push_text(&mut r, "stop");
    assert(views(r@) =~= seq!["run"@, exe@, "-nobrowse"@, "-control"@, "stop"@]);
    r
}

/// The platform client's arguments that stop the renderer.
pub fn platform_stop_args() -> (r: Vec<String>)
    ensures
        views(r@) == seq!["+app_stop"@, decimal_of(WALLPAPER_ENGINE_ID as nat)],
{
    let mut r: Vec<String> = Vec::new();
    push_text(&mut r, "+app_stop");
    let id = decimal(WALLPAPER_ENGINE_ID as u64);
    push_text(&mut r, id.as_str());
    assert(views(r@) =~= seq!["+app_stop"@, decimal_of(WALLPAPER_ENGINE_ID as nat)]);
    r
}

impl SteamCompat {
    /// The platform client's arguments that bind this tool to application `id`.
    pub fn apply_to_game(&self, id: u32) -> (r: Vec<String>)
        ensures
            views(r@) == seq![
                "+app_change_compat_tool"@,
                decimal_of(id as nat),
                internal_name_of(self.name@, self.builtin),
            ],
    {
        let mut r: Vec<String> = Vec::new();
        push_text(&mut r, "+app_change_compat_tool");
        let d = decimal(id as u64);
        push_text(&mut r, d.as_str());
        let name = self.internal_name();
        push_text(&mut r, name.as_str());
        assert(views(r@) =~= seq![
            "+app_change_compat_tool"@,
            decimal_of(id as nat),
            internal_name_of(self.name@, self.builtin),
        ]);
        r
    }
}

} // verus!
