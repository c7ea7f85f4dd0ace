use wpe_launcher::compat::{derive_internal_name, Derivation, SteamCompat};
use wpe_launcher::paths::SteamPaths;

fn paths() -> SteamPaths {
    SteamPaths::new(&"/home/u/.steam/steam".to_string())
}

fn vendor(name: &str) -> SteamCompat {
    SteamCompat { name: name.to_string(), path: String::new(), builtin: true }
}

#[test]
fn paths_follow_from_root() {
    let p = paths();
    assert_eq!(p.steamapps, "/home/u/.steam/steam/steamapps");
    assert_eq!(p.common, "/home/u/.steam/steam/steamapps/common");
    assert_eq!(p.compat_tools, "/home/u/.steam/steam/compatibilitytools.d");
    assert_eq!(p.compat_data, "/home/u/.steam/steam/steamapps/compatdata/431960");
    assert_eq!(p.workshop_content, "/home/u/.steam/steam/steamapps/workshop/content/431960");
    assert_eq!(p.wallpaper_engine, "/home/u/.steam/steam/steamapps/common/wallpaper_engine");
}

#[test]
fn user_only_tool_keeps_its_name() {
    let t = SteamCompat::from_name(&"GE-Proton7-55".to_string(), &paths(), false, true).unwrap();
    assert!(!t.builtin);
    assert_eq!(t.path, "/home/u/.steam/steam/compatibilitytools.d/GE-Proton7-55");
    assert_eq!(t.internal_name(), "GE-Proton7-55");
}

#[test]
fn vendor_only_tool_is_builtin() {
    let t = SteamCompat::from_name(&"Proton 9.0 (Beta)".to_string(), &paths(), true, false).unwrap();
    assert!(t.builtin);
    assert_eq!(t.path, "/home/u/.steam/steam/steamapps/common/Proton 9.0 (Beta)");
}

#[test]
fn user_install_overrides_vendor() {
    let t = SteamCompat::from_name(&"Proton 10.0".to_string(), &paths(), true, true).unwrap();
    assert!(!t.builtin);
    assert_eq!(t.path, "/home/u/.steam/steam/compatibilitytools.d/Proton 10.0");
    assert_eq!(t.internal_name(), "Proton 10.0");
}

#[test]
fn missing_tool_is_an_error_naming_it() {
    assert!(SteamCompat::from_name(&"Nope".to_string(), &paths(), false, false).is_none());
    let e = SteamCompat::resolve(&"Nope".to_string(), &paths(), false, false).unwrap_err();
    assert_eq!(e.name, "Nope");
}

#[test]
fn word_versions_stay_as_they_are() {
    assert_eq!(vendor("Proton Experimental").internal_name(), "proton_experimental");
    assert_eq!(vendor("Proton Hotfix").internal_name(), "proton_hotfix");
}

#[test]
fn major_only_versions_drop_the_zero() {
    assert_eq!(vendor("Proton 10.0").internal_name(), "proton_10");
}

#[test]
fn parenthetical_is_discarded() {
    assert_eq!(vendor("Proton 9.0 (Beta)").internal_name(), "proton_9");
}

#[test]
fn two_part_versions_drop_the_dot() {
    assert_eq!(vendor("Proton 4.11").internal_name(), "proton_411");
    assert_eq!(vendor("Proton 3.7").internal_name(), "proton_37");
}

#[test]
fn unrecognised_names_fall_back_to_snake_case() {
    let t = vendor("GE-Proton7-55");
    assert_eq!(t.internal_name(), "ge_proton7_55");
    assert!(t.internal_derivation().is_fallback());
    assert!(!vendor("Proton 8.0").internal_derivation().is_fallback());
}

#[test]
fn derivation_on_snake_text() {
    let cases = [
        ("proton_experimental", "proton_experimental"),
        ("proton_10_0", "proton_10"),
        ("proton_9_0_beta", "proton_9"),
        ("proton_4_11", "proton_411"),
        ("proton_7_0_6", "proton_7"),
        ("proton_5_13", "proton_513"),
    ];
    for (snake, id) in cases {
        match derive_internal_name(&snake.to_string()) {
            Derivation::Derived(s) => assert_eq!(s, id),
            Derivation::Fallback(s) => panic!("fell back on {}: {}", snake, s),
        }
    }
}

#[test]
fn derivation_never_fails_on_foreign_text() {
    for snake in ["", "proton", "proton_", "proton__x", "wine_8_0", "xproton_9", "proton_!"] {
        match derive_internal_name(&snake.to_string()) {
            Derivation::Fallback(s) => assert_eq!(s, snake),
            Derivation::Derived(s) => panic!("derived {} from {}", s, snake),
        }
    }
}
