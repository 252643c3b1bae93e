use minepack::errors::MinepackError;
use minepack::mod_url::{parse_curseforge_mod_url, parse_mod_url_parts, split_path};
use minepack::add::is_mod_url;

#[test]
fn mod_url_with_file_id() {
    let r = parse_curseforge_mod_url("https://www.curseforge.com/minecraft/mc-mods/oritech/files/6332315");
    assert_eq!(r, Ok(("oritech".to_string(), Some(6332315))));
}

#[test]
fn mod_url_without_file_id() {
    let r = parse_curseforge_mod_url("https://www.curseforge.com/minecraft/mc-mods/jei");
    assert_eq!(r, Ok(("jei".to_string(), None)));
    let s = parse_curseforge_mod_url("https://www.curseforge.com/minecraft/mc-mods/jei/");
    assert_eq!(s, Ok(("jei".to_string(), None)));
}

#[test]
fn mod_url_of_other_shape_is_refused() {
    for u in [
        "https://example.com/minecraft/mc-mods/jei",
        "https://www.curseforge.com/minecraft/texture-packs/x",
        "https://www.curseforge.com/minecraft",
        "https://www.curseforge.com/minecraft/mc-mods/jei/files/abc",
        "not a url",
    ] {
        assert_eq!(parse_curseforge_mod_url(u), Err(MinepackError::InvalidCurseforgeModUrl), "{}", u);
    }
}

#[test]
fn mod_url_parts_from_host_and_path() {
    assert_eq!(
        parse_mod_url_parts(Some("www.curseforge.com"), "//minecraft//mc-mods/x/files/+12"),
        Ok(("x".to_string(), Some(12)))
    );
    assert_eq!(
        parse_mod_url_parts(Some("www.curseforge.com"), "/minecraft/mc-mods/x/versions/12"),
        Ok(("x".to_string(), None))
    );
    assert_eq!(parse_mod_url_parts(None, "/minecraft/mc-mods/x"), Err(MinepackError::InvalidCurseforgeModUrl));
}

#[test]
fn path_splits_into_non_empty_segments() {
    assert_eq!(split_path("/a//b/c/"), vec!["a", "b", "c"]);
    assert!(split_path("///").is_empty());
}

#[test]
fn mod_urls_are_told_from_search_text() {
    assert!(is_mod_url("https://www.curseforge.com/minecraft/mc-mods/jei"));
    assert!(!is_mod_url("jei"));
    assert!(!is_mod_url("https://www.curseforge.co"));
}
