use rukaidata::assets::AssetPaths;
use rukaidata::attributes::{attribute_names, attributes_to_strings};
use rukaidata::brawl_data::{BrawlMod, BrawlMods};
use rukaidata::page::ErrorPage;

#[test]
fn attribute_names_in_page_order() {
    let names = attribute_names();
    assert_eq!(names.len(), 73);
    assert_eq!(names[0], "walk init vel");
    assert_eq!(names[40], "weight");
    assert_eq!(names[72], "x rot n bone");
}

#[test]
fn attributes_pair_names_with_values() {
    let values: Vec<String> = (0..73).map(|i| format!("{}.5", i)).collect();
    let attributes = attributes_to_strings(&values);
    assert_eq!(attributes.len(), 73);
    assert_eq!(attributes[0].name, "walk init vel");
    assert_eq!(attributes[0].value, "0.5");
    assert_eq!(attributes[22].name, "num jumps");
    assert_eq!(attributes[22].value, "22.5");
}

#[test]
fn error_page_has_no_current_mod() {
    let mods = BrawlMods { mods: vec![BrawlMod { name: "Brawl".to_string(), fighters: vec![] }] };
    let assets = AssetPaths {
        favicon_png: "/f.png".to_string(),
        spritesheet_png: "/s.png".to_string(),
        style_css: "/s.css".to_string(),
        subaction_render_js: "/r.js".to_string(),
        fighter_renderer_js: "/f.js".to_string(),
    };
    let page = ErrorPage::new(&mods, &assets);
    assert_eq!(page.assets.style_css, "/s.css");
    assert_eq!(page.mod_links.len(), 1);
    assert_eq!(page.mod_links[0].name, "Brawl");
    assert_eq!(page.mod_links[0].link, "/Brawl");
    assert!(!page.mod_links[0].current);
}
