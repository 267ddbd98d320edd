use rukaidata::assets::{path_for_digest, replace_text, static_asset_path, AssetPaths, WASM_FILE_NAME};
use sha2::{Digest, Sha256};

fn hex_of(data: &[u8]) -> String {
    Sha256::digest(data).iter().map(|b| format!("{:x}", b)).collect()
}

#[test]
fn digest_bytes_are_written_unpadded() {
    assert_eq!(path_for_digest(&vec![0x0f, 0xa0, 0x00, 0xff], "css"), "/assets_static/fa00ff.css");
    assert_eq!(path_for_digest(&vec![], "js"), "/assets_static/.js");
}

#[test]
fn static_assets_are_named_by_their_hash() {
    let path = static_asset_path(b"hello", "png");
    assert_eq!(path, format!("/assets_static/{}.png", hex_of(b"hello")));
    assert_ne!(path, "/assets_static/hello.png");
    assert_ne!(static_asset_path(b"hello", "png"), static_asset_path(b"hellp", "png"));
}

#[test]
fn replace_text_replaces_every_occurrence_from_the_left() {
    assert_eq!(replace_text("aaa", "aa", "b"), "ba");
    assert_eq!(replace_text("x.wasm y.wasm", ".wasm", ".js"), "x.js y.js");
    assert_eq!(replace_text("abc", "d", "e"), "abc");
    assert_eq!(replace_text("", "a", "b"), "");
    assert_eq!(replace_text("héhé", "é", "e"), "hehe");
}

#[test]
fn asset_paths_hash_every_file() {
    let css = "body {  color : red ; }\n";
    let js = format!("fetch('{}');", WASM_FILE_NAME);
    let (paths, files) = AssetPaths::new(css, b"sprite", b"icon", "render();", b"\0asm", &js).unwrap();
    let minified = minifier::css::minify(css).unwrap().to_string();
    assert_eq!(paths.style_css, format!("/assets_static/{}.css", hex_of(minified.as_bytes())));
    assert_eq!(paths.spritesheet_png, format!("/assets_static/{}.png", hex_of(b"sprite")));
    assert_eq!(paths.favicon_png, format!("/assets_static/{}.png", hex_of(b"icon")));
    assert_eq!(paths.subaction_render_js, format!("/assets_static/{}.js", hex_of(b"render();")));
    let wasm_name = format!("{}.wasm", hex_of(b"\0asm"));
    let renderer = format!("fetch('{}');", wasm_name);
    assert_eq!(paths.fighter_renderer_js, format!("/assets_static/{}.js", hex_of(renderer.as_bytes())));
    let listed: Vec<(String, Vec<u8>)> = files.into_iter().map(|f| (f.path, f.contents)).collect();
    assert_eq!(listed.len(), 6);
    assert_eq!(listed[0], (paths.style_css.clone(), minified.into_bytes()));
    assert_eq!(listed[4], (format!("/assets_static/{}", wasm_name), b"\0asm".to_vec()));
    assert_eq!(listed[5], (paths.fighter_renderer_js.clone(), renderer.into_bytes()));
}

#[test]
fn unminifiable_style_sheets_fail_with_the_minifiers_message() {
    let css = "a { color: red; } /* never closed";
    let expected = minifier::css::minify(css).err().unwrap().to_string();
    let result = AssetPaths::new(css, b"", b"", "", b"", WASM_FILE_NAME);
    assert_eq!(result.err(), Some(expected));
}
