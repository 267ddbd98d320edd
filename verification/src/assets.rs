//! The static files of the website, each served under a name made from the SHA-256 hash of
//! its contents, so that a changed file gets a new address.

use vstd::prelude::*;
use vstd::utf8::encode_utf8;
use sha2::{Digest, Sha256};
use crate::text::{hex, push_char, write_hex};
use crate::subaction_links::{chars_of, contains_text};
use vstd::slice::slice_to_vec;

verus! {

/// The SHA-256 hash of a byte string.
pub uninterp spec fn sha256_digest(data: Seq<u8>) -> Seq<u8>;

/// Calls `sha2::Sha256::digest`, which hashes `data` with SHA-256: the result is the
/// 32-byte hash, a function of `data` alone.
#[verifier::external_body]
fn sha256(data: &[u8]) -> (digest: Vec<u8>)
    ensures
        digest@ == sha256_digest(data@),
        digest@.len() == 32,
{
    Sha256::digest(data).to_vec()
}

/// What `minifier::css::minify` makes of a style sheet: the minified style sheet, or the
/// message of the error it reports.
pub uninterp spec fn minified_css(css: Seq<char>) -> Result<Seq<char>, Seq<char>>;

/// Calls `minifier::css::minify` on a style sheet and writes out what it returns: the
/// minified style sheet, or the message of the error it reports. Both are a function of
/// `css` alone.
#[verifier::external_body]
fn minify_css(css: &str) -> (minified: Result<String, String>)
    ensures
        match minified {
            Ok(m) => minified_css(css@) == Ok::<Seq<char>, Seq<char>>(m@),
            Err(e) => minified_css(css@) == Err::<Seq<char>, Seq<char>>(e@),
        },
{
    match minifier::css::minify(css) {
        Ok(m) => Ok(m.to_string()),
        Err(e) => Err(e.to_string()),
    }
}

/// The hash as text: each byte in lowercase hexadecimal, unpadded, as `{:x}` writes a byte.
pub open spec fn digest_hex(digest: Seq<u8>) -> Seq<char>
    decreases digest.len(),
{
    if digest.len() == 0 {
        Seq::empty()
    } else {
        digest_hex(digest.drop_last()) + hex(digest.last() as nat)
    }
}

/// The address of a static file with hash `digest` and extension `ext`.
pub open spec fn asset_path(digest: Seq<u8>, ext: Seq<char>) -> Seq<char> {
    "/assets_static/"@ + digest_hex(digest) + "."@ + ext
}

/// The address of a static file with contents `contents` and extension `ext`.
pub open spec fn path_of(contents: Seq<u8>, ext: Seq<char>) -> Seq<char> {
    asset_path(sha256_digest(contents), ext)
}

/// The address of a static file with hash `digest` and extension `ext`.
pub fn path_for_digest(digest: &Vec<u8>, ext: &str) -> (path: String)
    ensures
        path@ == asset_path(digest@, ext@),
{
    let mut path = String::from_str("/assets_static/");
    let mut i: usize = 0;
    while i < digest.len()
        invariant
            i <= digest.len(),
            path@ == "/assets_static/"@ + digest_hex(digest@.take(i as int)),
        decreases digest.len() - i,
    {
        write_hex(&mut path, digest[i] as u64);
        assert(digest@.take(i + 1).drop_last() =~= digest@.take(i as int));
        i += 1;
    }
    assert(digest@.take(digest.len() as int) =~= digest@);
    path.append(".");
    path.append(ext);
    assert(path@ =~= asset_path(digest@, ext@));
    path
}

/// The address of a static file with contents `contents` and extension `ext`.
pub fn static_asset_path(contents: &[u8], ext: &str) -> (path: String)
    ensures
        path@ == path_of(contents@, ext@),
{
    let digest = sha256(contents);
    path_for_digest(&digest, ext)
}

/// The text with each occurrence of `pattern`, from the left and without overlap,
/// replaced by `with`, as `str::replace` does.
pub open spec fn replace_all(text: Seq<char>, pattern: Seq<char>, with: Seq<char>) -> Seq<char>
    decreases text.len(),
{
    if pattern.len() == 0 || text.len() < pattern.len() {
        text
    } else if text.take(pattern.len() as int) == pattern {
        with + replace_all(text.skip(pattern.len() as int), pattern, with)
    } else {
        seq![text[0]] + replace_all(text.skip(1), pattern, with)
    }
}

fn matches_at(text: &Vec<char>, i: usize, pattern: &Vec<char>) -> (found: bool)
    requires
        i <= text.len(),
    ensures
        found == (pattern.len() <= text.len() - i && text@.skip(i as int).take(pattern.len() as int) == pattern@),
{
    if pattern.len() > text.len() - i {
        return false;
    }
    let mut k: usize = 0;
    while k < pattern.len()
        invariant
            pattern.len() <= text.len() - i,
            k <= pattern.len(),
            forall|j: int| 0 <= j < k ==> text@[i + j] == pattern@[j],
        decreases pattern.len() - k,
    {
        if text[i + k] != pattern[k] {
            assert(text@.skip(i as int).take(pattern.len() as int)[k as int] != pattern@[k as int]);
            return false;
        }
        k += 1;
    }
    assert(text@.skip(i as int).take(pattern.len() as int) =~= pattern@);
    true
}

/// `text` with each occurrence of `pattern` replaced by `with`.
pub fn replace_text(text: &str, pattern: &str, with: &str) -> (replaced: String)
    requires
        pattern@.len() > 0,
    ensures
        replaced@ == replace_all(text@, pattern@, with@),
{
    let chars = chars_of(text);
    let pat = chars_of(pattern);
    let mut out = String::new();
    let mut i: usize = 0;
    assert(chars@.skip(0) =~= chars@);
    while i < chars.len()
        invariant
            i <= chars.len(),
            chars@ == text@,
            pat@ == pattern@,
            pat@.len() > 0,
            out@ + replace_all(chars@.skip(i as int), pat@, with@) == replace_all(text@, pattern@, with@),
        decreases chars.len() - i,
    {
        let rest = Ghost(chars@.skip(i as int));
        if matches_at(&chars, i, &pat) {
            let ghost before = out@;
            out.append(with);
            proof {
                assert(rest@.skip(pat@.len() as int) =~= chars@.skip(i + pat@.len()));
                assert(out@ + replace_all(chars@.skip(i + pat@.len()), pat@, with@) =~= before + replace_all(
                    rest@,
                    pat@,
                    with@,
                ));
            }
            i = i + pat.len();
        } else {
            let ghost before = out@;
            push_char(&mut out, chars[i]);
            proof {
                assert(rest@[0] == chars@[i as int]);
                assert(rest@.skip(1) =~= chars@.skip(i + 1));
                if rest@.len() >= pat@.len() {
                    assert(rest@.take(pat@.len() as int) != pat@);
                    assert(out@ + replace_all(chars@.skip(i + 1), pat@, with@) =~= before + replace_all(
                        rest@,
                        pat@,
                        with@,
                    ));
                } else {
                    assert(replace_all(rest@, pat@, with@) == rest@);
                    assert(replace_all(chars@.skip(i + 1), pat@, with@) == chars@.skip(i + 1));
                    assert(out@ + replace_all(chars@.skip(i + 1), pat@, with@) =~= before + replace_all(
                        rest@,
                        pat@,
                        with@,
                    ));
                }
            }
            i = i + 1;
        }
    }
    assert(chars@.skip(i as int) =~= Seq::<char>::empty());
    assert(out@ =~= replace_all(text@, pattern@, with@));
    out
}

/// The name of the renderer's WebAssembly file, which the renderer's script loads by name.
pub const WASM_FILE_NAME: &'static str = "fighter_renderer_bg.wasm";

/// The addresses of the static files that the pages link to.
pub struct AssetPaths {
    pub favicon_png: String,
    pub spritesheet_png: String,
    pub style_css: String,
    pub subaction_render_js: String,
    pub fighter_renderer_js: String,
}

/// A static file to write: its address and its contents.
pub struct AssetFile {
    pub path: String,
    pub contents: Vec<u8>,
}

/// A static file as plain values.
pub open spec fn file_view(f: AssetFile) -> (Seq<char>, Seq<u8>) {
    (f.path@, f.contents@)
}

/// The renderer's script, loading the WebAssembly file under its hashed name.
pub open spec fn renderer_script(js: Seq<char>, wasm: Seq<u8>) -> Seq<char> {
    replace_all(js, WASM_FILE_NAME@, digest_hex(sha256_digest(wasm)) + ".wasm"@)
}

/// The static files made from the website's sources, where the style sheet minified to `css`.
pub open spec fn asset_files(
    css: Seq<char>,
    spritesheet_png: Seq<u8>,
    favicon_png: Seq<u8>,
    subaction_render_js: Seq<char>,
    fighter_renderer_wasm: Seq<u8>,
    fighter_renderer_js: Seq<char>,
) -> Seq<(Seq<char>, Seq<u8>)> {
    let js = encode_utf8(renderer_script(fighter_renderer_js, fighter_renderer_wasm));
    seq![
        (path_of(encode_utf8(css), "css"@), encode_utf8(css)),
        (path_of(spritesheet_png, "png"@), spritesheet_png),
        (path_of(favicon_png, "png"@), favicon_png),
        (path_of(encode_utf8(subaction_render_js), "js"@), encode_utf8(subaction_render_js)),
        (path_of(fighter_renderer_wasm, "wasm"@), fighter_renderer_wasm),
        (path_of(js, "js"@), js),
    ]
}

fn asset_file(contents: &[u8], ext: &str) -> (file: AssetFile)
    ensures
        file_view(file) == (path_of(contents@, ext@), contents@),
{
    AssetFile { path: static_asset_path(contents, ext), contents: slice_to_vec(contents) }
}

impl AssetPaths {
    /// The static files of the website and their addresses, made from the style sheet, the
    /// sprite sheet, the icon, the subaction renderer's script and the fighter renderer's
    /// WebAssembly file and script. The style sheet is minified; the renderer's script is
    /// changed to load the WebAssembly file under its new name. Fails with the minifier's
    /// message where it cannot minify the style sheet.
    pub fn new(
        style_css: &str,
        spritesheet_png: &[u8],
        favicon_png: &[u8],
        subaction_render_js: &str,
        fighter_renderer_wasm: &[u8],
        fighter_renderer_js: &str,
    ) -> (built: Result<(AssetPaths, Vec<AssetFile>), String>)
        requires
            contains_text(fighter_renderer_js@, WASM_FILE_NAME@),
        ensures
            match minified_css(style_css@) {
                Err(message) => built matches Err(e) && e@ == message,
                Ok(css) => built matches Ok((paths, files)) && {
                    let expected = asset_files(
                        css,
                        spritesheet_png@,
                        favicon_png@,
                        subaction_render_js@,
                        fighter_renderer_wasm@,
                        fighter_renderer_js@,
                    );
                    &&& files@.map_values(|f: AssetFile| file_view(f)) == expected
                    &&& paths.style_css@ == expected[0].0
                    &&& paths.spritesheet_png@ == expected[1].0
                    &&& paths.favicon_png@ == expected[2].0
                    &&& paths.subaction_render_js@ == expected[3].0
                    &&& paths.fighter_renderer_js@ == expected[5].0
                },
            },
    {
        let minified = match minify_css(style_css) {
            Ok(m) => m,
            Err(e) => return Err(e),
        };
        let style = asset_file(minified.as_str().as_bytes(), "css");
        let spritesheet = asset_file(spritesheet_png, "png");
        let favicon = asset_file(favicon_png, "png");
        let subaction_render = asset_file(subaction_render_js.as_bytes(), "js");
        let wasm_digest = sha256(fighter_renderer_wasm);
        let wasm = AssetFile {
            path: path_for_digest(&wasm_digest, "wasm"),
            contents: slice_to_vec(fighter_renderer_wasm),
        };
        let mut wasm_file_name = String::new();
        let mut i: usize = 0;
        while i < wasm_digest.len()
            invariant
                i <= wasm_digest.len(),
                wasm_file_name@ == digest_hex(wasm_digest@.take(i as int)),
            decreases wasm_digest.len() - i,
        {
            write_hex(&mut wasm_file_name, wasm_digest[i] as u64);
            assert(wasm_digest@.take(i + 1).drop_last() =~= wasm_digest@.take(i as int));
            i += 1;
        }
        assert(wasm_digest@.take(wasm_digest.len() as int) =~= wasm_digest@);
        wasm_file_name.append(".wasm");
        proof {
            reveal_strlit("fighter_renderer_bg.wasm");
        }
        let js = replace_text(fighter_renderer_js, WASM_FILE_NAME, wasm_file_name.as_str());
        let renderer = asset_file(js.as_str().as_bytes(), "js");
        let paths = AssetPaths {
            favicon_png: favicon.path.clone(),
            spritesheet_png: spritesheet.path.clone(),
            style_css: style.path.clone(),
            subaction_render_js: subaction_render.path.clone(),
            fighter_renderer_js: renderer.path.clone(),
        };
        let files = vec![style, spritesheet, favicon, subaction_render, wasm, renderer];
        proof {
            let expected = asset_files(
                minified@,
                spritesheet_png@,
                favicon_png@,
                subaction_render_js@,
                fighter_renderer_wasm@,
                fighter_renderer_js@,
            );
            assert(files@.map_values(|f: AssetFile| file_view(f)) =~= expected);
        }
        Ok((paths, files))
    }
}

} // verus!
