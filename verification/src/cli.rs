//! The command line options of the website generator, once parsed.

use vstd::prelude::*;
use crate::text::{ascii_lowercase, make_ascii_lowercase, string_views};

verus! {

/// What to generate and for which mods and fighters.
pub struct Args {
    /// Mod folders in `data/` to use; all when empty.
    pub mod_names: Vec<String>,
    /// Fighters to use; all when empty.
    pub fighter_names: Vec<String>,
    /// Generate subaction gifs.
    pub generate_gifs: bool,
    /// Generate the website.
    pub generate_web: bool,
    /// Use the wasm/wgpu backend.
    pub wasm_mode: bool,
    /// Serve the website at localhost:8000 after generating it.
    pub serve: bool,
}

/// Each name with its ASCII letters made lowercase.
pub open spec fn lowercase_names(names: Seq<Seq<char>>) -> Seq<Seq<char>> {
    names.map_values(|n: Seq<char>| ascii_lowercase(n))
}

fn lowercase_all(names: &mut Vec<String>)
    ensures
        string_views(final(names)@) == lowercase_names(string_views(old(names)@)),
{
    let mut out: Vec<String> = Vec::new();
    let mut rest: Vec<String> = Vec::new();
    std::mem::swap(&mut rest, names);
    let ghost given = string_views(rest@);
    let ghost mut done: int = 0;
    while rest.len() > 0
        invariant
            0 <= done <= given.len(),
            given.len() == done + rest@.len(),
            string_views(rest@) == given.skip(done),
            string_views(out@) == lowercase_names(given.take(done)),
        decreases rest.len(),
    {
        let ghost before_rest = rest@;
        let mut name = rest.remove(0);
        assert(string_views(before_rest)[0] == name@);
        assert(given.skip(done)[0] == given[done]);
        assert(string_views(rest@) =~= string_views(before_rest).drop_first());
        make_ascii_lowercase(&mut name);
        let ghost before = string_views(out@);
        out.push(name);
        proof {
            assert(string_views(out@) =~= before.push(ascii_lowercase(given[done])));
            assert(given.take(done + 1) =~= given.take(done).push(given[done]));
            assert(lowercase_names(given.take(done + 1)) =~= lowercase_names(given.take(done)).push(
                ascii_lowercase(given[done]),
            ));
            assert(given.skip(done + 1) =~= given.skip(done).drop_first());
            done = done + 1;
        }
    }
    assert(given.take(done) =~= given);
    *names = out;
}

/// The options as given, with the mod and fighter names lowercased (ASCII letters only),
/// so that they compare with lowercased folder and fighter names.
pub fn args(parsed: Args) -> (normalized: Args)
    ensures
        string_views(normalized.mod_names@) == lowercase_names(string_views(parsed.mod_names@)),
        string_views(normalized.fighter_names@) == lowercase_names(
            string_views(parsed.fighter_names@),
        ),
        normalized.generate_gifs == parsed.generate_gifs,
        normalized.generate_web == parsed.generate_web,
        normalized.wasm_mode == parsed.wasm_mode,
        normalized.serve == parsed.serve,
{
    let mut args = parsed;
    lowercase_all(&mut args.mod_names);
    lowercase_all(&mut args.fighter_names);
    args
}

/// Lowercasing ASCII letters twice changes nothing more than lowercasing them once, so
/// normalized options stay as they are when normalized again.
pub proof fn lemma_lowercase_names_idempotent(names: Seq<Seq<char>>)
    ensures
        lowercase_names(lowercase_names(names)) == lowercase_names(names),
{
    assert forall|i: int| 0 <= i < names.len() implies #[trigger] lowercase_names(
        lowercase_names(names),
    )[i] == lowercase_names(names)[i] by {
        let n = names[i];
        assert forall|j: int| 0 <= j < n.len() implies #[trigger] ascii_lowercase(ascii_lowercase(n))[j]
            == ascii_lowercase(n)[j] by {
            let c = n[j];
            if 65 <= c as u32 <= 90 {
                assert((((c as u32) + 32) as char) as u32 == (c as u32) + 32);
            }
        }
        assert(ascii_lowercase(ascii_lowercase(n)) =~= ascii_lowercase(n));
    }
    assert(lowercase_names(lowercase_names(names)) =~= lowercase_names(names));
}

} // verus!
