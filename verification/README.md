# rukaidata

Frame data of Super Smash Bros. Brawl and its mods, built from the game's files with
[brawllib_rs](https://crates.io/crates/brawllib_rs): a generator of a static website with a
page per fighter, action, subaction and script, GIFs of the subactions, the logic of a Discord
bot that links to those pages, and that of the fighter renderer's page controls.

## Layout

- `src/` is the library, verified with Verus. Every public function states in its contract
  what it returns: the navigation bars and their order, the script listings with their links,
  the attribute, hitbox and throw tables of the subaction pages, the names of the static files,
  the mods and fighters that the filters select, the Discord bot's lookups of fighter names,
  and the renderer's reactions to clicks.
- `app/` is the generator program: it reads `data/` with brawllib_rs, hands the values to the
  library, renders the pages with handlebars, writes them compressed under `root/` and renders
  the GIFs.
- `tests/` runs the library on concrete values.

## Running the generator

From a folder beside `data/` and `root/`, with the handlebars templates in `templates/`:

- `-m` lists the mod folders in `data/` to use, `-f` the fighters, by internal name.
- `-w` generates the web pages, `-g` the subaction GIFs, `-s` serves `root/` at
  `localhost:8000`.
