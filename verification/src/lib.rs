//! Frame data of Brawl and its mods: the logic behind the rukaidata website,
//! its Discord bot and its fighter renderer, with contracts proved by Verus.

pub mod text;
pub mod characters;
pub mod bot;
pub mod frames;
pub mod subaction_page;
pub mod page;
pub mod brawl_data;
pub mod subaction_links;
pub mod cli;
pub mod brawl_mod;
pub mod scripts;
pub mod assets;
pub mod renderer_ui;
pub mod attributes;
pub mod output;
pub mod gif;
pub mod config;
pub mod hitbox_table;
pub mod script_page;
