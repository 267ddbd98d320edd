use rukaidata::brawl_data::{ActionInfo, BrawlFighter, BrawlMod, BrawlMods, Fighter, SectionScript, SubactionInfo};
use rukaidata::brawl_mod::{fighter_selected, fragments_are_unique, mod_selected, names_select, LoadedFighter, ModType};
use rukaidata::cli::Args;
use rukaidata::page::NavLink;

fn action(name: &str, common: bool, entry: i32, exit: i32) -> ActionInfo {
    ActionInfo { name: name.to_string(), common, script_entry: entry, script_exit: exit }
}

fn subaction(name: &str, base: i32, frame_count: usize) -> SubactionInfo {
    SubactionInfo {
        name: name.to_string(),
        script_main: base,
        script_gfx: base + 1,
        script_sfx: base + 2,
        script_other: base + 3,
        frame_count,
    }
}

fn fighter(name: &str) -> Fighter {
    Fighter {
        name: name.to_string(),
        actions: vec![action("Wait1", false, 100, 0), action("Damage", true, 200, 201), action("Jump", false, 0, 300)],
        subactions: vec![subaction("Wait1", 1000, 60), subaction("AttackAirN", 2000, 0)],
        scripts_fragment_fighter: vec![0x5000, -2],
        scripts_fragment_common: vec![0x7000],
        scripts_section: vec![SectionScript { name: "Shared".to_string(), callers: vec![42, 43] }],
    }
}

fn links(list: Vec<NavLink>) -> Vec<(String, String, bool)> {
    list.into_iter().map(|l| (l.name, l.link, l.current)).collect()
}

fn args(mods: &[&str], fighters: &[&str]) -> Args {
    Args {
        mod_names: mods.iter().map(|s| s.to_string()).collect(),
        fighter_names: fighters.iter().map(|s| s.to_string()).collect(),
        generate_gifs: false,
        generate_web: true,
        wasm_mode: false,
        serve: false,
    }
}

fn two_fighter_mod() -> BrawlMod {
    BrawlMod {
        name: "P+".to_string(),
        fighters: vec![BrawlFighter::new("P+", fighter("Mario")), BrawlFighter::new("P+", fighter("Zelda"))],
    }
}

#[test]
fn mod_links_mark_the_current_mod() {
    let mods = BrawlMods { mods: vec![BrawlMod { name: "Brawl".to_string(), fighters: vec![] }, two_fighter_mod()] };
    assert_eq!(
        links(mods.gen_mod_links("P+".to_string())),
        vec![
            ("Brawl".to_string(), "/Brawl".to_string(), false),
            ("P+".to_string(), "/P+".to_string(), true),
        ]
    );
}

#[test]
fn fighter_and_action_links() {
    let m = two_fighter_mod();
    assert_eq!(
        links(m.gen_fighter_links("Zelda")),
        vec![
            ("Mario".to_string(), "/P+/Mario".to_string(), false),
            ("Zelda".to_string(), "/P+/Zelda".to_string(), true),
        ]
    );
    let f = fighter("Mario");
    assert_eq!(
        links(m.gen_action_links(&f, "Jump")),
        vec![
            ("Wait1".to_string(), "/P+/Mario/actions/Wait1.html".to_string(), false),
            ("Damage".to_string(), "/P+/Mario/actions/Damage.html".to_string(), false),
            ("Jump".to_string(), "/P+/Mario/actions/Jump.html".to_string(), true),
        ]
    );
    assert_eq!(
        links(m.gen_script_section_links(&f, "Shared")),
        vec![("Shared".to_string(), "/P+/Mario/scripts_common/Shared.html".to_string(), true)]
    );
}

#[test]
fn fragment_links_name_offsets_in_hex() {
    let m = two_fighter_mod();
    let f = fighter("Mario");
    assert_eq!(
        links(m.gen_script_fragment_fighter_links(&f, -2)),
        vec![
            ("0x5000".to_string(), "/P+/Mario/scripts/0x5000.html".to_string(), false),
            ("0xfffffffe".to_string(), "/P+/Mario/scripts/0xfffffffe.html".to_string(), true),
        ]
    );
    assert_eq!(
        links(m.gen_script_fragment_common_links(&f, 0)),
        vec![("0x7000".to_string(), "/P+/Mario/scripts_common/0x7000.html".to_string(), false)]
    );
}

#[test]
fn fighter_links_fall_back_to_wait1() {
    let mut m = two_fighter_mod();
    m.fighters[1].fighter.actions = vec![action("Wait1", false, 0, 0)];
    m.fighters[1].fighter.subactions = vec![subaction("Wait1", 1, 1)];
    assert_eq!(
        links(m.gen_fighter_links_action("Mario".to_string(), "Jump".to_string())),
        vec![
            ("Mario".to_string(), "/framedata/P+/Mario/Jump.html".to_string(), true),
            ("Zelda".to_string(), "/framedata/P+/Zelda/Wait1.html".to_string(), false),
        ]
    );
    assert_eq!(
        links(m.gen_fighter_links_subaction("Zelda", "AttackAirN")),
        vec![
            ("Mario".to_string(), "/P+/Mario/subactions/AttackAirN.html".to_string(), false),
            ("Zelda".to_string(), "/P+/Zelda/subactions/Wait1.html".to_string(), true),
        ]
    );
}

#[test]
fn script_lookups_of_a_fighter() {
    let bf = BrawlFighter::new("P+", fighter("Mario"));
    let own = &bf.script_lookup;
    assert_eq!(own.get(&100).map(|i| (i.name.as_str(), i.address.as_str())), Some(("100", "/P+/Mario/actions/100.html#script-entry")));
    assert_eq!(own.get(&300).map(|i| i.address.as_str()), Some("/P+/Mario/actions/300.html#script-exit"));
    assert!(own.get(&200).is_none());
    assert_eq!(own.get(&1001).map(|i| (i.name.as_str(), i.address.as_str())), Some(("Wait1 GFX", "/P+/Mario/subactions/Wait1.html#script-gfx")));
    assert_eq!(own.get(&2003).map(|i| i.name.as_str()), Some("AttackAirN Other"));
    assert_eq!(own.get(&0x5000).map(|i| (i.name.as_str(), i.address.as_str())), Some(("0x5000", "/P+/Mario/scripts/0x5000.html")));
    assert_eq!(own.get(&-2).map(|i| i.name.as_str()), Some("0xfffffffe"));
    // non-common actions, subactions (4 scripts each), fighter fragments
    assert_eq!(own.len(), 2 + 8 + 2);
    let common = &bf.script_lookup_common;
    assert_eq!(common.get(&200).map(|i| i.address.as_str()), Some("/P+/Mario/actions/200.html#script-entry"));
    assert_eq!(common.get(&201).map(|i| i.address.as_str()), Some("/P+/Mario/actions/201.html#script-exit"));
    assert_eq!(common.get(&0x7000).map(|i| i.address.as_str()), Some("/P+/Mario/scripts_common/0x7000.html"));
    assert_eq!(common.len(), 3);
}

#[test]
fn later_scripts_replace_earlier_ones_at_an_offset() {
    let mut f = fighter("Mario");
    // the subaction's main script shares the offset of the Wait1 action's entry script
    f.subactions = vec![subaction("Wait1", 100, 10)];
    let bf = BrawlFighter::new("P+", f);
    assert_eq!(bf.script_lookup.get(&100).map(|i| i.name.as_str()), Some("Wait1 Main"));
}

#[test]
fn names_selection() {
    let none: Vec<String> = vec![];
    assert!(names_select(&none, "anything"));
    let some = vec!["mario".to_string(), "zelda".to_string()];
    assert!(names_select(&some, "zelda"));
    assert!(!names_select(&some, "Zelda"));
    assert!(mod_selected(&args(&["p+"], &[]), "P+"));
    assert!(!mod_selected(&args(&["brawl"], &[]), "P+"));
    assert!(mod_selected(&args(&[], &[]), "Anything"));
}

#[test]
fn fighter_selection() {
    let cli = args(&[], &[]);
    assert!(fighter_selected(&cli, true, "Mario", &ModType::ModFromBase));
    assert!(!fighter_selected(&cli, true, "Mario", &ModType::NotMod));
    assert!(fighter_selected(&cli, false, "Mario", &ModType::NotMod));
    assert!(!fighter_selected(&cli, false, "PokeTrainer", &ModType::NotMod));
    let cli = args(&[], &["zelda"]);
    assert!(!fighter_selected(&cli, false, "Mario", &ModType::NotMod));
    assert!(fighter_selected(&cli, false, "ZELDA", &ModType::NotMod));
}

fn loaded(name: &str, mod_type: ModType) -> LoadedFighter {
    LoadedFighter { cased_name: name.to_string(), mod_type, fighter: fighter(name) }
}

#[test]
fn brawl_mod_keeps_shown_fighters_sorted() {
    let fighters = vec![
        loaded("Zelda", ModType::ModFromBase),
        loaded("Mario", ModType::NotMod),
        loaded("Knuckles", ModType::ModFromScratch),
        loaded("PokeTrainer", ModType::ModFromBase),
        loaded("Bowser", ModType::ModFromBase),
    ];
    let m = BrawlMod::new("P+".to_string(), &args(&[], &[]), fighters).unwrap();
    assert_eq!(m.name, "P+");
    let names: Vec<&str> = m.fighters.iter().map(|f| f.fighter.name.as_str()).collect();
    assert_eq!(names, vec!["Bowser", "Knuckles", "Zelda"]);
    assert_eq!(
        m.fighters[0].script_lookup.get(&0x5000).map(|i| i.address.as_str()),
        Some("/P+/Bowser/scripts/0x5000.html")
    );
}

#[test]
fn base_game_shows_its_own_fighters() {
    let fighters = vec![loaded("Mario", ModType::NotMod), loaded("Luigi", ModType::NotMod)];
    let m = BrawlMod::new("Brawl".to_string(), &args(&[], &["luigi"]), fighters).unwrap();
    let names: Vec<&str> = m.fighters.iter().map(|f| f.fighter.name.as_str()).collect();
    assert_eq!(names, vec!["Luigi"]);
}

#[test]
fn mods_not_asked_for_are_skipped() {
    let m = BrawlMod::new("P+".to_string(), &args(&["brawl"], &[]), vec![loaded("Mario", ModType::ModFromBase)]);
    assert!(m.is_none());
}

#[test]
fn mods_are_sorted_by_name() {
    let mods = BrawlMods::new(vec![
        BrawlMod { name: "Secret".to_string(), fighters: vec![] },
        BrawlMod { name: "Brawl".to_string(), fighters: vec![] },
        BrawlMod { name: "P+".to_string(), fighters: vec![] },
    ]);
    let names: Vec<&str> = mods.mods.iter().map(|m| m.name.as_str()).collect();
    assert_eq!(names, vec!["Brawl", "P+", "Secret"]);
}

#[test]
fn readme_filter_example_selects_pm_marth_and_squirtle() {
    let cli = rukaidata::cli::args(args(&["pm3.6"], &["marth", "pokezenigame"]));
    assert!(mod_selected(&cli, "PM3.6"));
    assert!(!mod_selected(&cli, "Brawl"));
    assert!(fighter_selected(&cli, true, "Marth", &ModType::ModFromBase));
    assert!(fighter_selected(&cli, true, "PokeZenigame", &ModType::ModFromBase));
    assert!(!fighter_selected(&cli, true, "Mario", &ModType::ModFromBase));
}

#[test]
fn clashing_fragments_are_found() {
    assert!(fragments_are_unique("P+", &fighter("Mario")));
    let mut f = fighter("Mario");
    f.scripts_fragment_fighter = vec![0x5000, 0x5000];
    assert!(!fragments_are_unique("P+", &f));
    let mut f = fighter("Mario");
    f.scripts_fragment_fighter = vec![1001];
    assert!(!fragments_are_unique("P+", &f));
    let mut f = fighter("Mario");
    f.scripts_fragment_common = vec![200];
    assert!(!fragments_are_unique("P+", &f));
    // a common action script does not clash with the fighter's own fragments
    let mut f = fighter("Mario");
    f.scripts_fragment_fighter = vec![200];
    assert!(fragments_are_unique("P+", &f));
}

#[test]
fn load_reports_shown_fighters_with_clashing_fragments() {
    let mut bad = loaded("Zelda", ModType::ModFromBase);
    bad.fighter.scripts_fragment_fighter = vec![100];
    let result = BrawlMod::load("P+".to_string(), &args(&[], &[]), vec![loaded("Mario", ModType::ModFromBase), bad]);
    assert_eq!(result.err(), Some("Zelda".to_string()));

    // a fighter the mod does not show is not checked
    let mut hidden = loaded("Luigi", ModType::NotMod);
    hidden.fighter.scripts_fragment_fighter = vec![100];
    let m = BrawlMod::load("P+".to_string(), &args(&[], &[]), vec![hidden, loaded("Mario", ModType::ModFromBase)])
        .unwrap()
        .unwrap();
    assert_eq!(m.fighters.len(), 1);

    let skipped = BrawlMod::load("P+".to_string(), &args(&["brawl"], &[]), vec![loaded("Mario", ModType::ModFromBase)]);
    assert!(matches!(skipped, Ok(None)));
}

#[test]
fn only_the_brawl_folder_is_the_base_game() {
    assert!(!rukaidata::brawl_mod::is_mod_name("Brawl"));
    assert!(!rukaidata::brawl_mod::is_mod_name("BRAWL"));
    assert!(rukaidata::brawl_mod::is_mod_name("P+"));
    assert!(rukaidata::brawl_mod::is_mod_name("Brawl2"));
}

#[test]
fn action_list_bars_link_each_fighters_actions() {
    let m = two_fighter_mod();
    let names: Vec<String> = m.fighters.iter().map(|f| f.fighter.name.clone()).collect();
    let bar = links(m.gen_fighter_links_actions(&names[1]));
    assert_eq!(bar.len(), names.len());
    for (i, name) in names.iter().enumerate() {
        assert_eq!(bar[i], (name.clone(), format!("/{}/{}/actions", m.name, name), i == 1));
    }
    let page_bar = links(m.gen_fighter_links_action_page(&names[0]));
    assert_eq!(page_bar.len(), names.len() + 1);
    assert!(page_bar[0].2 && !page_bar[1].2);
    assert_eq!(page_bar[names.len()], ("Fighter Common".to_string(), format!("/{}/common/actions", m.name), false));
}

#[test]
fn page_titles() {
    assert_eq!(rukaidata::page::mod_page_title("P+"), "P+ Fighters");
    assert_eq!(rukaidata::page::fighter_title("P+", "Mario"), "P+ - Mario");
    assert_eq!(rukaidata::page::fighter_page_title("P+", "Mario", "Attributes"), "P+ - Mario - Attributes");
    assert_eq!(rukaidata::page::action_page_title("P+", "Mario", "Jump"), "P+ - Mario - Action - Jump");
}
