use rukaidata::brawl_data::{BrawlMod, Fighter, SubactionInfo};
use rukaidata::page::{sort_by_name, NavLink};
use rukaidata::subaction_links::{subaction_heading, Heading};

fn subaction(name: &str) -> SubactionInfo {
    SubactionInfo { name: name.to_string(), script_main: 0, script_gfx: 0, script_sfx: 0, script_other: 0, frame_count: 1 }
}

#[test]
fn headings_follow_the_rules_in_order() {
    assert_eq!(subaction_heading("CliffAttackQuick"), Heading::LedgeOptions);
    assert_eq!(subaction_heading("ItemHandGrip"), Heading::Item);
    assert_eq!(subaction_heading("CaptureWaitHi"), Heading::Misc);
    assert_eq!(subaction_heading("FuraFura"), Heading::Stun);
    assert_eq!(subaction_heading("FuraSleepStart"), Heading::Sleep);
    assert_eq!(subaction_heading("FinalStart"), Heading::Finals);
    assert_eq!(subaction_heading("SwimRise"), Heading::Swim);
    assert_eq!(subaction_heading("Slip"), Heading::Trips);
    assert_eq!(subaction_heading("GlideStart"), Heading::Glide);
    assert_eq!(subaction_heading("AttackSquat"), Heading::Crawl);
    assert_eq!(subaction_heading("DownBoundU"), Heading::Knockdowns);
    assert_eq!(subaction_heading("AirCatch"), Heading::Misc);
    assert_eq!(subaction_heading("Catch"), Heading::Grabs);
    assert_eq!(subaction_heading("ThrowF"), Heading::Grabs);
    assert_eq!(subaction_heading("ThrownF"), Heading::Misc);
    assert_eq!(subaction_heading("LightThrowDrop"), Heading::ItemThrow);
    assert_eq!(subaction_heading("StepPose"), Heading::Footstool);
    assert_eq!(subaction_heading("FallSpecial"), Heading::Movements);
    assert_eq!(subaction_heading("SpecialN"), Heading::Specials);
    assert_eq!(subaction_heading("AttackEnd"), Heading::Misc);
    assert_eq!(subaction_heading("AttackAirN"), Heading::AttacksAerial);
    assert_eq!(subaction_heading("Attack11"), Heading::AttacksJab);
    assert_eq!(subaction_heading("Attack3Hi"), Heading::AttacksTilt);
    assert_eq!(subaction_heading("Attack4S"), Heading::AttacksSmash);
    assert_eq!(subaction_heading("AttackDash"), Heading::AttacksDash);
    assert_eq!(subaction_heading("AppealHiR"), Heading::Taunts);
    assert_eq!(subaction_heading("Lose"), Heading::Taunts);
    assert_eq!(subaction_heading("Wait1"), Heading::Movements);
    assert_eq!(subaction_heading("StopCeil"), Heading::WallCeilingTech);
    assert_eq!(subaction_heading("EscapeN"), Heading::Dodges);
    assert_eq!(subaction_heading("_Unused"), Heading::NoneNames);
    assert_eq!(subaction_heading("NONE3"), Heading::NoneNames);
    assert_eq!(subaction_heading("Rebirth"), Heading::Misc);
}

#[test]
fn subaction_links_are_grouped_and_sorted() {
    let fighter = Fighter {
        name: "Mario".to_string(),
        actions: vec![],
        subactions: vec![
            subaction("Attack13"),
            subaction("Attack11"),
            subaction("Wait1"),
            subaction("GlideStart"),
            subaction("Attack12"),
        ],
        scripts_fragment_fighter: vec![],
        scripts_fragment_common: vec![],
        scripts_section: vec![],
    };
    let m = BrawlMod { name: "Brawl".to_string(), fighters: vec![] };
    let links = m.gen_subaction_links(&fighter, "Attack12".to_string());
    let jab: Vec<(String, String, bool)> =
        links.attacks_jab.iter().map(|l| (l.name.clone(), l.link.clone(), l.current)).collect();
    assert_eq!(
        jab,
        vec![
            ("Attack11".to_string(), "/Brawl/Mario/subactions/Attack11.html".to_string(), false),
            ("Attack12".to_string(), "/Brawl/Mario/subactions/Attack12.html".to_string(), true),
            ("Attack13".to_string(), "/Brawl/Mario/subactions/Attack13.html".to_string(), false),
        ]
    );
    assert_eq!(links.movements.len(), 1);
    assert_eq!(links.glide.len(), 1);
    assert!(links.has_glide);
    assert!(!links.has_crawl);
    assert!(links.misc.is_empty());
}

fn link(name: &str) -> NavLink {
    NavLink { name: name.to_string(), link: format!("/{}", name), current: false }
}

#[test]
fn sort_by_name_orders_by_code_points_and_keeps_all() {
    let sorted = sort_by_name(vec![link("b"), link("B"), link("a"), link("ab"), link("a")]);
    let names: Vec<&str> = sorted.iter().map(|l| l.name.as_str()).collect();
    assert_eq!(names, vec!["B", "a", "a", "ab", "b"]);
}
