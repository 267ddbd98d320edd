//! The pages of a fighter's scripts that no action or subaction owns: its own script
//! fragments, the fragments of the common fighter it uses, and the scripts of the shared
//! section.

use vstd::prelude::*;
use crate::brawl_data::{BrawlFighter, BrawlMod, fragment_links, fragment_name, named_page_links, section_names};
use crate::page::{LinkView, NavLink, link_view, link_views};
use crate::scripts::{Event, events_list, process_events};
use crate::text::{str_eq, write_hex_i32};

verus! {

/// Which script a script page shows.
pub enum ScriptKind {
    /// The fighter's own fragment at an offset.
    Fighter(i32),
    /// The common fighter's fragment at an offset.
    Common(i32),
    /// The script of the shared section with a name.
    Section(String),
}

/// A script page: its title, the bars of links to the other scripts and fighters, and the
/// script's events.
pub struct ScriptPage {
    pub title: String,
    pub script_fighter_links: Vec<NavLink>,
    pub script_common_links: Vec<NavLink>,
    pub script_section_links: Vec<NavLink>,
    pub script: String,
    pub fighter_links: Vec<NavLink>,
}

/// The title of a script page of fighter `f` of mod `m`.
pub open spec fn script_title(m: Seq<char>, f: Seq<char>, kind: ScriptKind) -> Seq<char> {
    match kind {
        ScriptKind::Fighter(offset) => m + " - "@ + f + " - Subroutine - "@ + fragment_name(offset),
        ScriptKind::Common(offset) => m + " - "@ + f + " - Common Subroutine "@ + fragment_name(offset),
        ScriptKind::Section(name) => m + " - "@ + f + " - Common Section "@ + name@,
    }
}

/// The address, under the website's root, of the page of a script of fighter `f` of mod `m`.
pub open spec fn script_path(m: Seq<char>, f: Seq<char>, kind: ScriptKind) -> Seq<char> {
    match kind {
        ScriptKind::Fighter(offset) => "/"@ + m + "/"@ + f + "/scripts/"@ + fragment_name(offset) + ".html"@,
        ScriptKind::Common(offset) => "/"@ + m + "/"@ + f + "/scripts_common/"@ + fragment_name(offset) + ".html"@,
        ScriptKind::Section(name) => "/"@ + m + "/"@ + f + "/scripts_common/"@ + name@ + ".html"@,
    }
}

/// The fighter bar of a script page of fighter `f`: each fighter of the mod, each linking
/// to the scripts of the fighter shown.
pub open spec fn script_fighter_bar(m: Seq<char>, f: Seq<char>, fighters: Seq<BrawlFighter>) -> Seq<LinkView> {
    Seq::new(
        fighters.len(),
        |i: int| (fighters[i].fighter.name@, "/"@ + m + "/"@ + f + "/scripts"@, fighters[i].fighter.name@ == f),
    )
}

fn append_fragment_name(s: &mut String, offset: i32)
    ensures
        final(s)@ == old(s)@ + fragment_name(offset),
{
    s.append("0x");
    write_hex_i32(s, offset);
    assert(final(s)@ =~= old(s)@ + fragment_name(offset));
}

/// The title of a script page.
pub fn script_page_title(m: &str, f: &str, kind: &ScriptKind) -> (title: String)
    ensures
        title@ == script_title(m@, f@, *kind),
{
    let mut title = String::from_str(m);
    title.append(" - ");
    title.append(f);
    match kind {
        ScriptKind::Fighter(offset) => {
            title.append(" - Subroutine - ");
            append_fragment_name(&mut title, *offset);
        },
        ScriptKind::Common(offset) => {
            title.append(" - Common Subroutine ");
            append_fragment_name(&mut title, *offset);
        },
        ScriptKind::Section(name) => {
            title.append(" - Common Section ");
            title.append(name.as_str());
        },
    }
    assert(title@ =~= script_title(m@, f@, *kind));
    title
}

/// The address of a script page, which it is written under.
pub fn script_page_path(m: &str, f: &str, kind: &ScriptKind) -> (path: String)
    ensures
        path@ == script_path(m@, f@, *kind),
{
    let mut path = String::from_str("/");
    path.append(m);
    path.append("/");
    path.append(f);
    match kind {
        ScriptKind::Fighter(offset) => {
            path.append("/scripts/");
            append_fragment_name(&mut path, *offset);
        },
        ScriptKind::Common(offset) => {
            path.append("/scripts_common/");
            append_fragment_name(&mut path, *offset);
        },
        ScriptKind::Section(name) => {
            path.append("/scripts_common/");
            path.append(name.as_str());
        },
    }
    path.append(".html");
    assert(path@ =~= script_path(m@, f@, *kind));
    path
}

/// The fighter bar of a script page of fighter `f`.
pub fn script_fighter_links(brawl_mod: &BrawlMod, f: &str) -> (links: Vec<NavLink>)
    ensures
        link_views(links@) == script_fighter_bar(brawl_mod.name@, f@, brawl_mod.fighters@),
{
    let mut links: Vec<NavLink> = Vec::new();
    let mut i: usize = 0;
    while i < brawl_mod.fighters.len()
        invariant
            i <= brawl_mod.fighters.len(),
            link_views(links@) =~= script_fighter_bar(brawl_mod.name@, f@, brawl_mod.fighters@).take(i as int),
        decreases brawl_mod.fighters.len() - i,
    {
        let other = &brawl_mod.fighters[i].fighter.name;
        let mut link = String::from_str("/");
        link.append(brawl_mod.name.as_str());
        link.append("/");
        link.append(f);
        link.append("/scripts");
        let l = NavLink { name: other.clone(), link, current: str_eq(other.as_str(), f) };
        let ghost before = links@;
        links.push(l);
        assert(link_views(links@) =~= link_views(before).push(link_view(l)));
        i += 1;
    }
    links
}

/// The script page of `fighter` in `brawl_mod` showing the script `kind`, whose events
/// are `events`. The bars mark the script shown; the fragments of the common fighter and
/// the shared scripts are looked up among the common scripts.
pub fn script_page(brawl_mod: &BrawlMod, fighter: &BrawlFighter, kind: &ScriptKind, events: &Vec<Event>) -> (page:
    ScriptPage)
    ensures
        page.title@ == script_title(brawl_mod.name@, fighter.fighter.name@, *kind),
        link_views(page.script_fighter_links@) == fragment_links(
            brawl_mod.name@,
            fighter.fighter.name@,
            "scripts"@,
            fighter.fighter.scripts_fragment_fighter@,
            if let ScriptKind::Fighter(offset) = *kind { offset } else { 0 },
        ),
        link_views(page.script_common_links@) == fragment_links(
            brawl_mod.name@,
            fighter.fighter.name@,
            "scripts_common"@,
            fighter.fighter.scripts_fragment_common@,
            if let ScriptKind::Common(offset) = *kind { offset } else { 0 },
        ),
        link_views(page.script_section_links@) == named_page_links(
            brawl_mod.name@,
            fighter.fighter.name@,
            "scripts_common"@,
            section_names(&fighter.fighter),
            if let ScriptKind::Section(name) = *kind { name@ } else { ""@ },
        ),
        page.script@ == events_list(brawl_mod.name@, *fighter, !(kind is Fighter), events@),
        link_views(page.fighter_links@) == script_fighter_bar(brawl_mod.name@, fighter.fighter.name@, brawl_mod.fighters@),
{
    let f = &fighter.fighter;
    let (fighter_current, common_current, section_current, common): (i32, i32, &str, bool) = match kind {
        ScriptKind::Fighter(offset) => (*offset, 0, "", false),
        ScriptKind::Common(offset) => (0, *offset, "", true),
        ScriptKind::Section(name) => (0, 0, name.as_str(), true),
    };
    ScriptPage {
        title: script_page_title(brawl_mod.name.as_str(), f.name.as_str(), kind),
        script_fighter_links: brawl_mod.gen_script_fragment_fighter_links(f, fighter_current),
        script_common_links: brawl_mod.gen_script_fragment_common_links(f, common_current),
        script_section_links: brawl_mod.gen_script_section_links(f, section_current),
        script: process_events(events, common, brawl_mod, fighter),
        fighter_links: script_fighter_links(brawl_mod, f.name.as_str()),
    }
}

} // verus!
