//! The loaded mods and fighters, as the values that the pages read from them, and the
//! navigation links that the pages build from them.

use vstd::prelude::*;
use crate::page::{LinkView, NavLink, link_view, link_views};
use crate::text::{hex, i32_bits, str_eq, write_hex_i32};

verus! {

/// An action of a fighter: its name, whether it belongs to the common fighter, and the
/// offsets of its entry and exit scripts (0 when it has none).
pub struct ActionInfo {
    pub name: String,
    pub common: bool,
    pub script_entry: i32,
    pub script_exit: i32,
}

/// A subaction of a fighter: its name and the offsets of its four scripts.
pub struct SubactionInfo {
    pub name: String,
    pub script_main: i32,
    pub script_gfx: i32,
    pub script_sfx: i32,
    pub script_other: i32,
    /// The number of frames of the subaction.
    pub frame_count: usize,
}

/// What the pages read of a fighter.
pub struct Fighter {
    pub name: String,
    pub actions: Vec<ActionInfo>,
    pub subactions: Vec<SubactionInfo>,
    /// Offsets of the script fragments of the fighter.
    pub scripts_fragment_fighter: Vec<i32>,
    /// Offsets of the script fragments of the common fighter that the fighter uses.
    pub scripts_fragment_common: Vec<i32>,
    /// The scripts of the section of the fighter's files that other fighters share.
    pub scripts_section: Vec<SectionScript>,
}

/// A script of the shared section: its name and the offsets of the calls that lead to it.
pub struct SectionScript {
    pub name: String,
    pub callers: Vec<i32>,
}

/// A script that a link can lead to: its name and the address of the page that shows it.
pub struct ScriptInfo {
    pub name: String,
    pub address: String,
}

/// A fighter of a mod, with the scripts that its pages can link to by offset.
pub struct BrawlFighter {
    pub fighter: Fighter,
    pub script_lookup: std::collections::HashMap<i32, ScriptInfo>,
    pub script_lookup_common: std::collections::HashMap<i32, ScriptInfo>,
}

/// A mod and its fighters.
pub struct BrawlMod {
    pub name: String,
    pub fighters: Vec<BrawlFighter>,
}

/// All the mods.
pub struct BrawlMods {
    pub mods: Vec<BrawlMod>,
}

/// The names of the actions of a fighter.
pub open spec fn action_names(f: &Fighter) -> Seq<Seq<char>> {
    f.actions@.map_values(|a: ActionInfo| a.name@)
}

/// The names of the subactions of a fighter.
pub open spec fn subaction_names(f: &Fighter) -> Seq<Seq<char>> {
    f.subactions@.map_values(|s: SubactionInfo| s.name@)
}

/// The names of the scripts of the shared section of a fighter.
pub open spec fn section_names(f: &Fighter) -> Seq<Seq<char>> {
    f.scripts_section@.map_values(|s: SectionScript| s.name@)
}

/// The names of the mods.
pub open spec fn mod_names(mods: &BrawlMods) -> Seq<Seq<char>> {
    mods.mods@.map_values(|m: BrawlMod| m.name@)
}

/// The names of the fighters of a mod.
pub open spec fn fighter_names(m: &BrawlMod) -> Seq<Seq<char>> {
    m.fighters@.map_values(|f: BrawlFighter| f.fighter.name@)
}

/// The link to each mod, the current one marked.
pub open spec fn mod_links(names: Seq<Seq<char>>, current: Seq<char>) -> Seq<LinkView> {
    Seq::new(names.len(), |i: int| (names[i], "/"@ + names[i], names[i] == current))
}

impl BrawlMods {
    /// The links of the mod bar: one per mod, to its page, marking `current_mod`.
    pub fn gen_mod_links(&self, current_mod: String) -> (links: Vec<NavLink>)
        ensures
            link_views(links@) == mod_links(mod_names(self), current_mod@),
    {
        let mut links: Vec<NavLink> = Vec::new();
        let mut i: usize = 0;
        while i < self.mods.len()
            invariant
                i <= self.mods.len(),
                link_views(links@) =~= mod_links(mod_names(self), current_mod@).take(i as int),
            decreases self.mods.len() - i,
        {
            let name = &self.mods[i].name;
            let mut link = String::from_str("/");
            link.append(name.as_str());
            let l = NavLink { name: name.clone(), link, current: *name == current_mod };
            let ghost before = links@;
            links.push(l);
            assert(link_views(links@) =~= link_views(before).push(link_view(l)));
            i += 1;
        }
        links
    }
}

/// The link to each fighter of mod `m`, marking `current`.
pub open spec fn fighter_links(m: Seq<char>, names: Seq<Seq<char>>, current: Seq<char>) -> Seq<
    LinkView,
> {
    Seq::new(names.len(), |i: int| (names[i], "/"@ + m + "/"@ + names[i], current == names[i]))
}

/// The link to each page of a list of named pages of a fighter: `/mod/fighter/{dir}/{name}.html`.
pub open spec fn named_page_links(
    m: Seq<char>,
    fighter: Seq<char>,
    dir: Seq<char>,
    names: Seq<Seq<char>>,
    current: Seq<char>,
) -> Seq<LinkView> {
    Seq::new(
        names.len(),
        |i: int|
            (names[i], "/"@ + m + "/"@ + fighter + "/"@ + dir + "/"@ + names[i] + ".html"@, current
                == names[i]),
    )
}

/// The name of a script fragment: its offset in hexadecimal.
pub open spec fn fragment_name(offset: i32) -> Seq<char> {
    "0x"@ + hex(i32_bits(offset))
}

/// The link to each script fragment of a fighter, by offset, marking `current`.
pub open spec fn fragment_links(
    m: Seq<char>,
    fighter: Seq<char>,
    dir: Seq<char>,
    offsets: Seq<i32>,
    current: i32,
) -> Seq<LinkView> {
    Seq::new(
        offsets.len(),
        |i: int|
            (fragment_name(offsets[i]), "/"@ + m + "/"@ + fighter + "/"@ + dir + "/"@
                + fragment_name(offsets[i]) + ".html"@, current == offsets[i]),
    )
}

/// The link to each fighter's page of an action: the same action where the fighter has
/// one of that name, else its `Wait1`.
pub open spec fn fighter_action_links(
    m: Seq<char>,
    fighters: Seq<(Seq<char>, Seq<Seq<char>>)>,
    current_fighter: Seq<char>,
    current_action: Seq<char>,
) -> Seq<LinkView> {
    Seq::new(
        fighters.len(),
        |i: int|
            {
                let (name, actions) = fighters[i];
                let action = if actions.contains(current_action) {
                    current_action
                } else {
                    "Wait1"@
                };
                (name, "/framedata/"@ + m + "/"@ + name + "/"@ + action + ".html"@, current_fighter
                    == name)
            },
    )
}

/// The links of the fighter bar of the action lists: one per fighter, to its action list,
/// marking `current`.
pub open spec fn fighter_actions_links(m: Seq<char>, names: Seq<Seq<char>>, current: Seq<char>) -> Seq<
    LinkView,
> {
    Seq::new(names.len(), |i: int| (names[i], "/"@ + m + "/"@ + names[i] + "/actions"@, names[i] == current))
}

/// The link to the action list of the common fighter, never the page shown.
pub open spec fn common_actions_link(m: Seq<char>) -> LinkView {
    ("Fighter Common"@, "/"@ + m + "/common/actions"@, false)
}

/// The name and action names of each fighter of a mod.
pub open spec fn fighters_with_actions(m: &BrawlMod) -> Seq<(Seq<char>, Seq<Seq<char>>)> {
    m.fighters@.map_values(|f: BrawlFighter| (f.fighter.name@, action_names(&f.fighter)))
}

/// The name and subaction names of each fighter of a mod.
pub open spec fn fighters_with_subactions(m: &BrawlMod) -> Seq<(Seq<char>, Seq<Seq<char>>)> {
    m.fighters@.map_values(|f: BrawlFighter| (f.fighter.name@, subaction_names(&f.fighter)))
}

/// The link to each fighter's page of a subaction: the same subaction where the fighter
/// has one of that name, else its `Wait1`.
pub open spec fn fighter_subaction_links(
    m: Seq<char>,
    fighters: Seq<(Seq<char>, Seq<Seq<char>>)>,
    current_fighter: Seq<char>,
    current_subaction: Seq<char>,
) -> Seq<LinkView> {
    Seq::new(
        fighters.len(),
        |i: int|
            {
                let (name, subactions) = fighters[i];
                let subaction = if subactions.contains(current_subaction) {
                    current_subaction
                } else {
                    "Wait1"@
                };
                (name, "/"@ + m + "/"@ + name + "/subactions/"@ + subaction + ".html"@,
                current_fighter == name)
            },
    )
}

fn has_action(f: &Fighter, name: &str) -> (found: bool)
    ensures
        found == action_names(f).contains(name@),
{
    let mut i: usize = 0;
    while i < f.actions.len()
        invariant
            i <= f.actions.len(),
            forall|k: int| 0 <= k < i ==> action_names(f)[k] != name@,
        decreases f.actions.len() - i,
    {
        if str_eq(f.actions[i].name.as_str(), name) {
            assert(action_names(f)[i as int] == name@);
            return true;
        }
        i += 1;
    }
    false
}

fn has_subaction(f: &Fighter, name: &str) -> (found: bool)
    ensures
        found == subaction_names(f).contains(name@),
{
    let mut i: usize = 0;
    while i < f.subactions.len()
        invariant
            i <= f.subactions.len(),
            forall|k: int| 0 <= k < i ==> subaction_names(f)[k] != name@,
        decreases f.subactions.len() - i,
    {
        if str_eq(f.subactions[i].name.as_str(), name) {
            assert(subaction_names(f)[i as int] == name@);
            return true;
        }
        i += 1;
    }
    false
}

fn page_link(m: &str, fighter: &str, dir: &str, page: &str) -> (link: String)
    ensures
        link@ == "/"@ + m@ + "/"@ + fighter@ + "/"@ + dir@ + "/"@ + page@ + ".html"@,
{
    let mut link = String::from_str("/");
    link.append(m);
    link.append("/");
    link.append(fighter);
    link.append("/");
    link.append(dir);
    link.append("/");
    link.append(page);
    link.append(".html");
    link
}

fn fragment_name_string(offset: i32) -> (name: String)
    ensures
        name@ == fragment_name(offset),
{
    let mut name = String::from_str("0x");
    write_hex_i32(&mut name, offset);
    name
}

impl BrawlMod {
    /// The links of the fighter bar: one per fighter, to its page, marking `current_fighter`.
    pub fn gen_fighter_links(&self, current_fighter: &str) -> (links: Vec<NavLink>)
        ensures
            link_views(links@) == fighter_links(self.name@, fighter_names(self), current_fighter@),
    {
        let mut links: Vec<NavLink> = Vec::new();
        let mut i: usize = 0;
        while i < self.fighters.len()
            invariant
                i <= self.fighters.len(),
                link_views(links@) =~= fighter_links(
                    self.name@,
                    fighter_names(self),
                    current_fighter@,
                ).take(i as int),
            decreases self.fighters.len() - i,
        {
            let name = &self.fighters[i].fighter.name;
            let mut link = String::from_str("/");
            link.append(self.name.as_str());
            link.append("/");
            link.append(name.as_str());
            let l = NavLink {
                name: name.clone(),
                link,
                current: str_eq(current_fighter, name.as_str()),
            };
            let ghost before = links@;
            links.push(l);
            assert(link_views(links@) =~= link_views(before).push(link_view(l)));
            i += 1;
        }
        links
    }

    /// The links to the fighter's actions, marking `current_action`.
    pub fn gen_action_links(&self, fighter: &Fighter, current_action: &str) -> (links: Vec<NavLink>)
        ensures
            link_views(links@) == named_page_links(
                self.name@,
                fighter.name@,
                "actions"@,
                action_names(fighter),
                current_action@,
            ),
    {
        let mut links: Vec<NavLink> = Vec::new();
        let mut i: usize = 0;
        while i < fighter.actions.len()
            invariant
                i <= fighter.actions.len(),
                link_views(links@) =~= named_page_links(
                    self.name@,
                    fighter.name@,
                    "actions"@,
                    action_names(fighter),
                    current_action@,
                ).take(i as int),
            decreases fighter.actions.len() - i,
        {
            let name = &fighter.actions[i].name;
            let l = NavLink {
                name: name.clone(),
                link: page_link(self.name.as_str(), fighter.name.as_str(), "actions", name.as_str()),
                current: str_eq(current_action, name.as_str()),
            };
            let ghost before = links@;
            links.push(l);
            assert(link_views(links@) =~= link_views(before).push(link_view(l)));
            i += 1;
        }
        links
    }

    /// The links to the fighter's script sections, marking `current_script`.
    pub fn gen_script_section_links(&self, fighter: &Fighter, current_script: &str) -> (links: Vec<
        NavLink,
    >)
        ensures
            link_views(links@) == named_page_links(
                self.name@,
                fighter.name@,
                "scripts_common"@,
                section_names(fighter),
                current_script@,
            ),
    {
        let mut links: Vec<NavLink> = Vec::new();
        let mut i: usize = 0;
        while i < fighter.scripts_section.len()
            invariant
                i <= fighter.scripts_section.len(),
                link_views(links@) =~= named_page_links(
                    self.name@,
                    fighter.name@,
                    "scripts_common"@,
                    section_names(fighter),
                    current_script@,
                ).take(i as int),
            decreases fighter.scripts_section.len() - i,
        {
            let name = &fighter.scripts_section[i].name;
            let l = NavLink {
                name: name.clone(),
                link: page_link(
                    self.name.as_str(),
                    fighter.name.as_str(),
                    "scripts_common",
                    name.as_str(),
                ),
                current: str_eq(current_script, name.as_str()),
            };
            let ghost before = links@;
            links.push(l);
            assert(link_views(links@) =~= link_views(before).push(link_view(l)));
            i += 1;
        }
        links
    }

    fn fragment_links_in(&self, fighter: &Fighter, dir: &str, offsets: &Vec<i32>, current_script: i32) -> (links: Vec<NavLink>)
        ensures
            link_views(links@) == fragment_links(
                self.name@,
                fighter.name@,
                dir@,
                offsets@,
                current_script,
            ),
    {
        let mut links: Vec<NavLink> = Vec::new();
        let mut i: usize = 0;
        while i < offsets.len()
            invariant
                i <= offsets.len(),
                link_views(links@) =~= fragment_links(
                    self.name@,
                    fighter.name@,
                    dir@,
                    offsets@,
                    current_script,
                ).take(i as int),
            decreases offsets.len() - i,
        {
            let offset = offsets[i];
            let name = fragment_name_string(offset);
            let link = page_link(self.name.as_str(), fighter.name.as_str(), dir, name.as_str());
            let l = NavLink { name, link, current: current_script == offset };
            let ghost before = links@;
            links.push(l);
            assert(link_views(links@) =~= link_views(before).push(link_view(l)));
            i += 1;
        }
        links
    }

    /// The links to the common script fragments the fighter uses, by offset, marking
    /// `current_script`.
    pub fn gen_script_fragment_common_links(&self, fighter: &Fighter, current_script: i32) -> (links:
        Vec<NavLink>)
        ensures
            link_views(links@) == fragment_links(
                self.name@,
                fighter.name@,
                "scripts_common"@,
                fighter.scripts_fragment_common@,
                current_script,
            ),
    {
        self.fragment_links_in(fighter, "scripts_common", &fighter.scripts_fragment_common, current_script)
    }

    /// The links to the fighter's own script fragments, by offset, marking `current_script`.
    pub fn gen_script_fragment_fighter_links(&self, fighter: &Fighter, current_script: i32) -> (links:
        Vec<NavLink>)
        ensures
            link_views(links@) == fragment_links(
                self.name@,
                fighter.name@,
                "scripts"@,
                fighter.scripts_fragment_fighter@,
                current_script,
            ),
    {
        self.fragment_links_in(fighter, "scripts", &fighter.scripts_fragment_fighter, current_script)
    }

    /// The links of the fighter bar on an action page: each fighter's page of the same
    /// action, or of its `Wait1` when it has no action of that name.
    pub fn gen_fighter_links_action(&self, current_fighter: String, current_action: String) -> (links:
        Vec<NavLink>)
        ensures
            link_views(links@) == fighter_action_links(
                self.name@,
                fighters_with_actions(self),
                current_fighter@,
                current_action@,
            ),
    {
        let mut links: Vec<NavLink> = Vec::new();
        let mut i: usize = 0;
        while i < self.fighters.len()
            invariant
                i <= self.fighters.len(),
                link_views(links@) =~= fighter_action_links(
                    self.name@,
                    fighters_with_actions(self),
                    current_fighter@,
                    current_action@,
                ).take(i as int),
            decreases self.fighters.len() - i,
        {
            let fighter = &self.fighters[i].fighter;
            let action: &str = if has_action(fighter, current_action.as_str()) {
                current_action.as_str()
            } else {
                "Wait1"
            };
            let mut link = String::from_str("/framedata/");
            link.append(self.name.as_str());
            link.append("/");
            link.append(fighter.name.as_str());
            link.append("/");
            link.append(action);
            link.append(".html");
            let l = NavLink {
                name: fighter.name.clone(),
                link,
                current: current_fighter == fighter.name,
            };
            let ghost before = links@;
            links.push(l);
            assert(link_views(links@) =~= link_views(before).push(link_view(l)));
            i += 1;
        }
        links
    }

    /// The links of the fighter bar of an action list: one per fighter, to its action list,
    /// marking `current_fighter`.
    pub fn gen_fighter_links_actions(&self, current_fighter: &str) -> (links: Vec<NavLink>)
        ensures
            link_views(links@) == fighter_actions_links(self.name@, fighter_names(self), current_fighter@),
    {
        let mut links: Vec<NavLink> = Vec::new();
        let mut i: usize = 0;
        while i < self.fighters.len()
            invariant
                i <= self.fighters.len(),
                link_views(links@) =~= fighter_actions_links(
                    self.name@,
                    fighter_names(self),
                    current_fighter@,
                ).take(i as int),
            decreases self.fighters.len() - i,
        {
            let name = &self.fighters[i].fighter.name;
            let mut link = String::from_str("/");
            link.append(self.name.as_str());
            link.append("/");
            link.append(name.as_str());
            link.append("/actions");
            let l = NavLink { name: name.clone(), link, current: str_eq(name.as_str(), current_fighter) };
            let ghost before = links@;
            links.push(l);
            assert(link_views(links@) =~= link_views(before).push(link_view(l)));
            i += 1;
        }
        links
    }

    /// The links of the fighter bar of an action page: the action lists of the fighters,
    /// marking `current_fighter`, then that of the common fighter.
    pub fn gen_fighter_links_action_page(&self, current_fighter: &str) -> (links: Vec<NavLink>)
        ensures
            link_views(links@) == fighter_actions_links(self.name@, fighter_names(self), current_fighter@).push(
                common_actions_link(self.name@),
            ),
    {
        let mut links = self.gen_fighter_links_actions(current_fighter);
        let mut link = String::from_str("/");
        link.append(self.name.as_str());
        link.append("/common/actions");
        let l = NavLink { name: String::from_str("Fighter Common"), link, current: false };
        let ghost before = links@;
        links.push(l);
        assert(link_views(links@) =~= link_views(before).push(link_view(l)));
        links
    }

    /// The links of the fighter bar on a subaction page: each fighter's page of the same
    /// subaction, or of its `Wait1` when it has no subaction of that name.
    pub fn gen_fighter_links_subaction(&self, current_fighter: &str, current_subaction: &str) -> (links:
        Vec<NavLink>)
        ensures
            link_views(links@) == fighter_subaction_links(
                self.name@,
                fighters_with_subactions(self),
                current_fighter@,
                current_subaction@,
            ),
    {
        let mut links: Vec<NavLink> = Vec::new();
        let mut i: usize = 0;
        while i < self.fighters.len()
            invariant
                i <= self.fighters.len(),
                link_views(links@) =~= fighter_subaction_links(
                    self.name@,
                    fighters_with_subactions(self),
                    current_fighter@,
                    current_subaction@,
                ).take(i as int),
            decreases self.fighters.len() - i,
        {
            let fighter = &self.fighters[i].fighter;
            let subaction: &str = if has_subaction(fighter, current_subaction) {
                current_subaction
            } else {
                "Wait1"
            };
            let mut link = String::from_str("/");
            link.append(self.name.as_str());
            link.append("/");
            link.append(fighter.name.as_str());
            link.append("/subactions/");
            link.append(subaction);
            link.append(".html");
            let l = NavLink {
                name: fighter.name.clone(),
                link,
                current: str_eq(current_fighter, fighter.name.as_str()),
            };
            let ghost before = links@;
            links.push(l);
            assert(link_views(links@) =~= link_views(before).push(link_view(l)));
            i += 1;
        }
        links
    }
}

} // verus!
