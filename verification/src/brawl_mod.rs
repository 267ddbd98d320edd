//! Which mods and fighters are loaded, and the scripts that each fighter's pages can
//! link to by offset.

use vstd::prelude::*;
use crate::brawl_data::{ActionInfo, BrawlFighter, BrawlMod, BrawlMods, Fighter, ScriptInfo, SubactionInfo, fragment_name};
use crate::cli::Args;
use crate::page::{Named, names_sorted, sort_by_names};
use crate::text::{decimal_int, str_eq, string_views, to_lowercase, unicode_lowercase, write_decimal_i64, write_hex_i32};
use std::collections::HashMap;

verus! {

broadcast use vstd::std_specs::hash::group_hash_axioms;

/// A script as plain values: its name and the address of its page.
pub type InfoView = (Seq<char>, Seq<char>);

/// The entries that a list of scripts adds to a lookup, in order.
pub type Entries = Seq<(i32, InfoView)>;

/// The lookup that a list of entries builds: a later entry of an offset replaces an
/// earlier one.
pub open spec fn lookup_of(entries: Entries) -> Map<i32, InfoView>
    decreases entries.len(),
{
    if entries.len() == 0 {
        Map::empty()
    } else {
        lookup_of(entries.drop_last()).insert(entries.last().0, entries.last().1)
    }
}

/// A lookup as plain values.
pub open spec fn lookup_view(m: Map<i32, ScriptInfo>) -> Map<i32, InfoView> {
    m.map_values(|info: ScriptInfo| (info.name@, info.address@))
}

/// The entries of the entry and exit scripts of the actions whose `common` flag is `common`:
/// each named by its offset in decimal, and found on the page of the action named so.
pub open spec fn action_entries(m: Seq<char>, f: Seq<char>, actions: Seq<ActionInfo>, common: bool) -> Entries
    decreases actions.len(),
{
    if actions.len() == 0 {
        Seq::empty()
    } else {
        let before = action_entries(m, f, actions.drop_last(), common);
        let a = actions.last();
        if a.common != common {
            before
        } else {
            let entry = if a.script_entry != 0 {
                seq![(a.script_entry, (decimal_int(a.script_entry as int), "/"@ + m + "/"@ + f + "/actions/"@
                    + decimal_int(a.script_entry as int) + ".html#script-entry"@))]
            } else {
                Seq::empty()
            };
            let exit = if a.script_exit != 0 {
                seq![(a.script_exit, (decimal_int(a.script_exit as int), "/"@ + m + "/"@ + f + "/actions/"@
                    + decimal_int(a.script_exit as int) + ".html#script-exit"@))]
            } else {
                Seq::empty()
            };
            before + entry + exit
        }
    }
}

/// The entry of one of the scripts of subaction `s`.
pub open spec fn subaction_entry(m: Seq<char>, f: Seq<char>, s: Seq<char>, offset: i32, label: Seq<char>, anchor: Seq<char>) -> (i32, InfoView) {
    (offset, (s + " "@ + label, "/"@ + m + "/"@ + f + "/subactions/"@ + s + ".html#script-"@ + anchor))
}

/// The entries of the main, GFX, SFX and other scripts of each subaction.
pub open spec fn subaction_entries(m: Seq<char>, f: Seq<char>, subactions: Seq<SubactionInfo>) -> Entries
    decreases subactions.len(),
{
    if subactions.len() == 0 {
        Seq::empty()
    } else {
        let s = subactions.last();
        subaction_entries(m, f, subactions.drop_last()) + seq![
            subaction_entry(m, f, s.name@, s.script_main, "Main"@, "main"@),
            subaction_entry(m, f, s.name@, s.script_gfx, "GFX"@, "gfx"@),
            subaction_entry(m, f, s.name@, s.script_sfx, "SFX"@, "sfx"@),
            subaction_entry(m, f, s.name@, s.script_other, "Other"@, "other"@),
        ]
    }
}

/// The entries of script fragments, each named by its offset in hexadecimal and found on
/// its page in `dir`.
pub open spec fn fragment_entries(m: Seq<char>, f: Seq<char>, dir: Seq<char>, offsets: Seq<i32>) -> Entries {
    Seq::new(
        offsets.len(),
        |i: int|
            (offsets[i], (fragment_name(offsets[i]), "/"@ + m + "/"@ + f + "/"@ + dir + "/"@
                + fragment_name(offsets[i]) + ".html"@)),
    )
}

/// The entries of a fighter's own lookup: its non-common actions, its subactions, then
/// its script fragments.
pub open spec fn fighter_entries(m: Seq<char>, f: &Fighter) -> Entries {
    action_entries(m, f.name@, f.actions@, false) + subaction_entries(m, f.name@, f.subactions@)
}

/// The entries of a fighter's common lookup: its common actions, then the common script
/// fragments it uses.
pub open spec fn common_entries(m: Seq<char>, f: &Fighter) -> Entries {
    action_entries(m, f.name@, f.actions@, true)
}

/// Whether each fragment offset is new to the lookup built before it: the fragments'
/// pages are made by offset, so two scripts at one offset would share a page.
pub open spec fn fragments_are_new(before: Entries, offsets: Seq<i32>) -> bool {
    &&& forall|i: int| 0 <= i < offsets.len() ==> !lookup_of(before).contains_key(#[trigger] offsets[i])
    &&& forall|i: int, j: int| 0 <= i < j < offsets.len() ==> #[trigger] offsets[i] != #[trigger] offsets[j]
}

/// Whether the fragments of a fighter can be added to its lookups without replacing a script.
pub open spec fn fragments_unique(m: Seq<char>, f: &Fighter) -> bool {
    &&& fragments_are_new(fighter_entries(m, f), f.scripts_fragment_fighter@)
    &&& fragments_are_new(common_entries(m, f), f.scripts_fragment_common@)
}

/// The scripts a fighter's pages link to by offset: in its own lookup the non-common action
/// scripts, the subaction scripts and its fragments; in its common lookup the common action
/// scripts and the common fragments.
pub open spec fn lookups_built(bf: &BrawlFighter, m: Seq<char>) -> bool {
    let f = &bf.fighter;
    &&& lookup_view(bf.script_lookup@) == lookup_of(
        fighter_entries(m, f) + fragment_entries(m, f.name@, "scripts"@, f.scripts_fragment_fighter@),
    )
    &&& lookup_view(bf.script_lookup_common@) == lookup_of(
        common_entries(m, f) + fragment_entries(m, f.name@, "scripts_common"@, f.scripts_fragment_common@),
    )
}

fn insert_entry(
    lookup: &mut HashMap<i32, ScriptInfo>,
    entries: Ghost<Entries>,
    offset: i32,
    name: String,
    address: String,
) -> (replaced: bool)
    requires
        lookup_view(old(lookup)@) == lookup_of(entries@),
    ensures
        lookup_view(final(lookup)@) == lookup_of(entries@.push((offset, (name@, address@)))),
        replaced == lookup_of(entries@).contains_key(offset),
{
    let ghost item = (offset, (name@, address@));
    let ghost info = ScriptInfo { name, address };
    let result = lookup.insert(offset, ScriptInfo { name, address });
    assert(entries@.push(item).drop_last() =~= entries@);
    assert(lookup_view(lookup@) =~= lookup_of(entries@.push(item)));
    result.is_some()
}

fn offset_name(offset: i32) -> (name: String)
    ensures
        name@ == decimal_int(offset as int),
{
    let mut name = String::new();
    write_decimal_i64(&mut name, offset as i64);
    assert(name@ =~= decimal_int(offset as int));
    name
}

fn add_action_scripts(
    lookup: &mut HashMap<i32, ScriptInfo>,
    entries: Ghost<Entries>,
    mod_name: &str,
    fighter: &Fighter,
    common: bool,
) -> (added: Ghost<Entries>)
    requires
        lookup_view(old(lookup)@) == lookup_of(entries@),
    ensures
        added@ == entries@ + action_entries(mod_name@, fighter.name@, fighter.actions@, common),
        lookup_view(final(lookup)@) == lookup_of(added@),
{
    let ghost mut acc = entries@;
    let mut i: usize = 0;
    while i < fighter.actions.len()
        invariant
            i <= fighter.actions.len(),
            acc == entries@ + action_entries(mod_name@, fighter.name@, fighter.actions@.take(i as int), common),
            lookup_view(lookup@) == lookup_of(acc),
        decreases fighter.actions.len() - i,
    {
        let a = &fighter.actions[i];
        assert(fighter.actions@.take(i + 1).drop_last() =~= fighter.actions@.take(i as int));
        assert(fighter.actions@.take(i + 1).last() == *a);
        if a.common == common {
            let ghost start = acc;
            if a.script_entry != 0 {
                let name = offset_name(a.script_entry);
                let mut address = String::from_str("/");
                address.append(mod_name);
                address.append("/");
                address.append(fighter.name.as_str());
                address.append("/actions/");
                address.append(name.as_str());
                address.append(".html#script-entry");
                let ghost item = (a.script_entry, (name@, address@));
                insert_entry(lookup, Ghost(acc), a.script_entry, name, address);
                proof {
                    acc = acc.push(item);
                }
            }
            let ghost middle = acc;
            if a.script_exit != 0 {
                let name = offset_name(a.script_exit);
                let mut address = String::from_str("/");
                address.append(mod_name);
                address.append("/");
                address.append(fighter.name.as_str());
                address.append("/actions/");
                address.append(name.as_str());
                address.append(".html#script-exit");
                let ghost item = (a.script_exit, (name@, address@));
                insert_entry(lookup, Ghost(acc), a.script_exit, name, address);
                proof {
                    acc = acc.push(item);
                }
            }
            proof {
                let before = action_entries(mod_name@, fighter.name@, fighter.actions@.take(i as int), common);
                let entry = if a.script_entry != 0 {
                    seq![(a.script_entry, (decimal_int(a.script_entry as int), "/"@ + mod_name@ + "/"@ + fighter.name@ + "/actions/"@
                        + decimal_int(a.script_entry as int) + ".html#script-entry"@))]
                } else {
                    Seq::empty()
                };
                let exit = if a.script_exit != 0 {
                    seq![(a.script_exit, (decimal_int(a.script_exit as int), "/"@ + mod_name@ + "/"@ + fighter.name@ + "/actions/"@
                        + decimal_int(a.script_exit as int) + ".html#script-exit"@))]
                } else {
                    Seq::empty()
                };
                assert(middle =~= start + entry);
                assert(acc =~= start + entry + exit);
                assert(acc =~= entries@ + (before + entry + exit));
            }
        } else {
            assert(action_entries(mod_name@, fighter.name@, fighter.actions@.take(i + 1), common)
                == action_entries(mod_name@, fighter.name@, fighter.actions@.take(i as int), common));
        }
        i += 1;
    }
    assert(fighter.actions@.take(fighter.actions.len() as int) =~= fighter.actions@);
    Ghost(acc)
}

fn add_subaction_script(
    lookup: &mut HashMap<i32, ScriptInfo>,
    entries: Ghost<Entries>,
    mod_name: &str,
    fighter_name: &str,
    subaction_name: &str,
    offset: i32,
    label: &str,
    anchor: &str,
)
    requires
        lookup_view(old(lookup)@) == lookup_of(entries@),
    ensures
        lookup_view(final(lookup)@) == lookup_of(
            entries@.push(subaction_entry(mod_name@, fighter_name@, subaction_name@, offset, label@, anchor@)),
        ),
{
    let mut name = String::from_str(subaction_name);
    name.append(" ");
    name.append(label);
    let mut address = String::from_str("/");
    address.append(mod_name);
    address.append("/");
    address.append(fighter_name);
    address.append("/subactions/");
    address.append(subaction_name);
    address.append(".html#script-");
    address.append(anchor);
    proof {
        assert(name@ =~= subaction_name@ + " "@ + label@);
        assert(address@ =~= "/"@ + mod_name@ + "/"@ + fighter_name@ + "/subactions/"@ + subaction_name@
            + ".html#script-"@ + anchor@);
    }
    insert_entry(lookup, entries, offset, name, address);
}

fn add_subaction_scripts(
    lookup: &mut HashMap<i32, ScriptInfo>,
    entries: Ghost<Entries>,
    mod_name: &str,
    fighter: &Fighter,
) -> (added: Ghost<Entries>)
    requires
        lookup_view(old(lookup)@) == lookup_of(entries@),
    ensures
        added@ == entries@ + subaction_entries(mod_name@, fighter.name@, fighter.subactions@),
        lookup_view(final(lookup)@) == lookup_of(added@),
{
    let ghost mut acc = entries@;
    let mut i: usize = 0;
    while i < fighter.subactions.len()
        invariant
            i <= fighter.subactions.len(),
            acc == entries@ + subaction_entries(mod_name@, fighter.name@, fighter.subactions@.take(i as int)),
            lookup_view(lookup@) == lookup_of(acc),
        decreases fighter.subactions.len() - i,
    {
        let s = &fighter.subactions[i];
        let ghost start = acc;
        let m = mod_name;
        let f = fighter.name.as_str();
        let n = s.name.as_str();
        add_subaction_script(lookup, Ghost(acc), m, f, n, s.script_main, "Main", "main");
        proof { acc = acc.push(subaction_entry(m@, f@, n@, s.script_main, "Main"@, "main"@)); }
        add_subaction_script(lookup, Ghost(acc), m, f, n, s.script_gfx, "GFX", "gfx");
        proof { acc = acc.push(subaction_entry(m@, f@, n@, s.script_gfx, "GFX"@, "gfx"@)); }
        add_subaction_script(lookup, Ghost(acc), m, f, n, s.script_sfx, "SFX", "sfx");
        proof { acc = acc.push(subaction_entry(m@, f@, n@, s.script_sfx, "SFX"@, "sfx"@)); }
        add_subaction_script(lookup, Ghost(acc), m, f, n, s.script_other, "Other", "other");
        proof {
            acc = acc.push(subaction_entry(m@, f@, n@, s.script_other, "Other"@, "other"@));
            assert(fighter.subactions@.take(i + 1).drop_last() =~= fighter.subactions@.take(i as int));
            assert(fighter.subactions@.take(i + 1).last() == *s);
            assert(acc =~= entries@ + subaction_entries(mod_name@, fighter.name@, fighter.subactions@.take(i + 1)));
        }
        i += 1;
    }
    assert(fighter.subactions@.take(fighter.subactions.len() as int) =~= fighter.subactions@);
    Ghost(acc)
}

fn add_fragments(
    lookup: &mut HashMap<i32, ScriptInfo>,
    entries: Ghost<Entries>,
    mod_name: &str,
    fighter_name: &str,
    dir: &str,
    offsets: &Vec<i32>,
)
    requires
        lookup_view(old(lookup)@) == lookup_of(entries@),
        fragments_are_new(entries@, offsets@),
    ensures
        lookup_view(final(lookup)@) == lookup_of(
            entries@ + fragment_entries(mod_name@, fighter_name@, dir@, offsets@),
        ),
{
    let ghost all = fragment_entries(mod_name@, fighter_name@, dir@, offsets@);
    let mut i: usize = 0;
    while i < offsets.len()
        invariant
            i <= offsets.len(),
            all == fragment_entries(mod_name@, fighter_name@, dir@, offsets@),
            fragments_are_new(entries@, offsets@),
            lookup_view(lookup@) == lookup_of(entries@ + all.take(i as int)),
        decreases offsets.len() - i,
    {
        let offset = offsets[i];
        let mut name = String::from_str("0x");
        write_hex_i32(&mut name, offset);
        let mut address = String::from_str("/");
        address.append(mod_name);
        address.append("/");
        address.append(fighter_name);
        address.append("/");
        address.append(dir);
        address.append("/");
        address.append(name.as_str());
        address.append(".html");
        proof {
            assert(name@ =~= fragment_name(offset));
            assert(address@ =~= "/"@ + mod_name@ + "/"@ + fighter_name@ + "/"@ + dir@ + "/"@
                + fragment_name(offset) + ".html"@);
            assert(all[i as int] == (offset, (name@, address@)));
            assert((entries@ + all.take(i + 1)) =~= (entries@ + all.take(i as int)).push(all[i as int]));
        }
        insert_entry(lookup, Ghost(entries@ + all.take(i as int)), offset, name, address);
        i += 1;
    }
    assert(all.take(offsets.len() as int) =~= all);
}

impl BrawlFighter {
    /// Builds the lookups of the scripts that the pages of `fighter` in mod `mod_name` link
    /// to by offset.
    pub fn new(mod_name: &str, fighter: Fighter) -> (built: BrawlFighter)
        requires
            fragments_unique(mod_name@, &fighter),
        ensures
            built.fighter == fighter,
            lookups_built(&built, mod_name@),
    {
        let mut script_lookup: HashMap<i32, ScriptInfo> = HashMap::new();
        let mut script_lookup_common: HashMap<i32, ScriptInfo> = HashMap::new();
        proof {
            assert(lookup_view(script_lookup@) =~= lookup_of(Seq::empty()));
            assert(lookup_view(script_lookup_common@) =~= lookup_of(Seq::empty()));
        }
        let fighter_name = fighter.name.as_str();
        let own = add_action_scripts(&mut script_lookup, Ghost(Seq::empty()), mod_name, &fighter, false);
        let common = add_action_scripts(&mut script_lookup_common, Ghost(Seq::empty()), mod_name, &fighter, true);
        let own = add_subaction_scripts(&mut script_lookup, own, mod_name, &fighter);
        proof {
            assert(own@ =~= fighter_entries(mod_name@, &fighter));
            assert(common@ =~= common_entries(mod_name@, &fighter));
        }
        add_fragments(&mut script_lookup, own, mod_name, fighter_name, "scripts", &fighter.scripts_fragment_fighter);
        add_fragments(&mut script_lookup_common, common, mod_name, fighter_name, "scripts_common", &fighter.scripts_fragment_common);
        BrawlFighter { fighter, script_lookup, script_lookup_common }
    }
}

fn fragments_new_in(lookup: &HashMap<i32, ScriptInfo>, entries: Ghost<Entries>, offsets: &Vec<i32>) -> (ok: bool)
    requires
        lookup_view(lookup@) == lookup_of(entries@),
    ensures
        ok == fragments_are_new(entries@, offsets@),
{
    let mut i: usize = 0;
    while i < offsets.len()
        invariant
            i <= offsets.len(),
            lookup_view(lookup@) == lookup_of(entries@),
            forall|k: int| 0 <= k < i ==> !lookup_of(entries@).contains_key(#[trigger] offsets@[k]),
            forall|k: int, l: int| 0 <= k < l < i ==> #[trigger] offsets@[k] != #[trigger] offsets@[l],
        decreases offsets.len() - i,
    {
        let offset = offsets[i];
        if lookup.contains_key(&offset) {
            assert(lookup_view(lookup@).contains_key(offset));
            return false;
        }
        let mut j: usize = 0;
        while j < i
            invariant
                j <= i < offsets.len(),
                offset == offsets@[i as int],
                forall|k: int| 0 <= k < j ==> #[trigger] offsets@[k] != offset,
            decreases i - j,
        {
            if offsets[j] == offset {
                return false;
            }
            j += 1;
        }
        i += 1;
    }
    true
}

/// Whether the fragments of `fighter` can be added to its lookups without replacing a
/// script: no fragment shares an offset with a script before it.
pub fn fragments_are_unique(mod_name: &str, fighter: &Fighter) -> (unique: bool)
    ensures
        unique == fragments_unique(mod_name@, fighter),
{
    let mut own: HashMap<i32, ScriptInfo> = HashMap::new();
    let mut common: HashMap<i32, ScriptInfo> = HashMap::new();
    proof {
        assert(lookup_view(own@) =~= lookup_of(Seq::empty()));
        assert(lookup_view(common@) =~= lookup_of(Seq::empty()));
    }
    let own_entries = add_action_scripts(&mut own, Ghost(Seq::empty()), mod_name, fighter, false);
    let common_entries_built = add_action_scripts(&mut common, Ghost(Seq::empty()), mod_name, fighter, true);
    let own_entries = add_subaction_scripts(&mut own, own_entries, mod_name, fighter);
    proof {
        assert(own_entries@ =~= fighter_entries(mod_name@, fighter));
        assert(common_entries_built@ =~= common_entries(mod_name@, fighter));
    }
    fragments_new_in(&own, own_entries, &fighter.scripts_fragment_fighter) && fragments_new_in(
        &common,
        common_entries_built,
        &fighter.scripts_fragment_common,
    )
}

impl Named for BrawlFighter {
    open spec fn name_view(&self) -> Seq<char> {
        self.fighter.name@
    }

    fn name_str(&self) -> (name: &str) {
        self.fighter.name.as_str()
    }
}

impl Named for BrawlMod {
    open spec fn name_view(&self) -> Seq<char> {
        self.name@
    }

    fn name_str(&self) -> (name: &str) {
        self.name.as_str()
    }
}

/// Whether a list of names asked for selects `name`: an empty list selects every name.
pub open spec fn selects(names: Seq<Seq<char>>, name: Seq<char>) -> bool {
    names.len() == 0 || names.contains(name)
}

/// Whether the names asked for select `name`.
pub fn names_select(names: &Vec<String>, name: &str) -> (selected: bool)
    ensures
        selected == selects(string_views(names@), name@),
{
    if names.len() == 0 {
        return true;
    }
    let mut i: usize = 0;
    while i < names.len()
        invariant
            i <= names.len(),
            forall|k: int| 0 <= k < i ==> string_views(names@)[k] != name@,
        decreases names.len() - i,
    {
        if str_eq(names[i].as_str(), name) {
            assert(string_views(names@)[i as int] == name@);
            return true;
        }
        i += 1;
    }
    false
}

/// How a loaded fighter relates to the mod it was loaded for.
pub enum ModType {
    /// The fighter of the base game, unchanged by the mod.
    NotMod,
    /// A fighter of the base game that the mod changes.
    ModFromBase,
    /// A fighter that the mod adds.
    ModFromScratch,
}

/// A fighter as loaded for a mod, before the mod decides whether to show it.
pub struct LoadedFighter {
    /// The fighter's name as its files write it.
    pub cased_name: String,
    pub mod_type: ModType,
    pub fighter: Fighter,
}

/// Whether a mod shows a fighter: the fighter is asked for, is not the Pokemon Trainer
/// (whose Pokemon are fighters of their own), and, in a mod other than the base game, is
/// not a base game fighter the mod leaves unchanged.
pub open spec fn fighter_shown(fighter_names: Seq<Seq<char>>, is_mod: bool, lower_name: Seq<char>, mod_type: ModType) -> bool {
    &&& selects(fighter_names, lower_name)
    &&& lower_name != "poketrainer"@
    &&& !(mod_type is NotMod && is_mod)
}

/// Whether the mod (a mod when `is_mod`, else the base game) shows the fighter named
/// `cased_name` whose relation to the mod is `mod_type`.
pub fn fighter_selected(cli: &Args, is_mod: bool, cased_name: &str, mod_type: &ModType) -> (shown: bool)
    ensures
        shown == fighter_shown(string_views(cli.fighter_names@), is_mod, unicode_lowercase(cased_name@), *mod_type),
{
    let lower = to_lowercase(cased_name);
    let unmodified_in_mod = match mod_type {
        ModType::NotMod => true,
        ModType::ModFromBase => false,
        ModType::ModFromScratch => false,
    } && is_mod;
    names_select(&cli.fighter_names, lower.as_str()) && !str_eq(lower.as_str(), "poketrainer") && !unmodified_in_mod
}

/// Whether the folder named `mod_name` holds a mod rather than the base game, whose folder
/// is named `brawl` in any case.
pub fn is_mod_name(mod_name: &str) -> (is_mod: bool)
    ensures
        is_mod == (unicode_lowercase(mod_name@) != "brawl"@),
{
    let lower = to_lowercase(mod_name);
    !str_eq(lower.as_str(), "brawl")
}

/// Whether the mod named `mod_name` is asked for.
pub fn mod_selected(cli: &Args, mod_name: &str) -> (selected: bool)
    ensures
        selected == selects(string_views(cli.mod_names@), unicode_lowercase(mod_name@)),
{
    let lower = to_lowercase(mod_name);
    names_select(&cli.mod_names, lower.as_str())
}

/// The fighters that a mod shows, in the order they were loaded.
pub open spec fn shown_fighters(fighter_names: Seq<Seq<char>>, is_mod: bool, fighters: Seq<LoadedFighter>) -> Seq<Fighter>
    decreases fighters.len(),
{
    if fighters.len() == 0 {
        Seq::empty()
    } else {
        let rest = shown_fighters(fighter_names, is_mod, fighters.drop_last());
        let lf = fighters.last();
        if fighter_shown(fighter_names, is_mod, unicode_lowercase(lf.cased_name@), lf.mod_type) {
            rest.push(lf.fighter)
        } else {
            rest
        }
    }
}

/// The fighters of a list of fighters of a mod.
pub open spec fn fighters_of(list: Seq<BrawlFighter>) -> Seq<Fighter> {
    list.map_values(|b: BrawlFighter| b.fighter)
}

proof fn lemma_fighters_of_multiset(s: Seq<BrawlFighter>, t: Seq<BrawlFighter>)
    requires
        s.to_multiset() == t.to_multiset(),
    ensures
        fighters_of(s).to_multiset() == fighters_of(t).to_multiset(),
    decreases s.len(),
{
    broadcast use vstd::seq_lib::group_to_multiset_ensures;

    if s.len() == 0 {
        assert(s.to_multiset().len() == 0);
        assert(t.len() == 0);
        assert(fighters_of(s) =~= Seq::empty());
        assert(fighters_of(t) =~= Seq::empty());
    } else {
        let x = s[0];
        assert(s.to_multiset().count(x) > 0);
        assert(t.contains(x));
        let j = choose|j: int| 0 <= j < t.len() && t[j] == x;
        assert(s.remove(0) =~= s.drop_first());
        lemma_fighters_of_multiset(s.drop_first(), t.remove(j));
        assert(fighters_of(s) =~= fighters_of(s.drop_first()).insert(0, x.fighter));
        assert(fighters_of(t) =~= fighters_of(t.remove(j)).insert(j, x.fighter));
    }
}

/// Whether `m` is the mod named `mod_name` with the fighters among `fighters` that it
/// shows under the options `cli`, sorted by name, each with its lookups built.
pub open spec fn mod_built(m: BrawlMod, mod_name: Seq<char>, cli: &Args, fighters: Seq<LoadedFighter>) -> bool {
    &&& m.name@ == mod_name
    &&& names_sorted(m.fighters@)
    &&& fighters_of(m.fighters@).to_multiset() == shown_fighters(
        string_views(cli.fighter_names@),
        unicode_lowercase(mod_name) != "brawl"@,
        fighters,
    ).to_multiset()
    &&& forall|i: int| 0 <= i < m.fighters.len() ==> lookups_built(#[trigger] &m.fighters@[i], mod_name)
}

/// Whether the `i`th loaded fighter is shown by the mod named `mod_name` but has a script
/// fragment at the offset of another script.
pub open spec fn shown_with_clash(mod_name: Seq<char>, cli: &Args, fighters: Seq<LoadedFighter>, i: int) -> bool {
    &&& 0 <= i < fighters.len()
    &&& fighter_shown(
        string_views(cli.fighter_names@),
        unicode_lowercase(mod_name) != "brawl"@,
        unicode_lowercase(fighters[i].cased_name@),
        fighters[i].mod_type,
    )
    &&& !fragments_unique(mod_name, &fighters[i].fighter)
}

impl BrawlMod {
    /// The mod named `mod_name` with the fighters it shows among those loaded for it,
    /// sorted by name; `None` where the mod is not asked for.
    pub fn new(mod_name: String, cli: &Args, fighters: Vec<LoadedFighter>) -> (loaded: Option<BrawlMod>)
        requires
            forall|i: int|
                0 <= i < fighters.len() && fighter_shown(
                    string_views(cli.fighter_names@),
                    unicode_lowercase(mod_name@) != "brawl"@,
                    unicode_lowercase((#[trigger] fighters@[i]).cased_name@),
                    fighters@[i].mod_type,
                ) ==> fragments_unique(mod_name@, &fighters@[i].fighter),
        ensures
            loaded is None <==> !selects(string_views(cli.mod_names@), unicode_lowercase(mod_name@)),
            loaded matches Some(m) ==> mod_built(m, mod_name@, cli, fighters@),
    {
        let lower_mod_name = to_lowercase(mod_name.as_str());
        if !names_select(&cli.mod_names, lower_mod_name.as_str()) {
            return None;
        }
        let is_mod = !str_eq(lower_mod_name.as_str(), "brawl");
        let ghost names = string_views(cli.fighter_names@);
        let mut built: Vec<BrawlFighter> = Vec::new();
        let mut rest = fighters;
        let ghost given = rest@;
        let ghost mut k: int = 0;
        while rest.len() > 0
            invariant
                0 <= k <= given.len(),
                rest@ == given.skip(k),
                names == string_views(cli.fighter_names@),
                fighters_of(built@) == shown_fighters(names, is_mod, given.take(k)),
                forall|i: int| 0 <= i < built.len() ==> lookups_built(#[trigger] &built@[i], mod_name@),
                is_mod == (unicode_lowercase(mod_name@) != "brawl"@),
                forall|i: int|
                    0 <= i < given.len() && fighter_shown(
                        names,
                        is_mod,
                        unicode_lowercase((#[trigger] given[i]).cased_name@),
                        given[i].mod_type,
                    ) ==> fragments_unique(mod_name@, &given[i].fighter),
            decreases rest.len(),
        {
            let ghost before_rest = rest@;
            let LoadedFighter { cased_name, mod_type, fighter } = rest.remove(0);
            proof {
                assert(before_rest[0] == given[k]);
                assert(rest@ =~= given.skip(k + 1));
                assert(given.take(k + 1).drop_last() =~= given.take(k));
                assert(given.take(k + 1).last() == given[k]);
            }
            if fighter_selected(cli, is_mod, cased_name.as_str(), &mod_type) {
                let ghost before = built@;
                let bf = BrawlFighter::new(mod_name.as_str(), fighter);
                built.push(bf);
                assert(fighters_of(built@) =~= fighters_of(before).push(bf.fighter));
            }
            proof {
                k = k + 1;
            }
        }
        assert(given.take(k) =~= given);
        let sorted = sort_by_names(built);
        proof {
            broadcast use vstd::seq_lib::group_to_multiset_ensures;

            lemma_fighters_of_multiset(sorted@, built@);
            assert forall|i: int| 0 <= i < sorted.len() implies lookups_built(#[trigger] &sorted@[i], mod_name@) by {
                assert(sorted@.to_multiset().count(sorted@[i]) > 0);
                assert(built@.contains(sorted@[i]));
            }
        }
        Some(BrawlMod { name: mod_name, fighters: sorted })
    }
}

impl BrawlMods {
    /// The mods, sorted by name.
    pub fn new(mods: Vec<BrawlMod>) -> (all: BrawlMods)
        ensures
            names_sorted(all.mods@),
            all.mods@.to_multiset() == mods@.to_multiset(),
    {
        BrawlMods { mods: sort_by_names(mods) }
    }
}

proof fn lemma_lookup_last(es: Entries, j: int)
    requires
        0 <= j < es.len(),
        forall|l: int| j < l < es.len() ==> (#[trigger] es[l]).0 != es[j].0,
    ensures
        lookup_of(es).contains_key(es[j].0),
        lookup_of(es)[es[j].0] == es[j].1,
    decreases es.len(),
{
    if j < es.len() - 1 {
        assert(es.last() == es[es.len() - 1]);
        lemma_lookup_last(es.drop_last(), j);
    }
}

proof fn lemma_fragment_entry_found(before: Entries, m: Seq<char>, f: Seq<char>, dir: Seq<char>, offsets: Seq<i32>, i: int)
    requires
        fragments_are_new(before, offsets),
        0 <= i < offsets.len(),
    ensures
        lookup_of(before + fragment_entries(m, f, dir, offsets)).contains_key(offsets[i]),
        lookup_of(before + fragment_entries(m, f, dir, offsets))[offsets[i]] == (
            fragment_name(offsets[i]),
            "/"@ + m + "/"@ + f + "/"@ + dir + "/"@ + fragment_name(offsets[i]) + ".html"@,
        ),
{
    let es = before + fragment_entries(m, f, dir, offsets);
    let j = before.len() + i;
    assert(es[j] == fragment_entries(m, f, dir, offsets)[i]);
    assert forall|l: int| j < l < es.len() implies (#[trigger] es[l]).0 != es[j].0 by {
        assert(es[l] == fragment_entries(m, f, dir, offsets)[l - before.len()]);
        assert(offsets[l - before.len()] != offsets[i]);
    }
    lemma_lookup_last(es, j);
}

/// Every script fragment of a fighter is found at its offset, in its own lookup or in the
/// common one: a fragment never shares an offset with another script, so the lookups give
/// each fragment the name and page of that fragment.
pub proof fn lemma_fragments_found(bf: &BrawlFighter, m: Seq<char>)
    requires
        lookups_built(bf, m),
        fragments_unique(m, &bf.fighter),
    ensures
        forall|i: int| #![trigger bf.fighter.scripts_fragment_fighter@[i]]
            0 <= i < bf.fighter.scripts_fragment_fighter.len() ==> {
                let o = bf.fighter.scripts_fragment_fighter@[i];
                &&& lookup_view(bf.script_lookup@).contains_key(o)
                &&& lookup_view(bf.script_lookup@)[o] == (
                    fragment_name(o),
                    "/"@ + m + "/"@ + bf.fighter.name@ + "/"@ + "scripts"@ + "/"@ + fragment_name(o) + ".html"@,
                )
            },
        forall|i: int| #![trigger bf.fighter.scripts_fragment_common@[i]]
            0 <= i < bf.fighter.scripts_fragment_common.len() ==> {
                let o = bf.fighter.scripts_fragment_common@[i];
                &&& lookup_view(bf.script_lookup_common@).contains_key(o)
                &&& lookup_view(bf.script_lookup_common@)[o] == (
                    fragment_name(o),
                    "/"@ + m + "/"@ + bf.fighter.name@ + "/"@ + "scripts_common"@ + "/"@ + fragment_name(o) + ".html"@,
                )
            },
{
    let f = &bf.fighter;
    assert forall|i: int| #![trigger f.scripts_fragment_fighter@[i]] 0 <= i < f.scripts_fragment_fighter.len() implies {
        let o = f.scripts_fragment_fighter@[i];
        &&& lookup_view(bf.script_lookup@).contains_key(o)
        &&& lookup_view(bf.script_lookup@)[o] == (
            fragment_name(o),
            "/"@ + m + "/"@ + f.name@ + "/"@ + "scripts"@ + "/"@ + fragment_name(o) + ".html"@,
        )
    } by {
        lemma_fragment_entry_found(fighter_entries(m, f), m, f.name@, "scripts"@, f.scripts_fragment_fighter@, i);
    }
    assert forall|i: int| #![trigger f.scripts_fragment_common@[i]] 0 <= i < f.scripts_fragment_common.len() implies {
        let o = f.scripts_fragment_common@[i];
        &&& lookup_view(bf.script_lookup_common@).contains_key(o)
        &&& lookup_view(bf.script_lookup_common@)[o] == (
            fragment_name(o),
            "/"@ + m + "/"@ + f.name@ + "/"@ + "scripts_common"@ + "/"@ + fragment_name(o) + ".html"@,
        )
    } by {
        lemma_fragment_entry_found(common_entries(m, f), m, f.name@, "scripts_common"@, f.scripts_fragment_common@, i);
    }
}

impl BrawlMod {
    /// Loads the mod named `mod_name` as `new` does, after checking that no fighter it shows
    /// has a script fragment at the offset of another script; where one does, fails with
    /// that fighter's name. `Ok(None)` where the mod is not asked for.
    pub fn load(mod_name: String, cli: &Args, fighters: Vec<LoadedFighter>) -> (loaded: Result<Option<BrawlMod>, String>)
        ensures
            !selects(string_views(cli.mod_names@), unicode_lowercase(mod_name@)) ==> loaded matches Ok(None),
            selects(string_views(cli.mod_names@), unicode_lowercase(mod_name@)) ==> {
                &&& loaded is Err <==> exists|i: int| shown_with_clash(mod_name@, cli, fighters@, i)
                &&& loaded matches Err(name) ==> exists|i: int|
                    shown_with_clash(mod_name@, cli, fighters@, i) && name@ == fighters@[i].fighter.name@
                &&& loaded matches Ok(m) ==> (m matches Some(m) && mod_built(m, mod_name@, cli, fighters@))
            },
    {
        if !mod_selected(cli, mod_name.as_str()) {
            return Ok(None);
        }
        let is_mod = is_mod_name(mod_name.as_str());
        let mut i: usize = 0;
        while i < fighters.len()
            invariant
                i <= fighters.len(),
                is_mod == (unicode_lowercase(mod_name@) != "brawl"@),
                selects(string_views(cli.mod_names@), unicode_lowercase(mod_name@)),
                forall|k: int| 0 <= k < i ==> !shown_with_clash(mod_name@, cli, fighters@, k),
            decreases fighters.len() - i,
        {
            let f = &fighters[i];
            if fighter_selected(cli, is_mod, f.cased_name.as_str(), &f.mod_type) && !fragments_are_unique(
                mod_name.as_str(),
                &f.fighter,
            ) {
                assert(shown_with_clash(mod_name@, cli, fighters@, i as int));
                return Err(f.fighter.name.clone());
            }
            i += 1;
        }
        assert forall|k: int|
            0 <= k < fighters@.len() && fighter_shown(
                string_views(cli.fighter_names@),
                unicode_lowercase(mod_name@) != "brawl"@,
                unicode_lowercase((#[trigger] fighters@[k]).cased_name@),
                fighters@[k].mod_type,
            ) implies fragments_unique(mod_name@, &fighters@[k].fighter) by {
            assert(!shown_with_clash(mod_name@, cli, fighters@, k));
        }
        Ok(BrawlMod::new(mod_name, cli, fighters))
    }
}

} // verus!
