//! Navigation links of the website's pages, and their order.

use vstd::prelude::*;
use crate::assets::AssetPaths;
use crate::brawl_data::{BrawlMods, mod_links, mod_names};

verus! {

/// A link of a navigation bar: its text, its target and whether it is the page shown.
pub struct NavLink {
    pub name: String,
    pub link: String,
    pub current: bool,
}

/// A navigation link as plain values: text, target, and whether it is the page shown.
pub type LinkView = (Seq<char>, Seq<char>, bool);

/// The plain values of a link.
pub open spec fn link_view(l: NavLink) -> LinkView {
    (l.name@, l.link@, l.current)
}

/// The plain values of a list of links.
pub open spec fn link_views(list: Seq<NavLink>) -> Seq<LinkView> {
    list.map_values(|l: NavLink| link_view(l))
}

/// Whether `a` comes before `b` or equals it in the order of strings: the first character
/// where they differ decides, and a prefix comes first.
pub open spec fn lex_le(a: Seq<char>, b: Seq<char>) -> bool
    decreases a.len(),
{
    if a.len() == 0 {
        true
    } else if b.len() == 0 {
        false
    } else if a[0] != b[0] {
        (a[0] as int) < (b[0] as int)
    } else {
        lex_le(a.drop_first(), b.drop_first())
    }
}

/// Of two strings, one comes before the other or they are equal.
pub proof fn lemma_lex_total(a: Seq<char>, b: Seq<char>)
    ensures
        lex_le(a, b) || lex_le(b, a),
    decreases a.len(),
{
    if a.len() > 0 && b.len() > 0 {
        if a[0] == b[0] {
            lemma_lex_total(a.drop_first(), b.drop_first());
        } else {
            assert((a[0] as int) != (b[0] as int));
        }
    }
}

/// Every string comes before or equals itself.
pub proof fn lemma_lex_reflexive(a: Seq<char>)
    ensures
        lex_le(a, a),
    decreases a.len(),
{
    if a.len() > 0 {
        lemma_lex_reflexive(a.drop_first());
    }
}

/// The order of strings is transitive.
pub proof fn lemma_lex_transitive(a: Seq<char>, b: Seq<char>, c: Seq<char>)
    requires
        lex_le(a, b),
        lex_le(b, c),
    ensures
        lex_le(a, c),
    decreases a.len(),
{
    if a.len() > 0 && b.len() > 0 && c.len() > 0 && a[0] == b[0] && b[0] == c[0] {
        lemma_lex_transitive(a.drop_first(), b.drop_first(), c.drop_first());
    }
}

/// Compares two strings in the order of strings.
pub fn str_lex_le(a: &str, b: &str) -> (le: bool)
    ensures
        le == lex_le(a@, b@),
{
    let n = a.unicode_len();
    let m = b.unicode_len();
    let mut i: usize = 0;
    assert(a@.skip(0) =~= a@);
    assert(b@.skip(0) =~= b@);
    while i < n && i < m && a.get_char(i) == b.get_char(i)
        invariant
            n == a@.len(),
            m == b@.len(),
            i <= n,
            i <= m,
            lex_le(a@, b@) == lex_le(a@.skip(i as int), b@.skip(i as int)),
        decreases n - i,
    {
        assert(a@.skip(i as int).drop_first() =~= a@.skip(i + 1));
        assert(b@.skip(i as int).drop_first() =~= b@.skip(i + 1));
        i += 1;
    }
    if i == n {
        true
    } else if i == m {
        false
    } else {
        let x = a.get_char(i);
        let y = b.get_char(i);
        assert(a@.skip(i as int)[0] == x);
        assert(b@.skip(i as int)[0] == y);
        (x as u32) < (y as u32)
    }
}

/// Whether the links come in the order of their names.
pub open spec fn sorted_by_name(list: Seq<LinkView>) -> bool {
    forall|i: int, j: int| 0 <= i < j < list.len() ==> lex_le(#[trigger] list[i].0, #[trigger] list[j].0)
}

proof fn lemma_drop_first_multiset<A>(s: Seq<A>)
    requires
        s.len() > 0,
    ensures
        s.to_multiset() =~= s.drop_first().to_multiset().insert(s[0]),
{
    broadcast use vstd::seq_lib::group_to_multiset_ensures;
    broadcast use vstd::multiset::group_multiset_axioms;

    assert(s.remove(0) =~= s.drop_first());
    assert(s.contains(s[0]));
    assert(s.drop_first().to_multiset() =~= s.to_multiset().remove(s[0]));
}

proof fn lemma_insert_multiset<A>(s: Seq<A>, p: int, x: A)
    requires
        0 <= p <= s.len(),
    ensures
        s.insert(p, x).to_multiset() =~= s.to_multiset().insert(x),
{
    broadcast use vstd::seq_lib::group_to_multiset_ensures;

    let t = s.insert(p, x);
    assert(t.remove(p) =~= s);
    assert(t[p] == x);
    assert(t.contains(x));
}

/// Sorts links by name, keeping links of equal names in their order, as `sort_by_key` on
/// the names does.
pub fn sort_by_name(list: Vec<NavLink>) -> (sorted: Vec<NavLink>)
    ensures
        sorted_by_name(link_views(sorted@)),
        link_views(sorted@).to_multiset() == link_views(list@).to_multiset(),
{
    let mut sorted: Vec<NavLink> = Vec::new();
    let mut rest = list;
    let ghost given = link_views(rest@);
    broadcast use vstd::seq_lib::group_to_multiset_ensures;

    while rest.len() > 0
        invariant
            sorted_by_name(link_views(sorted@)),
            link_views(sorted@).to_multiset().add(link_views(rest@).to_multiset())
                == given.to_multiset(),
        decreases rest.len(),
    {
        let ghost before_rest = link_views(rest@);
        let x = rest.remove(0);
        let ghost xv = link_view(x);
        assert(before_rest =~= seq![xv] + link_views(rest@));
        assert(before_rest.remove(0) =~= link_views(rest@));
        proof {
            lemma_drop_first_multiset(before_rest);
            assert(before_rest.drop_first() =~= link_views(rest@));
        }
        let mut p: usize = 0;
        while p < sorted.len() && str_lex_le(sorted[p].name.as_str(), x.name.as_str())
            invariant
                p <= sorted.len(),
                forall|k: int| 0 <= k < p ==> lex_le(#[trigger] sorted@[k].name@, x.name@),
            decreases sorted.len() - p,
        {
            p += 1;
        }
        let ghost before = link_views(sorted@);
        proof {
            if p < sorted.len() {
                lemma_lex_total(sorted@[p as int].name@, x.name@);
            }
            assert forall|i: int, j: int| 0 <= i < j < before.insert(p as int, xv).len() implies lex_le(
                #[trigger] before.insert(p as int, xv)[i].0,
                #[trigger] before.insert(p as int, xv)[j].0,
            ) by {
                let t = before.insert(p as int, xv);
                if j < p {
                    assert(t[i] == before[i] && t[j] == before[j]);
                } else if j == p {
                    assert(t[i] == before[i]);
                    assert(before[i].0 == sorted@[i].name@);
                } else if i < p {
                    assert(t[i] == before[i] && t[j] == before[j - 1]);
                } else if i == p {
                    assert(t[j] == before[j - 1]);
                    if j - 1 > p {
                        assert(lex_le(before[p as int].0, before[j - 1].0));
                    } else {
                        lemma_lex_reflexive(before[p as int].0);
                    }
                    lemma_lex_transitive(xv.0, before[p as int].0, before[j - 1].0);
                } else {
                    assert(t[i] == before[i - 1] && t[j] == before[j - 1]);
                }
            }
            lemma_insert_multiset(before, p as int, xv);
        }
        sorted.insert(p, x);
        assert(link_views(sorted@) =~= before.insert(p as int, xv));
    }
    assert(link_views(rest@) =~= Seq::<LinkView>::empty());
    sorted
}

/// A value that lists sort by its name.
pub trait Named {
    spec fn name_view(&self) -> Seq<char>;

    fn name_str(&self) -> (name: &str)
        ensures
            name@ == self.name_view(),
    ;
}

/// Whether the values come in the order of their names.
pub open spec fn names_sorted<T: Named>(list: Seq<T>) -> bool {
    forall|i: int, j: int|
        0 <= i < j < list.len() ==> lex_le(#[trigger] list[i].name_view(), #[trigger] list[j].name_view())
}

/// Sorts values by name, keeping values of equal names in their order, as `sort_by_key`
/// on the names does.
pub fn sort_by_names<T: Named>(list: Vec<T>) -> (sorted: Vec<T>)
    ensures
        names_sorted(sorted@),
        sorted@.to_multiset() == list@.to_multiset(),
{
    let mut sorted: Vec<T> = Vec::new();
    let mut rest = list;
    let ghost given = rest@;
    broadcast use vstd::seq_lib::group_to_multiset_ensures;

    while rest.len() > 0
        invariant
            names_sorted(sorted@),
            sorted@.to_multiset().add(rest@.to_multiset()) == given.to_multiset(),
        decreases rest.len(),
    {
        let ghost before_rest = rest@;
        let x = rest.remove(0);
        proof {
            lemma_drop_first_multiset(before_rest);
            assert(before_rest.drop_first() =~= rest@);
        }
        let mut p: usize = 0;
        while p < sorted.len() && str_lex_le(sorted[p].name_str(), x.name_str())
            invariant
                p <= sorted.len(),
                forall|k: int| 0 <= k < p ==> lex_le(#[trigger] sorted@[k].name_view(), x.name_view()),
            decreases sorted.len() - p,
        {
            p += 1;
        }
        let ghost before = sorted@;
        proof {
            if p < sorted.len() {
                lemma_lex_total(sorted@[p as int].name_view(), x.name_view());
            }
            assert forall|i: int, j: int| 0 <= i < j < before.insert(p as int, x).len() implies lex_le(
                #[trigger] before.insert(p as int, x)[i].name_view(),
                #[trigger] before.insert(p as int, x)[j].name_view(),
            ) by {
                let t = before.insert(p as int, x);
                if j < p {
                    assert(t[i] == before[i] && t[j] == before[j]);
                } else if j == p {
                    assert(t[i] == before[i]);
                } else if i < p {
                    assert(t[i] == before[i] && t[j] == before[j - 1]);
                } else if i == p {
                    assert(t[j] == before[j - 1]);
                    if j - 1 > p {
                        assert(lex_le(before[p as int].name_view(), before[j - 1].name_view()));
                    } else {
                        lemma_lex_reflexive(before[p as int].name_view());
                    }
                    lemma_lex_transitive(x.name_view(), before[p as int].name_view(), before[j - 1].name_view());
                } else {
                    assert(t[i] == before[i - 1] && t[j] == before[j - 1]);
                }
            }
            lemma_insert_multiset(before, p as int, x);
        }
        sorted.insert(p, x);
        assert(sorted@ =~= before.insert(p as int, x));
    }
    assert(rest@ =~= Seq::<T>::empty());
    sorted
}

/// The title of the page of a mod's fighters.
pub fn mod_page_title(mod_name: &str) -> (title: String)
    ensures
        title@ == mod_name@ + " Fighters"@,
{
    let mut title = String::from_str(mod_name);
    title.append(" Fighters");
    title
}

/// The title of a fighter's own page.
pub fn fighter_title(mod_name: &str, fighter: &str) -> (title: String)
    ensures
        title@ == mod_name@ + " - "@ + fighter@,
{
    let mut title = String::from_str(mod_name);
    title.append(" - ");
    title.append(fighter);
    title
}

/// The title of one of a fighter's pages, `page` naming it (`Attributes`, `Actions`,
/// `Subactions`, `Subroutines`, `Variables`).
pub fn fighter_page_title(mod_name: &str, fighter: &str, page: &str) -> (title: String)
    ensures
        title@ == mod_name@ + " - "@ + fighter@ + " - "@ + page@,
{
    let mut title = fighter_title(mod_name, fighter);
    title.append(" - ");
    title.append(page);
    title
}

/// The title of the page of a fighter's action.
pub fn action_page_title(mod_name: &str, fighter: &str, action: &str) -> (title: String)
    ensures
        title@ == mod_name@ + " - "@ + fighter@ + " - Action - "@ + action@,
{
    let mut title = fighter_title(mod_name, fighter);
    title.append(" - Action - ");
    title.append(action);
    title
}

/// The page shown for an address with no page: the mod bar, with no mod marked.
pub struct ErrorPage<'a> {
    pub assets: &'a AssetPaths,
    pub mod_links: Vec<NavLink>,
}

impl<'a> ErrorPage<'a> {
    /// The error page of the website of `brawl_mods`.
    pub fn new(brawl_mods: &BrawlMods, assets: &'a AssetPaths) -> (page: ErrorPage<'a>)
        ensures
            page.assets == assets,
            link_views(page.mod_links@) == mod_links(mod_names(brawl_mods), Seq::empty()),
    {
        let links = brawl_mods.gen_mod_links(String::new());
        ErrorPage { assets, mod_links: links }
    }
}

} // verus!
