//! The GIFs of the subactions: which subactions get one, where each goes, and the order in
//! which the renders are waited for, so that no more run at once than the machine has
//! threads for.

use vstd::prelude::*;
use crate::brawl_data::{BrawlFighter, BrawlMod, BrawlMods, SubactionInfo};
use crate::output::{OutDir, WEB_ROOT, pushed};

verus! {

/// A GIF being rendered, and the file it goes to once rendered.
pub struct GifWait {
    pub dir: OutDir,
    pub file_name: String,
}

/// Where a GIF goes, as plain values: its folder and its file's name.
pub open spec fn gif_view(g: GifWait) -> (Seq<char>, Seq<char>) {
    (g.dir.path@, g.file_name@)
}

impl GifWait {
    /// The path of the file that the rendered GIF is written to, from the generator's
    /// working folder.
    pub fn wait(&self) -> (path: String)
        ensures
            path@ == pushed(pushed(WEB_ROOT@, self.dir.path@), self.file_name@),
    {
        self.dir.file_path(self.file_name.as_str())
    }
}

/// The GIFs of a fighter's subactions, in the folder `dir`: one for each subaction that
/// has frames, named `{subaction}.gif`.
pub open spec fn subaction_gifs(dir: Seq<char>, subactions: Seq<SubactionInfo>) -> Seq<(Seq<char>, Seq<char>)>
    decreases subactions.len(),
{
    if subactions.len() == 0 {
        Seq::empty()
    } else {
        let s = subactions.last();
        subaction_gifs(dir, subactions.drop_last()) + if s.frame_count > 0 {
            seq![(dir, s.name@ + ".gif"@)]
        } else {
            Seq::empty()
        }
    }
}

/// The folder of the GIFs of fighter `f` of mod `m`.
pub open spec fn gif_dir(m: Seq<char>, f: Seq<char>) -> Seq<char> {
    m + "/"@ + f + "/subactions"@
}

/// The GIFs of the fighters of mod `m`, fighter by fighter.
pub open spec fn fighter_gifs(m: Seq<char>, fighters: Seq<BrawlFighter>) -> Seq<(Seq<char>, Seq<char>)>
    decreases fighters.len(),
{
    if fighters.len() == 0 {
        Seq::empty()
    } else {
        let f = fighters.last();
        fighter_gifs(m, fighters.drop_last()) + subaction_gifs(gif_dir(m, f.fighter.name@), f.fighter.subactions@)
    }
}

/// The GIFs of the mods, mod by mod.
pub open spec fn mod_gifs(mods: Seq<BrawlMod>) -> Seq<(Seq<char>, Seq<char>)>
    decreases mods.len(),
{
    if mods.len() == 0 {
        Seq::empty()
    } else {
        mod_gifs(mods.drop_last()) + fighter_gifs(mods.last().name@, mods.last().fighters@)
    }
}

/// Where each GIF goes, as plain values.
pub open spec fn gif_views(gifs: Seq<GifWait>) -> Seq<(Seq<char>, Seq<char>)> {
    gifs.map_values(|g: GifWait| gif_view(g))
}

fn push_gif(gifs: &mut Vec<GifWait>, dir: &str, name: &str)
    ensures
        gif_views(final(gifs)@) == gif_views(old(gifs)@).push((dir@, name@ + ".gif"@)),
{
    let mut file_name = String::from_str(name);
    file_name.append(".gif");
    let g = GifWait { dir: OutDir::new(dir), file_name };
    gifs.push(g);
    assert(gif_views(final(gifs)@) =~= gif_views(old(gifs)@).push((dir@, name@ + ".gif"@)));
}

/// The GIFs to render for the mods: one for each subaction that has frames, mod by mod and
/// fighter by fighter.
pub fn gif_jobs(mods: &BrawlMods) -> (gifs: Vec<GifWait>)
    ensures
        gif_views(gifs@) == mod_gifs(mods.mods@),
{
    let mut gifs: Vec<GifWait> = Vec::new();
    let mut i: usize = 0;
    while i < mods.mods.len()
        invariant
            i <= mods.mods.len(),
            gif_views(gifs@) == mod_gifs(mods.mods@.take(i as int)),
        decreases mods.mods.len() - i,
    {
        let m = &mods.mods[i];
        let ghost before_mod = gif_views(gifs@);
        let mut j: usize = 0;
        while j < m.fighters.len()
            invariant
                j <= m.fighters.len(),
                gif_views(gifs@) == before_mod + fighter_gifs(m.name@, m.fighters@.take(j as int)),
            decreases m.fighters.len() - j,
        {
            let f = &m.fighters[j].fighter;
            let mut dir = m.name.clone();
            dir.append("/");
            dir.append(f.name.as_str());
            dir.append("/subactions");
            assert(dir@ =~= gif_dir(m.name@, f.name@));
            let ghost before_fighter = gif_views(gifs@);
            let mut k: usize = 0;
            while k < f.subactions.len()
                invariant
                    k <= f.subactions.len(),
                    dir@ == gif_dir(m.name@, f.name@),
                    gif_views(gifs@) == before_fighter + subaction_gifs(dir@, f.subactions@.take(k as int)),
                decreases f.subactions.len() - k,
            {
                let s = &f.subactions[k];
                let ghost before = gif_views(gifs@);
                if s.frame_count > 0 {
                    push_gif(&mut gifs, dir.as_str(), s.name.as_str());
                }
                assert(f.subactions@.take(k + 1).drop_last() =~= f.subactions@.take(k as int));
                assert(gif_views(gifs@) =~= before_fighter + subaction_gifs(dir@, f.subactions@.take(k + 1)));
                k += 1;
            }
            assert(f.subactions@.take(k as int) =~= f.subactions@);
            assert(m.fighters@.take(j + 1).drop_last() =~= m.fighters@.take(j as int));
            assert(gif_views(gifs@) =~= before_mod + fighter_gifs(m.name@, m.fighters@.take(j + 1)));
            j += 1;
        }
        assert(m.fighters@.take(j as int) =~= m.fighters@);
        assert(mods.mods@.take(i + 1).drop_last() =~= mods.mods@.take(i as int));
        assert(gif_views(gifs@) =~= mod_gifs(mods.mods@.take(i + 1)));
        i += 1;
    }
    assert(mods.mods@.take(i as int) =~= mods.mods@);
    gifs
}

/// Renders started and not yet waited for, oldest first.
pub struct GifQueue<T> {
    pub pending: Vec<T>,
    /// How many renders may run at once.
    pub parallelism: usize,
}

/// What the queue holds after the renders `started`, in order, with at most `parallelism`
/// at once: which were waited for, in order, and which are still running.
pub open spec fn queue_after<T>(parallelism: nat, started: Seq<T>) -> (Seq<T>, Seq<T>)
    decreases started.len(),
{
    if started.len() == 0 {
        (Seq::empty(), Seq::empty())
    } else {
        let (waited, pending) = queue_after(parallelism, started.drop_last());
        let all = pending.push(started.last());
        if all.len() >= parallelism {
            (waited.push(all[0]), all.drop_first())
        } else {
            (waited, all)
        }
    }
}

impl<T> GifQueue<T> {
    /// Whether the queue keeps fewer renders running than it may.
    pub open spec fn well_formed(&self) -> bool {
        &&& self.parallelism >= 1
        &&& self.pending.len() < self.parallelism
    }

    /// An empty queue that lets `parallelism` renders run at once.
    pub fn new(parallelism: usize) -> (queue: GifQueue<T>)
        requires
            parallelism >= 1,
        ensures
            queue.well_formed(),
            queue.pending@ == Seq::<T>::empty(),
            queue.parallelism == parallelism,
    {
        GifQueue { pending: Vec::new(), parallelism }
    }

    /// Adds a started render; when as many run as may, returns the oldest, to be waited for.
    pub fn start(&mut self, gif: T) -> (done: Option<T>)
        requires
            old(self).well_formed(),
        ensures
            final(self).well_formed(),
            final(self).parallelism == old(self).parallelism,
            ({
                let all = old(self).pending@.push(gif);
                if all.len() >= old(self).parallelism {
                    done == Some(all[0]) && final(self).pending@ == all.drop_first()
                } else {
                    done is None && final(self).pending@ == all
                }
            }),
    {
        self.pending.push(gif);
        if self.pending.len() >= self.parallelism {
            Some(self.pending.remove(0))
        } else {
            None
        }
    }

    /// The renders still running, oldest first, to be waited for at the end.
    pub fn finish(self) -> (rest: Vec<T>)
        ensures
            rest@ == self.pending@,
    {
        self.pending
    }
}

/// Each render is waited for exactly once, in the order the renders started, and no more
/// renders run at once than the queue allows: after any renders, those waited for followed
/// by those still running are the renders started.
pub proof fn lemma_queue_keeps_order<T>(parallelism: nat, started: Seq<T>)
    requires
        parallelism >= 1,
    ensures
        queue_after(parallelism, started).0 + queue_after(parallelism, started).1 == started,
        queue_after(parallelism, started).1.len() < parallelism,
    decreases started.len(),
{
    if started.len() > 0 {
        lemma_queue_keeps_order(parallelism, started.drop_last());
        let (waited, pending) = queue_after(parallelism, started.drop_last());
        let all = pending.push(started.last());
        assert(started =~= started.drop_last().push(started.last()));
        if all.len() >= parallelism {
            assert(waited.push(all[0]) + all.drop_first() =~= waited + all);
        }
        assert(waited + all =~= (waited + pending).push(started.last()));
    }
}

} // verus!
