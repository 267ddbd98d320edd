//! The per-frame facts of a subaction page: frame buttons, the frame ranges in which a
//! state holds (auto cancel, invincibility, intangibility, active hitboxes) and the
//! frame lists of direction reversals and hitbox rehits.

use vstd::prelude::*;
use crate::text::{decimal, join, push_char, string_views, u64_string, write_decimal};

verus! {

/// A range of frames as the page prints it: `a` alone, or `a-b`.
pub open spec fn range_text(start: nat, end: nat) -> Seq<char> {
    if start == end {
        decimal(start)
    } else {
        decimal(start) + "-"@ + decimal(end)
    }
}

/// Formats the frame range from `start` to `end`.
pub fn range_string(start: usize, end: usize) -> (s: String)
    ensures
        s@ == range_text(start as nat, end as nat),
{
    let mut s = String::new();
    write_decimal(&mut s, start as u64);
    if start != end {
        push_char(&mut s, '-');
        write_decimal(&mut s, end as u64);
    }
    proof {
        reveal_strlit("-");
    }
    assert(s@ =~= range_text(start as nat, end as nat));
    s
}

/// A segment of frames: its first frame and the frame after its last, counted from 0.
pub type Segment = (nat, nat);

/// The segments of frames that a pass over the frames marks: a segment opens at a frame
/// where `open` holds while none is open, and it closes before the first frame after that
/// where `close` holds (checked after `open` on each frame). Gives the closed segments in
/// order, and the first frame of the segment still open at the end, if one is.
pub open spec fn segments(open: Seq<bool>, close: Seq<bool>) -> (Seq<Segment>, Option<nat>)
    decreases open.len(),
{
    if open.len() == 0 {
        (Seq::empty(), None)
    } else {
        let i = (open.len() - 1) as nat;
        let (closed, pending) = segments(open.drop_last(), close.take(i as int));
        let pending = if open[i as int] && pending is None {
            Some(i)
        } else {
            pending
        };
        if close[i as int] && pending is Some {
            (closed.push((pending->0, i)), None)
        } else {
            (closed, pending)
        }
    }
}

/// The segments of a pass over `n` frames, the one still open running to the last frame.
pub open spec fn all_segments(open: Seq<bool>, close: Seq<bool>) -> Seq<Segment> {
    let (closed, pending) = segments(open, close);
    match pending {
        Some(first) => closed.push((first, open.len())),
        None => closed,
    }
}

/// A list of segments as the page prints it: their ranges of 1-based frames, joined by `", "`.
pub open spec fn segments_text(segs: Seq<Segment>) -> Seq<char> {
    join(segs.map_values(|seg: Segment| range_text(seg.0 + 1, seg.1)), ", "@)
}

/// The segments of a list, as plain numbers.
pub open spec fn segment_views(segs: Seq<(usize, usize)>) -> Seq<Segment> {
    segs.map_values(|seg: (usize, usize)| (seg.0 as nat, seg.1 as nat))
}

/// Whether no frame both opens and closes a segment.
pub open spec fn exclusive(open: Seq<bool>, close: Seq<bool>) -> bool {
    forall|k: int| 0 <= k < open.len() ==> !(#[trigger] open[k] && close[k])
}

/// Marks the segments of frames that open where `open` holds and close where `close` holds.
pub fn find_segments(open: &Vec<bool>, close: &Vec<bool>) -> (found: (
    Vec<(usize, usize)>,
    Option<usize>,
))
    requires
        open.len() == close.len(),
        exclusive(open@, close@),
    ensures
        segment_views(found.0@) == segments(open@, close@).0,
        found.1 matches Some(first) ==> segments(open@, close@).1 == Some(first as nat),
        found.1 is None ==> segments(open@, close@).1 is None,
        forall|k: int| 0 <= k < found.0@.len() ==> (#[trigger] found.0@[k]).0 < found.0@[k].1 <= open.len(),
        found.1 matches Some(first) ==> first < open.len(),
{
    let mut closed: Vec<(usize, usize)> = Vec::new();
    let mut pending: Option<usize> = None;
    let mut i: usize = 0;
    while i < open.len()
        invariant
            open.len() == close.len(),
            exclusive(open@, close@),
            i <= open.len(),
            segment_views(closed@) == segments(open@.take(i as int), close@.take(i as int)).0,
            pending matches Some(first) ==> segments(open@.take(i as int), close@.take(i as int)).1
                == Some(first as nat) && first < i,
            pending is None ==> segments(open@.take(i as int), close@.take(i as int)).1 is None,
            forall|k: int| 0 <= k < closed@.len() ==> (#[trigger] closed@[k]).0 < closed@[k].1 <= i,
        decreases open.len() - i,
    {
        proof {
            assert(open@.take(i + 1).drop_last() =~= open@.take(i as int));
            assert(close@.take(i + 1).take(i as int) =~= close@.take(i as int));
        }
        if open[i] && pending.is_none() {
            pending = Some(i);
        }
        if close[i] {
            if let Some(first) = pending {
                let ghost before = closed@;
                closed.push((first, i));
                assert(segment_views(closed@) =~= segment_views(before).push((first as nat, i as nat)));
                pending = None;
            }
        }
        i += 1;
    }
    assert(open@.take(open.len() as int) =~= open@);
    assert(close@.take(close.len() as int) =~= close@);
    (closed, pending)
}

/// Prints segments as `", "`-separated ranges of 1-based frames.
pub fn segments_string(segs: &Vec<(usize, usize)>) -> (s: String)
    requires
        forall|k: int| 0 <= k < segs@.len() ==> (#[trigger] segs@[k]).0 < segs@[k].1,
    ensures
        s@ == segments_text(segment_views(segs@)),
{
    let ghost items = segment_views(segs@).map_values(
        |seg: Segment| range_text(seg.0 + 1, seg.1),
    );
    let mut s = String::new();
    let mut i: usize = 0;
    while i < segs.len()
        invariant
            forall|k: int| 0 <= k < segs@.len() ==> (#[trigger] segs@[k]).0 < segs@[k].1,
            items == segment_views(segs@).map_values(|seg: Segment| range_text(seg.0 + 1, seg.1)),
            i <= segs.len(),
            s@ == join(items.take(i as int), ", "@),
        decreases segs.len() - i,
    {
        let (first, end) = segs[i];
        if i != 0 {
            s.append(", ");
        }
        let item = range_string(first + 1, end);
        s.append(item.as_str());
        assert(items[i as int] == range_text(first as nat + 1, end as nat));
        assert(items.take(i + 1).drop_last() =~= items.take(i as int));
        i += 1;
    }
    assert(items.take(segs.len() as int) =~= items);
    s
}

/// The frames, 1-based, at which a state holds in maximal stretches: a stretch opens on a
/// frame where `open` holds and ends before the next frame where `close` holds; a stretch
/// still open at the end runs to the last frame.
pub fn segment_ranges(open: &Vec<bool>, close: &Vec<bool>) -> (s: String)
    requires
        open.len() == close.len(),
        exclusive(open@, close@),
    ensures
        s@ == segments_text(all_segments(open@, close@)),
{
    let (mut segs, pending) = find_segments(open, close);
    if let Some(first) = pending {
        let ghost before = segs@;
        segs.push((first, open.len()));
        assert(segment_views(segs@) =~= segment_views(before).push((first as nat, open.len() as nat)));
    }
    segments_string(&segs)
}

/// The negation of each flag.
pub open spec fn negate(flags: Seq<bool>) -> Seq<bool> {
    flags.map_values(|b: bool| !b)
}

/// Negates each flag.
pub fn negated(flags: &Vec<bool>) -> (out: Vec<bool>)
    ensures
        out@ == negate(flags@),
{
    let mut out: Vec<bool> = Vec::new();
    let mut i: usize = 0;
    while i < flags.len()
        invariant
            i <= flags.len(),
            out@ =~= negate(flags@).take(i as int),
        decreases flags.len() - i,
    {
        out.push(!flags[i]);
        i += 1;
    }
    assert(negate(flags@).take(flags.len() as int) =~= negate(flags@));
    out
}

/// The frames where `flags` holds, in maximal stretches: used for fully invincible,
/// fully intangible and hitboxes-active frames.
pub fn flag_ranges(flags: &Vec<bool>) -> (s: String)
    ensures
        s@ == segments_text(all_segments(flags@, negate(flags@))),
{
    let off = negated(flags);
    assert(exclusive(flags@, off@));
    segment_ranges(flags, &off)
}

/// Whether some flag holds while not all do: a frame where only some hurtboxes are in a state.
pub open spec fn some_not_all(all: Seq<bool>, any: Seq<bool>) -> Seq<bool> {
    Seq::new(all.len(), |i: int| !all[i] && any[i])
}

/// The frames where some but not all hurtboxes are in a state: a stretch opens on a frame
/// where some but not all are, and runs until a frame where none is.
pub fn partial_ranges(all: &Vec<bool>, any: &Vec<bool>) -> (s: String)
    requires
        all.len() == any.len(),
    ensures
        s@ == segments_text(all_segments(some_not_all(all@, any@), negate(any@))),
{
    let mut open: Vec<bool> = Vec::new();
    let mut i: usize = 0;
    while i < all.len()
        invariant
            all.len() == any.len(),
            i <= all.len(),
            open@ =~= some_not_all(all@, any@).take(i as int),
        decreases all.len() - i,
    {
        open.push(!all[i] && any[i]);
        i += 1;
    }
    assert(some_not_all(all@, any@).take(all.len() as int) =~= some_not_all(all@, any@));
    let none = negated(any);
    assert(exclusive(open@, none@));
    segment_ranges(&open, &none)
}

/// The auto cancel window: the stretches of frames without landing lag that end in landing
/// lag, and a last stretch without landing lag that runs to the end unless it is the whole
/// subaction.
pub open spec fn auto_cancel_segments(landing_lag: Seq<bool>) -> Seq<Segment> {
    let (closed, pending) = segments(negate(landing_lag), landing_lag);
    match pending {
        Some(first) => if first != 0 {
            closed.push((first, landing_lag.len()))
        } else {
            closed
        },
        None => closed,
    }
}

/// The frames, 1-based, during which landing auto cancels.
pub fn auto_cancel_window(landing_lag: &Vec<bool>) -> (s: String)
    ensures
        s@ == segments_text(auto_cancel_segments(landing_lag@)),
{
    let off = negated(landing_lag);
    assert(exclusive(off@, landing_lag@));
    let (mut segs, pending) = find_segments(&off, landing_lag);
    if let Some(first) = pending {
        if first != 0 {
            let ghost before = segs@;
            segs.push((first, landing_lag.len()));
            assert(segment_views(segs@) =~= segment_views(before).push(
                (first as nat, landing_lag.len() as nat),
            ));
        }
    }
    segments_string(&segs)
}


/// A button of the frame bar: its 1-based frame number and its style class.
pub struct FrameButton {
    pub index: usize,
    pub class: String,
}

/// The style class of the button of the 1-based frame `index`: frames with hitboxes first,
/// then frames after the subaction can be interrupted.
pub open spec fn frame_button_class(has_hitboxes: bool, index: nat, iasa: Option<usize>) -> Seq<
    char,
> {
    if has_hitboxes {
        "hitbox-frame-button"@
    } else if iasa matches Some(first) && index > first {
        "iasa-frame-button"@
    } else {
        "standard-frame-button"@
    }
}

/// The buttons of the frame bar, one per frame.
pub fn frame_buttons(has_hitboxes: &Vec<bool>, iasa: Option<usize>) -> (buttons: Vec<FrameButton>)
    ensures
        buttons@.len() == has_hitboxes@.len(),
        forall|i: int|
            0 <= i < buttons@.len() ==> (#[trigger] buttons@[i]).index == i + 1
                && buttons@[i].class@ == frame_button_class(has_hitboxes@[i], (i + 1) as nat, iasa),
{
    let mut buttons: Vec<FrameButton> = Vec::new();
    let mut i: usize = 0;
    while i < has_hitboxes.len()
        invariant
            i <= has_hitboxes.len(),
            buttons@.len() == i,
            forall|k: int|
                0 <= k < i ==> (#[trigger] buttons@[k]).index == k + 1 && buttons@[k].class@
                    == frame_button_class(has_hitboxes@[k], (k + 1) as nat, iasa),
        decreases has_hitboxes.len() - i,
    {
        let index = i + 1;
        let class = if has_hitboxes[i] {
            String::from_str("hitbox-frame-button")
        } else if match iasa {
            Some(first) => index > first,
            None => false,
        } {
            String::from_str("iasa-frame-button")
        } else {
            String::from_str("standard-frame-button")
        };
        buttons.push(FrameButton { index, class });
        i += 1;
    }
    buttons
}

/// The 1-based numbers of the frames where a flag holds, in order, as text.
pub open spec fn marked_frames(flags: Seq<bool>) -> Seq<Seq<char>>
    decreases flags.len(),
{
    if flags.len() == 0 {
        Seq::empty()
    } else if flags.last() {
        marked_frames(flags.drop_last()).push(decimal(flags.len()))
    } else {
        marked_frames(flags.drop_last())
    }
}

/// Lists the 1-based numbers of the frames where a flag holds, separated by `sep`.
pub fn frame_list(flags: &Vec<bool>, sep: &str) -> (s: String)
    ensures
        s@ == join(marked_frames(flags@), sep@),
{
    let mut items: Vec<String> = Vec::new();
    let mut i: usize = 0;
    while i < flags.len()
        invariant
            i <= flags.len(),
            string_views(items@) == marked_frames(flags@.take(i as int)),
        decreases flags.len() - i,
    {
        assert(flags@.take(i + 1).drop_last() =~= flags@.take(i as int));
        if flags[i] {
            let item = u64_string((i + 1) as u64);
            let ghost before = items@;
            items.push(item);
            assert(string_views(items@) =~= string_views(before).push(decimal((i + 1) as nat)));
        }
        i += 1;
    }
    assert(flags@.take(flags.len() as int) =~= flags@);
    crate::text::join_strings(&items, sep)
}

/// Whether a flag holds on some frame.
pub fn any_flag(flags: &Vec<bool>) -> (found: bool)
    ensures
        found == exists|i: int| 0 <= i < flags@.len() && flags@[i],
{
    let mut i: usize = 0;
    while i < flags.len()
        invariant
            i <= flags.len(),
            forall|k: int| 0 <= k < i ==> !flags@[k],
        decreases flags.len() - i,
    {
        if flags[i] {
            return true;
        }
        i += 1;
    }
    false
}

/// The text of the IASA attribute: the 1-based first interruptible frame, or `None`.
pub open spec fn iasa_text(iasa: Option<usize>) -> Seq<char> {
    match iasa {
        Some(first) => decimal((first + 1) as nat),
        None => "None"@,
    }
}

/// Formats the first frame on which the subaction can be interrupted.
pub fn iasa_string(iasa: Option<usize>) -> (s: String)
    requires
        iasa matches Some(first) ==> first < usize::MAX,
    ensures
        s@ == iasa_text(iasa),
{
    match iasa {
        Some(first) => u64_string((first + 1) as u64),
        None => String::from_str("None"),
    }
}

/// The per-frame facts of a subaction that its page summarizes, one flag per frame.
pub struct SubactionFrames {
    /// Frames with at least one hitbox.
    pub has_hitboxes: Vec<bool>,
    /// Frames on which landing takes landing lag.
    pub landing_lag: Vec<bool>,
    /// Frames on which every hurtbox is invincible.
    pub all_invincible: Vec<bool>,
    /// Frames on which some hurtbox is invincible.
    pub any_invincible: Vec<bool>,
    /// Frames on which every hurtbox is intangible.
    pub all_intangible: Vec<bool>,
    /// Frames on which some hurtbox is intangible.
    pub any_intangible: Vec<bool>,
    /// Frames on which the fighter turns around.
    pub reverse_direction: Vec<bool>,
    /// For each of the ten hitbox sets, the frames on which the set may hit again.
    pub rehit_sets: Vec<Vec<bool>>,
    /// The 0-based frame after which the subaction can be interrupted, if any.
    pub iasa: Option<usize>,
}

impl SubactionFrames {
    /// The number of frames.
    pub open spec fn frame_count(&self) -> nat {
        self.has_hitboxes@.len()
    }

    /// Every list has one flag per frame and there are ten hitbox sets.
    pub open spec fn well_formed(&self) -> bool {
        let n = self.has_hitboxes@.len();
        &&& self.landing_lag@.len() == n
        &&& self.all_invincible@.len() == n
        &&& self.any_invincible@.len() == n
        &&& self.all_intangible@.len() == n
        &&& self.any_intangible@.len() == n
        &&& self.reverse_direction@.len() == n
        &&& self.rehit_sets@.len() == 10
        &&& forall|s: int| 0 <= s < 10 ==> (#[trigger] self.rehit_sets@[s])@.len() == n
        &&& self.iasa matches Some(first) ==> first < usize::MAX
    }
}

/// The texts that a subaction page derives from the frames.
pub struct FrameSummary {
    pub iasa: String,
    pub auto_cancel: String,
    pub invincible: String,
    pub intangible: String,
    pub partial_invincible: String,
    pub partial_intangible: String,
    pub reverse_direction: String,
    pub hitboxes_active: String,
}

/// Summarizes the frames of a subaction.
pub fn summarize_frames(frames: &SubactionFrames) -> (summary: FrameSummary)
    requires
        frames.well_formed(),
    ensures
        summary.iasa@ == iasa_text(frames.iasa),
        summary.auto_cancel@ == segments_text(auto_cancel_segments(frames.landing_lag@)),
        summary.invincible@ == segments_text(
            all_segments(frames.all_invincible@, negate(frames.all_invincible@)),
        ),
        summary.intangible@ == segments_text(
            all_segments(frames.all_intangible@, negate(frames.all_intangible@)),
        ),
        summary.partial_invincible@ == segments_text(
            all_segments(
                some_not_all(frames.all_invincible@, frames.any_invincible@),
                negate(frames.any_invincible@),
            ),
        ),
        summary.partial_intangible@ == segments_text(
            all_segments(
                some_not_all(frames.all_intangible@, frames.any_intangible@),
                negate(frames.any_intangible@),
            ),
        ),
        summary.reverse_direction@ == join(marked_frames(frames.reverse_direction@), ", "@),
        summary.hitboxes_active@ == segments_text(
            all_segments(frames.has_hitboxes@, negate(frames.has_hitboxes@)),
        ),
{
    FrameSummary {
        iasa: iasa_string(frames.iasa),
        auto_cancel: auto_cancel_window(&frames.landing_lag),
        invincible: flag_ranges(&frames.all_invincible),
        intangible: flag_ranges(&frames.all_intangible),
        partial_invincible: partial_ranges(&frames.all_invincible, &frames.any_invincible),
        partial_intangible: partial_ranges(&frames.all_intangible, &frames.any_intangible),
        reverse_direction: frame_list(&frames.reverse_direction, ", "),
        hitboxes_active: flag_ranges(&frames.has_hitboxes),
    }
}

} // verus!
