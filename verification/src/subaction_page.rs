//! The attribute table, the short description and the hitbox table outline of a
//! subaction page, from the per-frame summary and the values that the page shows.

use vstd::prelude::*;
use vstd::utf8::encode_utf8;
use crate::frames::{FrameSummary, SubactionFrames, marked_frames, frame_list, any_flag};
use crate::text::{decimal, decimal_int, hex, join, push_char, str_eq, string_views, write_decimal, write_decimal_i64, write_hex};

verus! {

/// One row of the attribute table: a name (HTML) and its value.
pub struct Attribute {
    pub name: String,
    pub value: String,
}

/// The name and value of each attribute.
pub open spec fn attribute_views(list: Seq<Attribute>) -> Seq<(Seq<char>, Seq<char>)> {
    list.map_values(|a: Attribute| (a.name@, a.value@))
}

/// `item` when `value` is not empty, else nothing.
pub open spec fn when_shown(value: Seq<char>, item: Seq<(Seq<char>, Seq<char>)>) -> Seq<
    (Seq<char>, Seq<char>),
> {
    if value.len() == 0 {
        Seq::empty()
    } else {
        item
    }
}

/// The name of the attribute that lists the frames on which hitbox set `set` may hit again.
pub open spec fn rehit_name(set: nat) -> Seq<char> {
    "<abbr title=\"All hitboxes within hitbox set "@ + decimal(set)
        + " can hit the same enemy again on these frames.\">Hitbox set "@ + decimal(set)
        + " hits</abbr>"@
}

/// One attribute per hitbox set among the first `count` that may hit again on some frame,
/// listing those frames.
pub open spec fn rehit_attributes(sets: Seq<Seq<bool>>, count: nat) -> Seq<(Seq<char>, Seq<char>)>
    decreases count,
{
    if count == 0 {
        Seq::empty()
    } else {
        let set = (count - 1) as nat;
        let before = rehit_attributes(sets, set);
        if exists|i: int| 0 <= i < sets[set as int].len() && sets[set as int][i] {
            before.push((rehit_name(set), join(marked_frames(sets[set as int]), ", "@)))
        } else {
            before
        }
    }
}

/// The attribute table of a subaction page, in the order the page shows it.
pub open spec fn attribute_list(
    summary_iasa: Seq<char>,
    auto_cancel: Seq<char>,
    auto_cancel_lag: int,
    landing_lag: Option<(Seq<char>, nat)>,
    invincible: Seq<char>,
    intangible: Seq<char>,
    partial_invincible: Seq<char>,
    partial_intangible: Seq<char>,
    reverse_direction: Seq<char>,
    hitboxes_active: Seq<char>,
    rehit_sets: Seq<Seq<bool>>,
    index: nat,
) -> Seq<(Seq<char>, Seq<char>)> {
    seq![(
        "<abbr title=\"Interruptible As Soon As. The first frame the subaction can be interrupted with another subaction.\">IASA</abbr>"@,
        summary_iasa,
    )] + when_shown(
        auto_cancel,
        seq![
            (
                "<abbr title=\"The frames during which landing will auto cancel.\">Auto Cancel Window</abbr>"@,
                auto_cancel,
            ),
            (
                "<abbr title=\"The amount of lag taken when auto cancelling. This is the same amount as when landing outside of an attack\">Auto Cancel Lag</abbr>"@,
                decimal_int(auto_cancel_lag),
            ),
        ],
    ) + match landing_lag {
        Some((lag, l_cancel)) => seq![
            (
                "<abbr title=\"Number of frames of landing lag without l-cancelling\">Landing Lag</abbr>"@,
                lag,
            ),
            (
                "<abbr title=\"Number of frames of landing lag with l-cancelling. This is half of the regular landing lag, rounded down.\">Landing Lag (L-Cancel)</abbr>"@,
                decimal(l_cancel),
            ),
        ],
        None => Seq::empty(),
    } + when_shown(
        invincible,
        seq![(
            "<abbr title=\"Frames where all of the characters hurtboxes are invincible.\">Fully Invincible</abbr>"@,
            invincible,
        )],
    ) + when_shown(
        intangible,
        seq![(
            "<abbr title=\"Frames where all of the characters hurtboxes are intangible.\">Fully Intangible</abbr>"@,
            intangible,
        )],
    ) + when_shown(
        partial_invincible,
        seq![(
            "<abbr title=\"Frames where some of the characters hurtboxes are invincible and some are vulnerable.\">Partially Invincible</abbr>"@,
            partial_invincible,
        )],
    ) + when_shown(
        partial_intangible,
        seq![(
            "<abbr title=\"Frames where some of the characters hurtboxes are intangible and some are vulnerable.\">Partially Intangible</abbr>"@,
            partial_intangible,
        )],
    ) + when_shown(
        reverse_direction,
        seq![(
            "<abbr title=\"Frames where the character turns to face the oppposite direction.\">Direction Reverse Frames</abbr>"@,
            reverse_direction,
        )],
    ) + when_shown(hitboxes_active, seq![("Hitboxes active"@, hitboxes_active)])
        + rehit_attributes(rehit_sets, 10) + seq![(
        "<abbr title=\"Internal subaction index. Useful for modding with PSA.\">Subaction Index</abbr>"@,
        "0x"@ + hex(index),
    )]
}

fn push_attribute(list: &mut Vec<Attribute>, name: &str, value: String)
    ensures
        attribute_views(final(list)@) == attribute_views(old(list)@).push((name@, value@)),
{
    let ghost before = list@;
    list.push(Attribute { name: String::from_str(name), value });
    assert(attribute_views(list@) =~= attribute_views(before).push((name@, value@)));
}

/// The views of the hitbox sets of a subaction's frames.
pub open spec fn rehit_views(frames: &SubactionFrames) -> Seq<Seq<bool>> {
    frames.rehit_sets@.map_values(|set: Vec<bool>| set@)
}

fn push_rehit_attributes(list: &mut Vec<Attribute>, frames: &SubactionFrames)
    requires
        frames.well_formed(),
    ensures
        attribute_views(final(list)@) == attribute_views(old(list)@) + rehit_attributes(
            rehit_views(frames),
            10,
        ),
{
    let ghost start = attribute_views(list@);
    let mut set: usize = 0;
    while set < 10
        invariant
            frames.well_formed(),
            set <= 10,
            attribute_views(list@) == start + rehit_attributes(rehit_views(frames), set as nat),
        decreases 10 - set,
    {
        let flags = &frames.rehit_sets[set];
        assert(rehit_views(frames)[set as int] == flags@);
        if any_flag(flags) {
            let mut name = String::from_str("<abbr title=\"All hitboxes within hitbox set ");
            write_decimal(&mut name, set as u64);
            name.append(" can hit the same enemy again on these frames.\">Hitbox set ");
            write_decimal(&mut name, set as u64);
            name.append(" hits</abbr>");
            assert(name@ =~= rehit_name(set as nat));
            let value = frame_list(flags, ", ");
            let ghost before = attribute_views(list@);
            let ghost item = (name@, value@);
            list.push(Attribute { name, value });
            assert(attribute_views(list@) =~= before.push(item));
            assert(start + rehit_attributes(rehit_views(frames), set as nat).push(item) =~= start
                + rehit_attributes(rehit_views(frames), (set + 1) as nat));
        }
        set += 1;
    }
}

/// The landing lag texts: the lag as the fighter data gives it, and the lag when l-cancelled.
pub open spec fn landing_lag_view(landing_lag: Option<(String, u32)>) -> Option<(Seq<char>, nat)> {
    match landing_lag {
        Some((lag, l_cancel)) => Some((lag@, l_cancel as nat)),
        None => None,
    }
}

fn push_shown(list: &mut Vec<Attribute>, name: &str, value: &String)
    ensures
        attribute_views(final(list)@) == attribute_views(old(list)@) + when_shown(
            value@,
            seq![(name@, value@)],
        ),
{
    if !value.as_str().is_empty() {
        push_attribute(list, name, value.clone());
    } else {
        assert(attribute_views(list@) =~= attribute_views(list@) + when_shown(
            value@,
            seq![(name@, value@)],
        ));
    }
}

/// The attribute table of a subaction page: IASA, the auto cancel window and its lag, the
/// landing lag, the invincible, intangible and turning frames, the active hitboxes, the
/// hitbox sets that hit again, and the subaction's index. `light_landing_lag` and the
/// landing lag texts come from the fighter's numeric attributes.
#[verifier::rlimit(50)]
pub fn subaction_attributes(
    summary: &FrameSummary,
    frames: &SubactionFrames,
    light_landing_lag: i32,
    landing_lag: Option<(String, u32)>,
    index: usize,
) -> (list: Vec<Attribute>)
    requires
        frames.well_formed(),
        light_landing_lag < i32::MAX,
    ensures
        attribute_views(list@) == attribute_list(
            summary.iasa@,
            summary.auto_cancel@,
            light_landing_lag + 1,
            landing_lag_view(landing_lag),
            summary.invincible@,
            summary.intangible@,
            summary.partial_invincible@,
            summary.partial_intangible@,
            summary.reverse_direction@,
            summary.hitboxes_active@,
            rehit_views(frames),
            index as nat,
        ),
{
    let mut list: Vec<Attribute> = Vec::new();
    push_attribute(
        &mut list,
        "<abbr title=\"Interruptible As Soon As. The first frame the subaction can be interrupted with another subaction.\">IASA</abbr>",
        summary.iasa.clone(),
    );
    let ghost g1 = attribute_views(list@);
    if !summary.auto_cancel.as_str().is_empty() {
        push_attribute(
            &mut list,
            "<abbr title=\"The frames during which landing will auto cancel.\">Auto Cancel Window</abbr>",
            summary.auto_cancel.clone(),
        );
        let mut lag = String::new();
        write_decimal_i64(&mut lag, (light_landing_lag + 1) as i64);
        push_attribute(
            &mut list,
            "<abbr title=\"The amount of lag taken when auto cancelling. This is the same amount as when landing outside of an attack\">Auto Cancel Lag</abbr>",
            lag,
        );
    }
    let ghost g2 = g1 + when_shown(
        summary.auto_cancel@,
        seq![
            (
                "<abbr title=\"The frames during which landing will auto cancel.\">Auto Cancel Window</abbr>"@,
                summary.auto_cancel@,
            ),
            (
                "<abbr title=\"The amount of lag taken when auto cancelling. This is the same amount as when landing outside of an attack\">Auto Cancel Lag</abbr>"@,
                decimal_int(light_landing_lag + 1),
            ),
        ],
    );
    assert(attribute_views(list@) =~= g2);
    let ghost landing_view = landing_lag_view(landing_lag);
    if let Some((lag, l_cancel)) = landing_lag {
        push_attribute(
            &mut list,
            "<abbr title=\"Number of frames of landing lag without l-cancelling\">Landing Lag</abbr>",
            lag,
        );
        let mut l_cancel_text = String::new();
        write_decimal(&mut l_cancel_text, l_cancel as u64);
        push_attribute(
            &mut list,
            "<abbr title=\"Number of frames of landing lag with l-cancelling. This is half of the regular landing lag, rounded down.\">Landing Lag (L-Cancel)</abbr>",
            l_cancel_text,
        );
    }
    let ghost g3 = g2 + match landing_view {
        Some((lag, l_cancel)) => seq![
            (
                "<abbr title=\"Number of frames of landing lag without l-cancelling\">Landing Lag</abbr>"@,
                lag,
            ),
            (
                "<abbr title=\"Number of frames of landing lag with l-cancelling. This is half of the regular landing lag, rounded down.\">Landing Lag (L-Cancel)</abbr>"@,
                decimal(l_cancel),
            ),
        ],
        None => Seq::empty(),
    };
    assert(attribute_views(list@) =~= g3);
    push_shown(
        &mut list,
        "<abbr title=\"Frames where all of the characters hurtboxes are invincible.\">Fully Invincible</abbr>",
        &summary.invincible,
    );
    push_shown(
        &mut list,
        "<abbr title=\"Frames where all of the characters hurtboxes are intangible.\">Fully Intangible</abbr>",
        &summary.intangible,
    );
    push_shown(
        &mut list,
        "<abbr title=\"Frames where some of the characters hurtboxes are invincible and some are vulnerable.\">Partially Invincible</abbr>",
        &summary.partial_invincible,
    );
    push_shown(
        &mut list,
        "<abbr title=\"Frames where some of the characters hurtboxes are intangible and some are vulnerable.\">Partially Intangible</abbr>",
        &summary.partial_intangible,
    );
    push_shown(
        &mut list,
        "<abbr title=\"Frames where the character turns to face the oppposite direction.\">Direction Reverse Frames</abbr>",
        &summary.reverse_direction,
    );
    push_shown(&mut list, "Hitboxes active", &summary.hitboxes_active);
    push_rehit_attributes(&mut list, frames);
    let mut index_text = String::from_str("0x");
    write_hex(&mut index_text, index as u64);
    push_attribute(
        &mut list,
        "<abbr title=\"Internal subaction index. Useful for modding with PSA.\">Subaction Index</abbr>",
        index_text,
    );
    list
}


/// The views of a list of string slices.
pub open spec fn str_views(list: Seq<&'static str>) -> Seq<Seq<char>> {
    list.map_values(|t: &'static str| t@)
}

/// `label` followed by `value`, or nothing when `value` is empty.
pub open spec fn labeled(label: Seq<char>, value: Seq<char>) -> Seq<char> {
    if value.len() == 0 {
        Seq::empty()
    } else {
        label + value
    }
}

fn append_labeled(s: &mut String, label: &str, value: &String)
    ensures
        final(s)@ == old(s)@ + labeled(label@, value@),
{
    if !value.as_str().is_empty() {
        s.append(label);
        s.append(value.as_str());
    }
    assert(final(s)@ =~= old(s)@ + labeled(label@, value@));
}

/// The short description that link previews show, before the hitbox part.
pub open spec fn description_text(
    frame_count: nat,
    iasa: Seq<char>,
    auto_cancel: Seq<char>,
    landing_lag: Option<Seq<char>>,
    intangible: Seq<char>,
    invincible: Seq<char>,
    partial_intangible: Seq<char>,
    partial_invincible: Seq<char>,
    reverse_direction: Seq<char>,
) -> Seq<char> {
    "Frames:"@ + decimal(frame_count) + "\nIASA:"@ + iasa + labeled("\nAutoCancel:"@, auto_cancel)
        + match landing_lag {
        Some(lag) => "\nLandingLag:"@ + lag,
        None => Seq::empty(),
    } + labeled("\nFullyIntangible:"@, intangible) + labeled("\nFullyInvincible:"@, invincible)
        + labeled("\nPartiallyIntangible:"@, partial_intangible) + labeled(
        "\nPartiallyInvincible:"@,
        partial_invincible,
    ) + labeled("\nDirectionReverseFrames:"@, reverse_direction)
}

/// One for a text that is shown, none for an empty one.
pub open spec fn shown_bit(value: Seq<char>) -> int {
    if value.len() > 0 {
        1
    } else {
        0
    }
}

/// The attribute table starts with the IASA frame and lists each frame range of the
/// summary that is not empty under its own name: the auto cancel window, the fully and the
/// partially invincible and intangible frames, the direction reverse frames and the frames
/// with active hitboxes. It has two more rows for the auto cancel window and two for the
/// landing lag when there are such, one per hitbox set that hits again, and the
/// subaction's index last.
#[verifier::spinoff_prover]
#[verifier::rlimit(60)]
pub proof fn lemma_attributes_labelled(
    summary_iasa: Seq<char>,
    auto_cancel: Seq<char>,
    auto_cancel_lag: int,
    landing_lag: Option<(Seq<char>, nat)>,
    invincible: Seq<char>,
    intangible: Seq<char>,
    partial_invincible: Seq<char>,
    partial_intangible: Seq<char>,
    reverse_direction: Seq<char>,
    hitboxes_active: Seq<char>,
    rehit_sets: Seq<Seq<bool>>,
    index: nat,
)
    ensures
        ({
            let list = attribute_list(summary_iasa, auto_cancel, auto_cancel_lag, landing_lag, invincible, intangible, partial_invincible, partial_intangible, reverse_direction, hitboxes_active, rehit_sets, index);
            &&& list[0] == ("<abbr title=\"Interruptible As Soon As. The first frame the subaction can be interrupted with another subaction.\">IASA</abbr>"@, summary_iasa)
            &&& auto_cancel.len() > 0 ==> list.contains(("<abbr title=\"The frames during which landing will auto cancel.\">Auto Cancel Window</abbr>"@, auto_cancel))
            &&& invincible.len() > 0 ==> list.contains(("<abbr title=\"Frames where all of the characters hurtboxes are invincible.\">Fully Invincible</abbr>"@, invincible))
            &&& intangible.len() > 0 ==> list.contains(("<abbr title=\"Frames where all of the characters hurtboxes are intangible.\">Fully Intangible</abbr>"@, intangible))
            &&& partial_invincible.len() > 0 ==> list.contains(("<abbr title=\"Frames where some of the characters hurtboxes are invincible and some are vulnerable.\">Partially Invincible</abbr>"@, partial_invincible))
            &&& partial_intangible.len() > 0 ==> list.contains(("<abbr title=\"Frames where some of the characters hurtboxes are intangible and some are vulnerable.\">Partially Intangible</abbr>"@, partial_intangible))
            &&& reverse_direction.len() > 0 ==> list.contains(("<abbr title=\"Frames where the character turns to face the oppposite direction.\">Direction Reverse Frames</abbr>"@, reverse_direction))
            &&& hitboxes_active.len() > 0 ==> list.contains(("Hitboxes active"@, hitboxes_active))
            &&& list.len() == 2 + (if auto_cancel.len() > 0 { 2int } else { 0 }) + (if landing_lag is Some { 2int } else { 0 })
                + shown_bit(invincible) + shown_bit(intangible) + shown_bit(partial_invincible) + shown_bit(partial_intangible)
                + shown_bit(reverse_direction) + shown_bit(hitboxes_active) + rehit_attributes(rehit_sets, 10).len()
        }),
{
    let l0 = seq![("<abbr title=\"Interruptible As Soon As. The first frame the subaction can be interrupted with another subaction.\">IASA</abbr>"@, summary_iasa)];
    let l1 = l0 + when_shown(
        auto_cancel,
        seq![
            ("<abbr title=\"The frames during which landing will auto cancel.\">Auto Cancel Window</abbr>"@, auto_cancel),
            ("<abbr title=\"The amount of lag taken when auto cancelling. This is the same amount as when landing outside of an attack\">Auto Cancel Lag</abbr>"@, decimal_int(auto_cancel_lag)),
        ],
    );
    let l2 = l1 + match landing_lag {
        Some((lag, l_cancel)) => seq![
            ("<abbr title=\"Number of frames of landing lag without l-cancelling\">Landing Lag</abbr>"@, lag),
            ("<abbr title=\"Number of frames of landing lag with l-cancelling. This is half of the regular landing lag, rounded down.\">Landing Lag (L-Cancel)</abbr>"@, decimal(l_cancel)),
        ],
        None => Seq::empty(),
    };
    let l3 = l2 + when_shown(invincible, seq![("<abbr title=\"Frames where all of the characters hurtboxes are invincible.\">Fully Invincible</abbr>"@, invincible)]);
    let l4 = l3 + when_shown(intangible, seq![("<abbr title=\"Frames where all of the characters hurtboxes are intangible.\">Fully Intangible</abbr>"@, intangible)]);
    let l5 = l4 + when_shown(partial_invincible, seq![("<abbr title=\"Frames where some of the characters hurtboxes are invincible and some are vulnerable.\">Partially Invincible</abbr>"@, partial_invincible)]);
    let l6 = l5 + when_shown(partial_intangible, seq![("<abbr title=\"Frames where some of the characters hurtboxes are intangible and some are vulnerable.\">Partially Intangible</abbr>"@, partial_intangible)]);
    let l7 = l6 + when_shown(reverse_direction, seq![("<abbr title=\"Frames where the character turns to face the oppposite direction.\">Direction Reverse Frames</abbr>"@, reverse_direction)]);
    let l8 = l7 + when_shown(hitboxes_active, seq![("Hitboxes active"@, hitboxes_active)]);
    let tail = rehit_attributes(rehit_sets, 10) + seq![(
        "<abbr title=\"Internal subaction index. Useful for modding with PSA.\">Subaction Index</abbr>"@,
        "0x"@ + hex(index),
    )];
    assert(l1.len() == 1 + (if auto_cancel.len() > 0 { 2int } else { 0 }));
    assert(l2.len() == l1.len() + (if landing_lag is Some { 2int } else { 0 }));
    let list = attribute_list(summary_iasa, auto_cancel, auto_cancel_lag, landing_lag, invincible, intangible, partial_invincible, partial_intangible, reverse_direction, hitboxes_active, rehit_sets, index);
    assert(list == l8 + tail);
    if auto_cancel.len() > 0 {
        assert(list[1] == ("<abbr title=\"The frames during which landing will auto cancel.\">Auto Cancel Window</abbr>"@, auto_cancel));
    }
    if invincible.len() > 0 {
        assert(list[l2.len() as int] == ("<abbr title=\"Frames where all of the characters hurtboxes are invincible.\">Fully Invincible</abbr>"@, invincible));
    }
    if intangible.len() > 0 {
        assert(list[l3.len() as int] == ("<abbr title=\"Frames where all of the characters hurtboxes are intangible.\">Fully Intangible</abbr>"@, intangible));
    }
    if partial_invincible.len() > 0 {
        assert(list[l4.len() as int] == ("<abbr title=\"Frames where some of the characters hurtboxes are invincible and some are vulnerable.\">Partially Invincible</abbr>"@, partial_invincible));
    }
    if partial_intangible.len() > 0 {
        assert(list[l5.len() as int] == ("<abbr title=\"Frames where some of the characters hurtboxes are intangible and some are vulnerable.\">Partially Intangible</abbr>"@, partial_intangible));
    }
    if reverse_direction.len() > 0 {
        assert(list[l6.len() as int] == ("<abbr title=\"Frames where the character turns to face the oppposite direction.\">Direction Reverse Frames</abbr>"@, reverse_direction));
    }
    if hitboxes_active.len() > 0 {
        assert(list[l7.len() as int] == ("Hitboxes active"@, hitboxes_active));
    }
}

/// The description shown in link previews: frame count, IASA, the frame ranges of the
/// summary that are not empty, the landing lag text, then `hitboxes`, the hitbox part.
pub fn twitter_description(
    frame_count: usize,
    summary: &FrameSummary,
    landing_lag: Option<&str>,
    hitboxes: &str,
) -> (text: String)
    ensures
        text@ == description_text(
            frame_count as nat,
            summary.iasa@,
            summary.auto_cancel@,
            crate::text::str_option_view(landing_lag),
            summary.intangible@,
            summary.invincible@,
            summary.partial_intangible@,
            summary.partial_invincible@,
            summary.reverse_direction@,
        ) + hitboxes@,
{
    let mut text = String::from_str("Frames:");
    write_decimal(&mut text, frame_count as u64);
    text.append("\nIASA:");
    text.append(summary.iasa.as_str());
    append_labeled(&mut text, "\nAutoCancel:", &summary.auto_cancel);
    if let Some(lag) = landing_lag {
        text.append("\nLandingLag:");
        text.append(lag);
    }
    append_labeled(&mut text, "\nFullyIntangible:", &summary.intangible);
    append_labeled(&mut text, "\nFullyInvincible:", &summary.invincible);
    append_labeled(&mut text, "\nPartiallyIntangible:", &summary.partial_intangible);
    append_labeled(&mut text, "\nPartiallyInvincible:", &summary.partial_invincible);
    append_labeled(&mut text, "\nDirectionReverseFrames:", &summary.reverse_direction);
    text.append(hitboxes);
    assert(text@ =~= description_text(
        frame_count as nat,
        summary.iasa@,
        summary.auto_cancel@,
        crate::text::str_option_view(landing_lag),
        summary.intangible@,
        summary.invincible@,
        summary.partial_intangible@,
        summary.partial_invincible@,
        summary.reverse_direction@,
    ) + hitboxes@);
    text
}

/// The state of the pass that cuts the frames into hitbox tables, after the first `k`
/// frames: the tables closed so far, as (frame where the table's values started, frame at
/// which it closed), and the frame where the values of the table being built started.
/// A table closes on a frame where the hitbox values change, or on the last frame; a new
/// one starts where the values change to some hitboxes, and none is built after a change
/// to no hitboxes.
pub open spec fn table_state(changed: Seq<bool>, has_hitboxes: Seq<bool>, k: nat) -> (
    Seq<(nat, nat)>,
    Option<nat>,
)
    decreases k,
{
    if k == 0 {
        (Seq::empty(), None)
    } else {
        let i = (k - 1) as nat;
        let (spans, building) = table_state(changed, has_hitboxes, i);
        let (spans, building) = if changed[i as int] || i + 1 == changed.len() {
            match building {
                Some(first) => (spans.push((first, i)), Some(i)),
                None => (spans, None),
            }
        } else {
            (spans, building)
        };
        let building = if changed[i as int] && has_hitboxes[i as int] && building is None {
            Some(i)
        } else {
            building
        };
        let building = if changed[i as int] && !has_hitboxes[i as int] {
            None
        } else {
            building
        };
        (spans, building)
    }
}

/// The hitbox tables of a subaction, each as (frame where its values started, frame at
/// which it closed), 0-based.
pub open spec fn table_spans(changed: Seq<bool>, has_hitboxes: Seq<bool>) -> Seq<(nat, nat)> {
    table_state(changed, has_hitboxes, changed.len()).0
}

/// The spans as plain numbers.
pub open spec fn span_views(spans: Seq<(usize, usize)>) -> Seq<(nat, nat)> {
    spans.map_values(|span: (usize, usize)| (span.0 as nat, span.1 as nat))
}

/// Cuts the frames into hitbox tables. `changed` tells, per frame, whether its hitbox
/// values differ from those of the frame before (the first frame compares with no
/// hitboxes); `has_hitboxes` whether the frame has any.
pub fn hitbox_table_spans(changed: &Vec<bool>, has_hitboxes: &Vec<bool>) -> (spans: Vec<
    (usize, usize),
>)
    requires
        changed.len() == has_hitboxes.len(),
    ensures
        span_views(spans@) == table_spans(changed@, has_hitboxes@),
{
    let n = changed.len();
    let mut spans: Vec<(usize, usize)> = Vec::new();
    let mut building: Option<usize> = None;
    let mut i: usize = 0;
    while i < n
        invariant
            n == changed.len(),
            n == has_hitboxes.len(),
            i <= n,
            span_views(spans@) == table_state(changed@, has_hitboxes@, i as nat).0,
            building matches Some(first) ==> table_state(changed@, has_hitboxes@, i as nat).1
                == Some(first as nat),
            building is None ==> table_state(changed@, has_hitboxes@, i as nat).1 is None,
        decreases n - i,
    {
        if changed[i] || i + 1 == n {
            if let Some(first) = building {
                let ghost before = spans@;
                spans.push((first, i));
                assert(span_views(spans@) =~= span_views(before).push((first as nat, i as nat)));
                building = Some(i);
            }
        }
        if changed[i] && has_hitboxes[i] && building.is_none() {
            building = Some(i);
        }
        if changed[i] && !has_hitboxes[i] {
            building = None;
        }
        i += 1;
    }
    spans
}

/// The label of a hitbox table that started at 0-based frame `first` and closed at `end`.
pub open spec fn table_frames_text(first: nat, end: nat) -> Seq<char> {
    if first + 1 == end {
        "Frame:"@ + decimal(end)
    } else {
        "Frames:"@ + decimal(first + 1) + "-"@ + decimal(end)
    }
}

/// Labels a hitbox table with its frames.
pub fn table_frames_label(first: usize, end: usize) -> (label: String)
    requires
        first < usize::MAX,
    ensures
        label@ == table_frames_text(first as nat, end as nat),
{
    if first + 1 == end {
        let mut label = String::from_str("Frame:");
        write_decimal(&mut label, end as u64);
        label
    } else {
        let mut label = String::from_str("Frames:");
        write_decimal(&mut label, (first + 1) as u64);
        label.append("-");
        write_decimal(&mut label, end as u64);
        label
    }
}

/// Which optional columns a hitbox table shows: each is shown when some hitbox of the
/// table has a value other than the usual one.
pub struct HitboxColumns {
    pub wdsk: bool,
    pub angle_flipping: bool,
    pub clang: bool,
    pub direct: bool,
    pub hitlag_mult: bool,
    pub sdi_mult: bool,
    pub shield_damage: bool,
    pub tripping_rate: bool,
    pub rehit_rate: bool,
    pub can_be_shielded: bool,
    pub can_be_reflected: bool,
    pub can_be_absorbed: bool,
    pub remain_grabbed: bool,
    pub ignore_invincibility: bool,
    pub freeze_frame_disable: bool,
    pub flinchless: bool,
}

/// `Seq![title]` when `shown`, else nothing.
pub open spec fn column(shown: bool, title: Seq<char>) -> Seq<Seq<char>> {
    if shown {
        seq![title]
    } else {
        Seq::empty()
    }
}

/// The titles of the columns of a hitbox table, in order.
/// The fixed leading columns and the WDSK column when shown.
pub open spec fn header_head(c: HitboxColumns, t: Seq<Seq<char>>) -> Seq<Seq<char>> {
    let t = t.push("<abbr title=\"Hitboxes in different sets can rehit the same enemy across multiple frames. i.e. a multi-hit move. Hitboxes in different sets can also hit in the same frame, the damage is the total of all hit hitboxes however the knockback and angle is taken from the hitbox with the most knockback.\">Set</abbr>"@);
    let t = t.push("<abbr title=\"Lower hitbox IDs take priority over higher ones. i.e. if hitbox 0 and 1 are both hit, hitbox 0 is used\">ID</abbr>"@);
    let t = t.push("<abbr title=\"Damage\">Dmg</abbr>"@);
    let t = t + column(c.wdsk, "<abbr title=\"Weight Dependent Set Knockback. When this value is not 0, an entirely different formula is used to calculate knockback. In this formula hitbox damage and current % are ignored.\">WDSK</abbr>"@);
    let t = t.push("<abbr title=\"Base knockback\">BKB</abbr>"@);
    let t = t.push("<abbr title=\"Knockback growth\">KBG</abbr>"@);
    let t = t.push("<abbr title=\"Specifies the angle used when the fighter faces to the right. It is flipped across the y-axis when the angle flipper has a direction to the left.\">Angle</abbr>"@);
    let t = t.push("Effect"@);
    let t = t.push("Sound"@);
    t
}

/// The optional columns from angle flip to SDI multiplier that are shown.
pub open spec fn header_flags_a(c: HitboxColumns, t: Seq<Seq<char>>) -> Seq<Seq<char>> {
    let t = t + column(c.angle_flipping, "Angle Flip"@);
    let t = t + column(c.clang, "Clang"@);
    let t = t + column(c.direct, "Direct"@);
    let t = t + column(c.hitlag_mult, "Hitlag Mult"@);
    let t = t + column(c.sdi_mult, "SDI Mult"@);
    t
}

/// The optional columns from shield damage to reflectability that are shown.
pub open spec fn header_flags_b(c: HitboxColumns, t: Seq<Seq<char>>) -> Seq<Seq<char>> {
    let t = t + column(c.shield_damage, "<abbr title=\"Shield Damage\">Shield Dmg</abbr>"@);
    let t = t + column(c.tripping_rate, "<abbr title=\"Trip Rate. Chance of trip occuring out of 100?\">Trip Rate</abbr>"@);
    let t = t + column(c.rehit_rate, "<abbr title=\"Rehit rate. How many frames it takes for the hitbox to hit the same target again. e.g. value of 1 means it will hit every frame.\">Rehit Rate</abbr>"@);
    let t = t + column(c.can_be_shielded, "<abbr title=\"Can be shielded\">Shieldable</abbr>"@);
    let t = t + column(c.can_be_reflected, "<abbr title=\"Can be reflected\">Reflectable</abbr>"@);
    t
}

/// The optional columns from absorbability to flinchless that are shown.
pub open spec fn header_flags_c(c: HitboxColumns, t: Seq<Seq<char>>) -> Seq<Seq<char>> {
    let t = t + column(c.can_be_absorbed, "<abbr title=\"Can be absorbed\">Absorbable</abbr>"@);
    let t = t + column(c.remain_grabbed, "Remain Grabbed"@);
    let t = t + column(c.ignore_invincibility, "Ignore Invincibility"@);
    let t = t + column(c.freeze_frame_disable, "Freeze frame disable"@);
    let t = t + column(c.flinchless, "<abbr title=\"TODO\">Flinchless"@);
    t
}

/// The fixed trailing columns.
pub open spec fn header_tail(c: HitboxColumns, t: Seq<Seq<char>>) -> Seq<Seq<char>> {
    let t = t.push("Shieldstun"@);
    let t = t.push("Hitlag"@);
    let t = t.push("Targets"@);
    t
}

/// The titles of the columns of a hitbox table, in order.
pub open spec fn hitbox_header_titles(c: HitboxColumns) -> Seq<Seq<char>> {
    header_tail(c, header_flags_c(c, header_flags_b(c, header_flags_a(c, header_head(c, Seq::empty())))))
}

fn push_title(titles: &mut Vec<&'static str>, title: &'static str)
    ensures
        str_views(final(titles)@) == str_views(old(titles)@).push(title@),
{
    let ghost before = titles@;
    titles.push(title);
    assert(str_views(titles@) =~= str_views(before).push(title@));
}

fn push_column(titles: &mut Vec<&'static str>, shown: bool, title: &'static str)
    ensures
        str_views(final(titles)@) == str_views(old(titles)@) + column(shown, title@),
{
    if shown {
        push_title(titles, title);
    }
    assert(str_views(titles@) =~= str_views(old(titles)@) + column(shown, title@));
}

fn push_header_head(titles: &mut Vec<&'static str>, c: &HitboxColumns)
    ensures
        str_views(final(titles)@) == header_head(*c, str_views(old(titles)@)),
{
    let ghost mut g: Seq<Seq<char>> = str_views(titles@);
    push_title(titles, "<abbr title=\"Hitboxes in different sets can rehit the same enemy across multiple frames. i.e. a multi-hit move. Hitboxes in different sets can also hit in the same frame, the damage is the total of all hit hitboxes however the knockback and angle is taken from the hitbox with the most knockback.\">Set</abbr>");
    proof {
        g = g.push("<abbr title=\"Hitboxes in different sets can rehit the same enemy across multiple frames. i.e. a multi-hit move. Hitboxes in different sets can also hit in the same frame, the damage is the total of all hit hitboxes however the knockback and angle is taken from the hitbox with the most knockback.\">Set</abbr>"@);
    }
    assert(str_views(titles@) == g);
    push_title(titles, "<abbr title=\"Lower hitbox IDs take priority over higher ones. i.e. if hitbox 0 and 1 are both hit, hitbox 0 is used\">ID</abbr>");
    proof {
        g = g.push("<abbr title=\"Lower hitbox IDs take priority over higher ones. i.e. if hitbox 0 and 1 are both hit, hitbox 0 is used\">ID</abbr>"@);
    }
    assert(str_views(titles@) == g);
    push_title(titles, "<abbr title=\"Damage\">Dmg</abbr>");
    proof {
        g = g.push("<abbr title=\"Damage\">Dmg</abbr>"@);
    }
    assert(str_views(titles@) == g);
    push_column(titles, c.wdsk, "<abbr title=\"Weight Dependent Set Knockback. When this value is not 0, an entirely different formula is used to calculate knockback. In this formula hitbox damage and current % are ignored.\">WDSK</abbr>");
    proof {
        g = g + column(c.wdsk, "<abbr title=\"Weight Dependent Set Knockback. When this value is not 0, an entirely different formula is used to calculate knockback. In this formula hitbox damage and current % are ignored.\">WDSK</abbr>"@);
    }
    assert(str_views(titles@) == g);
    push_title(titles, "<abbr title=\"Base knockback\">BKB</abbr>");
    proof {
        g = g.push("<abbr title=\"Base knockback\">BKB</abbr>"@);
    }
    assert(str_views(titles@) == g);
    push_title(titles, "<abbr title=\"Knockback growth\">KBG</abbr>");
    proof {
        g = g.push("<abbr title=\"Knockback growth\">KBG</abbr>"@);
    }
    assert(str_views(titles@) == g);
    push_title(titles, "<abbr title=\"Specifies the angle used when the fighter faces to the right. It is flipped across the y-axis when the angle flipper has a direction to the left.\">Angle</abbr>");
    proof {
        g = g.push("<abbr title=\"Specifies the angle used when the fighter faces to the right. It is flipped across the y-axis when the angle flipper has a direction to the left.\">Angle</abbr>"@);
    }
    assert(str_views(titles@) == g);
    push_title(titles, "Effect");
    proof {
        g = g.push("Effect"@);
    }
    assert(str_views(titles@) == g);
    push_title(titles, "Sound");
    proof {
        g = g.push("Sound"@);
    }
    assert(str_views(titles@) == g);
}

fn push_header_flags_a(titles: &mut Vec<&'static str>, c: &HitboxColumns)
    ensures
        str_views(final(titles)@) == header_flags_a(*c, str_views(old(titles)@)),
{
    let ghost mut g: Seq<Seq<char>> = str_views(titles@);
    push_column(titles, c.angle_flipping, "Angle Flip");
    proof {
        g = g + column(c.angle_flipping, "Angle Flip"@);
    }
    assert(str_views(titles@) == g);
    push_column(titles, c.clang, "Clang");
    proof {
        g = g + column(c.clang, "Clang"@);
    }
    assert(str_views(titles@) == g);
    push_column(titles, c.direct, "Direct");
    proof {
        g = g + column(c.direct, "Direct"@);
    }
    assert(str_views(titles@) == g);
    push_column(titles, c.hitlag_mult, "Hitlag Mult");
    proof {
        g = g + column(c.hitlag_mult, "Hitlag Mult"@);
    }
    assert(str_views(titles@) == g);
    push_column(titles, c.sdi_mult, "SDI Mult");
    proof {
        g = g + column(c.sdi_mult, "SDI Mult"@);
    }
    assert(str_views(titles@) == g);
}

fn push_header_flags_b(titles: &mut Vec<&'static str>, c: &HitboxColumns)
    ensures
        str_views(final(titles)@) == header_flags_b(*c, str_views(old(titles)@)),
{
    let ghost mut g: Seq<Seq<char>> = str_views(titles@);
    push_column(titles, c.shield_damage, "<abbr title=\"Shield Damage\">Shield Dmg</abbr>");
    proof {
        g = g + column(c.shield_damage, "<abbr title=\"Shield Damage\">Shield Dmg</abbr>"@);
    }
    assert(str_views(titles@) == g);
    push_column(titles, c.tripping_rate, "<abbr title=\"Trip Rate. Chance of trip occuring out of 100?\">Trip Rate</abbr>");
    proof {
        g = g + column(c.tripping_rate, "<abbr title=\"Trip Rate. Chance of trip occuring out of 100?\">Trip Rate</abbr>"@);
    }
    assert(str_views(titles@) == g);
    push_column(titles, c.rehit_rate, "<abbr title=\"Rehit rate. How many frames it takes for the hitbox to hit the same target again. e.g. value of 1 means it will hit every frame.\">Rehit Rate</abbr>");
    proof {
        g = g + column(c.rehit_rate, "<abbr title=\"Rehit rate. How many frames it takes for the hitbox to hit the same target again. e.g. value of 1 means it will hit every frame.\">Rehit Rate</abbr>"@);
    }
    assert(str_views(titles@) == g);
    push_column(titles, c.can_be_shielded, "<abbr title=\"Can be shielded\">Shieldable</abbr>");
    proof {
        g = g + column(c.can_be_shielded, "<abbr title=\"Can be shielded\">Shieldable</abbr>"@);
    }
    assert(str_views(titles@) == g);
    push_column(titles, c.can_be_reflected, "<abbr title=\"Can be reflected\">Reflectable</abbr>");
    proof {
        g = g + column(c.can_be_reflected, "<abbr title=\"Can be reflected\">Reflectable</abbr>"@);
    }
    assert(str_views(titles@) == g);
}

fn push_header_flags_c(titles: &mut Vec<&'static str>, c: &HitboxColumns)
    ensures
        str_views(final(titles)@) == header_flags_c(*c, str_views(old(titles)@)),
{
    let ghost mut g: Seq<Seq<char>> = str_views(titles@);
    push_column(titles, c.can_be_absorbed, "<abbr title=\"Can be absorbed\">Absorbable</abbr>");
    proof {
        g = g + column(c.can_be_absorbed, "<abbr title=\"Can be absorbed\">Absorbable</abbr>"@);
    }
    assert(str_views(titles@) == g);
    push_column(titles, c.remain_grabbed, "Remain Grabbed");
    proof {
        g = g + column(c.remain_grabbed, "Remain Grabbed"@);
    }
    assert(str_views(titles@) == g);
    push_column(titles, c.ignore_invincibility, "Ignore Invincibility");
    proof {
        g = g + column(c.ignore_invincibility, "Ignore Invincibility"@);
    }
    assert(str_views(titles@) == g);
    push_column(titles, c.freeze_frame_disable, "Freeze frame disable");
    proof {
        g = g + column(c.freeze_frame_disable, "Freeze frame disable"@);
    }
    assert(str_views(titles@) == g);
    push_column(titles, c.flinchless, "<abbr title=\"TODO\">Flinchless");
    proof {
        g = g + column(c.flinchless, "<abbr title=\"TODO\">Flinchless"@);
    }
    assert(str_views(titles@) == g);
}

fn push_header_tail(titles: &mut Vec<&'static str>, c: &HitboxColumns)
    ensures
        str_views(final(titles)@) == header_tail(*c, str_views(old(titles)@)),
{
    let ghost mut g: Seq<Seq<char>> = str_views(titles@);
    push_title(titles, "Shieldstun");
    proof {
        g = g.push("Shieldstun"@);
    }
    assert(str_views(titles@) == g);
    push_title(titles, "Hitlag");
    proof {
        g = g.push("Hitlag"@);
    }
    assert(str_views(titles@) == g);
    push_title(titles, "Targets");
    proof {
        g = g.push("Targets"@);
    }
    assert(str_views(titles@) == g);
}

/// The header of a hitbox table: the fixed columns and the optional ones that are shown.
pub fn hitbox_header(c: &HitboxColumns) -> (titles: Vec<&'static str>)
    ensures
        str_views(titles@) == hitbox_header_titles(*c),
{
    let mut titles: Vec<&'static str> = Vec::new();
    assert(str_views(titles@) =~= Seq::<Seq<char>>::empty());
    push_header_head(&mut titles, c);
    push_header_flags_a(&mut titles, c);
    push_header_flags_b(&mut titles, c);
    push_header_flags_c(&mut titles, c);
    push_header_tail(&mut titles, c);
    titles
}

/// The titles of the columns of the throw table, in order.
pub open spec fn throw_header_titles(wdsk: bool) -> Seq<Seq<char>> {
    seq!["<abbr title=\"Damage\">Dmg</abbr>"@] + column(wdsk, "<abbr title=\"Weight Dependent Set Knockback. When this value is not 0, an entirely different formula is used to calculate knockback. In this formula hitbox damage and current % are ignored.\">WDSK</abbr>"@) + seq![
        "<abbr title=\"Base knockback\">BKB</abbr>"@,
        "<abbr title=\"Knockback growth\">KBG</abbr>"@,
        "<abbr title=\"Specifies the angle used when the fighter faces to the right.\">Angle</abbr>"@,
        "Effect"@,
        "Sound"@,
        "Grab Target"@,
        "Iframes"@,
        "<abbr title=\"Weight Dependent Throw Speed: When enabled, the frame speed of the subaction is multiplied by 2 - weight / 100. Where weight is that of the victim\">WDTS</abbr>"@,
    ]
}

/// The header of the throw table; the WDSK column is shown when the throw has one.
pub fn throw_header(wdsk: bool) -> (titles: Vec<&'static str>)
    ensures
        str_views(titles@) == throw_header_titles(wdsk),
{
    let mut titles: Vec<&'static str> = Vec::new();
    push_title(&mut titles, "<abbr title=\"Damage\">Dmg</abbr>");
    push_column(&mut titles, wdsk, "<abbr title=\"Weight Dependent Set Knockback. When this value is not 0, an entirely different formula is used to calculate knockback. In this formula hitbox damage and current % are ignored.\">WDSK</abbr>");
    push_title(&mut titles, "<abbr title=\"Base knockback\">BKB</abbr>");
    push_title(&mut titles, "<abbr title=\"Knockback growth\">KBG</abbr>");
    push_title(&mut titles, "<abbr title=\"Specifies the angle used when the fighter faces to the right.\">Angle</abbr>");
    push_title(&mut titles, "Effect");
    push_title(&mut titles, "Sound");
    push_title(&mut titles, "Grab Target");
    push_title(&mut titles, "Iframes");
    push_title(&mut titles, "<abbr title=\"Weight Dependent Throw Speed: When enabled, the frame speed of the subaction is multiplied by 2 - weight / 100. Where weight is that of the victim\">WDTS</abbr>");
    assert(str_views(titles@) =~= throw_header_titles(wdsk));
    titles
}


/// The pieces of `s` between the occurrences of `sep`, as `str::split` gives them: one more
/// piece than there are separators, empty pieces included.
pub open spec fn split_on(s: Seq<char>, sep: char) -> Seq<Seq<char>>
    decreases s.len(),
{
    if s.len() == 0 {
        seq![Seq::empty()]
    } else {
        let rest = split_on(s.drop_last(), sep);
        if s.last() == sep {
            rest.push(Seq::empty())
        } else {
            rest.drop_last().push(rest.last().push(s.last()))
        }
    }
}

proof fn lemma_split_on_nonempty(s: Seq<char>, sep: char)
    ensures
        split_on(s, sep).len() >= 1,
    decreases s.len(),
{
    if s.len() > 0 {
        lemma_split_on_nonempty(s.drop_last(), sep);
    }
}

/// The length in bytes of the UTF-8 form of `s`, as `str::len` reports it.
pub open spec fn byte_len(s: Seq<char>) -> usize {
    encode_utf8(s).len() as usize
}

/// A comma-separated list shortened to `All x` when every item is `x` and that is shorter
/// in bytes; otherwise the list itself.
pub open spec fn shortened(value: Seq<char>) -> Seq<char> {
    let pieces = split_on(value, ',');
    let short = "All "@ + pieces[0];
    if (forall|i: int| 0 <= i < pieces.len() ==> #[trigger] pieces[i] == pieces[0]) && byte_len(short)
        < byte_len(value) {
        short
    } else {
        value
    }
}

/// A shortened list is never longer in bytes than the list itself.
pub proof fn lemma_shortened_never_longer(value: Seq<char>)
    ensures
        byte_len(shortened(value)) <= byte_len(value),
{
}

/// Splits a string at each comma.
pub fn split_commas(s: &str) -> (pieces: Vec<String>)
    ensures
        string_views(pieces@) == split_on(s@, ','),
{
    let n = s.unicode_len();
    let mut pieces: Vec<String> = Vec::new();
    let mut cur = String::new();
    let mut i: usize = 0;
    while i < n
        invariant
            n == s@.len(),
            i <= n,
            split_on(s@.subrange(0, i as int), ',') == string_views(pieces@).push(cur@),
        decreases n - i,
    {
        let c = s.get_char(i);
        let ghost prefix = s@.subrange(0, i as int);
        let ghost next = s@.subrange(0, i + 1);
        assert(next.drop_last() =~= prefix);
        if c == ',' {
            let ghost before = string_views(pieces@);
            let ghost piece = cur@;
            pieces.push(cur);
            cur = String::new();
            assert(string_views(pieces@) =~= before.push(piece));
            assert(split_on(next, ',') =~= string_views(pieces@).push(cur@));
        } else {
            let ghost before = string_views(pieces@);
            push_char(&mut cur, c);
            assert(split_on(next, ',') =~= before.push(cur@));
        }
        i += 1;
    }
    assert(s@.subrange(0, n as int) =~= s@);
    let ghost before = string_views(pieces@);
    let ghost last = cur@;
    pieces.push(cur);
    assert(string_views(pieces@) =~= before.push(last));
    pieces
}

/// Shortens a comma-separated list whose items are all the same to `All x`, when that is
/// shorter.
pub fn shorten_list(value: String) -> (short: String)
    ensures
        short@ == shortened(value@),
{
    let pieces = split_commas(value.as_str());
    proof {
        lemma_split_on_nonempty(value@, ',');
    }
    let first = pieces[0].as_str();
    let mut all_same = true;
    let mut i: usize = 0;
    while i < pieces.len()
        invariant
            i <= pieces.len(),
            pieces.len() >= 1,
            first@ == pieces@[0]@,
            all_same == (forall|k: int| 0 <= k < i ==> #[trigger] pieces@[k]@ == first@),
        decreases pieces.len() - i,
    {
        if !str_eq(pieces[i].as_str(), first) {
            all_same = false;
        }
        i += 1;
    }
    assert(split_on(value@, ',').len() == pieces@.len());
    assert forall|k: int| 0 <= k < pieces@.len() implies #[trigger] split_on(value@, ',')[k]
        == pieces@[k]@ by {
        assert(string_views(pieces@)[k] == pieces@[k]@);
    }
    assert(split_on(value@, ',')[0] == first@);
    if all_same {
        assert forall|k: int| 0 <= k < split_on(value@, ',').len() implies #[trigger] split_on(
            value@,
            ',',
        )[k] == split_on(value@, ',')[0] by {
            assert(pieces@[k]@ == first@);
        }
    } else {
        let ghost k = choose|k: int| 0 <= k < pieces@.len() && #[trigger] pieces@[k]@ != first@;
        assert(split_on(value@, ',')[k] != split_on(value@, ',')[0]);
    }
    assert(all_same == (forall|k: int| 0 <= k < split_on(value@, ',').len() ==> #[trigger] split_on(value@, ',')[k] == split_on(value@, ',')[0]));
    if all_same {
        let mut new_value = String::from_str("All ");
        new_value.append(first);
        assert(new_value@ == "All "@ + split_on(value@, ',')[0]);
        if new_value.as_str().len() < value.as_str().len() {
            return new_value;
        }
    }
    value
}

/// The name that the page gives an angle: the special angles get an explanation, the
/// others are written as numbers.
pub open spec fn angle_name(angle: i32) -> Seq<char> {
    if angle == 0 {
        "<abbr title=\"Angle 0:&#013;When opponent is hit on the ground they remain in nontumble grounded hitstun regardless of knockback\">0</abbr>"@
    } else if angle == 361 {
        "<abbr title=\"Sakurai Angle:&#013;When hit in the air angle is 45. When hit on the ground, if knockback < 32 then angle is 0 (they remain in nontumble grounded hitstun regardless of knockback), otherwise angle is 44.\">361</abbr>"@
    } else if angle == 363 {
        "<abbr title=\"Autolink Angle:&#013;Angle is the angle the attacker is travelling on the frame collision occurred. Attacker momentum is also added on top of knockback.\">363</abbr>"@
    } else if angle == 365 {
        "<abbr title=\"Autolink w/ only 50% momentum:&#013;Angle is the angle the attacker is travelling on the frame collision occurred. 50% of attacker momentum is also added on top of knockback. In P+ minimum vertical speed is capped at -0.5\">365</abbr>"@
    } else if angle == 512 {
        "<abbr title=\"CUSTOM Inwards Autolink:&#013;Sends inside based on hitbox center.\">512</abbr>"@
    } else if angle == 513 {
        "<abbr title=\"CUSTOM Outwards Autolink:&#013;Sends outside based on hitbox center.\">513</abbr>"@
    } else if angle == 514 {
        "<abbr title=\"CUSTOM Inwards Autolink w/ Attacker speed + victim distance:&#013;Sends inside based on hitbox center. Attacker speed is added like normal autolink angles, knockback becomes stronger based on the victim distance.\">514</abbr>"@
    } else if angle == 515 {
        "<abbr title=\"CUSTOM Outwards Autolink w/ Attacker speed + victim distance:&#013;Sends outside based on hitbox center. Attacker speed is added like normal autolink angles, knockback becomes stronger based on the victim distance.\">515</abbr>"@
    } else {
        decimal_int(angle as int)
    }
}

/// A hitbox angle as the hitbox table shows it: a canvas that the renderer draws the
/// angle's arrow on, then the angle's name.
pub open spec fn angle_text(angle: i32, id: u8) -> Seq<char> {
    "<canvas class=\"hitbox-angle-render\" width=\"0\" height=\"0\" hitbox-id=\""@ + decimal(id as nat)
        + "\" angle=\""@ + decimal_int(angle as int) + "\"></canvas>"@ + angle_name(angle)
}

/// Formats a hitbox angle: a canvas that the renderer draws the angle's arrow on, then
/// the angle's name.
pub fn angle_string(angle: i32, id: u8) -> (s: String)
    ensures
        s@ == angle_text(angle, id),
{
    let mut s = String::from_str("<canvas class=\"hitbox-angle-render\" width=\"0\" height=\"0\" hitbox-id=\"");
    write_decimal(&mut s, id as u64);
    s.append("\" angle=\"");
    write_decimal_i64(&mut s, angle as i64);
    s.append("\"></canvas>");
    if angle == 0 {
        s.append("<abbr title=\"Angle 0:&#013;When opponent is hit on the ground they remain in nontumble grounded hitstun regardless of knockback\">0</abbr>");
    } else if angle == 361 {
        s.append("<abbr title=\"Sakurai Angle:&#013;When hit in the air angle is 45. When hit on the ground, if knockback < 32 then angle is 0 (they remain in nontumble grounded hitstun regardless of knockback), otherwise angle is 44.\">361</abbr>");
    } else if angle == 363 {
        s.append("<abbr title=\"Autolink Angle:&#013;Angle is the angle the attacker is travelling on the frame collision occurred. Attacker momentum is also added on top of knockback.\">363</abbr>");
    } else if angle == 365 {
        s.append("<abbr title=\"Autolink w/ only 50% momentum:&#013;Angle is the angle the attacker is travelling on the frame collision occurred. 50% of attacker momentum is also added on top of knockback. In P+ minimum vertical speed is capped at -0.5\">365</abbr>");
    } else if angle == 512 {
        s.append("<abbr title=\"CUSTOM Inwards Autolink:&#013;Sends inside based on hitbox center.\">512</abbr>");
    } else if angle == 513 {
        s.append("<abbr title=\"CUSTOM Outwards Autolink:&#013;Sends outside based on hitbox center.\">513</abbr>");
    } else if angle == 514 {
        s.append("<abbr title=\"CUSTOM Inwards Autolink w/ Attacker speed + victim distance:&#013;Sends inside based on hitbox center. Attacker speed is added like normal autolink angles, knockback becomes stronger based on the victim distance.\">514</abbr>");
    } else if angle == 515 {
        s.append("<abbr title=\"CUSTOM Outwards Autolink w/ Attacker speed + victim distance:&#013;Sends outside based on hitbox center. Attacker speed is added like normal autolink angles, knockback becomes stronger based on the victim distance.\">515</abbr>");
    } else {
        write_decimal_i64(&mut s, angle as i64);
    }
    s
}

/// The texts of a subaction page that name it: its title, the link to its fighter's page
/// and the address of its GIF, which link previews show.
pub struct PageNames {
    pub title: String,
    pub fighter_link: String,
    pub twitter_image: String,
}

/// The title, fighter link and GIF address of the page of subaction `subaction` of fighter
/// `fighter` of mod `m`.
pub fn subaction_page_names(m: &str, fighter: &str, subaction: &str) -> (names: PageNames)
    ensures
        names.title@ == m@ + " - "@ + fighter@ + " - Subaction - "@ + subaction@,
        names.fighter_link@ == "/"@ + m@ + "/"@ + fighter@,
        names.twitter_image@ == "/"@ + m@ + "/"@ + fighter@ + "/subactions/"@ + subaction@ + ".gif"@,
{
    let mut title = String::from_str(m);
    title.append(" - ");
    title.append(fighter);
    title.append(" - Subaction - ");
    title.append(subaction);
    let mut fighter_link = String::from_str("/");
    fighter_link.append(m);
    fighter_link.append("/");
    fighter_link.append(fighter);
    let mut twitter_image = fighter_link.clone();
    twitter_image.append("/subactions/");
    twitter_image.append(subaction);
    twitter_image.append(".gif");
    PageNames { title, fighter_link, twitter_image }
}

} // verus!
