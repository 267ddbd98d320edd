//! The subaction bar of a fighter's pages: each subaction sorted under a heading by the
//! words in its name, the headings sorted by name.

use vstd::prelude::*;
use crate::brawl_data::{BrawlMod, Fighter, subaction_names};
use crate::page::{LinkView, NavLink, link_view, link_views, sort_by_name, sorted_by_name};
use crate::text::str_eq;

verus! {

/// Whether `pattern` occurs in `text`.
pub open spec fn contains_text(text: Seq<char>, pattern: Seq<char>) -> bool {
    exists|i: int|
        0 <= i && i + pattern.len() <= text.len() && #[trigger] text.subrange(i, i + pattern.len())
            == pattern
}

/// Whether `text` starts with `pattern`.
pub open spec fn starts_with_text(text: Seq<char>, pattern: Seq<char>) -> bool {
    pattern.len() <= text.len() && text.subrange(0, pattern.len() as int) == pattern
}

/// Whether `c` is a decimal digit, as `char::is_digit(10)` tests.
pub open spec fn is_decimal_digit(c: char) -> bool {
    48 <= c as u32 <= 57
}

/// The first decimal digit in `text`, if any.
pub open spec fn first_digit(text: Seq<char>) -> Option<char>
    decreases text.len(),
{
    if text.len() == 0 {
        None
    } else if is_decimal_digit(text[0]) {
        Some(text[0])
    } else {
        first_digit(text.drop_first())
    }
}

/// The headings of the subaction bar.
#[derive(Debug, PartialEq, Eq, Structural, Clone, Copy)]
pub enum Heading {
    AttacksJab,
    AttacksTilt,
    AttacksSmash,
    AttacksDash,
    AttacksAerial,
    Grabs,
    Specials,
    Knockdowns,
    Trips,
    LedgeOptions,
    Dodges,
    WallCeilingTech,
    Footstool,
    Glide,
    Crawl,
    Movements,
    Finals,
    Taunts,
    Stun,
    Sleep,
    Swim,
    Item,
    ItemThrow,
    Misc,
    NoneNames,
}

/// The heading that a subaction is listed under, decided by the words in its name; the
/// rules are tried in order and the first that matches decides.
pub open spec fn heading_of(name: Seq<char>) -> Heading {
    if contains_text(name, "Cliff"@) {
        Heading::LedgeOptions
    } else if contains_text(name, "Item"@) || contains_text(name, "Gekikara"@) {
        Heading::Item
    } else if contains_text(name, "Ganon"@) || contains_text(name, "Snake"@) || contains_text(name, "Bitten"@) || contains_text(name, "Stick"@) || contains_text(name, "Rope"@)
        || contains_text(name, "Ladder"@) || contains_text(name, "Egg"@) || contains_text(name, "Capture"@) || contains_text(name, "Zitabata"@) || contains_text(name, "Swing"@) {
        Heading::Misc
    } else if contains_text(name, "FuraFura"@) {
        Heading::Stun
    } else if contains_text(name, "FuraSleep"@) {
        Heading::Sleep
    } else if contains_text(name, "Final"@) {
        Heading::Finals
    } else if contains_text(name, "Swim"@) {
        Heading::Swim
    } else if contains_text(name, "Slip"@) {
        Heading::Trips
    } else if contains_text(name, "Glide"@) {
        Heading::Glide
    } else if contains_text(name, "Shank"@) || contains_text(name, "AttackSquat"@) || contains_text(name, "SquatF"@) || contains_text(name, "SquatB"@) {
        Heading::Crawl
    } else if contains_text(name, "Down"@) {
        Heading::Knockdowns
    } else if contains_text(name, "AirCatch"@) {
        Heading::Misc
    } else if contains_text(name, "Catch"@) || starts_with_text(name, "Throw"@) && !contains_text(name, "Thrown"@) {
        Heading::Grabs
    } else if !starts_with_text(name, "Throw"@) && contains_text(name, "Throw"@) && !contains_text(name, "Thrown"@) {
        Heading::ItemThrow
    } else if contains_text(name, "Step"@) {
        Heading::Footstool
    } else if contains_text(name, "Fall"@) || contains_text(name, "Landing"@) {
        Heading::Movements
    } else if contains_text(name, "Special"@) {
        Heading::Specials
    } else if contains_text(name, "AttackEnd"@) {
        Heading::Misc
    } else if contains_text(name, "Attack"@) {
        if contains_text(name, "Air"@) {
            Heading::AttacksAerial
        } else if first_digit(name) == Some('1') {
            Heading::AttacksJab
        } else if first_digit(name) == Some('3') {
            Heading::AttacksTilt
        } else if first_digit(name) == Some('4') {
            Heading::AttacksSmash
        } else {
            Heading::AttacksDash
        }
    } else if contains_text(name, "Appeal"@) || contains_text(name, "Win"@) || name == "Lose"@ {
        Heading::Taunts
    } else if contains_text(name, "Wait"@) || contains_text(name, "Dash"@) || contains_text(name, "Run"@) || contains_text(name, "Turn"@) || contains_text(name, "Walk"@) || contains_text(name, "Jump"@,
    ) || contains_text(name, "MissFoot"@) || contains_text(name, "Ottotto"@) || contains_text(name, "Squat"@) {
        Heading::Movements
    } else if contains_text(name, "Stop"@) || contains_text(name, "PassiveWallJump"@) {
        Heading::WallCeilingTech
    } else if contains_text(name, "Escape"@) || contains_text(name, "Guard"@) {
        Heading::Dodges
    } else if contains_text(name, "NONE"@) || starts_with_text(name, "_"@) {
        Heading::NoneNames
    } else {
        Heading::Misc
    }
}

/// Each subaction is listed under the heading of the first of these rules that its name
/// meets, in this order: ledge options (Cliff), items (Item, Gekikara), miscellaneous
/// grabbed and held states (Ganon, Snake, Bitten, Stick, Rope, Ladder, Egg, Capture,
/// Zitabata, Swing), stun (FuraFura), sleep (FuraSleep), finals (Final), swimming (Swim),
/// trips (Slip), gliding (Glide), crawling (Shank, AttackSquat, SquatF, SquatB), knockdowns
/// (Down), air catches as miscellaneous (AirCatch), grabs (Catch, or starting with Throw
/// but not Thrown), item throws (Throw elsewhere, not Thrown), footstools (Step), falls and
/// landings as movements (Fall, Landing), specials (Special), attack ends as miscellaneous
/// (AttackEnd), attacks (aerial with Air, else jab, tilt or smash by the first digit 1, 3
/// or 4, else dash attacks), taunts (Appeal, Win, Lose), movements (Wait, Dash, Run, Turn,
/// Walk, Jump, MissFoot, Ottotto, Squat), wall and ceiling techs (Stop, PassiveWallJump),
/// dodges (Escape, Guard), unnamed ones (NONE, or starting with _), and miscellaneous for
/// the rest.
pub proof fn lemma_heading_rules(name: Seq<char>)
    ensures
        (contains_text(name, "Cliff"@))
            ==> heading_of(name) == Heading::LedgeOptions,
        (contains_text(name, "Item"@) || contains_text(name, "Gekikara"@))
            && !(contains_text(name, "Cliff"@))
            ==> heading_of(name) == Heading::Item,
        (contains_text(name, "Ganon"@) || contains_text(name, "Snake"@) || contains_text(name, "Bitten"@) || contains_text(name, "Stick"@) || contains_text(name, "Rope"@) || contains_text(name, "Ladder"@) || contains_text(name, "Egg"@) || contains_text(name, "Capture"@) || contains_text(name, "Zitabata"@) || contains_text(name, "Swing"@))
            && !(contains_text(name, "Cliff"@))
            && !(contains_text(name, "Item"@) || contains_text(name, "Gekikara"@))
            ==> heading_of(name) == Heading::Misc,
        (contains_text(name, "FuraFura"@))
            && !(contains_text(name, "Cliff"@))
            && !(contains_text(name, "Item"@) || contains_text(name, "Gekikara"@))
            && !(contains_text(name, "Ganon"@) || contains_text(name, "Snake"@) || contains_text(name, "Bitten"@) || contains_text(name, "Stick"@) || contains_text(name, "Rope"@) || contains_text(name, "Ladder"@) || contains_text(name, "Egg"@) || contains_text(name, "Capture"@) || contains_text(name, "Zitabata"@) || contains_text(name, "Swing"@))
            ==> heading_of(name) == Heading::Stun,
        (contains_text(name, "FuraSleep"@))
            && !(contains_text(name, "Cliff"@))
            && !(contains_text(name, "Item"@) || contains_text(name, "Gekikara"@))
            && !(contains_text(name, "Ganon"@) || contains_text(name, "Snake"@) || contains_text(name, "Bitten"@) || contains_text(name, "Stick"@) || contains_text(name, "Rope"@) || contains_text(name, "Ladder"@) || contains_text(name, "Egg"@) || contains_text(name, "Capture"@) || contains_text(name, "Zitabata"@) || contains_text(name, "Swing"@))
            && !(contains_text(name, "FuraFura"@))
            ==> heading_of(name) == Heading::Sleep,
        (contains_text(name, "Final"@))
            && !(contains_text(name, "Cliff"@))
            && !(contains_text(name, "Item"@) || contains_text(name, "Gekikara"@))
            && !(contains_text(name, "Ganon"@) || contains_text(name, "Snake"@) || contains_text(name, "Bitten"@) || contains_text(name, "Stick"@) || contains_text(name, "Rope"@) || contains_text(name, "Ladder"@) || contains_text(name, "Egg"@) || contains_text(name, "Capture"@) || contains_text(name, "Zitabata"@) || contains_text(name, "Swing"@))
            && !(contains_text(name, "FuraFura"@))
            && !(contains_text(name, "FuraSleep"@))
            ==> heading_of(name) == Heading::Finals,
        (contains_text(name, "Swim"@))
            && !(contains_text(name, "Cliff"@))
            && !(contains_text(name, "Item"@) || contains_text(name, "Gekikara"@))
            && !(contains_text(name, "Ganon"@) || contains_text(name, "Snake"@) || contains_text(name, "Bitten"@) || contains_text(name, "Stick"@) || contains_text(name, "Rope"@) || contains_text(name, "Ladder"@) || contains_text(name, "Egg"@) || contains_text(name, "Capture"@) || contains_text(name, "Zitabata"@) || contains_text(name, "Swing"@))
            && !(contains_text(name, "FuraFura"@))
            && !(contains_text(name, "FuraSleep"@))
            && !(contains_text(name, "Final"@))
            ==> heading_of(name) == Heading::Swim,
        (contains_text(name, "Slip"@))
            && !(contains_text(name, "Cliff"@))
            && !(contains_text(name, "Item"@) || contains_text(name, "Gekikara"@))
            && !(contains_text(name, "Ganon"@) || contains_text(name, "Snake"@) || contains_text(name, "Bitten"@) || contains_text(name, "Stick"@) || contains_text(name, "Rope"@) || contains_text(name, "Ladder"@) || contains_text(name, "Egg"@) || contains_text(name, "Capture"@) || contains_text(name, "Zitabata"@) || contains_text(name, "Swing"@))
            && !(contains_text(name, "FuraFura"@))
            && !(contains_text(name, "FuraSleep"@))
            && !(contains_text(name, "Final"@))
            && !(contains_text(name, "Swim"@))
            ==> heading_of(name) == Heading::Trips,
        (contains_text(name, "Glide"@))
            && !(contains_text(name, "Cliff"@))
            && !(contains_text(name, "Item"@) || contains_text(name, "Gekikara"@))
            && !(contains_text(name, "Ganon"@) || contains_text(name, "Snake"@) || contains_text(name, "Bitten"@) || contains_text(name, "Stick"@) || contains_text(name, "Rope"@) || contains_text(name, "Ladder"@) || contains_text(name, "Egg"@) || contains_text(name, "Capture"@) || contains_text(name, "Zitabata"@) || contains_text(name, "Swing"@))
            && !(contains_text(name, "FuraFura"@))
            && !(contains_text(name, "FuraSleep"@))
            && !(contains_text(name, "Final"@))
            && !(contains_text(name, "Swim"@))
            && !(contains_text(name, "Slip"@))
            ==> heading_of(name) == Heading::Glide,
        (contains_text(name, "Shank"@) || contains_text(name, "AttackSquat"@) || contains_text(name, "SquatF"@) || contains_text(name, "SquatB"@))
            && !(contains_text(name, "Cliff"@))
            && !(contains_text(name, "Item"@) || contains_text(name, "Gekikara"@))
            && !(contains_text(name, "Ganon"@) || contains_text(name, "Snake"@) || contains_text(name, "Bitten"@) || contains_text(name, "Stick"@) || contains_text(name, "Rope"@) || contains_text(name, "Ladder"@) || contains_text(name, "Egg"@) || contains_text(name, "Capture"@) || contains_text(name, "Zitabata"@) || contains_text(name, "Swing"@))
            && !(contains_text(name, "FuraFura"@))
            && !(contains_text(name, "FuraSleep"@))
            && !(contains_text(name, "Final"@))
            && !(contains_text(name, "Swim"@))
            && !(contains_text(name, "Slip"@))
            && !(contains_text(name, "Glide"@))
            ==> heading_of(name) == Heading::Crawl,
        (contains_text(name, "Down"@))
            && !(contains_text(name, "Cliff"@))
            && !(contains_text(name, "Item"@) || contains_text(name, "Gekikara"@))
            && !(contains_text(name, "Ganon"@) || contains_text(name, "Snake"@) || contains_text(name, "Bitten"@) || contains_text(name, "Stick"@) || contains_text(name, "Rope"@) || contains_text(name, "Ladder"@) || contains_text(name, "Egg"@) || contains_text(name, "Capture"@) || contains_text(name, "Zitabata"@) || contains_text(name, "Swing"@))
            && !(contains_text(name, "FuraFura"@))
            && !(contains_text(name, "FuraSleep"@))
            && !(contains_text(name, "Final"@))
            && !(contains_text(name, "Swim"@))
            && !(contains_text(name, "Slip"@))
            && !(contains_text(name, "Glide"@))
            && !(contains_text(name, "Shank"@) || contains_text(name, "AttackSquat"@) || contains_text(name, "SquatF"@) || contains_text(name, "SquatB"@))
            ==> heading_of(name) == Heading::Knockdowns,
        (contains_text(name, "AirCatch"@))
            && !(contains_text(name, "Cliff"@))
            && !(contains_text(name, "Item"@) || contains_text(name, "Gekikara"@))
            && !(contains_text(name, "Ganon"@) || contains_text(name, "Snake"@) || contains_text(name, "Bitten"@) || contains_text(name, "Stick"@) || contains_text(name, "Rope"@) || contains_text(name, "Ladder"@) || contains_text(name, "Egg"@) || contains_text(name, "Capture"@) || contains_text(name, "Zitabata"@) || contains_text(name, "Swing"@))
            && !(contains_text(name, "FuraFura"@))
            && !(contains_text(name, "FuraSleep"@))
            && !(contains_text(name, "Final"@))
            && !(contains_text(name, "Swim"@))
            && !(contains_text(name, "Slip"@))
            && !(contains_text(name, "Glide"@))
            && !(contains_text(name, "Shank"@) || contains_text(name, "AttackSquat"@) || contains_text(name, "SquatF"@) || contains_text(name, "SquatB"@))
            && !(contains_text(name, "Down"@))
            ==> heading_of(name) == Heading::Misc,
        (contains_text(name, "Catch"@))
            && !(contains_text(name, "Cliff"@))
            && !(contains_text(name, "Item"@) || contains_text(name, "Gekikara"@))
            && !(contains_text(name, "Ganon"@) || contains_text(name, "Snake"@) || contains_text(name, "Bitten"@) || contains_text(name, "Stick"@) || contains_text(name, "Rope"@) || contains_text(name, "Ladder"@) || contains_text(name, "Egg"@) || contains_text(name, "Capture"@) || contains_text(name, "Zitabata"@) || contains_text(name, "Swing"@))
            && !(contains_text(name, "FuraFura"@))
            && !(contains_text(name, "FuraSleep"@))
            && !(contains_text(name, "Final"@))
            && !(contains_text(name, "Swim"@))
            && !(contains_text(name, "Slip"@))
            && !(contains_text(name, "Glide"@))
            && !(contains_text(name, "Shank"@) || contains_text(name, "AttackSquat"@) || contains_text(name, "SquatF"@) || contains_text(name, "SquatB"@))
            && !(contains_text(name, "Down"@))
            && !(contains_text(name, "AirCatch"@))
            ==> heading_of(name) == Heading::Grabs,
        (starts_with_text(name, "Throw"@) && !contains_text(name, "Thrown"@))
            && !(contains_text(name, "Cliff"@))
            && !(contains_text(name, "Item"@) || contains_text(name, "Gekikara"@))
            && !(contains_text(name, "Ganon"@) || contains_text(name, "Snake"@) || contains_text(name, "Bitten"@) || contains_text(name, "Stick"@) || contains_text(name, "Rope"@) || contains_text(name, "Ladder"@) || contains_text(name, "Egg"@) || contains_text(name, "Capture"@) || contains_text(name, "Zitabata"@) || contains_text(name, "Swing"@))
            && !(contains_text(name, "FuraFura"@))
            && !(contains_text(name, "FuraSleep"@))
            && !(contains_text(name, "Final"@))
            && !(contains_text(name, "Swim"@))
            && !(contains_text(name, "Slip"@))
            && !(contains_text(name, "Glide"@))
            && !(contains_text(name, "Shank"@) || contains_text(name, "AttackSquat"@) || contains_text(name, "SquatF"@) || contains_text(name, "SquatB"@))
            && !(contains_text(name, "Down"@))
            && !(contains_text(name, "AirCatch"@))
            && !(contains_text(name, "Catch"@))
            ==> heading_of(name) == Heading::Grabs,
        (!starts_with_text(name, "Throw"@) && contains_text(name, "Throw"@) && !contains_text(name, "Thrown"@))
            && !(contains_text(name, "Cliff"@))
            && !(contains_text(name, "Item"@) || contains_text(name, "Gekikara"@))
            && !(contains_text(name, "Ganon"@) || contains_text(name, "Snake"@) || contains_text(name, "Bitten"@) || contains_text(name, "Stick"@) || contains_text(name, "Rope"@) || contains_text(name, "Ladder"@) || contains_text(name, "Egg"@) || contains_text(name, "Capture"@) || contains_text(name, "Zitabata"@) || contains_text(name, "Swing"@))
            && !(contains_text(name, "FuraFura"@))
            && !(contains_text(name, "FuraSleep"@))
            && !(contains_text(name, "Final"@))
            && !(contains_text(name, "Swim"@))
            && !(contains_text(name, "Slip"@))
            && !(contains_text(name, "Glide"@))
            && !(contains_text(name, "Shank"@) || contains_text(name, "AttackSquat"@) || contains_text(name, "SquatF"@) || contains_text(name, "SquatB"@))
            && !(contains_text(name, "Down"@))
            && !(contains_text(name, "AirCatch"@))
            && !(contains_text(name, "Catch"@))
            && !(starts_with_text(name, "Throw"@) && !contains_text(name, "Thrown"@))
            ==> heading_of(name) == Heading::ItemThrow,
        (contains_text(name, "Step"@))
            && !(contains_text(name, "Cliff"@))
            && !(contains_text(name, "Item"@) || contains_text(name, "Gekikara"@))
            && !(contains_text(name, "Ganon"@) || contains_text(name, "Snake"@) || contains_text(name, "Bitten"@) || contains_text(name, "Stick"@) || contains_text(name, "Rope"@) || contains_text(name, "Ladder"@) || contains_text(name, "Egg"@) || contains_text(name, "Capture"@) || contains_text(name, "Zitabata"@) || contains_text(name, "Swing"@))
            && !(contains_text(name, "FuraFura"@))
            && !(contains_text(name, "FuraSleep"@))
            && !(contains_text(name, "Final"@))
            && !(contains_text(name, "Swim"@))
            && !(contains_text(name, "Slip"@))
            && !(contains_text(name, "Glide"@))
            && !(contains_text(name, "Shank"@) || contains_text(name, "AttackSquat"@) || contains_text(name, "SquatF"@) || contains_text(name, "SquatB"@))
            && !(contains_text(name, "Down"@))
            && !(contains_text(name, "AirCatch"@))
            && !(contains_text(name, "Catch"@))
            && !(starts_with_text(name, "Throw"@) && !contains_text(name, "Thrown"@))
            && !(!starts_with_text(name, "Throw"@) && contains_text(name, "Throw"@) && !contains_text(name, "Thrown"@))
            ==> heading_of(name) == Heading::Footstool,
        (contains_text(name, "Fall"@) || contains_text(name, "Landing"@))
            && !(contains_text(name, "Cliff"@))
            && !(contains_text(name, "Item"@) || contains_text(name, "Gekikara"@))
            && !(contains_text(name, "Ganon"@) || contains_text(name, "Snake"@) || contains_text(name, "Bitten"@) || contains_text(name, "Stick"@) || contains_text(name, "Rope"@) || contains_text(name, "Ladder"@) || contains_text(name, "Egg"@) || contains_text(name, "Capture"@) || contains_text(name, "Zitabata"@) || contains_text(name, "Swing"@))
            && !(contains_text(name, "FuraFura"@))
            && !(contains_text(name, "FuraSleep"@))
            && !(contains_text(name, "Final"@))
            && !(contains_text(name, "Swim"@))
            && !(contains_text(name, "Slip"@))
            && !(contains_text(name, "Glide"@))
            && !(contains_text(name, "Shank"@) || contains_text(name, "AttackSquat"@) || contains_text(name, "SquatF"@) || contains_text(name, "SquatB"@))
            && !(contains_text(name, "Down"@))
            && !(contains_text(name, "AirCatch"@))
            && !(contains_text(name, "Catch"@))
            && !(starts_with_text(name, "Throw"@) && !contains_text(name, "Thrown"@))
            && !(!starts_with_text(name, "Throw"@) && contains_text(name, "Throw"@) && !contains_text(name, "Thrown"@))
            && !(contains_text(name, "Step"@))
            ==> heading_of(name) == Heading::Movements,
        (contains_text(name, "Special"@))
            && !(contains_text(name, "Cliff"@))
            && !(contains_text(name, "Item"@) || contains_text(name, "Gekikara"@))
            && !(contains_text(name, "Ganon"@) || contains_text(name, "Snake"@) || contains_text(name, "Bitten"@) || contains_text(name, "Stick"@) || contains_text(name, "Rope"@) || contains_text(name, "Ladder"@) || contains_text(name, "Egg"@) || contains_text(name, "Capture"@) || contains_text(name, "Zitabata"@) || contains_text(name, "Swing"@))
            && !(contains_text(name, "FuraFura"@))
            && !(contains_text(name, "FuraSleep"@))
            && !(contains_text(name, "Final"@))
            && !(contains_text(name, "Swim"@))
            && !(contains_text(name, "Slip"@))
            && !(contains_text(name, "Glide"@))
            && !(contains_text(name, "Shank"@) || contains_text(name, "AttackSquat"@) || contains_text(name, "SquatF"@) || contains_text(name, "SquatB"@))
            && !(contains_text(name, "Down"@))
            && !(contains_text(name, "AirCatch"@))
            && !(contains_text(name, "Catch"@))
            && !(starts_with_text(name, "Throw"@) && !contains_text(name, "Thrown"@))
            && !(!starts_with_text(name, "Throw"@) && contains_text(name, "Throw"@) && !contains_text(name, "Thrown"@))
            && !(contains_text(name, "Step"@))
            && !(contains_text(name, "Fall"@) || contains_text(name, "Landing"@))
            ==> heading_of(name) == Heading::Specials,
        (contains_text(name, "AttackEnd"@))
            && !(contains_text(name, "Cliff"@))
            && !(contains_text(name, "Item"@) || contains_text(name, "Gekikara"@))
            && !(contains_text(name, "Ganon"@) || contains_text(name, "Snake"@) || contains_text(name, "Bitten"@) || contains_text(name, "Stick"@) || contains_text(name, "Rope"@) || contains_text(name, "Ladder"@) || contains_text(name, "Egg"@) || contains_text(name, "Capture"@) || contains_text(name, "Zitabata"@) || contains_text(name, "Swing"@))
            && !(contains_text(name, "FuraFura"@))
            && !(contains_text(name, "FuraSleep"@))
            && !(contains_text(name, "Final"@))
            && !(contains_text(name, "Swim"@))
            && !(contains_text(name, "Slip"@))
            && !(contains_text(name, "Glide"@))
            && !(contains_text(name, "Shank"@) || contains_text(name, "AttackSquat"@) || contains_text(name, "SquatF"@) || contains_text(name, "SquatB"@))
            && !(contains_text(name, "Down"@))
            && !(contains_text(name, "AirCatch"@))
            && !(contains_text(name, "Catch"@))
            && !(starts_with_text(name, "Throw"@) && !contains_text(name, "Thrown"@))
            && !(!starts_with_text(name, "Throw"@) && contains_text(name, "Throw"@) && !contains_text(name, "Thrown"@))
            && !(contains_text(name, "Step"@))
            && !(contains_text(name, "Fall"@) || contains_text(name, "Landing"@))
            && !(contains_text(name, "Special"@))
            ==> heading_of(name) == Heading::Misc,
        (contains_text(name, "Attack"@)) && contains_text(name, "Air"@)
            && !(contains_text(name, "Cliff"@))
            && !(contains_text(name, "Item"@) || contains_text(name, "Gekikara"@))
            && !(contains_text(name, "Ganon"@) || contains_text(name, "Snake"@) || contains_text(name, "Bitten"@) || contains_text(name, "Stick"@) || contains_text(name, "Rope"@) || contains_text(name, "Ladder"@) || contains_text(name, "Egg"@) || contains_text(name, "Capture"@) || contains_text(name, "Zitabata"@) || contains_text(name, "Swing"@))
            && !(contains_text(name, "FuraFura"@))
            && !(contains_text(name, "FuraSleep"@))
            && !(contains_text(name, "Final"@))
            && !(contains_text(name, "Swim"@))
            && !(contains_text(name, "Slip"@))
            && !(contains_text(name, "Glide"@))
            && !(contains_text(name, "Shank"@) || contains_text(name, "AttackSquat"@) || contains_text(name, "SquatF"@) || contains_text(name, "SquatB"@))
            && !(contains_text(name, "Down"@))
            && !(contains_text(name, "AirCatch"@))
            && !(contains_text(name, "Catch"@))
            && !(starts_with_text(name, "Throw"@) && !contains_text(name, "Thrown"@))
            && !(!starts_with_text(name, "Throw"@) && contains_text(name, "Throw"@) && !contains_text(name, "Thrown"@))
            && !(contains_text(name, "Step"@))
            && !(contains_text(name, "Fall"@) || contains_text(name, "Landing"@))
            && !(contains_text(name, "Special"@))
            && !(contains_text(name, "AttackEnd"@))
            ==> heading_of(name) == Heading::AttacksAerial,
        (contains_text(name, "Attack"@)) && !contains_text(name, "Air"@) && first_digit(name) == Some('1')
            && !(contains_text(name, "Cliff"@))
            && !(contains_text(name, "Item"@) || contains_text(name, "Gekikara"@))
            && !(contains_text(name, "Ganon"@) || contains_text(name, "Snake"@) || contains_text(name, "Bitten"@) || contains_text(name, "Stick"@) || contains_text(name, "Rope"@) || contains_text(name, "Ladder"@) || contains_text(name, "Egg"@) || contains_text(name, "Capture"@) || contains_text(name, "Zitabata"@) || contains_text(name, "Swing"@))
            && !(contains_text(name, "FuraFura"@))
            && !(contains_text(name, "FuraSleep"@))
            && !(contains_text(name, "Final"@))
            && !(contains_text(name, "Swim"@))
            && !(contains_text(name, "Slip"@))
            && !(contains_text(name, "Glide"@))
            && !(contains_text(name, "Shank"@) || contains_text(name, "AttackSquat"@) || contains_text(name, "SquatF"@) || contains_text(name, "SquatB"@))
            && !(contains_text(name, "Down"@))
            && !(contains_text(name, "AirCatch"@))
            && !(contains_text(name, "Catch"@))
            && !(starts_with_text(name, "Throw"@) && !contains_text(name, "Thrown"@))
            && !(!starts_with_text(name, "Throw"@) && contains_text(name, "Throw"@) && !contains_text(name, "Thrown"@))
            && !(contains_text(name, "Step"@))
            && !(contains_text(name, "Fall"@) || contains_text(name, "Landing"@))
            && !(contains_text(name, "Special"@))
            && !(contains_text(name, "AttackEnd"@))
            ==> heading_of(name) == Heading::AttacksJab,
        (contains_text(name, "Attack"@)) && !contains_text(name, "Air"@) && first_digit(name) == Some('3')
            && !(contains_text(name, "Cliff"@))
            && !(contains_text(name, "Item"@) || contains_text(name, "Gekikara"@))
            && !(contains_text(name, "Ganon"@) || contains_text(name, "Snake"@) || contains_text(name, "Bitten"@) || contains_text(name, "Stick"@) || contains_text(name, "Rope"@) || contains_text(name, "Ladder"@) || contains_text(name, "Egg"@) || contains_text(name, "Capture"@) || contains_text(name, "Zitabata"@) || contains_text(name, "Swing"@))
            && !(contains_text(name, "FuraFura"@))
            && !(contains_text(name, "FuraSleep"@))
            && !(contains_text(name, "Final"@))
            && !(contains_text(name, "Swim"@))
            && !(contains_text(name, "Slip"@))
            && !(contains_text(name, "Glide"@))
            && !(contains_text(name, "Shank"@) || contains_text(name, "AttackSquat"@) || contains_text(name, "SquatF"@) || contains_text(name, "SquatB"@))
            && !(contains_text(name, "Down"@))
            && !(contains_text(name, "AirCatch"@))
            && !(contains_text(name, "Catch"@))
            && !(starts_with_text(name, "Throw"@) && !contains_text(name, "Thrown"@))
            && !(!starts_with_text(name, "Throw"@) && contains_text(name, "Throw"@) && !contains_text(name, "Thrown"@))
            && !(contains_text(name, "Step"@))
            && !(contains_text(name, "Fall"@) || contains_text(name, "Landing"@))
            && !(contains_text(name, "Special"@))
            && !(contains_text(name, "AttackEnd"@))
            ==> heading_of(name) == Heading::AttacksTilt,
        (contains_text(name, "Attack"@)) && !contains_text(name, "Air"@) && first_digit(name) == Some('4')
            && !(contains_text(name, "Cliff"@))
            && !(contains_text(name, "Item"@) || contains_text(name, "Gekikara"@))
            && !(contains_text(name, "Ganon"@) || contains_text(name, "Snake"@) || contains_text(name, "Bitten"@) || contains_text(name, "Stick"@) || contains_text(name, "Rope"@) || contains_text(name, "Ladder"@) || contains_text(name, "Egg"@) || contains_text(name, "Capture"@) || contains_text(name, "Zitabata"@) || contains_text(name, "Swing"@))
            && !(contains_text(name, "FuraFura"@))
            && !(contains_text(name, "FuraSleep"@))
            && !(contains_text(name, "Final"@))
            && !(contains_text(name, "Swim"@))
            && !(contains_text(name, "Slip"@))
            && !(contains_text(name, "Glide"@))
            && !(contains_text(name, "Shank"@) || contains_text(name, "AttackSquat"@) || contains_text(name, "SquatF"@) || contains_text(name, "SquatB"@))
            && !(contains_text(name, "Down"@))
            && !(contains_text(name, "AirCatch"@))
            && !(contains_text(name, "Catch"@))
            && !(starts_with_text(name, "Throw"@) && !contains_text(name, "Thrown"@))
            && !(!starts_with_text(name, "Throw"@) && contains_text(name, "Throw"@) && !contains_text(name, "Thrown"@))
            && !(contains_text(name, "Step"@))
            && !(contains_text(name, "Fall"@) || contains_text(name, "Landing"@))
            && !(contains_text(name, "Special"@))
            && !(contains_text(name, "AttackEnd"@))
            ==> heading_of(name) == Heading::AttacksSmash,
        (contains_text(name, "Attack"@)) && !contains_text(name, "Air"@) && first_digit(name) != Some('1') && first_digit(name) != Some('3') && first_digit(name) != Some('4')
            && !(contains_text(name, "Cliff"@))
            && !(contains_text(name, "Item"@) || contains_text(name, "Gekikara"@))
            && !(contains_text(name, "Ganon"@) || contains_text(name, "Snake"@) || contains_text(name, "Bitten"@) || contains_text(name, "Stick"@) || contains_text(name, "Rope"@) || contains_text(name, "Ladder"@) || contains_text(name, "Egg"@) || contains_text(name, "Capture"@) || contains_text(name, "Zitabata"@) || contains_text(name, "Swing"@))
            && !(contains_text(name, "FuraFura"@))
            && !(contains_text(name, "FuraSleep"@))
            && !(contains_text(name, "Final"@))
            && !(contains_text(name, "Swim"@))
            && !(contains_text(name, "Slip"@))
            && !(contains_text(name, "Glide"@))
            && !(contains_text(name, "Shank"@) || contains_text(name, "AttackSquat"@) || contains_text(name, "SquatF"@) || contains_text(name, "SquatB"@))
            && !(contains_text(name, "Down"@))
            && !(contains_text(name, "AirCatch"@))
            && !(contains_text(name, "Catch"@))
            && !(starts_with_text(name, "Throw"@) && !contains_text(name, "Thrown"@))
            && !(!starts_with_text(name, "Throw"@) && contains_text(name, "Throw"@) && !contains_text(name, "Thrown"@))
            && !(contains_text(name, "Step"@))
            && !(contains_text(name, "Fall"@) || contains_text(name, "Landing"@))
            && !(contains_text(name, "Special"@))
            && !(contains_text(name, "AttackEnd"@))
            ==> heading_of(name) == Heading::AttacksDash,
        (contains_text(name, "Appeal"@) || contains_text(name, "Win"@) || name == "Lose"@)
            && !(contains_text(name, "Cliff"@))
            && !(contains_text(name, "Item"@) || contains_text(name, "Gekikara"@))
            && !(contains_text(name, "Ganon"@) || contains_text(name, "Snake"@) || contains_text(name, "Bitten"@) || contains_text(name, "Stick"@) || contains_text(name, "Rope"@) || contains_text(name, "Ladder"@) || contains_text(name, "Egg"@) || contains_text(name, "Capture"@) || contains_text(name, "Zitabata"@) || contains_text(name, "Swing"@))
            && !(contains_text(name, "FuraFura"@))
            && !(contains_text(name, "FuraSleep"@))
            && !(contains_text(name, "Final"@))
            && !(contains_text(name, "Swim"@))
            && !(contains_text(name, "Slip"@))
            && !(contains_text(name, "Glide"@))
            && !(contains_text(name, "Shank"@) || contains_text(name, "AttackSquat"@) || contains_text(name, "SquatF"@) || contains_text(name, "SquatB"@))
            && !(contains_text(name, "Down"@))
            && !(contains_text(name, "AirCatch"@))
            && !(contains_text(name, "Catch"@))
            && !(starts_with_text(name, "Throw"@) && !contains_text(name, "Thrown"@))
            && !(!starts_with_text(name, "Throw"@) && contains_text(name, "Throw"@) && !contains_text(name, "Thrown"@))
            && !(contains_text(name, "Step"@))
            && !(contains_text(name, "Fall"@) || contains_text(name, "Landing"@))
            && !(contains_text(name, "Special"@))
            && !(contains_text(name, "AttackEnd"@))
            && !(contains_text(name, "Attack"@))
            ==> heading_of(name) == Heading::Taunts,
        (contains_text(name, "Wait"@) || contains_text(name, "Dash"@) || contains_text(name, "Run"@) || contains_text(name, "Turn"@) || contains_text(name, "Walk"@) || contains_text(name, "Jump"@) || contains_text(name, "MissFoot"@) || contains_text(name, "Ottotto"@) || contains_text(name, "Squat"@))
            && !(contains_text(name, "Cliff"@))
            && !(contains_text(name, "Item"@) || contains_text(name, "Gekikara"@))
            && !(contains_text(name, "Ganon"@) || contains_text(name, "Snake"@) || contains_text(name, "Bitten"@) || contains_text(name, "Stick"@) || contains_text(name, "Rope"@) || contains_text(name, "Ladder"@) || contains_text(name, "Egg"@) || contains_text(name, "Capture"@) || contains_text(name, "Zitabata"@) || contains_text(name, "Swing"@))
            && !(contains_text(name, "FuraFura"@))
            && !(contains_text(name, "FuraSleep"@))
            && !(contains_text(name, "Final"@))
            && !(contains_text(name, "Swim"@))
            && !(contains_text(name, "Slip"@))
            && !(contains_text(name, "Glide"@))
            && !(contains_text(name, "Shank"@) || contains_text(name, "AttackSquat"@) || contains_text(name, "SquatF"@) || contains_text(name, "SquatB"@))
            && !(contains_text(name, "Down"@))
            && !(contains_text(name, "AirCatch"@))
            && !(contains_text(name, "Catch"@))
            && !(starts_with_text(name, "Throw"@) && !contains_text(name, "Thrown"@))
            && !(!starts_with_text(name, "Throw"@) && contains_text(name, "Throw"@) && !contains_text(name, "Thrown"@))
            && !(contains_text(name, "Step"@))
            && !(contains_text(name, "Fall"@) || contains_text(name, "Landing"@))
            && !(contains_text(name, "Special"@))
            && !(contains_text(name, "AttackEnd"@))
            && !(contains_text(name, "Attack"@))
            && !(contains_text(name, "Appeal"@) || contains_text(name, "Win"@) || name == "Lose"@)
            ==> heading_of(name) == Heading::Movements,
        (contains_text(name, "Stop"@) || contains_text(name, "PassiveWallJump"@))
            && !(contains_text(name, "Cliff"@))
            && !(contains_text(name, "Item"@) || contains_text(name, "Gekikara"@))
            && !(contains_text(name, "Ganon"@) || contains_text(name, "Snake"@) || contains_text(name, "Bitten"@) || contains_text(name, "Stick"@) || contains_text(name, "Rope"@) || contains_text(name, "Ladder"@) || contains_text(name, "Egg"@) || contains_text(name, "Capture"@) || contains_text(name, "Zitabata"@) || contains_text(name, "Swing"@))
            && !(contains_text(name, "FuraFura"@))
            && !(contains_text(name, "FuraSleep"@))
            && !(contains_text(name, "Final"@))
            && !(contains_text(name, "Swim"@))
            && !(contains_text(name, "Slip"@))
            && !(contains_text(name, "Glide"@))
            && !(contains_text(name, "Shank"@) || contains_text(name, "AttackSquat"@) || contains_text(name, "SquatF"@) || contains_text(name, "SquatB"@))
            && !(contains_text(name, "Down"@))
            && !(contains_text(name, "AirCatch"@))
            && !(contains_text(name, "Catch"@))
            && !(starts_with_text(name, "Throw"@) && !contains_text(name, "Thrown"@))
            && !(!starts_with_text(name, "Throw"@) && contains_text(name, "Throw"@) && !contains_text(name, "Thrown"@))
            && !(contains_text(name, "Step"@))
            && !(contains_text(name, "Fall"@) || contains_text(name, "Landing"@))
            && !(contains_text(name, "Special"@))
            && !(contains_text(name, "AttackEnd"@))
            && !(contains_text(name, "Attack"@))
            && !(contains_text(name, "Appeal"@) || contains_text(name, "Win"@) || name == "Lose"@)
            && !(contains_text(name, "Wait"@) || contains_text(name, "Dash"@) || contains_text(name, "Run"@) || contains_text(name, "Turn"@) || contains_text(name, "Walk"@) || contains_text(name, "Jump"@) || contains_text(name, "MissFoot"@) || contains_text(name, "Ottotto"@) || contains_text(name, "Squat"@))
            ==> heading_of(name) == Heading::WallCeilingTech,
        (contains_text(name, "Escape"@) || contains_text(name, "Guard"@))
            && !(contains_text(name, "Cliff"@))
            && !(contains_text(name, "Item"@) || contains_text(name, "Gekikara"@))
            && !(contains_text(name, "Ganon"@) || contains_text(name, "Snake"@) || contains_text(name, "Bitten"@) || contains_text(name, "Stick"@) || contains_text(name, "Rope"@) || contains_text(name, "Ladder"@) || contains_text(name, "Egg"@) || contains_text(name, "Capture"@) || contains_text(name, "Zitabata"@) || contains_text(name, "Swing"@))
            && !(contains_text(name, "FuraFura"@))
            && !(contains_text(name, "FuraSleep"@))
            && !(contains_text(name, "Final"@))
            && !(contains_text(name, "Swim"@))
            && !(contains_text(name, "Slip"@))
            && !(contains_text(name, "Glide"@))
            && !(contains_text(name, "Shank"@) || contains_text(name, "AttackSquat"@) || contains_text(name, "SquatF"@) || contains_text(name, "SquatB"@))
            && !(contains_text(name, "Down"@))
            && !(contains_text(name, "AirCatch"@))
            && !(contains_text(name, "Catch"@))
            && !(starts_with_text(name, "Throw"@) && !contains_text(name, "Thrown"@))
            && !(!starts_with_text(name, "Throw"@) && contains_text(name, "Throw"@) && !contains_text(name, "Thrown"@))
            && !(contains_text(name, "Step"@))
            && !(contains_text(name, "Fall"@) || contains_text(name, "Landing"@))
            && !(contains_text(name, "Special"@))
            && !(contains_text(name, "AttackEnd"@))
            && !(contains_text(name, "Attack"@))
            && !(contains_text(name, "Appeal"@) || contains_text(name, "Win"@) || name == "Lose"@)
            && !(contains_text(name, "Wait"@) || contains_text(name, "Dash"@) || contains_text(name, "Run"@) || contains_text(name, "Turn"@) || contains_text(name, "Walk"@) || contains_text(name, "Jump"@) || contains_text(name, "MissFoot"@) || contains_text(name, "Ottotto"@) || contains_text(name, "Squat"@))
            && !(contains_text(name, "Stop"@) || contains_text(name, "PassiveWallJump"@))
            ==> heading_of(name) == Heading::Dodges,
        (contains_text(name, "NONE"@) || starts_with_text(name, "_"@))
            && !(contains_text(name, "Cliff"@))
            && !(contains_text(name, "Item"@) || contains_text(name, "Gekikara"@))
            && !(contains_text(name, "Ganon"@) || contains_text(name, "Snake"@) || contains_text(name, "Bitten"@) || contains_text(name, "Stick"@) || contains_text(name, "Rope"@) || contains_text(name, "Ladder"@) || contains_text(name, "Egg"@) || contains_text(name, "Capture"@) || contains_text(name, "Zitabata"@) || contains_text(name, "Swing"@))
            && !(contains_text(name, "FuraFura"@))
            && !(contains_text(name, "FuraSleep"@))
            && !(contains_text(name, "Final"@))
            && !(contains_text(name, "Swim"@))
            && !(contains_text(name, "Slip"@))
            && !(contains_text(name, "Glide"@))
            && !(contains_text(name, "Shank"@) || contains_text(name, "AttackSquat"@) || contains_text(name, "SquatF"@) || contains_text(name, "SquatB"@))
            && !(contains_text(name, "Down"@))
            && !(contains_text(name, "AirCatch"@))
            && !(contains_text(name, "Catch"@))
            && !(starts_with_text(name, "Throw"@) && !contains_text(name, "Thrown"@))
            && !(!starts_with_text(name, "Throw"@) && contains_text(name, "Throw"@) && !contains_text(name, "Thrown"@))
            && !(contains_text(name, "Step"@))
            && !(contains_text(name, "Fall"@) || contains_text(name, "Landing"@))
            && !(contains_text(name, "Special"@))
            && !(contains_text(name, "AttackEnd"@))
            && !(contains_text(name, "Attack"@))
            && !(contains_text(name, "Appeal"@) || contains_text(name, "Win"@) || name == "Lose"@)
            && !(contains_text(name, "Wait"@) || contains_text(name, "Dash"@) || contains_text(name, "Run"@) || contains_text(name, "Turn"@) || contains_text(name, "Walk"@) || contains_text(name, "Jump"@) || contains_text(name, "MissFoot"@) || contains_text(name, "Ottotto"@) || contains_text(name, "Squat"@))
            && !(contains_text(name, "Stop"@) || contains_text(name, "PassiveWallJump"@))
            && !(contains_text(name, "Escape"@) || contains_text(name, "Guard"@))
            ==> heading_of(name) == Heading::NoneNames,
        !(contains_text(name, "Cliff"@))
            && !(contains_text(name, "Item"@) || contains_text(name, "Gekikara"@))
            && !(contains_text(name, "Ganon"@) || contains_text(name, "Snake"@) || contains_text(name, "Bitten"@) || contains_text(name, "Stick"@) || contains_text(name, "Rope"@) || contains_text(name, "Ladder"@) || contains_text(name, "Egg"@) || contains_text(name, "Capture"@) || contains_text(name, "Zitabata"@) || contains_text(name, "Swing"@))
            && !(contains_text(name, "FuraFura"@))
            && !(contains_text(name, "FuraSleep"@))
            && !(contains_text(name, "Final"@))
            && !(contains_text(name, "Swim"@))
            && !(contains_text(name, "Slip"@))
            && !(contains_text(name, "Glide"@))
            && !(contains_text(name, "Shank"@) || contains_text(name, "AttackSquat"@) || contains_text(name, "SquatF"@) || contains_text(name, "SquatB"@))
            && !(contains_text(name, "Down"@))
            && !(contains_text(name, "AirCatch"@))
            && !(contains_text(name, "Catch"@))
            && !(starts_with_text(name, "Throw"@) && !contains_text(name, "Thrown"@))
            && !(!starts_with_text(name, "Throw"@) && contains_text(name, "Throw"@) && !contains_text(name, "Thrown"@))
            && !(contains_text(name, "Step"@))
            && !(contains_text(name, "Fall"@) || contains_text(name, "Landing"@))
            && !(contains_text(name, "Special"@))
            && !(contains_text(name, "AttackEnd"@))
            && !(contains_text(name, "Attack"@))
            && !(contains_text(name, "Appeal"@) || contains_text(name, "Win"@) || name == "Lose"@)
            && !(contains_text(name, "Wait"@) || contains_text(name, "Dash"@) || contains_text(name, "Run"@) || contains_text(name, "Turn"@) || contains_text(name, "Walk"@) || contains_text(name, "Jump"@) || contains_text(name, "MissFoot"@) || contains_text(name, "Ottotto"@) || contains_text(name, "Squat"@))
            && !(contains_text(name, "Stop"@) || contains_text(name, "PassiveWallJump"@))
            && !(contains_text(name, "Escape"@) || contains_text(name, "Guard"@))
            && !(contains_text(name, "NONE"@) || starts_with_text(name, "_"@))
            ==> heading_of(name) == Heading::Misc,
{
}

/// The characters of a string slice.
pub fn chars_of(s: &str) -> (chars: Vec<char>)
    ensures
        chars@ == s@,
{
    let n = s.unicode_len();
    let mut chars: Vec<char> = Vec::new();
    let mut i: usize = 0;
    while i < n
        invariant
            n == s@.len(),
            i <= n,
            chars@ =~= s@.take(i as int),
        decreases n - i,
    {
        chars.push(s.get_char(i));
        i += 1;
    }
    chars
}

/// Whether `pattern` occurs in `text`.
pub fn chars_contain(text: &Vec<char>, pattern: &str) -> (found: bool)
    ensures
        found == contains_text(text@, pattern@),
{
    let p = chars_of(pattern);
    let n = text.len();
    let m = p.len();
    if m > n {
        return false;
    }
    let mut i: usize = 0;
    while i <= n - m
        invariant
            n == text@.len(),
            m == p@.len(),
            p@ == pattern@,
            m <= n,
            i <= n - m + 1,
            forall|k: int| 0 <= k < i ==> #[trigger] text@.subrange(k, k + m) != pattern@,
        decreases n - m + 1 - i,
    {
        let mut j: usize = 0;
        while j < m && text[i + j] == p[j]
            invariant
                n == text@.len(),
                m == p@.len(),
                i + m <= n,
                j <= m,
                forall|k: int| 0 <= k < j ==> text@[i + k] == p@[k],
            decreases m - j,
        {
            j += 1;
        }
        if j == m {
            assert(text@.subrange(i as int, i + m) =~= pattern@);
            return true;
        }
        assert(text@.subrange(i as int, i + m)[j as int] != pattern@[j as int]);
        i += 1;
    }
    proof {
        assert forall|k: int| 0 <= k && k + pattern@.len() <= text@.len() implies #[trigger] text@.subrange(
            k,
            k + pattern@.len(),
        ) != pattern@ by {
            assert(k < i);
        }
    }
    false
}

/// Whether `text` starts with `pattern`.
pub fn chars_start_with(text: &Vec<char>, pattern: &str) -> (found: bool)
    ensures
        found == starts_with_text(text@, pattern@),
{
    let p = chars_of(pattern);
    if p.len() > text.len() {
        return false;
    }
    let mut j: usize = 0;
    while j < p.len()
        invariant
            p@ == pattern@,
            p.len() <= text.len(),
            j <= p.len(),
            forall|k: int| 0 <= k < j ==> text@[k] == p@[k],
        decreases p.len() - j,
    {
        if text[j] != p[j] {
            assert(text@.subrange(0, p.len() as int)[j as int] != pattern@[j as int]);
            return false;
        }
        j += 1;
    }
    assert(text@.subrange(0, p.len() as int) =~= pattern@);
    true
}

/// The first decimal digit in `text`, if any.
pub fn find_first_digit(text: &Vec<char>) -> (digit: Option<char>)
    ensures
        digit == first_digit(text@),
{
    let mut i: usize = 0;
    assert(text@.skip(0) =~= text@);
    while i < text.len()
        invariant
            i <= text.len(),
            first_digit(text@) == first_digit(text@.skip(i as int)),
        decreases text.len() - i,
    {
        let c = text[i];
        assert(text@.skip(i as int)[0] == c);
        if 48 <= c as u32 && c as u32 <= 57 {
            return Some(c);
        }
        assert(text@.skip(i as int).drop_first() =~= text@.skip(i + 1));
        i += 1;
    }
    None
}

/// Decides the heading of a subaction from its name.
pub fn subaction_heading(name: &str) -> (heading: Heading)
    ensures
        heading == heading_of(name@),
{
    let t = chars_of(name);
    if chars_contain(&t, "Cliff") {
        Heading::LedgeOptions
    } else if chars_contain(&t, "Item") || chars_contain(&t, "Gekikara") {
        Heading::Item
    } else if chars_contain(&t, "Ganon") || chars_contain(&t, "Snake") || chars_contain(&t, "Bitten")
        || chars_contain(&t, "Stick") || chars_contain(&t, "Rope") || chars_contain(&t, "Ladder")
        || chars_contain(&t, "Egg") || chars_contain(&t, "Capture") || chars_contain(&t, "Zitabata")
        || chars_contain(&t, "Swing") {
        Heading::Misc
    } else if chars_contain(&t, "FuraFura") {
        Heading::Stun
    } else if chars_contain(&t, "FuraSleep") {
        Heading::Sleep
    } else if chars_contain(&t, "Final") {
        Heading::Finals
    } else if chars_contain(&t, "Swim") {
        Heading::Swim
    } else if chars_contain(&t, "Slip") {
        Heading::Trips
    } else if chars_contain(&t, "Glide") {
        Heading::Glide
    } else if chars_contain(&t, "Shank") || chars_contain(&t, "AttackSquat") || chars_contain(
        &t,
        "SquatF",
    ) || chars_contain(&t, "SquatB") {
        Heading::Crawl
    } else if chars_contain(&t, "Down") {
        Heading::Knockdowns
    } else if chars_contain(&t, "AirCatch") {
        Heading::Misc
    } else if chars_contain(&t, "Catch") || chars_start_with(&t, "Throw") && !chars_contain(
        &t,
        "Thrown",
    ) {
        Heading::Grabs
    } else if !chars_start_with(&t, "Throw") && chars_contain(&t, "Throw") && !chars_contain(
        &t,
        "Thrown",
    ) {
        Heading::ItemThrow
    } else if chars_contain(&t, "Step") {
        Heading::Footstool
    } else if chars_contain(&t, "Fall") || chars_contain(&t, "Landing") {
        Heading::Movements
    } else if chars_contain(&t, "Special") {
        Heading::Specials
    } else if chars_contain(&t, "AttackEnd") {
        Heading::Misc
    } else if chars_contain(&t, "Attack") {
        let digit = find_first_digit(&t);
        if chars_contain(&t, "Air") {
            Heading::AttacksAerial
        } else if digit == Some('1') {
            Heading::AttacksJab
        } else if digit == Some('3') {
            Heading::AttacksTilt
        } else if digit == Some('4') {
            Heading::AttacksSmash
        } else {
            Heading::AttacksDash
        }
    } else if chars_contain(&t, "Appeal") || chars_contain(&t, "Win") || str_eq(name, "Lose") {
        Heading::Taunts
    } else if chars_contain(&t, "Wait") || chars_contain(&t, "Dash") || chars_contain(&t, "Run")
        || chars_contain(&t, "Turn") || chars_contain(&t, "Walk") || chars_contain(&t, "Jump")
        || chars_contain(&t, "MissFoot") || chars_contain(&t, "Ottotto") || chars_contain(
        &t,
        "Squat",
    ) {
        Heading::Movements
    } else if chars_contain(&t, "Stop") || chars_contain(&t, "PassiveWallJump") {
        Heading::WallCeilingTech
    } else if chars_contain(&t, "Escape") || chars_contain(&t, "Guard") {
        Heading::Dodges
    } else if chars_contain(&t, "NONE") || chars_start_with(&t, "_") {
        Heading::NoneNames
    } else {
        Heading::Misc
    }
}

/// The subaction bar: the links to a fighter's subactions under each heading, and whether
/// the glide and crawl headings have any.
pub struct SubactionLinks {
    pub attacks_jab: Vec<NavLink>,
    pub attacks_tilt: Vec<NavLink>,
    pub attacks_smash: Vec<NavLink>,
    pub attacks_dash: Vec<NavLink>,
    pub attacks_aerial: Vec<NavLink>,
    pub grabs: Vec<NavLink>,
    pub specials: Vec<NavLink>,
    pub knockdowns: Vec<NavLink>,
    pub trips: Vec<NavLink>,
    pub ledge_options: Vec<NavLink>,
    pub dodges: Vec<NavLink>,
    pub wall_ceiling_tech: Vec<NavLink>,
    pub footstool: Vec<NavLink>,
    pub glide: Vec<NavLink>,
    pub crawl: Vec<NavLink>,
    pub movements: Vec<NavLink>,
    pub finals: Vec<NavLink>,
    pub taunts: Vec<NavLink>,
    pub stun: Vec<NavLink>,
    pub sleep: Vec<NavLink>,
    pub swim: Vec<NavLink>,
    pub item: Vec<NavLink>,
    pub item_throw: Vec<NavLink>,
    pub misc: Vec<NavLink>,
    pub none: Vec<NavLink>,
    pub has_glide: bool,
    pub has_crawl: bool,
}

impl SubactionLinks {
    /// The links under a heading.
    pub open spec fn under(&self, h: Heading) -> Seq<NavLink> {
        match h {
            Heading::AttacksJab => self.attacks_jab@,
            Heading::AttacksTilt => self.attacks_tilt@,
            Heading::AttacksSmash => self.attacks_smash@,
            Heading::AttacksDash => self.attacks_dash@,
            Heading::AttacksAerial => self.attacks_aerial@,
            Heading::Grabs => self.grabs@,
            Heading::Specials => self.specials@,
            Heading::Knockdowns => self.knockdowns@,
            Heading::Trips => self.trips@,
            Heading::LedgeOptions => self.ledge_options@,
            Heading::Dodges => self.dodges@,
            Heading::WallCeilingTech => self.wall_ceiling_tech@,
            Heading::Footstool => self.footstool@,
            Heading::Glide => self.glide@,
            Heading::Crawl => self.crawl@,
            Heading::Movements => self.movements@,
            Heading::Finals => self.finals@,
            Heading::Taunts => self.taunts@,
            Heading::Stun => self.stun@,
            Heading::Sleep => self.sleep@,
            Heading::Swim => self.swim@,
            Heading::Item => self.item@,
            Heading::ItemThrow => self.item_throw@,
            Heading::Misc => self.misc@,
            Heading::NoneNames => self.none@,
        }
    }
}

/// The link to the page of subaction `name` of fighter `fighter` of mod `m`.
pub open spec fn subaction_link(m: Seq<char>, fighter: Seq<char>, name: Seq<char>, current: Seq<char>) -> LinkView {
    (name, "/"@ + m + "/"@ + fighter + "/subactions/"@ + name + ".html"@, current == name)
}

/// The links to the subactions among `names` that go under heading `h`, in their order.
pub open spec fn links_under(
    m: Seq<char>,
    fighter: Seq<char>,
    names: Seq<Seq<char>>,
    current: Seq<char>,
    h: Heading,
) -> Seq<LinkView>
    decreases names.len(),
{
    if names.len() == 0 {
        Seq::empty()
    } else {
        let rest = links_under(m, fighter, names.drop_last(), current, h);
        if heading_of(names.last()) == h {
            rest.push(subaction_link(m, fighter, names.last(), current))
        } else {
            rest
        }
    }
}

/// How many links there are under all the headings together.
pub open spec fn total_listed(m: Seq<char>, fighter: Seq<char>, names: Seq<Seq<char>>, current: Seq<char>) -> nat {
    links_under(m, fighter, names, current, Heading::AttacksJab).len()
        + links_under(m, fighter, names, current, Heading::AttacksTilt).len()
        + links_under(m, fighter, names, current, Heading::AttacksSmash).len()
        + links_under(m, fighter, names, current, Heading::AttacksDash).len()
        + links_under(m, fighter, names, current, Heading::AttacksAerial).len()
        + links_under(m, fighter, names, current, Heading::Grabs).len()
        + links_under(m, fighter, names, current, Heading::Specials).len()
        + links_under(m, fighter, names, current, Heading::Knockdowns).len()
        + links_under(m, fighter, names, current, Heading::Trips).len()
        + links_under(m, fighter, names, current, Heading::LedgeOptions).len()
        + links_under(m, fighter, names, current, Heading::Dodges).len()
        + links_under(m, fighter, names, current, Heading::WallCeilingTech).len()
        + links_under(m, fighter, names, current, Heading::Footstool).len()
        + links_under(m, fighter, names, current, Heading::Glide).len()
        + links_under(m, fighter, names, current, Heading::Crawl).len()
        + links_under(m, fighter, names, current, Heading::Movements).len()
        + links_under(m, fighter, names, current, Heading::Finals).len()
        + links_under(m, fighter, names, current, Heading::Taunts).len()
        + links_under(m, fighter, names, current, Heading::Stun).len()
        + links_under(m, fighter, names, current, Heading::Sleep).len()
        + links_under(m, fighter, names, current, Heading::Swim).len()
        + links_under(m, fighter, names, current, Heading::Item).len()
        + links_under(m, fighter, names, current, Heading::ItemThrow).len()
        + links_under(m, fighter, names, current, Heading::Misc).len()
        + links_under(m, fighter, names, current, Heading::NoneNames).len()
}

/// Every subaction is listed under exactly one heading: the headings together hold as
/// many links as there are subactions.
pub proof fn lemma_each_subaction_listed_once(
    m: Seq<char>,
    fighter: Seq<char>,
    names: Seq<Seq<char>>,
    current: Seq<char>,
)
    ensures
        total_listed(m, fighter, names, current) == names.len(),
    decreases names.len(),
{
    if names.len() > 0 {
        lemma_each_subaction_listed_once(m, fighter, names.drop_last(), current);
    }
}

/// The links under heading `h`, in the order of the subactions.
fn links_with_heading(
    m: &BrawlMod,
    fighter: &Fighter,
    headings: &Vec<Heading>,
    current_subaction: &str,
    h: Heading,
) -> (links: Vec<NavLink>)
    requires
        headings@.len() == fighter.subactions@.len(),
        forall|i: int| 0 <= i < headings@.len() ==> #[trigger] headings@[i] == heading_of(
            subaction_names(fighter)[i],
        ),
    ensures
        link_views(links@) == links_under(
            m.name@,
            fighter.name@,
            subaction_names(fighter),
            current_subaction@,
            h,
        ),
{
    let ghost names = subaction_names(fighter);
    let mut links: Vec<NavLink> = Vec::new();
    let mut i: usize = 0;
    while i < fighter.subactions.len()
        invariant
            names == subaction_names(fighter),
            headings@.len() == fighter.subactions@.len(),
            forall|i: int| 0 <= i < headings@.len() ==> #[trigger] headings@[i] == heading_of(names[i]),
            i <= fighter.subactions.len(),
            link_views(links@) == links_under(
                m.name@,
                fighter.name@,
                names.take(i as int),
                current_subaction@,
                h,
            ),
        decreases fighter.subactions.len() - i,
    {
        assert(names.take(i + 1).drop_last() =~= names.take(i as int));
        assert(names.take(i + 1).last() == names[i as int]);
        if headings[i] == h {
            let name = &fighter.subactions[i].name;
            let mut link = String::from_str("/");
            link.append(m.name.as_str());
            link.append("/");
            link.append(fighter.name.as_str());
            link.append("/subactions/");
            link.append(name.as_str());
            link.append(".html");
            let l = NavLink {
                name: name.clone(),
                link,
                current: str_eq(current_subaction, name.as_str()),
            };
            let ghost before = links@;
            links.push(l);
            assert(link_views(links@) =~= link_views(before).push(link_view(l)));
        }
        i += 1;
    }
    assert(names.take(fighter.subactions.len() as int) =~= names);
    links
}

/// The links under heading `h`, sorted by name.
fn sorted_links_with_heading(
    m: &BrawlMod,
    fighter: &Fighter,
    headings: &Vec<Heading>,
    current_subaction: &str,
    h: Heading,
) -> (links: Vec<NavLink>)
    requires
        headings@.len() == fighter.subactions@.len(),
        forall|i: int| 0 <= i < headings@.len() ==> #[trigger] headings@[i] == heading_of(
            subaction_names(fighter)[i],
        ),
    ensures
        sorted_by_name(link_views(links@)),
        link_views(links@).to_multiset() == links_under(
            m.name@,
            fighter.name@,
            subaction_names(fighter),
            current_subaction@,
            h,
        ).to_multiset(),
{
    sort_by_name(links_with_heading(m, fighter, headings, current_subaction, h))
}

impl BrawlMod {
    /// The subaction bar of a fighter: a link to each subaction, under the heading that its
    /// name decides, each heading sorted by name; the link of `current_subaction` marked.
    pub fn gen_subaction_links(&self, fighter: &Fighter, current_subaction: String) -> (links:
        SubactionLinks)
        ensures
            forall|h: Heading|
                {
                    &&& sorted_by_name(link_views(#[trigger] links.under(h)))
                    &&& link_views(links.under(h)).to_multiset() == links_under(
                        self.name@,
                        fighter.name@,
                        subaction_names(fighter),
                        current_subaction@,
                        h,
                    ).to_multiset()
                },
            links.has_glide == (links_under(
                self.name@,
                fighter.name@,
                subaction_names(fighter),
                current_subaction@,
                Heading::Glide,
            ).len() > 0),
            links.has_crawl == (links_under(
                self.name@,
                fighter.name@,
                subaction_names(fighter),
                current_subaction@,
                Heading::Crawl,
            ).len() > 0),
    {
        let mut headings: Vec<Heading> = Vec::new();
        let mut i: usize = 0;
        while i < fighter.subactions.len()
            invariant
                i <= fighter.subactions.len(),
                headings@.len() == i,
                forall|k: int| 0 <= k < i ==> #[trigger] headings@[k] == heading_of(
                    subaction_names(fighter)[k],
                ),
            decreases fighter.subactions.len() - i,
        {
            headings.push(subaction_heading(fighter.subactions[i].name.as_str()));
            i += 1;
        }
        let current = current_subaction.as_str();
        let attacks_jab = sorted_links_with_heading(self, fighter, &headings, current, Heading::AttacksJab);
        let attacks_tilt = sorted_links_with_heading(self, fighter, &headings, current, Heading::AttacksTilt);
        let attacks_smash = sorted_links_with_heading(self, fighter, &headings, current, Heading::AttacksSmash);
        let attacks_dash = sorted_links_with_heading(self, fighter, &headings, current, Heading::AttacksDash);
        let attacks_aerial = sorted_links_with_heading(self, fighter, &headings, current, Heading::AttacksAerial);
        let grabs = sorted_links_with_heading(self, fighter, &headings, current, Heading::Grabs);
        let specials = sorted_links_with_heading(self, fighter, &headings, current, Heading::Specials);
        let knockdowns = sorted_links_with_heading(self, fighter, &headings, current, Heading::Knockdowns);
        let trips = sorted_links_with_heading(self, fighter, &headings, current, Heading::Trips);
        let ledge_options = sorted_links_with_heading(self, fighter, &headings, current, Heading::LedgeOptions);
        let dodges = sorted_links_with_heading(self, fighter, &headings, current, Heading::Dodges);
        let wall_ceiling_tech = sorted_links_with_heading(self, fighter, &headings, current, Heading::WallCeilingTech);
        let footstool = sorted_links_with_heading(self, fighter, &headings, current, Heading::Footstool);
        let glide = sorted_links_with_heading(self, fighter, &headings, current, Heading::Glide);
        let crawl = sorted_links_with_heading(self, fighter, &headings, current, Heading::Crawl);
        let movements = sorted_links_with_heading(self, fighter, &headings, current, Heading::Movements);
        let finals = sorted_links_with_heading(self, fighter, &headings, current, Heading::Finals);
        let taunts = sorted_links_with_heading(self, fighter, &headings, current, Heading::Taunts);
        let stun = sorted_links_with_heading(self, fighter, &headings, current, Heading::Stun);
        let sleep = sorted_links_with_heading(self, fighter, &headings, current, Heading::Sleep);
        let swim = sorted_links_with_heading(self, fighter, &headings, current, Heading::Swim);
        let item = sorted_links_with_heading(self, fighter, &headings, current, Heading::Item);
        let item_throw = sorted_links_with_heading(self, fighter, &headings, current, Heading::ItemThrow);
        let misc = sorted_links_with_heading(self, fighter, &headings, current, Heading::Misc);
        let none = sorted_links_with_heading(self, fighter, &headings, current, Heading::NoneNames);
        broadcast use vstd::seq_lib::group_to_multiset_ensures;

        let has_glide = glide.len() > 0;
        let has_crawl = crawl.len() > 0;
        proof {
            let names = subaction_names(fighter);
            assert(link_views(glide@).len() == glide@.len());
            assert(link_views(crawl@).len() == crawl@.len());
            assert(links_under(self.name@, fighter.name@, names, current_subaction@, Heading::Glide).to_multiset().len()
                == links_under(self.name@, fighter.name@, names, current_subaction@, Heading::Glide).len());
            assert(links_under(self.name@, fighter.name@, names, current_subaction@, Heading::Crawl).to_multiset().len()
                == links_under(self.name@, fighter.name@, names, current_subaction@, Heading::Crawl).len());
        }
        SubactionLinks {
            attacks_jab,
            attacks_tilt,
            attacks_smash,
            attacks_dash,
            attacks_aerial,
            grabs,
            specials,
            knockdowns,
            trips,
            ledge_options,
            dodges,
            wall_ceiling_tech,
            footstool,
            glide,
            crawl,
            movements,
            finals,
            taunts,
            stun,
            sleep,
            swim,
            item,
            item_throw,
            misc,
            none,
            has_glide,
            has_crawl,
        }
    }
}

} // verus!
