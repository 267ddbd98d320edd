//! The hitbox tables of a subaction page: the optional columns a table shows, its rows,
//! the throw table, and the text that link previews show of the hitboxes.

use vstd::prelude::*;
use crate::subaction_page::{
    HitboxColumns, table_frames_label, table_frames_text, table_state, angle_string, angle_text, column, hitbox_header, hitbox_header_titles, shortened,
    shorten_list, str_views, throw_header, throw_header_titles, header_head, header_flags_a, header_flags_b, header_flags_c,
    header_tail,
};
use crate::text::{decimal, decimal_int, hex, write_decimal, write_decimal_i64, write_hex};

verus! {
/// The effect of a hitbox on what it hits.
pub enum HitEffect {
    Normal,
    /// No effect (the game's `None`).
    NoEffect,
    Slash,
    Electric,
    Freezing,
    Flame,
    Coin,
    Reverse,
    Trip,
    Sleep,
    Bury,
    Stun,
    Flower,
    Grass,
    Water,
    Darkness,
    Paralyze,
    Aura,
    Plunge,
    Down,
    Flinchless,
    /// An effect the game does not name, as its debug text.
    Unknown(String),
}

/// The name of a hitbox effect.
pub open spec fn effect_name(e: HitEffect) -> Seq<char> {
    match e {
        HitEffect::Normal => "Normal"@,
        HitEffect::NoEffect => "None"@,
        HitEffect::Slash => "Slash"@,
        HitEffect::Electric => "Electric"@,
        HitEffect::Freezing => "Freezing"@,
        HitEffect::Flame => "Flame"@,
        HitEffect::Coin => "Coin"@,
        HitEffect::Reverse => "Reverse"@,
        HitEffect::Trip => "Trip"@,
        HitEffect::Sleep => "Sleep"@,
        HitEffect::Bury => "Bury"@,
        HitEffect::Stun => "Stun"@,
        HitEffect::Flower => "Flower"@,
        HitEffect::Grass => "Grass"@,
        HitEffect::Water => "Water"@,
        HitEffect::Darkness => "Darkness"@,
        HitEffect::Paralyze => "Paralyze"@,
        HitEffect::Aura => "Aura"@,
        HitEffect::Plunge => "Plunge"@,
        HitEffect::Down => "Down"@,
        HitEffect::Flinchless => "Flinchless"@,
        HitEffect::Unknown(debug) => debug@,
    }
}

/// Whether the preview text names the effect: the effects other than the plain ones.
pub open spec fn effect_is_special(e: HitEffect) -> bool {
    match e {
        HitEffect::Normal => false,
        HitEffect::NoEffect => false,
        HitEffect::Slash => false,
        HitEffect::Electric => true,
        HitEffect::Freezing => true,
        HitEffect::Flame => true,
        HitEffect::Coin => false,
        HitEffect::Reverse => true,
        HitEffect::Trip => true,
        HitEffect::Sleep => true,
        HitEffect::Bury => true,
        HitEffect::Stun => true,
        HitEffect::Flower => true,
        HitEffect::Grass => true,
        HitEffect::Water => true,
        HitEffect::Darkness => true,
        HitEffect::Paralyze => true,
        HitEffect::Aura => true,
        HitEffect::Plunge => true,
        HitEffect::Down => true,
        HitEffect::Flinchless => true,
        HitEffect::Unknown(_) => false,
    }
}

fn effect_string(e: &HitEffect) -> (name: String)
    ensures
        name@ == effect_name(*e),
{
    match e {
        HitEffect::Normal => String::from_str("Normal"),
        HitEffect::NoEffect => String::from_str("None"),
        HitEffect::Slash => String::from_str("Slash"),
        HitEffect::Electric => String::from_str("Electric"),
        HitEffect::Freezing => String::from_str("Freezing"),
        HitEffect::Flame => String::from_str("Flame"),
        HitEffect::Coin => String::from_str("Coin"),
        HitEffect::Reverse => String::from_str("Reverse"),
        HitEffect::Trip => String::from_str("Trip"),
        HitEffect::Sleep => String::from_str("Sleep"),
        HitEffect::Bury => String::from_str("Bury"),
        HitEffect::Stun => String::from_str("Stun"),
        HitEffect::Flower => String::from_str("Flower"),
        HitEffect::Grass => String::from_str("Grass"),
        HitEffect::Water => String::from_str("Water"),
        HitEffect::Darkness => String::from_str("Darkness"),
        HitEffect::Paralyze => String::from_str("Paralyze"),
        HitEffect::Aura => String::from_str("Aura"),
        HitEffect::Plunge => String::from_str("Plunge"),
        HitEffect::Down => String::from_str("Down"),
        HitEffect::Flinchless => String::from_str("Flinchless"),
        HitEffect::Unknown(debug) => debug.clone(),
    }
}

fn effect_special(e: &HitEffect) -> (special: bool)
    ensures
        special == effect_is_special(*e),
{
    match e {
        HitEffect::Normal => false,
        HitEffect::NoEffect => false,
        HitEffect::Slash => false,
        HitEffect::Electric => true,
        HitEffect::Freezing => true,
        HitEffect::Flame => true,
        HitEffect::Coin => false,
        HitEffect::Reverse => true,
        HitEffect::Trip => true,
        HitEffect::Sleep => true,
        HitEffect::Bury => true,
        HitEffect::Stun => true,
        HitEffect::Flower => true,
        HitEffect::Grass => true,
        HitEffect::Water => true,
        HitEffect::Darkness => true,
        HitEffect::Paralyze => true,
        HitEffect::Aura => true,
        HitEffect::Plunge => true,
        HitEffect::Down => true,
        HitEffect::Flinchless => true,
        HitEffect::Unknown(_) => false,
    }
}

/// How the direction of a hitbox's angle is chosen.
pub enum AngleFlip {
    AttackerPosition,
    MovementDir,
    LeftDir,
    AttackerDir,
    AttackerDirReverse,
    HitboxPosition,
    FaceZaxis,
    /// A way the game does not name, as its debug text.
    Unknown(String),
}

/// The cell of the angle flip column.
pub open spec fn angle_flip_cell(f: AngleFlip) -> Seq<char> {
    match f {
        AngleFlip::AttackerPosition => "<abbr title=\"Attacker Position: The direction from the attacker to the defender.\">AP</abbr>"@,
        AngleFlip::MovementDir => "<abbr title=\"Movement Direction: The direction the attacker is moving.\">MD</abbr>"@,
        AngleFlip::LeftDir => "<abbr title=\"Left Direction: Direction is always to the left.\">LD</abbr>"@,
        AngleFlip::AttackerDir => "<abbr title=\"Attacker Direction: The direction the attacker is facing.\">AD</abbr>"@,
        AngleFlip::AttackerDirReverse => "<abbr title=\"Attacker Direction Reverse: The opposite direction to where the attacker is facing.\">ADR</abbr>"@,
        AngleFlip::HitboxPosition => "<abbr title=\"Hitbox Position: The direction from the hitbox to the defender.\">HP</abbr>"@,
        AngleFlip::FaceZaxis => "<abbr title=\"Face Z Axis: A buggy unused angle flip, makes the victim face the screen and other weird stuff.\">FZA</abbr>"@,
        AngleFlip::Unknown(debug) => debug@,
    }
}

/// The short name of an angle flip, which the preview text uses.
pub open spec fn angle_flip_short(f: AngleFlip) -> Seq<char> {
    match f {
        AngleFlip::AttackerPosition => "AP"@,
        AngleFlip::MovementDir => "MD"@,
        AngleFlip::LeftDir => "LD"@,
        AngleFlip::AttackerDir => "AD"@,
        AngleFlip::AttackerDirReverse => "ADR"@,
        AngleFlip::HitboxPosition => "HP"@,
        AngleFlip::FaceZaxis => "FZA"@,
        AngleFlip::Unknown(debug) => debug@,
    }
}

fn angle_flip_cell_string(f: &AngleFlip) -> (cell: String)
    ensures
        cell@ == angle_flip_cell(*f),
{
    match f {
        AngleFlip::AttackerPosition => String::from_str("<abbr title=\"Attacker Position: The direction from the attacker to the defender.\">AP</abbr>"),
        AngleFlip::MovementDir => String::from_str("<abbr title=\"Movement Direction: The direction the attacker is moving.\">MD</abbr>"),
        AngleFlip::LeftDir => String::from_str("<abbr title=\"Left Direction: Direction is always to the left.\">LD</abbr>"),
        AngleFlip::AttackerDir => String::from_str("<abbr title=\"Attacker Direction: The direction the attacker is facing.\">AD</abbr>"),
        AngleFlip::AttackerDirReverse => String::from_str("<abbr title=\"Attacker Direction Reverse: The opposite direction to where the attacker is facing.\">ADR</abbr>"),
        AngleFlip::HitboxPosition => String::from_str("<abbr title=\"Hitbox Position: The direction from the hitbox to the defender.\">HP</abbr>"),
        AngleFlip::FaceZaxis => String::from_str("<abbr title=\"Face Z Axis: A buggy unused angle flip, makes the victim face the screen and other weird stuff.\">FZA</abbr>"),
        AngleFlip::Unknown(debug) => debug.clone(),
    }
}

fn angle_flip_short_string(f: &AngleFlip) -> (short: String)
    ensures
        short@ == angle_flip_short(*f),
{
    match f {
        AngleFlip::AttackerPosition => String::from_str("AP"),
        AngleFlip::MovementDir => String::from_str("MD"),
        AngleFlip::LeftDir => String::from_str("LD"),
        AngleFlip::AttackerDir => String::from_str("AD"),
        AngleFlip::AttackerDirReverse => String::from_str("ADR"),
        AngleFlip::HitboxPosition => String::from_str("HP"),
        AngleFlip::FaceZaxis => String::from_str("FZA"),
        AngleFlip::Unknown(debug) => debug.clone(),
    }
}

/// What a hitbox can hit, one flag per icon of the table's target column.
pub struct CanHit {
    pub fighter_ground: bool,
    pub fighter_air: bool,
    pub waddle: bool,
    pub pikmin: bool,
    pub gyro: bool,
    pub snake_grenade: bool,
    pub mr_saturn: bool,
    pub stage_non_wall_ceiling_floor: bool,
    pub wall_ceiling_floor: bool,
    pub link_bomb: bool,
    pub bobomb: bool,
}

/// One icon of the target column: greyed out where the hitbox cannot hit that target.
pub open spec fn icon(title: Seq<char>, class: Seq<char>, enabled: bool, spritesheet: Seq<char>) -> Seq<char> {
    "<img title=\""@ + title + "\" class=\""@ + class + " "@ + (if enabled { ""@ } else { "icon-disable"@ })
        + "\" src=\""@ + spritesheet + "\" />"@
}

fn write_icon(s: &mut String, title: &str, class: &str, enabled: bool, spritesheet: &str)
    ensures
        final(s)@ == old(s)@ + icon(title@, class@, enabled, spritesheet@),
{
    s.append("<img title=\"");
    s.append(title);
    s.append("\" class=\"");
    s.append(class);
    s.append(" ");
    if enabled {
        s.append("");
    } else {
        s.append("icon-disable");
    }
    s.append("\" src=\"");
    s.append(spritesheet);
    s.append("\" />");
    assert(final(s)@ =~= old(s)@ + icon(title@, class@, enabled, spritesheet@));
}

/// The target column of a hitbox's row: an icon for each kind of target.
pub open spec fn hit_icons(c: CanHit, spritesheet: Seq<char>) -> Seq<char> {
    icon("Fighter on the ground"@, "spritesheet-fighter-ground"@, c.fighter_ground, spritesheet)
        + icon("Fighter in the air"@, "spritesheet-fighter-air"@, c.fighter_air, spritesheet)
        + icon("Waddle Dee and Waddle Doo"@, "spritesheet-waddle"@, c.waddle, spritesheet)
        + icon("Pikmin"@, "spritesheet-pikmin"@, c.pikmin, spritesheet)
        + icon("ROB Gyro"@, "spritesheet-gyro"@, c.gyro, spritesheet)
        + icon("Snake's Grenade"@, "spritesheet-snake-grenade"@, c.snake_grenade, spritesheet)
        + icon("Mr Saturn"@, "spritesheet-mr-saturn"@, c.mr_saturn, spritesheet)
        + icon("Stage hurtboxes not including walls, ceilings and floors."@, "spritesheet-stage-non-wall-ceiling-floor"@, c.stage_non_wall_ceiling_floor, spritesheet)
        + icon("Walls, Ceilings and Floors"@, "spritesheet-wall-ceiling-floor"@, c.wall_ceiling_floor, spritesheet)
        + icon("Toon Link and Link's Bombs"@, "spritesheet-link-bomb"@, c.link_bomb, spritesheet)
        + icon("Bob-ombs"@, "spritesheet-bobomb"@, c.bobomb, spritesheet)
}

fn hit_icons_string(c: &CanHit, spritesheet: &str) -> (icons: String)
    ensures
        icons@ == hit_icons(*c, spritesheet@),
{
    let mut icons = String::new();
    write_icon(&mut icons, "Fighter on the ground", "spritesheet-fighter-ground", c.fighter_ground, spritesheet);
    write_icon(&mut icons, "Fighter in the air", "spritesheet-fighter-air", c.fighter_air, spritesheet);
    write_icon(&mut icons, "Waddle Dee and Waddle Doo", "spritesheet-waddle", c.waddle, spritesheet);
    write_icon(&mut icons, "Pikmin", "spritesheet-pikmin", c.pikmin, spritesheet);
    write_icon(&mut icons, "ROB Gyro", "spritesheet-gyro", c.gyro, spritesheet);
    write_icon(&mut icons, "Snake's Grenade", "spritesheet-snake-grenade", c.snake_grenade, spritesheet);
    write_icon(&mut icons, "Mr Saturn", "spritesheet-mr-saturn", c.mr_saturn, spritesheet);
    write_icon(&mut icons, "Stage hurtboxes not including walls, ceilings and floors.", "spritesheet-stage-non-wall-ceiling-floor", c.stage_non_wall_ceiling_floor, spritesheet);
    write_icon(&mut icons, "Walls, Ceilings and Floors", "spritesheet-wall-ceiling-floor", c.wall_ceiling_floor, spritesheet);
    write_icon(&mut icons, "Toon Link and Link's Bombs", "spritesheet-link-bomb", c.link_bomb, spritesheet);
    write_icon(&mut icons, "Bob-ombs", "spritesheet-bobomb", c.bobomb, spritesheet);
    assert(icons@ =~= hit_icons(*c, spritesheet@));
    icons
}

/// The target column of a grab's row: whether it grabs fighters on the ground and in the air.
pub open spec fn grab_icons(grounded: bool, aerial: bool, spritesheet: Seq<char>) -> Seq<char> {
    icon("Fighter on the ground"@, "spritesheet-fighter-ground"@, grounded, spritesheet) + icon(
        "Fighter in the air"@,
        "spritesheet-fighter-air"@,
        aerial,
        spritesheet,
    )
}

fn grab_icons_string(grounded: bool, aerial: bool, spritesheet: &str) -> (icons: String)
    ensures
        icons@ == grab_icons(grounded, aerial, spritesheet@),
{
    let mut icons = String::new();
    write_icon(&mut icons, "Fighter on the ground", "spritesheet-fighter-ground", grounded, spritesheet);
    write_icon(&mut icons, "Fighter in the air", "spritesheet-fighter-air", aerial, spritesheet);
    assert(icons@ =~= grab_icons(grounded, aerial, spritesheet@));
    icons
}

/// The values of a hitbox that its row and the preview text show. Numbers with a fractional
/// part come as their text; for those whose column is shown only when some hitbox differs
/// from the usual value, a flag says whether this one does.
pub struct HitValues {
    pub enabled: bool,
    pub set_id: String,
    pub damage: String,
    pub wdsk: i64,
    pub bkb: String,
    pub kbg: String,
    pub trajectory: i32,
    pub effect: HitEffect,
    pub sound: String,
    pub angle_flipping: AngleFlip,
    pub clang: bool,
    pub direct: bool,
    pub hitlag_mult: String,
    /// Whether the hitlag multiplier is other than 1.
    pub hitlag_mult_changed: bool,
    pub sdi_mult: String,
    /// Whether the SDI multiplier is other than 1.
    pub sdi_mult_changed: bool,
    pub shield_damage: i64,
    pub tripping_rate: String,
    /// Whether the tripping rate is other than 0.
    pub tripping_rate_changed: bool,
    pub rehit_rate: i64,
    pub can_be_shielded: bool,
    pub can_be_reflected: bool,
    pub can_be_absorbed: bool,
    pub remain_grabbed: bool,
    pub ignore_invincibility: bool,
    pub freeze_frame_disable: bool,
    pub flinchless: bool,
    /// The frames of shield stun the hitbox causes, as text.
    pub shieldstun: String,
    /// The frames of hitlag the hitbox causes, as text.
    pub hitlag: String,
    pub can_hit: CanHit,
}

/// The values of a grabbox: the action it sets and whom it grabs.
pub struct GrabValues {
    pub set_action: u64,
    pub grounded: bool,
    pub aerial: bool,
}

/// What a collision box does.
pub enum BoxValues {
    Hit(HitValues),
    Grab(GrabValues),
}

/// A hitbox or grabbox of a frame.
pub struct CollisionBox {
    pub hitbox_id: u8,
    pub values: BoxValues,
}

/// The text of a boolean, as `to_string` writes it.
pub open spec fn bool_text(b: bool) -> Seq<char> {
    if b {
        "true"@
    } else {
        "false"@
    }
}

/// A boolean as the preview text writes it.
pub open spec fn yes_no(b: bool) -> Seq<char> {
    if b {
        "y"@
    } else {
        "n"@
    }
}

fn bool_string(b: bool) -> (text: String)
    ensures
        text@ == bool_text(b),
{
    if b {
        String::from_str("true")
    } else {
        String::from_str("false")
    }
}

fn yes_no_string(b: bool) -> (text: String)
    ensures
        text@ == yes_no(b),
{
    if b {
        String::from_str("y")
    } else {
        String::from_str("n")
    }
}

fn int_string(i: i64) -> (text: String)
    ensures
        text@ == decimal_int(i as int),
{
    let mut text = String::new();
    write_decimal_i64(&mut text, i);
    assert(text@ =~= decimal_int(i as int));
    text
}

/// The optional columns that one hitbox asks for.
pub open spec fn hit_flags(h: HitValues) -> HitboxColumns {
    HitboxColumns {
        wdsk: h.wdsk != 0,
        angle_flipping: !(h.angle_flipping is AttackerPosition),
        clang: !h.clang,
        direct: !h.direct,
        hitlag_mult: h.hitlag_mult_changed,
        sdi_mult: h.sdi_mult_changed,
        shield_damage: h.shield_damage != 0,
        tripping_rate: h.tripping_rate_changed,
        rehit_rate: h.rehit_rate != 0,
        can_be_shielded: !h.can_be_shielded,
        can_be_reflected: h.can_be_reflected,
        can_be_absorbed: h.can_be_absorbed,
        remain_grabbed: h.remain_grabbed,
        ignore_invincibility: h.ignore_invincibility,
        freeze_frame_disable: h.freeze_frame_disable,
        flinchless: h.flinchless,
    }
}

/// The columns that either of two sets of columns shows.
pub open spec fn either(a: HitboxColumns, b: HitboxColumns) -> HitboxColumns {
    HitboxColumns {
        wdsk: a.wdsk || b.wdsk,
        angle_flipping: a.angle_flipping || b.angle_flipping,
        clang: a.clang || b.clang,
        direct: a.direct || b.direct,
        hitlag_mult: a.hitlag_mult || b.hitlag_mult,
        sdi_mult: a.sdi_mult || b.sdi_mult,
        shield_damage: a.shield_damage || b.shield_damage,
        tripping_rate: a.tripping_rate || b.tripping_rate,
        rehit_rate: a.rehit_rate || b.rehit_rate,
        can_be_shielded: a.can_be_shielded || b.can_be_shielded,
        can_be_reflected: a.can_be_reflected || b.can_be_reflected,
        can_be_absorbed: a.can_be_absorbed || b.can_be_absorbed,
        remain_grabbed: a.remain_grabbed || b.remain_grabbed,
        ignore_invincibility: a.ignore_invincibility || b.ignore_invincibility,
        freeze_frame_disable: a.freeze_frame_disable || b.freeze_frame_disable,
        flinchless: a.flinchless || b.flinchless,
    }
}

/// No optional column.
pub open spec fn no_columns() -> HitboxColumns {
    HitboxColumns {
        wdsk: false,
        angle_flipping: false,
        clang: false,
        direct: false,
        hitlag_mult: false,
        sdi_mult: false,
        shield_damage: false,
        tripping_rate: false,
        rehit_rate: false,
        can_be_shielded: false,
        can_be_reflected: false,
        can_be_absorbed: false,
        remain_grabbed: false,
        ignore_invincibility: false,
        freeze_frame_disable: false,
        flinchless: false,
    }
}

/// The optional columns of a table of the boxes: each column is shown when some hitbox
/// (enabled or not) has a value other than the usual one.
pub open spec fn columns_of(boxes: Seq<CollisionBox>) -> HitboxColumns
    decreases boxes.len(),
{
    if boxes.len() == 0 {
        no_columns()
    } else {
        let before = columns_of(boxes.drop_last());
        match boxes.last().values {
            BoxValues::Hit(h) => either(before, hit_flags(h)),
            BoxValues::Grab(_) => before,
        }
    }
}

fn hit_flags_of(h: &HitValues) -> (c: HitboxColumns)
    ensures
        c == hit_flags(*h),
{
    HitboxColumns {
        wdsk: h.wdsk != 0,
        angle_flipping: !matches!(h.angle_flipping, AngleFlip::AttackerPosition),
        clang: !h.clang,
        direct: !h.direct,
        hitlag_mult: h.hitlag_mult_changed,
        sdi_mult: h.sdi_mult_changed,
        shield_damage: h.shield_damage != 0,
        tripping_rate: h.tripping_rate_changed,
        rehit_rate: h.rehit_rate != 0,
        can_be_shielded: !h.can_be_shielded,
        can_be_reflected: h.can_be_reflected,
        can_be_absorbed: h.can_be_absorbed,
        remain_grabbed: h.remain_grabbed,
        ignore_invincibility: h.ignore_invincibility,
        freeze_frame_disable: h.freeze_frame_disable,
        flinchless: h.flinchless,
    }
}

fn either_of(a: &HitboxColumns, b: &HitboxColumns) -> (c: HitboxColumns)
    ensures
        c == either(*a, *b),
{
    HitboxColumns {
        wdsk: a.wdsk || b.wdsk,
        angle_flipping: a.angle_flipping || b.angle_flipping,
        clang: a.clang || b.clang,
        direct: a.direct || b.direct,
        hitlag_mult: a.hitlag_mult || b.hitlag_mult,
        sdi_mult: a.sdi_mult || b.sdi_mult,
        shield_damage: a.shield_damage || b.shield_damage,
        tripping_rate: a.tripping_rate || b.tripping_rate,
        rehit_rate: a.rehit_rate || b.rehit_rate,
        can_be_shielded: a.can_be_shielded || b.can_be_shielded,
        can_be_reflected: a.can_be_reflected || b.can_be_reflected,
        can_be_absorbed: a.can_be_absorbed || b.can_be_absorbed,
        remain_grabbed: a.remain_grabbed || b.remain_grabbed,
        ignore_invincibility: a.ignore_invincibility || b.ignore_invincibility,
        freeze_frame_disable: a.freeze_frame_disable || b.freeze_frame_disable,
        flinchless: a.flinchless || b.flinchless,
    }
}

/// The optional columns of a table of the boxes.
pub fn hitbox_columns(boxes: &Vec<CollisionBox>) -> (c: HitboxColumns)
    ensures
        c == columns_of(boxes@),
{
    let mut c = HitboxColumns {
        wdsk: false,
        angle_flipping: false,
        clang: false,
        direct: false,
        hitlag_mult: false,
        sdi_mult: false,
        shield_damage: false,
        tripping_rate: false,
        rehit_rate: false,
        can_be_shielded: false,
        can_be_reflected: false,
        can_be_absorbed: false,
        remain_grabbed: false,
        ignore_invincibility: false,
        freeze_frame_disable: false,
        flinchless: false,
    };
    let mut i: usize = 0;
    while i < boxes.len()
        invariant
            i <= boxes.len(),
            c == columns_of(boxes@.take(i as int)),
        decreases boxes.len() - i,
    {
        assert(boxes@.take(i + 1).drop_last() =~= boxes@.take(i as int));
        match &boxes[i].values {
            BoxValues::Hit(h) => {
                let flags = hit_flags_of(h);
                c = either_of(&c, &flags);
            },
            BoxValues::Grab(_) => {},
        }
        i += 1;
    }
    assert(boxes@.take(i as int) =~= boxes@);
    c
}

/// The leading cells of the row of an enabled hitbox, up to its sound.
pub open spec fn hit_row_head(id: u8, h: HitValues, c: HitboxColumns) -> Seq<Seq<char>> {
    seq![h.set_id@, decimal(id as nat), h.damage@] + column(c.wdsk, decimal_int(h.wdsk as int)) + seq![
        h.bkb@,
        h.kbg@,
        angle_text(h.trajectory, id),
        effect_name(h.effect),
        h.sound@,
    ]
}

/// The cells `t` followed by the optional cells of the row of an enabled hitbox (part a).
pub open spec fn hit_row_opts_a(t: Seq<Seq<char>>, h: HitValues, c: HitboxColumns) -> Seq<Seq<char>> {
    let t = t + column(c.angle_flipping, angle_flip_cell(h.angle_flipping));
    let t = t + column(c.clang, bool_text(h.clang));
    let t = t + column(c.direct, bool_text(h.direct));
    let t = t + column(c.hitlag_mult, h.hitlag_mult@);
    let t = t + column(c.sdi_mult, h.sdi_mult@);
    let t = t + column(c.shield_damage, decimal_int(h.shield_damage as int));
    let t = t + column(c.tripping_rate, h.tripping_rate@);
    t
}

/// The cells `t` followed by empty cells for the optional columns of part a, in a grabbox's row.
pub open spec fn blank_opts_a(t: Seq<Seq<char>>, c: HitboxColumns) -> Seq<Seq<char>> {
    let t = t + column(c.angle_flipping, ""@);
    let t = t + column(c.clang, ""@);
    let t = t + column(c.direct, ""@);
    let t = t + column(c.hitlag_mult, ""@);
    let t = t + column(c.sdi_mult, ""@);
    let t = t + column(c.shield_damage, ""@);
    let t = t + column(c.tripping_rate, ""@);
    t
}

/// The cells `t` followed by the optional cells of the row of an enabled hitbox (part b).
pub open spec fn hit_row_opts_b(t: Seq<Seq<char>>, h: HitValues, c: HitboxColumns) -> Seq<Seq<char>> {
    let t = t + column(c.rehit_rate, decimal_int(h.rehit_rate as int));
    let t = t + column(c.can_be_shielded, bool_text(h.can_be_shielded));
    let t = t + column(c.can_be_reflected, bool_text(h.can_be_reflected));
    let t = t + column(c.can_be_absorbed, bool_text(h.can_be_absorbed));
    t
}

/// The cells `t` followed by empty cells for the optional columns of part b, in a grabbox's row.
pub open spec fn blank_opts_b(t: Seq<Seq<char>>, c: HitboxColumns) -> Seq<Seq<char>> {
    let t = t + column(c.rehit_rate, ""@);
    let t = t + column(c.can_be_shielded, ""@);
    let t = t + column(c.can_be_reflected, ""@);
    let t = t + column(c.can_be_absorbed, ""@);
    t
}

/// The cells `t` followed by the optional cells of the row of an enabled hitbox (part c).
pub open spec fn hit_row_opts_c(t: Seq<Seq<char>>, h: HitValues, c: HitboxColumns) -> Seq<Seq<char>> {
    let t = t + column(c.remain_grabbed, bool_text(h.remain_grabbed));
    let t = t + column(c.ignore_invincibility, bool_text(h.ignore_invincibility));
    let t = t + column(c.freeze_frame_disable, bool_text(h.freeze_frame_disable));
    let t = t + column(c.flinchless, bool_text(h.flinchless));
    t
}

/// The cells `t` followed by empty cells for the optional columns of part c, in a grabbox's row.
pub open spec fn blank_opts_c(t: Seq<Seq<char>>, c: HitboxColumns) -> Seq<Seq<char>> {
    let t = t + column(c.remain_grabbed, ""@);
    let t = t + column(c.ignore_invincibility, ""@);
    let t = t + column(c.freeze_frame_disable, ""@);
    let t = t + column(c.flinchless, ""@);
    t
}

/// The row of an enabled hitbox.
pub open spec fn hit_row(id: u8, h: HitValues, c: HitboxColumns, spritesheet: Seq<char>) -> Seq<Seq<char>> {
    hit_row_opts_c(hit_row_opts_b(hit_row_opts_a(hit_row_head(id, h, c), h, c), h, c), h, c) + seq![
        h.shieldstun@,
        h.hitlag@,
        hit_icons(h.can_hit, spritesheet),
    ]
}

/// The leading cells of the row of a grabbox.
pub open spec fn grab_row_head(id: u8, g: GrabValues, c: HitboxColumns) -> Seq<Seq<char>> {
    seq!["0"@, decimal(id as nat), "Grab"@, "set action: 0x"@ + hex(g.set_action as nat), ""@, ""@, ""@, ""@, ""@, ""@]
        + column(c.wdsk, ""@)
}

/// The row of a grabbox: its set, id, kind and action, and an empty cell for every other
/// column but the targets.
pub open spec fn grab_row(id: u8, g: GrabValues, c: HitboxColumns, spritesheet: Seq<char>) -> Seq<Seq<char>> {
    blank_opts_c(blank_opts_b(blank_opts_a(grab_row_head(id, g, c), c), c), c) + seq![grab_icons(g.grounded, g.aerial, spritesheet)]
}

/// The views of a list of cells.
pub open spec fn cell_views(row: Seq<String>) -> Seq<Seq<char>> {
    row.map_values(|cell: String| cell@)
}

fn push_cell(row: &mut Vec<String>, cell: String)
    ensures
        cell_views(final(row)@) == cell_views(old(row)@).push(cell@),
{
    let ghost before = row@;
    row.push(cell);
    assert(cell_views(row@) =~= cell_views(before).push(cell@));
}

fn push_optional(row: &mut Vec<String>, shown: bool, cell: String)
    ensures
        cell_views(final(row)@) == cell_views(old(row)@) + column(shown, cell@),
{
    if shown {
        push_cell(row, cell);
    }
    assert(cell_views(final(row)@) =~= cell_views(old(row)@) + column(shown, cell@));
}

fn empty_cell() -> (cell: String)
    ensures
        cell@ == ""@,
{
    let cell = String::new();
    proof {
        reveal_strlit("");
    }
    assert(cell@ =~= ""@);
    cell
}

fn push_hit_head(row: &mut Vec<String>, id: u8, h: &HitValues, c: &HitboxColumns)
    ensures
        cell_views(final(row)@) == cell_views(old(row)@) + hit_row_head(id, *h, *c),
{
    let ghost mut g: Seq<Seq<char>> = cell_views(row@);
    push_cell(row, h.set_id.clone());
    let mut id_text = String::new();
    write_decimal(&mut id_text, id as u64);
    push_cell(row, id_text);
    push_cell(row, h.damage.clone());
    proof { g = g + seq![h.set_id@, decimal(id as nat), h.damage@]; }
    assert(cell_views(row@) =~= g);
    push_optional(row, c.wdsk, int_string(h.wdsk));
    proof { g = g + column(c.wdsk, decimal_int(h.wdsk as int)); }
    push_cell(row, h.bkb.clone());
    push_cell(row, h.kbg.clone());
    push_cell(row, angle_string(h.trajectory, id));
    push_cell(row, effect_string(&h.effect));
    push_cell(row, h.sound.clone());
    proof { g = g + seq![h.bkb@, h.kbg@, angle_text(h.trajectory, id), effect_name(h.effect), h.sound@]; }
    assert(cell_views(row@) =~= g);
    assert(cell_views(row@) =~= cell_views(old(row)@) + hit_row_head(id, *h, *c));
}

fn push_hit_opts_a(row: &mut Vec<String>, h: &HitValues, c: &HitboxColumns)
    ensures
        cell_views(final(row)@) == hit_row_opts_a(cell_views(old(row)@), *h, *c),
{
    let ghost mut g: Seq<Seq<char>> = cell_views(row@);
    push_optional(row, c.angle_flipping, angle_flip_cell_string(&h.angle_flipping));
    proof { g = g + column(c.angle_flipping, angle_flip_cell(h.angle_flipping)); }
    assert(cell_views(row@) == g);
    push_optional(row, c.clang, bool_string(h.clang));
    proof { g = g + column(c.clang, bool_text(h.clang)); }
    assert(cell_views(row@) == g);
    push_optional(row, c.direct, bool_string(h.direct));
    proof { g = g + column(c.direct, bool_text(h.direct)); }
    assert(cell_views(row@) == g);
    push_optional(row, c.hitlag_mult, h.hitlag_mult.clone());
    proof { g = g + column(c.hitlag_mult, h.hitlag_mult@); }
    assert(cell_views(row@) == g);
    push_optional(row, c.sdi_mult, h.sdi_mult.clone());
    proof { g = g + column(c.sdi_mult, h.sdi_mult@); }
    assert(cell_views(row@) == g);
    push_optional(row, c.shield_damage, int_string(h.shield_damage));
    proof { g = g + column(c.shield_damage, decimal_int(h.shield_damage as int)); }
    assert(cell_views(row@) == g);
    push_optional(row, c.tripping_rate, h.tripping_rate.clone());
    proof { g = g + column(c.tripping_rate, h.tripping_rate@); }
    assert(cell_views(row@) == g);
}

fn push_blank_opts_a(row: &mut Vec<String>, c: &HitboxColumns)
    ensures
        cell_views(final(row)@) == blank_opts_a(cell_views(old(row)@), *c),
{
    let ghost mut g: Seq<Seq<char>> = cell_views(row@);
    push_optional(row, c.angle_flipping, empty_cell());
    proof { g = g + column(c.angle_flipping, ""@); }
    assert(cell_views(row@) == g);
    push_optional(row, c.clang, empty_cell());
    proof { g = g + column(c.clang, ""@); }
    assert(cell_views(row@) == g);
    push_optional(row, c.direct, empty_cell());
    proof { g = g + column(c.direct, ""@); }
    assert(cell_views(row@) == g);
    push_optional(row, c.hitlag_mult, empty_cell());
    proof { g = g + column(c.hitlag_mult, ""@); }
    assert(cell_views(row@) == g);
    push_optional(row, c.sdi_mult, empty_cell());
    proof { g = g + column(c.sdi_mult, ""@); }
    assert(cell_views(row@) == g);
    push_optional(row, c.shield_damage, empty_cell());
    proof { g = g + column(c.shield_damage, ""@); }
    assert(cell_views(row@) == g);
    push_optional(row, c.tripping_rate, empty_cell());
    proof { g = g + column(c.tripping_rate, ""@); }
    assert(cell_views(row@) == g);
}

fn push_hit_opts_b(row: &mut Vec<String>, h: &HitValues, c: &HitboxColumns)
    ensures
        cell_views(final(row)@) == hit_row_opts_b(cell_views(old(row)@), *h, *c),
{
    let ghost mut g: Seq<Seq<char>> = cell_views(row@);
    push_optional(row, c.rehit_rate, int_string(h.rehit_rate));
    proof { g = g + column(c.rehit_rate, decimal_int(h.rehit_rate as int)); }
    assert(cell_views(row@) == g);
    push_optional(row, c.can_be_shielded, bool_string(h.can_be_shielded));
    proof { g = g + column(c.can_be_shielded, bool_text(h.can_be_shielded)); }
    assert(cell_views(row@) == g);
    push_optional(row, c.can_be_reflected, bool_string(h.can_be_reflected));
    proof { g = g + column(c.can_be_reflected, bool_text(h.can_be_reflected)); }
    assert(cell_views(row@) == g);
    push_optional(row, c.can_be_absorbed, bool_string(h.can_be_absorbed));
    proof { g = g + column(c.can_be_absorbed, bool_text(h.can_be_absorbed)); }
    assert(cell_views(row@) == g);
}

fn push_blank_opts_b(row: &mut Vec<String>, c: &HitboxColumns)
    ensures
        cell_views(final(row)@) == blank_opts_b(cell_views(old(row)@), *c),
{
    let ghost mut g: Seq<Seq<char>> = cell_views(row@);
    push_optional(row, c.rehit_rate, empty_cell());
    proof { g = g + column(c.rehit_rate, ""@); }
    assert(cell_views(row@) == g);
    push_optional(row, c.can_be_shielded, empty_cell());
    proof { g = g + column(c.can_be_shielded, ""@); }
    assert(cell_views(row@) == g);
    push_optional(row, c.can_be_reflected, empty_cell());
    proof { g = g + column(c.can_be_reflected, ""@); }
    assert(cell_views(row@) == g);
    push_optional(row, c.can_be_absorbed, empty_cell());
    proof { g = g + column(c.can_be_absorbed, ""@); }
    assert(cell_views(row@) == g);
}

fn push_hit_opts_c(row: &mut Vec<String>, h: &HitValues, c: &HitboxColumns)
    ensures
        cell_views(final(row)@) == hit_row_opts_c(cell_views(old(row)@), *h, *c),
{
    let ghost mut g: Seq<Seq<char>> = cell_views(row@);
    push_optional(row, c.remain_grabbed, bool_string(h.remain_grabbed));
    proof { g = g + column(c.remain_grabbed, bool_text(h.remain_grabbed)); }
    assert(cell_views(row@) == g);
    push_optional(row, c.ignore_invincibility, bool_string(h.ignore_invincibility));
    proof { g = g + column(c.ignore_invincibility, bool_text(h.ignore_invincibility)); }
    assert(cell_views(row@) == g);
    push_optional(row, c.freeze_frame_disable, bool_string(h.freeze_frame_disable));
    proof { g = g + column(c.freeze_frame_disable, bool_text(h.freeze_frame_disable)); }
    assert(cell_views(row@) == g);
    push_optional(row, c.flinchless, bool_string(h.flinchless));
    proof { g = g + column(c.flinchless, bool_text(h.flinchless)); }
    assert(cell_views(row@) == g);
}

fn push_blank_opts_c(row: &mut Vec<String>, c: &HitboxColumns)
    ensures
        cell_views(final(row)@) == blank_opts_c(cell_views(old(row)@), *c),
{
    let ghost mut g: Seq<Seq<char>> = cell_views(row@);
    push_optional(row, c.remain_grabbed, empty_cell());
    proof { g = g + column(c.remain_grabbed, ""@); }
    assert(cell_views(row@) == g);
    push_optional(row, c.ignore_invincibility, empty_cell());
    proof { g = g + column(c.ignore_invincibility, ""@); }
    assert(cell_views(row@) == g);
    push_optional(row, c.freeze_frame_disable, empty_cell());
    proof { g = g + column(c.freeze_frame_disable, ""@); }
    assert(cell_views(row@) == g);
    push_optional(row, c.flinchless, empty_cell());
    proof { g = g + column(c.flinchless, ""@); }
    assert(cell_views(row@) == g);
}

fn hit_row_cells(id: u8, h: &HitValues, c: &HitboxColumns, spritesheet: &str) -> (row: Vec<String>)
    ensures
        cell_views(row@) == hit_row(id, *h, *c, spritesheet@),
{
    let mut row: Vec<String> = Vec::new();
    assert(cell_views(row@) =~= Seq::<Seq<char>>::empty());
    push_hit_head(&mut row, id, h, c);
    assert(cell_views(row@) =~= hit_row_head(id, *h, *c));
    push_hit_opts_a(&mut row, h, c);
    push_hit_opts_b(&mut row, h, c);
    push_hit_opts_c(&mut row, h, c);
    let ghost before = cell_views(row@);
    push_cell(&mut row, h.shieldstun.clone());
    push_cell(&mut row, h.hitlag.clone());
    push_cell(&mut row, hit_icons_string(&h.can_hit, spritesheet));
    assert(cell_views(row@) =~= before + seq![h.shieldstun@, h.hitlag@, hit_icons(h.can_hit, spritesheet@)]);
    assert(cell_views(row@) =~= hit_row(id, *h, *c, spritesheet@));
    row
}

fn grab_row_cells(id: u8, grab: &GrabValues, c: &HitboxColumns, spritesheet: &str) -> (row: Vec<String>)
    ensures
        cell_views(row@) == grab_row(id, *grab, *c, spritesheet@),
{
    let mut row: Vec<String> = Vec::new();
    let ghost mut g: Seq<Seq<char>> = Seq::empty();
    assert(cell_views(row@) =~= g);
    push_cell(&mut row, String::from_str("0"));
    let mut id_text = String::new();
    write_decimal(&mut id_text, id as u64);
    push_cell(&mut row, id_text);
    push_cell(&mut row, String::from_str("Grab"));
    let mut action = String::from_str("set action: 0x");
    write_hex(&mut action, grab.set_action);
    push_cell(&mut row, action);
    push_cell(&mut row, empty_cell());
    push_cell(&mut row, empty_cell());
    push_cell(&mut row, empty_cell());
    push_cell(&mut row, empty_cell());
    push_cell(&mut row, empty_cell());
    push_cell(&mut row, empty_cell());
    push_optional(&mut row, c.wdsk, empty_cell());
    assert(cell_views(row@) =~= grab_row_head(id, *grab, *c));
    push_blank_opts_a(&mut row, c);
    push_blank_opts_b(&mut row, c);
    push_blank_opts_c(&mut row, c);
    let ghost before = cell_views(row@);
    push_cell(&mut row, grab_icons_string(grab.grounded, grab.aerial, spritesheet));
    assert(cell_views(row@) =~= before + seq![grab_icons(grab.grounded, grab.aerial, spritesheet@)]);
    assert(cell_views(row@) =~= grab_row(id, *grab, *c, spritesheet@));
    row
}

/// The rows of a table of the boxes, in order: one per enabled hitbox and one per grabbox.
pub open spec fn rows_of(boxes: Seq<CollisionBox>, c: HitboxColumns, spritesheet: Seq<char>) -> Seq<Seq<Seq<char>>>
    decreases boxes.len(),
{
    if boxes.len() == 0 {
        Seq::empty()
    } else {
        let before = rows_of(boxes.drop_last(), c, spritesheet);
        let b = boxes.last();
        match b.values {
            BoxValues::Hit(h) => if h.enabled {
                before.push(hit_row(b.hitbox_id, h, c, spritesheet))
            } else {
                before
            },
            BoxValues::Grab(g) => before.push(grab_row(b.hitbox_id, g, c, spritesheet)),
        }
    }
}

/// The values of one field of each enabled hitbox, that the preview text lists.
pub enum HitField {
    Damage,
    Shieldstun,
    Wdsk,
    Bkb,
    Kbg,
    Angle,
    AngleFlip,
    Effect,
    Clang,
    Direct,
    HitlagMult,
    SdiMult,
    ShieldDamage,
    TrippingRate,
    RehitRate,
    CanBeShielded,
    CanBeReflected,
    CanBeAbsorbed,
    RemainGrabbed,
    IgnoreInvincibility,
    FreezeFrameDisable,
    Flinchless,
}

/// The text of one field of a hitbox in the preview text.
pub open spec fn field_text(h: HitValues, f: HitField) -> Seq<char> {
    match f {
        HitField::Damage => h.damage@,
        HitField::Shieldstun => h.shieldstun@,
        HitField::Wdsk => decimal_int(h.wdsk as int),
        HitField::Bkb => h.bkb@,
        HitField::Kbg => h.kbg@,
        HitField::Angle => decimal_int(h.trajectory as int),
        HitField::AngleFlip => angle_flip_short(h.angle_flipping),
        HitField::Effect => effect_name(h.effect),
        HitField::Clang => yes_no(h.clang),
        HitField::Direct => yes_no(h.direct),
        HitField::HitlagMult => h.hitlag_mult@,
        HitField::SdiMult => h.sdi_mult@,
        HitField::ShieldDamage => decimal_int(h.shield_damage as int),
        HitField::TrippingRate => h.tripping_rate@,
        HitField::RehitRate => decimal_int(h.rehit_rate as int),
        HitField::CanBeShielded => yes_no(h.can_be_shielded),
        HitField::CanBeReflected => yes_no(h.can_be_reflected),
        HitField::CanBeAbsorbed => yes_no(h.can_be_absorbed),
        HitField::RemainGrabbed => yes_no(h.remain_grabbed),
        HitField::IgnoreInvincibility => yes_no(h.ignore_invincibility),
        HitField::FreezeFrameDisable => yes_no(h.freeze_frame_disable),
        HitField::Flinchless => yes_no(h.flinchless),
    }
}

fn field_string(h: &HitValues, f: &HitField) -> (text: String)
    ensures
        text@ == field_text(*h, *f),
{
    match f {
        HitField::Damage => h.damage.clone(),
        HitField::Shieldstun => h.shieldstun.clone(),
        HitField::Wdsk => int_string(h.wdsk),
        HitField::Bkb => h.bkb.clone(),
        HitField::Kbg => h.kbg.clone(),
        HitField::Angle => int_string(h.trajectory as i64),
        HitField::AngleFlip => angle_flip_short_string(&h.angle_flipping),
        HitField::Effect => effect_string(&h.effect),
        HitField::Clang => yes_no_string(h.clang),
        HitField::Direct => yes_no_string(h.direct),
        HitField::HitlagMult => h.hitlag_mult.clone(),
        HitField::SdiMult => h.sdi_mult.clone(),
        HitField::ShieldDamage => int_string(h.shield_damage),
        HitField::TrippingRate => h.tripping_rate.clone(),
        HitField::RehitRate => int_string(h.rehit_rate),
        HitField::CanBeShielded => yes_no_string(h.can_be_shielded),
        HitField::CanBeReflected => yes_no_string(h.can_be_reflected),
        HitField::CanBeAbsorbed => yes_no_string(h.can_be_absorbed),
        HitField::RemainGrabbed => yes_no_string(h.remain_grabbed),
        HitField::IgnoreInvincibility => yes_no_string(h.ignore_invincibility),
        HitField::FreezeFrameDisable => yes_no_string(h.freeze_frame_disable),
        HitField::Flinchless => yes_no_string(h.flinchless),
    }
}

/// `value` added to a comma-separated list.
pub open spec fn csv_push(list: Seq<char>, value: Seq<char>) -> Seq<char> {
    if list.len() == 0 {
        value
    } else {
        list + ","@ + value
    }
}

/// The comma-separated values of a field of the enabled hitboxes among the boxes.
pub open spec fn csv_list(boxes: Seq<CollisionBox>, f: HitField) -> Seq<char>
    decreases boxes.len(),
{
    if boxes.len() == 0 {
        Seq::empty()
    } else {
        let before = csv_list(boxes.drop_last(), f);
        match boxes.last().values {
            BoxValues::Hit(h) => if h.enabled {
                csv_push(before, field_text(h, f))
            } else {
                before
            },
            BoxValues::Grab(_) => before,
        }
    }
}

fn csv_string(boxes: &Vec<CollisionBox>, f: HitField) -> (list: String)
    ensures
        list@ == csv_list(boxes@, f),
{
    let mut list = String::new();
    let mut i: usize = 0;
    while i < boxes.len()
        invariant
            i <= boxes.len(),
            list@ == csv_list(boxes@.take(i as int), f),
        decreases boxes.len() - i,
    {
        assert(boxes@.take(i + 1).drop_last() =~= boxes@.take(i as int));
        match &boxes[i].values {
            BoxValues::Hit(h) => {
                if h.enabled {
                    let value = field_string(h, &f);
                    if !list.as_str().is_empty() {
                        list.append(",");
                    }
                    list.append(value.as_str());
                }
            },
            BoxValues::Grab(_) => {},
        }
        assert(list@ =~= csv_list(boxes@.take(i + 1), f));
        i += 1;
    }
    assert(boxes@.take(i as int) =~= boxes@);
    list
}


/// Whether some hitbox (enabled or not) among the boxes has an effect that the preview
/// text names.
pub open spec fn effects_shown(boxes: Seq<CollisionBox>) -> bool
    decreases boxes.len(),
{
    if boxes.len() == 0 {
        false
    } else {
        effects_shown(boxes.drop_last()) || match boxes.last().values {
            BoxValues::Hit(h) => effect_is_special(h.effect),
            BoxValues::Grab(_) => false,
        }
    }
}

/// Whether there is a grabbox among the boxes.
pub open spec fn has_grab(boxes: Seq<CollisionBox>) -> bool
    decreases boxes.len(),
{
    if boxes.len() == 0 {
        false
    } else {
        has_grab(boxes.drop_last()) || boxes.last().values is Grab
    }
}

fn effects_shown_in(boxes: &Vec<CollisionBox>) -> (shown: bool)
    ensures
        shown == effects_shown(boxes@),
{
    let mut shown = false;
    let mut i: usize = 0;
    while i < boxes.len()
        invariant
            i <= boxes.len(),
            shown == effects_shown(boxes@.take(i as int)),
        decreases boxes.len() - i,
    {
        assert(boxes@.take(i + 1).drop_last() =~= boxes@.take(i as int));
        match &boxes[i].values {
            BoxValues::Hit(h) => {
                if effect_special(&h.effect) {
                    shown = true;
                }
            },
            BoxValues::Grab(_) => {},
        }
        i += 1;
    }
    assert(boxes@.take(i as int) =~= boxes@);
    shown
}

fn has_grab_in(boxes: &Vec<CollisionBox>) -> (found: bool)
    ensures
        found == has_grab(boxes@),
{
    let mut found = false;
    let mut i: usize = 0;
    while i < boxes.len()
        invariant
            i <= boxes.len(),
            found == has_grab(boxes@.take(i as int)),
        decreases boxes.len() - i,
    {
        assert(boxes@.take(i + 1).drop_last() =~= boxes@.take(i as int));
        if let BoxValues::Grab(_) = &boxes[i].values {
            found = true;
        }
        i += 1;
    }
    assert(boxes@.take(i as int) =~= boxes@);
    found
}

/// `label` and `value` when `shown`, else nothing.
pub open spec fn line(shown: bool, label: Seq<char>, value: Seq<char>) -> Seq<char> {
    if shown {
        label + value
    } else {
        Seq::empty()
    }
}

fn write_line(s: &mut String, shown: bool, label: &str, value: &str)
    ensures
        final(s)@ == old(s)@ + line(shown, label@, value@),
{
    if shown {
        s.append(label);
        s.append(value);
    }
    assert(final(s)@ =~= old(s)@ + line(shown, label@, value@));
}

/// The text `t` followed by lines 1 of the preview text of a hitbox table.
pub open spec fn preview_lines_1(t: Seq<char>, boxes: Seq<CollisionBox>) -> Seq<char> {
    let c = columns_of(boxes);
    let effects = effects_shown(boxes);
    let t = t + line(true, "\nDamage:"@, csv_list(boxes, HitField::Damage));
    let t = t + line(true, "\nShieldStun:"@, csv_list(boxes, HitField::Shieldstun));
    let t = t + line(c.wdsk, "\nWDSK:"@, csv_list(boxes, HitField::Wdsk));
    let t = t + line(true, "\nBKB:"@, csv_list(boxes, HitField::Bkb));
    let t = t + line(true, "\nKBG:"@, csv_list(boxes, HitField::Kbg));
    let t = t + line(true, "\nAngle:"@, csv_list(boxes, HitField::Angle));
    let t = t + line(c.angle_flipping, "\nAngleFlip:"@, csv_list(boxes, HitField::AngleFlip));
    let t = t + line(effects, "\nEffect:"@, shortened(csv_list(boxes, HitField::Effect)));
    t
}

fn write_preview_lines_1(s: &mut String, boxes: &Vec<CollisionBox>, c: &HitboxColumns, effects: bool)
    requires
        *c == columns_of(boxes@),
        effects == effects_shown(boxes@),
    ensures
        final(s)@ == preview_lines_1(old(s)@, boxes@),
{
    let ghost mut g: Seq<char> = s@;
    {
        let value = csv_string(boxes, HitField::Damage);
        write_line(s, true, "\nDamage:", value.as_str());
    }
    proof { g = g + line(true, "\nDamage:"@, csv_list(boxes@, HitField::Damage)); }
    assert(s@ == g);
    {
        let value = csv_string(boxes, HitField::Shieldstun);
        write_line(s, true, "\nShieldStun:", value.as_str());
    }
    proof { g = g + line(true, "\nShieldStun:"@, csv_list(boxes@, HitField::Shieldstun)); }
    assert(s@ == g);
    {
        let value = csv_string(boxes, HitField::Wdsk);
        write_line(s, c.wdsk, "\nWDSK:", value.as_str());
    }
    proof { g = g + line(columns_of(boxes@).wdsk, "\nWDSK:"@, csv_list(boxes@, HitField::Wdsk)); }
    assert(s@ == g);
    {
        let value = csv_string(boxes, HitField::Bkb);
        write_line(s, true, "\nBKB:", value.as_str());
    }
    proof { g = g + line(true, "\nBKB:"@, csv_list(boxes@, HitField::Bkb)); }
    assert(s@ == g);
    {
        let value = csv_string(boxes, HitField::Kbg);
        write_line(s, true, "\nKBG:", value.as_str());
    }
    proof { g = g + line(true, "\nKBG:"@, csv_list(boxes@, HitField::Kbg)); }
    assert(s@ == g);
    {
        let value = csv_string(boxes, HitField::Angle);
        write_line(s, true, "\nAngle:", value.as_str());
    }
    proof { g = g + line(true, "\nAngle:"@, csv_list(boxes@, HitField::Angle)); }
    assert(s@ == g);
    {
        let value = csv_string(boxes, HitField::AngleFlip);
        write_line(s, c.angle_flipping, "\nAngleFlip:", value.as_str());
    }
    proof { g = g + line(columns_of(boxes@).angle_flipping, "\nAngleFlip:"@, csv_list(boxes@, HitField::AngleFlip)); }
    assert(s@ == g);
    {
        let value = shorten_list(csv_string(boxes, HitField::Effect));
        write_line(s, effects, "\nEffect:", value.as_str());
    }
    proof { g = g + line(effects_shown(boxes@), "\nEffect:"@, shortened(csv_list(boxes@, HitField::Effect))); }
    assert(s@ == g);
}

/// The text `t` followed by lines 2 of the preview text of a hitbox table.
pub open spec fn preview_lines_2(t: Seq<char>, boxes: Seq<CollisionBox>) -> Seq<char> {
    let c = columns_of(boxes);
    let effects = effects_shown(boxes);
    let t = t + line(c.clang, "\nClang:"@, csv_list(boxes, HitField::Clang));
    let t = t + line(c.direct, "\nDirect:"@, csv_list(boxes, HitField::Direct));
    let t = t + line(c.hitlag_mult, "\nHitlagMult:"@, csv_list(boxes, HitField::HitlagMult));
    let t = t + line(c.sdi_mult, "\nSDIMult:"@, csv_list(boxes, HitField::SdiMult));
    let t = t + line(c.shield_damage, "\nShieldDamage:"@, csv_list(boxes, HitField::ShieldDamage));
    let t = t + line(c.tripping_rate, "\nTrippingRate:"@, csv_list(boxes, HitField::TrippingRate));
    let t = t + line(c.rehit_rate, "\nRehitRate:"@, csv_list(boxes, HitField::RehitRate));
    t
}

fn write_preview_lines_2(s: &mut String, boxes: &Vec<CollisionBox>, c: &HitboxColumns, effects: bool)
    requires
        *c == columns_of(boxes@),
        effects == effects_shown(boxes@),
    ensures
        final(s)@ == preview_lines_2(old(s)@, boxes@),
{
    let ghost mut g: Seq<char> = s@;
    {
        let value = csv_string(boxes, HitField::Clang);
        write_line(s, c.clang, "\nClang:", value.as_str());
    }
    proof { g = g + line(columns_of(boxes@).clang, "\nClang:"@, csv_list(boxes@, HitField::Clang)); }
    assert(s@ == g);
    {
        let value = csv_string(boxes, HitField::Direct);
        write_line(s, c.direct, "\nDirect:", value.as_str());
    }
    proof { g = g + line(columns_of(boxes@).direct, "\nDirect:"@, csv_list(boxes@, HitField::Direct)); }
    assert(s@ == g);
    {
        let value = csv_string(boxes, HitField::HitlagMult);
        write_line(s, c.hitlag_mult, "\nHitlagMult:", value.as_str());
    }
    proof { g = g + line(columns_of(boxes@).hitlag_mult, "\nHitlagMult:"@, csv_list(boxes@, HitField::HitlagMult)); }
    assert(s@ == g);
    {
        let value = csv_string(boxes, HitField::SdiMult);
        write_line(s, c.sdi_mult, "\nSDIMult:", value.as_str());
    }
    proof { g = g + line(columns_of(boxes@).sdi_mult, "\nSDIMult:"@, csv_list(boxes@, HitField::SdiMult)); }
    assert(s@ == g);
    {
        let value = csv_string(boxes, HitField::ShieldDamage);
        write_line(s, c.shield_damage, "\nShieldDamage:", value.as_str());
    }
    proof { g = g + line(columns_of(boxes@).shield_damage, "\nShieldDamage:"@, csv_list(boxes@, HitField::ShieldDamage)); }
    assert(s@ == g);
    {
        let value = csv_string(boxes, HitField::TrippingRate);
        write_line(s, c.tripping_rate, "\nTrippingRate:", value.as_str());
    }
    proof { g = g + line(columns_of(boxes@).tripping_rate, "\nTrippingRate:"@, csv_list(boxes@, HitField::TrippingRate)); }
    assert(s@ == g);
    {
        let value = csv_string(boxes, HitField::RehitRate);
        write_line(s, c.rehit_rate, "\nRehitRate:", value.as_str());
    }
    proof { g = g + line(columns_of(boxes@).rehit_rate, "\nRehitRate:"@, csv_list(boxes@, HitField::RehitRate)); }
    assert(s@ == g);
}

/// The text `t` followed by lines 3 of the preview text of a hitbox table.
pub open spec fn preview_lines_3(t: Seq<char>, boxes: Seq<CollisionBox>) -> Seq<char> {
    let c = columns_of(boxes);
    let effects = effects_shown(boxes);
    let t = t + line(c.can_be_shielded, "\nCanBeShielded:"@, csv_list(boxes, HitField::CanBeShielded));
    let t = t + line(c.can_be_reflected, "\nCanBeReflected:"@, csv_list(boxes, HitField::CanBeReflected));
    let t = t + line(c.can_be_absorbed, "\nCanBeAbsorbed:"@, csv_list(boxes, HitField::CanBeAbsorbed));
    let t = t + line(c.remain_grabbed, "\nRemainGrabbed:"@, csv_list(boxes, HitField::RemainGrabbed));
    let t = t + line(c.ignore_invincibility, "\nIgnoreInvincibility:"@, csv_list(boxes, HitField::IgnoreInvincibility));
    let t = t + line(c.freeze_frame_disable, "\nDisableFreezeFrame:"@, csv_list(boxes, HitField::FreezeFrameDisable));
    let t = t + line(c.flinchless, "\nFlinchless:"@, csv_list(boxes, HitField::Flinchless));
    t
}

fn write_preview_lines_3(s: &mut String, boxes: &Vec<CollisionBox>, c: &HitboxColumns, effects: bool)
    requires
        *c == columns_of(boxes@),
        effects == effects_shown(boxes@),
    ensures
        final(s)@ == preview_lines_3(old(s)@, boxes@),
{
    let ghost mut g: Seq<char> = s@;
    {
        let value = csv_string(boxes, HitField::CanBeShielded);
        write_line(s, c.can_be_shielded, "\nCanBeShielded:", value.as_str());
    }
    proof { g = g + line(columns_of(boxes@).can_be_shielded, "\nCanBeShielded:"@, csv_list(boxes@, HitField::CanBeShielded)); }
    assert(s@ == g);
    {
        let value = csv_string(boxes, HitField::CanBeReflected);
        write_line(s, c.can_be_reflected, "\nCanBeReflected:", value.as_str());
    }
    proof { g = g + line(columns_of(boxes@).can_be_reflected, "\nCanBeReflected:"@, csv_list(boxes@, HitField::CanBeReflected)); }
    assert(s@ == g);
    {
        let value = csv_string(boxes, HitField::CanBeAbsorbed);
        write_line(s, c.can_be_absorbed, "\nCanBeAbsorbed:", value.as_str());
    }
    proof { g = g + line(columns_of(boxes@).can_be_absorbed, "\nCanBeAbsorbed:"@, csv_list(boxes@, HitField::CanBeAbsorbed)); }
    assert(s@ == g);
    {
        let value = csv_string(boxes, HitField::RemainGrabbed);
        write_line(s, c.remain_grabbed, "\nRemainGrabbed:", value.as_str());
    }
    proof { g = g + line(columns_of(boxes@).remain_grabbed, "\nRemainGrabbed:"@, csv_list(boxes@, HitField::RemainGrabbed)); }
    assert(s@ == g);
    {
        let value = csv_string(boxes, HitField::IgnoreInvincibility);
        write_line(s, c.ignore_invincibility, "\nIgnoreInvincibility:", value.as_str());
    }
    proof { g = g + line(columns_of(boxes@).ignore_invincibility, "\nIgnoreInvincibility:"@, csv_list(boxes@, HitField::IgnoreInvincibility)); }
    assert(s@ == g);
    {
        let value = csv_string(boxes, HitField::FreezeFrameDisable);
        write_line(s, c.freeze_frame_disable, "\nDisableFreezeFrame:", value.as_str());
    }
    proof { g = g + line(columns_of(boxes@).freeze_frame_disable, "\nDisableFreezeFrame:"@, csv_list(boxes@, HitField::FreezeFrameDisable)); }
    assert(s@ == g);
    {
        let value = csv_string(boxes, HitField::Flinchless);
        write_line(s, c.flinchless, "\nFlinchless:", value.as_str());
    }
    proof { g = g + line(columns_of(boxes@).flinchless, "\nFlinchless:"@, csv_list(boxes@, HitField::Flinchless)); }
    assert(s@ == g);
}

/// The part of the preview text for a hitbox table labelled `frames` with the given boxes.
pub open spec fn preview_text(frames: Seq<char>, boxes: Seq<CollisionBox>) -> Seq<char> {
    let t = "\n\n"@ + frames;
    let t = preview_lines_3(preview_lines_2(preview_lines_1(t, boxes), boxes), boxes);
    t + line(has_grab(boxes), "\nHasGrabbox"@, ""@)
}

/// A table of the page: its label, its header and its rows.
pub struct HitboxTable {
    pub frames: String,
    pub header: Vec<&'static str>,
    pub rows: Vec<Vec<String>>,
}

/// A table as plain values.
pub open spec fn table_view(t: HitboxTable) -> (Seq<char>, Seq<Seq<char>>, Seq<Seq<Seq<char>>>) {
    (t.frames@, str_views(t.header@), t.rows@.map_values(|r: Vec<String>| cell_views(r@)))
}

fn rows_of_boxes(boxes: &Vec<CollisionBox>, c: &HitboxColumns, spritesheet: &str) -> (rows: Vec<Vec<String>>)
    ensures
        rows@.map_values(|r: Vec<String>| cell_views(r@)) == rows_of(boxes@, *c, spritesheet@),
{
    let mut rows: Vec<Vec<String>> = Vec::new();
    let mut i: usize = 0;
    while i < boxes.len()
        invariant
            i <= boxes.len(),
            rows@.map_values(|r: Vec<String>| cell_views(r@)) == rows_of(boxes@.take(i as int), *c, spritesheet@),
        decreases boxes.len() - i,
    {
        assert(boxes@.take(i + 1).drop_last() =~= boxes@.take(i as int));
        let b = &boxes[i];
        let ghost before = rows@;
        match &b.values {
            BoxValues::Hit(h) => {
                if h.enabled {
                    let row = hit_row_cells(b.hitbox_id, h, c, spritesheet);
                    rows.push(row);
                    assert(rows@.map_values(|r: Vec<String>| cell_views(r@)) =~= before.map_values(
                        |r: Vec<String>| cell_views(r@),
                    ).push(hit_row(b.hitbox_id, *h, *c, spritesheet@)));
                }
            },
            BoxValues::Grab(g) => {
                let row = grab_row_cells(b.hitbox_id, g, c, spritesheet);
                rows.push(row);
                assert(rows@.map_values(|r: Vec<String>| cell_views(r@)) =~= before.map_values(
                    |r: Vec<String>| cell_views(r@),
                ).push(grab_row(b.hitbox_id, *g, *c, spritesheet@)));
            },
        }
        i += 1;
    }
    assert(boxes@.take(i as int) =~= boxes@);
    rows
}

fn write_preview(s: &mut String, frames: &str, boxes: &Vec<CollisionBox>, c: &HitboxColumns)
    requires
        *c == columns_of(boxes@),
    ensures
        final(s)@ == old(s)@ + preview_text(frames@, boxes@),
{
    let effects = effects_shown_in(boxes);
    let mut text = String::from_str("\n\n");
    text.append(frames);
    write_preview_lines_1(&mut text, boxes, c, effects);
    write_preview_lines_2(&mut text, boxes, c, effects);
    write_preview_lines_3(&mut text, boxes, c, effects);
    let grab = has_grab_in(boxes);
    write_line(&mut text, grab, "\nHasGrabbox", "");
    s.append(text.as_str());
    assert(final(s)@ =~= old(s)@ + preview_text(frames@, boxes@));
}

/// The hitbox table labelled `frames` of the boxes, and its part of the preview text; no
/// table, and no text, where no box makes a row (every hitbox is disabled).
pub fn hitbox_table(frames: String, boxes: &Vec<CollisionBox>, spritesheet: &str) -> (table: (Option<HitboxTable>, String))
    ensures
        rows_of(boxes@, columns_of(boxes@), spritesheet@).len() == 0 ==> table.0 is None && table.1@ == Seq::<char>::empty(),
        rows_of(boxes@, columns_of(boxes@), spritesheet@).len() > 0 ==> (table.0 matches Some(t) && table_view(t) == (
            frames@,
            hitbox_header_titles(columns_of(boxes@)),
            rows_of(boxes@, columns_of(boxes@), spritesheet@),
        ) && table.1@ == preview_text(frames@, boxes@)),
{
    let c = hitbox_columns(boxes);
    let rows = rows_of_boxes(boxes, &c, spritesheet);
    if rows.len() == 0 {
        return (None, String::new());
    }
    let mut text = String::new();
    write_preview(&mut text, frames.as_str(), boxes, &c);
    assert(text@ =~= preview_text(frames@, boxes@));
    let header = hitbox_header(&c);
    (Some(HitboxTable { frames, header, rows }), text)
}

/// Whom a throw can grab.
pub enum GrabTarget {
    /// No one (the game's `None`).
    NoTarget,
    GroundedOnly,
    AerialOnly,
    AerialAndGrounded,
    /// A target the game does not name, as its debug text.
    Unknown(String),
}

/// The name of a grab target, as the throw table shows it.
pub open spec fn grab_target_name(t: GrabTarget) -> Seq<char> {
    match t {
        GrabTarget::NoTarget => "None"@,
        GrabTarget::GroundedOnly => "GroundedOnly"@,
        GrabTarget::AerialOnly => "AerialOnly"@,
        GrabTarget::AerialAndGrounded => "AerialAndGrounded"@,
        GrabTarget::Unknown(debug) => debug@,
    }
}

/// The short name of a grab target, as the preview text shows it.
pub open spec fn grab_target_short(t: GrabTarget) -> Seq<char> {
    match t {
        GrabTarget::NoTarget => "N"@,
        GrabTarget::GroundedOnly => "G"@,
        GrabTarget::AerialOnly => "A"@,
        GrabTarget::AerialAndGrounded => "AG"@,
        GrabTarget::Unknown(debug) => debug@,
    }
}

fn grab_target_name_string(t: &GrabTarget) -> (name: String)
    ensures
        name@ == grab_target_name(*t),
{
    match t {
        GrabTarget::NoTarget => String::from_str("None"),
        GrabTarget::GroundedOnly => String::from_str("GroundedOnly"),
        GrabTarget::AerialOnly => String::from_str("AerialOnly"),
        GrabTarget::AerialAndGrounded => String::from_str("AerialAndGrounded"),
        GrabTarget::Unknown(debug) => debug.clone(),
    }
}

fn grab_target_short_str(t: &GrabTarget) -> (short: &str)
    ensures
        short@ == grab_target_short(*t),
{
    match t {
        GrabTarget::NoTarget => "N",
        GrabTarget::GroundedOnly => "G",
        GrabTarget::AerialOnly => "A",
        GrabTarget::AerialAndGrounded => "AG",
        GrabTarget::Unknown(debug) => debug.as_str(),
    }
}

/// The values of a throw that the throw table and the preview text show; numbers with a
/// fractional part, and the debug texts of the effect and sound, come as text.
pub struct ThrowValues {
    pub damage: String,
    pub wdsk: i64,
    pub bkb: String,
    pub kbg: String,
    pub trajectory: i32,
    pub effect: String,
    pub sfx: String,
    pub grab_target: GrabTarget,
    pub i_frames: String,
    pub weight_dependent_speed: bool,
}

/// The label of the throw table of a throw on 0-based frame `i`.
pub open spec fn throw_frames(i: nat) -> Seq<char> {
    "Frame: "@ + decimal(i)
}

/// The row of the throw table.
pub open spec fn throw_row(t: ThrowValues) -> Seq<Seq<char>> {
    seq![t.damage@] + column(t.wdsk != 0, decimal_int(t.wdsk as int)) + seq![
        t.bkb@,
        t.kbg@,
        angle_text(t.trajectory, 0),
        t.effect@,
        t.sfx@,
        grab_target_name(t.grab_target),
        t.i_frames@,
        bool_text(t.weight_dependent_speed),
    ]
}

/// The part of the preview text for a throw on 0-based frame `i`.
pub open spec fn throw_preview(i: nat, t: ThrowValues) -> Seq<char> {
    "\n\nThrow"@ + "\n"@ + throw_frames(i) + "\nDamage:"@ + t.damage@ + line(t.wdsk != 0, "\nWDSK:"@, decimal_int(t.wdsk as int))
        + "\nBKB:"@ + t.bkb@ + "\nKBG:"@ + t.kbg@ + "\nAngle:"@ + decimal_int(t.trajectory as int) + "\nEffect:"@
        + t.effect@ + "\nWDTS:"@ + bool_text(t.weight_dependent_speed) + "\nGrabTarget:"@ + grab_target_short(t.grab_target)
        + "\nIframes:"@ + t.i_frames@
}

/// The throw table of a throw on 0-based frame `i`, and its part of the preview text.
pub fn throw_table(i: usize, t: &ThrowValues) -> (table: (HitboxTable, String))
    ensures
        table_view(table.0) == (throw_frames(i as nat), throw_header_titles(t.wdsk != 0), seq![throw_row(*t)]),
        table.1@ == throw_preview(i as nat, *t),
{
    let mut frames = String::from_str("Frame: ");
    write_decimal(&mut frames, i as u64);
    let use_wdsk = t.wdsk != 0;
    let mut row: Vec<String> = Vec::new();
    push_cell(&mut row, t.damage.clone());
    push_optional(&mut row, use_wdsk, int_string(t.wdsk));
    push_cell(&mut row, t.bkb.clone());
    push_cell(&mut row, t.kbg.clone());
    push_cell(&mut row, angle_string(t.trajectory, 0));
    push_cell(&mut row, t.effect.clone());
    push_cell(&mut row, t.sfx.clone());
    push_cell(&mut row, grab_target_name_string(&t.grab_target));
    push_cell(&mut row, t.i_frames.clone());
    push_cell(&mut row, bool_string(t.weight_dependent_speed));
    assert(cell_views(row@) =~= throw_row(*t));
    let mut text = String::from_str("\n\nThrow");
    text.append("\n");
    text.append(frames.as_str());
    text.append("\nDamage:");
    text.append(t.damage.as_str());
    let wdsk_text = int_string(t.wdsk);
    write_line(&mut text, use_wdsk, "\nWDSK:", wdsk_text.as_str());
    text.append("\nBKB:");
    text.append(t.bkb.as_str());
    text.append("\nKBG:");
    text.append(t.kbg.as_str());
    text.append("\nAngle:");
    write_decimal_i64(&mut text, t.trajectory as i64);
    text.append("\nEffect:");
    text.append(t.effect.as_str());
    text.append("\nWDTS:");
    text.append(bool_string(t.weight_dependent_speed).as_str());
    text.append("\nGrabTarget:");
    text.append(grab_target_short_str(&t.grab_target));
    text.append("\nIframes:");
    text.append(t.i_frames.as_str());
    assert(text@ =~= throw_preview(i as nat, *t));
    let rows = vec![row];
    let table = HitboxTable { frames, header: throw_header(use_wdsk), rows };
    assert(table_view(table).2 =~= seq![throw_row(*t)]);
    (table, text)
}

/// 1 for a column shown, 0 for one hidden.
pub open spec fn bit(shown: bool) -> int {
    if shown {
        1
    } else {
        0
    }
}

/// The number of optional columns shown.
pub open spec fn shown_count(c: HitboxColumns) -> int {
    bit(c.wdsk) + bit(c.angle_flipping) + bit(c.clang) + bit(c.direct) + bit(c.hitlag_mult) + bit(c.sdi_mult) + bit(c.shield_damage) + bit(c.tripping_rate) + bit(c.rehit_rate) + bit(c.can_be_shielded) + bit(c.can_be_reflected) + bit(c.can_be_absorbed) + bit(c.remain_grabbed) + bit(c.ignore_invincibility) + bit(c.freeze_frame_disable) + bit(c.flinchless)
}

proof fn lemma_header_parts(c: HitboxColumns, t: Seq<Seq<char>>)
    ensures
        crate::subaction_page::header_head(c, t).len() == t.len() + 8 + bit(c.wdsk),
        crate::subaction_page::header_flags_a(c, t).len() == t.len() + bit(c.angle_flipping) + bit(c.clang) + bit(c.direct) + bit(c.hitlag_mult) + bit(c.sdi_mult),
        crate::subaction_page::header_flags_b(c, t).len() == t.len() + bit(c.shield_damage) + bit(c.tripping_rate) + bit(c.rehit_rate) + bit(c.can_be_shielded) + bit(c.can_be_reflected),
        crate::subaction_page::header_flags_c(c, t).len() == t.len() + bit(c.can_be_absorbed) + bit(c.remain_grabbed) + bit(c.ignore_invincibility) + bit(c.freeze_frame_disable) + bit(c.flinchless),
        crate::subaction_page::header_tail(c, t).len() == t.len() + 3,
{
}

/// A hitbox table's header has its eleven fixed columns and one more for each optional
/// column shown.
pub proof fn lemma_header_length(c: HitboxColumns)
    ensures
        hitbox_header_titles(c).len() == 11 + shown_count(c),
{
    let t0 = Seq::<Seq<char>>::empty();
    let t1 = crate::subaction_page::header_head(c, t0);
    let t2 = crate::subaction_page::header_flags_a(c, t1);
    let t3 = crate::subaction_page::header_flags_b(c, t2);
    let t4 = crate::subaction_page::header_flags_c(c, t3);
    lemma_header_parts(c, t0);
    lemma_header_parts(c, t1);
    lemma_header_parts(c, t2);
    lemma_header_parts(c, t3);
    lemma_header_parts(c, t4);
}

#[verifier::spinoff_prover]
#[verifier::rlimit(50)]
proof fn lemma_hit_row_parts(id: u8, h: HitValues, c: HitboxColumns, t: Seq<Seq<char>>)
    ensures
        hit_row_head(id, h, c).len() == 8 + bit(c.wdsk),
        hit_row_opts_a(t, h, c).len() == t.len() + bit(c.angle_flipping) + bit(c.clang) + bit(c.direct) + bit(c.hitlag_mult) + bit(c.sdi_mult) + bit(c.shield_damage) + bit(c.tripping_rate),
        hit_row_opts_b(t, h, c).len() == t.len() + bit(c.rehit_rate) + bit(c.can_be_shielded) + bit(c.can_be_reflected) + bit(c.can_be_absorbed),
        hit_row_opts_c(t, h, c).len() == t.len() + bit(c.remain_grabbed) + bit(c.ignore_invincibility) + bit(c.freeze_frame_disable) + bit(c.flinchless),
{
}

proof fn lemma_grab_row_parts(id: u8, g: GrabValues, c: HitboxColumns, t: Seq<Seq<char>>)
    ensures
        grab_row_head(id, g, c).len() == 10 + bit(c.wdsk),
        blank_opts_a(t, c).len() == t.len() + bit(c.angle_flipping) + bit(c.clang) + bit(c.direct) + bit(c.hitlag_mult) + bit(c.sdi_mult) + bit(c.shield_damage) + bit(c.tripping_rate),
        blank_opts_b(t, c).len() == t.len() + bit(c.rehit_rate) + bit(c.can_be_shielded) + bit(c.can_be_reflected) + bit(c.can_be_absorbed),
        blank_opts_c(t, c).len() == t.len() + bit(c.remain_grabbed) + bit(c.ignore_invincibility) + bit(c.freeze_frame_disable) + bit(c.flinchless),
{
}

proof fn lemma_hit_row_length(id: u8, h: HitValues, c: HitboxColumns, spritesheet: Seq<char>)
    ensures
        hit_row(id, h, c, spritesheet).len() == 11 + shown_count(c),
{
    let t1 = hit_row_head(id, h, c);
    let t2 = hit_row_opts_a(t1, h, c);
    let t3 = hit_row_opts_b(t2, h, c);
    lemma_hit_row_parts(id, h, c, t1);
    lemma_hit_row_parts(id, h, c, t2);
    lemma_hit_row_parts(id, h, c, t3);
}

#[verifier::rlimit(30)]
proof fn lemma_grab_row_length(id: u8, g: GrabValues, c: HitboxColumns, spritesheet: Seq<char>)
    ensures
        grab_row(id, g, c, spritesheet).len() == 11 + shown_count(c),
{
    let u1 = grab_row_head(id, g, c);
    let u2 = blank_opts_a(u1, c);
    let u3 = blank_opts_b(u2, c);
    lemma_grab_row_parts(id, g, c, u1);
    lemma_grab_row_parts(id, g, c, u2);
    lemma_grab_row_parts(id, g, c, u3);
    let u4 = blank_opts_c(u3, c);
    assert(u4.len() == 11 + shown_count(c) - 1);
    assert(grab_row(id, g, c, spritesheet) == u4 + seq![grab_icons(g.grounded, g.aerial, spritesheet)]);
}

/// Every row of a hitbox table has one cell per column of its header: hitboxes and
/// grabboxes alike, whichever optional columns are shown.
pub proof fn lemma_rows_fit_header(boxes: Seq<CollisionBox>, c: HitboxColumns, spritesheet: Seq<char>)
    ensures
        forall|i: int|
            0 <= i < rows_of(boxes, c, spritesheet).len() ==> (#[trigger] rows_of(boxes, c, spritesheet)[i]).len()
                == hitbox_header_titles(c).len(),
    decreases boxes.len(),
{
    if boxes.len() > 0 {
        lemma_rows_fit_header(boxes.drop_last(), c, spritesheet);
        lemma_header_length(c);
        let before = rows_of(boxes.drop_last(), c, spritesheet);
        let rows = rows_of(boxes, c, spritesheet);
        let b = boxes.last();
        match b.values {
            BoxValues::Hit(h) => lemma_hit_row_length(b.hitbox_id, h, c, spritesheet),
            BoxValues::Grab(g) => lemma_grab_row_length(b.hitbox_id, g, c, spritesheet),
        }
        assert forall|i: int| 0 <= i < rows.len() implies (#[trigger] rows[i]).len() == hitbox_header_titles(c).len() by {
            if i < before.len() {
                assert(rows[i] == before[i]);
            }
        }
    }
}

/// Whether some hitbox among the boxes, enabled or not, meets `p`; grabboxes do not count.
pub open spec fn some_hitbox(boxes: Seq<CollisionBox>, p: spec_fn(HitValues) -> bool) -> bool {
    exists|i: int|
        0 <= i < boxes.len() && match (#[trigger] boxes[i]).values {
            BoxValues::Hit(h) => p(h),
            BoxValues::Grab(_) => false,
        }
}

proof fn lemma_column_of(boxes: Seq<CollisionBox>, f: spec_fn(HitboxColumns) -> bool, p: spec_fn(HitValues) -> bool)
    requires
        !f(no_columns()),
        forall|a: HitboxColumns, b: HitboxColumns| #[trigger] f(either(a, b)) == (f(a) || f(b)),
        forall|h: HitValues| #[trigger] f(hit_flags(h)) == p(h),
    ensures
        f(columns_of(boxes)) == some_hitbox(boxes, p),
    decreases boxes.len(),
{
    if boxes.len() > 0 {
        let rest = boxes.drop_last();
        lemma_column_of(rest, f, p);
        let last = boxes.len() - 1;
        assert(boxes[last] == boxes.last());
        if some_hitbox(rest, p) {
            let i = choose|i: int|
                0 <= i < rest.len() && match (#[trigger] rest[i]).values {
                    BoxValues::Hit(h) => p(h),
                    BoxValues::Grab(_) => false,
                };
            assert(boxes[i] == rest[i]);
        }
        if some_hitbox(boxes, p) {
            let i = choose|i: int|
                0 <= i < boxes.len() && match (#[trigger] boxes[i]).values {
                    BoxValues::Hit(h) => p(h),
                    BoxValues::Grab(_) => false,
                };
            if i < last {
                assert(rest[i] == boxes[i]);
            }
        }
    } else {
        assert(!some_hitbox(boxes, p));
    }
}

/// Each optional column of a hitbox table is shown exactly when some hitbox among the
/// boxes, enabled or not, has an unusual value for it: a weight-dependent set knockback, an
/// angle flip other than by attacker position, no clang, not direct, a changed hitlag or
/// SDI multiplier, shield damage, a changed trip rate, a rehit rate, not shieldable,
/// reflectable, absorbable, keeping the victim grabbed, ignoring invincibility, no freeze
/// frames, or flinchless. Grabboxes show no optional column.
pub proof fn lemma_columns_shown(boxes: Seq<CollisionBox>)
    ensures
        columns_of(boxes).wdsk == some_hitbox(boxes, |h: HitValues| h.wdsk != 0),
        columns_of(boxes).angle_flipping == some_hitbox(boxes, |h: HitValues| !(h.angle_flipping is AttackerPosition)),
        columns_of(boxes).clang == some_hitbox(boxes, |h: HitValues| !h.clang),
        columns_of(boxes).direct == some_hitbox(boxes, |h: HitValues| !h.direct),
        columns_of(boxes).hitlag_mult == some_hitbox(boxes, |h: HitValues| h.hitlag_mult_changed),
        columns_of(boxes).sdi_mult == some_hitbox(boxes, |h: HitValues| h.sdi_mult_changed),
        columns_of(boxes).shield_damage == some_hitbox(boxes, |h: HitValues| h.shield_damage != 0),
        columns_of(boxes).tripping_rate == some_hitbox(boxes, |h: HitValues| h.tripping_rate_changed),
        columns_of(boxes).rehit_rate == some_hitbox(boxes, |h: HitValues| h.rehit_rate != 0),
        columns_of(boxes).can_be_shielded == some_hitbox(boxes, |h: HitValues| !h.can_be_shielded),
        columns_of(boxes).can_be_reflected == some_hitbox(boxes, |h: HitValues| h.can_be_reflected),
        columns_of(boxes).can_be_absorbed == some_hitbox(boxes, |h: HitValues| h.can_be_absorbed),
        columns_of(boxes).remain_grabbed == some_hitbox(boxes, |h: HitValues| h.remain_grabbed),
        columns_of(boxes).ignore_invincibility == some_hitbox(boxes, |h: HitValues| h.ignore_invincibility),
        columns_of(boxes).freeze_frame_disable == some_hitbox(boxes, |h: HitValues| h.freeze_frame_disable),
        columns_of(boxes).flinchless == some_hitbox(boxes, |h: HitValues| h.flinchless),
{
    lemma_column_of(boxes, |c: HitboxColumns| c.wdsk, |h: HitValues| h.wdsk != 0);
    lemma_column_of(boxes, |c: HitboxColumns| c.angle_flipping, |h: HitValues| !(h.angle_flipping is AttackerPosition));
    lemma_column_of(boxes, |c: HitboxColumns| c.clang, |h: HitValues| !h.clang);
    lemma_column_of(boxes, |c: HitboxColumns| c.direct, |h: HitValues| !h.direct);
    lemma_column_of(boxes, |c: HitboxColumns| c.hitlag_mult, |h: HitValues| h.hitlag_mult_changed);
    lemma_column_of(boxes, |c: HitboxColumns| c.sdi_mult, |h: HitValues| h.sdi_mult_changed);
    lemma_column_of(boxes, |c: HitboxColumns| c.shield_damage, |h: HitValues| h.shield_damage != 0);
    lemma_column_of(boxes, |c: HitboxColumns| c.tripping_rate, |h: HitValues| h.tripping_rate_changed);
    lemma_column_of(boxes, |c: HitboxColumns| c.rehit_rate, |h: HitValues| h.rehit_rate != 0);
    lemma_column_of(boxes, |c: HitboxColumns| c.can_be_shielded, |h: HitValues| !h.can_be_shielded);
    lemma_column_of(boxes, |c: HitboxColumns| c.can_be_reflected, |h: HitValues| h.can_be_reflected);
    lemma_column_of(boxes, |c: HitboxColumns| c.can_be_absorbed, |h: HitValues| h.can_be_absorbed);
    lemma_column_of(boxes, |c: HitboxColumns| c.remain_grabbed, |h: HitValues| h.remain_grabbed);
    lemma_column_of(boxes, |c: HitboxColumns| c.ignore_invincibility, |h: HitValues| h.ignore_invincibility);
    lemma_column_of(boxes, |c: HitboxColumns| c.freeze_frame_disable, |h: HitValues| h.freeze_frame_disable);
    lemma_column_of(boxes, |c: HitboxColumns| c.flinchless, |h: HitValues| h.flinchless);
}

proof fn lemma_kept(t: Seq<Seq<char>>, u: Seq<Seq<char>>, x: Seq<char>)
    requires
        t.contains(x),
    ensures
        (t + u).contains(x),
{
    let i = choose|i: int| 0 <= i < t.len() && t[i] == x;
    assert((t + u)[i] == x);
}

proof fn lemma_kept_push(t: Seq<Seq<char>>, y: Seq<char>, x: Seq<char>)
    requires
        t.contains(x),
    ensures
        t.push(y).contains(x),
{
    let i = choose|i: int| 0 <= i < t.len() && t[i] == x;
    assert(t.push(y)[i] == x);
}

proof fn lemma_column_shown(t: Seq<Seq<char>>, title: Seq<char>)
    ensures
        (t + column(true, title)).contains(title),
{
    assert((t + column(true, title))[t.len() as int] == title);
}

proof fn lemma_header_head_keeps(c: HitboxColumns, t: Seq<Seq<char>>, x: Seq<char>)
    ensures
        t.contains(x) ==> header_head(c, t).contains(x),
        c.wdsk ==> header_head(c, t).contains("<abbr title=\"Weight Dependent Set Knockback. When this value is not 0, an entirely different formula is used to calculate knockback. In this formula hitbox damage and current % are ignored.\">WDSK</abbr>"@),
{
    let t0 = t;
    let t1 = t0.push("<abbr title=\"Hitboxes in different sets can rehit the same enemy across multiple frames. i.e. a multi-hit move. Hitboxes in different sets can also hit in the same frame, the damage is the total of all hit hitboxes however the knockback and angle is taken from the hitbox with the most knockback.\">Set</abbr>"@);
    let t2 = t1.push("<abbr title=\"Lower hitbox IDs take priority over higher ones. i.e. if hitbox 0 and 1 are both hit, hitbox 0 is used\">ID</abbr>"@);
    let t3 = t2.push("<abbr title=\"Damage\">Dmg</abbr>"@);
    let t4 = t3 + column(c.wdsk, "<abbr title=\"Weight Dependent Set Knockback. When this value is not 0, an entirely different formula is used to calculate knockback. In this formula hitbox damage and current % are ignored.\">WDSK</abbr>"@);
    let t5 = t4.push("<abbr title=\"Base knockback\">BKB</abbr>"@);
    let t6 = t5.push("<abbr title=\"Knockback growth\">KBG</abbr>"@);
    let t7 = t6.push("<abbr title=\"Specifies the angle used when the fighter faces to the right. It is flipped across the y-axis when the angle flipper has a direction to the left.\">Angle</abbr>"@);
    let t8 = t7.push("Effect"@);
    let t9 = t8.push("Sound"@);
    assert(header_head(c, t) == t9);
    if t.contains(x) {
        lemma_kept_push(t0, "<abbr title=\"Hitboxes in different sets can rehit the same enemy across multiple frames. i.e. a multi-hit move. Hitboxes in different sets can also hit in the same frame, the damage is the total of all hit hitboxes however the knockback and angle is taken from the hitbox with the most knockback.\">Set</abbr>"@, x);
        lemma_kept_push(t1, "<abbr title=\"Lower hitbox IDs take priority over higher ones. i.e. if hitbox 0 and 1 are both hit, hitbox 0 is used\">ID</abbr>"@, x);
        lemma_kept_push(t2, "<abbr title=\"Damage\">Dmg</abbr>"@, x);
        lemma_kept(t3, column(c.wdsk, "<abbr title=\"Weight Dependent Set Knockback. When this value is not 0, an entirely different formula is used to calculate knockback. In this formula hitbox damage and current % are ignored.\">WDSK</abbr>"@), x);
        lemma_kept_push(t4, "<abbr title=\"Base knockback\">BKB</abbr>"@, x);
        lemma_kept_push(t5, "<abbr title=\"Knockback growth\">KBG</abbr>"@, x);
        lemma_kept_push(t6, "<abbr title=\"Specifies the angle used when the fighter faces to the right. It is flipped across the y-axis when the angle flipper has a direction to the left.\">Angle</abbr>"@, x);
        lemma_kept_push(t7, "Effect"@, x);
        lemma_kept_push(t8, "Sound"@, x);
    }
    if c.wdsk {
        lemma_column_shown(t3, "<abbr title=\"Weight Dependent Set Knockback. When this value is not 0, an entirely different formula is used to calculate knockback. In this formula hitbox damage and current % are ignored.\">WDSK</abbr>"@);
        lemma_kept_push(t4, "<abbr title=\"Base knockback\">BKB</abbr>"@, "<abbr title=\"Weight Dependent Set Knockback. When this value is not 0, an entirely different formula is used to calculate knockback. In this formula hitbox damage and current % are ignored.\">WDSK</abbr>"@);
        lemma_kept_push(t5, "<abbr title=\"Knockback growth\">KBG</abbr>"@, "<abbr title=\"Weight Dependent Set Knockback. When this value is not 0, an entirely different formula is used to calculate knockback. In this formula hitbox damage and current % are ignored.\">WDSK</abbr>"@);
        lemma_kept_push(t6, "<abbr title=\"Specifies the angle used when the fighter faces to the right. It is flipped across the y-axis when the angle flipper has a direction to the left.\">Angle</abbr>"@, "<abbr title=\"Weight Dependent Set Knockback. When this value is not 0, an entirely different formula is used to calculate knockback. In this formula hitbox damage and current % are ignored.\">WDSK</abbr>"@);
        lemma_kept_push(t7, "Effect"@, "<abbr title=\"Weight Dependent Set Knockback. When this value is not 0, an entirely different formula is used to calculate knockback. In this formula hitbox damage and current % are ignored.\">WDSK</abbr>"@);
        lemma_kept_push(t8, "Sound"@, "<abbr title=\"Weight Dependent Set Knockback. When this value is not 0, an entirely different formula is used to calculate knockback. In this formula hitbox damage and current % are ignored.\">WDSK</abbr>"@);
    }
}

proof fn lemma_header_flags_a_keeps(c: HitboxColumns, t: Seq<Seq<char>>, x: Seq<char>)
    ensures
        t.contains(x) ==> header_flags_a(c, t).contains(x),
        c.angle_flipping ==> header_flags_a(c, t).contains("Angle Flip"@),
        c.clang ==> header_flags_a(c, t).contains("Clang"@),
        c.direct ==> header_flags_a(c, t).contains("Direct"@),
        c.hitlag_mult ==> header_flags_a(c, t).contains("Hitlag Mult"@),
        c.sdi_mult ==> header_flags_a(c, t).contains("SDI Mult"@),
{
    let t0 = t;
    let t1 = t0 + column(c.angle_flipping, "Angle Flip"@);
    let t2 = t1 + column(c.clang, "Clang"@);
    let t3 = t2 + column(c.direct, "Direct"@);
    let t4 = t3 + column(c.hitlag_mult, "Hitlag Mult"@);
    let t5 = t4 + column(c.sdi_mult, "SDI Mult"@);
    assert(header_flags_a(c, t) == t5);
    if t.contains(x) {
        lemma_kept(t0, column(c.angle_flipping, "Angle Flip"@), x);
        lemma_kept(t1, column(c.clang, "Clang"@), x);
        lemma_kept(t2, column(c.direct, "Direct"@), x);
        lemma_kept(t3, column(c.hitlag_mult, "Hitlag Mult"@), x);
        lemma_kept(t4, column(c.sdi_mult, "SDI Mult"@), x);
    }
    if c.angle_flipping {
        lemma_column_shown(t0, "Angle Flip"@);
        lemma_kept(t1, column(c.clang, "Clang"@), "Angle Flip"@);
        lemma_kept(t2, column(c.direct, "Direct"@), "Angle Flip"@);
        lemma_kept(t3, column(c.hitlag_mult, "Hitlag Mult"@), "Angle Flip"@);
        lemma_kept(t4, column(c.sdi_mult, "SDI Mult"@), "Angle Flip"@);
    }
    if c.clang {
        lemma_column_shown(t1, "Clang"@);
        lemma_kept(t2, column(c.direct, "Direct"@), "Clang"@);
        lemma_kept(t3, column(c.hitlag_mult, "Hitlag Mult"@), "Clang"@);
        lemma_kept(t4, column(c.sdi_mult, "SDI Mult"@), "Clang"@);
    }
    if c.direct {
        lemma_column_shown(t2, "Direct"@);
        lemma_kept(t3, column(c.hitlag_mult, "Hitlag Mult"@), "Direct"@);
        lemma_kept(t4, column(c.sdi_mult, "SDI Mult"@), "Direct"@);
    }
    if c.hitlag_mult {
        lemma_column_shown(t3, "Hitlag Mult"@);
        lemma_kept(t4, column(c.sdi_mult, "SDI Mult"@), "Hitlag Mult"@);
    }
    if c.sdi_mult {
        lemma_column_shown(t4, "SDI Mult"@);
    }
}

proof fn lemma_header_flags_b_keeps(c: HitboxColumns, t: Seq<Seq<char>>, x: Seq<char>)
    ensures
        t.contains(x) ==> header_flags_b(c, t).contains(x),
        c.shield_damage ==> header_flags_b(c, t).contains("<abbr title=\"Shield Damage\">Shield Dmg</abbr>"@),
        c.tripping_rate ==> header_flags_b(c, t).contains("<abbr title=\"Trip Rate. Chance of trip occuring out of 100?\">Trip Rate</abbr>"@),
        c.rehit_rate ==> header_flags_b(c, t).contains("<abbr title=\"Rehit rate. How many frames it takes for the hitbox to hit the same target again. e.g. value of 1 means it will hit every frame.\">Rehit Rate</abbr>"@),
        c.can_be_shielded ==> header_flags_b(c, t).contains("<abbr title=\"Can be shielded\">Shieldable</abbr>"@),
        c.can_be_reflected ==> header_flags_b(c, t).contains("<abbr title=\"Can be reflected\">Reflectable</abbr>"@),
{
    let t0 = t;
    let t1 = t0 + column(c.shield_damage, "<abbr title=\"Shield Damage\">Shield Dmg</abbr>"@);
    let t2 = t1 + column(c.tripping_rate, "<abbr title=\"Trip Rate. Chance of trip occuring out of 100?\">Trip Rate</abbr>"@);
    let t3 = t2 + column(c.rehit_rate, "<abbr title=\"Rehit rate. How many frames it takes for the hitbox to hit the same target again. e.g. value of 1 means it will hit every frame.\">Rehit Rate</abbr>"@);
    let t4 = t3 + column(c.can_be_shielded, "<abbr title=\"Can be shielded\">Shieldable</abbr>"@);
    let t5 = t4 + column(c.can_be_reflected, "<abbr title=\"Can be reflected\">Reflectable</abbr>"@);
    assert(header_flags_b(c, t) == t5);
    if t.contains(x) {
        lemma_kept(t0, column(c.shield_damage, "<abbr title=\"Shield Damage\">Shield Dmg</abbr>"@), x);
        lemma_kept(t1, column(c.tripping_rate, "<abbr title=\"Trip Rate. Chance of trip occuring out of 100?\">Trip Rate</abbr>"@), x);
        lemma_kept(t2, column(c.rehit_rate, "<abbr title=\"Rehit rate. How many frames it takes for the hitbox to hit the same target again. e.g. value of 1 means it will hit every frame.\">Rehit Rate</abbr>"@), x);
        lemma_kept(t3, column(c.can_be_shielded, "<abbr title=\"Can be shielded\">Shieldable</abbr>"@), x);
        lemma_kept(t4, column(c.can_be_reflected, "<abbr title=\"Can be reflected\">Reflectable</abbr>"@), x);
    }
    if c.shield_damage {
        lemma_column_shown(t0, "<abbr title=\"Shield Damage\">Shield Dmg</abbr>"@);
        lemma_kept(t1, column(c.tripping_rate, "<abbr title=\"Trip Rate. Chance of trip occuring out of 100?\">Trip Rate</abbr>"@), "<abbr title=\"Shield Damage\">Shield Dmg</abbr>"@);
        lemma_kept(t2, column(c.rehit_rate, "<abbr title=\"Rehit rate. How many frames it takes for the hitbox to hit the same target again. e.g. value of 1 means it will hit every frame.\">Rehit Rate</abbr>"@), "<abbr title=\"Shield Damage\">Shield Dmg</abbr>"@);
        lemma_kept(t3, column(c.can_be_shielded, "<abbr title=\"Can be shielded\">Shieldable</abbr>"@), "<abbr title=\"Shield Damage\">Shield Dmg</abbr>"@);
        lemma_kept(t4, column(c.can_be_reflected, "<abbr title=\"Can be reflected\">Reflectable</abbr>"@), "<abbr title=\"Shield Damage\">Shield Dmg</abbr>"@);
    }
    if c.tripping_rate {
        lemma_column_shown(t1, "<abbr title=\"Trip Rate. Chance of trip occuring out of 100?\">Trip Rate</abbr>"@);
        lemma_kept(t2, column(c.rehit_rate, "<abbr title=\"Rehit rate. How many frames it takes for the hitbox to hit the same target again. e.g. value of 1 means it will hit every frame.\">Rehit Rate</abbr>"@), "<abbr title=\"Trip Rate. Chance of trip occuring out of 100?\">Trip Rate</abbr>"@);
        lemma_kept(t3, column(c.can_be_shielded, "<abbr title=\"Can be shielded\">Shieldable</abbr>"@), "<abbr title=\"Trip Rate. Chance of trip occuring out of 100?\">Trip Rate</abbr>"@);
        lemma_kept(t4, column(c.can_be_reflected, "<abbr title=\"Can be reflected\">Reflectable</abbr>"@), "<abbr title=\"Trip Rate. Chance of trip occuring out of 100?\">Trip Rate</abbr>"@);
    }
    if c.rehit_rate {
        lemma_column_shown(t2, "<abbr title=\"Rehit rate. How many frames it takes for the hitbox to hit the same target again. e.g. value of 1 means it will hit every frame.\">Rehit Rate</abbr>"@);
        lemma_kept(t3, column(c.can_be_shielded, "<abbr title=\"Can be shielded\">Shieldable</abbr>"@), "<abbr title=\"Rehit rate. How many frames it takes for the hitbox to hit the same target again. e.g. value of 1 means it will hit every frame.\">Rehit Rate</abbr>"@);
        lemma_kept(t4, column(c.can_be_reflected, "<abbr title=\"Can be reflected\">Reflectable</abbr>"@), "<abbr title=\"Rehit rate. How many frames it takes for the hitbox to hit the same target again. e.g. value of 1 means it will hit every frame.\">Rehit Rate</abbr>"@);
    }
    if c.can_be_shielded {
        lemma_column_shown(t3, "<abbr title=\"Can be shielded\">Shieldable</abbr>"@);
        lemma_kept(t4, column(c.can_be_reflected, "<abbr title=\"Can be reflected\">Reflectable</abbr>"@), "<abbr title=\"Can be shielded\">Shieldable</abbr>"@);
    }
    if c.can_be_reflected {
        lemma_column_shown(t4, "<abbr title=\"Can be reflected\">Reflectable</abbr>"@);
    }
}

proof fn lemma_header_flags_c_keeps(c: HitboxColumns, t: Seq<Seq<char>>, x: Seq<char>)
    ensures
        t.contains(x) ==> header_flags_c(c, t).contains(x),
        c.can_be_absorbed ==> header_flags_c(c, t).contains("<abbr title=\"Can be absorbed\">Absorbable</abbr>"@),
        c.remain_grabbed ==> header_flags_c(c, t).contains("Remain Grabbed"@),
        c.ignore_invincibility ==> header_flags_c(c, t).contains("Ignore Invincibility"@),
        c.freeze_frame_disable ==> header_flags_c(c, t).contains("Freeze frame disable"@),
        c.flinchless ==> header_flags_c(c, t).contains("<abbr title=\"TODO\">Flinchless"@),
{
    let t0 = t;
    let t1 = t0 + column(c.can_be_absorbed, "<abbr title=\"Can be absorbed\">Absorbable</abbr>"@);
    let t2 = t1 + column(c.remain_grabbed, "Remain Grabbed"@);
    let t3 = t2 + column(c.ignore_invincibility, "Ignore Invincibility"@);
    let t4 = t3 + column(c.freeze_frame_disable, "Freeze frame disable"@);
    let t5 = t4 + column(c.flinchless, "<abbr title=\"TODO\">Flinchless"@);
    assert(header_flags_c(c, t) == t5);
    if t.contains(x) {
        lemma_kept(t0, column(c.can_be_absorbed, "<abbr title=\"Can be absorbed\">Absorbable</abbr>"@), x);
        lemma_kept(t1, column(c.remain_grabbed, "Remain Grabbed"@), x);
        lemma_kept(t2, column(c.ignore_invincibility, "Ignore Invincibility"@), x);
        lemma_kept(t3, column(c.freeze_frame_disable, "Freeze frame disable"@), x);
        lemma_kept(t4, column(c.flinchless, "<abbr title=\"TODO\">Flinchless"@), x);
    }
    if c.can_be_absorbed {
        lemma_column_shown(t0, "<abbr title=\"Can be absorbed\">Absorbable</abbr>"@);
        lemma_kept(t1, column(c.remain_grabbed, "Remain Grabbed"@), "<abbr title=\"Can be absorbed\">Absorbable</abbr>"@);
        lemma_kept(t2, column(c.ignore_invincibility, "Ignore Invincibility"@), "<abbr title=\"Can be absorbed\">Absorbable</abbr>"@);
        lemma_kept(t3, column(c.freeze_frame_disable, "Freeze frame disable"@), "<abbr title=\"Can be absorbed\">Absorbable</abbr>"@);
        lemma_kept(t4, column(c.flinchless, "<abbr title=\"TODO\">Flinchless"@), "<abbr title=\"Can be absorbed\">Absorbable</abbr>"@);
    }
    if c.remain_grabbed {
        lemma_column_shown(t1, "Remain Grabbed"@);
        lemma_kept(t2, column(c.ignore_invincibility, "Ignore Invincibility"@), "Remain Grabbed"@);
        lemma_kept(t3, column(c.freeze_frame_disable, "Freeze frame disable"@), "Remain Grabbed"@);
        lemma_kept(t4, column(c.flinchless, "<abbr title=\"TODO\">Flinchless"@), "Remain Grabbed"@);
    }
    if c.ignore_invincibility {
        lemma_column_shown(t2, "Ignore Invincibility"@);
        lemma_kept(t3, column(c.freeze_frame_disable, "Freeze frame disable"@), "Ignore Invincibility"@);
        lemma_kept(t4, column(c.flinchless, "<abbr title=\"TODO\">Flinchless"@), "Ignore Invincibility"@);
    }
    if c.freeze_frame_disable {
        lemma_column_shown(t3, "Freeze frame disable"@);
        lemma_kept(t4, column(c.flinchless, "<abbr title=\"TODO\">Flinchless"@), "Freeze frame disable"@);
    }
    if c.flinchless {
        lemma_column_shown(t4, "<abbr title=\"TODO\">Flinchless"@);
    }
}

proof fn lemma_header_tail_keeps(c: HitboxColumns, t: Seq<Seq<char>>, x: Seq<char>)
    ensures
        t.contains(x) ==> header_tail(c, t).contains(x),
{
    let t0 = t;
    let t1 = t0.push("Shieldstun"@);
    let t2 = t1.push("Hitlag"@);
    let t3 = t2.push("Targets"@);
    assert(header_tail(c, t) == t3);
    if t.contains(x) {
        lemma_kept_push(t0, "Shieldstun"@, x);
        lemma_kept_push(t1, "Hitlag"@, x);
        lemma_kept_push(t2, "Targets"@, x);
    }
}

/// Each optional column that is shown has its title in the hitbox table's header.
pub proof fn lemma_header_shows_columns(c: HitboxColumns)
    ensures
        c.wdsk ==> hitbox_header_titles(c).contains("<abbr title=\"Weight Dependent Set Knockback. When this value is not 0, an entirely different formula is used to calculate knockback. In this formula hitbox damage and current % are ignored.\">WDSK</abbr>"@),
        c.angle_flipping ==> hitbox_header_titles(c).contains("Angle Flip"@),
        c.clang ==> hitbox_header_titles(c).contains("Clang"@),
        c.direct ==> hitbox_header_titles(c).contains("Direct"@),
        c.hitlag_mult ==> hitbox_header_titles(c).contains("Hitlag Mult"@),
        c.sdi_mult ==> hitbox_header_titles(c).contains("SDI Mult"@),
        c.shield_damage ==> hitbox_header_titles(c).contains("<abbr title=\"Shield Damage\">Shield Dmg</abbr>"@),
        c.tripping_rate ==> hitbox_header_titles(c).contains("<abbr title=\"Trip Rate. Chance of trip occuring out of 100?\">Trip Rate</abbr>"@),
        c.rehit_rate ==> hitbox_header_titles(c).contains("<abbr title=\"Rehit rate. How many frames it takes for the hitbox to hit the same target again. e.g. value of 1 means it will hit every frame.\">Rehit Rate</abbr>"@),
        c.can_be_shielded ==> hitbox_header_titles(c).contains("<abbr title=\"Can be shielded\">Shieldable</abbr>"@),
        c.can_be_reflected ==> hitbox_header_titles(c).contains("<abbr title=\"Can be reflected\">Reflectable</abbr>"@),
        c.can_be_absorbed ==> hitbox_header_titles(c).contains("<abbr title=\"Can be absorbed\">Absorbable</abbr>"@),
        c.remain_grabbed ==> hitbox_header_titles(c).contains("Remain Grabbed"@),
        c.ignore_invincibility ==> hitbox_header_titles(c).contains("Ignore Invincibility"@),
        c.freeze_frame_disable ==> hitbox_header_titles(c).contains("Freeze frame disable"@),
        c.flinchless ==> hitbox_header_titles(c).contains("<abbr title=\"TODO\">Flinchless"@),
{
    let h0 = Seq::<Seq<char>>::empty();
    let h1 = header_head(c, h0);
    let h2 = header_flags_a(c, h1);
    let h3 = header_flags_b(c, h2);
    let h4 = header_flags_c(c, h3);
    lemma_header_head_keeps(c, h0, "<abbr title=\"Weight Dependent Set Knockback. When this value is not 0, an entirely different formula is used to calculate knockback. In this formula hitbox damage and current % are ignored.\">WDSK</abbr>"@);
    lemma_header_flags_a_keeps(c, h1, "<abbr title=\"Weight Dependent Set Knockback. When this value is not 0, an entirely different formula is used to calculate knockback. In this formula hitbox damage and current % are ignored.\">WDSK</abbr>"@);
    lemma_header_flags_b_keeps(c, h2, "<abbr title=\"Weight Dependent Set Knockback. When this value is not 0, an entirely different formula is used to calculate knockback. In this formula hitbox damage and current % are ignored.\">WDSK</abbr>"@);
    lemma_header_flags_c_keeps(c, h3, "<abbr title=\"Weight Dependent Set Knockback. When this value is not 0, an entirely different formula is used to calculate knockback. In this formula hitbox damage and current % are ignored.\">WDSK</abbr>"@);
    lemma_header_tail_keeps(c, h4, "<abbr title=\"Weight Dependent Set Knockback. When this value is not 0, an entirely different formula is used to calculate knockback. In this formula hitbox damage and current % are ignored.\">WDSK</abbr>"@);
    lemma_header_flags_a_keeps(c, h1, "Angle Flip"@);
    lemma_header_flags_b_keeps(c, h2, "Angle Flip"@);
    lemma_header_flags_c_keeps(c, h3, "Angle Flip"@);
    lemma_header_tail_keeps(c, h4, "Angle Flip"@);
    lemma_header_flags_a_keeps(c, h1, "Clang"@);
    lemma_header_flags_b_keeps(c, h2, "Clang"@);
    lemma_header_flags_c_keeps(c, h3, "Clang"@);
    lemma_header_tail_keeps(c, h4, "Clang"@);
    lemma_header_flags_a_keeps(c, h1, "Direct"@);
    lemma_header_flags_b_keeps(c, h2, "Direct"@);
    lemma_header_flags_c_keeps(c, h3, "Direct"@);
    lemma_header_tail_keeps(c, h4, "Direct"@);
    lemma_header_flags_a_keeps(c, h1, "Hitlag Mult"@);
    lemma_header_flags_b_keeps(c, h2, "Hitlag Mult"@);
    lemma_header_flags_c_keeps(c, h3, "Hitlag Mult"@);
    lemma_header_tail_keeps(c, h4, "Hitlag Mult"@);
    lemma_header_flags_a_keeps(c, h1, "SDI Mult"@);
    lemma_header_flags_b_keeps(c, h2, "SDI Mult"@);
    lemma_header_flags_c_keeps(c, h3, "SDI Mult"@);
    lemma_header_tail_keeps(c, h4, "SDI Mult"@);
    lemma_header_flags_b_keeps(c, h2, "<abbr title=\"Shield Damage\">Shield Dmg</abbr>"@);
    lemma_header_flags_c_keeps(c, h3, "<abbr title=\"Shield Damage\">Shield Dmg</abbr>"@);
    lemma_header_tail_keeps(c, h4, "<abbr title=\"Shield Damage\">Shield Dmg</abbr>"@);
    lemma_header_flags_b_keeps(c, h2, "<abbr title=\"Trip Rate. Chance of trip occuring out of 100?\">Trip Rate</abbr>"@);
    lemma_header_flags_c_keeps(c, h3, "<abbr title=\"Trip Rate. Chance of trip occuring out of 100?\">Trip Rate</abbr>"@);
    lemma_header_tail_keeps(c, h4, "<abbr title=\"Trip Rate. Chance of trip occuring out of 100?\">Trip Rate</abbr>"@);
    lemma_header_flags_b_keeps(c, h2, "<abbr title=\"Rehit rate. How many frames it takes for the hitbox to hit the same target again. e.g. value of 1 means it will hit every frame.\">Rehit Rate</abbr>"@);
    lemma_header_flags_c_keeps(c, h3, "<abbr title=\"Rehit rate. How many frames it takes for the hitbox to hit the same target again. e.g. value of 1 means it will hit every frame.\">Rehit Rate</abbr>"@);
    lemma_header_tail_keeps(c, h4, "<abbr title=\"Rehit rate. How many frames it takes for the hitbox to hit the same target again. e.g. value of 1 means it will hit every frame.\">Rehit Rate</abbr>"@);
    lemma_header_flags_b_keeps(c, h2, "<abbr title=\"Can be shielded\">Shieldable</abbr>"@);
    lemma_header_flags_c_keeps(c, h3, "<abbr title=\"Can be shielded\">Shieldable</abbr>"@);
    lemma_header_tail_keeps(c, h4, "<abbr title=\"Can be shielded\">Shieldable</abbr>"@);
    lemma_header_flags_b_keeps(c, h2, "<abbr title=\"Can be reflected\">Reflectable</abbr>"@);
    lemma_header_flags_c_keeps(c, h3, "<abbr title=\"Can be reflected\">Reflectable</abbr>"@);
    lemma_header_tail_keeps(c, h4, "<abbr title=\"Can be reflected\">Reflectable</abbr>"@);
    lemma_header_flags_c_keeps(c, h3, "<abbr title=\"Can be absorbed\">Absorbable</abbr>"@);
    lemma_header_tail_keeps(c, h4, "<abbr title=\"Can be absorbed\">Absorbable</abbr>"@);
    lemma_header_flags_c_keeps(c, h3, "Remain Grabbed"@);
    lemma_header_tail_keeps(c, h4, "Remain Grabbed"@);
    lemma_header_flags_c_keeps(c, h3, "Ignore Invincibility"@);
    lemma_header_tail_keeps(c, h4, "Ignore Invincibility"@);
    lemma_header_flags_c_keeps(c, h3, "Freeze frame disable"@);
    lemma_header_tail_keeps(c, h4, "Freeze frame disable"@);
    lemma_header_flags_c_keeps(c, h3, "<abbr title=\"TODO\">Flinchless"@);
    lemma_header_tail_keeps(c, h4, "<abbr title=\"TODO\">Flinchless"@);
}

/// What a frame holds that the hitbox tables read.
pub struct FrameBoxes {
    /// Whether the values of the frame's boxes differ from those of the frame before (the
    /// first frame compares with no boxes).
    pub changed: bool,
    pub boxes: Vec<CollisionBox>,
    pub throw: Option<ThrowValues>,
}

/// For each frame, whether its box values changed.
pub open spec fn changed_flags(frames: Seq<FrameBoxes>) -> Seq<bool> {
    frames.map_values(|f: FrameBoxes| f.changed)
}

/// For each frame, whether it has boxes.
pub open spec fn box_flags(frames: Seq<FrameBoxes>) -> Seq<bool> {
    frames.map_values(|f: FrameBoxes| f.boxes@.len() > 0)
}

/// A table as plain values: its label, its header and its rows.
pub type TableView = (Seq<char>, Seq<Seq<char>>, Seq<Seq<Seq<char>>>);

/// The tables of a list of tables, as plain values.
pub open spec fn table_views(tables: Seq<HitboxTable>) -> Seq<TableView> {
    tables.map_values(|t: HitboxTable| table_view(t))
}

/// An optional table as plain values.
pub open spec fn optional_table_view(t: Option<HitboxTable>) -> Option<TableView> {
    match t {
        Some(t) => Some(table_view(t)),
        None => None,
    }
}

/// The hitbox tables, the throw table and the preview text of the hitboxes after the
/// first `k` frames. A frame's throw makes the throw table (the last throw wins); a
/// hitbox table closes on a frame where the box values change, or on the last frame, and
/// shows the boxes of the frame before; a table with no rows is left out.
pub open spec fn tables_after(frames: Seq<FrameBoxes>, spritesheet: Seq<char>, k: nat) -> (
    Seq<TableView>,
    Option<TableView>,
    Seq<char>,
)
    decreases k,
{
    if k == 0 {
        (Seq::empty(), None, Seq::empty())
    } else {
        let i = (k - 1) as nat;
        let (tables, throw, text) = tables_after(frames, spritesheet, i);
        let (throw, text) = match frames[i as int].throw {
            Some(t) => (
                Some((throw_frames(i), throw_header_titles(t.wdsk != 0), seq![throw_row(t)])),
                text + throw_preview(i, t),
            ),
            None => (throw, text),
        };
        let changed = changed_flags(frames);
        match table_state(changed, box_flags(frames), i).1 {
            Some(first) => if changed[i as int] || i + 1 == frames.len() {
                let boxes = frames[i - 1].boxes@;
                let c = columns_of(boxes);
                let rows = rows_of(boxes, c, spritesheet);
                if rows.len() > 0 {
                    let label = table_frames_text(first, i);
                    (tables.push((label, hitbox_header_titles(c), rows)), throw, text + preview_text(label, boxes))
                } else {
                    (tables, throw, text)
                }
            } else {
                (tables, throw, text)
            },
            None => (tables, throw, text),
        }
    }
}

proof fn lemma_table_starts_before(changed: Seq<bool>, has_boxes: Seq<bool>, k: nat)
    ensures
        table_state(changed, has_boxes, k).1 matches Some(first) ==> first < k,
    decreases k,
{
    if k > 0 {
        lemma_table_starts_before(changed, has_boxes, (k - 1) as nat);
    }
}

/// The tables of a subaction page and the preview text of its hitboxes.
pub struct SubactionTables {
    pub hitbox_tables: Vec<HitboxTable>,
    pub throw_table: Option<HitboxTable>,
    pub preview: String,
}

/// The hitbox tables, the throw table and the preview text of the hitboxes of a
/// subaction's frames.
#[verifier::spinoff_prover]
#[verifier::rlimit(60)]
pub fn subaction_tables(frames: &Vec<FrameBoxes>, spritesheet: &str) -> (tables: SubactionTables)
    ensures
        (table_views(tables.hitbox_tables@), optional_table_view(tables.throw_table), tables.preview@)
            == tables_after(frames@, spritesheet@, frames.len() as nat),
{
    let n = frames.len();
    let ghost changed = changed_flags(frames@);
    let ghost has_boxes = box_flags(frames@);
    let mut hitbox_tables: Vec<HitboxTable> = Vec::new();
    let mut throw: Option<HitboxTable> = None;
    let mut preview = String::new();
    let mut building: Option<usize> = None;
    let mut i: usize = 0;
    while i < n
        invariant
            n == frames.len(),
            i <= n,
            changed == changed_flags(frames@),
            has_boxes == box_flags(frames@),
            (table_views(hitbox_tables@), optional_table_view(throw), preview@) == tables_after(
                frames@,
                spritesheet@,
                i as nat,
            ),
            building matches Some(first) ==> table_state(changed, has_boxes, i as nat).1 == Some(first as nat),
            building is None ==> table_state(changed, has_boxes, i as nat).1 is None,
        decreases n - i,
    {
        proof {
            lemma_table_starts_before(changed, has_boxes, i as nat);
        }
        let f = &frames[i];
        assert(changed[i as int] == f.changed);
        assert(has_boxes[i as int] == (f.boxes@.len() > 0));
        let ghost tables_before = hitbox_tables@;
        let ghost preview_before = preview@;
        if let Some(t) = &f.throw {
            let (table, text) = throw_table(i, t);
            throw = Some(table);
            preview.append(text.as_str());
        }
        let ghost preview_mid = preview@;
        if f.changed || i + 1 == n {
            if let Some(first) = building {
                let label = table_frames_label(first, i);
                let boxes = &frames[i - 1].boxes;
                let (table, text) = hitbox_table(label, boxes, spritesheet);
                if let Some(table) = table {
                    let ghost before = hitbox_tables@;
                    hitbox_tables.push(table);
                    assert(table_views(hitbox_tables@) =~= table_views(before).push(table_view(table)));
                    preview.append(text.as_str());
                }
                building = Some(i);
            }
        }
        if f.changed && f.boxes.len() > 0 && building.is_none() {
            building = Some(i);
        }
        if f.changed && f.boxes.len() == 0 {
            building = None;
        }
        assert((table_views(hitbox_tables@), optional_table_view(throw), preview@) =~~= tables_after(
            frames@,
            spritesheet@,
            (i + 1) as nat,
        ));
        i += 1;
    }
    SubactionTables { hitbox_tables, throw_table: throw, preview }
}

} // verus!
