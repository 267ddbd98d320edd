//! The controls of the subaction renderer's page: what each control sends the renderer, and
//! how the page shows what the renderer reports back.

use vstd::prelude::*;
use crate::text::{ascii_lowercase, decimal, str_eq, write_decimal};

verus! {

/// What the renderer is doing with the frames of the subaction.
#[derive(Debug, Clone, Copy, PartialEq, Eq, Structural)]
pub enum PlayState {
    Play,
    Pause,
    StepForward,
    StepBackward,
    /// Any other state, which the page does not show.
    Other,
}

/// Which hits the fighter's invulnerability is shown against.
#[derive(Debug, Clone, Copy, PartialEq, Eq, Structural)]
pub enum InvulnerableType {
    Hit,
    Grab,
    TrapItem,
}

/// Which way the camera faces the fighter from.
#[derive(Debug, Clone, Copy, PartialEq, Eq, Structural)]
pub enum Facing {
    Left,
    Right,
}

/// What the page asks of the renderer.
#[derive(Debug, Clone, Copy, PartialEq, Eq, Structural)]
pub enum IncomingEvent {
    SetState(PlayState),
    SetFrame(usize),
    ResetCamera(Facing),
    SetInvulnerableType(InvulnerableType),
    SetWireframe(bool),
    SetRenderEcb(bool),
    SetPerspective(bool),
}

/// What the renderer reports to the page.
#[derive(Debug, Clone, Copy, PartialEq, Eq, Structural)]
pub enum OutgoingEvent {
    NewState(PlayState),
    NewFrame(usize),
    NewInvulnerableType(InvulnerableType),
    NewWireframe(bool),
    NewRenderEcb(bool),
    NewPerspective(bool),
}

/// A change to an element of the page, which has the id `id`.
#[derive(Debug, PartialEq, Eq)]
pub enum DomAction {
    SetInnerHtml { id: String, html: String },
    RemoveClass { id: String, class: String },
    AddClass { id: String, class: String },
    SetSelectValue { id: String, value: String },
    SetChecked { id: String, checked: bool },
}

/// The id of the button of frame `i` (counted from 0): the buttons are numbered from 1.
pub open spec fn frame_button_id(i: nat) -> Seq<char> {
    "set_frame_"@ + decimal(i + 1)
}

/// The option of the invulnerability select that names `t`.
pub open spec fn invulnerable_name(t: InvulnerableType) -> Seq<char> {
    match t {
        InvulnerableType::Hit => "Hit"@,
        InvulnerableType::Grab => "Grab"@,
        InvulnerableType::TrapItem => "Trap Item"@,
    }
}

/// Whether `value` is an option of the invulnerability select.
pub open spec fn is_invulnerable_name(value: Seq<char>) -> bool {
    value == "Hit"@ || value == "Grab"@ || value == "Trap Item"@
}

/// The label of the run toggle while the renderer is in `state`, where the page shows it.
pub open spec fn run_label(state: PlayState) -> Option<Seq<char>> {
    match state {
        PlayState::Pause => Some("Run"@),
        PlayState::Play => Some("Stop"@),
        _ => None,
    }
}

/// What a click on the run toggle labelled `label` asks: stop a running renderer, else run it.
pub open spec fn run_toggle_request(label: Seq<char>) -> IncomingEvent {
    if label == "Stop"@ {
        IncomingEvent::SetState(PlayState::Pause)
    } else {
        IncomingEvent::SetState(PlayState::Play)
    }
}

/// The id of the element that shows a checkbox's value, for each setting the renderer
/// reports.
pub open spec fn checkbox_of(event: OutgoingEvent) -> Option<(Seq<char>, bool)> {
    match event {
        OutgoingEvent::NewWireframe(on) => Some(("wireframe-checkbox"@, on)),
        OutgoingEvent::NewRenderEcb(on) => Some(("ecb-checkbox"@, on)),
        OutgoingEvent::NewPerspective(on) => Some(("perspective-checkbox"@, on)),
        _ => None,
    }
}

/// Whether the changes are those that the page makes when the renderer reports `event`,
/// where the subaction has `frames_len` frames.
pub open spec fn handles(event: OutgoingEvent, frames_len: nat, actions: Seq<DomAction>) -> bool {
    match event {
        OutgoingEvent::NewState(state) => match run_label(state) {
            Some(label) => actions.len() == 1 && (actions[0] matches DomAction::SetInnerHtml { id, html } && id@
                == "run-toggle"@ && html@ == label),
            None => actions.len() == 0,
        },
        OutgoingEvent::NewFrame(frame) => {
            &&& actions.len() == frames_len + 1
            &&& forall|i: int|
                0 <= i < frames_len ==> (#[trigger] actions[i] matches DomAction::RemoveClass { id, class } && id@
                    == frame_button_id(i as nat) && class@ == "current-frame-button"@)
            &&& actions[frames_len as int] matches DomAction::AddClass { id, class } && id@ == frame_button_id(
                frame as nat,
            ) && class@ == "current-frame-button"@
        },
        OutgoingEvent::NewInvulnerableType(t) => actions.len() == 1 && (
        actions[0] matches DomAction::SetSelectValue { id, value } && id@ == "invulnerable-select"@ && value@
            == invulnerable_name(t)),
        _ => {
            let (id, on) = checkbox_of(event).unwrap();
            actions.len() == 1 && (actions[0] matches DomAction::SetChecked { id: element, checked } && element@
                == id && checked == on)
        },
    }
}

/// The id of the button of frame `i` (counted from 0).
pub fn frame_button(i: usize) -> (id: String)
    requires
        i < usize::MAX,
    ensures
        id@ == frame_button_id(i as nat),
{
    let mut id = String::from_str("set_frame_");
    write_decimal(&mut id, (i + 1) as u64);
    id
}

/// The changes the page makes when the renderer reports `event`: the run toggle's label
/// follows the state, the current frame's button is marked, and the invulnerability select
/// and the checkboxes follow the renderer's settings.
pub fn app_event_handler(event: OutgoingEvent, frames_len: usize) -> (actions: Vec<DomAction>)
    requires
        frames_len < usize::MAX,
        event matches OutgoingEvent::NewFrame(frame) ==> frame < frames_len,
    ensures
        handles(event, frames_len as nat, actions@),
{
    let mut actions: Vec<DomAction> = Vec::new();
    match event {
        OutgoingEvent::NewState(PlayState::Pause) => {
            actions.push(DomAction::SetInnerHtml { id: String::from_str("run-toggle"), html: String::from_str("Run") });
        },
        OutgoingEvent::NewState(PlayState::Play) => {
            actions.push(DomAction::SetInnerHtml { id: String::from_str("run-toggle"), html: String::from_str("Stop") });
        },
        OutgoingEvent::NewState(_) => {},
        OutgoingEvent::NewFrame(frame) => {
            let mut i: usize = 0;
            while i < frames_len
                invariant
                    i <= frames_len < usize::MAX,
                    actions.len() == i,
                    forall|k: int|
                        0 <= k < i ==> (#[trigger] actions@[k] matches DomAction::RemoveClass { id, class } && id@
                            == frame_button_id(k as nat) && class@ == "current-frame-button"@),
                decreases frames_len - i,
            {
                actions.push(DomAction::RemoveClass { id: frame_button(i), class: String::from_str("current-frame-button") });
                i += 1;
            }
            actions.push(DomAction::AddClass { id: frame_button(frame), class: String::from_str("current-frame-button") });
        },
        OutgoingEvent::NewInvulnerableType(t) => {
            let value = match t {
                InvulnerableType::Hit => "Hit",
                InvulnerableType::Grab => "Grab",
                InvulnerableType::TrapItem => "Trap Item",
            };
            actions.push(DomAction::SetSelectValue { id: String::from_str("invulnerable-select"), value: String::from_str(value) });
        },
        OutgoingEvent::NewWireframe(on) => {
            actions.push(DomAction::SetChecked { id: String::from_str("wireframe-checkbox"), checked: on });
        },
        OutgoingEvent::NewRenderEcb(on) => {
            actions.push(DomAction::SetChecked { id: String::from_str("ecb-checkbox"), checked: on });
        },
        OutgoingEvent::NewPerspective(on) => {
            actions.push(DomAction::SetChecked { id: String::from_str("perspective-checkbox"), checked: on });
        },
    }
    actions
}

/// What the page asks of the renderer when it starts: pause on the first frame.
pub fn init_events() -> (events: Vec<IncomingEvent>)
    ensures
        events@ == seq![IncomingEvent::SetState(PlayState::Pause), IncomingEvent::SetFrame(0)],
{
    vec![IncomingEvent::SetState(PlayState::Pause), IncomingEvent::SetFrame(0)]
}

/// What a click on the button of frame `i` asks: pause on that frame.
pub fn frame_button_click(i: usize) -> (events: Vec<IncomingEvent>)
    ensures
        events@ == seq![IncomingEvent::SetState(PlayState::Pause), IncomingEvent::SetFrame(i)],
{
    vec![IncomingEvent::SetState(PlayState::Pause), IncomingEvent::SetFrame(i)]
}

/// What a click on the run toggle, labelled `label`, asks.
pub fn run_toggle_click(label: &str) -> (event: IncomingEvent)
    ensures
        event == run_toggle_request(label@),
{
    if str_eq(label, "Stop") {
        IncomingEvent::SetState(PlayState::Pause)
    } else {
        IncomingEvent::SetState(PlayState::Play)
    }
}

/// What a click on the previous frame button asks: a step back.
pub fn previous_frame_click() -> (event: IncomingEvent)
    ensures
        event == IncomingEvent::SetState(PlayState::StepBackward),
{
    IncomingEvent::SetState(PlayState::StepBackward)
}

/// What a click on the next frame button asks: a step forward.
pub fn next_frame_click() -> (event: IncomingEvent)
    ensures
        event == IncomingEvent::SetState(PlayState::StepForward),
{
    IncomingEvent::SetState(PlayState::StepForward)
}

/// What a click on a face button asks: the camera reset to face that side.
pub fn face_click(facing: Facing) -> (event: IncomingEvent)
    ensures
        event == IncomingEvent::ResetCamera(facing),
{
    IncomingEvent::ResetCamera(facing)
}

/// What a change of the invulnerability select to the option `value` asks.
pub fn invulnerable_select_change(value: &str) -> (event: IncomingEvent)
    requires
        is_invulnerable_name(value@),
    ensures
        event matches IncomingEvent::SetInvulnerableType(t) && invulnerable_name(t) == value@,
{
    if str_eq(value, "Hit") {
        IncomingEvent::SetInvulnerableType(InvulnerableType::Hit)
    } else if str_eq(value, "Grab") {
        IncomingEvent::SetInvulnerableType(InvulnerableType::Grab)
    } else {
        IncomingEvent::SetInvulnerableType(InvulnerableType::TrapItem)
    }
}

/// What a click on the wireframe checkbox, now `checked`, asks.
pub fn wireframe_click(checked: bool) -> (event: IncomingEvent)
    ensures
        event == IncomingEvent::SetWireframe(checked),
{
    IncomingEvent::SetWireframe(checked)
}

/// What a click on the ECB checkbox, now `checked`, asks.
pub fn ecb_click(checked: bool) -> (event: IncomingEvent)
    ensures
        event == IncomingEvent::SetRenderEcb(checked),
{
    IncomingEvent::SetRenderEcb(checked)
}

/// What a click on the perspective checkbox, now `checked`, asks.
pub fn perspective_click(checked: bool) -> (event: IncomingEvent)
    ensures
        event == IncomingEvent::SetPerspective(checked),
{
    IncomingEvent::SetPerspective(checked)
}

/// The option that the page selects for an invulnerability type is read back as that type:
/// names are distinct, so no two types share an option.
pub proof fn lemma_invulnerable_names_distinct(a: InvulnerableType, b: InvulnerableType)
    ensures
        is_invulnerable_name(invulnerable_name(a)),
        invulnerable_name(a) == invulnerable_name(b) ==> a == b,
{
    reveal_strlit("Hit");
    reveal_strlit("Grab");
    reveal_strlit("Trap Item");
    assert("Hit"@[0] != "Grab"@[0]);
    assert("Hit"@[0] != "Trap Item"@[0]);
    assert("Grab"@[0] != "Trap Item"@[0]);
}

/// The run toggle always asks for the other of running and pausing: once the page shows a
/// running renderer, a click pauses it, and once it shows a paused one, a click runs it.
pub proof fn lemma_run_toggle_flips(state: PlayState)
    requires
        state == PlayState::Play || state == PlayState::Pause,
    ensures
        run_toggle_request(run_label(state).unwrap()) == IncomingEvent::SetState(
            if state == PlayState::Play { PlayState::Pause } else { PlayState::Play },
        ),
{
    reveal_strlit("Run");
    reveal_strlit("Stop");
    assert("Run"@[0] != "Stop"@[0]);
}

/// The colour of the arrows of the hitbox with id `hitbox_id`.
pub open spec fn hitbox_color_of(hitbox_id: Seq<char>) -> Seq<char> {
    if hitbox_id == "0"@ {
        "#EF6400"@
    } else if hitbox_id == "1"@ {
        "#FF0000"@
    } else if hitbox_id == "2"@ {
        "#FF00FF"@
    } else if hitbox_id == "3"@ {
        "#18d6c9"@
    } else if hitbox_id == "4"@ {
        "#24d618"@
    } else {
        "#FFFFFF"@
    }
}

/// The colour of the arrows of the hitbox with id `hitbox_id`.
pub fn hitbox_color(hitbox_id: &str) -> (color: &'static str)
    ensures
        color@ == hitbox_color_of(hitbox_id@),
{
    if str_eq(hitbox_id, "0") {
        "#EF6400"
    } else if str_eq(hitbox_id, "1") {
        "#FF0000"
    } else if str_eq(hitbox_id, "2") {
        "#FF00FF"
    } else if str_eq(hitbox_id, "3") {
        "#18d6c9"
    } else if str_eq(hitbox_id, "4") {
        "#24d618"
    } else {
        "#FFFFFF"
    }
}

/// The length of an angle's arrow, in pixels.
pub const ARROW_RADIUS: u32 = 20;

/// An arrow to draw: from the point (`x`, `y`), at the angle `degrees` (the text of a
/// number of degrees, counterclockwise from the right).
pub struct Arrow {
    pub x: u32,
    pub y: u32,
    pub degrees: String,
}

/// The canvas of a hitbox's angle in the hitbox table: its size, the colour of its arrows
/// and the arrows.
pub struct AngleCanvas {
    pub width: u32,
    pub height: u32,
    pub color: &'static str,
    pub arrows: Vec<Arrow>,
}

/// The arrows of an angle as plain values.
pub open spec fn arrow_views(arrows: Seq<Arrow>) -> Seq<(u32, u32, Seq<char>)> {
    arrows.map_values(|a: Arrow| (a.x, a.y, a.degrees@))
}

/// Whether `c` is an ASCII digit.
pub open spec fn is_digit(c: char) -> bool {
    '0' <= c <= '9'
}

/// Whether every character of `s` is an ASCII digit.
pub open spec fn all_digits(s: Seq<char>) -> bool {
    forall|i: int| 0 <= i < s.len() ==> is_digit(#[trigger] s[i])
}

/// `s` without its leading sign, if it has one.
pub open spec fn unsigned(s: Seq<char>) -> Seq<char> {
    if s.len() > 0 && (s[0] == '+' || s[0] == '-') {
        s.drop_first()
    } else {
        s
    }
}

/// The index of the first `e` or `E` of `s`; its length when it has none.
pub open spec fn exponent_index(s: Seq<char>) -> nat
    decreases s.len(),
{
    if s.len() == 0 || s[0] == 'e' || s[0] == 'E' {
        0
    } else {
        1 + exponent_index(s.drop_first())
    }
}

/// Whether `m` is the digits of a number with at most one decimal point: at least one
/// digit, on either side of the point.
pub open spec fn mantissa_text(m: Seq<char>) -> bool {
    &&& m.len() > 0
    &&& m != seq!['.']
    &&& forall|i: int| 0 <= i < m.len() ==> is_digit(#[trigger] m[i]) || m[i] == '.'
    &&& forall|i: int, j: int| 0 <= i < j < m.len() && #[trigger] m[i] == '.' ==> #[trigger] m[j] != '.'
}

/// Whether `s` is a number: a mantissa, then optionally `e` or `E`, a sign and digits.
pub open spec fn number_text(s: Seq<char>) -> bool {
    let k = exponent_index(s) as int;
    &&& mantissa_text(s.take(k))
    &&& k == s.len() || (unsigned(s.skip(k + 1)).len() > 0 && all_digits(unsigned(s.skip(k + 1))))
}

/// Whether `s` is the text of a floating-point number as `str::parse::<f64>` accepts it,
/// following the grammar that std documents: an optional sign, then `inf`, `infinity` or
/// `nan` in any case, or a number; no white space.
pub open spec fn float_text(s: Seq<char>) -> bool {
    let body = unsigned(s);
    ||| ascii_lowercase(body) == "inf"@
    ||| ascii_lowercase(body) == "infinity"@
    ||| ascii_lowercase(body) == "nan"@
    ||| number_text(body)
}

/// The canvas of the angle `angle` (the text of a number of degrees) of the hitbox with id
/// `hitbox_id`. The angle 361, which sends opponents at 44 degrees when in the air and flat
/// along the ground otherwise, gets a canvas twice as wide with both arrows; any other
/// angle gets one arrow. An angle that is not the text of a number cannot be drawn.
pub fn angle_canvas(angle: &str, hitbox_id: &str) -> (canvas: AngleCanvas)
    requires
        float_text(angle@),
    ensures
        canvas.color@ == hitbox_color_of(hitbox_id@),
        canvas.height == 2 * ARROW_RADIUS,
        angle@ == "361"@ ==> canvas.width == 4 * ARROW_RADIUS && arrow_views(canvas.arrows@) == seq![
            (ARROW_RADIUS, ARROW_RADIUS, "0"@),
            ((3 * ARROW_RADIUS) as u32, ARROW_RADIUS, "44"@),
        ],
        angle@ != "361"@ ==> canvas.width == 2 * ARROW_RADIUS && arrow_views(canvas.arrows@) == seq![
            (ARROW_RADIUS, ARROW_RADIUS, angle@),
        ],
{
    let color = hitbox_color(hitbox_id);
    if str_eq(angle, "361") {
        let arrows = vec![
            Arrow { x: ARROW_RADIUS, y: ARROW_RADIUS, degrees: String::from_str("0") },
            Arrow { x: ARROW_RADIUS * 3, y: ARROW_RADIUS, degrees: String::from_str("44") },
        ];
        assert(arrow_views(arrows@) =~= seq![
            (ARROW_RADIUS, ARROW_RADIUS, "0"@),
            ((3 * ARROW_RADIUS) as u32, ARROW_RADIUS, "44"@),
        ]);
        AngleCanvas { width: ARROW_RADIUS * 4, height: ARROW_RADIUS * 2, color, arrows }
    } else {
        let arrows = vec![Arrow { x: ARROW_RADIUS, y: ARROW_RADIUS, degrees: String::from_str(angle) }];
        assert(arrow_views(arrows@) =~= seq![(ARROW_RADIUS, ARROW_RADIUS, angle@)]);
        AngleCanvas { width: ARROW_RADIUS * 2, height: ARROW_RADIUS * 2, color, arrows }
    }
}

} // verus!
