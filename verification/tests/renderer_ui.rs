use rukaidata::renderer_ui::{
    angle_canvas, app_event_handler, ecb_click, face_click, frame_button, frame_button_click, hitbox_color, init_events,
    invulnerable_select_change, next_frame_click, perspective_click, previous_frame_click, run_toggle_click,
    wireframe_click, DomAction, Facing, IncomingEvent, InvulnerableType, OutgoingEvent, PlayState,
};

fn s(text: &str) -> String {
    text.to_string()
}

#[test]
fn run_toggle_label_follows_the_state() {
    assert_eq!(
        app_event_handler(OutgoingEvent::NewState(PlayState::Play), 3),
        vec![DomAction::SetInnerHtml { id: s("run-toggle"), html: s("Stop") }]
    );
    assert_eq!(
        app_event_handler(OutgoingEvent::NewState(PlayState::Pause), 3),
        vec![DomAction::SetInnerHtml { id: s("run-toggle"), html: s("Run") }]
    );
    assert_eq!(app_event_handler(OutgoingEvent::NewState(PlayState::StepForward), 3), vec![]);
}

#[test]
fn new_frame_marks_only_the_current_button() {
    assert_eq!(
        app_event_handler(OutgoingEvent::NewFrame(1), 2),
        vec![
            DomAction::RemoveClass { id: s("set_frame_1"), class: s("current-frame-button") },
            DomAction::RemoveClass { id: s("set_frame_2"), class: s("current-frame-button") },
            DomAction::AddClass { id: s("set_frame_2"), class: s("current-frame-button") },
        ]
    );
}

#[test]
fn settings_are_shown_in_their_controls() {
    assert_eq!(
        app_event_handler(OutgoingEvent::NewInvulnerableType(InvulnerableType::TrapItem), 0),
        vec![DomAction::SetSelectValue { id: s("invulnerable-select"), value: s("Trap Item") }]
    );
    assert_eq!(
        app_event_handler(OutgoingEvent::NewWireframe(true), 0),
        vec![DomAction::SetChecked { id: s("wireframe-checkbox"), checked: true }]
    );
    assert_eq!(
        app_event_handler(OutgoingEvent::NewRenderEcb(false), 0),
        vec![DomAction::SetChecked { id: s("ecb-checkbox"), checked: false }]
    );
    assert_eq!(
        app_event_handler(OutgoingEvent::NewPerspective(true), 0),
        vec![DomAction::SetChecked { id: s("perspective-checkbox"), checked: true }]
    );
}

#[test]
fn controls_ask_the_renderer() {
    assert_eq!(init_events(), vec![IncomingEvent::SetState(PlayState::Pause), IncomingEvent::SetFrame(0)]);
    assert_eq!(frame_button_click(4), vec![IncomingEvent::SetState(PlayState::Pause), IncomingEvent::SetFrame(4)]);
    assert_eq!(frame_button(4), "set_frame_5");
    assert_eq!(run_toggle_click("Stop"), IncomingEvent::SetState(PlayState::Pause));
    assert_eq!(run_toggle_click("Run"), IncomingEvent::SetState(PlayState::Play));
    assert_eq!(previous_frame_click(), IncomingEvent::SetState(PlayState::StepBackward));
    assert_eq!(next_frame_click(), IncomingEvent::SetState(PlayState::StepForward));
    assert_eq!(face_click(Facing::Left), IncomingEvent::ResetCamera(Facing::Left));
    assert_eq!(wireframe_click(true), IncomingEvent::SetWireframe(true));
    assert_eq!(ecb_click(false), IncomingEvent::SetRenderEcb(false));
    assert_eq!(perspective_click(true), IncomingEvent::SetPerspective(true));
}

#[test]
fn invulnerability_select_round_trips() {
    for t in [InvulnerableType::Hit, InvulnerableType::Grab, InvulnerableType::TrapItem] {
        let actions = app_event_handler(OutgoingEvent::NewInvulnerableType(t), 0);
        let value = match &actions[0] {
            DomAction::SetSelectValue { value, .. } => value.clone(),
            other => panic!("unexpected {:?}", other),
        };
        assert_eq!(invulnerable_select_change(&value), IncomingEvent::SetInvulnerableType(t));
    }
}

#[test]
fn toggle_after_state_flips_it() {
    for (state, next) in [(PlayState::Play, PlayState::Pause), (PlayState::Pause, PlayState::Play)] {
        let actions = app_event_handler(OutgoingEvent::NewState(state), 1);
        let label = match &actions[0] {
            DomAction::SetInnerHtml { html, .. } => html.clone(),
            other => panic!("unexpected {:?}", other),
        };
        assert_eq!(run_toggle_click(&label), IncomingEvent::SetState(next));
    }
}

#[test]
fn hitbox_angle_canvases() {
    assert_eq!(hitbox_color("0"), "#EF6400");
    assert_eq!(hitbox_color("4"), "#24d618");
    assert_eq!(hitbox_color("12"), "#FFFFFF");
    let sakurai = angle_canvas("361", "1");
    assert_eq!((sakurai.width, sakurai.height, sakurai.color), (80, 40, "#FF0000"));
    let arrows: Vec<(u32, u32, String)> = sakurai.arrows.into_iter().map(|a| (a.x, a.y, a.degrees)).collect();
    assert_eq!(arrows, vec![(20, 20, s("0")), (60, 20, s("44"))]);
    let plain = angle_canvas("45", "2");
    assert_eq!((plain.width, plain.height, plain.color), (40, 40, "#FF00FF"));
    let arrows: Vec<(u32, u32, String)> = plain.arrows.into_iter().map(|a| (a.x, a.y, a.degrees)).collect();
    assert_eq!(arrows, vec![(20, 20, s("45"))]);
}
