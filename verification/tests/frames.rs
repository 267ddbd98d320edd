use rukaidata::frames::{
    auto_cancel_window, find_segments, flag_ranges, frame_buttons, frame_list, iasa_string, partial_ranges,
    range_string, segment_ranges, segments_string, summarize_frames, SubactionFrames,
};

#[test]
fn range_string_collapses_single_frames() {
    assert_eq!(range_string(3, 3), "3");
    assert_eq!(range_string(3, 5), "3-5");
}

#[test]
fn flag_ranges_lists_runs_of_frames() {
    assert_eq!(flag_ranges(&vec![true, true, false, true]), "1-2, 4");
    assert_eq!(flag_ranges(&vec![false, true, false, false, true, true]), "2, 5-6");
    assert_eq!(flag_ranges(&vec![false, false]), "");
    assert_eq!(flag_ranges(&vec![]), "");
    assert_eq!(flag_ranges(&vec![true]), "1");
}

#[test]
fn segments_open_and_close() {
    let open = vec![true, false, false, true, false];
    let close = vec![false, false, true, false, false];
    let (closed, pending) = find_segments(&open, &close);
    assert_eq!(closed, vec![(0, 2)]);
    assert_eq!(pending, Some(3));
    assert_eq!(segment_ranges(&open, &close), "1-2, 4-5");
    assert_eq!(segments_string(&vec![(0, 1), (2, 5)]), "1, 3-5");
}

#[test]
fn partial_ranges_run_until_no_hurtbox_is_in_the_state() {
    let all = vec![false, false, true, false, false];
    let any = vec![true, true, true, false, true];
    assert_eq!(partial_ranges(&all, &any), "1-3, 5");
}

#[test]
fn auto_cancel_window_between_landing_lag_frames() {
    assert_eq!(auto_cancel_window(&vec![true, true, false, false, true, true]), "3-4");
    assert_eq!(auto_cancel_window(&vec![false, false, true]), "1-2");
    assert_eq!(auto_cancel_window(&vec![true, false, false]), "2-3");
    assert_eq!(auto_cancel_window(&vec![false, false]), "");
    assert_eq!(auto_cancel_window(&vec![true, false, true, false]), "2, 4");
}

#[test]
fn frame_buttons_mark_hitboxes_then_interruptible_frames() {
    let buttons = frame_buttons(&vec![true, false, false], Some(1));
    let classes: Vec<(usize, String)> = buttons.into_iter().map(|b| (b.index, b.class)).collect();
    assert_eq!(
        classes,
        vec![
            (1, "hitbox-frame-button".to_string()),
            (2, "iasa-frame-button".to_string()),
            (3, "iasa-frame-button".to_string()),
        ]
    );
    let buttons = frame_buttons(&vec![false, true], None);
    assert_eq!(buttons[0].class, "standard-frame-button");
    assert_eq!(buttons[1].class, "hitbox-frame-button");
}

#[test]
fn frame_list_and_iasa() {
    assert_eq!(frame_list(&vec![false, true, true], ", "), "2, 3");
    assert_eq!(frame_list(&vec![false, false], ", "), "");
    assert_eq!(iasa_string(Some(4)), "5");
    assert_eq!(iasa_string(None), "None");
}

fn frames_of(n: usize) -> SubactionFrames {
    SubactionFrames {
        has_hitboxes: vec![false; n],
        landing_lag: vec![false; n],
        all_invincible: vec![false; n],
        any_invincible: vec![false; n],
        all_intangible: vec![false; n],
        any_intangible: vec![false; n],
        reverse_direction: vec![false; n],
        rehit_sets: vec![vec![false; n]; 10],
        iasa: None,
    }
}

#[test]
fn summarize_frames_of_a_subaction() {
    let mut frames = frames_of(6);
    frames.has_hitboxes = vec![false, true, true, false, true, false];
    frames.landing_lag = vec![true, true, false, false, true, true];
    frames.all_invincible = vec![true, true, false, false, false, false];
    frames.any_invincible = vec![true, true, true, false, false, false];
    frames.all_intangible = vec![false, false, false, false, false, true];
    frames.any_intangible = vec![false, false, false, true, true, true];
    frames.reverse_direction = vec![false, false, true, false, false, true];
    frames.iasa = Some(4);
    let summary = summarize_frames(&frames);
    assert_eq!(summary.iasa, "5");
    assert_eq!(summary.auto_cancel, "3-4");
    assert_eq!(summary.invincible, "1-2");
    assert_eq!(summary.partial_invincible, "3");
    assert_eq!(summary.intangible, "6");
    assert_eq!(summary.partial_intangible, "4-6");
    assert_eq!(summary.reverse_direction, "3, 6");
    assert_eq!(summary.hitboxes_active, "2-3, 5");
}
