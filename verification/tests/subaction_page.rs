use rukaidata::frames::{FrameSummary, SubactionFrames};
use rukaidata::subaction_page::{
    angle_string, hitbox_header, hitbox_table_spans, shorten_list, split_commas, subaction_attributes,
    table_frames_label, throw_header, twitter_description, HitboxColumns,
};

fn summary() -> FrameSummary {
    FrameSummary {
        iasa: "30".to_string(),
        auto_cancel: "1-3, 20-30".to_string(),
        invincible: String::new(),
        intangible: "5-7".to_string(),
        partial_invincible: String::new(),
        partial_intangible: String::new(),
        reverse_direction: String::new(),
        hitboxes_active: "8-10".to_string(),
    }
}

fn frames_of(n: usize) -> SubactionFrames {
    SubactionFrames {
        has_hitboxes: vec![false; n],
        landing_lag: vec![false; n],
        all_invincible: vec![false; n],
        any_invincible: vec![false; n],
        all_intangible: vec![false; n],
        any_intangible: vec![false; n],
        reverse_direction: vec![false; n],
        rehit_sets: vec![vec![false; n]; 10],
        iasa: None,
    }
}

#[test]
fn shorten_list_only_when_shorter() {
    assert_eq!(shorten_list("Normal,Normal,Normal".to_string()), "All Normal");
    assert_eq!(shorten_list("Normal,Slash".to_string()), "Normal,Slash");
    assert_eq!(shorten_list("a".to_string()), "a");
    assert_eq!(shorten_list("ab,ab".to_string()), "ab,ab");
    assert_eq!(shorten_list("abc,abc".to_string()), "abc,abc");
    assert_eq!(shorten_list("abcd,abcd".to_string()), "All abcd");
    assert_eq!(shorten_list(String::new()), "");
}

#[test]
fn split_commas_keeps_empty_pieces() {
    assert_eq!(split_commas("a,,b"), vec!["a".to_string(), String::new(), "b".to_string()]);
    assert_eq!(split_commas(""), vec![String::new()]);
}

#[test]
fn angle_string_names_special_angles() {
    assert_eq!(
        angle_string(45, 0),
        r#"<canvas class="hitbox-angle-render" width="0" height="0" hitbox-id="0" angle="45"></canvas>45"#
    );
    let sakurai = angle_string(361, 2);
    assert!(sakurai.starts_with(
        r#"<canvas class="hitbox-angle-render" width="0" height="0" hitbox-id="2" angle="361"></canvas><abbr title="Sakurai Angle:"#
    ));
    assert!(sakurai.ends_with(">361</abbr>"));
    assert_eq!(
        angle_string(-10, 1),
        r#"<canvas class="hitbox-angle-render" width="0" height="0" hitbox-id="1" angle="-10"></canvas>-10"#
    );
}

#[test]
fn table_labels() {
    assert_eq!(table_frames_label(2, 3), "Frame:3");
    assert_eq!(table_frames_label(2, 5), "Frames:3-5");
}

#[test]
fn hitbox_tables_close_when_values_change() {
    // frames 1-2 share hitboxes, frame 3 changes them, frame 4 has none.
    let changed = vec![true, false, true, true, false];
    let has = vec![true, true, true, false, false];
    assert_eq!(hitbox_table_spans(&changed, &has), vec![(0, 2), (2, 3)]);
    // values that last to the last frame close there
    assert_eq!(hitbox_table_spans(&vec![true, false, false], &vec![true, true, true]), vec![(0, 2)]);
    assert_eq!(hitbox_table_spans(&vec![false, false], &vec![false, false]), vec![]);
}

#[test]
fn header_columns() {
    let none = HitboxColumns {
        wdsk: false,
        angle_flipping: false,
        clang: false,
        direct: false,
        hitlag_mult: false,
        sdi_mult: false,
        shield_damage: false,
        tripping_rate: false,
        rehit_rate: false,
        can_be_shielded: false,
        can_be_reflected: false,
        can_be_absorbed: false,
        remain_grabbed: false,
        ignore_invincibility: false,
        freeze_frame_disable: false,
        flinchless: false,
    };
    let titles = hitbox_header(&none);
    assert_eq!(titles.len(), 11);
    assert_eq!(titles[7], "Sound");
    assert_eq!(titles[10], "Targets");
    let some = HitboxColumns { clang: true, flinchless: true, ..none };
    let titles = hitbox_header(&some);
    assert_eq!(titles.len(), 13);
    assert_eq!(titles[8], "Clang");
    assert_eq!(titles[9], r#"<abbr title="TODO">Flinchless"#);
    assert_eq!(throw_header(false).len(), 9);
    assert_eq!(throw_header(true).len(), 10);
    assert_eq!(throw_header(false)[6], "Grab Target");
}

#[test]
fn attribute_table_of_a_subaction() {
    let mut frames = frames_of(4);
    frames.rehit_sets[1] = vec![true, false, true, true];
    let list = subaction_attributes(&summary(), &frames, 3, Some(("14".to_string(), 7)), 0x2a);
    let names: Vec<String> = list.iter().map(|a| a.name.clone()).collect();
    let values: Vec<String> = list.iter().map(|a| a.value.clone()).collect();
    assert_eq!(
        values,
        vec!["30", "1-3, 20-30", "4", "14", "7", "5-7", "8-10", "1, 3, 4", "0x2a"]
    );
    assert!(names[0].ends_with(">IASA</abbr>"));
    assert!(names[2].ends_with(">Auto Cancel Lag</abbr>"));
    assert!(names[5].ends_with(">Fully Intangible</abbr>"));
    assert_eq!(names[6], "Hitboxes active");
    assert_eq!(
        names[7],
        r#"<abbr title="All hitboxes within hitbox set 1 can hit the same enemy again on these frames.">Hitbox set 1 hits</abbr>"#
    );
    assert!(names[8].ends_with(">Subaction Index</abbr>"));
}

#[test]
fn attribute_table_without_optional_rows() {
    let empty = FrameSummary {
        iasa: "None".to_string(),
        auto_cancel: String::new(),
        invincible: String::new(),
        intangible: String::new(),
        partial_invincible: String::new(),
        partial_intangible: String::new(),
        reverse_direction: String::new(),
        hitboxes_active: String::new(),
    };
    let list = subaction_attributes(&empty, &frames_of(2), 3, None, 0);
    let values: Vec<String> = list.iter().map(|a| a.value.clone()).collect();
    assert_eq!(values, vec!["None", "0x0"]);
}

#[test]
fn preview_description() {
    let text = twitter_description(40, &summary(), Some("14"), "\n\nFrame:9\nDamage:12");
    assert_eq!(
        text,
        "Frames:40\nIASA:30\nAutoCancel:1-3, 20-30\nLandingLag:14\nFullyIntangible:5-7\n\nFrame:9\nDamage:12"
    );
}
