use rukaidata::hitbox_table::{
    hitbox_columns, hitbox_table, subaction_tables, throw_table, AngleFlip, BoxValues, CanHit, CollisionBox, FrameBoxes,
    GrabTarget, GrabValues, HitEffect, HitValues, ThrowValues,
};

fn can_hit_all() -> CanHit {
    CanHit {
        fighter_ground: true,
        fighter_air: true,
        waddle: true,
        pikmin: true,
        gyro: true,
        snake_grenade: true,
        mr_saturn: true,
        stage_non_wall_ceiling_floor: true,
        wall_ceiling_floor: true,
        link_bomb: true,
        bobomb: true,
    }
}

fn hit(damage: &str, angle: i32) -> HitValues {
    HitValues {
        enabled: true,
        set_id: "0".to_string(),
        damage: damage.to_string(),
        wdsk: 0,
        bkb: "10".to_string(),
        kbg: "100".to_string(),
        trajectory: angle,
        effect: HitEffect::Normal,
        sound: "Punch".to_string(),
        angle_flipping: AngleFlip::AttackerPosition,
        clang: true,
        direct: true,
        hitlag_mult: "1".to_string(),
        hitlag_mult_changed: false,
        sdi_mult: "1".to_string(),
        sdi_mult_changed: false,
        shield_damage: 0,
        tripping_rate: "0".to_string(),
        tripping_rate_changed: false,
        rehit_rate: 0,
        can_be_shielded: true,
        can_be_reflected: false,
        can_be_absorbed: false,
        remain_grabbed: false,
        ignore_invincibility: false,
        freeze_frame_disable: false,
        flinchless: false,
        shieldstun: "3".to_string(),
        hitlag: "5".to_string(),
        can_hit: can_hit_all(),
    }
}

fn hitbox(id: u8, values: HitValues) -> CollisionBox {
    CollisionBox { hitbox_id: id, values: BoxValues::Hit(values) }
}

fn grabbox(id: u8) -> CollisionBox {
    CollisionBox { hitbox_id: id, values: BoxValues::Grab(GrabValues { set_action: 0x3a, grounded: true, aerial: false }) }
}

const SPRITES: &str = "/s.png";

#[test]
fn plain_hitboxes_show_only_the_fixed_columns() {
    let boxes = vec![hitbox(0, hit("12", 45))];
    let c = hitbox_columns(&boxes);
    assert!(!c.wdsk && !c.clang && !c.angle_flipping && !c.can_be_shielded);
    let (table, preview) = hitbox_table("Frame:3".to_string(), &boxes, SPRITES);
    let table = table.unwrap();
    assert_eq!(table.frames, "Frame:3");
    assert_eq!(table.header.len(), 11);
    assert_eq!(table.rows.len(), 1);
    let row = &table.rows[0];
    assert_eq!(row.len(), table.header.len());
    assert_eq!(&row[..5], &["0", "0", "12", "10", "100"]);
    assert!(row[5].ends_with("></canvas>45"));
    assert_eq!(&row[6..10], &["Normal", "Punch", "3", "5"]);
    assert!(row[10].starts_with(
        r#"<img title="Fighter on the ground" class="spritesheet-fighter-ground " src="/s.png" />"#
    ));
    assert_eq!(row[10].matches("<img ").count(), 11);
    assert!(!row[10].contains("icon-disable"));
    assert_eq!(preview, "\n\nFrame:3\nDamage:12\nShieldStun:3\nBKB:10\nKBG:100\nAngle:45");
}

#[test]
fn unusual_values_add_columns_and_preview_lines() {
    let mut a = hit("12", 361);
    a.clang = false;
    a.wdsk = 70;
    a.effect = HitEffect::Electric;
    let mut b = hit("8", 80);
    b.effect = HitEffect::Electric;
    b.angle_flipping = AngleFlip::MovementDir;
    let boxes = vec![hitbox(0, a), hitbox(1, b), grabbox(2)];
    let (table, preview) = hitbox_table("Frames:2-4".to_string(), &boxes, SPRITES);
    let table = table.unwrap();
    // WDSK, angle flip and clang columns
    assert_eq!(table.header.len(), 14);
    assert_eq!(table.rows.len(), 3);
    for row in &table.rows {
        assert_eq!(row.len(), table.header.len());
    }
    assert_eq!(table.rows[0][3], "70");
    assert_eq!(table.rows[1][3], "0");
    assert_eq!(table.rows[1][9], r#"<abbr title="Movement Direction: The direction the attacker is moving.">MD</abbr>"#);
    assert_eq!(table.rows[0][10], "false");
    assert_eq!(&table.rows[2][..4], &["0", "2", "Grab", "set action: 0x3a"]);
    assert!(table.rows[2][13].contains(r#"class="spritesheet-fighter-air icon-disable""#));
    assert_eq!(
        preview,
        "\n\nFrames:2-4\nDamage:12,8\nShieldStun:3,3\nWDSK:70,0\nBKB:10,10\nKBG:100,100\nAngle:361,80\nAngleFlip:AP,MD\nEffect:All Electric\nClang:n,y\nHasGrabbox"
    );
}

#[test]
fn disabled_hitboxes_make_no_rows() {
    let mut a = hit("12", 45);
    a.enabled = false;
    let (table, preview) = hitbox_table("Frame:1".to_string(), &vec![hitbox(0, a)], SPRITES);
    assert!(table.is_none());
    assert_eq!(preview, "");
}

fn throw() -> ThrowValues {
    ThrowValues {
        damage: "9".to_string(),
        wdsk: 0,
        bkb: "60".to_string(),
        kbg: "50".to_string(),
        trajectory: 45,
        effect: "Normal".to_string(),
        sfx: "None".to_string(),
        grab_target: GrabTarget::AerialAndGrounded,
        i_frames: "0".to_string(),
        weight_dependent_speed: true,
    }
}

#[test]
fn throw_tables() {
    let (table, preview) = throw_table(7, &throw());
    assert_eq!(table.frames, "Frame: 7");
    assert_eq!(table.header.len(), 9);
    assert_eq!(table.rows.len(), 1);
    assert_eq!(table.rows[0].len(), 9);
    assert_eq!(table.rows[0][5], "None");
    assert_eq!(table.rows[0][6], "AerialAndGrounded");
    assert_eq!(table.rows[0][8], "true");
    assert_eq!(
        preview,
        "\n\nThrow\nFrame: 7\nDamage:9\nBKB:60\nKBG:50\nAngle:45\nEffect:Normal\nWDTS:true\nGrabTarget:AG\nIframes:0"
    );
}

fn frame(changed: bool, boxes: Vec<CollisionBox>, throw: Option<ThrowValues>) -> FrameBoxes {
    FrameBoxes { changed, boxes, throw }
}

#[test]
fn tables_of_a_subaction() {
    let frames = vec![
        frame(false, vec![], None),
        frame(true, vec![hitbox(0, hit("12", 45))], None),
        frame(false, vec![hitbox(0, hit("12", 45))], None),
        frame(true, vec![hitbox(0, hit("6", 90))], Some(throw())),
        frame(true, vec![], None),
    ];
    let tables = subaction_tables(&frames, SPRITES);
    let labels: Vec<&str> = tables.hitbox_tables.iter().map(|t| t.frames.as_str()).collect();
    assert_eq!(labels, vec!["Frames:2-3", "Frame:4"]);
    assert_eq!(tables.hitbox_tables[0].rows[0][2], "12");
    assert_eq!(tables.hitbox_tables[1].rows[0][2], "6");
    assert_eq!(tables.throw_table.as_ref().map(|t| t.frames.as_str()), Some("Frame: 3"));
    assert_eq!(
        tables.preview,
        "\n\nThrow\nFrame: 3\nDamage:9\nBKB:60\nKBG:50\nAngle:45\nEffect:Normal\nWDTS:true\nGrabTarget:AG\nIframes:0\n\nFrames:2-3\nDamage:12\nShieldStun:3\nBKB:10\nKBG:100\nAngle:45\n\nFrame:4\nDamage:6\nShieldStun:3\nBKB:10\nKBG:100\nAngle:90"
    );
}
