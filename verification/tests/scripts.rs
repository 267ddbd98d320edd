use rukaidata::brawl_data::{ActionInfo, BrawlFighter, BrawlMod, Fighter, SectionScript, SubactionInfo};
use rukaidata::scripts::{
    process_events, process_expression, Event, Expression, ScriptOffset, Variable, VariableEventKind, VariableKind,
};

fn fighter() -> BrawlFighter {
    BrawlFighter::new(
        "P+",
        Fighter {
            name: "Mario".to_string(),
            actions: vec![
                ActionInfo { name: "Wait1".to_string(), common: false, script_entry: 0, script_exit: 0 },
                ActionInfo { name: "Jump".to_string(), common: false, script_entry: 0, script_exit: 0 },
            ],
            subactions: vec![SubactionInfo {
                name: "AttackAirN".to_string(),
                script_main: 0x100,
                script_gfx: 0x104,
                script_sfx: 0x108,
                script_other: 0x10c,
                frame_count: 10,
            }],
            scripts_fragment_fighter: vec![0x5000],
            scripts_fragment_common: vec![0x7000],
            scripts_section: vec![SectionScript { name: "Shared".to_string(), callers: vec![0x40] }],
        },
    )
}

fn cat(parts: &[&str]) -> String {
    parts.concat()
}

fn brawl_mod() -> BrawlMod {
    BrawlMod { name: "P+".to_string(), fighters: vec![] }
}

#[test]
fn expressions() {
    let e = Expression::Binary {
        left: Box::new(Expression::Variable(Variable::Address { kind: VariableKind::LongtermAccessInt, address: 0x1f })),
        operator: "Equal".to_string(),
        right: Box::new(Expression::Value("3".to_string())),
    };
    assert_eq!(process_expression(&e), "LongtermAccessInt (0x1f) Equal value(3)");
    let e = Expression::Not(Box::new(Expression::Unary {
        requirement: "OnGround".to_string(),
        value: Box::new(Expression::Scalar("1.5".to_string())),
    }));
    assert_eq!(process_expression(&e), "not(OnGround scalar(1.5))");
    let v = Variable::Unknown { memory_type: "Mem".to_string(), data_type: "Int".to_string(), address: 255 };
    assert_eq!(
        process_expression(&Expression::Variable(v)),
        "Unknown { memory_type: Mem, data_type: Int, address: 0xff }"
    );
}

#[test]
fn empty_script_is_an_empty_list() {
    assert_eq!(process_events(&vec![], false, &brawl_mod(), &fighter()), "<ol></ol>");
}

#[test]
fn change_events_link_to_actions_and_subactions() {
    let events = vec![
        Event::Nop,
        Event::ChangeAction { action: 1, test: Expression::Nullary("True".to_string()), debug: "CA".to_string() },
        Event::ChangeAction { action: 9, test: Expression::Nullary("True".to_string()), debug: "ChangeAction(9)".to_string() },
        Event::ChangeActionStatus {
            status_id: "7".to_string(),
            action: 0,
            requirement: "OnGround".to_string(),
            flip: true,
            debug: "CAS".to_string(),
        },
        Event::ChangeSubaction { subaction: 0, debug: "CS".to_string() },
        Event::ChangeSubactionRestartFrame { subaction: 3, debug: "ChangeSubactionRestartFrame(3)".to_string() },
    ];
    assert_eq!(
        process_events(&events, false, &brawl_mod(), &fighter()),
        cat(&[
            "<ol>",
            "<li>ChangeAction { action: <a href='/P+/Mario/actions/Jump.html'>Jump</a>, requirement: (True) }</li>",
            "<li>ChangeAction(9)</li>",
            "<li>ChangeActionStatus { status_id: 7, action: <a href='/P+/Mario/actions/Wait1.html'>Wait1</a>, requirement: (not(OnGround)), }</li>",
            "<li>ChangeSubaction(<a href='/P+/Mario/subactions/AttackAirN.html'>AttackAirN</a>)</li>",
            "<li>ChangeSubactionRestartFrame(3)</li>",
            "</ol>"
        ])
    );
}

#[test]
fn calls_link_to_the_scripts_they_reach() {
    let events = vec![
        Event::Goto(ScriptOffset { offset: 0x104, origin: 0 }),
        Event::Goto(ScriptOffset { offset: 0x9999, origin: 0x40 }),
        Event::Goto(ScriptOffset { offset: -1, origin: 0x41 }),
        Event::Subroutine(ScriptOffset { offset: 0x5000, origin: 0 }),
        Event::Subroutine(ScriptOffset { offset: 0x9999, origin: 0x40 }),
        Event::Subroutine(ScriptOffset { offset: 0x10, origin: 0x20 }),
        Event::CallEveryFrame { thread_id: "2".to_string(), offset: ScriptOffset { offset: 0x108, origin: 0 }, debug: "CEF".to_string() },
        Event::CallEveryFrame { thread_id: "2".to_string(), offset: ScriptOffset { offset: 1, origin: 2 }, debug: "CallEveryFrame { 0x1 }".to_string() },
    ];
    assert_eq!(
        process_events(&events, false, &brawl_mod(), &fighter()),
        cat(&[
            "<ol>",
            "<li>Goto(<a href='/P+/Mario/subactions/AttackAirN.html#script-gfx'>AttackAirN GFX</a>)</li>",
            "<li>Goto(<a href='help'>External: Shared</a>)</li>",
            "<li>Goto(Offset { offset: 0xffffffff, origin: 0x41 })</li>",
            "<li>Subroutine(<a href='/P+/Mario/scripts/0x5000.html'>0x5000</a>)</li>",
            "<li>Subroutine(<a href='/P+/Mario/scripts_common/Shared.html'>External: Shared</a>)</li>",
            "<li>Subroutine(Offset { offset: 0x10, origin: 0x20 })</li>",
            "<li>CallEveryFrame { thread_id: 2, script: <a href='/P+/Mario/subactions/AttackAirN.html#script-sfx'>AttackAirN SFX</a> }</li>",
            "<li>CallEveryFrame { 0x1 }</li>",
            "</ol>"
        ])
    );
}

#[test]
fn common_scripts_use_the_common_lookup() {
    let events = vec![
        Event::Subroutine(ScriptOffset { offset: 0x7000, origin: 0 }),
        Event::Subroutine(ScriptOffset { offset: 0x5000, origin: 0 }),
    ];
    assert_eq!(
        process_events(&events, true, &brawl_mod(), &fighter()),
        cat(&[
            "<ol>",
            "<li>Subroutine(<a href='/P+/Mario/scripts_common/0x7000.html'>0x7000</a>)</li>",
            "<li>Subroutine(Offset { offset: 0x5000, origin: 0x0 })</li>",
            "</ol>"
        ])
    );
}

#[test]
fn nested_blocks_are_nested_lists() {
    let events = vec![
        Event::ForLoop { iterations: Some(3), block: vec![Event::Other("Wait(1)".to_string())] },
        Event::ForLoop { iterations: None, block: vec![] },
        Event::IfStatement {
            test: Expression::Nullary("Grounded".to_string()),
            then_branch: vec![Event::Other("A".to_string())],
            else_branch: Some(vec![Event::Other("B".to_string())]),
        },
        Event::IfStatement { test: Expression::Nullary("Air".to_string()), then_branch: vec![], else_branch: None },
    ];
    assert_eq!(
        process_events(&events, false, &brawl_mod(), &fighter()),
        cat(&[
            "<ol>",
            "<li>loop 3 times: <ol><li>Wait(1)</li></ol></li>",
            "<li>loop Infinite times: <ol></ol></li>",
            "<li>if (Grounded) <ol><li>A</li></ol> </li><li>else<ol><li>B</li></ol></li>",
            "<li>if (Air) <ol></ol> </li>",
            "</ol>"
        ])
    );
}

#[test]
fn variable_events_and_others() {
    let var = Variable::Address { kind: VariableKind::RandomAccessFloat, address: 0x10 };
    let events = vec![
        Event::VariableEvent { kind: VariableEventKind::FloatVariableAdd, variable: var, value: "1.5".to_string() },
        Event::VariableEvent { kind: VariableEventKind::IntVariableIncrement, variable: Variable::Other("V".to_string()), value: String::new() },
        Event::ItemThrow {
            unk1: Variable::Other("a".to_string()),
            unk2: Variable::Other("b".to_string()),
            unk3: Variable::Other("c".to_string()),
            unk4: None,
            unk5: Some(Variable::Other("e".to_string())),
        },
        Event::ItemThrow2 { unk1: "1".to_string(), unk2: "2".to_string(), unk3: Variable::Other("c".to_string()) },
        Event::ApplyThrow {
            unk0: "0".to_string(),
            bone: "5".to_string(),
            unk1: Variable::Other("x".to_string()),
            unk2: Variable::Other("y".to_string()),
            unk3: Variable::Other("z".to_string()),
        },
        Event::Unknown { namespace: 0x11, code: 0xa, unk1: 0, arguments: "[]".to_string() },
    ];
    assert_eq!(
        process_events(&events, false, &brawl_mod(), &fighter()),
        cat(&[
            "<ol>",
            "<li>FloatVariableAdd { variable: RandomAccessFloat (0x10), value: 1.5 }</li>",
            "<li>IntVariableIncrement { variable: V }</li>",
            "<li>ItemThrow { unk1: a, unk2: b, unk3: c unk4: None, unk5: e }</li>",
            "<li>ItemThrow2 { unk1: 1, unk2: 2, unk3: c}</li>",
            "<li>ApplyThrow { unk0: 0, bone: 5, unk1: x unk2: y, unk3: z }</li>",
            "<li>UnknownEvent { namespace: 0x11, code: 0xa, unk1: 0x0, arguments: [] }</li>",
            "</ol>"
        ])
    );
}
