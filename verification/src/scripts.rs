//! The HTML of a script: its events as a list, with links to the actions, subactions and
//! scripts that they lead to.

use vstd::prelude::*;
use crate::brawl_data::{BrawlFighter, BrawlMod, ScriptInfo, SectionScript, action_names, subaction_names};
use std::collections::HashMap;
use crate::brawl_data::fragment_name;
use crate::brawl_mod::{InfoView, fragments_unique, lemma_fragments_found, lookup_view, lookups_built};
use crate::text::{decimal_int, hex, i32_bits, write_decimal_i64, write_hex, write_hex_i32};

verus! {

/// The memory that a variable lives in, and the type of its value.
pub enum VariableKind {
    InternalConstantInt,
    LongtermAccessInt,
    LongtermAccessFloat,
    LongtermAccessBool,
    RandomAccessInt,
    RandomAccessFloat,
    RandomAccessBool,
}

/// A variable that a script reads or writes.
pub enum Variable {
    /// A variable of a known kind, at an address.
    Address { kind: VariableKind, address: u32 },
    /// A variable of an unknown kind, with the debug text of its memory and data types.
    Unknown { memory_type: String, data_type: String, address: u32 },
    /// Any other variable, as its debug text.
    Other(String),
}

/// A condition or value of a script.
pub enum Expression {
    /// A requirement, as its debug text.
    Nullary(String),
    /// A requirement applied to a value.
    Unary { requirement: String, value: Box<Expression> },
    /// Two expressions joined by an operator (its debug text).
    Binary { left: Box<Expression>, operator: String, right: Box<Expression> },
    Not(Box<Expression>),
    Variable(Variable),
    /// A value, as its text.
    Value(String),
    /// A scalar, as its text.
    Scalar(String),
}

/// The name of a kind of variable.
pub open spec fn kind_name(kind: VariableKind) -> Seq<char> {
    match kind {
        VariableKind::InternalConstantInt => "InternalConstantInt"@,
        VariableKind::LongtermAccessInt => "LongtermAccessInt"@,
        VariableKind::LongtermAccessFloat => "LongtermAccessFloat"@,
        VariableKind::LongtermAccessBool => "LongtermAccessBool"@,
        VariableKind::RandomAccessInt => "RandomAccessInt"@,
        VariableKind::RandomAccessFloat => "RandomAccessFloat"@,
        VariableKind::RandomAccessBool => "RandomAccessBool"@,
    }
}

/// The text of a variable: its kind and its address in hexadecimal.
pub open spec fn variable_text(v: Variable) -> Seq<char> {
    match v {
        Variable::Address { kind, address } => kind_name(kind) + " (0x"@ + hex(address as nat) + ")"@,
        Variable::Unknown { memory_type, data_type, address } => "Unknown { memory_type: "@ + memory_type@
            + ", data_type: "@ + data_type@ + ", address: 0x"@ + hex(address as nat) + " }"@,
        Variable::Other(text) => text@,
    }
}

/// The text of an expression.
pub open spec fn expression_text(e: Expression) -> Seq<char>
    decreases e,
{
    match e {
        Expression::Nullary(requirement) => requirement@,
        Expression::Unary { requirement, value } => requirement@ + " "@ + expression_text(*value),
        Expression::Binary { left, operator, right } => expression_text(*left) + " "@ + operator@ + " "@
            + expression_text(*right),
        Expression::Not(inner) => "not("@ + expression_text(*inner) + ")"@,
        Expression::Variable(v) => variable_text(v),
        Expression::Value(value) => "value("@ + value@ + ")"@,
        Expression::Scalar(scalar) => "scalar("@ + scalar@ + ")"@,
    }
}

fn kind_str(kind: &VariableKind) -> (name: &'static str)
    ensures
        name@ == kind_name(*kind),
{
    match kind {
        VariableKind::InternalConstantInt => "InternalConstantInt",
        VariableKind::LongtermAccessInt => "LongtermAccessInt",
        VariableKind::LongtermAccessFloat => "LongtermAccessFloat",
        VariableKind::LongtermAccessBool => "LongtermAccessBool",
        VariableKind::RandomAccessInt => "RandomAccessInt",
        VariableKind::RandomAccessFloat => "RandomAccessFloat",
        VariableKind::RandomAccessBool => "RandomAccessBool",
    }
}

/// Appends the text of a variable to `s`.
pub fn write_variable(s: &mut String, v: &Variable)
    ensures
        final(s)@ == old(s)@ + variable_text(*v),
{
    match v {
        Variable::Address { kind, address } => {
            s.append(kind_str(kind));
            s.append(" (0x");
            write_hex(s, *address as u64);
            s.append(")");
            assert(final(s)@ =~= old(s)@ + variable_text(*v));
        },
        Variable::Unknown { memory_type, data_type, address } => {
            s.append("Unknown { memory_type: ");
            s.append(memory_type.as_str());
            s.append(", data_type: ");
            s.append(data_type.as_str());
            s.append(", address: 0x");
            write_hex(s, *address as u64);
            s.append(" }");
            assert(final(s)@ =~= old(s)@ + variable_text(*v));
        },
        Variable::Other(text) => {
            s.append(text.as_str());
        },
    }
}

/// Appends the text of an expression to `s`.
pub fn write_expression(s: &mut String, e: &Expression)
    ensures
        final(s)@ == old(s)@ + expression_text(*e),
    decreases e,
{
    match e {
        Expression::Nullary(requirement) => {
            s.append(requirement.as_str());
        },
        Expression::Unary { requirement, value } => {
            s.append(requirement.as_str());
            s.append(" ");
            write_expression(s, &**value);
            assert(final(s)@ =~= old(s)@ + expression_text(*e));
        },
        Expression::Binary { left, operator, right } => {
            write_expression(s, &**left);
            s.append(" ");
            s.append(operator.as_str());
            s.append(" ");
            write_expression(s, &**right);
            assert(final(s)@ =~= old(s)@ + expression_text(*e));
        },
        Expression::Not(inner) => {
            s.append("not(");
            write_expression(s, &**inner);
            s.append(")");
            assert(final(s)@ =~= old(s)@ + expression_text(*e));
        },
        Expression::Variable(v) => {
            write_variable(s, v);
        },
        Expression::Value(value) => {
            s.append("value(");
            s.append(value.as_str());
            s.append(")");
            assert(final(s)@ =~= old(s)@ + expression_text(*e));
        },
        Expression::Scalar(scalar) => {
            s.append("scalar(");
            s.append(scalar.as_str());
            s.append(")");
            assert(final(s)@ =~= old(s)@ + expression_text(*e));
        },
    }
}

/// The text of an expression.
pub fn process_expression(e: &Expression) -> (text: String)
    ensures
        text@ == expression_text(*e),
{
    let mut text = String::new();
    write_expression(&mut text, e);
    assert(text@ =~= expression_text(*e));
    text
}

/// The events that set or change a variable.
pub enum VariableEventKind {
    IntVariableSet,
    IntVariableAdd,
    IntVariableSubtract,
    IntVariableIncrement,
    IntVariableDecrement,
    FloatVariableSet,
    FloatVariableAdd,
    FloatVariableSubtract,
    FloatVariableMultiply,
    FloatVariableDivide,
    BoolVariableSetTrue,
    BoolVariableSetFalse,
}

/// Where a call leads: the offset of the script it calls and the offset of the call itself.
pub struct ScriptOffset {
    pub offset: i32,
    pub origin: i32,
}

/// An event of a script. Where the page shows an event by its debug text, the event
/// carries that text.
pub enum Event {
    Nop,
    /// Changes to the action at index `action` when `test` holds.
    ChangeAction { action: usize, test: Expression, debug: String },
    /// Changes to the action at index `action` when the requirement holds (or, when `flip`,
    /// when it does not).
    ChangeActionStatus { status_id: String, action: usize, requirement: String, flip: bool, debug: String },
    /// Changes to the subaction at index `subaction`.
    ChangeSubaction { subaction: usize, debug: String },
    /// Changes to the subaction at index `subaction`, from its first frame.
    ChangeSubactionRestartFrame { subaction: usize, debug: String },
    /// Runs `block` the given number of times (forever when `None`).
    ForLoop { iterations: Option<i64>, block: Vec<Event> },
    IfStatement { test: Expression, then_branch: Vec<Event>, else_branch: Option<Vec<Event>> },
    Goto(ScriptOffset),
    Subroutine(ScriptOffset),
    /// Calls a script on every frame; `debug` is the debug text in hexadecimal.
    CallEveryFrame { thread_id: String, offset: ScriptOffset, debug: String },
    /// Sets or changes a variable; `value` is the text of the value it is set to or
    /// changed by, where the event has one.
    VariableEvent { kind: VariableEventKind, variable: Variable, value: String },
    ItemThrow { unk1: Variable, unk2: Variable, unk3: Variable, unk4: Option<Variable>, unk5: Option<Variable> },
    ItemThrow2 { unk1: String, unk2: String, unk3: Variable },
    ApplyThrow { unk0: String, bone: String, unk1: Variable, unk2: Variable, unk3: Variable },
    Unknown { namespace: u64, code: u64, unk1: u64, arguments: String },
    /// Any other event, as its debug text.
    Other(String),
}

/// The name of a variable event.
pub open spec fn variable_event_name(kind: VariableEventKind) -> Seq<char> {
    match kind {
        VariableEventKind::IntVariableSet => "IntVariableSet"@,
        VariableEventKind::IntVariableAdd => "IntVariableAdd"@,
        VariableEventKind::IntVariableSubtract => "IntVariableSubtract"@,
        VariableEventKind::IntVariableIncrement => "IntVariableIncrement"@,
        VariableEventKind::IntVariableDecrement => "IntVariableDecrement"@,
        VariableEventKind::FloatVariableSet => "FloatVariableSet"@,
        VariableEventKind::FloatVariableAdd => "FloatVariableAdd"@,
        VariableEventKind::FloatVariableSubtract => "FloatVariableSubtract"@,
        VariableEventKind::FloatVariableMultiply => "FloatVariableMultiply"@,
        VariableEventKind::FloatVariableDivide => "FloatVariableDivide"@,
        VariableEventKind::BoolVariableSetTrue => "BoolVariableSetTrue"@,
        VariableEventKind::BoolVariableSetFalse => "BoolVariableSetFalse"@,
    }
}

/// Whether a variable event has a value.
pub open spec fn variable_event_has_value(kind: VariableEventKind) -> bool {
    match kind {
        VariableEventKind::IntVariableIncrement => false,
        VariableEventKind::IntVariableDecrement => false,
        VariableEventKind::BoolVariableSetTrue => false,
        VariableEventKind::BoolVariableSetFalse => false,
        _ => true,
    }
}

/// The lookup of scripts by offset that a script's events use: the common one for the
/// scripts of the common fighter.
pub open spec fn lookup_for(fighter: BrawlFighter, common: bool) -> Map<i32, InfoView> {
    if common {
        lookup_view(fighter.script_lookup_common@)
    } else {
        lookup_view(fighter.script_lookup@)
    }
}

/// The name of the first script of the shared section that a call at `origin` leads to.
pub open spec fn section_of(sections: Seq<SectionScript>, origin: i32) -> Option<Seq<char>>
    decreases sections.len(),
{
    if sections.len() == 0 {
        None
    } else if sections[0].callers@.contains(origin) {
        Some(sections[0].name@)
    } else {
        section_of(sections.drop_first(), origin)
    }
}

/// A link to a page, with the given text.
pub open spec fn anchor(address: Seq<char>, text: Seq<char>) -> Seq<char> {
    "<a href='"@ + address + "'>"@ + text + "</a>"@
}

/// The address of a page of a fighter: `/mod/fighter/{dir}/{name}.html`.
pub open spec fn fighter_page(m: Seq<char>, f: Seq<char>, dir: Seq<char>, name: Seq<char>) -> Seq<char> {
    "/"@ + m + "/"@ + f + "/"@ + dir + "/"@ + name + ".html"@
}

/// An event shown as its debug text.
pub open spec fn debug_item(debug: Seq<char>) -> Seq<char> {
    "<li>"@ + debug + "</li>"@
}

/// The text of an optional variable: `None` where there is none.
pub open spec fn optional_variable_text(v: Option<Variable>) -> Seq<char> {
    match v {
        Some(v) => variable_text(v),
        None => "None"@,
    }
}

/// The text of an offset that no script was found at.
pub open spec fn offset_text(o: ScriptOffset) -> Seq<char> {
    "Offset { offset: 0x"@ + hex(i32_bits(o.offset)) + ", origin: 0x"@ + hex(i32_bits(o.origin)) + " }"@
}

/// The list item of a call: to the script found at its offset, else to the shared script
/// that the call leads to, else `missing`.
pub open spec fn call_item(
    lookup: Map<i32, InfoView>,
    sections: Seq<SectionScript>,
    o: ScriptOffset,
    found: spec_fn(InfoView) -> Seq<char>,
    shared: spec_fn(Seq<char>) -> Seq<char>,
    missing: Seq<char>,
) -> Seq<char> {
    if lookup.contains_key(o.offset) {
        found(lookup[o.offset])
    } else {
        match section_of(sections, o.origin) {
            Some(name) => shared(name),
            None => missing,
        }
    }
}

/// A call of a script of the shared section, which the page shows as a subroutine.
pub open spec fn shared_subroutine(m: Seq<char>, f: Seq<char>, name: Seq<char>) -> Seq<char> {
    "<li>Subroutine("@ + anchor(fighter_page(m, f, "scripts_common"@, name), "External: "@ + name) + ")</li>"@
}

/// The list item of an event that changes to the action at index `action`, which holds
/// when `test` does; the event's debug text where there is no such action.
pub open spec fn change_action_text(m: Seq<char>, fighter: BrawlFighter, action: usize, test: Seq<char>, debug: Seq<char>) -> Seq<char> {
    let actions = action_names(&fighter.fighter);
    if action < actions.len() {
        "<li>ChangeAction { action: "@ + anchor(fighter_page(m, fighter.fighter.name@, "actions"@, actions[action as int]), actions[action as int])
            + ", requirement: ("@ + test + ") }</li>"@
    } else {
        debug_item(debug)
    }
}

/// The list item of an event that changes to the action at index `action` under the
/// requirement `test`; the event's debug text where there is no such action.
pub open spec fn change_action_status_text(
    m: Seq<char>,
    fighter: BrawlFighter,
    status_id: Seq<char>,
    action: usize,
    test: Seq<char>,
    debug: Seq<char>,
) -> Seq<char> {
    let actions = action_names(&fighter.fighter);
    if action < actions.len() {
        "<li>ChangeActionStatus { status_id: "@ + status_id + ", action: "@
            + anchor(fighter_page(m, fighter.fighter.name@, "actions"@, actions[action as int]), actions[action as int])
            + ", requirement: ("@ + test + "), }</li>"@
    } else {
        debug_item(debug)
    }
}

/// The list item of the event `event` that changes to the subaction at index
/// `subaction`; the event's debug text where there is no such subaction.
pub open spec fn change_subaction_text(m: Seq<char>, fighter: BrawlFighter, event: Seq<char>, subaction: usize, debug: Seq<char>) -> Seq<char> {
    let subactions = subaction_names(&fighter.fighter);
    if subaction < subactions.len() {
        "<li>"@ + event + "("@ + anchor(
            fighter_page(m, fighter.fighter.name@, "subactions"@, subactions[subaction as int]),
            subactions[subaction as int],
        ) + ")</li>"@
    } else {
        debug_item(debug)
    }
}

/// The list item of a goto.
pub open spec fn goto_text(fighter: BrawlFighter, common: bool, o: ScriptOffset) -> Seq<char> {
    call_item(
        lookup_for(fighter, common),
        fighter.fighter.scripts_section@,
        o,
        |info: InfoView| "<li>Goto("@ + anchor(info.1, info.0) + ")</li>"@,
        |name: Seq<char>| "<li>Goto("@ + anchor("help"@, "External: "@ + name) + ")</li>"@,
        "<li>Goto("@ + offset_text(o) + ")</li>"@,
    )
}

/// The list item of a subroutine call.
pub open spec fn subroutine_text(m: Seq<char>, fighter: BrawlFighter, common: bool, o: ScriptOffset) -> Seq<char> {
    call_item(
        lookup_for(fighter, common),
        fighter.fighter.scripts_section@,
        o,
        |info: InfoView| "<li>Subroutine("@ + anchor(info.1, info.0) + ")</li>"@,
        |name: Seq<char>| shared_subroutine(m, fighter.fighter.name@, name),
        "<li>Subroutine("@ + offset_text(o) + ")</li>"@,
    )
}

/// The list item of a call on every frame.
pub open spec fn call_every_frame_text(
    m: Seq<char>,
    fighter: BrawlFighter,
    common: bool,
    thread_id: Seq<char>,
    o: ScriptOffset,
    debug: Seq<char>,
) -> Seq<char> {
    call_item(
        lookup_for(fighter, common),
        fighter.fighter.scripts_section@,
        o,
        |info: InfoView| "<li>CallEveryFrame { thread_id: "@ + thread_id + ", script: "@ + anchor(info.1, info.0) + " }</li>"@,
        |name: Seq<char>| shared_subroutine(m, fighter.fighter.name@, name),
        debug_item(debug),
    )
}

/// The list item of an event that sets or changes a variable.
pub open spec fn variable_event_text(kind: VariableEventKind, variable: Variable, value: Seq<char>) -> Seq<char> {
    if variable_event_has_value(kind) {
        "<li>"@ + variable_event_name(kind) + " { variable: "@ + variable_text(variable) + ", value: "@ + value + " }</li>"@
    } else {
        "<li>"@ + variable_event_name(kind) + " { variable: "@ + variable_text(variable) + " }</li>"@
    }
}

/// The list item of an item throw.
pub open spec fn item_throw_text(unk1: Variable, unk2: Variable, unk3: Variable, unk4: Option<Variable>, unk5: Option<Variable>) -> Seq<char> {
    "<li>ItemThrow { unk1: "@ + variable_text(unk1) + ", unk2: "@ + variable_text(unk2) + ", unk3: "@ + variable_text(unk3)
        + " unk4: "@ + optional_variable_text(unk4) + ", unk5: "@ + optional_variable_text(unk5) + " }</li>"@
}

/// The list item of the second kind of item throw.
pub open spec fn item_throw2_text(unk1: Seq<char>, unk2: Seq<char>, unk3: Variable) -> Seq<char> {
    "<li>ItemThrow2 { unk1: "@ + unk1 + ", unk2: "@ + unk2 + ", unk3: "@ + variable_text(unk3) + "}</li>"@
}

/// The list item of a throw.
pub open spec fn apply_throw_text(unk0: Seq<char>, bone: Seq<char>, unk1: Variable, unk2: Variable, unk3: Variable) -> Seq<char> {
    "<li>ApplyThrow { unk0: "@ + unk0 + ", bone: "@ + bone + ", unk1: "@ + variable_text(unk1) + " unk2: "@
        + variable_text(unk2) + ", unk3: "@ + variable_text(unk3) + " }</li>"@
}

/// The list item of an event of an unknown kind: its namespace, code and first unknown
/// field in hexadecimal, and its arguments.
pub open spec fn unknown_event_text(namespace: u64, code: u64, unk1: u64, arguments: Seq<char>) -> Seq<char> {
    "<li>UnknownEvent { namespace: 0x"@ + hex(namespace as nat) + ", code: 0x"@ + hex(code as nat) + ", unk1: 0x"@
        + hex(unk1 as nat) + ", arguments: "@ + arguments + " }</li>"@
}

/// The number of times a loop runs, as text.
pub open spec fn iterations_text(iterations: Option<i64>) -> Seq<char> {
    match iterations {
        Some(i) => decimal_int(i as int),
        None => "Infinite"@,
    }
}

/// The list item of one event of a script of `fighter` in mod `m`.
pub open spec fn event_text(m: Seq<char>, fighter: BrawlFighter, common: bool, e: Event) -> Seq<char>
    decreases e, 0int,
{
    match e {
        Event::Nop => Seq::empty(),
        Event::ChangeAction { action, test, debug } => change_action_text(m, fighter, action, expression_text(test), debug@),
        Event::ChangeActionStatus { status_id, action, requirement, flip, debug } => change_action_status_text(
            m,
            fighter,
            status_id@,
            action,
            if flip { "not("@ + requirement@ + ")"@ } else { requirement@ },
            debug@,
        ),
        Event::ChangeSubaction { subaction, debug } => change_subaction_text(m, fighter, "ChangeSubaction"@, subaction, debug@),
        Event::ChangeSubactionRestartFrame { subaction, debug } => change_subaction_text(
            m,
            fighter,
            "ChangeSubactionRestartFrame"@,
            subaction,
            debug@,
        ),
        Event::ForLoop { iterations, block } => "<li>loop "@ + iterations_text(iterations) + " times: "@ + events_list(
            m,
            fighter,
            common,
            block@,
        ) + "</li>"@,
        Event::IfStatement { test, then_branch, else_branch } => {
            let then_item = "<li>if ("@ + expression_text(test) + ") "@ + events_list(m, fighter, common, then_branch@) + " </li>"@;
            match else_branch {
                Some(b) => then_item + "<li>else"@ + events_list(m, fighter, common, b@) + "</li>"@,
                None => then_item,
            }
        },
        Event::Goto(o) => goto_text(fighter, common, o),
        Event::Subroutine(o) => subroutine_text(m, fighter, common, o),
        Event::CallEveryFrame { thread_id, offset, debug } => call_every_frame_text(m, fighter, common, thread_id@, offset, debug@),
        Event::VariableEvent { kind, variable, value } => variable_event_text(kind, variable, value@),
        Event::ItemThrow { unk1, unk2, unk3, unk4, unk5 } => item_throw_text(unk1, unk2, unk3, unk4, unk5),
        Event::ItemThrow2 { unk1, unk2, unk3 } => item_throw2_text(unk1@, unk2@, unk3),
        Event::ApplyThrow { unk0, bone, unk1, unk2, unk3 } => apply_throw_text(unk0@, bone@, unk1, unk2, unk3),
        Event::Unknown { namespace, code, unk1, arguments } => unknown_event_text(namespace, code, unk1, arguments@),
        Event::Other(debug) => debug_item(debug@),
    }
}

/// The list of a script's events.
pub open spec fn events_list(m: Seq<char>, fighter: BrawlFighter, common: bool, events: Seq<Event>) -> Seq<char>
    decreases events, 1int,
{
    "<ol>"@ + events_text(m, fighter, common, events) + "</ol>"@
}

/// The list items of a script's events, one per event, in order.
pub open spec fn events_text(m: Seq<char>, fighter: BrawlFighter, common: bool, events: Seq<Event>) -> Seq<char>
    decreases events, 0int,
{
    if events.len() == 0 {
        Seq::empty()
    } else {
        events_text(m, fighter, common, events.subrange(0, events.len() - 1)) + event_text(
            m,
            fighter,
            common,
            events[events.len() - 1],
        )
    }
}

broadcast use vstd::std_specs::hash::group_hash_axioms;

/// Whether `values` holds `x`.
fn contains_i32(values: &Vec<i32>, x: i32) -> (found: bool)
    ensures
        found == values@.contains(x),
{
    let mut i: usize = 0;
    while i < values.len()
        invariant
            i <= values.len(),
            forall|k: int| 0 <= k < i ==> values@[k] != x,
        decreases values.len() - i,
    {
        if values[i] == x {
            return true;
        }
        i += 1;
    }
    false
}

/// The index of the first shared script that a call at `origin` leads to.
fn find_section(sections: &Vec<SectionScript>, origin: i32) -> (found: Option<usize>)
    ensures
        match found {
            Some(i) => i < sections.len() && section_of(sections@, origin) == Some(sections@[i as int].name@),
            None => section_of(sections@, origin) is None,
        },
{
    let mut i: usize = 0;
    assert(sections@.skip(0) =~= sections@);
    while i < sections.len()
        invariant
            i <= sections.len(),
            section_of(sections@, origin) == section_of(sections@.skip(i as int), origin),
        decreases sections.len() - i,
    {
        assert(sections@.skip(i as int)[0] == sections@[i as int]);
        if contains_i32(&sections[i].callers, origin) {
            return Some(i);
        }
        assert(sections@.skip(i as int).drop_first() =~= sections@.skip(i + 1));
        i += 1;
    }
    None
}

/// The script found at `offset`.
fn lookup_get(lookup: &HashMap<i32, ScriptInfo>, offset: i32) -> (found: Option<&ScriptInfo>)
    ensures
        match found {
            Some(info) => lookup_view(lookup@).contains_key(offset) && lookup_view(lookup@)[offset] == (
            info.name@,
            info.address@,
            ),
            None => !lookup_view(lookup@).contains_key(offset),
        },
{
    lookup.get(&offset)
}

fn write_anchor(s: &mut String, address: &str, text: &str)
    ensures
        final(s)@ == old(s)@ + anchor(address@, text@),
{
    s.append("<a href='");
    s.append(address);
    s.append("'>");
    s.append(text);
    s.append("</a>");
    assert(final(s)@ =~= old(s)@ + anchor(address@, text@));
}

fn write_page_anchor(s: &mut String, m: &str, f: &str, dir: &str, name: &str, text: &str)
    ensures
        final(s)@ == old(s)@ + anchor(fighter_page(m@, f@, dir@, name@), text@),
{
    s.append("<a href='");
    s.append("/");
    s.append(m);
    s.append("/");
    s.append(f);
    s.append("/");
    s.append(dir);
    s.append("/");
    s.append(name);
    s.append(".html");
    s.append("'>");
    s.append(text);
    s.append("</a>");
    assert(final(s)@ =~= old(s)@ + anchor(fighter_page(m@, f@, dir@, name@), text@));
}

fn write_optional_variable(s: &mut String, v: &Option<Variable>)
    ensures
        final(s)@ == old(s)@ + optional_variable_text(*v),
{
    match v {
        Some(v) => write_variable(s, v),
        None => s.append("None"),
    }
}

fn variable_event_str(kind: &VariableEventKind) -> (name: &'static str)
    ensures
        name@ == variable_event_name(*kind),
{
    match kind {
        VariableEventKind::IntVariableSet => "IntVariableSet",
        VariableEventKind::IntVariableAdd => "IntVariableAdd",
        VariableEventKind::IntVariableSubtract => "IntVariableSubtract",
        VariableEventKind::IntVariableIncrement => "IntVariableIncrement",
        VariableEventKind::IntVariableDecrement => "IntVariableDecrement",
        VariableEventKind::FloatVariableSet => "FloatVariableSet",
        VariableEventKind::FloatVariableAdd => "FloatVariableAdd",
        VariableEventKind::FloatVariableSubtract => "FloatVariableSubtract",
        VariableEventKind::FloatVariableMultiply => "FloatVariableMultiply",
        VariableEventKind::FloatVariableDivide => "FloatVariableDivide",
        VariableEventKind::BoolVariableSetTrue => "BoolVariableSetTrue",
        VariableEventKind::BoolVariableSetFalse => "BoolVariableSetFalse",
    }
}

fn variable_event_value(kind: &VariableEventKind) -> (has_value: bool)
    ensures
        has_value == variable_event_has_value(*kind),
{
    match kind {
        VariableEventKind::IntVariableIncrement => false,
        VariableEventKind::IntVariableDecrement => false,
        VariableEventKind::BoolVariableSetTrue => false,
        VariableEventKind::BoolVariableSetFalse => false,
        _ => true,
    }
}

fn write_offset(s: &mut String, o: &ScriptOffset)
    ensures
        final(s)@ == old(s)@ + offset_text(*o),
{
    s.append("Offset { offset: 0x");
    write_hex_i32(s, o.offset);
    s.append(", origin: 0x");
    write_hex_i32(s, o.origin);
    s.append(" }");
    assert(final(s)@ =~= old(s)@ + offset_text(*o));
}

fn external_text(name: &str) -> (text: String)
    ensures
        text@ == "External: "@ + name@,
{
    let mut text = String::from_str("External: ");
    text.append(name);
    text
}

fn write_debug(s: &mut String, debug: &String)
    ensures
        final(s)@ == old(s)@ + debug_item(debug@),
{
    s.append("<li>");
    s.append(debug.as_str());
    s.append("</li>");
    assert(final(s)@ =~= old(s)@ + debug_item(debug@));
}

fn write_change_action(s: &mut String, m: &str, fighter: &BrawlFighter, action: usize, test: &Expression, debug: &String)
    ensures
        final(s)@ == old(s)@ + change_action_text(m@, *fighter, action, expression_text(*test), debug@),
{
    let actions = &fighter.fighter.actions;
    if action < actions.len() {
        let name = actions[action].name.as_str();
        assert(action_names(&fighter.fighter)[action as int] == name@);
        s.append("<li>ChangeAction { action: ");
        write_page_anchor(s, m, fighter.fighter.name.as_str(), "actions", name, name);
        s.append(", requirement: (");
        write_expression(s, test);
        s.append(") }</li>");
        assert(final(s)@ =~= old(s)@ + change_action_text(m@, *fighter, action, expression_text(*test), debug@));
    } else {
        write_debug(s, debug);
    }
}

fn write_change_action_status(
    s: &mut String,
    m: &str,
    fighter: &BrawlFighter,
    status_id: &String,
    action: usize,
    requirement: &String,
    flip: bool,
    debug: &String,
)
    ensures
        final(s)@ == old(s)@ + change_action_status_text(
            m@,
            *fighter,
            status_id@,
            action,
            if flip { "not("@ + requirement@ + ")"@ } else { requirement@ },
            debug@,
        ),
{
    let ghost test = if flip { "not("@ + requirement@ + ")"@ } else { requirement@ };
    let actions = &fighter.fighter.actions;
    if action < actions.len() {
        let name = actions[action].name.as_str();
        assert(action_names(&fighter.fighter)[action as int] == name@);
        s.append("<li>ChangeActionStatus { status_id: ");
        s.append(status_id.as_str());
        s.append(", action: ");
        write_page_anchor(s, m, fighter.fighter.name.as_str(), "actions", name, name);
        s.append(", requirement: (");
        if flip {
            s.append("not(");
            s.append(requirement.as_str());
            s.append(")");
        } else {
            s.append(requirement.as_str());
        }
        s.append("), }</li>");
        assert(final(s)@ =~= old(s)@ + change_action_status_text(m@, *fighter, status_id@, action, test, debug@));
    } else {
        write_debug(s, debug);
    }
}

fn write_change_subaction(s: &mut String, m: &str, fighter: &BrawlFighter, event: &str, subaction: usize, debug: &String)
    ensures
        final(s)@ == old(s)@ + change_subaction_text(m@, *fighter, event@, subaction, debug@),
{
    let subactions = &fighter.fighter.subactions;
    if subaction < subactions.len() {
        let name = subactions[subaction].name.as_str();
        assert(subaction_names(&fighter.fighter)[subaction as int] == name@);
        s.append("<li>");
        s.append(event);
        s.append("(");
        write_page_anchor(s, m, fighter.fighter.name.as_str(), "subactions", name, name);
        s.append(")</li>");
        assert(final(s)@ =~= old(s)@ + change_subaction_text(m@, *fighter, event@, subaction, debug@));
    } else {
        write_debug(s, debug);
    }
}

fn lookup_in<'a>(fighter: &'a BrawlFighter, common: bool) -> (lookup: &'a HashMap<i32, ScriptInfo>)
    ensures
        lookup_view(lookup@) == lookup_for(*fighter, common),
{
    if common {
        &fighter.script_lookup_common
    } else {
        &fighter.script_lookup
    }
}

fn write_shared_subroutine(s: &mut String, m: &str, f: &str, name: &str)
    ensures
        final(s)@ == old(s)@ + shared_subroutine(m@, f@, name@),
{
    let text = external_text(name);
    s.append("<li>Subroutine(");
    write_page_anchor(s, m, f, "scripts_common", name, text.as_str());
    s.append(")</li>");
    assert(final(s)@ =~= old(s)@ + shared_subroutine(m@, f@, name@));
}

fn write_goto(s: &mut String, fighter: &BrawlFighter, common: bool, o: &ScriptOffset)
    ensures
        final(s)@ == old(s)@ + goto_text(*fighter, common, *o),
{
    let sections = &fighter.fighter.scripts_section;
    match lookup_get(lookup_in(fighter, common), o.offset) {
        Some(info) => {
            s.append("<li>Goto(");
            write_anchor(s, info.address.as_str(), info.name.as_str());
            s.append(")</li>");
        },
        None => match find_section(sections, o.origin) {
            Some(i) => {
                let text = external_text(sections[i].name.as_str());
                s.append("<li>Goto(");
                write_anchor(s, "help", text.as_str());
                s.append(")</li>");
            },
            None => {
                s.append("<li>Goto(");
                write_offset(s, o);
                s.append(")</li>");
            },
        },
    }
    assert(final(s)@ =~= old(s)@ + goto_text(*fighter, common, *o));
}

fn write_subroutine(s: &mut String, m: &str, fighter: &BrawlFighter, common: bool, o: &ScriptOffset)
    ensures
        final(s)@ == old(s)@ + subroutine_text(m@, *fighter, common, *o),
{
    let sections = &fighter.fighter.scripts_section;
    match lookup_get(lookup_in(fighter, common), o.offset) {
        Some(info) => {
            s.append("<li>Subroutine(");
            write_anchor(s, info.address.as_str(), info.name.as_str());
            s.append(")</li>");
        },
        None => match find_section(sections, o.origin) {
            Some(i) => write_shared_subroutine(s, m, fighter.fighter.name.as_str(), sections[i].name.as_str()),
            None => {
                s.append("<li>Subroutine(");
                write_offset(s, o);
                s.append(")</li>");
            },
        },
    }
    assert(final(s)@ =~= old(s)@ + subroutine_text(m@, *fighter, common, *o));
}

fn write_call_every_frame(
    s: &mut String,
    m: &str,
    fighter: &BrawlFighter,
    common: bool,
    thread_id: &String,
    o: &ScriptOffset,
    debug: &String,
)
    ensures
        final(s)@ == old(s)@ + call_every_frame_text(m@, *fighter, common, thread_id@, *o, debug@),
{
    let sections = &fighter.fighter.scripts_section;
    match lookup_get(lookup_in(fighter, common), o.offset) {
        Some(info) => {
            s.append("<li>CallEveryFrame { thread_id: ");
            s.append(thread_id.as_str());
            s.append(", script: ");
            write_anchor(s, info.address.as_str(), info.name.as_str());
            s.append(" }</li>");
        },
        None => match find_section(sections, o.origin) {
            Some(i) => write_shared_subroutine(s, m, fighter.fighter.name.as_str(), sections[i].name.as_str()),
            None => write_debug(s, debug),
        },
    }
    assert(final(s)@ =~= old(s)@ + call_every_frame_text(m@, *fighter, common, thread_id@, *o, debug@));
}

fn write_variable_event(s: &mut String, kind: &VariableEventKind, variable: &Variable, value: &String)
    ensures
        final(s)@ == old(s)@ + variable_event_text(*kind, *variable, value@),
{
    s.append("<li>");
    s.append(variable_event_str(kind));
    s.append(" { variable: ");
    write_variable(s, variable);
    if variable_event_value(kind) {
        s.append(", value: ");
        s.append(value.as_str());
    }
    s.append(" }</li>");
    assert(final(s)@ =~= old(s)@ + variable_event_text(*kind, *variable, value@));
}

fn write_iterations(s: &mut String, iterations: &Option<i64>)
    ensures
        final(s)@ == old(s)@ + iterations_text(*iterations),
{
    match iterations {
        Some(i) => write_decimal_i64(s, *i),
        None => s.append("Infinite"),
    }
}

fn write_item_throw(
    s: &mut String,
    unk1: &Variable,
    unk2: &Variable,
    unk3: &Variable,
    unk4: &Option<Variable>,
    unk5: &Option<Variable>,
)
    ensures
        final(s)@ == old(s)@ + item_throw_text(*unk1, *unk2, *unk3, *unk4, *unk5),
{
    s.append("<li>ItemThrow { unk1: ");
    write_variable(s, unk1);
    s.append(", unk2: ");
    write_variable(s, unk2);
    s.append(", unk3: ");
    write_variable(s, unk3);
    s.append(" unk4: ");
    write_optional_variable(s, unk4);
    s.append(", unk5: ");
    write_optional_variable(s, unk5);
    s.append(" }</li>");
    assert(final(s)@ =~= old(s)@ + item_throw_text(*unk1, *unk2, *unk3, *unk4, *unk5));
}

fn write_item_throw2(s: &mut String, unk1: &String, unk2: &String, unk3: &Variable)
    ensures
        final(s)@ == old(s)@ + item_throw2_text(unk1@, unk2@, *unk3),
{
    s.append("<li>ItemThrow2 { unk1: ");
    s.append(unk1.as_str());
    s.append(", unk2: ");
    s.append(unk2.as_str());
    s.append(", unk3: ");
    write_variable(s, unk3);
    s.append("}</li>");
    assert(final(s)@ =~= old(s)@ + item_throw2_text(unk1@, unk2@, *unk3));
}

fn write_apply_throw(s: &mut String, unk0: &String, bone: &String, unk1: &Variable, unk2: &Variable, unk3: &Variable)
    ensures
        final(s)@ == old(s)@ + apply_throw_text(unk0@, bone@, *unk1, *unk2, *unk3),
{
    s.append("<li>ApplyThrow { unk0: ");
    s.append(unk0.as_str());
    s.append(", bone: ");
    s.append(bone.as_str());
    s.append(", unk1: ");
    write_variable(s, unk1);
    s.append(" unk2: ");
    write_variable(s, unk2);
    s.append(", unk3: ");
    write_variable(s, unk3);
    s.append(" }</li>");
    assert(final(s)@ =~= old(s)@ + apply_throw_text(unk0@, bone@, *unk1, *unk2, *unk3));
}

fn write_unknown_event(s: &mut String, namespace: u64, code: u64, unk1: u64, arguments: &String)
    ensures
        final(s)@ == old(s)@ + unknown_event_text(namespace, code, unk1, arguments@),
{
    s.append("<li>UnknownEvent { namespace: 0x");
    write_hex(s, namespace);
    s.append(", code: 0x");
    write_hex(s, code);
    s.append(", unk1: 0x");
    write_hex(s, unk1);
    s.append(", arguments: ");
    s.append(arguments.as_str());
    s.append(" }</li>");
    assert(final(s)@ =~= old(s)@ + unknown_event_text(namespace, code, unk1, arguments@));
}

/// Appends the list item of one event of a script of `fighter` in the mod named `mod_name`.
fn write_event(s: &mut String, mod_name: &str, fighter: &BrawlFighter, common: bool, e: &Event)
    ensures
        final(s)@ == old(s)@ + event_text(mod_name@, *fighter, common, *e),
    decreases e,
{
    let m = mod_name;
    match e {
        Event::Nop => {
            assert(final(s)@ =~= old(s)@ + event_text(mod_name@, *fighter, common, *e));
        },
        Event::ChangeAction { action, test, debug } => write_change_action(s, m, fighter, *action, test, debug),
        Event::ChangeActionStatus { status_id, action, requirement, flip, debug } => write_change_action_status(
            s,
            m,
            fighter,
            status_id,
            *action,
            requirement,
            *flip,
            debug,
        ),
        Event::ChangeSubaction { subaction, debug } => write_change_subaction(s, m, fighter, "ChangeSubaction", *subaction, debug),
        Event::ChangeSubactionRestartFrame { subaction, debug } => write_change_subaction(
            s,
            m,
            fighter,
            "ChangeSubactionRestartFrame",
            *subaction,
            debug,
        ),
        Event::ForLoop { iterations, block } => {
            s.append("<li>loop ");
            write_iterations(s, iterations);
            s.append(" times: ");
            write_events(s, mod_name, fighter, common, block);
            s.append("</li>");
            assert(final(s)@ =~= old(s)@ + event_text(mod_name@, *fighter, common, *e));
        },
        Event::IfStatement { test, then_branch, else_branch } => {
            s.append("<li>if (");
            write_expression(s, test);
            s.append(") ");
            write_events(s, mod_name, fighter, common, then_branch);
            s.append(" </li>");
            match else_branch {
                Some(b) => {
                    s.append("<li>else");
                    write_events(s, mod_name, fighter, common, b);
                    s.append("</li>");
                },
                None => {},
            }
            assert(final(s)@ =~= old(s)@ + event_text(mod_name@, *fighter, common, *e));
        },
        Event::Goto(o) => write_goto(s, fighter, common, o),
        Event::Subroutine(o) => write_subroutine(s, m, fighter, common, o),
        Event::CallEveryFrame { thread_id, offset, debug } => write_call_every_frame(s, m, fighter, common, thread_id, offset, debug),
        Event::VariableEvent { kind, variable, value } => write_variable_event(s, kind, variable, value),
        Event::ItemThrow { unk1, unk2, unk3, unk4, unk5 } => write_item_throw(s, unk1, unk2, unk3, unk4, unk5),
        Event::ItemThrow2 { unk1, unk2, unk3 } => write_item_throw2(s, unk1, unk2, unk3),
        Event::ApplyThrow { unk0, bone, unk1, unk2, unk3 } => write_apply_throw(s, unk0, bone, unk1, unk2, unk3),
        Event::Unknown { namespace, code, unk1, arguments } => write_unknown_event(s, *namespace, *code, *unk1, arguments),
        Event::Other(debug) => write_debug(s, debug),
    }
}

/// Appends the list of the events of a script of `fighter` in the mod named `mod_name`.
fn write_events(s: &mut String, mod_name: &str, fighter: &BrawlFighter, common: bool, events: &Vec<Event>)
    ensures
        final(s)@ == old(s)@ + events_list(mod_name@, *fighter, common, events@),
    decreases events,
{
    s.append("<ol>");
    let ghost start = s@;
    let mut i: usize = 0;
    while i < events.len()
        invariant
            i <= events.len(),
            s@ == start + events_text(mod_name@, *fighter, common, events@.subrange(0, i as int)),
        decreases events.len() - i,
    {
        proof {
            assert(decreases_to!(events => events@[i as int]));
        }
        write_event(s, mod_name, fighter, common, &events[i]);
        let ghost done = events@.subrange(0, i + 1);
        assert(done.subrange(0, done.len() - 1) =~= events@.subrange(0, i as int));
        assert(done[done.len() - 1] == events@[i as int]);
        i += 1;
    }
    assert(events@.subrange(0, events.len() as int) =~= events@);
    s.append("</ol>");
    assert(final(s)@ =~= old(s)@ + events_list(mod_name@, *fighter, common, events@));
}

/// The HTML of a script of `fighter` in `brawl_mod`: a list of its events, each with
/// links to the action, subaction or script it leads to. `common` says whether the script
/// belongs to the common fighter, whose scripts are looked up in the common lookup.
pub fn process_events(events: &Vec<Event>, common: bool, brawl_mod: &BrawlMod, fighter: &BrawlFighter) -> (html: String)
    ensures
        html@ == events_list(brawl_mod.name@, *fighter, common, events@),
{
    let mut html = String::new();
    write_events(&mut html, brawl_mod.name.as_str(), fighter, common, events);
    assert(html@ =~= events_list(brawl_mod.name@, *fighter, common, events@));
    html
}

/// An event that changes to an action of the fighter under a status shows its status id,
/// a link to the action's page and the requirement as given, or its negation `not(..)`
/// exactly when the event flips it.
pub proof fn lemma_action_status_requirement(
    m: Seq<char>,
    fighter: BrawlFighter,
    common: bool,
    status_id: String,
    action: usize,
    requirement: String,
    flip: bool,
    debug: String,
)
    requires
        action < fighter.fighter.actions.len(),
    ensures
        ({
            let name = fighter.fighter.actions@[action as int].name@;
            let address = "/"@ + m + "/"@ + fighter.fighter.name@ + "/"@ + "actions"@ + "/"@ + name + ".html"@;
            let shown = if flip {
                "not("@ + requirement@ + ")"@
            } else {
                requirement@
            };
            event_text(m, fighter, common, Event::ChangeActionStatus { status_id, action, requirement, flip, debug })
                == "<li>ChangeActionStatus { status_id: "@ + status_id@ + ", action: "@ + "<a href='"@ + address
                + "'>"@ + name + "</a>"@ + ", requirement: ("@ + shown + "), }</li>"@
        }),
{
    assert(action_names(&fighter.fighter)[action as int] == fighter.fighter.actions@[action as int].name@);
}

/// An event that changes to an action of the fighter shows a link to the action's page and
/// its requirement; one whose action the fighter does not have shows its debug text.
pub proof fn lemma_change_action_links(m: Seq<char>, fighter: BrawlFighter, common: bool, action: usize, test: Expression, debug: String)
    ensures
        ({
            let text = event_text(m, fighter, common, Event::ChangeAction { action, test, debug });
            if action < fighter.fighter.actions.len() {
                let name = fighter.fighter.actions@[action as int].name@;
                let address = "/"@ + m + "/"@ + fighter.fighter.name@ + "/"@ + "actions"@ + "/"@ + name + ".html"@;
                text == "<li>ChangeAction { action: "@ + "<a href='"@ + address + "'>"@ + name + "</a>"@
                    + ", requirement: ("@ + expression_text(test) + ") }</li>"@
            } else {
                text == "<li>"@ + debug@ + "</li>"@
            }
        }),
{
    if action < fighter.fighter.actions.len() {
        assert(action_names(&fighter.fighter)[action as int] == fighter.fighter.actions@[action as int].name@);
    }
}

/// An event that changes to a subaction of the fighter, restarting its frames or not,
/// shows the event's name and a link to the subaction's page; one whose subaction the
/// fighter does not have shows its debug text.
pub proof fn lemma_change_subaction_links(m: Seq<char>, fighter: BrawlFighter, common: bool, subaction: usize, debug: String)
    ensures
        ({
            let plain = event_text(m, fighter, common, Event::ChangeSubaction { subaction, debug });
            let restart = event_text(m, fighter, common, Event::ChangeSubactionRestartFrame { subaction, debug });
            if subaction < fighter.fighter.subactions.len() {
                let name = fighter.fighter.subactions@[subaction as int].name@;
                let address = "/"@ + m + "/"@ + fighter.fighter.name@ + "/"@ + "subactions"@ + "/"@ + name + ".html"@;
                let link = "<a href='"@ + address + "'>"@ + name + "</a>"@;
                &&& plain == "<li>"@ + "ChangeSubaction"@ + "("@ + link + ")</li>"@
                &&& restart == "<li>"@ + "ChangeSubactionRestartFrame"@ + "("@ + link + ")</li>"@
            } else {
                &&& plain == "<li>"@ + debug@ + "</li>"@
                &&& restart == "<li>"@ + debug@ + "</li>"@
            }
        }),
{
    if subaction < fighter.fighter.subactions.len() {
        assert(subaction_names(&fighter.fighter)[subaction as int] == fighter.fighter.subactions@[subaction as int].name@);
    }
}

/// A goto from a script of a fighter to one of its script fragments links to that
/// fragment's page, whatever the offset of the call.
pub proof fn lemma_goto_fragment_links(m: Seq<char>, bf: BrawlFighter, i: int, origin: i32)
    requires
        lookups_built(&bf, m),
        fragments_unique(m, &bf.fighter),
        0 <= i < bf.fighter.scripts_fragment_fighter.len(),
    ensures
        ({
            let o = bf.fighter.scripts_fragment_fighter@[i];
            goto_text(bf, false, ScriptOffset { offset: o, origin }) == "<li>Goto("@ + anchor(
                fighter_page(m, bf.fighter.name@, "scripts"@, fragment_name(o)),
                fragment_name(o),
            ) + ")</li>"@
        }),
{
    lemma_fragments_found(&bf, m);
    let o = bf.fighter.scripts_fragment_fighter@[i];
    assert(lookup_for(bf, false).contains_key(o));
}

} // verus!
