//! The attributes page of a fighter: each attribute of the fighter with its value.

use vstd::prelude::*;
use crate::subaction_page::{Attribute, attribute_views};
use crate::text::string_views;

verus! {

/// The names of a fighter's attributes, in the order the page lists them.
pub open spec fn attribute_name_list() -> Seq<Seq<char>> {
    seq![
        "walk init vel"@,
        "walk acc"@,
        "walk max vel"@,
        "ground friction"@,
        "dash init vel"@,
        "dash run acc a"@,
        "dash run acc b"@,
        "dash run term vel"@,
        "grounded max x vel"@,
        "dash cancel frame window"@,
        "guard on max momentum"@,
        "jump squat frames"@,
        "jump x init vel"@,
        "jump y init vel"@,
        "jump x vel ground mult"@,
        "jump x init term vel"@,
        "jump y init vel short"@,
        "air jump x mult"@,
        "air jump y mult"@,
        "footstool init vel"@,
        "footstool init vel short"@,
        "meteor cancel delay"@,
        "num jumps"@,
        "gravity"@,
        "term vel"@,
        "air friction y"@,
        "air y term vel"@,
        "air mobility a"@,
        "air mobility b"@,
        "air x term vel"@,
        "air friction x"@,
        "fastfall velocity"@,
        "air x term vel hard"@,
        "glide frame window"@,
        "jab2 window"@,
        "jab3 window"@,
        "ftilt2 window"@,
        "ftilt3 window"@,
        "fsmash2 window"@,
        "flip dir frame"@,
        "weight"@,
        "size"@,
        "results screen size"@,
        "shield size"@,
        "shield break vel"@,
        "shield strength"@,
        "respawn platform size"@,
        "edge jump x vel"@,
        "edge jump y vel"@,
        "item throw strength"@,
        "projectile item move speed"@,
        "projectile item move speed dash f"@,
        "projectile item move speed dash b"@,
        "light landing lag"@,
        "normal landing lag"@,
        "nair landing lag"@,
        "fair landing lag"@,
        "bair landing lag"@,
        "uair landing lag"@,
        "dair landing lag"@,
        "term vel hard frames"@,
        "hip n bone"@,
        "tag height value"@,
        "walljump x vel"@,
        "walljump y vel"@,
        "lhand n bone"@,
        "rhand n bone"@,
        "water y acc"@,
        "spit star size"@,
        "spit star damage"@,
        "egg size"@,
        "hip n bone2"@,
        "x rot n bone"@
    ]
}

/// The names of a fighter's attributes, in the order the page lists them.
pub fn attribute_names() -> (names: Vec<&'static str>)
    ensures
        names@.map_values(|n: &str| n@) == attribute_name_list(),
{
    let names = vec![
        "walk init vel",
        "walk acc",
        "walk max vel",
        "ground friction",
        "dash init vel",
        "dash run acc a",
        "dash run acc b",
        "dash run term vel",
        "grounded max x vel",
        "dash cancel frame window",
        "guard on max momentum",
        "jump squat frames",
        "jump x init vel",
        "jump y init vel",
        "jump x vel ground mult",
        "jump x init term vel",
        "jump y init vel short",
        "air jump x mult",
        "air jump y mult",
        "footstool init vel",
        "footstool init vel short",
        "meteor cancel delay",
        "num jumps",
        "gravity",
        "term vel",
        "air friction y",
        "air y term vel",
        "air mobility a",
        "air mobility b",
        "air x term vel",
        "air friction x",
        "fastfall velocity",
        "air x term vel hard",
        "glide frame window",
        "jab2 window",
        "jab3 window",
        "ftilt2 window",
        "ftilt3 window",
        "fsmash2 window",
        "flip dir frame",
        "weight",
        "size",
        "results screen size",
        "shield size",
        "shield break vel",
        "shield strength",
        "respawn platform size",
        "edge jump x vel",
        "edge jump y vel",
        "item throw strength",
        "projectile item move speed",
        "projectile item move speed dash f",
        "projectile item move speed dash b",
        "light landing lag",
        "normal landing lag",
        "nair landing lag",
        "fair landing lag",
        "bair landing lag",
        "uair landing lag",
        "dair landing lag",
        "term vel hard frames",
        "hip n bone",
        "tag height value",
        "walljump x vel",
        "walljump y vel",
        "lhand n bone",
        "rhand n bone",
        "water y acc",
        "spit star size",
        "spit star damage",
        "egg size",
        "hip n bone2",
        "x rot n bone"
    ];
    assert(names@.map_values(|n: &str| n@) =~= attribute_name_list());
    names
}

/// The attributes of a fighter as the page lists them: each name with the text of the
/// fighter's value of that attribute, `values` giving the values in the order of the names.
pub fn attributes_to_strings(values: &Vec<String>) -> (attributes: Vec<Attribute>)
    requires
        values.len() == attribute_name_list().len(),
    ensures
        attribute_views(attributes@) == Seq::new(
            values.len() as nat,
            |i: int| (attribute_name_list()[i], string_views(values@)[i]),
        ),
{
    let names = attribute_names();
    let mut attributes: Vec<Attribute> = Vec::new();
    let mut i: usize = 0;
    while i < values.len()
        invariant
            i <= values.len() == names.len(),
            names@.map_values(|n: &str| n@) == attribute_name_list(),
            attribute_views(attributes@) =~= Seq::new(
                i as nat,
                |k: int| (attribute_name_list()[k], string_views(values@)[k]),
            ),
        decreases values.len() - i,
    {
        let a = Attribute { name: String::from_str(names[i]), value: values[i].clone() };
        assert(names@.map_values(|n: &str| n@)[i as int] == names@[i as int]@);
        let ghost before = attributes@;
        attributes.push(a);
        assert(attribute_views(attributes@) =~= attribute_views(before).push((a.name@, a.value@)));
        i += 1;
    }
    attributes
}

} // verus!
