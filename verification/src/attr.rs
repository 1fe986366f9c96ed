//! The fixed catalog of per-particle attributes.
//!
//! Each attribute has a stable numeric tag (used by the document codec) and a
//! display label. The catalog is closed: the simulation runtime defines
//! exactly these fields.

use vstd::prelude::*;

verus! {

/// One per-particle field of the simulation runtime.
#[allow(non_camel_case_types)]
#[derive(Clone, Copy, Debug, PartialEq, Eq, Structural)]
pub enum AttrKind {
    Id,
    ParticleCounter,
    Position,
    Velocity,
    Age,
    Lifetime,
    Color,
    HdrColor,
    Alpha,
    Size,
    Size2,
    Size3,
    Prev,
    Next,
    AxisX,
    AxisY,
    AxisZ,
    SpriteIndex,
    F32_0,
    F32_1,
    F32_2,
    F32_3,
    F32X2_0,
    F32X2_1,
    F32X2_2,
    F32X2_3,
    F32X3_0,
    F32X3_1,
    F32X3_2,
    F32X3_3,
    F32X4_0,
    F32X4_1,
    F32X4_2,
    F32X4_3,
    U32_0,
    U32_1,
    U32_2,
    U32_3,
    RibbonId,
}

/// The display label of each attribute.
pub open spec fn spec_attr_label(a: AttrKind) -> Seq<char> {
    match a {
        AttrKind::Id => "ID"@,
        AttrKind::ParticleCounter => "Particle Counter"@,
        AttrKind::Position => "Position"@,
        AttrKind::Velocity => "Velocity"@,
        AttrKind::Age => "Age"@,
        AttrKind::Lifetime => "Lifetime"@,
        AttrKind::Color => "Color"@,
        AttrKind::HdrColor => "HDR Color"@,
        AttrKind::Alpha => "Alpha"@,
        AttrKind::Size => "Size"@,
        AttrKind::Size2 => "Size2"@,
        AttrKind::Size3 => "Size3"@,
        AttrKind::Prev => "Prev"@,
        AttrKind::Next => "Next"@,
        AttrKind::AxisX => "Axis X"@,
        AttrKind::AxisY => "Axis Y"@,
        AttrKind::AxisZ => "Axis Z"@,
        AttrKind::SpriteIndex => "Sprite Index"@,
        AttrKind::F32_0 => "F32_0"@,
        AttrKind::F32_1 => "F32_1"@,
        AttrKind::F32_2 => "F32_2"@,
        AttrKind::F32_3 => "F32_3"@,
        AttrKind::F32X2_0 => "F32X2_0"@,
        AttrKind::F32X2_1 => "F32X2_1"@,
        AttrKind::F32X2_2 => "F32X2_2"@,
        AttrKind::F32X2_3 => "F32X2_3"@,
        AttrKind::F32X3_0 => "F32X3_0"@,
        AttrKind::F32X3_1 => "F32X3_1"@,
        AttrKind::F32X3_2 => "F32X3_2"@,
        AttrKind::F32X3_3 => "F32X3_3"@,
        AttrKind::F32X4_0 => "F32X4_0"@,
        AttrKind::F32X4_1 => "F32X4_1"@,
        AttrKind::F32X4_2 => "F32X4_2"@,
        AttrKind::F32X4_3 => "F32X4_3"@,
        AttrKind::U32_0 => "U32_0"@,
        AttrKind::U32_1 => "U32_1"@,
        AttrKind::U32_2 => "U32_2"@,
        AttrKind::U32_3 => "U32_3"@,
        AttrKind::RibbonId => "Ribbon ID"@,
    }
}

/// Display label of an attribute, for the editing surface.
pub fn attr_to_label(attr: AttrKind) -> (r: &'static str)
    ensures
        r@ == spec_attr_label(attr),
{
    match attr {
        AttrKind::Id => "ID",
        AttrKind::ParticleCounter => "Particle Counter",
        AttrKind::Position => "Position",
        AttrKind::Velocity => "Velocity",
        AttrKind::Age => "Age",
        AttrKind::Lifetime => "Lifetime",
        AttrKind::Color => "Color",
        AttrKind::HdrColor => "HDR Color",
        AttrKind::Alpha => "Alpha",
        AttrKind::Size => "Size",
        AttrKind::Size2 => "Size2",
        AttrKind::Size3 => "Size3",
        AttrKind::Prev => "Prev",
        AttrKind::Next => "Next",
        AttrKind::AxisX => "Axis X",
        AttrKind::AxisY => "Axis Y",
        AttrKind::AxisZ => "Axis Z",
        AttrKind::SpriteIndex => "Sprite Index",
        AttrKind::F32_0 => "F32_0",
        AttrKind::F32_1 => "F32_1",
        AttrKind::F32_2 => "F32_2",
        AttrKind::F32_3 => "F32_3",
        AttrKind::F32X2_0 => "F32X2_0",
        AttrKind::F32X2_1 => "F32X2_1",
        AttrKind::F32X2_2 => "F32X2_2",
        AttrKind::F32X2_3 => "F32X2_3",
        AttrKind::F32X3_0 => "F32X3_0",
        AttrKind::F32X3_1 => "F32X3_1",
        AttrKind::F32X3_2 => "F32X3_2",
        AttrKind::F32X3_3 => "F32X3_3",
        AttrKind::F32X4_0 => "F32X4_0",
        AttrKind::F32X4_1 => "F32X4_1",
        AttrKind::F32X4_2 => "F32X4_2",
        AttrKind::F32X4_3 => "F32X4_3",
        AttrKind::U32_0 => "U32_0",
        AttrKind::U32_1 => "U32_1",
        AttrKind::U32_2 => "U32_2",
        AttrKind::U32_3 => "U32_3",
        AttrKind::RibbonId => "Ribbon ID",
    }
}

/// The stable numeric tag of each attribute, as written by the codec.
pub open spec fn spec_attr_tag(a: AttrKind) -> u64 {
    match a {
        AttrKind::Id => 0,
        AttrKind::ParticleCounter => 1,
        AttrKind::Position => 2,
        AttrKind::Velocity => 3,
        AttrKind::Age => 4,
        AttrKind::Lifetime => 5,
        AttrKind::Color => 6,
        AttrKind::HdrColor => 7,
        AttrKind::Alpha => 8,
        AttrKind::Size => 9,
        AttrKind::Size2 => 10,
        AttrKind::Size3 => 11,
        AttrKind::Prev => 12,
        AttrKind::Next => 13,
        AttrKind::AxisX => 14,
        AttrKind::AxisY => 15,
        AttrKind::AxisZ => 16,
        AttrKind::SpriteIndex => 17,
        AttrKind::F32_0 => 18,
        AttrKind::F32_1 => 19,
        AttrKind::F32_2 => 20,
        AttrKind::F32_3 => 21,
        AttrKind::F32X2_0 => 22,
        AttrKind::F32X2_1 => 23,
        AttrKind::F32X2_2 => 24,
        AttrKind::F32X2_3 => 25,
        AttrKind::F32X3_0 => 26,
        AttrKind::F32X3_1 => 27,
        AttrKind::F32X3_2 => 28,
        AttrKind::F32X3_3 => 29,
        AttrKind::F32X4_0 => 30,
        AttrKind::F32X4_1 => 31,
        AttrKind::F32X4_2 => 32,
        AttrKind::F32X4_3 => 33,
        AttrKind::U32_0 => 34,
        AttrKind::U32_1 => 35,
        AttrKind::U32_2 => 36,
        AttrKind::U32_3 => 37,
        AttrKind::RibbonId => 38,
    }
}

/// The attribute with a given tag, if the tag is in the catalog.
pub open spec fn spec_attr_from_tag(t: u64) -> Option<AttrKind> {
    if t == 0 {
        Some(AttrKind::Id)
    } else if t == 1 {
        Some(AttrKind::ParticleCounter)
    } else if t == 2 {
        Some(AttrKind::Position)
    } else if t == 3 {
        Some(AttrKind::Velocity)
    } else if t == 4 {
        Some(AttrKind::Age)
    } else if t == 5 {
        Some(AttrKind::Lifetime)
    } else if t == 6 {
        Some(AttrKind::Color)
    } else if t == 7 {
        Some(AttrKind::HdrColor)
    } else if t == 8 {
        Some(AttrKind::Alpha)
    } else if t == 9 {
        Some(AttrKind::Size)
    } else if t == 10 {
        Some(AttrKind::Size2)
    } else if t == 11 {
        Some(AttrKind::Size3)
    } else if t == 12 {
        Some(AttrKind::Prev)
    } else if t == 13 {
        Some(AttrKind::Next)
    } else if t == 14 {
        Some(AttrKind::AxisX)
    } else if t == 15 {
        Some(AttrKind::AxisY)
    } else if t == 16 {
        Some(AttrKind::AxisZ)
    } else if t == 17 {
        Some(AttrKind::SpriteIndex)
    } else if t == 18 {
        Some(AttrKind::F32_0)
    } else if t == 19 {
        Some(AttrKind::F32_1)
    } else if t == 20 {
        Some(AttrKind::F32_2)
    } else if t == 21 {
        Some(AttrKind::F32_3)
    } else if t == 22 {
        Some(AttrKind::F32X2_0)
    } else if t == 23 {
        Some(AttrKind::F32X2_1)
    } else if t == 24 {
        Some(AttrKind::F32X2_2)
    } else if t == 25 {
        Some(AttrKind::F32X2_3)
    } else if t == 26 {
        Some(AttrKind::F32X3_0)
    } else if t == 27 {
        Some(AttrKind::F32X3_1)
    } else if t == 28 {
        Some(AttrKind::F32X3_2)
    } else if t == 29 {
        Some(AttrKind::F32X3_3)
    } else if t == 30 {
        Some(AttrKind::F32X4_0)
    } else if t == 31 {
        Some(AttrKind::F32X4_1)
    } else if t == 32 {
        Some(AttrKind::F32X4_2)
    } else if t == 33 {
        Some(AttrKind::F32X4_3)
    } else if t == 34 {
        Some(AttrKind::U32_0)
    } else if t == 35 {
        Some(AttrKind::U32_1)
    } else if t == 36 {
        Some(AttrKind::U32_2)
    } else if t == 37 {
        Some(AttrKind::U32_3)
    } else if t == 38 {
        Some(AttrKind::RibbonId)
    } else {
        None
    }
}

/// Tagging then looking the tag up gives the attribute back: the tag is a
/// faithful stable identity for the catalog.
pub proof fn lemma_attr_tag_roundtrip(a: AttrKind)
    ensures
        spec_attr_from_tag(spec_attr_tag(a)) == Some(a),
{
}

/// Stable numeric tag of an attribute.
pub fn attr_tag(a: AttrKind) -> (r: u64)
    ensures
        r == spec_attr_tag(a),
{
    match a {
        AttrKind::Id => 0,
        AttrKind::ParticleCounter => 1,
        AttrKind::Position => 2,
        AttrKind::Velocity => 3,
        AttrKind::Age => 4,
        AttrKind::Lifetime => 5,
        AttrKind::Color => 6,
        AttrKind::HdrColor => 7,
        AttrKind::Alpha => 8,
        AttrKind::Size => 9,
        AttrKind::Size2 => 10,
        AttrKind::Size3 => 11,
        AttrKind::Prev => 12,
        AttrKind::Next => 13,
        AttrKind::AxisX => 14,
        AttrKind::AxisY => 15,
        AttrKind::AxisZ => 16,
        AttrKind::SpriteIndex => 17,
        AttrKind::F32_0 => 18,
        AttrKind::F32_1 => 19,
        AttrKind::F32_2 => 20,
        AttrKind::F32_3 => 21,
        AttrKind::F32X2_0 => 22,
        AttrKind::F32X2_1 => 23,
        AttrKind::F32X2_2 => 24,
        AttrKind::F32X2_3 => 25,
        AttrKind::F32X3_0 => 26,
        AttrKind::F32X3_1 => 27,
        AttrKind::F32X3_2 => 28,
        AttrKind::F32X3_3 => 29,
        AttrKind::F32X4_0 => 30,
        AttrKind::F32X4_1 => 31,
        AttrKind::F32X4_2 => 32,
        AttrKind::F32X4_3 => 33,
        AttrKind::U32_0 => 34,
        AttrKind::U32_1 => 35,
        AttrKind::U32_2 => 36,
        AttrKind::U32_3 => 37,
        AttrKind::RibbonId => 38,
    }
}

/// Attribute with the given stable tag, if any.
pub fn attr_from_tag(t: u64) -> (r: Option<AttrKind>)
    ensures
        r == spec_attr_from_tag(t),
{
    if t == 0 {
        Some(AttrKind::Id)
    } else if t == 1 {
        Some(AttrKind::ParticleCounter)
    } else if t == 2 {
        Some(AttrKind::Position)
    } else if t == 3 {
        Some(AttrKind::Velocity)
    } else if t == 4 {
        Some(AttrKind::Age)
    } else if t == 5 {
        Some(AttrKind::Lifetime)
    } else if t == 6 {
        Some(AttrKind::Color)
    } else if t == 7 {
        Some(AttrKind::HdrColor)
    } else if t == 8 {
        Some(AttrKind::Alpha)
    } else if t == 9 {
        Some(AttrKind::Size)
    } else if t == 10 {
        Some(AttrKind::Size2)
    } else if t == 11 {
        Some(AttrKind::Size3)
    } else if t == 12 {
        Some(AttrKind::Prev)
    } else if t == 13 {
        Some(AttrKind::Next)
    } else if t == 14 {
        Some(AttrKind::AxisX)
    } else if t == 15 {
        Some(AttrKind::AxisY)
    } else if t == 16 {
        Some(AttrKind::AxisZ)
    } else if t == 17 {
        Some(AttrKind::SpriteIndex)
    } else if t == 18 {
        Some(AttrKind::F32_0)
    } else if t == 19 {
        Some(AttrKind::F32_1)
    } else if t == 20 {
        Some(AttrKind::F32_2)
    } else if t == 21 {
        Some(AttrKind::F32_3)
    } else if t == 22 {
        Some(AttrKind::F32X2_0)
    } else if t == 23 {
        Some(AttrKind::F32X2_1)
    } else if t == 24 {
        Some(AttrKind::F32X2_2)
    } else if t == 25 {
        Some(AttrKind::F32X2_3)
    } else if t == 26 {
        Some(AttrKind::F32X3_0)
    } else if t == 27 {
        Some(AttrKind::F32X3_1)
    } else if t == 28 {
        Some(AttrKind::F32X3_2)
    } else if t == 29 {
        Some(AttrKind::F32X3_3)
    } else if t == 30 {
        Some(AttrKind::F32X4_0)
    } else if t == 31 {
        Some(AttrKind::F32X4_1)
    } else if t == 32 {
        Some(AttrKind::F32X4_2)
    } else if t == 33 {
        Some(AttrKind::F32X4_3)
    } else if t == 34 {
        Some(AttrKind::U32_0)
    } else if t == 35 {
        Some(AttrKind::U32_1)
    } else if t == 36 {
        Some(AttrKind::U32_2)
    } else if t == 37 {
        Some(AttrKind::U32_3)
    } else if t == 38 {
        Some(AttrKind::RibbonId)
    } else {
        None
    }
}

} // verus!
