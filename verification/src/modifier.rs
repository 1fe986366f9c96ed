//! Modifier descriptors and their translation into runtime instructions.
//!
//! A modifier descriptor is what the author edits: a tagged record holding
//! expression trees and enumerated options. Compiling one modifier lowers
//! every expression field into the effect's shared module — fields in
//! declaration order — and passes the enumerated options through unchanged,
//! yielding one concrete instruction. Render modifiers hold gradients, whose
//! keyframes are copied verbatim: authored order kept, no sorting, no
//! de-duplication, no range check.

use vstd::prelude::*;

use crate::attr::AttrKind;
use crate::expr::{spec_produce_expr, ExprHandle, ExprModule, ExprNode, ExprOp, ModuleEntry};
use crate::values::{FloatBits, Vec3Bits, Vec4Bits};

verus! {

/// Whether a shaped emitter fills its surface or its volume.
#[derive(Clone, Copy, Debug, PartialEq, Eq, Structural)]
pub enum ShapeDimension {
    Surface,
    Volume,
}

/// When an emit-spawn-event instruction fires.
#[derive(Clone, Copy, Debug, PartialEq, Eq, Structural)]
pub enum EventEmitCondition {
    Always,
    OnDie,
}

/// How a color-over-lifetime instruction combines with the particle color.
#[derive(Clone, Copy, Debug, PartialEq, Eq, Structural)]
pub enum ColorBlendMode {
    Modulate,
    Add,
    Overwrite,
}

/// Which color channels a color-over-lifetime instruction writes.
#[derive(Clone, Copy, Debug, PartialEq, Eq, Structural)]
pub enum ColorBlendMask {
    Rgb,
    Rgba,
}

/// One editable modifier of an effect's init or update phase.
#[derive(Debug, PartialEq, Eq)]
pub enum ModifierDescriptor {
    /// Set one attribute to a computed value.
    SetAttribute { attr: AttrKind, attr_expr: ExprNode },
    /// Copy one attribute from the parent particle.
    InheritAttribute { attr: AttrKind },
    /// Place particles on a circle.
    SetPositionCircle {
        center_expr: ExprNode,
        axis_expr: ExprNode,
        radius_expr: ExprNode,
        dimension: ShapeDimension,
    },
    /// Place particles on a sphere.
    SetPositionSphere { center_expr: ExprNode, radius_expr: ExprNode, dimension: ShapeDimension },
    /// Give particles a velocity radial in a circle's plane.
    SetVelocityCircle { center_expr: ExprNode, axis_expr: ExprNode, speed_expr: ExprNode },
    /// Give particles a velocity radial from a point.
    SetVelocitySphere { center_expr: ExprNode, speed_expr: ExprNode },
    /// Give particles a velocity tangent to a circle.
    SetVelocityTangent { origin_expr: ExprNode, axis_expr: ExprNode, speed_expr: ExprNode },
    /// Accelerate particles every step.
    Accel { accel_expr: ExprNode },
    /// Slow particles by a linear drag every step.
    LinearDrag { drag_expr: ExprNode },
    /// Emit a spawn event for a child effect.
    EmitSpawnEvent { condition: EventEmitCondition, count_expr: ExprNode, child_index: u32 },
    /// Attract particles towards a sphere's shell.
    ConformToSphere {
        origin_expr: ExprNode,
        radius_expr: ExprNode,
        influence_dist_expr: ExprNode,
        attraction_accel_expr: ExprNode,
        max_attraction_speed_expr: ExprNode,
    },
}

/// One compiled init or update instruction: the enumerated options of its
/// descriptor plus a module handle for every expression field.
#[derive(Clone, Copy, Debug, PartialEq, Eq, Structural)]
pub enum ModifierInstruction {
    SetAttribute { attr: AttrKind, value: ExprHandle },
    InheritAttribute { attr: AttrKind },
    SetPositionCircle {
        center: ExprHandle,
        axis: ExprHandle,
        radius: ExprHandle,
        dimension: ShapeDimension,
    },
    SetPositionSphere { center: ExprHandle, radius: ExprHandle, dimension: ShapeDimension },
    SetVelocityCircle { center: ExprHandle, axis: ExprHandle, speed: ExprHandle },
    SetVelocitySphere { center: ExprHandle, speed: ExprHandle },
    SetVelocityTangent { origin: ExprHandle, axis: ExprHandle, speed: ExprHandle },
    Accel { accel: ExprHandle },
    LinearDrag { drag: ExprHandle },
    EmitSpawnEvent { condition: EventEmitCondition, count: ExprHandle, child_index: u32 },
    ConformToSphere {
        origin: ExprHandle,
        radius: ExprHandle,
        influence_dist: ExprHandle,
        attraction_accel: ExprHandle,
        max_attraction_speed: ExprHandle,
    },
}

impl ModifierInstruction {
    /// Whether this instruction belongs to the init phase. Instructions of
    /// the other phase are dropped when an effect is assembled.
    pub open spec fn spec_is_init(self) -> bool {
        match self {
            ModifierInstruction::SetAttribute { .. } => true,
            ModifierInstruction::InheritAttribute { .. } => true,
            ModifierInstruction::SetPositionCircle { .. } => true,
            ModifierInstruction::SetPositionSphere { .. } => true,
            ModifierInstruction::SetVelocityCircle { .. } => true,
            ModifierInstruction::SetVelocitySphere { .. } => true,
            ModifierInstruction::SetVelocityTangent { .. } => true,
            ModifierInstruction::Accel { .. } => false,
            ModifierInstruction::LinearDrag { .. } => false,
            ModifierInstruction::EmitSpawnEvent { .. } => false,
            ModifierInstruction::ConformToSphere { .. } => false,
        }
    }

    /// Whether this instruction belongs to the update phase.
    pub open spec fn spec_is_update(self) -> bool {
        !self.spec_is_init()
    }

    /// Executable init-phase test.
    pub fn is_init(&self) -> (r: bool)
        ensures
            r == self.spec_is_init(),
    {
        match self {
            ModifierInstruction::SetAttribute { .. } => true,
            ModifierInstruction::InheritAttribute { .. } => true,
            ModifierInstruction::SetPositionCircle { .. } => true,
            ModifierInstruction::SetPositionSphere { .. } => true,
            ModifierInstruction::SetVelocityCircle { .. } => true,
            ModifierInstruction::SetVelocitySphere { .. } => true,
            ModifierInstruction::SetVelocityTangent { .. } => true,
            ModifierInstruction::Accel { .. } => false,
            ModifierInstruction::LinearDrag { .. } => false,
            ModifierInstruction::EmitSpawnEvent { .. } => false,
            ModifierInstruction::ConformToSphere { .. } => false,
        }
    }

    /// Executable update-phase test.
    pub fn is_update(&self) -> (r: bool)
        ensures
            r == self.spec_is_update(),
    {
        !self.is_init()
    }
}

/// The module and instruction produced by compiling one modifier against a
/// module already holding `m`: expression fields lower in declaration order.
pub open spec fn spec_produce_modifier(d: ModifierDescriptor, m: Seq<ModuleEntry>) -> (
    Seq<ModuleEntry>,
    ModifierInstruction,
) {
    match d {
        ModifierDescriptor::SetAttribute { attr, attr_expr } => {
            let (m1, h1) = spec_produce_expr(attr_expr, m);
            (m1, ModifierInstruction::SetAttribute { attr, value: h1 })
        },
        ModifierDescriptor::InheritAttribute { attr } => (
            m,
            ModifierInstruction::InheritAttribute { attr },
        ),
        ModifierDescriptor::SetPositionCircle { center_expr, axis_expr, radius_expr, dimension } => {
            let (m1, h1) = spec_produce_expr(center_expr, m);
            let (m2, h2) = spec_produce_expr(axis_expr, m1);
            let (m3, h3) = spec_produce_expr(radius_expr, m2);
            (
                m3,
                ModifierInstruction::SetPositionCircle {
                    center: h1,
                    axis: h2,
                    radius: h3,
                    dimension,
                },
            )
        },
        ModifierDescriptor::SetPositionSphere { center_expr, radius_expr, dimension } => {
            let (m1, h1) = spec_produce_expr(center_expr, m);
            let (m2, h2) = spec_produce_expr(radius_expr, m1);
            (m2, ModifierInstruction::SetPositionSphere { center: h1, radius: h2, dimension })
        },
        ModifierDescriptor::SetVelocityCircle { center_expr, axis_expr, speed_expr } => {
            let (m1, h1) = spec_produce_expr(center_expr, m);
            let (m2, h2) = spec_produce_expr(axis_expr, m1);
            let (m3, h3) = spec_produce_expr(speed_expr, m2);
            (m3, ModifierInstruction::SetVelocityCircle { center: h1, axis: h2, speed: h3 })
        },
        ModifierDescriptor::SetVelocitySphere { center_expr, speed_expr } => {
            let (m1, h1) = spec_produce_expr(center_expr, m);
            let (m2, h2) = spec_produce_expr(speed_expr, m1);
            (m2, ModifierInstruction::SetVelocitySphere { center: h1, speed: h2 })
        },
        ModifierDescriptor::SetVelocityTangent { origin_expr, axis_expr, speed_expr } => {
            let (m1, h1) = spec_produce_expr(origin_expr, m);
            let (m2, h2) = spec_produce_expr(axis_expr, m1);
            let (m3, h3) = spec_produce_expr(speed_expr, m2);
            (m3, ModifierInstruction::SetVelocityTangent { origin: h1, axis: h2, speed: h3 })
        },
        ModifierDescriptor::Accel { accel_expr } => {
            let (m1, h1) = spec_produce_expr(accel_expr, m);
            (m1, ModifierInstruction::Accel { accel: h1 })
        },
        ModifierDescriptor::LinearDrag { drag_expr } => {
            let (m1, h1) = spec_produce_expr(drag_expr, m);
            (m1, ModifierInstruction::LinearDrag { drag: h1 })
        },
        ModifierDescriptor::EmitSpawnEvent { condition, count_expr, child_index } => {
            let (m1, h1) = spec_produce_expr(count_expr, m);
            (m1, ModifierInstruction::EmitSpawnEvent { condition, count: h1, child_index })
        },
        ModifierDescriptor::ConformToSphere {
            origin_expr,
            radius_expr,
            influence_dist_expr,
            attraction_accel_expr,
            max_attraction_speed_expr,
        } => {
            let (m1, h1) = spec_produce_expr(origin_expr, m);
            let (m2, h2) = spec_produce_expr(radius_expr, m1);
            let (m3, h3) = spec_produce_expr(influence_dist_expr, m2);
            let (m4, h4) = spec_produce_expr(attraction_accel_expr, m3);
            let (m5, h5) = spec_produce_expr(max_attraction_speed_expr, m4);
            (
                m5,
                ModifierInstruction::ConformToSphere {
                    origin: h1,
                    radius: h2,
                    influence_dist: h3,
                    attraction_accel: h4,
                    max_attraction_speed: h5,
                },
            )
        },
    }
}

impl ModifierDescriptor {
    /// Compile this modifier: lower every expression field into the shared
    /// module, in declaration order, and hand back the concrete instruction.
    pub fn produce(&self, module: &mut ExprModule) -> (r: ModifierInstruction)
        ensures
            (final(module)@, r) == spec_produce_modifier(*self, old(module)@),
    {
        match self {
            ModifierDescriptor::SetAttribute { attr, attr_expr } => {
                let h1 = attr_expr.produce(module);
                ModifierInstruction::SetAttribute { attr: *attr, value: h1 }
            },
            ModifierDescriptor::InheritAttribute { attr } => {
                ModifierInstruction::InheritAttribute { attr: *attr }
            },
            ModifierDescriptor::SetPositionCircle {
                center_expr,
                axis_expr,
                radius_expr,
                dimension,
            } => {
                let h1 = center_expr.produce(module);
                let h2 = axis_expr.produce(module);
                let h3 = radius_expr.produce(module);
                ModifierInstruction::SetPositionCircle {
                    center: h1,
                    axis: h2,
                    radius: h3,
                    dimension: *dimension,
                }
            },
            ModifierDescriptor::SetPositionSphere { center_expr, radius_expr, dimension } => {
                let h1 = center_expr.produce(module);
                let h2 = radius_expr.produce(module);
                ModifierInstruction::SetPositionSphere {
                    center: h1,
                    radius: h2,
                    dimension: *dimension,
                }
            },
            ModifierDescriptor::SetVelocityCircle { center_expr, axis_expr, speed_expr } => {
                let h1 = center_expr.produce(module);
                let h2 = axis_expr.produce(module);
                let h3 = speed_expr.produce(module);
                ModifierInstruction::SetVelocityCircle { center: h1, axis: h2, speed: h3 }
            },
            ModifierDescriptor::SetVelocitySphere { center_expr, speed_expr } => {
                let h1 = center_expr.produce(module);
                let h2 = speed_expr.produce(module);
                ModifierInstruction::SetVelocitySphere { center: h1, speed: h2 }
            },
            ModifierDescriptor::SetVelocityTangent { origin_expr, axis_expr, speed_expr } => {
                let h1 = origin_expr.produce(module);
                let h2 = axis_expr.produce(module);
                let h3 = speed_expr.produce(module);
                ModifierInstruction::SetVelocityTangent { origin: h1, axis: h2, speed: h3 }
            },
            ModifierDescriptor::Accel { accel_expr } => {
                let h1 = accel_expr.produce(module);
                ModifierInstruction::Accel { accel: h1 }
            },
            ModifierDescriptor::LinearDrag { drag_expr } => {
                let h1 = drag_expr.produce(module);
                ModifierInstruction::LinearDrag { drag: h1 }
            },
            ModifierDescriptor::EmitSpawnEvent { condition, count_expr, child_index } => {
                let h1 = count_expr.produce(module);
                ModifierInstruction::EmitSpawnEvent {
                    condition: *condition,
                    count: h1,
                    child_index: *child_index,
                }
            },
            ModifierDescriptor::ConformToSphere {
                origin_expr,
                radius_expr,
                influence_dist_expr,
                attraction_accel_expr,
                max_attraction_speed_expr,
            } => {
                let h1 = origin_expr.produce(module);
                let h2 = radius_expr.produce(module);
                let h3 = influence_dist_expr.produce(module);
                let h4 = attraction_accel_expr.produce(module);
                let h5 = max_attraction_speed_expr.produce(module);
                ModifierInstruction::ConformToSphere {
                    origin: h1,
                    radius: h2,
                    influence_dist: h3,
                    attraction_accel: h4,
                    max_attraction_speed: h5,
                }
            },
        }
    }
}

/// One keyframe of a three-component gradient.
#[derive(Clone, Copy, Debug, PartialEq, Eq, Structural)]
pub struct GradientKeyVec3 {
    /// Keyframe time, as authored; nothing requires it to lie in [0, 1] or
    /// to be ordered against its neighbours.
    pub t: FloatBits,
    pub v: Vec3Bits,
}

/// One keyframe of a four-component gradient.
#[derive(Clone, Copy, Debug, PartialEq, Eq, Structural)]
pub struct GradientKeyVec4 {
    /// Keyframe time, as authored.
    pub t: FloatBits,
    pub v: Vec4Bits,
}

/// An ordered list of three-component keyframes, exactly as authored.
#[derive(Debug, PartialEq, Eq)]
pub struct GradientVec3 {
    pub keys: Vec<GradientKeyVec3>,
}

impl View for GradientVec3 {
    type V = Seq<GradientKeyVec3>;

    open spec fn view(&self) -> Seq<GradientKeyVec3> {
        self.keys@
    }
}

impl GradientVec3 {
    /// Copy the keyframes verbatim: same keys, same order.
    pub fn duplicate(&self) -> (r: GradientVec3)
        ensures
            r@ == self@,
    {
        let mut keys: Vec<GradientKeyVec3> = Vec::new();
        let n = self.keys.len();
        for i in 0..n
            invariant
                n == self.keys.len(),
                keys@ == self.keys@.take(i as int),
        {
            keys.push(self.keys[i]);
            proof {
                assert(self.keys@.take(i + 1 as int) =~= self.keys@.take(i as int).push(
                    self.keys@[i as int],
                ));
            }
        }
        proof {
            assert(self.keys@.take(n as int) =~= self.keys@);
        }
        GradientVec3 { keys }
    }
}

/// An ordered list of four-component keyframes, exactly as authored.
#[derive(Debug, PartialEq, Eq)]
pub struct GradientVec4 {
    pub keys: Vec<GradientKeyVec4>,
}

impl View for GradientVec4 {
    type V = Seq<GradientKeyVec4>;

    open spec fn view(&self) -> Seq<GradientKeyVec4> {
        self.keys@
    }
}

impl GradientVec4 {
    /// Copy the keyframes verbatim: same keys, same order.
    pub fn duplicate(&self) -> (r: GradientVec4)
        ensures
            r@ == self@,
    {
        let mut keys: Vec<GradientKeyVec4> = Vec::new();
        let n = self.keys.len();
        for i in 0..n
            invariant
                n == self.keys.len(),
                keys@ == self.keys@.take(i as int),
        {
            keys.push(self.keys[i]);
            proof {
                assert(self.keys@.take(i + 1 as int) =~= self.keys@.take(i as int).push(
                    self.keys@[i as int],
                ));
            }
        }
        proof {
            assert(self.keys@.take(n as int) =~= self.keys@);
        }
        GradientVec4 { keys }
    }
}

/// One editable render modifier.
#[derive(Debug, PartialEq, Eq)]
pub enum RenderModifierDescriptor {
    /// Scale particles over their lifetime by a gradient.
    SizeOverLifetime { gradient: GradientVec3 },
    /// Color particles over their lifetime by a gradient; an absent blend
    /// mode or mask falls back to the assembler's defaults.
    ColorOverLifetime {
        gradient: GradientVec4,
        blend: Option<ColorBlendMode>,
        mask: Option<ColorBlendMask>,
    },
}

/// The mathematical value of a render modifier: its gradient as a sequence.
pub ghost enum RenderModView {
    SizeOverLifetime { gradient: Seq<GradientKeyVec3> },
    ColorOverLifetime {
        gradient: Seq<GradientKeyVec4>,
        blend: Option<ColorBlendMode>,
        mask: Option<ColorBlendMask>,
    },
}

impl View for RenderModifierDescriptor {
    type V = RenderModView;

    open spec fn view(&self) -> RenderModView {
        match self {
            RenderModifierDescriptor::SizeOverLifetime { gradient } => {
                RenderModView::SizeOverLifetime { gradient: gradient@ }
            },
            RenderModifierDescriptor::ColorOverLifetime { gradient, blend, mask } => {
                RenderModView::ColorOverLifetime { gradient: gradient@, blend: *blend, mask: *mask }
            },
        }
    }
}

/// The blend mode a color-over-lifetime instruction falls back to when the
/// descriptor leaves it unset.
pub open spec fn default_color_blend_mode() -> ColorBlendMode {
    ColorBlendMode::Modulate
}

/// The channel mask a color-over-lifetime instruction falls back to when the
/// descriptor leaves it unset.
pub open spec fn default_color_blend_mask() -> ColorBlendMask {
    ColorBlendMask::Rgba
}

/// One compiled render instruction.
#[derive(Debug, PartialEq, Eq)]
pub enum RenderInstruction {
    /// Scale particles by the gradient; sized in world space.
    SizeOverLifetime { gradient: GradientVec3, screen_space_size: bool },
    /// Color particles by the gradient.
    ColorOverLifetime { gradient: GradientVec4, blend: ColorBlendMode, mask: ColorBlendMask },
    /// Sample the effect's texture, modulating opacity from one color
    /// channel; bound to the descriptor's texture table index.
    TextureSample { texture_index: usize },
    /// Orient each particle along its velocity.
    OrientAlongVelocity,
}

/// The mathematical value of a render instruction.
pub ghost enum RenderInstrView {
    SizeOverLifetime { gradient: Seq<GradientKeyVec3>, screen_space_size: bool },
    ColorOverLifetime {
        gradient: Seq<GradientKeyVec4>,
        blend: ColorBlendMode,
        mask: ColorBlendMask,
    },
    TextureSample { texture_index: usize },
    OrientAlongVelocity,
}

impl View for RenderInstruction {
    type V = RenderInstrView;

    open spec fn view(&self) -> RenderInstrView {
        match self {
            RenderInstruction::SizeOverLifetime { gradient, screen_space_size } => {
                RenderInstrView::SizeOverLifetime {
                    gradient: gradient@,
                    screen_space_size: *screen_space_size,
                }
            },
            RenderInstruction::ColorOverLifetime { gradient, blend, mask } => {
                RenderInstrView::ColorOverLifetime { gradient: gradient@, blend: *blend, mask: *mask }
            },
            RenderInstruction::TextureSample { texture_index } => {
                RenderInstrView::TextureSample { texture_index: *texture_index }
            },
            RenderInstruction::OrientAlongVelocity => RenderInstrView::OrientAlongVelocity,
        }
    }
}

/// The instruction produced by compiling one render modifier: the gradient's
/// keyframes are copied verbatim — same keys, same order, no sorting, no
/// de-duplication — and absent options fall back to the defaults.
pub open spec fn spec_produce_render(d: RenderModView) -> RenderInstrView {
    match d {
        RenderModView::SizeOverLifetime { gradient } => {
            RenderInstrView::SizeOverLifetime { gradient, screen_space_size: false }
        },
        RenderModView::ColorOverLifetime { gradient, blend, mask } => {
            RenderInstrView::ColorOverLifetime {
                gradient,
                blend: match blend {
                    Some(b) => b,
                    None => default_color_blend_mode(),
                },
                mask: match mask {
                    Some(k) => k,
                    None => default_color_blend_mask(),
                },
            }
        },
    }
}

impl RenderModifierDescriptor {
    /// Compile this render modifier. The authored gradient reappears in the
    /// instruction keyframe for keyframe.
    pub fn produce(&self) -> (r: RenderInstruction)
        ensures
            r@ == spec_produce_render(self@),
    {
        match self {
            RenderModifierDescriptor::SizeOverLifetime { gradient } => {
                RenderInstruction::SizeOverLifetime {
                    gradient: gradient.duplicate(),
                    screen_space_size: false,
                }
            },
            RenderModifierDescriptor::ColorOverLifetime { gradient, blend, mask } => {
                RenderInstruction::ColorOverLifetime {
                    gradient: gradient.duplicate(),
                    blend: match blend {
                        Some(b) => *b,
                        None => ColorBlendMode::Modulate,
                    },
                    mask: match mask {
                        Some(k) => *k,
                        None => ColorBlendMask::Rgba,
                    },
                }
            },
        }
    }
}

impl ModifierDescriptor {
    /// The template for a fresh set-attribute modifier.
    pub fn default_set_attribute() -> (r: ModifierDescriptor)
        ensures
            r == (ModifierDescriptor::SetAttribute {
                attr: AttrKind::Id,
                attr_expr: ExprNode::Float(FloatBits { bits: 0 }),
            }),
    {
        ModifierDescriptor::SetAttribute {
            attr: AttrKind::Id,
            attr_expr: ExprNode::Float(FloatBits { bits: 0 }),
        }
    }

    /// The template for a fresh inherit-attribute modifier.
    pub fn default_inherit_attribute() -> (r: ModifierDescriptor)
        ensures
            r == (ModifierDescriptor::InheritAttribute { attr: AttrKind::Id }),
    {
        ModifierDescriptor::InheritAttribute { attr: AttrKind::Id }
    }

    /// The template for a fresh set-position-circle modifier: on the
    /// surface of a fifth-unit circle around the origin, facing up.
    pub fn default_set_position_circle() -> (r: ModifierDescriptor)
        ensures
            r == (ModifierDescriptor::SetPositionCircle {
                center_expr: ExprNode::Vec3(vec3_zero()),
                axis_expr: ExprNode::Vec3(vec3_unit_y()),
                radius_expr: ExprNode::Float(FloatBits { bits: 0x3E4CCCCD }),
                dimension: ShapeDimension::Surface,
            }),
    {
        ModifierDescriptor::SetPositionCircle {
            center_expr: ExprNode::Vec3(vec3_zero_exec()),
            axis_expr: ExprNode::Vec3(vec3_unit_y_exec()),
            radius_expr: ExprNode::Float(FloatBits { bits: 0x3E4CCCCD }),
            dimension: ShapeDimension::Surface,
        }
    }

    /// The template for a fresh set-position-sphere modifier.
    pub fn default_set_position_sphere() -> (r: ModifierDescriptor)
        ensures
            r == (ModifierDescriptor::SetPositionSphere {
                center_expr: ExprNode::Vec3(vec3_zero()),
                radius_expr: ExprNode::Float(FloatBits { bits: 0x3E4CCCCD }),
                dimension: ShapeDimension::Surface,
            }),
    {
        ModifierDescriptor::SetPositionSphere {
            center_expr: ExprNode::Vec3(vec3_zero_exec()),
            radius_expr: ExprNode::Float(FloatBits { bits: 0x3E4CCCCD }),
            dimension: ShapeDimension::Surface,
        }
    }

    /// The template for a fresh set-velocity-circle modifier: half a unit
    /// per second outward in the ground plane.
    pub fn default_set_velocity_circle() -> (r: ModifierDescriptor)
        ensures
            r == (ModifierDescriptor::SetVelocityCircle {
                center_expr: ExprNode::Vec3(vec3_zero()),
                axis_expr: ExprNode::Vec3(vec3_unit_y()),
                speed_expr: ExprNode::Float(FloatBits { bits: 0x3F000000 }),
            }),
    {
        ModifierDescriptor::SetVelocityCircle {
            center_expr: ExprNode::Vec3(vec3_zero_exec()),
            axis_expr: ExprNode::Vec3(vec3_unit_y_exec()),
            speed_expr: ExprNode::Float(FloatBits { bits: 0x3F000000 }),
        }
    }

    /// The template for a fresh set-velocity-sphere modifier.
    pub fn default_set_velocity_sphere() -> (r: ModifierDescriptor)
        ensures
            r == (ModifierDescriptor::SetVelocitySphere {
                center_expr: ExprNode::Vec3(vec3_zero()),
                speed_expr: ExprNode::Float(FloatBits { bits: 0x3F000000 }),
            }),
    {
        ModifierDescriptor::SetVelocitySphere {
            center_expr: ExprNode::Vec3(vec3_zero_exec()),
            speed_expr: ExprNode::Float(FloatBits { bits: 0x3F000000 }),
        }
    }

    /// The template for a fresh set-velocity-tangent modifier: a speed
    /// drawn uniformly between a fifth and one unit per second.
    pub fn default_set_velocity_tangent() -> (r: ModifierDescriptor)
        ensures
            r == (ModifierDescriptor::SetVelocityTangent {
                origin_expr: ExprNode::Vec3(vec3_zero()),
                axis_expr: ExprNode::Vec3(vec3_unit_y()),
                speed_expr: ExprNode::Operator(Box::new(ExprOp::Uniform(
                    ExprNode::Float(FloatBits { bits: 0x3E4CCCCD }),
                    ExprNode::Float(FloatBits { bits: 0x3F800000 }),
                ))),
            }),
    {
        ModifierDescriptor::SetVelocityTangent {
            origin_expr: ExprNode::Vec3(vec3_zero_exec()),
            axis_expr: ExprNode::Vec3(vec3_unit_y_exec()),
            speed_expr: ExprNode::Operator(Box::new(ExprOp::Uniform(
                ExprNode::Float(FloatBits { bits: 0x3E4CCCCD }),
                ExprNode::Float(FloatBits { bits: 0x3F800000 }),
            ))),
        }
    }

    /// The template for a fresh acceleration modifier: a random pull in the
    /// unit cube around the origin.
    pub fn default_accel() -> (r: ModifierDescriptor)
        ensures
            r == (ModifierDescriptor::Accel {
                accel_expr: ExprNode::Operator(Box::new(ExprOp::Subtract(
                    ExprNode::Operator(Box::new(ExprOp::Multiply(
                        ExprNode::RandVec3,
                        ExprNode::Vec3(vec3_splat_two()),
                    ))),
                    ExprNode::Vec3(vec3_one()),
                ))),
            }),
    {
        ModifierDescriptor::Accel {
            accel_expr: ExprNode::Operator(Box::new(ExprOp::Subtract(
                ExprNode::Operator(Box::new(ExprOp::Multiply(
                    ExprNode::RandVec3,
                    ExprNode::Vec3(vec3_splat_two_exec()),
                ))),
                ExprNode::Vec3(vec3_one_exec()),
            ))),
        }
    }

    /// The template for a fresh linear-drag modifier: its drag still unset.
    pub fn default_linear_drag() -> (r: ModifierDescriptor)
        ensures
            r == (ModifierDescriptor::LinearDrag { drag_expr: ExprNode::Placeholder }),
    {
        ModifierDescriptor::LinearDrag { drag_expr: ExprNode::Placeholder }
    }

    /// The template for a fresh emit-spawn-event modifier.
    pub fn default_emit_spawn_event() -> (r: ModifierDescriptor)
        ensures
            r == (ModifierDescriptor::EmitSpawnEvent {
                condition: EventEmitCondition::OnDie,
                count_expr: ExprNode::U32(0),
                child_index: 0,
            }),
    {
        ModifierDescriptor::EmitSpawnEvent {
            condition: EventEmitCondition::OnDie,
            count_expr: ExprNode::U32(0),
            child_index: 0,
        }
    }

    /// The template for a fresh conform-to-sphere modifier.
    pub fn default_conform_to_sphere() -> (r: ModifierDescriptor)
        ensures
            r == (ModifierDescriptor::ConformToSphere {
                origin_expr: ExprNode::Vec3(vec3_zero()),
                radius_expr: ExprNode::Float(FloatBits { bits: 0x3F800000 }),
                influence_dist_expr: ExprNode::Float(FloatBits { bits: 0x41200000 }),
                attraction_accel_expr: ExprNode::Float(FloatBits { bits: 0x40000000 }),
                max_attraction_speed_expr: ExprNode::Float(FloatBits { bits: 0x40000000 }),
            }),
    {
        ModifierDescriptor::ConformToSphere {
            origin_expr: ExprNode::Vec3(vec3_zero_exec()),
            radius_expr: ExprNode::Float(FloatBits { bits: 0x3F800000 }),
            influence_dist_expr: ExprNode::Float(FloatBits { bits: 0x41200000 }),
            attraction_accel_expr: ExprNode::Float(FloatBits { bits: 0x40000000 }),
            max_attraction_speed_expr: ExprNode::Float(FloatBits { bits: 0x40000000 }),
        }
    }
}

/// The bit patterns of the all-zero vector.
pub open spec fn vec3_zero() -> Vec3Bits {
    Vec3Bits {
        x: FloatBits { bits: 0 },
        y: FloatBits { bits: 0 },
        z: FloatBits { bits: 0 },
    }
}

fn vec3_zero_exec() -> (r: Vec3Bits)
    ensures
        r == vec3_zero(),
{
    Vec3Bits { x: FloatBits { bits: 0 }, y: FloatBits { bits: 0 }, z: FloatBits { bits: 0 } }
}

/// The bit patterns of the upward unit vector.
pub open spec fn vec3_unit_y() -> Vec3Bits {
    Vec3Bits {
        x: FloatBits { bits: 0 },
        y: FloatBits { bits: 0x3F800000 },
        z: FloatBits { bits: 0 },
    }
}

fn vec3_unit_y_exec() -> (r: Vec3Bits)
    ensures
        r == vec3_unit_y(),
{
    Vec3Bits {
        x: FloatBits { bits: 0 },
        y: FloatBits { bits: 0x3F800000 },
        z: FloatBits { bits: 0 },
    }
}

/// The bit patterns of the all-one vector.
pub open spec fn vec3_one() -> Vec3Bits {
    Vec3Bits {
        x: FloatBits { bits: 0x3F800000 },
        y: FloatBits { bits: 0x3F800000 },
        z: FloatBits { bits: 0x3F800000 },
    }
}

fn vec3_one_exec() -> (r: Vec3Bits)
    ensures
        r == vec3_one(),
{
    Vec3Bits {
        x: FloatBits { bits: 0x3F800000 },
        y: FloatBits { bits: 0x3F800000 },
        z: FloatBits { bits: 0x3F800000 },
    }
}

/// The bit patterns of the all-two vector.
pub open spec fn vec3_splat_two() -> Vec3Bits {
    Vec3Bits {
        x: FloatBits { bits: 0x40000000 },
        y: FloatBits { bits: 0x40000000 },
        z: FloatBits { bits: 0x40000000 },
    }
}

fn vec3_splat_two_exec() -> (r: Vec3Bits)
    ensures
        r == vec3_splat_two(),
{
    Vec3Bits {
        x: FloatBits { bits: 0x40000000 },
        y: FloatBits { bits: 0x40000000 },
        z: FloatBits { bits: 0x40000000 },
    }
}

impl RenderModifierDescriptor {
    /// The template for a fresh size-over-lifetime modifier: growth from a
    /// tenth to full size over the particle's life.
    pub fn default_size_over_lifetime() -> (r: RenderModifierDescriptor)
        ensures
            r@ == (RenderModView::SizeOverLifetime {
                gradient: seq![
                    GradientKeyVec3 {
                        t: FloatBits { bits: 0x3E99999A },
                        v: Vec3Bits {
                            x: FloatBits { bits: 0x3DCCCCCD },
                            y: FloatBits { bits: 0x3DCCCCCD },
                            z: FloatBits { bits: 0x3DCCCCCD },
                        },
                    },
                    GradientKeyVec3 {
                        t: FloatBits { bits: 0x3F800000 },
                        v: Vec3Bits {
                            x: FloatBits { bits: 0x3F800000 },
                            y: FloatBits { bits: 0x3F800000 },
                            z: FloatBits { bits: 0x3F800000 },
                        },
                    },
                ],
            }),
    {
        let mut keys: Vec<GradientKeyVec3> = Vec::new();
        keys.push(GradientKeyVec3 {
            t: FloatBits { bits: 0x3E99999A },
            v: Vec3Bits {
                x: FloatBits { bits: 0x3DCCCCCD },
                y: FloatBits { bits: 0x3DCCCCCD },
                z: FloatBits { bits: 0x3DCCCCCD },
            },
        });
        keys.push(GradientKeyVec3 {
            t: FloatBits { bits: 0x3F800000 },
            v: Vec3Bits {
                x: FloatBits { bits: 0x3F800000 },
                y: FloatBits { bits: 0x3F800000 },
                z: FloatBits { bits: 0x3F800000 },
            },
        });
        proof {
            assert(keys@ =~= seq![
                GradientKeyVec3 {
                    t: FloatBits { bits: 0x3E99999A },
                    v: Vec3Bits {
                        x: FloatBits { bits: 0x3DCCCCCD },
                        y: FloatBits { bits: 0x3DCCCCCD },
                        z: FloatBits { bits: 0x3DCCCCCD },
                    },
                },
                GradientKeyVec3 {
                    t: FloatBits { bits: 0x3F800000 },
                    v: Vec3Bits {
                        x: FloatBits { bits: 0x3F800000 },
                        y: FloatBits { bits: 0x3F800000 },
                        z: FloatBits { bits: 0x3F800000 },
                    },
                },
            ]);
        }
        RenderModifierDescriptor::SizeOverLifetime { gradient: GradientVec3 { keys } }
    }

    /// The template for a fresh color-over-lifetime modifier: a bright
    /// cyan-to-red flame ramp that fades out.
    pub fn default_color_over_lifetime() -> (r: RenderModifierDescriptor)
        ensures
            r@ matches RenderModView::ColorOverLifetime { gradient, blend, mask } ==> {
                &&& gradient.len() == 5
                &&& blend == Some(ColorBlendMode::Modulate)
                &&& mask == Some(ColorBlendMask::Rgba)
            },
            r@ is ColorOverLifetime,
    {
        let mut keys: Vec<GradientKeyVec4> = Vec::new();
        keys.push(key4(0x00000000, 0x00000000, 0x40800000, 0x40800000, 0x00000000));
        keys.push(key4(0x3DCCCCCD, 0x00000000, 0x40800000, 0x40800000, 0x3F800000));
        keys.push(key4(0x3E99999A, 0x40800000, 0x40800000, 0x00000000, 0x3F800000));
        keys.push(key4(0x3F19999A, 0x40800000, 0x00000000, 0x00000000, 0x00000000));
        keys.push(key4(0x3F800000, 0x40800000, 0x00000000, 0x00000000, 0x00000000));
        RenderModifierDescriptor::ColorOverLifetime {
            gradient: GradientVec4 { keys },
            blend: Some(ColorBlendMode::Modulate),
            mask: Some(ColorBlendMask::Rgba),
        }
    }
}

/// One four-component keyframe from raw bit patterns.
fn key4(t: u32, x: u32, y: u32, z: u32, w: u32) -> (r: GradientKeyVec4)
    ensures
        r == (GradientKeyVec4 {
            t: FloatBits { bits: t },
            v: Vec4Bits {
                x: FloatBits { bits: x },
                y: FloatBits { bits: y },
                z: FloatBits { bits: z },
                w: FloatBits { bits: w },
            },
        }),
{
    GradientKeyVec4 {
        t: FloatBits { bits: t },
        v: Vec4Bits {
            x: FloatBits { bits: x },
            y: FloatBits { bits: y },
            z: FloatBits { bits: z },
            w: FloatBits { bits: w },
        },
    }
}

} // verus!
