//! Effect descriptors and their assembly into one immutable compiled effect.
//!
//! Assembling an effect creates a fresh instruction module, compiles the init
//! modifiers and then the update modifiers against it in authoring order,
//! keeps in each phase's instruction list only the instructions of that
//! phase's kind, compiles the authored render modifiers in order, and then
//! unconditionally appends two fixed render instructions: a texture sample
//! bound to the descriptor's texture index, and orient-along-velocity. The
//! compiled effect always blends by alpha. Assembly is pure: one descriptor
//! value always yields one compiled value, structurally identical on every
//! run.

use vstd::prelude::*;

use crate::expr::{ExprModule, ModuleEntry};
use crate::modifier::{spec_produce_modifier, spec_produce_render, ModifierDescriptor,
    ModifierInstruction, RenderInstrView, RenderInstruction, RenderModView,
    RenderModifierDescriptor};
use crate::values::FloatBits;

verus! {

/// A value that the spawner draws per cycle: either fixed or uniformly
/// random in a closed range.
#[derive(Clone, Copy, Debug, PartialEq, Eq, Structural)]
pub enum CpuValue {
    Single(FloatBits),
    Range(FloatBits, FloatBits),
}

/// How an effect emits: how many particles per cycle, over how long, how
/// often a cycle starts, and how many cycles run (zero meaning without end).
#[derive(Clone, Copy, Debug, PartialEq, Eq, Structural)]
pub struct SpawnerSettings {
    pub count: CpuValue,
    pub spawn_duration: CpuValue,
    pub period: CpuValue,
    pub cycle_count: u32,
}

/// The blend mode of a compiled effect. Assembly always emits alpha
/// blending, whatever was authored.
#[derive(Clone, Copy, Debug, PartialEq, Eq, Structural)]
pub enum AlphaMode {
    Blend,
}

/// One user-authored effect: the unit the editing surface mutates and the
/// assembler consumes.
#[derive(Debug, PartialEq, Eq)]
pub struct EffectDescriptor {
    /// Display name; the only identity, and the key parent references use.
    pub name: String,
    /// Name of the parent effect, resolved at spawn time only.
    pub parent: Option<String>,
    /// Greatest number of particles alive at once.
    pub capacity: u32,
    pub spawner_settings: SpawnerSettings,
    /// Index into the host's texture table; an absent index samples entry 0.
    pub texture_index: Option<usize>,
    pub init_modifiers: Vec<ModifierDescriptor>,
    pub update_modifiers: Vec<ModifierDescriptor>,
    pub render_modifiers: Vec<RenderModifierDescriptor>,
}

/// The view of an optional owned string.
pub open spec fn opt_string_view(o: Option<String>) -> Option<Seq<char>> {
    match o {
        Some(s) => Some(s@),
        None => None,
    }
}

/// The mathematical value of an effect descriptor.
pub ghost struct EffectDescriptorView {
    pub name: Seq<char>,
    pub parent: Option<Seq<char>>,
    pub capacity: u32,
    pub spawner_settings: SpawnerSettings,
    pub texture_index: Option<usize>,
    pub init_modifiers: Seq<ModifierDescriptor>,
    pub update_modifiers: Seq<ModifierDescriptor>,
    pub render_modifiers: Seq<RenderModView>,
}

impl View for EffectDescriptor {
    type V = EffectDescriptorView;

    open spec fn view(&self) -> EffectDescriptorView {
        EffectDescriptorView {
            name: self.name@,
            parent: opt_string_view(self.parent),
            capacity: self.capacity,
            spawner_settings: self.spawner_settings,
            texture_index: self.texture_index,
            init_modifiers: self.init_modifiers@,
            update_modifiers: self.update_modifiers@,
            render_modifiers: self.render_modifiers@.map_values(
                |r: RenderModifierDescriptor| r@,
            ),
        }
    }
}

/// One immutable compiled effect, ready for the external runtime. No
/// reference back to its descriptor.
#[derive(Debug, PartialEq, Eq)]
pub struct CompiledEffect {
    /// Display name, carried over from the descriptor.
    pub name: String,
    pub capacity: u32,
    pub spawner_settings: SpawnerSettings,
    /// The shared expression module every instruction's handles point into.
    pub module: ExprModule,
    pub init: Vec<ModifierInstruction>,
    pub update: Vec<ModifierInstruction>,
    pub render: Vec<RenderInstruction>,
    pub alpha_mode: AlphaMode,
}

/// The mathematical value of a compiled effect.
pub ghost struct CompiledEffectView {
    pub name: Seq<char>,
    pub capacity: u32,
    pub spawner_settings: SpawnerSettings,
    pub module: Seq<ModuleEntry>,
    pub init: Seq<ModifierInstruction>,
    pub update: Seq<ModifierInstruction>,
    pub render: Seq<RenderInstrView>,
    pub alpha_mode: AlphaMode,
}

impl View for CompiledEffect {
    type V = CompiledEffectView;

    open spec fn view(&self) -> CompiledEffectView {
        CompiledEffectView {
            name: self.name@,
            capacity: self.capacity,
            spawner_settings: self.spawner_settings,
            module: self.module@,
            init: self.init@,
            update: self.update@,
            render: self.render@.map_values(|r: RenderInstruction| r@),
            alpha_mode: self.alpha_mode,
        }
    }
}

/// Compile a whole modifier list, left to right, against a module already
/// holding `m`: the resulting module and every instruction, in order.
pub open spec fn spec_produce_modifier_list(
    ds: Seq<ModifierDescriptor>,
    m: Seq<ModuleEntry>,
) -> (Seq<ModuleEntry>, Seq<ModifierInstruction>)
    decreases ds.len(),
{
    if ds.len() == 0 {
        (m, Seq::<ModifierInstruction>::empty())
    } else {
        let (m1, done) = spec_produce_modifier_list(ds.drop_last(), m);
        let (m2, last) = spec_produce_modifier(ds.last(), m1);
        (m2, done.push(last))
    }
}

/// The init-phase instructions of a compiled list, in order. An update-kind
/// modifier authored into an init list compiles but its instruction is
/// dropped here, silently.
pub open spec fn spec_init_selected(instrs: Seq<ModifierInstruction>) -> Seq<ModifierInstruction>
    decreases instrs.len(),
{
    if instrs.len() == 0 {
        Seq::<ModifierInstruction>::empty()
    } else if instrs.last().spec_is_init() {
        spec_init_selected(instrs.drop_last()).push(instrs.last())
    } else {
        spec_init_selected(instrs.drop_last())
    }
}

/// The update-phase instructions of a compiled list, in order.
pub open spec fn spec_update_selected(instrs: Seq<ModifierInstruction>) -> Seq<ModifierInstruction>
    decreases instrs.len(),
{
    if instrs.len() == 0 {
        Seq::<ModifierInstruction>::empty()
    } else if instrs.last().spec_is_update() {
        spec_update_selected(instrs.drop_last()).push(instrs.last())
    } else {
        spec_update_selected(instrs.drop_last())
    }
}

/// The texture table entry an effect samples: the authored index, or entry 0
/// where none was authored.
pub open spec fn spec_effective_texture_index(t: Option<usize>) -> usize {
    match t {
        Some(i) => i,
        None => 0,
    }
}

/// The compiled effect of one descriptor. Assembly is a function of the
/// descriptor value alone: compiling twice yields structurally identical
/// results.
pub open spec fn spec_produce_effect(d: EffectDescriptorView) -> CompiledEffectView {
    let (m1, init_all) = spec_produce_modifier_list(d.init_modifiers, Seq::empty());
    let (m2, update_all) = spec_produce_modifier_list(d.update_modifiers, m1);
    CompiledEffectView {
        name: d.name,
        capacity: d.capacity,
        spawner_settings: d.spawner_settings,
        module: m2,
        init: spec_init_selected(init_all),
        update: spec_update_selected(update_all),
        render: d.render_modifiers.map_values(|r: RenderModView| spec_produce_render(r)).push(
            RenderInstrView::TextureSample {
                texture_index: spec_effective_texture_index(d.texture_index),
            },
        ).push(RenderInstrView::OrientAlongVelocity),
        alpha_mode: AlphaMode::Blend,
    }
}

impl EffectDescriptor {
    /// Display name.
    pub fn name(&self) -> (r: &str)
        ensures
            r@ == self@.name,
    {
        self.name.as_str()
    }

    /// Name of the parent effect, if one is set.
    pub fn parent(&self) -> (r: Option<String>)
        ensures
            opt_string_view(r) == self@.parent,
    {
        match &self.parent {
            Some(p) => Some(p.clone()),
            None => None,
        }
    }

    /// Authored texture table index, if one is set.
    pub fn texture_index(&self) -> (r: Option<usize>)
        ensures
            r == self@.texture_index,
    {
        self.texture_index
    }

    /// Assemble this descriptor into one compiled effect.
    ///
    /// The render list always ends with exactly the two fixed instructions,
    /// texture sample then orient-along-velocity, whatever was authored; and
    /// the result is a function of the descriptor value alone.
    pub fn produce(&self) -> (r: CompiledEffect)
        ensures
            r@ == spec_produce_effect(self@),
            r@.render.len() >= 2,
            r@.render[r@.render.len() - 2] == (RenderInstrView::TextureSample {
                texture_index: spec_effective_texture_index(self@.texture_index),
            }),
            r@.render.last() == RenderInstrView::OrientAlongVelocity,
    {
        let mut module = ExprModule::new();
        let ghost m0 = Seq::<ModuleEntry>::empty();

        let mut init: Vec<ModifierInstruction> = Vec::new();
        let ghost mut init_all = Seq::<ModifierInstruction>::empty();
        let n_init = self.init_modifiers.len();
        for i in 0..n_init
            invariant
                n_init == self.init_modifiers.len(),
                (module@, init_all) == spec_produce_modifier_list(
                    self.init_modifiers@.take(i as int),
                    m0,
                ),
                init@ == spec_init_selected(init_all),
        {
            let inst = self.init_modifiers[i].produce(&mut module);
            proof {
                let pre = self.init_modifiers@.take(i as int);
                let cur = self.init_modifiers@.take(i + 1 as int);
                assert(cur.drop_last() =~= pre);
                assert(cur.last() == self.init_modifiers@[i as int]);
                let new_all = init_all.push(inst);
                assert(new_all.drop_last() =~= init_all);
                assert(new_all.last() == inst);
                init_all = new_all;
            }
            if inst.is_init() {
                init.push(inst);
            }
        }
        proof {
            assert(self.init_modifiers@.take(n_init as int) =~= self.init_modifiers@);
        }

        let mut update: Vec<ModifierInstruction> = Vec::new();
        let ghost m1 = module@;
        let ghost mut update_all = Seq::<ModifierInstruction>::empty();
        let n_update = self.update_modifiers.len();
        for i in 0..n_update
            invariant
                n_update == self.update_modifiers.len(),
                (module@, update_all) == spec_produce_modifier_list(
                    self.update_modifiers@.take(i as int),
                    m1,
                ),
                update@ == spec_update_selected(update_all),
        {
            let inst = self.update_modifiers[i].produce(&mut module);
            proof {
                let pre = self.update_modifiers@.take(i as int);
                let cur = self.update_modifiers@.take(i + 1 as int);
                assert(cur.drop_last() =~= pre);
                assert(cur.last() == self.update_modifiers@[i as int]);
                let new_all = update_all.push(inst);
                assert(new_all.drop_last() =~= update_all);
                assert(new_all.last() == inst);
                update_all = new_all;
            }
            if inst.is_update() {
                update.push(inst);
            }
        }
        proof {
            assert(self.update_modifiers@.take(n_update as int) =~= self.update_modifiers@);
        }

        let mut render: Vec<RenderInstruction> = Vec::new();
        let n_render = self.render_modifiers.len();
        for i in 0..n_render
            invariant
                n_render == self.render_modifiers.len(),
                render@.len() == i,
                forall|j: int| 0 <= j < i ==> (#[trigger] render@[j])@ == spec_produce_render(
                    self.render_modifiers@[j]@,
                ),
        {
            let inst = self.render_modifiers[i].produce();
            render.push(inst);
        }

        let texture_index = match self.texture_index {
            Some(i) => i,
            None => 0,
        };
        render.push(RenderInstruction::TextureSample { texture_index });
        render.push(RenderInstruction::OrientAlongVelocity);

        let r = CompiledEffect {
            name: self.name.clone(),
            capacity: self.capacity,
            spawner_settings: self.spawner_settings,
            module,
            init,
            update,
            render,
            alpha_mode: AlphaMode::Blend,
        };
        proof {
            let sv = spec_produce_effect(self@);
            assert(r@.render =~= sv.render) by {
                let lhs = r@.render;
                let rhs = sv.render;
                assert(lhs.len() == n_render + 2);
                assert(rhs.len() == n_render + 2);
                assert forall|j: int| 0 <= j < lhs.len() implies lhs[j] == rhs[j] by {
                    if j < n_render {
                        assert(lhs[j] == render@[j]@);
                        assert(rhs[j] == spec_produce_render(
                            self@.render_modifiers[j],
                        ));
                        assert(self@.render_modifiers[j] == self.render_modifiers@[j]@);
                    } else if j == n_render {
                        assert(lhs[j] == render@[j]@);
                    } else {
                        assert(lhs[j] == render@[j]@);
                    }
                }
            }
            assert(r@ == sv);
        }
        r
    }
}

impl Default for EffectDescriptor {
    /// A fresh effect as the editing surface creates one: full default
    /// capacity, a steady spawner emitting five hundred particles over each
    /// one-second cycle without end, the first texture, and no modifiers.
    fn default() -> (r: EffectDescriptor)
        ensures
            r@.name == "Name your effect"@,
            r@.parent is None,
            r@.capacity == 16384,
            r@.spawner_settings == (SpawnerSettings {
                count: CpuValue::Single(FloatBits { bits: 0x43FA0000 }),
                spawn_duration: CpuValue::Single(FloatBits { bits: 0x3F800000 }),
                period: CpuValue::Single(FloatBits { bits: 0x3F800000 }),
                cycle_count: 0,
            }),
            r@.texture_index == Some(0usize),
            r@.init_modifiers.len() == 0,
            r@.update_modifiers.len() == 0,
            r@.render_modifiers.len() == 0,
    {
        let r = EffectDescriptor {
            name: String::from_str("Name your effect"),
            parent: None,
            capacity: 16384,
            spawner_settings: SpawnerSettings {
                count: CpuValue::Single(FloatBits { bits: 0x43FA0000 }),
                spawn_duration: CpuValue::Single(FloatBits { bits: 0x3F800000 }),
                period: CpuValue::Single(FloatBits { bits: 0x3F800000 }),
                cycle_count: 0,
            },
            texture_index: Some(0),
            init_modifiers: Vec::new(),
            update_modifiers: Vec::new(),
            render_modifiers: Vec::new(),
        };
        proof {
            assert(r.render_modifiers@.map_values(|m: RenderModifierDescriptor| m@) =~= Seq::<
                RenderModView,
            >::empty());
        }
        r
    }
}

} // verus!
