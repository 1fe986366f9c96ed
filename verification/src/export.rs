//! The baked export of a project.
//!
//! Exporting derives, for every effect of the document in order, a record of
//! its name, its optional parent name, its optional texture index, and its
//! fully compiled effect, and writes the whole collection in the same
//! number-per-line text as the project file. The step is one-directional:
//! nothing reads an export back into an editable document.

use vstd::prelude::*;

use crate::codec::{seq_add_assoc, spec_enc_opt_string, spec_enc_opt_usize, spec_enc_spawner,
    spec_enc_string, spec_enc_u64};
use crate::codec::{emit_cond, emit_dim, emit_gradient3, emit_gradient4, emit_opt_string,
    emit_opt_usize, emit_spawner, emit_string, emit_u64};
use crate::document::ProjectDocument;
use crate::effect::{spec_produce_effect, AlphaMode, CompiledEffect, CompiledEffectView,
    EffectDescriptorView};
use crate::expr::{BinaryOp, ExprHandle, ModuleEntry, UnaryOp};
use crate::modifier::{ColorBlendMask, ColorBlendMode, ModifierInstruction, RenderInstrView,
    RenderInstruction};

verus! {

/// A module handle: the index of the entry it refers to.
pub open spec fn spec_enc_handle(h: ExprHandle) -> Seq<u8> {
    spec_enc_u64(h.index as u64)
}

/// A unary operator's stable tag.
pub open spec fn spec_enc_unop(op: UnaryOp) -> Seq<u8> {
    match op {
        UnaryOp::Sin => spec_enc_u64(0),
        UnaryOp::Cos => spec_enc_u64(1),
        UnaryOp::Normalize => spec_enc_u64(2),
        UnaryOp::Pack4x8UNorm => spec_enc_u64(3),
    }
}

/// A binary operator's stable tag.
pub open spec fn spec_enc_binop(op: BinaryOp) -> Seq<u8> {
    match op {
        BinaryOp::Uniform => spec_enc_u64(0),
        BinaryOp::Multiply => spec_enc_u64(1),
        BinaryOp::Subtract => spec_enc_u64(2),
        BinaryOp::Add => spec_enc_u64(3),
        BinaryOp::Distance => spec_enc_u64(4),
    }
}

/// One module entry: its kind tag, then its payload.
pub open spec fn spec_enc_entry(e: ModuleEntry) -> Seq<u8> {
    match e {
        ModuleEntry::LitFloat(f) => spec_enc_u64(0) + spec_enc_u64(f.bits as u64),
        ModuleEntry::LitU32(u) => spec_enc_u64(1) + spec_enc_u64(u as u64),
        ModuleEntry::LitVec3(v) => spec_enc_u64(2) + spec_enc_u64(v.x.bits as u64) + spec_enc_u64(
            v.y.bits as u64,
        ) + spec_enc_u64(v.z.bits as u64),
        ModuleEntry::LitVec4(v) => spec_enc_u64(3) + spec_enc_u64(v.x.bits as u64) + spec_enc_u64(
            v.y.bits as u64,
        ) + spec_enc_u64(v.z.bits as u64) + spec_enc_u64(v.w.bits as u64),
        ModuleEntry::RandU32 => spec_enc_u64(4),
        ModuleEntry::RandFloat => spec_enc_u64(5),
        ModuleEntry::RandVec3 => spec_enc_u64(6),
        ModuleEntry::Time => spec_enc_u64(7),
        ModuleEntry::Attr(a) => spec_enc_u64(8) + spec_enc_u64(crate::attr::spec_attr_tag(a)),
        ModuleEntry::ParentAttr(a) => spec_enc_u64(9) + spec_enc_u64(
            crate::attr::spec_attr_tag(a),
        ),
        ModuleEntry::Unary(op, h) => spec_enc_u64(10) + spec_enc_unop(op) + spec_enc_handle(h),
        ModuleEntry::Binary(op, a, b) => spec_enc_u64(11) + spec_enc_binop(op) + spec_enc_handle(
            a,
        ) + spec_enc_handle(b),
        ModuleEntry::Vec3Cons(a, b, c) => spec_enc_u64(12) + spec_enc_handle(a) + spec_enc_handle(
            b,
        ) + spec_enc_handle(c),
        ModuleEntry::Vec4Cons(a, b, c, d) => spec_enc_u64(13) + spec_enc_handle(a)
            + spec_enc_handle(b) + spec_enc_handle(c) + spec_enc_handle(d),
    }
}

/// A whole module: its entry count, then its entries in order.
pub open spec fn spec_enc_module(m: Seq<ModuleEntry>) -> Seq<u8> {
    spec_enc_u64(m.len() as u64) + spec_enc_entries(m)
}

pub open spec fn spec_enc_entries(m: Seq<ModuleEntry>) -> Seq<u8>
    decreases m.len(),
{
    if m.len() == 0 {
        Seq::<u8>::empty()
    } else {
        spec_enc_entry(m[0]) + spec_enc_entries(m.skip(1))
    }
}

/// One compiled init or update instruction.
pub open spec fn spec_enc_instr(mi: ModifierInstruction) -> Seq<u8> {
    match mi {
        ModifierInstruction::SetAttribute { attr, value } => spec_enc_u64(0) + spec_enc_u64(
            crate::attr::spec_attr_tag(attr),
        ) + spec_enc_handle(value),
        ModifierInstruction::InheritAttribute { attr } => spec_enc_u64(1) + spec_enc_u64(
            crate::attr::spec_attr_tag(attr),
        ),
        ModifierInstruction::SetPositionCircle { center, axis, radius, dimension } => {
            spec_enc_u64(2) + spec_enc_handle(center) + spec_enc_handle(axis) + spec_enc_handle(
                radius,
            ) + crate::codec::spec_enc_dim(dimension)
        },
        ModifierInstruction::SetPositionSphere { center, radius, dimension } => spec_enc_u64(3)
            + spec_enc_handle(center) + spec_enc_handle(radius) + crate::codec::spec_enc_dim(
            dimension,
        ),
        ModifierInstruction::SetVelocityCircle { center, axis, speed } => spec_enc_u64(4)
            + spec_enc_handle(center) + spec_enc_handle(axis) + spec_enc_handle(speed),
        ModifierInstruction::SetVelocitySphere { center, speed } => spec_enc_u64(5)
            + spec_enc_handle(center) + spec_enc_handle(speed),
        ModifierInstruction::SetVelocityTangent { origin, axis, speed } => spec_enc_u64(6)
            + spec_enc_handle(origin) + spec_enc_handle(axis) + spec_enc_handle(speed),
        ModifierInstruction::Accel { accel } => spec_enc_u64(7) + spec_enc_handle(accel),
        ModifierInstruction::LinearDrag { drag } => spec_enc_u64(8) + spec_enc_handle(drag),
        ModifierInstruction::EmitSpawnEvent { condition, count, child_index } => spec_enc_u64(9)
            + crate::codec::spec_enc_cond(condition) + spec_enc_handle(count) + spec_enc_u64(
            child_index as u64,
        ),
        ModifierInstruction::ConformToSphere {
            origin,
            radius,
            influence_dist,
            attraction_accel,
            max_attraction_speed,
        } => spec_enc_u64(10) + spec_enc_handle(origin) + spec_enc_handle(radius)
            + spec_enc_handle(influence_dist) + spec_enc_handle(attraction_accel)
            + spec_enc_handle(max_attraction_speed),
    }
}

/// An instruction list: its length, then its items.
pub open spec fn spec_enc_instr_list(is: Seq<ModifierInstruction>) -> Seq<u8> {
    spec_enc_u64(is.len() as u64) + spec_enc_instrs(is)
}

pub open spec fn spec_enc_instrs(is: Seq<ModifierInstruction>) -> Seq<u8>
    decreases is.len(),
{
    if is.len() == 0 {
        Seq::<u8>::empty()
    } else {
        spec_enc_instr(is[0]) + spec_enc_instrs(is.skip(1))
    }
}

/// A concrete blend mode's stable tag.
pub open spec fn spec_enc_blend(b: ColorBlendMode) -> Seq<u8> {
    match b {
        ColorBlendMode::Modulate => spec_enc_u64(0),
        ColorBlendMode::Add => spec_enc_u64(1),
        ColorBlendMode::Overwrite => spec_enc_u64(2),
    }
}

/// A concrete channel mask's stable tag.
pub open spec fn spec_enc_mask(m: ColorBlendMask) -> Seq<u8> {
    match m {
        ColorBlendMask::Rgb => spec_enc_u64(0),
        ColorBlendMask::Rgba => spec_enc_u64(1),
    }
}

/// One compiled render instruction.
pub open spec fn spec_enc_rinstr(r: RenderInstrView) -> Seq<u8> {
    match r {
        RenderInstrView::SizeOverLifetime { gradient, screen_space_size } => spec_enc_u64(0)
            + crate::codec::spec_enc_gradient3(gradient) + spec_enc_u64(
            if screen_space_size {
                1
            } else {
                0
            },
        ),
        RenderInstrView::ColorOverLifetime { gradient, blend, mask } => spec_enc_u64(1)
            + crate::codec::spec_enc_gradient4(gradient) + spec_enc_blend(blend) + spec_enc_mask(
            mask,
        ),
        RenderInstrView::TextureSample { texture_index } => spec_enc_u64(2) + spec_enc_u64(
            texture_index as u64,
        ),
        RenderInstrView::OrientAlongVelocity => spec_enc_u64(3),
    }
}

/// A render instruction list: its length, then its items.
pub open spec fn spec_enc_rinstr_list(rs: Seq<RenderInstrView>) -> Seq<u8> {
    spec_enc_u64(rs.len() as u64) + spec_enc_rinstrs(rs)
}

pub open spec fn spec_enc_rinstrs(rs: Seq<RenderInstrView>) -> Seq<u8>
    decreases rs.len(),
{
    if rs.len() == 0 {
        Seq::<u8>::empty()
    } else {
        spec_enc_rinstr(rs[0]) + spec_enc_rinstrs(rs.skip(1))
    }
}

/// A compiled effect: name, capacity, spawner, module, the three
/// instruction lists, and the blend mode.
pub open spec fn spec_enc_compiled(c: CompiledEffectView) -> Seq<u8> {
    spec_enc_string(c.name) + spec_enc_u64(c.capacity as u64) + spec_enc_spawner(
        c.spawner_settings,
    ) + spec_enc_module(c.module) + spec_enc_instr_list(c.init) + spec_enc_instr_list(c.update)
        + spec_enc_rinstr_list(c.render) + spec_enc_u64(
        match c.alpha_mode {
            AlphaMode::Blend => 0,
        },
    )
}

/// One export record: the effect's name, parent and texture index as
/// authored, then its fully compiled effect.
pub open spec fn spec_enc_export_record(d: EffectDescriptorView) -> Seq<u8> {
    spec_enc_string(d.name) + spec_enc_opt_string(d.parent) + spec_enc_opt_usize(d.texture_index)
        + spec_enc_compiled(spec_produce_effect(d))
}

/// A whole export: the record count, then one record per effect, in
/// document order.
pub open spec fn spec_enc_export(ds: Seq<EffectDescriptorView>) -> Seq<u8> {
    spec_enc_u64(ds.len() as u64) + spec_enc_export_records(ds)
}

pub open spec fn spec_enc_export_records(ds: Seq<EffectDescriptorView>) -> Seq<u8>
    decreases ds.len(),
{
    if ds.len() == 0 {
        Seq::<u8>::empty()
    } else {
        spec_enc_export_record(ds[0]) + spec_enc_export_records(ds.skip(1))
    }
}

fn emit_handle(out: &mut Vec<u8>, h: ExprHandle)
    ensures
        final(out)@ == old(out)@ + spec_enc_handle(h),
{
    emit_u64(out, h.index as u64);
}

#[verifier::rlimit(100)]
#[verifier::spinoff_prover]
fn emit_entry(out: &mut Vec<u8>, e: ModuleEntry)
    ensures
        final(out)@ == old(out)@ + spec_enc_entry(e),
{
    match e {
        ModuleEntry::LitFloat(f) => {
            emit_u64(out, 0);
            emit_u64(out, f.bits as u64);
            proof {
                seq_add_assoc(old(out)@, spec_enc_u64(0), spec_enc_u64(f.bits as u64));
            }
        },
        ModuleEntry::LitU32(u) => {
            emit_u64(out, 1);
            emit_u64(out, u as u64);
            proof {
                seq_add_assoc(old(out)@, spec_enc_u64(1), spec_enc_u64(u as u64));
            }
        },
        ModuleEntry::LitVec3(v) => {
            emit_u64(out, 2);
            emit_u64(out, v.x.bits as u64);
            emit_u64(out, v.y.bits as u64);
            emit_u64(out, v.z.bits as u64);
            proof {
                let t = spec_enc_u64(2) + spec_enc_u64(v.x.bits as u64) + spec_enc_u64(
                    v.y.bits as u64,
                ) + spec_enc_u64(v.z.bits as u64);
                assert(old(out)@ + spec_enc_u64(2) + spec_enc_u64(v.x.bits as u64)
                    + spec_enc_u64(v.y.bits as u64) + spec_enc_u64(v.z.bits as u64) =~= old(
                    out,
                )@ + t);
            }
        },
        ModuleEntry::LitVec4(v) => {
            emit_u64(out, 3);
            emit_u64(out, v.x.bits as u64);
            emit_u64(out, v.y.bits as u64);
            emit_u64(out, v.z.bits as u64);
            emit_u64(out, v.w.bits as u64);
            proof {
                let t = spec_enc_u64(3) + spec_enc_u64(v.x.bits as u64) + spec_enc_u64(
                    v.y.bits as u64,
                ) + spec_enc_u64(v.z.bits as u64) + spec_enc_u64(v.w.bits as u64);
                assert(old(out)@ + spec_enc_u64(3) + spec_enc_u64(v.x.bits as u64)
                    + spec_enc_u64(v.y.bits as u64) + spec_enc_u64(v.z.bits as u64)
                    + spec_enc_u64(v.w.bits as u64) =~= old(out)@ + t);
            }
        },
        ModuleEntry::RandU32 => emit_u64(out, 4),
        ModuleEntry::RandFloat => emit_u64(out, 5),
        ModuleEntry::RandVec3 => emit_u64(out, 6),
        ModuleEntry::Time => emit_u64(out, 7),
        ModuleEntry::Attr(a) => {
            emit_u64(out, 8);
            emit_u64(out, crate::attr::attr_tag(a));
            proof {
                seq_add_assoc(
                    old(out)@,
                    spec_enc_u64(8),
                    spec_enc_u64(crate::attr::spec_attr_tag(a)),
                );
            }
        },
        ModuleEntry::ParentAttr(a) => {
            emit_u64(out, 9);
            emit_u64(out, crate::attr::attr_tag(a));
            proof {
                seq_add_assoc(
                    old(out)@,
                    spec_enc_u64(9),
                    spec_enc_u64(crate::attr::spec_attr_tag(a)),
                );
            }
        },
        ModuleEntry::Unary(op, h) => {
            emit_u64(out, 10);
            emit_u64(
                out,
                match op {
                    UnaryOp::Sin => 0,
                    UnaryOp::Cos => 1,
                    UnaryOp::Normalize => 2,
                    UnaryOp::Pack4x8UNorm => 3,
                },
            );
            emit_handle(out, h);
            proof {
                assert(old(out)@ + spec_enc_u64(10) + spec_enc_unop(op) + spec_enc_handle(h)
                    =~= old(out)@ + (spec_enc_u64(10) + spec_enc_unop(op) + spec_enc_handle(
                    h,
                )));
            }
        },
        ModuleEntry::Binary(op, a, b) => {
            emit_u64(out, 11);
            emit_u64(
                out,
                match op {
                    BinaryOp::Uniform => 0,
                    BinaryOp::Multiply => 1,
                    BinaryOp::Subtract => 2,
                    BinaryOp::Add => 3,
                    BinaryOp::Distance => 4,
                },
            );
            emit_handle(out, a);
            emit_handle(out, b);
            proof {
                assert(old(out)@ + spec_enc_u64(11) + spec_enc_binop(op) + spec_enc_handle(a)
                    + spec_enc_handle(b) =~= old(out)@ + (spec_enc_u64(11) + spec_enc_binop(op)
                    + spec_enc_handle(a) + spec_enc_handle(b)));
            }
        },
        ModuleEntry::Vec3Cons(a, b, c) => {
            emit_u64(out, 12);
            emit_handle(out, a);
            emit_handle(out, b);
            emit_handle(out, c);
            proof {
                assert(old(out)@ + spec_enc_u64(12) + spec_enc_handle(a) + spec_enc_handle(b)
                    + spec_enc_handle(c) =~= old(out)@ + (spec_enc_u64(12) + spec_enc_handle(a)
                    + spec_enc_handle(b) + spec_enc_handle(c)));
            }
        },
        ModuleEntry::Vec4Cons(a, b, c, d) => {
            emit_u64(out, 13);
            emit_handle(out, a);
            emit_handle(out, b);
            emit_handle(out, c);
            emit_handle(out, d);
            proof {
                assert(old(out)@ + spec_enc_u64(13) + spec_enc_handle(a) + spec_enc_handle(b)
                    + spec_enc_handle(c) + spec_enc_handle(d) =~= old(out)@ + (spec_enc_u64(13)
                    + spec_enc_handle(a) + spec_enc_handle(b) + spec_enc_handle(c)
                    + spec_enc_handle(d)));
            }
        },
    }
}

proof fn lemma_enc_entries_snoc(m: Seq<ModuleEntry>, e: ModuleEntry)
    ensures
        spec_enc_entries(m.push(e)) == spec_enc_entries(m) + spec_enc_entry(e),
    decreases m.len(),
{
    let ee = spec_enc_entry(e);
    if m.len() == 0 {
        assert(m.push(e)[0] == e);
        assert(m.push(e).skip(1) =~= Seq::<ModuleEntry>::empty());
        assert(spec_enc_entries(Seq::<ModuleEntry>::empty()) == Seq::<u8>::empty());
        assert(ee + Seq::<u8>::empty() =~= ee);
        assert(spec_enc_entries(m) + ee =~= ee);
    } else {
        assert(m.push(e)[0] == m[0]);
        assert(m.push(e).skip(1) =~= m.skip(1).push(e));
        lemma_enc_entries_snoc(m.skip(1), e);
        let e0 = spec_enc_entry(m[0]);
        let etail = spec_enc_entries(m.skip(1));
        assert(spec_enc_entries(m.push(e)) == e0 + (etail + ee));
        assert(e0 + (etail + ee) =~= e0 + etail + ee);
    }
}

/// Append a whole module: entry count, then every entry.
fn emit_module(out: &mut Vec<u8>, m: &crate::expr::ExprModule)
    ensures
        final(out)@ == old(out)@ + spec_enc_module(m@),
{
    let n = m.len();
    emit_u64(out, n as u64);
    let ghost mid = out@;
    for k in 0..n
        invariant
            n == m@.len(),
            out@ == mid + spec_enc_entries(m@.take(k as int)),
            mid == old(out)@ + spec_enc_u64(n as u64),
        decreases n - k,
    {
        let e = m.entry_at(ExprHandle { index: k });
        emit_entry(out, e);
        proof {
            lemma_enc_entries_snoc(m@.take(k as int), m@[k as int]);
            assert(m@.take(k + 1 as int) =~= m@.take(k as int).push(m@[k as int]));
            seq_add_assoc(mid, spec_enc_entries(m@.take(k as int)), spec_enc_entry(m@[k as int]));
        }
    }
    proof {
        assert(m@.take(n as int) =~= m@);
        seq_add_assoc(old(out)@, spec_enc_u64(n as u64), spec_enc_entries(m@));
    }
}

/// Append one compiled instruction.
#[verifier::rlimit(100)]
#[verifier::spinoff_prover]
fn emit_instr(out: &mut Vec<u8>, mi: ModifierInstruction)
    ensures
        final(out)@ == old(out)@ + spec_enc_instr(mi),
{
    match mi {
        ModifierInstruction::SetAttribute { attr, value } => {
            emit_u64(out, 0);
            emit_u64(out, crate::attr::attr_tag(attr));
            emit_handle(out, value);
            proof {
                assert(old(out)@ + spec_enc_u64(0) + spec_enc_u64(crate::attr::spec_attr_tag(
                    attr,
                )) + spec_enc_handle(value) =~= old(out)@ + spec_enc_instr(mi));
            }
        },
        ModifierInstruction::InheritAttribute { attr } => {
            emit_u64(out, 1);
            emit_u64(out, crate::attr::attr_tag(attr));
            proof {
                seq_add_assoc(
                    old(out)@,
                    spec_enc_u64(1),
                    spec_enc_u64(crate::attr::spec_attr_tag(attr)),
                );
            }
        },
        ModifierInstruction::SetPositionCircle { center, axis, radius, dimension } => {
            emit_u64(out, 2);
            emit_handle(out, center);
            emit_handle(out, axis);
            emit_handle(out, radius);
            emit_dim(out, &dimension);
            proof {
                assert(old(out)@ + spec_enc_u64(2) + spec_enc_handle(center) + spec_enc_handle(
                    axis,
                ) + spec_enc_handle(radius) + crate::codec::spec_enc_dim(dimension) =~= old(
                    out,
                )@ + spec_enc_instr(mi));
            }
        },
        ModifierInstruction::SetPositionSphere { center, radius, dimension } => {
            emit_u64(out, 3);
            emit_handle(out, center);
            emit_handle(out, radius);
            emit_dim(out, &dimension);
            proof {
                assert(old(out)@ + spec_enc_u64(3) + spec_enc_handle(center) + spec_enc_handle(
                    radius,
                ) + crate::codec::spec_enc_dim(dimension) =~= old(out)@ + spec_enc_instr(mi));
            }
        },
        ModifierInstruction::SetVelocityCircle { center, axis, speed } => {
            emit_u64(out, 4);
            emit_handle(out, center);
            emit_handle(out, axis);
            emit_handle(out, speed);
            proof {
                assert(old(out)@ + spec_enc_u64(4) + spec_enc_handle(center) + spec_enc_handle(
                    axis,
                ) + spec_enc_handle(speed) =~= old(out)@ + spec_enc_instr(mi));
            }
        },
        ModifierInstruction::SetVelocitySphere { center, speed } => {
            emit_u64(out, 5);
            emit_handle(out, center);
            emit_handle(out, speed);
            proof {
                assert(old(out)@ + spec_enc_u64(5) + spec_enc_handle(center) + spec_enc_handle(
                    speed,
                ) =~= old(out)@ + spec_enc_instr(mi));
            }
        },
        ModifierInstruction::SetVelocityTangent { origin, axis, speed } => {
            emit_u64(out, 6);
            emit_handle(out, origin);
            emit_handle(out, axis);
            emit_handle(out, speed);
            proof {
                assert(old(out)@ + spec_enc_u64(6) + spec_enc_handle(origin) + spec_enc_handle(
                    axis,
                ) + spec_enc_handle(speed) =~= old(out)@ + spec_enc_instr(mi));
            }
        },
        ModifierInstruction::Accel { accel } => {
            emit_u64(out, 7);
            emit_handle(out, accel);
            proof {
                seq_add_assoc(old(out)@, spec_enc_u64(7), spec_enc_handle(accel));
            }
        },
        ModifierInstruction::LinearDrag { drag } => {
            emit_u64(out, 8);
            emit_handle(out, drag);
            proof {
                seq_add_assoc(old(out)@, spec_enc_u64(8), spec_enc_handle(drag));
            }
        },
        ModifierInstruction::EmitSpawnEvent { condition, count, child_index } => {
            emit_u64(out, 9);
            emit_cond(out, &condition);
            emit_handle(out, count);
            emit_u64(out, child_index as u64);
            proof {
                assert(old(out)@ + spec_enc_u64(9) + crate::codec::spec_enc_cond(condition)
                    + spec_enc_handle(count) + spec_enc_u64(child_index as u64) =~= old(out)@
                    + spec_enc_instr(mi));
            }
        },
        ModifierInstruction::ConformToSphere {
            origin,
            radius,
            influence_dist,
            attraction_accel,
            max_attraction_speed,
        } => {
            emit_u64(out, 10);
            emit_handle(out, origin);
            emit_handle(out, radius);
            emit_handle(out, influence_dist);
            emit_handle(out, attraction_accel);
            emit_handle(out, max_attraction_speed);
            proof {
                assert(old(out)@ + spec_enc_u64(10) + spec_enc_handle(origin)
                    + spec_enc_handle(radius) + spec_enc_handle(influence_dist)
                    + spec_enc_handle(attraction_accel) + spec_enc_handle(max_attraction_speed)
                    =~= old(out)@ + spec_enc_instr(mi));
            }
        },
    }
}

proof fn lemma_enc_instrs_snoc(is: Seq<ModifierInstruction>, mi: ModifierInstruction)
    ensures
        spec_enc_instrs(is.push(mi)) == spec_enc_instrs(is) + spec_enc_instr(mi),
    decreases is.len(),
{
    let ee = spec_enc_instr(mi);
    if is.len() == 0 {
        assert(is.push(mi)[0] == mi);
        assert(is.push(mi).skip(1) =~= Seq::<ModifierInstruction>::empty());
        assert(spec_enc_instrs(Seq::<ModifierInstruction>::empty()) == Seq::<u8>::empty());
        assert(ee + Seq::<u8>::empty() =~= ee);
        assert(spec_enc_instrs(is) + ee =~= ee);
    } else {
        assert(is.push(mi)[0] == is[0]);
        assert(is.push(mi).skip(1) =~= is.skip(1).push(mi));
        lemma_enc_instrs_snoc(is.skip(1), mi);
        let e0 = spec_enc_instr(is[0]);
        let etail = spec_enc_instrs(is.skip(1));
        assert(spec_enc_instrs(is.push(mi)) == e0 + (etail + ee));
        assert(e0 + (etail + ee) =~= e0 + etail + ee);
    }
}

/// Append a whole instruction list.
fn emit_instr_list(out: &mut Vec<u8>, v: &Vec<ModifierInstruction>)
    ensures
        final(out)@ == old(out)@ + spec_enc_instr_list(v@),
{
    let n = v.len();
    emit_u64(out, n as u64);
    let ghost mid = out@;
    for k in 0..n
        invariant
            n == v@.len(),
            out@ == mid + spec_enc_instrs(v@.take(k as int)),
            mid == old(out)@ + spec_enc_u64(n as u64),
        decreases n - k,
    {
        emit_instr(out, v[k]);
        proof {
            lemma_enc_instrs_snoc(v@.take(k as int), v@[k as int]);
            assert(v@.take(k + 1 as int) =~= v@.take(k as int).push(v@[k as int]));
            seq_add_assoc(mid, spec_enc_instrs(v@.take(k as int)), spec_enc_instr(v@[k as int]));
        }
    }
    proof {
        assert(v@.take(n as int) =~= v@);
        seq_add_assoc(old(out)@, spec_enc_u64(n as u64), spec_enc_instrs(v@));
    }
}

/// Append one compiled render instruction.
fn emit_rinstr(out: &mut Vec<u8>, r: &RenderInstruction)
    ensures
        final(out)@ == old(out)@ + spec_enc_rinstr(r@),
{
    match r {
        RenderInstruction::SizeOverLifetime { gradient, screen_space_size } => {
            emit_u64(out, 0);
            emit_gradient3(out, gradient);
            let flag: u64 = if *screen_space_size {
                1
            } else {
                0
            };
            emit_u64(out, flag);
            proof {
                assert(old(out)@ + spec_enc_u64(0) + crate::codec::spec_enc_gradient3(gradient@)
                    + spec_enc_u64(flag) =~= old(out)@ + spec_enc_rinstr(r@));
            }
        },
        RenderInstruction::ColorOverLifetime { gradient, blend, mask } => {
            emit_u64(out, 1);
            emit_gradient4(out, gradient);
            let bt: u64 = match blend {
                ColorBlendMode::Modulate => 0,
                ColorBlendMode::Add => 1,
                ColorBlendMode::Overwrite => 2,
            };
            emit_u64(out, bt);
            let mt: u64 = match mask {
                ColorBlendMask::Rgb => 0,
                ColorBlendMask::Rgba => 1,
            };
            emit_u64(out, mt);
            proof {
                assert(old(out)@ + spec_enc_u64(1) + crate::codec::spec_enc_gradient4(gradient@)
                    + spec_enc_u64(bt) + spec_enc_u64(mt) =~= old(out)@ + spec_enc_rinstr(r@));
            }
        },
        RenderInstruction::TextureSample { texture_index } => {
            emit_u64(out, 2);
            emit_u64(out, *texture_index as u64);
            proof {
                seq_add_assoc(old(out)@, spec_enc_u64(2), spec_enc_u64(*texture_index as u64));
            }
        },
        RenderInstruction::OrientAlongVelocity => {
            emit_u64(out, 3);
        },
    }
}

/// The views of a list of compiled render instructions.
pub open spec fn spec_rinstr_views(v: Seq<RenderInstruction>) -> Seq<RenderInstrView> {
    v.map_values(|r: RenderInstruction| r@)
}

proof fn lemma_enc_rinstrs_snoc(rs: Seq<RenderInstrView>, r: RenderInstrView)
    ensures
        spec_enc_rinstrs(rs.push(r)) == spec_enc_rinstrs(rs) + spec_enc_rinstr(r),
    decreases rs.len(),
{
    let ee = spec_enc_rinstr(r);
    if rs.len() == 0 {
        assert(rs.push(r)[0] == r);
        assert(rs.push(r).skip(1) =~= Seq::<RenderInstrView>::empty());
        assert(spec_enc_rinstrs(Seq::<RenderInstrView>::empty()) == Seq::<u8>::empty());
        assert(ee + Seq::<u8>::empty() =~= ee);
        assert(spec_enc_rinstrs(rs) + ee =~= ee);
    } else {
        assert(rs.push(r)[0] == rs[0]);
        assert(rs.push(r).skip(1) =~= rs.skip(1).push(r));
        lemma_enc_rinstrs_snoc(rs.skip(1), r);
        let e0 = spec_enc_rinstr(rs[0]);
        let etail = spec_enc_rinstrs(rs.skip(1));
        assert(spec_enc_rinstrs(rs.push(r)) == e0 + (etail + ee));
        assert(e0 + (etail + ee) =~= e0 + etail + ee);
    }
}

/// Append a whole render instruction list.
fn emit_rinstr_list(out: &mut Vec<u8>, v: &Vec<RenderInstruction>)
    ensures
        final(out)@ == old(out)@ + spec_enc_rinstr_list(spec_rinstr_views(v@)),
{
    let n = v.len();
    emit_u64(out, n as u64);
    let ghost mid = out@;
    let ghost views = spec_rinstr_views(v@);
    for k in 0..n
        invariant
            n == v@.len(),
            views == spec_rinstr_views(v@),
            views.len() == n,
            out@ == mid + spec_enc_rinstrs(views.take(k as int)),
            mid == old(out)@ + spec_enc_u64(n as u64),
        decreases n - k,
    {
        emit_rinstr(out, &v[k]);
        proof {
            assert(views[k as int] == v@[k as int]@);
            lemma_enc_rinstrs_snoc(views.take(k as int), views[k as int]);
            assert(views.take(k + 1 as int) =~= views.take(k as int).push(views[k as int]));
            seq_add_assoc(mid, spec_enc_rinstrs(views.take(k as int)), spec_enc_rinstr(
                views[k as int],
            ));
        }
    }
    proof {
        assert(views.take(n as int) =~= views);
        seq_add_assoc(old(out)@, spec_enc_u64(n as u64), spec_enc_rinstrs(views));
    }
}

/// Append one fully compiled effect.
#[verifier::rlimit(100)]
#[verifier::spinoff_prover]
fn emit_compiled(out: &mut Vec<u8>, c: &CompiledEffect)
    ensures
        final(out)@ == old(out)@ + spec_enc_compiled(c@),
{
    emit_string(out, &c.name);
    emit_u64(out, c.capacity as u64);
    emit_spawner(out, &c.spawner_settings);
    emit_module(out, &c.module);
    emit_instr_list(out, &c.init);
    emit_instr_list(out, &c.update);
    emit_rinstr_list(out, &c.render);
    let at: u64 = match c.alpha_mode {
        AlphaMode::Blend => 0,
    };
    emit_u64(out, at);
    proof {
        assert(spec_rinstr_views(c.render@) =~= c@.render);
        let e1 = spec_enc_string(c@.name);
        let e2 = spec_enc_u64(c@.capacity as u64);
        let e3 = spec_enc_spawner(c@.spawner_settings);
        let e4 = spec_enc_module(c@.module);
        let e5 = spec_enc_instr_list(c@.init);
        let e6 = spec_enc_instr_list(c@.update);
        let e7 = spec_enc_rinstr_list(c@.render);
        let e8 = spec_enc_u64(at);
        assert(old(out)@ + e1 + e2 + e3 + e4 + e5 + e6 + e7 + e8 =~= old(out)@ + (e1 + e2 + e3
            + e4 + e5 + e6 + e7 + e8));
    }
}

#[verifier::rlimit(100)]
#[verifier::spinoff_prover]
proof fn lemma_enc_export_records_snoc(ds: Seq<EffectDescriptorView>, d: EffectDescriptorView)
    ensures
        spec_enc_export_records(ds.push(d)) == spec_enc_export_records(ds)
            + spec_enc_export_record(d),
    decreases ds.len(),
{
    let ee = spec_enc_export_record(d);
    if ds.len() == 0 {
        assert(ds.push(d)[0] == d);
        assert(ds.push(d).skip(1) =~= Seq::<EffectDescriptorView>::empty());
        assert(spec_enc_export_records(Seq::<EffectDescriptorView>::empty()) == Seq::<
            u8,
        >::empty());
        assert(ee + Seq::<u8>::empty() =~= ee);
        assert(spec_enc_export_records(ds) + ee =~= ee);
    } else {
        assert(ds.push(d)[0] == ds[0]);
        assert(ds.push(d).skip(1) =~= ds.skip(1).push(d));
        lemma_enc_export_records_snoc(ds.skip(1), d);
        let e0 = spec_enc_export_record(ds[0]);
        let etail = spec_enc_export_records(ds.skip(1));
        assert(spec_enc_export_records(ds.push(d)) == e0 + (etail + ee));
        seq_add_assoc(e0, etail, ee);
    }
}

impl ProjectDocument {
    /// Write the baked export of this document: one record per effect, in
    /// document order, each holding the effect's name, parent and texture
    /// index as authored plus its fully compiled effect.
    #[verifier::rlimit(100)]
    #[verifier::spinoff_prover]
    pub fn encode_export(&self) -> (out: Vec<u8>)
        ensures
            out@ == spec_enc_export(self@),
    {
        let mut out: Vec<u8> = Vec::new();
        let n = self.effects.len();
        emit_u64(&mut out, n as u64);
        let ghost mid = out@;
        let ghost dv = self@;
        for k in 0..n
            invariant
                n == self.effects@.len(),
                dv == self@,
                dv.len() == n,
                out@ == mid + spec_enc_export_records(dv.take(k as int)),
                mid == spec_enc_u64(n as u64),
            decreases n - k,
        {
            let ghost pre = out@;
            let e = &self.effects[k];
            emit_string(&mut out, &e.name);
            emit_opt_string(&mut out, &e.parent);
            emit_opt_usize(&mut out, &e.texture_index);
            let compiled = e.produce();
            emit_compiled(&mut out, &compiled);
            proof {
                assert(dv[k as int] == self.effects@[k as int]@);
                assert(compiled@ == spec_produce_effect(dv[k as int]));
                let r1 = spec_enc_string(dv[k as int].name);
                let r2 = spec_enc_opt_string(dv[k as int].parent);
                let r3 = spec_enc_opt_usize(dv[k as int].texture_index);
                let r4 = spec_enc_compiled(spec_produce_effect(dv[k as int]));
                seq_add_assoc(pre, r1, r2);
                seq_add_assoc(pre, r1 + r2, r3);
                seq_add_assoc(pre, r1 + r2 + r3, r4);
                seq_add_assoc(r1, r2, r3);
                seq_add_assoc(r1 + r2, r3, r4);
                seq_add_assoc(r1, r2, r3 + r4);
                assert(pre + r1 + r2 + r3 + r4 == pre + (r1 + r2 + r3 + r4));
                lemma_enc_export_records_snoc(dv.take(k as int), dv[k as int]);
                assert(dv.take(k + 1 as int) =~= dv.take(k as int).push(dv[k as int]));
                seq_add_assoc(
                    mid,
                    spec_enc_export_records(dv.take(k as int)),
                    spec_enc_export_record(dv[k as int]),
                );
            }
        }
        proof {
            assert(dv.take(n as int) =~= dv);
            assert(mid + spec_enc_export_records(dv) =~= spec_enc_export(dv));
        }
        out
    }
}

} // verus!
