//! Expression trees and their lowering into a shared instruction module.
//!
//! An effect's modifiers hold expression trees. Compiling an effect lowers
//! every tree, post-order, into one module shared by the whole effect; each
//! node becomes one module entry and is referred to by its handle (its index
//! in the module). The variant set is closed, so lowering is total: it
//! terminates and succeeds for every tree, whatever its shape or depth. An
//! unset `Placeholder` node does not fail either: it lowers to the literal
//! 0.0 entry.

use vstd::prelude::*;

use crate::attr::AttrKind;
use crate::values::{FloatBits, Vec3Bits, Vec4Bits};

verus! {

/// One node of a value-expression tree.
#[derive(Debug, PartialEq, Eq)]
pub enum ExprNode {
    /// An unset slot; lowers to the literal 0.0.
    Placeholder,
    /// A uniformly random unsigned scalar, drawn per particle by the runtime.
    RandU32,
    /// A uniformly random scalar in [0, 1), drawn per particle by the runtime.
    RandFloat,
    /// A uniformly random three-component vector, drawn per particle.
    RandVec3,
    /// An operator applied to child expressions.
    Operator(Box<ExprOp>),
    /// A literal single-precision number, by bit pattern.
    Float(FloatBits),
    /// A literal unsigned scalar.
    U32(u32),
    /// A literal three-component vector, by bit pattern.
    Vec3(Vec3Bits),
    /// A literal four-component vector, by bit pattern.
    Vec4(Vec4Bits),
    /// The simulation time.
    Time,
    /// The particle's age attribute.
    Age,
}

/// An operator node; arity is fixed by the kind.
#[derive(Debug, PartialEq, Eq)]
pub enum ExprOp {
    /// A uniformly random value between the two operands.
    Uniform(ExprNode, ExprNode),
    Multiply(ExprNode, ExprNode),
    Subtract(ExprNode, ExprNode),
    Add(ExprNode, ExprNode),
    Sin(ExprNode),
    Cos(ExprNode),
    Distance(ExprNode, ExprNode),
    /// Construct a three-component vector from three scalars.
    Vec3(ExprNode, ExprNode, ExprNode),
    /// Construct a four-component vector from four scalars.
    Vec4(ExprNode, ExprNode, ExprNode, ExprNode),
    /// Pack a vector of four [0, 1] components into one unsigned scalar.
    Pack4x8UNorm(ExprNode),
    /// Read an attribute of this particle.
    Attr(AttrKind),
    /// Read an attribute of the parent particle; a parent is assumed to
    /// exist at runtime, which lowering does not check.
    ParentAttr(AttrKind),
    Normalized(ExprNode),
}

/// The unary operators of the instruction module.
#[derive(Clone, Copy, Debug, PartialEq, Eq, Structural)]
pub enum UnaryOp {
    Sin,
    Cos,
    Normalize,
    Pack4x8UNorm,
}

/// The binary operators of the instruction module.
#[derive(Clone, Copy, Debug, PartialEq, Eq, Structural)]
pub enum BinaryOp {
    Uniform,
    Multiply,
    Subtract,
    Add,
    Distance,
}

/// A handle into an effect's instruction module: the index of one entry.
#[derive(Clone, Copy, Debug, PartialEq, Eq, Structural)]
pub struct ExprHandle {
    pub index: usize,
}

/// One entry of an effect's instruction module.
#[derive(Clone, Copy, Debug, PartialEq, Eq, Structural)]
pub enum ModuleEntry {
    LitFloat(FloatBits),
    LitU32(u32),
    LitVec3(Vec3Bits),
    LitVec4(Vec4Bits),
    RandU32,
    RandFloat,
    RandVec3,
    Time,
    Attr(AttrKind),
    ParentAttr(AttrKind),
    Unary(UnaryOp, ExprHandle),
    Binary(BinaryOp, ExprHandle, ExprHandle),
    Vec3Cons(ExprHandle, ExprHandle, ExprHandle),
    Vec4Cons(ExprHandle, ExprHandle, ExprHandle, ExprHandle),
}

/// The shared instruction graph holding all compiled expression entries of
/// one effect. Handles index into it; entries only ever refer to earlier
/// entries, because children are compiled before their operator.
#[derive(Debug, PartialEq, Eq)]
pub struct ExprModule {
    entries: Vec<ModuleEntry>,
}

impl View for ExprModule {
    type V = Seq<ModuleEntry>;

    closed spec fn view(&self) -> Seq<ModuleEntry> {
        self.entries@
    }
}

impl ExprModule {
    /// A fresh, empty module.
    pub fn new() -> (r: ExprModule)
        ensures
            r@ == Seq::<ModuleEntry>::empty(),
    {
        ExprModule { entries: Vec::new() }
    }

    /// How many entries the module holds.
    pub fn len(&self) -> (r: usize)
        ensures
            r == self@.len(),
    {
        self.entries.len()
    }

    /// The entry a handle refers to.
    pub fn entry_at(&self, h: ExprHandle) -> (r: ModuleEntry)
        requires
            h.index < self@.len(),
        ensures
            r == self@[h.index as int],
    {
        self.entries[h.index]
    }

    /// Append one entry and hand back its handle.
    pub fn push_entry(&mut self, e: ModuleEntry) -> (h: ExprHandle)
        ensures
            final(self)@ == old(self)@.push(e),
            h.index == old(self)@.len(),
    {
        let i = self.entries.len();
        self.entries.push(e);
        ExprHandle { index: i }
    }
}

/// The module and handle produced by lowering one node into a module that
/// already holds `m`.
pub open spec fn spec_produce_expr(n: ExprNode, m: Seq<ModuleEntry>) -> (Seq<ModuleEntry>, ExprHandle)
    decreases n,
{
    match n {
        ExprNode::Placeholder => lowered_leaf(m, ModuleEntry::LitFloat(FloatBits { bits: 0 })),
        ExprNode::RandU32 => lowered_leaf(m, ModuleEntry::RandU32),
        ExprNode::RandFloat => lowered_leaf(m, ModuleEntry::RandFloat),
        ExprNode::RandVec3 => lowered_leaf(m, ModuleEntry::RandVec3),
        ExprNode::Operator(op) => spec_produce_op(*op, m),
        ExprNode::Float(f) => lowered_leaf(m, ModuleEntry::LitFloat(f)),
        ExprNode::U32(u) => lowered_leaf(m, ModuleEntry::LitU32(u)),
        ExprNode::Vec3(v) => lowered_leaf(m, ModuleEntry::LitVec3(v)),
        ExprNode::Vec4(v) => lowered_leaf(m, ModuleEntry::LitVec4(v)),
        ExprNode::Time => lowered_leaf(m, ModuleEntry::Time),
        ExprNode::Age => lowered_leaf(m, ModuleEntry::Attr(AttrKind::Age)),
    }
}

/// Append one leaf entry: the handle is the entry's index.
pub open spec fn lowered_leaf(m: Seq<ModuleEntry>, e: ModuleEntry) -> (Seq<ModuleEntry>, ExprHandle) {
    (m.push(e), ExprHandle { index: m.len() as usize })
}

/// The module and handle produced by lowering one operator node: children
/// first, left to right, then one entry referring to their handles.
pub open spec fn spec_produce_op(op: ExprOp, m: Seq<ModuleEntry>) -> (Seq<ModuleEntry>, ExprHandle)
    decreases op,
{
    match op {
        ExprOp::Uniform(a, b) => {
            let (m1, h1) = spec_produce_expr(a, m);
            let (m2, h2) = spec_produce_expr(b, m1);
            lowered_leaf(m2, ModuleEntry::Binary(BinaryOp::Uniform, h1, h2))
        },
        ExprOp::Multiply(a, b) => {
            let (m1, h1) = spec_produce_expr(a, m);
            let (m2, h2) = spec_produce_expr(b, m1);
            lowered_leaf(m2, ModuleEntry::Binary(BinaryOp::Multiply, h1, h2))
        },
        ExprOp::Subtract(a, b) => {
            let (m1, h1) = spec_produce_expr(a, m);
            let (m2, h2) = spec_produce_expr(b, m1);
            lowered_leaf(m2, ModuleEntry::Binary(BinaryOp::Subtract, h1, h2))
        },
        ExprOp::Add(a, b) => {
            let (m1, h1) = spec_produce_expr(a, m);
            let (m2, h2) = spec_produce_expr(b, m1);
            lowered_leaf(m2, ModuleEntry::Binary(BinaryOp::Add, h1, h2))
        },
        ExprOp::Sin(a) => {
            let (m1, h1) = spec_produce_expr(a, m);
            lowered_leaf(m1, ModuleEntry::Unary(UnaryOp::Sin, h1))
        },
        ExprOp::Cos(a) => {
            let (m1, h1) = spec_produce_expr(a, m);
            lowered_leaf(m1, ModuleEntry::Unary(UnaryOp::Cos, h1))
        },
        ExprOp::Distance(a, b) => {
            let (m1, h1) = spec_produce_expr(a, m);
            let (m2, h2) = spec_produce_expr(b, m1);
            lowered_leaf(m2, ModuleEntry::Binary(BinaryOp::Distance, h1, h2))
        },
        ExprOp::Vec3(a, b, c) => {
            let (m1, h1) = spec_produce_expr(a, m);
            let (m2, h2) = spec_produce_expr(b, m1);
            let (m3, h3) = spec_produce_expr(c, m2);
            lowered_leaf(m3, ModuleEntry::Vec3Cons(h1, h2, h3))
        },
        ExprOp::Vec4(a, b, c, d) => {
            let (m1, h1) = spec_produce_expr(a, m);
            let (m2, h2) = spec_produce_expr(b, m1);
            let (m3, h3) = spec_produce_expr(c, m2);
            let (m4, h4) = spec_produce_expr(d, m3);
            lowered_leaf(m4, ModuleEntry::Vec4Cons(h1, h2, h3, h4))
        },
        ExprOp::Pack4x8UNorm(a) => {
            let (m1, h1) = spec_produce_expr(a, m);
            lowered_leaf(m1, ModuleEntry::Unary(UnaryOp::Pack4x8UNorm, h1))
        },
        ExprOp::Attr(a) => lowered_leaf(m, ModuleEntry::Attr(a)),
        ExprOp::ParentAttr(a) => lowered_leaf(m, ModuleEntry::ParentAttr(a)),
        ExprOp::Normalized(a) => {
            let (m1, h1) = spec_produce_expr(a, m);
            lowered_leaf(m1, ModuleEntry::Unary(UnaryOp::Normalize, h1))
        },
    }
}

impl ExprNode {
    /// Lower this tree into the module, post-order, and hand back the handle
    /// of its entry. Total: every tree compiles, and `Placeholder` becomes
    /// the literal 0.0 entry rather than an error.
    pub fn produce(&self, module: &mut ExprModule) -> (h: ExprHandle)
        ensures
            (final(module)@, h) == spec_produce_expr(*self, old(module)@),
            *self is Placeholder ==> final(module)@ == old(module)@.push(
                ModuleEntry::LitFloat(FloatBits { bits: 0 }),
            ) && h.index == old(module)@.len(),
        decreases *self,
    {
        match self {
            ExprNode::Placeholder => module.push_entry(
                ModuleEntry::LitFloat(FloatBits { bits: 0 }),
            ),
            ExprNode::RandU32 => module.push_entry(ModuleEntry::RandU32),
            ExprNode::RandFloat => module.push_entry(ModuleEntry::RandFloat),
            ExprNode::RandVec3 => module.push_entry(ModuleEntry::RandVec3),
            ExprNode::Operator(op) => op.produce(module),
            ExprNode::Float(f) => module.push_entry(ModuleEntry::LitFloat(*f)),
            ExprNode::U32(u) => module.push_entry(ModuleEntry::LitU32(*u)),
            ExprNode::Vec3(v) => module.push_entry(ModuleEntry::LitVec3(*v)),
            ExprNode::Vec4(v) => module.push_entry(ModuleEntry::LitVec4(*v)),
            ExprNode::Time => module.push_entry(ModuleEntry::Time),
            ExprNode::Age => module.push_entry(ModuleEntry::Attr(AttrKind::Age)),
        }
    }
}

impl ExprOp {
    /// Lower this operator node: children first, left to right, then one
    /// entry referring to their handles.
    pub fn produce(&self, module: &mut ExprModule) -> (h: ExprHandle)
        ensures
            (final(module)@, h) == spec_produce_op(*self, old(module)@),
        decreases *self,
    {
        match self {
            ExprOp::Uniform(a, b) => {
                let h1 = a.produce(module);
                let h2 = b.produce(module);
                module.push_entry(ModuleEntry::Binary(BinaryOp::Uniform, h1, h2))
            },
            ExprOp::Multiply(a, b) => {
                let h1 = a.produce(module);
                let h2 = b.produce(module);
                module.push_entry(ModuleEntry::Binary(BinaryOp::Multiply, h1, h2))
            },
            ExprOp::Subtract(a, b) => {
                let h1 = a.produce(module);
                let h2 = b.produce(module);
                module.push_entry(ModuleEntry::Binary(BinaryOp::Subtract, h1, h2))
            },
            ExprOp::Add(a, b) => {
                let h1 = a.produce(module);
                let h2 = b.produce(module);
                module.push_entry(ModuleEntry::Binary(BinaryOp::Add, h1, h2))
            },
            ExprOp::Sin(a) => {
                let h1 = a.produce(module);
                module.push_entry(ModuleEntry::Unary(UnaryOp::Sin, h1))
            },
            ExprOp::Cos(a) => {
                let h1 = a.produce(module);
                module.push_entry(ModuleEntry::Unary(UnaryOp::Cos, h1))
            },
            ExprOp::Distance(a, b) => {
                let h1 = a.produce(module);
                let h2 = b.produce(module);
                module.push_entry(ModuleEntry::Binary(BinaryOp::Distance, h1, h2))
            },
            ExprOp::Vec3(a, b, c) => {
                let h1 = a.produce(module);
                let h2 = b.produce(module);
                let h3 = c.produce(module);
                module.push_entry(ModuleEntry::Vec3Cons(h1, h2, h3))
            },
            ExprOp::Vec4(a, b, c, d) => {
                let h1 = a.produce(module);
                let h2 = b.produce(module);
                let h3 = c.produce(module);
                let h4 = d.produce(module);
                module.push_entry(ModuleEntry::Vec4Cons(h1, h2, h3, h4))
            },
            ExprOp::Pack4x8UNorm(a) => {
                let h1 = a.produce(module);
                module.push_entry(ModuleEntry::Unary(UnaryOp::Pack4x8UNorm, h1))
            },
            ExprOp::Attr(a) => module.push_entry(ModuleEntry::Attr(*a)),
            ExprOp::ParentAttr(a) => module.push_entry(ModuleEntry::ParentAttr(*a)),
            ExprOp::Normalized(a) => {
                let h1 = a.produce(module);
                module.push_entry(ModuleEntry::Unary(UnaryOp::Normalize, h1))
            },
        }
    }
}

/// A prefix of a prefix is a prefix: used to chain lowering steps.
proof fn lemma_prefix_chain(m: Seq<ModuleEntry>, m1: Seq<ModuleEntry>, m2: Seq<ModuleEntry>)
    requires
        m.len() <= m1.len() <= m2.len(),
        m1.take(m.len() as int) == m,
        m2.take(m1.len() as int) == m1,
    ensures
        m2.take(m.len() as int) == m,
{
    assert(m2.take(m.len() as int) =~= m) by {
        assert forall|i: int| 0 <= i < m.len() implies m2[i] == m[i] by {
            assert(m1[i] == m1.take(m.len() as int)[i]);
            assert(m2[i] == m2.take(m1.len() as int)[i]);
        }
    }
}

/// Appending one entry keeps every prefix.
proof fn lemma_push_keeps_prefix(m: Seq<ModuleEntry>, e: ModuleEntry, k: int)
    requires
        0 <= k <= m.len(),
    ensures
        m.push(e).take(k) == m.take(k),
{
    assert(m.push(e).take(k) =~= m.take(k));
}

/// Lowering a node into a module of `m` entries appends at least one entry,
/// keeps every entry that was already there, and hands back the handle of
/// the last entry appended.
pub proof fn lemma_produce_expr_extends(n: ExprNode, m: Seq<ModuleEntry>)
    ensures
        ({
            let (m2, h) = spec_produce_expr(n, m);
            &&& m2.len() > m.len()
            &&& m2.take(m.len() as int) == m
            &&& h.index == ((m2.len() - 1) as usize)
            &&& h.index < m2.len()
        }),
    decreases n,
{
    match n {
        ExprNode::Operator(op) => {
            lemma_produce_op_extends(*op, m);
        },
        _ => {
            let (m2, h) = spec_produce_expr(n, m);
            assert(m2.take(m.len() as int) =~= m);
        },
    }
}

/// The operator half of [`lemma_produce_expr_extends`].
pub proof fn lemma_produce_op_extends(op: ExprOp, m: Seq<ModuleEntry>)
    ensures
        ({
            let (m2, h) = spec_produce_op(op, m);
            &&& m2.len() > m.len()
            &&& m2.take(m.len() as int) == m
            &&& h.index == ((m2.len() - 1) as usize)
            &&& h.index < m2.len()
        }),
    decreases op,
{
    let k = m.len() as int;
    match op {
        ExprOp::Uniform(a, b) | ExprOp::Multiply(a, b) | ExprOp::Subtract(a, b)
            | ExprOp::Add(a, b) | ExprOp::Distance(a, b) => {
            let (m1, _) = spec_produce_expr(a, m);
            let (m2, _) = spec_produce_expr(b, m1);
            lemma_produce_expr_extends(a, m);
            lemma_produce_expr_extends(b, m1);
            lemma_prefix_chain(m, m1, m2);
            let (mf, _) = spec_produce_op(op, m);
            lemma_push_keeps_prefix(m2, mf.last(), k);
        },
        ExprOp::Sin(a) | ExprOp::Cos(a) | ExprOp::Pack4x8UNorm(a) | ExprOp::Normalized(a) => {
            let (m1, _) = spec_produce_expr(a, m);
            lemma_produce_expr_extends(a, m);
            let (mf, _) = spec_produce_op(op, m);
            lemma_push_keeps_prefix(m1, mf.last(), k);
        },
        ExprOp::Vec3(a, b, c) => {
            let (m1, _) = spec_produce_expr(a, m);
            let (m2, _) = spec_produce_expr(b, m1);
            let (m3, _) = spec_produce_expr(c, m2);
            lemma_produce_expr_extends(a, m);
            lemma_produce_expr_extends(b, m1);
            lemma_produce_expr_extends(c, m2);
            lemma_prefix_chain(m, m1, m2);
            lemma_prefix_chain(m, m2, m3);
            let (mf, _) = spec_produce_op(op, m);
            lemma_push_keeps_prefix(m3, mf.last(), k);
        },
        ExprOp::Vec4(a, b, c, d) => {
            let (m1, _) = spec_produce_expr(a, m);
            let (m2, _) = spec_produce_expr(b, m1);
            let (m3, _) = spec_produce_expr(c, m2);
            let (m4, _) = spec_produce_expr(d, m3);
            lemma_produce_expr_extends(a, m);
            lemma_produce_expr_extends(b, m1);
            lemma_produce_expr_extends(c, m2);
            lemma_produce_expr_extends(d, m3);
            lemma_prefix_chain(m, m1, m2);
            lemma_prefix_chain(m, m2, m3);
            lemma_prefix_chain(m, m3, m4);
            let (mf, _) = spec_produce_op(op, m);
            lemma_push_keeps_prefix(m4, mf.last(), k);
        },
        ExprOp::Attr(_) | ExprOp::ParentAttr(_) => {
            let (mf, _) = spec_produce_op(op, m);
            assert(mf.take(k) =~= m);
        },
    }
}

} // verus!
