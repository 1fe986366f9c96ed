//! The project document, and its resolution into a spawn plan.
//!
//! A document is an ordered list of effect descriptors; order governs both
//! the editing surface's stacking and parent resolution. Spawning compiles
//! every effect in document order and links each effect to its parent by
//! name, looking only among the effects processed so far (the effect itself
//! included, matching how the name table is filled before the lookup). A
//! parent listed after its child, or never listed, leaves the child
//! unlinked: the plan records that explicitly rather than silently. Where
//! several earlier effects share the name, the most recent one wins.
//!
//! A texture index beyond the host's texture table is reported as an error
//! before anything spawns, instead of faulting mid-spawn.

use vstd::prelude::*;

use crate::effect::{opt_string_view, spec_effective_texture_index, spec_produce_effect,
    CompiledEffect, EffectDescriptor, EffectDescriptorView};

verus! {

/// An ordered project: the unit of persistence and editing.
#[derive(Debug, PartialEq, Eq)]
pub struct ProjectDocument {
    pub effects: Vec<EffectDescriptor>,
}

/// The mathematical value of a document: its effects, in order.
pub open spec fn spec_doc_view(effects: Seq<EffectDescriptor>) -> Seq<EffectDescriptorView> {
    effects.map_values(|e: EffectDescriptor| e@)
}

impl View for ProjectDocument {
    type V = Seq<EffectDescriptorView>;

    open spec fn view(&self) -> Seq<EffectDescriptorView> {
        spec_doc_view(self.effects@)
    }
}

/// How one spawned effect relates to a parent effect.
#[derive(Clone, Copy, Debug, PartialEq, Eq, Structural)]
pub enum ParentRef {
    /// The descriptor names no parent.
    NoParent,
    /// The parent is the effect at this document index, already processed.
    Linked(usize),
    /// A parent was named but no effect processed so far carries the name:
    /// it comes later in the document, does not exist, or was shadowed. The
    /// spawned effect stays unlinked for this whole pass.
    Unresolved,
}

/// The names of a document's effects, in order.
pub open spec fn spec_names_view(names: Seq<String>) -> Seq<Seq<char>> {
    names.map_values(|s: String| s@)
}

/// The optional parent names, in order.
pub open spec fn spec_parents_view(parents: Seq<Option<String>>) -> Seq<Option<Seq<char>>> {
    parents.map_values(|p: Option<String>| opt_string_view(p))
}

/// The link for a parent named `p` at position `i`: the greatest position
/// at or before `i` whose name is `p`, or `Unresolved` when there is none.
pub open spec fn spec_lookup_parent(names: Seq<Seq<char>>, p: Seq<char>, i: int) -> ParentRef
    decreases i + 1,
{
    if i < 0 {
        ParentRef::Unresolved
    } else if names[i] == p {
        ParentRef::Linked(i as usize)
    } else {
        spec_lookup_parent(names, p, i - 1)
    }
}

/// The link of the effect at position `i`, given every effect's name and
/// optional parent name.
pub open spec fn spec_resolve_link(
    names: Seq<Seq<char>>,
    parents: Seq<Option<Seq<char>>>,
    i: int,
) -> ParentRef {
    match parents[i] {
        None => ParentRef::NoParent,
        Some(p) => spec_lookup_parent(names, p, i),
    }
}

/// Find the parent link for position `i`: search backwards from `i` itself.
fn lookup_parent(names: &Vec<String>, p: &String, i: usize) -> (r: ParentRef)
    requires
        i < names@.len(),
    ensures
        r == spec_lookup_parent(spec_names_view(names@), p@, i as int),
{
    let ghost nv = spec_names_view(names@);
    let mut j: usize = i;
    loop
        invariant
            j <= i < names@.len(),
            nv == spec_names_view(names@),
            spec_lookup_parent(nv, p@, i as int) == spec_lookup_parent(nv, p@, j as int),
        decreases j,
    {
        proof {
            assert(nv[j as int] == names@[j as int]@);
        }
        if names[j] == *p {
            return ParentRef::Linked(j);
        }
        if j == 0 {
            return ParentRef::Unresolved;
        }
        j = j - 1;
    }
}

/// Resolve every effect's parent link, in order. Listing a child before its
/// parent leaves the child `Unresolved`: resolution is order-dependent, and
/// a later parent never links an earlier child within one pass.
pub fn resolve_parent_links(names: &Vec<String>, parents: &Vec<Option<String>>) -> (r: Vec<
    ParentRef,
>)
    requires
        names@.len() == parents@.len(),
    ensures
        r@.len() == names@.len(),
        forall|i: int| 0 <= i < r@.len() ==> r@[i] == spec_resolve_link(
            spec_names_view(names@),
            spec_parents_view(parents@),
            i,
        ),
{
    let ghost nv = spec_names_view(names@);
    let ghost pv = spec_parents_view(parents@);
    let n = names.len();
    let mut r: Vec<ParentRef> = Vec::new();
    for i in 0..n
        invariant
            n == names@.len(),
            n == parents@.len(),
            nv == spec_names_view(names@),
            pv == spec_parents_view(parents@),
            r@.len() == i,
            forall|k: int| 0 <= k < i ==> r@[k] == spec_resolve_link(nv, pv, k),
    {
        proof {
            assert(pv[i as int] == opt_string_view(parents@[i as int]));
        }
        let link = match &parents[i] {
            None => ParentRef::NoParent,
            Some(p) => lookup_parent(names, p, i),
        };
        r.push(link);
    }
    r
}

/// Why a spawn plan was refused.
#[derive(Clone, Copy, Debug, PartialEq, Eq, Structural)]
pub enum SpawnError {
    /// An effect samples a texture table entry the host does not have. The
    /// first offending effect is reported.
    TextureIndexOutOfRange { effect_index: usize, texture_index: usize, texture_count: usize },
}

/// One effect of a spawn plan: what to hand the runtime, which texture to
/// bind, and which earlier plan entry is its parent.
#[derive(Debug, PartialEq, Eq)]
pub struct SpawnDirective {
    pub compiled: CompiledEffect,
    /// Index into the host's texture table; already checked in range.
    pub texture_index: usize,
    pub parent: ParentRef,
}

/// The names of a document's effects.
pub open spec fn spec_doc_names(d: Seq<EffectDescriptorView>) -> Seq<Seq<char>> {
    d.map_values(|e: EffectDescriptorView| e.name)
}

/// The optional parent names of a document's effects.
pub open spec fn spec_doc_parents(d: Seq<EffectDescriptorView>) -> Seq<Option<Seq<char>>> {
    d.map_values(|e: EffectDescriptorView| e.parent)
}

impl ProjectDocument {
    /// Plan one full spawn pass over a host texture table of `texture_count`
    /// entries: compile every effect in document order, bind its texture,
    /// and resolve its parent link among the effects processed so far.
    ///
    /// The plan replaces the previous pass wholesale; applying it is the
    /// host's affair. Planning succeeds exactly when every effect's
    /// effective texture index is in range; otherwise the first offending
    /// effect is reported and nothing is handed out.
    pub fn plan_spawn(&self, texture_count: usize) -> (r: Result<Vec<SpawnDirective>, SpawnError>)
        ensures
            r is Ok <==> (forall|i: int| 0 <= i < self@.len() ==> spec_effective_texture_index(
                #[trigger] self@[i].texture_index,
            ) < texture_count),
            r matches Ok(plan) ==> {
                &&& plan@.len() == self@.len()
                &&& forall|i: int| 0 <= i < plan@.len() ==> (#[trigger] plan@[i]).compiled@
                    == spec_produce_effect(self@[i])
                &&& forall|i: int| 0 <= i < plan@.len() ==> (#[trigger] plan@[i]).texture_index
                    == spec_effective_texture_index(self@[i].texture_index)
                &&& forall|i: int| 0 <= i < plan@.len() ==> (#[trigger] plan@[i]).parent
                    == spec_resolve_link(spec_doc_names(self@), spec_doc_parents(self@), i)
            },
            r matches Err(e) ==> {
                let SpawnError::TextureIndexOutOfRange {
                    effect_index,
                    texture_index,
                    texture_count: c,
                } = e;
                &&& c == texture_count
                &&& 0 <= effect_index < self@.len()
                &&& texture_index == spec_effective_texture_index(
                    self@[effect_index as int].texture_index,
                )
                &&& texture_index >= texture_count
                &&& forall|k: int| 0 <= k < effect_index ==> spec_effective_texture_index(
                    #[trigger] self@[k].texture_index,
                ) < texture_count
            },
    {
        let ghost dv = self@;
        let ghost nv = spec_doc_names(dv);
        let ghost pv = spec_doc_parents(dv);
        let n = self.effects.len();
        let mut names: Vec<String> = Vec::new();
        let mut parents: Vec<Option<String>> = Vec::new();
        for i in 0..n
            invariant
                n == self.effects@.len(),
                dv == self@,
                names@.len() == i,
                parents@.len() == i,
                forall|k: int| 0 <= k < i ==> (#[trigger] names@[k])@ == dv[k].name,
                forall|k: int| 0 <= k < i ==> opt_string_view(#[trigger] parents@[k])
                    == dv[k].parent,
        {
            names.push(self.effects[i].name.clone());
            parents.push(self.effects[i].parent());
            proof {
                assert(dv[i as int] == self.effects@[i as int]@);
            }
        }
        proof {
            assert(spec_names_view(names@) =~= nv);
            assert(spec_parents_view(parents@) =~= pv);
        }
        let links = resolve_parent_links(&names, &parents);

        let mut plan: Vec<SpawnDirective> = Vec::new();
        for i in 0..n
            invariant
                n == self.effects@.len(),
                n == links@.len(),
                dv == self@,
                nv == spec_doc_names(dv),
                pv == spec_doc_parents(dv),
                forall|k: int| 0 <= k < n ==> #[trigger] links@[k] == spec_resolve_link(nv, pv, k),
                plan@.len() == i,
                forall|k: int| 0 <= k < i ==> (#[trigger] plan@[k]).compiled@
                    == spec_produce_effect(dv[k]),
                forall|k: int| 0 <= k < i ==> (#[trigger] plan@[k]).texture_index
                    == spec_effective_texture_index(dv[k].texture_index),
                forall|k: int| 0 <= k < i ==> (#[trigger] plan@[k]).parent == links@[k],
                forall|k: int| 0 <= k < i ==> spec_effective_texture_index(
                    #[trigger] dv[k].texture_index,
                ) < texture_count,
        {
            proof {
                assert(dv[i as int] == self.effects@[i as int]@);
            }
            let texture_index = match self.effects[i].texture_index {
                Some(t) => t,
                None => 0,
            };
            if texture_index >= texture_count {
                return Err(SpawnError::TextureIndexOutOfRange {
                    effect_index: i,
                    texture_index,
                    texture_count,
                });
            }
            let compiled = self.effects[i].produce();
            plan.push(SpawnDirective { compiled, texture_index, parent: links[i] });
        }
        Ok(plan)
    }
}

/// One edit of an ordered list on the editing surface.
#[derive(Clone, Copy, Debug, PartialEq, Eq)]
pub enum ListCommand {
    /// Delete the entry at this position.
    Remove(usize),
    /// Exchange the entries at these two positions.
    Swap((usize, usize)),
}

impl ListCommand {
    /// Apply this edit to a list. Both positions must be in range.
    pub fn apply<T>(&self, list: &mut Vec<T>)
        requires
            match *self {
                ListCommand::Remove(i) => i < old(list)@.len(),
                ListCommand::Swap((a, b)) => a < old(list)@.len() && b < old(list)@.len(),
            },
        ensures
            match *self {
                ListCommand::Remove(i) => final(list)@ == old(list)@.remove(i as int),
                ListCommand::Swap((a, b)) => final(list)@ == old(list)@.update(
                    a as int,
                    old(list)@[b as int],
                ).update(b as int, old(list)@[a as int]),
            },
    {
        let ghost s = list@;
        match self {
            ListCommand::Remove(i) => {
                list.remove(*i);
            },
            ListCommand::Swap((a, b)) => {
                let (a, b) = (*a, *b);
                if a == b {
                    proof {
                        assert(s.update(a as int, s[b as int]).update(b as int, s[a as int])
                            =~= s);
                    }
                } else {
                    let (lo, hi) = if a < b {
                        (a, b)
                    } else {
                        (b, a)
                    };
                    let vhi = list.remove(hi);
                    let vlo = list.remove(lo);
                    list.insert(lo, vhi);
                    list.insert(hi, vlo);
                    proof {
                        let t = s.update(a as int, s[b as int]).update(b as int, s[a as int]);
                        assert(list@ =~= t) by {
                            assert forall|k: int| 0 <= k < t.len() implies list@[k] == t[k] by {
                                if k == lo {
                                } else if k == hi {
                                } else if k < lo {
                                } else if k < hi {
                                } else {
                                }
                            }
                        }
                    }
                }
            },
        }
    }
}

} // verus!
