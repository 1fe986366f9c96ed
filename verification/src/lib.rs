//! Verified core of a particle-effect authoring tool: an editable document of
//! effect descriptors, a compiler from descriptor trees to an instruction
//! module consumed by an external simulation runtime, document-order parent
//! resolution for spawning, and a text codec for the project file.

mod attr;
mod codec;
mod document;
mod effect;
mod export;
mod expr;
mod filename;
mod modifier;
mod values;

pub use attr::{attr_from_tag, attr_tag, attr_to_label, spec_attr_from_tag, spec_attr_label,
    spec_attr_tag, AttrKind};
pub use document::{resolve_parent_links, spec_doc_names, spec_doc_parents, spec_doc_view,
    spec_lookup_parent, spec_names_view, spec_parents_view, spec_resolve_link, ListCommand,
    ParentRef, ProjectDocument, SpawnDirective, SpawnError};
pub use effect::{opt_string_view, spec_effective_texture_index, spec_init_selected,
    spec_produce_effect, spec_produce_modifier_list, spec_update_selected, AlphaMode,
    CompiledEffect, CompiledEffectView, CpuValue, EffectDescriptor, EffectDescriptorView,
    SpawnerSettings};
pub use expr::{lowered_leaf, spec_produce_expr, spec_produce_op, BinaryOp, ExprHandle, ExprModule,
    ExprNode, ExprOp, ModuleEntry, UnaryOp};
pub use modifier::{default_color_blend_mask, default_color_blend_mode, spec_produce_modifier,
    spec_produce_render, ColorBlendMask, ColorBlendMode, EventEmitCondition, GradientKeyVec3,
    GradientKeyVec4, GradientVec3, GradientVec4, ModifierDescriptor, ModifierInstruction,
    RenderInstrView, RenderInstruction, RenderModView, RenderModifierDescriptor, ShapeDimension};
pub use codec::{lemma_round_trip, spec_decode_project, spec_doc_fits, spec_doc_no_placeholder,
    spec_effect_fits, spec_effect_no_placeholder, spec_enc_project, spec_expr_no_placeholder,
    spec_modifier_no_placeholder, spec_op_no_placeholder, spec_render_fits, DecodeError};
pub use export::{spec_enc_compiled, spec_enc_export, spec_enc_export_record};
pub use filename::{derive_export_filename, spec_is_project_filename, spec_project_suffix,
    validate_project_filename};
pub use modifier::{vec3_one, vec3_splat_two, vec3_unit_y, vec3_zero};
pub use values::{FloatBits, Vec3Bits, Vec4Bits};
