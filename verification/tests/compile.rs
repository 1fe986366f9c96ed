use omagari::{
    AttrKind, CompiledEffect, CpuValue, EffectDescriptor, ExprHandle, ExprModule, ExprNode,
    ExprOp, FloatBits, ModifierDescriptor, ModifierInstruction, ModuleEntry, RenderInstruction,
    SpawnerSettings, Vec3Bits,
};

fn float(v: f32) -> FloatBits {
    FloatBits { bits: v.to_bits() }
}

fn vec3(x: f32, y: f32, z: f32) -> Vec3Bits {
    Vec3Bits { x: float(x), y: float(y), z: float(z) }
}

fn steady_spawner(rate: f32) -> SpawnerSettings {
    SpawnerSettings {
        count: CpuValue::Single(float(rate)),
        spawn_duration: CpuValue::Single(float(1.0)),
        period: CpuValue::Single(float(1.0)),
        cycle_count: 0,
    }
}

fn bare_effect(name: &str) -> EffectDescriptor {
    EffectDescriptor {
        name: String::from(name),
        parent: None,
        capacity: 1000,
        spawner_settings: steady_spawner(500.0),
        texture_index: None,
        init_modifiers: Vec::new(),
        update_modifiers: Vec::new(),
        render_modifiers: Vec::new(),
    }
}

#[test]
fn placeholder_compiles_to_zero_literal() {
    let mut module = ExprModule::new();
    let h = ExprNode::Placeholder.produce(&mut module);
    assert_eq!(module.len(), 1);
    assert_eq!(h, ExprHandle { index: 0 });
    assert_eq!(module.entry_at(h), ModuleEntry::LitFloat(float(0.0)));
}

#[test]
fn literals_and_builtins_compile_to_one_entry_each() {
    let mut module = ExprModule::new();
    let h1 = ExprNode::Float(float(2.5)).produce(&mut module);
    let h2 = ExprNode::U32(7).produce(&mut module);
    let h3 = ExprNode::Time.produce(&mut module);
    let h4 = ExprNode::Age.produce(&mut module);
    let h5 = ExprNode::RandFloat.produce(&mut module);
    assert_eq!(module.len(), 5);
    assert_eq!(module.entry_at(h1), ModuleEntry::LitFloat(float(2.5)));
    assert_eq!(module.entry_at(h2), ModuleEntry::LitU32(7));
    assert_eq!(module.entry_at(h3), ModuleEntry::Time);
    assert_eq!(module.entry_at(h4), ModuleEntry::Attr(AttrKind::Age));
    assert_eq!(module.entry_at(h5), ModuleEntry::RandFloat);
}

#[test]
fn operator_compiles_children_first() {
    let mut module = ExprModule::new();
    let tree = ExprNode::Operator(Box::new(ExprOp::Add(
        ExprNode::Float(float(1.0)),
        ExprNode::Float(float(2.0)),
    )));
    let h = tree.produce(&mut module);
    assert_eq!(module.len(), 3);
    assert_eq!(module.entry_at(ExprHandle { index: 0 }), ModuleEntry::LitFloat(float(1.0)));
    assert_eq!(module.entry_at(ExprHandle { index: 1 }), ModuleEntry::LitFloat(float(2.0)));
    assert_eq!(h, ExprHandle { index: 2 });
    match module.entry_at(h) {
        ModuleEntry::Binary(op, a, b) => {
            assert_eq!(op, omagari::BinaryOp::Add);
            assert_eq!(a, ExprHandle { index: 0 });
            assert_eq!(b, ExprHandle { index: 1 });
        },
        other => panic!("expected a binary entry, got {:?}", other),
    }
}

#[test]
fn deep_tree_compiles_and_hands_back_last_entry() {
    // A tree nested well past any fixed expectation still compiles.
    let mut tree = ExprNode::Float(float(1.0));
    for _ in 0..200 {
        tree = ExprNode::Operator(Box::new(ExprOp::Sin(tree)));
    }
    let mut module = ExprModule::new();
    let h = tree.produce(&mut module);
    assert_eq!(module.len(), 201);
    assert_eq!(h, ExprHandle { index: 200 });
}

#[test]
fn fire_scenario_compiles_to_expected_lists() {
    let mut fire = bare_effect("Fire");
    fire.texture_index = Some(2);
    fire.init_modifiers.push(ModifierDescriptor::SetAttribute {
        attr: AttrKind::Lifetime,
        attr_expr: ExprNode::Float(float(2.0)),
    });
    let compiled: CompiledEffect = fire.produce();

    assert_eq!(compiled.name, "Fire");
    assert_eq!(compiled.capacity, 1000);
    assert_eq!(compiled.init.len(), 1);
    match compiled.init[0] {
        ModifierInstruction::SetAttribute { attr, value } => {
            assert_eq!(attr, AttrKind::Lifetime);
            assert_eq!(compiled.module.entry_at(value), ModuleEntry::LitFloat(float(2.0)));
        },
        other => panic!("expected a set-attribute instruction, got {:?}", other),
    }
    assert_eq!(compiled.update.len(), 0);
    assert_eq!(compiled.render.len(), 2);
    assert_eq!(compiled.render[0], RenderInstruction::TextureSample { texture_index: 2 });
    assert_eq!(compiled.render[1], RenderInstruction::OrientAlongVelocity);
}

#[test]
fn compiling_twice_yields_identical_effects() {
    let mut e = bare_effect("Sparks");
    e.texture_index = Some(3);
    e.init_modifiers.push(ModifierDescriptor::SetPositionSphere {
        center_expr: ExprNode::Vec3(vec3(0.0, 1.0, 0.0)),
        radius_expr: ExprNode::Float(float(0.25)),
        dimension: omagari::ShapeDimension::Volume,
    });
    e.update_modifiers.push(ModifierDescriptor::Accel {
        accel_expr: ExprNode::Vec3(vec3(0.0, -9.8, 0.0)),
    });
    let a = e.produce();
    let b = e.produce();
    assert_eq!(a, b);
}

#[test]
fn render_tail_is_fixed_whatever_was_authored() {
    let mut e = bare_effect("Smoke");
    e.texture_index = Some(5);
    e.render_modifiers.push(omagari::RenderModifierDescriptor::default_size_over_lifetime());
    e.render_modifiers.push(omagari::RenderModifierDescriptor::default_color_over_lifetime());
    let compiled = e.produce();
    let n = compiled.render.len();
    assert_eq!(n, 4);
    assert_eq!(compiled.render[n - 2], RenderInstruction::TextureSample { texture_index: 5 });
    assert_eq!(compiled.render[n - 1], RenderInstruction::OrientAlongVelocity);
}

#[test]
fn absent_texture_index_samples_entry_zero() {
    let e = bare_effect("Plain");
    let compiled = e.produce();
    assert_eq!(compiled.render[0], RenderInstruction::TextureSample { texture_index: 0 });
}

#[test]
fn misplaced_modifier_compiles_but_is_dropped() {
    // An update-phase modifier authored into the init list compiles its
    // expressions into the module but emits no init instruction.
    let mut e = bare_effect("Odd");
    e.init_modifiers.push(ModifierDescriptor::Accel {
        accel_expr: ExprNode::Float(float(1.5)),
    });
    let compiled = e.produce();
    assert_eq!(compiled.init.len(), 0);
    assert_eq!(compiled.update.len(), 0);
    assert_eq!(compiled.module.len(), 1);
}

#[test]
fn gradient_keyframes_survive_compilation_verbatim() {
    let v1 = vec3(0.1, 0.1, 0.1);
    let v2 = vec3(1.0, 1.0, 1.0);
    let gradient = omagari::GradientVec3 {
        keys: vec![
            omagari::GradientKeyVec3 { t: float(0.3), v: v1 },
            omagari::GradientKeyVec3 { t: float(1.0), v: v2 },
        ],
    };
    let desc = omagari::RenderModifierDescriptor::SizeOverLifetime { gradient };
    match desc.produce() {
        RenderInstruction::SizeOverLifetime { gradient, screen_space_size } => {
            assert!(!screen_space_size);
            assert_eq!(gradient.keys.len(), 2);
            assert_eq!(gradient.keys[0], omagari::GradientKeyVec3 { t: float(0.3), v: v1 });
            assert_eq!(gradient.keys[1], omagari::GradientKeyVec3 { t: float(1.0), v: v2 });
        },
        other => panic!("expected a size-over-lifetime instruction, got {:?}", other),
    }
}

#[test]
fn out_of_order_gradient_keys_are_kept_as_authored() {
    let gradient = omagari::GradientVec4 {
        keys: vec![
            omagari::GradientKeyVec4 {
                t: float(0.9),
                v: omagari::Vec4Bits {
                    x: float(1.0),
                    y: float(0.0),
                    z: float(0.0),
                    w: float(1.0),
                },
            },
            omagari::GradientKeyVec4 {
                t: float(0.1),
                v: omagari::Vec4Bits {
                    x: float(0.0),
                    y: float(1.0),
                    z: float(0.0),
                    w: float(0.5),
                },
            },
        ],
    };
    let keys_before = gradient.keys.clone();
    let desc = omagari::RenderModifierDescriptor::ColorOverLifetime {
        gradient,
        blend: None,
        mask: None,
    };
    match desc.produce() {
        RenderInstruction::ColorOverLifetime { gradient, blend, mask } => {
            assert_eq!(gradient.keys, keys_before);
            assert_eq!(blend, omagari::ColorBlendMode::Modulate);
            assert_eq!(mask, omagari::ColorBlendMask::Rgba);
        },
        other => panic!("expected a color-over-lifetime instruction, got {:?}", other),
    }
}

#[test]
fn default_effect_matches_editing_surface_values() {
    let e = EffectDescriptor::default();
    assert_eq!(e.name, "Name your effect");
    assert_eq!(e.capacity, 16384);
    assert_eq!(e.parent, None);
    assert_eq!(e.texture_index, Some(0));
    assert_eq!(e.spawner_settings.count, CpuValue::Single(float(500.0)));
    assert_eq!(e.spawner_settings.spawn_duration, CpuValue::Single(float(1.0)));
    assert_eq!(e.spawner_settings.period, CpuValue::Single(float(1.0)));
    assert_eq!(e.spawner_settings.cycle_count, 0);
}

#[test]
fn modifier_templates_carry_expected_constants() {
    match ModifierDescriptor::default_set_velocity_circle() {
        ModifierDescriptor::SetVelocityCircle { speed_expr, axis_expr, .. } => {
            assert_eq!(speed_expr, ExprNode::Float(float(0.5)));
            assert_eq!(axis_expr, ExprNode::Vec3(vec3(0.0, 1.0, 0.0)));
        },
        other => panic!("unexpected template {:?}", other),
    }
    match ModifierDescriptor::default_linear_drag() {
        ModifierDescriptor::LinearDrag { drag_expr } => {
            assert_eq!(drag_expr, ExprNode::Placeholder);
        },
        other => panic!("unexpected template {:?}", other),
    }
    match ModifierDescriptor::default_set_position_circle() {
        ModifierDescriptor::SetPositionCircle { radius_expr, dimension, .. } => {
            assert_eq!(radius_expr, ExprNode::Float(float(0.2)));
            assert_eq!(dimension, omagari::ShapeDimension::Surface);
        },
        other => panic!("unexpected template {:?}", other),
    }
}
