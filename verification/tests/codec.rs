use omagari::{
    attr_from_tag, attr_tag, attr_to_label, derive_export_filename, validate_project_filename,
    AttrKind, ColorBlendMask, ColorBlendMode, CpuValue, EffectDescriptor, EventEmitCondition,
    ExprNode, ExprOp, FloatBits, GradientKeyVec4, GradientVec4, ModifierDescriptor,
    ProjectDocument, RenderModifierDescriptor, ShapeDimension, SpawnerSettings, Vec3Bits,
    Vec4Bits,
};

fn float(v: f32) -> FloatBits {
    FloatBits { bits: v.to_bits() }
}

fn vec3(x: f32, y: f32, z: f32) -> Vec3Bits {
    Vec3Bits { x: float(x), y: float(y), z: float(z) }
}

fn rich_effect() -> EffectDescriptor {
    EffectDescriptor {
        name: String::from("Étincelle ✨"),
        parent: Some(String::from("Feu")),
        capacity: 4096,
        spawner_settings: SpawnerSettings {
            count: CpuValue::Range(float(10.0), float(20.0)),
            spawn_duration: CpuValue::Single(float(1.0)),
            period: CpuValue::Single(float(2.5)),
            cycle_count: 3,
        },
        texture_index: Some(4),
        init_modifiers: vec![
            ModifierDescriptor::SetAttribute {
                attr: AttrKind::Lifetime,
                attr_expr: ExprNode::Operator(Box::new(ExprOp::Uniform(
                    ExprNode::Float(float(0.5)),
                    ExprNode::Float(float(1.5)),
                ))),
            },
            ModifierDescriptor::SetPositionCircle {
                center_expr: ExprNode::Vec3(vec3(0.0, 0.0, 0.0)),
                axis_expr: ExprNode::Vec3(vec3(0.0, 1.0, 0.0)),
                radius_expr: ExprNode::Float(float(0.2)),
                dimension: ShapeDimension::Volume,
            },
            ModifierDescriptor::InheritAttribute { attr: AttrKind::Position },
            ModifierDescriptor::SetVelocityTangent {
                origin_expr: ExprNode::Vec3(vec3(0.0, 0.0, 0.0)),
                axis_expr: ExprNode::Vec3(vec3(0.0, 1.0, 0.0)),
                speed_expr: ExprNode::Operator(Box::new(ExprOp::Normalized(
                    ExprNode::RandVec3,
                ))),
            },
        ],
        update_modifiers: vec![
            ModifierDescriptor::Accel {
                accel_expr: ExprNode::Operator(Box::new(ExprOp::Vec3(
                    ExprNode::RandFloat,
                    ExprNode::Time,
                    ExprNode::Age,
                ))),
            },
            ModifierDescriptor::EmitSpawnEvent {
                condition: EventEmitCondition::OnDie,
                count_expr: ExprNode::U32(5),
                child_index: 1,
            },
            ModifierDescriptor::ConformToSphere {
                origin_expr: ExprNode::Vec3(vec3(0.0, 2.0, 0.0)),
                radius_expr: ExprNode::Float(float(1.0)),
                influence_dist_expr: ExprNode::Float(float(10.0)),
                attraction_accel_expr: ExprNode::Float(float(2.0)),
                max_attraction_speed_expr: ExprNode::Float(float(2.0)),
            },
        ],
        render_modifiers: vec![
            RenderModifierDescriptor::default_size_over_lifetime(),
            RenderModifierDescriptor::ColorOverLifetime {
                gradient: GradientVec4 {
                    keys: vec![
                        GradientKeyVec4 {
                            t: float(0.3),
                            v: Vec4Bits {
                                x: float(1.0),
                                y: float(0.5),
                                z: float(0.0),
                                w: float(1.0),
                            },
                        },
                        GradientKeyVec4 {
                            t: float(1.0),
                            v: Vec4Bits {
                                x: float(0.0),
                                y: float(0.0),
                                z: float(0.0),
                                w: float(0.0),
                            },
                        },
                    ],
                },
                blend: Some(ColorBlendMode::Overwrite),
                mask: Some(ColorBlendMask::Rgb),
            },
        ],
    }
}

#[test]
fn empty_document_round_trips() {
    let doc = ProjectDocument { effects: Vec::new() };
    let text = doc.encode();
    assert_eq!(text, b"0\n".to_vec());
    let back = ProjectDocument::decode(&text).expect("decoding what encode wrote must work");
    assert_eq!(back, doc);
}

#[test]
fn rich_document_round_trips_field_for_field() {
    let doc = ProjectDocument {
        effects: vec![
            rich_effect(),
            EffectDescriptor::default(),
            {
                let mut third = EffectDescriptor::default();
                third.name = String::from("");
                third.parent = Some(String::from("Étincelle ✨"));
                third.texture_index = None;
                third
            },
        ],
    };
    let text = doc.encode();
    let back = ProjectDocument::decode(&text).expect("decoding what encode wrote must work");
    assert_eq!(back, doc);
}

#[test]
fn encoded_text_is_decimal_lines() {
    let doc = ProjectDocument { effects: vec![EffectDescriptor::default()] };
    let text = doc.encode();
    assert!(text.iter().all(|b| b.is_ascii_digit() || *b == b'\n'));
    assert_eq!(text.last(), Some(&b'\n'));
}

#[test]
fn decode_refuses_empty_input() {
    assert!(ProjectDocument::decode(&Vec::new()).is_err());
}

#[test]
fn decode_refuses_garbage() {
    assert!(ProjectDocument::decode(&b"not a project".to_vec()).is_err());
    assert!(ProjectDocument::decode(&b"1\n".to_vec()).is_err());
    assert!(ProjectDocument::decode(&b"99999999999999999999\n".to_vec()).is_err());
}

#[test]
fn decode_refuses_trailing_bytes() {
    let doc = ProjectDocument { effects: Vec::new() };
    let mut text = doc.encode();
    text.push(b'\n');
    let err = ProjectDocument::decode(&text).expect_err("trailing bytes must be refused");
    assert!(err.offset <= text.len());
}

#[test]
fn decode_reports_an_offset_inside_the_input() {
    let err = ProjectDocument::decode(&b"2\nxyz".to_vec()).expect_err("malformed");
    assert!(err.offset <= 5);
}

#[test]
fn attr_labels_match_the_catalog() {
    assert_eq!(attr_to_label(AttrKind::Id), "ID");
    assert_eq!(attr_to_label(AttrKind::HdrColor), "HDR Color");
    assert_eq!(attr_to_label(AttrKind::RibbonId), "Ribbon ID");
    assert_eq!(attr_to_label(AttrKind::F32X2_3), "F32X2_3");
}

#[test]
fn attr_tags_are_stable_and_invertible() {
    for tag in 0..39u64 {
        let attr = attr_from_tag(tag).expect("every catalog tag maps to an attribute");
        assert_eq!(attr_tag(attr), tag);
    }
    assert_eq!(attr_from_tag(39), None);
    assert_eq!(attr_tag(AttrKind::Id), 0);
    assert_eq!(attr_tag(AttrKind::RibbonId), 38);
}

#[test]
fn project_filenames_must_end_with_the_suffix() {
    assert!(validate_project_filename("fire.omagari.ron"));
    assert!(validate_project_filename(".omagari.ron"));
    assert!(validate_project_filename("dir.omagari.ron.omagari.ron"));
    assert!(!validate_project_filename("fire.omagari.ron.bak"));
    assert!(!validate_project_filename("fire.ron"));
    assert!(!validate_project_filename("omagari.ron"));
    assert!(!validate_project_filename(""));
}

#[test]
fn export_filename_replaces_the_extension() {
    assert_eq!(derive_export_filename("fire.omagari.ron"), "fire.omagari.baked.ron");
    assert_eq!(derive_export_filename("a b.omagari.ron"), "a b.omagari.baked.ron");
}

#[test]
fn export_starts_with_the_record_count() {
    let doc = ProjectDocument { effects: vec![rich_effect()] };
    let baked = doc.encode_export();
    assert!(baked.starts_with(b"1\n"));
    let again = doc.encode_export();
    assert_eq!(baked, again);
}

#[test]
fn export_of_empty_document_is_just_the_count() {
    let doc = ProjectDocument { effects: Vec::new() };
    assert_eq!(doc.encode_export(), b"0\n".to_vec());
}

#[test]
fn hand_written_text_decodes_to_expected_document() {
    // One effect: name "A", no parent, capacity 7, an all-zero spawner,
    // no texture index, and empty modifier lists.
    let text = b"1\n1\n65\n0\n7\n0\n0\n0\n0\n0\n0\n0\n0\n0\n0\n0\n".to_vec();
    let doc = ProjectDocument::decode(&text).expect("the documented format must decode");
    assert_eq!(doc.effects.len(), 1);
    let e = &doc.effects[0];
    assert_eq!(e.name, "A");
    assert_eq!(e.parent, None);
    assert_eq!(e.capacity, 7);
    assert_eq!(e.spawner_settings.count, CpuValue::Single(FloatBits { bits: 0 }));
    assert_eq!(e.spawner_settings.cycle_count, 0);
    assert_eq!(e.texture_index, None);
    assert!(e.init_modifiers.is_empty());
    assert!(e.update_modifiers.is_empty());
    assert!(e.render_modifiers.is_empty());
    // And the encoder writes this same document back as this same text.
    assert_eq!(doc.encode(), text);
}

#[test]
fn surrogate_code_point_is_refused() {
    // A name claiming one character with a surrogate code point cannot be
    // a string: decoding must fail rather than invent a character.
    let text = b"1\n1\n55296\n".to_vec();
    assert!(ProjectDocument::decode(&text).is_err());
}
