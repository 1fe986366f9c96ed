use omagari::{
    CpuValue, EffectDescriptor, FloatBits, ListCommand, ParentRef, ProjectDocument,
    SpawnerSettings, SpawnError,
};

fn effect(name: &str, parent: Option<&str>) -> EffectDescriptor {
    EffectDescriptor {
        name: String::from(name),
        parent: parent.map(String::from),
        capacity: 100,
        spawner_settings: SpawnerSettings {
            count: CpuValue::Single(FloatBits { bits: 0 }),
            spawn_duration: CpuValue::Single(FloatBits { bits: 0 }),
            period: CpuValue::Single(FloatBits { bits: 0 }),
            cycle_count: 0,
        },
        texture_index: Some(0),
        init_modifiers: Vec::new(),
        update_modifiers: Vec::new(),
        render_modifiers: Vec::new(),
    }
}

#[test]
fn parent_listed_before_child_links() {
    let doc = ProjectDocument {
        effects: vec![effect("A", None), effect("B", Some("A"))],
    };
    let plan = doc.plan_spawn(7).expect("plan should succeed");
    assert_eq!(plan.len(), 2);
    assert_eq!(plan[0].parent, ParentRef::NoParent);
    assert_eq!(plan[1].parent, ParentRef::Linked(0));
}

#[test]
fn parent_listed_after_child_stays_unlinked() {
    let doc = ProjectDocument {
        effects: vec![effect("B", Some("A")), effect("A", None)],
    };
    let plan = doc.plan_spawn(7).expect("plan should succeed");
    assert_eq!(plan.len(), 2);
    assert_eq!(plan[0].parent, ParentRef::Unresolved);
    assert_eq!(plan[1].parent, ParentRef::NoParent);
}

#[test]
fn missing_parent_stays_unlinked() {
    let doc = ProjectDocument {
        effects: vec![effect("Lone", Some("Nobody"))],
    };
    let plan = doc.plan_spawn(7).expect("plan should succeed");
    assert_eq!(plan[0].parent, ParentRef::Unresolved);
}

#[test]
fn most_recent_duplicate_name_wins() {
    let doc = ProjectDocument {
        effects: vec![effect("X", None), effect("X", None), effect("C", Some("X"))],
    };
    let plan = doc.plan_spawn(7).expect("plan should succeed");
    assert_eq!(plan[2].parent, ParentRef::Linked(1));
}

#[test]
fn effect_naming_itself_links_to_itself() {
    // The name table is filled before the lookup, so an effect whose
    // parent is its own name finds itself.
    let doc = ProjectDocument {
        effects: vec![effect("S", Some("S"))],
    };
    let plan = doc.plan_spawn(7).expect("plan should succeed");
    assert_eq!(plan[0].parent, ParentRef::Linked(0));
}

#[test]
fn out_of_range_texture_index_is_reported() {
    let mut bad = effect("Bad", None);
    bad.texture_index = Some(7);
    let doc = ProjectDocument {
        effects: vec![effect("Ok", None), bad],
    };
    match doc.plan_spawn(7) {
        Err(SpawnError::TextureIndexOutOfRange { effect_index, texture_index, texture_count }) => {
            assert_eq!(effect_index, 1);
            assert_eq!(texture_index, 7);
            assert_eq!(texture_count, 7);
        },
        Ok(_) => panic!("an out-of-range texture index must be refused"),
    }
}

#[test]
fn absent_texture_index_needs_a_nonempty_table() {
    let doc = ProjectDocument {
        effects: vec![effect("Any", None)],
    };
    match doc.plan_spawn(0) {
        Err(SpawnError::TextureIndexOutOfRange { effect_index, texture_index, texture_count }) => {
            assert_eq!(effect_index, 0);
            assert_eq!(texture_index, 0);
            assert_eq!(texture_count, 0);
        },
        Ok(_) => panic!("an empty texture table must refuse every effect"),
    }
}

#[test]
fn plan_compiles_every_effect_in_document_order() {
    let doc = ProjectDocument {
        effects: vec![effect("First", None), effect("Second", Some("First"))],
    };
    let plan = doc.plan_spawn(1).expect("plan should succeed");
    assert_eq!(plan[0].compiled.name, "First");
    assert_eq!(plan[1].compiled.name, "Second");
    assert_eq!(plan[0].texture_index, 0);
}

#[test]
fn list_command_remove_deletes_the_entry() {
    let mut v = vec![10, 20, 30];
    ListCommand::Remove(1).apply(&mut v);
    assert_eq!(v, vec![10, 30]);
}

#[test]
fn list_command_swap_exchanges_entries() {
    let mut v = vec![10, 20, 30, 40];
    ListCommand::Swap((0, 3)).apply(&mut v);
    assert_eq!(v, vec![40, 20, 30, 10]);
    ListCommand::Swap((2, 2)).apply(&mut v);
    assert_eq!(v, vec![40, 20, 30, 10]);
}

#[test]
fn resolve_links_works_on_bare_name_tables() {
    let names = vec![String::from("A"), String::from("B"), String::from("A")];
    let parents = vec![None, Some(String::from("A")), Some(String::from("B"))];
    let links = omagari::resolve_parent_links(&names, &parents);
    assert_eq!(links, vec![ParentRef::NoParent, ParentRef::Linked(0), ParentRef::Linked(1)]);
}
