use meowlog::{
    add_substance, edit_substance, find_by_name, get_substance, remove_substance,
    remove_substances,
    substance_exists, substances_to_vec, Store, StoreError, Substance, SubstanceClass,
    SubstanceEditOptions,
};

fn store_with(entries: &[(u128, &str, SubstanceClass)]) -> Store<Substance> {
    let mut store = Store::new();
    for (id, name, class) in entries {
        store.insert(
            *id,
            Substance {
                name: name.to_string(),
                class: *class,
            },
        );
    }
    store
}

fn names(store: &Store<Substance>) -> Vec<String> {
    substances_to_vec(store)
}

#[test]
fn substance_class_names() {
    assert_eq!(SubstanceClass::Stimulant.to_string(), "Stimulant");
    assert_eq!(SubstanceClass::Psychedelic.to_string(), "Psychedelic");
    assert_eq!(SubstanceClass::Neurotransmitter.to_string(), "Neurotransmitter");
    let all = SubstanceClass::all();
    assert_eq!(all.len(), 9);
    for (i, c) in all.iter().enumerate() {
        assert_eq!(c.index() as usize, i);
        assert_eq!(SubstanceClass::from_index(i as u32), Some(*c));
    }
    assert_eq!(SubstanceClass::from_index(9), None);
}

#[test]
fn edit_options_offered() {
    let all = SubstanceEditOptions::all();
    assert_eq!(all, vec![SubstanceEditOptions::Name, SubstanceEditOptions::Class]);
    assert_eq!(SubstanceEditOptions::Class.to_string(), "Class");
}

#[test]
fn add_substance_to_empty_store() {
    let mut store: Store<Substance> = Store::new();
    let id = add_substance(&mut store, "LSD".to_string(), SubstanceClass::Psychedelic);
    let id = id.expect("a new name is added");
    assert_eq!(store.len(), 1);
    let s = store.get(id).unwrap();
    assert_eq!(s.name, "LSD");
    assert_eq!(s.class, SubstanceClass::Psychedelic);
}

#[test]
fn add_existing_name_reports_and_keeps_store() {
    let mut store = store_with(&[(7, "Caffeine", SubstanceClass::Stimulant)]);
    let r = add_substance(&mut store, "Caffeine".to_string(), SubstanceClass::Depressant);
    assert_eq!(r, None);
    assert_eq!(store.len(), 1);
    let s = store.get(7).unwrap();
    assert_eq!(s.class, SubstanceClass::Stimulant);
}

#[test]
fn names_compare_case_sensitively() {
    let mut store = store_with(&[(7, "Caffeine", SubstanceClass::Stimulant)]);
    assert!(substance_exists(&store, "Caffeine"));
    assert!(!substance_exists(&store, "caffeine"));
    let r = add_substance(&mut store, "caffeine".to_string(), SubstanceClass::Stimulant);
    assert!(r.is_some());
    assert_eq!(store.len(), 2);
}

#[test]
fn find_by_name_outcomes() {
    let store = store_with(&[
        (1, "A", SubstanceClass::Stimulant),
        (2, "B", SubstanceClass::Depressant),
        (3, "A", SubstanceClass::Cannabinoid),
    ]);
    assert_eq!(find_by_name(&store, "B"), Ok(1));
    assert_eq!(find_by_name(&store, "C"), Err(StoreError::NotFound));
    assert_eq!(find_by_name(&store, "A"), Err(StoreError::AmbiguousName));
    let empty: Store<Substance> = Store::new();
    assert_eq!(find_by_name(&empty, "A"), Err(StoreError::NotFound));
}

#[test]
fn get_substance_copies_record() {
    let store = store_with(&[(1, "Ketamine", SubstanceClass::Dissociative)]);
    let s = get_substance(&store, "Ketamine").unwrap();
    assert_eq!(s.name, "Ketamine");
    assert_eq!(s.class, SubstanceClass::Dissociative);
    assert_eq!(get_substance(&store, "DXM").unwrap_err(), StoreError::NotFound);
    let empty: Store<Substance> = Store::new();
    assert_eq!(
        get_substance(&empty, "Ketamine").unwrap_err(),
        StoreError::NoSubstances
    );
}

#[test]
fn edit_class_keeps_identity() {
    let mut store = store_with(&[
        (1, "Caffeine", SubstanceClass::Stimulant),
        (2, "Alcohol", SubstanceClass::Depressant),
    ]);
    let r = edit_substance(&mut store, "Caffeine", None, Some(SubstanceClass::Neurotransmitter));
    assert_eq!(r, Ok(0));
    assert_eq!(store.len(), 2);
    let (id, s) = store.entry(0);
    assert_eq!(id, 1);
    assert_eq!(s.name, "Caffeine");
    assert_eq!(s.class, SubstanceClass::Neurotransmitter);
    let (id, s) = store.entry(1);
    assert_eq!(id, 2);
    assert_eq!(s.name, "Alcohol");
    assert_eq!(s.class, SubstanceClass::Depressant);
}

#[test]
fn edit_name_keeps_class() {
    let mut store = store_with(&[(9, "MDMA", SubstanceClass::Empathogen)]);
    let r = edit_substance(&mut store, "MDMA", Some("Molly".to_string()), None);
    assert_eq!(r, Ok(0));
    let s = store.get(9).unwrap();
    assert_eq!(s.name, "Molly");
    assert_eq!(s.class, SubstanceClass::Empathogen);
}

#[test]
fn edit_missing_name_fails() {
    let mut store = store_with(&[(9, "MDMA", SubstanceClass::Empathogen)]);
    let r = edit_substance(&mut store, "LSD", Some("x".to_string()), None);
    assert_eq!(r, Err(StoreError::NotFound));
    assert_eq!(names(&store), vec!["MDMA".to_string()]);
}

#[test]
fn remove_confirmed_leaves_the_other() {
    let mut store = store_with(&[
        (1, "Caffeine", SubstanceClass::Stimulant),
        (2, "Nicotine", SubstanceClass::Stimulant),
    ]);
    assert_eq!(remove_substance(&mut store, "Caffeine", true), Ok(true));
    assert_eq!(store.len(), 1);
    assert_eq!(names(&store), vec!["Nicotine".to_string()]);
    assert!(store.get(1).is_none());
    assert!(store.get(2).is_some());
}

#[test]
fn remove_unconfirmed_keeps_store() {
    let mut store = store_with(&[
        (1, "Caffeine", SubstanceClass::Stimulant),
        (2, "Nicotine", SubstanceClass::Stimulant),
    ]);
    assert_eq!(remove_substance(&mut store, "Caffeine", false), Ok(false));
    assert_eq!(
        names(&store),
        vec!["Caffeine".to_string(), "Nicotine".to_string()]
    );
}

#[test]
fn remove_ambiguous_name_fails() {
    let mut store = store_with(&[
        (1, "X", SubstanceClass::Stimulant),
        (2, "X", SubstanceClass::Deliriant),
    ]);
    assert_eq!(
        remove_substance(&mut store, "X", true),
        Err(StoreError::AmbiguousName)
    );
    assert_eq!(store.len(), 2);
}

#[test]
fn store_insert_replace_and_remove() {
    let mut store = store_with(&[(1, "A", SubstanceClass::Stimulant)]);
    store.insert(
        1,
        Substance {
            name: "B".to_string(),
            class: SubstanceClass::Entheogen,
        },
    );
    assert_eq!(store.len(), 1);
    assert_eq!(store.get(1).unwrap().name, "B");
    assert_eq!(store.position(1), Some(0));
    let removed = store.remove(1).unwrap();
    assert_eq!(removed.name, "B");
    assert!(store.is_empty());
    assert!(store.remove(1).is_none());
}

#[test]
fn fresh_identifiers_are_version_four() {
    let mut store: Store<Substance> = Store::new();
    let a = store.insert_new(Substance {
        name: "A".to_string(),
        class: SubstanceClass::Stimulant,
    });
    let b = store.insert_new(Substance {
        name: "B".to_string(),
        class: SubstanceClass::Stimulant,
    });
    assert_eq!((a >> 76) & 0xf, 4);
    assert_eq!((a >> 62) & 0x3, 2);
    assert_ne!(a, b);
    assert_eq!(store.len(), 2);
}

#[test]
fn remove_several_each_confirmed() {
    let mut store = store_with(&[
        (1, "A", SubstanceClass::Stimulant),
        (2, "B", SubstanceClass::Stimulant),
        (3, "C", SubstanceClass::Stimulant),
    ]);
    let requests = vec![
        ("A".to_string(), true),
        ("B".to_string(), false),
        ("Z".to_string(), true),
        ("C".to_string(), true),
        ("A".to_string(), true),
    ];
    let outcomes = remove_substances(&mut store, &requests);
    assert_eq!(
        outcomes,
        vec![
            Ok(true),
            Ok(false),
            Err(StoreError::NotFound),
            Ok(true),
            Err(StoreError::NotFound)
        ]
    );
    assert_eq!(names(&store), vec!["B".to_string()]);
}
