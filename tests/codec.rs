use meowlog::{
    create_ingestions_file, create_substances_file, ensure_ingestion_files,
    ensure_store, ensure_substance_file, load, load_store, save, Category, Config, Date, Dose,
    Ingestion, IngestionMethod, Status, Store, StoreError, Substance, SubstanceClass, Time,
    Unit,
};

fn sample_substances() -> Store<Substance> {
    let mut store = Store::new();
    store.insert(
        1,
        Substance {
            name: "Caffeine".to_string(),
            class: SubstanceClass::Stimulant,
        },
    );
    store.insert(
        u128::MAX,
        Substance {
            name: "Café ☕ 咖啡".to_string(),
            class: SubstanceClass::Neurotransmitter,
        },
    );
    store.insert(
        0x1234_5678_9abc_def0_1234_5678_9abc_def0,
        Substance {
            name: String::new(),
            class: SubstanceClass::Empathogen,
        },
    );
    store
}

fn sample_ingestion() -> Ingestion {
    Ingestion {
        substance: Substance {
            name: "LSD".to_string(),
            class: SubstanceClass::Psychedelic,
        },
        dose: Dose {
            unit: "ug".to_string(),
            value_bits: 117.25f64.to_bits(),
        },
        ingestion_method: IngestionMethod::Sublingual,
        time: Time::new(23, 59, 59, 1_500_000_000).unwrap(),
        date: Date::new(-44, 3, 15).unwrap(),
    }
}

#[test]
fn substance_store_round_trip() {
    let store = sample_substances();
    let bytes = save(&store);
    let back: Store<Substance> = load(&bytes).unwrap();
    assert_eq!(back.len(), store.len());
    for i in 0..store.len() {
        let (id_a, a) = store.entry(i);
        let (id_b, b) = back.entry(i);
        assert_eq!(id_a, id_b);
        assert_eq!(a.name, b.name);
        assert_eq!(a.class, b.class);
    }
    assert_eq!(save(&back), bytes);
}

#[test]
fn ingestion_store_round_trip() {
    let mut store: Store<Ingestion> = Store::new();
    store.insert(42, sample_ingestion());
    let bytes = save(&store);
    let back: Store<Ingestion> = load(&bytes).unwrap();
    assert_eq!(back.len(), 1);
    let (id, v) = back.entry(0);
    let w = sample_ingestion();
    assert_eq!(id, 42);
    assert_eq!(v.substance.name, w.substance.name);
    assert_eq!(v.substance.class, w.substance.class);
    assert_eq!(v.dose.unit, w.dose.unit);
    assert_eq!(f64::from_bits(v.dose.value_bits), 117.25);
    assert_eq!(v.ingestion_method, w.ingestion_method);
    assert_eq!(v.time, w.time);
    assert_eq!(v.date, w.date);
}

#[test]
fn substance_store_exact_bytes() {
    let mut store: Store<Substance> = Store::new();
    store.insert(
        1,
        Substance {
            name: "A".to_string(),
            class: SubstanceClass::Psychedelic,
        },
    );
    let mut expected = vec![1u8, 0, 0, 0, 0, 0, 0, 0];
    expected.extend_from_slice(&[1u8, 0, 0, 0, 0, 0, 0, 0, 0, 0, 0, 0, 0, 0, 0, 0]);
    expected.extend_from_slice(&[1u8, 0, 0, 0, 0, 0, 0, 0, b'A']);
    expected.extend_from_slice(&[2u8, 0, 0, 0]);
    assert_eq!(save(&store), expected);
}

#[test]
fn empty_store_bytes() {
    assert_eq!(create_substances_file(), vec![0u8; 8]);
    assert_eq!(create_ingestions_file(), vec![0u8; 8]);
}

#[test]
fn ensure_twice_on_fresh_path() {
    let (first, written) = ensure_substance_file(None).unwrap();
    assert!(first.is_empty());
    let written = written.expect("a missing file is created");
    let (second, again) = ensure_substance_file(Some(&written)).unwrap();
    assert!(second.is_empty());
    assert!(again.is_none());
    let (first, written) = ensure_ingestion_files(None).unwrap();
    assert!(first.is_empty());
    let (second, again) = ensure_ingestion_files(Some(&written.unwrap())).unwrap();
    assert!(second.is_empty());
    assert!(again.is_none());
}

#[test]
fn ensure_reads_existing_store() {
    let bytes = save(&sample_substances());
    let (store, write) = ensure_store::<Substance>(Some(&bytes)).unwrap();
    assert_eq!(store.len(), 3);
    assert!(write.is_none());
}

#[test]
fn load_before_bootstrap_is_missing() {
    let r = load_store::<Substance>(None);
    assert_eq!(r.err(), Some(StoreError::MissingStore));
    let bytes = save(&sample_substances());
    assert_eq!(load_store::<Substance>(Some(&bytes)).unwrap().len(), 3);
}

#[test]
fn corrupt_stores_are_rejected() {
    let good = save(&sample_substances());
    let truncated = &good[..good.len() - 1];
    assert_eq!(load::<Substance>(truncated).err(), Some(StoreError::CorruptStore));
    let mut trailing = good.clone();
    trailing.push(0);
    assert_eq!(load::<Substance>(&trailing).err(), Some(StoreError::CorruptStore));
    assert_eq!(load::<Substance>(&[1, 2, 3]).err(), Some(StoreError::CorruptStore));
    assert_eq!(
        ensure_substance_file(Some(&[9u8, 9])).err(),
        Some(StoreError::CorruptStore)
    );
}

#[test]
fn bad_class_and_text_are_rejected() {
    let mut one: Store<Substance> = Store::new();
    one.insert(
        1,
        Substance {
            name: "A".to_string(),
            class: SubstanceClass::Stimulant,
        },
    );
    let good = save(&one);
    let mut bad_class = good.clone();
    let n = bad_class.len();
    bad_class[n - 4] = 9;
    assert_eq!(load::<Substance>(&bad_class).err(), Some(StoreError::CorruptStore));
    let mut bad_text = good.clone();
    bad_text[n - 5] = 0xff;
    assert_eq!(load::<Substance>(&bad_text).err(), Some(StoreError::CorruptStore));
}

#[test]
fn duplicate_identifiers_are_rejected() {
    let mut one: Store<Substance> = Store::new();
    one.insert(
        5,
        Substance {
            name: "A".to_string(),
            class: SubstanceClass::Stimulant,
        },
    );
    let good = save(&one);
    let mut doubled = vec![2u8, 0, 0, 0, 0, 0, 0, 0];
    doubled.extend_from_slice(&good[8..]);
    doubled.extend_from_slice(&good[8..]);
    assert_eq!(load::<Substance>(&doubled).err(), Some(StoreError::CorruptStore));
}

#[test]
fn invalid_dates_are_rejected() {
    let mut store: Store<Ingestion> = Store::new();
    let mut ing = sample_ingestion();
    ing.date = Date::new(2024, 2, 29).unwrap();
    store.insert(1, ing);
    let mut bytes = save(&store);
    let n = bytes.len();
    bytes[n - 12] = 0xe7;
    bytes[n - 11] = 0x07;
    assert_eq!(load::<Ingestion>(&bytes).err(), Some(StoreError::CorruptStore));
    bytes[n - 12] = 0xe8;
    assert!(load::<Ingestion>(&bytes).is_ok());
}

#[test]
fn config_paths() {
    let c = Config {
        save_dir: "/home/u/.local/share/meowlog".to_string(),
    };
    assert_eq!(c.substances_file(), "/home/u/.local/share/meowlog/substances.bin");
    assert_eq!(c.ingestions_file(), "/home/u/.local/share/meowlog/ingestions.bin");
}

#[test]
fn drug_database_names() {
    assert_eq!(Category::HabitForming.name(), "habit-forming");
    assert_eq!(Category::from_name("research-chemical"), Some(Category::ResearchChemical));
    assert_eq!(Category::from_name("Research-Chemical"), None);
    assert_eq!(Status::from_name("Low Risk & Synergy"), Some(Status::LowRiskAndSynergy));
    assert_eq!(Status::Unsafe.name(), "Unsafe");
    assert_eq!(Unit::from_name("minutes"), Some(Unit::Minutes));
    assert_eq!(Unit::from_name("days"), None);
}

#[test]
fn error_messages() {
    assert!(StoreError::NoSubstances.message().contains("add a substance"));
    assert!(StoreError::CorruptStore.message().contains("hex editor"));
}
