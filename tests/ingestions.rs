use meowlog::{
    add_ingestion, add_substance, build_ingestion, edit_ingestion, find_ingestion,
    remove_ingestion, Date, Dose, DoseUnit, Ingestion, IngestionEdit, IngestionMethod, Store,
    StoreError, Substance, SubstanceClass, Time,
};

fn substance(name: &str, class: SubstanceClass) -> Substance {
    Substance {
        name: name.to_string(),
        class,
    }
}

fn dose(value: f64, unit: &str) -> Dose {
    Dose {
        unit: unit.to_string(),
        value_bits: value.to_bits(),
    }
}

fn ingestion(name: &str, class: SubstanceClass, date: (i32, u32, u32), hm: (u32, u32)) -> Ingestion {
    Ingestion {
        substance: substance(name, class),
        dose: dose(10.0, "mg"),
        ingestion_method: IngestionMethod::Oral,
        time: Time::new(hm.0, hm.1, 0, 0).unwrap(),
        date: Date::new(date.0, date.1, date.2).unwrap(),
    }
}

fn amount(d: &Dose) -> String {
    f64::from_bits(d.value_bits).to_string()
}

#[test]
fn end_to_end_log_and_list() {
    let mut substances: Store<Substance> = Store::new();
    let mut ingestions: Store<Ingestion> = Store::new();
    assert!(add_substance(&mut substances, "LSD".to_string(), SubstanceClass::Psychedelic).is_some());
    let ing = build_ingestion(
        &substances,
        "LSD",
        dose(100.0, &DoseUnit::Ug.to_string()),
        IngestionMethod::Sublingual,
        Date::new(2024, 1, 1).unwrap(),
        Time::new(9, 0, 0, 0).unwrap(),
    )
    .unwrap();
    add_ingestion(&mut ingestions, ing);
    assert_eq!(ingestions.len(), 1);
    let (_, listed) = ingestions.entry(0);
    assert_eq!(listed.substance.class, SubstanceClass::Psychedelic);
    assert_eq!(listed.ingestion_method, IngestionMethod::Sublingual);
    let line = listed.to_line(&amount(&listed.dose));
    assert_eq!(line, "2024-01-01 09:00   LSD 100ug");
}

#[test]
fn list_line_with_fraction_and_padding() {
    let mut ing = ingestion("Caffeine", SubstanceClass::Stimulant, (987, 12, 31), (23, 5));
    ing.dose = dose(0.5, "g");
    assert_eq!(ing.to_line(&amount(&ing.dose)), "0987-12-31 23:05   Caffeine 0.5g");
}

#[test]
fn build_requires_a_substance() {
    let substances: Store<Substance> = Store::new();
    let r = build_ingestion(
        &substances,
        "LSD",
        dose(1.0, "ug"),
        IngestionMethod::Oral,
        Date::new(2024, 1, 1).unwrap(),
        Time::new(9, 0, 0, 0).unwrap(),
    );
    assert_eq!(r.unwrap_err(), StoreError::NoSubstances);
}

#[test]
fn build_with_unknown_or_shared_name_fails() {
    let mut substances: Store<Substance> = Store::new();
    substances.insert(1, substance("A", SubstanceClass::Stimulant));
    substances.insert(2, substance("A", SubstanceClass::Depressant));
    substances.insert(3, substance("B", SubstanceClass::Depressant));
    let d = Date::new(2024, 1, 1).unwrap();
    let t = Time::new(9, 0, 0, 0).unwrap();
    let r = build_ingestion(&substances, "C", dose(1.0, "mg"), IngestionMethod::Oral, d, t);
    assert_eq!(r.unwrap_err(), StoreError::NotFound);
    let r = build_ingestion(&substances, "A", dose(1.0, "mg"), IngestionMethod::Oral, d, t);
    assert_eq!(r.unwrap_err(), StoreError::AmbiguousName);
    let r = build_ingestion(&substances, "B", dose(1.0, "mg"), IngestionMethod::Oral, d, t);
    assert_eq!(r.unwrap().substance.class, SubstanceClass::Depressant);
}

#[test]
fn shared_key_is_ambiguous() {
    let mut store: Store<Ingestion> = Store::new();
    let a = ingestion("LSD", SubstanceClass::Psychedelic, (2024, 1, 1), (9, 0));
    let mut b = ingestion("LSD", SubstanceClass::Psychedelic, (2024, 1, 1), (9, 0));
    b.dose = dose(200.0, "ug");
    store.insert(1, a.clone());
    store.insert(2, b);
    assert_eq!(find_ingestion(&store, &a), Err(StoreError::AmbiguousName));
    let r = edit_ingestion(&mut store, &a, IngestionEdit::Method(IngestionMethod::Buccal));
    assert_eq!(r, Err(StoreError::AmbiguousName));
    assert_eq!(store.entry(0).1.ingestion_method, IngestionMethod::Oral);
}

#[test]
fn find_ingestion_by_key() {
    let mut store: Store<Ingestion> = Store::new();
    store.insert(1, ingestion("LSD", SubstanceClass::Psychedelic, (2024, 1, 1), (9, 0)));
    store.insert(2, ingestion("LSD", SubstanceClass::Psychedelic, (2024, 1, 2), (9, 0)));
    let key = ingestion("LSD", SubstanceClass::Psychedelic, (2024, 1, 2), (9, 0));
    assert_eq!(find_ingestion(&store, &key), Ok(1));
    let other_class = ingestion("LSD", SubstanceClass::Entheogen, (2024, 1, 2), (9, 0));
    assert_eq!(find_ingestion(&store, &other_class), Err(StoreError::NotFound));
}

#[test]
fn edit_ingestion_replaces_one_field() {
    let mut store: Store<Ingestion> = Store::new();
    let key = ingestion("LSD", SubstanceClass::Psychedelic, (2024, 1, 1), (9, 0));
    store.insert(5, key.clone());
    let r = edit_ingestion(&mut store, &key, IngestionEdit::Date(Date::new(2024, 2, 29).unwrap()));
    assert_eq!(r, Ok(0));
    let (id, v) = store.entry(0);
    assert_eq!(id, 5);
    assert_eq!(v.date, Date::new(2024, 2, 29).unwrap());
    assert_eq!(v.time, key.time);
    assert_eq!(v.substance.name, "LSD");
    assert_eq!(v.dose.unit, "mg");
    let edited = v.with_edit(IngestionEdit::Dose(dose(3.0, "ml")));
    assert_eq!(edited.dose.unit, "ml");
    assert_eq!(edited.date, v.date);
}

#[test]
fn remove_ingestion_does_nothing() {
    let mut store: Store<Ingestion> = Store::new();
    store.insert(1, ingestion("LSD", SubstanceClass::Psychedelic, (2024, 1, 1), (9, 0)));
    remove_ingestion(&mut store);
    assert_eq!(store.len(), 1);
}

#[test]
fn dose_units_and_methods() {
    assert_eq!(DoseUnit::all(), vec![DoseUnit::Ug, DoseUnit::Mg, DoseUnit::G, DoseUnit::Ml]);
    assert_eq!(DoseUnit::Ug.to_string(), "ug");
    assert_eq!(DoseUnit::Ml.to_string(), "ml");
    assert_eq!(IngestionMethod::all().len(), 11);
    assert_eq!(IngestionMethod::Sublingual.to_string(), "Sublingual");
    assert_eq!(IngestionMethod::from_index(10), Some(IngestionMethod::Inhaled));
    assert_eq!(IngestionMethod::from_index(11), None);
}

#[test]
fn dates_and_times_are_checked() {
    assert!(Date::new(2024, 2, 29).is_some());
    assert!(Date::new(2023, 2, 29).is_none());
    assert!(Date::new(1900, 2, 29).is_none());
    assert!(Date::new(2000, 2, 29).is_some());
    assert!(Date::new(2024, 4, 31).is_none());
    assert!(Date::new(2024, 13, 1).is_none());
    assert!(Date::new(2024, 0, 1).is_none());
    assert!(Date::new(2024, 1, 0).is_none());
    assert!(Date::new(262142, 12, 31).is_some());
    assert!(Date::new(262143, 1, 1).is_none());
    assert!(Date::new(-262143, 1, 1).is_some());
    assert!(Date::new(-262144, 1, 1).is_none());
    assert!(Time::new(23, 59, 59, 999_999_999).is_some());
    assert!(Time::new(23, 59, 59, 1_999_999_999).is_some());
    assert!(Time::new(23, 59, 58, 1_000_000_000).is_none());
    assert!(Time::new(24, 0, 0, 0).is_none());
    assert!(Time::new(23, 60, 0, 0).is_none());
    assert!(Time::new(23, 59, 60, 0).is_none());
}

#[test]
fn dates_and_times_render() {
    assert_eq!(Date::new(2024, 1, 1).unwrap().to_text(), "2024-01-01");
    assert_eq!(Date::new(5, 11, 9).unwrap().to_text(), "0005-11-09");
    assert_eq!(Time::new(9, 0, 0, 0).unwrap().to_clock_text(), "09:00");
    assert_eq!(Time::new(17, 42, 13, 5).unwrap().to_clock_text(), "17:42");
    let d = Date::new(2024, 3, 7).unwrap();
    assert_eq!((d.year(), d.month(), d.day()), (2024, 3, 7));
    let t = Time::new(1, 2, 3, 4).unwrap();
    assert_eq!((t.hour(), t.minute(), t.second(), t.nano()), (1, 2, 3, 4));
}
