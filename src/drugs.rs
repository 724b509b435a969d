//! The records of a drug information database: categories, dosages,
//! durations, links, and how pairs of drugs combine.
use vstd::prelude::*;

use crate::text::text_eq;

verus! {

/// A category a drug belongs to.
#[derive(Debug, Clone, Copy, PartialEq, Eq, Structural)]
pub enum Category {
    Depressant,
    HabitForming,
    Tentative,
    ResearchChemical,
    Psychedelic,
    Stimulant,
    Dissociative,
    Inactive,
    Empathogen,
    Common,
    Benzodiazepine,
    Opioid,
    Supplement,
    Nootropic,
    Barbiturate,
    Deliriant,
    Ssri,
}

/// The name under which a category is written in the drug database.
pub open spec fn category_name(x: Category) -> Seq<char> {
    match x {
        Category::Depressant => "depressant"@,
        Category::HabitForming => "habit-forming"@,
        Category::Tentative => "tentative"@,
        Category::ResearchChemical => "research-chemical"@,
        Category::Psychedelic => "psychedelic"@,
        Category::Stimulant => "stimulant"@,
        Category::Dissociative => "dissociative"@,
        Category::Inactive => "inactive"@,
        Category::Empathogen => "empathogen"@,
        Category::Common => "common"@,
        Category::Benzodiazepine => "benzodiazepine"@,
        Category::Opioid => "opioid"@,
        Category::Supplement => "supplement"@,
        Category::Nootropic => "nootropic"@,
        Category::Barbiturate => "barbiturate"@,
        Category::Deliriant => "deliriant"@,
        Category::Ssri => "ssri"@,
    }
}

impl Category {
    /// The name under which this value is written in the drug database.
    pub fn name(&self) -> (r: &'static str)
        ensures
            r@ == category_name(*self),
    {
        match self {
            Category::Depressant => "depressant",
            Category::HabitForming => "habit-forming",
            Category::Tentative => "tentative",
            Category::ResearchChemical => "research-chemical",
            Category::Psychedelic => "psychedelic",
            Category::Stimulant => "stimulant",
            Category::Dissociative => "dissociative",
            Category::Inactive => "inactive",
            Category::Empathogen => "empathogen",
            Category::Common => "common",
            Category::Benzodiazepine => "benzodiazepine",
            Category::Opioid => "opioid",
            Category::Supplement => "supplement",
            Category::Nootropic => "nootropic",
            Category::Barbiturate => "barbiturate",
            Category::Deliriant => "deliriant",
            Category::Ssri => "ssri",
        }
    }

    /// The value written as `s` in the drug database, if any.
    pub fn from_name(s: &str) -> (r: Option<Category>)
        ensures
            r matches Some(x) ==> category_name(x) == s@,
            r is None ==> forall|x: Category| category_name(x) != s@,
    {
        if text_eq(s, "depressant") {
            return Some(Category::Depressant);
        }
        if text_eq(s, "habit-forming") {
            return Some(Category::HabitForming);
        }
        if text_eq(s, "tentative") {
            return Some(Category::Tentative);
        }
        if text_eq(s, "research-chemical") {
            return Some(Category::ResearchChemical);
        }
        if text_eq(s, "psychedelic") {
            return Some(Category::Psychedelic);
        }
        if text_eq(s, "stimulant") {
            return Some(Category::Stimulant);
        }
        if text_eq(s, "dissociative") {
            return Some(Category::Dissociative);
        }
        if text_eq(s, "inactive") {
            return Some(Category::Inactive);
        }
        if text_eq(s, "empathogen") {
            return Some(Category::Empathogen);
        }
        if text_eq(s, "common") {
            return Some(Category::Common);
        }
        if text_eq(s, "benzodiazepine") {
            return Some(Category::Benzodiazepine);
        }
        if text_eq(s, "opioid") {
            return Some(Category::Opioid);
        }
        if text_eq(s, "supplement") {
            return Some(Category::Supplement);
        }
        if text_eq(s, "nootropic") {
            return Some(Category::Nootropic);
        }
        if text_eq(s, "barbiturate") {
            return Some(Category::Barbiturate);
        }
        if text_eq(s, "deliriant") {
            return Some(Category::Deliriant);
        }
        if text_eq(s, "ssri") {
            return Some(Category::Ssri);
        }
        None
    }
}

/// How risky it is to combine two drugs.
#[derive(Debug, Clone, Copy, PartialEq, Eq, Structural)]
pub enum Status {
    LowRiskAndDecrease,
    Dangerous,
    LowRiskAndNoSynergy,
    Caution,
    Unsafe,
    LowRiskAndSynergy,
}

/// The name under which a status is written in the drug database.
pub open spec fn status_name(x: Status) -> Seq<char> {
    match x {
        Status::LowRiskAndDecrease => "Low Risk & Decrease"@,
        Status::Dangerous => "Dangerous"@,
        Status::LowRiskAndNoSynergy => "Low Risk & No Synergy"@,
        Status::Caution => "Caution"@,
        Status::Unsafe => "Unsafe"@,
        Status::LowRiskAndSynergy => "Low Risk & Synergy"@,
    }
}

impl Status {
    /// The name under which this value is written in the drug database.
    pub fn name(&self) -> (r: &'static str)
        ensures
            r@ == status_name(*self),
    {
        match self {
            Status::LowRiskAndDecrease => "Low Risk & Decrease",
            Status::Dangerous => "Dangerous",
            Status::LowRiskAndNoSynergy => "Low Risk & No Synergy",
            Status::Caution => "Caution",
            Status::Unsafe => "Unsafe",
            Status::LowRiskAndSynergy => "Low Risk & Synergy",
        }
    }

    /// The value written as `s` in the drug database, if any.
    pub fn from_name(s: &str) -> (r: Option<Status>)
        ensures
            r matches Some(x) ==> status_name(x) == s@,
            r is None ==> forall|x: Status| status_name(x) != s@,
    {
        if text_eq(s, "Low Risk & Decrease") {
            return Some(Status::LowRiskAndDecrease);
        }
        if text_eq(s, "Dangerous") {
            return Some(Status::Dangerous);
        }
        if text_eq(s, "Low Risk & No Synergy") {
            return Some(Status::LowRiskAndNoSynergy);
        }
        if text_eq(s, "Caution") {
            return Some(Status::Caution);
        }
        if text_eq(s, "Unsafe") {
            return Some(Status::Unsafe);
        }
        if text_eq(s, "Low Risk & Synergy") {
            return Some(Status::LowRiskAndSynergy);
        }
        None
    }
}

/// The unit a duration is given in.
#[derive(Debug, Clone, Copy, PartialEq, Eq, Structural)]
pub enum Unit {
    Hours,
    Minutes,
}

/// The name under which a unit is written in the drug database.
pub open spec fn unit_label(x: Unit) -> Seq<char> {
    match x {
        Unit::Hours => "hours"@,
        Unit::Minutes => "minutes"@,
    }
}

impl Unit {
    /// The name under which this value is written in the drug database.
    pub fn name(&self) -> (r: &'static str)
        ensures
            r@ == unit_label(*self),
    {
        match self {
            Unit::Hours => "hours",
            Unit::Minutes => "minutes",
        }
    }

    /// The value written as `s` in the drug database, if any.
    pub fn from_name(s: &str) -> (r: Option<Unit>)
        ensures
            r matches Some(x) ==> unit_label(x) == s@,
            r is None ==> forall|x: Unit| unit_label(x) != s@,
    {
        if text_eq(s, "hours") {
            return Some(Unit::Hours);
        }
        if text_eq(s, "minutes") {
            return Some(Unit::Minutes);
        }
        None
    }
}

/// Dose ranges of one route, as written in the database.
#[derive(Debug)]
pub struct Dosage {
    pub common: Option<String>,
    pub light: Option<String>,
    pub strong: Option<String>,
    pub threshold: Option<String>,
    pub heavy: Option<String>,
    pub dangerous: Option<String>,
    pub fatal: Option<String>,
    pub note: Option<String>,
}

/// How long an effect lasts, per route, as written in the database.
#[derive(Debug)]
pub struct Duration {
    pub unit: Option<Unit>,
    pub value: Option<String>,
    pub insufflated: Option<String>,
    pub oral: Option<String>,
    pub rectal: Option<String>,
    pub vapourized: Option<String>,
    pub smoked: Option<String>,
    pub oral_er: Option<String>,
    pub oral_ir: Option<String>,
    pub intramuscular: Option<String>,
    pub intravenous: Option<String>,
    pub metabolites: Option<String>,
    pub parent: Option<String>,
    pub oral_maoi: Option<String>,
    pub buccal: Option<String>,
    pub transdermal: Option<String>,
    pub sublingual: Option<String>,
    pub insufflated_ir: Option<String>,
    pub insufflated_xr: Option<String>,
}

/// Where to read more about a drug.
#[derive(Debug)]
pub struct Links {
    pub experiences: String,
    pub pihkal: Option<String>,
    pub tihkal: Option<String>,
}

/// A source cited for a combination.
#[derive(Debug)]
pub struct SourceData {
    pub author: Option<String>,
    pub title: Option<String>,
    pub url: Option<String>,
}

/// What is known of combining a drug with another.
#[derive(Debug)]
pub struct Combo {
    pub sources: Option<Vec<SourceData>>,
    pub note: Option<String>,
    pub status: Status,
}

/// The sources cited for a drug, per topic.
#[derive(Debug)]
pub struct Sources {
    pub general: Option<Vec<String>>,
    pub dose: Option<Vec<String>>,
    pub duration: Option<Vec<String>>,
    pub bioavailability: Option<Vec<String>>,
    pub legality: Option<Vec<String>>,
    pub onset: Option<Vec<String>>,
}

} // verus!
