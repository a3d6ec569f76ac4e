use adzuna::models::{decode_flag, ContractTime, ContractType, Country, SortBy, SortDirection};
use adzuna::parameters::{Flag, NumberField, Parameters, TextField, MAX_LOCATIONS};
use adzuna::wire::{decimal_string, str_equal};

#[test]
fn decimal_formats_numbers() {
    assert_eq!(decimal_string(0), "0");
    assert_eq!(decimal_string(7), "7");
    assert_eq!(decimal_string(10), "10");
    assert_eq!(decimal_string(1234), "1234");
    assert_eq!(decimal_string(usize::MAX), usize::MAX.to_string());
}

#[test]
fn strings_compare_by_characters() {
    assert!(str_equal("", ""));
    assert!(str_equal("héllo", "héllo"));
    assert!(!str_equal("abc", "abd"));
    assert!(!str_equal("abc", "ab"));
}

#[test]
fn country_codes() {
    assert_eq!(Country::UnitedKingdom.to_code(), "gb");
    assert_eq!(Country::UnitedStates.to_code(), "us");
    assert_eq!(Country::Austria.to_code(), "at");
    assert_eq!(Country::Australia.to_code(), "au");
    assert_eq!(Country::Belgium.to_code(), "be");
    assert_eq!(Country::Brazil.to_code(), "br");
    assert_eq!(Country::Canada.to_code(), "ca");
    assert_eq!(Country::Switzerland.to_code(), "ch");
    assert_eq!(Country::Germany.to_code(), "de");
    assert_eq!(Country::Spain.to_code(), "es");
    assert_eq!(Country::France.to_code(), "fr");
    assert_eq!(Country::India.to_code(), "in");
    assert_eq!(Country::Italy.to_code(), "it");
    assert_eq!(Country::Mexico.to_code(), "mx");
    assert_eq!(Country::Netherlands.to_code(), "nl");
    assert_eq!(Country::NewZealand.to_code(), "nz");
    assert_eq!(Country::Poland.to_code(), "pl");
    assert_eq!(Country::Russia.to_code(), "ru");
    assert_eq!(Country::Singapore.to_code(), "sg");
    assert_eq!(Country::SouthAfrica.to_code(), "za");
}

#[test]
fn sort_names() {
    assert_eq!(SortBy::Default.to_string(), "default");
    assert_eq!(SortBy::Hybrid.to_string(), "hybrid");
    assert_eq!(SortBy::Date.to_string(), "date");
    assert_eq!(SortBy::Salary.to_string(), "salary");
    assert_eq!(SortBy::Relevance.to_string(), "relevance");
    assert_eq!(SortDirection::Up.to_string(), "up");
    assert_eq!(SortDirection::Down.to_string(), "down");
}

#[test]
fn predicted_salary_flag_decodes_from_text() {
    assert!(decode_flag("1"));
    assert!(!decode_flag("0"));
    assert!(!decode_flag(""));
    assert!(!decode_flag("11"));
    assert!(!decode_flag("true"));
}

#[test]
fn contract_fields_decode_from_text() {
    assert_eq!(ContractType::decode(Some("permanent")), Some(ContractType::Permanent));
    assert_eq!(ContractType::decode(Some("contract")), Some(ContractType::Contract));
    assert_eq!(ContractType::decode(Some("temporary")), None);
    assert_eq!(ContractType::decode(None), None);
    assert_eq!(ContractTime::decode(Some("full_time")), Some(ContractTime::FullTime));
    assert_eq!(ContractTime::decode(Some("part_time")), Some(ContractTime::PartTime));
    assert_eq!(ContractTime::decode(Some("full")), None);
    assert_eq!(ContractTime::decode(None), None);
}

#[test]
fn empty_bag_sends_nothing() {
    let p = Parameters::new();
    assert!(p.to_query().is_empty());
    assert!(Parameters::default().to_query().is_empty());
}

#[test]
fn bag_setters_store_their_values() {
    let mut p = Parameters::new();
    p.set_text(TextField::Place, "london");
    p.set_number(NumberField::Months, 3);
    p.set_flag(Flag::Permanent);
    p.set_flag(Flag::Permanent);
    p.set_sort_by(SortBy::Hybrid);
    p.set_sort_dir(SortDirection::Down);
    assert_eq!(p.place, Some("london".to_string()));
    assert_eq!(p.months, Some(3));
    assert!(p.permanent);
    assert_eq!(p.sort_by, Some(SortBy::Hybrid));
    assert_eq!(
        p.to_query(),
        vec![
            ("months".to_string(), "3".to_string()),
            ("where".to_string(), "london".to_string()),
            ("permanent".to_string(), "1".to_string()),
            ("sort_dir".to_string(), "down".to_string()),
            ("sort_by".to_string(), "hybrid".to_string()),
        ]
    );
}

#[test]
fn location_slots_stop_at_eight() {
    let mut p = Parameters::new();
    for i in 0..12 {
        p.add_location(&format!("l{i}"));
    }
    assert_eq!(p.locations.len(), MAX_LOCATIONS);
    assert_eq!(p.locations[0], "l0");
    assert_eq!(p.locations[7], "l7");
    let q = p.to_query();
    assert_eq!(q.len(), 8);
    assert_eq!(q[7], ("location7".to_string(), "l7".to_string()));
}

#[test]
fn location_keys_count_past_nine() {
    let mut p = Parameters::new();
    for i in 0..11 {
        p.locations.push(format!("l{i}"));
    }
    let q = p.to_query();
    assert_eq!(q.len(), 11);
    assert_eq!(q[10], ("location10".to_string(), "l10".to_string()));
}
