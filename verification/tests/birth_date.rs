use client_balance::domain::model::error::ClientError;
use client_balance::domain::model::value::birth_date::{exists_in_calendar, BirthDate};

#[test]
fn test_01_given_a_valid_birth_date_when_creating_it_then_it_should_be_created() {
    let date_str = "1990-01-01";
    let birth_date = BirthDate::new(date_str).unwrap();
    assert_eq!(birth_date.to_string(), date_str);
}

#[test]
fn test_02_given_an_empty_birth_date_when_creating_it_then_it_should_fail() {
    let date_str = "";
    let result = BirthDate::new(date_str);
    assert!(result.is_err());
}

#[test]
fn test_03_given_an_invalid_format_birth_date_when_creating_it_then_it_should_fail() {
    let date_str = "01-01-1990";
    let result = BirthDate::new(date_str);
    assert!(result.is_err());
}

#[test]
fn test_04_given_a_non_date_string_when_creating_it_then_it_should_fail() {
    let date_str = "not-a-date";
    let result = BirthDate::new(date_str);
    assert!(result.is_err());
}

#[test]
fn test_05_given_a_birth_date_with_spaces_when_creating_it_then_it_should_be_trimmed_and_accepted() {
    let date_str = "   1990-01-01   ";
    let birth_date = BirthDate::new(date_str).unwrap();
    assert_eq!(birth_date.to_string(), "1990-01-01");
}

#[test]
fn test_06_given_a_birth_date_out_of_range_when_creating_it_then_it_should_be_accepted() {
    let date_str = "1800-01-01";
    let birth_date = BirthDate::new(date_str);
    assert!(birth_date.is_ok());
}

#[test]
fn birth_date_reports_which_rule_was_broken() {
    assert_eq!(
        BirthDate::new("   ").err().unwrap(),
        ClientError::FieldEmpty { field_name: "birth_date".to_string() }
    );
    assert_eq!(
        BirthDate::new("  2023-02-30 ").err().unwrap(),
        ClientError::FieldInvalid {
            field_name: "birth_date".to_string(),
            value: "2023-02-30".to_string()
        }
    );
}

#[test]
fn birth_date_holds_year_month_and_day() {
    let date = BirthDate::new("2024-02-29").unwrap();
    assert_eq!((date.year(), date.month(), date.day()), (2024, 2, 29));
    assert_eq!(date.to_string(), "2024-02-29");
    assert!(BirthDate::new("2023-02-29").is_err());
    assert!(BirthDate::new("1990-01-01").unwrap() < BirthDate::new("1990-01-02").unwrap());
    assert!(BirthDate::new("1989-12-31").unwrap() < BirthDate::new("1990-01-01").unwrap());
    assert_eq!(BirthDate::new("0987-06-05").unwrap().to_string(), "0987-06-05");
}

#[test]
fn birth_date_from_a_parsed_date() {
    let date = BirthDate::from_parsed("x", Some((2000, 12, 31))).unwrap();
    assert_eq!(date.to_string(), "2000-12-31");
    let invalid =
        ClientError::FieldInvalid { field_name: "birth_date".to_string(), value: "x".to_string() };
    assert_eq!(BirthDate::from_parsed("x", None).err().unwrap(), invalid);
    assert_eq!(BirthDate::from_parsed("x", Some((2000, 13, 1))).err().unwrap(), invalid);
    assert_eq!(BirthDate::from_parsed("x", Some((1900, 2, 29))).err().unwrap(), invalid);
}

#[test]
fn calendar_knows_leap_years_and_its_range() {
    assert!(exists_in_calendar(2000, 2, 29));
    assert!(!exists_in_calendar(1900, 2, 29));
    assert!(exists_in_calendar(-4, 2, 29));
    assert!(!exists_in_calendar(2015, 0, 14));
    assert!(!exists_in_calendar(2015, 4, 31));
    assert!(exists_in_calendar(262142, 12, 31));
    assert!(!exists_in_calendar(262143, 1, 1));
    assert!(exists_in_calendar(-262143, 1, 1));
    assert!(!exists_in_calendar(-262144, 12, 31));
}

#[test]
fn dates_at_the_ends_of_the_calendar_have_a_text() {
    let last = BirthDate::from_parsed("x", Some((262142, 12, 31))).unwrap();
    assert_eq!(last.to_string(), "+262142-12-31");
    let first = BirthDate::from_parsed("x", Some((-262143, 1, 1))).unwrap();
    assert_eq!(first.to_string(), "-262143-01-01");
    assert_eq!(BirthDate::new("9999-12-31").unwrap().to_string(), "9999-12-31");
}
