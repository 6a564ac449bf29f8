use client_balance::domain::model::entity::balance::Balance;
use client_balance::domain::model::error::ClientError;
use client_balance::domain::model::value::amount::MonetaryAmount;
use client_balance::domain::model::value::client_id::ClientId;
use client_balance::infrastructure::outbound::file_exporter::{
    export_line, extract_counter, is_export_file, line_from, FileExporter,
};

#[test]
fn counter_stands_between_the_first_underscore_and_the_dot() {
    assert_eq!(extract_counter("27102026_12.DAT"), Some(12));
    assert_eq!(extract_counter("27102026_007.DAT"), Some(7));
    assert_eq!(extract_counter("a_3_4.DAT"), Some(3));
    assert_eq!(extract_counter("a_5"), Some(5));
    assert_eq!(extract_counter("día_8.DAT"), Some(8));
    assert_eq!(extract_counter("_+9.x.y"), Some(9));
}

#[test]
fn counter_is_none_without_underscore_or_number() {
    assert_eq!(extract_counter("27102026.DAT"), None);
    assert_eq!(extract_counter(""), None);
    assert_eq!(extract_counter("a_.DAT"), None);
    assert_eq!(extract_counter("a_b.DAT"), None);
    assert_eq!(extract_counter("a__1.DAT"), None);
    assert_eq!(extract_counter("a_-1.DAT"), None);
    assert_eq!(extract_counter("a_99999999999999999999999999.DAT"), None);
}

#[test]
fn export_files_end_in_dat() {
    assert!(is_export_file("x.DAT"));
    assert!(is_export_file(".DAT"));
    assert!(!is_export_file("x.dat"));
    assert!(!is_export_file("DAT"));
    assert!(!is_export_file("x.DAT "));
    assert!(is_export_file("ñ_1.DAT"));
}

#[test]
fn exporter_resumes_after_the_highest_counter() {
    let names: Vec<String> = vec![
        "01012026_2.DAT".to_string(),
        "notes_50.txt".to_string(),
        "02012026_11.DAT".to_string(),
        "03012026_x.DAT".to_string(),
        "04012026_3.DAT".to_string(),
    ];
    assert_eq!(FileExporter::new(&names).counter(), 11);
    assert_eq!(FileExporter::new(&Vec::new()).counter(), 0);
}

#[test]
fn exporter_plans_one_numbered_file_per_snapshot() {
    let mut exporter = FileExporter::new(&vec!["01012026_4.DAT".to_string()]);
    let balances = vec![
        Balance::new(ClientId::from_number(0), MonetaryAmount::from_integer(100)),
        Balance::new(ClientId::from_number(12), MonetaryAmount::new(-5050, 2).unwrap()),
    ];
    let file = exporter.plan_export(&balances, "27102026").unwrap();
    assert_eq!(file.name(), "27102026_5.DAT");
    assert_eq!(file.lines(), &vec!["0 100\n".to_string(), "12 -50.50\n".to_string()]);
    assert_eq!(exporter.counter(), 5);
    let file = exporter.plan_export(&balances[..1], "28102026").unwrap();
    assert_eq!(file.name(), "28102026_6.DAT");
    assert_eq!(file.lines().len(), 1);
}

#[test]
fn exporter_refuses_an_empty_snapshot_without_counting() {
    let mut exporter = FileExporter::new(&Vec::new());
    assert_eq!(exporter.plan_export(&[], "27102026").err().unwrap(), ClientError::BalancesEmpty);
    assert_eq!(exporter.counter(), 0);
}

#[test]
fn exporter_stops_when_the_counter_cannot_go_on() {
    let last = format!("x_{}.DAT", usize::MAX);
    let mut exporter = FileExporter::new(&vec![last]);
    assert_eq!(exporter.counter(), usize::MAX);
    let balances = vec![Balance::new(ClientId::from_number(0), MonetaryAmount::zero())];
    let error = exporter.plan_export(&balances, "27102026").err().unwrap();
    assert_eq!(error.code(), "CLIENT_UNKNOWN_ERROR");
    assert_eq!(exporter.counter(), usize::MAX);
}

#[test]
fn export_line_is_id_space_amount() {
    let balance = Balance::new(ClientId::from_number(7), MonetaryAmount::new(1, 3).unwrap());
    assert_eq!(export_line(&balance), "7 0.001\n");
}

#[test]
fn line_is_joined_from_its_texts() {
    assert_eq!(line_from("12", "-0.50"), "12 -0.50\n");
    assert_eq!(line_from("", ""), " \n");
}
