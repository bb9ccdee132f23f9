use address_labels::configuration::ApplicationSettings;
use address_labels::domain::model::address_label::{greatest_address, AddressLabel};
use address_labels::domain::model::label_data::{choose_work, label_table_request, LabelData, LABEL_TABLE_RESULT_ID};
use address_labels::domain::model::work_item::WorkItem;
use address_labels::json::{FromJson, Json};
use address_labels::json_text::parse;

#[test]
fn address_label_hands_out_its_parts() {
    let label = AddressLabel::new("\\x00ab".to_string(), "activity".to_string(), "dex trader".to_string());
    assert_eq!(label.address(), "0x00ab");
    assert_eq!(label.label_type(), "activity");
    assert_eq!(label.label_name(), "dex trader");
}

#[test]
fn address_replaces_every_backslash() {
    let label = AddressLabel::new("\\a\\b".to_string(), "".to_string(), "".to_string());
    assert_eq!(label.address(), "0a0b");
    let plain = AddressLabel::new("0xff".to_string(), "t".to_string(), "n".to_string());
    assert_eq!(plain.address(), "0xff");
}

#[test]
fn address_label_decodes_from_an_object_of_three_strings() {
    let j = parse(r#"{"label_name":"n","address":"a","label_type":"t","more":1}"#).unwrap();
    assert_eq!(
        AddressLabel::from_json(&j),
        Some(AddressLabel::new("a".to_string(), "t".to_string(), "n".to_string()))
    );
    assert_eq!(AddressLabel::from_json(&parse(r#"{"address":"a","label_type":"t"}"#).unwrap()), None);
    assert_eq!(AddressLabel::from_json(&parse(r#"{"address":1,"label_type":"t","label_name":"n"}"#).unwrap()), None);
    assert_eq!(AddressLabel::from_json(&parse(r#"["a","t","n"]"#).unwrap()), None);
    assert_eq!(AddressLabel::from_json(&Json::Null), None);
}

#[test]
fn work_item_hands_out_its_parts() {
    let item = WorkItem::new("activity".to_string(), "dex trader".to_string(), 25);
    assert_eq!(item.label_type(), "activity");
    assert_eq!(item.label_name(), "dex trader");
    assert_eq!(item.target_count(), 25);
}

#[test]
fn settings_hand_out_cookie_and_user() {
    let settings = ApplicationSettings::new("session=abc".to_string(), 121830);
    assert_eq!(settings.cookie(), "session=abc");
    assert_eq!(settings.userid(), 121830);
}

#[test]
fn a_label_is_wanted_by_amount_and_type() {
    let line = |label_type: &str, amount: usize| LabelData::new("n".to_string(), label_type.to_string(), amount);
    assert!(line("activity", 2).is_wanted());
    assert!(line("activity", 25).is_wanted());
    assert!(!line("activity", 1).is_wanted());
    assert!(!line("activity", 0).is_wanted());
    assert!(!line("ens", 10).is_wanted());
    assert!(!line("ens name", 10).is_wanted());
    assert!(line("tens", 10).is_wanted());
    assert!(!line("contract", 10).is_wanted());
    assert!(!line("smart contract name", 10).is_wanted());
    assert!(line("contrac", 10).is_wanted());
    assert!(line("", 10).is_wanted());
}

#[test]
fn chosen_work_keeps_the_order_of_the_table() {
    let lines = vec![
        LabelData::new("a".to_string(), "activity".to_string(), 5),
        LabelData::new("b".to_string(), "ens name".to_string(), 5),
        LabelData::new("c".to_string(), "project".to_string(), 1),
        LabelData::new("d".to_string(), "contract deployer".to_string(), 9),
        LabelData::new("e".to_string(), "project".to_string(), 2),
    ];
    assert_eq!(
        choose_work(lines),
        vec![
            WorkItem::new("activity".to_string(), "a".to_string(), 5),
            WorkItem::new("project".to_string(), "e".to_string(), 2),
        ]
    );
    assert_eq!(choose_work(vec![]), vec![]);
}

#[test]
fn a_line_becomes_the_demand_for_all_its_addresses() {
    let item = LabelData::new("dex trader".to_string(), "activity".to_string(), 25).into_work_item();
    assert_eq!(item, WorkItem::new("activity".to_string(), "dex trader".to_string(), 25));
}

#[test]
fn label_table_request_names_the_stored_result() {
    let j = label_table_request().to_json();
    assert_eq!(j.get_str("operationName"), Some("FindResultDataByResult"));
    let variables = j.get("variables").unwrap();
    assert_eq!(variables.get_str("result_id"), Some(LABEL_TABLE_RESULT_ID));
    assert_eq!(variables.get_str("result_id"), Some("887c3f39-89cb-4f1b-92fc-98c22dc02f2b"));
    assert_eq!(variables.get_str("error_id"), Some("00000000-0000-0000-0000-000000000000"));
}

#[test]
fn the_greatest_address_is_that_of_some_record() {
    let label = |address: &str| AddressLabel::new(address.to_string(), "t".to_string(), "n".to_string());
    assert_eq!(greatest_address(&vec![]), None);
    assert_eq!(greatest_address(&vec![label("\\x01")]), Some("0x01".to_string()));
    assert_eq!(
        greatest_address(&vec![label("\\x01"), label("\\x03"), label("\\x02")]),
        Some("0x03".to_string())
    );
    assert_eq!(
        greatest_address(&vec![label("\\x0a"), label("\\x0a"), label("\\x09f")]),
        Some("0x0a".to_string())
    );
    assert_eq!(greatest_address(&vec![label("b"), label("a\\")]), Some("b".to_string()));
    assert_eq!(greatest_address(&vec![label("\\"), label("/")]), Some("0".to_string()));
}
