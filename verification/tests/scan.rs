use magene_proxy::bluetooth::scan::advertises_target;
use magene_proxy::bluetooth::scan::parse_local_name;
use magene_proxy::bluetooth::scan::Address;
use magene_proxy::bluetooth::scan::AdvReport;
use magene_proxy::bluetooth::scan::ScanEventHandler;
use magene_proxy::config::TARGET_NAME;

fn named(ad_type: u8, name: &[u8]) -> Vec<u8> {
    let mut data = vec![0x02, 0x01, 0x06, (name.len() + 1) as u8, ad_type];
    data.extend_from_slice(name);
    data
}

#[test]
fn complete_local_name_is_found() {
    assert_eq!(parse_local_name(&named(0x09, b"34660-5")), Some("34660-5"));
}

#[test]
fn shortened_local_name_is_found() {
    assert_eq!(parse_local_name(&named(0x08, b"3466")), Some("3466"));
}

#[test]
fn first_name_structure_wins() {
    let mut data = named(0x08, b"short");
    data.extend_from_slice(&[5, 0x09, b'l', b'o', b'n', b'g']);
    assert_eq!(parse_local_name(&data), Some("short"));
}

#[test]
fn other_structures_are_skipped() {
    let data = [3, 0x03, 0x0F, 0x18, 2, 0x0A, 0x00, 3, 0x09, b'o', b'k'];
    assert_eq!(parse_local_name(&data), Some("ok"));
}

#[test]
fn empty_payload_has_no_name() {
    assert_eq!(parse_local_name(&[]), None);
}

#[test]
fn payload_without_name_has_no_name() {
    assert_eq!(parse_local_name(&[0x02, 0x01, 0x06]), None);
}

#[test]
fn zero_length_structure_ends_the_search() {
    let data = [0, 3, 0x09, b'o', b'k'];
    assert_eq!(parse_local_name(&data), None);
}

#[test]
fn structure_running_past_the_end_ends_the_search() {
    assert_eq!(parse_local_name(&[4, 0x09, b'a', b'b']), None);
    assert_eq!(parse_local_name(&[1]), None);
    assert_eq!(parse_local_name(&[0xFF, 0x09]), None);
}

#[test]
fn structure_ending_with_the_payload_is_read() {
    assert_eq!(parse_local_name(&[3, 0x09, b'a', b'b']), Some("ab"));
}

#[test]
fn name_structure_without_data_is_the_empty_name() {
    assert_eq!(parse_local_name(&[1, 0x09]), Some(""));
}

#[test]
fn name_that_is_not_utf8_is_skipped() {
    let data = [3, 0x09, 0xFF, 0xFE, 3, 0x08, b'o', b'k'];
    assert_eq!(parse_local_name(&data), Some("ok"));
    assert_eq!(parse_local_name(&[3, 0x09, 0xC3, 0x28]), None);
}

#[test]
fn name_of_several_bytes_per_character_is_found() {
    let data = [5, 0x09, 0xC3, 0xA9, 0xE2, 0x82];
    assert_eq!(parse_local_name(&data), None);
    let data = [6, 0x09, 0xC3, 0xA9, 0xE2, 0x82, 0xAC];
    assert_eq!(parse_local_name(&data), Some("é€"));
}

#[test]
fn target_name_matches() {
    assert_eq!(TARGET_NAME, "34660-5");
    assert!(advertises_target(&named(0x09, b"34660-5")));
    assert!(advertises_target(&named(0x08, b"34660-5")));
}

#[test]
fn proper_substring_of_the_target_does_not_match() {
    assert!(!advertises_target(&named(0x09, b"34660")));
    assert!(!advertises_target(&named(0x09, b"4660-5")));
    assert!(!advertises_target(&named(0x09, b"")));
}

#[test]
fn superstring_of_the_target_does_not_match() {
    assert!(!advertises_target(&named(0x09, b"34660-55")));
    assert!(!advertises_target(&named(0x09, b"A34660-5")));
    assert!(!advertises_target(&named(0x09, b"34660-5\0")));
}

#[test]
fn name_of_the_same_length_that_differs_does_not_match() {
    assert!(!advertises_target(&named(0x09, b"34660-6")));
    assert!(!advertises_target(&named(0x09, b"34660_5")));
}

#[test]
fn payload_without_name_does_not_match() {
    assert!(!advertises_target(&[]));
    assert!(!advertises_target(&[0x02, 0x01, 0x06]));
}

#[test]
fn matching_reports_are_returned_in_order() {
    let reports = vec![
        AdvReport { addr_kind: 1, addr: [1, 2, 3, 4, 5, 6], data: named(0x09, b"34660-5") },
        AdvReport { addr_kind: 0, addr: [9, 9, 9, 9, 9, 9], data: named(0x09, b"34660") },
        AdvReport { addr_kind: 0, addr: [6, 5, 4, 3, 2, 1], data: named(0x08, b"34660-5") },
        AdvReport { addr_kind: 1, addr: [7, 7, 7, 7, 7, 7], data: vec![] },
    ];
    let found = ScanEventHandler.on_adv_reports(&reports);
    assert_eq!(
        found,
        vec![
            Address { kind: 1, addr: [1, 2, 3, 4, 5, 6] },
            Address { kind: 0, addr: [6, 5, 4, 3, 2, 1] },
        ]
    );
}

#[test]
fn empty_batch_yields_nothing() {
    assert_eq!(ScanEventHandler.on_adv_reports(&[]), Vec::<Address>::new());
}
