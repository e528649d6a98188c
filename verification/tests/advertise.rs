use magene_proxy::bluetooth::peripheral::advertisement_data;
use magene_proxy::bluetooth::peripheral::battery_notification;
use magene_proxy::bluetooth::peripheral::proxy_advertisement;
use magene_proxy::bluetooth::peripheral::radar_notification;
use magene_proxy::bluetooth::peripheral::DEVICE_NAME;
use magene_proxy::bluetooth::scan::parse_local_name;
use magene_proxy::errors::PeripheralError;

#[test]
fn advertisement_of_the_bridge() {
    assert_eq!(DEVICE_NAME, "RadarProxy");
    assert_eq!(
        advertisement_data(DEVICE_NAME),
        Ok(vec![
            0x02, 0x01, 0x06, 0x03, 0x02, 0x0F, 0x18, 0x0B, 0x09, b'R', b'a', b'd', b'a', b'r',
            b'P', b'r', b'o', b'x', b'y',
        ])
    );
}

#[test]
fn advertisement_with_an_empty_name() {
    assert_eq!(
        advertisement_data(""),
        Ok(vec![0x02, 0x01, 0x06, 0x03, 0x02, 0x0F, 0x18, 0x01, 0x09])
    );
}

#[test]
fn advertisement_that_just_fits() {
    let name = "0123456789012345678901";
    let data = advertisement_data(name).unwrap();
    assert_eq!(data.len(), 31);
    assert_eq!(data[7], 23);
    assert_eq!(&data[9..], name.as_bytes());
}

#[test]
fn advertisement_that_does_not_fit_is_refused() {
    assert_eq!(
        advertisement_data("01234567890123456789012"),
        Err(PeripheralError::AdStructureError)
    );
    assert_eq!(
        advertisement_data("a name that is far too long for one advertisement"),
        Err(PeripheralError::AdStructureError)
    );
}

#[test]
fn advertisement_counts_bytes_not_characters() {
    let name = "éééééééééééa";
    assert_eq!(name.chars().count(), 12);
    assert_eq!(advertisement_data(name), Err(PeripheralError::AdStructureError));
    let name = "ééééééééééé";
    assert_eq!(advertisement_data(name).unwrap().len(), 31);
}

#[test]
fn advertised_name_is_read_back() {
    let data = advertisement_data("34660-5").unwrap();
    assert_eq!(parse_local_name(&data), Some("34660-5"));
    let data = advertisement_data(DEVICE_NAME).unwrap();
    assert_eq!(parse_local_name(&data), Some("RadarProxy"));
}

#[test]
fn radar_sentinel_is_all_zero() {
    assert_eq!(radar_notification(None), [0u8; 16]);
    let record = [0x30, 1, 2, 3, 4, 5, 6, 7, 0x31, 8, 9, 10, 11, 12, 13, 14];
    assert_eq!(radar_notification(Some(record)), record);
}

#[test]
fn battery_sentinel_is_zero() {
    assert_eq!(battery_notification(None), [0u8]);
    assert_eq!(battery_notification(Some([100])), [100]);
}

#[test]
fn own_advertisement_is_the_one_built_from_the_device_name() {
    assert_eq!(Ok(proxy_advertisement()), advertisement_data(DEVICE_NAME));
    assert_eq!(proxy_advertisement().len(), 19);
}
