use rtlsdr::codec::{HwInfo, EEPROM_SIZE};
use rtlsdr::{Device, Error};

fn sample_record() -> HwInfo {
    HwInfo {
        vendor_id: 0x0BDA,
        product_id: 0x2838,
        manufact: "Realtek".to_string(),
        product: "RTL2838".to_string(),
        serial: "00000001".to_string(),
        have_serial: true,
        enable_ir: false,
        remote_wakeup: false,
    }
}

#[test]
fn fresh_handle_is_open() {
    let d = Device::new();
    assert_eq!(d.check_open(), None);
}

#[test]
fn closed_handle_reports_no_device() {
    let mut d = Device::new();
    d.close();
    assert_eq!(d.check_open(), Some(Error::NoDevice));
}

#[test]
fn closed_handle_refuses_hw_info() {
    let mut d = Device::new();
    let info = sample_record();
    d.close();
    let (img, e) = d.set_hw_info(&info);
    assert_eq!(e, Error::NoDevice);
    assert!(img.is_empty());
    let data = vec![0u8; EEPROM_SIZE];
    let (back, e2) = d.get_hw_info(&data, Error::NoError);
    assert_eq!(e2, Error::NoDevice);
    assert_eq!(back.vendor_id, 0);
    assert_eq!(back.manufact, "");
    assert!(!back.have_serial);
}

#[test]
fn open_handle_round_trips_record() {
    let d = Device::new();
    let info = sample_record();
    let (img, e) = d.set_hw_info(&info);
    assert_eq!(e, Error::NoError);
    let mut data = img.clone();
    data.resize(EEPROM_SIZE, 0);
    let (back, e2) = d.get_hw_info(&data, Error::NoError);
    assert_eq!(e2, Error::NoError);
    assert_eq!(back.vendor_id, info.vendor_id);
    assert_eq!(back.product_id, info.product_id);
    assert_eq!(back.manufact, info.manufact);
    assert_eq!(back.product, info.product);
    assert_eq!(back.serial, info.serial);
    assert_eq!(back.have_serial, info.have_serial);
    assert_eq!(back.enable_ir, info.enable_ir);
    assert_eq!(back.remote_wakeup, info.remote_wakeup);
}
