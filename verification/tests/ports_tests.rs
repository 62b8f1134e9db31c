use rs485_switch::ports::{str_contains, usb_port_label, USBSerialPortInfo};

#[test]
fn contains_finds_substrings() {
    assert!(str_contains("USB Serial COM3 adapter", "COM3"));
    assert!(str_contains("COM3", "COM3"));
    assert!(str_contains("anything", ""));
    assert!(!str_contains("USB Serial", "COM3"));
    assert!(!str_contains("CO", "COM3"));
}

#[test]
fn label_falls_back_to_the_port_name_without_a_product() {
    assert_eq!(usb_port_label("COM7", None), "COM7");
}

#[test]
fn label_is_the_product_when_it_already_names_the_port() {
    assert_eq!(usb_port_label("COM3", Some("USB Serial COM3")), "USB Serial COM3");
}

#[test]
fn label_prefixes_the_port_name_otherwise() {
    assert_eq!(usb_port_label("COM3", Some("USB Serial")), "(COM3) - USB Serial");
}

#[test]
fn port_info_holds_the_raw_name_and_the_label() {
    let info = USBSerialPortInfo::new(String::from("/dev/ttyUSB0"), Some("FT232R"));
    assert_eq!(info.value, "/dev/ttyUSB0");
    assert_eq!(info.label, "(/dev/ttyUSB0) - FT232R");
}
