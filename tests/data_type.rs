use bluster::{GattDataType, TData};
use std::sync::Arc;

#[test]
fn characteristic_is_shared() {
    let inner = Arc::new(String::from("battery level"));
    let data: GattDataType<String, u32> = GattDataType::Characteristic(inner.clone());
    let got = data.get_characteristic();
    assert!(Arc::ptr_eq(&got, &inner));
    assert_eq!(*got, "battery level");
}

#[test]
fn descriptor_is_shared() {
    let inner = Arc::new(0x2902u32);
    let data: GattDataType<String, u32> = GattDataType::Descriptor(inner.clone());
    let copy = data.clone();
    assert!(Arc::ptr_eq(&copy.get_descriptor(), &inner));
    assert_eq!(*data.get_descriptor(), 0x2902);
}

#[test]
fn empty_and_marker() {
    let data: GattDataType<String, u32> = GattDataType::Empty;
    assert!(matches!(data.clone(), GattDataType::Empty));
    let _marker: TData = TData::default();
}
