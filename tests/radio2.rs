use radio_typestate::radio2::{Radio, Uninitialized};

#[test]
fn radio2_test_radio() {
    let mut _radio = Radio::<Uninitialized>::default();
}

#[test]
fn test_configure() {
    let _configured_radio = loop {
        let radio = Radio::<Uninitialized>::default();
        match radio.configure() {
            Ok(radio) => break radio,
            Err(e) => {
                println!("Error: {:?}", e);
            }
        }
    };
}

#[test]
fn test_operate() {
    let radio = Radio::<Uninitialized>::default();
    let radio = radio.configure().ok().unwrap();
    let radio = radio.standby().ok().unwrap();

    let radio = radio.configure().ok().unwrap();
    let radio = radio.operate().ok().unwrap();
    let radio = radio.standby().ok().unwrap();
    assert_eq!(format!("{:?}", radio.get_data()), "Data { _value: 0 }");
}
