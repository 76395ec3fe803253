use usbfs::to_wire_count;
use usbfs::UsbfsStreams;
use usbfs::UsbfsStreamsFfi;
use usbfs::NULL_ADDRESS;

#[test]
fn test_usbfs_streams() {
    let exp_num_streams = 1;
    let exp_num_eps = 1;
    let exp_eps = [1u8];

    let exp_streams = UsbfsStreams::new()
        .with_num_streams(exp_num_streams)
        .with_eps(exp_eps.to_vec());

    let mut null_streams = UsbfsStreams::new();

    assert_eq!(exp_streams.num_streams(), exp_num_streams);
    assert_eq!(exp_streams.eps(), exp_eps.as_ref());
    assert_eq!(exp_streams.eps().len(), exp_num_eps);

    null_streams.set_num_streams(exp_num_streams);
    assert_eq!(null_streams.num_streams(), exp_num_streams);

    null_streams.set_eps(exp_eps.to_vec());
    assert_eq!(null_streams.eps(), exp_eps.as_ref());

    assert_eq!(null_streams, exp_streams);
}

#[test]
fn streams_marshal_with_one_endpoint() {
    let mut streams = UsbfsStreams::new().with_num_streams(1).with_eps(vec![1]);
    let wire = UsbfsStreamsFfi::from(&mut streams);
    assert_eq!(wire.num_streams, 1);
    assert_eq!(wire.num_eps, 1);
    assert_ne!(wire.eps, NULL_ADDRESS);
    let eps_address = wire.eps;
    assert_eq!(eps_address, streams.eps().as_ptr() as usize);
    assert_eq!(streams, UsbfsStreams::new().with_num_streams(1).with_eps(vec![1]));
}

#[test]
fn streams_marshal_without_endpoints() {
    let mut streams = UsbfsStreams::new().with_num_streams(4);
    let wire = UsbfsStreamsFfi::from(&mut streams);
    assert_eq!(wire.num_streams, 4);
    assert_eq!(wire.num_eps, 0);
    assert_eq!(wire.eps, NULL_ADDRESS);

    let mut streams = UsbfsStreams::new();
    let wire = UsbfsStreamsFfi::from(&mut streams);
    assert_eq!(wire, UsbfsStreamsFfi::new());
}

#[test]
fn streams_marshal_counts_every_endpoint() {
    let eps: Vec<u8> = (0..300u32).map(|i| i as u8).collect();
    let mut streams = UsbfsStreams::new().with_eps(eps);
    let wire = UsbfsStreamsFfi::from(&mut streams);
    assert_eq!(wire.num_eps, 300);
    assert_ne!(wire.eps, NULL_ADDRESS);
}

#[test]
fn streams_ffi_new_is_all_zero() {
    let wire = UsbfsStreamsFfi::new();
    assert_eq!(wire.num_streams, 0);
    assert_eq!(wire.num_eps, 0);
    assert_eq!(wire.eps, NULL_ADDRESS);
    assert_eq!(wire, UsbfsStreamsFfi::default());
}

#[test]
fn streams_come_back_from_their_wire_record() {
    let mut streams = UsbfsStreams::new().with_num_streams(2).with_eps(vec![1, 0x81]);
    let expected = streams.clone();
    let wire = UsbfsStreamsFfi::from(&mut streams);
    let back = UsbfsStreams::from_ffi(&wire, &[1, 0x81]);
    assert_eq!(back, expected);

    let back = UsbfsStreams::from_ffi(&wire, &[1, 0x81, 2, 3]);
    assert_eq!(back.eps(), &[1, 0x81]);
    let back = UsbfsStreams::from_ffi(&wire, &[1]);
    assert_eq!(back.eps(), &[1]);

    let mut null_wire = UsbfsStreamsFfi::new();
    null_wire.num_streams = 5;
    null_wire.num_eps = 2;
    let back = UsbfsStreams::from_ffi(&null_wire, &[1, 2]);
    assert_eq!(back.eps(), &[]);
    assert_eq!(back.num_streams(), 5);
}

#[test]
fn streams_equality_clone_and_text() {
    let streams = UsbfsStreams::new().with_num_streams(3).with_eps(vec![1, 2, 129]);
    assert_eq!(streams.clone(), streams);
    assert_ne!(streams, streams.clone().with_num_streams(2));
    assert_ne!(streams, streams.clone().with_eps(vec![1, 2]));
    assert_ne!(streams, streams.clone().with_eps(vec![1, 2, 128]));
    assert_eq!(UsbfsStreams::default(), UsbfsStreams::new());
    assert_eq!(
        streams.to_string(),
        "{\"num_streams\": 3, \"eps\": [1, 2, 129]}"
    );
    assert_eq!(
        UsbfsStreams::new().to_string(),
        "{\"num_streams\": 0, \"eps\": []}"
    );
    assert_eq!(
        UsbfsStreams::new().with_eps(vec![7]).to_string(),
        "{\"num_streams\": 0, \"eps\": [7]}"
    );
}

#[test]
fn wire_count_keeps_the_low_32_bits() {
    assert_eq!(to_wire_count(0), 0);
    assert_eq!(to_wire_count(300), 300);
    assert_eq!(to_wire_count(u32::MAX as usize), u32::MAX);
    assert_eq!(to_wire_count(0x1_0000_0000), 0);
    assert_eq!(to_wire_count(0x1_0000_0005), 5);
}
