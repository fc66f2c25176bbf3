use rgb::build_payload;
use rgb::command::{Effect, Error};
use rgb::device::{find_target, target_identity, DeviceIdentity};

#[test]
fn static_red_with_defaults_builds_exact_buffer() {
    let buf = build_payload(Effect::SolidColor, Some("255,0,0"), None, None).unwrap();
    let mut expected = vec![0u8; 33];
    expected[0] = 0xcc;
    expected[1] = 0x16;
    expected[2] = 0x01;
    expected[3] = 0x02;
    expected[4] = 0x02;
    for zone in 0..4 {
        expected[5 + 3 * zone] = 255;
    }
    assert_eq!(buf, expected);
}

#[test]
fn rwave_with_speed_four_builds_exact_buffer() {
    let buf = build_payload(Effect::WaveRight, None, Some("4"), None).unwrap();
    let mut expected = vec![0u8; 33];
    expected[0] = 0xcc;
    expected[1] = 0x16;
    expected[2] = 0x04;
    expected[3] = 0x04;
    expected[4] = 0x02;
    expected[18] = 1;
    assert_eq!(buf, expected);
}

#[test]
fn pipeline_rejects_wrong_counts() {
    assert_eq!(
        build_payload(Effect::SolidColor, Some("255,0,0,1,2,3"), None, None),
        Err(Error::WrongTripletCount(1)),
    );
    assert_eq!(
        build_payload(Effect::ZoneColor, Some("1,2,3,4,5,6,7,8,9"), None, None),
        Err(Error::WrongTripletCount(4)),
    );
}

#[test]
fn pipeline_rejects_bad_speed_and_brightness() {
    assert_eq!(
        build_payload(Effect::Smooth, None, Some("0"), None),
        Err(Error::InvalidSpeed),
    );
    assert_eq!(
        build_payload(Effect::Smooth, None, Some("5"), None),
        Err(Error::InvalidSpeed),
    );
    assert_eq!(
        build_payload(Effect::Smooth, None, None, Some("0")),
        Err(Error::InvalidBrightness),
    );
    assert_eq!(
        build_payload(Effect::Smooth, None, None, Some("3")),
        Err(Error::InvalidBrightness),
    );
    assert_eq!(
        build_payload(Effect::Smooth, None, Some("abc"), None),
        Err(Error::MalformedNumber),
    );
}

#[test]
fn pipeline_rejects_bad_channels() {
    assert_eq!(
        build_payload(Effect::SolidColor, Some("256,0,0"), None, None),
        Err(Error::MalformedNumber),
    );
    assert_eq!(
        build_payload(Effect::SolidColor, Some("abc"), None, None),
        Err(Error::MalformedNumber),
    );
}

#[test]
fn brightness_is_checked_before_speed() {
    assert_eq!(
        build_payload(Effect::Smooth, None, Some("9"), Some("9")),
        Err(Error::InvalidBrightness),
    );
}

#[test]
fn target_identity_is_the_fixed_tuple() {
    let d = target_identity();
    assert_eq!(d.vendor_id, 0x048d);
    assert_eq!(d.product_id, 0xc965);
    assert_eq!(d.usage_page, 0xff89);
    assert_eq!(d.usage, 0x00cc);
}

#[test]
fn no_attached_device_means_not_found() {
    assert_eq!(find_target(&vec![]), None);
    let others = vec![
        DeviceIdentity { vendor_id: 0x048d, product_id: 0xc965, usage_page: 0xff89, usage: 0x00cd },
        DeviceIdentity { vendor_id: 0x1234, product_id: 0x5678, usage_page: 0xff89, usage: 0x00cc },
    ];
    assert_eq!(find_target(&others), None);
}

#[test]
fn first_matching_device_wins() {
    let target = target_identity();
    let list = vec![
        DeviceIdentity { vendor_id: 1, product_id: 2, usage_page: 3, usage: 4 },
        target,
        target,
    ];
    assert_eq!(find_target(&list), Some(1));
}
