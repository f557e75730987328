use undertone::device::{Wave3Device, WAVE3_PID};
use undertone::device_model::{DeviceModel, Rgb};
use undertone::wavexlr::{
    check_state_read, check_state_write, has_header_tag, parse_state, BlobTransferError, with_gain, with_leds, with_mute, WaveXlrDevice, GAIN_FULL_SCALE,
    HEADER_TAG_VALUE, OFFSET_HEADER_TAG, STATE_BLOB_LEN, WAVE_XLR_PID,
};

const SAMPLE_UNMUTED: [u8; STATE_BLOB_LEN] = [
    0x3f, 0x2c, 0x00, 0xec, 0x00, 0x01, 0x00, 0x00, 0x00, 0xcd, 0xe9, 0x00, 0x00, 0x00, 0x02,
    0xff, 0x00, 0x00, 0x00, 0xff, 0x00, 0x00, 0xff, 0x00, 0x00, 0xff, 0x00, 0x01, 0x00, 0xff,
    0x37, 0x00, 0x01, 0x01,
];

const SAMPLE_MUTED: [u8; STATE_BLOB_LEN] = [
    0x80, 0x2b, 0x00, 0xec, 0x01, 0x01, 0x00, 0x00, 0x00, 0xcd, 0xe9, 0x00, 0x00, 0x00, 0x02,
    0xff, 0x00, 0x00, 0xaa, 0xff, 0x00, 0xaa, 0xff, 0x00, 0xaa, 0xff, 0x00, 0x01, 0x00, 0xff,
    0x37, 0x00, 0x01, 0x01,
];

fn gain_fraction(raw: u16) -> f32 {
    f32::from(raw.min(GAIN_FULL_SCALE)) / f32::from(GAIN_FULL_SCALE)
}

#[test]
fn device_model_usb_pids_are_unique() {
    let pids = [
        DeviceModel::Wave1.usb_pid(),
        DeviceModel::Wave3.usb_pid(),
        DeviceModel::WaveXlr.usb_pid(),
        DeviceModel::XlrDock.usb_pid(),
    ];
    let mut sorted = pids;
    sorted.sort_unstable();
    let mut v = sorted.to_vec();
    v.dedup();
    assert_eq!(v.len(), pids.len(), "duplicate PIDs across models");
}

#[test]
fn device_model_names_are_nonempty() {
    for model in [DeviceModel::Wave1, DeviceModel::Wave3, DeviceModel::WaveXlr, DeviceModel::XlrDock] {
        assert!(!model.name().is_empty());
    }
}

#[test]
fn device_model_pid_matches_const() {
    assert_eq!(DeviceModel::WaveXlr.usb_pid(), WAVE_XLR_PID);
    assert_eq!(DeviceModel::Wave3.usb_pid(), WAVE3_PID);
}

#[test]
fn header_tag_matches_samples() {
    assert_eq!(SAMPLE_UNMUTED[OFFSET_HEADER_TAG], HEADER_TAG_VALUE);
    assert_eq!(SAMPLE_MUTED[OFFSET_HEADER_TAG], HEADER_TAG_VALUE);
    assert!(has_header_tag(&SAMPLE_UNMUTED));
}

#[test]
fn parse_unmuted_sample() {
    let state = parse_state(&SAMPLE_UNMUTED);
    assert!(!state.mic_muted);
    let expected = gain_fraction(0x2C3F);
    assert!((gain_fraction(state.mic_gain_raw) - expected).abs() < f32::EPSILON);
    assert_eq!(state.mic_gain_raw, 0x2C3F);
}

#[test]
fn parse_muted_sample() {
    let state = parse_state(&SAMPLE_MUTED);
    assert!(state.mic_muted);
}

#[test]
fn parse_caps_gain_at_full_scale() {
    let mut blob = SAMPLE_UNMUTED;
    blob[0] = 0xff;
    blob[1] = 0xff;
    assert_eq!(parse_state(&blob).mic_gain_raw, GAIN_FULL_SCALE);
}

#[test]
fn mute_write_reads_back_and_keeps_other_bytes() {
    let b = with_mute(&SAMPLE_UNMUTED, true);
    assert!(parse_state(&b).mic_muted);
    assert_eq!(b[4], 1);
    for i in 0..STATE_BLOB_LEN {
        if i != 4 {
            assert_eq!(b[i], SAMPLE_UNMUTED[i]);
        }
    }
    let b2 = with_mute(&SAMPLE_MUTED, false);
    assert_eq!(b2[4], 0);
    assert!(!parse_state(&b2).mic_muted);
}

#[test]
fn gain_write_is_little_endian() {
    let b = with_gain(&SAMPLE_MUTED, 0x1234);
    assert_eq!(b[0], 0x34);
    assert_eq!(b[1], 0x12);
    assert_eq!(parse_state(&b).mic_gain_raw, 0x1234);
    assert!(parse_state(&b).mic_muted);
    assert_eq!(&b[2..], &SAMPLE_MUTED[2..]);
}

#[test]
fn led_write_repeats_last_colour() {
    let red = Rgb::new(255, 0, 0);
    let blue = Rgb::new(0, 0, 255);
    let b = with_leds(&SAMPLE_UNMUTED, &[red, blue]).unwrap();
    assert_eq!(&b[16..25], &[255, 0, 0, 0, 0, 255, 0, 0, 255]);
    assert_eq!(&b[..16], &SAMPLE_UNMUTED[..16]);
    assert_eq!(&b[25..], &SAMPLE_UNMUTED[25..]);
    assert!(with_leds(&SAMPLE_UNMUTED, &[]).is_none());
}

const CARDS: &str = " 0 [PCH            ]: HDA-Intel - HDA Intel PCH
                      HDA Intel PCH at 0xf7f10000 irq 131
 2 [Wave3          ]: USB-Audio - Elgato Wave:3
                      Elgato Systems Elgato Wave:3 at usb-0000:00:14.0-2, full speed
 3 [XLR            ]: USB-Audio - Elgato Wave XLR
                      Elgato Systems Elgato Wave XLR at usb-0000:00:14.0-3
";

#[test]
fn wave3_card_found_in_card_list() {
    assert_eq!(Wave3Device::find_alsa_card(CARDS).as_deref(), Some("hw:2"));
    assert_eq!(Wave3Device::find_alsa_card(" 07 [W]: Wave 3\n").as_deref(), Some("hw:7"));
    assert_eq!(Wave3Device::find_alsa_card(" 0 [PCH]: HDA-Intel\n"), None);
    assert_eq!(Wave3Device::find_alsa_card("x Wave:3\n"), None);
}

#[test]
fn xlr_card_found_in_card_list() {
    assert_eq!(WaveXlrDevice::find_alsa_card(CARDS).as_deref(), Some("3"));
    assert_eq!(WaveXlrDevice::find_alsa_card(" 07 [W]: Wave_XLR\n").as_deref(), Some("07"));
    assert_eq!(WaveXlrDevice::find_alsa_card(""), None);
}

#[test]
fn wave3_detect_prefers_usb() {
    let d = Wave3Device::detect::<()>(Some(Some("ABC".into())), Ok(CARDS.into())).unwrap().unwrap();
    assert_eq!(d.serial(), "ABC");
    assert_eq!(d.alsa_card(), Some("hw:2"));
    let d = Wave3Device::detect::<()>(Some(None), Err(())).unwrap().unwrap();
    assert_eq!(d.serial(), "unknown");
    assert_eq!(d.alsa_card(), None);
}

#[test]
fn wave3_detect_falls_back_to_alsa() {
    let d = Wave3Device::detect::<()>(None, Ok(CARDS.into())).unwrap().unwrap();
    assert_eq!(d.serial(), "unknown");
    assert_eq!(d.alsa_card(), Some("hw:2"));
    assert!(Wave3Device::detect::<()>(None, Ok(String::new())).unwrap().is_none());
    assert_eq!(Wave3Device::detect::<u8>(None, Err(7)).err(), Some(7));
}

#[test]
fn xlr_detect_needs_usb() {
    assert!(WaveXlrDevice::detect::<()>(Ok(None), Some(CARDS.into())).unwrap().is_none());
    let d = WaveXlrDevice::detect::<()>(Ok(Some(Some("X1".into()))), Some(CARDS.into()))
        .unwrap()
        .unwrap();
    assert_eq!(d.serial(), "X1");
    assert_eq!(d.alsa_card(), Some("3"));
    let d = WaveXlrDevice::detect::<()>(Ok(Some(None)), None).unwrap().unwrap();
    assert_eq!(d.serial(), "unknown");
    assert_eq!(d.alsa_card(), None);
}

#[test]
fn xlr_detect_surfaces_enumeration_failure() {
    let r = WaveXlrDevice::detect(Err("enumeration failed"), Some(CARDS.into()));
    assert_eq!(r.err(), Some("enumeration failed"));
}

#[test]
fn state_reads_are_checked() {
    assert_eq!(check_state_read(STATE_BLOB_LEN, &SAMPLE_UNMUTED), Ok(SAMPLE_UNMUTED));
    assert_eq!(check_state_read(12, &SAMPLE_UNMUTED), Err(BlobTransferError::Short(12)));
    let mut bad = SAMPLE_UNMUTED;
    bad[OFFSET_HEADER_TAG] = 0x00;
    assert_eq!(check_state_read(STATE_BLOB_LEN, &bad), Err(BlobTransferError::BadHeaderTag(0x00)));
    assert_eq!(check_state_write(STATE_BLOB_LEN), Ok(()));
    assert_eq!(check_state_write(0), Err(BlobTransferError::Short(0)));
}
