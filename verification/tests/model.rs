use dabmux_gui::config::{load_outcome, Config, Service};

fn sample_service() -> Service {
    Service {
        unique_id: "radio1".to_owned(),
        sid: 0x4DAB,
        ecc: 0xE1,
        label: "Radio One".to_owned(),
        shortlabel: "R1".to_owned(),
        input_port: 9001,
        bitrate: 96,
        protection: 3,
    }
}

#[test]
fn sid_hex_is_four_uppercase_digits() {
    let mut s = sample_service();
    assert_eq!(s.sid_hex(), "4DAB");
    s.sid = 0;
    assert_eq!(s.sid_hex(), "0000");
    s.sid = 0xFFFF;
    assert_eq!(s.sid_hex(), "FFFF");
    s.sid = 0x1A;
    assert_eq!(s.sid_hex(), "001A");
}

#[test]
fn sid_hex_grows_past_four_digits() {
    let mut s = sample_service();
    s.sid = 0x12345;
    assert_eq!(s.sid_hex(), "12345");
}

#[test]
fn ecc_hex_is_two_uppercase_digits() {
    let mut s = sample_service();
    assert_eq!(s.ecc_hex(), "E1");
    s.ecc = 0;
    assert_eq!(s.ecc_hex(), "00");
    s.ecc = 0x0F;
    assert_eq!(s.ecc_hex(), "0F");
    s.ecc = 0xFF;
    assert_eq!(s.ecc_hex(), "FF");
}

#[test]
fn ensemble_hex_helpers() {
    let c = Config::default();
    assert_eq!(c.ensemble_id_hex(), "4FFF");
    assert_eq!(c.ensemble_ecc_hex(), "E1");
}

fn assert_is_default(c: &Config) {
    assert_eq!(c.instance_name, "CHANGEME");
    assert_eq!(c.dabmux_config_location, "/etc/odr-dabmux.json");
    assert!(c.tist);
    assert_eq!(c.tist_offset, 0);
    assert_eq!(c.ensemble_id, 0x4FFF);
    assert_eq!(c.ensemble_ecc, 0xE1);
    assert_eq!(c.ensemble_label, "OpenDigitalRadio");
    assert_eq!(c.ensemble_shortlabel, "ODR");
    assert_eq!(c.output_edi_port, 8951);
    assert_eq!(c.output_zmq_port, 8851);
    assert_eq!(c.services.len(), 1);
    let s = &c.services[0];
    assert_eq!(s.unique_id, "nothing");
    assert_eq!(s.sid, 0x4DAA);
    assert_eq!(s.ecc, 0xE1);
    assert_eq!(s.label, "nothing");
    assert_eq!(s.shortlabel, "no");
    assert_eq!(s.input_port, 9001);
    assert_eq!(s.bitrate, 128);
    assert_eq!(s.protection, 2);
}

#[test]
fn missing_settings_file_yields_literal_default() {
    let c = load_outcome(false, None);
    assert_is_default(&c);
}

#[test]
fn unparseable_settings_file_yields_literal_default() {
    let c = load_outcome(true, None);
    assert_is_default(&c);
}

#[test]
fn parsed_settings_are_taken_unchanged() {
    let mut custom = Config::default();
    custom.instance_name = "studio".to_owned();
    custom.ensemble_id = 0x4001;
    custom.services.push(sample_service());
    let c = load_outcome(true, Some(custom));
    assert_eq!(c.instance_name, "studio");
    assert_eq!(c.ensemble_id, 0x4001);
    assert_eq!(c.services.len(), 2);
    assert_eq!(c.services[1].unique_id, "radio1");
}
