use dabmux_gui::config::{Config, Service};
use dabmux_gui::document::build_document;

fn service(uid: &str, sid: u32, port: u16, bitrate: u32) -> Service {
    Service {
        unique_id: uid.to_owned(),
        sid,
        ecc: 0xE1,
        label: format!("label {uid}"),
        shortlabel: uid.to_owned(),
        input_port: port,
        bitrate,
        protection: 2,
    }
}

fn two_service_config() -> Config {
    let mut c = Config::default();
    c.services = vec![
        service("alpha", 0x4DA0, 9001, 128),
        service("beta", 0x4DA1, 9002, 96),
    ];
    c.output_edi_port = 8951;
    c.output_zmq_port = 8851;
    c
}

#[test]
fn sections_hold_one_entry_per_service_with_prefixed_keys() {
    let c = two_service_config();
    let d = build_document(&c, "2024-05-01T12:00:00+00:00");
    assert_eq!(d.services.len(), 2);
    assert_eq!(d.subchannels.len(), 2);
    assert_eq!(d.components.len(), 2);
    assert_eq!(d.services[0].0, "srv-alpha");
    assert_eq!(d.services[1].0, "srv-beta");
    assert_eq!(d.subchannels[0].0, "sub-alpha");
    assert_eq!(d.subchannels[1].0, "sub-beta");
    assert_eq!(d.components[0].0, "comp-alpha");
    assert_eq!(d.components[1].0, "comp-beta");
}

#[test]
fn component_references_resolve_to_section_keys() {
    let c = two_service_config();
    let d = build_document(&c, "2024-05-01T12:00:00+00:00");
    for (_, comp) in &d.components {
        assert!(d.services.iter().any(|(k, _)| *k == comp.service));
        assert!(d.subchannels.iter().any(|(k, _)| *k == comp.subchannel));
        assert_eq!(comp.userapp, "slideshow");
    }
}

#[test]
fn service_entries_carry_model_fields() {
    let c = two_service_config();
    let d = build_document(&c, "2024-05-01T12:00:00+00:00");
    let (_, e) = &d.services[0];
    assert_eq!(e.id, 0x4DA0);
    assert_eq!(e.ecc, 0xE1);
    assert_eq!(e.label, "label alpha");
    assert_eq!(e.shortlabel, "alpha");
}

#[test]
fn service_entry_builder_carries_model_fields() {
    let s = service("gamma", 0x4DA7, 9005, 64);
    let e = s.dump_to_service_json();
    assert_eq!(e.id, 0x4DA7);
    assert_eq!(e.ecc, 0xE1);
    assert_eq!(e.label, "label gamma");
    assert_eq!(e.shortlabel, "gamma");
}

#[test]
fn subchannel_entry_builder_uses_given_index() {
    let s = service("gamma", 0x4DA7, 9005, 64);
    let e = s.dump_to_subchannel_json(7);
    assert_eq!(e.id, 7);
    assert_eq!(e.kind, "dabplus");
    assert_eq!(e.bitrate, 64);
    assert_eq!(e.inputuri, "tcp://127.0.0.1:9005");
}

#[test]
fn subchannel_indices_count_from_one_in_sequence_order() {
    let c = two_service_config();
    let d = build_document(&c, "2024-05-01T12:00:00+00:00");
    assert_eq!(d.subchannels[0].1.id, 1);
    assert_eq!(d.subchannels[1].1.id, 2);
}

#[test]
fn reordering_services_reassigns_indices_only() {
    let c1 = two_service_config();
    let mut c2 = two_service_config();
    c2.services.swap(0, 1);
    let d1 = build_document(&c1, "t");
    let d2 = build_document(&c2, "t");
    assert_eq!(d2.subchannels[0].0, "sub-beta");
    assert_eq!(d2.subchannels[0].1.id, 1);
    assert_eq!(d2.subchannels[1].0, "sub-alpha");
    assert_eq!(d2.subchannels[1].1.id, 2);
    let beta1 = &d1.subchannels[1].1;
    let beta2 = &d2.subchannels[0].1;
    assert_eq!(beta1.kind, beta2.kind);
    assert_eq!(beta1.bitrate, beta2.bitrate);
    assert_eq!(beta1.protection, beta2.protection);
    assert_eq!(beta1.inputproto, beta2.inputproto);
    assert_eq!(beta1.inputuri, beta2.inputuri);
    assert_eq!(beta1.buffer_management, beta2.buffer_management);
    assert_eq!(beta1.buffer, beta2.buffer);
    assert_eq!(beta1.prebuffering, beta2.prebuffering);
}

#[test]
fn subchannel_entries_hold_fixed_transport_constants() {
    let c = two_service_config();
    let d = build_document(&c, "2024-05-01T12:00:00+00:00");
    let (_, e) = &d.subchannels[1];
    assert_eq!(e.kind, "dabplus");
    assert_eq!(e.bitrate, 96);
    assert_eq!(e.protection, 2);
    assert_eq!(e.inputproto, "edi");
    assert_eq!(e.inputuri, "tcp://127.0.0.1:9002");
    assert_eq!(e.buffer_management, "prebuffering");
    assert_eq!(e.buffer, 40);
    assert_eq!(e.prebuffering, 20);
}

#[test]
fn top_level_sections_carry_config_and_constants() {
    let mut c = two_service_config();
    c.tist = false;
    c.tist_offset = 3;
    c.ensemble_label = "My Ensemble".to_owned();
    c.ensemble_shortlabel = "Mine".to_owned();
    let d = build_document(&c, "2024-05-01T12:00:00+00:00");
    assert_eq!(
        d.comment,
        "Generated at 2024-05-01T12:00:00+00:00 by odr-dabmux-gui"
    );
    assert_eq!(d.general.dabmode, 1);
    assert_eq!(d.general.nbframes, 0);
    assert!(!d.general.syslog);
    assert!(!d.general.tist);
    assert_eq!(d.general.tist_offset, 3);
    assert_eq!(d.general.managementport, 12720);
    assert_eq!(d.remotecontrol.telnetport, 12721);
    assert_eq!(d.remotecontrol.zmqendpoint, "tcp://lo:12722");
    assert_eq!(d.ensemble.id, 0x4FFF);
    assert_eq!(d.ensemble.ecc, 0xE1);
    assert_eq!(d.ensemble.local_time_offset, "auto");
    assert_eq!(d.ensemble.reconfig_counter, "hash");
    assert_eq!(d.ensemble.label, "My Ensemble");
    assert_eq!(d.ensemble.shortlabel, "Mine");
    assert_eq!(d.outputs.throttle, "simul://");
    assert_eq!(d.outputs.zmq_endpoint, "tcp://*:8851");
    assert!(!d.outputs.zmq_allowmetadata);
    assert_eq!(d.outputs.edi_destination, "example_tcp");
    assert_eq!(d.outputs.edi_protocol, "tcp");
    assert_eq!(d.outputs.edi_listenport, 8951);
}
