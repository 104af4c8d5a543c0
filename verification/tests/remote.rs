use dabmux_gui::rc::{
    default_rc_endpoint, discovery_command, discovery_outcome, mutation_outcome,
    mutation_request, params_from_reply, value_to_params, DiscoveryReply, MutationReply, Param,
    RcError, RcValue, RC_TIMEOUT_MS,
};

#[test]
fn protocol_constants() {
    assert_eq!(RC_TIMEOUT_MS, 2000);
    assert_eq!(default_rc_endpoint(), "tcp://127.0.0.1:12722");
    assert_eq!(discovery_command(), "showjson");
}

#[test]
fn mutation_request_has_four_frames() {
    let frames = mutation_request("sid", "label", "Radio");
    assert_eq!(frames, vec!["set", "sid", "label", "Radio"]);
}

fn param(module: &str, name: &str, value: &str) -> Param {
    Param {
        module: module.to_owned(),
        param: name.to_owned(),
        value: value.to_owned(),
    }
}

fn mod1_reply(p3: RcValue) -> RcValue {
    RcValue::Object(vec![(
        "mod1".to_owned(),
        RcValue::Object(vec![
            ("p1".to_owned(), RcValue::Text("v1".to_owned())),
            ("p2".to_owned(), RcValue::Number("42".to_owned())),
            ("p3".to_owned(), p3),
        ]),
    )])
}

#[test]
fn discovery_flattens_scalars_in_order() {
    let root = mod1_reply(RcValue::Bool(true));
    let ps = value_to_params(&root).unwrap();
    assert_eq!(
        ps,
        vec![
            param("mod1", "p1", "v1"),
            param("mod1", "p2", "42"),
            param("mod1", "p3", "true"),
        ]
    );
}

#[test]
fn discovery_canonical_scalar_forms() {
    let root = RcValue::Object(vec![(
        "m".to_owned(),
        RcValue::Object(vec![
            ("a".to_owned(), RcValue::Null),
            ("b".to_owned(), RcValue::Bool(false)),
            ("c".to_owned(), RcValue::Number("-3.5".to_owned())),
        ]),
    )]);
    let ps = value_to_params(&root).unwrap();
    assert_eq!(
        ps,
        vec![param("m", "a", "null"), param("m", "b", "false"), param("m", "c", "-3.5")]
    );
}

#[test]
fn discovery_parses_reply_text() {
    let r = params_from_reply("{\"mod1\":{\"p1\":\"v1\",\"p2\":42,\"p3\":true}}").unwrap();
    assert_eq!(
        r,
        vec![
            param("mod1", "p1", "v1"),
            param("mod1", "p2", "42"),
            param("mod1", "p3", "true"),
        ]
    );
}

#[test]
fn discovery_order_is_stable_across_calls() {
    let text = "{\"mod1\":{\"p1\":\"v1\",\"p2\":42,\"p3\":true}}";
    let first = params_from_reply(text).unwrap();
    let second = params_from_reply(text).unwrap();
    assert_eq!(first, second);
}

#[test]
fn discovery_rejects_array_leaf() {
    let root = mod1_reply(RcValue::Array(vec![RcValue::Null]));
    let e = value_to_params(&root).unwrap_err();
    assert_eq!(e, RcError::UnexpectedArray("mod1".to_owned(), "p3".to_owned()));
    assert_eq!(e.message(), "Unexpected array in mod1.p3");
}

#[test]
fn discovery_rejects_object_leaf() {
    let root = mod1_reply(RcValue::Object(vec![]));
    let e = value_to_params(&root).unwrap_err();
    assert_eq!(e, RcError::UnexpectedObject("mod1".to_owned(), "p3".to_owned()));
    assert_eq!(e.message(), "Unexpected object in mod1.p3");
}

#[test]
fn discovery_rejects_array_leaf_in_reply_text() {
    let e = params_from_reply("{\"mod1\":{\"p1\":[1,2]}}").unwrap_err();
    assert_eq!(e, RcError::UnexpectedArray("mod1".to_owned(), "p1".to_owned()));
}

#[test]
fn discovery_rejects_non_object_module() {
    let root = RcValue::Object(vec![("mod1".to_owned(), RcValue::Number("1".to_owned()))]);
    let e = value_to_params(&root).unwrap_err();
    assert_eq!(e, RcError::ModuleNotObject("mod1".to_owned()));
    assert_eq!(e.message(), "RC module mod1 is not a JSON object");
}

#[test]
fn discovery_rejects_non_object_root() {
    let e = value_to_params(&RcValue::Number("7".to_owned())).unwrap_err();
    assert_eq!(e, RcError::NotObject);
    assert_eq!(e.message(), "RC data is not a JSON object");
}

#[test]
fn discovery_rejects_unparseable_text() {
    let e = params_from_reply("not json at all").unwrap_err();
    assert!(matches!(e, RcError::InvalidJson(_)));
}

#[test]
fn discovery_empty_object_yields_no_params() {
    let ps = params_from_reply("{}").unwrap();
    assert!(ps.is_empty());
}

#[test]
fn discovery_timeout_fails_with_timeout_error() {
    let e = discovery_outcome(DiscoveryReply::TimedOut).unwrap_err();
    assert_eq!(e, RcError::Timeout);
    assert_eq!(e.message(), "Timeout reading RC");
}

#[test]
fn discovery_non_text_reply_fails() {
    let e = discovery_outcome(DiscoveryReply::NotText).unwrap_err();
    assert_eq!(e, RcError::NotText);
    assert_eq!(e.message(), "RC response is not a str");
}

#[test]
fn discovery_outcome_parses_text_reply() {
    let r = discovery_outcome(DiscoveryReply::Text("{\"m\":{\"p\":1}}".to_owned())).unwrap();
    assert_eq!(r, vec![param("m", "p", "1")]);
}

#[test]
fn mutation_timeout_fails_with_timeout_error() {
    let e = mutation_outcome(MutationReply::TimedOut).unwrap_err();
    assert_eq!(e, RcError::Timeout);
}

#[test]
fn mutation_reply_frames_join_with_commas() {
    let frames = vec![b"ok".to_vec(), b"sid".to_vec()];
    let r = mutation_outcome(MutationReply::Frames(frames)).unwrap();
    assert_eq!(r, "ok,sid");
}

#[test]
fn mutation_reply_invalid_text_frame_becomes_placeholder() {
    let frames = vec![b"ok".to_vec(), vec![0xFF, 0xFE], b"done".to_vec()];
    let r = mutation_outcome(MutationReply::Frames(frames)).unwrap();
    assert_eq!(r, "ok,???,done");
}

#[test]
fn mutation_reply_empty_frames_join_to_empty_text() {
    let r = mutation_outcome(MutationReply::Frames(vec![])).unwrap();
    assert_eq!(r, "");
}
