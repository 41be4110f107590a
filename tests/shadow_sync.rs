use fika_manager::shadow::{
    mqtt_dedicated_handle_iot, post_iot_publish_msg, shadow_version_compare, Inbound, IotError,
    IotEvent, ShadowAccept, ShadowError, StoreError, StoreLookup,
};
use fika_manager::topic::shadow_local_key;
use fika_manager::SubscribeCmd;

const ACCEPTED_TOPIC: &str = "$aws/things/dev1/shadow/name1/update/accepted";
const DOC_V5: &str = r#"{"state":{"desired":{"x":1},"reported":null,"delta":null},"metadata":{},"version":5,"timestamp":1700000000}"#;

fn decode(payload: &str) -> Option<ShadowAccept> {
    let v: serde_json::Value = serde_json::from_str(payload).ok()?;
    let version = v.get("version")?.as_u64()?;
    let desired = match v.get("state")?.get("desired") {
        Some(d) if !d.is_null() => Some(serde_json::to_string(d).ok()?),
        _ => None,
    };
    Some(ShadowAccept { version, desired })
}

fn publish(topic: &str, payload: &[u8]) -> IotEvent {
    IotEvent::Publish { topic: topic.to_string(), payload: payload.to_vec() }
}

fn shadow_of(event: IotEvent) -> (String, String) {
    match mqtt_dedicated_handle_iot(event) {
        Ok(Inbound::Shadow { topic, payload }) => (topic, payload),
        _ => panic!("expected a shadow document"),
    }
}

#[test]
fn first_document_is_stored_and_forwarded() {
    let (topic, payload) = shadow_of(publish(ACCEPTED_TOPIC, DOC_V5.as_bytes()));
    assert_eq!(topic, ACCEPTED_TOPIC);
    assert_eq!(payload, DOC_V5);
    let plan = post_iot_publish_msg(&topic, &payload, decode(&payload), StoreLookup::Missing)
        .unwrap();
    assert_eq!(plan.store_key, "aws/kap/shadow/name1/update");
    assert_eq!(plan.store_value, DOC_V5);
    match plan.notify {
        Some(SubscribeCmd::Notify { topic, msg }) => {
            assert_eq!(topic, "aws/kap/shadow/name1/update/state");
            assert_eq!(msg, "{\"x\":1}");
        }
        _ => panic!("expected a notification"),
    }
}

#[test]
fn older_document_is_stored_but_not_forwarded() {
    let lookup = StoreLookup::Found { version: Some(7) };
    let plan = post_iot_publish_msg(ACCEPTED_TOPIC, DOC_V5, decode(DOC_V5), lookup).unwrap();
    assert!(plan.notify.is_none());
    assert_eq!(plan.store_key, "aws/kap/shadow/name1/update");
    assert_eq!(plan.store_value, DOC_V5);
}

#[test]
fn same_version_is_not_forwarded() {
    let lookup = StoreLookup::Found { version: Some(5) };
    let plan = post_iot_publish_msg(ACCEPTED_TOPIC, DOC_V5, decode(DOC_V5), lookup).unwrap();
    assert!(plan.notify.is_none());
    assert_eq!(plan.store_value, DOC_V5);
}

#[test]
fn newer_document_is_forwarded() {
    let lookup = StoreLookup::Found { version: Some(4) };
    let plan = post_iot_publish_msg(ACCEPTED_TOPIC, DOC_V5, decode(DOC_V5), lookup).unwrap();
    assert!(matches!(plan.notify, Some(SubscribeCmd::Notify { .. })));
}

#[test]
fn store_failure_forwards_anyway() {
    let plan = post_iot_publish_msg(ACCEPTED_TOPIC, DOC_V5, decode(DOC_V5), StoreLookup::Failed)
        .unwrap();
    assert!(matches!(plan.notify, Some(SubscribeCmd::Notify { .. })));
    assert_eq!(plan.store_value, DOC_V5);
}

#[test]
fn undecodable_stored_record_forwards() {
    let lookup = StoreLookup::Found { version: None };
    let plan = post_iot_publish_msg(ACCEPTED_TOPIC, DOC_V5, decode(DOC_V5), lookup).unwrap();
    assert!(plan.notify.is_some());
}

#[test]
fn document_without_desired_is_only_stored() {
    let doc = r#"{"state":{"reported":{"x":1}},"metadata":{},"version":9,"timestamp":1700000000}"#;
    let plan = post_iot_publish_msg(ACCEPTED_TOPIC, doc, decode(doc), StoreLookup::Missing).unwrap();
    assert!(plan.notify.is_none());
    assert_eq!(plan.store_value, doc);
}

#[test]
fn malformed_document_is_an_error() {
    let r = post_iot_publish_msg(ACCEPTED_TOPIC, "not json", decode("not json"), StoreLookup::Missing);
    assert_eq!(r.err(), Some(ShadowError::Malformed));
}

#[test]
fn rejections_are_ignored() {
    for t in [
        "$aws/things/dev1/shadow/name1/get/rejected",
        "$aws/things/dev1/shadow/name1/update/rejected",
        "$aws/things/dev1/shadow/name1/delete/rejected",
    ] {
        assert!(matches!(mqtt_dedicated_handle_iot(publish(t, b"{}")), Ok(Inbound::Ignore)));
        // Even a payload that is not UTF-8 is no error on a rejection.
        assert!(matches!(mqtt_dedicated_handle_iot(publish(t, &[0xff, 0xfe])), Ok(Inbound::Ignore)));
    }
}

#[test]
fn other_topics_and_empty_payloads_are_ignored() {
    let jobs = publish("$aws/things/dev1/jobs/notify", b"{}");
    assert!(matches!(mqtt_dedicated_handle_iot(jobs), Ok(Inbound::Ignore)));
    let delta = publish("$aws/things/dev1/shadow/name1/update/delta", b"{}");
    assert!(matches!(mqtt_dedicated_handle_iot(delta), Ok(Inbound::Ignore)));
    let empty = publish(ACCEPTED_TOPIC, b"");
    assert!(matches!(mqtt_dedicated_handle_iot(empty), Ok(Inbound::Ignore)));
    assert!(matches!(mqtt_dedicated_handle_iot(IotEvent::Other), Ok(Inbound::Ignore)));
}

#[test]
fn get_accepted_is_handled() {
    let t = "$aws/things/dev1/shadow/name2/get/accepted";
    let (topic, _) = shadow_of(publish(t, b"{\"version\":1}"));
    assert_eq!(topic, t);
}

#[test]
fn channel_failure_is_an_error() {
    assert_eq!(mqtt_dedicated_handle_iot(IotEvent::Closed).err(), Some(IotError::Receive));
}

#[test]
fn document_that_is_not_utf8_is_dropped() {
    let bad = publish(ACCEPTED_TOPIC, &[0xff]);
    assert!(matches!(mqtt_dedicated_handle_iot(bad), Ok(Inbound::Ignore)));
    let bad = publish(ACCEPTED_TOPIC, &[0x7b, 0xff]);
    assert!(matches!(mqtt_dedicated_handle_iot(bad), Ok(Inbound::Ignore)));
}

#[test]
fn utf8_payload_is_decoded() {
    let (_, payload) = shadow_of(publish(ACCEPTED_TOPIC, "{\"é\":1}".as_bytes()));
    assert_eq!(payload, "{\"é\":1}");
}

#[test]
fn version_compare_outcomes() {
    assert_eq!(shadow_version_compare(&StoreLookup::Missing, 3), Ok(true));
    assert_eq!(shadow_version_compare(&StoreLookup::Found { version: Some(3) }, 3), Ok(false));
    assert_eq!(shadow_version_compare(&StoreLookup::Found { version: Some(2) }, 3), Ok(true));
    assert_eq!(shadow_version_compare(&StoreLookup::Found { version: None }, 3), Ok(true));
    assert_eq!(shadow_version_compare(&StoreLookup::Failed, 3), Err(StoreError::Unavailable));
}

#[test]
fn local_key_takes_segments_three_to_five() {
    assert_eq!(shadow_local_key(ACCEPTED_TOPIC), "aws/kap/shadow/name1/update");
    assert_eq!(shadow_local_key("$aws/things/dev1/shadow/get/accepted"), "aws/kap/shadow/get/accepted");
    assert_eq!(shadow_local_key("$aws/things/dev1/shadow"), "aws/kap/shadow");
    assert_eq!(shadow_local_key("$aws/things/dev1"), "aws/kap");
    assert_eq!(shadow_local_key(""), "aws/kap");
    assert_eq!(shadow_local_key("a/b/c/d//e/f"), "aws/kap/d//e");
}
