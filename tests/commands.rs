use fika_manager::command::{make_client_token, mqtt_ipc_post, post_ipc_msg, shadow_update_payload};
use fika_manager::topic::{
    jobs_subscribe_topic, shadow_pull_topic, shadow_pull_topics, shadow_subscribe_topic, TopicType,
};
use fika_manager::{AwsIotCmd, IpcError, IpcMessage};

fn message(pattern: Option<&str>, channel: &str, payload: &str) -> Option<IpcMessage> {
    Some(IpcMessage {
        pattern: pattern.map(|p| p.to_string()),
        channel: channel.to_string(),
        payload: payload.to_string(),
    })
}

#[test]
fn local_shadow_message_becomes_shadow_update() {
    let cmd = mqtt_ipc_post(message(Some("kap/aws/shadow/*"), "kap/aws/shadow/name1/update", "{\"y\":2}"));
    let cmd = cmd.unwrap();
    match &cmd {
        AwsIotCmd::ShadowUpdate { topic, msg } => {
            assert_eq!(topic, "name1/update");
            assert_eq!(msg, "{\"y\":2}");
        }
        _ => panic!("expected a shadow update"),
    }
    let (topic, payload) = post_ipc_msg(cmd, "dev1", 1700000000, 5).unwrap();
    assert_eq!(topic, "$aws/things/dev1/shadow/name1/update/update");
    assert_eq!(payload, "{\"state\":{\"reported\":{\"y\":2}},\"clientToken\":\"1700000000.5\"}");
}

#[test]
fn local_raw_message_passes_through() {
    let cmd = mqtt_ipc_post(message(Some("kap/aws/raw/*"), "kap/aws/raw/custom/topic", "payload as is"));
    let cmd = cmd.unwrap();
    assert!(matches!(&cmd, AwsIotCmd::RawUpdate { topic, .. } if topic == "custom/topic"));
    let (topic, payload) = post_ipc_msg(cmd, "dev1", 1, 2).unwrap();
    assert_eq!(topic, "$aws/custom/topic");
    assert_eq!(payload, "payload as is");
}

#[test]
fn messages_without_pattern_are_dropped() {
    assert!(mqtt_ipc_post(None).is_none());
    assert!(mqtt_ipc_post(message(None, "kap/aws/raw/x", "p")).is_none());
    assert!(mqtt_ipc_post(message(Some(""), "kap/aws/raw/x", "p")).is_none());
    assert!(mqtt_ipc_post(message(Some("kap/aws/raw/*"), "kap", "p")).is_none());
}

#[test]
fn shadow_update_with_bad_json_fails() {
    let cmd = AwsIotCmd::ShadowUpdate { topic: "name1".to_string(), msg: "{oops".to_string() };
    assert_eq!(post_ipc_msg(cmd, "dev1", 1, 0).err(), Some(IpcError::InvalidJson));
}

#[test]
fn exit_command_stops() {
    assert_eq!(post_ipc_msg(AwsIotCmd::Exit, "dev1", 1, 0).err(), Some(IpcError::Exit));
}

#[test]
fn reported_json_is_reprinted_compactly() {
    let cmd = AwsIotCmd::ShadowUpdate { topic: "n".to_string(), msg: "{ \"a\" : [1, 2] }".to_string() };
    let (_, payload) = post_ipc_msg(cmd, "t", 12, 345).unwrap();
    assert_eq!(payload, "{\"state\":{\"reported\":{\"a\":[1,2]}},\"clientToken\":\"12.345\"}");
}

#[test]
fn client_token_formats() {
    assert_eq!(make_client_token(0, 0), "0.0");
    assert_eq!(make_client_token(1700000000, 7), "1700000000.7");
    assert_eq!(make_client_token(u64::MAX, 999), "18446744073709551615.999");
}

#[test]
fn shadow_update_frame() {
    assert_eq!(shadow_update_payload("null", 3, 40), "{\"state\":{\"reported\":null},\"clientToken\":\"3.40\"}");
}

#[test]
fn topic_shapes() {
    let raw = TopicType::Raw { topic: "a/b".to_string() };
    assert_eq!(raw.to_string(), "$aws/a/b");
    let upd = TopicType::ShadowUpdate { topic: "name/x".to_string(), thing: "T".to_string() };
    assert_eq!(upd.to_string(), "$aws/things/T/shadow/name/x/update");
    assert_eq!(shadow_subscribe_topic("dev1"), "$aws/things/dev1/shadow/#");
    assert_eq!(jobs_subscribe_topic("dev1"), "$aws/things/dev1/jobs/#");
    assert_eq!(shadow_pull_topic("dev1", "name/cfg"), "$aws/things/dev1/shadow/name/cfg/get");
    let names = vec!["a".to_string(), "b".to_string()];
    assert_eq!(
        shadow_pull_topics("d", &names),
        vec!["$aws/things/d/shadow/a/get".to_string(), "$aws/things/d/shadow/b/get".to_string()]
    );
}
