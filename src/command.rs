//! Commands between the local bus and the broker: translation of pattern
//! subscribed local messages into commands, and of commands into a broker
//! topic and payload.
use vstd::prelude::*;
use crate::json::{json_compact, reprint_json};
use crate::text::{contains_seq, contains_str, copy_str, decimal, push_decimal};
use crate::topic::{raw_topic, shadow_update_topic, TopicType};

verus! {

/// A command from the local bus to the broker.
#[derive(Debug)]
pub enum AwsIotCmd {
    ShadowUpdate { topic: String, msg: String },
    RawUpdate { topic: String, msg: String },
    Exit,
}

/// What a command holds, as sequences of characters.
pub enum CmdModel {
    ShadowUpdate { topic: Seq<char>, msg: Seq<char> },
    RawUpdate { topic: Seq<char>, msg: Seq<char> },
    Exit,
}

impl View for AwsIotCmd {
    type V = CmdModel;

    open spec fn view(&self) -> CmdModel {
        match self {
            AwsIotCmd::ShadowUpdate { topic, msg } => CmdModel::ShadowUpdate {
                topic: topic@,
                msg: msg@,
            },
            AwsIotCmd::RawUpdate { topic, msg } => CmdModel::RawUpdate { topic: topic@, msg: msg@ },
            AwsIotCmd::Exit => CmdModel::Exit,
        }
    }
}

/// A command from the bridge to a local subscriber.
#[derive(Debug)]
pub enum SubscribeCmd {
    Notify { topic: String, msg: String },
    Exit,
}

/// A message received on the local bus: the pattern it matched (`None` where
/// it came from a plain subscription), its channel and its payload.
pub struct IpcMessage {
    pub pattern: Option<String>,
    pub channel: String,
    pub payload: String,
}

/// Why a command yields nothing to publish.
#[derive(PartialEq, Eq, Structural, Debug, Clone, Copy)]
pub enum IpcError {
    /// The payload of a shadow update is not JSON.
    InvalidJson,
    /// The command asks the receive loop to stop.
    Exit,
}

/// The fixed part of the local pattern that shadow commands arrive on; any
/// other pattern carries raw commands.
pub open spec fn shadow_pattern_root() -> Seq<char> {
    "kap/aws/shadow"@
}

/// The command that a local message becomes, where it becomes one: a pattern
/// is required, and the topic is the channel after the pattern's fixed prefix
/// (the pattern without its final `*`).
pub open spec fn ipc_command(m: IpcMessage) -> Option<CmdModel> {
    match m.pattern {
        None => None,
        Some(p) => {
            if p@.len() == 0 || p@.len() - 1 > m.channel@.len() {
                None
            } else {
                let topic = m.channel@.subrange(p@.len() - 1, m.channel@.len() as int);
                if contains_seq(p@, shadow_pattern_root()) {
                    Some(CmdModel::ShadowUpdate { topic, msg: m.payload@ })
                } else {
                    Some(CmdModel::RawUpdate { topic, msg: m.payload@ })
                }
            }
        },
    }
}

/// Translates a message of the local bus into a command for the broker;
/// messages without a matching pattern are dropped.
pub fn mqtt_ipc_post(msg: Option<IpcMessage>) -> (r: Option<AwsIotCmd>)
    ensures
        match msg {
            None => r.is_none(),
            Some(m) => match r {
                Some(c) => ipc_command(m) == Some(c@),
                None => ipc_command(m).is_none(),
            },
        },
{
    match msg {
        None => None,
        Some(m) => {
            let IpcMessage { pattern, channel, payload } = m;
            match pattern {
                None => None,
                Some(p) => {
                    let plen = p.as_str().unicode_len();
                    let clen = channel.as_str().unicode_len();
                    if plen == 0 || plen - 1 > clen {
                        return None;
                    }
                    let topic = copy_str(channel.as_str().substring_char(plen - 1, clen));
                    if contains_str(p.as_str(), "kap/aws/shadow") {
                        Some(AwsIotCmd::ShadowUpdate { topic, msg: payload })
                    } else {
                        Some(AwsIotCmd::RawUpdate { topic, msg: payload })
                    }
                },
            }
        },
    }
}

/// `{secs}.{millis}`: the client token of a shadow update.
pub open spec fn client_token(secs: u64, millis: u32) -> Seq<char> {
    decimal(secs as nat) + "."@ + decimal(millis as nat)
}

/// `{"state":{"reported":<reported>},"clientToken":"<token>"}`.
pub open spec fn shadow_update_body(reported: Seq<char>, secs: u64, millis: u32) -> Seq<char> {
    "{\"state\":{\"reported\":"@ + reported + "},\"clientToken\":\""@ + client_token(secs, millis)
        + "\"}"@
}

/// The token that tags a shadow update with the time it was sent.
pub fn make_client_token(secs: u64, millis: u32) -> (r: String)
    ensures
        r@ == client_token(secs, millis),
{
    let mut r = String::new();
    push_decimal(&mut r, secs);
    r.append(".");
    push_decimal(&mut r, millis as u64);
    assert(r@ =~= client_token(secs, millis));
    r
}

/// The body of a shadow update whose reported state is the JSON text
/// `reported`, sent at `secs` seconds and `millis` milliseconds.
pub fn shadow_update_payload(reported: &str, secs: u64, millis: u32) -> (r: String)
    ensures
        r@ == shadow_update_body(reported@, secs, millis),
{
    let mut r = copy_str("{\"state\":{\"reported\":");
    r.append(reported);
    r.append("},\"clientToken\":\"");
    let token = make_client_token(secs, millis);
    r.append(token.as_str());
    r.append("\"}");
    assert(r@ =~= shadow_update_body(reported@, secs, millis));
    r
}

/// The broker topic and payload of a command, or why there is none.
pub open spec fn publish_of(c: CmdModel, thing: Seq<char>, secs: u64, millis: u32) -> Result<
    (Seq<char>, Seq<char>),
    IpcError,
> {
    match c {
        CmdModel::ShadowUpdate { topic, msg } => match json_compact(msg) {
            Some(j) => Ok((shadow_update_topic(thing, topic), shadow_update_body(j, secs, millis))),
            None => Err(IpcError::InvalidJson),
        },
        CmdModel::RawUpdate { topic, msg } => Ok((raw_topic(topic), msg)),
        CmdModel::Exit => Err(IpcError::Exit),
    }
}

/// The broker topic and payload of a local command, with the current time
/// given as seconds and milliseconds since the epoch.
pub fn post_ipc_msg(msg: AwsIotCmd, thing: &str, secs: u64, millis: u32) -> (r: Result<
    (String, String),
    IpcError,
>)
    ensures
        match r {
            Ok((t, p)) => publish_of(msg@, thing@, secs, millis) == Ok::<
                (Seq<char>, Seq<char>),
                IpcError,
            >((t@, p@)),
            Err(e) => publish_of(msg@, thing@, secs, millis) == Err::<
                (Seq<char>, Seq<char>),
                IpcError,
            >(e),
        },
{
    match msg {
        AwsIotCmd::ShadowUpdate { topic, msg } => {
            let t = TopicType::ShadowUpdate { topic, thing: copy_str(thing) }.to_string();
            match reprint_json(msg.as_str()) {
                Some(j) => Ok((t, shadow_update_payload(j.as_str(), secs, millis))),
                None => Err(IpcError::InvalidJson),
            }
        },
        AwsIotCmd::RawUpdate { topic, msg } => Ok((TopicType::Raw { topic }.to_string(), msg)),
        AwsIotCmd::Exit => Err(IpcError::Exit),
    }
}

} // verus!
