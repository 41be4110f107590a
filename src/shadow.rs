//! The shadow sync engine: which broker events are shadow documents worth
//! handling, and for such a document what is forwarded to the local
//! subscriber and what is written back to the store.
use vstd::prelude::*;
use vstd::utf8::{decode_utf8, valid_utf8};
use crate::command::SubscribeCmd;
use crate::text::{concat2, contains_seq, contains_str, copy_str};
use crate::topic::{local_key, shadow_local_key};

verus! {

/// Relies on `std::str::from_utf8`: `Some` exactly for well-formed UTF-8,
/// holding the decoded characters.
#[verifier::external_body]
fn utf8_text(b: &[u8]) -> (r: Option<String>)
    ensures
        r.is_some() == valid_utf8(b@),
        r.is_some() ==> r.unwrap()@ == decode_utf8(b@),
{
    match std::str::from_utf8(b) {
        Ok(s) => Some(s.to_string()),
        Err(_) => None,
    }
}

/// An event handed over by the broker connection.
pub enum IotEvent {
    /// A message published on `topic`.
    Publish { topic: String, payload: Vec<u8> },
    /// Any other packet (acknowledgments, pings).
    Other,
    /// The event channel failed.
    Closed,
}

/// What the engine does with an event that did not fail.
pub enum Inbound {
    /// Nothing to do.
    Ignore,
    /// A shadow document to deduplicate and store.
    Shadow { topic: String, payload: String },
}

/// Why the receive loop stops on an event: only a failure of the event
/// channel ends it; a bad message is dropped and the session goes on.
#[derive(PartialEq, Eq, Structural, Debug, Clone, Copy)]
pub enum IotError {
    /// The event channel failed.
    Receive,
}

/// A topic on which the broker rejects a get, update or delete.
pub open spec fn is_rejected_topic(t: Seq<char>) -> bool {
    contains_seq(t, "/get/rejected"@) || contains_seq(t, "/update/rejected"@) || contains_seq(
        t,
        "/delete/rejected"@,
    )
}

/// A topic on which the broker accepts a get or an update.
pub open spec fn is_accepted_topic(t: Seq<char>) -> bool {
    contains_seq(t, "/get/accepted"@) || contains_seq(t, "/update/accepted"@)
}

/// A publish event that carries a shadow document to handle.
pub open spec fn wants_document(topic: Seq<char>, payload: Seq<u8>) -> bool {
    payload.len() != 0 && !is_rejected_topic(topic) && is_accepted_topic(topic)
}

/// Classifies one event: empty payloads, rejections, topics other than
/// get/update acceptances and documents that are not UTF-8 are ignored; only
/// a channel failure is an error.
pub fn mqtt_dedicated_handle_iot(event: IotEvent) -> (r: Result<Inbound, IotError>)
    ensures
        match event {
            IotEvent::Closed => r == Err::<Inbound, IotError>(IotError::Receive),
            IotEvent::Other => r matches Ok(Inbound::Ignore),
            IotEvent::Publish { topic, payload } => {
                if !wants_document(topic@, payload@) {
                    r matches Ok(Inbound::Ignore)
                } else if !valid_utf8(payload@) {
                    r matches Ok(Inbound::Ignore)
                } else {
                    match r {
                        Ok(Inbound::Shadow { topic: t, payload: p }) => t@ == topic@ && p@
                            == decode_utf8(payload@),
                        _ => false,
                    }
                }
            },
        },
{
    match event {
        IotEvent::Closed => Err(IotError::Receive),
        IotEvent::Other => Ok(Inbound::Ignore),
        IotEvent::Publish { topic, payload } => {
            if payload.len() == 0 {
                return Ok(Inbound::Ignore);
            }
            let t = topic.as_str();
            if contains_str(t, "/get/rejected") || contains_str(t, "/update/rejected")
                || contains_str(t, "/delete/rejected") {
                return Ok(Inbound::Ignore);
            }
            if !(contains_str(t, "/get/accepted") || contains_str(t, "/update/accepted")) {
                return Ok(Inbound::Ignore);
            }
            match utf8_text(payload.as_slice()) {
                Some(p) => Ok(Inbound::Shadow { topic, payload: p }),
                None => Ok(Inbound::Ignore),
            }
        },
    }
}

/// What the engine reads from a shadow document: its version and, where the
/// document has a non-null `state.desired`, that value as JSON text.
pub struct ShadowAccept {
    pub version: u64,
    pub desired: Option<String>,
}

/// The outcome of reading the previous document stored under a key.
pub enum StoreLookup {
    /// The store could not be asked.
    Failed,
    /// No document is stored under the key.
    Missing,
    /// A document is stored; `version` is `None` where it does not decode.
    Found { version: Option<u64> },
}

/// The store could not be asked for the previous document.
#[derive(PartialEq, Eq, Structural, Debug, Clone, Copy)]
pub enum StoreError {
    Unavailable,
}

/// A shadow document that does not decode.
#[derive(PartialEq, Eq, Structural, Debug, Clone, Copy)]
pub enum ShadowError {
    Malformed,
}

/// The stored document is at least as new as `version`.
pub open spec fn is_stale(lookup: StoreLookup, version: u64) -> bool {
    match lookup {
        StoreLookup::Found { version: Some(v) } => v >= version,
        _ => false,
    }
}

/// Whether a document of `version` is newer than what the store holds:
/// `Ok(false)` where the stored document is at least as new, an error where
/// the store could not be asked, `Ok(true)` otherwise.
pub fn shadow_version_compare(lookup: &StoreLookup, version: u64) -> (r: Result<bool, StoreError>)
    ensures
        r == match *lookup {
            StoreLookup::Failed => Err(StoreError::Unavailable),
            _ => Ok(!is_stale(*lookup, version)),
        },
{
    match lookup {
        StoreLookup::Failed => Err(StoreError::Unavailable),
        StoreLookup::Missing => Ok(true),
        StoreLookup::Found { version: stored } => match stored {
            Some(v) => Ok(*v < version),
            None => Ok(true),
        },
    }
}

/// What to do with one accepted shadow document.
pub struct InboundPlan {
    /// The notification for the local subscriber, if any.
    pub notify: Option<SubscribeCmd>,
    /// The store key under which the raw document is written.
    pub store_key: String,
    /// The raw document.
    pub store_value: String,
}

/// The desired state is forwarded: it is present, and the store does not
/// hold a document at least as new (a store that cannot be asked counts as
/// holding none).
pub open spec fn forwards(doc: ShadowAccept, lookup: StoreLookup) -> bool {
    doc.desired.is_some() && !is_stale(lookup, doc.version)
}

/// The topic of the notification for a key: `{key}/state`.
pub open spec fn notify_topic(key: Seq<char>) -> Seq<char> {
    key + "/state"@
}

/// `plan` is what the engine does with `payload`, received on `topic` and
/// decoded as `doc`, given what the store held.
pub open spec fn plans(
    plan: InboundPlan,
    topic: Seq<char>,
    payload: Seq<char>,
    doc: ShadowAccept,
    lookup: StoreLookup,
) -> bool {
    &&& plan.store_key@ == local_key(topic)
    &&& plan.store_value@ == payload
    &&& plan.notify.is_some() == forwards(doc, lookup)
    &&& forwards(doc, lookup) ==> match plan.notify {
        Some(SubscribeCmd::Notify { topic: t, msg }) => t@ == notify_topic(local_key(topic)) && msg@
            == doc.desired.unwrap()@,
        _ => false,
    }
}

/// Deduplicates one shadow document by version and says what to forward and
/// what to store. `doc` is the document decoded (`None` where it does not
/// decode); `lookup` is what the store held under the document's key, and is
/// only read where the document has a desired state.
pub fn post_iot_publish_msg(
    topic: &str,
    payload: &str,
    doc: Option<ShadowAccept>,
    lookup: StoreLookup,
) -> (r: Result<InboundPlan, ShadowError>)
    ensures
        match doc {
            None => r == Err::<InboundPlan, ShadowError>(ShadowError::Malformed),
            Some(d) => match r {
                Ok(plan) => plans(plan, topic@, payload@, d, lookup),
                Err(_) => false,
            },
        },
{
    let d = match doc {
        Some(d) => d,
        None => {
            return Err(ShadowError::Malformed);
        },
    };
    let key = shadow_local_key(topic);
    let ghost dv = d;
    let notify = match d.desired {
        Some(desired) => {
            let forward = match shadow_version_compare(&lookup, d.version) {
                Ok(newer) => newer,
                Err(_) => true,
            };
            if forward {
                Some(SubscribeCmd::Notify { topic: concat2(key.as_str(), "/state"), msg: desired })
            } else {
                None
            }
        },
        None => None,
    };
    let plan = InboundPlan { notify, store_key: key, store_value: copy_str(payload) };
    assert(plans(plan, topic@, payload@, dv, lookup));
    Ok(plan)
}

/// A get, update or delete rejection is not a document to handle: the event
/// classifier ignores it, whatever its payload, so it is never an error and
/// nothing is forwarded for it.
pub proof fn lemma_rejection_ignored(topic: Seq<char>, payload: Seq<u8>)
    requires
        is_rejected_topic(topic),
    ensures
        !wants_document(topic, payload),
{
}

/// A document whose version is not newer than the stored one is not
/// forwarded, and is still written to the store under its key.
pub proof fn lemma_stale_not_forwarded(
    plan: InboundPlan,
    topic: Seq<char>,
    payload: Seq<char>,
    doc: ShadowAccept,
    stored: u64,
)
    requires
        doc.version <= stored,
        plans(plan, topic, payload, doc, StoreLookup::Found { version: Some(stored) }),
    ensures
        plan.notify.is_none(),
        plan.store_key@ == local_key(topic),
        plan.store_value@ == payload,
{
}

/// A document newer than the stored one, or one for which nothing is
/// stored, has its desired state forwarded when it has one.
pub proof fn lemma_newer_forwarded(
    plan: InboundPlan,
    topic: Seq<char>,
    payload: Seq<char>,
    doc: ShadowAccept,
    lookup: StoreLookup,
)
    requires
        doc.desired.is_some(),
        match lookup {
            StoreLookup::Found { version: Some(v) } => doc.version > v,
            StoreLookup::Missing => true,
            _ => false,
        },
        plans(plan, topic, payload, doc, lookup),
    ensures
        match plan.notify {
            Some(SubscribeCmd::Notify { topic: t, msg }) => t@ == notify_topic(local_key(topic))
                && msg@ == doc.desired.unwrap()@,
            _ => false,
        },
        plan.store_value@ == payload,
{
}

} // verus!
