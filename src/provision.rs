//! The provisioning state machine: the exchange with the broker's
//! certificate-create and provisioning-template services that yields the
//! device's own credential.
use vstd::prelude::*;
use crate::credential::{AwsIotKeyCertificate, UtcTime};
use crate::json::{json_string, quote_json};
use crate::text::{
    ascii_lowercase, ascii_uppercase, copy_str, remove_char, seq_ascii_lower, seq_ascii_upper,
    without_char,
};
use crate::topic::{
    cert_create_accepted, cert_create_accepted_topic, cert_create_rejected,
    cert_create_rejected_topic, cert_create_request, cert_create_topic, provision_accept_topic,
    provision_accepted_topic, provision_reject_topic, provision_rejected_topic,
    provision_request_topic, provision_topic,
};

verus! {

/// The parameters that identify the device to the provisioning template.
pub struct DeviceParams {
    pub model: String,
    pub serial_number: String,
    pub mac: String,
    pub sku: String,
}

impl DeviceParams {
    /// The model is the thing prefix in upper case, the serial number is in
    /// lower case, the MAC address is in lower case without colons, and the
    /// SKU is kept as it is.
    pub fn new(thing_prefix: &str, serial_number: &str, mac_address: &str, sku: &str) -> (r:
        DeviceParams)
        ensures
            r.model@ == seq_ascii_upper(thing_prefix@),
            r.serial_number@ == seq_ascii_lower(serial_number@),
            r.mac@ == seq_ascii_lower(without_char(mac_address@, ':')),
            r.sku@ == sku@,
    {
        let bare = remove_char(mac_address, ':');
        DeviceParams {
            model: ascii_uppercase(thing_prefix),
            serial_number: ascii_lowercase(serial_number),
            mac: ascii_lowercase(bare.as_str()),
            sku: copy_str(sku),
        }
    }
}

/// The client id of the provisioning session: `pid-` and the last five
/// characters of the serial number.
pub open spec fn client_id_of(serial: Seq<char>) -> Seq<char> {
    "pid-"@ + serial.subrange(serial.len() - 5, serial.len() as int)
}

/// The client id of the provisioning session, or `None` where the serial
/// number has fewer than five characters.
pub fn provision_client_id(serial_number: &str) -> (r: Option<String>)
    ensures
        serial_number@.len() < 5 ==> r.is_none(),
        serial_number@.len() >= 5 ==> r.is_some() && r.unwrap()@ == client_id_of(
            serial_number@,
        ),
{
    let n = serial_number.unicode_len();
    if n < 5 {
        return None;
    }
    let mut r = copy_str("pid-");
    r.append(serial_number.substring_char(n - 5, n));
    Some(r)
}

/// The provisioning request, from the JSON literals of its five values.
pub open spec fn provision_body(
    token: Seq<char>,
    model: Seq<char>,
    serial: Seq<char>,
    mac: Seq<char>,
    sku: Seq<char>,
) -> Seq<char> {
    "{\"certificateOwnershipToken\":"@ + token + ",\"parameters\":{\"Model\":"@ + model
        + ",\"SerialNumber\":"@ + serial + ",\"MAC\":"@ + mac + ",\"DeviceLocation\":"@ + sku
        + "}}"@
}

/// The provisioning request for an ownership token and device parameters.
pub open spec fn provision_request_body(token: Seq<char>, p: DeviceParams) -> Seq<char> {
    provision_body(
        json_string(token),
        json_string(p.model@),
        json_string(p.serial_number@),
        json_string(p.mac@),
        json_string(p.sku@),
    )
}

/// Frames the provisioning request around the JSON literals of its values.
pub fn provision_request_frame(token: &str, model: &str, serial: &str, mac: &str, sku: &str) -> (r:
    String)
    ensures
        r@ == provision_body(token@, model@, serial@, mac@, sku@),
{
    let mut r = copy_str("{\"certificateOwnershipToken\":");
    r.append(token);
    r.append(",\"parameters\":{\"Model\":");
    r.append(model);
    r.append(",\"SerialNumber\":");
    r.append(serial);
    r.append(",\"MAC\":");
    r.append(mac);
    r.append(",\"DeviceLocation\":");
    r.append(sku);
    r.append("}}");
    assert(r@ =~= provision_body(token@, model@, serial@, mac@, sku@));
    r
}

/// The provisioning request that carries the ownership token and the
/// device parameters.
pub fn provision_request_payload(token: &str, params: &DeviceParams) -> (r: String)
    ensures
        r@ == provision_request_body(token@, *params),
{
    let t = quote_json(token);
    let m = quote_json(params.model.as_str());
    let s = quote_json(params.serial_number.as_str());
    let c = quote_json(params.mac.as_str());
    let k = quote_json(params.sku.as_str());
    provision_request_frame(t.as_str(), m.as_str(), s.as_str(), c.as_str(), k.as_str())
}

/// Why the provisioning exchange ends without a credential.
#[derive(PartialEq, Eq, Structural, Debug, Clone, Copy)]
pub enum ProvisionError {
    /// The template accepted the registration before any certificate came.
    NoCertificate,
    /// The template's answer does not decode.
    InvalidResponse,
    /// The task that handles broker events did not complete.
    Aborted,
    /// A subscribe or publish on the session failed.
    Transport,
    /// The credential could not be written.
    Storage,
}

/// An event of the provisioning session. For a published message the
/// payload has been decoded both as an issued certificate (`None` where it
/// is not one) and as the template's registration answer.
pub enum ProvisionEvent {
    SubAck,
    Publish { topic: String, certificate: Option<AwsIotKeyCertificate>, registered: bool },
    Other,
}

/// What the session does next.
pub enum ProvisionAction {
    /// Subscribe to a topic.
    Subscribe { topic: String },
    /// Publish a payload on a topic.
    Publish { topic: String, payload: String },
    /// Nothing.
    Ignore,
    /// Disconnect; on success save the credential.
    Finish { outcome: Result<AwsIotKeyCertificate, ProvisionError> },
}

/// The state of one provisioning exchange.
pub struct ProvisionFlow {
    pub template: String,
    pub params: DeviceParams,
    pub acks: u64,
    pub certificate: Option<AwsIotKeyCertificate>,
}

/// The topic subscribed to on the `n`th acknowledgment, for `n` from 1 to 3.
pub open spec fn ack_topic(template: Seq<char>, n: u64) -> Seq<char> {
    if n == 1 {
        cert_create_rejected_topic()
    } else if n == 2 {
        provision_accepted_topic(template)
    } else {
        provision_rejected_topic(template)
    }
}

/// The topic that the session subscribes to first.
pub open spec fn first_topic() -> Seq<char> {
    cert_create_accepted_topic()
}

/// The fields of a certificate are those of another.
pub open spec fn same_certificate(a: AwsIotKeyCertificate, b: AwsIotKeyCertificate) -> bool {
    &&& a.certificate_id@ == b.certificate_id@
    &&& a.certificate_pem@ == b.certificate_pem@
    &&& a.private_key@ == b.private_key@
    &&& a.certificate_ownership_token@ == b.certificate_ownership_token@
    &&& a.issue_time == b.issue_time
}

/// The parts of the state that the session never changes.
pub open spec fn keeps_setup(a: ProvisionFlow, b: ProvisionFlow) -> bool {
    &&& a.template@ == b.template@
    &&& a.params.model@ == b.params.model@
    &&& a.params.serial_number@ == b.params.serial_number@
    &&& a.params.mac@ == b.params.mac@
    &&& a.params.sku@ == b.params.sku@
}

/// The saturating successor of a counter.
pub open spec fn next_count(n: u64) -> u64 {
    if n == u64::MAX {
        n
    } else {
        (n + 1) as u64
    }
}

/// One step of the exchange: the new state `s2` and the action `a` that
/// follow event `e` in state `s`.
pub open spec fn provision_step(
    s: ProvisionFlow,
    e: ProvisionEvent,
    s2: ProvisionFlow,
    a: ProvisionAction,
) -> bool {
    &&& keeps_setup(s, s2)
    &&& match e {
        ProvisionEvent::SubAck => {
            &&& s2.acks == next_count(s.acks)
            &&& s2.certificate == s.certificate
            &&& if 1 <= s2.acks <= 3 {
                a matches ProvisionAction::Subscribe { topic } && topic@ == ack_topic(
                    s.template@,
                    s2.acks,
                )
            } else {
                a matches ProvisionAction::Publish { topic, payload } && topic@
                    == cert_create_topic() && payload@.len() == 0
            }
        },
        ProvisionEvent::Other => s2.acks == s.acks && s2.certificate == s.certificate
            && a is Ignore,
        ProvisionEvent::Publish { topic, certificate, registered } => {
            &&& s2.acks == s.acks
            &&& if topic@ == cert_create_accepted_topic() {
                match certificate {
                    Some(g) => {
                        &&& s2.certificate matches Some(c) && same_certificate(c, g)
                        &&& a matches ProvisionAction::Publish { topic: t, payload } && t@
                            == provision_topic(s.template@) && payload@ == provision_request_body(
                            g.certificate_ownership_token@,
                            s.params,
                        )
                    },
                    None => s2.certificate == s.certificate && a is Ignore,
                }
            } else if topic@ == provision_accepted_topic(s.template@) {
                &&& s2.certificate == s.certificate
                &&& a matches ProvisionAction::Finish { outcome }
                &&& if !registered {
                    outcome == Err::<AwsIotKeyCertificate, ProvisionError>(
                        ProvisionError::InvalidResponse,
                    )
                } else {
                    match s.certificate {
                        Some(c) => outcome matches Ok(o) && same_certificate(o, c),
                        None => outcome == Err::<AwsIotKeyCertificate, ProvisionError>(
                            ProvisionError::NoCertificate,
                        ),
                    }
                }
            } else {
                s2.certificate == s.certificate && a is Ignore
            }
        },
    }
}

fn copy_certificate(c: &AwsIotKeyCertificate) -> (r: AwsIotKeyCertificate)
    ensures
        same_certificate(r, *c),
{
    AwsIotKeyCertificate {
        certificate_id: copy_str(c.certificate_id.as_str()),
        certificate_pem: copy_str(c.certificate_pem.as_str()),
        private_key: copy_str(c.private_key.as_str()),
        certificate_ownership_token: copy_str(c.certificate_ownership_token.as_str()),
        issue_time: c.issue_time,
    }
}

impl ProvisionFlow {
    /// A new exchange for a template and device; nothing acknowledged, no
    /// certificate yet.
    pub fn new(template: &str, params: DeviceParams) -> (r: ProvisionFlow)
        ensures
            r.template@ == template@,
            r.params == params,
            r.acks == 0,
            r.certificate.is_none(),
    {
        ProvisionFlow { template: copy_str(template), params, acks: 0, certificate: None }
    }

    /// The topic to subscribe to when the session opens.
    pub fn first_subscription(&self) -> (r: String)
        ensures
            r@ == first_topic(),
    {
        cert_create_accepted()
    }

    /// Handles one event of the session and says what to do next.
    pub fn step(&mut self, event: ProvisionEvent) -> (a: ProvisionAction)
        ensures
            provision_step(*old(self), event, *final(self), a),
    {
        match event {
            ProvisionEvent::SubAck => {
                if self.acks < u64::MAX {
                    self.acks = self.acks + 1;
                }
                if self.acks == 1 {
                    ProvisionAction::Subscribe { topic: cert_create_rejected() }
                } else if self.acks == 2 {
                    ProvisionAction::Subscribe {
                        topic: provision_accept_topic(self.template.as_str()),
                    }
                } else if self.acks == 3 {
                    ProvisionAction::Subscribe {
                        topic: provision_reject_topic(self.template.as_str()),
                    }
                } else {
                    ProvisionAction::Publish { topic: cert_create_request(), payload: String::new() }
                }
            },
            ProvisionEvent::Other => ProvisionAction::Ignore,
            ProvisionEvent::Publish { topic, certificate, registered } => {
                let accepted = cert_create_accepted();
                let registered_topic = provision_accept_topic(self.template.as_str());
                if topic == accepted {
                    match certificate {
                        Some(g) => {
                            let payload = provision_request_payload(
                                g.certificate_ownership_token.as_str(),
                                &self.params,
                            );
                            let t = provision_request_topic(self.template.as_str());
                            self.certificate = Some(g);
                            ProvisionAction::Publish { topic: t, payload }
                        },
                        None => ProvisionAction::Ignore,
                    }
                } else if topic == registered_topic {
                    if !registered {
                        ProvisionAction::Finish { outcome: Err(ProvisionError::InvalidResponse) }
                    } else {
                        match &self.certificate {
                            Some(c) => ProvisionAction::Finish { outcome: Ok(copy_certificate(c)) },
                            None => ProvisionAction::Finish {
                                outcome: Err(ProvisionError::NoCertificate),
                            },
                        }
                    }
                } else {
                    ProvisionAction::Ignore
                }
            },
        }
    }
}

/// The outcome of the two tasks of the exchange: the event task's result
/// (`None` where that task did not complete) decides; a failure of the
/// transport task alone does not.
/// `transport_ok` is whether the task
/// that drives the transport ended normally; it is logged by the caller and
/// does not change the outcome.
pub fn provision_join(
    events: Option<Result<(String, UtcTime), ProvisionError>>,
    transport_ok: bool,
) -> (r: Result<(String, UtcTime), ProvisionError>)
    ensures
        match events {
            None => r == Err::<(String, UtcTime), ProvisionError>(ProvisionError::Aborted),
            Some(Err(e)) => r == Err::<(String, UtcTime), ProvisionError>(e),
            Some(Ok((id, t))) => r matches Ok((id2, t2)) && id2@ == id@ && t2 == t,
        },
{
    match events {
        Some(r) => r,
        None => Err(ProvisionError::Aborted),
    }
}

/// The cached credential is used, and the network exchange skipped, when
/// the credential files pass the check and no new one was asked for.
pub fn use_cached_credential(files_ok: bool, force: bool) -> (r: bool)
    ensures
        r == (files_ok && !force),
{
    files_ok && !force
}

} // verus!
