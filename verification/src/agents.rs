//! Agent invocation and the agent registry, backed by Tenzro agent
//! messaging, skills and identity.
//!
//! Invocation: each call is sent as one message (`agent.send_message`, the
//! unsigned variant) whose body is a JSON object with the request, the
//! optional payment token (forwarded verbatim; routers that do not enforce
//! payment ignore it) and the optional timeout. Tenzro's answer is a
//! delivery receipt, not the callee's reply; it is packaged as the reply's
//! response so callers can observe `message_id` and `status`.
//!
//! Registry: `list` maps each agent identity to a descriptor, `search` maps
//! each matching skill to a descriptor keyed on the skill's creator, and
//! `resolve` maps a DID's identity record. What the descriptor has no field
//! for (versions, addresses, ...) goes into its `meta` map.

use vstd::prelude::*;

use crate::client::TenzroHandle;
use crate::sdk::{insufficient_funds_message, insufficient_funds_text, sdk_debug, SdkFailure};
use crate::text::{decimal, json_quoted, json_string, u64_text};

verus! {

// ---------------------------------------------------------------------------
// Invocation
// ---------------------------------------------------------------------------

/// A call to another agent.
#[derive(Clone, Debug)]
pub struct AgentCall {
    /// Caller DID.
    pub from: String,
    /// Callee DID.
    pub to: String,
    /// The request, as JSON text.
    pub request_json: String,
    /// Optional payment token (AP2 / nanopayment).
    pub payment_token: Option<String>,
    /// Optional timeout in seconds.
    pub timeout_secs: Option<u64>,
}

/// What came back from a call.
#[derive(Clone, Debug)]
pub struct AgentReply {
    /// The DID the answer came from.
    pub from: String,
    /// The response, as JSON text.
    pub response_json: String,
}

/// What the invocation reads of Tenzro's delivery confirmation.
#[derive(Clone, Debug)]
pub struct DeliveryReceipt {
    /// Message id.
    pub message_id: String,
    /// Sender DID.
    pub from: String,
    /// Delivery status.
    pub status: String,
    /// Unix-millis timestamp stamped by the server.
    pub timestamp: u64,
    /// Whether the message carried signatures.
    pub signed: bool,
}

/// Why an invocation failed.
#[derive(Clone, Debug)]
pub enum AgentInvokerError {
    /// Transient failure; retrying may help.
    Transient(String),
    /// The callee cannot be reached.
    Unreachable(String),
    /// Payment (or the authentication it rests on) was refused.
    PaymentRefused(String),
    /// The remote side failed.
    Remote(String),
}

/// Map an SDK failure into invocation errors.
pub fn map_sdk_invoker(e: SdkFailure) -> (res: AgentInvokerError)
    ensures
        match e {
            SdkFailure::ConnectionError(s) => res matches AgentInvokerError::Transient(m) && m@
                == s@,
            SdkFailure::RpcError(s) => res matches AgentInvokerError::Transient(m) && m@ == s@,
            SdkFailure::Timeout => res matches AgentInvokerError::Transient(m) && m@ == "timeout"@,
            SdkFailure::NotFound(s) => res matches AgentInvokerError::Unreachable(m) && m@ == s@,
            SdkFailure::AuthenticationError(s) => res matches AgentInvokerError::PaymentRefused(m)
                && m@ == "auth: "@ + s@,
            SdkFailure::InsufficientFunds { required, available } => res matches AgentInvokerError::PaymentRefused(
                m,
            ) && m@ == insufficient_funds_text(required, available),
            _ => res matches AgentInvokerError::Remote(m) && m@ == sdk_debug(e),
        },
{
    match e {
        SdkFailure::ConnectionError(s) => AgentInvokerError::Transient(s),
        SdkFailure::RpcError(s) => AgentInvokerError::Transient(s),
        SdkFailure::Timeout => AgentInvokerError::Transient(String::from_str("timeout")),
        SdkFailure::NotFound(s) => AgentInvokerError::Unreachable(s),
        SdkFailure::AuthenticationError(s) => {
            let mut m = String::from_str("auth: ");
            m.append(s.as_str());
            AgentInvokerError::PaymentRefused(m)
        },
        SdkFailure::InsufficientFunds { required, available } => AgentInvokerError::PaymentRefused(
            insufficient_funds_message(required, available),
        ),
        other => AgentInvokerError::Remote(other.debug_text()),
    }
}

/// JSON of an optional string: its literal, or `null`.
pub open spec fn json_opt_string(v: Option<String>) -> Seq<char> {
    match v {
        Some(s) => json_quoted(s@),
        None => "null"@,
    }
}

/// JSON of an optional number: its digits, or `null`.
pub open spec fn json_opt_u64(v: Option<u64>) -> Seq<char> {
    match v {
        Some(n) => decimal(n as nat),
        None => "null"@,
    }
}

/// JSON of a boolean.
pub open spec fn json_bool(b: bool) -> Seq<char> {
    if b {
        "true"@
    } else {
        "false"@
    }
}

/// The message body of a call: the request, payment token and timeout, keys
/// sorted, no whitespace.
pub open spec fn invocation_body_spec(call: AgentCall) -> Seq<char> {
    "{\"payment_token\":"@ + json_opt_string(call.payment_token) + ",\"request\":"@
        + call.request_json@ + ",\"timeout_secs\":"@ + json_opt_u64(call.timeout_secs) + "}"@
}

fn opt_string_json(v: &Option<String>) -> (res: String)
    ensures
        res@ == json_opt_string(*v),
{
    match v {
        Some(s) => json_string(s.as_str()),
        None => String::from_str("null"),
    }
}

fn opt_u64_json(v: Option<u64>) -> (res: String)
    ensures
        res@ == json_opt_u64(v),
{
    match v {
        Some(n) => u64_text(n),
        None => String::from_str("null"),
    }
}

/// The message body sent for a call.
pub fn invocation_body(call: &AgentCall) -> (res: String)
    ensures
        res@ == invocation_body_spec(*call),
{
    let mut body = String::from_str("{\"payment_token\":");
    body.append(opt_string_json(&call.payment_token).as_str());
    body.append(",\"request\":");
    body.append(call.request_json.as_str());
    body.append(",\"timeout_secs\":");
    body.append(opt_u64_json(call.timeout_secs).as_str());
    body.append("}");
    body
}

/// The response packaged from a delivery receipt.
pub open spec fn delivery_response_spec(d: DeliveryReceipt) -> Seq<char> {
    "{\"delivery\":{\"message_id\":"@ + json_quoted(d.message_id@) + ",\"signed\":"@ + json_bool(
        d.signed,
    ) + ",\"status\":"@ + json_quoted(d.status@) + ",\"timestamp\":"@ + decimal(
        d.timestamp as nat,
    ) + "}}"@
}

/// The reply for a delivered message: from the receipt's sender, with the
/// delivery details as its response.
pub fn reply_from_delivery(d: &DeliveryReceipt) -> (res: AgentReply)
    ensures
        res.from@ == d.from@,
        res.response_json@ == delivery_response_spec(*d),
{
    let mut r = String::from_str("{\"delivery\":{\"message_id\":");
    r.append(json_string(d.message_id.as_str()).as_str());
    r.append(",\"signed\":");
    r.append(
        if d.signed {
            "true"
        } else {
            "false"
        },
    );
    r.append(",\"status\":");
    r.append(json_string(d.status.as_str()).as_str());
    r.append(",\"timestamp\":");
    r.append(u64_text(d.timestamp).as_str());
    r.append("}}");
    AgentReply { from: d.from.clone(), response_json: r }
}

// ---------------------------------------------------------------------------
// Registry
// ---------------------------------------------------------------------------

/// A JSON value stored in a descriptor's `meta` map.
#[derive(Clone, Debug)]
pub enum MetaValue {
    /// A JSON string.
    Text(String),
    /// A JSON boolean.
    Bool(bool),
    /// A JSON number.
    Number(u64),
    /// Any other JSON value, as its JSON text.
    Json(String),
}

/// A meta entry: key and value.
#[derive(Clone, Debug)]
pub struct MetaEntry {
    /// The key.
    pub key: String,
    /// The value.
    pub value: MetaValue,
}

/// What the registry knows of an agent.
#[derive(Clone, Debug)]
pub struct AgentDescriptor {
    /// The agent's DID.
    pub did: String,
    /// Display name.
    pub name: String,
    /// Skill names and tags.
    pub skills: Vec<String>,
    /// Where to reach it, if known.
    pub endpoint: Option<String>,
    /// Everything else, by key (each key at most once).
    pub meta: Vec<MetaEntry>,
}

/// What the registry reads of a Tenzro agent identity.
#[derive(Clone, Debug)]
pub struct AgentRecord {
    /// Unique agent identifier.
    pub agent_id: String,
    /// On-chain address, as JSON text.
    pub address_json: String,
    /// Agent name.
    pub name: String,
    /// Agent version, empty when unknown.
    pub version: String,
    /// Creator/owner address, as JSON text.
    pub creator_json: String,
}

/// What the registry reads of a Tenzro skill.
#[derive(Clone, Debug)]
pub struct SkillRecord {
    /// Unique skill ID.
    pub skill_id: String,
    /// Skill name.
    pub name: String,
    /// Semantic version, empty when unknown.
    pub version: String,
    /// Creator DID.
    pub creator_did: String,
    /// Description, empty when none.
    pub description: String,
    /// Discovery tags.
    pub tags: Vec<String>,
}

/// What the registry reads of a resolved Tenzro identity.
#[derive(Clone, Debug)]
pub struct IdentityRecord {
    /// The DID string.
    pub did: String,
    /// Current status, empty when unknown.
    pub status: String,
    /// Whether this is a human identity.
    pub is_human: bool,
    /// Whether this is a machine identity.
    pub is_machine: bool,
    /// Display name.
    pub display_name: String,
    /// Number of public keys.
    pub key_count: u64,
}

/// Why a registry operation failed.
#[derive(Clone, Debug)]
pub enum AgentRegistryError {
    /// Transient failure; retrying may help.
    Transient(String),
    /// The lookup failed.
    Lookup(String),
}

/// Map an SDK failure into registry errors.
pub fn map_sdk_registry(e: SdkFailure) -> (res: AgentRegistryError)
    ensures
        match e {
            SdkFailure::ConnectionError(s) => res matches AgentRegistryError::Transient(m) && m@
                == s@,
            SdkFailure::RpcError(s) => res matches AgentRegistryError::Transient(m) && m@ == s@,
            SdkFailure::Timeout => res matches AgentRegistryError::Transient(m) && m@ == "timeout"@,
            _ => res matches AgentRegistryError::Lookup(m) && m@ == sdk_debug(e),
        },
{
    match e {
        SdkFailure::ConnectionError(s) => AgentRegistryError::Transient(s),
        SdkFailure::RpcError(s) => AgentRegistryError::Transient(s),
        SdkFailure::Timeout => AgentRegistryError::Transient(String::from_str("timeout")),
        other => AgentRegistryError::Lookup(other.debug_text()),
    }
}

/// A meta value as a spec value: its kind and its text.
pub open spec fn meta_value_view(v: MetaValue) -> (int, Seq<char>) {
    match v {
        MetaValue::Text(s) => (0, s@),
        MetaValue::Bool(b) => (1, json_bool(b)),
        MetaValue::Number(n) => (2, decimal(n as nat)),
        MetaValue::Json(t) => (3, t@),
    }
}

/// A meta entry as a spec value.
pub open spec fn meta_entry_view(e: MetaEntry) -> (Seq<char>, (int, Seq<char>)) {
    (e.key@, meta_value_view(e.value))
}

/// The views of a meta map.
pub open spec fn meta_view(m: Seq<MetaEntry>) -> Seq<(Seq<char>, (int, Seq<char>))> {
    m.map_values(|e: MetaEntry| meta_entry_view(e))
}

/// A text entry, present only when the text is non-empty.
pub open spec fn text_entry_if_set(key: Seq<char>, value: Seq<char>) -> Seq<
    (Seq<char>, (int, Seq<char>)),
> {
    if value.len() == 0 {
        Seq::empty()
    } else {
        seq![(key, (0int, value))]
    }
}

/// The views of a list of strings.
pub open spec fn texts(v: Seq<String>) -> Seq<Seq<char>> {
    v.map_values(|s: String| s@)
}

/// A DID from a JSON value: the string itself for a JSON string, else the
/// value's JSON text.
pub open spec fn json_to_did_spec(v: MetaValue) -> Seq<char> {
    meta_value_view(v).1
}

/// A DID from a JSON value (addresses come either as strings or wrapped).
pub fn json_to_did(v: &MetaValue) -> (res: String)
    ensures
        res@ == json_to_did_spec(*v),
{
    match v {
        MetaValue::Text(s) => s.clone(),
        MetaValue::Bool(b) => String::from_str(
            if *b {
                "true"
            } else {
                "false"
            },
        ),
        MetaValue::Number(n) => u64_text(*n),
        MetaValue::Json(t) => t.clone(),
    }
}

fn text_entry(key: &str, value: String) -> (res: MetaEntry)
    ensures
        meta_entry_view(res) == (key@, (0int, value@)),
{
    MetaEntry { key: String::from_str(key), value: MetaValue::Text(value) }
}

fn push_entry(meta: &mut Vec<MetaEntry>, e: MetaEntry)
    ensures
        meta_view(final(meta)@) == meta_view(old(meta)@).push(meta_entry_view(e)),
{
    meta.push(e);
    assert(meta_view(final(meta)@) =~= meta_view(old(meta)@).push(meta_entry_view(e)));
}

fn push_text_if_set(meta: &mut Vec<MetaEntry>, key: &str, value: String)
    ensures
        meta_view(final(meta)@) == meta_view(old(meta)@) + text_entry_if_set(key@, value@),
{
    if value.as_str().is_empty() {
        assert(meta_view(old(meta)@) + text_entry_if_set(key@, value@) =~= meta_view(old(meta)@));
    } else {
        push_entry(meta, text_entry(key, value));
        assert(meta_view(final(meta)@) =~= meta_view(old(meta)@) + text_entry_if_set(key@, value@));
    }
}

/// The value stored under `key` in a meta map: that of its first entry with
/// that key, as `serde_json::Map::get` finds it (keys are unique here).
pub open spec fn meta_get(m: Seq<(Seq<char>, (int, Seq<char>))>, key: Seq<char>) -> Option<
    (int, Seq<char>),
>
    decreases m.len(),
{
    if m.len() == 0 {
        None
    } else if m[0].0 == key {
        Some(m[0].1)
    } else {
        meta_get(m.drop_first(), key)
    }
}

/// A listed agent's descriptor keeps the agent's own address and creator:
/// the value under `address` is its address JSON and the value under
/// `creator` its creator JSON, and `version` is its version when it has one.
pub proof fn law_agent_meta_fields(a: AgentRecord)
    ensures
        meta_get(agent_meta(a), "address"@) == Some(meta_value_view(MetaValue::Json(a.address_json))),
        meta_get(agent_meta(a), "creator"@) == Some(meta_value_view(MetaValue::Json(a.creator_json))),
        meta_get(agent_meta(a), "version"@) == if a.version@.len() == 0 {
            None
        } else {
            Some(meta_value_view(MetaValue::Text(a.version)))
        },
{
    reveal_strlit("address");
    reveal_strlit("creator");
    reveal_strlit("version");
    let m = agent_meta(a);
    if a.version@.len() == 0 {
        assert(m.drop_first().len() == 1);
    } else {
        assert(m[0].0 == "version"@);
        assert(m.drop_first() =~= seq![("address"@, (3int, a.address_json@)), ("creator"@, (3int, a.creator_json@))]);
        assert(m.drop_first().drop_first().len() == 1);
    }
    assert("address"@ != "creator"@ && "address"@ != "version"@ && "creator"@ != "version"@) by {
        assert("address"@[0] != "creator"@[0]);
        assert("address"@[0] != "version"@[0]);
        assert("creator"@[0] != "version"@[0]);
    }
    reveal_with_fuel(meta_get, 4);
}

/// The meta map of an agent identity: its version (when known), address and
/// creator.
pub open spec fn agent_meta(a: AgentRecord) -> Seq<(Seq<char>, (int, Seq<char>))> {
    text_entry_if_set("version"@, a.version@) + seq![
        ("address"@, (3int, a.address_json@)),
        ("creator"@, (3int, a.creator_json@)),
    ]
}

/// The descriptor of a listed agent.
pub fn descriptor_from_agent(a: AgentRecord) -> (res: AgentDescriptor)
    ensures
        res.did@ == a.agent_id@,
        res.name@ == a.name@,
        res.skills@.len() == 0,
        res.endpoint is None,
        meta_view(res.meta@) == agent_meta(a),
        meta_get(meta_view(res.meta@), "address"@) == Some(
            meta_value_view(MetaValue::Json(a.address_json)),
        ),
        meta_get(meta_view(res.meta@), "creator"@) == Some(
            meta_value_view(MetaValue::Json(a.creator_json)),
        ),
{
    proof {
        law_agent_meta_fields(a);
    }
    let mut meta: Vec<MetaEntry> = Vec::new();
    assert(meta_view(meta@) =~= Seq::empty());
    push_text_if_set(&mut meta, "version", a.version);
    push_entry(
        &mut meta,
        MetaEntry { key: String::from_str("address"), value: MetaValue::Json(a.address_json) },
    );
    push_entry(
        &mut meta,
        MetaEntry { key: String::from_str("creator"), value: MetaValue::Json(a.creator_json) },
    );
    assert(meta_view(meta@) =~= agent_meta(a));
    AgentDescriptor {
        did: a.agent_id,
        name: a.name,
        skills: Vec::new(),
        endpoint: None,
        meta,
    }
}

/// The meta map of a skill: its id, then version and description (each
/// when non-empty).
pub open spec fn skill_meta(s: SkillRecord) -> Seq<(Seq<char>, (int, Seq<char>))> {
    seq![("skill_id"@, (0int, s.skill_id@))] + text_entry_if_set("version"@, s.version@)
        + text_entry_if_set("description"@, s.description@)
}

/// A skill hit's descriptor names the skill by its own id: the value under
/// `skill_id` is the skill's id, and `version` and `description` are its own
/// when it has them.
pub proof fn law_skill_meta_fields(s: SkillRecord)
    ensures
        meta_get(skill_meta(s), "skill_id"@) == Some(meta_value_view(MetaValue::Text(s.skill_id))),
        meta_get(skill_meta(s), "version"@) == if s.version@.len() == 0 {
            None
        } else {
            Some(meta_value_view(MetaValue::Text(s.version)))
        },
        meta_get(skill_meta(s), "description"@) == if s.description@.len() == 0 {
            None
        } else {
            Some(meta_value_view(MetaValue::Text(s.description)))
        },
{
    reveal_strlit("skill_id");
    reveal_strlit("version");
    reveal_strlit("description");
    let m = skill_meta(s);
    let v = text_entry_if_set("version"@, s.version@);
    let d = text_entry_if_set("description"@, s.description@);
    assert(m.drop_first() =~= v + d);
    if v.len() > 0 {
        assert((v + d).drop_first() =~= d);
    }
    assert("skill_id"@ != "version"@ && "skill_id"@ != "description"@ && "version"@
        != "description"@) by {
        assert("skill_id"@.len() != "version"@.len());
        assert("skill_id"@.len() != "description"@.len());
        assert("version"@.len() != "description"@.len());
    }
    reveal_with_fuel(meta_get, 4);
}

/// The skills of a skill's descriptor: its tags, then its name when
/// non-empty.
pub open spec fn skill_names(s: SkillRecord) -> Seq<Seq<char>> {
    texts(s.tags@) + (if s.name@.len() == 0 {
        Seq::<Seq<char>>::empty()
    } else {
        seq![s.name@]
    })
}

/// The descriptor of a skill found by a search, keyed on its creator.
pub fn descriptor_from_skill(s: SkillRecord) -> (res: AgentDescriptor)
    ensures
        res.did@ == s.creator_did@,
        res.name@ == s.name@,
        texts(res.skills@) == skill_names(s),
        res.endpoint is None,
        meta_view(res.meta@) == skill_meta(s),
        meta_get(meta_view(res.meta@), "skill_id"@) == Some(
            meta_value_view(MetaValue::Text(s.skill_id)),
        ),
{
    proof {
        law_skill_meta_fields(s);
    }
    let mut tags = s.tags;
    if !s.name.as_str().is_empty() {
        let ghost before = tags@;
        tags.push(s.name.clone());
        assert(texts(tags@) =~= texts(before).push(s.name@));
    } else {
        assert(texts(tags@) + Seq::<Seq<char>>::empty() =~= texts(tags@));
    }
    let mut meta: Vec<MetaEntry> = Vec::new();
    assert(meta_view(meta@) =~= Seq::empty());
    push_entry(&mut meta, text_entry("skill_id", s.skill_id));
    push_text_if_set(&mut meta, "version", s.version);
    push_text_if_set(&mut meta, "description", s.description);
    assert(meta_view(meta@) =~= skill_meta(s));
    AgentDescriptor { did: s.creator_did, name: s.name, skills: tags, endpoint: None, meta }
}

/// The meta map of a resolved identity: its status (when non-empty), then
/// whether it is human, whether it is a machine, and its key count.
pub open spec fn identity_meta(i: IdentityRecord) -> Seq<(Seq<char>, (int, Seq<char>))> {
    text_entry_if_set("status"@, i.status@) + seq![
        ("is_human"@, (1int, json_bool(i.is_human))),
        ("is_machine"@, (1int, json_bool(i.is_machine))),
        ("key_count"@, (2int, decimal(i.key_count as nat))),
    ]
}

/// A resolved identity's descriptor reports the identity's own flags: the
/// value under `is_human` is its `is_human` flag, under `is_machine` its
/// `is_machine` flag, under `key_count` its key count, and under `status` its
/// status when it has one.
pub proof fn law_identity_meta_fields(i: IdentityRecord)
    ensures
        meta_get(identity_meta(i), "is_human"@) == Some(meta_value_view(MetaValue::Bool(i.is_human))),
        meta_get(identity_meta(i), "is_machine"@) == Some(
            meta_value_view(MetaValue::Bool(i.is_machine)),
        ),
        meta_get(identity_meta(i), "key_count"@) == Some(
            meta_value_view(MetaValue::Number(i.key_count)),
        ),
        meta_get(identity_meta(i), "status"@) == if i.status@.len() == 0 {
            None
        } else {
            Some(meta_value_view(MetaValue::Text(i.status)))
        },
{
    reveal_strlit("status");
    reveal_strlit("is_human");
    reveal_strlit("is_machine");
    reveal_strlit("key_count");
    let m = identity_meta(i);
    let tail = seq![
        ("is_human"@, (1int, json_bool(i.is_human))),
        ("is_machine"@, (1int, json_bool(i.is_machine))),
        ("key_count"@, (2int, decimal(i.key_count as nat))),
    ];
    if i.status@.len() > 0 {
        assert(m.drop_first() =~= tail);
    } else {
        assert(m =~= tail);
    }
    assert(tail.drop_first() =~= seq![
        ("is_machine"@, (1int, json_bool(i.is_machine))),
        ("key_count"@, (2int, decimal(i.key_count as nat))),
    ]);
    assert(tail.drop_first().drop_first() =~= seq![("key_count"@, (2int, decimal(i.key_count as nat)))]);
    assert("status"@.len() == 6 && "is_human"@.len() == 8 && "is_machine"@.len() == 10
        && "key_count"@.len() == 9);
    reveal_with_fuel(meta_get, 5);
}

/// The descriptor of a resolved DID.
pub fn descriptor_from_identity(i: IdentityRecord) -> (res: AgentDescriptor)
    ensures
        res.did@ == i.did@,
        res.name@ == i.display_name@,
        res.skills@.len() == 0,
        res.endpoint is None,
        meta_view(res.meta@) == identity_meta(i),
        meta_get(meta_view(res.meta@), "is_human"@) == Some(
            meta_value_view(MetaValue::Bool(i.is_human)),
        ),
        meta_get(meta_view(res.meta@), "is_machine"@) == Some(
            meta_value_view(MetaValue::Bool(i.is_machine)),
        ),
{
    proof {
        law_identity_meta_fields(i);
    }
    let mut meta: Vec<MetaEntry> = Vec::new();
    assert(meta_view(meta@) =~= Seq::empty());
    push_text_if_set(&mut meta, "status", i.status);
    push_entry(&mut meta, MetaEntry { key: String::from_str("is_human"), value: MetaValue::Bool(i.is_human) });
    push_entry(
        &mut meta,
        MetaEntry { key: String::from_str("is_machine"), value: MetaValue::Bool(i.is_machine) },
    );
    push_entry(
        &mut meta,
        MetaEntry { key: String::from_str("key_count"), value: MetaValue::Number(i.key_count) },
    );
    assert(meta_view(meta@) =~= identity_meta(i));
    let did = json_to_did(&MetaValue::Text(i.did));
    AgentDescriptor { did, name: i.display_name, skills: Vec::new(), endpoint: None, meta }
}

/// The descriptors of all listed agents, in order.
pub fn descriptors_from_agents(agents: Vec<AgentRecord>) -> (res: Vec<AgentDescriptor>)
    ensures
        res@.len() == agents@.len(),
        forall|i: int|
            0 <= i < agents@.len() ==> {
                &&& (#[trigger] res@[i]).did@ == agents@[i].agent_id@
                &&& res@[i].name@ == agents@[i].name@
                &&& meta_view(res@[i].meta@) == agent_meta(agents@[i])
                &&& res@[i].skills@.len() == 0
                &&& res@[i].endpoint is None
            },
{
    let ghost all = agents@;
    let mut rest = agents;
    let mut out: Vec<AgentDescriptor> = Vec::new();
    while rest.len() > 0
        invariant
            out@.len() + rest@.len() == all.len(),
            rest@ == all.subrange(out@.len() as int, all.len() as int),
            forall|j: int|
                0 <= j < out@.len() ==> {
                    &&& (#[trigger] out@[j]).did@ == all[j].agent_id@
                    &&& out@[j].name@ == all[j].name@
                    &&& meta_view(out@[j].meta@) == agent_meta(all[j])
                    &&& out@[j].skills@.len() == 0
                    &&& out@[j].endpoint is None
                },
        decreases rest.len(),
    {
        let a = rest.remove(0);
        out.push(descriptor_from_agent(a));
    }
    out
}

/// The descriptors of all skills a search found, in order.
pub fn descriptors_from_skills(skills: Vec<SkillRecord>) -> (res: Vec<AgentDescriptor>)
    ensures
        res@.len() == skills@.len(),
        forall|i: int|
            0 <= i < skills@.len() ==> {
                &&& (#[trigger] res@[i]).did@ == skills@[i].creator_did@
                &&& res@[i].name@ == skills@[i].name@
                &&& texts(res@[i].skills@) == skill_names(skills@[i])
                &&& meta_view(res@[i].meta@) == skill_meta(skills@[i])
                &&& res@[i].endpoint is None
            },
{
    let ghost all = skills@;
    let mut rest = skills;
    let mut out: Vec<AgentDescriptor> = Vec::new();
    while rest.len() > 0
        invariant
            out@.len() + rest@.len() == all.len(),
            rest@ == all.subrange(out@.len() as int, all.len() as int),
            forall|j: int|
                0 <= j < out@.len() ==> {
                    &&& (#[trigger] out@[j]).did@ == all[j].creator_did@
                    &&& out@[j].name@ == all[j].name@
                    &&& texts(out@[j].skills@) == skill_names(all[j])
                    &&& meta_view(out@[j].meta@) == skill_meta(all[j])
                    &&& out@[j].endpoint is None
                },
        decreases rest.len(),
    {
        let s = rest.remove(0);
        out.push(descriptor_from_skill(s));
    }
    out
}


/// Agent invoker backed by Tenzro agent messaging.
pub struct TenzroAgentInvoker {
    handle: TenzroHandle,
}

impl TenzroAgentInvoker {
    /// The handle it works through.
    pub closed spec fn handle_view(&self) -> TenzroHandle {
        self.handle
    }

    /// Construct a Tenzro agent invoker.
    pub fn new(handle: TenzroHandle) -> (res: Self)
        ensures
            res.handle_view() == handle,
    {
        TenzroAgentInvoker { handle }
    }

    /// The handle it sends through.
    pub fn handle(&self) -> (res: &TenzroHandle)
        ensures
            *res == self.handle_view(),
    {
        &self.handle
    }
}

/// Agent registry backed by Tenzro.
pub struct TenzroAgentRegistry {
    handle: TenzroHandle,
}

impl TenzroAgentRegistry {
    /// The handle it works through.
    pub closed spec fn handle_view(&self) -> TenzroHandle {
        self.handle
    }

    /// Construct a Tenzro agent registry.
    pub fn new(handle: TenzroHandle) -> (res: Self)
        ensures
            res.handle_view() == handle,
    {
        TenzroAgentRegistry { handle }
    }

    /// The handle it looks up through.
    pub fn handle(&self) -> (res: &TenzroHandle)
        ensures
            *res == self.handle_view(),
    {
        &self.handle
    }
}

} // verus!
