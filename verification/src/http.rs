use vstd::prelude::*;
use vstd::utf8::{valid_utf8, decode_utf8};
use prometheus::{Encoder, Registry, TextEncoder};
use prometheus::proto::MetricType;

verus! {

/// The metrics registry from `prometheus`, carried through as an opaque value.
#[verifier::external_type_specification]
#[verifier::external_body]
pub struct ExRegistry(Registry);

/// One gathered metric family from `prometheus`, opaque.
#[verifier::external_type_specification]
#[verifier::external_body]
pub struct ExMetricFamily(prometheus::proto::MetricFamily);

/// What the metrics endpoint serves from: the registry holding every gauge
/// and counter of the agent.
pub struct State {
    pub registry: Registry,
}

impl State {
    /// Serve from `registry`.
    pub fn new(registry: Registry) -> (r: Self)
        ensures
            r.registry == registry,
    {
        State { registry }
    }
}

/// `Registry::gather`: the current value of every registered metric.
/// Nothing is claimed of the result: the gauges change concurrently.
#[verifier::external_body]
fn gather_metrics(registry: &Registry) -> (r: Vec<prometheus::proto::MetricFamily>) {
    registry.gather()
}

/// The type of a gathered metric family, as `prometheus` tags it.
#[derive(Debug, Clone, Copy, PartialEq, Eq, Structural)]
pub enum FamilyType {
    Counter,
    Gauge,
    Summary,
    Untyped,
    Histogram,
}

/// The type that `MetricFamily::get_field_type` reports for `family`.
pub uninterp spec fn family_type(family: prometheus::proto::MetricFamily) -> FamilyType;

/// `MetricFamily::get_field_type`, its variant turned into `FamilyType`.
/// Claimed: the result is the family's type, a function of the family alone.
#[verifier::external_body]
fn field_type(family: &prometheus::proto::MetricFamily) -> (r: FamilyType)
    ensures
        r == family_type(*family),
{
    match family.get_field_type() {
        MetricType::COUNTER => FamilyType::Counter,
        MetricType::GAUGE => FamilyType::Gauge,
        MetricType::SUMMARY => FamilyType::Summary,
        MetricType::UNTYPED => FamilyType::Untyped,
        MetricType::HISTOGRAM => FamilyType::Histogram,
    }
}

/// No family in `families` is untyped: the text encoder handles all of them.
pub open spec fn all_typed(families: Seq<prometheus::proto::MetricFamily>) -> bool {
    forall|i: int| 0 <= i < families.len() ==> family_type(#[trigger] families[i]) != FamilyType::Untyped
}

/// What the text encoder makes of `families`: the bytes of their text
/// exposition, or the message of the error it stops with.
pub uninterp spec fn text_exposition(families: Seq<prometheus::proto::MetricFamily>) -> Result<Seq<u8>, Seq<char>>;

/// `<TextEncoder as Encoder>::encode` into a fresh byte buffer, the error
/// turned into its message. Required: no family is untyped (the encoder
/// panics on an untyped family that has metrics). Claimed: the outcome is
/// `text_exposition` of the families, a function of them alone, and encoded
/// bytes are valid UTF-8 (the encoder writes only `str` data). Not claimed:
/// which bytes, nor when it fails (a family without metrics or without a name).
#[verifier::external_body]
fn encode_text(families: &Vec<prometheus::proto::MetricFamily>) -> (r: Result<Vec<u8>, String>)
    requires
        all_typed(families@),
    ensures
        match r {
            Ok(bytes) => text_exposition(families@) == Ok::<Seq<u8>, Seq<char>>(bytes@),
            Err(message) => text_exposition(families@) == Err::<Seq<u8>, Seq<char>>(message@),
        },
        r matches Ok(bytes) ==> valid_utf8(bytes@),
{
    let mut buffer = Vec::new();
    match TextEncoder.encode(families, &mut buffer) {
        Ok(()) => Ok(buffer),
        Err(e) => Err(e.to_string()),
    }
}

/// Whether every family is typed, so that it can be encoded as text.
pub fn families_typed(families: &Vec<prometheus::proto::MetricFamily>) -> (r: bool)
    ensures
        r == all_typed(families@),
{
    let mut i: usize = 0;
    while i < families.len()
        invariant
            i <= families.len(),
            forall|j: int| 0 <= j < i ==> family_type(#[trigger] families@[j]) != FamilyType::Untyped,
        decreases families.len() - i,
    {
        if field_type(&families[i]) == FamilyType::Untyped {
            return false;
        }
        i = i + 1;
    }
    true
}

/// Status and body of an HTTP reply.
#[derive(Debug)]
pub struct Reply {
    pub status: u16,
    pub body: String,
}

/// Body of the `/metrics` reply when the encoded metrics are not UTF-8.
pub open spec fn not_utf8_message() -> Seq<char> {
    "Failed to convert encoded buffer to string"@
}

/// `reply` answers the outcome of an encoding: an error is answered 500
/// with its message; UTF-8 bytes are answered 200 with their text; other
/// bytes are answered 500 with a fixed message.
pub open spec fn reply_for(encoded: Result<Seq<u8>, Seq<char>>, reply: Reply) -> bool {
    match encoded {
        Err(message) => reply.status == 500 && reply.body@ == message,
        Ok(bytes) => if valid_utf8(bytes) {
            reply.status == 200 && reply.body@ == decode_utf8(bytes)
        } else {
            reply.status == 500 && reply.body@ == not_utf8_message()
        },
    }
}

/// The `/health` reply: 200 with `Healthy`.
pub fn health_reply() -> (r: Reply)
    ensures
        r.status == 200,
        r.body@ == "Healthy"@,
{
    let body = "Healthy".to_owned();
    proof {
        reveal_strlit("Healthy");
    }
    Reply { status: 200, body }
}

/// `String::from_utf8`, with the error dropped.
/// Claimed: the conversion succeeds exactly when the bytes are valid UTF-8,
/// and then the string holds the characters those bytes encode.
#[verifier::external_body]
fn string_from_utf8(bytes: Vec<u8>) -> (r: Option<String>)
    ensures
        r is Some <==> valid_utf8(bytes@),
        r matches Some(s) ==> s@ == decode_utf8(bytes@),
{
    String::from_utf8(bytes).ok()
}

/// The `/metrics` reply for the outcome of encoding the registry in the
/// text exposition format: a failed encoding answers 500 with the
/// encoder's message; encoded bytes that are UTF-8 answer 200 with their
/// text; other bytes answer 500 with a fixed message.
pub fn metrics_reply(encoded: Result<Vec<u8>, String>) -> (r: Reply)
    ensures
        reply_for(
            match encoded {
                Ok(bytes) => Ok::<Seq<u8>, Seq<char>>(bytes@),
                Err(message) => Err::<Seq<u8>, Seq<char>>(message@),
            },
            r,
        ),
{
    match encoded {
        Err(message) => Reply { status: 500, body: message },
        Ok(bytes) => match string_from_utf8(bytes) {
            Some(text) => Reply { status: 200, body: text },
            None => {
                let body = "Failed to convert encoded buffer to string".to_owned();
                proof {
                    reveal_strlit("Failed to convert encoded buffer to string");
                }
                Reply { status: 500, body }
            },
        },
    }
}

/// The `/metrics` reply for gathered metric families: encode them in the
/// text exposition format and answer as `reply_for` says. `None` when a
/// family is untyped, which the text format does not cover.
pub fn families_reply(families: &Vec<prometheus::proto::MetricFamily>) -> (r: Option<Reply>)
    ensures
        r is Some <==> all_typed(families@),
        r matches Some(reply) ==> reply_for(text_exposition(families@), reply),
{
    if families_typed(families) {
        let encoded = encode_text(families);
        let reply = metrics_reply(encoded);
        Some(reply)
    } else {
        None
    }
}

/// The `/metrics` endpoint: gather the registry and reply as
/// `families_reply` says for what was gathered. The answer is 200 with the
/// encoded text, or 500 with the encoder's message; `None` when the registry
/// gathered an untyped family (a registry of gauges and counters never does).
pub fn cpu_handler(state: &State) -> (r: Option<Reply>)
    ensures
        exists|gathered: Seq<prometheus::proto::MetricFamily>|
            (r is Some <==> #[trigger] all_typed(gathered)) && (r matches Some(reply) ==> reply_for(
                text_exposition(gathered),
                reply,
            )),
        r matches Some(reply) ==> reply.status == 200 || reply.status == 500,
{
    let families = gather_metrics(&state.registry);
    families_reply(&families)
}

/// How the `/metrics` reply answers an encoding: an encoder error is
/// answered 500 with the error's message; valid UTF-8 is answered 200 with
/// exactly the text it encodes; other bytes are answered 500 with
/// "Failed to convert encoded buffer to string".
pub proof fn law_reply_answers_the_encoding(encoded: Result<Seq<u8>, Seq<char>>, reply: Reply)
    ensures
        match encoded {
            Err(m) => reply_for(encoded, reply) <==> reply.status == 500 && reply.body@ == m,
            Ok(b) => if valid_utf8(b) {
                reply_for(encoded, reply) <==> reply.status == 200 && reply.body@ == decode_utf8(b)
            } else {
                reply_for(encoded, reply) <==> reply.status == 500 && reply.body@
                    == "Failed to convert encoded buffer to string"@
            },
        },
{
    reveal_strlit("Failed to convert encoded buffer to string");
}

/// Families can be encoded exactly when none of them is untyped: one
/// untyped family anywhere in the list is enough to refuse it.
pub proof fn law_typed_means_every_family(families: Seq<prometheus::proto::MetricFamily>, i: int)
    ensures
        all_typed(families) ==> (0 <= i < families.len() ==> family_type(families[i]) != FamilyType::Untyped),
        0 <= i < families.len() && family_type(families[i]) == FamilyType::Untyped ==> !all_typed(families),
        families.len() == 0 ==> all_typed(families),
{
}

} // verus!
