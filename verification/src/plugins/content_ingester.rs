//! Stores the messages of all channels as content.
use crate::duplicate::{duplicate_opt, Duplicate, TextMap};
use crate::events::{ChannelInbound, ChannelInboundView, Publication, PublicationView};
use crate::json::{text_or_null, Json, JsonView};
use crate::outside::json_of_bytes;
use crate::text::{own, same, split, split_on, view_opt, views};
use crate::wire::{
    channel_inbound_of, default_text_map_at, envelope_in, read_channel_inbound, text_map_document,
    text_map_json, text_map_read_back, EventEnvelope, EventEnvelopeView,
};
use vstd::prelude::*;

verus! {

/// Content to store.
pub struct ContentStoreRequest {
    pub content_type: String,
    pub channel: String,
    pub channel_id: String,
    pub raw_text: String,
    pub timestamp: String,
    pub metadata: TextMap,
    pub generate_embedding: bool,
    pub user_id: Option<String>,
}

/// The mathematical content of a [`ContentStoreRequest`].
pub struct ContentStoreRequestView {
    pub content_type: Seq<char>,
    pub channel: Seq<char>,
    pub channel_id: Seq<char>,
    pub raw_text: Seq<char>,
    pub timestamp: Seq<char>,
    pub metadata: Map<Seq<char>, Seq<char>>,
    pub generate_embedding: bool,
    pub user_id: Option<Seq<char>>,
}

impl View for ContentStoreRequest {
    type V = ContentStoreRequestView;

    open spec fn view(&self) -> ContentStoreRequestView {
        ContentStoreRequestView {
            content_type: self.content_type@,
            channel: self.channel@,
            channel_id: self.channel_id@,
            raw_text: self.raw_text@,
            timestamp: self.timestamp@,
            metadata: self.metadata@,
            generate_embedding: self.generate_embedding,
            user_id: view_opt(self.user_id),
        }
    }
}

impl Duplicate for ContentStoreRequest {
    fn copy(&self) -> (r: ContentStoreRequest) {
        ContentStoreRequest {
            content_type: self.content_type.clone(),
            channel: self.channel.clone(),
            channel_id: self.channel_id.clone(),
            raw_text: self.raw_text.clone(),
            timestamp: self.timestamp.clone(),
            metadata: self.metadata.copy(),
            generate_embedding: self.generate_embedding,
            user_id: duplicate_opt(&self.user_id),
        }
    }
}

/// The document of a [`ContentStoreRequest`].
pub open spec fn content_store_request_json(x: ContentStoreRequestView) -> JsonView {
    JsonView::object().put(
        "content_type"@,
        JsonView::Text(x.content_type),
    ).put(
        "channel"@,
        JsonView::Text(x.channel),
    ).put(
        "channel_id"@,
        JsonView::Text(x.channel_id),
    ).put(
        "raw_text"@,
        JsonView::Text(x.raw_text),
    ).put(
        "timestamp"@,
        JsonView::Text(x.timestamp),
    ).put(
        "metadata"@,
        text_map_json(x.metadata),
    ).put(
        "generate_embedding"@,
        JsonView::Bool(x.generate_embedding),
    ).put(
        "user_id"@,
        text_or_null(x.user_id),
    )
}

/// The document of a [`ContentStoreRequest`].
pub fn content_store_request_document(x: &ContentStoreRequest) -> (r: Json)
    ensures
        r@ == content_store_request_json(x@),
{
    Json::object()
        .put("content_type", Json::text(&x.content_type))
        .put("channel", Json::text(&x.channel))
        .put("channel_id", Json::text(&x.channel_id))
        .put("raw_text", Json::text(&x.raw_text))
        .put("timestamp", Json::text(&x.timestamp))
        .put("metadata", text_map_document(&x.metadata))
        .put("generate_embedding", Json::Bool(x.generate_embedding))
        .put("user_id", Json::opt(&x.user_id))
}

/// The channel that a subject names: the middle of `channel.<name>.inbound`.
pub open spec fn channel_of(subject: Seq<char>) -> Option<Seq<char>> {
    let parts = split(subject, '.');
    if parts.len() >= 3 && parts[0] == "channel"@ && parts[2] == "inbound"@ {
        Some(parts[1])
    } else {
        None
    }
}

/// The channel that a subject names.
pub fn extract_channel_from_subject(subject: &str) -> (r: Option<String>)
    ensures
        view_opt(r) == channel_of(subject@),
{
    let parts = split_on(subject, '.');
    if parts.len() >= 3 {
        assert(views(parts@)[0] == parts@[0]@);
        assert(views(parts@)[1] == parts@[1]@);
        assert(views(parts@)[2] == parts@[2]@);
        if same(&parts[0], "channel") && same(&parts[2], "inbound") {
            return Some(parts[1].clone());
        }
    }
    None
}

/// What is stored beside a message. What the message itself brings counts most.
pub open spec fn content_metadata(i: ChannelInboundView) -> Map<Seq<char>, Seq<char>> {
    let base = Map::<Seq<char>, Seq<char>>::empty().insert("user_id"@, i.user_id).insert(
        "platform"@,
        i.platform,
    );
    match i.reply_to {
        Some(r) => base.insert("reply_to"@, r),
        None => base,
    }.union_prefer_right(i.metadata)
}

/// The content of a message.
pub open spec fn content_of(
    channel: Seq<char>,
    timestamp: Seq<char>,
    i: ChannelInboundView,
) -> ContentStoreRequestView {
    ContentStoreRequestView {
        content_type: "message"@,
        channel,
        channel_id: i.chat_id,
        raw_text: i.text,
        timestamp,
        metadata: content_metadata(i),
        generate_embedding: true,
        user_id: Some(i.user_id),
    }
}

/// The content of a message.
pub fn build_store_request(channel: &str, timestamp: &str, i: &ChannelInbound) -> (r:
    ContentStoreRequest)
    ensures
        r@ == content_of(channel@, timestamp@, i@),
{
    let mut metadata = TextMap::new();
    metadata.put("user_id", &i.user_id);
    metadata.put("platform", &i.platform);
    match &i.reply_to {
        Some(r) => {
            metadata.put("reply_to", r);
        },
        None => {},
    }
    metadata.merge(&i.metadata);
    ContentStoreRequest {
        content_type: own("message"),
        channel: own(channel),
        channel_id: i.chat_id.clone(),
        raw_text: i.text.clone(),
        timestamp: own(timestamp),
        metadata,
        generate_embedding: true,
        user_id: Some(i.user_id.clone()),
    }
}

/// The event that stores the message in an envelope, if there is one.
pub open spec fn store_event(subject: Seq<char>, e: EventEnvelopeView) -> Option<PublicationView> {
    match (channel_of(subject), channel_inbound_of(e.payload)) {
        (Some(channel), Some(i)) => Some(
            PublicationView {
                subject: "brain.content.store"@,
                source: "content-ingester"@,
                correlation_id: e.correlation_id,
                scope: e.scope,
                payload: content_store_request_json(content_of(channel, e.timestamp, i)),
            },
        ),
        _ => None,
    }
}

/// The event that stores the message in an envelope, if there is one.
pub fn ingest(subject: &str, e: &EventEnvelope) -> (r: Option<Publication>)
    ensures
        view_opt(r) == store_event(subject@, e@),
{
    match (extract_channel_from_subject(subject), read_channel_inbound(&e.payload)) {
        (Some(channel), Some(i)) => Some(
            Publication {
                subject: own("brain.content.store"),
                source: own("content-ingester"),
                correlation_id: duplicate_opt(&e.correlation_id),
                scope: duplicate_opt(&e.scope),
                payload: content_store_request_document(
                    &build_store_request(&channel, &e.timestamp, &i),
                ),
            },
        ),
        _ => None,
    }
}

/// The event that stores a message of the bus, if it is one.
pub fn ingest_message(subject: &str, bytes: &[u8]) -> (r: Option<Publication>)
    ensures
        view_opt(r) == match envelope_in(json_of_bytes(bytes@)) {
            Some(e) => store_event(subject@, e),
            None => None,
        },
{
    match EventEnvelope::decode(bytes) {
        Some(e) => ingest(subject, &e),
        None => None,
    }
}

/// A message is stored with its text, its channel and its time, under the one who wrote it, and
/// with all that is known about it.
pub proof fn message_is_stored(
    subject: Seq<char>,
    e: EventEnvelopeView,
    channel: Seq<char>,
    i: ChannelInboundView,
    k: Seq<char>,
)
    requires
        channel_of(subject) == Some(channel),
        channel_inbound_of(e.payload) == Some(i),
    ensures
        ({
            let r = store_event(subject, e);
            let m = default_text_map_at(r->0.payload, "metadata"@);
            &&& r is Some
            &&& r->0.subject == "brain.content.store"@
            &&& r->0.source == "content-ingester"@
            &&& r->0.payload.text_at("content_type"@) == Some("message"@)
            &&& r->0.correlation_id == e.correlation_id
            &&& r->0.scope == e.scope
            &&& r->0.payload.text_at("raw_text"@) == Some(i.text)
            &&& r->0.payload.text_at("channel"@) == Some(channel)
            &&& r->0.payload.text_at("channel_id"@) == Some(i.chat_id)
            &&& r->0.payload.text_at("timestamp"@) == Some(e.timestamp)
            &&& r->0.payload.text_at("user_id"@) == Some(i.user_id)
            &&& r->0.payload.get("generate_embedding"@) == Some(JsonView::Bool(true))
            &&& m is Some
            &&& i.metadata.contains_key(k) ==> m->0.contains_key(k) && m->0[k] == i.metadata[k]
            &&& !i.metadata.contains_key("user_id"@) ==> m->0["user_id"@] == i.user_id
            &&& !i.metadata.contains_key("platform"@) ==> m->0["platform"@] == i.platform
            &&& i.reply_to is Some && !i.metadata.contains_key("reply_to"@) ==> m->0["reply_to"@]
                == i.reply_to->0
        }),
{
    reveal_strlit("content_type");
    reveal_strlit("channel");
    reveal_strlit("channel_id");
    reveal_strlit("raw_text");
    reveal_strlit("timestamp");
    reveal_strlit("metadata");
    reveal_strlit("generate_embedding");
    reveal_strlit("user_id");
    reveal_strlit("platform");
    reveal_strlit("reply_to");
    assert("content_type"@.len() == 12);
    assert("channel"@.len() == 7);
    assert("channel_id"@.len() == 10);
    assert("raw_text"@.len() == 8);
    assert("timestamp"@.len() == 9);
    assert("metadata"@.len() == 8);
    assert("generate_embedding"@.len() == 18);
    assert("user_id"@.len() == 7);
    assert("platform"@.len() == 8);
    assert("reply_to"@.len() == 8);
    assert("channel"@[0] != "user_id"@[0]);
    assert("raw_text"@[0] != "metadata"@[0]);
    assert("raw_text"@[0] != "platform"@[0]);
    assert("raw_text"@[1] != "reply_to"@[1]);
    assert("metadata"@[0] != "platform"@[0]);
    assert("metadata"@[0] != "reply_to"@[0]);
    assert("platform"@[0] != "reply_to"@[0]);
    let r = store_event(subject, e);
    text_map_read_back(r->0.payload, "metadata"@, content_metadata(i));
}

/// What is no message on a channel is not stored.
pub proof fn other_events_are_not_stored(subject: Seq<char>, e: EventEnvelopeView)
    ensures
        store_event(subject, e) is None <==> channel_of(subject) is None || channel_inbound_of(
            e.payload,
        ) is None,
        channel_of(subject) is Some <==> split(subject, '.').len() >= 3 && split(subject, '.')[0]
            == "channel"@ && split(subject, '.')[2] == "inbound"@,
        channel_of(subject) is Some ==> channel_of(subject)->0 == split(subject, '.')[1],
{
}

} // verus!
