//! Finds entities in stored content.
use crate::duplicate::{duplicate_all, duplicate_opt, Duplicate, TextMap};
use crate::events::{Publication, PublicationView};
use crate::json::{items_view_index, text_array, Json, JsonView};
use crate::outside::json_of_text;
use crate::plugins::extraction::{
    block_text, blocks_ok, check_blocks, list_in, read_block_text, read_list, unfenced,
};
use crate::text::{cat2, own, view_opt, views};
use crate::wire::{
    as_record, default_text_map_at, default_texts_at, read_default_text_map_at,
    read_default_texts_at, record, text_array_read_back, text_map_document, text_map_json,
    text_map_read_back, texts_at,
};
use vstd::prelude::*;

verus! {

/// The plugin's id, which its events name as their source.
pub const PLUGIN_ID: &'static str = "entity-extractor";

/// What the language model is asked to do with the text that follows.
pub const INSTRUCTIONS: &'static str = "Extract entities (people, organizations, projects, tools, locations, concepts) from this text. Return JSON array with: name, type, aliases, properties.\n\nValid entity types: person, organization, project, product, concept, location, tool, channel\n\nReturn ONLY a valid JSON array, no other text. If no entities found, return [].\n\nExample output:\n[\n  {\"name\": \"Acme Corp\", \"type\": \"organization\", \"aliases\": [\"Acme\"], \"properties\": {\"industry\": \"tech\"}},\n  {\"name\": \"Jane Doe\", \"type\": \"person\", \"aliases\": [], \"properties\": {\"role\": \"CEO\"}}\n]\n\nText to analyze:\n";

/// An entity that a language model found.
pub struct ExtractedEntity {
    pub name: String,
    pub entity_type: String,
    pub aliases: Vec<String>,
    pub properties: TextMap,
}

/// The mathematical content of a [`ExtractedEntity`].
pub struct ExtractedEntityView {
    pub name: Seq<char>,
    pub entity_type: Seq<char>,
    pub aliases: Seq<Seq<char>>,
    pub properties: Map<Seq<char>, Seq<char>>,
}

impl View for ExtractedEntity {
    type V = ExtractedEntityView;

    open spec fn view(&self) -> ExtractedEntityView {
        ExtractedEntityView {
            name: self.name@,
            entity_type: self.entity_type@,
            aliases: views(self.aliases@),
            properties: self.properties@,
        }
    }
}

impl Duplicate for ExtractedEntity {
    fn copy(&self) -> (r: ExtractedEntity) {
        ExtractedEntity {
            name: self.name.clone(),
            entity_type: self.entity_type.clone(),
            aliases: duplicate_all(&self.aliases),
            properties: self.properties.copy(),
        }
    }
}

/// The [`ExtractedEntity`] that a document states.
pub open spec fn extracted_entity_of(j: JsonView) -> Option<ExtractedEntityView> {
    let j = record(j, seq!["name"@, "type"@, "aliases"@, "properties"@], 2);
    match (
        j.text_at("name"@),
        j.text_at("type"@),
        default_texts_at(j, "aliases"@),
        default_text_map_at(j, "properties"@),
    ) {
        (Some(name), Some(entity_type), Some(aliases), Some(properties)) => Some(
            ExtractedEntityView { name, entity_type, aliases, properties },
        ),
        _ => None,
    }
}

/// Reads the [`ExtractedEntity`] that a document states.
pub fn read_extracted_entity(j: &Json) -> (r: Option<ExtractedEntity>)
    ensures
        view_opt(r) == extracted_entity_of(j@),
{
    let names: Vec<&'static str> = vec!["name", "type", "aliases", "properties"];
    assert(views(names@) =~= seq!["name"@, "type"@, "aliases"@, "properties"@]);
    let spread = as_record(j, &names, 2);
    let j = match &spread {
        Some(x) => x,
        None => j,
    };
    match (
        j.text_at("name"),
        j.text_at("type"),
        read_default_texts_at(j, "aliases"),
        read_default_text_map_at(j, "properties"),
    ) {
        (Some(name), Some(entity_type), Some(aliases), Some(properties)) => Some(
            ExtractedEntity { name, entity_type, aliases, properties },
        ),
        _ => None,
    }
}

/// The values that an array states, if every element states one.
pub open spec fn extracted_entities_of(a: Seq<JsonView>) -> Option<Seq<ExtractedEntityView>> {
    if forall|i: int| 0 <= i < a.len() ==> extracted_entity_of(#[trigger] a[i]) is Some {
        Some(Seq::new(a.len(), |i: int| extracted_entity_of(a[i])->Some_0))
    } else {
        None
    }
}

/// Reads the values that an array states.
pub fn read_extracted_entities(v: &Vec<Json>) -> (r: Option<Vec<ExtractedEntity>>)
    ensures
        match r {
            Some(x) => extracted_entities_of(views(v@)) == Some(views(x@)),
            None => extracted_entities_of(views(v@)) is None,
        },
{
    let ghost a = views(v@);
    let mut out: Vec<ExtractedEntity> = Vec::new();
    let mut i: usize = 0;
    while i < v.len()
        invariant
            i <= v@.len(),
            a == views(v@),
            out@.len() == i,
            forall|k: int| 0 <= k < i ==> extracted_entity_of(a[k]) == Some((#[trigger] out@[k])@),
        decreases v@.len() - i,
    {
        match read_extracted_entity(&v[i]) {
            Some(x) => {
                out.push(x);
            },
            None => {
                assert(extracted_entity_of(a[i as int]) is None);
                return None;
            },
        }
        i = i + 1;
    }
    proof {
        assert forall|k: int| 0 <= k < a.len() implies extracted_entity_of(#[trigger] a[k]) is Some by {
            assert(extracted_entity_of(a[k]) == Some(out@[k]@));
        }
        assert(views(out@) =~= extracted_entities_of(a)->Some_0);
    }
    Some(out)
}

/// The prompt for a text.
pub fn build_prompt(text: &str) -> (r: String)
    ensures
        r@ == INSTRUCTIONS@ + text@,
{
    cat2(INSTRUCTIONS, text)
}

/// The body of the request to the language model.
pub fn build_request(model: &str, text: &str) -> (r: Json)
    ensures
        r@ == JsonView::object().put("model"@, JsonView::Text(model@)).put(
            "max_tokens"@,
            JsonView::Int(4096),
        ).put(
            "messages"@,
            JsonView::Array(
                seq![
                    JsonView::object().put("role"@, JsonView::Text("user"@)).put(
                        "content"@,
                        JsonView::Text(INSTRUCTIONS@ + text@),
                    ),
                ],
            ),
        ),
{
    let mut messages: Vec<Json> = Vec::new();
    messages.push(
        Json::object().put("role", Json::text("user")).put(
            "content",
            Json::text(&build_prompt(text)),
        ),
    );
    proof {
        items_view_index(messages@);
        assert(views(messages@) =~= seq![messages@[0]@]);
    }
    Json::object().put("model", Json::text(model)).put("max_tokens", Json::Unsigned(4096)).put(
        "messages",
        Json::Array(messages),
    )
}

/// The first text in the blocks of an answer.
pub open spec fn first_text(blocks: Seq<JsonView>) -> Option<Seq<char>>
    decreases blocks.len(),
{
    if blocks.len() == 0 {
        None
    } else {
        match block_text(blocks[0]) {
            Some(Some(t)) => Some(t),
            _ => first_text(blocks.drop_first()),
        }
    }
}

/// The text in an answer of the language model, or what is wrong with it.
pub open spec fn answer_in(j: JsonView) -> Result<Seq<char>, Seq<char>> {
    match record(j, seq!["content"@], 1).array_at("content"@) {
        Some(a) => if blocks_ok(a) {
            match first_text(a) {
                Some(t) => Ok(t),
                None => Err("No text content in Anthropic response"@),
            }
        } else {
            Err("Failed to parse Anthropic API response"@)
        },
        None => Err("Failed to parse Anthropic API response"@),
    }
}

/// The text in an answer of the language model.
pub fn answer_text(j: &Json) -> (r: Result<String, String>)
    ensures
        match r {
            Ok(t) => answer_in(j@) == Ok::<Seq<char>, Seq<char>>(t@),
            Err(e) => answer_in(j@) == Err::<Seq<char>, Seq<char>>(e@),
        },
{
    let names: Vec<&'static str> = vec!["content"];
    assert(views(names@) =~= seq!["content"@]);
    let spread = as_record(j, &names, 1);
    let doc = match &spread {
        Some(x) => x,
        None => j,
    };
    let v = match doc.get("content") {
        Some(x) => match x {
            Json::Array(v) => {
                proof {
                    items_view_index(v@);
                }
                v
            },
            _ => {
                return Err(own("Failed to parse Anthropic API response"));
            },
        },
        None => {
            return Err(own("Failed to parse Anthropic API response"));
        },
    };
    if !check_blocks(v) {
        return Err(own("Failed to parse Anthropic API response"));
    }
    let ghost a = views(v@);
    let mut i: usize = 0;
    assert(a.subrange(0, a.len() as int) =~= a);
    while i < v.len()
        invariant
            i <= v@.len(),
            a == views(v@),
            blocks_ok(a),
            record(j@, seq!["content"@], 1).array_at("content"@) == Some(a),
            first_text(a) == first_text(a.subrange(i as int, a.len() as int)),
        decreases v@.len() - i,
    {
        proof {
            let rest = a.subrange(i as int, a.len() as int);
            assert(rest[0] == v@[i as int]@);
            assert(rest.drop_first() =~= a.subrange(i + 1, a.len() as int));
        }
        match read_block_text(&v[i]) {
            Some(o) => match o {
                Some(t) => {
                    return Ok(t);
                },
                None => {},
            },
            None => {},
        }
        i = i + 1;
    }
    Err(own("No text content in Anthropic response"))
}

/// The entities in the text of an answer.
pub open spec fn entities_in(body: Result<JsonView, Seq<char>>) -> Option<Seq<ExtractedEntityView>> {
    match list_in(body) {
        Some(a) => extracted_entities_of(a),
        None => None,
    }
}

/// The entities in the text of an answer; `None` where it is no list of them.
pub fn parse_entities(text: &str) -> (r: Option<Vec<ExtractedEntity>>)
    ensures
        match r {
            Some(v) => entities_in(json_of_text(unfenced(text@))) == Some(views(v@)),
            None => entities_in(json_of_text(unfenced(text@))) is None,
        },
{
    match read_list(text) {
        Some(v) => read_extracted_entities(&v),
        None => None,
    }
}

/// The event that stores an entity.
pub open spec fn entity_payload(e: ExtractedEntityView, content_key: Seq<char>) -> JsonView {
    JsonView::object().put("entity_key"@, JsonView::Null).put(
        "entity_type"@,
        JsonView::Text(e.entity_type),
    ).put("name"@, JsonView::Text(e.name)).put("aliases"@, text_array(e.aliases)).put(
        "properties"@,
        text_map_json(e.properties),
    ).put("source_content"@, JsonView::Text(content_key)).put(
        "mentions_content"@,
        JsonView::Text(content_key),
    ).put("mention_type"@, JsonView::Text("extracted"@))
}

/// The events that store the entities of some content.
pub fn entity_events(
    entities: &Vec<ExtractedEntity>,
    content_key: &str,
    correlation_id: &Option<String>,
    scope: &Option<String>,
) -> (r: Vec<Publication>)
    ensures
        views(r@) == Seq::new(
            entities@.len(),
            |i: int|
                PublicationView {
                    subject: "brain.entity.upsert"@,
                    source: PLUGIN_ID@,
                    correlation_id: view_opt(*correlation_id),
                    scope: view_opt(*scope),
                    payload: entity_payload(entities@[i]@, content_key@),
                },
        ),
{
    let mut out: Vec<Publication> = Vec::new();
    let mut i: usize = 0;
    while i < entities.len()
        invariant
            i <= entities@.len(),
            out@.len() == i,
            forall|k: int|
                0 <= k < i ==> (#[trigger] out@[k])@ == (PublicationView {
                    subject: "brain.entity.upsert"@,
                    source: PLUGIN_ID@,
                    correlation_id: view_opt(*correlation_id),
                    scope: view_opt(*scope),
                    payload: entity_payload(entities@[k]@, content_key@),
                }),
        decreases entities@.len() - i,
    {
        let e = &entities[i];
        let payload = Json::object().put("entity_key", Json::Null).put(
            "entity_type",
            Json::text(&e.entity_type),
        ).put("name", Json::text(&e.name)).put("aliases", Json::texts(&e.aliases)).put(
            "properties",
            text_map_document(&e.properties),
        ).put("source_content", Json::text(content_key)).put(
            "mentions_content",
            Json::text(content_key),
        ).put("mention_type", Json::text("extracted"));
        out.push(
            Publication {
                subject: own("brain.entity.upsert"),
                source: own(PLUGIN_ID),
                correlation_id: duplicate_opt(correlation_id),
                scope: duplicate_opt(scope),
                payload,
            },
        );
        i = i + 1;
    }
    assert(views(out@) =~= Seq::new(
        entities@.len(),
        |i: int|
            PublicationView {
                subject: "brain.entity.upsert"@,
                source: PLUGIN_ID@,
                correlation_id: view_opt(*correlation_id),
                scope: view_opt(*scope),
                payload: entity_payload(entities@[i]@, content_key@),
            },
    ));
    out
}

/// An entity is what its document says.
pub proof fn entity_is_read(j: JsonView)
    requires
        j is Object,
    ensures
        match extracted_entity_of(j) {
            Some(x) => {
            &&& j.text_at("name"@) == Some(x.name)
            &&& j.text_at("type"@) == Some(x.entity_type)
            &&& default_texts_at(j, "aliases"@) == Some(x.aliases)
            &&& default_text_map_at(j, "properties"@) == Some(x.properties)
            },
            None => j.text_at("name"@) is None || j.text_at("type"@) is None || default_texts_at(j, "aliases"@) is None || default_text_map_at(j, "properties"@) is None,
        },
{
}

/// An entity is stored as it was found, with the content in which it was found.
pub proof fn entity_is_stored(e: ExtractedEntityView, content_key: Seq<char>)
    ensures
        entity_payload(e, content_key).text_at("name"@) == Some(e.name),
        entity_payload(e, content_key).text_at("entity_type"@) == Some(e.entity_type),
        texts_at(entity_payload(e, content_key), "aliases"@) == Some(e.aliases),
        default_text_map_at(entity_payload(e, content_key), "properties"@) == Some(e.properties),
        entity_payload(e, content_key).text_at("source_content"@) == Some(content_key),
        entity_payload(e, content_key).text_at("mentions_content"@) == Some(content_key),
{
    reveal_strlit("entity_key");
    reveal_strlit("entity_type");
    reveal_strlit("name");
    reveal_strlit("aliases");
    reveal_strlit("properties");
    reveal_strlit("source_content");
    reveal_strlit("mentions_content");
    reveal_strlit("mention_type");
    assert("entity_key"@.len() == 10);
    assert("entity_type"@.len() == 11);
    assert("name"@.len() == 4);
    assert("aliases"@.len() == 7);
    assert("properties"@.len() == 10);
    assert("source_content"@.len() == 14);
    assert("mentions_content"@.len() == 16);
    assert("mention_type"@.len() == 12);
    assert("entity_key"@[0] != "properties"@[0]);
    text_array_read_back(entity_payload(e, content_key), "aliases"@, e.aliases);
    text_map_read_back(entity_payload(e, content_key), "properties"@, e.properties);
}

/// The entities of a list are read one by one, in order, or not at all.
pub proof fn entities_are_read(a: Seq<JsonView>, i: int)
    requires
        0 <= i < a.len(),
    ensures
        entities_in(Ok(JsonView::Array(a))) is Some ==> entities_in(
            Ok(JsonView::Array(a)),
        )->0.len() == a.len() && extracted_entity_of(a[i]) == Some(
            entities_in(Ok(JsonView::Array(a)))->0[i],
        ),
        extracted_entity_of(a[i]) is None ==> entities_in(Ok(JsonView::Array(a))) is None,
{
}

/// The answer is the first text among the blocks.
pub proof fn first_text_counts(blocks: Seq<JsonView>, i: int, t: Seq<char>)
    requires
        0 <= i < blocks.len(),
        block_text(blocks[i]) == Some(Some(t)),
        forall|k: int|
            0 <= k < i ==> !(block_text(#[trigger] blocks[k]) is Some && block_text(
                blocks[k],
            )->0 is Some),
    ensures
        first_text(blocks) == Some(t),
    decreases blocks.len(),
{
    if i > 0 {
        assert(!(block_text(blocks[0]) is Some && block_text(blocks[0])->0 is Some));
        let rest = blocks.drop_first();
        assert forall|k: int| 0 <= k < i - 1 implies !(block_text(#[trigger] rest[k]) is Some
            && block_text(rest[k])->0 is Some) by {
            assert(rest[k] == blocks[k + 1]);
        }
        first_text_counts(rest, i - 1, t);
    }
}

/// The answer is read from the blocks of the document, and refused where there is none.
pub proof fn answer_is_read(j: JsonView, a: Seq<JsonView>)
    requires
        j is Object,
    ensures
        j.get("content"@) == Some(JsonView::Array(a)) && blocks_ok(a) && first_text(a) is Some
            ==> answer_in(j) == Ok::<Seq<char>, Seq<char>>(first_text(a)->0),
        j.get("content"@) == Some(JsonView::Array(a)) && (!blocks_ok(a) || first_text(a) is None)
            ==> answer_in(j) is Err,
        j.get("content"@) is None ==> answer_in(j) is Err,
{
}

} // verus!
