//! Finds facts about entities in stored content.
use crate::duplicate::{duplicate_all, duplicate_opt, Duplicate};
use crate::events::{FactUpsertRequest, FactUpsertRequestView, Publication, PublicationView};
use crate::json::{items_view_index, Json, JsonView};
use crate::outside::json_of_text;
use crate::plugins::extraction::{
    block_text, blocks_ok, check_blocks, list_in, read_block_text, read_list, unfenced,
};
use crate::plugins::google_key::{given, key_in_profiles, profile_key};
use crate::text::{
    cat2, cat4, cat5, contains, has_part, has_prefix, own, part_stands_in_whole, same, starts_with,
    view_opt, views,
};
use crate::wire::{
    as_record, default_items_at, fact_upsert_document, fact_upsert_json, is_number, number_at,
    optional_text_at, read_default_items_at, read_number_at, read_optional_text_at, record,
};
use vstd::prelude::*;

verus! {

/// The plugin's id, which its events name as their source.
pub const PLUGIN_ID: &'static str = "fact-extractor";

/// The prompt before the name of the entity.
pub const ASK_NAME: &'static str = "Extract factual claims from the following text about the entity \"";

/// The prompt between the name of the entity and its key.
pub const ASK_KEY: &'static str = "\" (key: \"";

/// The prompt between the key of the entity and its type.
pub const ASK_TYPE: &'static str = "\", type: ";

/// The prompt between the type of the entity and its key.
pub const ASK_SUBJECT: &'static str = ").\n\nReturn a JSON array of facts. Each fact has:\n- \"subject\": entity key that the fact is about (use \"";

/// The prompt between the key of the entity and the text.
pub const ASK_REST: &'static str = "\" for the primary entity, or another entity key if relevant)\n- \"predicate\": the relationship or property (e.g. \"works_at\", \"located_in\", \"uses_tool\", \"has_role\", \"knows\", \"owns\", \"interested_in\", \"depends_on\", \"status_is\", \"prefers\")\n- \"object\": another entity key if the fact relates two entities, or null if the fact assigns a literal value\n- \"value\": a literal string value if the fact is a property, or null if it relates two entities\n- \"confidence\": your confidence from 0.0 to 1.0 that this fact is true based on the text\n\nRules:\n- Every fact must have either \"object\" or \"value\" set (not both, not neither)\n- Use snake_case for predicates\n- Use descriptive entity keys (e.g. \"entity_acme_corp\", \"entity_jane_doe\")\n- Only extract facts clearly supported by the text\n- Return ONLY a valid JSON array, no other text. If no facts found, return []\n\nExample output:\n[\n  {\"subject\": \"entity_jane\", \"predicate\": \"works_at\", \"object\": \"entity_acme_corp\", \"value\": null, \"confidence\": 0.95},\n  {\"subject\": \"entity_jane\", \"predicate\": \"has_role\", \"object\": null, \"value\": \"Senior Engineer\", \"confidence\": 0.9},\n  {\"subject\": \"entity_jane\", \"predicate\": \"located_in\", \"object\": \"entity_san_francisco\", \"value\": null, \"confidence\": 0.8}\n]\n\nText to analyze:\n";

/// A fact that a language model found. The confidence is a number.
pub struct ExtractedFact {
    pub subject: String,
    pub predicate: String,
    pub object: Option<String>,
    pub value: Option<String>,
    pub confidence: Json,
}

/// The mathematical content of a [`ExtractedFact`].
pub struct ExtractedFactView {
    pub subject: Seq<char>,
    pub predicate: Seq<char>,
    pub object: Option<Seq<char>>,
    pub value: Option<Seq<char>>,
    pub confidence: JsonView,
}

impl View for ExtractedFact {
    type V = ExtractedFactView;

    open spec fn view(&self) -> ExtractedFactView {
        ExtractedFactView {
            subject: self.subject@,
            predicate: self.predicate@,
            object: view_opt(self.object),
            value: view_opt(self.value),
            confidence: self.confidence@,
        }
    }
}

impl Duplicate for ExtractedFact {
    fn copy(&self) -> (r: ExtractedFact) {
        ExtractedFact {
            subject: self.subject.clone(),
            predicate: self.predicate.clone(),
            object: duplicate_opt(&self.object),
            value: duplicate_opt(&self.value),
            confidence: self.confidence.copy(),
        }
    }
}

/// An entity that was stored.
pub struct EntityUpserted {
    pub entity_key: String,
    pub name: String,
    pub entity_type: String,
    pub source_content: Option<String>,
}

/// The mathematical content of a [`EntityUpserted`].
pub struct EntityUpsertedView {
    pub entity_key: Seq<char>,
    pub name: Seq<char>,
    pub entity_type: Seq<char>,
    pub source_content: Option<Seq<char>>,
}

impl View for EntityUpserted {
    type V = EntityUpsertedView;

    open spec fn view(&self) -> EntityUpsertedView {
        EntityUpsertedView {
            entity_key: self.entity_key@,
            name: self.name@,
            entity_type: self.entity_type@,
            source_content: view_opt(self.source_content),
        }
    }
}

impl Duplicate for EntityUpserted {
    fn copy(&self) -> (r: EntityUpserted) {
        EntityUpserted {
            entity_key: self.entity_key.clone(),
            name: self.name.clone(),
            entity_type: self.entity_type.clone(),
            source_content: duplicate_opt(&self.source_content),
        }
    }
}

/// The [`ExtractedFact`] that a document states.
pub open spec fn extracted_fact_of(j: JsonView) -> Option<ExtractedFactView> {
    let j = record(j, seq!["subject"@, "predicate"@, "object"@, "value"@, "confidence"@], 5);
    match (
        j.text_at("subject"@),
        j.text_at("predicate"@),
        optional_text_at(j, "object"@),
        optional_text_at(j, "value"@),
        number_at(j, "confidence"@),
    ) {
        (Some(subject), Some(predicate), Some(object), Some(value), Some(confidence)) => Some(
            ExtractedFactView { subject, predicate, object, value, confidence },
        ),
        _ => None,
    }
}

/// Reads the [`ExtractedFact`] that a document states.
pub fn read_extracted_fact(j: &Json) -> (r: Option<ExtractedFact>)
    ensures
        view_opt(r) == extracted_fact_of(j@),
{
    let names: Vec<&'static str> = vec!["subject", "predicate", "object", "value", "confidence"];
    assert(views(names@) =~= seq!["subject"@, "predicate"@, "object"@, "value"@, "confidence"@]);
    let spread = as_record(j, &names, 5);
    let j = match &spread {
        Some(x) => x,
        None => j,
    };
    match (
        j.text_at("subject"),
        j.text_at("predicate"),
        read_optional_text_at(j, "object"),
        read_optional_text_at(j, "value"),
        read_number_at(j, "confidence"),
    ) {
        (Some(subject), Some(predicate), Some(object), Some(value), Some(confidence)) => Some(
            ExtractedFact { subject, predicate, object, value, confidence },
        ),
        _ => None,
    }
}

/// The values that an array states, if every element states one.
pub open spec fn extracted_facts_of(a: Seq<JsonView>) -> Option<Seq<ExtractedFactView>> {
    if forall|i: int| 0 <= i < a.len() ==> extracted_fact_of(#[trigger] a[i]) is Some {
        Some(Seq::new(a.len(), |i: int| extracted_fact_of(a[i])->Some_0))
    } else {
        None
    }
}

/// Reads the values that an array states.
pub fn read_extracted_facts(v: &Vec<Json>) -> (r: Option<Vec<ExtractedFact>>)
    ensures
        match r {
            Some(x) => extracted_facts_of(views(v@)) == Some(views(x@)),
            None => extracted_facts_of(views(v@)) is None,
        },
{
    let ghost a = views(v@);
    let mut out: Vec<ExtractedFact> = Vec::new();
    let mut i: usize = 0;
    while i < v.len()
        invariant
            i <= v@.len(),
            a == views(v@),
            out@.len() == i,
            forall|k: int| 0 <= k < i ==> extracted_fact_of(a[k]) == Some((#[trigger] out@[k])@),
        decreases v@.len() - i,
    {
        match read_extracted_fact(&v[i]) {
            Some(x) => {
                out.push(x);
            },
            None => {
                assert(extracted_fact_of(a[i as int]) is None);
                return None;
            },
        }
        i = i + 1;
    }
    proof {
        assert forall|k: int| 0 <= k < a.len() implies extracted_fact_of(#[trigger] a[k]) is Some by {
            assert(extracted_fact_of(a[k]) == Some(out@[k]@));
        }
        assert(views(out@) =~= extracted_facts_of(a)->Some_0);
    }
    Some(out)
}

/// The key to use: the one given, or else the one in the file of profiles.
pub open spec fn resolved_key(
    cli_key: Option<Seq<char>>,
    file: Result<Result<JsonView, Seq<char>>, Seq<char>>,
) -> Result<Seq<char>, Seq<char>> {
    if given(cli_key) {
        Ok(cli_key->0)
    } else {
        match file {
            Err(e) => Err(e),
            Ok(Err(e)) => Err(e),
            Ok(Ok(j)) => match profile_key(j) {
                Some(k) => Ok(k),
                None => Err("No google:default.key in OpenClaw auth-profiles.json"@),
            },
        }
    }
}

/// The key to use: the one given, or else the one in the file of profiles. `file`
/// is the text of that file, or why it could not be read.
pub fn resolve_google_api_key(cli_key: &Option<String>, file: Result<String, String>) -> (r: Result<
    String,
    String,
>)
    ensures
        ({
            let k = resolved_key(
                view_opt(*cli_key),
                match file {
                    Ok(text) => Ok(json_of_text(text@)),
                    Err(e) => Err(e@),
                },
            );
            match r {
                Ok(s) => k == Ok::<Seq<char>, Seq<char>>(s@),
                Err(e) => k == Err::<Seq<char>, Seq<char>>(e@),
            }
        }),
{
    match cli_key {
        Some(k) => {
            if !k.as_str().is_empty() {
                return Ok(k.clone());
            }
        },
        None => {},
    }
    match file {
        Err(e) => Err(e),
        Ok(text) => match Json::parse(&text) {
            Err(e) => Err(e),
            Ok(j) => match key_in_profiles(&j) {
                Some(k) => Ok(k),
                None => Err(own("No google:default.key in OpenClaw auth-profiles.json")),
            },
        },
    }
}

/// The prompt for the facts about an entity in a text.
pub open spec fn prompt_for(e: EntityUpsertedView, text: Seq<char>) -> Seq<char> {
    (ASK_NAME@ + e.name + ASK_KEY@ + e.entity_key + ASK_TYPE@) + (e.entity_type + ASK_SUBJECT@
        + e.entity_key + ASK_REST@ + text)
}

/// The prompt for the facts about an entity in a text.
pub fn build_prompt(e: &EntityUpserted, text: &str) -> (r: String)
    ensures
        r@ == prompt_for(e@, text@),
{
    let head = cat5(ASK_NAME, &e.name, ASK_KEY, &e.entity_key, ASK_TYPE);
    let tail = cat5(&e.entity_type, ASK_SUBJECT, &e.entity_key, ASK_REST, text);
    cat2(&head, &tail)
}

/// The body of the request to the language model.
pub fn build_request(e: &EntityUpserted, text: &str) -> (r: Json)
    ensures
        r@ == JsonView::object().put(
            "contents"@,
            JsonView::Array(
                seq![
                    JsonView::object().put("role"@, JsonView::Text("user"@)).put(
                        "parts"@,
                        JsonView::Array(
                            seq![
                                JsonView::object().put(
                                    "text"@,
                                    JsonView::Text(prompt_for(e@, text@)),
                                ),
                            ],
                        ),
                    ),
                ],
            ),
        ).put(
            "generationConfig"@,
            JsonView::object().put("maxOutputTokens"@, JsonView::Int(4096)),
        ),
{
    let mut parts: Vec<Json> = Vec::new();
    parts.push(Json::object().put("text", Json::text(&build_prompt(e, text))));
    proof {
        items_view_index(parts@);
        assert(views(parts@) =~= seq![parts@[0]@]);
    }
    let mut contents: Vec<Json> = Vec::new();
    contents.push(
        Json::object().put("role", Json::text("user")).put("parts", Json::Array(parts)),
    );
    proof {
        items_view_index(contents@);
        assert(views(contents@) =~= seq![contents@[0]@]);
    }
    Json::object().put("contents", Json::Array(contents)).put(
        "generationConfig",
        Json::object().put("maxOutputTokens", Json::Unsigned(4096)),
    )
}

/// The address of the language model.
pub fn request_url(model: &str, api_key: &str) -> (r: String)
    ensures
        r@ == "https://generativelanguage.googleapis.com/v1beta/models/"@ + model@
            + ":generateContent?key="@ + api_key@,
{
    cat4(
        "https://generativelanguage.googleapis.com/v1beta/models/",
        model,
        ":generateContent?key=",
        api_key,
    )
}

/// The parts of a candidate of an answer.
pub open spec fn candidate_parts(c: JsonView) -> Option<Seq<JsonView>> {
    match record(c, seq!["content"@], 1).get("content"@) {
        Some(x) => match record(x, seq!["parts"@], 1).array_at("parts"@) {
            Some(a) => if blocks_ok(a) {
                Some(a)
            } else {
                None
            },
            None => None,
        },
        None => None,
    }
}

/// The text in an answer of the language model, or what is wrong with it.
pub open spec fn answer_in(j: JsonView) -> Result<Seq<char>, Seq<char>> {
    let j = record(j, seq!["candidates"@], 0);
    match default_items_at(j, "candidates"@) {
        Some(c) => if j is Object && (forall|i: int|
            0 <= i < c.len() ==> candidate_parts(#[trigger] c[i]) is Some) {
            if c.len() > 0 && candidate_parts(c[0])->0.len() > 0 {
                match block_text(candidate_parts(c[0])->0[0]) {
                    Some(Some(t)) => Ok(t),
                    _ => Err("No text content in Gemini response"@),
                }
            } else {
                Err("No text content in Gemini response"@)
            }
        } else {
            Err("Failed to parse Gemini API response"@)
        },
        None => Err("Failed to parse Gemini API response"@),
    }
}

/// The parts of a candidate of an answer.
fn read_candidate_parts(c: &Json) -> (r: Option<Vec<Json>>)
    ensures
        match r {
            Some(v) => candidate_parts(c@) == Some(views(v@)),
            None => candidate_parts(c@) is None,
        },
{
    let names: Vec<&'static str> = vec!["content"];
    assert(views(names@) =~= seq!["content"@]);
    let spread = as_record(c, &names, 1);
    let doc = match &spread {
        Some(x) => x,
        None => c,
    };
    match doc.get("content") {
        Some(x) => {
            let names: Vec<&'static str> = vec!["parts"];
            assert(views(names@) =~= seq!["parts"@]);
            let spread = as_record(x, &names, 1);
            let content = match &spread {
                Some(x) => x,
                None => x,
            };
            match content.get("parts") {
                Some(y) => match y {
                    Json::Array(v) => {
                        proof {
                            items_view_index(v@);
                        }
                        if check_blocks(v) {
                            Some(duplicate_all(v))
                        } else {
                            None
                        }
                    },
                    _ => None,
                },
                None => None,
            }
        },
        None => None,
    }
}

/// The text in an answer of the language model.
pub fn answer_text(j: &Json) -> (r: Result<String, String>)
    ensures
        match r {
            Ok(t) => answer_in(j@) == Ok::<Seq<char>, Seq<char>>(t@),
            Err(e) => answer_in(j@) == Err::<Seq<char>, Seq<char>>(e@),
        },
{
    let names: Vec<&'static str> = vec!["candidates"];
    assert(views(names@) =~= seq!["candidates"@]);
    let spread = as_record(j, &names, 0);
    let doc = match &spread {
        Some(x) => x,
        None => j,
    };
    let is_object = match doc {
        Json::Object(_) => true,
        _ => false,
    };
    if !is_object {
        return Err(own("Failed to parse Gemini API response"));
    }
    let v = match read_default_items_at(doc, "candidates") {
        Some(v) => v,
        None => {
            return Err(own("Failed to parse Gemini API response"));
        },
    };
    let ghost c = views(v@);
    let mut i: usize = 0;
    while i < v.len()
        invariant
            i <= v@.len(),
            c == views(v@),
            doc@ == record(j@, seq!["candidates"@], 0),
            doc@ is Object,
            default_items_at(doc@, "candidates"@) == Some(c),
            forall|k: int| 0 <= k < i ==> candidate_parts(#[trigger] c[k]) is Some,
        decreases v@.len() - i,
    {
        assert(c[i as int] == v@[i as int]@);
        if read_candidate_parts(&v[i]).is_none() {
            assert(candidate_parts(c[i as int]) is None);
            return Err(own("Failed to parse Gemini API response"));
        }
        i = i + 1;
    }
    if v.len() > 0 {
        assert(c[0] == v@[0]@);
        match read_candidate_parts(&v[0]) {
            Some(parts) => {
                if parts.len() > 0 {
                    assert(views(parts@)[0] == parts@[0]@);
                    match read_block_text(&parts[0]) {
                        Some(o) => match o {
                            Some(t) => {
                                return Ok(t);
                            },
                            None => {},
                        },
                        None => {},
                    }
                }
            },
            None => {},
        }
    }
    Err(own("No text content in Gemini response"))
}

/// The numeral of a number that is not below zero and not above one. Numerals are
/// the shortest ones: they have a point or an exponent, and only numbers close to
/// zero have a negative exponent.
pub open spec fn unit_numeral(t: Seq<char>) -> bool {
    t == "1.0"@ || t == "-0.0"@ || starts_with(t, "0."@) || (!starts_with(t, "-"@) && contains(
        t,
        "e-"@,
    ))
}

/// A number that is not below zero and not above one.
pub open spec fn in_unit(confidence: JsonView) -> bool {
    match confidence {
        JsonView::Int(n) => 0 <= n <= 1,
        JsonView::Float(t) => unit_numeral(t),
        _ => false,
    }
}

/// Whether a number is not below zero and not above one.
pub fn is_in_unit(confidence: &Json) -> (r: bool)
    ensures
        r == in_unit(confidence@),
{
    match confidence {
        Json::Unsigned(n) => *n <= 1,
        Json::Signed(n) => 0 <= *n && *n <= 1,
        Json::Float(t) => same(t, "1.0") || same(t, "-0.0") || has_prefix(t, "0.") || (!has_prefix(
            t,
            "-",
        ) && has_part(t, "e-")),
        _ => false,
    }
}

/// A fact that counts: it has an object or a value, and a confidence from zero to
/// one.
pub open spec fn valid_fact(f: ExtractedFactView) -> bool {
    (f.object is Some || f.value is Some) && in_unit(f.confidence)
}

/// The facts that count, in their order.
pub open spec fn valid_facts(s: Seq<ExtractedFactView>) -> Seq<ExtractedFactView>
    decreases s.len(),
{
    if s.len() == 0 {
        s
    } else if valid_fact(s.last()) {
        valid_facts(s.drop_last()).push(s.last())
    } else {
        valid_facts(s.drop_last())
    }
}

/// The facts that count, in their order.
pub fn keep_valid(facts: &Vec<ExtractedFact>) -> (r: Vec<ExtractedFact>)
    ensures
        views(r@) == valid_facts(views(facts@)),
{
    let ghost all = views(facts@);
    let mut out: Vec<ExtractedFact> = Vec::new();
    let mut i: usize = 0;
    assert(views(out@) =~= all.subrange(0, 0));
    while i < facts.len()
        invariant
            i <= facts@.len(),
            all == views(facts@),
            views(out@) == valid_facts(all.subrange(0, i as int)),
        decreases facts@.len() - i,
    {
        let f = &facts[i];
        let ghost before = out@;
        proof {
            let t = all.subrange(0, i + 1);
            assert(t.drop_last() =~= all.subrange(0, i as int));
            assert(t.last() == f@);
        }
        if (f.object.is_some() || f.value.is_some()) && is_in_unit(&f.confidence) {
            out.push(f.copy());
            assert(views(out@) =~= views(before).push(f@));
        }
        i = i + 1;
    }
    assert(all.subrange(0, i as int) =~= all);
    out
}

/// Every fact that is kept counts.
pub proof fn kept_facts_count(s: Seq<ExtractedFactView>)
    ensures
        forall|i: int| 0 <= i < valid_facts(s).len() ==> valid_fact(#[trigger] valid_facts(s)[i]),
        forall|i: int|
            0 <= i < s.len() && valid_fact(#[trigger] s[i]) ==> valid_facts(s).contains(s[i]),
    decreases s.len(),
{
    if s.len() > 0 {
        let t = s.drop_last();
        kept_facts_count(t);
        assert forall|i: int| 0 <= i < s.len() && valid_fact(#[trigger] s[i]) implies valid_facts(
            s,
        ).contains(s[i]) by {
            if i < t.len() {
                assert(t[i] == s[i]);
                let n = choose|n: int| 0 <= n < valid_facts(t).len() && valid_facts(t)[n] == t[i];
                assert(valid_facts(s)[n] == s[i]);
            } else {
                assert(valid_facts(s)[valid_facts(t).len() as int] == s[i]);
            }
        }
    }
}

/// The facts in the text of an answer.
pub open spec fn facts_in(body: Result<JsonView, Seq<char>>) -> Option<Seq<ExtractedFactView>> {
    match list_in(body) {
        Some(a) => match extracted_facts_of(a) {
            Some(s) => Some(valid_facts(s)),
            None => None,
        },
        None => None,
    }
}

/// The facts in the text of an answer that count; `None` where it is no list of
/// facts.
pub fn parse_facts(text: &str) -> (r: Option<Vec<ExtractedFact>>)
    ensures
        match r {
            Some(v) => facts_in(json_of_text(unfenced(text@))) == Some(views(v@)),
            None => facts_in(json_of_text(unfenced(text@))) is None,
        },
{
    match read_list(text) {
        Some(v) => match read_extracted_facts(&v) {
            Some(f) => Some(keep_valid(&f)),
            None => None,
        },
        None => None,
    }
}

/// The fact to store, with the content as its source.
pub open spec fn fact_request(f: ExtractedFactView, content_key: Seq<char>) -> FactUpsertRequestView {
    FactUpsertRequestView {
        subject: f.subject,
        predicate: f.predicate,
        object: f.object,
        value: f.value,
        confidence: f.confidence,
        source_content: content_key,
    }
}

/// The event that stores a fact.
pub open spec fn fact_event(
    f: ExtractedFactView,
    content_key: Seq<char>,
    correlation_id: Option<Seq<char>>,
    scope: Option<Seq<char>>,
) -> PublicationView {
    PublicationView {
        subject: "brain.fact.upsert"@,
        source: PLUGIN_ID@,
        correlation_id,
        scope,
        payload: fact_upsert_json(fact_request(f, content_key)),
    }
}

/// The events that store the facts in some content.
pub fn fact_events(
    facts: &Vec<ExtractedFact>,
    content_key: &str,
    correlation_id: &Option<String>,
    scope: &Option<String>,
) -> (r: Vec<Publication>)
    ensures
        views(r@) == Seq::new(
            facts@.len(),
            |i: int|
                fact_event(facts@[i]@, content_key@, view_opt(*correlation_id), view_opt(*scope)),
        ),
{
    let mut out: Vec<Publication> = Vec::new();
    let mut i: usize = 0;
    while i < facts.len()
        invariant
            i <= facts@.len(),
            out@.len() == i,
            forall|k: int|
                0 <= k < i ==> (#[trigger] out@[k])@ == fact_event(
                    facts@[k]@,
                    content_key@,
                    view_opt(*correlation_id),
                    view_opt(*scope),
                ),
        decreases facts@.len() - i,
    {
        let f = &facts[i];
        let request = FactUpsertRequest {
            subject: f.subject.clone(),
            predicate: f.predicate.clone(),
            object: duplicate_opt(&f.object),
            value: duplicate_opt(&f.value),
            confidence: f.confidence.copy(),
            source_content: own(content_key),
        };
        out.push(
            Publication {
                subject: own("brain.fact.upsert"),
                source: own(PLUGIN_ID),
                correlation_id: duplicate_opt(correlation_id),
                scope: duplicate_opt(scope),
                payload: fact_upsert_document(&request),
            },
        );
        i = i + 1;
    }
    assert(views(out@) =~= Seq::new(
        facts@.len(),
        |i: int|
            fact_event(facts@[i]@, content_key@, view_opt(*correlation_id), view_opt(*scope)),
    ));
    out
}

/// A fact is what its document says.
pub proof fn fact_is_read(j: JsonView)
    requires
        j is Object,
    ensures
        match extracted_fact_of(j) {
            Some(x) => {
            &&& j.text_at("subject"@) == Some(x.subject)
            &&& j.text_at("predicate"@) == Some(x.predicate)
            &&& optional_text_at(j, "object"@) == Some(x.object)
            &&& optional_text_at(j, "value"@) == Some(x.value)
            &&& number_at(j, "confidence"@) == Some(x.confidence)
            },
            None => j.text_at("subject"@) is None || j.text_at("predicate"@) is None || optional_text_at(j, "object"@) is None || optional_text_at(j, "value"@) is None || number_at(j, "confidence"@) is None,
        },
{
}

/// The facts that are kept are those with an object or a value and a confidence between nought and one.
pub proof fn valid_facts_are_kept(
    s: Seq<ExtractedFactView>,
    y: ExtractedFactView,
)
    ensures
        valid_facts(s).contains(y) <==> exists|i: int| 0 <= i < s.len() && (s[i].object is Some || s[i].value is Some) && in_unit(s[i].confidence) && y == (#[trigger] s[i]),
    decreases s.len(),
{
    if s.len() > 0 {
        let init = s.drop_last();
        valid_facts_are_kept(init, y);
        let rest = valid_facts(init);
        let all = valid_facts(s);
        let n = s.len() - 1;
        if all.contains(y) {
            let k = choose|k: int| 0 <= k < all.len() && all[k] == y;
            if k < rest.len() {
                assert(rest[k] == y);
                let i = choose|i: int| 0 <= i < init.len() && (init[i].object is Some || init[i].value is Some) && in_unit(init[i].confidence) && y == (#[trigger] init[i]);
                assert(s[i] == init[i]);
            } else {
                assert(y == s[n]);
            }
        }
        if exists|i: int| 0 <= i < s.len() && (s[i].object is Some || s[i].value is Some) && in_unit(s[i].confidence) && y == (#[trigger] s[i]) {
            let i = choose|i: int| 0 <= i < s.len() && (s[i].object is Some || s[i].value is Some) && in_unit(s[i].confidence) && y == (#[trigger] s[i]);
            if i < n {
                assert(init[i] == s[i]);
                assert(rest.contains(y));
                let k = choose|k: int| 0 <= k < rest.len() && rest[k] == y;
                assert(all[k] == y);
            } else {
                assert(all[rest.len() as int] == y);
            }
        }
    }
}

/// A fact is stored as it was found, with the content in which it was found.
pub proof fn fact_is_stored(
    f: ExtractedFactView,
    content_key: Seq<char>,
    correlation_id: Option<Seq<char>>,
    scope: Option<Seq<char>>,
)
    requires
        is_number(f.confidence),
    ensures
        ({
            let r = fact_event(f, content_key, correlation_id, scope);
            &&& r.subject == "brain.fact.upsert"@
            &&& r.source == PLUGIN_ID@
            &&& r.correlation_id == correlation_id
            &&& r.scope == scope
            &&& extracted_fact_of(r.payload) == Some(f)
            &&& r.payload.text_at("source_content"@) == Some(content_key)
        }),
{
    reveal_strlit("subject");
    reveal_strlit("predicate");
    reveal_strlit("object");
    reveal_strlit("value");
    reveal_strlit("confidence");
    reveal_strlit("source_content");
    reveal_strlit("valid_from");
    assert("subject"@.len() == 7);
    assert("predicate"@.len() == 9);
    assert("object"@.len() == 6);
    assert("value"@.len() == 5);
    assert("confidence"@.len() == 10);
    assert("source_content"@.len() == 14);
    assert("valid_from"@.len() == 10);
    assert("confidence"@[0] != "valid_from"@[0]);
}

/// A key that is given is used; else the one in the profiles is.
pub proof fn given_key_comes_first(
    key: Seq<char>,
    file: Result<Result<JsonView, Seq<char>>, Seq<char>>,
    j: JsonView,
)
    ensures
        key.len() > 0 ==> resolved_key(Some(key), file) == Ok::<Seq<char>, Seq<char>>(key),
        profile_key(j) is Some ==> resolved_key(None, Ok(Ok(j))) == Ok::<Seq<char>, Seq<char>>(
            profile_key(j)->0,
        ),
        profile_key(j) is None ==> resolved_key(None, Ok(Ok(j))) is Err,
{
}

/// The prompt names the entity, its key and its type, and holds the text.
pub proof fn prompt_names_the_entity(e: EntityUpsertedView, text: Seq<char>)
    ensures
        contains(prompt_for(e, text), e.name),
        contains(prompt_for(e, text), e.entity_key),
        contains(prompt_for(e, text), e.entity_type),
        contains(prompt_for(e, text), text),
{
    let p = prompt_for(e, text);
    let tail = e.entity_type + ASK_SUBJECT@ + e.entity_key + ASK_REST@ + text;
    part_stands_in_whole(ASK_NAME@, e.name, ASK_KEY@ + e.entity_key + ASK_TYPE@ + tail);
    assert(ASK_NAME@ + e.name + (ASK_KEY@ + e.entity_key + ASK_TYPE@ + tail) =~= p);
    part_stands_in_whole(ASK_NAME@ + e.name + ASK_KEY@, e.entity_key, ASK_TYPE@ + tail);
    assert(ASK_NAME@ + e.name + ASK_KEY@ + e.entity_key + (ASK_TYPE@ + tail) =~= p);
    let head = ASK_NAME@ + e.name + ASK_KEY@ + e.entity_key + ASK_TYPE@;
    part_stands_in_whole(
        head,
        e.entity_type,
        ASK_SUBJECT@ + e.entity_key + ASK_REST@ + text,
    );
    assert(head + e.entity_type + (ASK_SUBJECT@ + e.entity_key + ASK_REST@ + text) =~= p);
    part_stands_in_whole(
        head + e.entity_type + ASK_SUBJECT@ + e.entity_key + ASK_REST@,
        text,
        Seq::empty(),
    );
    assert(head + e.entity_type + ASK_SUBJECT@ + e.entity_key + ASK_REST@ + text
        + Seq::<char>::empty() =~= p);
}

/// The facts of a list are read one by one, or not at all, and those that are valid are kept.
pub proof fn facts_are_read(a: Seq<JsonView>, i: int)
    requires
        0 <= i < a.len(),
    ensures
        extracted_fact_of(a[i]) is None ==> facts_in(Ok(JsonView::Array(a))) is None,
        facts_in(Ok(JsonView::Array(a))) is Some && valid_fact(extracted_fact_of(a[i])->0)
            ==> facts_in(Ok(JsonView::Array(a)))->0.contains(extracted_fact_of(a[i])->0),
        (forall|k: int| 0 <= k < a.len() ==> extracted_fact_of(#[trigger] a[k]) is Some)
            ==> facts_in(Ok(JsonView::Array(a))) is Some,
{
    if extracted_facts_of(a) is Some {
        let s = extracted_facts_of(a)->0;
        assert(s[i] == extracted_fact_of(a[i])->0);
        valid_facts_are_kept(s, s[i]);
    }
}

/// The answer is the text of the first part of the first candidate.
pub proof fn answer_is_read(j: JsonView, c: Seq<JsonView>, parts: Seq<JsonView>, t: Seq<char>)
    requires
        j is Object,
        j.get("candidates"@) == Some(JsonView::Array(c)),
        c.len() > 0,
        forall|i: int| 0 <= i < c.len() ==> candidate_parts(#[trigger] c[i]) is Some,
        candidate_parts(c[0]) == Some(parts),
        parts.len() > 0,
        block_text(parts[0]) == Some(Some(t)),
    ensures
        answer_in(j) == Ok::<Seq<char>, Seq<char>>(t),
{
}

/// The parts of a candidate are those of its content.
pub proof fn parts_are_read(c: JsonView, x: JsonView, a: Seq<JsonView>)
    requires
        c is Object,
        x is Object,
        c.get("content"@) == Some(x),
        x.get("parts"@) == Some(JsonView::Array(a)),
    ensures
        blocks_ok(a) ==> candidate_parts(c) == Some(a),
        !blocks_ok(a) ==> candidate_parts(c) is None,
{
}

/// A confidence is between nought and one, as an integer or as a decimal fraction.
pub proof fn confidence_has_bounds(n: int, t: Seq<char>)
    ensures
        in_unit(JsonView::Int(n)) <==> n == 0 || n == 1,
        starts_with(t, "0."@) ==> in_unit(JsonView::Float(t)),
        in_unit(JsonView::Float("1.0"@)),
        in_unit(JsonView::Float("-0.0"@)),
        in_unit(JsonView::Float(t)) ==> t == "1.0"@ || t == "-0.0"@ || starts_with(t, "0."@)
            || contains(t, "e-"@),
        in_unit(JsonView::Float(t)) && starts_with(t, "-"@) && !starts_with(t, "0."@) ==> t
            == "1.0"@ || t == "-0.0"@,
        !in_unit(JsonView::Text(t)),
        !in_unit(JsonView::Null),
{
}

} // verus!
