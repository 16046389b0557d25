//! What comes back from the generation service, read with suspicion: the
//! document is looked for inside whatever prose surrounds it, checked for
//! completeness, and decoded field by field.
use crate::json::{complete_chars, complete_json, json_document, parse_json, JsonMember, JsonValue};
use crate::model::{Location, LocationView};
use crate::text::{
    byte_prefix, chars_of, find_first, find_last, first_index, from_chars, join2, join3,
    join_list, joined, last_index, owned, take_bytes, text_between, trim_chars, trimmed, views,
};
use crate::tools::{read_texts, texts_of};
use vstd::prelude::*;

verus! {

/// The address of the generation service and the model to ask for.
#[derive(Debug, Clone)]
pub struct LlmClient {
    pub base_url: String,
    pub model_name: String,
}

/// What the generation service proposes for a turn.
#[derive(Debug, Clone)]
pub struct WorldUpdate {
    pub narrative: String,
    pub actions: Vec<String>,
    pub suggested_actions: Vec<String>,
}

pub struct WorldUpdateView {
    pub narrative: Seq<char>,
    pub actions: Seq<Seq<char>>,
    pub suggested_actions: Seq<Seq<char>>,
}

impl View for WorldUpdate {
    type V = WorldUpdateView;

    open spec fn view(&self) -> WorldUpdateView {
        WorldUpdateView {
            narrative: self.narrative@,
            actions: views(self.actions@),
            suggested_actions: views(self.suggested_actions@),
        }
    }
}

/// The kind of failure to read an answer of the generation service.
#[derive(Debug, Clone, Copy, PartialEq, Eq, Structural)]
pub enum ParseFault {
    /// Braces, brackets or a string are left open: the answer was cut off.
    Incomplete,
    /// The answer holds no object.
    NoObject,
    /// The object is not a well-formed document.
    Syntax,
    /// The document does not have the shape that was asked for.
    Shape,
}

/// Why an answer of the generation service could not be used: the kind of
/// the failure, and the text that tells of it.
#[derive(Debug, Clone, PartialEq, Eq)]
pub struct ParseError {
    pub kind: ParseFault,
    pub message: String,
}

impl ParseError {
    /// The text that describes the failure.
    pub fn to_string(&self) -> (r: String)
        ensures
            r@ == self.message@,
    {
        self.message.clone()
    }
}

/// How much of an answer is shown when no location can be read from it, in
/// bytes.
pub const SHOWN_OF_LOCATION: usize = 300;

/// How much of an answer is shown when it is cut off and no proposal can be
/// read from it, in bytes.
pub const SHOWN_OF_UPDATE: usize = 200;

/// The key, where the document lacks it or there is no document; nothing
/// where the document has it.
pub open spec fn missing_one(v: Option<JsonValue>, key: Seq<char>) -> Seq<Seq<char>> {
    match v {
        Some(d) => if d.member(key) is None {
            seq![key]
        } else {
            Seq::empty()
        },
        None => seq![key],
    }
}

/// The fields of a location that a document lacks, of those that are asked
/// for by name. Where there is no document all of them are lacking.
pub open spec fn missing_fields(v: Option<JsonValue>) -> Seq<Seq<char>> {
    missing_one(v, "name"@) + missing_one(v, "description"@) + missing_one(v, "exits"@)
        + missing_one(v, "items"@) + missing_one(v, "actors"@)
}

/// What is told of an object from which no location can be read: the fields
/// it lacks, where it lacks any, and the object itself.
pub open spec fn unread_location_text(document: Seq<char>) -> Seq<char> {
    let missing = missing_fields(json_document(document));
    if missing.len() > 0 {
        "Missing required fields: "@ + joined(missing, ", "@) + ". JSON: "@ + document
    } else {
        "Failed to parse Location JSON. JSON: "@ + document
    }
}

/// The text that tells of a failure to read a location from the answer
/// `content`.
pub open spec fn location_fault_text(kind: ParseFault, content: Seq<char>) -> Seq<char> {
    match kind {
        ParseFault::Incomplete => "LLM response JSON appears incomplete (mismatched braces/brackets or unclosed string).\nFirst 300 chars: "@
            + byte_prefix(trimmed(content), SHOWN_OF_LOCATION as nat)
            + "\nThis usually means the LLM response was truncated. Try reducing max_tokens or the prompt length."@,
        ParseFault::NoObject => "No JSON object found in LLM response.\nFirst 300 chars: "@
            + byte_prefix(trimmed(content), SHOWN_OF_LOCATION as nat),
        _ => unread_location_text(object_text(content)->0),
    }
}

/// The text that tells of a failure to read a proposal from the answer
/// `content`.
pub open spec fn update_fault_text(kind: ParseFault, content: Seq<char>) -> Seq<char> {
    match kind {
        ParseFault::Incomplete => "LLM response JSON appears incomplete (mismatched braces/brackets or unclosed string). Content: "@
            + byte_prefix(trimmed(content), SHOWN_OF_UPDATE as nat) + "..."@,
        ParseFault::NoObject => "No JSON object found in LLM response. Content: "@ + trimmed(
            content,
        ),
        _ => "Failed to parse WorldUpdate from LLM content. JSON: "@ + object_text(content)->0,
    }
}

/// Adds `key` to the list where the document lacks it.
fn note_missing(v: Option<&JsonValue>, key: &str, out: &mut Vec<String>)
    ensures
        views(final(out)@) == views(old(out)@) + missing_one(
            match v {
                Some(d) => Some(*d),
                None => None,
            },
            key@,
        ),
{
    let lacking = match v {
        Some(d) => d.get(key).is_none(),
        None => true,
    };
    if lacking {
        out.push(owned(key));
        proof {
            assert(views(out@) =~= views(old(out)@) + seq![key@]);
        }
    } else {
        proof {
            assert(views(out@) =~= views(old(out)@) + Seq::<Seq<char>>::empty());
        }
    }
}

/// Writes what is told of an object from which no location can be read.
fn write_unread_location(v: Option<&JsonValue>, document: &str) -> (r: String)
    requires
        json_document(document@) == (match v {
            Some(d) => Some(*d),
            None => None,
        }),
    ensures
        r@ == unread_location_text(document@),
{
    let mut missing: Vec<String> = Vec::new();
    proof {
        assert(views(missing@) =~= Seq::<Seq<char>>::empty());
    }
    note_missing(v, "name", &mut missing);
    note_missing(v, "description", &mut missing);
    note_missing(v, "exits", &mut missing);
    note_missing(v, "items", &mut missing);
    note_missing(v, "actors", &mut missing);
    proof {
        assert(views(missing@) =~= missing_fields(json_document(document@)));
    }
    if missing.len() > 0 {
        let list = join_list(&missing, ", ");
        let mut out = join3("Missing required fields: ", list.as_str(), ". JSON: ");
        out.append(document);
        out
    } else {
        join2("Failed to parse Location JSON. JSON: ", document)
    }
}

/// The beginning of an answer, without the white space around it, as far as
/// `limit` bytes reach.
fn beginning(chars: &Vec<char>, limit: usize) -> (r: String)
    ensures
        r@ == byte_prefix(trimmed(chars@), limit as nat),
{
    let cleaned = trim_chars(chars);
    from_chars(&take_bytes(&cleaned, limit))
}

// ---------------------------------------------------------------------------
// Finding the object
// ---------------------------------------------------------------------------
/// The object inside an answer: the text from the first opening brace to the
/// last closing brace, where both exist in that order.
pub open spec fn object_text(s: Seq<char>) -> Option<Seq<char>> {
    match (first_index(s, '{'), last_index(s, '}')) {
        (Some(a), Some(b)) => if a <= b {
            Some(s.subrange(a, b + 1))
        } else {
            None
        },
        _ => None,
    }
}

/// Cuts the object out of an answer.
pub fn extract_object(chars: &Vec<char>) -> (r: Option<String>)
    ensures
        match r {
            Some(t) => object_text(chars@) == Some(t@),
            None => object_text(chars@) is None,
        },
{
    match (find_first(chars, '{'), find_last(chars, '}')) {
        (Some(a), Some(b)) => if a <= b {
            Some(text_between(chars, a, b + 1))
        } else {
            None
        },
        _ => None,
    }
}

// ---------------------------------------------------------------------------
// Decoding a location
// ---------------------------------------------------------------------------
/// The text under `key`: `default` where the key is absent, and nothing
/// where the value is no string.
pub open spec fn text_or(v: JsonValue, key: Seq<char>, default: Seq<char>) -> Option<Seq<char>> {
    match v.member(key) {
        None => Some(default),
        Some(m) => m.text(),
    }
}

/// The list of texts under `key`: empty where the key is absent, and nothing
/// where the value is no list of strings.
pub open spec fn texts_or_none(v: JsonValue, key: Seq<char>) -> Option<Seq<Seq<char>>> {
    match v.member(key) {
        None => Some(Seq::empty()),
        Some(m) => match m.elements() {
            Some(elements) => texts_of(elements),
            None => None,
        },
    }
}

/// Whether a value is a whole number that fits a coordinate axis.
pub open spec fn is_axis(v: JsonValue) -> bool {
    match v {
        JsonValue::Number(n) => match n.signed {
            Some(k) => i32::MIN <= k <= i32::MAX,
            None => false,
        },
        _ => false,
    }
}

/// Whether a value is what an exit may lead to: nothing, or a pair of
/// coordinates.
pub open spec fn is_exit_target(v: JsonValue) -> bool {
    v is Null || match v.elements() {
        Some(e) => e.len() == 2 && is_axis(e[0]) && is_axis(e[1]),
        None => false,
    }
}

/// Whether the exits that a document claims have the shape of exits: absent,
/// or an object whose values are exit targets.
pub open spec fn exits_acceptable(v: JsonValue) -> bool {
    match v.member("exits"@) {
        None => true,
        Some(JsonValue::Object(members)) => forall|i: int|
            0 <= i < members@.len() ==> is_exit_target((#[trigger] members@[i]).value),
        Some(_) => false,
    }
}

/// The optional text under `key`: none where the key is absent or null, and
/// a failure where the value is of another kind.
pub open spec fn optional_text(v: JsonValue, key: Seq<char>) -> Option<Option<Seq<char>>> {
    match v.member(key) {
        None => Some(None),
        Some(JsonValue::Null) => Some(None),
        Some(m) => match m.text() {
            Some(t) => Some(Some(t)),
            None => None,
        },
    }
}

/// Whether the `visited` flag that a document claims is a flag.
pub open spec fn visited_acceptable(v: JsonValue) -> bool {
    match v.member("visited"@) {
        None => true,
        Some(m) => m.boolean() is Some,
    }
}

/// The location that a document describes, where it has the shape of one.
/// Fields that are absent take their defaults; a field of the wrong kind
/// spoils the whole. The exits a document claims are checked for their shape
/// and dropped, and the location counts as not yet visited.
pub open spec fn location_of(v: JsonValue) -> Option<LocationView> {
    if !(v is Object) || !exits_acceptable(v) || !visited_acceptable(v) {
        None
    } else {
        match (
            text_or(v, "name"@, "Unknown Location"@),
            text_or(v, "description"@, "An unknown place."@),
            texts_or_none(v, "items"@),
            texts_or_none(v, "actors"@),
            optional_text(v, "cached_image_path"@),
            text_or(v, "image_prompt"@, "A mysterious location"@),
        ) {
            (
                Some(name),
                Some(description),
                Some(items),
                Some(actors),
                Some(cached_image_path),
                Some(image_prompt),
            ) => Some(
                LocationView {
                    name,
                    description,
                    items,
                    actors,
                    exits: Seq::empty(),
                    cached_image_path,
                    image_prompt,
                    visited: false,
                },
            ),
            _ => None,
        }
    }
}

/// Reads the text under `key`, or `default` where the key is absent.
fn read_text_or(v: &JsonValue, key: &str, default: &str) -> (r: Option<String>)
    ensures
        crate::model::opt_view(r) == text_or(*v, key@, default@),
{
    match v.get(key) {
        None => Some(owned(default)),
        Some(m) => match m.as_str() {
            Some(s) => Some(owned(s)),
            None => None,
        },
    }
}

/// Reads the list of texts under `key`, empty where the key is absent.
fn read_texts_or_none(v: &JsonValue, key: &str) -> (r: Option<Vec<String>>)
    ensures
        match r {
            Some(list) => texts_or_none(*v, key@) == Some(views(list@)),
            None => texts_or_none(*v, key@) is None,
        },
{
    match v.get(key) {
        None => {
            let list: Vec<String> = Vec::new();
            proof {
                assert(views(list@) =~= Seq::empty());
            }
            Some(list)
        },
        Some(m) => match m.as_array() {
            Some(elements) => read_texts(elements),
            None => None,
        },
    }
}

/// Whether a value is a whole number that fits a coordinate axis.
fn check_axis(v: &JsonValue) -> (r: bool)
    ensures
        r == is_axis(*v),
{
    match v {
        JsonValue::Number(n) => match n.signed {
            Some(k) => -2147483648 <= k && k <= 2147483647,
            None => false,
        },
        _ => false,
    }
}

/// Whether a value is what an exit may lead to.
fn check_exit_target(v: &JsonValue) -> (r: bool)
    ensures
        r == is_exit_target(*v),
{
    match v {
        JsonValue::Null => true,
        JsonValue::Array(e) => e.len() == 2 && check_axis(&e[0]) && check_axis(&e[1]),
        _ => false,
    }
}

/// Whether every member's value is what an exit may lead to.
fn check_exit_targets(members: &Vec<JsonMember>) -> (r: bool)
    ensures
        r == forall|i: int|
            0 <= i < members@.len() ==> is_exit_target((#[trigger] members@[i]).value),
{
    let mut i: usize = 0;
    while i < members.len()
        invariant
            i <= members.len(),
            forall|j: int| 0 <= j < i ==> is_exit_target((#[trigger] members@[j]).value),
        decreases members.len() - i,
    {
        if !check_exit_target(&members[i].value) {
            return false;
        }
        i += 1;
    }
    true
}

/// Whether the exits that a document claims have the shape of exits.
fn check_exits(v: &JsonValue) -> (r: bool)
    ensures
        r == exits_acceptable(*v),
{
    match v.get("exits") {
        None => true,
        Some(JsonValue::Object(members)) => check_exit_targets(members),
        Some(_) => false,
    }
}

/// Decodes the location that a document describes.
pub fn location_from_json(v: &JsonValue) -> (r: Option<Location>)
    ensures
        match r {
            Some(loc) => location_of(*v) == Some(loc@),
            None => location_of(*v) is None,
        },
{
    match v {
        JsonValue::Object(_) => {},
        _ => {
            return None;
        },
    }
    if !check_exits(v) {
        return None;
    }
    match v.get("visited") {
        None => {},
        Some(m) => {
            if m.as_bool().is_none() {
                return None;
            }
        },
    }
    let name = read_text_or(v, "name", "Unknown Location");
    let description = read_text_or(v, "description", "An unknown place.");
    let items = read_texts_or_none(v, "items");
    let actors = read_texts_or_none(v, "actors");
    let cached = match v.get("cached_image_path") {
        None => Some(None),
        Some(JsonValue::Null) => Some(None),
        Some(m) => match m.as_str() {
            Some(t) => Some(Some(owned(t))),
            None => None,
        },
    };
    let image_prompt = read_text_or(v, "image_prompt", "A mysterious location");
    match (name, description, items, actors, cached, image_prompt) {
        (
            Some(name),
            Some(description),
            Some(items),
            Some(actors),
            Some(cached_image_path),
            Some(image_prompt),
        ) => {
            let loc = Location {
                name,
                description,
                items,
                actors,
                exits: Vec::new(),
                cached_image_path,
                image_prompt,
                visited: false,
            };
            proof {
                assert(loc@.exits =~= Seq::empty());
            }
            Some(loc)
        },
        _ => None,
    }
}

/// The proposal that a document describes, where it has the shape of one:
/// a narrative, a list of actions and a list of suggestions, all required.
pub open spec fn update_of(v: JsonValue) -> Option<WorldUpdateView> {
    match (
        v.field("narrative"@).text(),
        v.field("actions"@).elements(),
        v.field("suggested_actions"@).elements(),
    ) {
        (Some(narrative), Some(a), Some(s)) => match (texts_of(a), texts_of(s)) {
            (Some(actions), Some(suggested_actions)) => Some(
                WorldUpdateView { narrative, actions, suggested_actions },
            ),
            _ => None,
        },
        _ => None,
    }
}

/// Decodes the proposal that a document describes.
pub fn update_from_json(v: &JsonValue) -> (r: Option<WorldUpdate>)
    ensures
        match r {
            Some(u) => update_of(*v) == Some(u@),
            None => update_of(*v) is None,
        },
{
    let narrative = match v.str_field("narrative") {
        Some(n) => owned(n),
        None => {
            return None;
        },
    };
    let actions = match v.get("actions") {
        Some(a) => match a.as_array() {
            Some(elements) => read_texts(elements),
            None => None,
        },
        None => None,
    };
    let suggested = match v.get("suggested_actions") {
        Some(a) => match a.as_array() {
            Some(elements) => read_texts(elements),
            None => None,
        },
        None => None,
    };
    match (actions, suggested) {
        (Some(actions), Some(suggested_actions)) => Some(
            WorldUpdate { narrative, actions, suggested_actions },
        ),
        _ => None,
    }
}

// ---------------------------------------------------------------------------
// Reading an answer
// ---------------------------------------------------------------------------
/// The document inside an answer, or why there is none: the answer is cut
/// off, holds no object, or the object is not well-formed.
pub open spec fn answer_document(content: Seq<char>) -> Result<JsonValue, ParseFault> {
    if !complete_json(content) {
        Err(ParseFault::Incomplete)
    } else {
        match object_text(content) {
            None => Err(ParseFault::NoObject),
            Some(text) => match json_document(text) {
                Some(v) => Ok(v),
                None => Err(ParseFault::Syntax),
            },
        }
    }
}

/// The kind of failure to read a location from an answer, where there is
/// one: the answer is cut off, holds no object, is not well-formed, or has
/// not the shape of a location.
pub open spec fn location_fault(content: Seq<char>) -> Option<ParseFault> {
    match answer_document(content) {
        Ok(v) => if location_of(v) is None {
            Some(ParseFault::Shape)
        } else {
            None
        },
        Err(f) => Some(f),
    }
}

/// The kind of failure to read a proposal from an answer, where there is
/// one.
pub open spec fn update_fault(content: Seq<char>) -> Option<ParseFault> {
    match answer_document(content) {
        Ok(v) => if update_of(v) is None {
            Some(ParseFault::Shape)
        } else {
            None
        },
        Err(f) => Some(f),
    }
}

/// Reads a location out of an answer. Fails when the answer is cut off,
/// holds no object, is not well-formed, or has not the shape of a location,
/// and tells which, with the beginning of the answer or the object that was
/// found.
pub fn parse_location(content: &str) -> (r: Result<Location, ParseError>)
    ensures
        match r {
            Ok(loc) => answer_document(content@) matches Ok(v) && location_of(v) == Some(loc@),
            Err(e) => location_fault(content@) == Some(e.kind) && e.message@
                == location_fault_text(e.kind, content@),
        },
{
    let chars = chars_of(content);
    if !complete_chars(&chars) {
        let shown = beginning(&chars, SHOWN_OF_LOCATION);
        let message = join3(
            "LLM response JSON appears incomplete (mismatched braces/brackets or unclosed string).\nFirst 300 chars: ",
            shown.as_str(),
            "\nThis usually means the LLM response was truncated. Try reducing max_tokens or the prompt length.",
        );
        return Err(ParseError { kind: ParseFault::Incomplete, message });
    }
    let text = match extract_object(&chars) {
        Some(text) => text,
        None => {
            let shown = beginning(&chars, SHOWN_OF_LOCATION);
            let message = join2(
                "No JSON object found in LLM response.\nFirst 300 chars: ",
                shown.as_str(),
            );
            return Err(ParseError { kind: ParseFault::NoObject, message });
        },
    };
    match parse_json(text.as_str()) {
        Err(_) => Err(
            ParseError {
                kind: ParseFault::Syntax,
                message: write_unread_location(None, text.as_str()),
            },
        ),
        Ok(v) => match location_from_json(&v) {
            Some(loc) => Ok(loc),
            None => Err(
                ParseError {
                    kind: ParseFault::Shape,
                    message: write_unread_location(Some(&v), text.as_str()),
                },
            ),
        },
    }
}

impl LlmClient {
    /// A client for the service at `base_url`, asking for `model_name`.
    pub fn new(base_url: String, model_name: String) -> (r: LlmClient)
        ensures
            r.base_url == base_url,
            r.model_name == model_name,
    {
        LlmClient { base_url, model_name }
    }

    /// Where chat requests are sent.
    pub fn completions_url(&self) -> (r: String)
        ensures
            r@ == self.base_url@ + "/v1/chat/completions"@,
    {
        join2(self.base_url.as_str(), "/v1/chat/completions")
    }

    /// Whether an answer is complete: every brace and bracket outside strings
    /// matched, no string left open.
    pub fn is_complete_json(&self, content: &str) -> (r: bool)
        ensures
            r == complete_json(content@),
    {
        crate::json::is_complete_json(content)
    }

    /// Reads a location out of an answer. Fails when the answer is cut off,
    /// holds no object, is not well-formed, or has not the shape of a
    /// location, and tells which.
    pub fn parse_location_json(&self, content: &str) -> (r: Result<Location, ParseError>)
        ensures
            match r {
                Ok(loc) => answer_document(content@) matches Ok(v) && location_of(v) == Some(loc@),
                Err(e) => location_fault(content@) == Some(e.kind) && e.message@
                    == location_fault_text(e.kind, content@),
            },
    {
        parse_location(content)
    }

    /// Reads a turn proposal out of an answer. Fails when the answer is cut
    /// off, holds no object, is not well-formed, or has not the shape of a
    /// proposal, and tells which.
    pub fn parse_content(&self, content: &str) -> (r: Result<WorldUpdate, ParseError>)
        ensures
            match r {
                Ok(u) => answer_document(content@) matches Ok(v) && update_of(v) == Some(u@),
                Err(e) => update_fault(content@) == Some(e.kind) && e.message@
                    == update_fault_text(e.kind, content@),
            },
    {
        let chars = chars_of(content);
        if !complete_chars(&chars) {
            let shown = beginning(&chars, SHOWN_OF_UPDATE);
            let message = join3(
                "LLM response JSON appears incomplete (mismatched braces/brackets or unclosed string). Content: ",
                shown.as_str(),
                "...",
            );
            return Err(ParseError { kind: ParseFault::Incomplete, message });
        }
        let text = match extract_object(&chars) {
            Some(text) => text,
            None => {
                let cleaned = from_chars(&trim_chars(&chars));
                let message = join2(
                    "No JSON object found in LLM response. Content: ",
                    cleaned.as_str(),
                );
                return Err(ParseError { kind: ParseFault::NoObject, message });
            },
        };
        let message = join2("Failed to parse WorldUpdate from LLM content. JSON: ", text.as_str());
        match parse_json(text.as_str()) {
            Err(_) => Err(ParseError { kind: ParseFault::Syntax, message }),
            Ok(v) => match update_from_json(&v) {
                Some(u) => Ok(u),
                None => Err(ParseError { kind: ParseFault::Shape, message }),
            },
        }
    }
}

} // verus!
