//! Structured data as it arrives from the generation service: a document tree
//! with its accessors, and the completeness scan that tells a truncated
//! document from a whole one before any decoding is tried.
use crate::keyed::{lemma_position_at, lemma_position_none, position, Keyed};
use crate::text::{chars_of, same_text};
use vstd::prelude::*;

verus! {

/// The error type of the `serde_json` crate, carried through unread.
#[verifier::external_type_specification]
#[verifier::external_body]
pub struct ExSerdeError(serde_json::Error);

/// The document type of the `serde_json` crate, carried through unread.
#[verifier::external_type_specification]
#[verifier::external_body]
pub struct ExSerdeValue(serde_json::Value);

/// A number of a document, as far as the engine reads numbers: its value as
/// an unsigned and as a signed integer, where it has one.
#[derive(Debug, Clone, Copy, PartialEq, Eq, Structural)]
pub struct JsonNumber {
    pub unsigned: Option<u64>,
    pub signed: Option<i64>,
}

/// A member of an object: a key and its value.
#[derive(Debug)]
pub struct JsonMember {
    pub key: String,
    pub value: JsonValue,
}

/// A document tree.
#[derive(Debug)]
pub enum JsonValue {
    Null,
    Bool(bool),
    Number(JsonNumber),
    String(String),
    Array(Vec<JsonValue>),
    Object(Vec<JsonMember>),
}

impl Keyed for JsonMember {
    type Key = Seq<char>;

    open spec fn key(&self) -> Seq<char> {
        self.key@
    }
}

/// Why a text could not be read as a document.
#[derive(Debug, Clone, Copy, PartialEq, Eq, Structural)]
pub enum JsonError {
    /// The text is not one well-formed document.
    Syntax,
}

/// The document that a text denotes, or `None` where the text is not one
/// well-formed document. What `serde_json::from_str` computes from the text.
pub uninterp spec fn json_document(text: Seq<char>) -> Option<JsonValue>;

/// Converts a `serde_json` document into a `JsonValue`, node for node.
///
/// Trusted: tells the variants of `serde_json::Value` apart and moves their
/// fields over. A number keeps what `Number::as_u64` and `Number::as_i64`
/// return; an object keeps its members in the order in which
/// `serde_json::Map` hands them out.
#[verifier::external_body]
fn value_from_serde(v: serde_json::Value) -> JsonValue {
    match v {
        serde_json::Value::Null => JsonValue::Null,
        serde_json::Value::Bool(b) => JsonValue::Bool(b),
        serde_json::Value::Number(n) => JsonValue::Number(
            JsonNumber { unsigned: n.as_u64(), signed: n.as_i64() },
        ),
        serde_json::Value::String(s) => JsonValue::String(s),
        serde_json::Value::Array(a) => JsonValue::Array(
            a.into_iter().map(value_from_serde).collect(),
        ),
        serde_json::Value::Object(m) => JsonValue::Object(
            m.into_iter().map(|(key, v)| JsonMember { key, value: value_from_serde(v) }).collect(),
        ),
    }
}

/// Reads a text as one document.
///
/// Trusted: calls `serde_json::from_str` for a `serde_json::Value`. The
/// contract names the outcome `json_document`: the same text always gives
/// the same document, or fails.
#[verifier::external_body]
fn read_document(text: &str) -> (r: Result<JsonValue, serde_json::Error>)
    ensures
        match r {
            Ok(v) => json_document(text@) == Some(v),
            Err(_) => json_document(text@) is None,
        },
{
    match serde_json::from_str::<serde_json::Value>(text) {
        Ok(v) => Ok(value_from_serde(v)),
        Err(e) => Err(e),
    }
}

/// Reads a text as one document.
pub fn parse_json(text: &str) -> (r: Result<JsonValue, JsonError>)
    ensures
        match r {
            Ok(v) => json_document(text@) == Some(v),
            Err(e) => json_document(text@) is None && e == JsonError::Syntax,
        },
{
    match read_document(text) {
        Ok(v) => Ok(v),
        Err(_) => Err(JsonError::Syntax),
    }
}

/// The index of the first member with the key `key`.
fn find_member(members: &Vec<JsonMember>, key: &str) -> (r: Option<usize>)
    ensures
        match r {
            Some(i) => position(members@, key@) == Some(i as int) && i < members.len(),
            None => position(members@, key@) is None,
        },
{
    let mut i: usize = 0;
    while i < members.len()
        invariant
            i <= members.len(),
            forall|j: int| 0 <= j < i ==> members@[j].key() != key@,
        decreases members.len() - i,
    {
        if same_text(members[i].key.as_str(), key) {
            proof {
                lemma_position_at(members@, key@, i as int);
            }
            return Some(i);
        }
        i += 1;
    }
    proof {
        lemma_position_none(members@, key@);
    }
    None
}

/// What the reader says of a text that it could not read.
///
/// Trusted: wraps the `Display` of `serde_json::Error`. Nothing is claimed of
/// the text.
#[verifier::external_body]
fn fault_message(e: &serde_json::Error) -> String {
    e.to_string()
}

/// Reads a text as one document, or says why it is none, in the reader's own
/// words.
pub fn parse_json_or_explain(text: &str) -> (r: Result<JsonValue, String>)
    ensures
        match r {
            Ok(v) => json_document(text@) == Some(v),
            Err(_) => json_document(text@) is None,
        },
{
    match read_document(text) {
        Ok(v) => Ok(v),
        Err(e) => Err(fault_message(&e)),
    }
}

impl JsonValue {
    /// The value under `key` when this is an object that has the key.
    pub open spec fn member(self, key: Seq<char>) -> Option<JsonValue> {
        match self {
            JsonValue::Object(members) => match position(members@, key) {
                Some(i) => Some(members@[i].value),
                None => None,
            },
            _ => None,
        }
    }

    /// The value under `key`, or `Null` where there is none: how a field that
    /// may be absent is read.
    pub open spec fn field(self, key: Seq<char>) -> JsonValue {
        match self.member(key) {
            Some(v) => v,
            None => JsonValue::Null,
        }
    }

    /// The text of a string value.
    pub open spec fn text(self) -> Option<Seq<char>> {
        match self {
            JsonValue::String(s) => Some(s@),
            _ => None,
        }
    }

    /// The value of a number that is a non-negative integer below 2^64.
    pub open spec fn unsigned(self) -> Option<u64> {
        match self {
            JsonValue::Number(n) => n.unsigned,
            _ => None,
        }
    }

    /// The value of a boolean.
    pub open spec fn boolean(self) -> Option<bool> {
        match self {
            JsonValue::Bool(b) => Some(b),
            _ => None,
        }
    }

    /// The elements of an array.
    pub open spec fn elements(self) -> Option<Seq<JsonValue>> {
        match self {
            JsonValue::Array(a) => Some(a@),
            _ => None,
        }
    }

    /// The value under `key` when this is an object that has the key.
    pub fn get(&self, key: &str) -> (r: Option<&JsonValue>)
        ensures
            match r {
                Some(v) => self.member(key@) == Some(*v),
                None => self.member(key@) is None,
            },
    {
        match self {
            JsonValue::Object(members) => match find_member(members, key) {
                Some(i) => Some(&members[i].value),
                None => None,
            },
            _ => None,
        }
    }

    /// The text of a string value.
    pub fn as_str(&self) -> (r: Option<&str>)
        ensures
            match r {
                Some(s) => self.text() == Some(s@),
                None => self.text() is None,
            },
    {
        match self {
            JsonValue::String(s) => Some(s.as_str()),
            _ => None,
        }
    }

    /// The value of a number that is a non-negative integer below 2^64.
    pub fn as_u64(&self) -> (r: Option<u64>)
        ensures
            r == self.unsigned(),
    {
        match self {
            JsonValue::Number(n) => n.unsigned,
            _ => None,
        }
    }

    /// The value of a boolean.
    pub fn as_bool(&self) -> (r: Option<bool>)
        ensures
            r == self.boolean(),
    {
        match self {
            JsonValue::Bool(b) => Some(*b),
            _ => None,
        }
    }

    /// The elements of an array.
    pub fn as_array(&self) -> (r: Option<&Vec<JsonValue>>)
        ensures
            match r {
                Some(a) => self.elements() == Some(a@),
                None => self.elements() is None,
            },
    {
        match self {
            JsonValue::Array(a) => Some(a),
            _ => None,
        }
    }

    /// The text under `key`, where the value there is a string.
    pub fn str_field(&self, key: &str) -> (r: Option<&str>)
        ensures
            match r {
                Some(s) => self.field(key@).text() == Some(s@),
                None => self.field(key@).text() is None,
            },
    {
        match self.get(key) {
            Some(v) => v.as_str(),
            None => None,
        }
    }

    /// The number under `key`, where the value there is a non-negative integer.
    pub fn u64_field(&self, key: &str) -> (r: Option<u64>)
        ensures
            r == self.field(key@).unsigned(),
    {
        match self.get(key) {
            Some(v) => v.as_u64(),
            None => None,
        }
    }

    /// The boolean under `key`, where the value there is one.
    pub fn bool_field(&self, key: &str) -> (r: Option<bool>)
        ensures
            r == self.field(key@).boolean(),
    {
        match self.get(key) {
            Some(v) => v.as_bool(),
            None => None,
        }
    }
}

// ---------------------------------------------------------------------------
// The completeness scan
// ---------------------------------------------------------------------------
/// The number of backslashes that stand directly before index `i`.
pub open spec fn backslashes_before(s: Seq<char>, i: int) -> nat
    decreases i,
{
    if 0 < i <= s.len() && s[i - 1] == '\\' {
        1 + backslashes_before(s, i - 1)
    } else {
        0
    }
}

/// What the scan knows after reading a prefix of the text.
pub struct Scan {
    /// A closing brace or bracket came without its opening one.
    pub broken: bool,
    /// Braces opened and not yet closed.
    pub braces: nat,
    /// Brackets opened and not yet closed.
    pub brackets: nat,
    /// The prefix ends inside a string.
    pub in_string: bool,
}

/// The scan's state after the character `c` at index `i`, from the state `t`
/// before it. A quote toggles the string state unless an odd number of
/// backslashes precedes it; outside strings braces and brackets are counted.
pub open spec fn scan_step(s: Seq<char>, t: Scan, i: int) -> Scan {
    let c = s[i];
    if t.broken {
        t
    } else if c == '"' {
        if backslashes_before(s, i) % 2 == 0 {
            Scan { in_string: !t.in_string, ..t }
        } else {
            t
        }
    } else if t.in_string {
        t
    } else if c == '{' {
        Scan { braces: t.braces + 1, ..t }
    } else if c == '}' {
        if t.braces == 0 {
            Scan { broken: true, ..t }
        } else {
            Scan { braces: (t.braces - 1) as nat, ..t }
        }
    } else if c == '[' {
        Scan { brackets: t.brackets + 1, ..t }
    } else if c == ']' {
        if t.brackets == 0 {
            Scan { broken: true, ..t }
        } else {
            Scan { brackets: (t.brackets - 1) as nat, ..t }
        }
    } else {
        t
    }
}

/// The scan's state after the first `n` characters.
pub open spec fn scan(s: Seq<char>, n: nat) -> Scan
    decreases n,
{
    if n == 0 {
        Scan { broken: false, braces: 0, brackets: 0, in_string: false }
    } else {
        scan_step(s, scan(s, (n - 1) as nat), n - 1)
    }
}

/// A text is complete when every brace and bracket outside strings is
/// matched in number, none closes before it opens, and no string is left
/// open.
pub open spec fn complete_json(s: Seq<char>) -> bool {
    let t = scan(s, s.len());
    !t.broken && t.braces == 0 && t.brackets == 0 && !t.in_string
}

proof fn lemma_scan_bounds(s: Seq<char>, n: nat)
    requires
        n <= s.len(),
    ensures
        scan(s, n).braces <= n,
        scan(s, n).brackets <= n,
    decreases n,
{
    if n > 0 {
        lemma_scan_bounds(s, (n - 1) as nat);
    }
}

proof fn lemma_scan_broken_stays(s: Seq<char>, m: nat, n: nat)
    requires
        m <= n,
        scan(s, m).broken,
    ensures
        scan(s, n).broken,
    decreases n,
{
    if m < n {
        lemma_scan_broken_stays(s, m, (n - 1) as nat);
    }
}

/// Whether the number of backslashes directly before index `i` is even.
fn even_backslashes_before(chars: &Vec<char>, i: usize) -> (r: bool)
    requires
        i <= chars.len(),
    ensures
        r == (backslashes_before(chars@, i as int) % 2 == 0),
{
    let mut j: usize = i;
    let mut even = true;
    while j > 0 && chars[j - 1] == '\\'
        invariant
            j <= i <= chars.len(),
            backslashes_before(chars@, i as int) == (i - j) + backslashes_before(chars@, j as int),
            even == ((i - j) % 2 == 0),
        decreases j,
    {
        j -= 1;
        even = !even;
    }
    even
}

/// The completeness scan on a list of characters.
pub fn complete_chars(chars: &Vec<char>) -> (r: bool)
    ensures
        r == complete_json(chars@),
{
    let mut braces: usize = 0;
    let mut brackets: usize = 0;
    let mut in_string = false;
    let mut i: usize = 0;
    while i < chars.len()
        invariant
            i <= chars.len(),
            scan(chars@, i as nat) == (Scan {
                broken: false,
                braces: braces as nat,
                brackets: brackets as nat,
                in_string,
            }),
        decreases chars.len() - i,
    {
        proof {
            lemma_scan_bounds(chars@, i as nat);
        }
        let c = chars[i];
        if c == '"' {
            if even_backslashes_before(chars, i) {
                in_string = !in_string;
            }
        } else if !in_string {
            if c == '{' {
                braces += 1;
            } else if c == '}' {
                if braces == 0 {
                    proof {
                        assert(scan(chars@, (i + 1) as nat).broken);
                        lemma_scan_broken_stays(chars@, (i + 1) as nat, chars@.len());
                    }
                    return false;
                }
                braces -= 1;
            } else if c == '[' {
                brackets += 1;
            } else if c == ']' {
                if brackets == 0 {
                    proof {
                        assert(scan(chars@, (i + 1) as nat).broken);
                        lemma_scan_broken_stays(chars@, (i + 1) as nat, chars@.len());
                    }
                    return false;
                }
                brackets -= 1;
            }
        }
        i += 1;
    }
    braces == 0 && brackets == 0 && !in_string
}

/// Whether a text is complete: the scan that guards every decoding of a
/// document from the generation service.
pub fn is_complete_json(content: &str) -> (r: bool)
    ensures
        r == complete_json(content@),
{
    let chars = chars_of(content);
    complete_chars(&chars)
}

} // verus!
