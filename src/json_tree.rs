use vstd::prelude::*;
use vstd::utf8::encode_utf8;

verus! {

/// A number as a JSON document writes it: a sign, a decimal mantissa and a
/// power of ten (the value is `mantissa * 10^exponent`, negated unless
/// `positive`).
#[derive(Clone, Copy, PartialEq, Eq, Structural, Debug)]
pub struct JsonNumber {
    pub positive: bool,
    pub mantissa: u64,
    pub exponent: i16,
}

impl JsonNumber {
    /// The number zero, which stands for a size that a record does not give.
    pub fn zero() -> (r: JsonNumber)
        ensures
            r == JsonNumber::spec_zero(),
    {
        JsonNumber { positive: true, mantissa: 0, exponent: 0 }
    }

    pub open spec fn spec_zero() -> JsonNumber {
        JsonNumber { positive: true, mantissa: 0, exponent: 0 }
    }
}

/// One member of a JSON object: a key and the value stored under it.
#[derive(Debug)]
pub struct JsonMember {
    pub key: String,
    pub value: JsonNode,
}

/// A JSON document as a tree of plain values.
#[derive(Debug)]
pub enum JsonNode {
    Null,
    Bool(bool),
    Number(JsonNumber),
    Str(String),
    Array(Vec<JsonNode>),
    Object(Vec<JsonMember>),
}

/// `i` is the position of the first member whose key is `key`.
pub open spec fn first_key_at(members: Seq<JsonMember>, key: Seq<char>, i: int) -> bool {
    &&& 0 <= i < members.len()
    &&& members[i].key@ == key
    &&& forall|j: int| 0 <= j < i ==> members[j].key@ != key
}

/// The value stored under `key` in an object (the first one, if the key
/// repeats); `None` where the node is no object or has no such member.
pub open spec fn field(node: JsonNode, key: Seq<char>) -> Option<JsonNode> {
    match node {
        JsonNode::Object(members) => {
            if exists|i: int| first_key_at(members@, key, i) {
                Some(members@[choose|i: int| first_key_at(members@, key, i)].value)
            } else {
                None
            }
        },
        _ => None,
    }
}

/// Whether two texts hold the same characters.
pub fn text_eq(a: &str, b: &str) -> (r: bool)
    ensures
        r == (a@ == b@),
{
    a.to_owned() == b.to_owned()
}

impl JsonNode {
    /// Looks up the member `key` of an object.
    pub fn get<'a>(&'a self, key: &str) -> (r: Option<&'a JsonNode>)
        ensures
            r matches Some(v) ==> field(*self, key@) == Some(*v),
            r is None ==> field(*self, key@) is None,
    {
        match self {
            JsonNode::Object(members) => {
                let mut i: usize = 0;
                while i < members.len()
                    invariant
                        i <= members.len(),
                        *self == JsonNode::Object(*members),
                        forall|j: int| 0 <= j < i ==> members@[j].key@ != key@,
                    decreases members.len() - i,
                {
                    if text_eq(members[i].key.as_str(), key) {
                        assert(first_key_at(members@, key@, i as int));
                        assert forall|k: int| first_key_at(members@, key@, k) implies k == i by {
                            if k < i {
                                assert(members@[k].key@ != key@);
                            } else if k > i {
                                assert(members@[i as int].key@ != key@);
                            }
                        }
                        let ghost c = choose|k: int| first_key_at(members@, key@, k);
                        assert(c == i);
                        return Some(&members[i].value);
                    }
                    i = i + 1;
                }
                None
            },
            _ => None,
        }
    }
}

/// The json crate's value type, known to the library only as an opaque
/// value that is copied into a `JsonNode`.
#[verifier::external_type_specification]
#[verifier::external_body]
pub struct ExJsonValue(json::JsonValue);

/// The tree that a JSON text denotes, or `None` where the text is no JSON
/// document.
pub uninterp spec fn json_document_of(text: Seq<char>) -> Option<JsonNode>;

/// The least number of digits after a decimal point that the JSON parser
/// cannot take: each one lowers an `i16` exponent, which then overflows.
pub const LONG_FRACTION: usize = 32768;

/// The byte of an ASCII digit ('0' is 48, '9' is 57).
pub open spec fn is_ascii_digit(b: u8) -> bool {
    48 <= b <= 57
}

/// At position `i` stands a decimal point (byte 46) followed by `LONG_FRACTION` digits.
pub open spec fn long_fraction_at(bytes: Seq<u8>, i: int) -> bool {
    &&& 0 <= i
    &&& i + LONG_FRACTION < bytes.len()
    &&& bytes[i] == 46
    &&& forall|j: int| i < j <= i + LONG_FRACTION ==> is_ascii_digit(#[trigger] bytes[j])
}

/// Somewhere in the text a decimal point is followed by `LONG_FRACTION` or
/// more digits.
pub open spec fn has_long_fraction(bytes: Seq<u8>) -> bool {
    exists|i: int| long_fraction_at(bytes, i)
}

/// Whether somewhere in `bytes` a decimal point is followed by
/// `LONG_FRACTION` or more digits (inside a string or not).
pub fn find_long_fraction(bytes: &[u8]) -> (r: bool)
    ensures
        r == has_long_fraction(bytes@),
{
    let mut i: usize = 0;
    while i < bytes.len()
        invariant
            i <= bytes.len(),
            forall|k: int| 0 <= k < i ==> !long_fraction_at(bytes@, k),
        decreases bytes.len() - i,
    {
        if bytes[i] == 46 && bytes.len() - i > LONG_FRACTION {
            let mut j: usize = 1;
            while j <= LONG_FRACTION && 48 <= bytes[i + j] && bytes[i + j] <= 57
                invariant
                    1 <= j <= LONG_FRACTION + 1,
                    i + LONG_FRACTION < bytes.len(),
                    forall|m: int| i < m < i + j ==> is_ascii_digit(#[trigger] bytes@[m]),
                decreases LONG_FRACTION + 1 - j,
            {
                j = j + 1;
            }
            if j > LONG_FRACTION {
                assert(long_fraction_at(bytes@, i as int));
                return true;
            }
            assert(!is_ascii_digit(bytes@[i + j]));
        }
        i = i + 1;
    }
    false
}

/// Relies on json::parse: it reads a whole text as one JSON document, and
/// what it returns depends on the text alone. It panics (on overflow of the
/// exponent) on a long run of digits after a decimal point, so such texts
/// are left out.
#[verifier::external_body]
pub(crate) fn parse_json(text: &str) -> (r: Option<JsonNode>)
    requires
        !has_long_fraction(encode_utf8(text@)),
    ensures
        r == json_document_of(text@),
{
    json::parse(text).ok().map(|v| from_json(&v))
}

/// Copies a value of the json crate into a tree of plain values, variant for
/// variant (its two string forms become one).
#[verifier::external_body]
fn from_json(v: &json::JsonValue) -> JsonNode {
    match v {
        json::JsonValue::Null => JsonNode::Null,
        json::JsonValue::Boolean(b) => JsonNode::Bool(*b),
        json::JsonValue::Short(s) => JsonNode::Str(s.as_str().to_string()),
        json::JsonValue::String(s) => JsonNode::Str(s.clone()),
        json::JsonValue::Number(n) => {
            let (positive, mantissa, exponent) = n.as_parts();
            JsonNode::Number(JsonNumber { positive, mantissa, exponent })
        },
        json::JsonValue::Array(a) => JsonNode::Array(a.iter().map(from_json).collect()),
        json::JsonValue::Object(o) => JsonNode::Object(
            o.iter().map(|(k, x)| JsonMember { key: k.to_string(), value: from_json(x) }).collect(),
        ),
    }
}

} // verus!
