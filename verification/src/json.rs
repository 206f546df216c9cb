//! Writing of small JSON objects.
//!
//! The bodies that this crate sends are flat objects of texts, truth values
//! and nulls. Their framing is done here; the quoting and escaping of texts
//! is serde_json's.

use vstd::prelude::*;
use vstd::string::*;

verus! {

/// An error of serde_json.
#[verifier::external_type_specification]
#[verifier::external_body]
pub struct ExJsonError(serde_json::Error);

/// The JSON string literal that serde_json writes for a text, quotes
/// included; nothing where serde_json refuses to write the text.
pub uninterp spec fn json_string(text: Seq<char>) -> Option<Seq<char>>;

/// `serde_json::to_string` on a text. Whether it succeeds, and the literal
/// that it then gives, are named by [`json_string`]: both depend on the text
/// alone. Nothing is claimed of the error.
#[verifier::external_body]
fn quote(text: &str) -> (r: Result<String, serde_json::Error>)
    ensures
        match r {
            Ok(literal) => json_string(text@) == Some(literal@),
            Err(_) => json_string(text@) is None,
        },
{
    serde_json::to_string(text)
}

/// The text that a JSON document consisting of one string without escapes
/// stands for, as serde_json reads it; nothing where the document is
/// anything else.
pub uninterp spec fn json_str_value(document: Seq<char>) -> Option<Seq<char>>;

/// `serde_json::from_str` for a borrowed `&str`. Its result is the one named
/// by [`json_str_value`]: it depends on the document alone. Of the error
/// only its text is kept.
#[verifier::external_body]
fn read_str(document: &str) -> (r: Result<&str, String>)
    ensures
        match r {
            Ok(text) => json_str_value(document@) == Some(text@),
            Err(_) => json_str_value(document@) is None,
        },
{
    match serde_json::from_str::<&str>(document) {
        Ok(text) => Ok(text),
        Err(err) => Err(err.to_string()),
    }
}

/// Reads a JSON document that consists of one string. Fails, with the
/// reason as a text, where the document is anything else or the string
/// holds an escape.
pub fn parse_str(document: &str) -> (r: Result<&str, String>)
    ensures
        match r {
            Ok(text) => json_str_value(document@) == Some(text@),
            Err(_) => json_str_value(document@) is None,
        },
{
    read_str(document)
}

/// The text that a `serde_json::Error` displays as. Nothing is claimed of it.
#[verifier::external_body]
fn error_text(err: &serde_json::Error) -> String {
    err.to_string()
}

/// A value of a member of an object.
#[derive(Debug, Clone, PartialEq, Eq)]
pub enum Json {
    /// `null`
    Null,
    /// `true` or `false`
    Bool(bool),
    /// A text
    Text(String),
}

/// The mathematical value of a [`Json`].
pub enum JsonView {
    Null,
    Bool(bool),
    Text(Seq<char>),
}

impl View for Json {
    type V = JsonView;

    open spec fn view(&self) -> JsonView {
        match self {
            Json::Null => JsonView::Null,
            Json::Bool(b) => JsonView::Bool(*b),
            Json::Text(text) => JsonView::Text(text@),
        }
    }
}

impl Json {
    /// A text, or `null` where there is none.
    pub fn optional_text(text: &Option<String>) -> (r: Json)
        ensures
            r@ == (match text {
                Some(t) => JsonView::Text(t@),
                None => JsonView::Null,
            }),
    {
        match text {
            Some(t) => Json::Text(t.clone()),
            None => Json::Null,
        }
    }
}

/// A member of an object: a key and its value.
#[derive(Debug, Clone, PartialEq, Eq)]
pub struct Member {
    pub key: String,
    pub value: Json,
}

impl View for Member {
    type V = (Seq<char>, JsonView);

    open spec fn view(&self) -> (Seq<char>, JsonView) {
        (self.key@, self.value@)
    }
}

impl Member {
    pub fn new(key: &str, value: Json) -> (r: Member)
        ensures
            r@ == (key@, value@),
    {
        Member { key: String::from_str(key), value }
    }
}

/// The keys and values that a list of members stands for, in order.
pub open spec fn member_pairs(members: Seq<Member>) -> Seq<(Seq<char>, JsonView)> {
    members.map_values(|m: Member| m@)
}

/// How a value is written; a text is written as serde_json quotes it, if
/// it does.
pub open spec fn value_text(value: JsonView) -> Option<Seq<char>> {
    match value {
        JsonView::Null => Some("null"@),
        JsonView::Bool(b) => if b {
            Some("true"@)
        } else {
            Some("false"@)
        },
        JsonView::Text(text) => json_string(text),
    }
}

/// A member as it is written: the key as a string literal, and the value.
#[derive(Debug, Clone, PartialEq, Eq)]
pub struct Written {
    pub key: String,
    pub value: String,
}

impl View for Written {
    type V = (Seq<char>, Seq<char>);

    open spec fn view(&self) -> (Seq<char>, Seq<char>) {
        (self.key@, self.value@)
    }
}

/// The keys and values of written members, in order.
pub open spec fn written_pairs(parts: Seq<Written>) -> Seq<(Seq<char>, Seq<char>)> {
    parts.map_values(|w: Written| w@)
}

/// Written members in a row: each as its key, a colon and its value, with
/// commas between.
pub open spec fn framed_members(parts: Seq<(Seq<char>, Seq<char>)>) -> Seq<char>
    decreases parts.len(),
{
    if parts.len() == 0 {
        Seq::empty()
    } else if parts.len() == 1 {
        parts[0].0 + ":"@ + parts[0].1
    } else {
        framed_members(parts.drop_last()) + ","@ + parts.last().0 + ":"@ + parts.last().1
    }
}

/// Written members as an object: in a row, between braces.
pub open spec fn framed_object(parts: Seq<(Seq<char>, Seq<char>)>) -> Seq<char> {
    "{"@ + framed_members(parts) + "}"@
}

/// How a member is written: its key quoted, and its value; nothing where
/// either cannot be written.
pub open spec fn written(member: (Seq<char>, JsonView)) -> Option<(Seq<char>, Seq<char>)> {
    match (json_string(member.0), value_text(member.1)) {
        (Some(key), Some(value)) => Some((key, value)),
        _ => None,
    }
}

/// How members are written, each by itself and in their order; nothing
/// where one of them cannot be written.
pub open spec fn written_all(members: Seq<(Seq<char>, JsonView)>) -> Option<
    Seq<(Seq<char>, Seq<char>)>,
> {
    if forall|i: int| 0 <= i < members.len() ==> written(#[trigger] members[i]) is Some {
        Some(members.map_values(|m: (Seq<char>, JsonView)| written(m)->0))
    } else {
        None
    }
}

/// How an object is written: its members, each written, framed as an
/// object; nothing where one of them cannot be written.
pub open spec fn object_text(members: Seq<(Seq<char>, JsonView)>) -> Option<Seq<char>> {
    match written_all(members) {
        Some(parts) => Some(framed_object(parts)),
        None => None,
    }
}

/// Frames written members as an object.
pub fn frame_object(parts: &Vec<Written>) -> (r: String)
    ensures
        r@ == framed_object(written_pairs(parts@)),
{
    let ghost pairs = written_pairs(parts@);
    let mut out = String::from_str("{");
    let mut i: usize = 0;
    while i < parts.len()
        invariant
            i <= parts.len(),
            pairs == written_pairs(parts@),
            out@ == "{"@ + framed_members(pairs.take(i as int)),
        decreases parts.len() - i,
    {
        let ghost before = pairs.take(i as int);
        let ghost next = pairs.take(i + 1);
        assert(next.drop_last() == before);
        assert(next.last() == parts@[i as int]@);
        if i > 0 {
            out.append(",");
        }
        out.append(parts[i].key.as_str());
        out.append(":");
        out.append(parts[i].value.as_str());
        assert(out@ =~= "{"@ + framed_members(next));
        i += 1;
    }
    assert(pairs.take(parts.len() as int) == pairs);
    out.append("}");
    out
}

/// Writes one value. Fails, with the reason as a text, exactly where the
/// value is a text that serde_json refuses to quote.
fn write_value(value: &Json) -> (r: Result<String, String>)
    ensures
        match r {
            Ok(text) => value_text(value@) == Some(text@),
            Err(_) => value_text(value@) is None,
        },
{
    match value {
        Json::Null => Ok(String::from_str("null")),
        Json::Bool(b) => Ok(String::from_str(crate::text::bool_text(*b))),
        Json::Text(text) => match quote(text.as_str()) {
            Ok(literal) => Ok(literal),
            Err(err) => Err(error_text(&err)),
        },
    }
}

/// Writes an object with the given members, in their order. Fails, with the
/// reason as a text, exactly where serde_json refuses to quote a key or a
/// text among the values.
pub fn write_object(members: &Vec<Member>) -> (r: Result<String, String>)
    ensures
        match r {
            Ok(text) => object_text(member_pairs(members@)) == Some(text@),
            Err(_) => object_text(member_pairs(members@)) is None,
        },
{
    let ghost pairs = member_pairs(members@);
    let mut parts: Vec<Written> = Vec::new();
    let mut i: usize = 0;
    while i < members.len()
        invariant
            i <= members.len(),
            pairs == member_pairs(members@),
            parts.len() == i,
            forall|k: int| 0 <= k < i ==> written(#[trigger] pairs[k]) == Some(parts@[k]@),
        decreases members.len() - i,
    {
        assert(pairs[i as int] == members@[i as int]@);
        let key = match quote(members[i].key.as_str()) {
            Ok(literal) => literal,
            Err(err) => {
                assert(written(pairs[i as int]) is None);
                return Err(error_text(&err));
            },
        };
        let value = match write_value(&members[i].value) {
            Ok(text) => text,
            Err(why) => {
                assert(written(pairs[i as int]) is None);
                return Err(why);
            },
        };
        let ghost before = parts@;
        parts.push(Written { key, value });
        proof {
            assert forall|k: int| 0 <= k < i + 1 implies written(#[trigger] pairs[k]) == Some(
                parts@[k]@,
            ) by {
                if k < i {
                    assert(parts@[k] == before[k]);
                }
            }
        }
        i += 1;
    }
    proof {
        assert(written_all(pairs) is Some);
        assert(written_all(pairs)->0 =~= written_pairs(parts@));
    }
    Ok(frame_object(&parts))
}

} // verus!
