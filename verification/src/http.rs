//! Plain descriptions of HTTP requests and responses.
//!
//! The crate never opens a connection itself. It hands a [`Request`] to the
//! caller, who performs it with a transport of their choice and hands the
//! [`Response`] back.

use crate::text::{eq_ignore_ascii_case, str_eq_ignore_ascii_case};
use vstd::prelude::*;
use vstd::string::*;
use vstd::utf8::{decode_utf8, valid_utf8};

verus! {

/// An HTTP request method.
#[derive(Debug, Clone, PartialEq, Eq)]
pub enum Method {
    /// The GET method
    Get,
    /// The HEAD method
    Head,
    /// The POST method
    Post,
    /// The PUT method
    Put,
    /// The DELETE method
    Delete,
    /// The CONNECT method
    Connect,
    /// The OPTIONS method
    Options,
    /// The TRACE method
    Trace,
    /// The PATCH method
    Patch,
    /// Any other method, sent as written
    Custom(String),
}

/// The mathematical value of a [`Method`].
pub enum MethodView {
    Get,
    Head,
    Post,
    Put,
    Delete,
    Connect,
    Options,
    Trace,
    Patch,
    Custom(Seq<char>),
}

impl View for Method {
    type V = MethodView;

    open spec fn view(&self) -> MethodView {
        match self {
            Method::Get => MethodView::Get,
            Method::Head => MethodView::Head,
            Method::Post => MethodView::Post,
            Method::Put => MethodView::Put,
            Method::Delete => MethodView::Delete,
            Method::Connect => MethodView::Connect,
            Method::Options => MethodView::Options,
            Method::Trace => MethodView::Trace,
            Method::Patch => MethodView::Patch,
            Method::Custom(name) => MethodView::Custom(name@),
        }
    }
}

/// A name with a value: a header, or a query parameter.
#[derive(Debug, Clone, PartialEq, Eq)]
pub struct Field {
    pub name: String,
    pub value: String,
}

impl View for Field {
    type V = (Seq<char>, Seq<char>);

    open spec fn view(&self) -> (Seq<char>, Seq<char>) {
        (self.name@, self.value@)
    }
}

/// The name/value pairs that a list of fields stands for, in order.
pub open spec fn field_pairs(fields: Seq<Field>) -> Seq<(Seq<char>, Seq<char>)> {
    fields.map_values(|f: Field| f@)
}

/// The value of the first field whose name matches `name`, ignoring the case
/// of ASCII letters.
pub open spec fn find_field(fields: Seq<(Seq<char>, Seq<char>)>, name: Seq<char>) -> Option<
    Seq<char>,
>
    decreases fields.len(),
{
    if fields.len() == 0 {
        None
    } else if eq_ignore_ascii_case(fields[0].0, name) {
        Some(fields[0].1)
    } else {
        find_field(fields.skip(1), name)
    }
}

/// Whether some field carries the given name, ignoring the case of ASCII letters.
pub open spec fn has_field(fields: Seq<(Seq<char>, Seq<char>)>, name: Seq<char>) -> bool {
    exists|i: int| 0 <= i < fields.len() && eq_ignore_ascii_case(#[trigger] fields[i].0, name)
}

/// A field can be found exactly when one carries the name.
pub proof fn lemma_find_field_some(fields: Seq<(Seq<char>, Seq<char>)>, name: Seq<char>)
    ensures
        find_field(fields, name) is Some <==> has_field(fields, name),
    decreases fields.len(),
{
    if fields.len() == 0 {
    } else if eq_ignore_ascii_case(fields[0].0, name) {
    } else {
        let rest = fields.skip(1);
        lemma_find_field_some(rest, name);
        if has_field(rest, name) {
            let i = choose|i: int| 0 <= i < rest.len() && eq_ignore_ascii_case(#[trigger] rest[i].0, name);
            assert(fields[i + 1] == rest[i]);
        }
        if has_field(fields, name) {
            let i = choose|i: int| 0 <= i < fields.len() && eq_ignore_ascii_case(#[trigger] fields[i].0, name);
            assert(rest[i - 1] == fields[i]);
        }
    }
}

/// Looks a field up by name, ignoring the case of ASCII letters; the first match wins.
pub fn lookup_field<'a>(fields: &'a Vec<Field>, name: &str) -> (r: Option<&'a str>)
    ensures
        match r {
            Some(value) => find_field(field_pairs(fields@), name@) == Some(value@),
            None => find_field(field_pairs(fields@), name@) is None,
        },
{
    let ghost pairs = field_pairs(fields@);
    assert(pairs.skip(0) == pairs);
    let mut i: usize = 0;
    while i < fields.len()
        invariant
            i <= fields.len(),
            pairs == field_pairs(fields@),
            find_field(pairs, name@) == find_field(pairs.skip(i as int), name@),
        decreases fields.len() - i,
    {
        let ghost rest = pairs.skip(i as int);
        assert(rest[0] == fields@[i as int]@);
        assert(rest.skip(1) == pairs.skip(i + 1));
        if str_eq_ignore_ascii_case(fields[i].name.as_str(), name) {
            return Some(fields[i].value.as_str());
        }
        i += 1;
    }
    None
}

/// Whether `i` is the first place at which a field carries exactly the name.
pub open spec fn is_place_of(fields: Seq<(Seq<char>, Seq<char>)>, name: Seq<char>, i: int) -> bool {
    &&& 0 <= i < fields.len()
    &&& fields[i].0 == name
    &&& forall|j: int| 0 <= j < i ==> (#[trigger] fields[j]).0 != name
}

/// The fields with a value set for a name: in the place of the first value
/// under exactly that name, or at the end where the name is new.
pub open spec fn set_field(
    fields: Seq<(Seq<char>, Seq<char>)>,
    name: Seq<char>,
    value: Seq<char>,
) -> Seq<(Seq<char>, Seq<char>)> {
    if exists|i: int| is_place_of(fields, name, i) {
        fields.update(choose|i: int| is_place_of(fields, name, i), (name, value))
    } else {
        fields.push((name, value))
    }
}

/// Setting a value for a name that no field carries adds a field at the end.
pub proof fn lemma_set_new_field(
    fields: Seq<(Seq<char>, Seq<char>)>,
    name: Seq<char>,
    value: Seq<char>,
)
    requires
        forall|i: int| 0 <= i < fields.len() ==> (#[trigger] fields[i]).0 != name,
    ensures
        set_field(fields, name, value) == fields.push((name, value)),
{
}

/// Setting a value for a name that a field carries replaces the first value
/// under that name.
pub proof fn lemma_set_known_field(
    fields: Seq<(Seq<char>, Seq<char>)>,
    name: Seq<char>,
    value: Seq<char>,
    i: int,
)
    requires
        is_place_of(fields, name, i),
    ensures
        set_field(fields, name, value) == fields.update(i, (name, value)),
{
    let chosen = choose|k: int| is_place_of(fields, name, k);
    assert(is_place_of(fields, name, chosen));
    if chosen < i {
        assert(fields[chosen].0 != name);
    }
    if i < chosen {
        assert(fields[i].0 != name);
    }
}

/// A request, ready to be sent by a transport.
#[derive(Debug, Clone, PartialEq, Eq)]
pub struct Request {
    /// The method to use
    pub method: Method,
    /// The absolute URL, without the query parameters
    pub url: String,
    /// The headers, in the order in which their names were first set; no
    /// name occurs twice
    pub headers: Vec<Field>,
    /// The query parameters, in the order in which they were added
    pub params: Vec<Field>,
    /// The body, if any
    pub body: Option<String>,
    /// How many redirects the transport may follow
    pub max_redirects: usize,
    /// The longest status line the transport may accept, in bytes
    pub max_status_line_length: Option<usize>,
    /// The largest header block the transport may accept, in bytes
    pub max_headers_size: Option<usize>,
    /// The time the transport may take, in seconds
    pub timeout: Option<u64>,
}

/// The mathematical value of a [`Request`].
pub struct RequestView {
    pub method: MethodView,
    pub url: Seq<char>,
    pub headers: Seq<(Seq<char>, Seq<char>)>,
    pub params: Seq<(Seq<char>, Seq<char>)>,
    pub body: Option<Seq<char>>,
    pub max_redirects: usize,
    pub max_status_line_length: Option<usize>,
    pub max_headers_size: Option<usize>,
    pub timeout: Option<u64>,
}

impl View for Request {
    type V = RequestView;

    open spec fn view(&self) -> RequestView {
        RequestView {
            method: self.method@,
            url: self.url@,
            headers: field_pairs(self.headers@),
            params: field_pairs(self.params@),
            body: match self.body {
                Some(text) => Some(text@),
                None => None,
            },
            max_redirects: self.max_redirects,
            max_status_line_length: self.max_status_line_length,
            max_headers_size: self.max_headers_size,
            timeout: self.timeout,
        }
    }
}

impl RequestView {
    /// A bare request: no headers, parameters or body, up to 100 redirects
    /// and no other limit.
    pub open spec fn new(method: MethodView, url: Seq<char>) -> RequestView {
        RequestView {
            method,
            url,
            headers: Seq::empty(),
            params: Seq::empty(),
            body: None,
            max_redirects: 100,
            max_status_line_length: None,
            max_headers_size: None,
            timeout: None,
        }
    }

    /// The request with a header set: a header of exactly that name gets
    /// the value, else the header is a new one.
    pub open spec fn with_header(self, name: Seq<char>, value: Seq<char>) -> RequestView {
        RequestView { headers: set_field(self.headers, name, value), ..self }
    }

    pub open spec fn with_param(self, name: Seq<char>, value: Seq<char>) -> RequestView {
        RequestView { params: self.params.push((name, value)), ..self }
    }

    pub open spec fn with_body(self, body: Seq<char>) -> RequestView {
        RequestView { body: Some(body), ..self }
    }

    /// The request with a JSON body: the body is set, and a header tells
    /// of its kind.
    pub open spec fn with_json(self, body: Seq<char>) -> RequestView {
        self.with_header("Content-Type"@, "application/json; charset=UTF-8"@).with_body(body)
    }

    pub open spec fn with_timeout(self, timeout: u64) -> RequestView {
        RequestView { timeout: Some(timeout), ..self }
    }

    pub open spec fn with_max_redirects(self, max_redirects: usize) -> RequestView {
        RequestView { max_redirects, ..self }
    }

    pub open spec fn with_max_headers_size(self, size: Option<usize>) -> RequestView {
        RequestView { max_headers_size: size, ..self }
    }

    pub open spec fn with_max_status_line_length(self, len: Option<usize>) -> RequestView {
        RequestView { max_status_line_length: len, ..self }
    }
}

impl Request {
    /// Starts a request with the given method and URL.
    pub fn new(method: Method, url: String) -> (r: Request)
        ensures
            r@ == RequestView::new(method@, url@),
    {
        let r = Request {
            method,
            url,
            headers: Vec::new(),
            params: Vec::new(),
            body: None,
            max_redirects: 100,
            max_status_line_length: None,
            max_headers_size: None,
            timeout: None,
        };
        assert(r@.headers =~= Seq::empty());
        assert(r@.params =~= Seq::empty());
        r
    }

    /// Sets a header, in place of an earlier value under exactly that name.
    pub fn with_header(self, name: &str, value: &str) -> (r: Request)
        ensures
            r@ == self@.with_header(name@, value@),
    {
        let mut r = self;
        let ghost before = self@.headers;
        let mut i: usize = 0;
        while i < r.headers.len()
            invariant
                i <= r.headers.len(),
                r == self,
                before == field_pairs(r.headers@),
                forall|j: int| 0 <= j < i ==> (#[trigger] before[j]).0 != name@,
            decreases r.headers.len() - i,
        {
            assert(before[i as int] == r.headers@[i as int]@);
            if crate::text::str_eq(r.headers[i].name.as_str(), name) {
                r.headers.set(i, Field { name: String::from_str(name), value: String::from_str(value) });
                proof {
                    lemma_set_known_field(before, name@, value@, i as int);
                    assert(field_pairs(r.headers@) =~= before.update(i as int, (name@, value@)));
                }
                return r;
            }
            i += 1;
        }
        r.headers.push(Field { name: String::from_str(name), value: String::from_str(value) });
        proof {
            lemma_set_new_field(before, name@, value@);
            assert(field_pairs(r.headers@) =~= before.push((name@, value@)));
        }
        r
    }

    /// Adds a query parameter.
    pub fn with_param(self, name: &str, value: &str) -> (r: Request)
        ensures
            r@ == self@.with_param(name@, value@),
    {
        let mut r = self;
        r.params.push(Field { name: String::from_str(name), value: String::from_str(value) });
        assert(r@.params =~= self@.params.push((name@, value@)));
        r
    }

    /// Sets the body, replacing any earlier one.
    pub fn with_body(self, body: String) -> (r: Request)
        ensures
            r@ == self@.with_body(body@),
    {
        let mut r = self;
        r.body = Some(body);
        r
    }

    /// Sets a JSON document as the body, and the header that tells of its kind.
    pub fn with_json(self, body: String) -> (r: Request)
        ensures
            r@ == self@.with_json(body@),
    {
        self.with_header("Content-Type", "application/json; charset=UTF-8").with_body(body)
    }

    /// Sets the time the transport may take, in seconds.
    pub fn with_timeout(self, timeout: u64) -> (r: Request)
        ensures
            r@ == self@.with_timeout(timeout),
    {
        let mut r = self;
        r.timeout = Some(timeout);
        r
    }

    /// Sets how many redirects the transport may follow.
    pub fn with_max_redirects(self, max_redirects: usize) -> (r: Request)
        ensures
            r@ == self@.with_max_redirects(max_redirects),
    {
        let mut r = self;
        r.max_redirects = max_redirects;
        r
    }

    /// Sets the largest header block the transport may accept.
    pub fn with_max_headers_size(self, size: Option<usize>) -> (r: Request)
        ensures
            r@ == self@.with_max_headers_size(size),
    {
        let mut r = self;
        r.max_headers_size = size;
        r
    }

    /// Sets the longest status line the transport may accept.
    pub fn with_max_status_line_length(self, len: Option<usize>) -> (r: Request)
        ensures
            r@ == self@.with_max_status_line_length(len),
    {
        let mut r = self;
        r.max_status_line_length = len;
        r
    }

    /// The value of a header, looked up without regard to the case of ASCII
    /// letters; the first match wins.
    pub fn header(&self, name: &str) -> (r: Option<&str>)
        ensures
            match r {
                Some(value) => find_field(self@.headers, name@) == Some(value@),
                None => find_field(self@.headers, name@) is None,
            },
    {
        lookup_field(&self.headers, name)
    }
}

/// What a transport got back for a request.
#[derive(Debug, Clone, PartialEq, Eq)]
pub struct Response {
    /// The status code, such as 404
    pub status_code: i32,
    /// The reason phrase, such as "Not Found"
    pub reason_phrase: String,
    /// The headers
    pub headers: Vec<Field>,
    /// The URL that answered, after redirects
    pub url: String,
    /// The body, as received
    pub body: Vec<u8>,
}

/// UTF-8 decoding by `core::str::from_utf8`: the text that the bytes encode,
/// or nothing where they are not valid UTF-8.
#[verifier::external_body]
fn utf8_text(bytes: &[u8]) -> (r: Option<&str>)
    ensures
        r is Some <==> valid_utf8(bytes@),
        r matches Some(text) ==> text@ == decode_utf8(bytes@),
{
    core::str::from_utf8(bytes).ok()
}

/// The text of a body: what its bytes encode, or the empty text where they
/// are not valid UTF-8.
pub open spec fn body_text(body: Seq<u8>) -> Seq<char> {
    if valid_utf8(body) {
        decode_utf8(body)
    } else {
        Seq::empty()
    }
}

impl Response {
    /// The value of a header, looked up without regard to the case of ASCII letters.
    pub fn header(&self, name: &str) -> (r: Option<&str>)
        ensures
            match r {
                Some(value) => find_field(field_pairs(self.headers@), name@) == Some(value@),
                None => find_field(field_pairs(self.headers@), name@) is None,
            },
    {
        lookup_field(&self.headers, name)
    }

    /// The body as text, where it is valid UTF-8.
    pub fn as_str(&self) -> (r: Option<&str>)
        ensures
            r is Some <==> valid_utf8(self.body@),
            r matches Some(text) ==> text@ == decode_utf8(self.body@),
    {
        utf8_text(self.body.as_slice())
    }

    /// The body as text, or the empty text where it is not valid UTF-8.
    pub fn text_or_empty(&self) -> (r: String)
        ensures
            r@ == body_text(self.body@),
    {
        match self.as_str() {
            Some(text) => String::from_str(text),
            None => String::new(),
        }
    }
}

} // verus!
