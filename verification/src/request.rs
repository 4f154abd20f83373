//! Requests, and the grammar by which one is read from the text that a
//! connection delivered.
//!
//! A message is a request line, header lines up to the first empty line, and
//! a body behind the first blank-line separator. Lines end in a line feed,
//! with or without a carriage return before it.
use crate::unicode::lowercase;
use crate::header::{
    lookup, lowercase_names, spec_lookup, spec_lowercase_names, spec_split_field, split_field,
    FieldsView,
};
use crate::text::{
    chars_of, find, lemma_find, lemma_line_bounds, line_at, occurs_at, same_chars, spec_find,
    spec_line, spec_next_line, spec_word, spec_word_stop, word_at,
};
use vstd::prelude::*;
use vstd::slice::slice_subrange;

verus! {

/// The request methods that the server understands.
#[derive(Clone, Copy, Debug, PartialEq, Eq, PartialOrd, Ord, Structural)]
pub enum Verb {
    Get,
    Post,
}

/// Why a text could not be read as a request.
#[derive(Clone, Copy, Debug, PartialEq, Eq, Structural)]
pub enum ParseError {
    /// The request line does not begin with a method that the server
    /// understands.
    UnknownVerb,
}

impl ParseError {
    /// A short description of the failure.
    pub fn message(&self) -> (r: String)
        ensures
            r@ == "Unknown verb"@,
    {
        "Unknown verb".to_owned()
    }
}

/// A request as it was read from a connection.
#[derive(Debug)]
pub struct Request {
    pub verb: Verb,
    pub path: String,
    pub headers: Vec<(String, String)>,
    pub body: String,
}

/// A request as mathematical text.
pub struct RequestView {
    pub verb: Verb,
    pub path: Seq<char>,
    pub headers: FieldsView,
    pub body: Seq<char>,
}

impl View for Request {
    type V = RequestView;

    open spec fn view(&self) -> RequestView {
        RequestView {
            verb: self.verb,
            path: self.path@,
            headers: self.headers.deep_view(),
            body: self.body@,
        }
    }
}

impl RequestView {
    /// The request with every header name replaced by its lower-case form.
    pub open spec fn with_lowercase_names(self) -> RequestView {
        RequestView { headers: spec_lowercase_names(self.headers), ..self }
    }

    /// The value of the first header whose stored name is the lower-case
    /// form of `name`.
    pub open spec fn header(self, name: Seq<char>) -> Option<Seq<char>> {
        spec_lookup(self.headers, lowercase(name))
    }
}

/// The method that a word of the request line names.
pub open spec fn spec_verb(word: Seq<char>) -> Option<Verb> {
    if word == "GET"@ {
        Some(Verb::Get)
    } else if word == "POST"@ {
        Some(Verb::Post)
    } else {
        None
    }
}

/// The path that is assumed where the request line names none.
pub open spec fn default_path() -> Seq<char> {
    "/"@
}

/// The method and the path of a request line. The first word must name a
/// method; the second word is the path, and where there is no second word
/// the path is the default.
pub open spec fn spec_request_line(line: Seq<char>) -> Result<(Verb, Seq<char>), ParseError> {
    match spec_verb(spec_word(line, 0)) {
        None => Err(ParseError::UnknownVerb),
        Some(verb) => {
            let target = spec_word(line, spec_word_stop(line, 0));
            Ok(
                (
                    verb,
                    if target.len() == 0 {
                        default_path()
                    } else {
                        target
                    },
                ),
            )
        },
    }
}

/// The header fields read from the lines of `s` that begin at `from`, up to
/// the first empty line or the end of the text, names as written.
pub open spec fn spec_fields(s: Seq<char>, from: int) -> FieldsView
    decreases s.len() - from,
{
    if from < 0 || from >= s.len() || spec_line(s, from).len() == 0 {
        Seq::empty()
    } else {
        proof {
            lemma_line_bounds(s, from);
        }
        seq![spec_split_field(spec_line(s, from))] + spec_fields(s, spec_next_line(s, from))
    }
}

/// The text that separates the header lines from the body.
pub open spec fn blank_line() -> Seq<char> {
    "\r\n\r\n"@
}

/// The body of a message: all that follows the first blank-line separator,
/// and nothing where there is no separator.
pub open spec fn spec_body(s: Seq<char>) -> Seq<char> {
    match spec_find(s, blank_line(), 0) {
        Some(at) => s.subrange(at + blank_line().len(), s.len() as int),
        None => Seq::empty(),
    }
}

/// The request that the text `s` denotes, header names as written.
pub open spec fn spec_parse(s: Seq<char>) -> Result<RequestView, ParseError> {
    match spec_request_line(spec_line(s, 0)) {
        Err(e) => Err(e),
        Ok((verb, path)) => Ok(
            RequestView {
                verb,
                path,
                headers: spec_fields(s, spec_next_line(s, 0)),
                body: spec_body(s),
            },
        ),
    }
}

/// The request that the text `s` denotes, header names in lower case.
pub open spec fn spec_new(s: Seq<char>) -> Result<RequestView, ParseError> {
    match spec_parse(s) {
        Err(e) => Err(e),
        Ok(request) => Ok(request.with_lowercase_names()),
    }
}

impl Verb {
    /// Reads a method from a word of the request line.
    pub fn from_word(word: &[char]) -> (r: Option<Verb>)
        ensures
            r == spec_verb(word@),
    {
        let get = chars_of("GET");
        let post = chars_of("POST");
        if same_chars(word, get.as_slice()) {
            Some(Verb::Get)
        } else if same_chars(word, post.as_slice()) {
            Some(Verb::Post)
        } else {
            None
        }
    }
}

/// Reads the method and the path from a request line.
pub fn parse_request_line(line: &str) -> (r: Result<(Verb, String), ParseError>)
    ensures
        match r {
            Ok((verb, path)) => spec_request_line(line@) == Ok::<_, ParseError>((verb, path@)),
            Err(e) => spec_request_line(line@) == Err::<(Verb, Seq<char>), _>(e),
        },
{
    let chars = chars_of(line);
    let (start, stop) = word_at(chars.as_slice(), 0);
    match Verb::from_word(slice_subrange(chars.as_slice(), start, stop)) {
        None => Err(ParseError::UnknownVerb),
        Some(verb) => {
            let (from, to) = word_at(chars.as_slice(), stop);
            let path = if from == to {
                "/".to_owned()
            } else {
                line.substring_char(from, to).to_owned()
            };
            Ok((verb, path))
        },
    }
}

/// Reads the header fields from the lines of `request` that begin at `from`.
/// `chars` holds the characters of `request`.
pub fn parse_fields(request: &str, chars: &[char], from: usize) -> (r: Vec<(String, String)>)
    requires
        chars@ == request@,
        from <= chars.len(),
    ensures
        r.deep_view() == spec_fields(request@, from as int),
{
    let mut fields: Vec<(String, String)> = Vec::new();
    let mut at: usize = from;
    loop
        invariant
            chars@ == request@,
            from <= at <= chars.len(),
            spec_fields(request@, from as int) == fields.deep_view() + spec_fields(
                request@,
                at as int,
            ),
        ensures
            spec_fields(request@, at as int) == Seq::<(Seq<char>, Seq<char>)>::empty(),
        decreases chars.len() - at,
    {
        if at >= chars.len() {
            break;
        }
        let (stop, next) = line_at(chars, at);
        if stop == at {
            break;
        }
        let (name, value) = split_field(request.substring_char(at, stop));
        let ghost before = fields.deep_view();
        fields.push((name.to_owned(), value.to_owned()));
        proof {
            let field = spec_split_field(spec_line(request@, at as int));
            assert(fields.deep_view() =~= before.push(field));
            assert(before + (seq![field] + spec_fields(request@, next as int)) =~= before.push(
                field,
            ) + spec_fields(request@, next as int));
        }
        at = next;
    }
    assert(fields.deep_view() + Seq::<(Seq<char>, Seq<char>)>::empty() =~= fields.deep_view());
    fields
}

/// Reads the body of `request`. `chars` holds the characters of `request`.
pub fn parse_body(request: &str, chars: &[char]) -> (r: String)
    requires
        chars@ == request@,
    ensures
        r@ == spec_body(request@),
{
    let mark = chars_of("\r\n\r\n");
    let end: usize = chars.len();
    proof {
        reveal_strlit("\r\n\r\n");
    }
    match find(chars, mark.as_slice()) {
        Some(at) => {
            proof {
                lemma_find(request@, blank_line(), 0);
                assert(occurs_at(request@, blank_line(), at as int));
                assert(blank_line().len() == 4);
            }
            request.substring_char(at + 4, end).to_owned()
        },
        None => String::new(),
    }
}

impl Request {
    /// Reads a request and keeps the header names as they were written.
    pub fn parse_verbatim(request: &str) -> (r: Result<Request, ParseError>)
        ensures
            match r {
                Ok(req) => spec_parse(request@) == Ok::<_, ParseError>(req@),
                Err(e) => spec_parse(request@) == Err::<RequestView, _>(e),
            },
    {
        let chars = chars_of(request);
        let (stop, next) = line_at(chars.as_slice(), 0);
        match parse_request_line(request.substring_char(0, stop)) {
            Err(e) => Err(e),
            Ok((verb, path)) => {
                let headers = parse_fields(request, chars.as_slice(), next);
                let body = parse_body(request, chars.as_slice());
                Ok(Request { verb, path, headers, body })
            },
        }
    }

    /// Reads a request. The first word of the request line must be `GET` or
    /// `POST`; the second is the path, `/` where there is none. Each further
    /// line up to the first empty one is a header, split at the first `": "`
    /// with its name stored in lower case. The body is what follows the
    /// first blank-line separator.
    pub fn new(request: &str) -> (r: Result<Request, ParseError>)
        ensures
            match r {
                Ok(req) => spec_new(request@) == Ok::<_, ParseError>(req@),
                Err(e) => spec_new(request@) == Err::<RequestView, _>(e),
            },
    {
        match Request::parse_verbatim(request) {
            Err(e) => Err(e),
            Ok(written) => {
                let headers = lowercase_names(&written.headers);
                Ok(Request { verb: written.verb, path: written.path, headers, body: written.body })
            },
        }
    }

    /// The value of the first header whose stored name is exactly `name`.
    pub fn find_header(&self, name: &str) -> (r: Option<&str>)
        ensures
            match r {
                Some(value) => spec_lookup(self@.headers, name@) == Some(value@),
                None => spec_lookup(self@.headers, name@) is None,
            },
    {
        lookup(&self.headers, name)
    }

    /// The value of the first header named `key`, whatever the case of its
    /// letters: the header whose stored name is the lower-case form of `key`.
    pub fn get_header(&self, key: &str) -> (r: Option<&str>)
        ensures
            match r {
                Some(value) => self@.header(key@) == Some(value@),
                None => self@.header(key@) is None,
            },
    {
        let name = key.to_lowercase();
        self.find_header(name.as_str())
    }
}

} // verus!
