//! Responses, and the form in which one is written to a connection.
//!
//! A response carries exactly the headers that were set on it: nothing is
//! added when it is written, not even a content length.
use crate::header::FieldsView;
use crate::text::{push_decimal, spec_decimal};
use vstd::prelude::*;
use vstd::utf8::encode_utf8;

verus! {

/// A response as a handler built it.
#[derive(Debug)]
pub struct Response {
    pub status_code: u32,
    pub status_text: String,
    pub body: String,
    pub headers: Vec<(String, String)>,
}

/// A response as mathematical text.
pub struct ResponseView {
    pub status_code: u32,
    pub status_text: Seq<char>,
    pub body: Seq<char>,
    pub headers: FieldsView,
}

impl View for Response {
    type V = ResponseView;

    open spec fn view(&self) -> ResponseView {
        ResponseView {
            status_code: self.status_code,
            status_text: self.status_text@,
            body: self.body@,
            headers: self.headers.deep_view(),
        }
    }
}

/// The line that a header field makes on the wire.
pub open spec fn spec_field_line(field: (Seq<char>, Seq<char>)) -> Seq<char> {
    field.0 + ": "@ + field.1 + "\r\n"@
}

/// The lines that the header fields make on the wire, in their order.
pub open spec fn spec_field_lines(fields: FieldsView) -> Seq<char>
    decreases fields.len(),
{
    if fields.len() == 0 {
        Seq::empty()
    } else {
        spec_field_lines(fields.drop_last()) + spec_field_line(fields.last())
    }
}

impl ResponseView {
    /// The response that every handler starts from: status 200 with an empty
    /// status text, no headers and an empty body.
    pub open spec fn fresh() -> ResponseView {
        ResponseView {
            status_code: 200,
            status_text: Seq::empty(),
            body: Seq::empty(),
            headers: Seq::empty(),
        }
    }

    /// The response to a request that nothing serves: status 404 with the
    /// text `Not Found` as status text and as body, and no headers.
    pub open spec fn not_found() -> ResponseView {
        ResponseView {
            status_code: 404,
            status_text: "Not Found"@,
            body: "Not Found"@,
            headers: Seq::empty(),
        }
    }

    /// The status line, as it stands on the wire.
    pub open spec fn status_line(self) -> Seq<char> {
        "HTTP/1.1 "@ + spec_decimal(self.status_code as nat) + " "@ + self.status_text + "\r\n"@
    }

    /// The response as it stands on the wire: the status line, one line for
    /// each header in the order in which they were set, an empty line, and
    /// the body unchanged.
    pub open spec fn wire(self) -> Seq<char> {
        self.status_line() + spec_field_lines(self.headers) + "\r\n"@ + self.body
    }
}

impl Response {
    /// A response with status 200, an empty status text, no headers and an
    /// empty body.
    pub fn new() -> (r: Response)
        ensures
            r@ == ResponseView::fresh(),
    {
        let r = Response {
            status_code: 200,
            status_text: String::new(),
            body: String::new(),
            headers: Vec::new(),
        };
        assert(r.headers.deep_view() =~= Seq::empty());
        r
    }

    /// Replaces the body.
    pub fn set_body(&mut self, body: &str)
        ensures
            final(self)@ == (ResponseView { body: body@, ..old(self)@ }),
    {
        self.body = body.to_owned();
    }

    /// Adds a header behind those already set. A header of the same name
    /// that was set before stays.
    pub fn set_header(&mut self, key: &str, value: &str)
        ensures
            final(self)@ == (ResponseView {
                headers: old(self)@.headers.push((key@, value@)),
                ..old(self)@
            }),
    {
        self.headers.push((key.to_owned(), value.to_owned()));
        assert(self.headers.deep_view() =~= old(self).headers.deep_view().push((key@, value@)));
    }

    /// Replaces the status code.
    pub fn set_status_code(&mut self, status_code: u32)
        ensures
            final(self)@ == (ResponseView { status_code, ..old(self)@ }),
    {
        self.status_code = status_code;
    }

    /// Replaces the status text.
    pub fn set_status_text(&mut self, status_text: &str)
        ensures
            final(self)@ == (ResponseView { status_text: status_text@, ..old(self)@ }),
    {
        self.status_text = status_text.to_owned();
    }

    /// The response to a request that nothing serves.
    pub fn new_404() -> (r: Self)
        ensures
            r@ == ResponseView::not_found(),
    {
        let mut response = Self::new();
        response.set_status_code(404);
        response.set_status_text("Not Found");
        response.set_body("Not Found");
        response
    }

    /// Writes the response in the form in which it goes over the wire.
    pub fn serialize(&self) -> (r: String)
        ensures
            r@ == self@.wire(),
    {
        let mut out = String::new();
        out.append("HTTP/1.1 ");
        push_decimal(&mut out, self.status_code as u64);
        out.append(" ");
        out.append(self.status_text.as_str());
        out.append("\r\n");
        assert(out@ =~= self@.status_line());
        let mut i: usize = 0;
        while i < self.headers.len()
            invariant
                i <= self.headers.len(),
                out@ == self@.status_line() + spec_field_lines(self@.headers.take(i as int)),
            decreases self.headers.len() - i,
        {
            let ghost before = out@;
            out.append(self.headers[i].0.as_str());
            out.append(": ");
            out.append(self.headers[i].1.as_str());
            out.append("\r\n");
            proof {
                let fields = self@.headers.take(i + 1);
                assert(fields.drop_last() =~= self@.headers.take(i as int));
                assert(fields.last() == self@.headers[i as int]);
                assert(out@ =~= before + spec_field_line(self@.headers[i as int]));
                assert(out@ =~= self@.status_line() + spec_field_lines(fields));
            }
            i += 1;
        }
        assert(self@.headers.take(i as int) =~= self@.headers);
        out.append("\r\n");
        out.append(self.body.as_str());
        assert(out@ =~= self@.wire());
        out
    }

    /// The bytes that go over the wire: the written response in UTF-8.
    pub fn to_bytes(&self) -> (r: Vec<u8>)
        ensures
            r@ == encode_utf8(self@.wire()),
    {
        let wire = self.serialize();
        wire.as_str().as_bytes_vec()
    }
}

} // verus!
