//! The handlers: what the server answers to a request once a route has
//! chosen one of them.
//!
//! Three handlers answer from the request alone. The two that serve and
//! store files do not touch a disk themselves: they say which file is to be
//! read or written, and the response is built once that has been done.
use crate::request::{Request, RequestView};
use crate::response::{Response, ResponseView};
use crate::search::{first_index, lemma_first_index_unique};
use crate::text::{byte_length, decimal, rest, spec_byte_length, spec_decimal, spec_rest};
use vstd::prelude::*;

verus! {

/// What is to be done for a request.
#[derive(Debug)]
pub enum Step {
    /// Send this response.
    Reply(Response),
    /// Read the file at this position of the file list, and send what
    /// `file_response` makes of its contents.
    ReadFile { index: usize },
    /// Write `contents` to the file `name` of the serving directory, and
    /// send `created_response`.
    WriteFile { name: String, contents: String },
}

/// A step as mathematical data.
pub enum StepView {
    Reply(ResponseView),
    ReadFile { index: int },
    WriteFile { name: Seq<char>, contents: Seq<char> },
}

impl View for Step {
    type V = StepView;

    open spec fn view(&self) -> StepView {
        match self {
            Step::Reply(response) => StepView::Reply(response@),
            Step::ReadFile { index } => StepView::ReadFile { index: *index as int },
            Step::WriteFile { name, contents } => StepView::WriteFile {
                name: name@,
                contents: contents@,
            },
        }
    }
}

/// The response that delivers `content`: status 200, the content type, the
/// content's length in bytes as a decimal numeral, and the content as body.
pub open spec fn spec_content_response(content_type: Seq<char>, content: Seq<char>) -> ResponseView {
    ResponseView {
        headers: seq![
            ("Content-Type"@, content_type),
            ("Content-Length"@, spec_decimal(spec_byte_length(content))),
        ],
        body: content,
        ..ResponseView::fresh()
    }
}

/// Builds the response that delivers `content`.
pub fn content_response(content_type: &str, content: &str) -> (r: Response)
    ensures
        r@ == spec_content_response(content_type@, content@),
{
    let mut response = Response::new();
    let length = decimal(byte_length(content) as u64);
    response.set_header("Content-Type", content_type);
    response.set_header("Content-Length", length.as_str());
    response.set_body(content);
    assert(response@.headers =~= spec_content_response(content_type@, content@).headers);
    response
}

/// Answers a request for the root path: status 200 and nothing else.
pub fn handle_root(_req: &Request) -> (r: Response)
    ensures
        r@ == ResponseView::fresh(),
{
    Response::new()
}

/// Answers with what follows `/echo/` in the path, as plain text; with the
/// empty text where the path does not begin with `/echo/`.
pub fn handle_echo_request(req: &Request) -> (r: Response)
    ensures
        r@ == spec_content_response("text/plain"@, spec_rest(req@.path, "/echo/"@)),
{
    let echo_string = rest(req.path.as_str(), "/echo/");
    content_response("text/plain", echo_string)
}

/// The user agent that a request names: the value of its first `User-Agent`
/// header, and `Unknown` where it has none.
pub open spec fn spec_user_agent(req: RequestView) -> Seq<char> {
    match req.header("User-Agent"@) {
        Some(value) => value,
        None => "Unknown"@,
    }
}

/// Answers with the user agent that the request names, as plain text.
pub fn handle_user_agent_request(req: &Request) -> (r: Response)
    ensures
        r@ == spec_content_response("text/plain"@, spec_user_agent(req@)),
{
    let user_agent = match req.get_header("User-Agent") {
        Some(value) => value,
        None => "Unknown",
    };
    content_response("text/plain", user_agent)
}

/// The file that a request names: what follows `/files/` in its path.
pub open spec fn spec_file_name(req: RequestView) -> Seq<char> {
    spec_rest(req.path, "/files/"@)
}

/// The predicate "this is the text `name`".
pub open spec fn is_text(name: Seq<char>) -> spec_fn(Seq<char>) -> bool {
    |other: Seq<char>| other == name
}

/// What is to be done for a request to read a file, given the names of the
/// files that can be served: read the first file of that name, or answer
/// that there is none.
pub open spec fn spec_files_request(req: RequestView, files: Seq<Seq<char>>) -> StepView {
    let index: int = first_index(files, is_text(spec_file_name(req)), 0);
    if index < files.len() {
        StepView::ReadFile { index }
    } else {
        StepView::Reply(ResponseView::not_found())
    }
}

/// Decides a request to read a file. `files` holds the base names of the
/// files that can be served.
pub fn handle_files_request(req: &Request, files: &Vec<String>) -> (r: Step)
    ensures
        r@ == spec_files_request(req@, files.deep_view()),
{
    let given_file_name = rest(req.path.as_str(), "/files/").to_owned();
    let mut i: usize = 0;
    while i < files.len()
        invariant
            i <= files.len(),
            given_file_name@ == spec_file_name(req@),
            forall|j: int|
                0 <= j < i ==> !#[trigger] is_text(spec_file_name(req@))(files.deep_view()[j]),
        decreases files.len() - i,
    {
        if files[i] == given_file_name {
            proof {
                lemma_first_index_unique(
                    files.deep_view(),
                    is_text(spec_file_name(req@)),
                    0,
                    i as int,
                );
            }
            return Step::ReadFile { index: i };
        }
        i += 1;
    }
    proof {
        lemma_first_index_unique(files.deep_view(), is_text(spec_file_name(req@)), 0, i as int);
    }
    Step::Reply(Response::new_404())
}

/// Builds the response to a request to read a file, once the file has been
/// read. `read` is `None` where reading failed; the response is then the one
/// for an empty file.
pub fn file_response(read: Option<&str>) -> (r: Response)
    ensures
        r@ == spec_content_response(
            "application/octet-stream"@,
            match read {
                Some(contents) => contents@,
                None => Seq::empty(),
            },
        ),
{
    let file_contents = match read {
        Some(contents) => contents,
        None => "",
    };
    proof {
        reveal_strlit("");
        assert(read is None ==> file_contents@ =~= Seq::<char>::empty());
    }
    content_response("application/octet-stream", file_contents)
}

/// Decides a request to store a file: the body is to be written to the file
/// that the path names.
pub fn handle_post_file(req: &Request) -> (r: Step)
    ensures
        r@ == (StepView::WriteFile { name: spec_file_name(req@), contents: req@.body }),
{
    let file_name = rest(req.path.as_str(), "/files/");
    Step::WriteFile { name: file_name.to_owned(), contents: req.body.clone() }
}

/// Builds the response to a request to store a file, once the file has been
/// written: status 201 and nothing else.
pub fn created_response() -> (r: Response)
    ensures
        r@ == (ResponseView { status_code: 201, ..ResponseView::fresh() }),
{
    let mut response = Response::new();
    response.set_status_code(201);
    response
}

/// The handlers that a route can name.
#[derive(Clone, Copy, Debug, PartialEq, Eq, Structural)]
pub enum Handler {
    Root,
    Echo,
    UserAgent,
    ReadFile,
    WriteFile,
}

impl Handler {
    /// What the handler decides for a request, given the names of the files
    /// that can be served.
    pub open spec fn spec_invoke(self, req: RequestView, files: Seq<Seq<char>>) -> StepView {
        match self {
            Handler::Root => StepView::Reply(ResponseView::fresh()),
            Handler::Echo => StepView::Reply(
                spec_content_response("text/plain"@, spec_rest(req.path, "/echo/"@)),
            ),
            Handler::UserAgent => StepView::Reply(
                spec_content_response("text/plain"@, spec_user_agent(req)),
            ),
            Handler::ReadFile => spec_files_request(req, files),
            Handler::WriteFile => StepView::WriteFile {
                name: spec_file_name(req),
                contents: req.body,
            },
        }
    }

    /// Runs the handler on a request.
    pub fn invoke(self, req: &Request, files: &Vec<String>) -> (r: Step)
        ensures
            r@ == self.spec_invoke(req@, files.deep_view()),
    {
        match self {
            Handler::Root => Step::Reply(handle_root(req)),
            Handler::Echo => Step::Reply(handle_echo_request(req)),
            Handler::UserAgent => Step::Reply(handle_user_agent_request(req)),
            Handler::ReadFile => handle_files_request(req, files),
            Handler::WriteFile => handle_post_file(req),
        }
    }
}

} // verus!
