//! One connection, from the bytes that were read to what is to be done.
//!
//! A connection carries one request. What was read is turned into text, the
//! text is parsed, a handler is chosen and run. A text that is no request is
//! answered by nothing at all: the connection is closed without a response.
use crate::handlers::{Handler, Step, StepView};
use crate::request::{spec_new, Request, RequestView, Verb};
use crate::response::{Response, ResponseView};
use crate::route::{root_path, serving, Route, RouteTable, RouteTableView, RouteView};
use crate::search::first_index;
use crate::unicode::{decode_lossy, lossy_text};
use vstd::prelude::*;
use vstd::utf8::encode_utf8;

verus! {

/// The number of bytes that are read from a connection, at most and once.
pub const READ_CAPACITY: usize = 4096;

/// The routes that the server knows, in the order of their registration.
pub open spec fn spec_standard_table() -> RouteTableView<Handler> {
    RouteTableView {
        root_handler: Some(Handler::Root),
        routes: seq![
            (RouteView { path: "/echo"@, verb: Verb::Get }, Handler::Echo),
            (RouteView { path: "/user-agent"@, verb: Verb::Get }, Handler::UserAgent),
            (RouteView { path: "/files"@, verb: Verb::Get }, Handler::ReadFile),
            (RouteView { path: "/files"@, verb: Verb::Post }, Handler::WriteFile),
        ],
    }
}

/// Builds the table of the routes that the server knows.
pub fn standard_table() -> (r: RouteTable<Handler>)
    ensures
        r@ == spec_standard_table(),
{
    let mut table: RouteTable<Handler> = RouteTable::new();
    table.set_root_handler(Handler::Root);
    table.register_route(Route::new("/echo", Verb::Get), Handler::Echo);
    table.register_route(Route::new("/user-agent", Verb::Get), Handler::UserAgent);
    table.register_route(Route::new("/files", Verb::Get), Handler::ReadFile);
    table.register_route(Route::new("/files", Verb::Post), Handler::WriteFile);
    assert(table@.routes =~= spec_standard_table().routes);
    table
}

/// What is to be done for a request: what the chosen handler decides, and
/// the response to a request that nothing serves where no handler is chosen.
pub open spec fn spec_dispatch(
    table: RouteTableView<Handler>,
    files: Seq<Seq<char>>,
    req: RequestView,
) -> StepView {
    match table.select(req) {
        Some(handler) => handler.spec_invoke(req, files),
        None => StepView::Reply(ResponseView::not_found()),
    }
}

/// Chooses the handler for a request and runs it. `files` holds the base
/// names of the files that can be served.
pub fn dispatch(table: &RouteTable<Handler>, files: &Vec<String>, req: &Request) -> (r: Step)
    ensures
        r@ == spec_dispatch(table@, files.deep_view(), req@),
{
    match table.find_handler(req) {
        Some(handler) => handler.invoke(req, files),
        None => Step::Reply(Response::new_404()),
    }
}

/// What is to be done for the text that a connection delivered: nothing
/// where the text is no request, and else what is to be done for the
/// request that it denotes.
pub open spec fn spec_serve(
    table: RouteTableView<Handler>,
    files: Seq<Seq<char>>,
    text: Seq<char>,
) -> Option<StepView> {
    match spec_new(text) {
        Ok(req) => Some(spec_dispatch(table, files, req)),
        Err(_) => None,
    }
}

/// The mathematical data of a step that may be absent.
pub open spec fn step_view(step: Option<Step>) -> Option<StepView> {
    match step {
        Some(step) => Some(step@),
        None => None,
    }
}

/// Decides what is to be done for the text that a connection delivered.
/// `None` says that the connection is to be closed without a response.
pub fn serve_text(table: &RouteTable<Handler>, files: &Vec<String>, text: &str) -> (r: Option<Step>)
    ensures
        step_view(r) == spec_serve(table@, files.deep_view(), text@),
{
    match Request::new(text) {
        Ok(req) => Some(dispatch(table, files, &req)),
        Err(_) => None,
    }
}

/// Decides what is to be done for the bytes that were read from a
/// connection. The bytes are read as UTF-8, ill-formed parts replaced; bytes
/// that encode a text are served as that text.
pub fn serve_bytes(table: &RouteTable<Handler>, files: &Vec<String>, bytes: &[u8]) -> (r: Option<
    Step,
>)
    ensures
        step_view(r) == spec_serve(table@, files.deep_view(), lossy_text(bytes@)),
        forall|text: Seq<char>|
            bytes@ == #[trigger] encode_utf8(text) ==> step_view(r) == spec_serve(
                table@,
                files.deep_view(),
                text,
            ),
{
    let text = decode_lossy(bytes);
    serve_text(table, files, text.as_str())
}

/// A request for the root path is answered with status 200, an empty status
/// text, no headers and an empty body, whatever its method, its headers and
/// its body are.
pub proof fn lemma_root_is_served(files: Seq<Seq<char>>, req: RequestView)
    requires
        req.path == root_path(),
    ensures
        spec_dispatch(spec_standard_table(), files, req) == StepView::Reply(ResponseView::fresh()),
{
}

/// A text that reads as a request for the root path is answered with status
/// 200, an empty status text, no headers and an empty body.
pub proof fn lemma_root_text_is_served(files: Seq<Seq<char>>, text: Seq<char>)
    requires
        spec_new(text) is Ok,
        spec_new(text)->Ok_0.path == root_path(),
    ensures
        spec_serve(spec_standard_table(), files, text) == Some(
            StepView::Reply(ResponseView::fresh()),
        ),
{
    lemma_root_is_served(files, spec_new(text)->Ok_0);
}

/// The routes of the server, one by one: what is done for a request depends
/// on its method and on which of the known prefixes its path begins with.
pub proof fn lemma_standard_routes(files: Seq<Seq<char>>, req: RequestView)
    ensures
        spec_dispatch(spec_standard_table(), files, req) == if req.path == root_path() {
            Handler::Root.spec_invoke(req, files)
        } else if req.verb == Verb::Get && "/echo"@.is_prefix_of(req.path) {
            Handler::Echo.spec_invoke(req, files)
        } else if req.verb == Verb::Get && "/user-agent"@.is_prefix_of(req.path) {
            Handler::UserAgent.spec_invoke(req, files)
        } else if req.verb == Verb::Get && "/files"@.is_prefix_of(req.path) {
            Handler::ReadFile.spec_invoke(req, files)
        } else if req.verb == Verb::Post && "/files"@.is_prefix_of(req.path) {
            Handler::WriteFile.spec_invoke(req, files)
        } else {
            StepView::Reply(ResponseView::not_found())
        },
{
    reveal_with_fuel(first_index, 5);
    let table = spec_standard_table();
    assert(serving::<Handler>(req)(table.routes[0]) == table.routes[0].0.matches(req));
    assert(serving::<Handler>(req)(table.routes[1]) == table.routes[1].0.matches(req));
    assert(serving::<Handler>(req)(table.routes[2]) == table.routes[2].0.matches(req));
    assert(serving::<Handler>(req)(table.routes[3]) == table.routes[3].0.matches(req));
}

/// A request that no route serves is answered with status 404, the text
/// `Not Found` as status text and as body, and no headers.
pub proof fn lemma_unserved_is_not_found(
    table: RouteTableView<Handler>,
    files: Seq<Seq<char>>,
    req: RequestView,
)
    requires
        req.path != root_path(),
        forall|k: int| 0 <= k < table.routes.len() ==> !table.routes[k].0.matches(req),
    ensures
        spec_dispatch(table, files, req) == StepView::Reply(ResponseView::not_found()),
{
    crate::route::lemma_unserved_has_no_handler(table, req);
}

} // verus!
