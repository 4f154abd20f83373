use http_server::handlers::{
    content_response, created_response, file_response, handle_echo_request, handle_files_request,
    handle_post_file, handle_root, handle_user_agent_request, Handler, Step,
};
use http_server::request::{Request, Verb};
use http_server::response::Response;

fn request(verb: Verb, path: &str, headers: &[(&str, &str)], body: &str) -> Request {
    Request {
        verb,
        path: path.to_string(),
        headers: headers.iter().map(|(k, v)| (k.to_string(), v.to_string())).collect(),
        body: body.to_string(),
    }
}

fn pairs(list: &[(&str, &str)]) -> Vec<(String, String)> {
    list.iter().map(|(k, v)| (k.to_string(), v.to_string())).collect()
}

fn names(list: &[&str]) -> Vec<String> {
    list.iter().map(|n| n.to_string()).collect()
}

fn reply(step: Step) -> Response {
    match step {
        Step::Reply(response) => response,
        other => panic!("not a reply: {:?}", other),
    }
}

#[test]
fn the_root_handler_answers_with_an_empty_200() {
    let r = handle_root(&request(Verb::Post, "/", &[("a", "b")], "body"));
    assert_eq!(r.status_code, 200);
    assert_eq!(r.status_text, "");
    assert_eq!(r.body, "");
    assert!(r.headers.is_empty());
}

#[test]
fn echo_returns_what_follows_the_prefix() {
    let r = handle_echo_request(&request(Verb::Get, "/echo/abc", &[], ""));
    assert_eq!(r.status_code, 200);
    assert_eq!(r.status_text, "");
    assert_eq!(r.headers, pairs(&[("Content-Type", "text/plain"), ("Content-Length", "3")]));
    assert_eq!(r.body, "abc");
}

#[test]
fn echo_keeps_further_slashes() {
    let r = handle_echo_request(&request(Verb::Get, "/echo/a/b/", &[], ""));
    assert_eq!(r.body, "a/b/");
    assert_eq!(r.headers[1], ("Content-Length".to_string(), "4".to_string()));
}

#[test]
fn echo_without_the_slash_is_empty() {
    let r = handle_echo_request(&request(Verb::Get, "/echo", &[], ""));
    assert_eq!(r.body, "");
    assert_eq!(r.headers, pairs(&[("Content-Type", "text/plain"), ("Content-Length", "0")]));
    let s = handle_echo_request(&request(Verb::Get, "/echoes", &[], ""));
    assert_eq!(s.body, "");
}

#[test]
fn the_content_length_counts_bytes() {
    let r = handle_echo_request(&request(Verb::Get, "/echo/\u{e9}t\u{e9}", &[], ""));
    assert_eq!(r.body, "\u{e9}t\u{e9}");
    assert_eq!(r.headers[1], ("Content-Length".to_string(), "5".to_string()));
    let long = "x".repeat(1234);
    let c = content_response("text/plain", &long);
    assert_eq!(c.headers[1], ("Content-Length".to_string(), "1234".to_string()));
}

#[test]
fn user_agent_is_taken_from_the_header() {
    let r = handle_user_agent_request(&request(
        Verb::Get,
        "/user-agent",
        &[("host", "x"), ("user-agent", "foo/1.0"), ("user-agent", "bar")],
        "",
    ));
    assert_eq!(r.status_code, 200);
    assert_eq!(r.headers, pairs(&[("Content-Type", "text/plain"), ("Content-Length", "7")]));
    assert_eq!(r.body, "foo/1.0");
}

#[test]
fn user_agent_is_unknown_without_the_header() {
    let r = handle_user_agent_request(&request(Verb::Get, "/user-agent", &[("host", "x")], ""));
    assert_eq!(r.body, "Unknown");
    assert_eq!(r.headers, pairs(&[("Content-Type", "text/plain"), ("Content-Length", "7")]));
}

#[test]
fn a_file_is_found_by_its_name() {
    let files = names(&["a.txt", "b.txt", "a.txt"]);
    match handle_files_request(&request(Verb::Get, "/files/b.txt", &[], ""), &files) {
        Step::ReadFile { index } => assert_eq!(index, 1),
        other => panic!("unexpected: {:?}", other),
    }
    match handle_files_request(&request(Verb::Get, "/files/a.txt", &[], ""), &files) {
        Step::ReadFile { index } => assert_eq!(index, 0),
        other => panic!("unexpected: {:?}", other),
    }
}

#[test]
fn a_missing_file_is_not_found() {
    let files = names(&["a.txt"]);
    let r = reply(handle_files_request(&request(Verb::Get, "/files/c.txt", &[], ""), &files));
    assert_eq!(r.status_code, 404);
    assert_eq!(r.status_text, "Not Found");
    assert_eq!(r.body, "Not Found");
    assert!(r.headers.is_empty());
    let s = reply(handle_files_request(&request(Verb::Get, "/files/A.TXT", &[], ""), &files));
    assert_eq!(s.status_code, 404);
    let t = reply(handle_files_request(&request(Verb::Get, "/filesa.txt", &[], ""), &files));
    assert_eq!(t.status_code, 404);
    let u = reply(handle_files_request(&request(Verb::Get, "/files/a.txt", &[], ""), &names(&[])));
    assert_eq!(u.status_code, 404);
}

#[test]
fn file_contents_are_served_as_octets() {
    let r = file_response(Some("hello"));
    assert_eq!(r.status_code, 200);
    assert_eq!(r.status_text, "");
    assert_eq!(
        r.headers,
        pairs(&[("Content-Type", "application/octet-stream"), ("Content-Length", "5")])
    );
    assert_eq!(r.body, "hello");
}

#[test]
fn a_failed_read_is_served_as_an_empty_file() {
    let r = file_response(None);
    assert_eq!(r.status_code, 200);
    assert_eq!(
        r.headers,
        pairs(&[("Content-Type", "application/octet-stream"), ("Content-Length", "0")])
    );
    assert_eq!(r.body, "");
}

#[test]
fn a_post_asks_for_the_body_to_be_written() {
    match handle_post_file(&request(Verb::Post, "/files/test.txt", &[], "hello")) {
        Step::WriteFile { name, contents } => {
            assert_eq!(name, "test.txt");
            assert_eq!(contents, "hello");
        },
        other => panic!("unexpected: {:?}", other),
    }
    match handle_post_file(&request(Verb::Post, "/filesx", &[], "")) {
        Step::WriteFile { name, contents } => {
            assert_eq!(name, "");
            assert_eq!(contents, "");
        },
        other => panic!("unexpected: {:?}", other),
    }
}

#[test]
fn a_written_file_is_answered_with_201() {
    let r = created_response();
    assert_eq!(r.status_code, 201);
    assert_eq!(r.status_text, "");
    assert_eq!(r.body, "");
    assert!(r.headers.is_empty());
    assert_eq!(r.serialize(), "HTTP/1.1 201 \r\n\r\n");
}

#[test]
fn handlers_are_run_by_their_tag() {
    let files = names(&["a.txt"]);
    let req = request(Verb::Get, "/echo/hi", &[("user-agent", "ua")], "b");
    assert_eq!(reply(Handler::Root.invoke(&req, &files)).body, "");
    assert_eq!(reply(Handler::Echo.invoke(&req, &files)).body, "hi");
    assert_eq!(reply(Handler::UserAgent.invoke(&req, &files)).body, "ua");
    assert_eq!(reply(Handler::ReadFile.invoke(&req, &files)).status_code, 404);
    match Handler::WriteFile.invoke(&req, &files) {
        Step::WriteFile { name, contents } => {
            assert_eq!(name, "");
            assert_eq!(contents, "b");
        },
        other => panic!("unexpected: {:?}", other),
    }
}
