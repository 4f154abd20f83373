use http_server::request::{Request, Verb};
use http_server::route::{Route, RouteTable};

fn request(verb: Verb, path: &str) -> Request {
    Request { verb, path: path.to_string(), headers: Vec::new(), body: String::new() }
}

#[test]
fn a_route_keeps_its_parts() {
    let route = Route::new("/files", Verb::Post);
    assert_eq!(route.path, "/files");
    assert_eq!(route.verb, Verb::Post);
}

#[test]
fn a_route_matches_by_verb_and_prefix() {
    let route = Route::new("/files", Verb::Get);
    assert!(route.does_match(&request(Verb::Get, "/files")));
    assert!(route.does_match(&request(Verb::Get, "/files/a.txt")));
    assert!(!route.does_match(&request(Verb::Post, "/files/a.txt")));
    assert!(!route.does_match(&request(Verb::Get, "/file")));
    assert!(!route.does_match(&request(Verb::Get, "/other/files")));
    assert!(!route.does_match(&request(Verb::Get, "/Files")));
}

#[test]
fn a_prefix_is_not_a_segment() {
    let route = Route::new("/files", Verb::Get);
    assert!(route.does_match(&request(Verb::Get, "/filesx")));
    let empty = Route::new("", Verb::Get);
    assert!(empty.does_match(&request(Verb::Get, "/anything")));
}

#[test]
fn a_new_table_serves_nothing() {
    let table: RouteTable<u32> = RouteTable::new();
    assert!(table.root_handler.is_none());
    assert!(table.routes.is_empty());
    assert_eq!(table.find_handler(&request(Verb::Get, "/")), None);
    assert_eq!(table.find_handler(&request(Verb::Get, "/x")), None);
}

#[test]
fn the_first_registered_route_wins() {
    let mut table: RouteTable<&str> = RouteTable::new();
    table.register_route(Route::new("/a", Verb::Get), "short");
    table.register_route(Route::new("/a/b", Verb::Get), "long");
    table.register_route(Route::new("/a", Verb::Get), "again");
    assert_eq!(table.find_handler(&request(Verb::Get, "/a/b/c")), Some(&"short"));
    assert_eq!(table.find_handler(&request(Verb::Get, "/a/b/c")), Some(&"short"));

    let mut other: RouteTable<&str> = RouteTable::new();
    other.register_route(Route::new("/a/b", Verb::Get), "long");
    other.register_route(Route::new("/a", Verb::Get), "short");
    assert_eq!(other.find_handler(&request(Verb::Get, "/a/b/c")), Some(&"long"));
    assert_eq!(other.find_handler(&request(Verb::Get, "/a/x")), Some(&"short"));
}

#[test]
fn routes_of_another_verb_are_passed_over() {
    let mut table: RouteTable<u8> = RouteTable::new();
    table.register_route(Route::new("/files", Verb::Get), 1);
    table.register_route(Route::new("/files", Verb::Post), 2);
    assert_eq!(table.find_handler(&request(Verb::Post, "/files/x")), Some(&2));
    assert_eq!(table.find_handler(&request(Verb::Get, "/files/x")), Some(&1));
    assert_eq!(table.find_handler(&request(Verb::Post, "/echo/x")), None);
}

#[test]
fn the_root_path_has_its_own_handler() {
    let mut table: RouteTable<u8> = RouteTable::new();
    table.register_route(Route::new("/", Verb::Get), 1);
    assert_eq!(table.find_handler(&request(Verb::Get, "/")), None);
    assert_eq!(table.find_handler(&request(Verb::Get, "/x")), Some(&1));
    table.set_root_handler(7);
    assert_eq!(table.find_handler(&request(Verb::Get, "/")), Some(&7));
    assert_eq!(table.find_handler(&request(Verb::Post, "/")), Some(&7));
    assert_eq!(table.find_handler(&request(Verb::Get, "/x")), Some(&1));
    table.set_root_handler(8);
    assert_eq!(table.find_handler(&request(Verb::Get, "/")), Some(&8));
    assert_eq!(table.routes.len(), 1);
}
