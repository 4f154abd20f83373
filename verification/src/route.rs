//! Routes and the table that chooses a handler for a request.
//!
//! The table is an ordered list of routes, each with its handler, and one
//! handler set apart for the root path. It is filled before the first request
//! and only read afterwards. What a handler is, the table does not ask.
use crate::request::{Request, RequestView, Verb};
use crate::search::{first_index, lemma_first_index_earliest, lemma_first_index_unique};
use crate::text::{str_eq, str_starts_with};
use vstd::prelude::*;

verus! {

/// A method and a path prefix.
#[derive(Debug)]
pub struct Route {
    pub path: String,
    pub verb: Verb,
}

/// A route as mathematical text.
pub struct RouteView {
    pub path: Seq<char>,
    pub verb: Verb,
}

impl View for Route {
    type V = RouteView;

    open spec fn view(&self) -> RouteView {
        RouteView { path: self.path@, verb: self.verb }
    }
}

impl RouteView {
    /// Whether the route serves the request: the methods are the same and
    /// the request's path begins with the route's, character for character.
    pub open spec fn matches(self, req: RequestView) -> bool {
        self.verb == req.verb && self.path.is_prefix_of(req.path)
    }
}

impl Route {
    /// The route for `verb` and the paths that begin with `path`.
    pub fn new(path: &str, verb: Verb) -> (r: Self)
        ensures
            r@ == (RouteView { path: path@, verb }),
    {
        Self { path: path.to_owned(), verb }
    }

    /// Tests whether the route serves the request.
    pub fn does_match(&self, req: &Request) -> (r: bool)
        ensures
            r == self@.matches(req@),
    {
        self.verb == req.verb && str_starts_with(req.path.as_str(), self.path.as_str())
    }
}

/// The routes in the order of their registration, and the handler of the
/// root path where one was set.
pub struct RouteTable<H> {
    pub root_handler: Option<H>,
    pub routes: Vec<(Route, H)>,
}

/// A route table as mathematical data.
pub struct RouteTableView<H> {
    pub root_handler: Option<H>,
    pub routes: Seq<(RouteView, H)>,
}

impl<H> View for RouteTable<H> {
    type V = RouteTableView<H>;

    open spec fn view(&self) -> RouteTableView<H> {
        RouteTableView {
            root_handler: self.root_handler,
            routes: Seq::new(self.routes@.len(), |i: int| (self.routes@[i].0@, self.routes@[i].1)),
        }
    }
}

/// The path that only the root handler serves.
pub open spec fn root_path() -> Seq<char> {
    "/"@
}

/// The predicate "this entry's route serves `req`".
pub open spec fn serving<H>(req: RequestView) -> spec_fn((RouteView, H)) -> bool {
    |entry: (RouteView, H)| entry.0.matches(req)
}

impl<H> RouteTableView<H> {
    /// The position of the first registered route that serves `req`, or the
    /// number of routes where none does.
    pub open spec fn first_match(self, req: RequestView) -> int {
        first_index(self.routes, serving::<H>(req), 0)
    }

    /// The handler for `req`. For the root path it is the root handler, if
    /// one was set, whatever the routes are. For any other path it is the
    /// handler of the first registered route that serves the request.
    pub open spec fn select(self, req: RequestView) -> Option<H> {
        if req.path == root_path() {
            self.root_handler
        } else if self.first_match(req) < self.routes.len() {
            Some(self.routes[self.first_match(req)].1)
        } else {
            None
        }
    }
}

impl<H> RouteTable<H> {
    /// A table without routes and without a root handler.
    pub fn new() -> (r: Self)
        ensures
            r@ == (RouteTableView::<H> { root_handler: None, routes: Seq::empty() }),
    {
        let r = Self { root_handler: None, routes: Vec::new() };
        assert(r@.routes =~= Seq::empty());
        r
    }

    /// Registers a route behind those already registered.
    pub fn register_route(&mut self, route: Route, handler: H)
        ensures
            final(self)@ == (RouteTableView {
                routes: old(self)@.routes.push((route@, handler)),
                ..old(self)@
            }),
    {
        self.routes.push((route, handler));
        assert(self@.routes =~= old(self)@.routes.push((route@, handler)));
    }

    /// Sets the handler of the root path, in place of an earlier one.
    pub fn set_root_handler(&mut self, handler: H)
        ensures
            final(self)@ == (RouteTableView { root_handler: Some(handler), ..old(self)@ }),
    {
        self.root_handler = Some(handler);
    }

    /// Chooses the handler for a request.
    pub fn find_handler(&self, req: &Request) -> (r: Option<&H>)
        ensures
            match r {
                Some(handler) => self@.select(req@) == Some(*handler),
                None => self@.select(req@) is None,
            },
    {
        if str_eq(req.path.as_str(), "/") {
            return self.root_handler.as_ref();
        }
        let mut i: usize = 0;
        while i < self.routes.len()
            invariant
                i <= self.routes.len(),
                req@.path != root_path(),
                forall|j: int| 0 <= j < i ==> !#[trigger] serving::<H>(req@)(self@.routes[j]),
            decreases self.routes.len() - i,
        {
            assert(self@.routes[i as int] == (self.routes@[i as int].0@, self.routes@[i as int].1));
            if self.routes[i].0.does_match(req) {
                proof {
                    lemma_first_index_unique(self@.routes, serving::<H>(req@), 0, i as int);
                }
                return Some(&self.routes[i].1);
            }
            i += 1;
        }
        proof {
            lemma_first_index_unique(self@.routes, serving::<H>(req@), 0, i as int);
        }
        None
    }
}

/// Registration order decides. Where a request for a path other than the
/// root is served by the route at `i` and by no route registered before it,
/// the handler at `i` is chosen, whatever is registered behind it.
pub proof fn lemma_first_registered_wins<H>(table: RouteTableView<H>, req: RequestView, i: int)
    requires
        req.path != root_path(),
        0 <= i < table.routes.len(),
        table.routes[i].0.matches(req),
        forall|k: int| 0 <= k < i ==> !table.routes[k].0.matches(req),
    ensures
        table.select(req) == Some(table.routes[i].1),
{
    lemma_first_index_unique(table.routes, serving::<H>(req), 0, i);
}

/// Of two routes that both serve a request, the later one is not the one
/// chosen: the chosen route stands at `i` or before it, and serves the
/// request.
pub proof fn lemma_later_route_loses<H>(table: RouteTableView<H>, req: RequestView, i: int, j: int)
    requires
        req.path != root_path(),
        0 <= i < j < table.routes.len(),
        table.routes[i].0.matches(req),
        table.routes[j].0.matches(req),
    ensures
        0 <= table.first_match(req) <= i,
        table.first_match(req) != j,
        table.routes[table.first_match(req)].0.matches(req),
        table.select(req) == Some(table.routes[table.first_match(req)].1),
{
    lemma_first_index_earliest(table.routes, serving::<H>(req), i);
}

/// A request for a path other than the root that no registered route serves
/// has no handler.
pub proof fn lemma_unserved_has_no_handler<H>(table: RouteTableView<H>, req: RequestView)
    requires
        req.path != root_path(),
        forall|k: int| 0 <= k < table.routes.len() ==> !table.routes[k].0.matches(req),
    ensures
        table.select(req) is None,
{
    lemma_first_index_unique(table.routes, serving::<H>(req), 0, table.routes.len() as int);
}

} // verus!
