//! The command registry: which handler answers which path, and the state
//! that every handler shares.

use vstd::prelude::*;

use crate::dispatch::{Reply, Status};

verus! {

struct Route<H> {
    path: String,
    handler: H,
}

/// A server: the shared state, given once when the server is made, and the
/// handlers bound to paths. No path is bound twice: binding a path again
/// replaces its handler.
pub struct Server<S, H> {
    state: S,
    routes: Vec<Route<H>>,
}

spec fn bound_at<H>(routes: Seq<Route<H>>, path: Seq<char>, i: int) -> bool {
    0 <= i < routes.len() && routes[i].path@ == path
}

spec fn distinct<H>(routes: Seq<Route<H>>) -> bool {
    forall|i: int, j: int|
        0 <= i < j < routes.len() ==> #[trigger] routes[i].path@ != #[trigger] routes[j].path@
}

spec fn bindings<H>(routes: Seq<Route<H>>) -> Map<Seq<char>, H> {
    Map::new(
        |path: Seq<char>| exists|i: int| bound_at(routes, path, i),
        |path: Seq<char>| routes[choose|i: int| bound_at(routes, path, i)].handler,
    )
}

proof fn lemma_bound_once<H>(routes: Seq<Route<H>>, path: Seq<char>, i: int)
    requires
        distinct(routes),
        bound_at(routes, path, i),
    ensures
        bindings(routes).dom().contains(path),
        bindings(routes)[path] == routes[i].handler,
{
    let chosen = choose|k: int| bound_at(routes, path, k);
    assert(chosen == i);
}

proof fn lemma_unbound<H>(routes: Seq<Route<H>>, path: Seq<char>)
    requires
        forall|i: int| !bound_at(routes, path, i),
    ensures
        !bindings(routes).dom().contains(path),
{
}

proof fn lemma_remove<H>(routes: Seq<Route<H>>, path: Seq<char>, i: int)
    requires
        distinct(routes),
        bound_at(routes, path, i),
    ensures
        distinct(routes.remove(i)),
        forall|k: int| !bound_at(routes.remove(i), path, k),
        bindings(routes.remove(i)) == bindings(routes).remove(path),
{
    let rest = routes.remove(i);
    assert forall|k: int| 0 <= k < rest.len() implies rest[k] == routes[if k < i {
        k
    } else {
        k + 1
    }] by {}
    assert forall|other: Seq<char>| #[trigger]
        bindings(rest).dom().contains(other) == bindings(routes).remove(path).dom().contains(
            other,
        ) by {
        if bindings(rest).dom().contains(other) {
            let k = choose|k: int| bound_at(rest, other, k);
            let back = if k < i {
                k
            } else {
                k + 1
            };
            assert(bound_at(routes, other, back));
        }
        if bindings(routes).remove(path).dom().contains(other) {
            let k = choose|k: int| bound_at(routes, other, k);
            let forth = if k < i {
                k
            } else {
                k - 1
            };
            assert(bound_at(rest, other, forth));
        }
    }
    assert forall|other: Seq<char>| #[trigger]
        bindings(rest).dom().contains(other) implies bindings(rest)[other] == bindings(
        routes,
    ).remove(path)[other] by {
        let k = choose|k: int| bound_at(rest, other, k);
        let back = if k < i {
            k
        } else {
            k + 1
        };
        lemma_bound_once(routes, other, back);
    }
    assert(bindings(rest) =~= bindings(routes).remove(path));
}

proof fn lemma_push<H>(routes: Seq<Route<H>>, route: Route<H>)
    requires
        distinct(routes),
        forall|i: int| !bound_at(routes, route.path@, i),
    ensures
        distinct(routes.push(route)),
        bindings(routes.push(route)) == bindings(routes).insert(route.path@, route.handler),
{
    let more = routes.push(route);
    let last = routes.len() as int;
    assert forall|i: int, j: int| 0 <= i < j < more.len() implies #[trigger] more[i].path@
        != #[trigger] more[j].path@ by {
        if j == last {
            assert(!bound_at(routes, route.path@, i));
        }
    }
    assert forall|other: Seq<char>| #[trigger]
        bindings(more).dom().contains(other) == bindings(routes).insert(
            route.path@,
            route.handler,
        ).dom().contains(other) by {
        if bindings(more).dom().contains(other) {
            let k = choose|k: int| bound_at(more, other, k);
            if k < last {
                assert(bound_at(routes, other, k));
            }
        }
        if bindings(routes).dom().contains(other) {
            let k = choose|k: int| bound_at(routes, other, k);
            assert(bound_at(more, other, k));
        }
        if other == route.path@ {
            assert(bound_at(more, other, last));
        }
    }
    assert forall|other: Seq<char>| #[trigger]
        bindings(more).dom().contains(other) implies bindings(more)[other] == bindings(
        routes,
    ).insert(route.path@, route.handler)[other] by {
        let k = choose|k: int| bound_at(more, other, k);
        lemma_bound_once(more, other, k);
        if k < last {
            assert(bound_at(routes, other, k));
            lemma_bound_once(routes, other, k);
        }
    }
    assert(bindings(more) =~= bindings(routes).insert(route.path@, route.handler));
}

impl<S, H> Server<S, H> {
    #[verifier::type_invariant]
    spec fn well_formed(&self) -> bool {
        distinct(self.routes@)
    }

    /// The state that every handler is given.
    pub closed spec fn shared(&self) -> S {
        self.state
    }

    /// The handler bound to each path.
    pub closed spec fn routes(&self) -> Map<Seq<char>, H> {
        bindings(self.routes@)
    }

    /// Makes a server around `state`, with no path bound.
    pub fn with_state(state: S) -> (server: Self)
        ensures
            server.shared() == state,
            server.routes() == Map::<Seq<char>, H>::empty(),
    {
        let server = Server { state, routes: Vec::new() };
        assert(server.routes() =~= Map::<Seq<char>, H>::empty());
        server
    }

    /// The shared state.
    pub fn state(&self) -> (r: &S)
        ensures
            *r == self.shared(),
    {
        &self.state
    }

    fn position(&self, path: &str) -> (r: Option<usize>)
        ensures
            match r {
                Some(i) => bound_at(self.routes@, path@, i as int),
                None => forall|i: int| !bound_at(self.routes@, path@, i),
            },
    {
        let wanted: String = path.to_owned();
        let mut i: usize = 0;
        while i < self.routes.len()
            invariant
                i <= self.routes.len(),
                wanted@ == path@,
                forall|k: int| 0 <= k < i ==> !bound_at(self.routes@, path@, k),
            decreases self.routes.len() - i,
        {
            if self.routes[i].path == wanted {
                return Some(i);
            }
            i += 1;
        }
        None
    }
}

impl<S, H> Server<S, H> {
    /// Binds `path` to `handler`. A handler that was bound to the path before
    /// is replaced and handed back.
    pub fn register(&mut self, path: &str, handler: H) -> (previous: Option<H>)
        ensures
            final(self).shared() == old(self).shared(),
            final(self).routes() == old(self).routes().insert(path@, handler),
            previous == if old(self).routes().dom().contains(path@) {
                Some(old(self).routes()[path@])
            } else {
                None
            },
    {
        proof {
            use_type_invariant(&*self);
        }
        let found = self.position(path);
        let mut routes: Vec<Route<H>> = Vec::new();
        core::mem::swap(&mut self.routes, &mut routes);
        let previous = match found {
            Some(i) => {
                proof {
                    lemma_bound_once(routes@, path@, i as int);
                    lemma_remove(routes@, path@, i as int);
                }
                let route = routes.remove(i);
                Some(route.handler)
            },
            None => {
                proof {
                    lemma_unbound(routes@, path@);
                }
                None
            },
        };
        let route = Route { path: path.to_owned(), handler };
        proof {
            lemma_push(routes@, route);
            assert(old(self).routes().remove(path@).insert(path@, handler) =~= old(
                self,
            ).routes().insert(path@, handler));
        }
        routes.push(route);
        core::mem::swap(&mut self.routes, &mut routes);
        previous
    }

    /// The handler bound to `path`, if there is one.
    pub fn route(&self, path: &str) -> (r: Option<&H>)
        ensures
            match r {
                Some(handler) => self.routes().dom().contains(path@) && *handler
                    == self.routes()[path@],
                None => !self.routes().dom().contains(path@),
            },
    {
        proof {
            use_type_invariant(self);
        }
        match self.position(path) {
            Some(i) => {
                proof {
                    lemma_bound_once(self.routes@, path@, i as int);
                }
                Some(&self.routes[i].handler)
            },
            None => {
                proof {
                    lemma_unbound(self.routes@, path@);
                }
                None
            },
        }
    }
}

impl<S, H: Fn(&S, &[u8]) -> Reply> Server<S, H> {
    /// Whether `reply` answers a request for `path` with `body`: it is what
    /// the handler bound to the path returns for the shared state and the
    /// body, or `NotFound` without a body where no handler is bound to it.
    pub open spec fn handled(&self, path: Seq<char>, body: &[u8], reply: Reply) -> bool {
        if self.routes().dom().contains(path) {
            self.routes()[path].ensures((&self.shared(), body), reply)
        } else {
            reply.is_bare(Status::NotFound)
        }
    }

    /// Answers one request. Neither the bindings nor the shared state change,
    /// so that every request is answered as if it were the only one.
    pub fn handle(&self, path: &str, body: &[u8]) -> (reply: Reply)
        requires
            self.routes().dom().contains(path@) ==> self.routes()[path@].requires(
                (&self.shared(), body),
            ),
        ensures
            self.handled(path@, body, reply),
    {
        match self.route(path) {
            Some(handler) => handler(&self.state, body),
            None => Reply::bare(Status::NotFound),
        }
    }
}

} // verus!
