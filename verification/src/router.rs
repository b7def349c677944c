//! The route table, dispatch against it, and the adapter that carries
//! one HTTP-shaped event through dispatch and back.
//!
//! The table is an ordered collection of routes, built once at process
//! start and never mutated afterwards. Dispatch matches the request
//! path exactly against the routes in order; the first match wins, and
//! a request with no matching route fails the whole invocation — there
//! is no fallback response.

use crate::body::{to_external, to_internal, Body, BodyView};
use crate::error::InvocationError;
use vstd::prelude::*;
use vstd::string::*;
use vstd::utf8::*;

verus! {

/// One registered route: an exact path, the status it answers with,
/// and the text its handler returns.
pub struct Route {
    pub path: String,
    pub status: u16,
    pub body: String,
}

/// The mathematical shape of a [`Route`].
pub struct RouteView {
    pub path: Seq<char>,
    pub status: u16,
    pub body: Seq<char>,
}

impl View for Route {
    type V = RouteView;

    open spec fn view(&self) -> RouteView {
        RouteView { path: self.path@, status: self.status, body: self.body@ }
    }
}

/// An internal request: the event's URI path and its body as internal
/// bytes.
pub struct InternalRequest {
    pub path: String,
    pub body: Vec<u8>,
}

/// An internal response: a status and a body as internal bytes.
#[derive(Debug)]
pub struct InternalResponse {
    pub status: u16,
    pub body: Vec<u8>,
}

/// The first route whose path equals the request path, if any.
pub open spec fn spec_first_match(routes: Seq<RouteView>, path: Seq<char>) -> Option<RouteView>
    decreases routes.len(),
{
    if routes.len() == 0 {
        Option::None
    } else if routes[0].path == path {
        Option::Some(routes[0])
    } else {
        spec_first_match(routes.drop_first(), path)
    }
}

/// An ordered, immutable table of routes.
pub struct RouteTable {
    routes: Vec<Route>,
}

impl View for RouteTable {
    type V = Seq<RouteView>;

    closed spec fn view(&self) -> Seq<RouteView> {
        self.routes@.map_values(|r: Route| r@)
    }
}

impl RouteTable {
    /// An empty table.
    pub fn new() -> (r: RouteTable)
        ensures
            r@.len() == 0,
    {
        RouteTable { routes: Vec::new() }
    }

    /// The table with one more route appended, answering `path` with
    /// `status` and `body`.
    pub fn route(self, path: String, status: u16, body: String) -> (r: RouteTable)
        ensures
            r@ == self@.push(RouteView { path: path@, status: status, body: body@ }),
    {
        let ghost old_table = self@;
        let mut routes = self.routes;
        routes.push(Route { path, status, body });
        let r = RouteTable { routes };
        proof {
            assert(r@ =~= old_table.push(r@[r@.len() - 1]));
        }
        r
    }

    /// Dispatches a request against the table: the first route whose
    /// path equals the request path exactly answers with its status and
    /// the UTF-8 bytes of its text; with no matching route the whole
    /// invocation fails with a dispatch error, never a fallback.
    pub fn dispatch(&self, request: &InternalRequest) -> (r: Result<
        InternalResponse,
        InvocationError,
    >)
        ensures
            r is Ok <==> spec_first_match(self@, request.path@) is Some,
            spec_first_match(self@, request.path@) matches Some(rv) ==> (r matches Ok(resp)
                && resp.status == rv.status && resp.body@ == encode_utf8(rv.body)),
            r matches Err(e) ==> e == InvocationError::Dispatch,
    {
        let n = self.routes.len();
        let mut i: usize = 0;
        proof {
            assert(self@.skip(0) =~= self@);
        }
        while i < n
            invariant
                i <= n,
                n == self.routes.len(),
                spec_first_match(self@, request.path@) == spec_first_match(
                    self@.skip(i as int),
                    request.path@,
                ),
            decreases n - i,
        {
            if self.routes[i].path == request.path {
                let resp = InternalResponse {
                    status: self.routes[i].status,
                    body: self.routes[i].body.as_str().as_bytes_vec(),
                };
                proof {
                    assert(self@.skip(i as int)[0] == self@[i as int]);
                }
                return Ok(resp);
            }
            proof {
                assert(self@.skip(i as int).drop_first() =~= self@.skip(i as int + 1));
                assert(self@.skip(i as int)[0] == self@[i as int]);
            }
            i = i + 1;
        }
        proof {
            assert(self@.skip(n as int).len() == 0);
        }
        Err(InvocationError::Dispatch)
    }
}

/// An inbound HTTP-shaped event: a URI path, headers, and a body.
pub struct InboundEvent {
    pub path: String,
    pub headers: Vec<(String, String)>,
    pub body: Body,
}

/// The outbound response to one invocation: a status, a header
/// mapping with unique keys, and a body.
#[derive(Debug)]
pub struct OutboundResponse {
    pub status: u16,
    pub headers: Vec<(String, String)>,
    pub body: Body,
}

impl OutboundResponse {
    /// Well-formedness: the header mapping has unique keys.
    pub open spec fn wf(&self) -> bool {
        forall|i: int, j: int|
            0 <= i < j < self.headers@.len() ==> self.headers@[i].0@ != self.headers@[j].0@
    }
}

/// The adapter around dispatch: it builds an internal request from the
/// event's path and internally-converted body, dispatches it against
/// the table, and converts the internal response outward. The outbound
/// header `Content-Type: application/json` is set unconditionally — a
/// fixed policy, not content negotiation. A dispatch failure fails the
/// whole invocation with no partial response.
pub fn function_handler(table: &RouteTable, event: &InboundEvent) -> (r: Result<
    OutboundResponse,
    InvocationError,
>)
    ensures
        r is Ok <==> spec_first_match(table@, event.path@) is Some,
        spec_first_match(table@, event.path@) matches Some(rv) ==> (r matches Ok(resp) && {
            &&& resp.status == rv.status
            &&& resp.body@ == (if rv.body.len() == 0 {
                BodyView::Empty
            } else {
                BodyView::Text(rv.body)
            })
            &&& resp.headers@.len() == 1
            &&& resp.headers@[0].0@ == "Content-Type"@
            &&& resp.headers@[0].1@ == "application/json"@
            &&& resp.wf()
        }),
        r matches Err(e) ==> e == InvocationError::Dispatch,
{
    let internal_body = to_internal(&event.body);
    let request = InternalRequest { path: event.path.clone(), body: internal_body };
    match table.dispatch(&request) {
        Ok(iresp) => {
            proof {
                let rv = spec_first_match(table@, event.path@)->Some_0;
                vstd::utf8::encode_utf8_valid_utf8(rv.body);
                vstd::utf8::encode_utf8_decode_utf8(rv.body);
                crate::body::lemma_encode_utf8_len(rv.body);
            }
            let out_body = to_external(iresp.body);
            let mut headers: Vec<(String, String)> = Vec::new();
            headers.push(("Content-Type".to_owned(), "application/json".to_owned()));
            Ok(OutboundResponse { status: iresp.status, headers, body: out_body })
        },
        Err(e) => Err(e),
    }
}

/// The one registered handler: it ignores its input and returns the
/// fixed greeting text.
pub fn get_books() -> (r: &'static str)
    ensures
        r@ == "Hello, World!"@,
{
    "Hello, World!"
}

/// The process's route table: a single route, "/books", answered with
/// status 200 and the greeting from [`get_books`].
pub fn books_route_table() -> (r: RouteTable)
    ensures
        r@.len() == 1,
        r@[0].path == "/books"@,
        r@[0].status == 200,
        r@[0].body == "Hello, World!"@,
{
    let body: String = get_books().to_owned();
    RouteTable::new().route("/books".to_owned(), 200, body)
}

} // verus!
