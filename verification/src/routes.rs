//! The server's routes: the table that binds each path to its handler, the
//! state that the handlers share, and what a `GET` request to a path is
//! answered with.

pub mod data_sharing;
pub mod return_json_data;

use crate::json::{json_object_text, JsonValueView, MemberView};
use crate::lookup::{first_index, lemma_first_index_absent, lemma_first_index_found};
use crate::routes::data_sharing::access_shared_data;
use crate::routes::return_json_data::{fixed_record, record_members, return_json_data};
use vstd::prelude::*;

verus! {

/// State that is made once, when the routes are built, and that every
/// request handler may read. Nothing writes to it afterwards.
#[derive(Clone, Debug, PartialEq, Eq)]
pub struct SharedData {
    pub data_one: String,
}

impl View for SharedData {
    type V = Seq<char>;

    open spec fn view(&self) -> Seq<char> {
        self.data_one@
    }
}

/// What answers a request.
#[derive(Clone, Copy, Debug, PartialEq, Eq, Structural)]
pub enum Handler {
    /// Answers with the shared string.
    AccessSharedData,
    /// Answers with the fixed record as a JSON object.
    ReturnJsonData,
    /// Answers with a hint at how to use the server.
    UsageHint,
}

/// The binding of one path to its handler, for `GET` requests.
#[derive(Clone, Debug, PartialEq, Eq)]
pub struct Route {
    pub path: String,
    pub handler: Handler,
}

/// The routes of the server together with the state that they share.
#[derive(Clone, Debug, PartialEq, Eq)]
pub struct RouteTable {
    pub shared_data: SharedData,
    pub routes: Vec<Route>,
}

/// The media type of a response body.
#[derive(Clone, Copy, Debug, PartialEq, Eq, Structural)]
pub enum ContentType {
    /// `text/plain`
    TextPlain,
    /// `application/json`
    ApplicationJson,
}

/// The answer to a request.
#[derive(Clone, Debug, PartialEq, Eq)]
pub struct Response {
    pub status: u16,
    pub content_type: ContentType,
    pub body: String,
}

/// Mathematical model of a [`Route`].
pub struct RouteView {
    pub path: Seq<char>,
    pub handler: Handler,
}

/// Mathematical model of a [`RouteTable`].
pub struct RouteTableView {
    pub shared_data: Seq<char>,
    pub routes: Seq<RouteView>,
}

/// Mathematical model of a [`Response`].
pub struct ResponseView {
    pub status: u16,
    pub content_type: ContentType,
    pub body: Seq<char>,
}

impl DeepView for Route {
    type V = RouteView;

    open spec fn deep_view(&self) -> RouteView {
        RouteView { path: self.path@, handler: self.handler }
    }
}

impl DeepView for RouteTable {
    type V = RouteTableView;

    open spec fn deep_view(&self) -> RouteTableView {
        RouteTableView { shared_data: self.shared_data@, routes: self.routes.deep_view() }
    }
}

impl DeepView for Response {
    type V = ResponseView;

    open spec fn deep_view(&self) -> ResponseView {
        ResponseView { status: self.status, content_type: self.content_type, body: self.body@ }
    }
}

/// The shared string that the server starts with.
pub open spec fn initial_shared_data() -> Seq<char> {
    "I am shared data one (1)"@
}

/// The text that the root path answers with.
pub open spec fn usage_hint_text() -> Seq<char> {
    "You're using axum. Try this endpoint: '/return-json-data'"@
}

/// The three routes of the server, in the order in which they are bound.
pub open spec fn server_routes() -> Seq<RouteView> {
    seq![
        RouteView { path: "/access_shared_data"@, handler: Handler::AccessSharedData },
        RouteView { path: "/return-json-data"@, handler: Handler::ReturnJsonData },
        RouteView { path: "/"@, handler: Handler::UsageHint },
    ]
}

/// A successful answer in plain text.
pub open spec fn plain_text(body: Seq<char>) -> ResponseView {
    ResponseView { status: 200, content_type: ContentType::TextPlain, body }
}

/// What a handler answers with, given the shared string. Only
/// [`Handler::AccessSharedData`] depends on it.
pub open spec fn handler_response(handler: Handler, shared_data: Seq<char>) -> ResponseView {
    match handler {
        Handler::AccessSharedData => plain_text(shared_data),
        Handler::ReturnJsonData => ResponseView {
            status: 200,
            content_type: ContentType::ApplicationJson,
            body: json_object_text(record_members(fixed_record())),
        },
        Handler::UsageHint => plain_text(usage_hint_text()),
    }
}

/// The paths of `routes`, in their order.
pub open spec fn route_paths(routes: Seq<RouteView>) -> Seq<Seq<char>> {
    routes.map_values(|route: RouteView| route.path)
}

/// The handler that the first route with the path `path` binds, if a route
/// has that path. The match is exact, character by character.
pub open spec fn bound_handler(routes: Seq<RouteView>, path: Seq<char>) -> Option<Handler> {
    match first_index(route_paths(routes), path) {
        Some(index) => Some(routes[index].handler),
        None => None,
    }
}

/// The answer of the table to a `GET` request for `path`; `None` where no
/// route has that path.
pub open spec fn table_response(table: RouteTableView, path: Seq<char>) -> Option<ResponseView> {
    match bound_handler(table.routes, path) {
        Some(handler) => Some(handler_response(handler, table.shared_data)),
        None => None,
    }
}

/// Gives the hint that the root path answers with.
pub fn usage_hint() -> (body: String)
    ensures
        body@ == usage_hint_text(),
{
    "You're using axum. Try this endpoint: '/return-json-data'".to_owned()
}

impl Handler {
    /// Runs the handler on the shared state and gives its answer.
    pub fn respond(self, shared_data: &SharedData) -> (response: Response)
        ensures
            response.deep_view() == handler_response(self, shared_data@),
    {
        match self {
            Handler::AccessSharedData => Response {
                status: 200,
                content_type: ContentType::TextPlain,
                body: access_shared_data(shared_data),
            },
            Handler::ReturnJsonData => Response {
                status: 200,
                content_type: ContentType::ApplicationJson,
                body: return_json_data().to_json(),
            },
            Handler::UsageHint => Response {
                status: 200,
                content_type: ContentType::TextPlain,
                body: usage_hint(),
            },
        }
    }
}

impl RouteTable {
    /// Finds the handler that is bound to `path`.
    pub fn handler_for(&self, path: &str) -> (handler: Option<Handler>)
        ensures
            handler == bound_handler(self.deep_view().routes, path@),
    {
        let wanted = path.to_owned();
        let ghost paths = route_paths(self.routes.deep_view());
        let mut i: usize = 0;
        while i < self.routes.len()
            invariant
                i <= self.routes.len(),
                paths == route_paths(self.routes.deep_view()),
                wanted@ == path@,
                forall|j: int| 0 <= j < i ==> #[trigger] paths[j] != path@,
            decreases self.routes.len() - i,
        {
            assert(paths[i as int] == self.routes[i as int].path@);
            if self.routes[i].path == wanted {
                proof {
                    lemma_first_index_found(paths, path@, i as int);
                }
                return Some(self.routes[i].handler);
            }
            i += 1;
        }
        proof {
            lemma_first_index_absent(paths, path@);
        }
        None
    }

    /// Answers a `GET` request for `path`: the answer of the handler that is
    /// bound to the path, or `None` where no route has it. The table is only
    /// read, so the same request gets the same answer every time.
    pub fn respond(&self, path: &str) -> (response: Option<Response>)
        ensures
            response.deep_view() == table_response(self.deep_view(), path@),
    {
        match self.handler_for(path) {
            Some(handler) => Some(handler.respond(&self.shared_data)),
            None => None,
        }
    }
}

/// Builds the server's routes: the shared state with its initial string, and
/// the three paths with their handlers.
pub fn build_routes() -> (table: RouteTable)
    ensures
        table.deep_view() == server_table(initial_shared_data()),
{
    let shared_data = SharedData { data_one: "I am shared data one (1)".to_owned() };
    let mut routes: Vec<Route> = Vec::new();
    routes.push(
        Route { path: "/access_shared_data".to_owned(), handler: Handler::AccessSharedData },
    );
    routes.push(Route { path: "/return-json-data".to_owned(), handler: Handler::ReturnJsonData });
    routes.push(Route { path: "/".to_owned(), handler: Handler::UsageHint });
    assert(routes.deep_view() =~= server_routes());
    RouteTable { shared_data, routes }
}

/// The table that [`build_routes`] gives, with `shared_data` as its shared
/// string.
pub open spec fn server_table(shared_data: Seq<char>) -> RouteTableView {
    RouteTableView { shared_data, routes: server_routes() }
}

/// The paths of the server's routes are pairwise distinct.
pub proof fn lemma_server_paths_distinct()
    ensures
        "/access_shared_data"@ != "/return-json-data"@,
        "/access_shared_data"@ != "/"@,
        "/return-json-data"@ != "/"@,
{
    reveal_strlit("/access_shared_data");
    reveal_strlit("/return-json-data");
    reveal_strlit("/");
    assert("/access_shared_data"@.len() != "/return-json-data"@.len());
    assert("/access_shared_data"@.len() != "/"@.len());
    assert("/return-json-data"@.len() != "/"@.len());
}

/// Every request for `/access_shared_data` is answered, in plain text, with
/// the shared string as it stands: in the table that [`build_routes`] gives,
/// with `I am shared data one (1)`.
pub proof fn lemma_access_shared_data_route(shared_data: Seq<char>)
    ensures
        table_response(server_table(shared_data), "/access_shared_data"@) == Some(
            plain_text(shared_data),
        ),
        table_response(server_table(initial_shared_data()), "/access_shared_data"@) == Some(
            plain_text("I am shared data one (1)"@),
        ),
{
    lemma_first_index_found(route_paths(server_routes()), "/access_shared_data"@, 0);
}

/// Every request for `/return-json-data` is answered with the text of a JSON
/// object that has exactly the members `field_one`, `field_two` and
/// `field_three`, holding the string `Field One`, the integer `1` and the
/// string `Field Three`, whatever the shared string is.
pub proof fn lemma_return_json_data_route(shared_data: Seq<char>)
    ensures
        table_response(server_table(shared_data), "/return-json-data"@) == Some(
            ResponseView {
                status: 200,
                content_type: ContentType::ApplicationJson,
                body: json_object_text(
                    seq![
                        MemberView { key: "field_one"@, value: JsonValueView::Text("Field One"@) },
                        MemberView { key: "field_two"@, value: JsonValueView::Integer(1) },
                        MemberView {
                            key: "field_three"@,
                            value: JsonValueView::Text("Field Three"@),
                        },
                    ],
                ),
            },
        ),
{
    lemma_server_paths_distinct();
    lemma_first_index_found(route_paths(server_routes()), "/return-json-data"@, 1);
}

/// Every request for the root path is answered, in plain text, with the usage
/// hint, whatever the shared string is.
pub proof fn lemma_root_route(shared_data: Seq<char>)
    ensures
        table_response(server_table(shared_data), "/"@) == Some(plain_text(usage_hint_text())),
{
    lemma_server_paths_distinct();
    lemma_first_index_found(route_paths(server_routes()), "/"@, 2);
}

/// A request for any other path is not answered by the table.
pub proof fn lemma_other_path(shared_data: Seq<char>, path: Seq<char>)
    requires
        path != "/access_shared_data"@,
        path != "/return-json-data"@,
        path != "/"@,
    ensures
        table_response(server_table(shared_data), path) is None,
{
    lemma_first_index_absent(route_paths(server_routes()), path);
}

} // verus!
