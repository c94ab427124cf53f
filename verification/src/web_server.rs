//! The web server's fixed shape: its pages, its timeouts and its pool of
//! request handlers.

use vstd::prelude::*;
use crate::params::HTTP_PORT;

verus! {

/// Handlers that serve requests side by side.
pub const WEB_TASK_POOL_SIZE: usize = 4;

/// Bytes of a handler's buffer for what it receives.
pub const TCP_RX_BUFFER_LEN: usize = 1024;

/// Bytes of a handler's buffer for what it sends.
pub const TCP_TX_BUFFER_LEN: usize = 1024;

/// Bytes of a handler's buffer for one request.
pub const HTTP_BUFFER_LEN: usize = 2048;

/// What kind of content a page is served as.
#[derive(Clone, Copy, Debug, PartialEq, Eq, Structural)]
pub enum ContentKind {
    Html,
    Css,
    JavaScript,
}

/// A page of the device.
#[derive(Clone, Copy, Debug, PartialEq, Eq, Structural)]
pub enum Page {
    Index,
    Wifi,
    Thread,
    Stylesheet,
    Script,
}

/// One route: the path under which a page is served.
#[derive(Clone, Copy, Debug)]
pub struct Route {
    pub path: &'static str,
    pub page: Page,
}

/// The server's timeouts, in seconds. `None` waits without limit.
#[derive(Clone, Copy, Debug, PartialEq, Eq, Structural)]
pub struct Timeouts {
    pub start_read_request: Option<u64>,
    pub persistent_start_read_request: Option<u64>,
    pub read_request: Option<u64>,
    pub write: Option<u64>,
}

/// How the server treats its connections.
#[derive(Clone, Copy, Debug, PartialEq, Eq, Structural)]
pub struct ServerConfig {
    pub timeouts: Timeouts,
    pub keep_connection_alive: bool,
}

/// What one request handler is started with.
#[derive(Clone, Copy, Debug, PartialEq, Eq, Structural)]
pub struct WebTask {
    pub id: usize,
    pub port: u16,
    pub tcp_rx_buffer_len: usize,
    pub tcp_tx_buffer_len: usize,
    pub http_buffer_len: usize,
}

impl Page {
    /// The kind of content of the page.
    pub open spec fn kind_of(self) -> ContentKind {
        match self {
            Page::Index | Page::Wifi | Page::Thread => ContentKind::Html,
            Page::Stylesheet => ContentKind::Css,
            Page::Script => ContentKind::JavaScript,
        }
    }

    /// The kind of content that the page is served as.
    pub fn kind(self) -> (kind: ContentKind)
        ensures
            kind == self.kind_of(),
    {
        match self {
            Page::Index => ContentKind::Html,
            Page::Wifi => ContentKind::Html,
            Page::Thread => ContentKind::Html,
            Page::Stylesheet => ContentKind::Css,
            Page::Script => ContentKind::JavaScript,
        }
    }
}

/// The path of each page, in the order of the routes.
pub open spec fn route_paths() -> Seq<Seq<char>> {
    seq![
        "/"@,
        "/wifi"@,
        "/thread"@,
        "/_app/immutable/assets/bundle.e5VEuPPr.css"@,
        "/_app/immutable/bundle.Ds5NMssA.js"@,
    ]
}

/// The page of each route, in the order of the routes.
pub open spec fn route_pages() -> Seq<Page> {
    seq![Page::Index, Page::Wifi, Page::Thread, Page::Stylesheet, Page::Script]
}

/// The handler with the given number.
pub open spec fn web_task_of(id: usize) -> WebTask {
    WebTask {
        id,
        port: HTTP_PORT,
        tcp_rx_buffer_len: TCP_RX_BUFFER_LEN,
        tcp_tx_buffer_len: TCP_TX_BUFFER_LEN,
        http_buffer_len: HTTP_BUFFER_LEN,
    }
}

/// The server's configuration: five seconds to start reading a request, on
/// a fresh and on a kept connection; two seconds to read it, two to write
/// the answer; connections are kept alive.
pub open spec fn server_config_spec() -> ServerConfig {
    ServerConfig {
        timeouts: Timeouts {
            start_read_request: Some(5u64),
            persistent_start_read_request: Some(5u64),
            read_request: Some(2u64),
            write: Some(2u64),
        },
        keep_connection_alive: true,
    }
}

/// The web application of the device.
pub struct AppProps;

/// What the web server is started with.
pub struct WebServer {
    pub routes: Vec<Route>,
    pub config: ServerConfig,
    pub tasks: Vec<WebTask>,
}

/// The routes are those of the application, page by page.
pub open spec fn routes_match(routes: Seq<Route>) -> bool {
    &&& routes.len() == route_pages().len()
    &&& forall|i: int|
        0 <= i < routes.len() ==> (#[trigger] routes[i]).page == route_pages()[i]
            && routes[i].path@ == route_paths()[i]
}

/// The handlers are those of the pool, numbered from zero in order.
pub open spec fn tasks_match(tasks: Seq<WebTask>) -> bool {
    &&& tasks.len() == WEB_TASK_POOL_SIZE
    &&& forall|i: int| 0 <= i < tasks.len() ==> #[trigger] tasks[i] == web_task_of(i as usize)
}

/// The web server as it is started on a network stack: the application's
/// routes, the server's configuration and the pool of handlers that serve
/// side by side.
pub fn start_web_server() -> (server: WebServer)
    ensures
        routes_match(server.routes@),
        server.config == server_config_spec(),
        tasks_match(server.tasks@),
{
    let props = AppProps;
    let config = props.server_config();
    let tasks = props.web_tasks();
    let routes = props.build_app();
    WebServer { routes, config, tasks }
}

impl AppProps {
    /// The routes of the application, one for each page.
    pub fn build_app(self) -> (routes: Vec<Route>)
        ensures
            routes_match(routes@),
    {
        let mut routes: Vec<Route> = Vec::new();
        routes.push(Route { path: "/", page: Page::Index });
        routes.push(Route { path: "/wifi", page: Page::Wifi });
        routes.push(Route { path: "/thread", page: Page::Thread });
        routes.push(
            Route { path: "/_app/immutable/assets/bundle.e5VEuPPr.css", page: Page::Stylesheet },
        );
        routes.push(Route { path: "/_app/immutable/bundle.Ds5NMssA.js", page: Page::Script });
        routes
    }

    /// The server's configuration.
    pub fn server_config(&self) -> (config: ServerConfig)
        ensures
            config == server_config_spec(),
    {
        ServerConfig {
            timeouts: Timeouts {
                start_read_request: Some(5u64),
                persistent_start_read_request: Some(5u64),
                read_request: Some(2u64),
                write: Some(2u64),
            },
            keep_connection_alive: true,
        }
    }

    /// The pool of request handlers: as many as the pool is large, numbered
    /// from zero in order, all on the web server's port and with buffers of
    /// the fixed sizes.
    pub fn web_tasks(&self) -> (tasks: Vec<WebTask>)
        ensures
            tasks_match(tasks@),
    {
        let mut tasks: Vec<WebTask> = Vec::new();
        let mut id: usize = 0;
        while id < WEB_TASK_POOL_SIZE
            invariant
                id <= WEB_TASK_POOL_SIZE,
                tasks@.len() == id,
                forall|i: int| 0 <= i < tasks@.len() ==> #[trigger] tasks@[i] == web_task_of(i as usize),
            decreases WEB_TASK_POOL_SIZE - id,
        {
            tasks.push(
                WebTask {
                    id,
                    port: HTTP_PORT,
                    tcp_rx_buffer_len: TCP_RX_BUFFER_LEN,
                    tcp_tx_buffer_len: TCP_TX_BUFFER_LEN,
                    http_buffer_len: HTTP_BUFFER_LEN,
                },
            );
            id = id + 1;
        }
        tasks
    }
}

} // verus!
