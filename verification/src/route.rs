//! The routing table: which method and path reaches which handler.

use vstd::prelude::*;

verus! {

/// The HTTP methods that the service answers.
#[derive(Clone, Copy, Debug, PartialEq, Eq, Structural)]
pub enum Method {
    Get,
    Post,
    Delete,
}

/// The handlers that a route can lead to.
#[derive(Clone, Copy, Debug, PartialEq, Eq, Structural)]
pub enum Endpoint {
    /// `book_handler`
    Info,
    /// `todos_list_handler`
    ListTodos,
    /// `create_todo_handler`
    CreateTodo,
    /// `delete_todo_handler`
    DeleteTodo,
}

/// One route: a method and a path pattern below the scope's prefix, and the
/// handler they lead to. `{id}` in a pattern stands for one path segment.
#[derive(Debug, PartialEq, Eq)]
pub struct Route {
    pub method: Method,
    pub path: String,
    pub endpoint: Endpoint,
}

/// Routes that share a path prefix.
#[derive(Debug, PartialEq, Eq)]
pub struct Scope {
    pub prefix: String,
    pub routes: Vec<Route>,
}

/// The services registered so far, in the order of registration.
#[derive(Debug, PartialEq, Eq)]
pub struct ServiceConfig {
    pub scopes: Vec<Scope>,
}

/// What a `Route` holds.
pub struct RouteView {
    pub method: Method,
    pub path: Seq<char>,
    pub endpoint: Endpoint,
}

/// What a `Scope` holds.
pub struct ScopeView {
    pub prefix: Seq<char>,
    pub routes: Seq<RouteView>,
}

impl View for Route {
    type V = RouteView;

    open spec fn view(&self) -> RouteView {
        RouteView { method: self.method, path: self.path@, endpoint: self.endpoint }
    }
}

impl View for Scope {
    type V = ScopeView;

    open spec fn view(&self) -> ScopeView {
        ScopeView { prefix: self.prefix@, routes: self.routes@.map_values(|r: Route| r@) }
    }
}

impl View for ServiceConfig {
    type V = Seq<ScopeView>;

    open spec fn view(&self) -> Seq<ScopeView> {
        self.scopes@.map_values(|s: Scope| s@)
    }
}

/// The service's scope: four routes under `/api`.
pub open spec fn api_scope() -> ScopeView {
    ScopeView {
        prefix: "/api"@,
        routes: seq![
            RouteView { method: Method::Get, path: "/book"@, endpoint: Endpoint::Info },
            RouteView { method: Method::Get, path: "/todos"@, endpoint: Endpoint::ListTodos },
            RouteView { method: Method::Post, path: "/todos"@, endpoint: Endpoint::CreateTodo },
            RouteView {
                method: Method::Delete,
                path: "/todos/{id}"@,
                endpoint: Endpoint::DeleteTodo,
            },
        ],
    }
}

impl ServiceConfig {
    /// A configuration with nothing registered.
    pub fn new() -> (c: ServiceConfig)
        ensures
            c@ == Seq::<ScopeView>::empty(),
    {
        ServiceConfig { scopes: Vec::new() }
    }
}

/// Registers the service's scope after what `conf` already holds.
pub fn config(conf: &mut ServiceConfig)
    ensures
        final(conf)@ == old(conf)@.push(api_scope()),
{
    let mut routes: Vec<Route> = Vec::new();
    routes.push(Route { method: Method::Get, path: "/book".to_owned(), endpoint: Endpoint::Info });
    routes.push(
        Route { method: Method::Get, path: "/todos".to_owned(), endpoint: Endpoint::ListTodos },
    );
    routes.push(
        Route { method: Method::Post, path: "/todos".to_owned(), endpoint: Endpoint::CreateTodo },
    );
    routes.push(
        Route {
            method: Method::Delete,
            path: "/todos/{id}".to_owned(),
            endpoint: Endpoint::DeleteTodo,
        },
    );
    let scope = Scope { prefix: "/api".to_owned(), routes };
    assert(scope@.routes == api_scope().routes);
    assert(conf.scopes@.push(scope).map_values(|s: Scope| s@) == conf@.push(api_scope()));
    conf.scopes.push(scope);
}

} // verus!
