use todo_api::route::{config, Endpoint, Method, Route, Scope, ServiceConfig};

fn route(method: Method, path: &str, endpoint: Endpoint) -> Route {
    Route { method, path: path.to_string(), endpoint }
}

fn api() -> Scope {
    Scope {
        prefix: "/api".to_string(),
        routes: vec![
            route(Method::Get, "/book", Endpoint::Info),
            route(Method::Get, "/todos", Endpoint::ListTodos),
            route(Method::Post, "/todos", Endpoint::CreateTodo),
            route(Method::Delete, "/todos/{id}", Endpoint::DeleteTodo),
        ],
    }
}

#[test]
fn config_registers_the_four_routes_under_api() {
    let mut conf = ServiceConfig::new();
    assert!(conf.scopes.is_empty());
    config(&mut conf);
    assert_eq!(conf.scopes, vec![api()]);
}

#[test]
fn config_appends_to_what_is_registered() {
    let other = Scope { prefix: "/health".to_string(), routes: vec![] };
    let mut conf = ServiceConfig { scopes: vec![Scope { prefix: "/health".to_string(), routes: vec![] }] };
    config(&mut conf);
    assert_eq!(conf.scopes, vec![other, api()]);
}
