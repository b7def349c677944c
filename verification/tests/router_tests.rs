use lambda_handlers::body::Body;
use lambda_handlers::error::InvocationError;
use lambda_handlers::router::{
    books_route_table, function_handler, get_books, InboundEvent, InternalRequest, RouteTable,
};

fn get_event(path: &str) -> InboundEvent {
    InboundEvent { path: String::from(path), headers: Vec::new(), body: Body::Empty }
}

#[test]
fn get_books_returns_greeting() {
    assert_eq!(get_books(), "Hello, World!");
}

#[test]
fn books_route_answers_200_hello_world_json() {
    let table = books_route_table();
    let response = function_handler(&table, &get_event("/books")).unwrap();
    assert_eq!(response.status, 200);
    assert_eq!(response.body, Body::Text(String::from("Hello, World!")));
    assert_eq!(response.headers.len(), 1);
    assert_eq!(response.headers[0].0, "Content-Type");
    assert_eq!(response.headers[0].1, "application/json");
}

#[test]
fn unregistered_path_is_a_dispatch_error() {
    let table = books_route_table();
    let result = function_handler(&table, &get_event("/authors"));
    assert_eq!(result.unwrap_err(), InvocationError::Dispatch);
}

#[test]
fn empty_table_rejects_every_path() {
    let table = RouteTable::new();
    let result = function_handler(&table, &get_event("/books"));
    assert_eq!(result.unwrap_err(), InvocationError::Dispatch);
}

#[test]
fn request_body_does_not_affect_dispatch() {
    let table = books_route_table();
    let event = InboundEvent {
        path: String::from("/books"),
        headers: Vec::new(),
        body: Body::Binary(vec![0xff, 0x00]),
    };
    let response = function_handler(&table, &event).unwrap();
    assert_eq!(response.status, 200);
    assert_eq!(response.body, Body::Text(String::from("Hello, World!")));
}

#[test]
fn dispatch_returns_first_matching_route() {
    let table = RouteTable::new()
        .route(String::from("/same"), 200, String::from("first"))
        .route(String::from("/same"), 404, String::from("second"));
    let request = InternalRequest { path: String::from("/same"), body: Vec::new() };
    let response = table.dispatch(&request).unwrap();
    assert_eq!(response.status, 200);
    assert_eq!(response.body, b"first".to_vec());
}

#[test]
fn dispatch_yields_utf8_bytes_of_route_body() {
    let table = books_route_table();
    let request = InternalRequest { path: String::from("/books"), body: Vec::new() };
    let response = table.dispatch(&request).unwrap();
    assert_eq!(response.status, 200);
    assert_eq!(response.body, b"Hello, World!".to_vec());
}

#[test]
fn route_with_empty_body_answers_absent() {
    let table = RouteTable::new().route(String::from("/nothing"), 204, String::new());
    let response = function_handler(&table, &get_event("/nothing")).unwrap();
    assert_eq!(response.status, 204);
    assert_eq!(response.body, Body::Empty);
}
