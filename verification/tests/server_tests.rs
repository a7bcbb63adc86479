use provenian::wrapper::server::{dispatch, Dispatch, RouteTable};

fn handler_of(d: Dispatch) -> (usize, Vec<(String, String)>) {
    match d {
        Dispatch::Handler { index, params } => (index, params),
        Dispatch::NotFound { status } => panic!("no route, status {}", status),
    }
}

#[test]
fn empty_table_answers_405() {
    let routes = RouteTable::new();
    assert_eq!(routes.len(), 0);
    assert!(matches!(dispatch(&routes, "GET", "/problems"), Dispatch::NotFound { status: 405 }));
}

#[test]
fn routes_are_numbered_in_order() {
    let mut routes = RouteTable::new();
    assert_eq!(routes.insert("GET", "/problems"), 0);
    assert_eq!(routes.insert("POST", "/problems"), 1);
    assert_eq!(routes.len(), 2);
    assert_eq!(handler_of(dispatch(&routes, "GET", "/problems")), (0, vec![]));
    assert_eq!(handler_of(dispatch(&routes, "POST", "/problems")), (1, vec![]));
    assert!(matches!(dispatch(&routes, "DELETE", "/problems"), Dispatch::NotFound { status: 405 }));
    assert!(matches!(dispatch(&routes, "GET", "/other"), Dispatch::NotFound { status: 405 }));
}

#[test]
fn route_parameters_are_bound() {
    let mut routes = RouteTable::new();
    assert_eq!(routes.insert("GET", "/problems/:id"), 0);
    assert_eq!(
        handler_of(dispatch(&routes, "GET", "/problems/01ARZ")),
        (0, vec![("id".to_string(), "01ARZ".to_string())])
    );
    assert!(matches!(dispatch(&routes, "POST", "/problems/01ARZ"), Dispatch::NotFound { status: 405 }));
}

#[test]
fn adding_a_route_keeps_the_other_routes() {
    let mut routes = RouteTable::new();
    assert_eq!(routes.insert("GET", "/a"), 0);
    assert_eq!(routes.insert("GET", "/a/:id"), 1);
    assert_eq!(routes.insert("GET", "/ab"), 2);
    assert_eq!(handler_of(dispatch(&routes, "GET", "/a")), (0, vec![]));
    assert_eq!(handler_of(dispatch(&routes, "GET", "/ab")), (2, vec![]));
    assert_eq!(handler_of(dispatch(&routes, "GET", "/a/7")), (1, vec![("id".to_string(), "7".to_string())]));
    assert_eq!(routes.insert("GET", "/a"), 3);
    assert_eq!(handler_of(dispatch(&routes, "GET", "/a")), (3, vec![]));
    assert_eq!(handler_of(dispatch(&routes, "GET", "/ab")), (2, vec![]));
}
