use moosicbox::router::{handler_outcome, is_navigable, send_outcome, NavigateError, RoutePath, RouteRequest, Router};

#[test]
fn request_without_query() {
    let req = RouteRequest::from_path("/albums");
    assert_eq!(req.path, "/albums");
    assert_eq!(req.query.len(), 0);
}

#[test]
fn request_with_query() {
    let req = RouteRequest::from_path("/albums?albumId=5&source=LIBRARY&x=a%20b");
    assert_eq!(req.path, "/albums");
    assert_eq!(req.query.len(), 3);
    assert_eq!(req.query.get("albumId").map(|s| s.as_str()), Some("5"));
    assert_eq!(req.query.get("source").map(|s| s.as_str()), Some("LIBRARY"));
    assert_eq!(req.query.get("x").map(|s| s.as_str()), Some("a b"));
    assert_eq!(req.query.get("y"), None);
}

#[test]
fn request_query_later_value_wins_and_only_first_question_mark_splits() {
    let req = RouteRequest::from_path("/a?k=1&k=2&flag&q=what?");
    assert_eq!(req.path, "/a");
    assert_eq!(req.query.get("k").map(|s| s.as_str()), Some("2"));
    assert_eq!(req.query.get("flag").map(|s| s.as_str()), Some(""));
    assert_eq!(req.query.get("q").map(|s| s.as_str()), Some("what?"));
    assert_eq!(req.query.len(), 3);
}

#[test]
fn request_equality_ignores_parameter_order() {
    let a = RouteRequest::from_path("/p?x=1&y=2");
    let b = RouteRequest::from_path("/p?y=2&x=1");
    assert_eq!(a, b);
    assert_eq!(a.clone(), a);
    assert_ne!(a, RouteRequest::from_path("/p?x=1"));
    assert_ne!(a, RouteRequest::from_path("/q?x=1&y=2"));
}

#[test]
fn navigable_paths() {
    assert!(is_navigable("/a?x=é"));
    assert!(is_navigable("/é"));
    assert!(!is_navigable("/a?é=1"));
    assert!(!is_navigable("/a?x=1&é"));
    assert!(!is_navigable("/a?=é"));
    assert!(is_navigable("/a?b=c=é"));
}

#[test]
fn route_path_matching() {
    assert!(RoutePath::literal("/a").matches("/a"));
    assert!(!RoutePath::literal("/a").matches("/b"));
    let many = RoutePath::literals(&["/", "/home"]);
    assert!(many.matches("/home"));
    assert!(many.matches("/"));
    assert!(!many.matches("/other"));
    assert!(!RoutePath::literals(&[]).matches(""));
    assert!(RoutePath::from_string("/x".to_string()).matches("/x"));
    assert!(RoutePath::from_strings(vec!["/y".to_string()]).matches("/y"));
}

#[test]
fn first_registered_route_wins() {
    let router = Router::new()
        .with_route(RoutePath::literal("/a"), 1)
        .with_route(RoutePath::literals(&["/a", "/b"]), 2)
        .with_route(RoutePath::literal("/c"), 3);
    assert_eq!(router.len(), 3);
    assert_eq!(router.handler_for("/a"), Some(&1));
    assert_eq!(router.handler_for("/b"), Some(&2));
    assert_eq!(router.handler_for("/c"), Some(&3));
    assert_eq!(router.handler_for("/d"), None);
    assert_eq!(router.route_index("/b"), Some(1));
    let empty: Router<u8> = Router::default();
    assert_eq!(empty.len(), 0);
    assert_eq!(empty.handler_for("/a"), None);
}

#[test]
fn resolve_navigation() {
    let router = Router::new().with_route(RoutePath::literal("/albums"), "albums");
    let (req, handler) = router.resolve("/albums?albumId=3").unwrap();
    assert_eq!(req.path, "/albums");
    assert_eq!(req.query.get("albumId").map(|s| s.as_str()), Some("3"));
    assert_eq!(*handler, "albums");
    assert!(matches!(router.resolve("/artists"), Err(NavigateError::InvalidPath)));
}

#[test]
fn navigation_outcomes() {
    assert_eq!(handler_outcome::<u8, ()>(Ok(4)), Ok(4));
    assert_eq!(handler_outcome::<u8, &str>(Err("boom")), Err(NavigateError::Handler));
    assert_eq!(send_outcome(true), Ok(()));
    assert_eq!(send_outcome(false), Err(NavigateError::Sender));
}
