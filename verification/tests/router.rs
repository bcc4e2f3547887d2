use gemfra::router::Router;

#[test]
fn test_params() {
    let mut router: Router<u32> = Router::new();
    router.add("/vars/:var", 1);

    let m = router.recognize("/vars/hello").unwrap();
    assert_eq!(*router.handler_at(m.index), 1);
    assert_eq!(m.params.get("var").unwrap(), "hello");
}

#[test]
fn test_unnamed_wildcard() {
    let mut router: Router<u32> = Router::new();
    router.add("/info/*", 7);

    let m = router.recognize("/info/a/b/c").unwrap();
    assert_eq!(*router.handler_at(m.index), 7);
    assert!(m.params.get("").is_none());

    assert!(router.recognize("/other").is_none());
}

#[test]
fn test_named_wildcard() {
    let mut router: Router<u32> = Router::new();
    router.add("/info/*rest", 7);

    let m = router.recognize("/info/a/b/c").unwrap();
    assert_eq!(m.params.get("rest").unwrap(), "a/b/c");

    // the wildcard needs a non-empty remainder
    assert!(router.recognize("/info").is_none());
}

#[test]
fn test_no_match_is_not_fatal() {
    let mut router: Router<u32> = Router::new();
    router.add("/a", 1);
    router.add("/b/:x", 2);

    assert!(router.recognize("/c").is_none());
    assert!(router.recognize("/a/too/long").is_none());
    assert!(router.recognize("").is_none());
}

#[test]
fn test_specificity() {
    let mut router: Router<&str> = Router::new();
    router.add("/posts/new", "new");
    router.add("/posts/:id", "id");

    let m = router.recognize("/posts/7").unwrap();
    assert_eq!(*router.handler_at(m.index), "id");
    assert_eq!(m.params.get("id").unwrap(), "7");

    let m = router.recognize("/posts/new").unwrap();
    assert_eq!(*router.handler_at(m.index), "new");
    assert!(m.params.get("id").is_none());
}

#[test]
fn test_specificity_registration_order() {
    // same patterns, opposite registration order: the literal still wins
    let mut router: Router<&str> = Router::new();
    router.add("/posts/:id", "id");
    router.add("/posts/new", "new");

    let m = router.recognize("/posts/new").unwrap();
    assert_eq!(*router.handler_at(m.index), "new");

    let m = router.recognize("/posts/1").unwrap();
    assert_eq!(*router.handler_at(m.index), "id");
}

#[test]
fn test_param_wins_over_wildcard() {
    let mut router: Router<&str> = Router::new();
    router.add("/files/*rest", "wild");
    router.add("/files/:name", "param");

    let m = router.recognize("/files/report").unwrap();
    assert_eq!(*router.handler_at(m.index), "param");

    let m = router.recognize("/files/a/b").unwrap();
    assert_eq!(*router.handler_at(m.index), "wild");
    assert_eq!(m.params.get("rest").unwrap(), "a/b");
}

#[test]
fn test_root_route() {
    let mut router: Router<u32> = Router::new();
    router.add("/", 3);
    let m = router.recognize("/").unwrap();
    assert_eq!(*router.handler_at(m.index), 3);
    let m = router.recognize("").unwrap();
    assert_eq!(*router.handler_at(m.index), 3);
}

#[test]
fn test_multiple_params() {
    let mut router: Router<u32> = Router::new();
    router.add("/posts/:post_id/comments/:id", 1);
    router.add("/posts/:post_id/comments", 2);

    let m = router.recognize("/posts/12/comments/100").unwrap();
    assert_eq!(*router.handler_at(m.index), 1);
    assert_eq!(m.params.get("post_id").unwrap(), "12");
    assert_eq!(m.params.get("id").unwrap(), "100");

    let m = router.recognize("/posts/12/comments").unwrap();
    assert_eq!(*router.handler_at(m.index), 2);
    assert_eq!(m.params.get("post_id").unwrap(), "12");
}

#[test]
fn test_param_rejects_empty_segment() {
    let mut router: Router<u32> = Router::new();
    router.add("/vars/:var", 1);
    assert!(router.recognize("/vars/").is_none());
}
