use hello_server::routes::handle_get;
use hello_server::routes::served_paths;

#[test]
fn get_root_returns_greeting() {
    let r = handle_get("/").expect("root path is served");
    assert_eq!(r.status, 200);
    assert_eq!(r.body, "Hello world!");
}

#[test]
fn get_index_html_returns_greeting() {
    let r = handle_get("/index.html").expect("/index.html is served");
    assert_eq!(r.status, 200);
    assert_eq!(r.body, "Hello world!");
}

#[test]
fn root_request_is_logged() {
    let r = handle_get("/").expect("root path is served");
    assert_eq!(r.log_line, Some("Inside Hello World"));
}

#[test]
fn index_html_request_is_not_logged() {
    let r = handle_get("/index.html").expect("/index.html is served");
    assert_eq!(r.log_line, None);
}

#[test]
fn other_paths_are_not_handled() {
    assert!(handle_get("/about").is_none());
    assert!(handle_get("").is_none());
    assert!(handle_get("/index").is_none());
    assert!(handle_get("/index.html/").is_none());
    assert!(handle_get("index.html").is_none());
}

#[test]
fn served_paths_lists_both_routes() {
    let paths = served_paths();
    assert_eq!(paths, vec!["/index.html", "/"]);
}
