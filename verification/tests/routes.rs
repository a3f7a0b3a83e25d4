use search_gateway::backend::{handle_query_request, handle_request, QueryType, Route};

#[test]
fn the_three_routes_select_their_flavour() {
    assert_eq!(handle_query_request("/query/decide"), Some(QueryType::Decision));
    assert_eq!(handle_query_request("/query/complete"), Some(QueryType::Complete));
    assert_eq!(handle_query_request("/query/summarize"), Some(QueryType::Summarize));
}

#[test]
fn other_routes_select_nothing() {
    assert_eq!(handle_query_request("/query"), None);
    assert_eq!(handle_query_request("/query/"), None);
    assert_eq!(handle_query_request("/query/decide/"), None);
    assert_eq!(handle_query_request("/query//decide"), None);
    assert_eq!(handle_query_request("/echo"), None);
    assert_eq!(handle_query_request(""), None);
}

#[test]
fn query_paths_lead_to_their_flavour() {
    assert_eq!(handle_request("/query/decide"), Route::Query(QueryType::Decision));
    assert_eq!(handle_request("/query/complete"), Route::Query(QueryType::Complete));
    assert_eq!(handle_request("/query/summarize"), Route::Query(QueryType::Summarize));
}

#[test]
fn paths_under_echo_lead_to_the_probe() {
    assert_eq!(handle_request("/echo"), Route::Echo);
    assert_eq!(handle_request("/echo/"), Route::Echo);
    assert_eq!(handle_request("/echo/anything/else"), Route::Echo);
    assert_eq!(handle_request("//echo"), Route::Echo);
    assert_eq!(handle_request("echo"), Route::Echo);
}

#[test]
fn other_paths_lead_nowhere() {
    assert_eq!(handle_request(""), Route::NotImplemented);
    assert_eq!(handle_request("/"), Route::NotImplemented);
    assert_eq!(handle_request("/query"), Route::NotImplemented);
    assert_eq!(handle_request("/query/decide/"), Route::NotImplemented);
    assert_eq!(handle_request("/query/other"), Route::NotImplemented);
    assert_eq!(handle_request("/echoes"), Route::NotImplemented);
    assert_eq!(handle_request("/ech"), Route::NotImplemented);
    assert_eq!(handle_request("/v1/echo"), Route::NotImplemented);
    assert_eq!(handle_request("/./echo"), Route::NotImplemented);
    assert_eq!(handle_request("/\u{e9}cho"), Route::NotImplemented);
}
