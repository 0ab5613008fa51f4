use async_graphql::http::{playground_source, GraphQLPlaygroundConfig};
use federation_services::transport::{index_playground, Page, CORS_MAX_AGE, ENDPOINT};

#[test]
fn html_page_is_a_success_in_utf8() {
    let page = Page::html("<p>hat</p>".to_string());
    assert_eq!(
        page,
        Page {
            status: 200,
            content_type: "text/html; charset=utf-8".to_string(),
            body: "<p>hat</p>".to_string(),
        }
    );
}

#[test]
fn html_page_may_be_empty() {
    let page = Page::html(String::new());
    assert_eq!(page.status, 200);
    assert_eq!(page.content_type, "text/html; charset=utf-8");
    assert_eq!(page.body, "");
}

#[test]
fn index_playground_answers_with_html() {
    let page = index_playground();
    assert_eq!(page.status, 200);
    assert_eq!(page.content_type, "text/html; charset=utf-8");
}

#[test]
fn index_playground_carries_the_explorer_markup() {
    let page = index_playground();
    assert_ne!(page.body, "/");
    assert!(page.body.contains("<!DOCTYPE html>"));
    assert!(page.body.contains("<title>GraphQL Playground</title>"));
    assert!(page.body.contains("GraphQLPlayground.init(root, "));
}

#[test]
fn index_playground_points_the_explorer_at_the_root_path() {
    let page = index_playground();
    assert!(page.body.contains("\"endpoint\":\"/\""));
    assert!(page.body.contains("\"subscriptionEndpoint\":\"/\""));
}

#[test]
fn index_playground_is_the_page_that_the_generator_makes() {
    let expected = playground_source(GraphQLPlaygroundConfig::new("/").subscription_endpoint("/"));
    assert_eq!(index_playground().body, expected);
}

#[test]
fn index_playground_is_the_same_on_every_call() {
    assert_eq!(index_playground(), index_playground());
}

#[test]
fn services_answer_under_the_root_path() {
    assert_eq!(ENDPOINT, "/");
}

#[test]
fn preflight_answers_are_cached_for_an_hour() {
    assert_eq!(CORS_MAX_AGE, 3600);
}
