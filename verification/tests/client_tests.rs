use every_discord_bot::tarkov::client::{
    build_cache_key, check_response, is_fresh, new_cache, QueryError, CACHE_TTL_SECS,
};
use every_discord_bot::tarkov::models::{GraphQLError, GraphQLResponse};

#[test]
fn test_build_cache_key() {
    let vars = r#"{"lang":"ko","name":"LEDX"}"#;
    let key = build_cache_key("query { items }", vars);
    assert!(key.starts_with("query { items }:"));
    assert!(key.contains("LEDX"));
}

#[test]
fn test_build_cache_key_deterministic() {
    let vars = r#"{"lang":"ko"}"#;
    let key1 = build_cache_key("query { items }", vars);
    let key2 = build_cache_key("query { items }", vars);
    assert_eq!(key1, key2);
}

#[test]
fn test_build_cache_key_different_variables() {
    let key1 = build_cache_key("query { items }", r#"{"name":"LEDX"}"#);
    let key2 = build_cache_key("query { items }", r#"{"name":"GPU"}"#);
    assert_ne!(key1, key2);
}

#[test]
fn cache_key_trims_the_query() {
    assert_eq!(build_cache_key("\n  query { a }\n", "{}"), "query { a }:{}");
    assert_eq!(build_cache_key("", ""), ":");
}

#[test]
fn test_cache_hit() {
    let mut cache = new_cache();
    let key = "test_query:{\"lang\":\"ko\"}".to_string();
    let value = r#"{"items":[{"name":"Test"}]}"#.to_string();
    cache.put(key.clone(), value.clone(), 1000);
    assert_eq!(cache.get(&key, 1000), Some(value.clone()));
    assert_eq!(cache.get(&key, 1299), Some(value));
}

#[test]
fn test_cache_miss_expired() {
    let mut cache = new_cache();
    let key = "expired_query:{}".to_string();
    cache.put(key.clone(), r#"{"items":[]}"#.to_string(), 1000);
    assert_eq!(cache.get(&key, 1600), None);
    assert_eq!(cache.get(&key, 1300), None);
    assert_eq!(cache.len(), 1);
}

#[test]
fn test_new_cache_is_empty() {
    let cache = new_cache();
    assert!(cache.is_empty());
    assert_eq!(cache.get("anything", 0), None);
}

#[test]
fn cache_put_replaces_and_prunes() {
    assert_eq!(CACHE_TTL_SECS, 300);
    assert!(is_fresh(1000, 1299));
    assert!(!is_fresh(1000, 1300));
    assert!(is_fresh(1000, 5));
    let mut cache = new_cache();
    cache.put("a".to_string(), "1".to_string(), 0);
    cache.put("b".to_string(), "2".to_string(), 200);
    cache.put("a".to_string(), "3".to_string(), 250);
    assert_eq!(cache.len(), 2);
    assert_eq!(cache.get("a", 250), Some("3".to_string()));
    assert_eq!(cache.entries[0].key, "b");
    assert_eq!(cache.entries[1].key, "a");
    cache.put("c".to_string(), "4".to_string(), 520);
    assert_eq!(cache.len(), 2);
    assert_eq!(cache.get("b", 520), None);
    assert_eq!(cache.get("a", 520), Some("3".to_string()));
    assert_eq!(cache.get("c", 520), Some("4".to_string()));
}

#[test]
fn test_query_error_display_network() {
    let err = QueryError::EmptyResponse;
    let msg = err.to_string();
    assert!(msg.contains("빈 응답"));
    assert_eq!(msg, "API로부터 빈 응답을 받았습니다");
    assert_eq!(
        QueryError::Network("timeout".to_string()).to_string(),
        "API 서버에 연결할 수 없습니다: timeout"
    );
}

#[test]
fn test_query_error_display_graphql() {
    let err = QueryError::GraphQL(vec![GraphQLError { message: "field error".to_string() }]);
    let msg = err.to_string();
    assert!(msg.contains("field error"));
    assert_eq!(msg, "API 오류: field error");
    let err = QueryError::GraphQL(vec![
        GraphQLError { message: "a".to_string() },
        GraphQLError { message: "b".to_string() },
        GraphQLError { message: "c".to_string() },
    ]);
    assert_eq!(err.to_string(), "API 오류: a, b, c");
    assert_eq!(QueryError::GraphQL(vec![]).to_string(), "API 오류: ");
}

#[test]
fn test_query_error_display_deserialize() {
    let err = QueryError::Deserialize("missing field".to_string());
    let msg = err.to_string();
    assert!(msg.contains("missing field"));
    assert_eq!(msg, "응답 처리 중 오류가 발생했습니다: missing field");
}

#[test]
fn check_response_orders_errors_before_data() {
    let both = GraphQLResponse {
        data: Some(5u32),
        errors: Some(vec![GraphQLError { message: "bad".to_string() }]),
    };
    match check_response(both) {
        Err(QueryError::GraphQL(errors)) => assert_eq!(errors[0].message, "bad"),
        _ => panic!("expected the errors"),
    }
    let no_errors = GraphQLResponse { data: Some(5u32), errors: Some(vec![]) };
    assert!(matches!(check_response(no_errors), Ok(5)));
    let plain = GraphQLResponse { data: Some(7u32), errors: None };
    assert!(matches!(check_response(plain), Ok(7)));
    let empty: GraphQLResponse<u32> = GraphQLResponse { data: None, errors: None };
    assert!(matches!(check_response(empty), Err(QueryError::EmptyResponse)));
    let empty: GraphQLResponse<u32> = GraphQLResponse { data: None, errors: Some(vec![]) };
    assert!(matches!(check_response(empty), Err(QueryError::EmptyResponse)));
}
