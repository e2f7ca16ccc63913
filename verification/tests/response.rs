use clepsydra::response::ApiResponse;

#[test]
fn ok_response_carries_data() {
    let r = ApiResponse::ok(vec![1, 2, 3]);
    assert!(r.success);
    assert_eq!(r.data, Some(vec![1, 2, 3]));
    assert_eq!(r.message, None);
}

#[test]
fn failed_query_carries_message() {
    let r: ApiResponse<Vec<i32>> = ApiResponse::from_result(Err("connection refused".to_string()));
    assert!(!r.success);
    assert_eq!(r.data, None);
    assert_eq!(r.message, Some("connection refused".to_string()));
    let r: ApiResponse<Vec<i32>> = ApiResponse::from_result(Ok(vec![]));
    assert!(r.success);
    assert_eq!(r.data, Some(vec![]));
    assert_eq!(r.message, None);
}
