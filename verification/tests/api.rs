use chat_client::api::{api_url, endpoint_url, encode_form, path_with_id, request_action_path, member_update_path, search_path, post_reads_body, post_response, json_response, PostResponse};

#[test]
fn base_url_defaults_to_local_server() {
    assert_eq!(api_url(None), "http://localhost:8000");
    assert_eq!(api_url(Some("https://chat.example")), "https://chat.example");
    assert_eq!(endpoint_url("http://localhost:8000", "member/servers"), "http://localhost:8000/member/servers");
}

#[test]
fn form_body_encodes_values_not_keys() {
    let data = vec![
        ("name".to_string(), "Rust & Verus".to_string()),
        ("note".to_string(), "a=b/c~d_e.f-g".to_string()),
    ];
    assert_eq!(encode_form(&data), "name=Rust%20%26%20Verus&note=a%3Db%2Fc~d_e.f-g");
    assert_eq!(encode_form(&vec![]), "");
    let utf8 = vec![("k".to_string(), "é".to_string())];
    assert_eq!(encode_form(&utf8), "k=%C3%A9");
}

#[test]
fn form_body_keeps_one_separator_per_neighbour_pair() {
    let data = vec![
        ("a".to_string(), "x&y".to_string()),
        ("b".to_string(), "p=q&r".to_string()),
        ("c".to_string(), "&&&".to_string()),
    ];
    let body = encode_form(&data);
    assert_eq!(body.matches('&').count(), 2);
    let fields: Vec<&str> = body.split('&').collect();
    assert_eq!(fields.len(), 3);
    for f in fields {
        assert_eq!(f.matches('=').count(), 1);
    }
}

#[test]
fn paths_around_ids() {
    assert_eq!(path_with_id("chat/", 7, "/thread"), "chat/7/thread");
    assert_eq!(path_with_id("server/", -3, "/leave"), "server/-3/leave");
    assert_eq!(request_action_path(5, 9, true, "deny"), "request/5/9/deny");
    assert_eq!(request_action_path(5, 9, false, "accept"), "request/9/5/accept");
    assert_eq!(member_update_path(false), "member");
    assert_eq!(member_update_path(true), "member/password");
    assert_eq!(search_path("member", "ann b"), "/member/search?search_term=ann b");
}

#[test]
fn post_answers() {
    assert!(post_reads_body(true, false));
    assert!(!post_reads_body(true, true));
    assert!(!post_reads_body(false, false));
    match post_response(201u16, true, Some(5i32), false) {
        PostResponse::NonResponse(v) => assert_eq!(v, 5),
        _ => panic!("expected the entity alone"),
    }
    match post_response(201u16, true, Some(5i32), true) {
        PostResponse::Response(v, r) => assert_eq!((v, r), (5, 201)),
        _ => panic!("expected the entity with the response"),
    }
    match post_response::<i32, u16>(500u16, false, None, true) {
        PostResponse::OnlyResponse(r) => assert_eq!(r, 500),
        _ => panic!("expected only the response"),
    }
    match post_response::<i32, u16>(200u16, true, None, false) {
        PostResponse::OnlyResponse(r) => assert_eq!(r, 200),
        _ => panic!("a body that does not parse gives only the response"),
    }
}

#[test]
fn get_and_put_answers() {
    assert_eq!(json_response(true, Some(3)), Ok(3));
    assert_eq!(json_response::<i32>(true, None), Err(()));
    assert_eq!(json_response(false, Some(3)), Err(()));
}
