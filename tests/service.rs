use microblog::post::{frame_object, posts_from_rows, Post, PostRow, StoreError};
use microblog::service::{
    body_unreadable, created_reply, error_response, list_reply, not_found, plan_create,
    read_new_post, route, validate_fields, Reply, Route,
};

fn create_ok(body: &str) -> Post {
    match plan_create(body.as_bytes()) {
        Ok(p) => p,
        Err(r) => panic!("unexpected reply {} {}", r.status, r.body),
    }
}

fn create_err(body: &str) -> Reply {
    match plan_create(body.as_bytes()) {
        Ok(p) => panic!("unexpected post {}", p.title),
        Err(r) => r,
    }
}

fn parse(body: &str) -> serde_json::Value {
    serde_json::from_str(body).expect("reply body is JSON")
}

fn row(id: Option<&str>, title: &str, content: &str) -> PostRow {
    PostRow { id: id.map(|s| s.to_string()), title: title.to_string(), content: content.to_string() }
}

#[test]
fn test_create_post() {
    let post = create_ok(r#"{"title": "Test Post", "content": "This is a test post."}"#);
    let reply = created_reply(&post, Ok(()));
    assert_eq!(reply.status, 200);
    let json_response = parse(&reply.body);
    assert!(json_response.is_object(), "Response should be a JSON object");
    assert_eq!(json_response["title"], "Test Post");
    assert_eq!(json_response["content"], "This is a test post.");
}

#[test]
fn test_get_posts() {
    let a = create_ok(r#"{"title":"first","content":"one"}"#);
    let b = create_ok(r#"{"title":"second","content":"two"}"#);
    let reply = list_reply(Ok(vec![a.to_row(), b.to_row()]));
    assert_eq!(reply.status, 200);
    let json_response = parse(&reply.body);
    assert!(json_response.is_array(), "Response should be a JSON array");
    let posts_array = json_response.as_array().expect("Failed to convert JSON to array");
    assert!(!posts_array.is_empty(), "Post array should not be empty");
    assert!(posts_array.len() > 1, "Expected 1 post in the database");
    if let Some(first_post) = posts_array.first() {
        assert!(first_post["title"].is_string(), "Title should be a string");
        assert!(first_post["content"].is_string(), "Content should be a string");
    }
}

#[test]
fn routes_by_method_and_path() {
    assert_eq!(route("POST", "/posts"), Route::CreatePost);
    assert_eq!(route("GET", "/posts"), Route::ListPosts);
    assert_eq!(route("DELETE", "/posts"), Route::NotFound);
    assert_eq!(route("PUT", "/posts"), Route::NotFound);
    assert_eq!(route("GET", "/"), Route::NotFound);
    assert_eq!(route("POST", "/posts/"), Route::NotFound);
    assert_eq!(route("GET", "/post"), Route::NotFound);
    assert_eq!(route("post", "/posts"), Route::NotFound);
}

#[test]
fn not_found_reply() {
    let r = not_found();
    assert_eq!(r.status, 404);
    assert_eq!(r.body, "Not Found");
}

#[test]
fn error_response_keeps_status_and_message() {
    let r = error_response(418, "short and stout");
    assert_eq!(r.status, 418);
    assert_eq!(r.body, "short and stout");
    let u = body_unreadable();
    assert_eq!(u.status, 500);
    assert_eq!(u.body, "Failed to read request body");
}

#[test]
fn scenario_create_hello_world() {
    let post = create_ok(r#"{"title":"Hello","content":"World"}"#);
    assert_eq!(post.title, "Hello");
    assert_eq!(post.content, "World");
    let reply = created_reply(&post, Ok(()));
    assert_eq!(reply.status, 200);
    let text = uuid::Uuid::from_u128(post.id).to_string();
    assert_eq!(reply.body, format!(r#"{{"id":"{}","title":"Hello","content":"World"}}"#, text));
    let v = parse(&reply.body);
    let id = uuid::Uuid::parse_str(v["id"].as_str().unwrap()).unwrap();
    assert_eq!(id.as_u128(), post.id);
    assert_eq!(id.get_version_num(), 4);
    assert_eq!(id.get_variant(), uuid::Variant::RFC4122);
}

#[test]
fn scenario_empty_title_is_rejected() {
    let r = create_err(r#"{"title":"","content":"x"}"#);
    assert_eq!(r.status, 400);
    assert_eq!(r.body, "Title and content cannot be empty");
}

#[test]
fn empty_content_is_rejected() {
    let r = create_err(r#"{"title":"x","content":""}"#);
    assert_eq!(r.status, 400);
    assert_eq!(r.body, "Title and content cannot be empty");
}

#[test]
fn missing_or_non_string_fields_count_as_empty() {
    for body in [
        r#"{}"#,
        r#"{"title":"x"}"#,
        r#"{"content":"x"}"#,
        r#"{"title":5,"content":"x"}"#,
        r#"{"title":"x","content":null}"#,
        r#"[1,2]"#,
        r#""text""#,
    ] {
        let r = create_err(body);
        assert_eq!(r.status, 400, "body {}", body);
        assert_eq!(r.body, "Title and content cannot be empty");
    }
}

#[test]
fn scenario_non_json_body_fails_with_500() {
    for body in ["not json", "", "{\"title\":", "{\"title\":\"a\",\"content\":\"b\"} trailing"] {
        let r = create_err(body);
        assert_eq!(r.status, 500, "body {:?}", body);
        assert_eq!(r.body, "Failed to read request body");
    }
}

#[test]
fn read_new_post_takes_both_texts() {
    let n = match read_new_post(br#"{"content":"c","title":"t","extra":1}"#) {
        Ok(n) => n,
        Err(_) => panic!("input should be accepted"),
    };
    assert_eq!(n.title, "t");
    assert_eq!(n.content, "c");
}

#[test]
fn created_posts_get_distinct_v4_ids() {
    let a = create_ok(r#"{"title":"a","content":"b"}"#);
    let b = create_ok(r#"{"title":"a","content":"b"}"#);
    assert_ne!(a.id, b.id);
    assert_eq!((a.id >> 76) & 0xf, 4);
    assert_eq!((a.id >> 62) & 3, 2);
    assert_eq!((b.id >> 76) & 0xf, 4);
    assert_eq!((b.id >> 62) & 3, 2);
}

#[test]
fn insert_failure_gives_500() {
    let post = create_ok(r#"{"title":"a","content":"b"}"#);
    let r = created_reply(&post, Err(StoreError::Write));
    assert_eq!(r.status, 500);
    assert_eq!(r.body, "Failed to insert post into database");
}

#[test]
fn scenario_list_after_create() {
    let post = create_ok(r#"{"title":"Hello","content":"World"}"#);
    let reply = list_reply(Ok(vec![post.to_row()]));
    assert_eq!(reply.status, 200);
    let v = parse(&reply.body);
    let items = v.as_array().unwrap();
    assert!(items.iter().any(|p| p["title"] == "Hello" && p["content"] == "World"));
}

#[test]
fn listing_holds_every_stored_post_in_order() {
    let mut rows = Vec::new();
    let mut ids = Vec::new();
    for k in 0..5 {
        let p = create_ok(&format!(r#"{{"title":"t{}","content":"c{}"}}"#, k, k));
        ids.push(uuid::Uuid::from_u128(p.id).to_string());
        rows.push(p.to_row());
    }
    let reply = list_reply(Ok(rows));
    assert_eq!(reply.status, 200);
    let v = parse(&reply.body);
    let items = v.as_array().unwrap();
    assert_eq!(items.len(), 5);
    for k in 0..5 {
        assert_eq!(items[k]["id"], ids[k].as_str());
        assert_eq!(items[k]["title"], format!("t{}", k).as_str());
        assert_eq!(items[k]["content"], format!("c{}", k).as_str());
    }
}

#[test]
fn empty_store_lists_empty_array() {
    let reply = list_reply(Ok(Vec::new()));
    assert_eq!(reply.status, 200);
    assert_eq!(reply.body, "[]");
}

#[test]
fn fetch_failure_gives_500() {
    let r = list_reply(Err(StoreError::Read));
    assert_eq!(r.status, 500);
    assert_eq!(r.body, "Failed to fetch posts from database");
}

#[test]
fn corrupt_or_missing_id_fails_listing() {
    let good = create_ok(r#"{"title":"a","content":"b"}"#).to_row();
    for bad in [row(Some("not-a-uuid"), "x", "y"), row(None, "x", "y"), row(Some(""), "x", "y")] {
        let r = list_reply(Ok(vec![good_clone(&good), bad]));
        assert_eq!(r.status, 500);
        assert_eq!(r.body, "Failed to fetch posts from database");
    }
}

fn good_clone(r: &PostRow) -> PostRow {
    PostRow { id: r.id.clone(), title: r.title.clone(), content: r.content.clone() }
}

#[test]
fn row_round_trip_keeps_the_post() {
    let post = create_ok(r#"{"title":"Round","content":"Trip"}"#);
    let r = post.to_row();
    assert_eq!(r.id.as_deref(), Some(uuid::Uuid::from_u128(post.id).to_string().as_str()));
    let back = Post::from_row(&r).ok().unwrap();
    assert_eq!(back.id, post.id);
    assert_eq!(back.title, post.title);
    assert_eq!(back.content, post.content);
}

#[test]
fn rows_read_back_in_order() {
    let rows = vec![
        row(Some("550e8400-e29b-41d4-a716-446655440000"), "a", "b"),
        row(Some("936da01f-9abd-4d9d-80c7-02af85c822a8"), "c", "d"),
    ];
    let ps = posts_from_rows(&rows).ok().unwrap();
    assert_eq!(ps.len(), 2);
    assert_eq!(ps[0].id, 0x550e8400e29b41d4a716446655440000);
    assert_eq!(ps[1].id, 0x936da01f9abd4d9d80c702af85c822a8);
    assert_eq!(ps[1].title, "c");
    assert_eq!(ps[1].content, "d");
    assert!(matches!(posts_from_rows(&vec![row(None, "a", "b")]), Err(StoreError::CorruptId)));
}

#[test]
fn json_round_trip_with_escapes() {
    let post = Post { id: 0x550e8400e29b41d4a716446655440000, title: "He said \"hi\"\n".to_string(), content: "back\\slash é".to_string() };
    let reply = created_reply(&post, Ok(()));
    assert_eq!(reply.status, 200);
    assert_eq!(reply.body, r#"{"id":"550e8400-e29b-41d4-a716-446655440000","title":"He said \"hi\"\n","content":"back\\slash é"}"#);
    let v = parse(&reply.body);
    assert_eq!(v["id"], "550e8400-e29b-41d4-a716-446655440000");
    assert_eq!(v["title"], "He said \"hi\"\n");
    assert_eq!(v["content"], "back\\slash é");
}

#[test]
fn escaped_input_is_read_unescaped() {
    let post = create_ok(r#"{"title":"a\"b","content":"é"}"#);
    assert_eq!(post.title, "a\"b");
    assert_eq!(post.content, "é");
}

#[test]
fn validate_fields_counts_absent_as_empty() {
    let n = match validate_fields(Some("t".to_string()), Some("c".to_string())) {
        Ok(n) => n,
        Err(_) => panic!("both texts are present"),
    };
    assert_eq!(n.title, "t");
    assert_eq!(n.content, "c");
    for (t, c) in [(None, Some("c")), (Some("t"), None), (Some(""), Some("c")), (None, None)] {
        match validate_fields(t.map(String::from), c.map(String::from)) {
            Ok(_) => panic!("an empty text must be refused"),
            Err(r) => {
                assert_eq!(r.status, 400);
                assert_eq!(r.body, "Title and content cannot be empty");
            }
        }
    }
}

#[test]
fn frame_object_places_literals() {
    assert_eq!(frame_object("\"i\"", "\"t\"", "\"c\""), r#"{"id":"i","title":"t","content":"c"}"#);
}
