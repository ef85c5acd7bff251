use std::collections::HashMap;

use social_net::handler::{user_create, user_delete, user_details, user_index};
use social_net::model::RequestBody;
use social_net::ping;
use social_net::repository::UserRepo;

#[test]
fn test_get_success() {
    let resp = ping::handler();

    let expected_response = "{\"success\":true}";

    assert_eq!(resp.status, 200);
    assert_eq!(resp.body, expected_response.as_bytes().to_vec());
}

#[test]
fn user_test_user_index() {
    let repo = UserRepo::new();
    let resp = user_index(&repo);

    assert_eq!(resp.status, 200);
}

#[test]
fn handler_test_user_index() {
    let mut repo = UserRepo::new();
    user_create(
        &mut repo,
        RequestBody {
            username: "bob".to_string(),
            password: "password".to_string(),
            email: "bob@open.org".to_string(),
        },
    );
    let resp = user_index(&repo);

    assert_eq!(resp.status, 200);
}

#[test]
fn user_post_user_succeeds_for_valid_values() {
    let mut repo = UserRepo::new();
    let req = RequestBody {
        username: "mallory".to_string(),
        email: "mallory@open.org".to_string(),
        password: "letmein".to_string(),
    };

    let resp = user_create(&mut repo, req);

    let actual_resp_body: HashMap<String, String> = std::str::from_utf8(&resp.body)
        .map(|body| serde_json::from_str(body).unwrap())
        .expect("Invalid response");

    assert_eq!(resp.status, 201);
    assert!(actual_resp_body.contains_key("id"));
    assert_eq!(actual_resp_body.keys().len(), 1);
}

#[test]
fn handler_post_user_succeeds_for_valid_values() {
    let mut repo = UserRepo::new();
    let req = RequestBody {
        username: "trent".to_string(),
        email: "trent@open.org".to_string(),
        password: "letmein".to_string(),
    };

    let resp = user_create(&mut repo, req);

    let actual_resp_body: HashMap<String, String> = std::str::from_utf8(&resp.body)
        .map(|body| serde_json::from_str(body).unwrap())
        .expect("Invalid response");

    assert_eq!(resp.status, 201);
    assert!(actual_resp_body.contains_key("id"));
    assert_eq!(actual_resp_body.keys().len(), 1);
}

#[test]
fn user_create_fails_for_duplicate_username() {
    let mut repo = UserRepo::new();
    let first = user_create(
        &mut repo,
        RequestBody {
            username: "bob".to_string(),
            password: "password".to_string(),
            email: "bob@open.org".to_string(),
        },
    );
    assert_eq!(first.status, 201);

    let resp = user_create(
        &mut repo,
        RequestBody {
            username: "bob".to_string(),
            password: "password".to_string(),
            email: "bob@open.org".to_string(),
        },
    );

    assert_eq!(resp.status, 422);
    assert_eq!(
        resp.body,
        "\"duplicate key value violates unique constraint \\\"users_username_key\\\"\""
            .as_bytes()
            .to_vec()
    );
}

#[test]
fn user_index_returns_json_array() {
    let mut repo = UserRepo::new();
    user_create(
        &mut repo,
        RequestBody {
            username: "bob".to_string(),
            password: "password".to_string(),
            email: "bob@open.org".to_string(),
        },
    );
    user_create(
        &mut repo,
        RequestBody {
            username: "alice".to_string(),
            password: "wonder".to_string(),
            email: "alice@open.org".to_string(),
        },
    );
    let expected = "[{\"id\":\"00000000-0000-0000-0000-000000000001\",\"username\":\"bob\",\"email\":\"bob@open.org\"},{\"id\":\"00000000-0000-0000-0000-000000000002\",\"username\":\"alice\",\"email\":\"alice@open.org\"}]";

    let resp = user_index(&repo);

    assert_eq!(resp.body, expected.as_bytes().to_vec());
}

#[test]
fn user_details_returns_user_json_value() {
    let mut repo = UserRepo::new();
    let created = user_create(
        &mut repo,
        RequestBody {
            username: "bob".to_string(),
            password: "password".to_string(),
            email: "bob@open.org".to_string(),
        },
    );
    assert_eq!(created.status, 201);
    let expected = "{\"id\":\"00000000-0000-0000-0000-000000000001\",\"username\":\"bob\",\"password\":\"*****\",\"email\":\"bob@open.org\"}";

    let resp = user_details(&repo, 1);

    assert_eq!(resp.body, expected.as_bytes().to_vec());
}

#[test]
fn user_details_returns_error_for_non_existent_user() {
    let repo = UserRepo::new();

    let resp = user_details(&repo, 424242);

    assert_eq!(resp.status, 404);
    assert_eq!(resp.body, "\"NotFound\"".as_bytes().to_vec());
}

#[test]
fn delete_returns_success_message_if_user_exist() {
    let mut repo = UserRepo::new();
    let created = user_create(
        &mut repo,
        RequestBody {
            username: "bob".to_string(),
            password: "password".to_string(),
            email: "bob@open.org".to_string(),
        },
    );
    assert_eq!(created.status, 201);

    let resp = user_delete(&mut repo, 1);

    assert_eq!(resp.status, 200);
    assert_eq!(resp.body, "{\"success\":true}".as_bytes().to_vec());
}

#[test]
fn delete_returns_failure_if_user_does_not_exist() {
    let mut repo = UserRepo::new();

    let resp = user_delete(&mut repo, 424242);

    assert_eq!(resp.status, 404);
    assert_eq!(resp.body, "{\"success\":false}".as_bytes().to_vec());
}
