use social_net::model::{NewUser, RequestBody};

#[test]
fn test_creates_new_user_from_request_body() {
    let req_body = RequestBody {
        username: "Bob".to_string(),
        password: "password".to_string(),
        email: "bob@open.org".to_string(),
    };

    let expected = NewUser {
        username: "Bob".to_string(),
        password: "password".to_string(),
        email: "bob@open.org".to_string(),
    };

    let actual: NewUser = req_body.into();

    assert_eq!(expected, actual)
}
