use social_net::model::User;
use social_net::view::{user_create, user_details, user_list};

#[test]
fn view_user_list_view_returns_id_username_and_email() {
    let bob = User {
        id: 1,
        username: "bob".to_string(),
        email: "bob@open.org".to_string(),
        password: "hunter2".to_string(),
    };
    let alice = User {
        id: 2,
        username: "alice".to_string(),
        email: "alice@open.org".to_string(),
        password: "wonder".to_string(),
    };
    let users = vec![bob, alice];

    let actual = user_list(&users);
    let expected = "[{\"id\":\"00000000-0000-0000-0000-000000000001\",\"username\":\"bob\",\"email\":\"bob@open.org\"},{\"id\":\"00000000-0000-0000-0000-000000000002\",\"username\":\"alice\",\"email\":\"alice@open.org\"}]";

    assert_eq!(actual, expected.as_bytes().to_vec());
}

#[test]
fn user_view_user_list_view_returns_id_username_and_email() {
    let carol = User {
        id: 3,
        username: "carol".to_string(),
        email: "carol@open.org".to_string(),
        password: "tunnel".to_string(),
    };
    let users = vec![carol];

    let actual = user_list(&users);
    let expected = "[{\"id\":\"00000000-0000-0000-0000-000000000003\",\"username\":\"carol\",\"email\":\"carol@open.org\"}]";

    assert_eq!(actual, expected.as_bytes().to_vec());
}

#[test]
fn view_user_create_view_returns_id() {
    let bob = User {
        id: 1,
        username: "bob".to_string(),
        email: "bob@open.org".to_string(),
        password: "hunter2".to_string(),
    };
    let actual = user_create(&bob);

    let expected = "{\"id\":\"00000000-0000-0000-0000-000000000001\"}";

    assert_eq!(actual, expected.as_bytes().to_vec())
}

#[test]
fn user_view_user_create_view_returns_id() {
    let dave = User {
        id: 0xdeadbeefcafebabe,
        username: "dave".to_string(),
        email: "dave@open.org".to_string(),
        password: "qwerty".to_string(),
    };
    let actual = user_create(&dave);

    let expected = "{\"id\":\"00000000-0000-0000-dead-beefcafebabe\"}";

    assert_eq!(actual, expected.as_bytes().to_vec())
}

#[test]
fn user_details_view_returns_user_details() {
    let bob = User {
        id: 1,
        username: "bob".to_string(),
        email: "bob@open.org".to_string(),
        password: "hunter2".to_string(),
    };
    let expected = "{\"id\":\"00000000-0000-0000-0000-000000000001\",\"username\":\"bob\",\"password\":\"*****\",\"email\":\"bob@open.org\"}";

    let actual = user_details(&bob);
    assert_eq!(expected.as_bytes().to_vec(), actual)
}

#[test]
fn details_view_never_shows_the_stored_password() {
    let bob = User {
        id: 7,
        username: "bob".to_string(),
        email: "bob@open.org".to_string(),
        password: "swordfish".to_string(),
    };
    let body = user_details(&bob);
    let text = String::from_utf8(body).unwrap();

    assert!(!text.contains("swordfish"));
    assert!(text.contains("\"password\":\"*****\""));
}

#[test]
fn list_view_has_no_password_key() {
    let bob = User {
        id: 7,
        username: "bob".to_string(),
        email: "bob@open.org".to_string(),
        password: "swordfish".to_string(),
    };
    let body = user_list(&vec![bob]);
    let text = String::from_utf8(body).unwrap();

    assert!(!text.contains("password"));
    assert!(!text.contains("swordfish"));
}

#[test]
fn list_view_of_no_users_is_an_empty_array() {
    let users: Vec<User> = Vec::new();
    assert_eq!(user_list(&users), b"[]".to_vec());
}

#[test]
fn string_fields_are_escaped_for_json() {
    let tricky = User {
        id: 1,
        username: "a\"b\\c".to_string(),
        email: "tab\there\nnewline\u{1f}unit".to_string(),
        password: "p".to_string(),
    };
    let actual = user_details(&tricky);
    let expected = "{\"id\":\"00000000-0000-0000-0000-000000000001\",\"username\":\"a\\\"b\\\\c\",\"password\":\"*****\",\"email\":\"tab\\there\\nnewline\\u001funit\"}";

    assert_eq!(String::from_utf8(actual).unwrap(), expected);
}

#[test]
fn ids_render_as_lowercase_hyphenated_hex() {
    let edge = User {
        id: u128::MAX,
        username: "max".to_string(),
        email: "max@open.org".to_string(),
        password: "p".to_string(),
    };
    let actual = user_create(&edge);
    let expected = "{\"id\":\"ffffffff-ffff-ffff-ffff-ffffffffffff\"}";

    assert_eq!(actual, expected.as_bytes().to_vec());
}
