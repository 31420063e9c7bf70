use jwt_auth::api::helpers::password::{
    hash_password, hash_with_salt, stored_password, verify_password, SALT,
};
use jwt_auth::controllers::db::dynamo::{new_user_item, user_from_item};
use jwt_auth::api::routes_login::{
    check_login, check_sign_up, login_username, sign_up_username, LoginPayload,
};
use jwt_auth::error::Error;
use jwt_auth::user::User;

const PREFIX: &str = "$argon2id$v=19$m=4096,t=2,p=8$";

fn user_with_password(password: &str, salt: &str) -> User {
    User {
        email: "ivy@example.com".to_string(),
        known_as: "Ivy".to_string(),
        password: format!("{}{}", salt, hash_with_salt(password, salt)),
        group: 1,
    }
}

#[test]
fn hash_is_argon2id_encoded() {
    let h = hash_with_salt("hunter2", "0123456789abcdef");
    assert!(h.starts_with(PREFIX), "{}", h);
    assert_ne!(h, "hunter2");
    assert_eq!(h, hash_with_salt("hunter2", "0123456789abcdef"));
    assert_ne!(h, hash_with_salt("hunter3", "0123456789abcdef"));
    assert_ne!(h, hash_with_salt("hunter2", "0123456789abcdeg"));
}

#[test]
fn hash_password_uses_default_salt() {
    assert_eq!(SALT.len(), 16);
    assert_eq!(hash_password("pw".to_string()), hash_with_salt("pw", SALT));
}

#[test]
fn law_stored_password_accepts_its_password() {
    let salt = "fedcba9876543210";
    let u = user_with_password("s3cret", salt);
    assert_eq!(verify_password(&u.password, "s3cret"), Ok(()));
    assert_eq!(verify_password(&u.password, "s3cret!"), Err(Error::AuthFailIncorrectPassword));
    // A salt of sixteen bytes made of multi-byte characters.
    let salt = "ééééééééé";
    let salt = &salt[..16];
    let u = user_with_password("pässwörd", salt);
    assert_eq!(verify_password(&u.password, "pässwörd"), Ok(()));
}

#[test]
fn login_steps() {
    let payload = LoginPayload { username: None, password: Some("x".to_string()) };
    assert_eq!(login_username(payload.username), Err(Error::AuthFailUserNotFound));
    assert_eq!(login_username(Some("ivy".to_string())), Ok("ivy".to_string()));
    let u = user_with_password("right", "saltsaltsaltsalt");
    assert_eq!(check_login(None, Some("right".to_string())), Err(Error::QueryFailNoUsername));
    assert_eq!(check_login(Some(u.clone()), None), Err(Error::QueryFailNoPassword));
    assert_eq!(
        check_login(Some(u.clone()), Some("wrong".to_string())),
        Err(Error::AuthFailIncorrectPassword)
    );
    assert_eq!(check_login(Some(u.clone()), Some("right".to_string())), Ok(u));
}

#[test]
fn sign_up_steps() {
    assert_eq!(sign_up_username(None), Err(Error::QueryFailNoUsername));
    assert_eq!(sign_up_username(Some("jo".to_string())), Ok("jo".to_string()));
    let existing = user_with_password("a", "saltsaltsaltsalt");
    assert_eq!(
        check_sign_up(Some(existing), Some("a".to_string())),
        Err(Error::AuthFailUserAlreadyExists)
    );
    assert_eq!(check_sign_up(None, None), Err(Error::QueryFailNoPassword));
    let stored = check_sign_up(None, Some("new-pw".to_string())).unwrap();
    assert_eq!(stored, format!("{}{}", SALT, hash_password("new-pw".to_string())));
    assert_eq!(stored, stored_password("new-pw", SALT));
}

#[test]
fn law_sign_up_then_login() {
    let stored = check_sign_up(None, Some("open sesame".to_string())).unwrap();
    let mut item = new_user_item("nia@example.com".to_string(), stored);
    item.reverse();
    let user = user_from_item(Some(item)).unwrap().unwrap();
    assert_eq!(user.email, "nia@example.com");
    assert_eq!(check_login(Some(user.clone()), Some("open sesame".to_string())), Ok(user.clone()));
    assert_eq!(
        check_login(Some(user), Some("open sesame!".to_string())),
        Err(Error::AuthFailIncorrectPassword)
    );
}

#[test]
fn hash_layout() {
    let h = hash_with_salt("hunter2", "0123456789abcdef");
    let head = format!("{}{}$", PREFIX, "MDEyMzQ1Njc4OWFiY2RlZg");
    assert!(h.starts_with(&head), "{}", h);
    let raw = &h[head.len()..];
    assert_eq!(raw.len(), 43);
    assert!(raw.chars().all(|c| c.is_ascii_alphanumeric() || c == '+' || c == '/'));
}
