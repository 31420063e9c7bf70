use jwt_auth::controllers::db::dynamo::{
    new_user_item, user_from_item, user_key, AttrValue, Item, DEFAULT_KNOWN_AS, SECTION,
};
use jwt_auth::error::Error;
use jwt_auth::user::User;

fn s(v: &str) -> AttrValue {
    AttrValue::S(v.to_string())
}

fn item(entries: &[(&str, AttrValue)]) -> Item {
    entries.iter().map(|(k, v)| (k.to_string(), v.clone())).collect()
}

#[test]
fn absent_item_is_no_user() {
    assert_eq!(user_from_item(None), Ok(None));
}

#[test]
fn full_item_is_a_user() {
    let it = item(&[
        ("password", s("pw")),
        ("known_as", s("Kim")),
        ("cohort", s("x")),
        ("email", s("kim@example.com")),
    ]);
    assert_eq!(
        user_from_item(Some(it)),
        Ok(Some(User {
            email: "kim@example.com".to_string(),
            known_as: "Kim".to_string(),
            password: "pw".to_string(),
            group: 0,
        }))
    );
}

#[test]
fn missing_fields_are_reported_in_order() {
    let it = item(&[("known_as", s("Kim"))]);
    assert_eq!(user_from_item(Some(it)), Err(Error::DBFailFieldNotFound("email".to_string())));
    let it = item(&[("email", s("k")), ("password", s("p"))]);
    assert_eq!(user_from_item(Some(it)), Err(Error::DBFailFieldNotFound("known_as".to_string())));
    let it = item(&[("email", s("k")), ("known_as", s("K"))]);
    assert_eq!(user_from_item(Some(it)), Err(Error::DBFailFieldNotFound("password".to_string())));
}

#[test]
fn non_string_password_is_empty() {
    let it = item(&[("email", s("k")), ("known_as", s("K")), ("password", AttrValue::Other)]);
    assert_eq!(user_from_item(Some(it)), Err(Error::DBFailFieldEmpty("password".to_string())));
}

#[test]
fn law_new_user_item_reads_back() {
    let it = new_user_item("lee@example.com".to_string(), "stored".to_string());
    assert_eq!(it.len(), 4);
    assert_eq!(
        user_from_item(Some(it)),
        Ok(Some(User {
            email: "lee@example.com".to_string(),
            known_as: DEFAULT_KNOWN_AS.to_string(),
            password: "stored".to_string(),
            group: 0,
        }))
    );
    assert_eq!(DEFAULT_KNOWN_AS, "GG");
}

#[test]
fn law_item_read_back_in_any_order() {
    let it = new_user_item("ola@example.com".to_string(), "pw".to_string());
    let n = it.len();
    for shift in 0..n {
        let mut rotated = it.clone();
        rotated.rotate_left(shift);
        rotated.push(("extra".to_string(), AttrValue::Other));
        assert_eq!(
            user_from_item(Some(rotated)),
            Ok(Some(User {
                email: "ola@example.com".to_string(),
                known_as: "GG".to_string(),
                password: "pw".to_string(),
                group: 0,
            }))
        );
    }
}

#[test]
fn lookup_key() {
    let k = user_key("m@example.com".to_string());
    assert_eq!(k, item(&[("email", s("m@example.com")), ("cohort", s(SECTION))]));
}

#[test]
fn failed_requests_are_connection_failures() {
    assert_eq!(jwt_auth::controllers::db::dynamo::db_answer(Some(7)), Ok(7));
    assert_eq!(
        jwt_auth::controllers::db::dynamo::db_answer::<u8>(None),
        Err(Error::DBConnectionFail)
    );
}
