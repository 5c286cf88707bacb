use firestoredb::env::{
    collection, collection_path, credentials, max_retries, parse_scopes, project_id, scoped_key,
    scopes, Environment,
};
use firestoredb::error::{Cause, Error};

fn env_of(pairs: &[(&str, &str)]) -> Environment {
    let mut env = Environment::new();
    for (k, v) in pairs {
        env.set(k, v);
    }
    env
}

fn strings(items: &[&str]) -> Vec<String> {
    items.iter().map(|s| s.to_string()).collect()
}

fn no_scopes() -> Vec<String> {
    panic!("the default provider must not be called when the key is set")
}

fn two_scopes() -> Vec<String> {
    strings(&["x", "y"])
}

#[test]
fn scoped_key_joins_with_underscore() {
    assert_eq!(scoped_key("APP", "PROJECT_ID"), "APP_PROJECT_ID");
    assert_eq!(scoped_key("", "K"), "_K");
}

#[test]
fn environment_get_returns_latest_binding() {
    let mut env = Environment::new();
    assert_eq!(env.get("A"), None);
    env.set("A", "1");
    env.set("B", "2");
    assert_eq!(env.get("A"), Some("1".to_string()));
    env.set("A", "3");
    assert_eq!(env.get("A"), Some("3".to_string()));
    assert_eq!(env.get("B"), Some("2".to_string()));
    assert_eq!(env.get("C"), None);
}

#[test]
fn required_keys_are_returned_when_set() {
    let env = env_of(&[
        ("APP_PROJECT_ID", "proj"),
        ("APP_CREDENTIALS", "{\"type\":\"x\"}"),
        ("APP_COLLECTION", "users"),
    ]);
    assert_eq!(project_id(&env, "APP").unwrap(), "proj");
    assert_eq!(credentials(&env, "APP").unwrap(), "{\"type\":\"x\"}");
    assert_eq!(collection(&env, "APP").unwrap(), "users");
}

#[test]
fn required_keys_fail_with_the_scoped_key_when_unset() {
    let env = env_of(&[("OTHER_PROJECT_ID", "proj")]);
    match project_id(&env, "APP") {
        Err(Error::MissingConfig(key)) => assert_eq!(key, "APP_PROJECT_ID"),
        other => panic!("unexpected: {:?}", other),
    }
    match credentials(&env, "APP") {
        Err(Error::MissingConfig(key)) => assert_eq!(key, "APP_CREDENTIALS"),
        other => panic!("unexpected: {:?}", other),
    }
    match collection(&env, "APP") {
        Err(Error::MissingConfig(key)) => assert_eq!(key, "APP_COLLECTION"),
        other => panic!("unexpected: {:?}", other),
    }
}

#[test]
fn namespaces_do_not_collide() {
    let env = env_of(&[("A_COLLECTION", "one"), ("B_COLLECTION", "two")]);
    assert_eq!(collection(&env, "A").unwrap(), "one");
    assert_eq!(collection(&env, "B").unwrap(), "two");
}

#[test]
fn max_retries_unset_returns_default() {
    let env = Environment::new();
    assert_eq!(max_retries(&env, "APP", 3).unwrap(), 3);
    assert_eq!(max_retries(&env, "APP", 17).unwrap(), 17);
}

#[test]
fn max_retries_set_to_five_returns_five() {
    let env = env_of(&[("APP_MAX_RETRIES", "5")]);
    assert_eq!(max_retries(&env, "APP", 3).unwrap(), 5);
}

#[test]
fn max_retries_accepts_plus_sign_and_leading_zeros() {
    let env = env_of(&[("A_MAX_RETRIES", "+7"), ("B_MAX_RETRIES", "007"), ("C_MAX_RETRIES", "0")]);
    assert_eq!(max_retries(&env, "A", 3).unwrap(), 7);
    assert_eq!(max_retries(&env, "B", 3).unwrap(), 7);
    assert_eq!(max_retries(&env, "C", 3).unwrap(), 0);
}

#[test]
fn max_retries_set_to_abc_is_invalid() {
    let env = env_of(&[("APP_MAX_RETRIES", "abc")]);
    let err = max_retries(&env, "APP", 3).unwrap_err();
    match &err {
        Error::InvalidConfig { key, value, cause } => {
            assert_eq!(key, "APP_MAX_RETRIES");
            assert_eq!(value, "abc");
            assert_eq!(cause, &"abc".parse::<usize>().unwrap_err());
        }
        other => panic!("unexpected: {:?}", other),
    }
    match err.source() {
        Some(Cause::Parse(cause)) => assert_eq!(cause, &"abc".parse::<usize>().unwrap_err()),
        _ => panic!("a parse failure has a parse cause"),
    }
}

#[test]
fn max_retries_rejects_malformed_numbers() {
    for raw in ["", " 5", "5 ", "-1", "+", "1_000", "5.0", "99999999999999999999999999999999999999999"] {
        let env = env_of(&[("APP_MAX_RETRIES", raw)]);
        match max_retries(&env, "APP", 3) {
            Err(Error::InvalidConfig { key, value, .. }) => {
                assert_eq!(key, "APP_MAX_RETRIES");
                assert_eq!(value, raw);
            }
            other => panic!("unexpected for {:?}: {:?}", raw, other),
        }
    }
}

#[test]
fn scopes_unset_returns_default_provider_result() {
    let env = Environment::new();
    assert_eq!(scopes(&env, "APP", two_scopes).unwrap(), strings(&["x", "y"]));
    let captured = strings(&["z"]);
    assert_eq!(scopes(&env, "APP", || captured.clone()).unwrap(), strings(&["z"]));
}

#[test]
fn scopes_set_are_split_and_trimmed() {
    let env = env_of(&[("APP_SCOPES", "a, b ,c")]);
    assert_eq!(scopes(&env, "APP", no_scopes).unwrap(), strings(&["a", "b", "c"]));
}

#[test]
fn scopes_keep_empty_segments() {
    assert_eq!(parse_scopes(""), strings(&[""]));
    assert_eq!(parse_scopes("a,,b"), strings(&["a", "", "b"]));
    assert_eq!(parse_scopes(" , "), strings(&["", ""]));
    assert_eq!(parse_scopes("a,"), strings(&["a", ""]));
    assert_eq!(parse_scopes(",a"), strings(&["", "a"]));
}

#[test]
fn scopes_trim_unicode_whitespace_only_at_the_ends() {
    assert_eq!(parse_scopes("\t a b \n,\u{a0}c\u{3000}"), strings(&["a b", "c"]));
    assert_eq!(parse_scopes("\u{200b}a"), strings(&["\u{200b}a"]));
}

#[test]
fn collection_path_unset_is_none() {
    let env = Environment::new();
    assert!(collection_path(&env, "APP").unwrap().is_none());
}

#[test]
fn collection_path_set_is_parsed_into_tokens() {
    let env = env_of(&[("APP_COLLECTION_PATH", "a/1/b/2")]);
    let path = collection_path(&env, "APP").unwrap().unwrap();
    assert_eq!(path.raw(), "a/1/b/2");
    assert_eq!(path.to_tokens(), strings(&["a", "1", "b", "2"]));
}

#[test]
fn keys_are_namespace_underscore_suffix_and_nothing_else() {
    let env = env_of(&[
        ("APP_FS_MAX_RETRIES", "9"),
        ("APPMAX_RETRIES", "9"),
        ("MAX_RETRIES", "9"),
        ("APP_MAX_RETRIES_", "9"),
        ("app_MAX_RETRIES", "9"),
    ]);
    assert_eq!(max_retries(&env, "APP", 3).unwrap(), 3);
    let env = env_of(&[("APP_FS_PROJECT_ID", "p"), ("APP_FS_SCOPES", "s")]);
    assert!(matches!(project_id(&env, "APP"), Err(Error::MissingConfig(k)) if k == "APP_PROJECT_ID"));
    assert_eq!(scopes(&env, "APP", two_scopes).unwrap(), strings(&["x", "y"]));
}

#[test]
fn max_retries_zero_is_returned_as_zero() {
    let env = env_of(&[("APP_MAX_RETRIES", "0")]);
    assert_eq!(max_retries(&env, "APP", 3).unwrap(), 0);
}

#[test]
fn max_retries_negative_is_invalid() {
    let env = env_of(&[("APP_MAX_RETRIES", "-1")]);
    match max_retries(&env, "APP", 3) {
        Err(Error::InvalidConfig { key, value, cause }) => {
            assert_eq!(key, "APP_MAX_RETRIES");
            assert_eq!(value, "-1");
            assert_eq!(cause, "-1".parse::<usize>().unwrap_err());
        }
        other => panic!("unexpected: {:?}", other),
    }
}

#[test]
fn scopes_from_the_store_keep_order_duplicates_and_empty_pieces() {
    let env = env_of(&[("APP_SCOPES", "a,,b")]);
    assert_eq!(scopes(&env, "APP", no_scopes).unwrap(), strings(&["a", "", "b"]));
    let env = env_of(&[("APP_SCOPES", "a, ")]);
    assert_eq!(scopes(&env, "APP", no_scopes).unwrap(), strings(&["a", ""]));
    let env = env_of(&[("APP_SCOPES", "b,a,b")]);
    assert_eq!(scopes(&env, "APP", no_scopes).unwrap(), strings(&["b", "a", "b"]));
    let env = env_of(&[("APP_SCOPES", " a b ,c")]);
    assert_eq!(scopes(&env, "APP", no_scopes).unwrap(), strings(&["a b", "c"]));
}

#[test]
fn required_values_are_returned_unchanged() {
    let env = env_of(&[
        ("NS_PROJECT_ID", " p "),
        ("NS_CREDENTIALS", " {\"a\": 1}\n"),
        ("NS_COLLECTION", "c"),
        ("NS_COLLECTION_PATH", "a/1"),
    ]);
    assert_eq!(project_id(&env, "NS").unwrap(), " p ");
    assert_eq!(credentials(&env, "NS").unwrap(), " {\"a\": 1}\n");
    assert_eq!(collection(&env, "NS").unwrap(), "c");
}

#[test]
fn collection_is_missing_even_when_its_path_is_set() {
    let env = env_of(&[("NS_COLLECTION_PATH", "a/1")]);
    assert!(matches!(collection(&env, "NS"), Err(Error::MissingConfig(k)) if k == "NS_COLLECTION"));
}
