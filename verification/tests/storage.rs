use beacon_supervisor::storage::SecureStorage;

#[test]
fn get_on_empty_store_is_none() {
    let st = SecureStorage::new();
    assert!(st.get(&"device-key".to_string()).is_none());
}

#[test]
fn set_then_get_round_trips() {
    let mut st = SecureStorage::new();
    st.set("device-key".to_string(), "opaque-device-secret".to_string());
    let got = st.get(&"device-key".to_string());
    assert_eq!(got.map(String::as_str), Some("opaque-device-secret"));
}

#[test]
fn set_overwrites_existing_value() {
    let mut st = SecureStorage::new();
    st.set("token".to_string(), "first".to_string());
    st.set("token".to_string(), "second".to_string());
    assert_eq!(st.get(&"token".to_string()).map(String::as_str), Some("second"));
}

#[test]
fn distinct_keys_stay_independent() {
    let mut st = SecureStorage::new();
    st.set("alpha".to_string(), "one".to_string());
    st.set("beta".to_string(), "two".to_string());
    st.set("alpha".to_string(), "three".to_string());
    assert_eq!(st.get(&"alpha".to_string()).map(String::as_str), Some("three"));
    assert_eq!(st.get(&"beta".to_string()).map(String::as_str), Some("two"));
    assert!(st.get(&"gamma".to_string()).is_none());
}
