use pinterest_login::cookies::CookieSet;
use pinterest_login::credentials::cookies_to_json;
use std::collections::HashMap;

fn pair(a: &str, b: &str) -> (String, String) {
    (a.to_string(), b.to_string())
}

#[test]
fn empty_cookie_set_has_nothing() {
    let c = CookieSet::new();
    assert_eq!(c.len(), 0);
    assert!(c.get("csrftoken").is_none());
}

#[test]
fn insert_replaces_earlier_value() {
    let mut c = CookieSet::new();
    c.insert("a".to_string(), "1".to_string());
    c.insert("b".to_string(), "2".to_string());
    c.insert("a".to_string(), "3".to_string());
    assert_eq!(c.len(), 2);
    assert_eq!(c.get("a").unwrap(), "3");
    assert_eq!(c.get("b").unwrap(), "2");
    assert!(c.get("c").is_none());
}

#[test]
fn from_pairs_last_value_wins() {
    let c = CookieSet::from_pairs(vec![pair("x", "1"), pair("y", "2"), pair("x", "9")]);
    assert_eq!(c.len(), 2);
    assert_eq!(c.get("x").unwrap(), "9");
    assert_eq!(c.get("y").unwrap(), "2");
    assert_eq!(c.entries()[0], pair("x", "9"));
}

#[test]
fn json_of_cookies_is_one_object() {
    let c = CookieSet::from_pairs(vec![pair("sessionid", "xyz"), pair("csrftoken", "abc123")]);
    let text = cookies_to_json(&c).unwrap();
    assert_eq!(text, "{\"csrftoken\":\"abc123\",\"sessionid\":\"xyz\"}");
}

#[test]
fn json_of_no_cookies_is_empty_object() {
    assert_eq!(cookies_to_json(&CookieSet::new()).unwrap(), "{}");
}

#[test]
fn persisted_cookies_reload_equal() {
    let c = CookieSet::from_pairs(vec![
        pair("csrftoken", "abc123"),
        pair("sessionid", "xyz"),
        pair("quote", "a\"b\\c"),
    ]);
    let text = cookies_to_json(&c).unwrap();
    let back: HashMap<String, String> = serde_json::from_str(&text).unwrap();
    let mut expected = HashMap::new();
    for (k, v) in c.entries() {
        expected.insert(k.clone(), v.clone());
    }
    assert_eq!(back, expected);
    let again = CookieSet::from_pairs(back.into_iter().collect());
    assert_eq!(again.len(), c.len());
    for (k, v) in c.entries() {
        assert_eq!(again.get(k).unwrap(), v);
    }
}
