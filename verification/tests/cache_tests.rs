use crm_gateway::cache::SessionCache;
use crm_gateway::profile::{Attribute, AuthProfile};

fn profile(user_id: i32) -> AuthProfile {
    AuthProfile {
        id: user_id,
        client_id: String::from("web"),
        user_id,
        attributes: vec![Attribute { key: String::from("role"), value: String::from("") }],
    }
}

#[test]
fn get_after_set_returns_the_profile() {
    let mut cache = SessionCache::new();
    cache.set("tok", profile(4), 120, 1_000);
    let got = cache.get("tok", 1_001).expect("live entry");
    assert_eq!(got.user_id, 4);
    assert_eq!(got.client_id, String::from("web"));
}

#[test]
fn unknown_token_is_absent() {
    let cache = SessionCache::new();
    assert!(cache.get("nobody", 0).is_none());
}

#[test]
fn expiry_boundary_is_exclusive() {
    let mut cache = SessionCache::new();
    cache.set("tok", profile(4), 120, 1_000);
    assert!(cache.get("tok", 1_119).is_some());
    assert!(cache.get("tok", 1_120).is_none());
    assert!(cache.get("tok", 5_000).is_none());
}

#[test]
fn zero_ttl_never_serves() {
    let mut cache = SessionCache::new();
    cache.set("tok", profile(4), 0, 1_000);
    assert!(cache.get("tok", 1_000).is_none());
}

#[test]
fn newer_write_shadows_older() {
    let mut cache = SessionCache::new();
    cache.set("tok", profile(4), 120, 1_000);
    cache.set("tok", profile(9), 120, 1_050);
    let got = cache.get("tok", 1_060).expect("live entry");
    assert_eq!(got.user_id, 9);
}

#[test]
fn tokens_do_not_collide() {
    let mut cache = SessionCache::new();
    cache.set("tok-a", profile(1), 120, 1_000);
    cache.set("tok-b", profile(2), 120, 1_000);
    assert_eq!(cache.get("tok-a", 1_001).unwrap().user_id, 1);
    assert_eq!(cache.get("tok-b", 1_001).unwrap().user_id, 2);
    assert!(cache.get("tok-c", 1_001).is_none());
}
