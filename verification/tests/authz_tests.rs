use crm_gateway::authz::authorize;
use crm_gateway::profile::{Attribute, AuthProfile};

fn profile_with_role(user_id: i32, role: &str) -> AuthProfile {
    AuthProfile {
        id: 1,
        client_id: String::from("web"),
        user_id,
        attributes: vec![Attribute { key: String::from("role"), value: String::from(role) }],
    }
}

fn profile_without_role(user_id: i32) -> AuthProfile {
    AuthProfile {
        id: 1,
        client_id: String::from("web"),
        user_id,
        attributes: vec![Attribute { key: String::from("team"), value: String::from("sales") }],
    }
}

#[test]
fn owner_is_allowed() {
    let p = profile_with_role(5, "");
    assert!(authorize(&p, 5));
}

#[test]
fn non_owner_without_admin_is_denied() {
    let p = profile_with_role(5, "");
    assert!(!authorize(&p, 6));
}

#[test]
fn admin_may_touch_anyone() {
    let p = profile_with_role(5, "admin");
    assert!(authorize(&p, 6));
}

#[test]
fn missing_role_attribute_means_non_admin() {
    let p = profile_without_role(5);
    assert!(!authorize(&p, 6));
    assert!(authorize(&p, 5));
}

#[test]
fn other_roles_are_not_admin() {
    let p = profile_with_role(5, "editor");
    assert!(!authorize(&p, 6));
}

#[test]
fn attribute_lookup_reads_the_first_match() {
    let p = AuthProfile {
        id: 1,
        client_id: String::from("web"),
        user_id: 2,
        attributes: vec![
            Attribute { key: String::from("role"), value: String::from("admin") },
            Attribute { key: String::from("role"), value: String::from("viewer") },
        ],
    };
    assert_eq!(p.attribute("role"), Some(&String::from("admin")));
    assert_eq!(p.attribute("absent"), None);
    assert!(p.is_admin());
}
