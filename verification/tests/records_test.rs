use snaptask::models::{Client, Project, UpdateClientInput, UpdateProjectInput};
use snaptask::records::{merge_client_update, merge_project_update};

#[test]
fn client_updates_merge() {
    let c = Client {
        id: "c1".to_string(),
        name: "ACME".to_string(),
        company: Some("ACME Inc".to_string()),
        email: None,
        phone: Some("123".to_string()),
        notes: None,
        created_at: "x".to_string(),
        updated_at: "x".to_string(),
    };
    let u = UpdateClientInput {
        id: "c1".to_string(),
        name: None,
        company: None,
        email: Some("a@b.c".to_string()),
        phone: None,
        notes: Some("vip".to_string()),
    };
    let f = merge_client_update(&c, &u);
    assert_eq!(f.name, "ACME");
    assert_eq!(f.company.as_deref(), Some("ACME Inc"));
    assert_eq!(f.email.as_deref(), Some("a@b.c"));
    assert_eq!(f.phone.as_deref(), Some("123"));
    assert_eq!(f.notes.as_deref(), Some("vip"));
}

#[test]
fn project_updates_merge() {
    let p = Project {
        id: "p1".to_string(),
        name: "Site".to_string(),
        description: None,
        client_id: Some("c1".to_string()),
        color: Some("#fff".to_string()),
        status: "active".to_string(),
        created_at: "x".to_string(),
        updated_at: "x".to_string(),
    };
    let u = UpdateProjectInput {
        id: "p1".to_string(),
        name: Some("Site 2".to_string()),
        description: None,
        client_id: None,
        color: None,
        status: Some("archived".to_string()),
    };
    let f = merge_project_update(&p, &u);
    assert_eq!(f.name, "Site 2");
    assert_eq!(f.status, "archived");
    assert_eq!(f.client_id.as_deref(), Some("c1"));
    assert_eq!(f.color.as_deref(), Some("#fff"));
    assert_eq!(f.description, None);
}
