use crm_gateway::errors::ApiError;
use crm_gateway::issue::{
    check_created, check_ticket_reply, compose_subject, create_issue, parse_issue_kind,
    resolve_ticket_defaults, validate_issue_input, IssueKind, IssuePostRequest, IssueRequest,
    IssueServicePostData, LocalStore, TicketOutcome,
};

fn request(subject: &str, description: &str) -> IssuePostRequest {
    IssuePostRequest { subject: String::from(subject), description: String::from(description) }
}

#[test]
fn kinds_form_a_closed_set() {
    assert_eq!(parse_issue_kind("articulo"), Some(IssueKind::Articulo));
    assert_eq!(parse_issue_kind("cliente"), Some(IssueKind::Cliente));
    assert_eq!(parse_issue_kind("pedido"), Some(IssueKind::Pedido));
    assert_eq!(parse_issue_kind("invoice"), None);
    assert_eq!(parse_issue_kind("Articulo"), None);
    assert_eq!(parse_issue_kind(""), None);
}

#[test]
fn validation_rejects_each_bad_input() {
    assert_eq!(validate_issue_input("articulo", 3, "s", "d"), Ok(IssueKind::Articulo));
    assert_eq!(validate_issue_input("invoice", 3, "s", "d"), Err(ApiError::InvalidInput));
    assert_eq!(validate_issue_input("", 3, "s", "d"), Err(ApiError::InvalidInput));
    assert_eq!(validate_issue_input("articulo", 0, "s", "d"), Err(ApiError::InvalidInput));
    assert_eq!(validate_issue_input("articulo", 3, "", "d"), Err(ApiError::InvalidInput));
    assert_eq!(validate_issue_input("articulo", 3, "s", ""), Err(ApiError::InvalidInput));
}

#[test]
fn composed_subject_carries_the_deep_link() {
    assert_eq!(
        compose_subject("Help", IssueKind::Articulo, 42),
        String::from("Help\nhttps://crm.mydomain.com/articulo/42")
    );
    assert_eq!(
        compose_subject("Help", IssueKind::Cliente, 7),
        String::from("Help\nhttps://crm.mydomain.com/profile/7")
    );
    assert_eq!(
        compose_subject("Help", IssueKind::Pedido, 9),
        String::from("Help\nhttps://crm.mydomain.com/pedido/9")
    );
}

#[test]
fn ticket_defaults_fill_only_placeholders() {
    let data = IssueServicePostData {
        subject: String::from("s"),
        description: String::from("d"),
        project_id: 0,
        tracker_id: 0,
    };
    let resolved = resolve_ticket_defaults(data, 11, 22);
    assert_eq!(resolved.project_id, 11);
    assert_eq!(resolved.tracker_id, 22);
    assert_eq!(resolved.subject, String::from("s"));

    let data = IssueServicePostData {
        subject: String::from("s"),
        description: String::from("d"),
        project_id: 3,
        tracker_id: 4,
    };
    let resolved = resolve_ticket_defaults(data, 11, 22);
    assert_eq!(resolved.project_id, 3);
    assert_eq!(resolved.tracker_id, 4);
}

#[test]
fn created_records_must_carry_a_real_id() {
    let record = IssueRequest {
        id: 0,
        fecha_creacion: 5,
        data: crm_gateway::issue::IssueData {
            tipo: IssueKind::Pedido,
            id: 1,
            subject: String::from("s"),
            description: String::from("d"),
        },
    };
    assert_eq!(check_created(record), Err(ApiError::Internal));
}

#[test]
fn ticket_replies_must_be_nonzero_numbers() {
    assert_eq!(check_ticket_reply("123"), Ok(123));
    assert_eq!(check_ticket_reply("0"), Err(ApiError::Internal));
    assert_eq!(check_ticket_reply(""), Err(ApiError::Internal));
    assert_eq!(check_ticket_reply("many"), Err(ApiError::Internal));
}

#[test]
fn store_assigns_increasing_nonzero_ids() {
    let mut store = LocalStore::new();
    let req = request("a", "b");
    let first = create_issue(&mut store, "pedido", 1, &req, 10, &TicketOutcome::Reply(
        String::from("5"),
    ))
    .unwrap();
    let second = create_issue(&mut store, "pedido", 1, &req, 11, &TicketOutcome::Reply(
        String::from("6"),
    ))
    .unwrap();
    assert_eq!(first.id, 1);
    assert_eq!(second.id, 2);
    assert_eq!(store.issues.len(), 2);
    assert_eq!(store.links.len(), 2);
}

#[test]
fn create_issue_persists_and_reports_success() {
    let mut store = LocalStore::new();
    let req = request("Pantalla rota", "No enciende");
    let ticket = TicketOutcome::Reply(String::from("774"));
    let record = create_issue(&mut store, "articulo", 42, &req, 1_000, &ticket).unwrap();

    assert_ne!(record.id, 0);
    assert_eq!(record.fecha_creacion, 1_000);
    assert_eq!(record.data.tipo, IssueKind::Articulo);
    assert_eq!(record.data.id, 42);
    assert_eq!(
        record.data.subject,
        String::from("Pantalla rota\nhttps://crm.mydomain.com/articulo/42")
    );
    assert_eq!(record.data.description, String::from("No enciende"));

    assert_eq!(store.issues.len(), 1);
    assert_eq!(store.issues[0], record);
    assert_eq!(store.links.len(), 1);
    assert_eq!(store.links[0].issue_request_id, record.id);
    assert_eq!(store.links[0].tipo, IssueKind::Articulo);
    assert_eq!(store.links[0].target_id, 42);
}

#[test]
fn invalid_type_writes_nothing() {
    let mut store = LocalStore::new();
    let req = request("s", "d");
    let ticket = TicketOutcome::Reply(String::from("1"));
    let res = create_issue(&mut store, "invoice", 42, &req, 1_000, &ticket);
    assert_eq!(res.unwrap_err(), ApiError::InvalidInput);
    assert!(store.issues.is_empty());
    assert!(store.links.is_empty());
}

#[test]
fn ticket_failure_keeps_the_local_writes() {
    let mut store = LocalStore::new();
    let req = request("s", "d");
    let res = create_issue(&mut store, "cliente", 7, &req, 1_000, &TicketOutcome::Unavailable);
    assert_eq!(res.unwrap_err(), ApiError::Unavailable);

    // the record and its link persist even though no remote ticket exists
    assert_eq!(store.issues.len(), 1);
    assert_ne!(store.issues[0].id, 0);
    assert_eq!(store.links.len(), 1);
    assert_eq!(store.links[0].issue_request_id, store.issues[0].id);
    assert_eq!(store.links[0].tipo, IssueKind::Cliente);
    assert_eq!(store.links[0].target_id, 7);
}

#[test]
fn bad_ticket_reply_keeps_the_local_writes() {
    let mut store = LocalStore::new();
    let req = request("s", "d");
    let res = create_issue(&mut store, "pedido", 3, &req, 1_000, &TicketOutcome::Reply(
        String::from("0"),
    ));
    assert_eq!(res.unwrap_err(), ApiError::Internal);
    assert_eq!(store.issues.len(), 1);
    assert_eq!(store.links.len(), 1);

    let res = create_issue(&mut store, "pedido", 3, &req, 1_001, &TicketOutcome::Reply(
        String::from("not a number"),
    ));
    assert_eq!(res.unwrap_err(), ApiError::Internal);
    assert_eq!(store.issues.len(), 2);
    assert_eq!(store.links.len(), 2);
}

#[test]
fn histories_follow_links_per_target() {
    let mut store = LocalStore::new();
    let req = request("s", "d");
    let ok = TicketOutcome::Reply(String::from("1"));
    create_issue(&mut store, "articulo", 42, &req, 10, &ok).unwrap();
    create_issue(&mut store, "cliente", 42, &req, 20, &ok).unwrap();
    create_issue(&mut store, "articulo", 7, &req, 30, &ok).unwrap();
    create_issue(&mut store, "articulo", 42, &req, 40, &ok).unwrap();

    let history = store.issues_for_target(IssueKind::Articulo, 42);
    assert_eq!(history.len(), 2);
    assert_eq!(history[0].fecha_creacion, 10);
    assert_eq!(history[1].fecha_creacion, 40);

    let history = store.issues_for_target(IssueKind::Cliente, 42);
    assert_eq!(history.len(), 1);
    assert_eq!(history[0].fecha_creacion, 20);

    let history = store.issues_for_target(IssueKind::Pedido, 42);
    assert!(history.is_empty());
}
