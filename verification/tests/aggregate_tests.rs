use crm_gateway::aggregate::{build_aggregate, sort_newest_first};
use crm_gateway::corp::{AppData, CorpLookup, PersonData, UserData};
use crm_gateway::errors::ApiError;
use crm_gateway::issue::{IssueData, IssueKind, IssueRequest};
use crm_gateway::records::{Cliente, StoreFault};

fn record(id: i32, created_at: i64) -> IssueRequest {
    IssueRequest {
        id,
        fecha_creacion: created_at,
        data: IssueData {
            tipo: IssueKind::Cliente,
            id: 9,
            subject: String::from("s"),
            description: String::from("d"),
        },
    }
}

fn cliente(user_id: i32) -> Cliente {
    Cliente {
        id: 1,
        user_id,
        nombre: String::from("Ana"),
        email: String::from("ana@example.com"),
        telefono: None,
        direccion: None,
        fecha_registro: 100,
    }
}

fn corp_user(id: i32) -> UserData {
    UserData {
        person: PersonData {
            id,
            dni: String::from("123A"),
            nombre: String::from("Ana"),
            apellidos: String::from("García"),
            email: String::from("ana@example.com"),
            telefono: String::from("600000000"),
        },
        lapp: vec![AppData {
            id: 1,
            client_id: String::from("crm"),
            client_url: String::from("https://crm.example"),
        }],
        lpersonapp: vec![],
    }
}

#[test]
fn corp_absence_degrades_the_aggregate() {
    let history = vec![record(1, 10)];
    let res = build_aggregate(Ok(Some(cliente(9))), CorpLookup::Absent, Ok(history)).unwrap();
    assert!(res.corp_user.is_none());
    assert_eq!(res.cliente.unwrap().user_id, 9);
    assert_eq!(res.issue_requests.len(), 1);
}

#[test]
fn corp_failure_aborts_the_aggregate() {
    let history = vec![record(1, 10)];
    let res = build_aggregate(Ok(Some(cliente(9))), CorpLookup::Failed, Ok(history));
    assert_eq!(res.unwrap_err(), ApiError::FailedDependency);
}

#[test]
fn corp_person_is_carried_through() {
    let res = build_aggregate(Ok(None), CorpLookup::Found(corp_user(9)), Ok(vec![])).unwrap();
    assert!(res.cliente.is_none());
    assert_eq!(res.corp_user.unwrap().person.id, 9);
    assert!(res.issue_requests.is_empty());
}

#[test]
fn customer_store_failure_is_internal() {
    let res = build_aggregate(Err(StoreFault), CorpLookup::Absent, Ok(vec![]));
    assert_eq!(res.unwrap_err(), ApiError::Internal);
}

#[test]
fn history_store_failure_is_internal() {
    let res = build_aggregate(Ok(None), CorpLookup::Absent, Err(StoreFault));
    assert_eq!(res.unwrap_err(), ApiError::Internal);
}

#[test]
fn history_comes_back_newest_first() {
    let history = vec![record(1, 10), record(2, 20), record(3, 30)];
    let res = build_aggregate(Ok(None), CorpLookup::Absent, Ok(history)).unwrap();
    let stamps: Vec<i64> = res.issue_requests.iter().map(|r| r.fecha_creacion).collect();
    assert_eq!(stamps, vec![30, 20, 10]);
}

#[test]
fn sorting_reorders_any_incoming_order() {
    let sorted = sort_newest_first(vec![record(2, 20), record(3, 30), record(1, 10)]);
    let stamps: Vec<i64> = sorted.iter().map(|r| r.fecha_creacion).collect();
    assert_eq!(stamps, vec![30, 20, 10]);
}

#[test]
fn sorting_keeps_equal_instants_in_incoming_order() {
    let sorted = sort_newest_first(vec![record(1, 10), record(2, 20), record(3, 20)]);
    let ids: Vec<i32> = sorted.iter().map(|r| r.id).collect();
    assert_eq!(ids, vec![2, 3, 1]);
}

#[test]
fn sorting_an_empty_history_is_empty() {
    assert!(sort_newest_first(vec![]).is_empty());
}
