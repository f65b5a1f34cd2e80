//! The issue-creation workflow: validation, the composed subject with
//! its deep link, the local store writes, and the ticketing call's
//! outcome — with the partial-failure rule spelled out: once the local
//! record and its link are written, a ticketing failure does not undo
//! them.

use crate::decimal::{i32_decimal, parse_i32, spec_decimal_int, spec_parse_i32};
use crate::errors::ApiError;
use vstd::prelude::*;

verus! {

/// The closed set of things an issue may be filed against.
#[derive(Clone, Copy, Debug, PartialEq, Eq, Structural)]
pub enum IssueKind {
    Articulo,
    Cliente,
    Pedido,
}

/// What the caller submits to open an issue.
#[derive(Debug, PartialEq, Eq)]
pub struct IssuePostRequest {
    pub subject: String,
    pub description: String,
}

/// The payload stored with an issue request: what it is about, the
/// target's id, and the composed subject and description.
#[derive(Debug, PartialEq, Eq)]
pub struct IssueData {
    pub tipo: IssueKind,
    pub id: i32,
    pub subject: String,
    pub description: String,
}

impl Clone for IssueData {
    fn clone(&self) -> (res: Self)
        ensures
            res == *self,
    {
        IssueData {
            tipo: self.tipo,
            id: self.id,
            subject: self.subject.clone(),
            description: self.description.clone(),
        }
    }
}

/// A stored issue request. The store assigns `id`; a stored record never
/// carries the placeholder zero.
#[derive(Debug, PartialEq, Eq)]
pub struct IssueRequest {
    pub id: i32,
    pub fecha_creacion: i64,
    pub data: IssueData,
}

impl Clone for IssueRequest {
    fn clone(&self) -> (res: Self)
        ensures
            res == *self,
    {
        IssueRequest { id: self.id, fecha_creacion: self.fecha_creacion, data: self.data.clone() }
    }
}

/// The join of an issue request to its target.
#[derive(Clone, Copy, Debug, PartialEq, Eq, Structural)]
pub struct IssueLink {
    pub issue_request_id: i32,
    pub tipo: IssueKind,
    pub target_id: i32,
}

/// What is sent to the ticketing service.
#[derive(Debug, PartialEq, Eq)]
pub struct IssueServicePostData {
    pub subject: String,
    pub description: String,
    pub project_id: i32,
    pub tracker_id: i32,
}

/// The kind named by a request path segment, if it names one at all.
pub open spec fn spec_parse_kind(tipo: Seq<char>) -> Option<IssueKind> {
    if tipo == "articulo"@ {
        Some(IssueKind::Articulo)
    } else if tipo == "cliente"@ {
        Some(IssueKind::Cliente)
    } else if tipo == "pedido"@ {
        Some(IssueKind::Pedido)
    } else {
        None
    }
}

pub fn parse_issue_kind(tipo: &str) -> (res: Option<IssueKind>)
    ensures
        res == spec_parse_kind(tipo@),
{
    let owned = tipo.to_owned();
    if owned == String::from_str("articulo") {
        Some(IssueKind::Articulo)
    } else if owned == String::from_str("cliente") {
        Some(IssueKind::Cliente)
    } else if owned == String::from_str("pedido") {
        Some(IssueKind::Pedido)
    } else {
        None
    }
}

/// When a submitted issue is acceptable: a real target id, a kind from
/// the closed set, and a non-empty subject and description.
pub open spec fn spec_issue_input_valid(
    tipo: Seq<char>,
    target_id: int,
    subject: Seq<char>,
    description: Seq<char>,
) -> bool {
    target_id != 0 && subject.len() > 0 && description.len() > 0 && spec_parse_kind(tipo) is Some
}

/// Validates a submitted issue before any side effect. Everything
/// unacceptable is the caller's error, nothing else.
pub fn validate_issue_input(
    tipo: &str,
    target_id: i32,
    subject: &str,
    description: &str,
) -> (res: Result<IssueKind, ApiError>)
    ensures
        spec_issue_input_valid(tipo@, target_id as int, subject@, description@) ==> res
            == Result::<IssueKind, ApiError>::Ok(spec_parse_kind(tipo@)->Some_0),
        !spec_issue_input_valid(tipo@, target_id as int, subject@, description@) ==> res
            == Result::<IssueKind, ApiError>::Err(ApiError::InvalidInput),
{
    if target_id == 0 {
        return Err(ApiError::InvalidInput);
    }
    if subject.is_empty() || description.is_empty() {
        return Err(ApiError::InvalidInput);
    }
    match parse_issue_kind(tipo) {
        Some(kind) => Ok(kind),
        None => Err(ApiError::InvalidInput),
    }
}

/// The path segment the deep link uses for each kind. A customer's page
/// lives under `profile`, not under the kind's own name.
pub open spec fn spec_kind_segment(kind: IssueKind) -> Seq<char> {
    match kind {
        IssueKind::Articulo => "articulo"@,
        IssueKind::Cliente => "profile"@,
        IssueKind::Pedido => "pedido"@,
    }
}

/// The subject as stored and sent onwards: the caller's subject with a
/// deep link to the target appended on a line of its own.
pub open spec fn spec_composed_subject(subject: Seq<char>, kind: IssueKind, id: int) -> Seq<char> {
    subject + "\nhttps://crm.mydomain.com/"@ + spec_kind_segment(kind) + "/"@ + spec_decimal_int(
        id,
    )
}

pub fn compose_subject(subject: &str, kind: IssueKind, id: i32) -> (res: String)
    ensures
        res@ == spec_composed_subject(subject@, kind, id as int),
{
    let mut out = subject.to_owned();
    out.append("\nhttps://crm.mydomain.com/");
    match kind {
        IssueKind::Articulo => out.append("articulo"),
        IssueKind::Cliente => out.append("profile"),
        IssueKind::Pedido => out.append("pedido"),
    }
    out.append("/");
    let digits = i32_decimal(id);
    out.append(digits.as_str());
    proof {
        assert(out@ =~= spec_composed_subject(subject@, kind, id as int));
    }
    out
}

/// Fills the ticketing post's placeholders: a zero project or tracker id
/// means the configured default applies; everything else passes through.
pub fn resolve_ticket_defaults(
    data: IssueServicePostData,
    default_project_id: i32,
    default_tracker_id: i32,
) -> (res: IssueServicePostData)
    ensures
        res.subject == data.subject,
        res.description == data.description,
        res.project_id == if data.project_id == 0 {
            default_project_id
        } else {
            data.project_id
        },
        res.tracker_id == if data.tracker_id == 0 {
            default_tracker_id
        } else {
            data.tracker_id
        },
{
    let project_id = if data.project_id == 0 {
        default_project_id
    } else {
        data.project_id
    };
    let tracker_id = if data.tracker_id == 0 {
        default_tracker_id
    } else {
        data.tracker_id
    };
    IssueServicePostData { subject: data.subject, description: data.description, project_id, tracker_id }
}

/// The defensive check after the local insert: the store must have
/// assigned a real id, a zero id is a broken invariant.
pub fn check_created(record: IssueRequest) -> (res: Result<IssueRequest, ApiError>)
    ensures
        record.id != 0 ==> res == Result::<IssueRequest, ApiError>::Ok(record),
        record.id == 0 ==> res == Result::<IssueRequest, ApiError>::Err(ApiError::Internal),
{
    if record.id == 0 {
        Err(ApiError::Internal)
    } else {
        Ok(record)
    }
}

/// The check applied to the ticketing service's reply: it must be a
/// number, and not zero. Anything else means no remote ticket exists.
pub fn check_ticket_reply(reply: &str) -> (res: Result<i32, ApiError>)
    ensures
        match res {
            Ok(v) => spec_parse_i32(reply@) == Some(v as int) && v != 0,
            Err(e) => e == ApiError::Internal && (spec_parse_i32(reply@) is None
                || spec_parse_i32(reply@) == Some(0int)),
        },
{
    match parse_i32(reply) {
        Some(v) => if v != 0 {
            Ok(v)
        } else {
            Err(ApiError::Internal)
        },
        None => Err(ApiError::Internal),
    }
}

/// Whether `links` joins issue `issue_id` to the given target.
pub open spec fn spec_linked(
    links: Seq<IssueLink>,
    issue_id: i32,
    tipo: IssueKind,
    target_id: i32,
) -> bool {
    exists|j: int|
        0 <= j < links.len() && #[trigger] links[j] == (IssueLink {
            issue_request_id: issue_id,
            tipo: tipo,
            target_id: target_id,
        })
}

/// The issues that carry a link to the given target, in store order.
pub open spec fn spec_linked_history(
    issues: Seq<IssueRequest>,
    links: Seq<IssueLink>,
    tipo: IssueKind,
    target_id: i32,
) -> Seq<IssueRequest>
    decreases issues.len(),
{
    if issues.len() == 0 {
        Seq::empty()
    } else {
        let rest = spec_linked_history(issues.drop_last(), links, tipo, target_id);
        if spec_linked(links, issues.last().id, tipo, target_id) {
            rest.push(issues.last())
        } else {
            rest
        }
    }
}

/// The local store as the workflow sees it: issue requests in insertion
/// order, their links, and the next id to assign. It models exactly what
/// the workflow needs from the relational store: ids are assigned
/// uniquely and never zero, and a link exists only for a stored issue.
pub struct LocalStore {
    pub issues: Vec<IssueRequest>,
    pub links: Vec<IssueLink>,
    pub next_id: i32,
}

impl LocalStore {
    /// Whether an issue with this id is stored.
    pub open spec fn spec_has_issue(self, id: i32) -> bool {
        exists|i: int| 0 <= i < self.issues@.len() && #[trigger] self.issues@[i].id == id
    }

    /// The store's invariant: ids are positive, below the next to be
    /// assigned, and unique; every link names a stored issue.
    pub open spec fn wf(self) -> bool {
        &&& 1 <= self.next_id
        &&& forall|i: int|
            0 <= i < self.issues@.len() ==> 1 <= #[trigger] self.issues@[i].id < self.next_id
        &&& forall|i: int, j: int|
            0 <= i < j < self.issues@.len() ==> #[trigger] self.issues@[i].id
                != #[trigger] self.issues@[j].id
        &&& forall|j: int|
            0 <= j < self.links@.len() ==> self.spec_has_issue(
                (#[trigger] self.links@[j]).issue_request_id,
            )
    }

    pub fn new() -> (res: LocalStore)
        ensures
            res.wf(),
            res.issues@ == Seq::<IssueRequest>::empty(),
            res.links@ == Seq::<IssueLink>::empty(),
            res.next_id == 1,
    {
        LocalStore { issues: Vec::new(), links: Vec::new(), next_id: 1 }
    }

    /// Persists an issue request: the store assigns the next id, which
    /// is never zero, and keeps the payload and creation instant as
    /// given. The returned record is exactly what was stored.
    pub fn create_issue_request(&mut self, data: IssueData, now: i64) -> (record: IssueRequest)
        requires
            old(self).wf(),
            old(self).next_id < i32::MAX,
        ensures
            final(self).wf(),
            record.id == old(self).next_id,
            record.id != 0,
            record.fecha_creacion == now,
            record.data == data,
            final(self).issues@ == old(self).issues@.push(record),
            final(self).links@ == old(self).links@,
            final(self).next_id == old(self).next_id + 1,
    {
        let record = IssueRequest { id: self.next_id, fecha_creacion: now, data };
        let stored = record.clone();
        self.issues.push(stored);
        self.next_id = self.next_id + 1;
        proof {
            assert forall|j: int| 0 <= j < self.links@.len() implies self.spec_has_issue(
                (#[trigger] self.links@[j]).issue_request_id,
            ) by {
                let id = self.links@[j].issue_request_id;
                let i = choose|i: int|
                    0 <= i < old(self).issues@.len() && #[trigger] old(self).issues@[i].id == id;
                assert(self.issues@[i].id == id);
            }
        }
        record
    }

    /// Persists the join of a stored issue request to its target. The
    /// issue must already exist: a link is never written first.
    pub fn create_issue_link(&mut self, issue_request_id: i32, tipo: IssueKind, target_id: i32)
        requires
            old(self).wf(),
            old(self).spec_has_issue(issue_request_id),
        ensures
            final(self).wf(),
            final(self).links@ == old(self).links@.push(
                (IssueLink { issue_request_id, tipo, target_id }),
            ),
            final(self).issues@ == old(self).issues@,
            final(self).next_id == old(self).next_id,
    {
        self.links.push(IssueLink { issue_request_id, tipo, target_id });
        proof {
            assert forall|j: int| 0 <= j < self.links@.len() implies self.spec_has_issue(
                (#[trigger] self.links@[j]).issue_request_id,
            ) by {
                let id = self.links@[j].issue_request_id;
                if j < old(self).links@.len() {
                    let i = choose|i: int|
                        0 <= i < old(self).issues@.len() && #[trigger] old(self).issues@[i].id
                            == id;
                    assert(self.issues@[i].id == id);
                } else {
                    let i = choose|i: int|
                        0 <= i < old(self).issues@.len() && #[trigger] old(self).issues@[i].id
                            == issue_request_id;
                    assert(self.issues@[i].id == id);
                }
            }
        }
    }

    /// Whether the store joins issue `issue_id` to the given target.
    fn has_link(&self, issue_id: i32, tipo: IssueKind, target_id: i32) -> (res: bool)
        ensures
            res == spec_linked(self.links@, issue_id, tipo, target_id),
    {
        let wanted = IssueLink { issue_request_id: issue_id, tipo, target_id };
        let mut j: usize = 0;
        while j < self.links.len()
            invariant
                j <= self.links.len(),
                wanted == (IssueLink { issue_request_id: issue_id, tipo, target_id }),
                forall|k: int| 0 <= k < j ==> #[trigger] self.links@[k] != wanted,
            decreases self.links.len() - j,
        {
            if self.links[j].issue_request_id == wanted.issue_request_id
                && self.links[j].tipo == wanted.tipo
                && self.links[j].target_id == wanted.target_id {
                return true;
            }
            j += 1;
        }
        false
    }

    /// The issue history of one target: every stored issue joined to it,
    /// in insertion order. The aggregate read path reorders this
    /// newest-first before anyone sees it.
    pub fn issues_for_target(&self, tipo: IssueKind, target_id: i32) -> (res: Vec<IssueRequest>)
        ensures
            res@ == spec_linked_history(self.issues@, self.links@, tipo, target_id),
    {
        let mut out: Vec<IssueRequest> = Vec::new();
        let mut i: usize = 0;
        while i < self.issues.len()
            invariant
                i <= self.issues.len(),
                out@ == spec_linked_history(
                    self.issues@.subrange(0, i as int),
                    self.links@,
                    tipo,
                    target_id,
                ),
            decreases self.issues.len() - i,
        {
            proof {
                let upto = self.issues@.subrange(0, i as int + 1);
                assert(upto.drop_last() =~= self.issues@.subrange(0, i as int));
                assert(upto.last() == self.issues@[i as int]);
            }
            if self.has_link(self.issues[i].id, tipo, target_id) {
                out.push(self.issues[i].clone());
            }
            i += 1;
        }
        proof {
            assert(self.issues@.subrange(0, self.issues@.len() as int) =~= self.issues@);
        }
        out
    }
}

/// What the ticketing call came to: the service's textual reply, or no
/// usable answer at all.
#[derive(Debug)]
pub enum TicketOutcome {
    Reply(String),
    Unavailable,
}

/// The whole issue-creation workflow against the local store, in the
/// strict order the contract fixes: validate (no side effects yet),
/// compose the subject, persist the record, persist its link, then judge
/// the ticketing call's outcome.
///
/// The partial-failure rule is deliberate and stated: on any valid
/// input the record and its link are durably written, whatever the
/// ticketing call came to; a ticketing failure makes the call report an
/// error but rolls nothing back. The local store is the source of truth
/// for "a request was made".
pub fn create_issue(
    store: &mut LocalStore,
    tipo: &str,
    target_id: i32,
    request: &IssuePostRequest,
    now: i64,
    ticket: &TicketOutcome,
) -> (res: Result<IssueRequest, ApiError>)
    requires
        old(store).wf(),
        old(store).next_id < i32::MAX,
    ensures
        final(store).wf(),
        !spec_issue_input_valid(tipo@, target_id as int, request.subject@, request.description@)
            ==> res == Result::<IssueRequest, ApiError>::Err(ApiError::InvalidInput)
                && *final(store) == *old(store),
        spec_issue_input_valid(tipo@, target_id as int, request.subject@, request.description@)
            ==> {
            let kind = spec_parse_kind(tipo@)->Some_0;
            let record = final(store).issues@.last();
            &&& final(store).issues@ == old(store).issues@.push(record)
            &&& record.id == old(store).next_id
            &&& record.id != 0
            &&& record.fecha_creacion == now
            &&& record.data.tipo == kind
            &&& record.data.id == target_id
            &&& record.data.subject@ == spec_composed_subject(
                request.subject@,
                kind,
                target_id as int,
            )
            &&& record.data.description@ == request.description@
            &&& final(store).links@ == old(store).links@.push(
                (IssueLink { issue_request_id: record.id, tipo: kind, target_id }),
            )
            &&& final(store).next_id == old(store).next_id + 1
            &&& match ticket {
                TicketOutcome::Reply(reply) => match spec_parse_i32(reply@) {
                    Some(v) => if v != 0 {
                        res == Result::<IssueRequest, ApiError>::Ok(record)
                    } else {
                        res == Result::<IssueRequest, ApiError>::Err(ApiError::Internal)
                    },
                    None => res == Result::<IssueRequest, ApiError>::Err(ApiError::Internal),
                },
                TicketOutcome::Unavailable => res == Result::<IssueRequest, ApiError>::Err(
                    ApiError::Unavailable,
                ),
            }
        },
{
    let kind = match validate_issue_input(
        tipo,
        target_id,
        request.subject.as_str(),
        request.description.as_str(),
    ) {
        Ok(kind) => kind,
        Err(err) => {
            return Err(err);
        },
    };
    let subject = compose_subject(request.subject.as_str(), kind, target_id);
    let data = IssueData {
        tipo: kind,
        id: target_id,
        subject,
        description: request.description.clone(),
    };
    let created = store.create_issue_request(data, now);
    let record = match check_created(created) {
        Ok(record) => record,
        Err(err) => {
            return Err(err);
        },
    };
    proof {
        assert(store.issues@[store.issues@.len() - 1].id == record.id);
    }
    store.create_issue_link(record.id, kind, target_id);
    match ticket {
        TicketOutcome::Reply(reply) => match check_ticket_reply(reply.as_str()) {
            Ok(_) => Ok(record),
            Err(err) => Err(err),
        },
        TicketOutcome::Unavailable => Err(ApiError::Unavailable),
    }
}

} // verus!
