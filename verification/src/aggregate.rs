//! The aggregate read path: one caller-facing view over the local
//! customer record, the corp person record and the issue history, with
//! each source's own failure policy — a missing customer degrades, a
//! missing corp person degrades, an unreachable corp source aborts, and
//! the history is always handed out newest first.

use crate::corp::{CorpLookup, UserData};
use crate::errors::ApiError;
use crate::issue::IssueRequest;
use crate::records::{Cliente, StoreFault};
use vstd::prelude::*;
use vstd::seq_lib::*;

verus! {

/// Newest first: creation instants never increase along the sequence.
pub open spec fn spec_sorted_newest_first(s: Seq<IssueRequest>) -> bool {
    forall|i: int, j: int|
        0 <= i < j < s.len() ==> #[trigger] s[i].fecha_creacion >= #[trigger] s[j].fecha_creacion
}

/// Inserts a record into a newest-first sequence, after every record
/// created at the same instant or later.
pub open spec fn spec_insert_newest_first(
    sorted: Seq<IssueRequest>,
    record: IssueRequest,
) -> Seq<IssueRequest>
    decreases sorted.len(),
{
    if sorted.len() == 0 {
        seq![record]
    } else if sorted[0].fecha_creacion >= record.fecha_creacion {
        seq![sorted[0]] + spec_insert_newest_first(sorted.drop_first(), record)
    } else {
        seq![record] + sorted
    }
}

/// The history in the order the caller is promised: newest first,
/// records created at the same instant kept in their incoming order.
pub open spec fn spec_sort_newest_first(s: Seq<IssueRequest>) -> Seq<IssueRequest>
    decreases s.len(),
{
    if s.len() == 0 {
        Seq::empty()
    } else {
        spec_insert_newest_first(spec_sort_newest_first(s.drop_last()), s.last())
    }
}

/// Inserting into a newest-first sequence keeps it newest-first and
/// adds exactly the inserted record.
pub proof fn lemma_insert_newest_first_props(sorted: Seq<IssueRequest>, record: IssueRequest)
    requires
        spec_sorted_newest_first(sorted),
    ensures
        spec_sorted_newest_first(spec_insert_newest_first(sorted, record)),
        spec_insert_newest_first(sorted, record).to_multiset() == sorted.to_multiset().insert(
            record,
        ),
    decreases sorted.len(),
{
    broadcast use group_to_multiset_ensures;
    broadcast use vstd::multiset::group_multiset_axioms;

    let result = spec_insert_newest_first(sorted, record);
    if sorted.len() == 0 {
        assert(sorted =~= Seq::<IssueRequest>::empty());
        assert(result =~= Seq::<IssueRequest>::empty().push(record));
        assert(result.to_multiset() =~= sorted.to_multiset().insert(record));
    } else if sorted[0].fecha_creacion >= record.fecha_creacion {
        let head = sorted[0];
        let tail = sorted.drop_first();
        assert(forall|i: int, j: int|
            0 <= i < j < tail.len() ==> #[trigger] tail[i].fecha_creacion
                >= #[trigger] tail[j].fecha_creacion);
        lemma_insert_newest_first_props(tail, record);
        let rest = spec_insert_newest_first(tail, record);
        assert(result == seq![head] + rest);
        // every record in `rest` was in the tail or is the inserted one,
        // and either way the head is at least as new
        assert forall|k: int| 0 <= k < rest.len() implies head.fecha_creacion
            >= #[trigger] rest[k].fecha_creacion by {
            assert(rest.to_multiset().count(rest[k]) > 0);
            if rest[k] != record {
                assert(tail.to_multiset().count(rest[k]) > 0);
                assert(tail.contains(rest[k]));
                let w = choose|w: int| 0 <= w < tail.len() && tail[w] == rest[k];
                assert(sorted[w + 1] == tail[w]);
            }
        }
        assert forall|i: int, j: int| 0 <= i < j < result.len() implies #[trigger] result[i].fecha_creacion
            >= #[trigger] result[j].fecha_creacion by {
            if 0 < i {
                assert(result[i] == rest[i - 1]);
                assert(result[j] == rest[j - 1]);
            } else {
                assert(result[j] == rest[j - 1]);
            }
        }
        assert(sorted =~= seq![head] + tail);
        lemma_multiset_commutative(seq![head], tail);
        lemma_multiset_commutative(seq![head], rest);
        assert(result.to_multiset() =~= sorted.to_multiset().insert(record));
    } else {
        assert(result == seq![record] + sorted);
        assert forall|i: int, j: int| 0 <= i < j < result.len() implies #[trigger] result[i].fecha_creacion
            >= #[trigger] result[j].fecha_creacion by {
            if 0 < i {
                assert(result[i] == sorted[i - 1]);
                assert(result[j] == sorted[j - 1]);
            } else {
                assert(result[j] == sorted[j - 1]);
                if 1 < j {
                    assert(sorted[0].fecha_creacion >= sorted[j - 1].fecha_creacion);
                }
            }
        }
        assert(result =~= sorted.insert(0, record));
        to_multiset_insert(sorted, 0, record);
        assert(result.to_multiset() =~= sorted.to_multiset().insert(record));
    }
}

/// The newest-first ordering holds of the sorted history, and sorting
/// neither adds, drops nor duplicates a record.
pub proof fn lemma_sort_newest_first_props(s: Seq<IssueRequest>)
    ensures
        spec_sorted_newest_first(spec_sort_newest_first(s)),
        spec_sort_newest_first(s).to_multiset() == s.to_multiset(),
    decreases s.len(),
{
    broadcast use group_to_multiset_ensures;
    broadcast use vstd::multiset::group_multiset_axioms;

    if s.len() == 0 {
        assert(spec_sort_newest_first(s).to_multiset() =~= s.to_multiset());
    } else {
        let shorter = s.drop_last();
        lemma_sort_newest_first_props(shorter);
        lemma_insert_newest_first_props(spec_sort_newest_first(shorter), s.last());
        assert(s =~= shorter.push(s.last()));
        assert(spec_sort_newest_first(s).to_multiset() =~= s.to_multiset());
    }
}

/// Inserting at the first position whose record is strictly older is
/// the newest-first insertion.
proof fn lemma_insert_at_position(sorted: Seq<IssueRequest>, record: IssueRequest, position: int)
    requires
        0 <= position <= sorted.len(),
        forall|k: int|
            0 <= k < position ==> #[trigger] sorted[k].fecha_creacion >= record.fecha_creacion,
        position < sorted.len() ==> sorted[position].fecha_creacion < record.fecha_creacion,
    ensures
        sorted.insert(position, record) == spec_insert_newest_first(sorted, record),
    decreases position,
{
    if position == 0 {
        if sorted.len() == 0 {
            assert(sorted.insert(0, record) =~= seq![record]);
        } else {
            assert(sorted.insert(0, record) =~= seq![record] + sorted);
        }
    } else {
        let head = sorted[0];
        let tail = sorted.drop_first();
        assert(forall|k: int|
            0 <= k < position - 1 ==> #[trigger] tail[k].fecha_creacion
                >= record.fecha_creacion);
        lemma_insert_at_position(tail, record, position - 1);
        assert(sorted.insert(position, record) =~= seq![head] + tail.insert(
            position - 1,
            record,
        ));
    }
}

/// Reorders an issue history newest first. The records themselves are
/// exactly those given, none added, dropped or duplicated.
pub fn sort_newest_first(history: Vec<IssueRequest>) -> (res: Vec<IssueRequest>)
    ensures
        res@ == spec_sort_newest_first(history@),
        spec_sorted_newest_first(res@),
        res@.to_multiset() == history@.to_multiset(),
{
    let mut out: Vec<IssueRequest> = Vec::new();
    let mut i: usize = 0;
    while i < history.len()
        invariant
            i <= history.len(),
            out@ == spec_sort_newest_first(history@.subrange(0, i as int)),
        decreases history.len() - i,
    {
        let record = history[i].clone();
        let mut position: usize = 0;
        while position < out.len() && out[position].fecha_creacion >= record.fecha_creacion
            invariant
                position <= out.len(),
                record == history@[i as int],
                forall|k: int|
                    0 <= k < position ==> #[trigger] out@[k].fecha_creacion
                        >= record.fecha_creacion,
            decreases out.len() - position,
        {
            position += 1;
        }
        proof {
            lemma_insert_at_position(out@, record, position as int);
            let upto = history@.subrange(0, i as int + 1);
            assert(upto.drop_last() =~= history@.subrange(0, i as int));
            assert(upto.last() == history@[i as int]);
        }
        out.insert(position, record);
        i += 1;
    }
    proof {
        assert(history@.subrange(0, history@.len() as int) =~= history@);
        lemma_sort_newest_first_props(history@);
    }
    out
}

/// The aggregate view over one target user: the local customer record
/// if there is one, the corp person if there is one, and the issue
/// history newest first.
#[derive(Debug, PartialEq, Eq)]
pub struct AggregateProfile {
    pub cliente: Option<Cliente>,
    pub corp_user: Option<UserData>,
    pub issue_requests: Vec<IssueRequest>,
}

/// Builds the aggregate from the three sources' outcomes, with each
/// source's own failure policy: a store failure on either local read is
/// an internal error; an absent customer and an absent corp person
/// degrade to absence; a failed corp source aborts the whole aggregate
/// as a failed dependency; and the history is handed out newest first,
/// whatever order the store produced.
pub fn build_aggregate(
    cliente: Result<Option<Cliente>, StoreFault>,
    corp: CorpLookup,
    history: Result<Vec<IssueRequest>, StoreFault>,
) -> (res: Result<AggregateProfile, ApiError>)
    ensures
        cliente is Err ==> res is Err && res->Err_0 == ApiError::Internal,
        cliente is Ok && corp is Failed ==> res is Err && res->Err_0 == ApiError::FailedDependency,
        cliente is Ok && !(corp is Failed) && history is Err ==> res is Err && res->Err_0
            == ApiError::Internal,
        cliente is Ok && !(corp is Failed) && history is Ok ==> res is Ok && {
            let aggregate = res->Ok_0;
            &&& aggregate.cliente == cliente->Ok_0
            &&& match corp {
                CorpLookup::Found(user) => aggregate.corp_user == Some(user),
                CorpLookup::Absent => aggregate.corp_user is None,
                CorpLookup::Failed => false,
            }
            &&& aggregate.issue_requests@ == spec_sort_newest_first(history->Ok_0@)
            &&& spec_sorted_newest_first(aggregate.issue_requests@)
            &&& aggregate.issue_requests@.to_multiset() == history->Ok_0@.to_multiset()
        },
{
    let cliente = match cliente {
        Ok(found) => found,
        Err(_) => {
            return Err(ApiError::Internal);
        },
    };
    let corp_user = match corp {
        CorpLookup::Found(user) => Some(user),
        CorpLookup::Absent => None,
        CorpLookup::Failed => {
            return Err(ApiError::FailedDependency);
        },
    };
    let history = match history {
        Ok(records) => records,
        Err(_) => {
            return Err(ApiError::Internal);
        },
    };
    let issue_requests = sort_newest_first(history);
    Ok(AggregateProfile { cliente, corp_user, issue_requests })
}

/// The promised order, concretely: three records created one after
/// another come back most recent first.
pub proof fn lemma_history_order(a: IssueRequest, b: IssueRequest, c: IssueRequest)
    requires
        a.fecha_creacion < b.fecha_creacion,
        b.fecha_creacion < c.fecha_creacion,
    ensures
        spec_sort_newest_first(seq![a, b, c]) == seq![c, b, a],
{
    reveal_with_fuel(spec_sort_newest_first, 4);
    reveal_with_fuel(spec_insert_newest_first, 4);
    let input = seq![a, b, c];
    assert(input.drop_last() =~= seq![a, b]);
    assert(seq![a, b].drop_last() =~= seq![a]);
    assert(seq![a].drop_last() =~= Seq::<IssueRequest>::empty());
    assert(spec_sort_newest_first(seq![a]) == spec_insert_newest_first(
        Seq::<IssueRequest>::empty(),
        a,
    ));
    assert(spec_sort_newest_first(seq![a]) =~= seq![a]);
    assert(seq![a][0] == a);
    assert(spec_insert_newest_first(seq![a], b) =~= seq![b] + seq![a]);
    assert(spec_sort_newest_first(seq![a, b]) =~= seq![b, a]);
    assert(seq![b, a][0] == b);
    assert(spec_insert_newest_first(seq![b, a], c) =~= seq![c] + seq![b, a]);
    assert(spec_sort_newest_first(input) =~= seq![c, b, a]);
}

} // verus!
