//! Laws of the portal's state: which pushes are taken, and which reports are kept and shown.
use vstd::prelude::*;

use crate::page::StoredNode;
use crate::report::NodeReport;
use crate::store::{Ingest, StoredModel, StoredReport};
use crate::verify::CvmVerdict;
use crate::{store, text};

verus! {

/// What comes of a push, for each reason exactly where it holds: there is no token, the push does not
/// bear it, the body is no report, or none of these.
pub proof fn law_pushes(
    token: Option<Seq<char>>,
    authorization: Option<Seq<char>>,
    body: Option<NodeReport>,
)
    ensures
        ({
            let r = store::ingest_result(token, authorization, body);
            let borne = token matches Some(t) && authorization == Some("Bearer "@ + t);
            &&& r == Ingest::Disabled <==> token is None
            &&& r == Ingest::Unauthorized <==> token is Some && !borne
            &&& r == Ingest::BadBody <==> borne && body is None
            &&& r == Ingest::Stored <==> borne && body is Some
        }),
        token is None ==> store::admission(token, authorization) == Ingest::Disabled,
        token matches Some(t) ==> (store::admission(token, authorization) == Ingest::Stored
            <==> authorization == Some("Bearer "@ + t)),
        token is Some && store::admission(token, authorization) != Ingest::Stored
            ==> store::admission(token, authorization) == Ingest::Unauthorized,
{
}

proof fn lemma_place(entries: Seq<(Seq<char>, StoredModel)>, node_id: Seq<char>, i: int, k: int)
    requires
        0 <= i <= k <= entries.len(),
        forall|j: int| i <= j < k ==> (#[trigger] entries[j]).0 != node_id,
    ensures
        k < entries.len() && entries[k].0 == node_id ==> store::place_from(entries, node_id, i)
            == Some(k),
        k == entries.len() ==> store::place_from(entries, node_id, i) is None,
    decreases k - i,
{
    if i < k {
        lemma_place(entries, node_id, i + 1, k);
    }
}

/// The report of a node is the one that is kept for it; there is none for a node that none is kept for.
pub proof fn law_report_of_a_node(
    entries: Seq<(Seq<char>, StoredModel)>,
    node_id: Seq<char>,
    k: int,
)
    requires
        store::one_per_node(entries),
        0 <= k <= entries.len(),
    ensures
        k < entries.len() ==> store::report_of(entries, entries[k].0) == Some(entries[k].1),
        (forall|j: int| 0 <= j < entries.len() ==> (#[trigger] entries[j]).0 != node_id)
            ==> store::report_of(entries, node_id) is None,
{
    if k < entries.len() {
        lemma_place(entries, entries[k].0, 0, k);
    }
    if forall|j: int| 0 <= j < entries.len() ==> (#[trigger] entries[j]).0 != node_id {
        lemma_place(entries, node_id, 0, entries.len() as int);
    }
}

/// Keeping a report changes one place: that of its node, or a new one at the end.
pub proof fn law_keeping_changes_one_place(
    entries: Seq<(Seq<char>, StoredModel)>,
    node_id: Seq<char>,
    stored: StoredModel,
    k: int,
)
    requires
        0 <= k <= entries.len(),
        forall|j: int| 0 <= j < k ==> (#[trigger] entries[j]).0 != node_id,
        k < entries.len() ==> entries[k].0 == node_id,
    ensures
        ({
            let after = store::with_report(entries, node_id, stored);
            &&& after.len() == (if k < entries.len() {
                entries.len()
            } else {
                entries.len() + 1
            })
            &&& after[k] == (node_id, stored)
            &&& forall|j: int|
                0 <= j < entries.len() && j != k ==> #[trigger] after[j] == entries[j]
        }),
{
    lemma_place(entries, node_id, 0, k);
}

/// In a list that is in order every node comes before those behind it, but for reports of one node; and
/// one report for each node leaves no two alike.
pub proof fn law_order_of_reports(
    reports: Seq<StoredReport>,
    entries: Seq<(Seq<char>, StoredModel)>,
    i: int,
    j: int,
)
    requires
        0 <= i < j,
    ensures
        store::in_order(reports) && j < reports.len() ==> reports[i].report.node_id@
            == reports[j].report.node_id@ || text::text_before(
            reports[i].report.node_id@,
            reports[j].report.node_id@,
        ),
        store::one_per_node(entries) && j < entries.len() ==> entries[i].0 != entries[j].0,
{
    if store::in_order(reports) && j < reports.len() {
        let a = reports[i].report.node_id@;
        let b = reports[j].report.node_id@;
        assert(!text::text_before(b, a));
        crate::laws::text::law_order_of_texts(a, b, b);
    }
}

/// The lists behind the pages hold every report as it is kept, and nothing else.
pub proof fn law_lists_hold_what_is_kept(
    entries: Seq<(Seq<char>, StoredModel)>,
    refs: Seq<&StoredReport>,
    nodes: Seq<StoredNode>,
    reports: Seq<StoredReport>,
    i: int,
)
    ensures
        store::kept_models(entries).len() == entries.len(),
        0 <= i < entries.len() ==> store::kept_models(entries)[i] == entries[i].1,
        store::models_behind(refs).len() == refs.len(),
        0 <= i < refs.len() ==> store::models_behind(refs)[i] == refs[i]@,
        store::nodes_match(nodes, reports) ==> nodes.len() == reports.len(),
        store::nodes_match(nodes, reports) && 0 <= i < nodes.len() ==> nodes[i].received_at
            == reports[i].received_at && *nodes[i].report == reports[i].report && nodes[i].verdicts@
            == reports[i].verdicts@,
{
}

/// What came of a push is told by the status code that HTTP has for it.
pub proof fn law_codes(r: Ingest)
    ensures
        r == Ingest::Stored <==> store::ingest_code(r) == 200,
        r == Ingest::BadBody <==> store::ingest_code(r) == 400,
        r == Ingest::Unauthorized <==> store::ingest_code(r) == 401,
        r == Ingest::Disabled <==> store::ingest_code(r) == 503,
{
}

/// Verdicts change nothing of the reports but the verdicts on the one that they are about.
pub proof fn law_verdicts_change_one_place(
    entries: Seq<(Seq<char>, StoredModel)>,
    node_id: Seq<char>,
    received_at: u64,
    verdicts: Seq<CvmVerdict>,
    k: int,
)
    requires
        0 <= k < entries.len(),
        store::one_per_node(entries),
    ensures
        ({
            let after = store::with_verdicts(entries, node_id, received_at, verdicts);
            &&& after.len() == entries.len()
            &&& after[k].0 == entries[k].0
            &&& after[k].1.received_at == entries[k].1.received_at
            &&& after[k].1.report == entries[k].1.report
            &&& after[k].1.verdicts == (if entries[k].0 == node_id && entries[k].1.received_at
                == received_at {
                verdicts
            } else {
                entries[k].1.verdicts
            })
        }),
{
    if entries[k].0 == node_id {
        lemma_place(entries, node_id, 0, k);
    } else {
        lemma_found(entries, node_id, 0);
    }
}

proof fn lemma_found(entries: Seq<(Seq<char>, StoredModel)>, node_id: Seq<char>, i: int)
    requires
        0 <= i,
    ensures
        store::place_from(entries, node_id, i) matches Some(k) ==> i <= k < entries.len()
            && entries[k].0 == node_id,
    decreases entries.len() - i,
{
    if i < entries.len() {
        lemma_found(entries, node_id, i + 1);
    }
}

} // verus!
