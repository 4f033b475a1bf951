//! The portal's state: the latest report of each node, who may push one, and what the pages answer.
use vstd::prelude::*;

use crate::page::StoredNode;
use crate::report::NodeReport;
use crate::verify::CvmVerdict;
use crate::{page, template, text};

verus! {

/// A report that was pushed, and the verdicts on it.
#[derive(Debug, Clone)]
pub struct StoredReport {
    /// Unix seconds when the portal received the report.
    pub received_at: u64,
    pub report: NodeReport,
    /// Empty until the verification of this report has ended.
    pub verdicts: Vec<CvmVerdict>,
}

/// What a `StoredReport` holds.
#[verifier::ext_equal]
pub struct StoredModel {
    pub received_at: u64,
    pub report: NodeReport,
    pub verdicts: Seq<CvmVerdict>,
}

impl View for StoredReport {
    type V = StoredModel;

    open spec fn view(&self) -> StoredModel {
        StoredModel {
            received_at: self.received_at,
            report: self.report,
            verdicts: self.verdicts@,
        }
    }
}

/// A stored report, under the node that it is kept for.
#[derive(Debug, Clone)]
pub struct KeptReport {
    pub node_id: String,
    pub stored: StoredReport,
}

impl View for KeptReport {
    type V = (Seq<char>, StoredModel);

    open spec fn view(&self) -> (Seq<char>, StoredModel) {
        (self.node_id@, self.stored@)
    }
}

/// The first place from `i` on at which a report of a node is kept.
pub open spec fn place_from(
    entries: Seq<(Seq<char>, StoredModel)>,
    node_id: Seq<char>,
    i: int,
) -> Option<int>
    decreases entries.len() - i,
{
    if i >= entries.len() {
        None
    } else if entries[i].0 == node_id {
        Some(i)
    } else {
        place_from(entries, node_id, i + 1)
    }
}

/// The report of a node.
pub open spec fn report_of(entries: Seq<(Seq<char>, StoredModel)>, node_id: Seq<char>) -> Option<
    StoredModel,
> {
    match place_from(entries, node_id, 0) {
        Some(i) => Some(entries[i].1),
        None => None,
    }
}

/// The reports with a new one for a node, in place of the one that was kept for it.
pub open spec fn with_report(
    entries: Seq<(Seq<char>, StoredModel)>,
    node_id: Seq<char>,
    stored: StoredModel,
) -> Seq<(Seq<char>, StoredModel)> {
    match place_from(entries, node_id, 0) {
        Some(i) => entries.update(i, (node_id, stored)),
        None => entries.push((node_id, stored)),
    }
}

/// The reports with the verdicts on one of them, unless a newer one has come in its place.
pub open spec fn with_verdicts(
    entries: Seq<(Seq<char>, StoredModel)>,
    node_id: Seq<char>,
    received_at: u64,
    verdicts: Seq<CvmVerdict>,
) -> Seq<(Seq<char>, StoredModel)> {
    match report_of(entries, node_id) {
        Some(stored) if stored.received_at == received_at => with_report(
            entries,
            node_id,
            StoredModel { verdicts, ..stored },
        ),
        _ => entries,
    }
}

/// There is at most one report for each node.
pub open spec fn one_per_node(entries: Seq<(Seq<char>, StoredModel)>) -> bool {
    forall|i: int, j: int|
        0 <= i < j < entries.len() ==> (#[trigger] entries[i]).0 != (#[trigger] entries[j]).0
}

proof fn lemma_place(entries: Seq<(Seq<char>, StoredModel)>, node_id: Seq<char>, i: int)
    requires
        0 <= i,
    ensures
        match place_from(entries, node_id, i) {
            Some(k) => i <= k < entries.len() && entries[k].0 == node_id && forall|j: int|
                i <= j < k ==> (#[trigger] entries[j]).0 != node_id,
            None => forall|j: int|
                i <= j < entries.len() ==> (#[trigger] entries[j]).0 != node_id,
        },
    decreases entries.len() - i,
{
    if i < entries.len() && entries[i].0 != node_id {
        lemma_place(entries, node_id, i + 1);
    }
}

/// A pushed report becomes the one kept for its node, and the reports of all other nodes stay as they
/// are; there is still at most one report for each node.
pub proof fn law_latest_report_is_kept(
    entries: Seq<(Seq<char>, StoredModel)>,
    node_id: Seq<char>,
    stored: StoredModel,
    other: Seq<char>,
)
    requires
        one_per_node(entries),
    ensures
        one_per_node(with_report(entries, node_id, stored)),
        report_of(with_report(entries, node_id, stored), node_id) == Some(stored),
        other != node_id ==> report_of(with_report(entries, node_id, stored), other) == report_of(
            entries,
            other,
        ),
{
    let after = with_report(entries, node_id, stored);
    lemma_place(entries, node_id, 0);
    lemma_place(entries, other, 0);
    lemma_place(after, node_id, 0);
    lemma_place(after, other, 0);
    if let Some(k) = place_from(entries, node_id, 0) {
        assert(after[k].0 == node_id);
    } else {
        assert(after[entries.len() as int].0 == node_id);
    }
    if other != node_id {
        if let Some(k) = place_from(entries, other, 0) {
            assert(after[k] == entries[k]);
        }
        if let Some(k) = place_from(after, other, 0) {
            assert(entries[k] == after[k]);
        }
    }
}

/// Verdicts reach only the very report that they are about: once a newer one is kept for the node they
/// are dropped, and no other node is touched.
pub proof fn law_stale_verdicts_are_dropped(
    entries: Seq<(Seq<char>, StoredModel)>,
    node_id: Seq<char>,
    received_at: u64,
    verdicts: Seq<CvmVerdict>,
    other: Seq<char>,
)
    requires
        one_per_node(entries),
    ensures
        ({
            let after = with_verdicts(entries, node_id, received_at, verdicts);
            &&& one_per_node(after)
            &&& report_of(entries, node_id) matches Some(stored) ==> report_of(after, node_id)
                == Some(
                if stored.received_at == received_at {
                    StoredModel { verdicts, ..stored }
                } else {
                    stored
                },
            )
            &&& report_of(entries, node_id) is None ==> after == entries
            &&& other != node_id ==> report_of(after, other) == report_of(entries, other)
        }),
{
    if let Some(stored) = report_of(entries, node_id) {
        law_latest_report_is_kept(
            entries,
            node_id,
            StoredModel { verdicts, ..stored },
            other,
        );
    }
}

/// Compares two byte strings. All bytes are looked at, wherever the first difference is; only
/// different lengths are told apart at once.
pub fn ct_eq(a: &[u8], b: &[u8]) -> (r: bool)
    ensures
        r == (a@ == b@),
{
    if a.len() != b.len() {
        return false;
    }
    let mut diff: u8 = 0;
    let mut i: usize = 0;
    assert(a@.take(0) =~= b@.take(0));
    while i < a.len()
        invariant
            i <= a@.len() == b@.len(),
            diff == 0 <==> a@.take(i as int) == b@.take(i as int),
        decreases a@.len() - i,
    {
        let x: u8 = a[i];
        let y: u8 = b[i];
        assert((diff | (x ^ y)) == 0 <==> diff == 0 && x == y) by (bit_vector);
        proof {
            let s = a@.take(i + 1);
            let t = b@.take(i + 1);
            assert(s.drop_last() =~= a@.take(i as int) && s.last() == x);
            assert(t.drop_last() =~= b@.take(i as int) && t.last() == y);
            assert(s =~= s.drop_last().push(x));
            assert(t =~= t.drop_last().push(y));
        }
        diff = diff | (x ^ y);
        i = i + 1;
    }
    assert(a@.take(i as int) =~= a@);
    assert(b@.take(i as int) =~= b@);
    diff == 0
}

/// An `Authorization` header that carries a token.
pub open spec fn bears(authorization: Option<Seq<char>>, token: Seq<char>) -> bool {
    authorization == Some("Bearer "@ + token)
}

/// Whether an `Authorization` header carries the expected bearer token.
pub fn bearer_ok(authorization: Option<&str>, expected: &str) -> (r: bool)
    ensures
        r == bears(text::opt_view(authorization), expected@),
{
    let header = match authorization {
        None => return false,
        Some(header) => header,
    };
    match text::after_prefix(header, "Bearer ") {
        None => {
            assert(header@ != "Bearer "@ + expected@) by {
                let all = "Bearer "@ + expected@;
                assert(all.subrange(0, "Bearer "@.len() as int) =~= "Bearer "@);
            }
            false
        },
        Some(token) => {
            proof {
                vstd::utf8::encode_utf8_decode_utf8(token@);
                vstd::utf8::encode_utf8_decode_utf8(expected@);
                assert(header@ =~= "Bearer "@ + token@);
                assert(("Bearer "@ + expected@).skip("Bearer "@.len() as int) =~= expected@);
            }
            ct_eq(token.as_str().as_bytes(), expected.as_bytes())
        },
    }
}

/// What came of a push.
#[derive(Debug, Clone, Copy, PartialEq, Eq, Structural)]
pub enum Ingest {
    /// No token is configured, so nothing is accepted.
    Disabled,
    /// The push does not bear the token.
    Unauthorized,
    /// The body is no report.
    BadBody,
    Stored,
}

/// The HTTP status code of what came of a push.
pub open spec fn ingest_code(r: Ingest) -> u16 {
    match r {
        Ingest::Disabled => 503,
        Ingest::Unauthorized => 401,
        Ingest::BadBody => 400,
        Ingest::Stored => 200,
    }
}

impl Ingest {
    /// The HTTP status code.
    pub fn code(self) -> (r: u16)
        ensures
            r == ingest_code(self),
    {
        match self {
            Ingest::Disabled => 503,
            Ingest::Unauthorized => 401,
            Ingest::BadBody => 400,
            Ingest::Stored => 200,
        }
    }
}

/// Whether a push may be looked at: nothing is accepted unless a token is configured and the push
/// bears it.
pub open spec fn admission(token: Option<Seq<char>>, authorization: Option<Seq<char>>) -> Ingest {
    match token {
        None => Ingest::Disabled,
        Some(token) => if bears(authorization, token) {
            Ingest::Stored
        } else {
            Ingest::Unauthorized
        },
    }
}

/// Whether a push may be looked at.
pub fn check_push(token: &Option<String>, authorization: Option<&str>) -> (r: Ingest)
    ensures
        r == admission(text::opt_view(*token), text::opt_view(authorization)),
{
    match token {
        None => Ingest::Disabled,
        Some(expected) => if bearer_ok(authorization, expected.as_str()) {
            Ingest::Stored
        } else {
            Ingest::Unauthorized
        },
    }
}

/// What comes of a push with this body, where it could be read.
pub open spec fn ingest_result(
    token: Option<Seq<char>>,
    authorization: Option<Seq<char>>,
    body: Option<NodeReport>,
) -> Ingest {
    if admission(token, authorization) == Ingest::Stored && body is None {
        Ingest::BadBody
    } else {
        admission(token, authorization)
    }
}

/// The latest report of each node.
#[derive(Debug)]
pub struct ReportStore {
    entries: Vec<KeptReport>,
}

impl View for ReportStore {
    type V = Seq<(Seq<char>, StoredModel)>;

    closed spec fn view(&self) -> Seq<(Seq<char>, StoredModel)> {
        text::each_view(self.entries@)
    }
}

impl ReportStore {
    #[verifier::type_invariant]
    closed spec fn keeps_one_per_node(&self) -> bool {
        one_per_node(self@)
    }

    /// A store without reports.
    pub fn new() -> (r: ReportStore)
        ensures
            r@ == Seq::<(Seq<char>, StoredModel)>::empty(),
            one_per_node(r@),
    {
        let entries: Vec<KeptReport> = Vec::new();
        assert(text::each_view(entries@) =~= Seq::<(Seq<char>, StoredModel)>::empty());
        ReportStore { entries }
    }

    /// The reports, each with the node that it is kept for.
    pub fn kept(&self) -> (r: &Vec<KeptReport>)
        ensures
            text::each_view(r@) == self@,
            one_per_node(self@),
    {
        proof {
            use_type_invariant(self);
        }
        &self.entries
    }

    fn place(&self, node_id: &str) -> (r: Option<usize>)
        ensures
            place_from(self@, node_id@, 0) == match r {
                Some(i) => Some(i as int),
                None => None,
            },
            r matches Some(i) ==> i < self.entries@.len(),
    {
        let mut i: usize = 0;
        while i < self.entries.len()
            invariant
                i <= self.entries@.len(),
                place_from(self@, node_id@, 0) == place_from(self@, node_id@, i as int),
            decreases self.entries@.len() - i,
        {
            assert(self@[i as int] == self.entries@[i as int]@);
            if text::same_text(self.entries[i].node_id.as_str(), node_id) {
                return Some(i);
            }
            i = i + 1;
        }
        None
    }

    /// Keeps a report for a node, in place of the one that was kept for it.
    pub fn keep(&mut self, node_id: String, stored: StoredReport)
        ensures
            final(self)@ == with_report(old(self)@, node_id@, stored@),
            one_per_node(final(self)@),
    {
        proof {
            use_type_invariant(&*self);
            law_latest_report_is_kept(self@, node_id@, stored@, node_id@);
        }
        let place = self.place(node_id.as_str());
        let mut entries = self.take_entries();
        let ghost before = entries@;
        let kept = KeptReport { node_id, stored };
        match place {
            Some(i) => {
                entries.set(i, kept);
                assert(text::each_view(entries@) =~= text::each_view(before).update(
                    i as int,
                    kept@,
                ));
            },
            None => {
                entries.push(kept);
                assert(text::each_view(entries@) =~= text::each_view(before).push(kept@));
            },
        }
        *self = ReportStore { entries };
    }

    fn take_entries(&mut self) -> (r: Vec<KeptReport>)
        ensures
            text::each_view(r@) == old(self)@,
            r@ == old(self).entries@,
    {
        let mut taken = ReportStore::new();
        core::mem::swap(self, &mut taken);
        taken.entries
    }

    /// Takes a push: stores the report that it carries, received at `now`, where it bears the token.
    /// Otherwise nothing changes.
    pub fn ingest(
        &mut self,
        token: &Option<String>,
        authorization: Option<&str>,
        body: Option<NodeReport>,
        now: u64,
    ) -> (r: Ingest)
        ensures
            r == ingest_result(text::opt_view(*token), text::opt_view(authorization), body),
            final(self)@ == match body {
                Some(report) if r == Ingest::Stored => with_report(
                    old(self)@,
                    report.node_id@,
                    StoredModel { received_at: now, report, verdicts: Seq::empty() },
                ),
                _ => old(self)@,
            },
            one_per_node(final(self)@),
    {
        proof {
            use_type_invariant(&*self);
        }
        let admission = check_push(token, authorization);
        if !matches!(admission, Ingest::Stored) {
            return admission;
        }
        match body {
            None => Ingest::BadBody,
            Some(report) => {
                let node_id = report.node_id.clone();
                self.keep(node_id, StoredReport { received_at: now, report, verdicts: Vec::new() });
                Ingest::Stored
            },
        }
    }

    /// Adds the verdicts on the report that was received from a node at `received_at`; says whether
    /// that report is still the one kept. Verdicts on a report that is not are dropped.
    pub fn merge_verdicts(
        &mut self,
        node_id: &str,
        received_at: u64,
        verdicts: Vec<CvmVerdict>,
    ) -> (r: bool)
        ensures
            final(self)@ == with_verdicts(old(self)@, node_id@, received_at, verdicts@),
            r == (report_of(old(self)@, node_id@) matches Some(stored) && stored.received_at
                == received_at),
            one_per_node(final(self)@),
    {
        proof {
            use_type_invariant(&*self);
        }
        let i: usize = match self.place(node_id) {
            None => return false,
            Some(i) => i,
        };
        assert(self@[i as int] == self.entries@[i as int]@);
        if self.entries[i].stored.received_at != received_at {
            return false;
        }
        proof {
            law_stale_verdicts_are_dropped(self@, node_id@, received_at, verdicts@, node_id@);
            lemma_place(self@, node_id@, 0);
        }
        let mut entries = self.take_entries();
        let ghost before = entries@;
        entries[i].stored.verdicts = verdicts;
        assert(text::each_view(entries@) =~= text::each_view(before).update(
            i as int,
            text::each_view(entries@)[i as int],
        ));
        *self = ReportStore { entries };
        true
    }

    /// The reports in the order of their nodes.
    pub fn sorted(&self) -> (r: Vec<&StoredReport>)
        ensures
            in_order(page::items_behind(r@)),
            models_behind(r@).to_multiset() == kept_models(self@).to_multiset(),
    {
        let ghost all = kept_models(self@);
        let mut out: Vec<&StoredReport> = Vec::new();
        let mut i: usize = 0;
        assert(models_behind(out@) =~= all.take(0));
        while i < self.entries.len()
            invariant
                i <= self.entries@.len(),
                all == kept_models(self@),
                in_order(page::items_behind(out@)),
                models_behind(out@).to_multiset() == all.take(i as int).to_multiset(),
            decreases self.entries@.len() - i,
        {
            let next = &self.entries[i].stored;
            let mut at: usize = 0;
            while at < out.len() && !text::precedes(
                next.report.node_id.as_str(),
                out[at].report.node_id.as_str(),
            )
                invariant
                    at <= out@.len(),
                    forall|k: int|
                        0 <= k < at ==> !text::text_before(
                            next.report.node_id@,
                            (#[trigger] out@[k]).report.node_id@,
                        ),
                decreases out@.len() - at,
            {
                at = at + 1;
            }
            let ghost before = out@;
            out.insert(at, next);
            proof {
                lemma_insert_in_order(page::items_behind(before), at as int, *next);
                assert(page::items_behind(out@) =~= page::items_behind(before).insert(
                    at as int,
                    *next,
                ));
                lemma_insert_counts(models_behind(before), at as int, next@);
                assert(models_behind(out@) =~= models_behind(before).insert(at as int, next@));
                assert(self@[i as int] == self.entries@[i as int]@);
                assert(all.take(i + 1) =~= all.take(i as int).push(next@));
                all.take(i as int).to_multiset_ensures();
            }
            i = i + 1;
        }
        assert(all.take(i as int) =~= all);
        out
    }
}

/// The stored reports, without the nodes that they are kept for.
pub open spec fn kept_models(entries: Seq<(Seq<char>, StoredModel)>) -> Seq<StoredModel> {
    Seq::new(entries.len(), |i: int| entries[i].1)
}

/// The reports behind some references.
pub open spec fn models_behind(refs: Seq<&StoredReport>) -> Seq<StoredModel> {
    Seq::new(refs.len(), |i: int| refs[i]@)
}

/// Reports in the order of their nodes.
pub open spec fn in_order(reports: Seq<StoredReport>) -> bool {
    forall|i: int, j: int|
        0 <= i < j < reports.len() ==> !text::text_before(
            (#[trigger] reports[j]).report.node_id@,
            (#[trigger] reports[i]).report.node_id@,
        )
}

proof fn lemma_insert_in_order(reports: Seq<StoredReport>, at: int, next: StoredReport)
    requires
        0 <= at <= reports.len(),
        in_order(reports),
        forall|k: int|
            0 <= k < at ==> !text::text_before(
                next.report.node_id@,
                (#[trigger] reports[k]).report.node_id@,
            ),
        at < reports.len() ==> text::text_before(
            next.report.node_id@,
            reports[at].report.node_id@,
        ),
    ensures
        in_order(reports.insert(at, next)),
{
    let all = reports.insert(at, next);
    assert forall|i: int, j: int| 0 <= i < j < all.len() implies !text::text_before(
        (#[trigger] all[j]).report.node_id@,
        (#[trigger] all[i]).report.node_id@,
    ) by {
        if i == at {
            let later = all[j].report.node_id@;
            assert(all[j] == reports[j - 1]);
            if text::text_before(later, next.report.node_id@) {
                text::lemma_text_before_chains(
                    later,
                    next.report.node_id@,
                    reports[at].report.node_id@,
                );
            }
            if j - 1 == at {
                text::lemma_text_before_one_way(later, later);
            }
        }
    }
}

proof fn lemma_insert_counts(models: Seq<StoredModel>, at: int, next: StoredModel)
    requires
        0 <= at <= models.len(),
    ensures
        models.insert(at, next).to_multiset() == models.to_multiset().insert(next),
{
    let front = models.take(at);
    let back = models.skip(at);
    front.to_multiset_ensures();
    vstd::seq_lib::lemma_multiset_commutative(front, back);
    vstd::seq_lib::lemma_multiset_commutative(front.push(next), back);
    assert(front + back =~= models);
    assert(front.push(next) + back =~= models.insert(at, next));
    assert(front.push(next).to_multiset().add(back.to_multiset()) =~= front.to_multiset().add(
        back.to_multiset(),
    ).insert(next));
}

/// The stored reports as the pages take them.
pub open spec fn nodes_match(nodes: Seq<StoredNode>, reports: Seq<StoredReport>) -> bool {
    &&& nodes.len() == reports.len()
    &&& forall|i: int|
        0 <= i < nodes.len() ==> {
            &&& (#[trigger] nodes[i]).received_at == reports[i].received_at
            &&& *nodes[i].report == reports[i].report
            &&& nodes[i].verdicts@ == reports[i].verdicts@
        }
}

/// The stored reports as the pages take them.
pub fn borrow_nodes<'a>(reports: &Vec<&'a StoredReport>) -> (r: Vec<StoredNode<'a>>)
    ensures
        nodes_match(r@, page::items_behind(reports@)),
{
    let mut out: Vec<StoredNode<'a>> = Vec::new();
    let mut i: usize = 0;
    while i < reports.len()
        invariant
            i <= reports@.len(),
            nodes_match(out@, page::items_behind(reports@).take(i as int)),
        decreases reports@.len() - i,
    {
        let s = reports[i];
        out.push(
            StoredNode {
                received_at: s.received_at,
                report: &s.report,
                verdicts: s.verdicts.as_slice(),
            },
        );
        i = i + 1;
    }
    assert(page::items_behind(reports@).take(i as int) =~= page::items_behind(reports@));
    out
}

/// What the portal answers to a request for an app's detail page: the page, or a friendly page with
/// the status of something that was not found.
pub fn app_detail(app_id: &str, now: u64, nodes: &[StoredNode<'_>]) -> (r: (u16, String))
    ensures
        match template::app_html(app_id@, nodes@) {
            Some(html) => r.0 == 200 && r.1@ == html,
            None => r.0 == 404 && r.1@ == crate::html::rendered(
                template::unknown_layout(app_id@).pieces,
            ),
        },
{
    match template::render_app(app_id, now, nodes) {
        Ok(Some(html)) => (200, html),
        Ok(None) => match template::render_unknown_app(app_id) {
            Ok(html) => (404, html),
            Err(_) => (
                404,
                "<!doctype html><title>OutLayer</title><p>unknown app id. <a href=\"/\">back</a></p>".to_owned(),
            ),
        },
        Err(_) => (
            200,
            "<!doctype html><title>OutLayer</title><p>temporarily unavailable</p>".to_owned(),
        ),
    }
}

/// What the portal answers to a request for the index.
pub fn index(now: u64, nodes: &[StoredNode<'_>]) -> (r: String)
    ensures
        r@ == crate::html::rendered(
            template::index_layout(template::index_nodes(now, nodes@)).pieces,
        ),
{
    match template::render_index(now, nodes) {
        Ok(html) => html,
        Err(_) => "<!doctype html><title>OutLayer</title><p>temporarily unavailable</p>".to_owned(),
    }
}

/// The portal fails closed: a push is stored only where a token is configured, the push bears it and
/// its body is a report; without a token everything is refused.
pub proof fn law_ingest_fails_closed(
    token: Option<Seq<char>>,
    authorization: Option<Seq<char>>,
    body: Option<NodeReport>,
)
    ensures
        ingest_result(token, authorization, body) == Ingest::Stored <==> {
            &&& token matches Some(expected)
            &&& authorization == Some("Bearer "@ + expected)
            &&& body is Some
        },
        token is None ==> ingest_code(ingest_result(token, authorization, body)) == 503,
{
}

} // verus!
