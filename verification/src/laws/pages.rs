//! Laws of what the pages show: the rows of the index and the cards of a detail page.
use vstd::prelude::*;

use crate::page::{Freshness, OnChain, StoredNode, Summary};
use crate::report::{CvmAttestation, NodeReport, Role};
use crate::verify::CvmVerdict;
use crate::{compose, laws, page, text, verify};

verus! {

/// The verdict on a CVM is the first one with its identity; without such a one there is none.
pub proof fn law_verdict_is_found_by_identity(
    verdicts: Seq<CvmVerdict>,
    vm_id: Seq<char>,
    k: int,
)
    requires
        0 <= k <= verdicts.len(),
        forall|j: int| 0 <= j < k ==> (#[trigger] verdicts[j]).vm_id@ != vm_id,
    ensures
        k < verdicts.len() && verdicts[k].vm_id@ == vm_id ==> page::verdict_on(verdicts, vm_id)
            == Some(verdicts[k]@),
        k == verdicts.len() ==> page::verdict_on(verdicts, vm_id) is None,
    decreases k,
{
    if k > 0 {
        assert(verdicts[0].vm_id@ != vm_id);
        let rest = verdicts.drop_first();
        assert forall|j: int| 0 <= j < k - 1 implies (#[trigger] rest[j]).vm_id@ != vm_id by {
            assert(verdicts[j + 1].vm_id@ != vm_id);
        }
        law_verdict_is_found_by_identity(rest, vm_id, k - 1);
    }
}

/// A card shows of its CVM what the report says of it, each thing in its own place, and its verdict.
pub proof fn law_card_shows_its_cvm(
    cvm: CvmAttestation,
    verdicts: Seq<CvmVerdict>,
    index: nat,
    total: nat,
)
    ensures
        ({
            let card = page::cvm_view(cvm, verdicts, index, total);
            &&& card.name == cvm.name@
            &&& card.role_label == page::role_text(cvm.role)
            &&& card.network_label == text::opt_view(cvm.network)
            &&& card.status == cvm.status@
            &&& card.uptime == text::opt_view(cvm.uptime)
            &&& card.app_id == cvm.app_id@
            &&& card.vm_id == cvm.vm_id@
            &&& card.instance_index == index
            &&& card.instance_total == total
            &&& card.app_compose == text::opt_view(cvm.app_compose)
            &&& card.image_digests == text::each_view(cvm.image_digests@)
            &&& card.images == compose::app_compose_rows(text::opt_view(cvm.app_compose))
            &&& card.os_version == text::opt_view(cvm.os_version)
            &&& card.os_image_hash == text::opt_view(cvm.os_image_hash)
            &&& card.mr_aggregated == text::opt_view(cvm.mr_aggregated)
            &&& card.compose_hash == text::opt_view(cvm.compose_hash)
            &&& card.key_provider == text::opt_view(cvm.key_provider)
            &&& card.collect_error == text::opt_view(cvm.error)
            &&& card.verdict == page::verdict_view(page::verdict_on(verdicts, cvm.vm_id@))
            &&& card.kms_in_tee <==> (cvm.key_provider matches Some(k) && text::lowered(k@)
                == "kms"@)
            &&& card.gateway_domain == (if cvm.app_id@.len() > 0 && (cvm.role == Role::Worker
                || cvm.role == Role::Keystore) {
                Some(cvm.app_id@ + "-8081.dstack.outlayer.ai"@)
            } else {
                None
            })
        }),
{
    reveal_strlit("kms");
    assert(text::lowered("kms"@) =~= "kms"@);
}

/// The registers on a card are the report's, in order and under their names; without a claim there are
/// none.
pub proof fn law_card_shows_the_claim(
    cvm: CvmAttestation,
    verdicts: Seq<CvmVerdict>,
    index: nat,
    total: nat,
)
    ensures
        ({
            let rows = page::cvm_view(cvm, verdicts, index, total).measurements;
            match cvm.measurements {
                None => rows.len() == 0,
                Some(m) => {
                    &&& rows.len() == 5
                    &&& rows[0] == ("mrtd"@, m.mrtd@)
                    &&& rows[1] == ("rtmr0"@, m.rtmr0@)
                    &&& rows[2] == ("rtmr1"@, m.rtmr1@)
                    &&& rows[3] == ("rtmr2"@, m.rtmr2@)
                    &&& rows[4] == ("rtmr3"@, m.rtmr3@)
                },
            }
        }),
{
}

/// What was decoded from the verified quote is on the card exactly where the verdict has it, every field
/// under its name.
pub proof fn law_card_shows_the_quote(
    cvm: CvmAttestation,
    verdicts: Seq<CvmVerdict>,
    index: nat,
    total: nat,
)
    ensures
        ({
            let shown = page::cvm_view(cvm, verdicts, index, total).decoded;
            match page::verdict_on(verdicts, cvm.vm_id@) {
                None => shown is None,
                Some(v) => match v.decoded {
                    None => shown is None,
                    Some(d) => {
                        &&& shown matches Some(view)
                        &&& view.fmspc == d.fmspc
                        &&& view.quote_hex == d.quote_hex
                        &&& view.rows.len() == 11
                        &&& view.rows[0] == ("mrtd"@, d.mrtd)
                        &&& view.rows[1] == ("rtmr0"@, d.rtmr0)
                        &&& view.rows[2] == ("rtmr1"@, d.rtmr1)
                        &&& view.rows[3] == ("rtmr2"@, d.rtmr2)
                        &&& view.rows[4] == ("rtmr3"@, d.rtmr3)
                        &&& view.rows[5] == ("report_data"@, d.report_data)
                        &&& view.rows[6] == ("mr_seam"@, d.mr_seam)
                        &&& view.rows[7] == ("mr_signer_seam"@, d.mr_signer_seam)
                        &&& view.rows[8] == ("tee_tcb_svn"@, d.tee_tcb_svn)
                        &&& view.rows[9] == ("td_attributes"@, d.td_attributes)
                        &&& view.rows[10] == ("xfam"@, d.xfam)
                    },
                },
            }
        }),
{
}

/// A verdict is shown as it is; the card fails where the signature is not valid, the TCB is not up to
/// date, the measurements do not match or are not approved, or something went wrong, and only there.
pub proof fn law_verdict_is_shown_as_it_is(v: verify::CvmVerdictModel)
    ensures
        ({
            let shown = page::verdict_view(Some(v));
            &&& !shown.pending
            &&& shown.sig_valid == v.sig_valid
            &&& shown.tcb_status == v.tcb_status
            &&& shown.measurements_match == v.quote_measurements_match
            &&& shown.on_chain_contract == v.on_chain_contract
            &&& shown.advisory_ids == v.advisory_ids
            &&& shown.verify_error == v.error
            &&& shown.on_chain == OnChain::Approved <==> v.on_chain_approved == Some(true)
            &&& shown.on_chain == OnChain::NotApproved <==> v.on_chain_approved == Some(false)
            &&& shown.on_chain == OnChain::NotApplicable <==> v.on_chain_approved is None
            &&& shown.tcb_class == "good"@ <==> v.tcb_status == Some("UpToDate"@)
            &&& shown.tcb_class == "warn"@ <==> v.tcb_status is Some && v.tcb_status != Some(
                "UpToDate"@,
            )
            &&& shown.tcb_class == "bad"@ <==> v.tcb_status is None
            &&& shown.failing <==> !v.sig_valid || v.tcb_status != Some("UpToDate"@)
                || v.quote_measurements_match == Some(false) || v.on_chain_approved == Some(false)
                || v.error is Some
        }),
        page::verdict_view(None).pending,
        !page::verdict_view(None).failing,
{
    reveal_strlit("good");
    reveal_strlit("warn");
    reveal_strlit("bad");
    assert("good"@[0] != "warn"@[0]);
    assert("good"@.len() != "bad"@.len());
    assert("warn"@.len() != "bad"@.len());
}

/// A verdict is summed up as verified exactly where all its checks passed, as failed exactly where one
/// did not, and as pending exactly where there is none.
pub proof fn law_summaries(v: verify::CvmVerdictModel)
    ensures
        ({
            let passed = v.sig_valid && v.tcb_status == Some("UpToDate"@)
                && v.quote_measurements_match != Some(false) && v.on_chain_approved != Some(false)
                && v.error is None;
            &&& page::summary_of_verdict(Some(v)) == Summary::Verified <==> passed
            &&& page::summary_of_verdict(Some(v)) == Summary::Failed <==> !passed
        }),
        page::summary_of_verdict(None) == Summary::Pending,
{
}

/// A row of the index shows its app by the first instance, counts all of them, and tells how they are.
pub proof fn law_row_shows_its_app(instances: Seq<CvmAttestation>, verdicts: Seq<CvmVerdict>)
    requires
        instances.len() > 0,
    ensures
        ({
            let row = page::app_row(instances, verdicts);
            let summary = page::aggregate_of(page::instance_summaries(instances, verdicts));
            &&& row.name == page::display_name(instances[0].name@)
            &&& row.role_label == page::role_text(instances[0].role)
            &&& row.network_label == text::opt_view(instances[0].network)
            &&& row.app_id == instances[0].app_id@
            &&& row.instance_count == instances.len()
            &&& row.multi_instance <==> instances.len() > 1
            &&& row.status == page::common_status(
                Seq::new(instances.len(), |i: int| instances[i].status@),
            )
            &&& row.summary_class == page::summary_class(summary)
            &&& row.summary_label == page::summary_label(summary)
            &&& page::instance_summaries(instances, verdicts).len() == instances.len()
            &&& forall|i: int|
                0 <= i < instances.len() ==> #[trigger] page::instance_summaries(
                    instances,
                    verdicts,
                )[i] == page::summary_of_verdict(
                    page::verdict_on(verdicts, instances[i].vm_id@),
                )
        }),
{
}

/// A node of the index is shown with its name and when it was last heard of.
pub proof fn law_node_shows_its_header(
    now: u64,
    received_at: u64,
    node: NodeReport,
    verdicts: Seq<CvmVerdict>,
)
    ensures
        ({
            let shown = page::node_list(now, received_at, node, verdicts);
            let age = if now >= received_at {
                (now - received_at) as nat
            } else {
                0
            };
            &&& shown.node_id == node.node_id@
            &&& shown.last_seen_human == page::age_text(age)
            &&& shown.last_seen_class == page::freshness_class(page::freshness_of(age))
            &&& shown.rows.len() == page::app_groups(node.cvms@).len()
            &&& forall|g: int|
                0 <= g < shown.rows.len() ==> #[trigger] shown.rows[g] == page::app_row(
                    page::app_groups(node.cvms@)[g],
                    verdicts,
                )
        }),
{
}

/// A push counts as live for less than ten minutes, as stale up to an hour, and as dead after that.
pub proof fn law_freshness(age: nat)
    ensures
        page::freshness_of(age) == Freshness::Live <==> age < 10 * 60,
        page::freshness_of(age) == Freshness::Stale <==> 10 * 60 <= age <= 60 * 60,
        page::freshness_of(age) == Freshness::Dead <==> age > 60 * 60,
{
}

/// The time since something was received leads back to when that was; what is yet to come is now.
pub proof fn law_time_since(now: u64, received_at: u64)
    ensures
        received_at <= now ==> received_at + page::age_of(now, received_at) == now,
        received_at >= now ==> page::age_of(now, received_at) == 0,
{
}

/// Each role, freshness, approval and summary is shown by a word of its own.
pub proof fn law_words(role: Role, freshness: Freshness, approval: OnChain, summary: Summary)
    ensures
        role == Role::Kms <==> page::role_text(role) == "KMS"@,
        role == Role::Gateway <==> page::role_text(role) == "Gateway"@,
        role == Role::Keystore <==> page::role_text(role) == "Keystore"@,
        role == Role::Worker <==> page::role_text(role) == "Worker"@,
        role == Role::Unknown <==> page::role_text(role) == "Unknown"@,
        freshness == Freshness::Live <==> page::freshness_class(freshness) == "live"@,
        freshness == Freshness::Stale <==> page::freshness_class(freshness) == "stale"@,
        freshness == Freshness::Dead <==> page::freshness_class(freshness) == "dead"@,
        approval == OnChain::Approved <==> page::on_chain_class(approval) == "approved"@,
        approval == OnChain::NotApproved <==> page::on_chain_class(approval) == "bad"@,
        approval == OnChain::NotApplicable <==> page::on_chain_class(approval) == "na"@,
        summary == Summary::Verified <==> page::summary_class(summary) == "verified"@,
        summary == Summary::Failed <==> page::summary_class(summary) == "failed"@,
        summary == Summary::Pending <==> page::summary_class(summary) == "pending"@,
        summary == Summary::Verified <==> page::summary_label(summary) == "✓ Verified"@,
        summary == Summary::Failed <==> page::summary_label(summary) == "✗ Check failed"@,
        summary == Summary::Pending <==> page::summary_label(summary) == "verifying…"@,
{
    reveal_strlit("KMS");
    reveal_strlit("Gateway");
    reveal_strlit("Keystore");
    reveal_strlit("Worker");
    reveal_strlit("Unknown");
    assert("Gateway"@[0] != "Unknown"@[0]);
    assert("KMS"@.len() == 3);
    assert("Gateway"@.len() == 7);
    assert("Keystore"@.len() == 8);
    assert("Worker"@.len() == 6);
    assert("Unknown"@.len() == 7);
    reveal_strlit("live");
    reveal_strlit("stale");
    reveal_strlit("dead");
    assert("live"@[0] != "dead"@[0]);
    assert("live"@.len() == 4);
    assert("stale"@.len() == 5);
    assert("dead"@.len() == 4);
    reveal_strlit("approved");
    reveal_strlit("bad");
    reveal_strlit("na");
    assert("approved"@.len() == 8);
    assert("bad"@.len() == 3);
    assert("na"@.len() == 2);
    reveal_strlit("verified");
    reveal_strlit("failed");
    reveal_strlit("pending");
    assert("verified"@.len() == 8);
    assert("failed"@.len() == 6);
    assert("pending"@.len() == 7);
    reveal_strlit("✓ Verified");
    reveal_strlit("✗ Check failed");
    reveal_strlit("verifying…");
    assert("✓ Verified"@[0] != "verifying…"@[0]);
    assert("✓ Verified"@.len() == 10);
    assert("✗ Check failed"@.len() == 14);
    assert("verifying…"@.len() == 10);
}

/// An age is told in whole seconds, minutes, hours or days, the largest unit of which at least one has
/// passed; below five seconds it is `just now`.
pub proof fn law_ages(age: nat)
    ensures
        age < 5 ==> page::age_text(age) == "just now"@,
        age >= 5 ==> exists|count: nat, size: nat, unit: Seq<char>| #[trigger]
            told(age, count, size, unit) && page::age_text(age) == text::decimal(count) + unit,
{
    if age >= 5 {
        if age < 60 {
            assert(told(age, age, 1, "s ago"@));
        } else if age < 3600 {
            assert(told(age, age / 60, 60, "m ago"@));
        } else if age < 86400 {
            assert(told(age, age / 3600, 3600, "h ago"@));
        } else {
            assert(told(age, age / 86400, 86400, "d ago"@));
        }
    }
}

/// So many whole units of this size have passed, and it is the right unit for the age.
pub open spec fn told(age: nat, count: nat, size: nat, unit: Seq<char>) -> bool {
    &&& count * size <= age < (count + 1) * size
    &&& size == 1 && unit == "s ago"@ && age < 60 || size == 60 && unit == "m ago"@ && 60 <= age
        < 3600 || size == 3600 && unit == "h ago"@ && 3600 <= age < 86400 || size == 86400 && unit
        == "d ago"@ && 86400 <= age
}

/// An instance's number is what is cut off its name to name the app: always where something stands in
/// front of it, and nothing else is ever cut off.
pub proof fn law_display_names(head: Seq<char>, digits: Seq<char>, name: Seq<char>)
    ensures
        head.len() > 0 && digits.len() > 0 && text::all_digits(digits) ==> page::display_name(
            head + seq!['-'] + digits,
        ) == head,
        page::display_name(name) == name || exists|d: Seq<char>|
            #![trigger text::all_digits(d)]
            d.len() > 0 && text::all_digits(d) && page::display_name(name).len() > 0 && name
                == page::display_name(name) + seq!['-'] + d,
{
    if text::all_digits(digits) {
        assert(!digits.contains('-')) by {
            if digits.contains('-') {
                let i = choose|i: int| 0 <= i < digits.len() && digits[i] == '-';
                assert(text::is_digit(digits[i]));
            }
        }
        laws::text::law_last_split_undoes_join(head, '-', digits);
    }
    laws::text::law_split_at_last(name, '-');
    if let Some((h, t)) = text::split_last(name, '-') {
        if page::display_name(name) != name {
            assert(text::all_digits(t));
        }
    }
}

/// Instances with one status have it; otherwise it is told how many of them are running, or that they
/// are mixed where none is. How many are running is counted one by one, in any case.
pub proof fn law_statuses(statuses: Seq<Seq<char>>, next: Seq<char>)
    ensures
        page::running_count(Seq::empty()) == 0,
        page::running_count(statuses.push(next)) == page::running_count(statuses) + (
        if text::lowered(next) == "running"@ {
            1int
        } else {
            0int
        }),
        page::common_status(Seq::empty()) == Seq::<char>::empty(),
        statuses.len() > 0 && (forall|i: int|
            0 <= i < statuses.len() ==> #[trigger] statuses[i] == next)
            ==> page::common_status(statuses) == next,
        (exists|i: int, j: int|
            0 <= i < statuses.len() && 0 <= j < statuses.len() && (#[trigger] statuses[i]) != (
            #[trigger] statuses[j])) ==> page::common_status(statuses) == (
        if page::running_count(statuses) > 0 {
            text::decimal(page::running_count(statuses)) + " running / "@ + text::decimal(
                statuses.len(),
            )
        } else {
            "mixed"@
        }),
{
    reveal_strlit("running");
    assert(text::lowered("running"@) =~= "running"@);
    reveal(Seq::filter);
    assert(statuses.push(next).drop_last() =~= statuses);
    if exists|i: int, j: int|
        0 <= i < statuses.len() && 0 <= j < statuses.len() && (#[trigger] statuses[i]) != (
        #[trigger] statuses[j]) {
        let (i, j) = choose|i: int, j: int|
            0 <= i < statuses.len() && 0 <= j < statuses.len() && (#[trigger] statuses[i]) != (
            #[trigger] statuses[j]);
        if statuses[i] == statuses[0] {
            assert(statuses[j] != statuses[0]);
        } else {
            assert(statuses[i] != statuses[0]);
        }
    }
}

/// The instances of an app are found one by one, in order.
pub proof fn law_instances(cvms: Seq<CvmAttestation>, next: CvmAttestation, app_id: Seq<char>)
    ensures
        page::instances_of(Seq::empty(), app_id).len() == 0,
        next.app_id@ == app_id ==> page::instances_of(cvms.push(next), app_id)
            == page::instances_of(cvms, app_id).push(next),
        next.app_id@ != app_id ==> page::instances_of(cvms.push(next), app_id)
            == page::instances_of(cvms, app_id),
{
    reveal(Seq::filter);
    assert(cvms.push(next).drop_last() =~= cvms);
}

/// The cards of an app are those of its instances on each node, node by node, each with the verdicts of
/// its own node, and numbered from one on.
pub proof fn law_cards_node_by_node(nodes: Seq<StoredNode>, next: StoredNode, app_id: Seq<char>)
    ensures
        page::app_cards(Seq::empty(), app_id).len() == 0,
        ({
            let found = page::instances_of(next.report.cvms@, app_id);
            let before = page::app_cards(nodes, app_id);
            let after = page::app_cards(nodes.push(next), app_id);
            &&& after.len() == before.len() + found.len()
            &&& forall|i: int|
                0 <= i < before.len() ==> (#[trigger] after[i]) == (page::CvmViewModel {
                    instance_total: after.len(),
                    ..before[i]
                })
            &&& forall|i: int|
                before.len() <= i < after.len() ==> (#[trigger] after[i]) == page::cvm_view(
                    found[i - before.len()],
                    next.verdicts@,
                    (i + 1) as nat,
                    after.len(),
                )
        }),
{
    assert(nodes.push(next).drop_last() =~= nodes);
    let found = page::instances_of(next.report.cvms@, app_id);
    let old = page::matching(nodes, app_id);
    let new = page::matching(nodes.push(next), app_id);
    assert(new.len() == old.len() + found.len());
    assert forall|i: int| 0 <= i < old.len() implies new[i] == old[i] by {}
    assert forall|i: int| old.len() <= i < new.len() implies new[i] == (
        found[i - old.len()],
        next.verdicts@,
    ) by {}
}

/// The apps of a node are those of its CVMs, in the order in which they first occur.
pub proof fn law_apps_of_a_node(cvms: Seq<CvmAttestation>, i: int)
    requires
        0 <= i < cvms.len(),
    ensures
        page::each_app_id(cvms).len() == cvms.len(),
        page::each_app_id(cvms)[i] == cvms[i].app_id@,
        page::app_ids(cvms) == text::distinct(page::each_app_id(cvms)),
        page::app_ids(cvms).contains(cvms[i].app_id@),
        page::app_ids(cvms)[0] == cvms[0].app_id@,
        page::app_groups(cvms).len() == page::app_ids(cvms).len(),
        forall|g: int|
            0 <= g < page::app_ids(cvms).len() ==> #[trigger] page::app_groups(cvms)[g]
                == page::instances_of(cvms, page::app_ids(cvms)[g]),
{
    let ids = page::each_app_id(cvms);
    text::law_distinct(ids);
    assert(ids.contains(ids[i]));
    assert(ids.contains(ids[0]));
    let d = page::app_ids(cvms);
    assert(d.contains(ids[0]));
    let j = choose|j: int| 0 <= j < d.len() && d[j] == ids[0];
    if j > 0 {
        text::law_distinct_keeps_order(ids, 0, j);
        let k = choose|k: int|
            0 <= k < ids.len() && ids[k] == d[0] && !(#[trigger] ids.take(k + 1)).contains(d[j]);
        assert(ids.take(k + 1)[0] == d[j]);
    }
}

} // verus!
