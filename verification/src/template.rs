//! The portal's three pages: the index of all apps, the detail page of one app, and the page for an
//! app that nobody knows. All that comes from outside goes into a page as text.
use vstd::prelude::*;

use crate::compose::ImageRow;
use crate::html::Html;
use crate::html::Layout;
use crate::page::{
    AppRowView,
    CvmView,
    MeasurementRow,
    NodeListView,
    StoredNode,
    VerdictView,
};
use crate::{compose, html, page, text};

verus! {

/// The quote explorer, linked as an independent check.
pub const PROOF_EXPLORER_URL: &'static str = "https://proof.t16z.com";

/// The releases of the dstack guest OS.
pub const DSTACK_RELEASES_URL: &'static str = "https://github.com/Dstack-TEE/meta-dstack/releases";

/// The beginning of the index page.
pub const INDEX_HEAD: &'static str = "<!doctype html>
<html lang=\"en\">
<head>
<meta charset=\"utf-8\">
<meta name=\"viewport\" content=\"width=device-width, initial-scale=1\">
<title>OutLayer workers</title>
<style>
body{font-family:system-ui,sans-serif;max-width:64rem;margin:2rem auto;padding:0 1rem;color:#1b1f24}
ul{list-style:none;padding:0}
.row{display:flex;gap:.75rem;align-items:center;padding:.5rem 0;color:inherit;text-decoration:none}
.badge,.pill,.chip{border-radius:.75rem;padding:.1rem .6rem;background:#eaeef2}
.pill-live,.sum-verified{background:#dafbe1}
.pill-stale{background:#fff8c5}
.pill-dead,.sum-failed{background:#ffebe9}
.sum-pending{background:#eaeef2}
</style>
</head>
<body>
<h1>OutLayer TEE workers</h1>
";

/// The beginning of the other pages.
pub const DETAIL_HEAD: &'static str = "<!doctype html>
<html lang=\"en\">
<head>
<meta charset=\"utf-8\">
<meta name=\"viewport\" content=\"width=device-width, initial-scale=1\">
<title>OutLayer worker</title>
<style>
body{font-family:system-ui,sans-serif;max-width:64rem;margin:2rem auto;padding:0 1rem;color:#1b1f24}
.card{border:1px solid #d0d7de;border-radius:.5rem;padding:1rem;margin:1rem 0}
.failing{border:3px solid #cf222e;background:#ffebe9}
.badge{border-radius:.75rem;padding:.1rem .6rem;background:#eaeef2}
.tcb-good,.oc-approved,.good{background:#dafbe1}
.tcb-warn{background:#fff8c5}
.tcb-bad,.oc-bad,.bad{background:#ffebe9}
pre,dd,td{overflow-wrap:anywhere;white-space:pre-wrap}
</style>
</head>
<body>
<p><a href=\"/\">← all workers</a></p>
";

/// The end of every page.
pub const FOOT: &'static str = "</body>
</html>
";

/// How a quote was verified, and how it was not.
pub const DISCLAIMER: &'static str = "<p class=\"disclaimer\">Each quote is checked here: its Intel DCAP signature and TCB chain, against collateral fetched directly from Intel's PCS. This is not Intel Trust Authority.</p>
";

/// A labelled value; nothing where there is none.
pub open spec fn with_field(p: Layout, label: Seq<char>, value: Option<Seq<char>>) -> Layout {
    match value {
        Some(v) => p.markup("<div><dt>"@).markup(label).markup("</dt><dd>"@).text(v).markup(
            "</dd></div>\n"@,
        ),
        None => p,
    }
}

/// A badge; nothing where there is no text for it.
pub open spec fn with_badge(p: Layout, value: Option<Seq<char>>) -> Layout {
    match value {
        Some(v) => p.markup("<span class=\"badge\">"@).text(v).markup("</span>\n"@),
        None => p,
    }
}

/// One row of the index. An app without an identity is not linked.
pub open spec fn with_row(p: Layout, row: page::AppRowModel) -> Layout {
    let p = if row.app_id.len() > 0 {
        p.markup("<li><a class=\"row\" href=\"/app/"@).text(row.app_id).markup("\">\n"@)
    } else {
        p.markup("<li><div class=\"row\">\n"@)
    };
    let p = p.markup("<span class=\"name\">"@).text(row.name).markup(
        "</span>\n<span class=\"badge\">"@,
    ).text(row.role_label).markup("</span>\n"@);
    let p = with_badge(p, row.network_label);
    let p = p.markup("<span class=\"status\">"@).text(row.status).markup("</span>\n"@);
    let p = if row.multi_instance {
        p.markup("<span class=\"badge\">"@).text(text::decimal(row.instance_count)).markup(
            " instances</span>\n"@,
        )
    } else {
        p
    };
    let p = p.markup("<span class=\"chip sum-"@).text(row.summary_class).markup("\">"@).text(
        row.summary_label,
    ).markup("</span>\n"@);
    if row.app_id.len() > 0 {
        p.markup("</a></li>\n"@)
    } else {
        p.markup("</div></li>\n"@)
    }
}

/// Rows of the index.
pub open spec fn with_rows(p: Layout, rows: Seq<page::AppRowModel>) -> Layout
    decreases rows.len(),
{
    if rows.len() == 0 {
        p
    } else {
        with_row(with_rows(p, rows.drop_last()), rows.last())
    }
}

/// One node of the index.
pub open spec fn with_node(p: Layout, node: page::NodeListModel) -> Layout {
    let p = p.markup("<section class=\"node\">\n<h2>"@).text(node.node_id).markup(
        "</h2>\n<span class=\"pill pill-"@,
    ).text(node.last_seen_class).markup("\">last seen live "@).text(node.last_seen_human).markup(
        "</span>\n<ul>\n"@,
    );
    with_rows(p, node.rows).markup("</ul>\n</section>\n"@)
}

/// Nodes of the index.
pub open spec fn with_nodes(p: Layout, nodes: Seq<page::NodeListModel>) -> Layout
    decreases nodes.len(),
{
    if nodes.len() == 0 {
        p
    } else {
        with_node(with_nodes(p, nodes.drop_last()), nodes.last())
    }
}

/// The index page.
pub open spec fn index_layout(nodes: Seq<page::NodeListModel>) -> Layout {
    let p = Layout::empty().markup(INDEX_HEAD@);
    let p = if nodes.len() == 0 {
        p.markup("<p class=\"empty\">No nodes have reported yet.</p>\n"@)
    } else {
        with_nodes(p, nodes)
    };
    p.markup(FOOT@)
}

fn push_field(h: Html, label: &'static str, value: &Option<String>) -> (r: Html)
    ensures
        r@ == with_field(h@, label@, text::opt_view(*value)),
{
    match value {
        Some(v) => h.markup("<div><dt>").markup(label).markup("</dt><dd>").text(v.as_str()).markup(
            "</dd></div>\n",
        ),
        None => h,
    }
}

fn push_badge(h: Html, value: &Option<String>) -> (r: Html)
    ensures
        r@ == with_badge(h@, text::opt_view(*value)),
{
    match value {
        Some(v) => h.markup("<span class=\"badge\">").text(v.as_str()).markup("</span>\n"),
        None => h,
    }
}

fn push_row(h: Html, row: &AppRowView) -> (r: Html)
    ensures
        r@ == with_row(h@, row@),
{
    let linked = !text::is_empty(row.app_id.as_str());
    let h = if linked {
        h.markup("<li><a class=\"row\" href=\"/app/").text(row.app_id.as_str()).markup("\">\n")
    } else {
        h.markup("<li><div class=\"row\">\n")
    };
    let h = h.markup("<span class=\"name\">").text(row.name.as_str()).markup(
        "</span>\n<span class=\"badge\">",
    ).text(row.role_label).markup("</span>\n");
    let h = push_badge(h, &row.network_label);
    let h = h.markup("<span class=\"status\">").text(row.status.as_str()).markup("</span>\n");
    let h = if row.multi_instance {
        let count = text::decimal_text(row.instance_count as u64);
        h.markup("<span class=\"badge\">").text(count.as_str()).markup(" instances</span>\n")
    } else {
        h
    };
    let h = h.markup("<span class=\"chip sum-").text(row.summary_class).markup("\">").text(
        row.summary_label,
    ).markup("</span>\n");
    if linked {
        h.markup("</a></li>\n")
    } else {
        h.markup("</div></li>\n")
    }
}

fn push_rows(h: Html, rows: &Vec<AppRowView>) -> (r: Html)
    ensures
        r@ == with_rows(h@, text::each_view(rows@)),
{
    let ghost start = h@;
    let ghost all = text::each_view(rows@);
    let mut h = h;
    let mut i: usize = 0;
    assert(h@ == with_rows(start, all.take(0)));
    while i < rows.len()
        invariant
            i <= rows@.len(),
            all == text::each_view(rows@),
            h@ == with_rows(start, all.take(i as int)),
        decreases rows@.len() - i,
    {
        assert(all.take(i + 1).drop_last() =~= all.take(i as int));
        assert(all.take(i + 1).last() == rows@[i as int]@);
        h = push_row(h, &rows[i]);
        i = i + 1;
    }
    assert(all.take(i as int) =~= all);
    h
}

fn push_node(h: Html, node: &NodeListView) -> (r: Html)
    ensures
        r@ == with_node(h@, node@),
{
    let h = h.markup("<section class=\"node\">\n<h2>").text(node.node_id.as_str()).markup(
        "</h2>\n<span class=\"pill pill-",
    ).text(node.last_seen_class).markup("\">last seen live ").text(
        node.last_seen_human.as_str(),
    ).markup("</span>\n<ul>\n");
    push_rows(h, &node.rows).markup("</ul>\n</section>\n")
}

fn push_nodes(h: Html, nodes: &Vec<NodeListView>) -> (r: Html)
    ensures
        r@ == with_nodes(h@, text::each_view(nodes@)),
{
    let ghost start = h@;
    let ghost all = text::each_view(nodes@);
    let mut h = h;
    let mut i: usize = 0;
    assert(h@ == with_nodes(start, all.take(0)));
    while i < nodes.len()
        invariant
            i <= nodes@.len(),
            all == text::each_view(nodes@),
            h@ == with_nodes(start, all.take(i as int)),
        decreases nodes@.len() - i,
    {
        assert(all.take(i + 1).drop_last() =~= all.take(i as int));
        assert(all.take(i + 1).last() == nodes@[i as int]@);
        h = push_node(h, &nodes[i]);
        i = i + 1;
    }
    assert(all.take(i as int) =~= all);
    h
}

/// The index page: a compact list of all apps.
pub struct IndexPage {
    pub nodes: Vec<NodeListView>,
}

impl IndexPage {
    pub fn new(nodes: Vec<NodeListView>) -> (r: IndexPage)
        ensures
            r.nodes == nodes,
    {
        IndexPage { nodes }
    }

    /// The page as HTML; nothing in it fails.
    pub fn render_page(&self) -> (r: Result<String, askama::Error>)
        ensures
            r is Ok,
            r->Ok_0@ == html::rendered(index_layout(text::each_view(self.nodes@)).pieces),
    {
        let h = Html::new().markup(INDEX_HEAD);
        let h = if self.nodes.len() == 0 {
            h.markup("<p class=\"empty\">No nodes have reported yet.</p>\n")
        } else {
            push_nodes(h, &self.nodes)
        };
        Ok(h.markup(FOOT).finish())
    }
}

/// Labelled values.
pub open spec fn with_measurements(p: Layout, rows: Seq<(Seq<char>, Seq<char>)>) -> Layout
    decreases rows.len(),
{
    if rows.len() == 0 {
        p
    } else {
        with_measurements(p, rows.drop_last()).markup("<div><dt>"@).text(rows.last().0).markup(
            "</dt><dd>"@,
        ).text(rows.last().1).markup("</dd></div>\n"@)
    }
}

/// Items of a list.
pub open spec fn with_items(p: Layout, items: Seq<Seq<char>>) -> Layout
    decreases items.len(),
{
    if items.len() == 0 {
        p
    } else {
        with_items(p, items.drop_last()).markup("<li>"@).text(items.last()).markup("</li>\n"@)
    }
}

/// One row of the image table.
pub open spec fn with_image(p: Layout, row: compose::ImageRowModel) -> Layout {
    let p = p.markup("<tr><td>"@).text(row.container).markup("</td><td>"@).text(row.image).markup(
        "</td><td>"@,
    ).text(row.digest).markup("</td><td>"@).text(row.origin).markup("</td><td><a href=\""@).text(
        row.sigstore_url,
    ).markup("\">Sigstore</a>"@);
    let p = match row.release_url {
        Some(url) => p.markup(" <a href=\""@).text(url).markup("\">release</a>"@),
        None => p,
    };
    p.markup("</td></tr>\n"@)
}

/// Rows of the image table.
pub open spec fn with_images(p: Layout, rows: Seq<compose::ImageRowModel>) -> Layout
    decreases rows.len(),
{
    if rows.len() == 0 {
        p
    } else {
        with_image(with_images(p, rows.drop_last()), rows.last())
    }
}

/// The head of a card: which CVM it is.
pub open spec fn with_app_header(p: Layout, cvm: page::CvmViewModel) -> Layout {
    let p = p.markup("<h2>"@).text(cvm.name).markup("</h2>\n<span class=\"badge\">"@).text(
        cvm.role_label,
    ).markup("</span>\n"@);
    let p = with_badge(p, cvm.network_label);
    let p = with_badge(p, Some(cvm.status));
    let p = if cvm.instance_total > 1 {
        p.markup("<span class=\"badge\">instance "@).text(text::decimal(cvm.instance_index)).markup(
            " of "@,
        ).text(text::decimal(cvm.instance_total)).markup("</span>\n"@)
    } else {
        p
    };
    let p = p.markup("<dl>\n"@);
    let p = with_field(p, "app_id"@, Some(cvm.app_id));
    let p = with_field(p, "vm_id"@, Some(cvm.vm_id));
    let p = with_field(p, "uptime"@, cvm.uptime);
    let p = with_field(p, "collection error"@, cvm.collect_error);
    p.markup("</dl>\n"@)
}

/// The verdict of a card.
pub open spec fn with_verdict(p: Layout, v: page::VerdictViewModel) -> Layout {
    if v.pending {
        p.markup("<p>verifying…</p>\n"@)
    } else {
        let p = if v.sig_valid {
            p.markup("<p><span class=\"badge good\">Intel DCAP signature valid</span>\n"@)
        } else {
            p.markup("<p><span class=\"badge bad\">Intel DCAP signature NOT verified</span>\n"@)
        };
        let p = p.markup("<span class=\"badge tcb-"@).text(v.tcb_class).markup("\">TCB "@).text(
            match v.tcb_status {
                Some(status) => status,
                None => "unknown"@,
            },
        ).markup("</span>\n"@);
        let p = match v.measurements_match {
            Some(true) => p.markup(
                "<span class=\"badge good\">measurements match the quote</span>\n"@,
            ),
            Some(false) => p.markup(
                "<span class=\"badge bad\">measurements do NOT match the quote</span>\n"@,
            ),
            None => p,
        };
        let p = p.markup("<span class=\"badge oc-"@).text(page::on_chain_class(v.on_chain)).markup(
            "\">"@,
        );
        let p = match v.on_chain {
            page::OnChain::Approved => p.markup("on-chain: approved"@),
            page::OnChain::NotApproved => p.markup("on-chain: NOT approved"@),
            page::OnChain::NotApplicable => p.markup("on-chain: n/a"@),
        };
        let p = p.markup("</span></p>\n<dl>\n"@);
        let p = with_field(p, "contract"@, v.on_chain_contract);
        let p = with_field(p, "error"@, v.verify_error);
        let p = p.markup("</dl>\n<ul>\n"@);
        with_items(p, v.advisory_ids).markup("</ul>\n"@)
    }
}

/// The registers of a card: from the verified quote where there is one, otherwise as claimed.
pub open spec fn with_registers(p: Layout, cvm: page::CvmViewModel) -> Layout {
    match cvm.decoded {
        Some(d) => {
            let p = p.markup("<p>Decoded from the verified quote:</p>\n<dl>\n"@);
            let p = with_measurements(p, d.rows);
            let p = with_field(p, "fmspc"@, d.fmspc);
            p.markup("</dl>\n<details><summary>raw quote</summary><pre>"@).text(d.quote_hex).markup(
                "</pre></details>\n"@,
            )
        },
        None => with_measurements(
            p.markup("<p>Claimed by the report, not verified:</p>\n<dl>\n"@),
            cvm.measurements,
        ).markup("</dl>\n"@),
    }
}

/// The hardware section of a card.
pub open spec fn with_hardware(p: Layout, cvm: page::CvmViewModel, proof_url: Seq<char>) -> Layout {
    let p = with_verdict(p.markup("<h3>TDX Hardware Attestation</h3>\n"@), cvm.verdict);
    with_registers(p, cvm).markup("<p>Check it yourself: <a href=\""@).text(proof_url).markup(
        "\">"@,
    ).text(proof_url).markup("</a></p>\n"@)
}

/// The source section of a card.
pub open spec fn with_source(p: Layout, cvm: page::CvmViewModel) -> Layout {
    let p = p.markup("<h3>Source Code</h3>\n<dl>\n"@);
    let p = with_field(p, "compose_hash"@, cvm.compose_hash).markup("</dl>\n"@);
    let p = if cvm.images.len() > 0 {
        with_images(
            p.markup(
                "<table>\n<tr><th>Container</th><th>Image</th><th>Digest</th><th>Origin</th><th>Verify</th></tr>\n"@,
            ),
            cvm.images,
        ).markup("</table>\n"@)
    } else {
        p
    };
    let p = with_items(p.markup("<ul>\n"@), cvm.image_digests).markup("</ul>\n"@);
    match cvm.app_compose {
        Some(raw) => p.markup("<details><summary>app-compose</summary><pre>"@).text(raw).markup(
            "</pre></details>\n"@,
        ),
        None => p.markup("<p>compose not reported yet</p>\n"@),
    }
}

/// The gateway section of a card.
pub open spec fn with_gateway(p: Layout, cvm: page::CvmViewModel) -> Layout {
    let p = p.markup("<h3>Zero Trust Gateway</h3>\n"@);
    match cvm.gateway_domain {
        Some(domain) => p.markup("<p>"@).text(domain).markup("</p>\n"@),
        None => p.markup("<p>n/a</p>\n"@),
    }
}

/// The operating-system section of a card.
pub open spec fn with_app_os(p: Layout, cvm: page::CvmViewModel, releases_url: Seq<char>) -> Layout {
    let p = p.markup("<h3>App OS</h3>\n<dl>\n"@);
    let p = with_field(p, "os_version"@, cvm.os_version);
    let p = with_field(p, "os_image_hash"@, cvm.os_image_hash);
    let p = with_field(p, "mr_aggregated"@, cvm.mr_aggregated);
    p.markup("</dl>\n<p><a href=\""@).text(releases_url).markup("\">dstack releases</a></p>\n"@)
}

/// The key section of a card.
pub open spec fn with_kms(p: Layout, cvm: page::CvmViewModel) -> Layout {
    let p = p.markup("<h3>KMS — deploy-time key provisioning</h3>\n<dl>\n"@);
    let p = with_field(p, "key_provider"@, cvm.key_provider).markup("</dl>\n"@);
    if cvm.kms_in_tee {
        p.markup("<p>Keys are provisioned by the dstack KMS, inside a TEE.</p>\n"@)
    } else {
        p
    }
}

/// The sections of a card.
pub open spec fn with_sections(
    p: Layout,
    cvm: page::CvmViewModel,
    proof_url: Seq<char>,
    releases_url: Seq<char>,
) -> Layout {
    let p = with_app_header(p, cvm);
    let p = with_hardware(p, cvm, proof_url);
    let p = with_source(p, cvm);
    let p = with_gateway(p, cvm);
    let p = with_app_os(p, cvm, releases_url);
    with_kms(p, cvm)
}

/// The card of one CVM. It is loud where a check failed.
pub open spec fn with_card(
    p: Layout,
    cvm: page::CvmViewModel,
    proof_url: Seq<char>,
    releases_url: Seq<char>,
) -> Layout {
    let p = if cvm.verdict.failing {
        p.markup("<article class=\"card failing\">\n"@)
    } else {
        p.markup("<article class=\"card\">\n"@)
    };
    with_sections(p, cvm, proof_url, releases_url).markup("</article>\n"@)
}

/// Cards.
pub open spec fn with_cards(
    p: Layout,
    cvms: Seq<page::CvmViewModel>,
    proof_url: Seq<char>,
    releases_url: Seq<char>,
) -> Layout
    decreases cvms.len(),
{
    if cvms.len() == 0 {
        p
    } else {
        with_card(
            with_cards(p, cvms.drop_last(), proof_url, releases_url),
            cvms.last(),
            proof_url,
            releases_url,
        )
    }
}

/// The detail page of an app.
pub open spec fn detail_layout(
    app_id: Seq<char>,
    cvms: Seq<page::CvmViewModel>,
    proof_url: Seq<char>,
    releases_url: Seq<char>,
) -> Layout {
    let p = Layout::empty().markup(DETAIL_HEAD@).markup("<h1>"@).text(app_id).markup("</h1>\n"@);
    with_cards(p.markup(DISCLAIMER@), cvms, proof_url, releases_url).markup(FOOT@)
}

/// The page for an app that nobody knows.
pub open spec fn unknown_layout(app_id: Seq<char>) -> Layout {
    Layout::empty().markup(DETAIL_HEAD@).markup("<h1>No worker found</h1>\n<p>No worker found for app id "@).text(
        app_id,
    ).markup(".</p>\n"@).markup(FOOT@)
}

fn push_measurements(h: Html, rows: &Vec<MeasurementRow>) -> (r: Html)
    ensures
        r@ == with_measurements(h@, text::each_view(rows@)),
{
    let ghost start = h@;
    let ghost all = text::each_view(rows@);
    let mut h = h;
    let mut i: usize = 0;
    assert(h@ == with_measurements(start, all.take(0)));
    while i < rows.len()
        invariant
            i <= rows@.len(),
            all == text::each_view(rows@),
            h@ == with_measurements(start, all.take(i as int)),
        decreases rows@.len() - i,
    {
        assert(all.take(i + 1).drop_last() =~= all.take(i as int));
        assert(all.take(i + 1).last() == rows@[i as int]@);
        h = h.markup("<div><dt>").text(rows[i].label).markup("</dt><dd>").text(
            rows[i].value.as_str(),
        ).markup("</dd></div>\n");
        i = i + 1;
    }
    assert(all.take(i as int) =~= all);
    h
}

fn push_items(h: Html, items: &Vec<String>) -> (r: Html)
    ensures
        r@ == with_items(h@, text::each_view(items@)),
{
    let ghost start = h@;
    let ghost all = text::each_view(items@);
    let mut h = h;
    let mut i: usize = 0;
    assert(h@ == with_items(start, all.take(0)));
    while i < items.len()
        invariant
            i <= items@.len(),
            all == text::each_view(items@),
            h@ == with_items(start, all.take(i as int)),
        decreases items@.len() - i,
    {
        assert(all.take(i + 1).drop_last() =~= all.take(i as int));
        assert(all.take(i + 1).last() == items@[i as int]@);
        h = h.markup("<li>").text(items[i].as_str()).markup("</li>\n");
        i = i + 1;
    }
    assert(all.take(i as int) =~= all);
    h
}

fn push_image(h: Html, row: &ImageRow) -> (r: Html)
    ensures
        r@ == with_image(h@, row@),
{
    let h = h.markup("<tr><td>").text(row.container.as_str()).markup("</td><td>").text(
        row.image.as_str(),
    ).markup("</td><td>").text(row.digest.as_str()).markup("</td><td>").text(row.origin).markup(
        "</td><td><a href=\"",
    ).text(row.sigstore_url.as_str()).markup("\">Sigstore</a>");
    let h = match &row.release_url {
        Some(url) => h.markup(" <a href=\"").text(url.as_str()).markup("\">release</a>"),
        None => h,
    };
    h.markup("</td></tr>\n")
}

fn push_images(h: Html, rows: &Vec<ImageRow>) -> (r: Html)
    ensures
        r@ == with_images(h@, text::each_view(rows@)),
{
    let ghost start = h@;
    let ghost all = text::each_view(rows@);
    let mut h = h;
    let mut i: usize = 0;
    assert(h@ == with_images(start, all.take(0)));
    while i < rows.len()
        invariant
            i <= rows@.len(),
            all == text::each_view(rows@),
            h@ == with_images(start, all.take(i as int)),
        decreases rows@.len() - i,
    {
        assert(all.take(i + 1).drop_last() =~= all.take(i as int));
        assert(all.take(i + 1).last() == rows@[i as int]@);
        h = push_image(h, &rows[i]);
        i = i + 1;
    }
    assert(all.take(i as int) =~= all);
    h
}

fn push_app_header(h: Html, cvm: &CvmView) -> (r: Html)
    ensures
        r@ == with_app_header(h@, cvm@),
{
    let h = h.markup("<h2>").text(cvm.name.as_str()).markup("</h2>\n<span class=\"badge\">").text(
        cvm.role_label,
    ).markup("</span>\n");
    let h = push_badge(h, &cvm.network_label);
    let h = push_badge(h, &Some(cvm.status.clone()));
    let h = if cvm.instance_total > 1 {
        let index = text::decimal_text(cvm.instance_index as u64);
        let total = text::decimal_text(cvm.instance_total as u64);
        h.markup("<span class=\"badge\">instance ").text(index.as_str()).markup(" of ").text(
            total.as_str(),
        ).markup("</span>\n")
    } else {
        h
    };
    let h = h.markup("<dl>\n");
    let h = push_field(h, "app_id", &Some(cvm.app_id.clone()));
    let h = push_field(h, "vm_id", &Some(cvm.vm_id.clone()));
    let h = push_field(h, "uptime", &cvm.uptime);
    let h = push_field(h, "collection error", &cvm.collect_error);
    h.markup("</dl>\n")
}

fn push_verdict(h: Html, v: &VerdictView) -> (r: Html)
    ensures
        r@ == with_verdict(h@, v@),
{
    if v.pending {
        return h.markup("<p>verifying…</p>\n");
    }
    let h = if v.sig_valid {
        h.markup("<p><span class=\"badge good\">Intel DCAP signature valid</span>\n")
    } else {
        h.markup("<p><span class=\"badge bad\">Intel DCAP signature NOT verified</span>\n")
    };
    let status = match &v.tcb_status {
        Some(status) => status.clone(),
        None => "unknown".to_owned(),
    };
    let h = h.markup("<span class=\"badge tcb-").text(v.tcb_class).markup("\">TCB ").text(
        status.as_str(),
    ).markup("</span>\n");
    let h = match v.measurements_match {
        Some(true) => h.markup("<span class=\"badge good\">measurements match the quote</span>\n"),
        Some(false) => h.markup(
            "<span class=\"badge bad\">measurements do NOT match the quote</span>\n",
        ),
        None => h,
    };
    let h = h.markup("<span class=\"badge oc-").text(v.on_chain.class()).markup("\">");
    let h = if v.on_chain.approved() {
        h.markup("on-chain: approved")
    } else if v.on_chain.not_approved() {
        h.markup("on-chain: NOT approved")
    } else {
        h.markup("on-chain: n/a")
    };
    let h = h.markup("</span></p>\n<dl>\n");
    let h = push_field(h, "contract", &v.on_chain_contract);
    let h = push_field(h, "error", &v.verify_error);
    let h = h.markup("</dl>\n<ul>\n");
    push_items(h, &v.advisory_ids).markup("</ul>\n")
}

fn push_registers(h: Html, cvm: &CvmView) -> (r: Html)
    ensures
        r@ == with_registers(h@, cvm@),
{
    match &cvm.decoded {
        Some(d) => {
            let h = h.markup("<p>Decoded from the verified quote:</p>\n<dl>\n");
            let h = push_measurements(h, &d.rows);
            let h = push_field(h, "fmspc", &d.fmspc);
            h.markup("</dl>\n<details><summary>raw quote</summary><pre>").text(
                d.quote_hex.as_str(),
            ).markup("</pre></details>\n")
        },
        None => {
            let h = h.markup("<p>Claimed by the report, not verified:</p>\n<dl>\n");
            push_measurements(h, &cvm.measurements).markup("</dl>\n")
        },
    }
}

fn push_hardware(h: Html, cvm: &CvmView, proof_url: &str) -> (r: Html)
    ensures
        r@ == with_hardware(h@, cvm@, proof_url@),
{
    let h = push_verdict(h.markup("<h3>TDX Hardware Attestation</h3>\n"), &cvm.verdict);
    push_registers(h, cvm).markup("<p>Check it yourself: <a href=\"").text(proof_url).markup(
        "\">",
    ).text(proof_url).markup("</a></p>\n")
}

fn push_source(h: Html, cvm: &CvmView) -> (r: Html)
    ensures
        r@ == with_source(h@, cvm@),
{
    let h = h.markup("<h3>Source Code</h3>\n<dl>\n");
    let h = push_field(h, "compose_hash", &cvm.compose_hash).markup("</dl>\n");
    let h = if cvm.images.len() > 0 {
        let h = h.markup(
            "<table>\n<tr><th>Container</th><th>Image</th><th>Digest</th><th>Origin</th><th>Verify</th></tr>\n",
        );
        push_images(h, &cvm.images).markup("</table>\n")
    } else {
        h
    };
    let h = push_items(h.markup("<ul>\n"), &cvm.image_digests).markup("</ul>\n");
    match &cvm.app_compose {
        Some(raw) => h.markup("<details><summary>app-compose</summary><pre>").text(
            raw.as_str(),
        ).markup("</pre></details>\n"),
        None => h.markup("<p>compose not reported yet</p>\n"),
    }
}

fn push_gateway(h: Html, cvm: &CvmView) -> (r: Html)
    ensures
        r@ == with_gateway(h@, cvm@),
{
    let h = h.markup("<h3>Zero Trust Gateway</h3>\n");
    match &cvm.gateway_domain {
        Some(domain) => h.markup("<p>").text(domain.as_str()).markup("</p>\n"),
        None => h.markup("<p>n/a</p>\n"),
    }
}

fn push_app_os(h: Html, cvm: &CvmView, releases_url: &str) -> (r: Html)
    ensures
        r@ == with_app_os(h@, cvm@, releases_url@),
{
    let h = h.markup("<h3>App OS</h3>\n<dl>\n");
    let h = push_field(h, "os_version", &cvm.os_version);
    let h = push_field(h, "os_image_hash", &cvm.os_image_hash);
    let h = push_field(h, "mr_aggregated", &cvm.mr_aggregated);
    h.markup("</dl>\n<p><a href=\"").text(releases_url).markup("\">dstack releases</a></p>\n")
}

fn push_kms(h: Html, cvm: &CvmView) -> (r: Html)
    ensures
        r@ == with_kms(h@, cvm@),
{
    let h = h.markup("<h3>KMS — deploy-time key provisioning</h3>\n<dl>\n");
    let h = push_field(h, "key_provider", &cvm.key_provider).markup("</dl>\n");
    if cvm.kms_in_tee {
        h.markup("<p>Keys are provisioned by the dstack KMS, inside a TEE.</p>\n")
    } else {
        h
    }
}

fn push_card(h: Html, cvm: &CvmView, proof_url: &str, releases_url: &str) -> (r: Html)
    ensures
        r@ == with_card(h@, cvm@, proof_url@, releases_url@),
{
    let h = if cvm.verdict.failing {
        h.markup("<article class=\"card failing\">\n")
    } else {
        h.markup("<article class=\"card\">\n")
    };
    let h = push_app_header(h, cvm);
    let h = push_hardware(h, cvm, proof_url);
    let h = push_source(h, cvm);
    let h = push_gateway(h, cvm);
    let h = push_app_os(h, cvm, releases_url);
    push_kms(h, cvm).markup("</article>\n")
}

fn push_cards(h: Html, cvms: &Vec<CvmView>, proof_url: &str, releases_url: &str) -> (r: Html)
    ensures
        r@ == with_cards(h@, text::each_view(cvms@), proof_url@, releases_url@),
{
    let ghost start = h@;
    let ghost all = text::each_view(cvms@);
    let mut h = h;
    let mut i: usize = 0;
    assert(h@ == with_cards(start, all.take(0), proof_url@, releases_url@));
    while i < cvms.len()
        invariant
            i <= cvms@.len(),
            all == text::each_view(cvms@),
            h@ == with_cards(start, all.take(i as int), proof_url@, releases_url@),
        decreases cvms@.len() - i,
    {
        assert(all.take(i + 1).drop_last() =~= all.take(i as int));
        assert(all.take(i + 1).last() == cvms@[i as int]@);
        h = push_card(h, &cvms[i], proof_url, releases_url);
        i = i + 1;
    }
    assert(all.take(i as int) =~= all);
    h
}

/// The detail page of an app: a card for each of its instances.
pub struct AppDetailPage {
    pub app_id: String,
    pub cvms: Vec<CvmView>,
    pub proof_explorer_url: &'static str,
    pub dstack_releases_url: &'static str,
}

impl AppDetailPage {
    pub fn new(app_id: String, cvms: Vec<CvmView>) -> (r: AppDetailPage)
        ensures
            r.app_id == app_id,
            r.cvms == cvms,
            r.proof_explorer_url@ == PROOF_EXPLORER_URL@,
            r.dstack_releases_url@ == DSTACK_RELEASES_URL@,
    {
        AppDetailPage {
            app_id,
            cvms,
            proof_explorer_url: PROOF_EXPLORER_URL,
            dstack_releases_url: DSTACK_RELEASES_URL,
        }
    }

    /// The page as HTML; nothing in it fails.
    pub fn render_page(&self) -> (r: Result<String, askama::Error>)
        ensures
            r is Ok,
            r->Ok_0@ == html::rendered(
                detail_layout(
                    self.app_id@,
                    text::each_view(self.cvms@),
                    self.proof_explorer_url@,
                    self.dstack_releases_url@,
                ).pieces,
            ),
    {
        let h = Html::new().markup(DETAIL_HEAD).markup("<h1>").text(self.app_id.as_str()).markup(
            "</h1>\n",
        ).markup(DISCLAIMER);
        let h = push_cards(h, &self.cvms, self.proof_explorer_url, self.dstack_releases_url);
        Ok(h.markup(FOOT).finish())
    }
}

/// The page for an app that nobody knows.
pub struct UnknownAppPage {
    pub app_id: String,
}

impl UnknownAppPage {
    /// The page as HTML; nothing in it fails.
    pub fn render_page(&self) -> (r: Result<String, askama::Error>)
        ensures
            r is Ok,
            r->Ok_0@ == html::rendered(unknown_layout(self.app_id@).pieces),
    {
        let h = Html::new().markup(DETAIL_HEAD).markup(
            "<h1>No worker found</h1>\n<p>No worker found for app id ",
        ).text(self.app_id.as_str()).markup(".</p>\n").markup(FOOT);
        Ok(h.finish())
    }
}

/// The nodes as the index shows them.
pub open spec fn index_nodes(now: u64, nodes: Seq<StoredNode>) -> Seq<page::NodeListModel> {
    Seq::new(
        nodes.len(),
        |i: int|
            page::node_list(now, nodes[i].received_at, *nodes[i].report, nodes[i].verdicts@),
    )
}

/// The detail page of an app as HTML; nothing where no instance of it is known.
pub open spec fn app_html(app_id: Seq<char>, nodes: Seq<StoredNode>) -> Option<Seq<char>> {
    if app_id.len() == 0 || page::matching(nodes, app_id).len() == 0 {
        None
    } else {
        Some(
            html::rendered(
                detail_layout(
                    app_id,
                    page::app_cards(nodes, app_id),
                    PROOF_EXPLORER_URL@,
                    DSTACK_RELEASES_URL@,
                ).pieces,
            ),
        )
    }
}

/// The index page as of `now`: one row for each app of each node.
pub fn render_index(now: u64, nodes: &[StoredNode<'_>]) -> (r: Result<String, askama::Error>)
    ensures
        r is Ok,
        r->Ok_0@ == html::rendered(index_layout(index_nodes(now, nodes@)).pieces),
{
    let mut views: Vec<NodeListView> = Vec::new();
    let mut i: usize = 0;
    let ghost wanted = index_nodes(now, nodes@);
    assert(text::each_view(views@) =~= wanted.take(0));
    while i < nodes.len()
        invariant
            i <= nodes@.len(),
            wanted == index_nodes(now, nodes@),
            text::each_view(views@) == wanted.take(i as int),
        decreases nodes@.len() - i,
    {
        let ghost before = views@;
        let n = &nodes[i];
        let view = page::build_node_list(now, n.received_at, n.report, n.verdicts);
        views.push(view);
        assert(text::each_view(views@) =~= text::each_view(before).push(view@));
        i = i + 1;
        assert(text::each_view(views@) =~= wanted.take(i as int));
    }
    assert(wanted.take(i as int) =~= wanted);
    IndexPage::new(views).render_page()
}

/// The detail page of an app: every instance of it on every node. There is none for an app that no
/// node reports, and none for an empty identity.
pub fn render_app(app_id: &str, _now: u64, nodes: &[StoredNode<'_>]) -> (r: Result<
    Option<String>,
    askama::Error,
>)
    ensures
        r is Ok,
        text::opt_view(r->Ok_0) == app_html(app_id@, nodes@),
{
    if text::is_empty(app_id) {
        return Ok(None);
    }
    let cvms = page::build_cards(app_id, nodes);
    if cvms.len() == 0 {
        return Ok(None);
    }
    match AppDetailPage::new(app_id.to_owned(), cvms).render_page() {
        Ok(html) => Ok(Some(html)),
        Err(e) => Err(e),
    }
}

/// The page for an app that nobody knows.
pub fn render_unknown_app(app_id: &str) -> (r: Result<String, askama::Error>)
    ensures
        r is Ok,
        r->Ok_0@ == html::rendered(unknown_layout(app_id@).pieces),
{
    UnknownAppPage { app_id: app_id.to_owned() }.render_page()
}

proof fn lemma_measurements_keep(p: Layout, rows: Seq<(Seq<char>, Seq<char>)>)
    ensures
        html::keeps(p, with_measurements(p, rows)),
    decreases rows.len(),
{
    if rows.len() > 0 {
        lemma_measurements_keep(p, rows.drop_last());
    }
}

proof fn lemma_items_keep(p: Layout, items: Seq<Seq<char>>)
    ensures
        html::keeps(p, with_items(p, items)),
    decreases items.len(),
{
    if items.len() > 0 {
        lemma_items_keep(p, items.drop_last());
    }
}

proof fn lemma_images_keep(p: Layout, rows: Seq<compose::ImageRowModel>)
    ensures
        html::keeps(p, with_images(p, rows)),
    decreases rows.len(),
{
    if rows.len() > 0 {
        lemma_images_keep(p, rows.drop_last());
    }
}

proof fn lemma_verdict_keeps(p: Layout, v: page::VerdictViewModel)
    ensures
        html::keeps(p, with_verdict(p, v)),
{
    assert forall|q: Layout| html::keeps(q, #[trigger] with_items(q, v.advisory_ids)) by {
        lemma_items_keep(q, v.advisory_ids);
    }
}

proof fn lemma_registers_keep(p: Layout, cvm: page::CvmViewModel)
    ensures
        html::keeps(p, with_registers(p, cvm)),
{
    assert forall|q: Layout, rows: Seq<(Seq<char>, Seq<char>)>|
        html::keeps(q, #[trigger] with_measurements(q, rows)) by {
        lemma_measurements_keep(q, rows);
    }
}

proof fn lemma_hardware_keeps(p: Layout, cvm: page::CvmViewModel, proof_url: Seq<char>)
    ensures
        html::keeps(p, with_hardware(p, cvm, proof_url)),
{
    let a = p.markup("<h3>TDX Hardware Attestation</h3>\n"@);
    let b = with_verdict(a, cvm.verdict);
    lemma_verdict_keeps(a, cvm.verdict);
    lemma_registers_keep(b, cvm);
    assert(html::keeps(p, with_registers(b, cvm)));
}

proof fn lemma_source_keeps(p: Layout, cvm: page::CvmViewModel)
    ensures
        html::keeps(p, with_source(p, cvm)),
{
    assert forall|q: Layout| html::keeps(q, #[trigger] with_items(q, cvm.image_digests)) by {
        lemma_items_keep(q, cvm.image_digests);
    }
    assert forall|q: Layout| html::keeps(q, #[trigger] with_images(q, cvm.images)) by {
        lemma_images_keep(q, cvm.images);
    }
}

proof fn lemma_header_keeps(p: Layout, cvm: page::CvmViewModel)
    ensures
        html::keeps(p, with_app_header(p, cvm)),
{
}

proof fn lemma_gateway_keeps(p: Layout, cvm: page::CvmViewModel)
    ensures
        html::keeps(p, with_gateway(p, cvm)),
{
}

proof fn lemma_app_os_keeps(p: Layout, cvm: page::CvmViewModel, releases_url: Seq<char>)
    ensures
        html::keeps(p, with_app_os(p, cvm, releases_url)),
{
}

proof fn lemma_kms_keeps(p: Layout, cvm: page::CvmViewModel)
    ensures
        html::keeps(p, with_kms(p, cvm)),
{
}

/// The sections of a card come after what stands before it.
pub proof fn lemma_sections_keep(
    p: Layout,
    cvm: page::CvmViewModel,
    proof_url: Seq<char>,
    releases_url: Seq<char>,
)
    ensures
        html::keeps(p, with_sections(p, cvm, proof_url, releases_url)),
{
    let b = with_app_header(p, cvm);
    lemma_header_keeps(p, cvm);
    let c = with_hardware(b, cvm, proof_url);
    lemma_hardware_keeps(b, cvm, proof_url);
    html::lemma_keeps_chains(p, b, c);
    let d = with_source(c, cvm);
    lemma_source_keeps(c, cvm);
    html::lemma_keeps_chains(p, c, d);
    let e = with_gateway(d, cvm);
    lemma_gateway_keeps(d, cvm);
    html::lemma_keeps_chains(p, d, e);
    let f = with_app_os(e, cvm, releases_url);
    lemma_app_os_keeps(e, cvm, releases_url);
    html::lemma_keeps_chains(p, e, f);
    lemma_kms_keeps(f, cvm);
    html::lemma_keeps_chains(p, f, with_kms(f, cvm));
}

proof fn lemma_card_keeps(
    p: Layout,
    cvm: page::CvmViewModel,
    proof_url: Seq<char>,
    releases_url: Seq<char>,
)
    ensures
        html::keeps(p, with_card(p, cvm, proof_url, releases_url)),
{
    let a = if cvm.verdict.failing {
        p.markup("<article class=\"card failing\">\n"@)
    } else {
        p.markup("<article class=\"card\">\n"@)
    };
    lemma_sections_keep(a, cvm, proof_url, releases_url);
}

proof fn lemma_cards_keep(
    p: Layout,
    cvms: Seq<page::CvmViewModel>,
    proof_url: Seq<char>,
    releases_url: Seq<char>,
)
    ensures
        html::keeps(p, with_cards(p, cvms, proof_url, releases_url)),
    decreases cvms.len(),
{
    if cvms.len() > 0 {
        let before = with_cards(p, cvms.drop_last(), proof_url, releases_url);
        lemma_cards_keep(p, cvms.drop_last(), proof_url, releases_url);
        lemma_card_keeps(before, cvms.last(), proof_url, releases_url);
    }
}

/// Every detail page says how its quotes were checked and that this is not Intel Trust Authority.
pub proof fn law_detail_page_keeps_disclaimer(
    app_id: Seq<char>,
    cvms: Seq<page::CvmViewModel>,
    proof_url: Seq<char>,
    releases_url: Seq<char>,
)
    ensures
        text::contains_text(
            html::rendered(detail_layout(app_id, cvms, proof_url, releases_url).pieces),
            DISCLAIMER@,
        ),
{
    let p = Layout::empty().markup(DETAIL_HEAD@).markup("<h1>"@).text(app_id).markup("</h1>\n"@);
    let q = detail_layout(app_id, cvms, proof_url, releases_url);
    lemma_cards_keep(p.markup(DISCLAIMER@), cvms, proof_url, releases_url);
    assert(html::keeps(p.markup(DISCLAIMER@), q));
    html::lemma_markup_stays(p, DISCLAIMER@, q);
}

/// There is a detail page exactly for the apps that some node reports; never for an empty identity.
pub proof fn law_detail_page_for_known_apps(app_id: Seq<char>, nodes: Seq<StoredNode>)
    ensures
        app_html(app_id, nodes) is Some <==> app_id.len() > 0 && exists|n: int, c: int|
            0 <= n < nodes.len() && 0 <= c < nodes[n].report.cvms@.len() && (
            #[trigger] nodes[n].report.cvms@[c]).app_id@ == app_id,
{
    page::law_matching_finds_instances(nodes, app_id);
}

} // verus!
