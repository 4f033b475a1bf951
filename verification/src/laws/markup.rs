//! Laws of the pages' markup: which texts a visitor reads, under which labels, and which words the
//! template adds.
use vstd::prelude::*;

use crate::html::{Layout, Piece};
use crate::page::StoredNode;
use crate::{compose, html, page, template, text, verify};

verus! {

/// The texts that a visitor reads, in order.
pub open spec fn texts(l: Layout) -> Seq<Seq<char>>
    decreases l.pieces.len(),
{
    if l.pieces.len() == 0 {
        Seq::empty()
    } else {
        let before = texts(Layout { pieces: l.pieces.drop_last() });
        match l.pieces.last() {
            Piece::Text(t) => before.push(t),
            Piece::Markup(_) => before,
        }
    }
}

/// How often the template's markup says exactly this.
pub open spec fn said(l: Layout, m: Seq<char>) -> nat
    decreases l.pieces.len(),
{
    if l.pieces.len() == 0 {
        0
    } else {
        said(Layout { pieces: l.pieces.drop_last() }, m) + if l.pieces.last() == Piece::Markup(m) {
            1nat
        } else {
            0nat
        }
    }
}

broadcast proof fn lemma_texts_markup(p: Layout, m: Seq<char>)
    ensures
        #[trigger] texts(p.markup(m)) == texts(p),
{
    assert(p.markup(m).pieces.drop_last() =~= p.pieces);
}

broadcast proof fn lemma_texts_text(p: Layout, t: Seq<char>)
    ensures
        #[trigger] texts(p.text(t)) == texts(p).push(t),
{
    assert(p.text(t).pieces.drop_last() =~= p.pieces);
}

broadcast proof fn lemma_said_markup(p: Layout, x: Seq<char>, m: Seq<char>)
    ensures
        #[trigger] said(p.markup(x), m) == said(p, m) + if x == m {
            1int
        } else {
            0int
        },
{
    assert(p.markup(x).pieces.drop_last() =~= p.pieces);
}

broadcast proof fn lemma_said_text(p: Layout, t: Seq<char>, m: Seq<char>)
    ensures
        #[trigger] said(p.text(t), m) == said(p, m),
{
    assert(p.text(t).pieces.drop_last() =~= p.pieces);
}

broadcast group group_reading {
    lemma_texts_markup,
    lemma_texts_text,
    lemma_said_markup,
    lemma_said_text,
}

/// A list with an item, where there is one.
pub open spec fn with_some(items: Seq<Seq<char>>, item: Option<Seq<char>>) -> Seq<Seq<char>> {
    match item {
        Some(t) => items.push(t),
        None => items,
    }
}

proof fn lemma_field_texts(p: Layout, label: Seq<char>, value: Option<Seq<char>>)
    ensures
        texts(template::with_field(p, label, value)) == with_some(texts(p), value),
{
    broadcast use group_reading;
}

proof fn lemma_badge_texts(p: Layout, value: Option<Seq<char>>)
    ensures
        texts(template::with_badge(p, value)) == with_some(texts(p), value),
{
    broadcast use group_reading;
}

/// The texts of a row of the index, in reading order. The app's identity comes first, where the row is a
/// link to it.
pub open spec fn row_texts(row: page::AppRowModel) -> Seq<Seq<char>> {
    let link = if row.app_id.len() > 0 {
        seq![row.app_id]
    } else {
        Seq::empty()
    };
    let named = with_some(link.push(row.name).push(row.role_label), row.network_label);
    let counted = if row.multi_instance {
        named.push(row.status).push(text::decimal(row.instance_count))
    } else {
        named.push(row.status)
    };
    counted.push(row.summary_class).push(row.summary_label)
}

proof fn lemma_row_texts(p: Layout, row: page::AppRowModel)
    ensures
        texts(template::with_row(p, row)) == texts(p) + row_texts(row),
{
    broadcast use group_reading;

    let start = texts(p);
    let a = if row.app_id.len() > 0 {
        p.markup("<li><a class=\"row\" href=\"/app/"@).text(row.app_id).markup("\">\n"@)
    } else {
        p.markup("<li><div class=\"row\">\n"@)
    };
    let b = a.markup("<span class=\"name\">"@).text(row.name).markup(
        "</span>\n<span class=\"badge\">"@,
    ).text(row.role_label).markup("</span>\n"@);
    lemma_badge_texts(b, row.network_label);
    let link: Seq<Seq<char>> = if row.app_id.len() > 0 {
        seq![row.app_id]
    } else {
        Seq::empty()
    };
    assert(texts(a) =~= start + link);
    assert(texts(b) =~= start + link.push(row.name).push(row.role_label));
    assert(texts(template::with_row(p, row)) =~= start + row_texts(row));
}

/// The texts of some rows.
pub open spec fn rows_texts(rows: Seq<page::AppRowModel>) -> Seq<Seq<char>>
    decreases rows.len(),
{
    if rows.len() == 0 {
        Seq::empty()
    } else {
        rows_texts(rows.drop_last()) + row_texts(rows.last())
    }
}

proof fn lemma_rows_texts(p: Layout, rows: Seq<page::AppRowModel>)
    ensures
        texts(template::with_rows(p, rows)) == texts(p) + rows_texts(rows),
    decreases rows.len(),
{
    if rows.len() > 0 {
        lemma_rows_texts(p, rows.drop_last());
        lemma_row_texts(template::with_rows(p, rows.drop_last()), rows.last());
    }
    assert(texts(template::with_rows(p, rows)) =~= texts(p) + rows_texts(rows));
}

/// The texts of some nodes of the index: of each its name, how fresh it is, when it was last heard of,
/// and its rows.
pub open spec fn nodes_texts(nodes: Seq<page::NodeListModel>) -> Seq<Seq<char>>
    decreases nodes.len(),
{
    if nodes.len() == 0 {
        Seq::empty()
    } else {
        let node = nodes.last();
        nodes_texts(nodes.drop_last()) + seq![
            node.node_id,
            node.last_seen_class,
            node.last_seen_human,
        ] + rows_texts(node.rows)
    }
}

proof fn lemma_nodes_texts(p: Layout, nodes: Seq<page::NodeListModel>)
    ensures
        texts(template::with_nodes(p, nodes)) == texts(p) + nodes_texts(nodes),
    decreases nodes.len(),
{
    broadcast use group_reading;

    if nodes.len() > 0 {
        let before = template::with_nodes(p, nodes.drop_last());
        let node = nodes.last();
        lemma_nodes_texts(p, nodes.drop_last());
        let a = before.markup("<section class=\"node\">\n<h2>"@).text(node.node_id).markup(
            "</h2>\n<span class=\"pill pill-"@,
        ).text(node.last_seen_class).markup("\">last seen live "@).text(
            node.last_seen_human,
        ).markup("</span>\n<ul>\n"@);
        lemma_rows_texts(a, node.rows);
        assert(texts(a) =~= texts(before) + seq![
            node.node_id,
            node.last_seen_class,
            node.last_seen_human,
        ]);
    }
    assert(texts(template::with_nodes(p, nodes)) =~= texts(p) + nodes_texts(nodes));
}

/// On the index a visitor reads of every node its name and when it was last heard of, and of every app
/// on it the link, the name, the role, the network, the status, the number of instances where it is more
/// than one, and the chip; nothing else that comes from outside, and all of it in order.
pub proof fn law_index_texts(nodes: Seq<page::NodeListModel>)
    ensures
        texts(template::index_layout(nodes)) == nodes_texts(nodes),
{
    broadcast use group_reading;

    let p = Layout::empty().markup(template::INDEX_HEAD@);
    lemma_nodes_texts(p, nodes);
    assert(texts(Layout::empty()) =~= Seq::<Seq<char>>::empty());
    assert(texts(template::index_layout(nodes)) =~= nodes_texts(nodes));
}

/// A row is a link to its app exactly where the app has an identity, and tells how many instances there
/// are exactly where there are more than one.
pub proof fn law_row_words(p: Layout, row: page::AppRowModel)
    ensures
        ({
            let q = template::with_row(p, row);
            &&& said(q, "<li><a class=\"row\" href=\"/app/"@) == said(
                p,
                "<li><a class=\"row\" href=\"/app/"@,
            ) + if row.app_id.len() > 0 {
                1int
            } else {
                0int
            }
            &&& said(q, " instances</span>\n"@) == said(p, " instances</span>\n"@)
                + if row.multi_instance {
                1int
            } else {
                0int
            }
        }),
{
    broadcast use group_reading;

reveal_strlit("<li><a class=\"row\" href=\"/app/");
    reveal_strlit(" instances</span>\n");
    reveal_strlit("\">\n");
    reveal_strlit("<li><div class=\"row\">\n");
    reveal_strlit("<span class=\"name\">");
    reveal_strlit("</span>\n<span class=\"badge\">");
    reveal_strlit("</span>\n");
    reveal_strlit("<span class=\"status\">");
    reveal_strlit("<span class=\"badge\">");
    reveal_strlit("<span class=\"chip sum-");
    reveal_strlit("\">");
    reveal_strlit("</a></li>\n");
    reveal_strlit("</div></li>\n");
    assert("<li><a class=\"row\" href=\"/app/"@.len() != " instances</span>\n"@.len());
    assert("<li><a class=\"row\" href=\"/app/"@.len() != "\">\n"@.len());
    assert("<li><a class=\"row\" href=\"/app/"@.len() != "<li><div class=\"row\">\n"@.len());
    assert("<li><a class=\"row\" href=\"/app/"@.len() != "<span class=\"name\">"@.len());
    assert("<li><a class=\"row\" href=\"/app/"@.len() != "</span>\n<span class=\"badge\">"@.len());
    assert("<li><a class=\"row\" href=\"/app/"@.len() != "</span>\n"@.len());
    assert("<li><a class=\"row\" href=\"/app/"@.len() != "<span class=\"status\">"@.len());
    assert("<li><a class=\"row\" href=\"/app/"@.len() != "<span class=\"badge\">"@.len());
    assert("<li><a class=\"row\" href=\"/app/"@.len() != "<span class=\"chip sum-"@.len());
    assert("<li><a class=\"row\" href=\"/app/"@.len() != "\">"@.len());
    assert("<li><a class=\"row\" href=\"/app/"@.len() != "</a></li>\n"@.len());
    assert("<li><a class=\"row\" href=\"/app/"@.len() != "</div></li>\n"@.len());
    assert(" instances</span>\n"@.len() != "\">\n"@.len());
    assert(" instances</span>\n"@.len() != "<li><div class=\"row\">\n"@.len());
    assert(" instances</span>\n"@.len() != "<span class=\"name\">"@.len());
    assert(" instances</span>\n"@.len() != "</span>\n<span class=\"badge\">"@.len());
    assert(" instances</span>\n"@.len() != "</span>\n"@.len());
    assert(" instances</span>\n"@.len() != "<span class=\"status\">"@.len());
    assert(" instances</span>\n"@.len() != "<span class=\"badge\">"@.len());
    assert(" instances</span>\n"@.len() != "<span class=\"chip sum-"@.len());
    assert(" instances</span>\n"@.len() != "\">"@.len());
    assert(" instances</span>\n"@.len() != "</a></li>\n"@.len());
    assert(" instances</span>\n"@.len() != "</div></li>\n"@.len());
}

proof fn lemma_measurement_texts(p: Layout, rows: Seq<(Seq<char>, Seq<char>)>)
    ensures
        texts(template::with_measurements(p, rows)) == texts(p) + pair_texts(rows),
    decreases rows.len(),
{
    broadcast use group_reading;

    if rows.len() > 0 {
        lemma_measurement_texts(p, rows.drop_last());
    }
    assert(texts(template::with_measurements(p, rows)) =~= texts(p) + pair_texts(rows));
}

/// Labels and values, in order.
pub open spec fn pair_texts(rows: Seq<(Seq<char>, Seq<char>)>) -> Seq<Seq<char>>
    decreases rows.len(),
{
    if rows.len() == 0 {
        Seq::empty()
    } else {
        pair_texts(rows.drop_last()).push(rows.last().0).push(rows.last().1)
    }
}

proof fn lemma_item_texts(p: Layout, items: Seq<Seq<char>>)
    ensures
        texts(template::with_items(p, items)) == texts(p) + items,
    decreases items.len(),
{
    broadcast use group_reading;

    if items.len() > 0 {
        lemma_item_texts(p, items.drop_last());
    }
    assert(texts(template::with_items(p, items)) =~= texts(p) + items);
}

/// The texts of the image table: of each row the container, the image, the digest, where it comes from,
/// the place to look the digest up, and the release where there is one.
pub open spec fn image_texts(rows: Seq<compose::ImageRowModel>) -> Seq<Seq<char>>
    decreases rows.len(),
{
    if rows.len() == 0 {
        Seq::empty()
    } else {
        let row = rows.last();
        with_some(
            image_texts(rows.drop_last()) + seq![
                row.container,
                row.image,
                row.digest,
                row.origin,
                row.sigstore_url,
            ],
            row.release_url,
        )
    }
}

proof fn lemma_image_texts(p: Layout, rows: Seq<compose::ImageRowModel>)
    ensures
        texts(template::with_images(p, rows)) == texts(p) + image_texts(rows),
    decreases rows.len(),
{
    broadcast use group_reading;

    if rows.len() > 0 {
        lemma_image_texts(p, rows.drop_last());
    }
    assert(texts(template::with_images(p, rows)) =~= texts(p) + image_texts(rows));
}

/// The texts at the head of a card.
pub open spec fn header_texts(cvm: page::CvmViewModel) -> Seq<Seq<char>> {
    let named = with_some(seq![cvm.name, cvm.role_label], cvm.network_label).push(cvm.status);
    let placed = if cvm.instance_total > 1 {
        named.push(text::decimal(cvm.instance_index)).push(text::decimal(cvm.instance_total))
    } else {
        named
    };
    with_some(with_some(placed.push(cvm.app_id).push(cvm.vm_id), cvm.uptime), cvm.collect_error)
}

proof fn lemma_header_texts(p: Layout, cvm: page::CvmViewModel)
    ensures
        texts(template::with_app_header(p, cvm)) == texts(p) + header_texts(cvm),
{
    broadcast use group_reading;

    let a = p.markup("<h2>"@).text(cvm.name).markup("</h2>\n<span class=\"badge\">"@).text(
        cvm.role_label,
    ).markup("</span>\n"@);
    lemma_badge_texts(a, cvm.network_label);
    let b = template::with_badge(a, cvm.network_label);
    lemma_badge_texts(b, Some(cvm.status));
    let c = template::with_badge(b, Some(cvm.status));
    assert(texts(c) =~= texts(p) + with_some(
        seq![cvm.name, cvm.role_label],
        cvm.network_label,
    ).push(cvm.status));
    let d = if cvm.instance_total > 1 {
        c.markup("<span class=\"badge\">instance "@).text(text::decimal(cvm.instance_index)).markup(
            " of "@,
        ).text(text::decimal(cvm.instance_total)).markup("</span>\n"@)
    } else {
        c
    };
    let e = d.markup("<dl>\n"@);
    lemma_field_texts(e, "app_id"@, Some(cvm.app_id));
    let f = template::with_field(e, "app_id"@, Some(cvm.app_id));
    lemma_field_texts(f, "vm_id"@, Some(cvm.vm_id));
    let g = template::with_field(f, "vm_id"@, Some(cvm.vm_id));
    lemma_field_texts(g, "uptime"@, cvm.uptime);
    let i = template::with_field(g, "uptime"@, cvm.uptime);
    lemma_field_texts(i, "collection error"@, cvm.collect_error);
    assert(texts(template::with_app_header(p, cvm)) =~= texts(p) + header_texts(cvm));
}

/// The texts of a verdict on a card.
pub open spec fn verdict_texts(v: page::VerdictViewModel) -> Seq<Seq<char>> {
    if v.pending {
        Seq::empty()
    } else {
        let status = match v.tcb_status {
            Some(status) => status,
            None => "unknown"@,
        };
        let badges = seq![v.tcb_class, status, page::on_chain_class(v.on_chain)];
        with_some(with_some(badges, v.on_chain_contract), v.verify_error) + v.advisory_ids
    }
}

#[verifier::rlimit(30)]
proof fn lemma_verdict_texts(p: Layout, v: page::VerdictViewModel)
    ensures
        texts(template::with_verdict(p, v)) == texts(p) + verdict_texts(v),
{
    broadcast use group_reading;

    assert forall|q: Layout, label: Seq<char>, value: Option<Seq<char>>|
        texts(#[trigger] template::with_field(q, label, value)) == with_some(texts(q), value) by {
        lemma_field_texts(q, label, value);
    }
    assert forall|q: Layout|
        texts(#[trigger] template::with_items(q, v.advisory_ids)) == texts(q) + v.advisory_ids by {
        lemma_item_texts(q, v.advisory_ids);
    }
    assert(texts(template::with_verdict(p, v)) =~= texts(p) + verdict_texts(v));
}

/// The texts of the registers on a card: from the quote where it was decoded, otherwise the claim.
pub open spec fn register_texts(cvm: page::CvmViewModel) -> Seq<Seq<char>> {
    match cvm.decoded {
        Some(d) => with_some(pair_texts(d.rows), d.fmspc).push(d.quote_hex),
        None => pair_texts(cvm.measurements),
    }
}

proof fn lemma_register_texts(p: Layout, cvm: page::CvmViewModel)
    ensures
        texts(template::with_registers(p, cvm)) == texts(p) + register_texts(cvm),
{
    broadcast use group_reading;

    assert forall|q: Layout, rows: Seq<(Seq<char>, Seq<char>)>|
        texts(#[trigger] template::with_measurements(q, rows)) == texts(q) + pair_texts(rows) by {
        lemma_measurement_texts(q, rows);
    }
    assert forall|q: Layout, label: Seq<char>, value: Option<Seq<char>>|
        texts(#[trigger] template::with_field(q, label, value)) == with_some(texts(q), value) by {
        lemma_field_texts(q, label, value);
    }
    assert(texts(template::with_registers(p, cvm)) =~= texts(p) + register_texts(cvm));
}

/// The texts of the source section of a card.
pub open spec fn source_texts(cvm: page::CvmViewModel) -> Seq<Seq<char>> {
    with_some(
        with_some(Seq::empty(), cvm.compose_hash) + image_texts(cvm.images) + cvm.image_digests,
        cvm.app_compose,
    )
}

proof fn lemma_source_texts(p: Layout, cvm: page::CvmViewModel)
    ensures
        texts(template::with_source(p, cvm)) == texts(p) + source_texts(cvm),
{
    broadcast use group_reading;

    let a = p.markup("<h3>Source Code</h3>\n<dl>\n"@);
    lemma_field_texts(a, "compose_hash"@, cvm.compose_hash);
    assert forall|q: Layout|
        texts(#[trigger] template::with_images(q, cvm.images)) == texts(q) + image_texts(
            cvm.images,
        ) by {
        lemma_image_texts(q, cvm.images);
    }
    assert forall|q: Layout|
        texts(#[trigger] template::with_items(q, cvm.image_digests)) == texts(q)
            + cvm.image_digests by {
        lemma_item_texts(q, cvm.image_digests);
    }
    assert(texts(template::with_source(p, cvm)) =~= texts(p) + source_texts(cvm));
}

/// The texts of the operating-system section of a card.
pub open spec fn app_os_texts(cvm: page::CvmViewModel, releases_url: Seq<char>) -> Seq<Seq<char>> {
    with_some(
        with_some(with_some(Seq::empty(), cvm.os_version), cvm.os_image_hash),
        cvm.mr_aggregated,
    ).push(releases_url)
}

proof fn lemma_app_os_texts(p: Layout, cvm: page::CvmViewModel, releases_url: Seq<char>)
    ensures
        texts(template::with_app_os(p, cvm, releases_url)) == texts(p) + app_os_texts(
            cvm,
            releases_url,
        ),
{
    broadcast use group_reading;

    assert forall|q: Layout, label: Seq<char>, value: Option<Seq<char>>|
        texts(#[trigger] template::with_field(q, label, value)) == with_some(texts(q), value) by {
        lemma_field_texts(q, label, value);
    }
    assert(texts(template::with_app_os(p, cvm, releases_url)) =~= texts(p) + app_os_texts(
        cvm,
        releases_url,
    ));
}

/// The texts of a card, in reading order.
pub open spec fn card_texts(
    cvm: page::CvmViewModel,
    proof_url: Seq<char>,
    releases_url: Seq<char>,
) -> Seq<Seq<char>> {
    header_texts(cvm) + verdict_texts(cvm.verdict) + register_texts(cvm) + seq![
        proof_url,
        proof_url,
    ] + source_texts(cvm) + with_some(Seq::empty(), cvm.gateway_domain) + app_os_texts(
        cvm,
        releases_url,
    ) + with_some(Seq::empty(), cvm.key_provider)
}

proof fn lemma_hardware_texts(p: Layout, cvm: page::CvmViewModel, proof_url: Seq<char>)
    ensures
        texts(template::with_hardware(p, cvm, proof_url)) == texts(p) + verdict_texts(cvm.verdict)
            + register_texts(cvm) + seq![proof_url, proof_url],
{
    broadcast use group_reading;

    let a = p.markup("<h3>TDX Hardware Attestation</h3>\n"@);
    lemma_verdict_texts(a, cvm.verdict);
    let b = template::with_verdict(a, cvm.verdict);
    lemma_register_texts(b, cvm);
    assert(texts(template::with_hardware(p, cvm, proof_url)) =~= texts(b) + register_texts(cvm)
        + seq![proof_url, proof_url]);
}

proof fn lemma_gateway_texts(p: Layout, cvm: page::CvmViewModel)
    ensures
        texts(template::with_gateway(p, cvm)) == texts(p) + with_some(
            Seq::empty(),
            cvm.gateway_domain,
        ),
{
    broadcast use group_reading;

    assert(texts(template::with_gateway(p, cvm)) =~= texts(p) + with_some(
        Seq::empty(),
        cvm.gateway_domain,
    ));
}

proof fn lemma_kms_texts(p: Layout, cvm: page::CvmViewModel)
    ensures
        texts(template::with_kms(p, cvm)) == texts(p) + with_some(Seq::empty(), cvm.key_provider),
{
    broadcast use group_reading;

    let a = p.markup("<h3>KMS — deploy-time key provisioning</h3>\n<dl>\n"@);
    lemma_field_texts(a, "key_provider"@, cvm.key_provider);
    assert(texts(template::with_kms(p, cvm)) =~= texts(p) + with_some(
        Seq::empty(),
        cvm.key_provider,
    ));
}

proof fn lemma_join(a: Seq<Seq<char>>, b: Seq<Seq<char>>, c: Seq<Seq<char>>)
    ensures
        (a + b) + c == a + (b + c),
{
    assert((a + b) + c =~= a + (b + c));
}

proof fn lemma_sections_texts(
    p: Layout,
    cvm: page::CvmViewModel,
    proof_url: Seq<char>,
    releases_url: Seq<char>,
)
    ensures
        texts(template::with_sections(p, cvm, proof_url, releases_url)) == texts(p) + card_texts(
            cvm,
            proof_url,
            releases_url,
        ),
{
    let t = texts(p);
    let h = header_texts(cvm);
    let v = verdict_texts(cvm.verdict);
    let r = register_texts(cvm);
    let u = seq![proof_url, proof_url];
    let s = source_texts(cvm);
    let g = with_some(Seq::empty(), cvm.gateway_domain);
    let o = app_os_texts(cvm, releases_url);
    let k = with_some(Seq::empty(), cvm.key_provider);
    let b = template::with_app_header(p, cvm);
    lemma_header_texts(p, cvm);
    let c = template::with_hardware(b, cvm, proof_url);
    lemma_hardware_texts(b, cvm, proof_url);
    let d = template::with_source(c, cvm);
    lemma_source_texts(c, cvm);
    let e = template::with_gateway(d, cvm);
    lemma_gateway_texts(d, cvm);
    let f = template::with_app_os(e, cvm, releases_url);
    lemma_app_os_texts(e, cvm, releases_url);
    lemma_kms_texts(f, cvm);
    lemma_join(t, h, v);
    lemma_join(t, h + v, r);
    lemma_join(t, h + v + r, u);
    lemma_join(t, h + v + r + u, s);
    lemma_join(t, h + v + r + u + s, g);
    lemma_join(t, h + v + r + u + s + g, o);
    lemma_join(t, h + v + r + u + s + g + o, k);
}

proof fn lemma_card_texts(
    p: Layout,
    cvm: page::CvmViewModel,
    proof_url: Seq<char>,
    releases_url: Seq<char>,
)
    ensures
        texts(template::with_card(p, cvm, proof_url, releases_url)) == texts(p) + card_texts(
            cvm,
            proof_url,
            releases_url,
        ),
{
    let m = if cvm.verdict.failing {
        "<article class=\"card failing\">\n"@
    } else {
        "<article class=\"card\">\n"@
    };
    lemma_texts_markup(p, m);
    lemma_sections_texts(p.markup(m), cvm, proof_url, releases_url);
    lemma_texts_markup(
        template::with_sections(p.markup(m), cvm, proof_url, releases_url),
        "</article>\n"@,
    );
}

/// The texts of some cards.
pub open spec fn cards_texts(
    cvms: Seq<page::CvmViewModel>,
    proof_url: Seq<char>,
    releases_url: Seq<char>,
) -> Seq<Seq<char>>
    decreases cvms.len(),
{
    if cvms.len() == 0 {
        Seq::empty()
    } else {
        cards_texts(cvms.drop_last(), proof_url, releases_url) + card_texts(
            cvms.last(),
            proof_url,
            releases_url,
        )
    }
}

proof fn lemma_cards_texts(
    p: Layout,
    cvms: Seq<page::CvmViewModel>,
    proof_url: Seq<char>,
    releases_url: Seq<char>,
)
    ensures
        texts(template::with_cards(p, cvms, proof_url, releases_url)) == texts(p) + cards_texts(
            cvms,
            proof_url,
            releases_url,
        ),
    decreases cvms.len(),
{
    if cvms.len() > 0 {
        let before = template::with_cards(p, cvms.drop_last(), proof_url, releases_url);
        lemma_cards_texts(p, cvms.drop_last(), proof_url, releases_url);
        lemma_card_texts(before, cvms.last(), proof_url, releases_url);
    }
    assert(texts(template::with_cards(p, cvms, proof_url, releases_url)) =~= texts(p)
        + cards_texts(cvms, proof_url, releases_url));
}

/// On a detail page a visitor reads the app's identity and, card by card, what the page knows of each
/// instance; on the page for an unknown app, its identity alone. Nothing of it is left out and nothing
/// else that comes from outside is added.
pub proof fn law_detail_texts(
    app_id: Seq<char>,
    cvms: Seq<page::CvmViewModel>,
    proof_url: Seq<char>,
    releases_url: Seq<char>,
)
    ensures
        texts(template::detail_layout(app_id, cvms, proof_url, releases_url)) == seq![app_id]
            + cards_texts(cvms, proof_url, releases_url),
        texts(template::unknown_layout(app_id)) == seq![app_id],
{
    broadcast use group_reading;

    assert(texts(Layout::empty()) =~= Seq::<Seq<char>>::empty());
    let p = Layout::empty().markup(template::DETAIL_HEAD@).markup("<h1>"@).text(app_id).markup(
        "</h1>\n"@,
    ).markup(template::DISCLAIMER@);
    lemma_cards_texts(p, cvms, proof_url, releases_url);
    assert(texts(p) =~= seq![app_id]);
    assert(texts(template::unknown_layout(app_id)) =~= seq![app_id]);
}

/// The labelled values that a visitor reads, in order: each a label and the text beside it.
pub open spec fn fields(l: Layout) -> Seq<(Seq<char>, Seq<char>)>
    decreases l.pieces.len(),
{
    let n = l.pieces.len() as int;
    if n == 0 {
        Seq::empty()
    } else {
        let before = fields(Layout { pieces: l.pieces.drop_last() });
        if n >= 5 && l.pieces[n - 5] == Piece::Markup("<div><dt>"@) && l.pieces[n - 3]
            == Piece::Markup("</dt><dd>"@) && l.pieces[n - 2] is Text && l.pieces[n - 1]
            == Piece::Markup("</dd></div>\n"@) {
            let label = match l.pieces[n - 4] {
                Piece::Markup(m) => m,
                Piece::Text(t) => t,
            };
            before.push((label, l.pieces[n - 2]->Text_0))
        } else {
            before
        }
    }
}

broadcast proof fn lemma_fields_markup(p: Layout, m: Seq<char>)
    requires
        m != "</dd></div>\n"@,
    ensures
        #[trigger] fields(p.markup(m)) == fields(p),
{
    assert(p.markup(m).pieces.drop_last() =~= p.pieces);
}

broadcast proof fn lemma_fields_text(p: Layout, t: Seq<char>)
    ensures
        #[trigger] fields(p.text(t)) == fields(p),
{
    assert(p.text(t).pieces.drop_last() =~= p.pieces);
}

broadcast group group_fields {
    lemma_fields_markup,
    lemma_fields_text,
}

/// A list with a labelled value, where there is one.
pub open spec fn with_value(
    items: Seq<(Seq<char>, Seq<char>)>,
    label: Seq<char>,
    value: Option<Seq<char>>,
) -> Seq<(Seq<char>, Seq<char>)> {
    match value {
        Some(v) => items.push((label, v)),
        None => items,
    }
}

proof fn lemma_field(p: Layout, label: Seq<char>, value: Option<Seq<char>>)
    requires
        label != "</dd></div>\n"@,
    ensures
        fields(template::with_field(p, label, value)) == with_value(fields(p), label, value),
{
    broadcast use group_fields;

    reveal_strlit("</dd></div>\n");
    reveal_strlit("<div><dt>");
    reveal_strlit("</dt><dd>");
    assert("</dd></div>\n"@.len() != "<div><dt>"@.len());
    assert("</dd></div>\n"@.len() != "</dt><dd>"@.len());
    if let Some(v) = value {
        let q = p.markup("<div><dt>"@).markup(label).markup("</dt><dd>"@).text(v);
        let r = q.markup("</dd></div>\n"@);
        assert(r.pieces.drop_last() =~= q.pieces);
        assert(fields(q) == fields(p));
        assert(r == template::with_field(p, label, value));
    }
}

proof fn lemma_measurement_fields(p: Layout, rows: Seq<(Seq<char>, Seq<char>)>)
    ensures
        fields(template::with_measurements(p, rows)) == fields(p) + rows,
    decreases rows.len(),
{
    broadcast use group_fields;

    reveal_strlit("</dd></div>\n");
    reveal_strlit("<div><dt>");
    reveal_strlit("</dt><dd>");
    assert("</dd></div>\n"@.len() != "<div><dt>"@.len());
    assert("</dd></div>\n"@.len() != "</dt><dd>"@.len());
    if rows.len() > 0 {
        lemma_measurement_fields(p, rows.drop_last());
        let b = template::with_measurements(p, rows.drop_last());
        let q = b.markup("<div><dt>"@).text(rows.last().0).markup("</dt><dd>"@).text(
            rows.last().1,
        );
        let r = q.markup("</dd></div>\n"@);
        assert(r.pieces.drop_last() =~= q.pieces);
        assert(fields(q) == fields(b));
        assert(r == template::with_measurements(p, rows));
        assert(rows =~= rows.drop_last().push((rows.last().0, rows.last().1)));
    }
    assert(fields(template::with_measurements(p, rows)) =~= fields(p) + rows);
}

proof fn lemma_item_fields(p: Layout, items: Seq<Seq<char>>)
    ensures
        fields(template::with_items(p, items)) == fields(p),
    decreases items.len(),
{
    broadcast use group_fields;

    reveal_strlit("</dd></div>\n");
    reveal_strlit("<li>");
    reveal_strlit("</li>\n");
    assert("</dd></div>\n"@.len() != "<li>"@.len());
    assert("</dd></div>\n"@.len() != "</li>\n"@.len());
    if items.len() > 0 {
        lemma_item_fields(p, items.drop_last());
    }
}

proof fn lemma_image_fields(p: Layout, rows: Seq<compose::ImageRowModel>)
    ensures
        fields(template::with_images(p, rows)) == fields(p),
    decreases rows.len(),
{
    broadcast use group_fields;

    reveal_strlit("</dd></div>\n");
    reveal_strlit("<tr><td>");
    reveal_strlit("</td><td>");
    reveal_strlit("</td><td><a href=\"");
    reveal_strlit("\">Sigstore</a>");
    reveal_strlit(" <a href=\"");
    reveal_strlit("\">release</a>");
    reveal_strlit("</td></tr>\n");
    assert("</dd></div>\n"@.len() != "<tr><td>"@.len());
    assert("</dd></div>\n"@.len() != "</td><td>"@.len());
    assert("</dd></div>\n"@.len() != "</td><td><a href=\""@.len());
    assert("</dd></div>\n"@.len() != "\">Sigstore</a>"@.len());
    assert("</dd></div>\n"@.len() != " <a href=\""@.len());
    assert("</dd></div>\n"@.len() != "\">release</a>"@.len());
    assert("</dd></div>\n"@.len() != "</td></tr>\n"@.len());
    if rows.len() > 0 {
        lemma_image_fields(p, rows.drop_last());
    }
}

/// The head of a card labels the app's identity, the VM's, how long it has been up, and what went wrong
/// in collecting it.
pub proof fn law_header_fields(p: Layout, cvm: page::CvmViewModel)
    ensures
        fields(template::with_app_header(p, cvm)) == with_value(
            with_value(
                fields(p).push(("app_id"@, cvm.app_id)).push(("vm_id"@, cvm.vm_id)),
                "uptime"@,
                cvm.uptime,
            ),
            "collection error"@,
            cvm.collect_error,
        ),
{
    broadcast use group_fields;

    reveal_strlit("</dd></div>\n");
    reveal_strlit("<h2>");
    reveal_strlit("</h2>\n<span class=\"badge\">");
    reveal_strlit("</span>\n");
    reveal_strlit("<span class=\"badge\">instance ");
    reveal_strlit(" of ");
    reveal_strlit("<dl>\n");
    reveal_strlit("app_id");
    reveal_strlit("vm_id");
    reveal_strlit("uptime");
    reveal_strlit("collection error");
    reveal_strlit("</dl>\n");
    reveal_strlit("<span class=\"badge\">");
    assert("</dd></div>\n"@.len() != "<h2>"@.len());
    assert("</dd></div>\n"@.len() != "</h2>\n<span class=\"badge\">"@.len());
    assert("</dd></div>\n"@.len() != "</span>\n"@.len());
    assert("</dd></div>\n"@.len() != "<span class=\"badge\">instance "@.len());
    assert("</dd></div>\n"@.len() != " of "@.len());
    assert("</dd></div>\n"@.len() != "<dl>\n"@.len());
    assert("</dd></div>\n"@.len() != "app_id"@.len());
    assert("</dd></div>\n"@.len() != "vm_id"@.len());
    assert("</dd></div>\n"@.len() != "uptime"@.len());
    assert("</dd></div>\n"@.len() != "collection error"@.len());
    assert("</dd></div>\n"@.len() != "</dl>\n"@.len());
    assert("</dd></div>\n"@.len() != "<span class=\"badge\">"@.len());
    assert forall|q: Layout, label: Seq<char>, value: Option<Seq<char>>|
        label != "</dd></div>\n"@ implies fields(
        #[trigger] template::with_field(q, label, value),
    ) == with_value(fields(q), label, value) by {
        lemma_field(q, label, value);
    }
    assert forall|q: Layout, value: Option<Seq<char>>|
        fields(#[trigger] template::with_badge(q, value)) == fields(q) by {}
}

/// A verdict labels the contract that was asked, and what went wrong.
pub proof fn law_verdict_fields(p: Layout, v: page::VerdictViewModel)
    ensures
        fields(template::with_verdict(p, v)) == if v.pending {
            fields(p)
        } else {
            with_value(
                with_value(fields(p), "contract"@, v.on_chain_contract),
                "error"@,
                v.verify_error,
            )
        },
{
    broadcast use group_fields;

    reveal_strlit("</dd></div>\n");
    reveal_strlit("<p>verifying…</p>\n");
    reveal_strlit("<p><span class=\"badge good\">Intel DCAP signature valid</span>\n");
    reveal_strlit("<p><span class=\"badge bad\">Intel DCAP signature NOT verified</span>\n");
    reveal_strlit("<span class=\"badge tcb-");
    reveal_strlit("\">TCB ");
    reveal_strlit("unknown");
    reveal_strlit("</span>\n");
    reveal_strlit("<span class=\"badge good\">measurements match the quote</span>\n");
    reveal_strlit("<span class=\"badge bad\">measurements do NOT match the quote</span>\n");
    reveal_strlit("<span class=\"badge oc-");
    reveal_strlit("\">");
    reveal_strlit("on-chain: approved");
    reveal_strlit("on-chain: NOT approved");
    reveal_strlit("on-chain: n/a");
    reveal_strlit("</span></p>\n<dl>\n");
    reveal_strlit("contract");
    reveal_strlit("error");
    reveal_strlit("</dl>\n<ul>\n");
    reveal_strlit("</ul>\n");
    assert("</dd></div>\n"@.len() != "<p>verifying…</p>\n"@.len());
    assert("</dd></div>\n"@.len() != "<p><span class=\"badge good\">Intel DCAP signature valid</span>\n"@.len());
    assert("</dd></div>\n"@.len() != "<p><span class=\"badge bad\">Intel DCAP signature NOT verified</span>\n"@.len());
    assert("</dd></div>\n"@.len() != "<span class=\"badge tcb-"@.len());
    assert("</dd></div>\n"@.len() != "\">TCB "@.len());
    assert("</dd></div>\n"@.len() != "unknown"@.len());
    assert("</dd></div>\n"@.len() != "</span>\n"@.len());
    assert("</dd></div>\n"@.len() != "<span class=\"badge good\">measurements match the quote</span>\n"@.len());
    assert("</dd></div>\n"@.len() != "<span class=\"badge bad\">measurements do NOT match the quote</span>\n"@.len());
    assert("</dd></div>\n"@.len() != "<span class=\"badge oc-"@.len());
    assert("</dd></div>\n"@.len() != "\">"@.len());
    assert("</dd></div>\n"@.len() != "on-chain: approved"@.len());
    assert("</dd></div>\n"@.len() != "on-chain: NOT approved"@.len());
    assert("</dd></div>\n"@.len() != "on-chain: n/a"@.len());
    assert("</dd></div>\n"@.len() != "</span></p>\n<dl>\n"@.len());
    assert("</dd></div>\n"@.len() != "contract"@.len());
    assert("</dd></div>\n"@.len() != "error"@.len());
    assert("</dd></div>\n"@.len() != "</dl>\n<ul>\n"@.len());
    assert("</dd></div>\n"@.len() != "</ul>\n"@.len());
    assert forall|q: Layout, label: Seq<char>, value: Option<Seq<char>>|
        label != "</dd></div>\n"@ implies fields(
        #[trigger] template::with_field(q, label, value),
    ) == with_value(fields(q), label, value) by {
        lemma_field(q, label, value);
    }
    assert forall|q: Layout|
        fields(#[trigger] template::with_items(q, v.advisory_ids)) == fields(q) by {
        lemma_item_fields(q, v.advisory_ids);
    }
}

/// Every register is labelled with its own name: those of the quote, with the platform, where it was
/// decoded, and otherwise those of the claim.
pub proof fn law_register_fields(p: Layout, cvm: page::CvmViewModel)
    ensures
        fields(template::with_registers(p, cvm)) == match cvm.decoded {
            Some(d) => with_value(fields(p) + d.rows, "fmspc"@, d.fmspc),
            None => fields(p) + cvm.measurements,
        },
{
    broadcast use group_fields;

    reveal_strlit("</dd></div>\n");
    reveal_strlit("<p>Decoded from the verified quote:</p>\n<dl>\n");
    reveal_strlit("fmspc");
    reveal_strlit("</dl>\n<details><summary>raw quote</summary><pre>");
    reveal_strlit("</pre></details>\n");
    reveal_strlit("<p>Claimed by the report, not verified:</p>\n<dl>\n");
    reveal_strlit("</dl>\n");
    assert("</dd></div>\n"@.len() != "<p>Decoded from the verified quote:</p>\n<dl>\n"@.len());
    assert("</dd></div>\n"@.len() != "fmspc"@.len());
    assert("</dd></div>\n"@.len() != "</dl>\n<details><summary>raw quote</summary><pre>"@.len());
    assert("</dd></div>\n"@.len() != "</pre></details>\n"@.len());
    assert("</dd></div>\n"@.len() != "<p>Claimed by the report, not verified:</p>\n<dl>\n"@.len());
    assert("</dd></div>\n"@.len() != "</dl>\n"@.len());
    assert forall|q: Layout, rows: Seq<(Seq<char>, Seq<char>)>|
        fields(#[trigger] template::with_measurements(q, rows)) == fields(q) + rows by {
        lemma_measurement_fields(q, rows);
    }
    assert forall|q: Layout, value: Option<Seq<char>>|
        fields(#[trigger] template::with_field(q, "fmspc"@, value)) == with_value(
            fields(q),
            "fmspc"@,
            value,
        ) by {
        lemma_field(q, "fmspc"@, value);
    }
}

/// The other sections label the hash of the app-compose, the operating system by its version and hash
/// and the aggregated register, and the key provider.
pub proof fn law_other_fields(p: Layout, cvm: page::CvmViewModel, releases_url: Seq<char>)
    ensures
        fields(template::with_source(p, cvm)) == with_value(
            fields(p),
            "compose_hash"@,
            cvm.compose_hash,
        ),
        fields(template::with_gateway(p, cvm)) == fields(p),
        fields(template::with_app_os(p, cvm, releases_url)) == with_value(
            with_value(
                with_value(fields(p), "os_version"@, cvm.os_version),
                "os_image_hash"@,
                cvm.os_image_hash,
            ),
            "mr_aggregated"@,
            cvm.mr_aggregated,
        ),
        fields(template::with_kms(p, cvm)) == with_value(
            fields(p),
            "key_provider"@,
            cvm.key_provider,
        ),
{
    lemma_source_fields(p, cvm);
    lemma_gateway_fields(p, cvm);
    lemma_app_os_fields(p, cvm, releases_url);
    lemma_kms_fields(p, cvm);
}

proof fn lemma_source_fields(p: Layout, cvm: page::CvmViewModel)
    ensures
        fields(template::with_source(p, cvm)) == with_value(
            fields(p),
            "compose_hash"@,
            cvm.compose_hash,
        ),
{
    broadcast use group_fields;

    reveal_strlit("</dd></div>\n");
    reveal_strlit("<h3>Source Code</h3>\n<dl>\n");
    reveal_strlit("compose_hash");
    reveal_strlit("</dl>\n");
    reveal_strlit("<table>\n<tr><th>Container</th><th>Image</th><th>Digest</th><th>Origin</th><th>Verify</th></tr>\n");
    reveal_strlit("</table>\n");
    reveal_strlit("<ul>\n");
    reveal_strlit("</ul>\n");
    reveal_strlit("<details><summary>app-compose</summary><pre>");
    reveal_strlit("</pre></details>\n");
    reveal_strlit("<p>compose not reported yet</p>\n");
    assert("</dd></div>\n"@.len() != "<h3>Source Code</h3>\n<dl>\n"@.len());
    assert("</dd></div>\n"@[0] != "compose_hash"@[0]);
    assert("</dd></div>\n"@.len() != "</dl>\n"@.len());
    assert("</dd></div>\n"@.len() != "<table>\n<tr><th>Container</th><th>Image</th><th>Digest</th><th>Origin</th><th>Verify</th></tr>\n"@.len());
    assert("</dd></div>\n"@.len() != "</table>\n"@.len());
    assert("</dd></div>\n"@.len() != "<ul>\n"@.len());
    assert("</dd></div>\n"@.len() != "</ul>\n"@.len());
    assert("</dd></div>\n"@.len() != "<details><summary>app-compose</summary><pre>"@.len());
    assert("</dd></div>\n"@.len() != "</pre></details>\n"@.len());
    assert("</dd></div>\n"@.len() != "<p>compose not reported yet</p>\n"@.len());
    let a = p.markup("<h3>Source Code</h3>\n<dl>\n"@);
    lemma_field(a, "compose_hash"@, cvm.compose_hash);
    assert forall|q: Layout|
        fields(#[trigger] template::with_images(q, cvm.images)) == fields(q) by {
        lemma_image_fields(q, cvm.images);
    }
    assert forall|q: Layout|
        fields(#[trigger] template::with_items(q, cvm.image_digests)) == fields(q) by {
        lemma_item_fields(q, cvm.image_digests);
    }
}

proof fn lemma_gateway_fields(p: Layout, cvm: page::CvmViewModel)
    ensures
        fields(template::with_gateway(p, cvm)) == fields(p),
{
    broadcast use group_fields;

    reveal_strlit("</dd></div>\n");
    reveal_strlit("<h3>Zero Trust Gateway</h3>\n");
    reveal_strlit("<p>");
    reveal_strlit("</p>\n");
    reveal_strlit("<p>n/a</p>\n");
    assert("</dd></div>\n"@.len() != "<h3>Zero Trust Gateway</h3>\n"@.len());
    assert("</dd></div>\n"@.len() != "<p>"@.len());
    assert("</dd></div>\n"@.len() != "</p>\n"@.len());
    assert("</dd></div>\n"@.len() != "<p>n/a</p>\n"@.len());
}

proof fn lemma_app_os_fields(p: Layout, cvm: page::CvmViewModel, releases_url: Seq<char>)
    ensures
        fields(template::with_app_os(p, cvm, releases_url)) == with_value(
            with_value(
                with_value(fields(p), "os_version"@, cvm.os_version),
                "os_image_hash"@,
                cvm.os_image_hash,
            ),
            "mr_aggregated"@,
            cvm.mr_aggregated,
        ),
{
    broadcast use group_fields;

    reveal_strlit("</dd></div>\n");
    reveal_strlit("<h3>App OS</h3>\n<dl>\n");
    reveal_strlit("os_version");
    reveal_strlit("os_image_hash");
    reveal_strlit("mr_aggregated");
    reveal_strlit("</dl>\n<p><a href=\"");
    reveal_strlit("\">dstack releases</a></p>\n");
    assert("</dd></div>\n"@.len() != "<h3>App OS</h3>\n<dl>\n"@.len());
    assert("</dd></div>\n"@.len() != "os_version"@.len());
    assert("</dd></div>\n"@.len() != "os_image_hash"@.len());
    assert("</dd></div>\n"@.len() != "mr_aggregated"@.len());
    assert("</dd></div>\n"@.len() != "</dl>\n<p><a href=\""@.len());
    assert("</dd></div>\n"@.len() != "\">dstack releases</a></p>\n"@.len());
    let a = p.markup("<h3>App OS</h3>\n<dl>\n"@);
    lemma_field(a, "os_version"@, cvm.os_version);
    let b = template::with_field(a, "os_version"@, cvm.os_version);
    lemma_field(b, "os_image_hash"@, cvm.os_image_hash);
    let c = template::with_field(b, "os_image_hash"@, cvm.os_image_hash);
    lemma_field(c, "mr_aggregated"@, cvm.mr_aggregated);
}

proof fn lemma_kms_fields(p: Layout, cvm: page::CvmViewModel)
    ensures
        fields(template::with_kms(p, cvm)) == with_value(
            fields(p),
            "key_provider"@,
            cvm.key_provider,
        ),
{
    broadcast use group_fields;

    reveal_strlit("</dd></div>\n");
    reveal_strlit("<h3>KMS — deploy-time key provisioning</h3>\n<dl>\n");
    reveal_strlit("key_provider");
    reveal_strlit("</dl>\n");
    reveal_strlit("<p>Keys are provisioned by the dstack KMS, inside a TEE.</p>\n");
    assert("</dd></div>\n"@.len() != "<h3>KMS — deploy-time key provisioning</h3>\n<dl>\n"@.len());
    assert("</dd></div>\n"@[0] != "key_provider"@[0]);
    assert("</dd></div>\n"@.len() != "</dl>\n"@.len());
    assert("</dd></div>\n"@.len() != "<p>Keys are provisioned by the dstack KMS, inside a TEE.</p>\n"@.len());
    let a = p.markup("<h3>KMS — deploy-time key provisioning</h3>\n<dl>\n"@);
    lemma_field(a, "key_provider"@, cvm.key_provider);
}

proof fn lemma_field_said(p: Layout, label: Seq<char>, value: Option<Seq<char>>, m: Seq<char>)
    requires
        m != "<div><dt>"@,
        m != label,
        m != "</dt><dd>"@,
        m != "</dd></div>\n"@,
    ensures
        said(template::with_field(p, label, value), m) == said(p, m),
{
    broadcast use group_reading;
}

proof fn lemma_items_said(p: Layout, items: Seq<Seq<char>>, m: Seq<char>)
    requires
        m != "<li>"@,
        m != "</li>\n"@,
    ensures
        said(template::with_items(p, items), m) == said(p, m),
    decreases items.len(),
{
    broadcast use group_reading;

    if items.len() > 0 {
        lemma_items_said(p, items.drop_last(), m);
    }
}

proof fn lemma_verdict_word_approved(p: Layout, v: verify::CvmVerdictModel)
    ensures
        said(template::with_verdict(p, page::verdict_view(Some(v))), "on-chain: approved"@) == said(
            p,
            "on-chain: approved"@,
        ) + if v.on_chain_approved == Some(true) {
            1int
        } else {
            0int
        },
{
    broadcast use group_reading;

    reveal_strlit("on-chain: approved");
    reveal_strlit("<p>verifying…</p>\n");
    reveal_strlit("<p><span class=\"badge good\">Intel DCAP signature valid</span>\n");
    reveal_strlit("<p><span class=\"badge bad\">Intel DCAP signature NOT verified</span>\n");
    reveal_strlit("<span class=\"badge tcb-");
    reveal_strlit("\">TCB ");
    reveal_strlit("</span>\n");
    reveal_strlit("<span class=\"badge good\">measurements match the quote</span>\n");
    reveal_strlit("<span class=\"badge bad\">measurements do NOT match the quote</span>\n");
    reveal_strlit("<span class=\"badge oc-");
    reveal_strlit("\">");
    reveal_strlit("on-chain: NOT approved");
    reveal_strlit("on-chain: n/a");
    reveal_strlit("</span></p>\n<dl>\n");
    reveal_strlit("contract");
    reveal_strlit("error");
    reveal_strlit("</dl>\n<ul>\n");
    reveal_strlit("</ul>\n");
    reveal_strlit("<div><dt>");
    reveal_strlit("</dt><dd>");
    reveal_strlit("</dd></div>\n");
    reveal_strlit("<li>");
    reveal_strlit("</li>\n");
    assert("on-chain: approved"@[0] != "<p>verifying…</p>\n"@[0]);
    assert("on-chain: approved"@.len() != "<p><span class=\"badge good\">Intel DCAP signature valid</span>\n"@.len());
    assert("on-chain: approved"@.len() != "<p><span class=\"badge bad\">Intel DCAP signature NOT verified</span>\n"@.len());
    assert("on-chain: approved"@.len() != "<span class=\"badge tcb-"@.len());
    assert("on-chain: approved"@.len() != "\">TCB "@.len());
    assert("on-chain: approved"@.len() != "</span>\n"@.len());
    assert("on-chain: approved"@.len() != "<span class=\"badge good\">measurements match the quote</span>\n"@.len());
    assert("on-chain: approved"@.len() != "<span class=\"badge bad\">measurements do NOT match the quote</span>\n"@.len());
    assert("on-chain: approved"@.len() != "<span class=\"badge oc-"@.len());
    assert("on-chain: approved"@.len() != "\">"@.len());
    assert("on-chain: approved"@.len() != "on-chain: NOT approved"@.len());
    assert("on-chain: approved"@.len() != "on-chain: n/a"@.len());
    assert("on-chain: approved"@.len() != "</span></p>\n<dl>\n"@.len());
    assert("on-chain: approved"@.len() != "contract"@.len());
    assert("on-chain: approved"@.len() != "error"@.len());
    assert("on-chain: approved"@.len() != "</dl>\n<ul>\n"@.len());
    assert("on-chain: approved"@.len() != "</ul>\n"@.len());
    assert("on-chain: approved"@.len() != "<div><dt>"@.len());
    assert("on-chain: approved"@.len() != "</dt><dd>"@.len());
    assert("on-chain: approved"@.len() != "</dd></div>\n"@.len());
    assert("on-chain: approved"@.len() != "<li>"@.len());
    assert("on-chain: approved"@.len() != "</li>\n"@.len());
    let m = "on-chain: approved"@;
    assert forall|q: Layout, label: Seq<char>, value: Option<Seq<char>>|
        m != label implies said(#[trigger] template::with_field(q, label, value), m) == said(q, m) by {
        lemma_field_said(q, label, value, m);
    }
    assert forall|q: Layout, items: Seq<Seq<char>>|
        said(#[trigger] template::with_items(q, items), m) == said(q, m) by {
        lemma_items_said(q, items, m);
    }
}

proof fn lemma_verdict_word_not_approved(p: Layout, v: verify::CvmVerdictModel)
    ensures
        said(template::with_verdict(p, page::verdict_view(Some(v))), "on-chain: NOT approved"@) == said(
            p,
            "on-chain: NOT approved"@,
        ) + if v.on_chain_approved == Some(false) {
            1int
        } else {
            0int
        },
{
    broadcast use group_reading;

    reveal_strlit("on-chain: NOT approved");
    reveal_strlit("<p>verifying…</p>\n");
    reveal_strlit("<p><span class=\"badge good\">Intel DCAP signature valid</span>\n");
    reveal_strlit("<p><span class=\"badge bad\">Intel DCAP signature NOT verified</span>\n");
    reveal_strlit("<span class=\"badge tcb-");
    reveal_strlit("\">TCB ");
    reveal_strlit("</span>\n");
    reveal_strlit("<span class=\"badge good\">measurements match the quote</span>\n");
    reveal_strlit("<span class=\"badge bad\">measurements do NOT match the quote</span>\n");
    reveal_strlit("<span class=\"badge oc-");
    reveal_strlit("\">");
    reveal_strlit("on-chain: approved");
    reveal_strlit("on-chain: n/a");
    reveal_strlit("</span></p>\n<dl>\n");
    reveal_strlit("contract");
    reveal_strlit("error");
    reveal_strlit("</dl>\n<ul>\n");
    reveal_strlit("</ul>\n");
    reveal_strlit("<div><dt>");
    reveal_strlit("</dt><dd>");
    reveal_strlit("</dd></div>\n");
    reveal_strlit("<li>");
    reveal_strlit("</li>\n");
    assert("on-chain: NOT approved"@.len() != "<p>verifying…</p>\n"@.len());
    assert("on-chain: NOT approved"@.len() != "<p><span class=\"badge good\">Intel DCAP signature valid</span>\n"@.len());
    assert("on-chain: NOT approved"@.len() != "<p><span class=\"badge bad\">Intel DCAP signature NOT verified</span>\n"@.len());
    assert("on-chain: NOT approved"@.len() != "<span class=\"badge tcb-"@.len());
    assert("on-chain: NOT approved"@.len() != "\">TCB "@.len());
    assert("on-chain: NOT approved"@.len() != "</span>\n"@.len());
    assert("on-chain: NOT approved"@.len() != "<span class=\"badge good\">measurements match the quote</span>\n"@.len());
    assert("on-chain: NOT approved"@.len() != "<span class=\"badge bad\">measurements do NOT match the quote</span>\n"@.len());
    assert("on-chain: NOT approved"@[0] != "<span class=\"badge oc-"@[0]);
    assert("on-chain: NOT approved"@.len() != "\">"@.len());
    assert("on-chain: NOT approved"@.len() != "on-chain: approved"@.len());
    assert("on-chain: NOT approved"@.len() != "on-chain: n/a"@.len());
    assert("on-chain: NOT approved"@.len() != "</span></p>\n<dl>\n"@.len());
    assert("on-chain: NOT approved"@.len() != "contract"@.len());
    assert("on-chain: NOT approved"@.len() != "error"@.len());
    assert("on-chain: NOT approved"@.len() != "</dl>\n<ul>\n"@.len());
    assert("on-chain: NOT approved"@.len() != "</ul>\n"@.len());
    assert("on-chain: NOT approved"@.len() != "<div><dt>"@.len());
    assert("on-chain: NOT approved"@.len() != "</dt><dd>"@.len());
    assert("on-chain: NOT approved"@.len() != "</dd></div>\n"@.len());
    assert("on-chain: NOT approved"@.len() != "<li>"@.len());
    assert("on-chain: NOT approved"@.len() != "</li>\n"@.len());
    let m = "on-chain: NOT approved"@;
    assert forall|q: Layout, label: Seq<char>, value: Option<Seq<char>>|
        m != label implies said(#[trigger] template::with_field(q, label, value), m) == said(q, m) by {
        lemma_field_said(q, label, value, m);
    }
    assert forall|q: Layout, items: Seq<Seq<char>>|
        said(#[trigger] template::with_items(q, items), m) == said(q, m) by {
        lemma_items_said(q, items, m);
    }
}

proof fn lemma_verdict_word_not_applicable(p: Layout, v: verify::CvmVerdictModel)
    ensures
        said(template::with_verdict(p, page::verdict_view(Some(v))), "on-chain: n/a"@) == said(
            p,
            "on-chain: n/a"@,
        ) + if v.on_chain_approved is None {
            1int
        } else {
            0int
        },
{
    broadcast use group_reading;

    reveal_strlit("on-chain: n/a");
    reveal_strlit("<p>verifying…</p>\n");
    reveal_strlit("<p><span class=\"badge good\">Intel DCAP signature valid</span>\n");
    reveal_strlit("<p><span class=\"badge bad\">Intel DCAP signature NOT verified</span>\n");
    reveal_strlit("<span class=\"badge tcb-");
    reveal_strlit("\">TCB ");
    reveal_strlit("</span>\n");
    reveal_strlit("<span class=\"badge good\">measurements match the quote</span>\n");
    reveal_strlit("<span class=\"badge bad\">measurements do NOT match the quote</span>\n");
    reveal_strlit("<span class=\"badge oc-");
    reveal_strlit("\">");
    reveal_strlit("on-chain: approved");
    reveal_strlit("on-chain: NOT approved");
    reveal_strlit("</span></p>\n<dl>\n");
    reveal_strlit("contract");
    reveal_strlit("error");
    reveal_strlit("</dl>\n<ul>\n");
    reveal_strlit("</ul>\n");
    reveal_strlit("<div><dt>");
    reveal_strlit("</dt><dd>");
    reveal_strlit("</dd></div>\n");
    reveal_strlit("<li>");
    reveal_strlit("</li>\n");
    assert("on-chain: n/a"@.len() != "<p>verifying…</p>\n"@.len());
    assert("on-chain: n/a"@.len() != "<p><span class=\"badge good\">Intel DCAP signature valid</span>\n"@.len());
    assert("on-chain: n/a"@.len() != "<p><span class=\"badge bad\">Intel DCAP signature NOT verified</span>\n"@.len());
    assert("on-chain: n/a"@.len() != "<span class=\"badge tcb-"@.len());
    assert("on-chain: n/a"@.len() != "\">TCB "@.len());
    assert("on-chain: n/a"@.len() != "</span>\n"@.len());
    assert("on-chain: n/a"@.len() != "<span class=\"badge good\">measurements match the quote</span>\n"@.len());
    assert("on-chain: n/a"@.len() != "<span class=\"badge bad\">measurements do NOT match the quote</span>\n"@.len());
    assert("on-chain: n/a"@.len() != "<span class=\"badge oc-"@.len());
    assert("on-chain: n/a"@.len() != "\">"@.len());
    assert("on-chain: n/a"@.len() != "on-chain: approved"@.len());
    assert("on-chain: n/a"@.len() != "on-chain: NOT approved"@.len());
    assert("on-chain: n/a"@.len() != "</span></p>\n<dl>\n"@.len());
    assert("on-chain: n/a"@.len() != "contract"@.len());
    assert("on-chain: n/a"@.len() != "error"@.len());
    assert("on-chain: n/a"@.len() != "</dl>\n<ul>\n"@.len());
    assert("on-chain: n/a"@.len() != "</ul>\n"@.len());
    assert("on-chain: n/a"@.len() != "<div><dt>"@.len());
    assert("on-chain: n/a"@.len() != "</dt><dd>"@.len());
    assert("on-chain: n/a"@.len() != "</dd></div>\n"@.len());
    assert("on-chain: n/a"@.len() != "<li>"@.len());
    assert("on-chain: n/a"@.len() != "</li>\n"@.len());
    let m = "on-chain: n/a"@;
    assert forall|q: Layout, label: Seq<char>, value: Option<Seq<char>>|
        m != label implies said(#[trigger] template::with_field(q, label, value), m) == said(q, m) by {
        lemma_field_said(q, label, value, m);
    }
    assert forall|q: Layout, items: Seq<Seq<char>>|
        said(#[trigger] template::with_items(q, items), m) == said(q, m) by {
        lemma_items_said(q, items, m);
    }
}

proof fn lemma_verdict_word_valid(p: Layout, v: verify::CvmVerdictModel)
    ensures
        said(template::with_verdict(p, page::verdict_view(Some(v))), "<p><span class=\"badge good\">Intel DCAP signature valid</span>\n"@) == said(
            p,
            "<p><span class=\"badge good\">Intel DCAP signature valid</span>\n"@,
        ) + if v.sig_valid {
            1int
        } else {
            0int
        },
{
    broadcast use group_reading;

    reveal_strlit("<p><span class=\"badge good\">Intel DCAP signature valid</span>\n");
    reveal_strlit("<p>verifying…</p>\n");
    reveal_strlit("<p><span class=\"badge bad\">Intel DCAP signature NOT verified</span>\n");
    reveal_strlit("<span class=\"badge tcb-");
    reveal_strlit("\">TCB ");
    reveal_strlit("</span>\n");
    reveal_strlit("<span class=\"badge good\">measurements match the quote</span>\n");
    reveal_strlit("<span class=\"badge bad\">measurements do NOT match the quote</span>\n");
    reveal_strlit("<span class=\"badge oc-");
    reveal_strlit("\">");
    reveal_strlit("on-chain: approved");
    reveal_strlit("on-chain: NOT approved");
    reveal_strlit("on-chain: n/a");
    reveal_strlit("</span></p>\n<dl>\n");
    reveal_strlit("contract");
    reveal_strlit("error");
    reveal_strlit("</dl>\n<ul>\n");
    reveal_strlit("</ul>\n");
    reveal_strlit("<div><dt>");
    reveal_strlit("</dt><dd>");
    reveal_strlit("</dd></div>\n");
    reveal_strlit("<li>");
    reveal_strlit("</li>\n");
    assert("<p><span class=\"badge good\">Intel DCAP signature valid</span>\n"@.len() != "<p>verifying…</p>\n"@.len());
    assert("<p><span class=\"badge good\">Intel DCAP signature valid</span>\n"@.len() != "<p><span class=\"badge bad\">Intel DCAP signature NOT verified</span>\n"@.len());
    assert("<p><span class=\"badge good\">Intel DCAP signature valid</span>\n"@.len() != "<span class=\"badge tcb-"@.len());
    assert("<p><span class=\"badge good\">Intel DCAP signature valid</span>\n"@.len() != "\">TCB "@.len());
    assert("<p><span class=\"badge good\">Intel DCAP signature valid</span>\n"@.len() != "</span>\n"@.len());
    assert("<p><span class=\"badge good\">Intel DCAP signature valid</span>\n"@.len() != "<span class=\"badge good\">measurements match the quote</span>\n"@.len());
    assert("<p><span class=\"badge good\">Intel DCAP signature valid</span>\n"@.len() != "<span class=\"badge bad\">measurements do NOT match the quote</span>\n"@.len());
    assert("<p><span class=\"badge good\">Intel DCAP signature valid</span>\n"@.len() != "<span class=\"badge oc-"@.len());
    assert("<p><span class=\"badge good\">Intel DCAP signature valid</span>\n"@.len() != "\">"@.len());
    assert("<p><span class=\"badge good\">Intel DCAP signature valid</span>\n"@.len() != "on-chain: approved"@.len());
    assert("<p><span class=\"badge good\">Intel DCAP signature valid</span>\n"@.len() != "on-chain: NOT approved"@.len());
    assert("<p><span class=\"badge good\">Intel DCAP signature valid</span>\n"@.len() != "on-chain: n/a"@.len());
    assert("<p><span class=\"badge good\">Intel DCAP signature valid</span>\n"@.len() != "</span></p>\n<dl>\n"@.len());
    assert("<p><span class=\"badge good\">Intel DCAP signature valid</span>\n"@.len() != "contract"@.len());
    assert("<p><span class=\"badge good\">Intel DCAP signature valid</span>\n"@.len() != "error"@.len());
    assert("<p><span class=\"badge good\">Intel DCAP signature valid</span>\n"@.len() != "</dl>\n<ul>\n"@.len());
    assert("<p><span class=\"badge good\">Intel DCAP signature valid</span>\n"@.len() != "</ul>\n"@.len());
    assert("<p><span class=\"badge good\">Intel DCAP signature valid</span>\n"@.len() != "<div><dt>"@.len());
    assert("<p><span class=\"badge good\">Intel DCAP signature valid</span>\n"@.len() != "</dt><dd>"@.len());
    assert("<p><span class=\"badge good\">Intel DCAP signature valid</span>\n"@.len() != "</dd></div>\n"@.len());
    assert("<p><span class=\"badge good\">Intel DCAP signature valid</span>\n"@.len() != "<li>"@.len());
    assert("<p><span class=\"badge good\">Intel DCAP signature valid</span>\n"@.len() != "</li>\n"@.len());
    let m = "<p><span class=\"badge good\">Intel DCAP signature valid</span>\n"@;
    assert forall|q: Layout, label: Seq<char>, value: Option<Seq<char>>|
        m != label implies said(#[trigger] template::with_field(q, label, value), m) == said(q, m) by {
        lemma_field_said(q, label, value, m);
    }
    assert forall|q: Layout, items: Seq<Seq<char>>|
        said(#[trigger] template::with_items(q, items), m) == said(q, m) by {
        lemma_items_said(q, items, m);
    }
}

proof fn lemma_verdict_word_not_valid(p: Layout, v: verify::CvmVerdictModel)
    ensures
        said(template::with_verdict(p, page::verdict_view(Some(v))), "<p><span class=\"badge bad\">Intel DCAP signature NOT verified</span>\n"@) == said(
            p,
            "<p><span class=\"badge bad\">Intel DCAP signature NOT verified</span>\n"@,
        ) + if !v.sig_valid {
            1int
        } else {
            0int
        },
{
    broadcast use group_reading;

    reveal_strlit("<p><span class=\"badge bad\">Intel DCAP signature NOT verified</span>\n");
    reveal_strlit("<p>verifying…</p>\n");
    reveal_strlit("<p><span class=\"badge good\">Intel DCAP signature valid</span>\n");
    reveal_strlit("<span class=\"badge tcb-");
    reveal_strlit("\">TCB ");
    reveal_strlit("</span>\n");
    reveal_strlit("<span class=\"badge good\">measurements match the quote</span>\n");
    reveal_strlit("<span class=\"badge bad\">measurements do NOT match the quote</span>\n");
    reveal_strlit("<span class=\"badge oc-");
    reveal_strlit("\">");
    reveal_strlit("on-chain: approved");
    reveal_strlit("on-chain: NOT approved");
    reveal_strlit("on-chain: n/a");
    reveal_strlit("</span></p>\n<dl>\n");
    reveal_strlit("contract");
    reveal_strlit("error");
    reveal_strlit("</dl>\n<ul>\n");
    reveal_strlit("</ul>\n");
    reveal_strlit("<div><dt>");
    reveal_strlit("</dt><dd>");
    reveal_strlit("</dd></div>\n");
    reveal_strlit("<li>");
    reveal_strlit("</li>\n");
    assert("<p><span class=\"badge bad\">Intel DCAP signature NOT verified</span>\n"@.len() != "<p>verifying…</p>\n"@.len());
    assert("<p><span class=\"badge bad\">Intel DCAP signature NOT verified</span>\n"@.len() != "<p><span class=\"badge good\">Intel DCAP signature valid</span>\n"@.len());
    assert("<p><span class=\"badge bad\">Intel DCAP signature NOT verified</span>\n"@.len() != "<span class=\"badge tcb-"@.len());
    assert("<p><span class=\"badge bad\">Intel DCAP signature NOT verified</span>\n"@.len() != "\">TCB "@.len());
    assert("<p><span class=\"badge bad\">Intel DCAP signature NOT verified</span>\n"@.len() != "</span>\n"@.len());
    assert("<p><span class=\"badge bad\">Intel DCAP signature NOT verified</span>\n"@.len() != "<span class=\"badge good\">measurements match the quote</span>\n"@.len());
    assert("<p><span class=\"badge bad\">Intel DCAP signature NOT verified</span>\n"@.len() != "<span class=\"badge bad\">measurements do NOT match the quote</span>\n"@.len());
    assert("<p><span class=\"badge bad\">Intel DCAP signature NOT verified</span>\n"@.len() != "<span class=\"badge oc-"@.len());
    assert("<p><span class=\"badge bad\">Intel DCAP signature NOT verified</span>\n"@.len() != "\">"@.len());
    assert("<p><span class=\"badge bad\">Intel DCAP signature NOT verified</span>\n"@.len() != "on-chain: approved"@.len());
    assert("<p><span class=\"badge bad\">Intel DCAP signature NOT verified</span>\n"@.len() != "on-chain: NOT approved"@.len());
    assert("<p><span class=\"badge bad\">Intel DCAP signature NOT verified</span>\n"@.len() != "on-chain: n/a"@.len());
    assert("<p><span class=\"badge bad\">Intel DCAP signature NOT verified</span>\n"@.len() != "</span></p>\n<dl>\n"@.len());
    assert("<p><span class=\"badge bad\">Intel DCAP signature NOT verified</span>\n"@.len() != "contract"@.len());
    assert("<p><span class=\"badge bad\">Intel DCAP signature NOT verified</span>\n"@.len() != "error"@.len());
    assert("<p><span class=\"badge bad\">Intel DCAP signature NOT verified</span>\n"@.len() != "</dl>\n<ul>\n"@.len());
    assert("<p><span class=\"badge bad\">Intel DCAP signature NOT verified</span>\n"@.len() != "</ul>\n"@.len());
    assert("<p><span class=\"badge bad\">Intel DCAP signature NOT verified</span>\n"@.len() != "<div><dt>"@.len());
    assert("<p><span class=\"badge bad\">Intel DCAP signature NOT verified</span>\n"@.len() != "</dt><dd>"@.len());
    assert("<p><span class=\"badge bad\">Intel DCAP signature NOT verified</span>\n"@.len() != "</dd></div>\n"@.len());
    assert("<p><span class=\"badge bad\">Intel DCAP signature NOT verified</span>\n"@.len() != "<li>"@.len());
    assert("<p><span class=\"badge bad\">Intel DCAP signature NOT verified</span>\n"@.len() != "</li>\n"@.len());
    let m = "<p><span class=\"badge bad\">Intel DCAP signature NOT verified</span>\n"@;
    assert forall|q: Layout, label: Seq<char>, value: Option<Seq<char>>|
        m != label implies said(#[trigger] template::with_field(q, label, value), m) == said(q, m) by {
        lemma_field_said(q, label, value, m);
    }
    assert forall|q: Layout, items: Seq<Seq<char>>|
        said(#[trigger] template::with_items(q, items), m) == said(q, m) by {
        lemma_items_said(q, items, m);
    }
}

proof fn lemma_verdict_word_match(p: Layout, v: verify::CvmVerdictModel)
    ensures
        said(template::with_verdict(p, page::verdict_view(Some(v))), "<span class=\"badge good\">measurements match the quote</span>\n"@) == said(
            p,
            "<span class=\"badge good\">measurements match the quote</span>\n"@,
        ) + if v.quote_measurements_match == Some(true) {
            1int
        } else {
            0int
        },
{
    broadcast use group_reading;

    reveal_strlit("<span class=\"badge good\">measurements match the quote</span>\n");
    reveal_strlit("<p>verifying…</p>\n");
    reveal_strlit("<p><span class=\"badge good\">Intel DCAP signature valid</span>\n");
    reveal_strlit("<p><span class=\"badge bad\">Intel DCAP signature NOT verified</span>\n");
    reveal_strlit("<span class=\"badge tcb-");
    reveal_strlit("\">TCB ");
    reveal_strlit("</span>\n");
    reveal_strlit("<span class=\"badge bad\">measurements do NOT match the quote</span>\n");
    reveal_strlit("<span class=\"badge oc-");
    reveal_strlit("\">");
    reveal_strlit("on-chain: approved");
    reveal_strlit("on-chain: NOT approved");
    reveal_strlit("on-chain: n/a");
    reveal_strlit("</span></p>\n<dl>\n");
    reveal_strlit("contract");
    reveal_strlit("error");
    reveal_strlit("</dl>\n<ul>\n");
    reveal_strlit("</ul>\n");
    reveal_strlit("<div><dt>");
    reveal_strlit("</dt><dd>");
    reveal_strlit("</dd></div>\n");
    reveal_strlit("<li>");
    reveal_strlit("</li>\n");
    assert("<span class=\"badge good\">measurements match the quote</span>\n"@.len() != "<p>verifying…</p>\n"@.len());
    assert("<span class=\"badge good\">measurements match the quote</span>\n"@.len() != "<p><span class=\"badge good\">Intel DCAP signature valid</span>\n"@.len());
    assert("<span class=\"badge good\">measurements match the quote</span>\n"@.len() != "<p><span class=\"badge bad\">Intel DCAP signature NOT verified</span>\n"@.len());
    assert("<span class=\"badge good\">measurements match the quote</span>\n"@.len() != "<span class=\"badge tcb-"@.len());
    assert("<span class=\"badge good\">measurements match the quote</span>\n"@.len() != "\">TCB "@.len());
    assert("<span class=\"badge good\">measurements match the quote</span>\n"@.len() != "</span>\n"@.len());
    assert("<span class=\"badge good\">measurements match the quote</span>\n"@.len() != "<span class=\"badge bad\">measurements do NOT match the quote</span>\n"@.len());
    assert("<span class=\"badge good\">measurements match the quote</span>\n"@.len() != "<span class=\"badge oc-"@.len());
    assert("<span class=\"badge good\">measurements match the quote</span>\n"@.len() != "\">"@.len());
    assert("<span class=\"badge good\">measurements match the quote</span>\n"@.len() != "on-chain: approved"@.len());
    assert("<span class=\"badge good\">measurements match the quote</span>\n"@.len() != "on-chain: NOT approved"@.len());
    assert("<span class=\"badge good\">measurements match the quote</span>\n"@.len() != "on-chain: n/a"@.len());
    assert("<span class=\"badge good\">measurements match the quote</span>\n"@.len() != "</span></p>\n<dl>\n"@.len());
    assert("<span class=\"badge good\">measurements match the quote</span>\n"@.len() != "contract"@.len());
    assert("<span class=\"badge good\">measurements match the quote</span>\n"@.len() != "error"@.len());
    assert("<span class=\"badge good\">measurements match the quote</span>\n"@.len() != "</dl>\n<ul>\n"@.len());
    assert("<span class=\"badge good\">measurements match the quote</span>\n"@.len() != "</ul>\n"@.len());
    assert("<span class=\"badge good\">measurements match the quote</span>\n"@.len() != "<div><dt>"@.len());
    assert("<span class=\"badge good\">measurements match the quote</span>\n"@.len() != "</dt><dd>"@.len());
    assert("<span class=\"badge good\">measurements match the quote</span>\n"@.len() != "</dd></div>\n"@.len());
    assert("<span class=\"badge good\">measurements match the quote</span>\n"@.len() != "<li>"@.len());
    assert("<span class=\"badge good\">measurements match the quote</span>\n"@.len() != "</li>\n"@.len());
    let m = "<span class=\"badge good\">measurements match the quote</span>\n"@;
    assert forall|q: Layout, label: Seq<char>, value: Option<Seq<char>>|
        m != label implies said(#[trigger] template::with_field(q, label, value), m) == said(q, m) by {
        lemma_field_said(q, label, value, m);
    }
    assert forall|q: Layout, items: Seq<Seq<char>>|
        said(#[trigger] template::with_items(q, items), m) == said(q, m) by {
        lemma_items_said(q, items, m);
    }
}

proof fn lemma_verdict_word_mismatch(p: Layout, v: verify::CvmVerdictModel)
    ensures
        said(template::with_verdict(p, page::verdict_view(Some(v))), "<span class=\"badge bad\">measurements do NOT match the quote</span>\n"@) == said(
            p,
            "<span class=\"badge bad\">measurements do NOT match the quote</span>\n"@,
        ) + if v.quote_measurements_match == Some(false) {
            1int
        } else {
            0int
        },
{
    broadcast use group_reading;

    reveal_strlit("<span class=\"badge bad\">measurements do NOT match the quote</span>\n");
    reveal_strlit("<p>verifying…</p>\n");
    reveal_strlit("<p><span class=\"badge good\">Intel DCAP signature valid</span>\n");
    reveal_strlit("<p><span class=\"badge bad\">Intel DCAP signature NOT verified</span>\n");
    reveal_strlit("<span class=\"badge tcb-");
    reveal_strlit("\">TCB ");
    reveal_strlit("</span>\n");
    reveal_strlit("<span class=\"badge good\">measurements match the quote</span>\n");
    reveal_strlit("<span class=\"badge oc-");
    reveal_strlit("\">");
    reveal_strlit("on-chain: approved");
    reveal_strlit("on-chain: NOT approved");
    reveal_strlit("on-chain: n/a");
    reveal_strlit("</span></p>\n<dl>\n");
    reveal_strlit("contract");
    reveal_strlit("error");
    reveal_strlit("</dl>\n<ul>\n");
    reveal_strlit("</ul>\n");
    reveal_strlit("<div><dt>");
    reveal_strlit("</dt><dd>");
    reveal_strlit("</dd></div>\n");
    reveal_strlit("<li>");
    reveal_strlit("</li>\n");
    assert("<span class=\"badge bad\">measurements do NOT match the quote</span>\n"@.len() != "<p>verifying…</p>\n"@.len());
    assert("<span class=\"badge bad\">measurements do NOT match the quote</span>\n"@.len() != "<p><span class=\"badge good\">Intel DCAP signature valid</span>\n"@.len());
    assert("<span class=\"badge bad\">measurements do NOT match the quote</span>\n"@.len() != "<p><span class=\"badge bad\">Intel DCAP signature NOT verified</span>\n"@.len());
    assert("<span class=\"badge bad\">measurements do NOT match the quote</span>\n"@.len() != "<span class=\"badge tcb-"@.len());
    assert("<span class=\"badge bad\">measurements do NOT match the quote</span>\n"@.len() != "\">TCB "@.len());
    assert("<span class=\"badge bad\">measurements do NOT match the quote</span>\n"@.len() != "</span>\n"@.len());
    assert("<span class=\"badge bad\">measurements do NOT match the quote</span>\n"@.len() != "<span class=\"badge good\">measurements match the quote</span>\n"@.len());
    assert("<span class=\"badge bad\">measurements do NOT match the quote</span>\n"@.len() != "<span class=\"badge oc-"@.len());
    assert("<span class=\"badge bad\">measurements do NOT match the quote</span>\n"@.len() != "\">"@.len());
    assert("<span class=\"badge bad\">measurements do NOT match the quote</span>\n"@.len() != "on-chain: approved"@.len());
    assert("<span class=\"badge bad\">measurements do NOT match the quote</span>\n"@.len() != "on-chain: NOT approved"@.len());
    assert("<span class=\"badge bad\">measurements do NOT match the quote</span>\n"@.len() != "on-chain: n/a"@.len());
    assert("<span class=\"badge bad\">measurements do NOT match the quote</span>\n"@.len() != "</span></p>\n<dl>\n"@.len());
    assert("<span class=\"badge bad\">measurements do NOT match the quote</span>\n"@.len() != "contract"@.len());
    assert("<span class=\"badge bad\">measurements do NOT match the quote</span>\n"@.len() != "error"@.len());
    assert("<span class=\"badge bad\">measurements do NOT match the quote</span>\n"@.len() != "</dl>\n<ul>\n"@.len());
    assert("<span class=\"badge bad\">measurements do NOT match the quote</span>\n"@.len() != "</ul>\n"@.len());
    assert("<span class=\"badge bad\">measurements do NOT match the quote</span>\n"@.len() != "<div><dt>"@.len());
    assert("<span class=\"badge bad\">measurements do NOT match the quote</span>\n"@.len() != "</dt><dd>"@.len());
    assert("<span class=\"badge bad\">measurements do NOT match the quote</span>\n"@.len() != "</dd></div>\n"@.len());
    assert("<span class=\"badge bad\">measurements do NOT match the quote</span>\n"@.len() != "<li>"@.len());
    assert("<span class=\"badge bad\">measurements do NOT match the quote</span>\n"@.len() != "</li>\n"@.len());
    let m = "<span class=\"badge bad\">measurements do NOT match the quote</span>\n"@;
    assert forall|q: Layout, label: Seq<char>, value: Option<Seq<char>>|
        m != label implies said(#[trigger] template::with_field(q, label, value), m) == said(q, m) by {
        lemma_field_said(q, label, value, m);
    }
    assert forall|q: Layout, items: Seq<Seq<char>>|
        said(#[trigger] template::with_items(q, items), m) == said(q, m) by {
        lemma_items_said(q, items, m);
    }
}

/// The words on a card. They say that the contract approves only where it answered yes, that it
/// does not approve exactly where it answered no, and neither where it was not asked or gave no answer;
/// and likewise of the signature and of the measurements.
pub proof fn law_verdict_words(p: Layout, v: verify::CvmVerdictModel)
    ensures
        ({
            let q = template::with_verdict(p, page::verdict_view(Some(v)));
            &&& said(q, "on-chain: approved"@) == said(p, "on-chain: approved"@) + if v.on_chain_approved == Some(true) {
                1int
            } else {
                0int
            }
            &&& said(q, "on-chain: NOT approved"@) == said(p, "on-chain: NOT approved"@) + if v.on_chain_approved == Some(false) {
                1int
            } else {
                0int
            }
            &&& said(q, "on-chain: n/a"@) == said(p, "on-chain: n/a"@) + if v.on_chain_approved is None {
                1int
            } else {
                0int
            }
            &&& said(q, "<p><span class=\"badge good\">Intel DCAP signature valid</span>\n"@) == said(p, "<p><span class=\"badge good\">Intel DCAP signature valid</span>\n"@) + if v.sig_valid {
                1int
            } else {
                0int
            }
            &&& said(q, "<p><span class=\"badge bad\">Intel DCAP signature NOT verified</span>\n"@) == said(p, "<p><span class=\"badge bad\">Intel DCAP signature NOT verified</span>\n"@) + if !v.sig_valid {
                1int
            } else {
                0int
            }
            &&& said(q, "<span class=\"badge good\">measurements match the quote</span>\n"@) == said(p, "<span class=\"badge good\">measurements match the quote</span>\n"@) + if v.quote_measurements_match == Some(true) {
                1int
            } else {
                0int
            }
            &&& said(q, "<span class=\"badge bad\">measurements do NOT match the quote</span>\n"@) == said(p, "<span class=\"badge bad\">measurements do NOT match the quote</span>\n"@) + if v.quote_measurements_match == Some(false) {
                1int
            } else {
                0int
            }
        }),
{
    lemma_verdict_word_approved(p, v);
    lemma_verdict_word_not_approved(p, v);
    lemma_verdict_word_not_applicable(p, v);
    lemma_verdict_word_valid(p, v);
    lemma_verdict_word_not_valid(p, v);
    lemma_verdict_word_match(p, v);
    lemma_verdict_word_mismatch(p, v);
}

/// How many pieces of the template's markup hold this word.
pub open spec fn speaking(l: Layout, word: Seq<char>) -> nat
    decreases l.pieces.len(),
{
    if l.pieces.len() == 0 {
        0
    } else {
        let before = speaking(Layout { pieces: l.pieces.drop_last() }, word);
        match l.pieces.last() {
            Piece::Markup(m) => if text::contains_text(m, word) {
                before + 1
            } else {
                before
            },
            Piece::Text(_) => before,
        }
    }
}

broadcast proof fn lemma_speaking_markup(p: Layout, x: Seq<char>, word: Seq<char>)
    ensures
        #[trigger] speaking(p.markup(x), word) == speaking(p, word) + if text::contains_text(
            x,
            word,
        ) {
            1int
        } else {
            0int
        },
{
    assert(p.markup(x).pieces.drop_last() =~= p.pieces);
}

broadcast proof fn lemma_speaking_text(p: Layout, t: Seq<char>, word: Seq<char>)
    ensures
        #[trigger] speaking(p.text(t), word) == speaking(p, word),
{
    assert(p.text(t).pieces.drop_last() =~= p.pieces);
}

proof fn lemma_lacks(s: Seq<char>)
    requires
        forall|j: int| 0 <= j < s.len() - 1 ==> !(#[trigger] s[j] == 'p' && s[j + 1] == 'p'),
    ensures
        !text::contains_text(s, "approved"@),
{
    reveal_strlit("approved");
    if text::contains_text(s, "approved"@) {
        let i = choose|i: int| text::occurs_at(s, "approved"@, i);
        let part = s.subrange(i, i + 8);
        assert(part[1] == 'p' && part[2] == 'p');
        assert(s[i + 1] == 'p' && s[i + 2] == 'p');
    }
}

proof fn lemma_other_words_lack_it()
    ensures
        !text::contains_text("<p>verifying…</p>\n"@, "approved"@),
        !text::contains_text("<p><span class=\"badge good\">Intel DCAP signature valid</span>\n"@, "approved"@),
        !text::contains_text("<p><span class=\"badge bad\">Intel DCAP signature NOT verified</span>\n"@, "approved"@),
        !text::contains_text("<span class=\"badge tcb-"@, "approved"@),
        !text::contains_text("\">TCB "@, "approved"@),
        !text::contains_text("</span>\n"@, "approved"@),
        !text::contains_text("<span class=\"badge good\">measurements match the quote</span>\n"@, "approved"@),
        !text::contains_text("<span class=\"badge bad\">measurements do NOT match the quote</span>\n"@, "approved"@),
        !text::contains_text("<span class=\"badge oc-"@, "approved"@),
        !text::contains_text("\">"@, "approved"@),
        !text::contains_text("on-chain: n/a"@, "approved"@),
        !text::contains_text("</span></p>\n<dl>\n"@, "approved"@),
        !text::contains_text("contract"@, "approved"@),
        !text::contains_text("error"@, "approved"@),
        !text::contains_text("</dl>\n<ul>\n"@, "approved"@),
        !text::contains_text("</ul>\n"@, "approved"@),
        !text::contains_text("<div><dt>"@, "approved"@),
        !text::contains_text("</dt><dd>"@, "approved"@),
        !text::contains_text("</dd></div>\n"@, "approved"@),
        !text::contains_text("<li>"@, "approved"@),
        !text::contains_text("</li>\n"@, "approved"@),
{
    assert(!text::contains_text("<p>verifying…</p>\n"@, "approved"@)) by {
        reveal_strlit("<p>verifying…</p>\n");
        lemma_lacks("<p>verifying…</p>\n"@);
    }
    assert(!text::contains_text("<p><span class=\"badge good\">Intel DCAP signature valid</span>\n"@, "approved"@)) by {
        reveal_strlit("<p><span class=\"badge good\">Intel DCAP signature valid</span>\n");
        lemma_lacks("<p><span class=\"badge good\">Intel DCAP signature valid</span>\n"@);
    }
    assert(!text::contains_text("<p><span class=\"badge bad\">Intel DCAP signature NOT verified</span>\n"@, "approved"@)) by {
        reveal_strlit("<p><span class=\"badge bad\">Intel DCAP signature NOT verified</span>\n");
        lemma_lacks("<p><span class=\"badge bad\">Intel DCAP signature NOT verified</span>\n"@);
    }
    assert(!text::contains_text("<span class=\"badge tcb-"@, "approved"@)) by {
        reveal_strlit("<span class=\"badge tcb-");
        lemma_lacks("<span class=\"badge tcb-"@);
    }
    assert(!text::contains_text("\">TCB "@, "approved"@)) by {
        reveal_strlit("\">TCB ");
        lemma_lacks("\">TCB "@);
    }
    assert(!text::contains_text("</span>\n"@, "approved"@)) by {
        reveal_strlit("</span>\n");
        lemma_lacks("</span>\n"@);
    }
    assert(!text::contains_text("<span class=\"badge good\">measurements match the quote</span>\n"@, "approved"@)) by {
        reveal_strlit("<span class=\"badge good\">measurements match the quote</span>\n");
        lemma_lacks("<span class=\"badge good\">measurements match the quote</span>\n"@);
    }
    assert(!text::contains_text("<span class=\"badge bad\">measurements do NOT match the quote</span>\n"@, "approved"@)) by {
        reveal_strlit("<span class=\"badge bad\">measurements do NOT match the quote</span>\n");
        lemma_lacks("<span class=\"badge bad\">measurements do NOT match the quote</span>\n"@);
    }
    assert(!text::contains_text("<span class=\"badge oc-"@, "approved"@)) by {
        reveal_strlit("<span class=\"badge oc-");
        lemma_lacks("<span class=\"badge oc-"@);
    }
    assert(!text::contains_text("\">"@, "approved"@)) by {
        reveal_strlit("\">");
        lemma_lacks("\">"@);
    }
    assert(!text::contains_text("on-chain: n/a"@, "approved"@)) by {
        reveal_strlit("on-chain: n/a");
        lemma_lacks("on-chain: n/a"@);
    }
    assert(!text::contains_text("</span></p>\n<dl>\n"@, "approved"@)) by {
        reveal_strlit("</span></p>\n<dl>\n");
        lemma_lacks("</span></p>\n<dl>\n"@);
    }
    assert(!text::contains_text("contract"@, "approved"@)) by {
        reveal_strlit("contract");
        lemma_lacks("contract"@);
    }
    assert(!text::contains_text("error"@, "approved"@)) by {
        reveal_strlit("error");
        lemma_lacks("error"@);
    }
    assert(!text::contains_text("</dl>\n<ul>\n"@, "approved"@)) by {
        reveal_strlit("</dl>\n<ul>\n");
        lemma_lacks("</dl>\n<ul>\n"@);
    }
    assert(!text::contains_text("</ul>\n"@, "approved"@)) by {
        reveal_strlit("</ul>\n");
        lemma_lacks("</ul>\n"@);
    }
    assert(!text::contains_text("<div><dt>"@, "approved"@)) by {
        reveal_strlit("<div><dt>");
        lemma_lacks("<div><dt>"@);
    }
    assert(!text::contains_text("</dt><dd>"@, "approved"@)) by {
        reveal_strlit("</dt><dd>");
        lemma_lacks("</dt><dd>"@);
    }
    assert(!text::contains_text("</dd></div>\n"@, "approved"@)) by {
        reveal_strlit("</dd></div>\n");
        lemma_lacks("</dd></div>\n"@);
    }
    assert(!text::contains_text("<li>"@, "approved"@)) by {
        reveal_strlit("<li>");
        lemma_lacks("<li>"@);
    }
    assert(!text::contains_text("</li>\n"@, "approved"@)) by {
        reveal_strlit("</li>\n");
        lemma_lacks("</li>\n"@);
    }
}

proof fn lemma_approved_words()
    ensures
        text::contains_text("on-chain: approved"@, "approved"@),
        text::contains_text("on-chain: NOT approved"@, "approved"@),
{
    reveal_strlit("approved");
    reveal_strlit("on-chain: approved");
    reveal_strlit("on-chain: NOT approved");
    assert("on-chain: approved"@.subrange(10, 18) =~= "approved"@);
    assert(text::occurs_at("on-chain: approved"@, "approved"@, 10));
    assert("on-chain: NOT approved"@.subrange(14, 22) =~= "approved"@);
    assert(text::occurs_at("on-chain: NOT approved"@, "approved"@, 14));
}

proof fn lemma_field_speaking(p: Layout, label: Seq<char>, value: Option<Seq<char>>)
    requires
        !text::contains_text(label, "approved"@),
    ensures
        speaking(template::with_field(p, label, value), "approved"@) == speaking(p, "approved"@),
{
    broadcast use lemma_speaking_markup, lemma_speaking_text;

    lemma_other_words_lack_it();
}

proof fn lemma_items_speaking(p: Layout, items: Seq<Seq<char>>)
    ensures
        speaking(template::with_items(p, items), "approved"@) == speaking(p, "approved"@),
    decreases items.len(),
{
    broadcast use lemma_speaking_markup, lemma_speaking_text;

    lemma_other_words_lack_it();
    if items.len() > 0 {
        lemma_items_speaking(p, items.drop_last());
    }
}

/// The template speaks of approval once where the contract answered, and not at all where it was not
/// asked or gave no answer.
pub proof fn law_approval_is_spoken_of_only_if_answered(p: Layout, v: verify::CvmVerdictModel)
    ensures
        speaking(template::with_verdict(p, page::verdict_view(Some(v))), "approved"@) == speaking(
            p,
            "approved"@,
        ) + if v.on_chain_approved is Some {
            1int
        } else {
            0int
        },
{
    broadcast use lemma_speaking_markup, lemma_speaking_text;

    lemma_other_words_lack_it();
    lemma_approved_words();
    assert forall|q: Layout, label: Seq<char>, value: Option<Seq<char>>|
        !text::contains_text(label, "approved"@) implies speaking(
        #[trigger] template::with_field(q, label, value),
        "approved"@,
    ) == speaking(q, "approved"@) by {
        lemma_field_speaking(q, label, value);
    }
    assert forall|q: Layout, items: Seq<Seq<char>>|
        speaking(#[trigger] template::with_items(q, items), "approved"@) == speaking(
            q,
            "approved"@,
        ) by {
        lemma_items_speaking(q, items);
    }
}

proof fn lemma_instance_word(p: Layout, cvm: page::CvmViewModel)
    ensures
        said(template::with_app_header(p, cvm), "<span class=\"badge\">instance "@) == said(p, "<span class=\"badge\">instance "@) + if cvm.instance_total > 1 {
            1int
        } else {
            0int
        },
{
    broadcast use group_reading;

    reveal_strlit("<span class=\"badge\">instance ");
    reveal_strlit("<h2>");
    reveal_strlit("</h2>\n<span class=\"badge\">");
    reveal_strlit("</span>\n");
    reveal_strlit(" of ");
    reveal_strlit("<dl>\n");
    reveal_strlit("app_id");
    reveal_strlit("vm_id");
    reveal_strlit("uptime");
    reveal_strlit("collection error");
    reveal_strlit("</dl>\n");
    reveal_strlit("<div><dt>");
    reveal_strlit("</dt><dd>");
    reveal_strlit("</dd></div>\n");
    reveal_strlit("<span class=\"badge\">");
    assert("<span class=\"badge\">instance "@.len() != "<h2>"@.len());
    assert("<span class=\"badge\">instance "@.len() != "</h2>\n<span class=\"badge\">"@.len());
    assert("<span class=\"badge\">instance "@.len() != "</span>\n"@.len());
    assert("<span class=\"badge\">instance "@.len() != " of "@.len());
    assert("<span class=\"badge\">instance "@.len() != "<dl>\n"@.len());
    assert("<span class=\"badge\">instance "@.len() != "app_id"@.len());
    assert("<span class=\"badge\">instance "@.len() != "vm_id"@.len());
    assert("<span class=\"badge\">instance "@.len() != "uptime"@.len());
    assert("<span class=\"badge\">instance "@.len() != "collection error"@.len());
    assert("<span class=\"badge\">instance "@.len() != "</dl>\n"@.len());
    assert("<span class=\"badge\">instance "@.len() != "<div><dt>"@.len());
    assert("<span class=\"badge\">instance "@.len() != "</dt><dd>"@.len());
    assert("<span class=\"badge\">instance "@.len() != "</dd></div>\n"@.len());
    assert("<span class=\"badge\">instance "@.len() != "<span class=\"badge\">"@.len());
    let m = "<span class=\"badge\">instance "@;
    assert forall|q: Layout, label: Seq<char>, value: Option<Seq<char>>|
        m != label implies said(#[trigger] template::with_field(q, label, value), m) == said(q, m) by {
        lemma_field_said(q, label, value, m);
    }
}

proof fn lemma_gateway_word(p: Layout, cvm: page::CvmViewModel)
    ensures
        said(template::with_gateway(p, cvm), "<p>n/a</p>\n"@) == said(p, "<p>n/a</p>\n"@) + if cvm.gateway_domain is None {
            1int
        } else {
            0int
        },
{
    broadcast use group_reading;

    reveal_strlit("<p>n/a</p>\n");
    reveal_strlit("<h3>Zero Trust Gateway</h3>\n");
    reveal_strlit("<p>");
    reveal_strlit("</p>\n");
    assert("<p>n/a</p>\n"@.len() != "<h3>Zero Trust Gateway</h3>\n"@.len());
    assert("<p>n/a</p>\n"@.len() != "<p>"@.len());
    assert("<p>n/a</p>\n"@.len() != "</p>\n"@.len());
}

proof fn lemma_kms_word(p: Layout, cvm: page::CvmViewModel)
    ensures
        said(template::with_kms(p, cvm), "<p>Keys are provisioned by the dstack KMS, inside a TEE.</p>\n"@) == said(p, "<p>Keys are provisioned by the dstack KMS, inside a TEE.</p>\n"@) + if cvm.kms_in_tee {
            1int
        } else {
            0int
        },
{
    broadcast use group_reading;

    reveal_strlit("<p>Keys are provisioned by the dstack KMS, inside a TEE.</p>\n");
    reveal_strlit("<h3>KMS — deploy-time key provisioning</h3>\n<dl>\n");
    reveal_strlit("key_provider");
    reveal_strlit("</dl>\n");
    reveal_strlit("<div><dt>");
    reveal_strlit("</dt><dd>");
    reveal_strlit("</dd></div>\n");
    assert("<p>Keys are provisioned by the dstack KMS, inside a TEE.</p>\n"@.len() != "<h3>KMS — deploy-time key provisioning</h3>\n<dl>\n"@.len());
    assert("<p>Keys are provisioned by the dstack KMS, inside a TEE.</p>\n"@.len() != "key_provider"@.len());
    assert("<p>Keys are provisioned by the dstack KMS, inside a TEE.</p>\n"@.len() != "</dl>\n"@.len());
    assert("<p>Keys are provisioned by the dstack KMS, inside a TEE.</p>\n"@.len() != "<div><dt>"@.len());
    assert("<p>Keys are provisioned by the dstack KMS, inside a TEE.</p>\n"@.len() != "</dt><dd>"@.len());
    assert("<p>Keys are provisioned by the dstack KMS, inside a TEE.</p>\n"@.len() != "</dd></div>\n"@.len());
    let m = "<p>Keys are provisioned by the dstack KMS, inside a TEE.</p>\n"@;
    assert forall|q: Layout, label: Seq<char>, value: Option<Seq<char>>|
        m != label implies said(#[trigger] template::with_field(q, label, value), m) == said(q, m) by {
        lemma_field_said(q, label, value, m);
    }
}

proof fn lemma_images_said(p: Layout, rows: Seq<compose::ImageRowModel>, m: Seq<char>)
    requires
        m != "<tr><td>"@,
        m != "</td><td>"@,
        m != "</td><td><a href=\""@,
        m != "\">Sigstore</a>"@,
        m != " <a href=\""@,
        m != "\">release</a>"@,
        m != "</td></tr>\n"@,
    ensures
        said(template::with_images(p, rows), m) == said(p, m),
    decreases rows.len(),
{
    broadcast use group_reading;

    if rows.len() > 0 {
        lemma_images_said(p, rows.drop_last(), m);
    }
}

proof fn lemma_compose_word(p: Layout, cvm: page::CvmViewModel)
    ensures
        said(template::with_source(p, cvm), "<p>compose not reported yet</p>\n"@) == said(p, "<p>compose not reported yet</p>\n"@) + if cvm.app_compose is None {
            1int
        } else {
            0int
        },
{
    broadcast use group_reading;

    reveal_strlit("<p>compose not reported yet</p>\n");
    reveal_strlit("<h3>Source Code</h3>\n<dl>\n");
    reveal_strlit("compose_hash");
    reveal_strlit("</dl>\n");
    reveal_strlit("<table>\n<tr><th>Container</th><th>Image</th><th>Digest</th><th>Origin</th><th>Verify</th></tr>\n");
    reveal_strlit("</table>\n");
    reveal_strlit("<ul>\n");
    reveal_strlit("</ul>\n");
    reveal_strlit("<details><summary>app-compose</summary><pre>");
    reveal_strlit("</pre></details>\n");
    reveal_strlit("<div><dt>");
    reveal_strlit("</dt><dd>");
    reveal_strlit("</dd></div>\n");
    reveal_strlit("<li>");
    reveal_strlit("</li>\n");
    reveal_strlit("<tr><td>");
    reveal_strlit("</td><td>");
    reveal_strlit("</td><td><a href=\"");
    reveal_strlit("\">Sigstore</a>");
    reveal_strlit(" <a href=\"");
    reveal_strlit("\">release</a>");
    reveal_strlit("</td></tr>\n");
    assert("<p>compose not reported yet</p>\n"@.len() != "<h3>Source Code</h3>\n<dl>\n"@.len());
    assert("<p>compose not reported yet</p>\n"@.len() != "compose_hash"@.len());
    assert("<p>compose not reported yet</p>\n"@.len() != "</dl>\n"@.len());
    assert("<p>compose not reported yet</p>\n"@.len() != "<table>\n<tr><th>Container</th><th>Image</th><th>Digest</th><th>Origin</th><th>Verify</th></tr>\n"@.len());
    assert("<p>compose not reported yet</p>\n"@.len() != "</table>\n"@.len());
    assert("<p>compose not reported yet</p>\n"@.len() != "<ul>\n"@.len());
    assert("<p>compose not reported yet</p>\n"@.len() != "</ul>\n"@.len());
    assert("<p>compose not reported yet</p>\n"@.len() != "<details><summary>app-compose</summary><pre>"@.len());
    assert("<p>compose not reported yet</p>\n"@.len() != "</pre></details>\n"@.len());
    assert("<p>compose not reported yet</p>\n"@.len() != "<div><dt>"@.len());
    assert("<p>compose not reported yet</p>\n"@.len() != "</dt><dd>"@.len());
    assert("<p>compose not reported yet</p>\n"@.len() != "</dd></div>\n"@.len());
    assert("<p>compose not reported yet</p>\n"@.len() != "<li>"@.len());
    assert("<p>compose not reported yet</p>\n"@.len() != "</li>\n"@.len());
    assert("<p>compose not reported yet</p>\n"@.len() != "<tr><td>"@.len());
    assert("<p>compose not reported yet</p>\n"@.len() != "</td><td>"@.len());
    assert("<p>compose not reported yet</p>\n"@.len() != "</td><td><a href=\""@.len());
    assert("<p>compose not reported yet</p>\n"@.len() != "\">Sigstore</a>"@.len());
    assert("<p>compose not reported yet</p>\n"@.len() != " <a href=\""@.len());
    assert("<p>compose not reported yet</p>\n"@.len() != "\">release</a>"@.len());
    assert("<p>compose not reported yet</p>\n"@.len() != "</td></tr>\n"@.len());
    let m = "<p>compose not reported yet</p>\n"@;
    assert forall|q: Layout, label: Seq<char>, value: Option<Seq<char>>|
        m != label implies said(#[trigger] template::with_field(q, label, value), m) == said(q, m) by {
        lemma_field_said(q, label, value, m);
    }
    assert forall|q: Layout, items: Seq<Seq<char>>|
        said(#[trigger] template::with_items(q, items), m) == said(q, m) by {
        lemma_items_said(q, items, m);
    }
    assert forall|q: Layout, rows: Seq<compose::ImageRowModel>|
        said(#[trigger] template::with_images(q, rows), m) == said(q, m) by {
        lemma_images_said(q, rows, m);
    }
}

proof fn lemma_measurements_said(p: Layout, rows: Seq<(Seq<char>, Seq<char>)>, m: Seq<char>)
    requires
        m != "<div><dt>"@,
        m != "</dt><dd>"@,
        m != "</dd></div>\n"@,
    ensures
        said(template::with_measurements(p, rows), m) == said(p, m),
    decreases rows.len(),
{
    broadcast use group_reading;

    if rows.len() > 0 {
        lemma_measurements_said(p, rows.drop_last(), m);
    }
}

proof fn lemma_decoded_word(p: Layout, cvm: page::CvmViewModel)
    ensures
        said(template::with_registers(p, cvm), "<p>Decoded from the verified quote:</p>\n<dl>\n"@) == said(p, "<p>Decoded from the verified quote:</p>\n<dl>\n"@) + if cvm.decoded is Some {
            1int
        } else {
            0int
        },
{
    broadcast use group_reading;

    reveal_strlit("<p>Decoded from the verified quote:</p>\n<dl>\n");
    reveal_strlit("fmspc");
    reveal_strlit("</dl>\n<details><summary>raw quote</summary><pre>");
    reveal_strlit("</pre></details>\n");
    reveal_strlit("<p>Claimed by the report, not verified:</p>\n<dl>\n");
    reveal_strlit("</dl>\n");
    reveal_strlit("<div><dt>");
    reveal_strlit("</dt><dd>");
    reveal_strlit("</dd></div>\n");
    assert("<p>Decoded from the verified quote:</p>\n<dl>\n"@.len() != "fmspc"@.len());
    assert("<p>Decoded from the verified quote:</p>\n<dl>\n"@.len() != "</dl>\n<details><summary>raw quote</summary><pre>"@.len());
    assert("<p>Decoded from the verified quote:</p>\n<dl>\n"@.len() != "</pre></details>\n"@.len());
    assert("<p>Decoded from the verified quote:</p>\n<dl>\n"@.len() != "<p>Claimed by the report, not verified:</p>\n<dl>\n"@.len());
    assert("<p>Decoded from the verified quote:</p>\n<dl>\n"@.len() != "</dl>\n"@.len());
    assert("<p>Decoded from the verified quote:</p>\n<dl>\n"@.len() != "<div><dt>"@.len());
    assert("<p>Decoded from the verified quote:</p>\n<dl>\n"@.len() != "</dt><dd>"@.len());
    assert("<p>Decoded from the verified quote:</p>\n<dl>\n"@.len() != "</dd></div>\n"@.len());
    let m = "<p>Decoded from the verified quote:</p>\n<dl>\n"@;
    assert forall|q: Layout, label: Seq<char>, value: Option<Seq<char>>|
        m != label implies said(#[trigger] template::with_field(q, label, value), m) == said(q, m) by {
        lemma_field_said(q, label, value, m);
    }
    assert forall|q: Layout, rows: Seq<(Seq<char>, Seq<char>)>|
        said(#[trigger] template::with_measurements(q, rows), m) == said(q, m) by {
        lemma_measurements_said(q, rows, m);
    }
}

proof fn lemma_claimed_word(p: Layout, cvm: page::CvmViewModel)
    ensures
        said(template::with_registers(p, cvm), "<p>Claimed by the report, not verified:</p>\n<dl>\n"@) == said(p, "<p>Claimed by the report, not verified:</p>\n<dl>\n"@) + if cvm.decoded is None {
            1int
        } else {
            0int
        },
{
    broadcast use group_reading;

    reveal_strlit("<p>Claimed by the report, not verified:</p>\n<dl>\n");
    reveal_strlit("<p>Decoded from the verified quote:</p>\n<dl>\n");
    reveal_strlit("fmspc");
    reveal_strlit("</dl>\n<details><summary>raw quote</summary><pre>");
    reveal_strlit("</pre></details>\n");
    reveal_strlit("</dl>\n");
    reveal_strlit("<div><dt>");
    reveal_strlit("</dt><dd>");
    reveal_strlit("</dd></div>\n");
    assert("<p>Claimed by the report, not verified:</p>\n<dl>\n"@.len() != "<p>Decoded from the verified quote:</p>\n<dl>\n"@.len());
    assert("<p>Claimed by the report, not verified:</p>\n<dl>\n"@.len() != "fmspc"@.len());
    assert("<p>Claimed by the report, not verified:</p>\n<dl>\n"@.len() != "</dl>\n<details><summary>raw quote</summary><pre>"@.len());
    assert("<p>Claimed by the report, not verified:</p>\n<dl>\n"@.len() != "</pre></details>\n"@.len());
    assert("<p>Claimed by the report, not verified:</p>\n<dl>\n"@.len() != "</dl>\n"@.len());
    assert("<p>Claimed by the report, not verified:</p>\n<dl>\n"@.len() != "<div><dt>"@.len());
    assert("<p>Claimed by the report, not verified:</p>\n<dl>\n"@.len() != "</dt><dd>"@.len());
    assert("<p>Claimed by the report, not verified:</p>\n<dl>\n"@.len() != "</dd></div>\n"@.len());
    let m = "<p>Claimed by the report, not verified:</p>\n<dl>\n"@;
    assert forall|q: Layout, label: Seq<char>, value: Option<Seq<char>>|
        m != label implies said(#[trigger] template::with_field(q, label, value), m) == said(q, m) by {
        lemma_field_said(q, label, value, m);
    }
    assert forall|q: Layout, rows: Seq<(Seq<char>, Seq<char>)>|
        said(#[trigger] template::with_measurements(q, rows), m) == said(q, m) by {
        lemma_measurements_said(q, rows, m);
    }
}

/// What the template says of a CVM: which instance it is exactly where there are several; that registers
/// are decoded exactly where they are, and that they are only claimed exactly where they are not; that
/// the app-compose is not reported, or that no gateway serves the app, exactly where it is so; and that
/// the keys come from the KMS exactly where they do.
pub proof fn law_card_words(p: Layout, cvm: page::CvmViewModel)
    ensures
        said(template::with_app_header(p, cvm), "<span class=\"badge\">instance "@) == said(p, "<span class=\"badge\">instance "@) + if cvm.instance_total > 1 {
            1int
        } else {
            0int
        },
        said(template::with_registers(p, cvm), "<p>Decoded from the verified quote:</p>\n<dl>\n"@) == said(p, "<p>Decoded from the verified quote:</p>\n<dl>\n"@) + if cvm.decoded is Some {
            1int
        } else {
            0int
        },
        said(template::with_registers(p, cvm), "<p>Claimed by the report, not verified:</p>\n<dl>\n"@) == said(p, "<p>Claimed by the report, not verified:</p>\n<dl>\n"@) + if cvm.decoded is None {
            1int
        } else {
            0int
        },
        said(template::with_source(p, cvm), "<p>compose not reported yet</p>\n"@) == said(p, "<p>compose not reported yet</p>\n"@) + if cvm.app_compose is None {
            1int
        } else {
            0int
        },
        said(template::with_gateway(p, cvm), "<p>n/a</p>\n"@) == said(p, "<p>n/a</p>\n"@) + if cvm.gateway_domain is None {
            1int
        } else {
            0int
        },
        said(template::with_kms(p, cvm), "<p>Keys are provisioned by the dstack KMS, inside a TEE.</p>\n"@) == said(p, "<p>Keys are provisioned by the dstack KMS, inside a TEE.</p>\n"@) + if cvm.kms_in_tee {
            1int
        } else {
            0int
        },
{
    lemma_instance_word(p, cvm);
    lemma_decoded_word(p, cvm);
    lemma_claimed_word(p, cvm);
    lemma_compose_word(p, cvm);
    lemma_gateway_word(p, cvm);
    lemma_kms_word(p, cvm);
}

/// A card is loud exactly where a check failed, and while there is no verdict it says only that the
/// verification is under way.
pub proof fn law_loud_and_pending_cards(
    p: Layout,
    cvm: page::CvmViewModel,
    proof_url: Seq<char>,
    releases_url: Seq<char>,
)
    ensures
        ({
            let q = template::with_card(p, cvm, proof_url, releases_url);
            let n = p.pieces.len() as int;
            &&& q.pieces.len() > n
            &&& cvm.verdict.failing ==> q.pieces[n] == Piece::Markup(
                "<article class=\"card failing\">\n"@,
            )
            &&& !cvm.verdict.failing ==> q.pieces[n] == Piece::Markup(
                "<article class=\"card\">\n"@,
            )
        }),
        template::with_verdict(p, page::verdict_view(None)) == p.markup("<p>verifying…</p>\n"@),
{
    let m = if cvm.verdict.failing {
        "<article class=\"card failing\">\n"@
    } else {
        "<article class=\"card\">\n"@
    };
    template::lemma_sections_keep(p.markup(m), cvm, proof_url, releases_url);
    assert(p.markup(m).pieces[p.pieces.len() as int] == Piece::Markup(m));
}

/// An index without nodes says so.
pub proof fn law_empty_index()
    ensures
        template::index_layout(Seq::empty()).pieces == seq![
            Piece::Markup(template::INDEX_HEAD@),
            Piece::Markup("<p class=\"empty\">No nodes have reported yet.</p>\n"@),
            Piece::Markup(template::FOOT@),
        ],
{
    assert(template::index_layout(Seq::empty()).pieces =~= seq![
        Piece::Markup(template::INDEX_HEAD@),
        Piece::Markup("<p class=\"empty\">No nodes have reported yet.</p>\n"@),
        Piece::Markup(template::FOOT@),
    ]);
}

/// A page is its pieces, one after the other: markup as it stands, and text escaped character by
/// character.
pub proof fn law_pages_are_their_pieces(a: Seq<Piece>, m: Seq<char>, t: Seq<char>, c: char)
    ensures
        html::rendered(Seq::empty()) == Seq::<char>::empty(),
        html::rendered(a.push(Piece::Markup(m))) == html::rendered(a) + m,
        html::rendered(a.push(Piece::Text(t))) == html::rendered(a) + html::escaped(t),
        html::escaped(Seq::empty()) == Seq::<char>::empty(),
        html::escaped(t.push(c)) == html::escaped(t) + (if c == '<' {
            "&lt;"@
        } else if c == '>' {
            "&gt;"@
        } else if c == '&' {
            "&amp;"@
        } else if c == '"' {
            "&quot;"@
        } else if c == '\'' {
            "&#x27;"@
        } else {
            seq![c]
        }),
{
    assert(a.push(Piece::Markup(m)).drop_last() =~= a);
    assert(a.push(Piece::Text(t)).drop_last() =~= a);
    assert(t.push(c).drop_last() =~= t);
}

/// The pages that the portal renders are those of the stored nodes: the index shows each node as of now,
/// and the detail page the cards of the app, with the two fixed links.
pub proof fn law_pages_of_stored_nodes(
    now: u64,
    nodes: Seq<StoredNode>,
    app_id: Seq<char>,
    i: int,
)
    requires
        0 <= i < nodes.len(),
    ensures
        template::index_nodes(now, nodes).len() == nodes.len(),
        template::index_nodes(now, nodes)[i] == page::node_list(
            now,
            nodes[i].received_at,
            *nodes[i].report,
            nodes[i].verdicts@,
        ),
        template::app_html(app_id, nodes) matches Some(html) ==> html == html::rendered(
            template::detail_layout(
                app_id,
                page::app_cards(nodes, app_id),
                "https://proof.t16z.com"@,
                "https://github.com/Dstack-TEE/meta-dstack/releases"@,
            ).pieces,
        ),
{
}

/// The page for an app that nobody knows says so, and of which app.
pub proof fn law_unknown_page(app_id: Seq<char>)
    ensures
        html::rendered(template::unknown_layout(app_id).pieces) == template::DETAIL_HEAD@
            + "<h1>No worker found</h1>\n<p>No worker found for app id "@ + html::escaped(app_id)
            + ".</p>\n"@ + template::FOOT@,
{
    let p = Layout::empty().markup(template::DETAIL_HEAD@);
    let q = p.markup("<h1>No worker found</h1>\n<p>No worker found for app id "@);
    let r = q.text(app_id);
    let s = r.markup(".</p>\n"@);
    law_pages_are_their_pieces(Seq::empty(), template::DETAIL_HEAD@, app_id, ' ');
    law_pages_are_their_pieces(
        p.pieces,
        "<h1>No worker found</h1>\n<p>No worker found for app id "@,
        app_id,
        ' ',
    );
    law_pages_are_their_pieces(q.pieces, ".</p>\n"@, app_id, ' ');
    law_pages_are_their_pieces(r.pieces, ".</p>\n"@, app_id, ' ');
    law_pages_are_their_pieces(s.pieces, template::FOOT@, app_id, ' ');
}

/// The hardware section of a card ends with a link to where a quote can be checked.
pub proof fn law_hardware_links_to_a_check(p: Layout, cvm: page::CvmViewModel, url: Seq<char>)
    ensures
        ({
            let all = template::with_hardware(p, cvm, url).pieces;
            &&& all.len() >= 5
            &&& all.skip(all.len() - 5) == seq![
                Piece::Markup("<p>Check it yourself: <a href=\""@),
                Piece::Text(url),
                Piece::Markup("\">"@),
                Piece::Text(url),
                Piece::Markup("</a></p>\n"@),
            ]
        }),
{
}

/// A node without CVMs is shown by its name and when it was last heard of, in the colour of that.
pub proof fn law_node_without_cvms(p: Layout, node: page::NodeListModel)
    requires
        node.rows.len() == 0,
    ensures
        template::with_node(p, node).pieces == p.pieces + seq![
            Piece::Markup("<section class=\"node\">\n<h2>"@),
            Piece::Text(node.node_id),
            Piece::Markup("</h2>\n<span class=\"pill pill-"@),
            Piece::Text(node.last_seen_class),
            Piece::Markup("\">last seen live "@),
            Piece::Text(node.last_seen_human),
            Piece::Markup("</span>\n<ul>\n"@),
            Piece::Markup("</ul>\n</section>\n"@),
        ],
{
}

} // verus!
