//! Laws of the image table: which service an image belongs to, and what its row says.
use vstd::prelude::*;

use crate::{compose, json, laws, text};

verus! {

/// A name that can stand in front of the colon of a bare mapping key.
pub open spec fn is_key_name(k: Seq<char>) -> bool {
    &&& k.len() > 0
    &&& k[0] != '-'
    &&& !k.contains(':')
    &&& forall|i: int| 0 <= i < k.len() ==> !text::is_white(#[trigger] k[i])
}

/// A bare mapping key is a name and a colon: every such line is a key, with that name, and no other
/// line is.
pub proof fn law_bare_keys(k: Seq<char>, content: Seq<char>)
    ensures
        is_key_name(k) ==> compose::key_of(k.push(':')) == Some(k),
        compose::key_of(content) == Some(k) ==> is_key_name(k) && content == k.push(':'),
{
    let line = k.push(':');
    assert(line.drop_last() =~= k);
    if is_key_name(k) {
        assert forall|i: int| 0 <= i < k.len() implies !text::is_white(#[trigger] k[i]) && k[i]
            != ':' by {
            assert(k.contains(k[i]));
        }
    }
    if compose::key_of(content) == Some(k) {
        assert(content =~= k.push(':'));
        if k.contains(':') {
            let i = choose|i: int| 0 <= i < k.len() && k[i] == ':';
            assert(content.drop_last()[i] != ':');
        }
    }
}

/// An image value is parted at its first `@sha256:`. Where something stands on either side, the row says
/// what: the image, its digest, the place to look that very digest up, and the service, or the image
/// itself where the service is not known. Otherwise there is no row.
pub proof fn law_image_row(
    left: Seq<char>,
    right: Seq<char>,
    service: Option<Seq<char>>,
    version: Option<Seq<char>>,
)
    requires
        forall|i: int|
            0 <= i < left.len() ==> (#[trigger] (left + "@sha256:"@ + right).skip(i)).take(8)
                != "@sha256:"@,
    ensures
        ({
            let row = compose::row_for(left + "@sha256:"@ + right, service, version);
            let image = text::trimmed(left);
            let hex = text::trimmed(right);
            &&& row is Some <==> image.len() > 0 && hex.len() > 0
            &&& row matches Some(r) ==> {
                &&& r.image == image
                &&& r.digest == "sha256:"@ + hex
                &&& r.sigstore_url == "https://search.sigstore.dev/?hash="@ + r.digest
                &&& service matches Some(name) ==> r.container == name
                &&& service is None ==> r.container == image
                &&& compose::is_outlayer_image(image) ==> r.origin == "OutLayer-built"@
                &&& !compose::is_outlayer_image(image) ==> r.origin == "dstack system image"@
                &&& r.release_url == match version {
                    Some(v) if compose::is_outlayer_image(image) => Some(
                        "https://github.com/fastnear/near-outlayer/releases/tag/v"@ + v,
                    ),
                    _ => None,
                }
            }
        }),
{
    reveal_strlit("@sha256:");
    laws::text::lemma_split_of_join(left, "@sha256:"@, right);
}

/// An image value without a digest has no row.
pub proof fn law_unpinned_images_have_no_row(
    value: Seq<char>,
    service: Option<Seq<char>>,
    version: Option<Seq<char>>,
)
    requires
        !text::contains_text(value, "@sha256:"@),
    ensures
        compose::row_for(value, service, version) is None,
{
    laws::text::law_split_at_first(value, "@sha256:"@);
    if let Some((head, tail)) = text::split_first(value, "@sha256:"@) {
        laws::text::law_holding_a_text(value, "@sha256:"@);
        assert(value == head + "@sha256:"@ + tail);
    }
}

/// A reference into OutLayer's namespace begins with the namespace, with or without the registry in
/// front.
pub proof fn law_outlayer_namespace(image: Seq<char>)
    ensures
        compose::is_outlayer_image(image) <==> exists|rest: Seq<char>|
            compose::reference_of(image) == #[trigger] ("docker.io/outlayer/"@ + rest)
                || compose::reference_of(image) == "index.docker.io/outlayer/"@ + rest
                || compose::reference_of(image) == "outlayer/"@ + rest,
{
    let r = compose::reference_of(image);
    lemma_begins(r, "docker.io/outlayer/"@);
    lemma_begins(r, "index.docker.io/outlayer/"@);
    lemma_begins(r, "outlayer/"@);
    if compose::is_outlayer_image(image) {
        if text::occurs_at(r, "docker.io/outlayer/"@, 0) {
            let rest = r.skip("docker.io/outlayer/"@.len() as int);
            assert(r == "docker.io/outlayer/"@ + rest);
        } else if text::occurs_at(r, "index.docker.io/outlayer/"@, 0) {
            let rest = r.skip("index.docker.io/outlayer/"@.len() as int);
            let other = "docker.io/outlayer/"@ + rest;
            assert(r == "index.docker.io/outlayer/"@ + rest);
        } else {
            let rest = r.skip("outlayer/"@.len() as int);
            let other = "docker.io/outlayer/"@ + rest;
            assert(r == "outlayer/"@ + rest);
        }
    }
    assert forall|rest: Seq<char>|
        (r == #[trigger] ("docker.io/outlayer/"@ + rest) || r == "index.docker.io/outlayer/"@ + rest
            || r == "outlayer/"@ + rest) implies compose::is_outlayer_image(image) by {
        lemma_begins_with_joined("docker.io/outlayer/"@, rest);
        lemma_begins_with_joined("index.docker.io/outlayer/"@, rest);
        lemma_begins_with_joined("outlayer/"@, rest);
    }
}

proof fn lemma_begins(s: Seq<char>, part: Seq<char>)
    ensures
        text::occurs_at(s, part, 0) ==> s == part + s.skip(part.len() as int),
{
    if text::occurs_at(s, part, 0) {
        assert(s =~= s.subrange(0, part.len() as int) + s.skip(part.len() as int));
    }
}

proof fn lemma_begins_with_joined(part: Seq<char>, rest: Seq<char>)
    ensures
        text::occurs_at(part + rest, part, 0),
{
    assert((part + rest).subrange(0, part.len() as int) =~= part);
}

/// What stands in front of a reference: an anchor or tag, which begins with `&` or `!` and is parted
/// from it by white space, and one quotation mark. Otherwise a value is its own reference.
pub proof fn law_references(mark: char, word: Seq<char>, gap: char, s: Seq<char>)
    requires
        mark == '&' || mark == '!',
        forall|i: int| 0 <= i < word.len() ==> !text::is_white(#[trigger] word[i]),
        text::is_white(gap),
    ensures
        compose::reference_of(seq![mark] + word + seq![gap] + s) == compose::reference_of(s),
        compose::reference_of(seq!['"'] + s) == text::trimmed_start(s),
        compose::reference_of(seq!['\''] + s) == text::trimmed_start(s),
        s.len() > 0 && !text::is_white(s[0]) && s[0] != '&' && s[0] != '!' && s[0] != '"' && s[0]
            != '\'' ==> compose::reference_of(s) == s,
        compose::reference_of(seq![gap] + s) == compose::reference_of(s),
        compose::reference_of(seq![mark] + word).len() == 0,
        compose::reference_of(Seq::empty()).len() == 0,
{
    let alone = seq![mark] + word;
    laws::text::law_trimmed_start_of_joined(Seq::empty(), alone);
    assert(Seq::<char>::empty() + alone =~= alone);
    assert(alone.drop_first() =~= word);
    lemma_word_alone(word);
    let t = seq![mark] + word + seq![gap] + s;
    laws::text::law_trimmed_start_of_joined(Seq::empty(), t);
    assert(Seq::<char>::empty() + t =~= t);
    let tail = word + (seq![gap] + s);
    assert(t.drop_first() =~= tail);
    lemma_after_word(word, seq![gap] + s);
    lemma_properties_ignore_lead(gap, s);
    let q = seq!['"'] + s;
    let p = seq!['\''] + s;
    laws::text::law_trimmed_start_of_joined(Seq::empty(), q);
    laws::text::law_trimmed_start_of_joined(Seq::empty(), p);
    assert(Seq::<char>::empty() + q =~= q);
    assert(Seq::<char>::empty() + p =~= p);
    assert(q.drop_first() =~= s);
    assert(p.drop_first() =~= s);
    if s.len() > 0 && !text::is_white(s[0]) {
        laws::text::law_trimmed_start_of_joined(Seq::empty(), s);
        assert(Seq::<char>::empty() + s =~= s);
    }
}

proof fn lemma_word_alone(word: Seq<char>)
    requires
        forall|i: int| 0 <= i < word.len() ==> !text::is_white(#[trigger] word[i]),
    ensures
        compose::after_word(word).len() == 0,
        compose::after_properties(compose::after_word(word)).len() == 0,
    decreases word.len(),
{
    if word.len() > 0 {
        assert(!text::is_white(word[0]));
        assert forall|i: int| 0 <= i < word.drop_first().len() implies !text::is_white(
            #[trigger] word.drop_first()[i],
        ) by {
            assert(!text::is_white(word[i + 1]));
        }
        lemma_word_alone(word.drop_first());
    }
}

proof fn lemma_after_word(word: Seq<char>, rest: Seq<char>)
    requires
        forall|i: int| 0 <= i < word.len() ==> !text::is_white(#[trigger] word[i]),
        rest.len() > 0,
        text::is_white(rest[0]),
    ensures
        compose::after_word(word + rest) == rest,
    decreases word.len(),
{
    if word.len() > 0 {
        assert(!text::is_white(word[0]));
        assert((word + rest).drop_first() =~= word.drop_first() + rest);
        assert forall|i: int| 0 <= i < word.drop_first().len() implies !text::is_white(
            #[trigger] word.drop_first()[i],
        ) by {
            assert(!text::is_white(word[i + 1]));
        }
        lemma_after_word(word.drop_first(), rest);
    } else {
        assert(word + rest =~= rest);
    }
}

proof fn lemma_properties_ignore_lead(gap: char, s: Seq<char>)
    requires
        text::is_white(gap),
    ensures
        compose::after_properties(seq![gap] + s) == compose::after_properties(s),
{
    let t = seq![gap] + s;
    laws::text::law_trimmed_start(s);
    assert(t.drop_first() =~= s);
    assert(text::lead_len(t) == 1 + text::lead_len(s));
    assert(text::trimmed_start(t) =~= text::trimmed_start(s));
}

/// A release is a number with dots that ends a name, behind the last hyphen or alone; every such ending
/// is one, and nothing else is.
pub proof fn law_releases(a: Seq<char>, v: Seq<char>, name: Seq<char>)
    ensures
        is_release(v) ==> compose::release_of(a + seq!['-'] + v) == Some(v),
        is_release(v) ==> compose::release_of(v) == Some(v),
        compose::release_of(name) == Some(v) ==> is_release(v) && (name == v || exists|b: Seq<char>|
            name == #[trigger] (b + seq!['-'] + v)),
{
    reveal_strlit("0123456789.");
    if is_release(v) {
        assert forall|i: int| 0 <= i < v.len() implies text::is_digit(#[trigger] v[i]) || v[i]
            == '.' by {
            assert("0123456789."@.contains(v[i]));
        }
        assert(!v.contains('-')) by {
            if v.contains('-') {
                let i = choose|i: int| 0 <= i < v.len() && v[i] == '-';
                assert("0123456789."@.contains(v[i]));
            }
        }
        laws::text::law_last_split_undoes_join(a, '-', v);
        laws::text::law_split_at_last(v, '-');
        if let Some((head, tail)) = text::split_last(v, '-') {
            assert((head + seq!['-'] + tail)[head.len() as int] == '-');
            assert(v[head.len() as int] == '-');
        }
    }
    if compose::release_of(name) == Some(v) {
        assert forall|i: int| 0 <= i < v.len() implies "0123456789."@.contains(#[trigger] v[i]) by {
            if v[i] == '.' {
                assert("0123456789."@[10] == v[i]);
            } else {
                assert(text::is_digit(v[i]));
                assert("0123456789."@[v[i] as int - 48] == v[i]);
            }
        }
        laws::text::law_split_at_last(name, '-');
        if let Some((head, tail)) = text::split_last(name, '-') {
            assert(name == head + seq!['-'] + v);
        }
    }
}

/// Digits and dots, with a dot among them.
pub open spec fn is_release(v: Seq<char>) -> bool {
    &&& v.contains('.')
    &&& forall|i: int| 0 <= i < v.len() ==> "0123456789."@.contains(#[trigger] v[i])
}

/// The table of an app-compose is that of the compose file that it holds, with the release that its
/// name ends with; there is none where the document cannot be read or holds no compose file.
pub proof fn law_table_of_app_compose(raw: Seq<char>)
    ensures
        compose::app_compose_rows(None) == Seq::<compose::ImageRowModel>::empty(),
        match json::json_document(vstd::utf8::encode_utf8(raw)) {
            Err(_) => compose::app_compose_rows(Some(raw)).len() == 0,
            Ok(document) => match json::json_member_text(document, "docker_compose_file"@) {
                None => compose::app_compose_rows(Some(raw)).len() == 0,
                Some(file) => compose::app_compose_rows(Some(raw)) == compose::compose_rows(
                    file,
                    match json::json_member_text(document, "name"@) {
                        Some(name) => compose::release_of(name),
                        None => None,
                    },
                ),
            },
        },
{
}

/// How far a line with this white space in front is indented.
pub open spec fn width(lead: Seq<char>) -> nat {
    vstd::utf8::encode_utf8(lead).len()
}

/// A line that says nothing of services or images to a block whose children are indented by `n`: a
/// blank, a comment, or something deeper that is no image.
pub open spec fn is_detail(line: Seq<char>, n: nat) -> bool {
    !compose::is_significant(line) || (compose::indent_of(line) > n && !text::occurs_at(
        compose::content_of(line),
        "image:"@,
        0,
    ))
}

/// One service of a compose file: its name, the lines before its image, the image's value, and the lines
/// after.
pub struct Service {
    pub name: Seq<char>,
    pub before: Seq<Seq<char>>,
    pub value: Seq<char>,
    pub after: Seq<Seq<char>>,
}

/// The lines of a service.
pub open spec fn service_lines(s: Service, child: Seq<char>, deep: Seq<char>) -> Seq<Seq<char>> {
    seq![child + s.name.push(':')] + s.before + seq![deep + ("image:"@ + s.value)] + s.after
}

/// The lines of some services.
pub open spec fn services_lines(
    services: Seq<Service>,
    child: Seq<char>,
    deep: Seq<char>,
) -> Seq<Seq<char>>
    decreases services.len(),
{
    if services.len() == 0 {
        Seq::empty()
    } else {
        services_lines(services.drop_last(), child, deep) + service_lines(
            services.last(),
            child,
            deep,
        )
    }
}

/// A service as a compose file may hold it under children indented by `n`, with a pinned image.
pub open spec fn is_service(s: Service, n: nat) -> bool {
    &&& is_key_name(s.name)
    &&& s.name[0] != '#'
    &&& forall|i: int| 0 <= i < s.before.len() ==> is_detail(#[trigger] s.before[i], n)
    &&& forall|i: int| 0 <= i < s.after.len() ==> is_detail(#[trigger] s.after[i], n)
    &&& compose::row_for(text::trimmed(s.value), Some(s.name), None) is Some
}

/// Where a reader of some lines stands: in the block of a header line, with how far its children are
/// indented, and in which service.
pub open spec fn stands(
    lines: Seq<Seq<char>>,
    h: int,
    n: Option<nat>,
    service: Option<Seq<char>>,
) -> bool {
    &&& 0 <= h < lines.len()
    &&& compose::block_at(lines, lines.len() as int) == Some(h)
    &&& compose::child_indent(lines, h, lines.len() as int) == n
    &&& compose::service_at(lines, h, lines.len() as int) == service
}

/// The rows that some lines give.
pub open spec fn rows(lines: Seq<Seq<char>>, version: Option<Seq<char>>) -> Seq<compose::ImageRowModel> {
    compose::rows_before(lines, lines.len() as int, version)
}

proof fn lemma_prefix_block(a: Seq<Seq<char>>, b: Seq<Seq<char>>, k: int)
    requires
        0 <= k <= a.len(),
    ensures
        compose::block_at(a + b, k) == compose::block_at(a, k),
        compose::block_at(a, k) matches Some(h) ==> 0 <= h < k,
    decreases k,
{
    if k > 0 {
        lemma_prefix_block(a, b, k - 1);
        assert((a + b)[k - 1] == a[k - 1]);
        if let Some(h) = compose::block_at(a, k - 1) {
            assert((a + b)[h] == a[h]);
        }
    }
}

proof fn lemma_prefix_child(a: Seq<Seq<char>>, b: Seq<Seq<char>>, h: int, k: int)
    requires
        0 <= h < a.len(),
        k <= a.len(),
    ensures
        compose::child_indent(a + b, h, k) == compose::child_indent(a, h, k),
    decreases k - h,
{
    if k > h + 1 {
        lemma_prefix_child(a, b, h, k - 1);
        assert((a + b)[k - 1] == a[k - 1]);
        assert((a + b)[h] == a[h]);
    }
}

proof fn lemma_prefix_service(a: Seq<Seq<char>>, b: Seq<Seq<char>>, h: int, k: int)
    requires
        0 <= h < a.len(),
        k <= a.len(),
    ensures
        compose::service_at(a + b, h, k) == compose::service_at(a, h, k),
    decreases k - h,
{
    if k > h + 1 {
        lemma_prefix_service(a, b, h, k - 1);
        lemma_prefix_child(a, b, h, k);
        assert((a + b)[k - 1] == a[k - 1]);
    }
}

proof fn lemma_prefix_rows(
    a: Seq<Seq<char>>,
    b: Seq<Seq<char>>,
    k: int,
    version: Option<Seq<char>>,
)
    requires
        0 <= k <= a.len(),
    ensures
        compose::rows_before(a + b, k, version) == compose::rows_before(a, k, version),
    decreases k,
{
    if k > 0 {
        lemma_prefix_rows(a, b, k - 1, version);
        lemma_prefix_block(a, b, k - 1);
        assert((a + b)[k - 1] == a[k - 1]);
        if let Some(h) = compose::block_at(a, k - 1) {
            assert((a + b)[h] == a[h]);
            lemma_prefix_service(a, b, h, k - 1);
        }
        assert(compose::row_at(a + b, k - 1, version) == compose::row_at(a, k - 1, version));
    }
}

proof fn lemma_line(lead: Seq<char>, content: Seq<char>)
    requires
        laws::text::all_white(lead),
        content.len() > 0,
        !text::is_white(content[0]),
    ensures
        compose::content_of(lead + content) == content,
        compose::indent_of(lead + content) == width(lead),
        compose::is_significant(lead + content) <==> content[0] != '#',
{
    laws::text::law_trimmed_start_of_joined(lead, content);
    assert((lead + content).take(lead.len() as int) =~= lead);
}

/// A line that says nothing of services or images changes nothing.
pub proof fn law_detail_line_changes_nothing(
    lines: Seq<Seq<char>>,
    line: Seq<char>,
    h: int,
    n: nat,
    service: Option<Seq<char>>,
    version: Option<Seq<char>>,
)
    requires
        stands(lines, h, Some(n), service),
        compose::indent_of(lines[h]) < n,
        is_detail(line, n),
    ensures
        stands(lines.push(line), h, Some(n), service),
        rows(lines.push(line), version) == rows(lines, version),
{
    let all = lines + seq![line];
    let k = lines.len() as int;
    assert(lines.push(line) =~= all);
    lemma_prefix_block(lines, seq![line], k);
    lemma_prefix_child(lines, seq![line], h, k);
    lemma_prefix_service(lines, seq![line], h, k);
    lemma_prefix_rows(lines, seq![line], k, version);
    assert(all[k] == line && all[h] == lines[h]);
    assert(!compose::ends_services(all[h], all[k]));
    assert(compose::row_at(all, k, version) is None);
}

/// A child key of the block moves the reader into the service of that name, and adds no row.
pub proof fn law_service_line_enters_it(
    lines: Seq<Seq<char>>,
    child: Seq<char>,
    name: Seq<char>,
    h: int,
    n: Option<nat>,
    service: Option<Seq<char>>,
    version: Option<Seq<char>>,
)
    requires
        stands(lines, h, n, service),
        laws::text::all_white(child),
        compose::indent_of(lines[h]) < width(child),
        n is None || n == Some(width(child)),
        is_key_name(name),
        name[0] != '#',
    ensures
        stands(lines.push(child + name.push(':')), h, Some(width(child)), Some(name)),
        rows(lines.push(child + name.push(':')), version) == rows(lines, version),
{
    let content = name.push(':');
    let line = child + content;
    let all = lines + seq![line];
    let k = lines.len() as int;
    assert(lines.push(line) =~= all);
    assert(content[0] == name[0]);
    lemma_line(child, content);
    law_bare_keys(name, content);
    lemma_prefix_block(lines, seq![line], k);
    lemma_prefix_child(lines, seq![line], h, k);
    lemma_prefix_service(lines, seq![line], h, k);
    lemma_prefix_rows(lines, seq![line], k, version);
    assert(all[k] == line && all[h] == lines[h]);
    assert(compose::row_at(all, k, version) is None) by {
        reveal_strlit("image:");
        if text::occurs_at(content, "image:"@, 0) {
            assert(content.subrange(0, 6)[5] == content[5]);
            if content.len() > 6 {
                assert(name[5] == ':');
                assert(name.contains(':'));
            }
            let value = content.skip(6);
            assert(value =~= Seq::<char>::empty());
            laws::text::law_trimmed_of_joined(value, value, value);
            assert(value + value + value =~= value);
            assert(!text::contains_text(value, "@sha256:"@)) by {
                reveal_strlit("@sha256:");
            }
            law_unpinned_images_have_no_row(value, compose::service_at(all, h, k), version);
        }
    }
}

/// Every image line with a digest inside the block adds a row, behind those before it, for the service
/// that the reader is in; and the reader stays there.
pub proof fn law_image_line_adds_its_row(
    lines: Seq<Seq<char>>,
    deep: Seq<char>,
    value: Seq<char>,
    h: int,
    n: nat,
    service: Option<Seq<char>>,
    version: Option<Seq<char>>,
)
    requires
        stands(lines, h, Some(n), service),
        laws::text::all_white(deep),
        compose::indent_of(lines[h]) < n < width(deep),
    ensures
        ({
            let all = lines.push(deep + ("image:"@ + value));
            &&& stands(all, h, Some(n), service)
            &&& rows(all, version) == match compose::row_for(
                text::trimmed(value),
                service,
                version,
            ) {
                Some(row) => rows(lines, version).push(row),
                None => rows(lines, version),
            }
        }),
{
    reveal_strlit("image:");
    let content = "image:"@ + value;
    let line = deep + content;
    let all = lines + seq![line];
    let k = lines.len() as int;
    assert(lines.push(line) =~= all);
    assert(content[0] == 'i');
    lemma_line(deep, content);
    lemma_begins_with_joined("image:"@, value);
    assert(content.skip(6) =~= value);
    lemma_prefix_block(lines, seq![line], k);
    lemma_prefix_child(lines, seq![line], h, k);
    lemma_prefix_service(lines, seq![line], h, k);
    lemma_prefix_rows(lines, seq![line], k, version);
    assert(all[k] == line && all[h] == lines[h]);
    assert(!compose::ends_services(all[h], all[k]));
}

proof fn lemma_add_details(
    lines: Seq<Seq<char>>,
    more: Seq<Seq<char>>,
    h: int,
    n: nat,
    service: Option<Seq<char>>,
    version: Option<Seq<char>>,
)
    requires
        stands(lines, h, Some(n), service),
        compose::indent_of(lines[h]) < n,
        forall|i: int| 0 <= i < more.len() ==> is_detail(#[trigger] more[i], n),
    ensures
        stands(lines + more, h, Some(n), service),
        (lines + more)[h] == lines[h],
        rows(lines + more, version) == rows(lines, version),
    decreases more.len(),
{
    if more.len() > 0 {
        let rest = more.drop_last();
        assert forall|i: int| 0 <= i < rest.len() implies is_detail(#[trigger] rest[i], n) by {
            assert(is_detail(more[i], n));
        }
        lemma_add_details(lines, rest, h, n, service, version);
        assert(is_detail(more[more.len() - 1], n));
        law_detail_line_changes_nothing(lines + rest, more.last(), h, n, service, version);
        assert((lines + rest).push(more.last()) =~= lines + more);
    } else {
        assert(lines + more =~= lines);
    }
}

proof fn lemma_add_whole_service(
    lines: Seq<Seq<char>>,
    s: Service,
    child: Seq<char>,
    deep: Seq<char>,
    h: int,
    n: Option<nat>,
    service: Option<Seq<char>>,
    version: Option<Seq<char>>,
)
    requires
        stands(lines, h, n, service),
        laws::text::all_white(child),
        laws::text::all_white(deep),
        compose::indent_of(lines[h]) < width(child) < width(deep),
        n is None || n == Some(width(child)),
        is_service(s, width(child)),
    ensures
        ({
            let all = lines + service_lines(s, child, deep);
            let row = compose::row_for(text::trimmed(s.value), Some(s.name), version);
            &&& stands(all, h, Some(width(child)), Some(s.name))
            &&& all[h] == lines[h]
            &&& row is Some
            &&& rows(all, version) == rows(lines, version).push(row->Some_0)
        }),
{
    let w = width(child);
    let a = lines.push(child + s.name.push(':'));
    law_service_line_enters_it(lines, child, s.name, h, n, service, version);
    let b = a + s.before;
    lemma_add_details(a, s.before, h, w, Some(s.name), version);
    let c = b.push(deep + ("image:"@ + s.value));
    law_image_line_adds_its_row(b, deep, s.value, h, w, Some(s.name), version);
    lemma_add_details(c, s.after, h, w, Some(s.name), version);
    assert(c + s.after =~= lines + service_lines(s, child, deep));
    lemma_row_exists(text::trimmed(s.value), Some(s.name), version);
}

proof fn lemma_row_exists(
    value: Seq<char>,
    service: Option<Seq<char>>,
    version: Option<Seq<char>>,
)
    ensures
        compose::row_for(value, service, version) is Some <==> compose::row_for(
            value,
            service,
            None,
        ) is Some,
{
}

proof fn lemma_add_services(
    lines: Seq<Seq<char>>,
    services: Seq<Service>,
    child: Seq<char>,
    deep: Seq<char>,
    h: int,
    version: Option<Seq<char>>,
)
    requires
        stands(lines, h, None, None),
        laws::text::all_white(child),
        laws::text::all_white(deep),
        compose::indent_of(lines[h]) < width(child) < width(deep),
        forall|i: int| 0 <= i < services.len() ==> is_service(#[trigger] services[i], width(child)),
    ensures
        ({
            let all = lines + services_lines(services, child, deep);
            &&& all[h] == lines[h]
            &&& services.len() == 0 ==> stands(all, h, None, None)
            &&& services.len() > 0 ==> stands(
                all,
                h,
                Some(width(child)),
                Some(services.last().name),
            )
            &&& rows(all, version) == rows(lines, version) + service_rows(services, version)
        }),
    decreases services.len(),
{
    if services.len() > 0 {
        let rest = services.drop_last();
        assert forall|i: int| 0 <= i < rest.len() implies is_service(
            #[trigger] rest[i],
            width(child),
        ) by {
            assert(is_service(services[i], width(child)));
        }
        lemma_add_services(lines, rest, child, deep, h, version);
        assert(is_service(services[services.len() - 1], width(child)));
        let before = lines + services_lines(rest, child, deep);
        lemma_add_whole_service(
            before,
            services.last(),
            child,
            deep,
            h,
            if rest.len() > 0 {
                Some(width(child))
            } else {
                None
            },
            if rest.len() > 0 {
                Some(rest.last().name)
            } else {
                None
            },
            version,
        );
        assert(before + service_lines(services.last(), child, deep) =~= lines + services_lines(
            services,
            child,
            deep,
        ));
        assert(service_rows(services, version) =~= service_rows(rest, version).push(
            compose::row_for(
                text::trimmed(services.last().value),
                Some(services.last().name),
                version,
            )->Some_0,
        ));
        assert(rows(lines, version) + service_rows(services, version) =~= (rows(lines, version)
            + service_rows(rest, version)).push(service_rows(services, version).last()));
    } else {
        assert(lines + services_lines(services, child, deep) =~= lines);
        assert(rows(lines, version) + service_rows(services, version) =~= rows(lines, version));
    }
}

/// The rows of some services: for each of them the row of its image, with the service as the container.
pub open spec fn service_rows(services: Seq<Service>, version: Option<Seq<char>>) -> Seq<
    compose::ImageRowModel,
> {
    Seq::new(
        services.len(),
        |i: int|
            compose::row_for(
                text::trimmed(services[i].value),
                Some(services[i].name),
                version,
            )->Some_0,
    )
}

proof fn lemma_outside(
    lines: Seq<Seq<char>>,
    more: Seq<Seq<char>>,
    version: Option<Seq<char>>,
)
    requires
        compose::block_at(lines, lines.len() as int) is None,
        forall|i: int| 0 <= i < more.len() ==> !compose::opens_services(#[trigger] more[i]),
    ensures
        compose::block_at(lines + more, (lines + more).len() as int) is None,
        rows(lines + more, version) == rows(lines, version),
    decreases more.len(),
{
    if more.len() > 0 {
        let rest = more.drop_last();
        assert forall|i: int| 0 <= i < rest.len() implies !compose::opens_services(
            #[trigger] rest[i],
        ) by {
            assert(!compose::opens_services(more[i]));
        }
        lemma_outside(lines, rest, version);
        let before = lines + rest;
        let last = seq![more.last()];
        let k = before.len() as int;
        assert(before + last =~= lines + more);
        lemma_prefix_block(before, last, k);
        lemma_prefix_rows(before, last, k, version);
        assert((before + last)[k] == more.last());
        assert(!compose::opens_services(more[more.len() - 1]));
        assert(compose::row_at(before + last, k, version) is None);
    } else {
        assert(lines + more =~= lines);
    }
}

/// Lines as a text, each ended by a line feed.
pub open spec fn joined(lines: Seq<Seq<char>>) -> Seq<char>
    decreases lines.len(),
{
    if lines.len() == 0 {
        Seq::empty()
    } else {
        lines[0] + seq!['\n'] + joined(lines.drop_first())
    }
}

/// A text that can be a line.
pub open spec fn is_line(line: Seq<char>) -> bool {
    !line.contains('\n') && (line.len() > 0 ==> line.last() != '\r')
}

proof fn lemma_lines_of_joined(lines: Seq<Seq<char>>)
    requires
        forall|i: int| 0 <= i < lines.len() ==> is_line(#[trigger] lines[i]),
    ensures
        text::lines_of(joined(lines)) == lines,
    decreases lines.len(),
{
    if lines.len() > 0 {
        let rest = lines.drop_first();
        assert forall|i: int| 0 <= i < rest.len() implies is_line(#[trigger] rest[i]) by {
            assert(is_line(lines[i + 1]));
        }
        lemma_lines_of_joined(rest);
        assert(is_line(lines[0]));
        laws::text::law_lines(lines[0], joined(rest));
        assert(seq![lines[0]] + rest =~= lines);
    } else {
        laws::text::law_lines(Seq::empty(), Seq::empty());
        assert(lines =~= Seq::<Seq<char>>::empty());
    }
}

/// A compose file with a `services:` header, services under it that are all indented alike, each with
/// any details and one pinned image that are indented deeper, and whatever else before and after the
/// block: the table has one row for each service, in order, with the service as the container, and no
/// other row.
pub proof fn law_table_of_compose_file(
    front: Seq<Seq<char>>,
    lead: Seq<char>,
    tail: Seq<char>,
    services: Seq<Service>,
    child: Seq<char>,
    deep: Seq<char>,
    back: Seq<Seq<char>>,
    version: Option<Seq<char>>,
)
    requires
        laws::text::all_white(lead),
        laws::text::all_white(child),
        laws::text::all_white(deep),
        width(lead) < width(child) < width(deep),
        forall|i: int| 0 <= i < front.len() ==> !compose::opens_services(#[trigger] front[i]),
        forall|i: int| 0 <= i < services.len() ==> is_service(#[trigger] services[i], width(child)),
        back.len() > 0 ==> compose::is_significant(back[0]) && compose::indent_of(back[0]) <= width(
            lead,
        ),
        forall|i: int| 0 <= i < back.len() ==> !compose::opens_services(#[trigger] back[i]),
        ({
            let lines = front + seq![lead + ("services:"@ + tail)] + services_lines(
                services,
                child,
                deep,
            ) + back;
            forall|i: int| 0 <= i < lines.len() ==> is_line(#[trigger] lines[i])
        }),
    ensures
        ({
            let lines = front + seq![lead + ("services:"@ + tail)] + services_lines(
                services,
                child,
                deep,
            ) + back;
            let table = compose::compose_rows(joined(lines), version);
            &&& table.len() == services.len()
            &&& forall|i: int|
                0 <= i < services.len() ==> (#[trigger] table[i]).container == services[i].name
            &&& forall|i: int|
                0 <= i < services.len() ==> compose::row_for(
                    text::trimmed(services[i].value),
                    Some(services[i].name),
                    version,
                ) == Some(#[trigger] table[i])
        }),
{
    reveal_strlit("services:");
    let header = lead + ("services:"@ + tail);
    let none: Seq<Seq<char>> = Seq::empty();
    lemma_outside(none, front, version);
    assert(none + front =~= front);
    let a = front + seq![header];
    let h = front.len() as int;
    lemma_line(lead, "services:"@ + tail);
    lemma_begins_with_joined("services:"@, tail);
    assert(compose::opens_services(header));
    lemma_prefix_block(front, seq![header], h);
    lemma_prefix_rows(front, seq![header], h, version);
    assert(a[h] == header);
    assert(stands(a, h, None, None));
    assert(rows(a, version) =~= Seq::<compose::ImageRowModel>::empty());
    let b = a + services_lines(services, child, deep);
    lemma_add_services(a, services, child, deep, h, version);
    let lines = b + back;
    if back.len() > 0 {
        let first = seq![back[0]];
        let rest = back.drop_first();
        let c = b + first;
        let k = b.len() as int;
        lemma_prefix_block(b, first, k);
        lemma_prefix_rows(b, first, k, version);
        assert(c[k] == back[0] && c[h] == header);
        assert(!compose::opens_services(back[0]));
        assert(compose::ends_services(c[h], c[k]));
        assert(compose::row_at(c, k, version) is None);
        assert forall|i: int| 0 <= i < rest.len() implies !compose::opens_services(
            #[trigger] rest[i],
        ) by {
            assert(!compose::opens_services(back[i + 1]));
        }
        lemma_outside(c, rest, version);
        assert(c + rest =~= lines);
    } else {
        assert(lines =~= b);
    }
    lemma_lines_of_joined(lines);
    let table = compose::compose_rows(joined(lines), version);
    assert(table =~= service_rows(services, version));
    assert forall|i: int| 0 <= i < services.len() implies compose::row_for(
        text::trimmed(services[i].value),
        Some(services[i].name),
        version,
    ) == Some(#[trigger] table[i]) by {
        assert(is_service(services[i], width(child)));
        lemma_row_exists(text::trimmed(services[i].value), Some(services[i].name), version);
    }
}

/// A compose file without a `services:` header has no table.
pub proof fn law_no_services_no_table(compose: Seq<char>, version: Option<Seq<char>>)
    requires
        forall|i: int|
            0 <= i < text::lines_of(compose).len() ==> !compose::opens_services(
                #[trigger] text::lines_of(compose)[i],
            ),
    ensures
        compose::compose_rows(compose, version).len() == 0,
{
    let none: Seq<Seq<char>> = Seq::empty();
    lemma_outside(none, text::lines_of(compose), version);
    assert(none + text::lines_of(compose) =~= text::lines_of(compose));
}

/// What a line is: its indentation is all white space in front of it, counted in bytes; it counts unless
/// it is blank or a comment; it opens the services block where it begins with `services:`.
pub proof fn law_compose_lines(lead: Seq<char>, content: Seq<char>)
    requires
        laws::text::all_white(lead),
        content.len() > 0 ==> !text::is_white(content[0]),
    ensures
        compose::content_of(lead + content) == content,
        compose::indent_of(lead + content) == vstd::utf8::encode_utf8(lead).len(),
        compose::is_significant(lead + content) <==> content.len() > 0 && content[0] != '#',
        compose::opens_services(lead + content) <==> exists|rest: Seq<char>|
            content == #[trigger] ("services:"@ + rest),
{
    reveal_strlit("services:");
    laws::text::law_trimmed_start_of_joined(lead, content);
    assert((lead + content).take(lead.len() as int) =~= lead);
    lemma_begins(content, "services:"@);
    if exists|rest: Seq<char>| content == #[trigger] ("services:"@ + rest) {
        let rest = choose|rest: Seq<char>| content == #[trigger] ("services:"@ + rest);
        lemma_begins_with_joined("services:"@, rest);
        assert(content[0] == 's');
    }
    if compose::opens_services(lead + content) {
        assert(content == "services:"@ + content.skip("services:"@.len() as int));
    }
}

/// A services block adds a row for each of its services to whatever rows there are, wherever it stands
/// outside another block; and the line that ends it leads outside again.
pub proof fn law_block_adds_its_rows(
    lines: Seq<Seq<char>>,
    lead: Seq<char>,
    tail: Seq<char>,
    services: Seq<Service>,
    child: Seq<char>,
    deep: Seq<char>,
    end: Seq<char>,
    version: Option<Seq<char>>,
)
    requires
        compose::block_at(lines, lines.len() as int) is None,
        laws::text::all_white(lead),
        laws::text::all_white(child),
        laws::text::all_white(deep),
        width(lead) < width(child) < width(deep),
        forall|i: int| 0 <= i < services.len() ==> is_service(#[trigger] services[i], width(child)),
        compose::is_significant(end),
        compose::indent_of(end) <= width(lead),
        !compose::opens_services(end),
    ensures
        ({
            let all = lines + seq![lead + ("services:"@ + tail)] + services_lines(
                services,
                child,
                deep,
            ) + seq![end];
            &&& rows(all, version) == rows(lines, version) + service_rows(services, version)
            &&& compose::block_at(all, all.len() as int) is None
        }),
{
    reveal_strlit("services:");
    let header = lead + ("services:"@ + tail);
    let a = lines + seq![header];
    let h = lines.len() as int;
    lemma_line(lead, "services:"@ + tail);
    lemma_begins_with_joined("services:"@, tail);
    assert(compose::opens_services(header));
    lemma_prefix_block(lines, seq![header], h);
    lemma_prefix_rows(lines, seq![header], h, version);
    assert(a[h] == header);
    assert(stands(a, h, None, None));
    assert(compose::row_at(a, h, version) is None);
    let b = a + services_lines(services, child, deep);
    lemma_add_services(a, services, child, deep, h, version);
    let c = b + seq![end];
    let k = b.len() as int;
    lemma_prefix_block(b, seq![end], k);
    lemma_prefix_rows(b, seq![end], k, version);
    assert(c[k] == end && c[h] == header);
    assert(compose::ends_services(c[h], c[k]));
    assert(compose::row_at(c, k, version) is None);
}

/// Outside a block a line gives no row; one whose content begins with `services:` opens a block, in which
/// nothing is known yet, and no other line does.
pub proof fn law_line_outside_a_block(
    lines: Seq<Seq<char>>,
    line: Seq<char>,
    version: Option<Seq<char>>,
)
    requires
        compose::block_at(lines, lines.len() as int) is None,
    ensures
        rows(lines.push(line), version) == rows(lines, version),
        text::occurs_at(text::trimmed_start(line), "services:"@, 0) ==> stands(
            lines.push(line),
            lines.len() as int,
            None,
            None,
        ),
        !text::occurs_at(text::trimmed_start(line), "services:"@, 0) ==> compose::block_at(
            lines.push(line),
            (lines.len() + 1) as int,
        ) is None,
{
    reveal_strlit("services:");
    let all = lines + seq![line];
    let k = lines.len() as int;
    assert(lines.push(line) =~= all);
    lemma_prefix_block(lines, seq![line], k);
    lemma_prefix_rows(lines, seq![line], k, version);
    assert(all[k] == line);
    assert(compose::row_at(all, k, version) is None);
    let content = text::trimmed_start(line);
    if text::occurs_at(content, "services:"@, 0) {
        assert(content.subrange(0, 9)[0] == content[0]);
        assert(compose::opens_services(line));
    }
}

/// Inside a block every line but the one that ends it is read alike. The first deeper one tells how far
/// the children are indented; a bare key that far in is the service from then on; and one that begins
/// with `image:` gives the row of what follows, for the service before it.
pub proof fn law_line_inside_a_block(
    lines: Seq<Seq<char>>,
    line: Seq<char>,
    h: int,
    n: Option<nat>,
    service: Option<Seq<char>>,
    version: Option<Seq<char>>,
)
    requires
        stands(lines, h, n, service),
    ensures
        ({
            let content = text::trimmed_start(line);
            let says = content.len() > 0 && content[0] != '#';
            let deeper = compose::indent_of(line) > compose::indent_of(lines[h]);
            let opens = text::occurs_at(content, "services:"@, 0);
            let children = if n is None && says && deeper {
                Some(compose::indent_of(line))
            } else {
                n
            };
            let all = lines.push(line);
            &&& says && !deeper && !opens ==> compose::block_at(all, all.len() as int) is None
                && rows(all, version) == rows(lines, version)
            &&& !says || deeper || opens ==> stands(
                all,
                h,
                children,
                if says && children == Some(compose::indent_of(line)) && compose::key_of(content)
                    is Some {
                    compose::key_of(content)
                } else {
                    service
                },
            )
            &&& !says ==> rows(all, version) == rows(lines, version)
            &&& says && (deeper || opens) ==> rows(all, version) == (if text::occurs_at(
                content,
                "image:"@,
                0,
            ) {
                match compose::row_for(text::trimmed(content.skip(6)), service, version) {
                    Some(row) => rows(lines, version).push(row),
                    None => rows(lines, version),
                }
            } else {
                rows(lines, version)
            })
        }),
{
    reveal_strlit("services:");
    reveal_strlit("image:");
    let all = lines + seq![line];
    let k = lines.len() as int;
    assert(lines.push(line) =~= all);
    lemma_prefix_block(lines, seq![line], k);
    lemma_prefix_child(lines, seq![line], h, k);
    lemma_prefix_service(lines, seq![line], h, k);
    lemma_prefix_rows(lines, seq![line], k, version);
    assert(all[k] == line && all[h] == lines[h]);
    let content = text::trimmed_start(line);
    if text::occurs_at(content, "services:"@, 0) {
        assert(content.subrange(0, 9)[0] == content[0]);
    }
}

} // verus!
