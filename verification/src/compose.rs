//! The images that a measured app-compose pins, and where each of them comes from.
use vstd::prelude::*;

use crate::{json, text};

verus! {

/// One row of the image table: a container's measured image and its provenance links.
#[derive(Debug, Clone)]
pub struct ImageRow {
    /// The docker-compose service; the image where it could not be paired with one.
    pub container: String,
    /// The image without its digest.
    pub image: String,
    /// The measured `sha256:<hex>` digest.
    pub digest: String,
    /// Where the digest's build provenance can be looked up.
    pub sigstore_url: String,
    /// The release of an OutLayer image.
    pub release_url: Option<String>,
    /// `OutLayer-built` or `dstack system image`.
    pub origin: &'static str,
}

/// What an `ImageRow` says.
#[verifier::ext_equal]
pub struct ImageRowModel {
    pub container: Seq<char>,
    pub image: Seq<char>,
    pub digest: Seq<char>,
    pub sigstore_url: Seq<char>,
    pub release_url: Option<Seq<char>>,
    pub origin: Seq<char>,
}

impl View for ImageRow {
    type V = ImageRowModel;

    open spec fn view(&self) -> ImageRowModel {
        ImageRowModel {
            container: self.container@,
            image: self.image@,
            digest: self.digest@,
            sigstore_url: self.sigstore_url@,
            release_url: text::opt_view(self.release_url),
            origin: self.origin@,
        }
    }
}

/// What follows the last hyphen of a text; all of it where it has none.
pub open spec fn after_last_hyphen(s: Seq<char>) -> Seq<char> {
    match text::split_last(s, '-') {
        Some((_, tail)) => tail,
        None => s,
    }
}

/// A text of digits and dots with at least one dot.
pub open spec fn is_dotted_number(s: Seq<char>) -> bool {
    &&& s.contains('.')
    &&& forall|i: int| 0 <= i < s.len() ==> text::is_digit(#[trigger] s[i]) || s[i] == '.'
}

/// The release at the end of a compose name: a dotted number after the last hyphen.
pub open spec fn release_of(name: Seq<char>) -> Option<Seq<char>> {
    if is_dotted_number(after_last_hyphen(name)) {
        Some(after_last_hyphen(name))
    } else {
        None
    }
}

/// What follows the first word of a text.
pub open spec fn after_word(s: Seq<char>) -> Seq<char>
    decreases s.len(),
{
    if s.len() == 0 || text::is_white(s[0]) {
        s
    } else {
        after_word(s.drop_first())
    }
}

/// What follows the YAML properties of a value: words that begin with `&` (an anchor) or `!` (a tag).
pub open spec fn after_properties(s: Seq<char>) -> Seq<char>
    decreases s.len(),
    via after_properties_decreases
{
    let t = text::trimmed_start(s);
    if t.len() > 0 && (t[0] == '&' || t[0] == '!') {
        after_properties(after_word(t.drop_first()))
    } else {
        t
    }
}

#[via_fn]
proof fn after_properties_decreases(s: Seq<char>) {
    lemma_lead_len(s);
    lemma_after_word(text::trimmed_start(s).drop_first());
}

proof fn lemma_lead_len(s: Seq<char>)
    ensures
        text::lead_len(s) <= s.len(),
    decreases s.len(),
{
    if s.len() > 0 {
        lemma_lead_len(s.drop_first());
    }
}

proof fn lemma_after_word(s: Seq<char>)
    ensures
        after_word(s).len() <= s.len(),
    decreases s.len(),
{
    if s.len() > 0 {
        lemma_after_word(s.drop_first());
    }
}

/// The image reference in the value of an `image:` line: what follows its YAML properties and the
/// quotation mark that opens it.
pub open spec fn reference_of(image: Seq<char>) -> Seq<char> {
    let s = after_properties(image);
    if s.len() > 0 && (s[0] == '"' || s[0] == '\'') {
        text::trimmed_start(s.drop_first())
    } else {
        s
    }
}

/// An image in the `outlayer` namespace of docker.io. That is the registry where none is named, and is
/// also known as index.docker.io.
pub open spec fn is_outlayer_image(image: Seq<char>) -> bool {
    let reference = reference_of(image);
    ||| text::occurs_at(reference, "docker.io/outlayer/"@, 0)
    ||| text::occurs_at(reference, "index.docker.io/outlayer/"@, 0)
    ||| text::occurs_at(reference, "outlayer/"@, 0)
}

/// The row for the value of an `image:` line; nothing where it pins no digest.
pub open spec fn row_for(
    value: Seq<char>,
    service: Option<Seq<char>>,
    version: Option<Seq<char>>,
) -> Option<ImageRowModel> {
    match text::split_first(value, "@sha256:"@) {
        None => None,
        Some((left, right)) => {
            let image = text::trimmed(left);
            let hex = text::trimmed(right);
            if image.len() == 0 || hex.len() == 0 {
                None
            } else {
                Some(
                    ImageRowModel {
                        container: match service {
                            Some(name) => name,
                            None => image,
                        },
                        image,
                        digest: "sha256:"@ + hex,
                        sigstore_url: "https://search.sigstore.dev/?hash="@ + ("sha256:"@ + hex),
                        release_url: match version {
                            Some(v) if is_outlayer_image(image) => Some(
                                "https://github.com/fastnear/near-outlayer/releases/tag/v"@ + v,
                            ),
                            _ => None,
                        },
                        origin: if is_outlayer_image(image) {
                            "OutLayer-built"@
                        } else {
                            "dstack system image"@
                        },
                    },
                )
            }
        },
    }
}

/// A line of the compose file without its indentation.
pub open spec fn content_of(line: Seq<char>) -> Seq<char> {
    text::trimmed_start(line)
}

/// How far a line is indented, in bytes.
pub open spec fn indent_of(line: Seq<char>) -> nat {
    vstd::utf8::encode_utf8(line.take(text::lead_len(line) as int)).len()
}

/// A line that is neither blank nor a comment.
pub open spec fn is_significant(line: Seq<char>) -> bool {
    content_of(line).len() > 0 && content_of(line)[0] != '#'
}

/// A line that opens the services block.
pub open spec fn opens_services(line: Seq<char>) -> bool {
    is_significant(line) && text::occurs_at(content_of(line), "services:"@, 0)
}

/// A line that ends the block opened by `header`: one that is not indented deeper.
pub open spec fn ends_services(header: Seq<char>, line: Seq<char>) -> bool {
    is_significant(line) && indent_of(line) <= indent_of(header) && !opens_services(line)
}

/// The line that opened the services block in which the text stands after its first `k` lines.
pub open spec fn block_at(lines: Seq<Seq<char>>, k: int) -> Option<int>
    decreases k,
{
    if k <= 0 {
        None
    } else {
        match block_at(lines, k - 1) {
            Some(h) => if ends_services(lines[h], lines[k - 1]) {
                None
            } else {
                Some(h)
            },
            None => if opens_services(lines[k - 1]) {
                Some(k - 1)
            } else {
                None
            },
        }
    }
}

/// How far the children of the header in line `h` are indented: as far as the first line after it
/// that is deeper, among the first `k` lines.
pub open spec fn child_indent(lines: Seq<Seq<char>>, h: int, k: int) -> Option<nat>
    decreases k - h,
{
    if k <= h + 1 {
        None
    } else {
        match child_indent(lines, h, k - 1) {
            Some(n) => Some(n),
            None => if is_significant(lines[k - 1]) && indent_of(lines[k - 1]) > indent_of(lines[h]) {
                Some(indent_of(lines[k - 1]))
            } else {
                None
            },
        }
    }
}

/// The name of a bare mapping key like `keystore:`; nothing for a line of another kind.
pub open spec fn key_of(content: Seq<char>) -> Option<Seq<char>> {
    let key = content.drop_last();
    if content.len() > 1 && content.last() == ':' && key[0] != '-' && forall|i: int|
        0 <= i < key.len() ==> !text::is_white(#[trigger] key[i]) && key[i] != ':' {
        Some(key)
    } else {
        None
    }
}

/// The nearest child key of the header in line `h` among the first `k` lines: the service that the
/// next line belongs to.
pub open spec fn service_at(lines: Seq<Seq<char>>, h: int, k: int) -> Option<Seq<char>>
    decreases k - h,
{
    if k <= h + 1 {
        None
    } else if is_significant(lines[k - 1]) && child_indent(lines, h, k) == Some(
        indent_of(lines[k - 1]),
    ) && key_of(content_of(lines[k - 1])) is Some {
        key_of(content_of(lines[k - 1]))
    } else {
        service_at(lines, h, k - 1)
    }
}

/// The row that line `k` gives.
pub open spec fn row_at(lines: Seq<Seq<char>>, k: int, version: Option<Seq<char>>) -> Option<
    ImageRowModel,
> {
    let content = content_of(lines[k]);
    match block_at(lines, k) {
        Some(h) if is_significant(lines[k]) && !ends_services(lines[h], lines[k])
            && text::occurs_at(content, "image:"@, 0) => row_for(
            text::trimmed(content.skip("image:"@.len() as int)),
            service_at(lines, h, k),
            version,
        ),
        _ => None,
    }
}

/// The rows that the first `k` lines give, in order.
pub open spec fn rows_before(lines: Seq<Seq<char>>, k: int, version: Option<Seq<char>>) -> Seq<
    ImageRowModel,
>
    decreases k,
{
    if k <= 0 {
        Seq::empty()
    } else {
        match row_at(lines, k - 1, version) {
            Some(row) => rows_before(lines, k - 1, version).push(row),
            None => rows_before(lines, k - 1, version),
        }
    }
}

/// The rows of a compose file.
pub open spec fn compose_rows(compose: Seq<char>, version: Option<Seq<char>>) -> Seq<
    ImageRowModel,
> {
    rows_before(text::lines_of(compose), text::lines_of(compose).len() as int, version)
}

/// The rows of an app-compose from its two members that matter: the compose file, and the name that
/// ends with the release.
pub open spec fn member_rows(compose: Option<Seq<char>>, name: Option<Seq<char>>) -> Seq<
    ImageRowModel,
> {
    match compose {
        None => Seq::empty(),
        Some(file) => compose_rows(
            file,
            match name {
                Some(n) => release_of(n),
                None => None,
            },
        ),
    }
}

/// The rows of an app-compose.
pub open spec fn app_compose_rows(app_compose: Option<Seq<char>>) -> Seq<ImageRowModel> {
    match app_compose {
        None => Seq::empty(),
        Some(raw) => match json::json_document(vstd::utf8::encode_utf8(raw)) {
            Err(_) => Seq::empty(),
            Ok(document) => member_rows(
                json::json_member_text(document, "docker_compose_file"@),
                json::json_member_text(document, "name"@),
            ),
        },
    }
}

/// The release version at the end of a compose name like `outlayer-worker-testnet-0.1.35`; only a
/// dotted number counts.
pub fn parse_release_version(name: &str) -> (r: Option<String>)
    ensures
        text::opt_view(r) == release_of(name@),
{
    let last = match text::split_at_last(name, '-') {
        Some((_, tail)) => tail,
        None => name.to_owned(),
    };
    let chars = text::chars_of(last.as_str());
    let mut dotted = false;
    let mut i: usize = 0;
    while i < chars.len()
        invariant
            i <= chars@.len(),
            chars@ == after_last_hyphen(name@),
            dotted <==> exists|j: int| 0 <= j < i && #[trigger] chars@[j] == '.',
            forall|j: int|
                0 <= j < i ==> text::is_digit(#[trigger] chars@[j]) || chars@[j] == '.',
        decreases chars@.len() - i,
    {
        let c = chars[i];
        if c == '.' {
            dotted = true;
        } else if !('0' <= c && c <= '9') {
            assert(!text::is_digit(chars@[i as int]));
            return None;
        }
        i = i + 1;
    }
    if dotted {
        Some(last)
    } else {
        None
    }
}

/// The name of a bare mapping key like `keystore:`. A line with a value, like `image: ...`, is none.
pub fn service_key(content: &str) -> (r: Option<String>)
    ensures
        text::opt_view(r) == key_of(content@),
{
    let chars = text::chars_of(content);
    if chars.len() <= 1 || chars[chars.len() - 1] != ':' || chars[0] == '-' {
        return None;
    }
    let end: usize = chars.len() - 1;
    let mut i: usize = 0;
    while i < end
        invariant
            i <= end,
            end + 1 == chars@.len(),
            chars@ == content@,
            forall|j: int|
                0 <= j < i ==> !text::is_white(#[trigger] content@.drop_last()[j])
                    && content@.drop_last()[j] != ':',
        decreases end - i,
    {
        assert(content@.drop_last()[i as int] == chars@[i as int]);
        if text::white(chars[i]) || chars[i] == ':' {
            return None;
        }
        i = i + 1;
    }
    assert(content@.drop_last() =~= chars@.subrange(0, end as int));
    Some(text::string_between(&chars, 0, end))
}

fn skip_word(s: &str) -> (r: String)
    ensures
        r@ == after_word(s@),
{
    let chars = text::chars_of(s);
    let mut i: usize = 0;
    assert(s@.skip(0) =~= s@);
    while i < chars.len() && !text::white(chars[i])
        invariant
            i <= chars@.len(),
            chars@ == s@,
            after_word(s@) == after_word(s@.skip(i as int)),
        decreases chars@.len() - i,
    {
        assert(s@.skip(i as int).drop_first() =~= s@.skip(i + 1));
        i = i + 1;
    }
    assert(chars@.subrange(i as int, chars@.len() as int) =~= s@.skip(i as int));
    text::string_between(&chars, i, chars.len())
}

fn skip_properties(s: &str) -> (r: String)
    ensures
        r@ == after_properties(s@),
    decreases s@.len(),
{
    let (_, rest) = text::split_lead(s);
    let chars = text::chars_of(rest.as_str());
    if chars.len() > 0 && (chars[0] == '&' || chars[0] == '!') {
        let tail = text::string_between(&chars, 1, chars.len());
        assert(tail@ =~= rest@.drop_first());
        proof {
            lemma_lead_len(s@);
            lemma_after_word(tail@);
        }
        let next = skip_word(tail.as_str());
        skip_properties(next.as_str())
    } else {
        rest
    }
}

fn image_reference(image: &str) -> (r: String)
    ensures
        r@ == reference_of(image@),
{
    let s = skip_properties(image);
    let chars = text::chars_of(s.as_str());
    if chars.len() > 0 && (chars[0] == '"' || chars[0] == '\'') {
        let tail = text::string_between(&chars, 1, chars.len());
        assert(tail@ =~= s@.drop_first());
        let (_, rest) = text::split_lead(tail.as_str());
        rest
    } else {
        s
    }
}

fn in_outlayer_namespace(image: &str) -> (r: bool)
    ensures
        r == is_outlayer_image(image@),
{
    let reference = image_reference(image);
    text::begins_with(reference.as_str(), "docker.io/outlayer/") || text::begins_with(
        reference.as_str(),
        "index.docker.io/outlayer/",
    ) || text::begins_with(reference.as_str(), "outlayer/")
}

/// The row for the value of an `image:` line, which has the form `<ref>@sha256:<hex>`.
pub fn image_row(value: &str, service: &Option<String>, version: &Option<String>) -> (r: Option<
    ImageRow,
>)
    ensures
        text::opt_view(r) == row_for(value@, text::opt_view(*service), text::opt_view(*version)),
{
    let (left, right) = match text::split_at_first(value, "@sha256:") {
        None => return None,
        Some(sides) => sides,
    };
    let image = text::trim_text(left.as_str());
    let hex = text::trim_text(right.as_str());
    if text::is_empty(image.as_str()) || text::is_empty(hex.as_str()) {
        return None;
    }
    let digest = text::joined("sha256:", hex.as_str());
    let sigstore_url = text::joined("https://search.sigstore.dev/?hash=", digest.as_str());
    let outlayer = in_outlayer_namespace(image.as_str());
    let release_url = match version {
        Some(v) if outlayer => Some(
            text::joined(
                "https://github.com/fastnear/near-outlayer/releases/tag/v",
                v.as_str(),
            ),
        ),
        _ => None,
    };
    let container = match service {
        Some(name) => name.clone(),
        None => image.clone(),
    };
    let origin = if outlayer {
        "OutLayer-built"
    } else {
        "dstack system image"
    };
    Some(ImageRow { container, image, digest, sigstore_url, release_url, origin })
}

struct Line {
    content: String,
    indent: usize,
    significant: bool,
}

impl Line {
    spec fn reads(&self, line: Seq<char>) -> bool {
        &&& self.content@ == content_of(line)
        &&& self.indent == indent_of(line)
        &&& self.significant == is_significant(line)
    }
}

fn read_line(line: &str) -> (r: Line)
    ensures
        r.reads(line@),
{
    let (lead, content) = text::split_lead(line);
    let indent: usize = lead.as_str().as_bytes().len();
    let chars = text::chars_of(content.as_str());
    let significant = chars.len() > 0 && chars[0] != '#';
    Line { content, indent, significant }
}

/// The rows of a compose file: one for each `image:` line with a digest in the services block, with
/// the nearest child key of `services:` before it as the container.
pub fn compose_image_rows(compose: &str, version: &Option<String>) -> (r: Vec<ImageRow>)
    ensures
        text::each_view(r@) == compose_rows(compose@, text::opt_view(*version)),
{
    let lines = text::split_lines(compose);
    let ghost all = text::each_view(lines@);
    let ghost wanted = text::opt_view(*version);
    let mut rows: Vec<ImageRow> = Vec::new();
    let mut in_services = false;
    let mut services_indent: usize = 0;
    let mut child: Option<usize> = None;
    let mut service: Option<String> = None;
    let ghost mut header: int = 0;
    assert(text::each_view(rows@) =~= rows_before(all, 0, wanted));
    let mut k: usize = 0;
    while k < lines.len()
        invariant
            k <= lines@.len(),
            all == text::each_view(lines@),
            all == text::lines_of(compose@),
            wanted == text::opt_view(*version),
            text::each_view(rows@) == rows_before(all, k as int, wanted),
            block_at(all, k as int) == if in_services {
                Some(header)
            } else {
                None
            },
            in_services ==> {
                &&& 0 <= header < k
                &&& services_indent == indent_of(all[header])
                &&& child_indent(all, header, k as int) == match child {
                    Some(n) => Some(n as nat),
                    None => None,
                }
                &&& service_at(all, header, k as int) == text::opt_view(service)
            },
        decreases lines@.len() - k,
    {
        let line = read_line(lines[k].as_str());
        assert(all[k as int] == lines@[k as int]@);
        let ghost rows_so_far = rows@;
        k = k + 1;
        if !line.significant {
            continue;
        }
        let content = line.content.as_str();
        let services = text::begins_with(content, "services:");
        if !in_services {
            if services {
                in_services = true;
                services_indent = line.indent;
                child = None;
                service = None;
                proof {
                    header = k - 1;
                }
            }
            continue;
        }
        if line.indent <= services_indent && !services {
            in_services = false;
            continue;
        }
        if line.indent > services_indent && child.is_none() {
            child = Some(line.indent);
        }
        if let Some(value) = text::after_prefix(content, "image:") {
            let value = text::trim_text(value.as_str());
            if let Some(row) = image_row(value.as_str(), &service, version) {
                rows.push(row);
                assert(text::each_view(rows@) =~= text::each_view(rows_so_far).push(row@));
            }
        }
        if child == Some(line.indent) {
            if let Some(name) = service_key(content) {
                service = Some(name);
            }
        }
    }
    rows
}

/// The rows of an app-compose from its two members that matter: the compose file, and the name that
/// ends with the release.
pub fn member_image_rows(compose: &Option<String>, name: &Option<String>) -> (r: Vec<ImageRow>)
    ensures
        text::each_view(r@) == member_rows(text::opt_view(*compose), text::opt_view(*name)),
{
    match compose {
        None => {
            let none: Vec<ImageRow> = Vec::new();
            assert(text::each_view(none@) =~= Seq::<ImageRowModel>::empty());
            none
        },
        Some(file) => {
            let version = match name {
                Some(n) => parse_release_version(n.as_str()),
                None => None,
            };
            compose_image_rows(file.as_str(), &version)
        },
    }
}

/// The image table of a measured app-compose; empty where none was reported or it cannot be read.
pub fn image_rows(app_compose: Option<&str>) -> (r: Vec<ImageRow>)
    ensures
        text::each_view(r@) == app_compose_rows(text::opt_view(app_compose)),
{
    match app_compose {
        None => member_image_rows(&None, &None),
        Some(raw) => match json::read_json(raw.as_bytes()) {
            Err(_) => member_image_rows(&None, &None),
            Ok(document) => {
                let compose = json::member_text(&document, "docker_compose_file");
                let name = json::member_text(&document, "name");
                member_image_rows(&compose, &name)
            },
        },
    }
}

/// What holds of every row of the image table, whatever the compose file.
pub open spec fn row_is_honest(row: ImageRowModel) -> bool {
    &&& row.image.len() > 0
    &&& exists|hex: Seq<char>| hex.len() > 0 && row.digest == #[trigger] ("sha256:"@ + hex)
    &&& row.sigstore_url == "https://search.sigstore.dev/?hash="@ + row.digest
    &&& row.origin == (if is_outlayer_image(row.image) {
        "OutLayer-built"@
    } else {
        "dstack system image"@
    })
    &&& row.release_url is Some ==> is_outlayer_image(row.image)
}

/// Every row is of an image with a pinned digest, links to the provenance of that very digest, is
/// called OutLayer's only where it is in OutLayer's namespace, and only then links to a release.
pub proof fn law_image_rows_are_honest(compose: Seq<char>, version: Option<Seq<char>>, i: int)
    requires
        0 <= i < compose_rows(compose, version).len(),
    ensures
        row_is_honest(compose_rows(compose, version)[i]),
{
    lemma_rows_before_honest(
        text::lines_of(compose),
        text::lines_of(compose).len() as int,
        version,
        i,
    );
}

proof fn lemma_rows_before_honest(
    lines: Seq<Seq<char>>,
    k: int,
    version: Option<Seq<char>>,
    i: int,
)
    requires
        0 <= i < rows_before(lines, k, version).len(),
    ensures
        row_is_honest(rows_before(lines, k, version)[i]),
    decreases k,
{
    let before = rows_before(lines, k - 1, version);
    if i < before.len() {
        lemma_rows_before_honest(lines, k - 1, version, i);
    } else {
        let h = block_at(lines, k - 1)->Some_0;
        let value = text::trimmed(content_of(lines[k - 1]).skip("image:"@.len() as int));
        let right = text::split_first(value, "@sha256:"@)->Some_0.1;
        let hex = text::trimmed(right);
        assert(rows_before(lines, k, version)[i].digest == "sha256:"@ + hex);
    }
}

} // verus!
