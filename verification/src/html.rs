//! HTML as a sequence of pieces: markup that the templates hold, and text that comes from outside
//! and is escaped.
use vstd::prelude::*;
use vstd::string::*;

verus! {

/// `askama::Error`, which this library only hands on.
#[verifier::external_type_specification]
#[verifier::external_body]
pub struct ExAskamaError(askama::Error);

/// A piece of a page.
pub enum Piece {
    /// Markup, which is written as it stands.
    Markup(Seq<char>),
    /// Text, which is escaped.
    Text(Seq<char>),
}

/// The pieces of a page, in order.
pub struct Layout {
    pub pieces: Seq<Piece>,
}

impl Layout {
    /// No pieces.
    pub open spec fn empty() -> Layout {
        Layout { pieces: Seq::empty() }
    }

    /// With some markup added.
    pub open spec fn markup(self, m: Seq<char>) -> Layout {
        Layout { pieces: self.pieces.push(Piece::Markup(m)) }
    }

    /// With some text added.
    pub open spec fn text(self, t: Seq<char>) -> Layout {
        Layout { pieces: self.pieces.push(Piece::Text(t)) }
    }
}

/// A character of text in HTML.
pub open spec fn escaped_char(c: char) -> Seq<char> {
    if c == '<' {
        "&lt;"@
    } else if c == '>' {
        "&gt;"@
    } else if c == '&' {
        "&amp;"@
    } else if c == '"' {
        "&quot;"@
    } else if c == '\'' {
        "&#x27;"@
    } else {
        seq![c]
    }
}

/// A text in HTML.
pub open spec fn escaped(s: Seq<char>) -> Seq<char>
    decreases s.len(),
{
    if s.len() == 0 {
        Seq::empty()
    } else {
        escaped(s.drop_last()) + escaped_char(s.last())
    }
}

/// A piece in HTML.
pub open spec fn rendered_piece(piece: Piece) -> Seq<char> {
    match piece {
        Piece::Markup(m) => m,
        Piece::Text(t) => escaped(t),
    }
}

/// Pieces in HTML, one after the other.
pub open spec fn rendered(pieces: Seq<Piece>) -> Seq<char>
    decreases pieces.len(),
{
    if pieces.len() == 0 {
        Seq::empty()
    } else {
        rendered(pieces.drop_last()) + rendered_piece(pieces.last())
    }
}

/// `askama::filters::escape` with `askama::Html`, printed: the text with `<`, `>`, `&`, `"` and `'`
/// replaced by character references, and every other character as it is. It never fails.
#[verifier::external_body]
fn escape_text(s: &str) -> (r: Result<String, askama::Error>)
    ensures
        r is Ok,
        r->Ok_0@ == escaped(s@),
{
    askama::filters::escape(askama::Html, s).map(|escaped| escaped.to_string())
}

/// A page in the making.
pub struct Html {
    out: String,
    layout: Ghost<Layout>,
}

impl View for Html {
    type V = Layout;

    closed spec fn view(&self) -> Layout {
        self.layout@
    }
}

impl Html {
    #[verifier::type_invariant]
    closed spec fn holds_its_pieces(&self) -> bool {
        self.out@ == rendered(self.layout@.pieces)
    }

    /// An empty page.
    pub fn new() -> (r: Html)
        ensures
            r@ == Layout::empty(),
    {
        Html { out: String::new(), layout: Ghost(Layout::empty()) }
    }

    /// The page with some markup added.
    pub fn markup(self, m: &'static str) -> (r: Html)
        ensures
            r@ == self@.markup(m@),
    {
        proof {
            use_type_invariant(&self);
        }
        let ghost all = self.layout@.markup(m@);
        assert(all.pieces.drop_last() =~= self.layout@.pieces);
        let mut out = self.out;
        out.append(m);
        Html { out, layout: Ghost(all) }
    }

    /// The page with some text added, escaped.
    pub fn text(self, t: &str) -> (r: Html)
        ensures
            r@ == self@.text(t@),
    {
        proof {
            use_type_invariant(&self);
        }
        let ghost all = self.layout@.text(t@);
        assert(all.pieces.drop_last() =~= self.layout@.pieces);
        let mut out = self.out;
        match escape_text(t) {
            Ok(e) => out.append(e.as_str()),
            Err(_) => {},
        }
        Html { out, layout: Ghost(all) }
    }

    /// The page as HTML.
    pub fn finish(self) -> (r: String)
        ensures
            r@ == rendered(self@.pieces),
    {
        proof {
            use_type_invariant(&self);
        }
        self.out
    }
}

/// How often a character occurs in a text.
pub open spec fn occurrences(s: Seq<char>, c: char) -> nat
    decreases s.len(),
{
    if s.len() == 0 {
        0
    } else {
        occurrences(s.drop_last(), c) + if s.last() == c {
            1nat
        } else {
            0nat
        }
    }
}

/// The markup among some pieces.
pub open spec fn markup_only(pieces: Seq<Piece>) -> Seq<char>
    decreases pieces.len(),
{
    if pieces.len() == 0 {
        Seq::empty()
    } else {
        markup_only(pieces.drop_last()) + match pieces.last() {
            Piece::Markup(m) => m,
            Piece::Text(_) => Seq::empty(),
        }
    }
}

/// A character that opens or closes a tag or an attribute value.
pub open spec fn is_delimiter(c: char) -> bool {
    c == '<' || c == '>' || c == '"' || c == '\''
}

proof fn lemma_occurrences_join(a: Seq<char>, b: Seq<char>, c: char)
    ensures
        occurrences(a + b, c) == occurrences(a, c) + occurrences(b, c),
    decreases b.len(),
{
    if b.len() == 0 {
        assert(a + b =~= a);
    } else {
        assert((a + b).drop_last() =~= a + b.drop_last());
        lemma_occurrences_join(a, b.drop_last(), c);
    }
}

proof fn lemma_escaped_char_inert(x: char, c: char)
    requires
        is_delimiter(c),
    ensures
        occurrences(escaped_char(x), c) == 0,
{
    reveal_strlit("&lt;");
    reveal_strlit("&gt;");
    reveal_strlit("&amp;");
    reveal_strlit("&quot;");
    reveal_strlit("&#x27;");
    reveal_with_fuel(occurrences, 8);
}

/// Escaped text holds no character that could open or close a tag or an attribute value.
pub proof fn law_escaped_text_is_inert(s: Seq<char>, c: char)
    requires
        is_delimiter(c),
    ensures
        occurrences(escaped(s), c) == 0,
    decreases s.len(),
{
    if s.len() > 0 {
        law_escaped_text_is_inert(s.drop_last(), c);
        lemma_escaped_char_inert(s.last(), c);
        lemma_occurrences_join(escaped(s.drop_last()), escaped_char(s.last()), c);
    }
}

/// Every tag and attribute of a page is the template's: text from outside adds no delimiter to the
/// page.
pub proof fn law_text_adds_no_markup(pieces: Seq<Piece>, c: char)
    requires
        is_delimiter(c),
    ensures
        occurrences(rendered(pieces), c) == occurrences(markup_only(pieces), c),
    decreases pieces.len(),
{
    if pieces.len() > 0 {
        let before = pieces.drop_last();
        law_text_adds_no_markup(before, c);
        match pieces.last() {
            Piece::Markup(m) => {
                lemma_occurrences_join(rendered(before), m, c);
                lemma_occurrences_join(markup_only(before), m, c);
            },
            Piece::Text(t) => {
                law_escaped_text_is_inert(t, c);
                lemma_occurrences_join(rendered(before), escaped(t), c);
                lemma_occurrences_join(markup_only(before), Seq::empty(), c);
            },
        }
    }
}

/// The pieces of `p` are the first ones of `q`.
pub open spec fn keeps(p: Layout, q: Layout) -> bool {
    &&& p.pieces.len() <= q.pieces.len()
    &&& forall|i: int| 0 <= i < p.pieces.len() ==> #[trigger] q.pieces[i] == p.pieces[i]
}

/// What keeps the pieces of a layout keeps those that it had kept before.
pub proof fn lemma_keeps_chains(p: Layout, q: Layout, r: Layout)
    requires
        keeps(p, q),
        keeps(q, r),
    ensures
        keeps(p, r),
{
}

/// Markup stays in a page, whatever comes after it.
pub proof fn lemma_markup_stays(p: Layout, m: Seq<char>, q: Layout)
    requires
        keeps(p.markup(m), q),
    ensures
        crate::text::contains_text(rendered(q.pieces), m),
    decreases q.pieces.len(),
{
    let base = p.markup(m);
    let all = rendered(q.pieces);
    if q.pieces.len() == base.pieces.len() {
        assert(q.pieces =~= base.pieces);
        assert(base.pieces.drop_last() =~= p.pieces);
        let at = rendered(p.pieces).len() as int;
        assert(all.subrange(at, at + m.len()) =~= m);
        assert(crate::text::occurs_at(all, m, at));
    } else {
        let shorter = Layout { pieces: q.pieces.drop_last() };
        lemma_markup_stays(p, m, shorter);
        let before = rendered(shorter.pieces);
        let at = choose|at: int| crate::text::occurs_at(before, m, at);
        assert(all.subrange(at, at + m.len()) =~= before.subrange(at, at + m.len()));
        assert(crate::text::occurs_at(all, m, at));
    }
}

proof fn lemma_escaped_first(s: Seq<char>)
    requires
        s.len() > 0,
    ensures
        escaped(s) == escaped_char(s[0]) + escaped(s.drop_first()),
    decreases s.len(),
{
    let rest = s.drop_first();
    if s.len() == 1 {
        assert(s.drop_last() =~= Seq::<char>::empty());
        assert(rest =~= Seq::<char>::empty());
        assert(escaped(s) =~= escaped_char(s[0]) + escaped(rest));
    } else {
        lemma_escaped_first(s.drop_last());
        assert(s.drop_last().drop_first() =~= rest.drop_last());
        assert(rest.last() == s.last());
        assert(escaped(s) =~= escaped_char(s[0]) + escaped(rest));
    }
}

proof fn lemma_escaped_char_apart(x: char, y: char, a: Seq<char>, b: Seq<char>)
    requires
        escaped_char(x) + a == escaped_char(y) + b,
    ensures
        x == y,
        a == b,
{
    reveal_strlit("&lt;");
    reveal_strlit("&gt;");
    reveal_strlit("&amp;");
    reveal_strlit("&quot;");
    reveal_strlit("&#x27;");
    let s = escaped_char(x) + a;
    let t = escaped_char(y) + b;
    assert(s[0] == escaped_char(x)[0] && t[0] == escaped_char(y)[0]);
    if escaped_char(x).len() > 1 && escaped_char(y).len() > 1 {
        assert(s[1] == escaped_char(x)[1] && t[1] == escaped_char(y)[1]);
    }
    assert(x == y);
    assert(s.skip(escaped_char(x).len() as int) =~= a);
    assert(t.skip(escaped_char(x).len() as int) =~= b);
}

/// Escaping loses nothing: different texts look different in a page.
pub proof fn law_escaping_loses_nothing(a: Seq<char>, b: Seq<char>)
    requires
        escaped(a) == escaped(b),
    ensures
        a == b,
    decreases a.len(),
{
    reveal_strlit("&lt;");
    reveal_strlit("&gt;");
    reveal_strlit("&amp;");
    reveal_strlit("&quot;");
    reveal_strlit("&#x27;");
    if a.len() > 0 {
        lemma_escaped_first(a);
    }
    if b.len() > 0 {
        lemma_escaped_first(b);
    }
    if a.len() == 0 || b.len() == 0 {
        assert(a =~= b);
    } else {
        lemma_escaped_char_apart(a[0], b[0], escaped(a.drop_first()), escaped(b.drop_first()));
        law_escaping_loses_nothing(a.drop_first(), b.drop_first());
        assert(a =~= seq![a[0]] + a.drop_first());
        assert(b =~= seq![b[0]] + b.drop_first());
    }
}

} // verus!
