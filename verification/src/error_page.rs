//! The localized diagnostic page shown on internal failures.
//!
//! The page reproduces the submitted subject and body so the submitter does
//! not lose their message. Both are HTML-escaped before substitution, so
//! user content can never be read as markup; the body is split on blank
//! lines into separate paragraph blocks.

use vstd::prelude::*;

verus! {

/// The replacement for one character of user content in HTML output: the
/// five markup-significant characters become entities, all others stay.
pub open spec fn escape_char(c: char) -> Seq<char> {
    if c == '&' {
        seq!['&', 'a', 'm', 'p', ';']
    } else if c == '<' {
        seq!['&', 'l', 't', ';']
    } else if c == '>' {
        seq!['&', 'g', 't', ';']
    } else if c == '"' {
        seq!['&', 'q', 'u', 'o', 't', ';']
    } else if c == '\'' {
        seq!['&', '#', '3', '9', ';']
    } else {
        seq![c]
    }
}

/// User content with every markup-significant character replaced by its
/// HTML entity.
pub open spec fn escape_seq(s: Seq<char>) -> Seq<char>
    decreases s.len(),
{
    if s.len() == 0 {
        Seq::empty()
    } else {
        escape_char(s[0]) + escape_seq(s.drop_first())
    }
}

/// Relies on `tinytemplate::escape`: replaces `& < > " '` by their HTML
/// entities and keeps every other character unchanged.
#[verifier::external_body]
fn escape_html(s: &str) -> (r: String)
    ensures
        r@ == escape_seq(s@),
{
    let mut out = String::new();
    tinytemplate::escape(s, &mut out);
    out
}

/// Whether the character `c` occurs in `s`.
pub open spec fn has_char(s: Seq<char>, c: char) -> bool
    decreases s.len(),
{
    if s.len() == 0 {
        false
    } else {
        s[0] == c || has_char(s.drop_first(), c)
    }
}

/// `has_char` finds a character exactly when some position holds it.
proof fn lemma_has_char_elems(s: Seq<char>, c: char)
    ensures
        has_char(s, c) <==> exists|i: int| 0 <= i < s.len() && #[trigger] s[i] == c,
    decreases s.len(),
{
    if s.len() == 0 {
    } else {
        lemma_has_char_elems(s.drop_first(), c);
        if has_char(s.drop_first(), c) {
            let i = choose|i: int| 0 <= i < s.drop_first().len() && s.drop_first()[i] == c;
            assert(s[i + 1] == c);
        }
        if exists|i: int| 0 <= i < s.len() && #[trigger] s[i] == c {
            let i = choose|i: int| 0 <= i < s.len() && #[trigger] s[i] == c;
            if i > 0 {
                assert(s.drop_first()[i - 1] == c);
            }
        }
    }
}

/// A character occurs in a concatenation exactly when it occurs in one of
/// the parts.
proof fn lemma_has_char_add(a: Seq<char>, b: Seq<char>, c: char)
    ensures
        has_char(a + b, c) == (has_char(a, c) || has_char(b, c)),
    decreases a.len(),
{
    if a.len() == 0 {
        assert(a + b =~= b);
    } else {
        assert((a + b).drop_first() =~= a.drop_first() + b);
        assert((a + b)[0] == a[0]);
        lemma_has_char_add(a.drop_first(), b, c);
    }
}

/// No escaped character carries an angle bracket.
proof fn lemma_escape_char_no_markup(c: char)
    ensures
        !has_char(escape_char(c), '<'),
        !has_char(escape_char(c), '>'),
{
    lemma_has_char_elems(escape_char(c), '<');
    lemma_has_char_elems(escape_char(c), '>');
}

/// The escaping property: escaped user content contains no angle bracket
/// at all, so no markup — in particular no script tag — can be smuggled
/// into the rendered page through the subject or the body.
pub proof fn lemma_escape_removes_markup(s: Seq<char>)
    ensures
        !has_char(escape_seq(s), '<'),
        !has_char(escape_seq(s), '>'),
    decreases s.len(),
{
    if s.len() == 0 {
    } else {
        lemma_escape_char_no_markup(s[0]);
        lemma_escape_removes_markup(s.drop_first());
        lemma_has_char_add(escape_char(s[0]), escape_seq(s.drop_first()), '<');
        lemma_has_char_add(escape_char(s[0]), escape_seq(s.drop_first()), '>');
    }
}

/// Escaping distributes over concatenation.
proof fn lemma_escape_add(x: Seq<char>, y: Seq<char>)
    ensures
        escape_seq(x + y) == escape_seq(x) + escape_seq(y),
    decreases x.len(),
{
    if x.len() == 0 {
        assert(x + y =~= y);
        assert(escape_seq(x) + escape_seq(y) =~= escape_seq(y));
    } else {
        assert((x + y).drop_first() =~= x.drop_first() + y);
        assert((x + y)[0] == x[0]);
        lemma_escape_add(x.drop_first(), y);
        assert(escape_char(x[0]) + (escape_seq(x.drop_first()) + escape_seq(y)) =~= (escape_char(
            x[0],
        ) + escape_seq(x.drop_first())) + escape_seq(y));
    }
}

/// Text without newlines escapes to text without newlines.
proof fn lemma_escape_keeps_no_newline(s: Seq<char>)
    requires
        !has_char(s, '\n'),
    ensures
        !has_char(escape_seq(s), '\n'),
    decreases s.len(),
{
    if s.len() == 0 {
    } else {
        assert(s[0] != '\n');
        lemma_escape_keeps_no_newline(s.drop_first());
        lemma_has_char_elems(escape_char(s[0]), '\n');
        lemma_has_char_add(escape_char(s[0]), escape_seq(s.drop_first()), '\n');
    }
}

/// Escaped text with every blank line replaced by a paragraph break,
/// scanning from the left.
pub open spec fn paragraph_body(s: Seq<char>) -> Seq<char>
    decreases s.len(),
{
    if s.len() == 0 {
        Seq::empty()
    } else if s.len() >= 2 && s[0] == '\n' && s[1] == '\n' {
        "</p><p>"@ + paragraph_body(s.skip(2))
    } else {
        seq![s[0]] + paragraph_body(s.drop_first())
    }
}

/// Text without blank lines renders as a single block, unchanged.
proof fn lemma_paragraph_body_no_newline(s: Seq<char>)
    requires
        !has_char(s, '\n'),
    ensures
        paragraph_body(s) == s,
    decreases s.len(),
{
    if s.len() == 0 {
        assert(paragraph_body(s) =~= s);
    } else {
        assert(s[0] != '\n');
        lemma_paragraph_body_no_newline(s.drop_first());
        assert(seq![s[0]] + s.drop_first() =~= s);
    }
}

/// A blank line between two newline-free pieces becomes exactly one
/// paragraph break.
proof fn lemma_paragraph_split_mid(u: Seq<char>, v: Seq<char>)
    requires
        !has_char(u, '\n'),
        !has_char(v, '\n'),
    ensures
        paragraph_body(u + seq!['\n', '\n'] + v) == u + "</p><p>"@ + v,
    decreases u.len(),
{
    let s = u + seq!['\n', '\n'] + v;
    if u.len() == 0 {
        assert(s[0] == '\n' && s[1] == '\n');
        assert(s.skip(2) =~= v);
        lemma_paragraph_body_no_newline(v);
        assert(u + "</p><p>"@ + v =~= "</p><p>"@ + v);
    } else {
        assert(u[0] != '\n');
        assert(s[0] == u[0]);
        assert(s.drop_first() =~= u.drop_first() + seq!['\n', '\n'] + v);
        lemma_paragraph_split_mid(u.drop_first(), v);
        assert(seq![u[0]] + (u.drop_first() + "</p><p>"@ + v) =~= u + "</p><p>"@ + v);
    }
}

/// The paragraph property: a body of two newline-free paragraphs separated
/// by one blank line renders as two distinct paragraph blocks, each
/// holding its escaped text.
pub proof fn lemma_blank_line_splits_paragraphs(a: Seq<char>, b: Seq<char>)
    ensures
        !has_char(a, '\n') && !has_char(b, '\n') ==> "<p>"@ + paragraph_body(
            escape_seq(a + seq!['\n', '\n'] + b),
        ) + "</p>"@ == "<p>"@ + escape_seq(a) + "</p><p>"@ + escape_seq(b) + "</p>"@,
{
    if !has_char(a, '\n') && !has_char(b, '\n') {
        let nn = seq!['\n', '\n'];
        lemma_escape_add(a + nn, b);
        lemma_escape_add(a, nn);
        assert(escape_seq(nn) =~= nn) by {
            assert(escape_char('\n') =~= seq!['\n']);
            assert(nn.drop_first() =~= seq!['\n']);
            assert(seq!['\n'].drop_first() =~= Seq::<char>::empty());
            assert(escape_seq(seq!['\n']) == escape_char('\n') + escape_seq(
                seq!['\n'].drop_first(),
            ));
            assert(escape_seq(seq!['\n']) =~= seq!['\n']);
            assert(escape_seq(nn) == escape_char('\n') + escape_seq(nn.drop_first()));
        }
        lemma_escape_keeps_no_newline(a);
        lemma_escape_keeps_no_newline(b);
        lemma_paragraph_split_mid(escape_seq(a), escape_seq(b));
        assert(escape_seq(a + nn + b) =~= escape_seq(a) + nn + escape_seq(b));
        assert("<p>"@ + (escape_seq(a) + "</p><p>"@ + escape_seq(b)) + "</p>"@ =~= "<p>"@
            + escape_seq(a) + "</p><p>"@ + escape_seq(b) + "</p>"@);
    }
}

/// Renders user text as HTML paragraphs: the text is escaped, blank lines
/// become paragraph breaks, and the whole is wrapped in one paragraph
/// block.
pub fn render_paragraphs(text: &str) -> (r: String)
    ensures
        r@ == "<p>"@ + paragraph_body(escape_seq(text@)) + "</p>"@,
{
    let escaped = escape_html(text);
    let n = escaped.as_str().unicode_len();
    let mut out = "<p>".to_owned();
    let mut i: usize = 0;
    proof {
        assert(escaped@.skip(0) =~= escaped@);
    }
    while i < n
        invariant
            n == escaped@.len(),
            i <= n,
            out@ + paragraph_body(escaped@.skip(i as int)) == "<p>"@ + paragraph_body(escaped@),
        decreases n - i,
    {
        let ghost prefix = out@;
        let ghost rest = escaped@.skip(i as int);
        let c = escaped.as_str().get_char(i);
        if c == '\n' && i + 1 < n && escaped.as_str().get_char(i + 1) == '\n' {
            out.append("</p><p>");
            proof {
                assert(rest.skip(2) =~= escaped@.skip(i as int + 2));
                assert(paragraph_body(rest) == "</p><p>"@ + paragraph_body(rest.skip(2)));
                assert(prefix + ("</p><p>"@ + paragraph_body(rest.skip(2))) =~= (prefix
                    + "</p><p>"@) + paragraph_body(rest.skip(2)));
            }
            i = i + 2;
        } else {
            let piece = escaped.as_str().substring_char(i, i + 1);
            out.append(piece);
            proof {
                assert(rest.drop_first() =~= escaped@.skip(i as int + 1));
                assert(escaped@.subrange(i as int, i as int + 1) =~= seq![rest[0]]);
                assert(paragraph_body(rest) == seq![rest[0]] + paragraph_body(rest.drop_first()));
                assert(prefix + (seq![rest[0]] + paragraph_body(rest.drop_first())) =~= (prefix
                    + seq![rest[0]]) + paragraph_body(rest.drop_first()));
            }
            i = i + 1;
        }
    }
    proof {
        assert(escaped@.skip(n as int) =~= Seq::<char>::empty());
        assert(out@ + Seq::<char>::empty() =~= out@);
    }
    out.append("</p>");
    out
}

/// The English page around the escaped subject and the rendered body.
pub open spec fn spec_error_page_en(subject: Seq<char>, body: Seq<char>) -> Seq<char> {
    "<!DOCTYPE html><html lang=\"en\"><head><meta charset=\"utf-8\"><title>Something went wrong</title></head><body><h1>Something went wrong</h1><p>Unfortunately an error occurred while sending your message, so it could not be delivered. Please try again later. This is what you sent:</p><h2>"@
        + escape_seq(subject) + "</h2>"@ + ("<p>"@ + paragraph_body(escape_seq(body)) + "</p>"@)
        + "<p><a href=\"https://hovinen.tech\">Back to the home page</a></p></body></html>"@
}

/// The German page around the escaped subject and the rendered body.
pub open spec fn spec_error_page_de(subject: Seq<char>, body: Seq<char>) -> Seq<char> {
    "<!DOCTYPE html><html lang=\"de\"><head><meta charset=\"utf-8\"><title>Leider ist etwas schiefgelaufen</title></head><body><h1>Leider ist etwas schiefgelaufen</h1><p>Beim Versand Ihrer Nachricht ist leider ein Fehler aufgetreten, sie konnte nicht zugestellt werden. Bitte versuchen Sie es sp&auml;ter erneut. Das haben Sie gesendet:</p><h2>"@
        + escape_seq(subject) + "</h2>"@ + ("<p>"@ + paragraph_body(escape_seq(body)) + "</p>"@)
        + "<p><a href=\"https://hovinen.tech\">Zur&uuml;ck zur Startseite</a></p></body></html>"@
}

/// Renders the diagnostic page for an internal failure, in German when
/// requested and in English otherwise. The submitted subject and body are
/// escaped before substitution and the body is split into paragraphs.
pub fn render_error_page(subject: &str, body: &str, language: &str) -> (r: String)
    ensures
        language@ == "de"@ ==> r@ == spec_error_page_de(subject@, body@),
        language@ != "de"@ ==> r@ == spec_error_page_en(subject@, body@),
{
    let escaped_subject = escape_html(subject);
    let paragraphs = render_paragraphs(body);
    if crate::text::str_eq(language, "de") {
        let mut page =
            "<!DOCTYPE html><html lang=\"de\"><head><meta charset=\"utf-8\"><title>Leider ist etwas schiefgelaufen</title></head><body><h1>Leider ist etwas schiefgelaufen</h1><p>Beim Versand Ihrer Nachricht ist leider ein Fehler aufgetreten, sie konnte nicht zugestellt werden. Bitte versuchen Sie es sp&auml;ter erneut. Das haben Sie gesendet:</p><h2>".to_owned();
        page.append(escaped_subject.as_str());
        page.append("</h2>");
        page.append(paragraphs.as_str());
        page.append(
            "<p><a href=\"https://hovinen.tech\">Zur&uuml;ck zur Startseite</a></p></body></html>",
        );
        page
    } else {
        let mut page =
            "<!DOCTYPE html><html lang=\"en\"><head><meta charset=\"utf-8\"><title>Something went wrong</title></head><body><h1>Something went wrong</h1><p>Unfortunately an error occurred while sending your message, so it could not be delivered. Please try again later. This is what you sent:</p><h2>".to_owned();
        page.append(escaped_subject.as_str());
        page.append("</h2>");
        page.append(paragraphs.as_str());
        page.append(
            "<p><a href=\"https://hovinen.tech\">Back to the home page</a></p></body></html>",
        );
        page
    }
}

} // verus!
