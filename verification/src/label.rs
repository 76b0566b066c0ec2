//! The heading helper of the view composer: a pure formatter producing the
//! two-line styled heading — a bold, markup-escaped title line and a subtitle
//! naming the active backend.

use vstd::prelude::*;
use vstd::string::{StrSliceExecFns, StringExecFns};

verus! {

/// The characters that markup could misread as structure.
pub open spec fn is_markup_sensitive(c: char) -> bool {
    c == '&' || c == '<' || c == '>' || c == '\'' || c == '"'
}

/// What escaping makes of one character: each markup-sensitive character
/// becomes its entity, every other character stands unchanged.
pub open spec fn esc_char(c: char) -> Seq<char> {
    if c == '&' {
        seq!['&', 'a', 'm', 'p', ';']
    } else if c == '<' {
        seq!['&', 'l', 't', ';']
    } else if c == '>' {
        seq!['&', 'g', 't', ';']
    } else if c == '\'' {
        seq!['&', '#', '3', '9', ';']
    } else if c == '"' {
        seq!['&', 'q', 'u', 'o', 't', ';']
    } else {
        seq![c]
    }
}

/// A string with every character escaped, in order.
pub open spec fn escaped(s: Seq<char>) -> Seq<char>
    decreases s.len(),
{
    if s.len() == 0 {
        Seq::empty()
    } else {
        escaped(s.drop_last()) + esc_char(s.last())
    }
}

/// Relies on String::push: appends the given character to the end of the
/// string.
#[verifier::external_body]
fn push_char(s: &mut String, c: char)
    ensures
        final(s)@ == old(s)@.push(c),
{
    s.push(c);
}

/// Escape a string so markup renders it literally.
pub fn markup_escape(s: &str) -> (r: String)
    ensures
        r@ == escaped(s@),
{
    let n: usize = s.unicode_len();
    let mut out = String::new();
    let mut i: usize = 0;
    while i < n
        invariant
            i <= n,
            n == s@.len(),
            out@ == escaped(s@.subrange(0, i as int)),
        decreases n - i,
    {
        let c = s.get_char(i);
        if c == '&' {
            out.append("&amp;");
            proof {
                reveal_strlit("&amp;");
                assert("&amp;"@ =~= esc_char(c));
            }
        } else if c == '<' {
            out.append("&lt;");
            proof {
                reveal_strlit("&lt;");
                assert("&lt;"@ =~= esc_char(c));
            }
        } else if c == '>' {
            out.append("&gt;");
            proof {
                reveal_strlit("&gt;");
                assert("&gt;"@ =~= esc_char(c));
            }
        } else if c == '\'' {
            out.append("&#39;");
            proof {
                reveal_strlit("&#39;");
                assert("&#39;"@ =~= esc_char(c));
            }
        } else if c == '"' {
            out.append("&quot;");
            proof {
                reveal_strlit("&quot;");
                assert("&quot;"@ =~= esc_char(c));
            }
        } else {
            push_char(&mut out, c);
        }
        proof {
            let pre = s@.subrange(0, i as int);
            let post = s@.subrange(0, i as int + 1);
            assert(post.drop_last() =~= pre);
            assert(post.last() == s@[i as int]);
            assert(out@ =~= escaped(post));
        }
        i = i + 1;
    }
    proof {
        assert(s@.subrange(0, n as int) =~= s@);
    }
    out
}

/// The markup of the heading: the escaped title in a bold first line, then
/// the subtitle naming the active backend.
pub open spec fn header_markup_spec(tooltip: Seq<char>, backend: Seq<char>) -> Seq<char> {
    "<big><b>"@ + escaped(tooltip) + "</b></big>\n<small>Backend: "@ + backend + "</small>"@
}

/// Format the heading for the given tooltip text and backend name. Pure: the
/// markup is a function of the two inputs alone.
pub fn header_markup(tooltip: &str, backend: &str) -> (r: String)
    ensures
        r@ == header_markup_spec(tooltip@, backend@),
{
    let mut out = String::new();
    out.append("<big><b>");
    let title = markup_escape(tooltip);
    out.append(title.as_str());
    out.append("</b></big>\n<small>Backend: ");
    out.append(backend);
    out.append("</small>");
    proof {
        assert(out@ =~= header_markup_spec(tooltip@, backend@));
    }
    out
}

proof fn lemma_esc_char_markup_free(c: char)
    ensures
        forall|i: int|
            0 <= i < esc_char(c).len() ==> esc_char(c)[i] != '<' && esc_char(c)[i] != '>',
{
}

/// Escaping neutralizes markup: no raw `<` or `>` remains in an escaped
/// string, so the escaped title cannot open or close an element of the
/// surrounding markup.
pub proof fn lemma_escaped_markup_free(s: Seq<char>)
    ensures
        forall|i: int| 0 <= i < escaped(s).len() ==> escaped(s)[i] != '<' && escaped(s)[i] != '>',
    decreases s.len(),
{
    if s.len() == 0 {
    } else {
        lemma_escaped_markup_free(s.drop_last());
        lemma_esc_char_markup_free(s.last());
        let a = escaped(s.drop_last());
        let b = esc_char(s.last());
        assert forall|i: int|
            0 <= i < escaped(s).len() implies escaped(s)[i] != '<' && escaped(s)[i] != '>' by {
            assert(escaped(s) == a + b);
            if i < a.len() {
                assert(escaped(s)[i] == a[i]);
            } else {
                assert(escaped(s)[i] == b[i - a.len()]);
            }
        }
    }
}

/// How often `c` occurs in `s`.
pub open spec fn count_char(s: Seq<char>, c: char) -> nat
    decreases s.len(),
{
    if s.len() == 0 {
        0
    } else {
        count_char(s.drop_last(), c) + (if s.last() == c {
            1nat
        } else {
            0nat
        })
    }
}

proof fn lemma_count_char_add(a: Seq<char>, b: Seq<char>, c: char)
    ensures
        count_char(a + b, c) == count_char(a, c) + count_char(b, c),
    decreases b.len(),
{
    if b.len() == 0 {
        assert(a + b =~= a);
    } else {
        lemma_count_char_add(a, b.drop_last(), c);
        assert((a + b).drop_last() =~= a + b.drop_last());
        assert((a + b).last() == b.last());
    }
}

proof fn lemma_count_char_zero(s: Seq<char>, c: char)
    requires
        forall|i: int| 0 <= i < s.len() ==> s[i] != c,
    ensures
        count_char(s, c) == 0,
    decreases s.len(),
{
    if s.len() > 0 {
        lemma_count_char_zero(s.drop_last(), c);
    }
}

proof fn lemma_count_char_one(s: Seq<char>, c: char, k: int)
    requires
        0 <= k < s.len(),
        s[k] == c,
        forall|i: int| 0 <= i < s.len() && i != k ==> s[i] != c,
    ensures
        count_char(s, c) == 1,
    decreases s.len(),
{
    if k == s.len() - 1 {
        lemma_count_char_zero(s.drop_last(), c);
    } else {
        lemma_count_char_one(s.drop_last(), c, k);
    }
}

proof fn lemma_esc_char_no_newline(c: char)
    requires
        c != '\n',
    ensures
        forall|i: int| 0 <= i < esc_char(c).len() ==> esc_char(c)[i] != '\n',
{
}

/// Escaping introduces no line break: an input without one escapes to a
/// string without one.
pub proof fn lemma_escaped_no_newline(s: Seq<char>)
    requires
        forall|i: int| 0 <= i < s.len() ==> s[i] != '\n',
    ensures
        forall|i: int| 0 <= i < escaped(s).len() ==> escaped(s)[i] != '\n',
    decreases s.len(),
{
    if s.len() == 0 {
    } else {
        lemma_escaped_no_newline(s.drop_last());
        lemma_esc_char_no_newline(s.last());
        let a = escaped(s.drop_last());
        let b = esc_char(s.last());
        assert forall|i: int| 0 <= i < escaped(s).len() implies escaped(s)[i] != '\n' by {
            assert(escaped(s) == a + b);
            if i < a.len() {
                assert(escaped(s)[i] == a[i]);
            } else {
                assert(escaped(s)[i] == b[i - a.len()]);
            }
        }
    }
}

/// The heading is a well-formed two-line label: when neither the tooltip
/// text nor the backend name contains a line break, the heading contains
/// exactly one — the one separating the bold title from the subtitle. This
/// holds for the empty tooltip as well.
pub proof fn lemma_header_two_lines(tooltip: Seq<char>, backend: Seq<char>)
    requires
        forall|i: int| 0 <= i < tooltip.len() ==> tooltip[i] != '\n',
        forall|i: int| 0 <= i < backend.len() ==> backend[i] != '\n',
    ensures
        count_char(header_markup_spec(tooltip, backend), '\n') == 1,
{
    reveal_strlit("<big><b>");
    reveal_strlit("</b></big>\n<small>Backend: ");
    reveal_strlit("</small>");
    let a = "<big><b>"@;
    let e = escaped(tooltip);
    let m = "</b></big>\n<small>Backend: "@;
    let t = "</small>"@;
    lemma_count_char_add(a, e, '\n');
    lemma_count_char_add(a + e, m, '\n');
    lemma_count_char_add(a + e + m, backend, '\n');
    lemma_count_char_add(a + e + m + backend, t, '\n');
    assert(forall|i: int| 0 <= i < a.len() ==> a[i] != '\n');
    lemma_count_char_zero(a, '\n');
    lemma_escaped_no_newline(tooltip);
    lemma_count_char_zero(e, '\n');
    assert(m[10] == '\n');
    assert(forall|i: int| 0 <= i < m.len() && i != 10 ==> m[i] != '\n');
    lemma_count_char_one(m, '\n', 10);
    lemma_count_char_zero(backend, '\n');
    assert(forall|i: int| 0 <= i < t.len() ==> t[i] != '\n');
    lemma_count_char_zero(t, '\n');
}

/// Escaping changes nothing in a string without markup-sensitive characters.
pub proof fn lemma_escaped_plain_identity(s: Seq<char>)
    requires
        forall|i: int| 0 <= i < s.len() ==> !is_markup_sensitive(s[i]),
    ensures
        escaped(s) == s,
    decreases s.len(),
{
    if s.len() == 0 {
        assert(escaped(s) =~= s);
    } else {
        lemma_escaped_plain_identity(s.drop_last());
        assert(!is_markup_sensitive(s.last()));
        assert(esc_char(s.last()) =~= seq![s.last()]);
        assert(escaped(s) =~= s);
    }
}

} // verus!
