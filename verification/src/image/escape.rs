//! HTML escaping of free text.

use vstd::prelude::*;
use vstd::string::StringExecFns;

verus! {

/// Whether `c` has a meaning of its own in HTML markup.
pub open spec fn is_markup_char(c: char) -> bool {
    c == '&' || c == '<' || c == '>' || c == '"' || c == '\''
}

/// Whether `c` opens or closes a tag or an attribute value.
pub open spec fn is_delimiter(c: char) -> bool {
    c == '<' || c == '>' || c == '"' || c == '\''
}

/// What stands for the character `c` in escaped text: a character reference
/// for a markup character, the character itself otherwise.
pub open spec fn escape_char(c: char) -> Seq<char> {
    if c == '&' {
        seq!['&', 'a', 'm', 'p', ';']
    } else if c == '<' {
        seq!['&', 'l', 't', ';']
    } else if c == '>' {
        seq!['&', 'g', 't', ';']
    } else if c == '"' {
        seq!['&', 'q', 'u', 'o', 't', ';']
    } else if c == '\'' {
        seq!['&', '#', 'x', '2', '7', ';']
    } else {
        seq![c]
    }
}

/// Escaped form of a text: the escaped forms of its characters, in order.
pub open spec fn escape_html(text: Seq<char>) -> Seq<char>
    decreases text.len(),
{
    if text.len() == 0 {
        Seq::empty()
    } else {
        escape_html(text.drop_last()) + escape_char(text.last())
    }
}

/// The string that holds the escaped form of one character.
fn escaped_char(c: char) -> (s: Option<&'static str>)
    ensures
        match s {
            Some(r) => is_markup_char(c) && r@ == escape_char(c),
            None => !is_markup_char(c),
        },
{
    proof {
        reveal_strlit("&amp;");
        reveal_strlit("&lt;");
        reveal_strlit("&gt;");
        reveal_strlit("&quot;");
        reveal_strlit("&#x27;");
    }
    if c == '&' {
        assert("&amp;"@ =~= escape_char(c));
        Some("&amp;")
    } else if c == '<' {
        assert("&lt;"@ =~= escape_char(c));
        Some("&lt;")
    } else if c == '>' {
        assert("&gt;"@ =~= escape_char(c));
        Some("&gt;")
    } else if c == '"' {
        assert("&quot;"@ =~= escape_char(c));
        Some("&quot;")
    } else if c == '\'' {
        assert("&#x27;"@ =~= escape_char(c));
        Some("&#x27;")
    } else {
        None
    }
}

/// `String::push` of the standard library: the string afterwards is the
/// string before with the character `c` added at its end.
pub assume_specification[ String::push ](s: &mut String, c: char)
    ensures
        final(s)@ == old(s)@.push(c),
;

/// Appends the escaped form of `text` to `out`.
pub fn push_escaped(out: &mut String, text: &str)
    ensures
        final(out)@ == old(out)@ + escape_html(text@),
{
    let ghost start = out@;
    assert(text@.take(0) =~= Seq::<char>::empty());
    assert(out@ =~= start + escape_html(text@.take(0)));
    for c in it: text.chars()
        invariant
            it.seq() == text@,
            out@ == start + escape_html(text@.take(it.index() as int)),
    {
        let ghost done = text@.take(it.index() as int);
        let ghost next = text@.take(it.index() + 1);
        assert(next.drop_last() =~= done);
        assert(next.last() == c);
        match escaped_char(c) {
            Some(reference) => {
                out.append(reference);
            },
            None => {
                out.push(c);
            },
        }
        assert(out@ =~= start + escape_html(next));
    }
    assert(text@.take(text@.len() as int) =~= text@);
}

/// The escaped form of `text`, as a string.
pub fn escape(text: &str) -> (escaped: String)
    ensures
        escaped@ == escape_html(text@),
{
    let mut escaped = String::new();
    push_escaped(&mut escaped, text);
    assert(escaped@ =~= escape_html(text@));
    escaped
}

/// The escaped form of a text of one character is the escaped form of the
/// character.
pub proof fn lemma_escape_single(c: char)
    ensures
        escape_html(seq![c]) == escape_char(c),
{
    assert(seq![c].drop_last() =~= Seq::<char>::empty());
    assert(seq![c].last() == c);
    assert(escape_html(Seq::<char>::empty()) =~= Seq::<char>::empty());
    assert(escape_html(seq![c]) =~= escape_char(c));
}

/// Escaping goes through concatenation: the escaped form of two texts in a
/// row is their escaped forms in a row.
pub proof fn lemma_escape_concat(a: Seq<char>, b: Seq<char>)
    ensures
        escape_html(a + b) == escape_html(a) + escape_html(b),
    decreases b.len(),
{
    if b.len() == 0 {
        assert(a + b =~= a);
        assert(escape_html(a) + escape_html(b) =~= escape_html(a));
    } else {
        assert((a + b).drop_last() =~= a + b.drop_last());
        assert((a + b).last() == b.last());
        lemma_escape_concat(a, b.drop_last());
        assert(escape_html(a + b) =~= escape_html(a) + escape_html(b));
    }
}

/// Escaped text holds none of the characters that open or close a tag or an
/// attribute value: no `<`, `>`, `"` or `'`.
pub proof fn lemma_escaped_has_no_delimiter(text: Seq<char>)
    ensures
        forall|i: int|
            0 <= i < escape_html(text).len() ==> !is_delimiter(#[trigger] escape_html(text)[i]),
    decreases text.len(),
{
    if text.len() > 0 {
        lemma_escaped_has_no_delimiter(text.drop_last());
        let head = escape_html(text.drop_last());
        let tail = escape_char(text.last());
        assert forall|i: int| 0 <= i < escape_html(text).len() implies !is_delimiter(
            #[trigger] escape_html(text)[i],
        ) by {
            if i < head.len() {
                assert(escape_html(text)[i] == head[i]);
            } else {
                assert(escape_html(text)[i] == tail[i - head.len()]);
            }
        }
    }
}

/// In escaped text every `&` starts one of the five character references.
pub proof fn lemma_escaped_ampersand_starts_reference(text: Seq<char>, i: int)
    requires
        0 <= i < escape_html(text).len(),
        escape_html(text)[i] == '&',
    ensures
        exists|c: char|
            is_markup_char(c) && i + escape_char(c).len() <= escape_html(text).len()
                && escape_html(text).subrange(i, i + escape_char(c).len()) == #[trigger] escape_char(
                c,
            ),
    decreases text.len(),
{
    let head = escape_html(text.drop_last());
    let tail = escape_char(text.last());
    if i < head.len() {
        assert(head[i] == escape_html(text)[i]);
        lemma_escaped_ampersand_starts_reference(text.drop_last(), i);
        let c = choose|c: char|
            is_markup_char(c) && i + escape_char(c).len() <= head.len() && head.subrange(
                i,
                i + escape_char(c).len(),
            ) == #[trigger] escape_char(c);
        assert(escape_html(text).subrange(i, i + escape_char(c).len()) =~= head.subrange(
            i,
            i + escape_char(c).len(),
        ));
    } else {
        assert(escape_html(text)[i] == tail[i - head.len()]);
        let c = text.last();
        assert(i == head.len());
        assert(escape_html(text).subrange(i, i + tail.len()) =~= tail);
    }
}

/// The first two characters of an escaped character tell which character
/// it stands for.
proof fn lemma_escape_char_heads(c: char)
    ensures
        escape_char(c).len() >= 1,
        !is_markup_char(c) ==> escape_char(c).len() == 1 && escape_char(c)[0] == c,
        is_markup_char(c) ==> escape_char(c).len() >= 4 && escape_char(c)[0] == '&',
        c == '&' ==> escape_char(c)[1] == 'a',
        c == '<' ==> escape_char(c)[1] == 'l',
        c == '>' ==> escape_char(c)[1] == 'g',
        c == '"' ==> escape_char(c)[1] == 'q',
        c == '\'' ==> escape_char(c)[1] == '#',
{
}

/// Two texts that start with an escaped character and are equal start with
/// the same character and go on equally.
proof fn lemma_escape_char_cancel(x: char, y: char, rx: Seq<char>, ry: Seq<char>)
    requires
        escape_char(x) + rx == escape_char(y) + ry,
    ensures
        x == y,
        rx == ry,
{
    let ex = escape_char(x);
    let ey = escape_char(y);
    let whole = ex + rx;
    lemma_escape_char_heads(x);
    lemma_escape_char_heads(y);
    assert(whole[0] == ex[0]);
    assert((ey + ry)[0] == ey[0]);
    if is_markup_char(x) {
        assert(whole[1] == ex[1]);
        assert(is_markup_char(y));
        assert((ey + ry)[1] == ey[1]);
    }
    assert(x == y);
    assert(rx =~= whole.skip(ex.len() as int));
    assert(ry =~= (ey + ry).skip(ey.len() as int));
}

/// Escaping loses nothing: two texts with the same escaped form are the same
/// text.
pub proof fn lemma_escape_injective(a: Seq<char>, b: Seq<char>)
    requires
        escape_html(a) == escape_html(b),
    ensures
        a == b,
    decreases a.len(),
{
    if a.len() == 0 || b.len() == 0 {
        if a.len() > 0 {
            lemma_escape_char_heads(a.last());
            assert(escape_html(a).len() >= escape_char(a.last()).len());
        }
        if b.len() > 0 {
            lemma_escape_char_heads(b.last());
            assert(escape_html(b).len() >= escape_char(b.last()).len());
        }
        assert(escape_html(Seq::<char>::empty()).len() == 0);
        assert(a.len() == 0 ==> a =~= Seq::<char>::empty());
        assert(b.len() == 0 ==> b =~= Seq::<char>::empty());
        assert(a =~= b);
    } else {
        let ra = a.drop_first();
        let rb = b.drop_first();
        assert(a =~= seq![a[0]] + ra);
        assert(b =~= seq![b[0]] + rb);
        lemma_escape_concat(seq![a[0]], ra);
        lemma_escape_concat(seq![b[0]], rb);
        lemma_escape_single(a[0]);
        lemma_escape_single(b[0]);
        lemma_escape_char_cancel(a[0], b[0], escape_html(ra), escape_html(rb));
        lemma_escape_injective(ra, rb);
    }
}

} // verus!
