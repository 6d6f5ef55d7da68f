//! Whitespace handling for the text that the user types as a shortcut.
use vstd::prelude::*;

verus! {

broadcast use vstd::string::group_string_axioms;

/// The Unicode `White_Space` property, the set of characters that
/// `char::is_whitespace` accepts.
pub open spec fn is_space(c: char) -> bool {
    let x = c as u32;
    ||| 0x09 <= x <= 0x0D
    ||| x == 0x20
    ||| x == 0x85
    ||| x == 0xA0
    ||| x == 0x1680
    ||| 0x2000 <= x <= 0x200A
    ||| x == 0x2028
    ||| x == 0x2029
    ||| x == 0x202F
    ||| x == 0x205F
    ||| x == 0x3000
}

/// The maximal runs of non-whitespace characters of `s`, in order.
pub open spec fn words(s: Seq<char>) -> Seq<Seq<char>>
    decreases s.len(),
{
    if s.len() == 0 {
        seq![]
    } else {
        let prev = words(s.drop_last());
        let c = s.last();
        if is_space(c) {
            prev
        } else if s.len() >= 2 && !is_space(s[s.len() - 2]) {
            prev.update(prev.len() - 1, prev.last().push(c))
        } else {
            prev.push(seq![c])
        }
    }
}

/// The words joined with one ASCII space between neighbours.
pub open spec fn join_words(ws: Seq<Seq<char>>) -> Seq<char>
    decreases ws.len(),
{
    if ws.len() == 0 {
        seq![]
    } else if ws.len() == 1 {
        ws[0]
    } else {
        join_words(ws.drop_last()) + seq![' '] + ws.last()
    }
}

/// `s` with leading and trailing whitespace removed and every inner run
/// of whitespace replaced by a single space.
pub open spec fn normalized(s: Seq<char>) -> Seq<char> {
    join_words(words(s))
}

/// A word as `words` produces it: not empty, and without whitespace.
pub open spec fn is_word(w: Seq<char>) -> bool {
    w.len() > 0 && forall|i: int| 0 <= i < w.len() ==> !is_space(#[trigger] w[i])
}

/// Whether `c` is whitespace in the sense of `char::is_whitespace`.
pub fn is_whitespace_char(c: char) -> (r: bool)
    ensures
        r == is_space(c),
{
    let x: u32 = c as u32;
    (0x09 <= x && x <= 0x0D) || x == 0x20 || x == 0x85 || x == 0xA0 || x == 0x1680 || (0x2000
        <= x && x <= 0x200A) || x == 0x2028 || x == 0x2029 || x == 0x202F || x == 0x205F || x
        == 0x3000
}

/// `String::push`: appends one character.
#[verifier::external_body]
fn push_char(s: &mut String, c: char)
    ensures
        final(s)@ == old(s)@.push(c),
{
    s.push(c);
}

proof fn lemma_words_nonempty_when_last_is_word_char(s: Seq<char>)
    requires
        s.len() > 0,
        !is_space(s.last()),
    ensures
        words(s).len() > 0,
    decreases s.len(),
{
    if s.len() >= 2 && !is_space(s[s.len() - 2]) {
        lemma_words_nonempty_when_last_is_word_char(s.drop_last());
    }
}

proof fn lemma_join_extend_last(ws: Seq<Seq<char>>, c: char)
    requires
        ws.len() > 0,
    ensures
        join_words(ws.update(ws.len() - 1, ws.last().push(c))) == join_words(ws).push(c),
{
    let ws2 = ws.update(ws.len() - 1, ws.last().push(c));
    if ws.len() >= 2 {
        assert(ws2.drop_last() =~= ws.drop_last());
        assert(ws2.last() == ws.last().push(c));
        assert(join_words(ws2) =~= join_words(ws).push(c));
    }
}

proof fn lemma_join_push_word(ws: Seq<Seq<char>>, w: Seq<char>)
    ensures
        join_words(ws.push(w)) == if ws.len() == 0 {
            w
        } else {
            join_words(ws) + seq![' '] + w
        },
{
    assert(ws.push(w).drop_last() =~= ws);
}

/// One step of `words`: how appending a character changes the words.
proof fn lemma_words_step(s: Seq<char>, c: char)
    ensures
        words(s.push(c)) == if is_space(c) {
            words(s)
        } else if s.len() >= 1 && !is_space(s.last()) {
            words(s).update(words(s).len() - 1, words(s).last().push(c))
        } else {
            words(s).push(seq![c])
        },
{
    assert(s.push(c).drop_last() =~= s);
}

proof fn lemma_words_are_words(s: Seq<char>)
    ensures
        forall|i: int| 0 <= i < words(s).len() ==> is_word(#[trigger] words(s)[i]),
    decreases s.len(),
{
    if s.len() > 0 {
        lemma_words_are_words(s.drop_last());
        let prev = words(s.drop_last());
        let c = s.last();
        if !is_space(c) && s.len() >= 2 && !is_space(s[s.len() - 2]) {
            lemma_words_nonempty_when_last_is_word_char(s.drop_last());
            let w = prev.last().push(c);
            assert(is_word(prev[prev.len() - 1]));
            assert(is_word(w)) by {
                assert forall|k: int| 0 <= k < w.len() implies !is_space(#[trigger] w[k]) by {
                    if k < w.len() - 1 {
                        assert(w[k] == prev[prev.len() - 1][k]);
                    }
                }
            }
        } else if !is_space(c) {
            assert(is_word(seq![c]));
        }
    }
}

proof fn lemma_words_all_space(s: Seq<char>)
    ensures
        words(s).len() == 0 <==> forall|i: int| 0 <= i < s.len() ==> is_space(#[trigger] s[i]),
    decreases s.len(),
{
    if s.len() > 0 {
        lemma_words_all_space(s.drop_last());
        if !is_space(s.last()) {
            lemma_words_nonempty_when_last_is_word_char(s);
        } else {
            if words(s).len() == 0 {
                assert forall|i: int| 0 <= i < s.len() implies is_space(#[trigger] s[i]) by {
                    if i < s.len() - 1 {
                        assert(s[i] == s.drop_last()[i]);
                    }
                }
            }
        }
    }
}

proof fn lemma_join_nonempty(ws: Seq<Seq<char>>)
    requires
        ws.len() > 0,
        forall|i: int| 0 <= i < ws.len() ==> is_word(#[trigger] ws[i]),
    ensures
        join_words(ws).len() > 0,
{
    assert(is_word(ws[ws.len() - 1]));
}

proof fn lemma_words_append_word(a: Seq<char>, w: Seq<char>)
    requires
        a.len() == 0 || is_space(a.last()),
        is_word(w),
    ensures
        words(a + w) == words(a).push(w),
    decreases w.len(),
{
    if w.len() == 1 {
        assert(a + w =~= a.push(w[0]));
        lemma_words_step(a, w[0]);
        assert(seq![w[0]] =~= w);
    } else {
        let v = w.drop_last();
        assert(is_word(v)) by {
            assert forall|k: int| 0 <= k < v.len() implies !is_space(#[trigger] v[k]) by {
                assert(v[k] == w[k]);
            }
        }
        lemma_words_append_word(a, v);
        assert(a + w =~= (a + v).push(w.last()));
        assert((a + v).last() == w[w.len() - 2]);
        lemma_words_step(a + v, w.last());
        assert(v.push(w.last()) =~= w);
        assert(words(a).push(v).update(words(a).len() as int, w) =~= words(a).push(w));
    }
}

proof fn lemma_words_of_join(ws: Seq<Seq<char>>)
    requires
        forall|i: int| 0 <= i < ws.len() ==> is_word(#[trigger] ws[i]),
    ensures
        words(join_words(ws)) == ws,
    decreases ws.len(),
{
    if ws.len() == 1 {
        assert(is_word(ws[0]));
        lemma_words_append_word(seq![], ws[0]);
        assert(seq![] + ws[0] =~= ws[0]);
        assert(Seq::<Seq<char>>::empty().push(ws[0]) =~= ws);
    } else if ws.len() >= 2 {
        let d = ws.drop_last();
        assert forall|i: int| 0 <= i < d.len() implies is_word(#[trigger] d[i]) by {
            assert(d[i] == ws[i]);
        }
        lemma_words_of_join(d);
        let a = join_words(d) + seq![' '];
        assert(a =~= join_words(d).push(' '));
        lemma_words_step(join_words(d), ' ');
        assert(is_word(ws[ws.len() - 1]));
        lemma_words_append_word(a, ws.last());
        assert(join_words(ws) == a + ws.last());
        assert(d.push(ws.last()) =~= ws);
    }
}

/// Text made of words joined by single spaces is in normal form.
pub proof fn lemma_joined_words_are_normal(ws: Seq<Seq<char>>)
    requires
        forall|i: int| 0 <= i < ws.len() ==> is_word(#[trigger] ws[i]),
    ensures
        normalized(join_words(ws)) == join_words(ws),
{
    lemma_words_of_join(ws);
}

/// Normalizing a shortcut text a second time changes nothing.
pub proof fn law_normalize_idempotent(s: Seq<char>)
    ensures
        normalized(normalized(s)) == normalized(s),
{
    lemma_words_are_words(s);
    lemma_words_of_join(words(s));
}

/// The normalized text is empty exactly when the input holds nothing but
/// whitespace.
pub proof fn law_normalized_empty_iff_blank(s: Seq<char>)
    ensures
        normalized(s).len() == 0 <==> forall|i: int| 0 <= i < s.len() ==> is_space(#[trigger] s[i]),
{
    lemma_words_all_space(s);
    lemma_words_are_words(s);
    if words(s).len() > 0 {
        lemma_join_nonempty(words(s));
    }
}

/// `text` with leading and trailing whitespace removed and each inner run
/// of whitespace collapsed into one space.
pub fn normalize_shortcut_text(text: &str) -> (r: String)
    ensures
        r@ == normalized(text@),
{
    let mut out = String::new();
    let mut has_word = false;
    let mut in_word = false;
    let ghost seq = text@;
    for c in it: text.chars()
        invariant
            it.seq() == seq,
            seq == text@,
            out@ == join_words(words(seq.take(it.index() as int))),
            has_word == (words(seq.take(it.index() as int)).len() > 0),
            in_word == (it.index() > 0 && !is_space(seq[it.index() - 1])),
    {
        let ghost i = it.index() as int;
        proof {
            assert(seq.take(i + 1) =~= seq.take(i).push(c));
            lemma_words_step(seq.take(i), c);
            if i > 0 {
                assert(seq.take(i).last() == seq[i - 1]);
            }
        }
        if is_whitespace_char(c) {
            in_word = false;
        } else if in_word {
            proof {
                lemma_words_nonempty_when_last_is_word_char(seq.take(i));
                lemma_join_extend_last(words(seq.take(i)), c);
            }
            push_char(&mut out, c);
        } else {
            proof {
                lemma_join_push_word(words(seq.take(i)), seq![c]);
            }
            if has_word {
                push_char(&mut out, ' ');
            }
            push_char(&mut out, c);
            has_word = true;
            in_word = true;
            proof {
                assert(out@ =~= join_words(words(seq.take(i + 1))));
            }
        }
    }
    proof {
        assert(seq.take(seq.len() as int) =~= seq);
    }
    out
}

} // verus!
