//! Replacing `.wav` in a text, and what is known of the result.

use vstd::prelude::*;
use vstd::std_specs::iter::IteratorSpec;
use vstd::string::*;

verus! {

/// Whether the four characters `.wav` stand in `text` from position `i` on.
pub open spec fn wav_at(text: Seq<char>, i: int) -> bool {
    &&& 0 <= i
    &&& i + 4 <= text.len()
    &&& text[i] == '.'
    &&& text[i + 1] == 'w'
    &&& text[i + 2] == 'a'
    &&& text[i + 3] == 'v'
}

/// Whether `.wav` occurs anywhere in `text`.
pub open spec fn contains_wav(text: Seq<char>) -> bool {
    exists|i: int| wav_at(text, i)
}

/// `text` with every occurrence of `.wav` replaced by `with`, reading from the
/// left. Occurrences of `.wav` cannot overlap, so every one of them is
/// replaced.
pub open spec fn replace_wav(text: Seq<char>, with: Seq<char>) -> Seq<char>
    decreases text.len(),
{
    if text.len() == 0 {
        text
    } else if wav_at(text, 0) {
        with + replace_wav(text.skip(4), with)
    } else {
        seq![text[0]] + replace_wav(text.skip(1), with)
    }
}

/// What the results below ask of a replacement: it starts like `.wav` with a
/// dot, goes on with something other than `w`, and holds no second dot. `.flac`
/// and `.ape` are of this kind.
pub open spec fn is_extension(with: Seq<char>) -> bool {
    &&& with.len() >= 2
    &&& with[0] == '.'
    &&& with[1] != 'w'
    &&& forall|j: int| 1 <= j < with.len() ==> with[j] != '.'
}

/// Trusted: `String::push` appends the character to the end of the string.
pub assume_specification[ String::push ](s: &mut String, c: char)
    ensures
        final(s)@ == old(s)@.push(c),
;

/// The characters of a string, in order.
fn chars_of(text: &str) -> (chars: Vec<char>)
    ensures
        chars@ == text@,
{
    broadcast use group_string_axioms;

    let mut it = text.chars();
    let mut chars: Vec<char> = Vec::new();
    loop
        invariant
            it.obeys_prophetic_iter_laws(),
            it.decrease() is Some,
            chars@ + it.remaining() == text@,
        ensures
            chars@ == text@,
        decreases it.decrease()->0,
    {
        let ghost seen = chars@;
        let ghost ahead = it.remaining();
        match it.next() {
            Some(c) => {
                chars.push(c);
                assert(chars@ + it.remaining() =~= seen + ahead);
            },
            None => {
                assert(chars@ + it.remaining() =~= chars@);
                break ;
            },
        }
    }
    chars
}

/// Replaces every occurrence of `.wav` in `text` by `with`.
pub fn replace_wav_in(text: &str, with: &str) -> (out: String)
    ensures
        out@ == replace_wav(text@, with@),
{
    let chars = chars_of(text);
    let n = chars.len();
    let mut out = String::new();
    let mut i: usize = 0;
    assert(chars@.skip(0) =~= chars@);
    assert(out@ + replace_wav(chars@, with@) =~= replace_wav(chars@, with@));
    while i < n
        invariant
            i <= n,
            n == chars@.len(),
            out@ + replace_wav(chars@.skip(i as int), with@) == replace_wav(chars@, with@),
        decreases n - i,
    {
        let ghost rest = chars@.skip(i as int);
        let ghost done = out@;
        if n - i >= 4 && chars[i] == '.' && chars[i + 1] == 'w' && chars[i + 2] == 'a' && chars[i
            + 3] == 'v' {
            out.append(with);
            proof {
                assert(wav_at(rest, 0));
                assert(rest.skip(4) =~= chars@.skip(i + 4));
                assert(out@ + replace_wav(rest.skip(4), with@) =~= done + replace_wav(
                    rest,
                    with@,
                ));
            }
            i += 4;
        } else {
            out.push(chars[i]);
            proof {
                assert(!wav_at(rest, 0));
                assert(rest.skip(1) =~= chars@.skip(i + 1));
                assert(out@ + replace_wav(rest.skip(1), with@) =~= done + replace_wav(
                    rest,
                    with@,
                ));
            }
            i += 1;
        }
    }
    assert(chars@.skip(n as int) =~= Seq::<char>::empty());
    assert(out@ + Seq::<char>::empty() =~= out@);
    out
}

/// A replacement leaves the first character of a text as it is: where the text
/// starts with `.wav`, the replacement starts with a dot too.
pub proof fn lemma_replace_keeps_first(text: Seq<char>, with: Seq<char>)
    requires
        is_extension(with),
        text.len() > 0,
    ensures
        replace_wav(text, with).len() > 0,
        replace_wav(text, with)[0] == text[0],
{
}

/// The result of a replacement does not start with `.wav`.
pub proof fn lemma_replace_head(text: Seq<char>, with: Seq<char>)
    requires
        is_extension(with),
    ensures
        !wav_at(replace_wav(text, with), 0),
{
    let r = replace_wav(text, with);
    if text.len() > 0 && !wav_at(text, 0) && wav_at(r, 0) {
        let t1 = text.skip(1);
        let r1 = replace_wav(t1, with);
        assert(r =~= seq![text[0]] + r1);
        assert(r1[0] == r[1] && r1[1] == r[2] && r1[2] == r[3]);
        assert(t1.len() > 0);
        lemma_replace_keeps_first(t1, with);
        assert(!wav_at(t1, 0));
        let t2 = t1.skip(1);
        let r2 = replace_wav(t2, with);
        assert(r1 =~= seq![t1[0]] + r2);
        assert(r2[0] == r1[1] && r2[1] == r1[2]);
        assert(t2.len() > 0);
        lemma_replace_keeps_first(t2, with);
        assert(!wav_at(t2, 0));
        let t3 = t2.skip(1);
        let r3 = replace_wav(t3, with);
        assert(r2 =~= seq![t2[0]] + r3);
        assert(r3[0] == r2[1]);
        assert(t3.len() > 0);
        lemma_replace_keeps_first(t3, with);
        assert(text[1] == t1[0] && text[2] == t2[0] && text[3] == t3[0]);
        assert(wav_at(text, 0));
    }
}

/// After a replacement no `.wav` is left, at any position.
pub proof fn lemma_replace_leaves_no_wav(text: Seq<char>, with: Seq<char>)
    requires
        is_extension(with),
    ensures
        !contains_wav(replace_wav(text, with)),
    decreases text.len(),
{
    let r = replace_wav(text, with);
    if text.len() > 0 {
        let (chunk, rest) = if wav_at(text, 0) {
            (with, text.skip(4))
        } else {
            (seq![text[0]], text.skip(1))
        };
        let tail = replace_wav(rest, with);
        assert(r =~= chunk + tail);
        lemma_replace_leaves_no_wav(rest, with);
        lemma_replace_head(text, with);
        assert forall|j: int| !wav_at(r, j) by {
            if wav_at(r, j) {
                if j >= chunk.len() {
                    assert(wav_at(tail, j - chunk.len()));
                } else if j > 0 {
                    assert(r[j] == with[j]);
                }
            }
        }
    }
}

/// A text without `.wav` is its own replacement.
pub proof fn lemma_replace_without_wav(text: Seq<char>, with: Seq<char>)
    requires
        !contains_wav(text),
    ensures
        replace_wav(text, with) == text,
    decreases text.len(),
{
    if text.len() > 0 {
        let rest = text.skip(1);
        assert(!wav_at(text, 0));
        assert forall|j: int| !wav_at(rest, j) by {
            if wav_at(rest, j) {
                assert(wav_at(text, j + 1));
            }
        }
        lemma_replace_without_wav(rest, with);
        assert(seq![text[0]] + rest =~= text);
    }
}

/// Replacing twice gives what replacing once gives.
pub proof fn lemma_replace_idempotent(text: Seq<char>, with: Seq<char>)
    requires
        is_extension(with),
    ensures
        replace_wav(replace_wav(text, with), with) == replace_wav(text, with),
{
    lemma_replace_leaves_no_wav(text, with);
    lemma_replace_without_wav(replace_wav(text, with), with);
}

/// A replacement changes a text exactly where the text holds `.wav`.
pub proof fn lemma_replace_changes_iff_wav(text: Seq<char>, with: Seq<char>)
    requires
        is_extension(with),
    ensures
        replace_wav(text, with) != text <==> contains_wav(text),
{
    lemma_replace_leaves_no_wav(text, with);
    if !contains_wav(text) {
        lemma_replace_without_wav(text, with);
    }
}

} // verus!
