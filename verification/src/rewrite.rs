//! Rewriting one cue sheet: from its bytes and the extensions found beside it
//! to the bytes that have to be written back, if any.

use crate::encoding::{
    decode_with_fallback, decoded_text, detected_encoding, TextEncoding, MAX_DECODE_LEN,
};
use crate::replace::{
    contains_wav, lemma_replace_changes_iff_wav, lemma_replace_idempotent,
    lemma_replace_leaves_no_wav, lemma_replace_without_wav, replace_wav, replace_wav_in,
};
use crate::siblings::{
    choose_replacement, chosen_replacement, inspect_siblings, siblings_of, Replacement, Siblings,
};
use crate::text::same_text;
use vstd::prelude::*;
use vstd::string::*;
use vstd::utf8::*;

verus! {

/// What rewriting a decoded text came to.
#[derive(Debug)]
pub struct TextRewrite {
    /// The replacement that the siblings called for, whether or not the text
    /// held anything to replace.
    pub replacement: Option<Replacement>,
    /// The new content of the file, where the text changed: the rewritten
    /// text as UTF-8. `None` where the file is to be left alone.
    pub output: Option<Vec<u8>>,
}

/// What rewriting a cue sheet came to.
#[derive(Debug)]
pub struct Rewrite {
    /// The encoding under which the sheet was read.
    pub encoding: TextEncoding,
    /// The replacement that the siblings called for, whether or not the text
    /// held anything to replace.
    pub replacement: Option<Replacement>,
    /// The new content of the file, where it differs from the old: the
    /// rewritten text as UTF-8. `None` where the file is to be left alone.
    pub output: Option<Vec<u8>>,
}

/// The text after the chosen replacement, if any, was applied to it.
pub open spec fn rewritten_text(text: Seq<char>, choice: Option<Replacement>) -> Seq<char> {
    match choice {
        Some(r) => replace_wav(text, r.extension_spec()),
        None => text,
    }
}

/// The bytes that are written back for a file that was read as `text`: the
/// rewritten text as UTF-8 where rewriting changed the text, nothing where it
/// did not.
pub open spec fn written_text(text: Seq<char>, choice: Option<Replacement>) -> Option<Seq<u8>> {
    let new_text = rewritten_text(text, choice);
    if new_text == text {
        None
    } else {
        Some(encode_utf8(new_text))
    }
}

/// The bytes that are written back to a file that holds `bytes`, if any.
pub open spec fn written_bytes(bytes: Seq<u8>, choice: Option<Replacement>) -> Option<Seq<u8>> {
    written_text(decoded_text(bytes), choice)
}

/// What a file that held `bytes` holds once it was processed.
pub open spec fn content_after(bytes: Seq<u8>, choice: Option<Replacement>) -> Seq<u8> {
    match written_bytes(bytes, choice) {
        Some(new_bytes) => new_bytes,
        None => bytes,
    }
}

/// Applies the chosen replacement to a text: every `.wav` becomes the chosen
/// extension; without a choice the text stays as it is.
pub fn rewrite_text(text: &str, choice: Option<Replacement>) -> (new_text: String)
    ensures
        new_text@ == rewritten_text(text@, choice),
{
    match choice {
        Some(r) => replace_wav_in(text, r.extension()),
        None => text.to_owned(),
    }
}

/// Rewrites the text of a cue sheet, given the extension of each entry of its
/// directory (`None` for an entry without one). The replacement is chosen from
/// the extensions, and the result holds new content exactly where the text
/// changed.
pub fn rewrite_decoded(text: &str, sibling_extensions: &Vec<Option<String>>) -> (done: TextRewrite)
    ensures
        done.replacement == chosen_replacement(siblings_of(sibling_extensions.deep_view())),
        done.output is Some <==> written_text(text@, done.replacement) is Some,
        done.output matches Some(new_bytes) ==> written_text(text@, done.replacement) == Some(
            new_bytes@,
        ),
{
    let siblings = inspect_siblings(sibling_extensions);
    let replacement = choose_replacement(siblings);
    let new_text = rewrite_text(text, replacement);
    let output = if same_text(new_text.as_str(), text) {
        None
    } else {
        Some(new_text.as_str().as_bytes_vec())
    };
    TextRewrite { replacement, output }
}

/// Rewrites one cue sheet, given its bytes and the extension of each entry of
/// its directory (`None` for an entry without one): the bytes are read as
/// text, and the text is rewritten.
pub fn rewrite_cue(bytes: &[u8], sibling_extensions: &Vec<Option<String>>) -> (done: Rewrite)
    requires
        bytes@.len() <= MAX_DECODE_LEN,
    ensures
        done.encoding == detected_encoding(bytes@),
        done.replacement == chosen_replacement(siblings_of(sibling_extensions.deep_view())),
        done.output is Some <==> written_bytes(bytes@, done.replacement) is Some,
        done.output matches Some(new_bytes) ==> written_bytes(bytes@, done.replacement) == Some(
            new_bytes@,
        ),
{
    let (text, encoding) = decode_with_fallback(bytes);
    let rewritten = rewrite_decoded(text.as_str(), sibling_extensions);
    Rewrite { encoding, replacement: rewritten.replacement, output: rewritten.output }
}

/// A file whose text holds no `.wav` is left alone, whatever stands beside it.
pub proof fn lemma_without_wav_nothing_is_written(bytes: Seq<u8>, siblings: Siblings)
    requires
        !contains_wav(decoded_text(bytes)),
    ensures
        written_bytes(bytes, chosen_replacement(siblings)) is None,
        content_after(bytes, chosen_replacement(siblings)) == bytes,
{
    match chosen_replacement(siblings) {
        Some(r) => lemma_replace_without_wav(decoded_text(bytes), r.extension_spec()),
        None => {},
    }
}

/// Beside a FLAC file every `.wav` becomes `.flac`, whether or not an APE file
/// is there too, and no `.wav` is left in the text.
pub proof fn lemma_flac_takes_precedence(text: Seq<char>, siblings: Siblings)
    requires
        siblings.has_flac,
    ensures
        chosen_replacement(siblings) == Some(Replacement::Flac),
        rewritten_text(text, chosen_replacement(siblings)) == replace_wav(
            text,
            seq!['.', 'f', 'l', 'a', 'c'],
        ),
        !contains_wav(rewritten_text(text, chosen_replacement(siblings))),
{
    Replacement::Flac.lemma_is_extension();
    lemma_replace_leaves_no_wav(text, Replacement::Flac.extension_spec());
}

/// Beside an APE file and no FLAC file every `.wav` becomes `.ape`, and no
/// `.wav` is left in the text.
pub proof fn lemma_ape_without_flac(text: Seq<char>, siblings: Siblings)
    requires
        siblings.has_ape,
        !siblings.has_flac,
    ensures
        chosen_replacement(siblings) == Some(Replacement::Ape),
        rewritten_text(text, chosen_replacement(siblings)) == replace_wav(
            text,
            seq!['.', 'a', 'p', 'e'],
        ),
        !contains_wav(rewritten_text(text, chosen_replacement(siblings))),
{
    Replacement::Ape.lemma_is_extension();
    lemma_replace_leaves_no_wav(text, Replacement::Ape.extension_spec());
}

/// With neither format beside it a file is left alone, whatever it holds.
pub proof fn lemma_without_siblings_nothing_is_written(bytes: Seq<u8>, siblings: Siblings)
    requires
        !siblings.has_flac,
        !siblings.has_ape,
    ensures
        chosen_replacement(siblings) is None,
        written_bytes(bytes, chosen_replacement(siblings)) is None,
        content_after(bytes, chosen_replacement(siblings)) == bytes,
{
}

/// Beside a FLAC or an APE file, a file is written back exactly where its text
/// holds `.wav`.
pub proof fn lemma_written_iff_wav(bytes: Seq<u8>, siblings: Siblings)
    requires
        siblings.has_flac || siblings.has_ape,
    ensures
        written_bytes(bytes, chosen_replacement(siblings)) is Some <==> contains_wav(
            decoded_text(bytes),
        ),
{
    let r = chosen_replacement(siblings)->0;
    let text = decoded_text(bytes);
    r.lemma_is_extension();
    lemma_replace_changes_iff_wav(text, r.extension_spec());
}

/// Processing a file a second time, beside the same siblings, writes nothing:
/// the file holds after two runs what it held after one.
pub proof fn lemma_second_run_writes_nothing(bytes: Seq<u8>, siblings: Siblings)
    ensures
        written_bytes(
            content_after(bytes, chosen_replacement(siblings)),
            chosen_replacement(siblings),
        ) is None,
        content_after(
            content_after(bytes, chosen_replacement(siblings)),
            chosen_replacement(siblings),
        ) == content_after(bytes, chosen_replacement(siblings)),
{
    let choice = chosen_replacement(siblings);
    match choice {
        Some(r) => {
            let text = decoded_text(bytes);
            let new_text = rewritten_text(text, choice);
            r.lemma_is_extension();
            lemma_replace_idempotent(text, r.extension_spec());
            if new_text != text {
                encode_utf8_valid_utf8(new_text);
                encode_utf8_decode_utf8(new_text);
                assert(decoded_text(encode_utf8(new_text)) == new_text);
            }
        },
        None => {},
    }
}

} // verus!
