use cue_rewriter::encoding::TextEncoding;
use cue_rewriter::rewrite::{rewrite_cue, rewrite_decoded};
use cue_rewriter::siblings::{choose_replacement, inspect_siblings, Replacement, Siblings};

fn extensions(names: &[Option<&str>]) -> Vec<Option<String>> {
    names.iter().map(|e| e.map(|s| s.to_string())).collect()
}

#[test]
fn sheet_beside_a_flac_file_is_rewritten() {
    let siblings = extensions(&[Some("cue"), Some("flac")]);
    let done = rewrite_cue(b"FILE \"album.wav\" WAVE", &siblings);
    assert_eq!(done.encoding, TextEncoding::Utf8);
    assert_eq!(done.replacement, Some(Replacement::Flac));
    assert_eq!(done.output, Some(b"FILE \"album.flac\" WAVE".to_vec()));
}

#[test]
fn windows_1252_sheet_without_siblings_is_left_alone() {
    let siblings = extensions(&[Some("cue"), Some("txt"), None]);
    let done = rewrite_cue(b"TITLE \"Don\x92t\"\nFILE \"album.wav\" WAVE", &siblings);
    assert_eq!(done.encoding, TextEncoding::Windows1252);
    assert_eq!(done.replacement, None);
    assert_eq!(done.output, None);
}

#[test]
fn windows_1252_sheet_is_written_back_as_utf8() {
    let siblings = extensions(&[Some("ape")]);
    let done = rewrite_cue(b"TITLE \"Don\x92t\"\nFILE \"album.wav\" WAVE", &siblings);
    assert_eq!(done.encoding, TextEncoding::Windows1252);
    assert_eq!(done.replacement, Some(Replacement::Ape));
    assert_eq!(
        done.output,
        Some("TITLE \"Don\u{2019}t\"\nFILE \"album.ape\" WAVE".as_bytes().to_vec())
    );
}

#[test]
fn windows_1252_sheet_without_wav_is_not_reencoded() {
    let siblings = extensions(&[Some("flac")]);
    let done = rewrite_cue(b"TITLE \"Don\x92t\"", &siblings);
    assert_eq!(done.encoding, TextEncoding::Windows1252);
    assert_eq!(done.replacement, Some(Replacement::Flac));
    assert_eq!(done.output, None);
}

#[test]
fn sheet_without_wav_is_left_alone() {
    for siblings in [
        extensions(&[]),
        extensions(&[Some("flac")]),
        extensions(&[Some("ape")]),
        extensions(&[Some("ape"), Some("flac")]),
    ] {
        let done = rewrite_cue(b"FILE \"album.mp3\" MP3", &siblings);
        assert_eq!(done.encoding, TextEncoding::Utf8);
        assert_eq!(done.output, None);
    }
}

#[test]
fn flac_takes_precedence_over_ape() {
    for siblings in [
        extensions(&[Some("ape"), Some("flac")]),
        extensions(&[Some("flac"), Some("ape")]),
    ] {
        let done = rewrite_cue(b"a.wav b.wav", &siblings);
        assert_eq!(done.replacement, Some(Replacement::Flac));
        assert_eq!(done.output, Some(b"a.flac b.flac".to_vec()));
    }
}

#[test]
fn ape_alone_is_used() {
    let siblings = extensions(&[None, Some("ape"), Some("jpg")]);
    let done = rewrite_cue(b"a.wav b.wav", &siblings);
    assert_eq!(done.replacement, Some(Replacement::Ape));
    assert_eq!(done.output, Some(b"a.ape b.ape".to_vec()));
}

#[test]
fn neither_sibling_leaves_wav_in_place() {
    let siblings = extensions(&[Some("cue"), Some("wav"), Some("mp3"), None]);
    let done = rewrite_cue(b"a.wav b.wav", &siblings);
    assert_eq!(done.replacement, None);
    assert_eq!(done.output, None);
}

#[test]
fn second_run_writes_nothing() {
    for siblings in [extensions(&[Some("flac")]), extensions(&[Some("ape")]), extensions(&[])] {
        for bytes in [&b"a.wav ..wavwav .wa.wav"[..], &b"Don\x92t.wav"[..], &b"nothing"[..]] {
            let first = rewrite_cue(bytes, &siblings);
            let after_first = match first.output {
                Some(new_bytes) => new_bytes,
                None => bytes.to_vec(),
            };
            let second = rewrite_cue(&after_first, &siblings);
            assert_eq!(second.output, None);
            assert_eq!(second.replacement, first.replacement);
        }
    }
}

#[test]
fn empty_sheet_is_left_alone() {
    let done = rewrite_cue(b"", &extensions(&[Some("flac")]));
    assert_eq!(done.encoding, TextEncoding::Utf8);
    assert_eq!(done.replacement, Some(Replacement::Flac));
    assert_eq!(done.output, None);
}

#[test]
fn sibling_extensions_are_case_sensitive() {
    let found = inspect_siblings(&extensions(&[Some("FLAC"), Some("Ape"), Some("flacc"), None]));
    assert_eq!(found, Siblings { has_flac: false, has_ape: false });
}

#[test]
fn siblings_are_found_independently() {
    assert_eq!(inspect_siblings(&extensions(&[])), Siblings { has_flac: false, has_ape: false });
    assert_eq!(
        inspect_siblings(&extensions(&[Some("flac")])),
        Siblings { has_flac: true, has_ape: false }
    );
    assert_eq!(
        inspect_siblings(&extensions(&[Some("txt"), Some("ape")])),
        Siblings { has_flac: false, has_ape: true }
    );
    assert_eq!(
        inspect_siblings(&extensions(&[Some("ape"), None, Some("flac"), Some("flac")])),
        Siblings { has_flac: true, has_ape: true }
    );
}

#[test]
fn replacement_is_chosen_by_priority() {
    assert_eq!(
        choose_replacement(Siblings { has_flac: true, has_ape: true }),
        Some(Replacement::Flac)
    );
    assert_eq!(
        choose_replacement(Siblings { has_flac: true, has_ape: false }),
        Some(Replacement::Flac)
    );
    assert_eq!(
        choose_replacement(Siblings { has_flac: false, has_ape: true }),
        Some(Replacement::Ape)
    );
    assert_eq!(choose_replacement(Siblings { has_flac: false, has_ape: false }), None);
}

#[test]
fn decoded_text_is_rewritten_beside_a_flac_file() {
    let done = rewrite_decoded("Don\u{2019}t.wav", &extensions(&[Some("flac")]));
    assert_eq!(done.replacement, Some(Replacement::Flac));
    assert_eq!(done.output, Some("Don\u{2019}t.flac".as_bytes().to_vec()));
}

#[test]
fn decoded_text_without_wav_is_left_alone() {
    let done = rewrite_decoded("Don\u{2019}t.mp3", &extensions(&[Some("ape")]));
    assert_eq!(done.replacement, Some(Replacement::Ape));
    assert_eq!(done.output, None);
}
