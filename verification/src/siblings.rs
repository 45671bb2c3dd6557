//! What stands beside a cue sheet, and the replacement it calls for.

use crate::replace::is_extension;
use crate::text::same_text;
use vstd::prelude::*;

verus! {

/// Which of the two audio formats were found in the directory of a cue sheet.
#[derive(Clone, Copy, Debug, PartialEq, Eq, Structural)]
pub struct Siblings {
    pub has_flac: bool,
    pub has_ape: bool,
}

/// The extension that takes the place of `.wav`.
#[derive(Clone, Copy, Debug, PartialEq, Eq, Structural)]
pub enum Replacement {
    Flac,
    Ape,
}

impl Replacement {
    /// The extension as it is written into the text, dot included.
    pub open spec fn extension_spec(self) -> Seq<char> {
        match self {
            Replacement::Flac => seq!['.', 'f', 'l', 'a', 'c'],
            Replacement::Ape => seq!['.', 'a', 'p', 'e'],
        }
    }

    /// The extension as it is written into the text, dot included.
    pub fn extension(self) -> (ext: &'static str)
        ensures
            ext@ == self.extension_spec(),
    {
        proof {
            reveal_strlit(".flac");
            reveal_strlit(".ape");
            assert(".flac"@ =~= Replacement::Flac.extension_spec());
            assert(".ape"@ =~= Replacement::Ape.extension_spec());
        }
        match self {
            Replacement::Flac => ".flac",
            Replacement::Ape => ".ape",
        }
    }

    /// Both extensions start with a dot, go on with a letter other than `w`
    /// and hold no second dot.
    pub proof fn lemma_is_extension(self)
        ensures
            is_extension(self.extension_spec()),
    {
    }
}

/// The extension `flac`, without the dot.
pub open spec fn flac_extension() -> Seq<char> {
    seq!['f', 'l', 'a', 'c']
}

/// The extension `ape`, without the dot.
pub open spec fn ape_extension() -> Seq<char> {
    seq!['a', 'p', 'e']
}

/// Whether one of the extensions is `wanted`, letter for letter.
pub open spec fn has_extension(extensions: Seq<Option<Seq<char>>>, wanted: Seq<char>) -> bool {
    exists|i: int| 0 <= i < extensions.len() && #[trigger] extensions[i] == Some(wanted)
}

/// What a directory listing holds of the two formats, given the extension of
/// each entry (`None` for an entry without one).
pub open spec fn siblings_of(extensions: Seq<Option<Seq<char>>>) -> Siblings {
    Siblings {
        has_flac: has_extension(extensions, flac_extension()),
        has_ape: has_extension(extensions, ape_extension()),
    }
}

/// Among the first `i + 1` extensions one is `wanted` exactly if one of the
/// first `i` is, or the one after them.
proof fn lemma_has_extension_step(extensions: Seq<Option<Seq<char>>>, wanted: Seq<char>, i: int)
    requires
        0 <= i < extensions.len(),
    ensures
        has_extension(extensions.take(i + 1), wanted) == (has_extension(
            extensions.take(i),
            wanted,
        ) || extensions[i] == Some(wanted)),
{
    let shorter = extensions.take(i);
    let longer = extensions.take(i + 1);
    if has_extension(shorter, wanted) {
        let j = choose|j: int| 0 <= j < shorter.len() && #[trigger] shorter[j] == Some(wanted);
        assert(longer[j] == Some(wanted));
    }
    if extensions[i] == Some(wanted) {
        assert(longer[i] == Some(wanted));
    }
    if has_extension(longer, wanted) {
        let j = choose|j: int| 0 <= j < longer.len() && #[trigger] longer[j] == Some(wanted);
        if j < i {
            assert(shorter[j] == Some(wanted));
        }
    }
}

/// Looks through the extensions of a directory's entries, once, for `flac` and
/// for `ape`. The extensions are compared letter for letter.
pub fn inspect_siblings(extensions: &Vec<Option<String>>) -> (found: Siblings)
    ensures
        found == siblings_of(extensions.deep_view()),
{
    proof {
        reveal_strlit("flac");
        reveal_strlit("ape");
        assert("flac"@ =~= flac_extension());
        assert("ape"@ =~= ape_extension());
    }
    let ghost all = extensions.deep_view();
    let mut has_flac = false;
    let mut has_ape = false;
    let n = extensions.len();
    let mut i: usize = 0;
    while i < n
        invariant
            i <= n,
            n == extensions@.len(),
            all == extensions.deep_view(),
            "flac"@ == flac_extension(),
            "ape"@ == ape_extension(),
            has_flac == has_extension(all.take(i as int), flac_extension()),
            has_ape == has_extension(all.take(i as int), ape_extension()),
        decreases n - i,
    {
        proof {
            lemma_has_extension_step(all, flac_extension(), i as int);
            lemma_has_extension_step(all, ape_extension(), i as int);
        }
        match &extensions[i] {
            Some(e) => {
                if same_text(e.as_str(), "flac") {
                    has_flac = true;
                }
                if same_text(e.as_str(), "ape") {
                    has_ape = true;
                }
            },
            None => {},
        }
        i += 1;
    }
    assert(all.take(n as int) =~= all);
    Siblings { has_flac, has_ape }
}

/// The replacement that the siblings call for: `.flac` where a FLAC file was
/// found, whatever else is there; `.ape` where only an APE file was; none
/// where neither was.
pub open spec fn chosen_replacement(siblings: Siblings) -> Option<Replacement> {
    if siblings.has_flac {
        Some(Replacement::Flac)
    } else if siblings.has_ape {
        Some(Replacement::Ape)
    } else {
        None
    }
}

/// Picks the replacement that the siblings call for.
pub fn choose_replacement(siblings: Siblings) -> (choice: Option<Replacement>)
    ensures
        choice == chosen_replacement(siblings),
{
    if siblings.has_flac {
        Some(Replacement::Flac)
    } else if siblings.has_ape {
        Some(Replacement::Ape)
    } else {
        None
    }
}

} // verus!
