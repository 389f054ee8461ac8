//! The sign-in token shared by the Hardwave plug-ins, as read back from the
//! token file.

use vstd::prelude::*;
use crate::text::{chars_of, lemma_trim_shape, text_slice, trim, trim_range, white_space};

verus! {

/// The token held in a token file with contents `contents`: the contents
/// without surrounding white space, or no token when nothing is left.
pub open spec fn spec_token_in(contents: Seq<char>) -> Option<Seq<char>> {
    let t = trim(contents);
    if t.len() == 0 {
        None
    } else {
        Some(t)
    }
}

/// The token held in a token file with contents `contents`.
pub fn token_from_contents(contents: &str) -> (token: Option<String>)
    ensures
        match token {
            Some(t) => spec_token_in(contents@) == Some(t@),
            None => spec_token_in(contents@) is None,
        },
{
    let v = chars_of(contents);
    let (a, b) = trim_range(&v, 0, v.len());
    proof {
        assert(v@.subrange(0, v@.len() as int) =~= v@);
    }
    if a == b {
        None
    } else {
        Some(text_slice(contents, a, b))
    }
}

/// A token file holds a token exactly when it holds something besides white
/// space, whatever its length; the token is the contents with the white
/// space at both ends removed (a part `contents[a..b]` with only white space
/// outside it), and it neither starts nor ends with white space.
pub proof fn lemma_token_is_trimmed_contents(contents: Seq<char>)
    ensures
        spec_token_in(contents) is None <==> forall|i: int|
            0 <= i < contents.len() ==> white_space(#[trigger] contents[i]),
        (exists|i: int| 0 <= i < contents.len() && !white_space(#[trigger] contents[i]))
            ==> spec_token_in(contents) == Some(trim(contents)),
        spec_token_in(contents) matches Some(t) ==> {
            &&& t.len() > 0
            &&& !white_space(t[0])
            &&& !white_space(t.last())
            &&& exists|a: int, b: int|
                0 <= a <= b <= contents.len() && t == contents.subrange(a, b) && (forall|j: int|
                    0 <= j < a ==> white_space(#[trigger] contents[j])) && (forall|j: int|
                    b <= j < contents.len() ==> white_space(#[trigger] contents[j]))
        },
{
    let (a, b) = lemma_trim_shape(contents);
    if exists|i: int| 0 <= i < contents.len() && !white_space(#[trigger] contents[i]) {
        let i = choose|i: int| 0 <= i < contents.len() && !white_space(#[trigger] contents[i]);
        assert(trim(contents).len() > 0);
    }
}

} // verus!
