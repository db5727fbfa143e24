//! Minting of session and request tokens.

use vstd::prelude::*;

verus! {

/// The number of characters of a token.
pub const ID_LENGTH: usize = 25;

/// The characters that a token is drawn from: the digits and the lower-case
/// letters.
pub open spec fn id_charset() -> Seq<char> {
    "0123456789abcdefghijklmnopqrstuvwxyz"@
}

/// Whether `token` has the shape of a minted token: twenty-five characters,
/// each a digit or a lower-case letter. Such a token is never empty.
pub open spec fn is_id(token: Seq<char>) -> bool {
    &&& token.len() == ID_LENGTH
    &&& forall|i: int| 0 <= i < token.len() ==> id_charset().contains(#[trigger] token[i])
}

/// `random_string::generate`: a string of `length` characters, each drawn
/// at random from `charset`. Nothing is claimed about which characters come
/// out, only their number and that each occurs in the charset. The outside
/// function panics on an empty charset, and it reserves the whole length at
/// once.
#[verifier::external_body]
fn random_text(length: usize, charset: &str) -> (text: String)
    requires
        charset@.len() > 0,
        length <= isize::MAX,
    ensures
        text@.len() == length,
        forall|i: int| 0 <= i < text@.len() ==> charset@.contains(#[trigger] text@[i]),
{
    random_string::generate(length, charset)
}

/// Mints a token. With 36 characters to choose from at each of 25 places a
/// token carries about 128 bits of entropy.
pub fn generate_id() -> (id: String)
    ensures
        is_id(id@),
{
    let character_set = "0123456789abcdefghijklmnopqrstuvwxyz";
    proof {
        reveal_strlit("0123456789abcdefghijklmnopqrstuvwxyz");
    }
    random_text(ID_LENGTH, character_set)
}

/// A token of the minted shape exists: the one made of zeros.
pub proof fn lemma_id_exists() -> (token: Seq<char>)
    ensures
        is_id(token),
{
    reveal_strlit("0123456789abcdefghijklmnopqrstuvwxyz");
    let token = Seq::new(ID_LENGTH as nat, |i: int| '0');
    assert(id_charset()[0] == '0');
    assert forall|i: int| 0 <= i < token.len() implies id_charset().contains(
        #[trigger] token[i],
    ) by {
        assert(token[i] == id_charset()[0]);
    }
    token
}

} // verus!
