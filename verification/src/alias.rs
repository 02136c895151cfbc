//! Names for transports and services.

use vstd::prelude::*;

verus! {

/// What names one transport or one service of a node.
pub type Alias = String;

/// An alias is made of this many characters.
pub const ALIAS_LEN: usize = 32;

pub open spec fn is_lower_hex(c: char) -> bool {
    ('0' <= c && c <= '9') || ('a' <= c && c <= 'f')
}

/// The shape of every alias: [`ALIAS_LEN`] digits in base sixteen, in lower
/// case.
pub open spec fn is_alias(text: Seq<char>) -> bool {
    &&& text.len() == ALIAS_LEN
    &&& forall|i: int| 0 <= i < text.len() ==> is_lower_hex(#[trigger] text[i])
}

/// A new alias, drawn at random: `ockam_core::Address::random` with the
/// local address type, without that type. The address is sixteen random
/// bytes written by `hex::encode`, so it has the shape [`is_alias`]. Two
/// calls may give the same alias: nothing is promised against that.
#[verifier::external_body]
pub(crate) fn random_alias() -> (alias: Alias)
    ensures
        is_alias(alias@),
{
    let address = ockam_core::Address::random(0);
    String::from_utf8_lossy(&address).into_owned()
}

} // verus!
