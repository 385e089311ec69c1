//! Wallet addresses and the syntax rule that admits them.

use vstd::prelude::*;

verus! {

/// Fewest characters in an address.
pub const MIN_ADDRESS_LEN: usize = 32;

/// Most characters in an address.
pub const MAX_ADDRESS_LEN: usize = 44;

/// The base58 alphabet: digits and letters without `0`, `O`, `I` and `l`.
pub open spec fn is_base58_char(c: char) -> bool {
    ||| '1' <= c <= '9'
    ||| 'A' <= c <= 'H'
    ||| 'J' <= c <= 'N'
    ||| 'P' <= c <= 'Z'
    ||| 'a' <= c <= 'k'
    ||| 'm' <= c <= 'z'
}

/// The address syntax rule: between 32 and 44 characters, all of them base58.
/// In particular the empty string is no address.
pub open spec fn valid_address(text: Seq<char>) -> bool {
    &&& MIN_ADDRESS_LEN <= text.len() <= MAX_ADDRESS_LEN
    &&& forall|i: int| 0 <= i < text.len() ==> is_base58_char(#[trigger] text[i])
}

/// Tells whether `c` belongs to the base58 alphabet.
pub fn base58_char(c: char) -> (yes: bool)
    ensures
        yes == is_base58_char(c),
{
    ('1' <= c && c <= '9') || ('A' <= c && c <= 'H') || ('J' <= c && c <= 'N') || ('P' <= c && c
        <= 'Z') || ('a' <= c && c <= 'k') || ('m' <= c && c <= 'z')
}

/// Tells whether `raw` obeys the address syntax rule.
pub fn check_syntax(raw: &str) -> (yes: bool)
    ensures
        yes == valid_address(raw@),
{
    let n: usize = raw.unicode_len();
    if n < MIN_ADDRESS_LEN || n > MAX_ADDRESS_LEN {
        return false;
    }
    let mut i: usize = 0;
    while i < n
        invariant
            n == raw@.len(),
            i <= n,
            forall|j: int| 0 <= j < i ==> is_base58_char(#[trigger] raw@[j]),
        decreases n - i,
    {
        if !base58_char(raw.get_char(i)) {
            return false;
        }
        i += 1;
    }
    true
}

/// A wallet address that has passed the syntax rule. The text is fixed at
/// construction.
#[derive(Debug, PartialEq, Eq, Hash)]
pub struct Address {
    text: String,
}

impl View for Address {
    type V = Seq<char>;

    closed spec fn view(&self) -> Seq<char> {
        self.text@
    }
}

impl Clone for Address {
    fn clone(&self) -> (copy: Address)
        ensures
            copy@ == self@,
    {
        proof {
            use_type_invariant(self);
        }
        Address { text: self.text.clone() }
    }
}

impl Address {
    #[verifier::type_invariant]
    spec fn well_formed(&self) -> bool {
        valid_address(self.text@)
    }

    /// Admits `raw` as an address exactly when it obeys the syntax rule, and
    /// keeps its text unchanged.
    pub fn parse(raw: &str) -> (parsed: Option<Address>)
        ensures
            parsed is Some <==> valid_address(raw@),
            parsed matches Some(address) ==> address@ == raw@,
    {
        if check_syntax(raw) {
            Some(Address { text: raw.to_owned() })
        } else {
            None
        }
    }

    /// The address as text, which obeys the syntax rule.
    pub fn as_str(&self) -> (text: &str)
        ensures
            text@ == self@,
            valid_address(text@),
    {
        proof {
            use_type_invariant(self);
        }
        self.text.as_str()
    }

}

} // verus!
