//! The six-letter code a user types.

use crate::error::VerifyError;
use crate::outside::string_from_ascii;
use constant_time_eq::constant_time_eq;
use vstd::prelude::*;
use vstd::string::StringSliceAdditionalSpecFns;

verus! {

/// Number of letters in a code.
pub const TOKEN_LEN: usize = 6;

/// Size of the alphabet the letters are drawn from.
pub const ALPHABET_LEN: u64 = 26;

/// Whether `b` is an ASCII letter of either case.
pub open spec fn is_letter(b: u8) -> bool {
    (0x41 <= b <= 0x5a) || (0x61 <= b <= 0x7a)
}

/// Whether `b` is an upper-case ASCII letter.
pub open spec fn is_upper(b: u8) -> bool {
    0x41 <= b <= 0x5a
}

/// `b` with a lower-case ASCII letter folded to upper case.
pub open spec fn fold_upper(b: u8) -> u8 {
    if 0x61 <= b <= 0x7a {
        (b - 0x20) as u8
    } else {
        b
    }
}

/// Whether `bytes` has the shape of a code: six ASCII letters.
pub open spec fn well_shaped(bytes: Seq<u8>) -> bool {
    bytes.len() == 6 && forall|i: int| 0 <= i < 6 ==> is_letter(#[trigger] bytes[i])
}

/// The canonical form of a well-shaped code: the same letters in upper case.
pub open spec fn canonical(bytes: Seq<u8>) -> Seq<u8> {
    Seq::new(bytes.len(), |i: int| fold_upper(bytes[i]))
}

/// The integer that the first six bytes of an authentication tag spell,
/// most significant byte first.
pub open spec fn tag_prefix(tag: Seq<u8>) -> nat
    recommends
        tag.len() >= 6,
{
    (((((tag[0] as nat * 256 + tag[1] as nat) * 256 + tag[2] as nat) * 256 + tag[3] as nat) * 256
        + tag[4] as nat) * 256 + tag[5] as nat) as nat
}

/// `accum` after `i` divisions by the alphabet's size.
pub open spec fn shifted(accum: nat, i: nat) -> nat
    decreases i,
{
    if i == 0 {
        accum
    } else {
        shifted(accum, (i - 1) as nat) / 26
    }
}

/// The letters that stand for `accum`, least significant digit first.
pub open spec fn letters_of(accum: nat) -> Seq<u8> {
    Seq::new(6, |i: int| (0x41 + shifted(accum, i as nat) % 26) as u8)
}

/// The code that an authentication tag stands for.
pub open spec fn code_of_tag(tag: Seq<u8>) -> Seq<u8> {
    letters_of(tag_prefix(tag))
}

/// The text that shows `code`: each byte as the character of that number.
pub open spec fn text_of(code: Seq<u8>) -> Seq<char> {
    code.map_values(|b: u8| b as char)
}

/// Whether `code` is six upper-case ASCII letters.
pub open spec fn is_code(code: Seq<u8>) -> bool {
    code.len() == 6 && forall|i: int| 0 <= i < 6 ==> is_upper(#[trigger] code[i])
}

/// A code: six upper-case ASCII letters.
#[derive(Debug)]
pub struct Token {
    chars: [u8; 6],
}

impl View for Token {
    type V = Seq<u8>;

    closed spec fn view(&self) -> Seq<u8> {
        self.chars@
    }
}

impl Token {
    #[verifier::type_invariant]
    spec fn letters_only(self) -> bool {
        is_code(self.chars@)
    }

    /// Reads a code from what the user typed. Lower-case letters are folded
    /// to upper case; anything but six ASCII letters is refused.
    pub fn parse(text: &str) -> (parsed: Result<Token, VerifyError>)
        ensures
            well_shaped(text.spec_bytes()) ==> parsed is Ok && parsed->Ok_0@ == canonical(
                text.spec_bytes(),
            ),
            !well_shaped(text.spec_bytes()) ==> parsed == Err::<Token, VerifyError>(
                VerifyError::MalformedToken,
            ),
    {
        let bytes = text.as_bytes();
        if bytes.len() != TOKEN_LEN {
            return Err(VerifyError::MalformedToken);
        }
        let mut chars = [0u8; 6];
        let mut i: usize = 0;
        while i < TOKEN_LEN
            invariant
                i <= 6,
                bytes@.len() == 6,
                bytes@ == text.spec_bytes(),
                forall|j: int| 0 <= j < i ==> is_letter(#[trigger] bytes@[j]),
                forall|j: int| 0 <= j < i ==> chars@[j] == fold_upper(#[trigger] bytes@[j]),
            decreases 6 - i,
        {
            let byte = bytes[i];
            if byte >= 0x41 && byte <= 0x5a {
                chars[i] = byte;
            } else if byte >= 0x61 && byte <= 0x7a {
                chars[i] = byte - 0x20;
            } else {
                assert(!is_letter(bytes@[i as int]));
                return Err(VerifyError::MalformedToken);
            }
            i += 1;
        }
        assert(chars@ =~= canonical(bytes@));
        Ok(Token { chars })
    }

    /// The code that the authentication tag `tag` stands for: its first six
    /// bytes, read as one big-endian integer, written in base 26 with the
    /// least significant letter first.
    pub fn from_tag(tag: &[u8; 32]) -> (token: Token)
        ensures
            token@ == code_of_tag(tag@),
    {
        let ghost full = tag_prefix(tag@);
        let mut accum: u64 = tag[0] as u64;
        accum = accum * 256 + tag[1] as u64;
        accum = accum * 256 + tag[2] as u64;
        accum = accum * 256 + tag[3] as u64;
        accum = accum * 256 + tag[4] as u64;
        accum = accum * 256 + tag[5] as u64;
        assert(accum == full);
        let mut chars = [0u8; 6];
        let mut k: usize = 0;
        while k < TOKEN_LEN
            invariant
                k <= 6,
                accum == shifted(full, k as nat),
                forall|j: int| 0 <= j < k ==> chars@[j] == (0x41 + shifted(full, j as nat) % 26) as u8,
            decreases 6 - k,
        {
            let digit: u64 = accum % ALPHABET_LEN;
            chars[k] = 0x41u8 + digit as u8;
            accum = accum / ALPHABET_LEN;
            k += 1;
        }
        assert(chars@ =~= letters_of(full));
        Token { chars }
    }

    /// Whether the two codes hold the same letters. The comparison reads all
    /// six letters whatever they are.
    pub fn equals(&self, other: &Token) -> (same: bool)
        ensures
            same == (self@ == other@),
    {
        constant_time_eq(self.chars.as_slice(), other.chars.as_slice())
    }

    /// The code as text: its six letters.
    pub fn render(&self) -> (text: String)
        ensures
            is_code(self@),
            text@ == text_of(self@),
    {
        proof {
            use_type_invariant(self);
        }
        let mut bytes: Vec<u8> = Vec::new();
        let mut i: usize = 0;
        while i < TOKEN_LEN
            invariant
                i <= 6,
                is_code(self.chars@),
                bytes@ == self.chars@.subrange(0, i as int),
            decreases 6 - i,
        {
            bytes.push(self.chars[i]);
            assert(bytes@ =~= self.chars@.subrange(0, i as int + 1));
            i += 1;
        }
        assert(bytes@ =~= self.chars@);
        match string_from_ascii(bytes) {
            Some(text) => text,
            None => String::new(),
        }
    }
}

impl Clone for Token {
    fn clone(&self) -> (copy: Token)
        ensures
            copy == *self,
    {
        proof {
            use_type_invariant(self);
        }
        Token { chars: self.chars }
    }
}

impl PartialEq for Token {
    fn eq(&self, other: &Token) -> (same: bool) {
        self.equals(other)
    }
}

impl Eq for Token {}

impl vstd::std_specs::cmp::PartialEqSpecImpl for Token {
    open spec fn obeys_eq_spec() -> bool {
        true
    }

    open spec fn eq_spec(&self, other: &Token) -> bool {
        self@ == other@
    }
}

} // verus!
