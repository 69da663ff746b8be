//! Random tokens that name the temporary files of the cache.

use vstd::prelude::*;

verus! {

/// Number of characters of a token.
pub const TOKEN_LEN: usize = 7;

/// `c` is one of the 62 characters `A-Z`, `a-z`, `0-9`.
pub open spec fn is_alphanumeric(c: char) -> bool {
    ||| 'A' <= c <= 'Z'
    ||| 'a' <= c <= 'z'
    ||| '0' <= c <= '9'
}

/// `s` has the shape of a token: `TOKEN_LEN` characters, each alphanumeric.
pub open spec fn is_token(s: Seq<char>) -> bool {
    &&& s.len() == TOKEN_LEN
    &&& forall|i: int| 0 <= i < s.len() ==> is_alphanumeric(#[trigger] s[i])
}

/// `String::push` appends one character at the end of the string.
pub assume_specification[ String::push ](s: &mut String, ch: char)
    ensures
        final(s)@ == old(s)@.push(ch),
;

/// One draw of `rand::distributions::Alphanumeric` from the generator of the
/// current thread, `rand::thread_rng()`. The distribution picks a byte out of
/// a table of the ASCII letters and digits, so the contract claims that the
/// byte is one of those 62; nothing is claimed about which one. The generator
/// seeds itself from the operating system on first use, and panics if the
/// system gives it no entropy.
#[verifier::external_body]
fn sample_alphanumeric() -> (b: u8)
    ensures
        is_alphanumeric(b as char),
{
    rand::Rng::sample(&mut rand::thread_rng(), rand::distributions::Alphanumeric)
}

/// Whether `c` is an ASCII letter or digit.
pub fn alphanumeric(c: char) -> (b: bool)
    ensures
        b == is_alphanumeric(c),
{
    ('A' <= c && c <= 'Z') || ('a' <= c && c <= 'z') || ('0' <= c && c <= '9')
}

/// A token: seven alphanumeric characters.
#[derive(Debug, PartialEq, Eq)]
pub struct Token {
    text: String,
}

impl View for Token {
    type V = Seq<char>;

    closed spec fn view(&self) -> Seq<char> {
        self.text@
    }
}

impl Clone for Token {
    fn clone(&self) -> (t: Token)
        ensures
            t@ == self@,
    {
        proof {
            use_type_invariant(self);
        }
        Token { text: self.text.clone() }
    }
}

impl Token {
    #[verifier::type_invariant]
    spec fn well_shaped(self) -> bool {
        is_token(self.text@)
    }

    /// A fresh token, each character drawn at random from the 62-character
    /// alphabet.
    pub fn random() -> (t: Token)
        ensures
            is_token(t@),
    {
        let mut text = String::new();
        let mut n: usize = 0;
        while n < TOKEN_LEN
            invariant
                n <= TOKEN_LEN,
                text@.len() == n,
                forall|i: int| 0 <= i < text@.len() ==> is_alphanumeric(#[trigger] text@[i]),
            decreases TOKEN_LEN - n,
        {
            let b: u8 = sample_alphanumeric();
            text.push(b as char);
            n = n + 1;
        }
        Token { text }
    }

    /// The token spelled by `s`, if `s` has the shape of one.
    pub fn parse(s: &str) -> (r: Option<Token>)
        ensures
            r is Some <==> is_token(s@),
            r matches Some(t) ==> t@ == s@,
    {
        let len: usize = s.unicode_len();
        let mut n: usize = 0;
        let mut good = true;
        for c in it: s.chars()
            invariant
                n == it.index(),
                it.seq() == s@,
                len == s@.len(),
                n <= len,
                good == (forall|i: int| 0 <= i < n ==> is_alphanumeric(#[trigger] s@[i])),
        {
            if !alphanumeric(c) {
                good = false;
            }
            n = n + 1;
        }
        if good && len == TOKEN_LEN {
            Some(Token { text: String::from_str(s) })
        } else {
            None
        }
    }

    /// The characters of the token.
    pub fn as_str(&self) -> (s: &str)
        ensures
            s@ == self@,
            is_token(s@),
    {
        proof {
            use_type_invariant(self);
        }
        self.text.as_str()
    }
}

} // verus!
