//! Short random tokens that tag the frames a browser process writes.
use vstd::prelude::*;

verus! {

/// Number of characters the tokens draw from: `a-z`, `A-Z`, `0-9`.
pub const ID_ALPHABET_LEN: u8 = 62;

/// The character (as an ASCII byte) that a random byte selects: the byte
/// modulo 62 indexes `a-z`, then `A-Z`, then `0-9`.
pub open spec fn id_byte(b: u8) -> u8 {
    let i = b % 62;
    if i < 26 {
        (97 + i) as u8
    } else if i < 52 {
        (65 + (i - 26)) as u8
    } else {
        (48 + (i - 52)) as u8
    }
}

/// An ASCII letter or digit.
pub open spec fn is_id_char(c: char) -> bool {
    ('a' <= c && c <= 'z') || ('A' <= c && c <= 'Z') || ('0' <= c && c <= '9')
}

/// Maps each random byte to the character it selects.
pub fn session_id_from_bytes(random: &Vec<u8>) -> (r: Vec<u8>)
    ensures
        r@ == random@.map_values(|b: u8| id_byte(b)),
{
    let mut out: Vec<u8> = Vec::new();
    let mut i: usize = 0;
    while i < random.len()
        invariant
            i <= random@.len(),
            out@ == random@.subrange(0, i as int).map_values(|b: u8| id_byte(b)),
        decreases random@.len() - i,
    {
        let b = random[i] % ID_ALPHABET_LEN;
        let c: u8 = if b < 26 {
            97 + b
        } else if b < 52 {
            65 + (b - 26)
        } else {
            48 + (b - 52)
        };
        out.push(c);
        i = i + 1;
        assert(out@ =~= random@.subrange(0, i as int).map_values(|b: u8| id_byte(b)));
    }
    assert(random@.subrange(0, i as int) =~= random@);
    out
}

/// Relies on getrandom::getrandom: on success the buffer of `len` bytes is
/// filled from the system's random source.
#[verifier::external_body]
fn random_bytes(len: usize) -> (r: Option<Vec<u8>>)
    ensures
        r.is_some() ==> r.unwrap()@.len() == len,
{
    let mut buffer: Vec<u8> = vec![0u8; len];
    getrandom::getrandom(&mut buffer).ok().map(|_| buffer)
}

/// Relies on String::from_utf8: ASCII bytes are valid UTF-8 and give the
/// string of those characters, one per byte.
#[verifier::external_body]
fn ascii_to_string(bytes: Vec<u8>) -> (r: Option<String>)
    requires
        forall|i: int| 0 <= i < bytes@.len() ==> bytes@[i] < 128,
    ensures
        r.is_some(),
        r.unwrap()@ == bytes@.map_values(|b: u8| b as char),
{
    String::from_utf8(bytes).ok()
}

/// A random token of `len` letters and digits; `None` when the system's
/// random source fails.
pub fn generate_session_id(len: usize) -> (r: Option<String>)
    ensures
        r.is_some() ==> r.unwrap()@.len() == len && forall|i: int|
            0 <= i < len ==> is_id_char(#[trigger] r.unwrap()@[i]),
{
    match random_bytes(len) {
        Some(random) => {
            let chars = session_id_from_bytes(&random);
            let r = ascii_to_string(chars);
            assert(r.is_some() ==> forall|i: int|
                0 <= i < len ==> is_id_char(#[trigger] r.unwrap()@[i]));
            r
        },
        None => None,
    }
}

} // verus!
