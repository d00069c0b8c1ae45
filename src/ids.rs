use vstd::prelude::*;

use rand::RngCore;

verus! {

/// The lower-case hex digit of a nibble.
pub open spec fn hex_digit(n: nat) -> char {
    if n < 10 {
        (n + 48) as char
    } else {
        (n + 87) as char
    }
}

/// Two lower-case hex digits per byte, high nibble first.
pub open spec fn hex_of(b: Seq<u8>) -> Seq<char>
    decreases b.len(),
{
    if b.len() == 0 {
        Seq::empty()
    } else {
        hex_of(b.drop_last()) + seq![hex_digit(b.last() as nat / 16), hex_digit(b.last() as nat % 16)]
    }
}

pub open spec fn is_lower_hex(c: char) -> bool {
    ('0' <= c && c <= '9') || ('a' <= c && c <= 'f')
}

/// An identifier as the library hands them out: 32 lower-case hex digits
/// that encode 16 bytes.
pub open spec fn is_id(s: Seq<char>) -> bool {
    &&& s.len() == 32
    &&& forall|i: int| 0 <= i < s.len() ==> is_lower_hex(#[trigger] s[i])
    &&& exists|b: Seq<u8>| b.len() == 16 && s == hex_of(b)
}

proof fn lemma_hex_shape(b: Seq<u8>)
    ensures
        hex_of(b).len() == 2 * b.len(),
        forall|i: int| 0 <= i < hex_of(b).len() ==> is_lower_hex(#[trigger] hex_of(b)[i]),
    decreases b.len(),
{
    if b.len() > 0 {
        lemma_hex_shape(b.drop_last());
        let h = b.last() as nat;
        assert(is_lower_hex(hex_digit(h / 16)));
        assert(is_lower_hex(hex_digit(h % 16)));
        let t = hex_of(b);
        let p = hex_of(b.drop_last());
        assert forall|i: int| 0 <= i < t.len() implies is_lower_hex(#[trigger] t[i]) by {
            if i < p.len() {
                assert(t[i] == p[i]);
            }
        }
    }
}

/// Relies on `hex::encode`: two lower-case hex digits for each byte, high
/// nibble first.
#[verifier::external_body]
fn encode_hex(bytes: &Vec<u8>) -> (r: String)
    ensures
        r@ == hex_of(bytes@),
{
    hex::encode(bytes)
}

/// Relies on `rand::thread_rng` and `RngCore::fill_bytes`: sixteen bytes,
/// whatever their values.
#[verifier::external_body]
fn random_bytes() -> (r: Vec<u8>)
    ensures
        r@.len() == 16,
{
    let mut bytes = [0u8; 16];
    rand::thread_rng().fill_bytes(&mut bytes);
    bytes.to_vec()
}

/// A fresh random identifier of 128 bits in hex.
pub fn generate_task_id() -> (r: String)
    ensures
        is_id(r@),
{
    let bytes = random_bytes();
    let r = encode_hex(&bytes);
    proof {
        lemma_hex_shape(bytes@);
    }
    r
}

/// A fresh random session identifier of 128 bits in hex.
pub fn generate_session_id() -> (r: String)
    ensures
        is_id(r@),
{
    generate_task_id()
}

} // verus!
