//! Keys under which the state store persists each pool's base price: a fixed
//! namespace prefix followed by the hex-encoded pool identifier.

use vstd::prelude::*;
use vstd::string::StringExecFns;

verus! {

/// The namespace under which each pool's base price is stored.
pub const BASE_PRICE_PREFIX: &'static str = "base_price:";

/// The lowercase hex digit for a value below sixteen.
pub open spec fn hex_char(d: int) -> char {
    if d < 10 {
        (d + 48) as char
    } else {
        (d + 87) as char
    }
}

/// The lowercase hex encoding of a byte string: two digits per byte, high
/// nibble first.
pub open spec fn hex_of(bytes: Seq<u8>) -> Seq<char>
    decreases bytes.len(),
{
    if bytes.len() == 0 {
        Seq::empty()
    } else {
        seq![hex_char(bytes[0] as int / 16), hex_char(bytes[0] as int % 16)] + hex_of(
            bytes.drop_first(),
        )
    }
}

/// Relies on hex::encode: lowercase hex, two digits per byte, high nibble
/// first.
#[verifier::external_body]
fn hex_encode(bytes: &Vec<u8>) -> (r: String)
    ensures
        r@ == hex_of(bytes@),
{
    hex::encode(bytes.as_slice())
}

/// The state-store key for a pool identifier already rendered as text.
pub fn base_price_key(pool_ident: &String) -> (r: String)
    ensures
        r@ == "base_price:"@ + pool_ident@,
{
    let mut r: String = String::from_str(BASE_PRICE_PREFIX);
    r.append(pool_ident.as_str());
    r
}

/// The state-store key for a pool identifier given as its raw bytes.
pub fn pool_base_price_key(pool_id: &Vec<u8>) -> (r: String)
    ensures
        r@ == "base_price:"@ + hex_of(pool_id@),
{
    let ident = hex_encode(pool_id);
    base_price_key(&ident)
}

} // verus!
