use vstd::prelude::*;

verus! {

/// The character that writes the digit `d` (below 16) in lower-case hexadecimal.
pub open spec fn digito_hex(d: nat) -> char {
    if d == 0 { '0' }
    else if d == 1 { '1' }
    else if d == 2 { '2' }
    else if d == 3 { '3' }
    else if d == 4 { '4' }
    else if d == 5 { '5' }
    else if d == 6 { '6' }
    else if d == 7 { '7' }
    else if d == 8 { '8' }
    else if d == 9 { '9' }
    else if d == 10 { 'a' }
    else if d == 11 { 'b' }
    else if d == 12 { 'c' }
    else if d == 13 { 'd' }
    else if d == 14 { 'e' }
    else { 'f' }
}

/// The decimal digits of `n`, most significant first, without leading zeros.
pub open spec fn decimal(n: nat) -> Seq<char>
    decreases n,
{
    if n < 10 {
        seq![digito_hex(n)]
    } else {
        decimal(n / 10).push(digito_hex(n % 10))
    }
}

/// The decimal text of a signed integer: a minus sign before a negative one.
pub open spec fn decimal_com_sinal(n: int) -> Seq<char> {
    if n < 0 {
        seq!['-'] + decimal((-n) as nat)
    } else {
        decimal(n as nat)
    }
}

/// The last `k` hexadecimal digits of `v`, zeros in front where `v` is shorter.
pub open spec fn hex_fixo(v: nat, k: nat) -> Seq<char>
    decreases k,
{
    if k == 0 {
        Seq::empty()
    } else {
        hex_fixo(v / 16, (k - 1) as nat).push(digito_hex(v % 16))
    }
}

/// An id in the hyphenated form: 32 lower-case hexadecimal digits in groups
/// of 8, 4, 4, 4 and 12.
pub open spec fn texto_de_id(id: u128) -> Seq<char> {
    let h = hex_fixo(id as nat, 32);
    h.subrange(0, 8) + seq!['-'] + h.subrange(8, 12) + seq!['-'] + h.subrange(12, 16)
        + seq!['-'] + h.subrange(16, 20) + seq!['-'] + h.subrange(20, 32)
}

/// Relies on `u32`'s `to_string`, through `Display`: the decimal digits of
/// the value, with no sign and no padding.
#[verifier::external_body]
pub(crate) fn texto_u32(n: u32) -> (r: String)
    ensures
        r@ == decimal(n as nat),
{
    n.to_string()
}

/// Relies on `i32`'s `to_string`, through `Display`: a minus sign for a
/// negative value, then the decimal digits of its magnitude.
#[verifier::external_body]
pub(crate) fn texto_i32(n: i32) -> (r: String)
    ensures
        r@ == decimal_com_sinal(n as int),
{
    n.to_string()
}

/// Relies on `uuid::Uuid::from_u128` and the `Display` of `uuid::Uuid`, which
/// writes the hyphenated lower-case form of the id's 128 bits, most
/// significant first.
#[verifier::external_body]
pub(crate) fn texto_uuid(id: u128) -> (r: String)
    ensures
        r@ == texto_de_id(id),
{
    uuid::Uuid::from_u128(id).to_string()
}

/// Relies on `uuid::Uuid::new_v4` and `uuid::Uuid::as_u128`: a fresh random
/// id. Nothing is known of its value.
#[verifier::external_body]
pub(crate) fn novo_id() -> (r: u128) {
    uuid::Uuid::new_v4().as_u128()
}

} // verus!
