//! Framing of the signed ledger's records.
use vstd::prelude::*;
use vstd::string::StringExecFns;

verus! {

/// The lowercase hexadecimal digit of a value below 16.
pub open spec fn hex_digit(n: int) -> char {
    "0123456789abcdef"@[n]
}

/// Lowercase hexadecimal text of `b`: two digits per byte, high nibble first.
pub open spec fn hex_of(b: Seq<u8>) -> Seq<char>
    decreases b.len(),
{
    if b.len() == 0 {
        Seq::empty()
    } else {
        hex_of(b.drop_last()) + seq![hex_digit(b.last() as int / 16), hex_digit(b.last() as int % 16)]
    }
}

/// Relies on hex::encode: lowercase hexadecimal, two digits per byte in order.
#[verifier::external_body]
fn to_hex(b: &[u8]) -> (r: String)
    ensures
        r@ == hex_of(b@),
{
    hex::encode(b)
}

/// Text of a record before its signature: the fields joined by `|`.
pub open spec fn payload_text(
    timestamp: Seq<char>,
    price: Seq<char>,
    theta: Seq<char>,
    job_id: Seq<char>,
) -> Seq<char> {
    timestamp + "|"@ + price + "|"@ + theta + "|"@ + job_id
}

/// The record to be signed: timestamp, price, auxiliary value and job
/// identifier, as text, joined by `|`.
pub fn ledger_payload(timestamp: &str, price: &str, theta: &str, job_id: &str) -> (r: String)
    ensures
        r@ == payload_text(timestamp@, price@, theta@, job_id@),
{
    let mut s = timestamp.to_owned();
    s.append("|");
    s.append(price);
    s.append("|");
    s.append(theta);
    s.append("|");
    s.append(job_id);
    s
}

/// The line appended to the ledger: the payload, `|`, the signature in
/// hexadecimal, and a newline.
pub fn ledger_entry(payload: &str, signature: &[u8]) -> (r: String)
    ensures
        r@ == payload@ + "|"@ + hex_of(signature@) + "\n"@,
{
    let mut s = payload.to_owned();
    s.append("|");
    let h = to_hex(signature);
    s.append(h.as_str());
    s.append("\n");
    s
}

} // verus!
