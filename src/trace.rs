use vstd::prelude::*;
use vstd::string::*;

verus! {

/// The sixteen upper-case hexadecimal digits, by value.
pub open spec fn hex_digits() -> Seq<char> {
    seq!['0', '1', '2', '3', '4', '5', '6', '7', '8', '9', 'A', 'B', 'C', 'D', 'E', 'F']
}

/// Two upper-case hexadecimal digits for each byte, high digit first.
pub open spec fn hex_of(bytes: Seq<u8>) -> Seq<char>
    decreases bytes.len(),
{
    if bytes.len() == 0 {
        Seq::empty()
    } else {
        let b = bytes.last();
        hex_of(bytes.drop_last()) + seq![hex_digits()[b as int / 16], hex_digits()[b as int % 16]]
    }
}

/// Number of random values in a correlation id.
pub const TRACE_ID_LEN: usize = 6;

/// A correlation id: the hexadecimal form of six values below sixteen.
pub open spec fn is_trace_id(s: Seq<char>) -> bool {
    exists|d: Seq<u8>|
        d.len() == TRACE_ID_LEN && (forall|i: int| 0 <= i < d.len() ==> #[trigger] d[i] < 16)
            && s == hex_of(d)
}

/// Relies on rand::thread_rng and rand::Rng::gen_range: a value drawn from
/// `0..bound`, which must not be empty.
#[verifier::external_body]
fn random_below(bound: u8) -> (r: u8)
    requires
        bound > 0,
    ensures
        r < bound,
{
    rand::Rng::gen_range(&mut rand::thread_rng(), 0..bound)
}

fn hex_digit(n: u8) -> (r: &'static str)
    requires
        n < 16,
    ensures
        r@ == seq![hex_digits()[n as int]],
{
    let digits = "0123456789ABCDEF";
    proof {
        reveal_strlit("0123456789ABCDEF");
    }
    assert(digits@ == hex_digits());
    digits.substring_char(n as usize, n as usize + 1)
}

/// The upper-case hexadecimal form of `bytes`, two digits per byte.
pub fn encode_hex(bytes: &[u8]) -> (r: String)
    ensures
        r@ == hex_of(bytes@),
{
    let mut out = String::new();
    let mut i: usize = 0;
    while i < bytes.len()
        invariant
            i <= bytes@.len(),
            out@ == hex_of(bytes@.subrange(0, i as int)),
        decreases bytes@.len() - i,
    {
        let b = bytes[i];
        out.append(hex_digit(b / 16));
        out.append(hex_digit(b % 16));
        proof {
            let next = bytes@.subrange(0, i + 1);
            assert(next.drop_last() =~= bytes@.subrange(0, i as int));
            assert(next.last() == b);
        }
        i = i + 1;
    }
    assert(bytes@.subrange(0, bytes@.len() as int) =~= bytes@);
    out
}

/// A fresh correlation id: six random values below sixteen, each written as
/// two hexadecimal digits. Not unique: two calls may give the same id.
pub fn generate_trace_id() -> (r: String)
    ensures
        is_trace_id(r@),
{
    let mut drawn: Vec<u8> = Vec::new();
    while drawn.len() < TRACE_ID_LEN
        invariant
            drawn@.len() <= TRACE_ID_LEN,
            forall|i: int| 0 <= i < drawn@.len() ==> #[trigger] drawn@[i] < 16,
        decreases TRACE_ID_LEN - drawn@.len(),
    {
        let v = random_below(16);
        drawn.push(v);
    }
    let r = encode_hex(drawn.as_slice());
    assert(drawn@.len() == TRACE_ID_LEN && (forall|i: int| 0 <= i < drawn@.len() ==> #[trigger] drawn@[i] < 16) && r@ == hex_of(drawn@));
    r
}

/// The correlation id of a request: the one its `logid` header carries, or
/// a fresh one where it carries none.
pub fn get_logid(header: Option<String>) -> (r: String)
    ensures
        match header {
            Some(h) => r@ == h@,
            None => is_trace_id(r@),
        },
{
    match header {
        Some(h) => h,
        None => generate_trace_id(),
    }
}

} // verus!
