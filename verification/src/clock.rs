//! The wall-clock read a guest may request, and the byte marshaling of the
//! result. Only the clock read itself is taken on trust; the little-endian
//! encoding written into guest memory is verified.

use vstd::prelude::*;

verus! {

/// Relies on chrono::Utc::now and timestamp_nanos_opt: the current wall-clock
/// time as nanoseconds since the epoch, `None` where the instant cannot be
/// represented in 64 bits. The result depends on the clock, so nothing more
/// is stated of it.
#[verifier::external_body]
pub fn now_nanos() -> (r: Option<i64>) {
    chrono::Utc::now().timestamp_nanos_opt()
}

/// The little-endian bytes of a signed 64-bit value in two's complement:
/// least significant byte first, a negative value carried as the value plus
/// two to the sixty-fourth.
pub open spec fn spec_le_bytes(v: i64) -> Seq<u8> {
    let u = v as u64;
    seq![
        (u % 256) as u8,
        ((u / 256) % 256) as u8,
        ((u / 65536) % 256) as u8,
        ((u / 16777216) % 256) as u8,
        ((u / 4294967296) % 256) as u8,
        ((u / 1099511627776) % 256) as u8,
        ((u / 281474976710656) % 256) as u8,
        ((u / 72057594037927936) % 256) as u8,
    ]
}

/// Encodes a signed 64-bit value as its 8 little-endian two's-complement
/// bytes.
pub fn le_bytes_of_i64(v: i64) -> (r: Vec<u8>)
    ensures
        r@ == spec_le_bytes(v),
        r@.len() == 8,
{
    let u: u64 = #[verifier::truncate] (v as u64);
    let mut out: Vec<u8> = Vec::new();
    out.push((u % 256) as u8);
    out.push(((u / 256) % 256) as u8);
    out.push(((u / 65536) % 256) as u8);
    out.push(((u / 16777216) % 256) as u8);
    out.push(((u / 4294967296) % 256) as u8);
    out.push(((u / 1099511627776) % 256) as u8);
    out.push(((u / 281474976710656) % 256) as u8);
    out.push(((u / 72057594037927936) % 256) as u8);
    proof {
        assert(out@ =~= spec_le_bytes(v));
    }
    out
}

} // verus!
