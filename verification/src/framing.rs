//! Frames on the wire: a length of four bytes, the highest first, and a body.

use vstd::prelude::*;
use vstd::slice::slice_to_vec;

verus! {

/// The four bytes of `n`, the highest first.
pub open spec fn be_bytes(n: u32) -> Seq<u8> {
    seq![
        (n / 0x100_0000) as u8,
        (n / 0x1_0000 % 0x100) as u8,
        (n / 0x100 % 0x100) as u8,
        (n % 0x100) as u8,
    ]
}

/// The number with the four bytes `b`, the highest first.
pub open spec fn be_value(b: Seq<u8>) -> int {
    b[0] * 0x100_0000 + b[1] * 0x1_0000 + b[2] * 0x100 + b[3]
}

/// The length that a frame tells of a body: its low 32 bits.
pub open spec fn told_length(len: nat) -> u32 {
    (len % 0x1_0000_0000) as u32
}

/// The frame of a body.
pub open spec fn framed(body: Seq<u8>) -> Seq<u8> {
    be_bytes(told_length(body.len())) + body
}

/// The four bytes of `n`, the highest first.
pub fn length_bytes(n: u32) -> (r: Vec<u8>)
    ensures
        r@ == be_bytes(n),
{
    let mut out: Vec<u8> = Vec::new();
    out.push((n / 0x100_0000) as u8);
    out.push((n / 0x1_0000 % 0x100) as u8);
    out.push((n / 0x100 % 0x100) as u8);
    out.push((n % 0x100) as u8);
    assert(out@ =~= be_bytes(n));
    out
}

/// The length that the first four bytes of a frame tell.
pub fn body_length(header: &[u8]) -> (r: u32)
    requires
        header@.len() == 4,
    ensures
        r == be_value(header@),
{
    header[0] as u32 * 0x100_0000 + header[1] as u32 * 0x1_0000 + header[2] as u32 * 0x100
        + header[3] as u32
}

/// The frame of a body.
pub fn frame(body: &[u8]) -> (r: Vec<u8>)
    ensures
        r@ == framed(body@),
{
    let told: u32 = (body.len() as u64 % 0x1_0000_0000) as u32;
    let mut out = length_bytes(told);
    let mut rest = slice_to_vec(body);
    out.append(&mut rest);
    out
}

/// The four bytes of a length have its value.
pub proof fn length_is_read_back(n: u32)
    ensures
        be_value(be_bytes(n)) == n,
        be_bytes(n).len() == 4,
{
}

/// A frame is read back: its first four bytes tell the length of the body behind
/// them, for every body whose length fits them.
pub proof fn frame_is_read_back(body: Seq<u8>)
    requires
        body.len() < 0x1_0000_0000,
    ensures
        be_value(framed(body).take(4)) == body.len(),
        framed(body).skip(4) == body,
{
    length_is_read_back(told_length(body.len()));
    assert(framed(body).take(4) =~= be_bytes(told_length(body.len())));
    assert(framed(body).skip(4) =~= body);
}

/// The length stands before the body with its highest byte first.
pub proof fn lengths_stand_highest_first(body: Seq<u8>)
    requires
        body.len() < 0x1_0000_0000,
    ensures
        ({
            let f = framed(body);
            &&& f.len() == 4 + body.len()
            &&& body.len() == f[0] * 16777216 + f[1] * 65536 + f[2] * 256 + f[3]
        }),
        forall|b: Seq<u8>| #[trigger] be_value(b) == b[0] * 16777216 + b[1] * 65536 + b[2] * 256 + b[3],
{
    frame_is_read_back(body);
    let f = framed(body);
    assert forall|i: int| 0 <= i < 4 implies f.take(4)[i] == f[i] by {}
    assert(f.take(4)[0] == f[0] && f.take(4)[1] == f[1] && f.take(4)[2] == f[2] && f.take(4)[3] == f[3]);
}

} // verus!
