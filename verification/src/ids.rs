//! Identifiers in the form of version 7 UUIDs, made from a seed and a counter.

use vstd::arithmetic::div_mod::lemma_fundamental_div_mod_converse;
use vstd::prelude::*;

verus! {

/// The number with the bytes `b`, the highest first.
pub open spec fn bytes_value(b: Seq<u8>) -> nat
    decreases b.len(),
{
    if b.len() == 0 {
        0
    } else {
        bytes_value(b.drop_last()) * 256 + b.last() as nat
    }
}

/// `uuid::Uuid::from_bytes`, read with `as_u128`: the number of a UUID is that of
/// its bytes, the highest first.
#[verifier::external_body]
fn uuid_number(bytes: [u8; 16]) -> (r: u128)
    ensures
        r == bytes_value(bytes@),
{
    uuid::Uuid::from_bytes(bytes).as_u128()
}

/// `uuid::Uuid::from_u128`, read with `into_bytes`: the bytes of a UUID are those
/// of its number, the highest first.
#[verifier::external_body]
fn uuid_bytes(number: u128) -> (r: [u8; 16])
    ensures
        bytes_value(r@) == number,
{
    uuid::Uuid::from_u128(number).into_bytes()
}

/// A UUID by its number. Ids are ordered as their numbers are.
#[derive(Clone, Copy, Debug, PartialEq, Eq, PartialOrd, Ord, Hash, Structural)]
pub struct Uuid {
    pub number: u128,
}

impl Uuid {
    /// The sixteen bytes of the UUID, the highest first.
    pub fn as_bytes(&self) -> (r: [u8; 16])
        ensures
            bytes_value(r@) == self.number,
    {
        uuid_bytes(self.number)
    }

    /// The version that the UUID tells.
    pub fn get_version_num(&self) -> (r: usize)
        ensures
            r == version(self.number as int),
    {
        (self.number / 0x1000_0000_0000_0000_0000 % 16) as usize
    }
}

/// The version of the UUID with the number `n`: the four bits behind the time.
pub open spec fn version(n: int) -> int {
    n / 0x1000_0000_0000_0000_0000 % 16
}

/// The variant of the UUID with the number `n`: the first two bits of its second
/// half.
pub open spec fn variant(n: int) -> int {
    n / 0x4000_0000_0000_0000 % 4
}

/// The time of the UUID with the number `n`: its first 48 bits.
pub open spec fn timestamp(n: int) -> int {
    n / 0x1_0000_0000_0000_0000_0000
}

/// The time that a seed gives: its low 48 bits.
pub open spec fn seed_time(seed_ms: int) -> int {
    seed_ms % 0x1_0000_0000_0000
}

/// The number of the UUID of a seed and a counter: the time, the version, the two
/// high bits of the counter, the variant, and the other bits of the counter.
pub open spec fn v7_number(seed_ms: int, counter: int) -> int {
    seed_time(seed_ms) * 0x1_0000_0000_0000_0000_0000 + 7 * 0x1000_0000_0000_0000_0000
        + counter / 0x4000_0000_0000_0000 * 0x1_0000_0000_0000_0000 + 0x8000_0000_0000_0000
        + counter % 0x4000_0000_0000_0000
}

/// The time that a seed gives.
fn time_of(seed_ms: i64) -> (r: u64)
    ensures
        r == seed_time(seed_ms as int),
{
    if seed_ms >= 0 {
        seed_ms as u64 % 0x1_0000_0000_0000
    } else {
        let below: u64 = (-(seed_ms + 1)) as u64 % 0x1_0000_0000_0000;
        0xffff_ffff_ffff - below
    }
}

proof fn sixteen_bytes_value(b: Seq<u8>)
    requires
        b.len() == 16,
    ensures
        bytes_value(b) == b[0] * 0x100_0000_0000_0000_0000_0000_0000_0000 + b[1]
            * 0x1_0000_0000_0000_0000_0000_0000_0000 + b[2] * 0x100_0000_0000_0000_0000_0000_0000
            + b[3] * 0x1_0000_0000_0000_0000_0000_0000 + b[4] * 0x100_0000_0000_0000_0000_0000
            + b[5] * 0x1_0000_0000_0000_0000_0000 + b[6] * 0x100_0000_0000_0000_0000 + b[7]
            * 0x1_0000_0000_0000_0000 + b[8] * 0x100_0000_0000_0000 + b[9] * 0x1_0000_0000_0000
            + b[10] * 0x100_0000_0000 + b[11] * 0x1_0000_0000 + b[12] * 0x100_0000 + b[13]
            * 0x1_0000 + b[14] * 0x100 + b[15],
{
    reveal_with_fuel(bytes_value, 17);
    let b1 = b.drop_last();
    let b2 = b1.drop_last();
    let b3 = b2.drop_last();
    let b4 = b3.drop_last();
    let b5 = b4.drop_last();
    let b6 = b5.drop_last();
    let b7 = b6.drop_last();
    let b8 = b7.drop_last();
    let b9 = b8.drop_last();
    let b10 = b9.drop_last();
    let b11 = b10.drop_last();
    let b12 = b11.drop_last();
    let b13 = b12.drop_last();
    let b14 = b13.drop_last();
    let b15 = b14.drop_last();
    assert(bytes_value(b15) == b[0]);
    assert(bytes_value(b14) == b[0] * 0x100 + b[1]);
    assert(bytes_value(b13) == b[0] * 0x1_0000 + b[1] * 0x100 + b[2]);
    assert(bytes_value(b12) == bytes_value(b13) * 256 + b[3]);
    assert(bytes_value(b11) == bytes_value(b12) * 256 + b[4]);
    assert(bytes_value(b10) == bytes_value(b11) * 256 + b[5]);
    assert(bytes_value(b9) == bytes_value(b10) * 256 + b[6]);
    assert(bytes_value(b8) == bytes_value(b9) * 256 + b[7]);
    assert(bytes_value(b7) == bytes_value(b8) * 256 + b[8]);
    assert(bytes_value(b6) == bytes_value(b7) * 256 + b[9]);
    assert(bytes_value(b5) == bytes_value(b6) * 256 + b[10]);
    assert(bytes_value(b4) == bytes_value(b5) * 256 + b[11]);
    assert(bytes_value(b3) == bytes_value(b4) * 256 + b[12]);
    assert(bytes_value(b2) == bytes_value(b3) * 256 + b[13]);
    assert(bytes_value(b1) == bytes_value(b2) * 256 + b[14]);
    assert(bytes_value(b) == bytes_value(b1) * 256 + b[15]);
}

/// The UUID of a seed and a counter.
pub fn uuid_v7(seed_ms: i64, counter: u64) -> (r: Uuid)
    ensures
        r.number == v7_number(seed_ms as int, counter as int),
{
    let time: u64 = time_of(seed_ms);
    let time1: u64 = time / 256;
    let time2: u64 = time1 / 256;
    let time3: u64 = time2 / 256;
    let time4: u64 = time3 / 256;
    let time5: u64 = time4 / 256;
    let high: u64 = counter / 0x4000_0000_0000_0000;
    let low: u64 = counter % 0x4000_0000_0000_0000;
    let low1: u64 = low / 256;
    let low2: u64 = low1 / 256;
    let low3: u64 = low2 / 256;
    let low4: u64 = low3 / 256;
    let low5: u64 = low4 / 256;
    let low6: u64 = low5 / 256;
    let low7: u64 = low6 / 256;
    assert(time5 < 256 && high < 4 && low7 < 64);
    let bytes: [u8; 16] = [
        time5 as u8,
        (time4 % 256) as u8,
        (time3 % 256) as u8,
        (time2 % 256) as u8,
        (time1 % 256) as u8,
        (time % 256) as u8,
        0x70,
        high as u8,
        0x80 + low7 as u8,
        (low6 % 256) as u8,
        (low5 % 256) as u8,
        (low4 % 256) as u8,
        (low3 % 256) as u8,
        (low2 % 256) as u8,
        (low1 % 256) as u8,
        (low % 256) as u8,
    ];
    proof {
        sixteen_bytes_value(bytes@);
        assert(time == time5 * 0x100_0000_0000 + time4 % 256 * 0x1_0000_0000 + time3 % 256
            * 0x100_0000 + time2 % 256 * 0x1_0000 + time1 % 256 * 0x100 + time % 256);
        assert(low == low7 * 0x100_0000_0000_0000 + low6 % 256 * 0x1_0000_0000_0000 + low5 % 256
            * 0x100_0000_0000 + low4 % 256 * 0x1_0000_0000 + low3 % 256 * 0x100_0000 + low2 % 256
            * 0x1_0000 + low1 % 256 * 0x100 + low % 256);
    }
    Uuid { number: uuid_number(bytes) }
}

/// A source of UUIDs that has the same sequence for the same seed.
#[derive(Debug)]
pub struct DeterministicIds {
    seed_ms: i64,
    counter: u64,
}

impl DeterministicIds {
    /// The seed of the source.
    pub closed spec fn seed(&self) -> int {
        self.seed_ms as int
    }

    /// The number of UUIDs that the source has given, in 64 bits.
    pub closed spec fn given(&self) -> int {
        self.counter as int
    }

    /// A source whose UUIDs carry `seed_ms` as their time.
    pub fn new(seed_ms: i64) -> (r: Self)
        ensures
            r.seed() == seed_ms,
            r.given() == 0,
    {
        DeterministicIds { seed_ms, counter: 0 }
    }

    /// The next UUID.
    pub fn new_uuid_v7(&mut self) -> (r: Uuid)
        ensures
            r.number == v7_number(old(self).seed(), old(self).given()),
            final(self).seed() == old(self).seed(),
            final(self).given() == (old(self).given() + 1) % 0x1_0000_0000_0000_0000,
            0 <= old(self).given() < 0x1_0000_0000_0000_0000,
    {
        let id = uuid_v7(self.seed_ms, self.counter);
        self.counter = if self.counter == u64::MAX {
            0
        } else {
            self.counter + 1
        };
        id
    }
}

// ---------------------------------------------------------------------------
// What holds of every UUID that a source gives
// ---------------------------------------------------------------------------

/// A later UUID of a source is greater than an earlier one.
pub proof fn ids_are_time_sorted(seed_ms: int, first: int, second: int)
    requires
        0 <= first < second < 0x1_0000_0000_0000_0000,
    ensures
        v7_number(seed_ms, first) < v7_number(seed_ms, second),
{
}

/// Every UUID is of version 7 and of the standard variant, and it carries the
/// seed's time.
pub proof fn ids_are_version_seven(seed_ms: int, counter: int)
    requires
        0 <= counter < 0x1_0000_0000_0000_0000,
    ensures
        0 <= v7_number(seed_ms, counter) <= u128::MAX,
        version(v7_number(seed_ms, counter)) == 7,
        variant(v7_number(seed_ms, counter)) == 2,
        timestamp(v7_number(seed_ms, counter)) == seed_time(seed_ms),
        0 <= seed_ms < 0x1_0000_0000_0000 ==> timestamp(v7_number(seed_ms, counter)) == seed_ms,
{
    let n = v7_number(seed_ms, counter);
    let time = seed_time(seed_ms);
    let high = counter / 0x4000_0000_0000_0000;
    let low = counter % 0x4000_0000_0000_0000;
    assert(0 <= high < 4 && 0 <= low < 0x4000_0000_0000_0000 && 0 <= time < 0x1_0000_0000_0000);
    let third = high * 0x1_0000_0000_0000_0000 + 0x8000_0000_0000_0000 + low;
    lemma_fundamental_div_mod_converse(
        n,
        0x1_0000_0000_0000_0000_0000,
        time,
        7 * 0x1000_0000_0000_0000_0000 + third,
    );
    lemma_fundamental_div_mod_converse(n, 0x1000_0000_0000_0000_0000, time * 16 + 7, third);
    lemma_fundamental_div_mod_converse(
        n,
        0x4000_0000_0000_0000,
        time * 0x4_0000 + 7 * 0x4000 + high * 4 + 2,
        low,
    );
}

/// A source gives no UUID twice, whatever its seed.
pub proof fn ids_are_unique(seed_ms: int, first: int, second: int)
    requires
        0 <= first < 0x1_0000_0000_0000_0000,
        0 <= second < 0x1_0000_0000_0000_0000,
        v7_number(seed_ms, first) == v7_number(seed_ms, second),
    ensures
        first == second,
{
}

/// The bits of a UUID stand where they belong: the low 48 bits of the seed first, then 7 in four
/// bits, and the two bits 10 before the last 62, which are those of the counter.
pub proof fn ids_have_their_bits(seed_ms: int, counter: int)
    requires
        0 <= counter < 0x1_0000_0000_0000_0000,
    ensures
        v7_number(seed_ms, counter) / 0x1_0000_0000_0000_0000_0000 == seed_ms % 0x1_0000_0000_0000,
        v7_number(seed_ms, counter) / 0x1000_0000_0000_0000_0000 % 16 == 7,
        v7_number(seed_ms, counter) / 0x4000_0000_0000_0000 % 4 == 2,
        v7_number(seed_ms, counter) % 0x4000_0000_0000_0000 == counter % 0x4000_0000_0000_0000,
{
    ids_are_version_seven(seed_ms, counter);
    let t = seed_time(seed_ms);
    let high = counter / 0x4000_0000_0000_0000;
    let low = counter % 0x4000_0000_0000_0000;
    let rest = t * 0x4_0000 + 7 * 0x4000 + high * 4 + 2;
    assert(v7_number(seed_ms, counter) == rest * 0x4000_0000_0000_0000 + low);
}

} // verus!
