//! Soil sensor: decoding of bus replies and averaging of moisture samples.
//!
//! A reading is one register transaction on the bus: the register is
//! addressed, the sensor is given [`SETTLE_MS`] to settle, and a fixed-width
//! big-endian value is read back. The transaction itself is the caller's
//! business; this module takes its outcome, `Some(bytes)` for a reply and
//! `None` for a transaction that failed.

use vstd::prelude::*;

verus! {

/// Module base address of the capacitive touch unit.
pub const TOUCH_BASE: u8 = 0x0F;

/// Function register of the first touch channel, which measures moisture.
pub const TOUCH_CHANNEL: u8 = 0x10;

/// Module base address of the status unit.
pub const STATUS_BASE: u8 = 0x00;

/// Function register of the temperature within the status unit.
pub const STATUS_TEMP: u8 = 0x04;

/// Delay between addressing a register and reading it back, and between two
/// moisture samples, in milliseconds.
pub const SETTLE_MS: u64 = 10;

/// Number of fixed-point steps in one degree Celsius.
pub const STEPS_PER_DEGREE: u32 = 65_536;

/// Why a sensor value could not be had.
#[derive(Clone, Copy, Debug, PartialEq, Eq)]
pub enum SensorError {
    /// A single bus transaction failed; the sample is discarded.
    TransientFault,
    /// Every sample of an averaging attempt failed.
    AllSamplesFailed,
}

/// A temperature as the sensor reports it: degrees Celsius in unsigned
/// fixed point, [`STEPS_PER_DEGREE`] steps to the degree.
#[derive(Clone, Copy, Debug, PartialEq, Eq)]
pub struct Temperature {
    pub raw: u32,
}

impl Temperature {
    /// Whole degrees Celsius, rounded down.
    pub fn degrees(&self) -> (d: u16)
        ensures
            d == self.raw / STEPS_PER_DEGREE,
    {
        (self.raw / STEPS_PER_DEGREE) as u16
    }

    /// What is left above the whole degrees, in steps.
    pub fn fraction(&self) -> (f: u16)
        ensures
            f == self.raw % STEPS_PER_DEGREE,
            self.raw == self.raw / STEPS_PER_DEGREE * STEPS_PER_DEGREE + f,
    {
        (self.raw % STEPS_PER_DEGREE) as u16
    }
}

/// The number that two bytes spell, most significant byte first.
pub open spec fn be16(bytes: [u8; 2]) -> int {
    bytes[0] * 0x100 + bytes[1]
}

/// The number that four bytes spell, most significant byte first.
pub open spec fn be32(bytes: [u8; 4]) -> int {
    bytes[0] * 0x100_0000 + bytes[1] * 0x1_0000 + bytes[2] * 0x100 + bytes[3]
}

/// The moisture values among the outcomes of a run of transactions: the
/// failed ones are left out, the others decoded, in the order they came.
pub open spec fn moistures(replies: Seq<Option<[u8; 2]>>) -> Seq<u16>
    decreases replies.len(),
{
    if replies.len() == 0 {
        Seq::empty()
    } else {
        let earlier = moistures(replies.drop_last());
        match replies.last() {
            Some(bytes) => earlier.push(be16(bytes) as u16),
            None => earlier,
        }
    }
}

/// How many of the transactions failed.
pub open spec fn failures(replies: Seq<Option<[u8; 2]>>) -> nat
    decreases replies.len(),
{
    if replies.len() == 0 {
        0
    } else {
        let earlier = failures(replies.drop_last());
        match replies.last() {
            Some(_) => earlier,
            None => earlier + 1,
        }
    }
}

/// Sum of the values.
pub open spec fn total(values: Seq<u16>) -> int
    decreases values.len(),
{
    if values.len() == 0 {
        0
    } else {
        total(values.drop_last()) + values.last()
    }
}

/// Unweighted arithmetic mean of the values, rounded down.
pub open spec fn mean(values: Seq<u16>) -> int
    recommends
        values.len() > 0,
{
    total(values) / (values.len() as int)
}

/// What the outcome of a temperature transaction decodes to.
pub open spec fn temperature_of(reply: Option<[u8; 4]>) -> Option<Temperature> {
    match reply {
        Some(bytes) => Some(Temperature { raw: be32(bytes) as u32 }),
        None => None,
    }
}

/// What an averaging attempt over these outcomes yields: the mean of the
/// samples that succeeded, or nothing when none did.
pub open spec fn averaged(replies: Seq<Option<[u8; 2]>>) -> Option<u16> {
    if moistures(replies).len() == 0 {
        None
    } else {
        Some(mean(moistures(replies)) as u16)
    }
}

/// A sum of 16-bit values is at most the largest such value times their
/// number, so their mean is itself a 16-bit value.
pub proof fn lemma_total_bounds(values: Seq<u16>)
    ensures
        0 <= total(values) <= 0xFFFF * values.len(),
        values.len() > 0 ==> 0 <= mean(values) <= 0xFFFF,
    decreases values.len(),
{
    if values.len() > 0 {
        lemma_total_bounds(values.drop_last());
        let sum = total(values);
        let n = values.len() as int;
        assert(0 <= sum / n <= 0xFFFF) by (nonlinear_arith)
            requires
                0 <= sum <= 0xFFFF * n,
                n > 0,
        ;
    }
}

/// Every transaction either failed or gave one moisture value.
pub proof fn lemma_successes_and_failures(replies: Seq<Option<[u8; 2]>>)
    ensures
        moistures(replies).len() + failures(replies) == replies.len(),
    decreases replies.len(),
{
    if replies.len() > 0 {
        lemma_successes_and_failures(replies.drop_last());
    }
}

/// Averaging `n` samples of which `k` failed gives the mean of the `n - k`
/// that succeeded while `k < n`, and nothing once `k == n`.
pub proof fn law_mean_of_successes(replies: Seq<Option<[u8; 2]>>)
    ensures
        moistures(replies).len() == replies.len() - failures(replies),
        failures(replies) <= replies.len(),
        failures(replies) < replies.len() ==> averaged(replies) == Some(
            (total(moistures(replies)) / (replies.len() - failures(replies))) as u16,
        ) && 0 <= total(moistures(replies)) / (replies.len() - failures(replies)) <= 0xFFFF,
        failures(replies) == replies.len() ==> averaged(replies) is None,
{
    lemma_successes_and_failures(replies);
    lemma_total_bounds(moistures(replies));
}

/// Decodes the outcome of a moisture transaction: the 16-bit big-endian
/// value of the reply, or a transient fault where there was none.
pub fn read_moisture(reply: Option<[u8; 2]>) -> (r: Result<u16, SensorError>)
    ensures
        match reply {
            Some(bytes) => r == Ok::<u16, SensorError>(be16(bytes) as u16),
            None => r == Err::<u16, SensorError>(SensorError::TransientFault),
        },
{
    match reply {
        Some(bytes) => {
            let high: u16 = bytes[0] as u16;
            let low: u16 = bytes[1] as u16;
            Ok(high * 0x100 + low)
        },
        None => Err(SensorError::TransientFault),
    }
}

/// Decodes the outcome of a temperature transaction: the 32-bit big-endian
/// fixed-point value of the reply, or a transient fault where there was
/// none.
pub fn read_temp_c(reply: Option<[u8; 4]>) -> (r: Result<Temperature, SensorError>)
    ensures
        match temperature_of(reply) {
            Some(t) => r == Ok::<Temperature, SensorError>(t),
            None => r == Err::<Temperature, SensorError>(SensorError::TransientFault),
        },
{
    match reply {
        Some(bytes) => {
            let b0: u32 = bytes[0] as u32;
            let b1: u32 = bytes[1] as u32;
            let b2: u32 = bytes[2] as u32;
            let b3: u32 = bytes[3] as u32;
            Ok(Temperature { raw: b0 * 0x100_0000 + b1 * 0x1_0000 + b2 * 0x100 + b3 })
        },
        None => Err(SensorError::TransientFault),
    }
}

/// Averages the moisture samples of one sampling round. Failed samples are
/// discarded; the result is the mean of the others, rounded down. The round
/// fails only if every sample failed.
pub fn avg_moisture(replies: &[Option<[u8; 2]>]) -> (r: Result<u16, SensorError>)
    ensures
        match averaged(replies@) {
            Some(m) => r == Ok::<u16, SensorError>(m),
            None => r == Err::<u16, SensorError>(SensorError::AllSamplesFailed),
        },
{
    let mut acc: u128 = 0;
    let mut cnt: usize = 0;
    let mut i: usize = 0;
    while i < replies.len()
        invariant
            i <= replies.len(),
            cnt == moistures(replies@.take(i as int)).len(),
            cnt <= i,
            acc == total(moistures(replies@.take(i as int))),
            acc <= 0xFFFF * cnt,
        decreases replies.len() - i,
    {
        proof {
            assert(replies@.take(i + 1).drop_last() =~= replies@.take(i as int));
        }
        match read_moisture(replies[i]) {
            Ok(m) => {
                proof {
                    let seen = moistures(replies@.take(i as int));
                    assert(seen.push(m).drop_last() =~= seen);
                }
                acc = acc + m as u128;
                cnt = cnt + 1;
            },
            Err(_) => {},
        }
        i = i + 1;
    }
    proof {
        assert(replies@.take(i as int) =~= replies@);
        lemma_total_bounds(moistures(replies@));
    }
    if cnt == 0 {
        return Err(SensorError::AllSamplesFailed);
    }
    Ok((acc / cnt as u128) as u16)
}

} // verus!
