//! Snowflake-style identifier generator.
//!
//! An identifier is a 64-bit unsigned value laid out, from most to least
//! significant, as `[relative milliseconds : 41][worker id : 5]
//! [process id : 5][sequence : 12]`. Relative milliseconds are measured from
//! the generator's configured epoch (`start_millis`) and clamped into the
//! 41-bit range, so later creation times always yield numerically larger
//! identifiers and a caller-supplied bound far outside the epoch window
//! degrades to the nearest representable boundary instead of wrapping.

use vstd::prelude::*;

verus! {

/// Largest relative timestamp representable in the 41-bit time field.
pub const MAX_RELATIVE_MILLIS: u64 = 0x1FF_FFFF_FFFF;

/// Number of distinct values of the 12-bit sequence counter.
pub const SEQUENCE_MODULUS: u16 = 4096;

/// Generator of unique, time-ordered 64-bit identifiers.
///
/// The configuration fields are immutable after construction; only the
/// sequence counter changes, and every identifier creation goes through an
/// exclusive borrow of the generator, which serializes the
/// read-increment-wrap step. A caller that shares one generator across
/// concurrent tasks must guard it with a mutual-exclusion primitive.
#[derive(Debug)]
pub struct SnowflakeCreator {
    /// Identifies a logical worker; any number within 5 bits.
    pub worker_id: u64,
    /// Identifies the process or pod instance; any number within 5 bits.
    pub process_id: u64,
    /// Epoch from which identifier timestamps are measured, in milliseconds.
    pub start_millis: u64,
    /// 12-bit sequence counter, wrapping modulo 4096.
    pub increment: u16,
}

/// The identifier built from a relative timestamp, worker id, process id and
/// sequence value, each already within its field's width.
pub open spec fn id_of(relative: u64, worker: u64, process: u64, sequence: u64) -> u64 {
    (relative << 22) | (worker << 17) | (process << 12) | sequence
}

/// The sequence field embedded in an identifier: its low 12 bits.
pub open spec fn increment_of(snowflake: u64) -> u64 {
    snowflake & 0xFFF
}

/// The sequence counter value after one more identifier creation.
pub open spec fn sequence_after(sequence: u16) -> u16 {
    (((sequence + 1) % (SEQUENCE_MODULUS as int)) as u16)
}

/// The sequence counter value after `calls` identifier creations starting
/// from `sequence`.
pub open spec fn sequence_after_calls(sequence: u16, calls: u64) -> u64 {
    (((sequence + calls) % (SEQUENCE_MODULUS as int)) as u64)
}

/// A millisecond timestamp clamped into the representable window
/// `[start, start + 2^41 - 1]` and made relative to `start`.
pub open spec fn clamped_relative(start: u64, time_millis: u64) -> u64 {
    if time_millis <= start {
        0
    } else if time_millis - start > MAX_RELATIVE_MILLIS {
        MAX_RELATIVE_MILLIS
    } else {
        ((time_millis - start) as u64)
    }
}

/// The identifier-space projection of an absolute millisecond timestamp:
/// the clamped relative time shifted into the high 41 bits, low 22 bits zero.
pub open spec fn time_to_snowflake(start: u64, time_millis: u64) -> u64 {
    clamped_relative(start, time_millis) << 22
}

/// The absolute creation time recovered from an identifier's time field.
pub open spec fn time_of(start: u64, snowflake: u64) -> int {
    (snowflake >> 22) + start
}

/// The identifier's time field measured against the epoch a second time, a
/// diagnostic offset; it is not the inverse of `time_of`.
pub open spec fn timestamp_of(start: u64, snowflake: u64) -> int {
    (snowflake >> 22) - start
}

impl SnowflakeCreator {
    /// Configuration and counter are within their field widths.
    pub open spec fn wf(self) -> bool {
        &&& self.worker_id < 32
        &&& self.process_id < 32
        &&& self.increment < SEQUENCE_MODULUS
    }

    pub fn new(worker_id: u64, process_id: u64, start_millis: u64, start_counter: u16) -> (creator: SnowflakeCreator)
        requires
            worker_id < 32,
            process_id < 32,
            start_counter < SEQUENCE_MODULUS,
        ensures
            creator.wf(),
            creator.worker_id == worker_id,
            creator.process_id == process_id,
            creator.start_millis == start_millis,
            creator.increment == start_counter,
    {
        SnowflakeCreator { worker_id, process_id, start_millis, increment: start_counter }
    }

    /// Creates a fresh identifier for the given wall-clock time.
    ///
    /// The timestamp must not precede the epoch; times beyond the 41-bit
    /// window are clamped to its upper end. The sequence counter advances by
    /// exactly one (wrapping modulo 4096) and is embedded in the low 12 bits,
    /// so up to 4096 creations within one millisecond yield pairwise distinct
    /// identifiers.
    pub fn create_id(&mut self, timestamp: u64) -> (snowflake: u64)
        requires
            old(self).wf(),
            timestamp >= old(self).start_millis,
        ensures
            final(self).wf(),
            final(self).worker_id == old(self).worker_id,
            final(self).process_id == old(self).process_id,
            final(self).start_millis == old(self).start_millis,
            final(self).increment == sequence_after(old(self).increment),
            snowflake == id_of(
                clamped_relative(old(self).start_millis, timestamp),
                old(self).worker_id,
                old(self).process_id,
                final(self).increment as u64,
            ),
            snowflake >> 22 == clamped_relative(old(self).start_millis, timestamp),
            increment_of(snowflake) == final(self).increment,
    {
        let relative: u64 = timestamp - self.start_millis;
        let relative: u64 = if relative > MAX_RELATIVE_MILLIS {
            MAX_RELATIVE_MILLIS
        } else {
            relative
        };
        let next: u16 = (self.increment + 1) % SEQUENCE_MODULUS;
        self.increment = next;
        proof {
            lemma_id_of_fields(relative, self.worker_id, self.process_id, next as u64);
        }
        (relative << 22u64) | (self.worker_id << 17u64) | (self.process_id << 12u64) | (next as u64)
    }

    /// Recovers the absolute creation time encoded in an identifier.
    pub fn get_time(&self, snowflake: u64) -> (time_millis: u64)
        requires
            time_of(self.start_millis, snowflake) <= u64::MAX,
        ensures
            time_millis == time_of(self.start_millis, snowflake),
    {
        (snowflake >> 22) + self.start_millis
    }

    /// Projects an absolute millisecond timestamp into identifier space, for
    /// use as an inequality bound over stored identifiers. The result is not
    /// a real identifier: its low 22 bits are always zero.
    pub fn convert_time_to_snowflake(&self, time_millis: &u64) -> (bound: u64)
        ensures
            bound == time_to_snowflake(self.start_millis, *time_millis),
            bound & 0x3F_FFFF == 0,
            bound >> 22 == clamped_relative(self.start_millis, *time_millis),
    {
        let t: u64 = *time_millis;
        let relative: u64 = if t <= self.start_millis { 0 } else { t - self.start_millis };
        let relative: u64 = if relative > MAX_RELATIVE_MILLIS {
            MAX_RELATIVE_MILLIS
        } else {
            relative
        };
        proof {
            assert(relative <= 0x1FF_FFFF_FFFFu64 ==> ((relative << 22) & 0x3F_FFFF == 0
                && (relative << 22) >> 22 == relative)) by (bit_vector);
        }
        relative << 22u64
    }

    /// Extracts the sequence field embedded in an identifier.
    pub fn get_increment(snowflake: &u64) -> (sequence: u64)
        ensures
            sequence == increment_of(*snowflake),
            sequence < 4096,
    {
        let s: u64 = *snowflake;
        proof {
            assert(s & 0xFFF < 4096) by (bit_vector);
        }
        s & 0xFFF
    }

    /// The relative offset of an identifier's time field from the epoch, a
    /// diagnostic quantity; it is not the inverse of `get_time`.
    pub fn get_timestamp(&self, snowflake: &u64) -> (offset: u64)
        requires
            (*snowflake >> 22) >= self.start_millis,
        ensures
            offset == timestamp_of(self.start_millis, *snowflake),
    {
        (*snowflake >> 22) - self.start_millis
    }
}

/// Each field of a well-formed identifier is recovered exactly by its
/// extraction, and the bit layout agrees with the positional arithmetic form.
pub proof fn lemma_id_of_fields(relative: u64, worker: u64, process: u64, sequence: u64)
    requires
        relative <= MAX_RELATIVE_MILLIS,
        worker < 32,
        process < 32,
        sequence < 4096,
    ensures
        id_of(relative, worker, process, sequence) >> 22 == relative,
        increment_of(id_of(relative, worker, process, sequence)) == sequence,
        id_of(relative, worker, process, sequence) == relative * 0x40_0000 + worker * 0x2_0000
            + process * 0x1000 + sequence,
{
    assert(relative <= 0x1FF_FFFF_FFFFu64 && worker < 32 && process < 32 && sequence < 4096
        ==> ((relative << 22) | (worker << 17) | (process << 12) | sequence) >> 22 == relative
        && (((relative << 22) | (worker << 17) | (process << 12) | sequence) & 0xFFF) == sequence
        && ((relative << 22) | (worker << 17) | (process << 12) | sequence) == relative
        * 0x40_0000 + worker * 0x2_0000 + process * 0x1000 + sequence) by (bit_vector);
}

/// Uniqueness within one millisecond: identifiers built for the same relative
/// time by one generator differ whenever their sequence values differ.
pub proof fn lemma_ids_distinct_same_millis(
    relative: u64,
    worker: u64,
    process: u64,
    sequence1: u64,
    sequence2: u64,
)
    requires
        relative <= MAX_RELATIVE_MILLIS,
        worker < 32,
        process < 32,
        sequence1 < 4096,
        sequence2 < 4096,
        sequence1 != sequence2,
    ensures
        id_of(relative, worker, process, sequence1) != id_of(relative, worker, process, sequence2),
{
    lemma_id_of_fields(relative, worker, process, sequence1);
    lemma_id_of_fields(relative, worker, process, sequence2);
}

/// The sequence counter advances one step per creation: after `calls`
/// creations, one more creation moves the counter to the value after
/// `calls + 1` creations.
pub proof fn lemma_sequence_progression(start_counter: u16, calls: u64)
    requires
        start_counter < 4096,
        calls < 4096,
    ensures
        sequence_after_calls(start_counter, 0) == start_counter,
        sequence_after_calls(start_counter, calls) < 4096,
        sequence_after((sequence_after_calls(start_counter, calls)) as u16) as u64
            == sequence_after_calls(start_counter, (calls + 1) as u64),
{
    let s: u64 = start_counter as u64;
    assert(s < 4096 && calls < 4096 ==> s % 4096 == s && (s + calls) % 4096 < 4096 && ((s
        + calls) % 4096 + 1) % 4096 == (s + calls + 1) % 4096) by (bit_vector);
}

/// Uniqueness under concurrency: among any run of at most 4096 identifier
/// creations serialized on one generator within a single millisecond, the
/// identifiers are pairwise distinct, because the sequence values taken by
/// two different creations in the run differ.
pub proof fn lemma_create_id_unique(
    creator: SnowflakeCreator,
    relative: u64,
    call_i: u64,
    call_j: u64,
    total_calls: u64,
)
    requires
        creator.wf(),
        relative <= MAX_RELATIVE_MILLIS,
        1 <= call_i < call_j <= total_calls,
        total_calls <= 4096,
    ensures
        sequence_after_calls(creator.increment, call_i) != sequence_after_calls(
            creator.increment,
            call_j,
        ),
        id_of(relative, creator.worker_id, creator.process_id, sequence_after_calls(
            creator.increment,
            call_i,
        )) != id_of(relative, creator.worker_id, creator.process_id, sequence_after_calls(
            creator.increment,
            call_j,
        )),
{
    let s: u64 = creator.increment as u64;
    assert(s < 4096 && 1 <= call_i && call_i < call_j && call_j <= 4096 ==> (s + call_i) % 4096
        != (s + call_j) % 4096 && (s + call_i) % 4096 < 4096 && (s + call_j) % 4096 < 4096)
        by (bit_vector);
    lemma_ids_distinct_same_millis(
        relative,
        creator.worker_id,
        creator.process_id,
        sequence_after_calls(creator.increment, call_i),
        sequence_after_calls(creator.increment, call_j),
    );
}

/// Monotonic correlation: an identifier created at an earlier wall-clock time
/// is numerically smaller than one created by the same generator at a later
/// time at least one millisecond apart, whatever the sequence values, as long
/// as the earlier time lies strictly inside the 41-bit window (times at or
/// past the window's end all clamp to the same time field).
pub proof fn lemma_monotonic_correlation(
    creator: SnowflakeCreator,
    time1: u64,
    time2: u64,
    sequence1: u64,
    sequence2: u64,
)
    requires
        creator.wf(),
        creator.start_millis <= time1 < time2,
        time1 - creator.start_millis < MAX_RELATIVE_MILLIS,
        sequence1 < 4096,
        sequence2 < 4096,
    ensures
        id_of(
            clamped_relative(creator.start_millis, time1),
            creator.worker_id,
            creator.process_id,
            sequence1,
        ) < id_of(
            clamped_relative(creator.start_millis, time2),
            creator.worker_id,
            creator.process_id,
            sequence2,
        ),
{
    let relative1 = clamped_relative(creator.start_millis, time1);
    let relative2 = clamped_relative(creator.start_millis, time2);
    let worker = creator.worker_id;
    let process = creator.process_id;
    assert(relative1 < relative2);
    lemma_id_of_fields(relative1, worker, process, sequence1);
    lemma_id_of_fields(relative2, worker, process, sequence2);
    assert(relative1 * 0x40_0000 + 0x40_0000 <= relative2 * 0x40_0000) by (nonlinear_arith)
        requires
            relative1 < relative2,
    ;
}

/// Round trip between the two time projections: recovering the absolute
/// creation time and subtracting the epoch agrees with the relative offset
/// exactly when the epoch reference is zero (for a non-zero epoch the
/// relative offset is measured against the epoch a second time, a distinct
/// diagnostic quantity).
pub proof fn lemma_time_round_trip(creator: SnowflakeCreator, snowflake: u64)
    requires
        creator.start_millis == 0,
    ensures
        time_of(creator.start_millis, snowflake) - creator.start_millis == timestamp_of(
            creator.start_millis,
            snowflake,
        ),
{
}

/// Recovering the creation time inverts identifier creation: the absolute
/// time read back from a constructed identifier is the epoch plus the
/// relative time the identifier was built from.
pub proof fn lemma_get_time_inverts_creation(
    relative: u64,
    worker: u64,
    process: u64,
    sequence: u64,
    start: u64,
)
    requires
        relative <= MAX_RELATIVE_MILLIS,
        worker < 32,
        process < 32,
        sequence < 4096,
    ensures
        time_of(start, id_of(relative, worker, process, sequence)) == start + relative,
{
    lemma_id_of_fields(relative, worker, process, sequence);
}

/// Sequence extraction: the sequence field of a constructed identifier is
/// exactly the sequence value it was built from.
pub proof fn lemma_sequence_extraction(relative: u64, worker: u64, process: u64, sequence: u64)
    requires
        relative <= MAX_RELATIVE_MILLIS,
        worker < 32,
        process < 32,
        sequence < 4096,
    ensures
        increment_of(id_of(relative, worker, process, sequence)) == sequence,
{
    lemma_id_of_fields(relative, worker, process, sequence);
}

/// Wraparound: a creation that finds the counter at 4095 wraps it to zero,
/// and the identifier it yields carries sequence field zero.
pub proof fn lemma_wraparound(relative: u64, worker: u64, process: u64)
    requires
        relative <= MAX_RELATIVE_MILLIS,
        worker < 32,
        process < 32,
    ensures
        sequence_after(4095) == 0,
        increment_of(id_of(relative, worker, process, sequence_after(4095) as u64)) == 0,
{
    lemma_id_of_fields(relative, worker, process, 0);
}

/// Range translation is a pure projection: its value is a function of the
/// epoch and the input alone (two translations of the same input are one and
/// the same value), and its low 22 bits are always zero.
pub proof fn lemma_conversion_pure(start: u64, time_millis: u64)
    ensures
        time_to_snowflake(start, time_millis) & 0x3F_FFFF == 0,
        time_to_snowflake(start, time_millis) >> 22 == clamped_relative(start, time_millis),
{
    let relative = clamped_relative(start, time_millis);
    assert(relative <= 0x1FF_FFFF_FFFFu64 ==> ((relative << 22) & 0x3F_FFFF == 0 && (relative
        << 22) >> 22 == relative)) by (bit_vector);
}

} // verus!
