//! Snowflake ID generator: packs a millisecond timestamp, a node id and a
//! per-millisecond sequence counter into one 64-bit identifier, and advances
//! a single packed (timestamp, sequence) register so that concurrent callers
//! never commit the same pair twice.

use vstd::prelude::*;
use core::sync::atomic::{AtomicI64, Ordering};
use std::time::{Instant, SystemTime};
use crate::clock;

verus! {

/// Bit allocation for different parts of the Snowflake ID
pub const NODE_BITS: u8 = 10;
pub const STEP_BITS: u8 = 12;
pub const TIMESTAMP_BITS: u8 = 41;

/// Maximum values for node and step
pub const NODE_MAX: u16 = 0x3ff;
pub const STEP_MAX: u16 = 0xfff;

/// Bit shifting constants
pub const TIMESTAMP_SHIFT: u8 = NODE_BITS + STEP_BITS;
pub const NODE_SHIFT: u8 = STEP_BITS;

/// Default epoch (2021-01-01T00:00:00Z in milliseconds since Unix epoch)
pub const DEFAULT_EPOCH: i64 = 1609459200000;

/// Largest millisecond timestamp the packed state register can hold:
/// the timestamp occupies the bits above the 12 sequence bits of an `i64`,
/// which leaves 51 bits for it.
pub const MAX_TIMESTAMP_MS: i64 = 0x7_ffff_ffff_ffff;

/// One past the largest value the 41-bit timestamp field of an ID can hold.
pub const TIMESTAMP_FIELD_LIMIT: u64 = 0x200_0000_0000;

/// Errors that can occur during Snowflake ID generation
#[derive(Debug, Clone, Copy, PartialEq, Eq, Structural)]
pub enum SnowflakeError {
    /// Indicates that the system clock has moved backwards
    ClockMovedBackwards,
    /// Indicates that the provided machine ID is out of the valid range
    MachineIdOutOfRange,
    /// Indicates that the sequence number has overflowed
    SequenceOverflow,
}

impl SnowflakeError {
    /// A human-readable description of the error.
    pub fn message(&self) -> (r: &'static str)
        ensures
            *self == SnowflakeError::ClockMovedBackwards ==> r@ == "Clock moved backwards"@,
            *self == SnowflakeError::MachineIdOutOfRange ==> r@ == "Machine ID is out of range"@,
            *self == SnowflakeError::SequenceOverflow ==> r@ == "Sequence overflow"@,
    {
        match self {
            SnowflakeError::ClockMovedBackwards => "Clock moved backwards",
            SnowflakeError::MachineIdOutOfRange => "Machine ID is out of range",
            SnowflakeError::SequenceOverflow => "Sequence overflow",
        }
    }
}

/// The 41-bit timestamp field of an ID: milliseconds since the generator's
/// epoch at the moment the ID was minted.
pub open spec fn id_timestamp(id: u64) -> u64 {
    (id >> 22) & 0x1ff_ffff_ffff
}

/// The 10-bit node field of an ID.
pub open spec fn id_node(id: u64) -> u64 {
    (id >> 12) & 0x3ff
}

/// The 12-bit sequence field of an ID.
pub open spec fn id_sequence(id: u64) -> u64 {
    id & 0xfff
}

/// An ID assembled from its three fields, most significant first.
pub open spec fn make_id(timestamp: u64, node: u64, sequence: u64) -> u64 {
    (timestamp << 22) | (node << 12) | sequence
}

/// The timestamp half of a packed state register (arithmetic shift, so a
/// negative register decodes to a negative timestamp).
pub open spec fn state_timestamp(state: i64) -> i64 {
    state >> 12
}

/// The sequence half of a packed state register.
pub open spec fn state_sequence(state: i64) -> i64 {
    state & 0xfff
}

// Encodes timestamp and sequence into a single i64 value
fn encode_timestamp_and_sequence(timestamp: i64, sequence: i64) -> (r: i64)
    requires
        0 <= timestamp <= MAX_TIMESTAMP_MS,
        0 <= sequence <= STEP_MAX,
    ensures
        r == timestamp * 4096 + sequence,
        state_timestamp(r) == timestamp,
        state_sequence(r) == sequence,
{
    let r = (timestamp << STEP_BITS) | sequence;
    proof {
        assert((timestamp << 12u8) | sequence == timestamp * 4096 + sequence
            && (((timestamp << 12u8) | sequence) >> 12) == timestamp
            && (((timestamp << 12u8) | sequence) & 0xfff) == sequence) by (bit_vector)
            requires
                0 <= timestamp <= 0x7_ffff_ffff_ffffi64,
                0 <= sequence <= 4095,
        ;
    }
    r
}

// Decodes timestamp and sequence from a single i64 value
fn decode_timestamp_and_sequence(value: i64) -> (r: (i64, i64))
    ensures
        r.0 == state_timestamp(value),
        r.1 == state_sequence(value),
        0 <= r.1 <= STEP_MAX,
        value >= 0 ==> 0 <= r.0 <= MAX_TIMESTAMP_MS && value == r.0 * 4096 + r.1,
        value < 0 ==> r.0 < 0,
{
    let timestamp = value >> STEP_BITS;
    let sequence = value & (STEP_MAX as i64);
    proof {
        assert(0 <= (value & 4095) <= 4095
            && (value >= 0 ==> 0 <= (value >> 12u8) <= 0x7_ffff_ffff_ffffi64
                && value == (value >> 12u8) * 4096 + (value & 4095))
            && (value < 0 ==> (value >> 12u8) < 0)) by (bit_vector);
    }
    (timestamp, sequence)
}

/// Snowflake ID generator
///
/// This struct implements the Snowflake algorithm for generating unique IDs.
/// Each ID is composed of:
/// - Timestamp (41 bits)
/// - Node ID (10 bits)
/// - Sequence number (12 bits)
///
/// The last committed (timestamp, sequence) pair lives in one packed atomic
/// register, advanced only by compare-and-swap, so that concurrent callers
/// can never tear a sequence reset apart from a timestamp advance.
pub struct Snowflake {
    node: u16,
    epoch_ms: i64,
    last_timestamp_and_sequence: AtomicI64,
}

impl Snowflake {
    #[verifier::type_invariant]
    spec fn wf(&self) -> bool {
        self.node <= NODE_MAX
    }

    /// The node id this generator stamps into every ID.
    pub closed spec fn spec_node(&self) -> u16 {
        self.node
    }

    /// The epoch this generator subtracts from wall-clock milliseconds.
    pub closed spec fn spec_epoch(&self) -> i64 {
        self.epoch_ms
    }

    /// Creates a new Snowflake instance
    ///
    /// # Arguments
    ///
    /// * `node` - A unique identifier for the node generating the IDs (0-1023)
    /// * `epoch` - An optional custom epoch in milliseconds. If None, DEFAULT_EPOCH is used.
    ///
    /// # Errors
    ///
    /// Returns SnowflakeError::MachineIdOutOfRange if the node ID is greater than 1023
    pub fn new(node: u16, epoch: Option<i64>) -> (r: Result<Self, SnowflakeError>)
        ensures
            r matches Ok(g) <==> node <= NODE_MAX,
            r matches Ok(g) ==> g.spec_node() == node && g.spec_epoch() == (match epoch {
                Some(e) => e,
                None => DEFAULT_EPOCH,
            }),
            r matches Err(e) ==> e == SnowflakeError::MachineIdOutOfRange,
    {
        if node > NODE_MAX {
            return Err(SnowflakeError::MachineIdOutOfRange);
        }
        let epoch_ms = match epoch {
            Some(e) => e,
            None => DEFAULT_EPOCH,
        };
        Ok(
            Snowflake {
                node,
                epoch_ms,
                last_timestamp_and_sequence: AtomicI64::new(0),
            },
        )
    }

    /// Parses a Snowflake ID into its components
    /// # Arguments
    /// * `id` - The Snowflake ID to parse
    /// # Returns
    /// A tuple containing the timestamp, node ID, and sequence number; the
    /// timestamp is relative to the epoch of the generator that minted the ID.
    pub fn parse_id(id: u64) -> (r: (u64, u16, u16))
        ensures
            r.0 == id_timestamp(id),
            r.1 == id_node(id),
            r.2 == id_sequence(id),
            r.0 < TIMESTAMP_FIELD_LIMIT,
            r.1 <= NODE_MAX,
            r.2 <= STEP_MAX,
    {
        proof {
            assert((1u64 << 41u8) - 1 == 0x1ff_ffff_ffffu64 && (1u64 << 10u8) - 1 == 0x3ffu64 && (
            1u64 << 12u8) - 1 == 0xfffu64) by (bit_vector);
            assert(((id >> 22u8) & 0x1ff_ffff_ffffu64) < 0x200_0000_0000u64 && ((id >> 12u8)
                & 0x3ffu64) <= 1023u64 && (id & 0xfffu64) <= 4095u64) by (bit_vector);
        }
        let timestamp = (id >> TIMESTAMP_SHIFT) & ((1u64 << TIMESTAMP_BITS) - 1);
        let node = ((id >> NODE_SHIFT) & ((1u64 << NODE_BITS) - 1)) as u16;
        let sequence = (id & ((1u64 << STEP_BITS) - 1)) as u16;
        (timestamp, node, sequence)
    }

    // Returns the current timestamp in milliseconds since the Unix epoch,
    // clamped into the range the packed state register can hold; a clock
    // before the Unix epoch reads as zero.
    fn current_time_millis(&self) -> (r: i64)
        ensures
            0 <= r <= MAX_TIMESTAMP_MS,
    {
        let now = SystemTime::now();
        let ms: u128 = match now.duration_since(clock::unix_epoch()) {
            Ok(d) => d.as_millis(),
            Err(_) => 0,
        };
        if ms > MAX_TIMESTAMP_MS as u128 {
            MAX_TIMESTAMP_MS
        } else {
            ms as i64
        }
    }

    // Waits until the clock passes `last_timestamp`, giving up with
    // SequenceOverflow after 5 seconds on the monotonic clock.
    fn wait_next_millis(&self, last_timestamp: i64) -> (r: Result<i64, SnowflakeError>)
        ensures
            r matches Ok(ts) ==> last_timestamp < ts <= MAX_TIMESTAMP_MS && 0 <= ts,
            r matches Err(e) ==> e == SnowflakeError::SequenceOverflow,
    {
        let start = Instant::now();
        // The poll budget only bounds the loop for the termination proof; the
        // 5-second deadline below trips long before 2^64 polls can pass.
        let mut polls: u64 = u64::MAX;
        loop
            decreases polls,
        {
            let current_timestamp = self.current_time_millis();
            if current_timestamp > last_timestamp {
                return Ok(current_timestamp);
            }
            if start.elapsed().as_millis() > 5000 {  // 5 seconds max wait
                return Err(SnowflakeError::SequenceOverflow);
            }
            if polls == 0 {
                return Err(SnowflakeError::SequenceOverflow);
            }
            polls = polls - 1;
            clock::cpu_relax();
        }
    }

    // Creates the final ID by combining timestamp, node ID, and sequence
    fn create_id(&self, timestamp: i64, sequence: u16) -> (r: u64)
        requires
            sequence <= STEP_MAX,
        ensures
            id_node(r) == self.spec_node(),
            id_sequence(r) == sequence,
            self.spec_epoch() <= timestamp && timestamp - self.spec_epoch()
                < TIMESTAMP_FIELD_LIMIT ==> r == make_id(
                (timestamp - self.spec_epoch()) as u64,
                self.spec_node() as u64,
                sequence as u64,
            ) && id_timestamp(r) == timestamp - self.spec_epoch(),
    {
        proof {
            use_type_invariant(&*self);
        }
        let diff = timestamp.wrapping_sub(self.epoch_ms);
        let field = #[verifier::truncate] (diff as u64);
        let r = (field << TIMESTAMP_SHIFT) | ((self.node as u64) << NODE_SHIFT) | (
        sequence as u64);
        proof {
            let node = self.node as u64;
            let seq = sequence as u64;
            assert(((field << 22u8) | (node << 12u8) | seq) == ((field << 22) | (node << 12)
                | seq)) by (bit_vector);
            assert((((field << 22) | (node << 12) | seq) >> 12) & 0x3ff == node && (((field << 22)
                | (node << 12) | seq) & 0xfff) == seq) by (bit_vector)
                requires
                    node <= 1023u64,
                    seq <= 4095u64,
            ;
            if self.spec_epoch() <= timestamp && timestamp - self.spec_epoch()
                < TIMESTAMP_FIELD_LIMIT {
                lemma_parse_round_trip(field, node, seq);
            }
        }
        r
    }

    /// Generates a new Snowflake ID
    ///
    /// # Returns
    ///
    /// A Result containing the generated ID as a u64 or a SnowflakeError;
    /// every ID carries this generator's node id in its node field.
    ///
    /// # Errors
    ///
    /// - SnowflakeError::ClockMovedBackwards if the system time moves backwards
    /// - SnowflakeError::SequenceOverflow if unable to generate a unique ID within 5 seconds
    pub fn generate(&self) -> (r: Result<u64, SnowflakeError>)
        ensures
            r matches Ok(id) ==> id_node(id) == self.spec_node() && id_sequence(id) <= STEP_MAX,
            r matches Err(e) ==> e == SnowflakeError::ClockMovedBackwards || e
                == SnowflakeError::SequenceOverflow,
    {
        let current_timestamp = self.current_time_millis();
        let mut last = self.last_timestamp_and_sequence.load(Ordering::Acquire);
        // Each failed swap means another caller committed first, and the
        // register holds fewer than 2^63 values, so the retry budget only
        // bounds the loop for the termination proof.
        let mut retries: u64 = u64::MAX;
        loop
            invariant
                0 <= current_timestamp <= MAX_TIMESTAMP_MS,
            decreases retries,
        {
            let decoded = decode_timestamp_and_sequence(last);
            let last_timestamp = decoded.0;
            let last_sequence = decoded.1;
            let advance = next_timestamp_and_sequence(
                current_timestamp,
                last_timestamp,
                last_sequence,
            );
            let pair: (i64, i64) = match advance {
                Advance::ClockBehind => {
                    return Err(SnowflakeError::ClockMovedBackwards);
                },
                Advance::ExhaustedMillis => {
                    match self.wait_next_millis(last_timestamp) {
                        Ok(ts) => (ts, 0),
                        Err(e) => {
                            return Err(e);
                        },
                    }
                },
                Advance::Next(t, s) => (t, s),
            };
            let new_timestamp = pair.0;
            let new_sequence = pair.1;
            let new_state = encode_timestamp_and_sequence(new_timestamp, new_sequence);
            // The candidate register value is strictly above the observed
            // one, so a successful swap always advances the register.
            assert(last < new_state) by {
                if last >= 0 {
                    lemma_pack_preserves_order(
                        last_timestamp,
                        last_sequence,
                        new_timestamp,
                        new_sequence,
                    );
                }
            };
            match self.last_timestamp_and_sequence.compare_exchange_weak(
                last,
                new_state,
                Ordering::AcqRel,
                Ordering::Acquire,
            ) {
                Ok(_) => {
                    let id = self.create_id(new_timestamp, new_sequence as u16);
                    return Ok(id);
                },
                Err(actual) => {
                    if retries == 0 {
                        return Err(SnowflakeError::SequenceOverflow);
                    }
                    retries = retries - 1;
                    last = actual;
                },
            }
        }
    }
}

/// What a generation attempt must do, given the clock reading `now` and the
/// last committed (timestamp, sequence) pair.
#[derive(Debug, Clone, Copy, PartialEq, Eq, Structural)]
pub enum Advance {
    /// The clock is behind the last committed timestamp: fail.
    ClockBehind,
    /// The sequence space of the current millisecond is exhausted: wait for
    /// the clock to pass the last committed timestamp.
    ExhaustedMillis,
    /// Commit this (timestamp, sequence) pair.
    Next(i64, i64),
}

/// Decides the next (timestamp, sequence) pair from the current clock reading
/// and the last committed pair: a fresh millisecond restarts the sequence at
/// zero, the same millisecond increments it, and a full sequence forces a wait.
pub fn next_timestamp_and_sequence(now: i64, last_timestamp: i64, last_sequence: i64) -> (r: Advance)
    requires
        0 <= now <= MAX_TIMESTAMP_MS,
        0 <= last_sequence <= STEP_MAX,
        last_timestamp <= MAX_TIMESTAMP_MS,
    ensures
        r == Advance::ClockBehind <==> now < last_timestamp,
        r == Advance::ExhaustedMillis <==> (now == last_timestamp && last_sequence == STEP_MAX),
        now > last_timestamp ==> r == Advance::Next(now, 0),
        now == last_timestamp && last_sequence < STEP_MAX ==> (r == Advance::Next(
            now,
            (last_sequence + 1) as i64,
        )),
        r matches Advance::Next(t, s) ==> now <= t <= MAX_TIMESTAMP_MS && 0 <= s <= STEP_MAX && (
        t > last_timestamp || (t == last_timestamp && s > last_sequence)),
{
    if now < last_timestamp {
        Advance::ClockBehind
    } else if now == last_timestamp {
        let new_sequence = (last_sequence + 1) & (STEP_MAX as i64);
        proof {
            assert(1 <= last_sequence + 1 <= 4096 ==> ((last_sequence + 1) as i64) & 4095 == (
            if last_sequence == 4095 {
                0
            } else {
                (last_sequence + 1) as i64
            })) by (bit_vector);
        }
        if new_sequence == 0 {
            Advance::ExhaustedMillis
        } else {
            Advance::Next(now, new_sequence)
        }
    } else {
        Advance::Next(now, 0)
    }
}

/// Law: for pairs within range, packing is order-preserving, so the packed
/// state register increases exactly when the (timestamp, sequence) pair
/// increases lexicographically. Committed register values are totally
/// ordered, hence so are the pairs of successfully generated IDs.
pub proof fn lemma_pack_preserves_order(t1: i64, s1: i64, t2: i64, s2: i64)
    requires
        0 <= t1 <= MAX_TIMESTAMP_MS,
        0 <= s1 <= STEP_MAX,
        0 <= t2 <= MAX_TIMESTAMP_MS,
        0 <= s2 <= STEP_MAX,
    ensures
        (t1 < t2 || (t1 == t2 && s1 < s2)) <==> t1 * 4096 + s1 < t2 * 4096 + s2,
{
    assert((t1 < t2 || (t1 == t2 && s1 < s2)) <==> t1 * 4096 + s1 < t2 * 4096 + s2)
        by (nonlinear_arith)
        requires
            0 <= t1,
            0 <= s1 <= 4095,
            0 <= t2,
            0 <= s2 <= 4095,
    ;
}

/// Law: two IDs minted by the same node from distinct (timestamp, sequence)
/// pairs are distinct, so a generator that never commits the same pair twice
/// never mints the same ID twice.
pub proof fn lemma_distinct_pairs_give_distinct_ids(t1: u64, s1: u64, t2: u64, s2: u64, node: u64)
    requires
        t1 < TIMESTAMP_FIELD_LIMIT,
        t2 < TIMESTAMP_FIELD_LIMIT,
        s1 <= STEP_MAX,
        s2 <= STEP_MAX,
        node <= NODE_MAX,
        t1 != t2 || s1 != s2,
    ensures
        make_id(t1, node, s1) != make_id(t2, node, s2),
{
    assert(((t1 << 22) | (node << 12) | s1) != ((t2 << 22) | (node << 12) | s2)) by (bit_vector)
        requires
            t1 < 0x200_0000_0000u64,
            t2 < 0x200_0000_0000u64,
            s1 <= 4095u64,
            s2 <= 4095u64,
            node <= 1023u64,
            t1 != t2 || s1 != s2,
    ;
}

/// Law: the register commits of one generator order and separate its IDs.
/// Every successful generation commits a packed register value strictly above
/// the one it observed, so any two commits are ordered; this lemma says that
/// for two committed register values in order, the (timestamp, sequence)
/// pairs they decode to are in strict lexicographic order, and, whenever the
/// timestamps lie in the 41-bit window above `epoch`, the IDs minted from
/// them are distinct.
pub proof fn lemma_commits_order_and_separate_ids(state1: i64, state2: i64, node: u64, epoch: i64)
    requires
        0 <= state1 < state2,
        node <= NODE_MAX,
        epoch <= state_timestamp(state1),
        state_timestamp(state2) - epoch < TIMESTAMP_FIELD_LIMIT,
    ensures
        state_timestamp(state1) < state_timestamp(state2) || (state_timestamp(state1)
            == state_timestamp(state2) && state_sequence(state1) < state_sequence(state2)),
        make_id(
            (state_timestamp(state1) - epoch) as u64,
            node,
            state_sequence(state1) as u64,
        ) != make_id((state_timestamp(state2) - epoch) as u64, node, state_sequence(state2) as u64),
{
    let t1 = state_timestamp(state1);
    let s1 = state_sequence(state1);
    let t2 = state_timestamp(state2);
    let s2 = state_sequence(state2);
    assert(state1 == (state1 >> 12u8) * 4096 + (state1 & 0xfff) && 0 <= (state1 & 0xfff) <= 4095
        && 0 <= (state1 >> 12u8) <= 0x7_ffff_ffff_ffffi64) by (bit_vector)
        requires
            state1 >= 0,
    ;
    assert(state2 == (state2 >> 12u8) * 4096 + (state2 & 0xfff) && 0 <= (state2 & 0xfff) <= 4095
        && 0 <= (state2 >> 12u8) <= 0x7_ffff_ffff_ffffi64) by (bit_vector)
        requires
            state2 >= 0,
    ;
    lemma_pack_preserves_order(t1, s1, t2, s2);
    lemma_distinct_pairs_give_distinct_ids(
        (t1 - epoch) as u64,
        s1 as u64,
        (t2 - epoch) as u64,
        s2 as u64,
        node,
    );
}

/// Law: parsing recovers exactly the fields an ID was assembled from, for any
/// in-range timestamp, node and sequence.
pub proof fn lemma_parse_round_trip(timestamp: u64, node: u64, sequence: u64)
    requires
        timestamp < TIMESTAMP_FIELD_LIMIT,
        node <= NODE_MAX,
        sequence <= STEP_MAX,
    ensures
        id_timestamp(make_id(timestamp, node, sequence)) == timestamp,
        id_node(make_id(timestamp, node, sequence)) == node,
        id_sequence(make_id(timestamp, node, sequence)) == sequence,
{
    assert(((((timestamp << 22) | (node << 12) | sequence) >> 22) & 0x1ff_ffff_ffff) == timestamp
        && ((((timestamp << 22) | (node << 12) | sequence) >> 12) & 0x3ff) == node && (((timestamp
        << 22) | (node << 12) | sequence) & 0xfff) == sequence) by (bit_vector)
        requires
            timestamp < 0x200_0000_0000u64,
            node <= 1023u64,
            sequence <= 4095u64,
    ;
}

} // verus!
