//! Arithmetic on period sequence numbers.
//!
//! Sequence numbers are `u64` values that wrap. Two of them are ordered by the shorter way round:
//! one comes before another when the other is reached by fewer than 2^63 forward steps.
use vstd::prelude::*;

verus! {

/// Number of values in the sequence space.
pub open spec fn sequence_space() -> int {
    0x1_0000_0000_0000_0000
}

/// Forward steps needed to go from `from` to `to`.
pub open spec fn sequence_distance(from: u64, to: u64) -> int {
    (to - from) % sequence_space()
}

/// The sequence number `steps` periods after `from`.
pub open spec fn sequence_after(from: u64, steps: int) -> u64 {
    ((from + steps) % sequence_space()) as u64
}

/// `sequence` comes strictly before `target`.
pub open spec fn precedes(sequence: u64, target: u64) -> bool {
    0 < sequence_distance(sequence, target) < sequence_space() / 2
}

/// The later of two sequence numbers; `next` itself unless it comes strictly before `target`.
pub open spec fn later_sequence(next: u64, target: u64) -> u64 {
    if precedes(next, target) {
        target
    } else {
        next
    }
}

/// How many periods `last_published` lies behind `expected`.
pub open spec fn published_lag(expected: u64, last_published: u64) -> int {
    if sequence_distance(last_published, expected) < sequence_space() / 2 {
        sequence_distance(last_published, expected)
    } else {
        0
    }
}

/// Whether `sequence` comes strictly before `target`.
pub fn sequence_before(sequence: u64, target: u64) -> (before: bool)
    ensures
        before == precedes(sequence, target),
{
    sequence != target && target.wrapping_sub(sequence) < 0x8000_0000_0000_0000
}

/// The sequence number that follows `sequence`.
pub fn next_sequence(sequence: u64) -> (next: u64)
    ensures
        next == sequence_after(sequence, 1),
{
    sequence.wrapping_add(1)
}

/// The PRO target is the playback sequence moved forward by the configured lead.
pub fn pro_target_sequence(playback_sequence: u64, lead: u64) -> (target: u64)
    ensures
        target == sequence_after(playback_sequence, lead as int),
{
    playback_sequence.wrapping_add(lead)
}

/// Moves `next` to `target` when it lies behind it, and never backwards.
pub fn align_sequence_forward(next: &mut u64, target: u64)
    ensures
        *final(next) == later_sequence(*old(next), target),
{
    if sequence_before(*next, target) {
        *next = target;
    }
}

/// Takes the sequence number for one captured period and advances the counter past it.
///
/// The counter first catches up with `rebase_target`; it follows the hardware generation but is
/// never reset by a change of it.
pub fn take_pro_capture_sequence(
    next: &mut u64,
    generation: &mut u64,
    current_generation: u64,
    rebase_target: u64,
) -> (sequence: u64)
    ensures
        sequence == later_sequence(*old(next), rebase_target),
        *final(next) == sequence_after(sequence, 1),
        *final(generation) == current_generation,
{
    if *generation != current_generation {
        *generation = current_generation;
    }
    align_sequence_forward(next, rebase_target);
    let sequence: u64 = *next;
    *next = next_sequence(sequence);
    sequence
}

/// How many periods `last_published` lies behind `expected`; zero when it is not behind.
pub fn playback_sequence_lag(expected: u64, last_published: u64) -> (lag: u64)
    ensures
        lag == published_lag(expected, last_published),
{
    let distance: u64 = expected.wrapping_sub(last_published);
    if distance < 0x8000_0000_0000_0000 {
        distance
    } else {
        0
    }
}

/// No sequence number comes before itself.
pub proof fn precedes_is_irreflexive(sequence: u64)
    ensures
        !precedes(sequence, sequence),
{
}

/// Of two sequence numbers at most one comes before the other.
pub proof fn precedes_is_asymmetric(a: u64, b: u64)
    requires
        precedes(a, b),
    ensures
        !precedes(b, a),
{
}

/// Two different sequence numbers are always ordered one way or the other, unless they lie exactly
/// half the sequence space apart.
pub proof fn precedes_is_total(a: u64, b: u64)
    requires
        a != b,
        sequence_distance(a, b) != sequence_space() / 2,
    ensures
        precedes(a, b) || precedes(b, a),
{
}

/// Stepping forward by less than half the sequence space always moves to a later number.
pub proof fn stepping_forward_is_later(from: u64, steps: int)
    requires
        0 < steps < sequence_space() / 2,
    ensures
        precedes(from, sequence_after(from, steps)),
        sequence_distance(from, sequence_after(from, steps)) == steps,
{
}

/// Aligning never moves a sequence number backwards, and afterwards it is not behind the target.
pub proof fn alignment_never_moves_backwards(next: u64, target: u64)
    ensures
        later_sequence(next, target) == next || precedes(next, later_sequence(next, target)),
        !precedes(later_sequence(next, target), target),
{
}

/// Captured periods are numbered strictly increasingly, whatever target the playback side shows
/// before the second of them. The one exception is a target exactly half the sequence space away,
/// which has no order.
pub proof fn capture_sequences_strictly_increase(first: u64, target: u64)
    requires
        sequence_distance(first, target) != sequence_space() / 2,
    ensures
        precedes(first, later_sequence(sequence_after(first, 1), target)),
{
}

/// A published sequence lags exactly when it comes before the expected one.
pub proof fn lag_is_positive_exactly_when_behind(expected: u64, last_published: u64)
    ensures
        published_lag(expected, last_published) > 0 <==> precedes(last_published, expected),
{
}

/// Sequence numbers that lie less than half the space apart, without a wrap between them, are
/// ordered as numbers are, the later of two is the larger, and a lag is their difference.
pub proof fn nearby_sequences_are_ordered_as_numbers(a: u64, b: u64)
    requires
        -0x8000_0000_0000_0000 < a - b < 0x8000_0000_0000_0000,
    ensures
        precedes(a, b) <==> a < b,
        later_sequence(a, b) >= a,
        later_sequence(a, b) >= b,
        later_sequence(a, b) == a || later_sequence(a, b) == b,
        b <= a ==> published_lag(a, b) == a - b,
        a <= b ==> published_lag(a, b) == 0,
{
}

/// A sequence number is moved forward by its steps, and past the largest number it goes on from
/// zero.
pub proof fn sequences_step_and_wrap(from: u64, steps: u64)
    ensures
        from + steps <= 0xffff_ffff_ffff_ffff ==> sequence_after(from, steps as int) == from
            + steps,
        from + steps > 0xffff_ffff_ffff_ffff ==> sequence_after(from, steps as int) == from + steps
            - 0x1_0000_0000_0000_0000,
        sequence_after(0xffff_ffff_ffff_ffff, 1) == 0,
        precedes(0xffff_ffff_ffff_ffff, 0),
        published_lag(0, 0xffff_ffff_ffff_ffff) == 1,
{
}

} // verus!
