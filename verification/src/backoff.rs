//! Waiting times that grow: units that talk at the same time on a
//! shared link must not try again at the same time.

use vstd::prelude::*;
use rand::Rng;

verus! {

/// The first waiting time is below this many milliseconds.
pub const DELAY_INIT_MAX: u64 = 100;

/// No waiting time is above this many milliseconds.
pub const DELAY_MAX: u64 = 10000;

/// The shortest time between two rounds of the serving loop, in
/// milliseconds.
pub const SERVE_DELAY_MIN: u32 = 10;

/// The time between two rounds of the serving loop is below this many
/// milliseconds.
pub const SERVE_DELAY_MAX: u32 = 100;

/// Calls `gen_range` of `rand`, on the generator of the thread, for
/// the half-open range from `low` to `high`. What is claimed: the
/// number lies in that range. Which number it is depends on chance.
/// The outside function panics on an empty range, which `requires`
/// leaves out, and where the system has no randomness to give.
#[verifier::external_body]
fn gen_range(low: u64, high: u64) -> (drawn: u64)
    requires
        low < high,
    ensures
        low <= drawn < high,
{
    rand::thread_rng().gen_range(low..high)
}

/// Calls `random` of `rand` for a 32-bit number. Nothing is claimed of
/// the number.
#[verifier::external_body]
fn random() -> (drawn: u32) {
    rand::random::<u32>()
}

/// The waiting time that a number stands for: `drawn` if it is a
/// first waiting time, else the nearest one.
pub open spec fn spec_first_delay(drawn: u64) -> u64 {
    if drawn < 1 {
        1
    } else if drawn >= DELAY_INIT_MAX {
        (DELAY_INIT_MAX - 1) as u64
    } else {
        drawn
    }
}

/// The waiting time after `delay`: twice as long, up to `DELAY_MAX`.
pub open spec fn spec_next_delay(delay: u64) -> u64 {
    if 2 * delay > DELAY_MAX {
        DELAY_MAX
    } else {
        (2 * delay) as u64
    }
}

/// The time between two rounds of the serving loop that a number
/// stands for.
pub open spec fn spec_serve_delay(drawn: u32) -> u32 {
    (drawn % 90 + 10) as u32
}

/// The time to wait before the next try, in milliseconds.
#[derive(Debug)]
pub struct Backoff {
    delay: u64,
}

impl View for Backoff {
    type V = u64;

    closed spec fn view(&self) -> u64 {
        self.delay
    }
}

impl Backoff {
    #[verifier::type_invariant]
    spec fn inv(&self) -> bool {
        1 <= self.delay <= DELAY_MAX
    }

    /// Begins with a waiting time that is drawn by chance.
    pub fn new() -> (backoff: Backoff)
        ensures
            1 <= backoff@ < DELAY_INIT_MAX,
    {
        Self::begin_at(gen_range(1, DELAY_INIT_MAX))
    }

    /// Begins with the waiting time that `drawn` stands for.
    pub fn begin_at(drawn: u64) -> (backoff: Backoff)
        ensures
            backoff@ == spec_first_delay(drawn),
    {
        let delay: u64 = if drawn < 1 {
            1
        } else if drawn >= DELAY_INIT_MAX {
            DELAY_INIT_MAX - 1
        } else {
            drawn
        };
        Backoff { delay }
    }

    /// Goes back to a first waiting time, drawn by chance.
    pub fn reset(&mut self)
        ensures
            1 <= final(self)@ < DELAY_INIT_MAX,
    {
        *self = Self::new();
    }

    /// The time to wait now. The next one is twice as long.
    pub fn wait(&mut self) -> (millis: u64)
        ensures
            millis == old(self)@,
            final(self)@ == spec_next_delay(old(self)@),
    {
        proof {
            use_type_invariant(&*self);
        }
        let millis = self.delay;
        let doubled: u64 = if self.delay > DELAY_MAX / 2 {
            DELAY_MAX
        } else {
            2 * self.delay
        };
        self.delay = doubled;
        millis
    }

    /// The time to wait now.
    pub fn get_delay(&self) -> (millis: u64)
        ensures
            millis == self@,
            1 <= millis <= DELAY_MAX,
    {
        proof {
            use_type_invariant(self);
        }
        self.delay
    }
}

/// The time between two rounds of the serving loop that `drawn` stands
/// for, in milliseconds.
pub fn serve_delay_of(drawn: u32) -> (millis: u32)
    ensures
        millis == spec_serve_delay(drawn),
        SERVE_DELAY_MIN <= millis < SERVE_DELAY_MAX,
{
    drawn % (SERVE_DELAY_MAX - SERVE_DELAY_MIN) + SERVE_DELAY_MIN
}

/// A time to wait between two rounds of the serving loop, drawn by
/// chance, in milliseconds.
pub fn serve_delay() -> (millis: u32)
    ensures
        SERVE_DELAY_MIN <= millis < SERVE_DELAY_MAX,
{
    serve_delay_of(random())
}

} // verus!
