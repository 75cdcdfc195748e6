//! One color-update cycle: draw three random bytes, scale them, and classify
//! the outcome of the LED write.
//!
//! The random source and the LED driver are the two collaborators that can
//! fail per cycle. A failed random draw yields `RandomSourceFailure` and no
//! color at all, so no partial write can reach the LED; a failed write yields
//! `LedWriteFailure`. Both are per-cycle errors the control loop absorbs.

use vstd::prelude::*;
use crate::color::{scaled_color, spec_scale, Rgb, BRIGHTNESS_SCALE};

verus! {

/// Why one color-update cycle produced no new LED output.
#[derive(Clone, Copy, Debug, PartialEq, Eq, Structural)]
pub enum UpdateError {
    /// The random source could not supply three bytes.
    RandomSourceFailure,
    /// The LED driver reported a transmission error.
    LedWriteFailure,
}

#[verifier::external_type_specification]
#[verifier::external_body]
pub struct ExGetrandomError(getrandom::Error);

/// Relies on getrandom::getrandom: on `Ok` it has filled the buffer with
/// bytes from the platform's entropy source. The bytes depend on that
/// source, not on any argument, so nothing is stated of their values; every
/// caller must handle every triple.
#[verifier::external_body]
fn fetch_random_bytes() -> (r: Result<(u8, u8, u8), getrandom::Error>) {
    let mut buf = [0u8; 3];
    match getrandom::getrandom(&mut buf) {
        Ok(()) => Ok((buf[0], buf[1], buf[2])),
        Err(e) => Err(e),
    }
}

/// Turn the random source's outcome into this cycle's color: three bytes
/// scale to one color at the configured brightness; no bytes means the cycle
/// fails before any color exists, so the LED driver is never handed a
/// partial result.
pub fn plan_color(bytes: Option<(u8, u8, u8)>) -> (r: Result<Rgb, UpdateError>)
    ensures
        bytes matches Some(b) ==> r == Ok::<Rgb, UpdateError>(
            Rgb {
                r: spec_scale(b.0, BRIGHTNESS_SCALE) as u8,
                g: spec_scale(b.1, BRIGHTNESS_SCALE) as u8,
                b: spec_scale(b.2, BRIGHTNESS_SCALE) as u8,
            },
        ),
        bytes is None ==> r == Err::<Rgb, UpdateError>(UpdateError::RandomSourceFailure),
{
    match bytes {
        Some((b0, b1, b2)) => Ok(scaled_color(b0, b1, b2, BRIGHTNESS_SCALE)),
        None => Err(UpdateError::RandomSourceFailure),
    }
}

/// Draw three random bytes and scale them to this cycle's color. Whatever
/// the entropy source returned, the result is either a color within the
/// configured brightness or `RandomSourceFailure`; `LedWriteFailure` can
/// only arise later, from [`complete_write`].
pub fn random_light() -> (r: Result<Rgb, UpdateError>)
    ensures
        r matches Ok(c) ==> c.r <= BRIGHTNESS_SCALE && c.g <= BRIGHTNESS_SCALE && c.b
            <= BRIGHTNESS_SCALE,
        r matches Err(e) ==> e == UpdateError::RandomSourceFailure,
{
    match fetch_random_bytes() {
        Ok(b) => {
            let planned = plan_color(Some(b));
            proof {
                crate::color::lemma_scale_bounds(b.0, BRIGHTNESS_SCALE);
                crate::color::lemma_scale_bounds(b.1, BRIGHTNESS_SCALE);
                crate::color::lemma_scale_bounds(b.2, BRIGHTNESS_SCALE);
            }
            planned
        },
        Err(_) => Err(UpdateError::RandomSourceFailure),
    }
}

/// Classify the LED driver's report for this cycle: a successful write ends
/// the cycle cleanly, a failed one is `LedWriteFailure`. The bytes already
/// drawn are discarded either way; there is no retry within a cycle.
pub fn complete_write(write_ok: bool) -> (r: Result<(), UpdateError>)
    ensures
        write_ok ==> r == Ok::<(), UpdateError>(()),
        !write_ok ==> r == Err::<(), UpdateError>(UpdateError::LedWriteFailure),
{
    if write_ok {
        Ok(())
    } else {
        Err(UpdateError::LedWriteFailure)
    }
}

} // verus!
