//! Choosing the port that the alternate probe leaves from.
//!
//! The probe shows something only if it comes from another port than the one
//! the client spoke to. Which other port is left to chance.

use vstd::prelude::*;

verus! {

/// Lowest port a probe may leave from; the ports below are reserved.
pub const LOWEST_PORT: u16 = 1024;

/// Draws that may collide with the listening port in a row before
/// [`gen_not_equal_port`] stops drawing.
pub const MAX_DRAWS: u32 = 32;

/// Whether `port` can carry the alternate probe of a server that listens on
/// `listening`: it is not reserved, and it is another port.
pub open spec fn is_alternate_port(listening: u16, port: u16) -> bool {
    LOWEST_PORT <= port && port != listening
}

/// The nearest usable port above `listening`, starting over at
/// [`LOWEST_PORT`] past the last one.
pub open spec fn port_after(listening: u16) -> u16 {
    if listening < LOWEST_PORT || listening == u16::MAX {
        LOWEST_PORT
    } else {
        (listening + 1) as u16
    }
}

/// One port between `low` and `high`, both included, drawn by
/// `rand::distributions::Uniform::from(low..=high)` and its `sample` on
/// `rand::thread_rng()`. The contract claims the bounds on what is drawn and
/// nothing of how it is spread. An empty range makes `Uniform` panic and is
/// kept out.
#[verifier::external_body]
fn draw_port(low: u16, high: u16) -> (port: u16)
    requires
        low <= high,
    ensures
        low <= port <= high,
{
    let range = rand::distributions::Uniform::from(low..=high);
    rand::distributions::Distribution::sample(&range, &mut rand::thread_rng())
}

/// What one draw is worth: the port itself where it can carry the probe,
/// nothing where it cannot.
pub fn accept_draw(listening: u16, drawn: u16) -> (kept: Option<u16>)
    ensures
        kept == (if is_alternate_port(listening, drawn) {
            Some(drawn)
        } else {
            None
        }),
{
    if drawn >= LOWEST_PORT && drawn != listening {
        Some(drawn)
    } else {
        None
    }
}

/// The port taken without drawing: [`port_after`].
pub fn next_port(listening: u16) -> (port: u16)
    ensures
        port == port_after(listening),
        is_alternate_port(listening, port),
{
    if listening < LOWEST_PORT || listening == u16::MAX {
        LOWEST_PORT
    } else {
        listening + 1
    }
}

/// A port for the alternate probe, drawn from `LOWEST_PORT..=u16::MAX` and
/// drawn again while it comes out as `target`. A draw collides once in 64512
/// times; after [`MAX_DRAWS`] collisions in a row the port after `target` is
/// taken, so that the choice always ends. Whatever was drawn, the port can
/// carry the probe.
pub fn gen_not_equal_port(target: u16) -> (port: u16)
    ensures
        is_alternate_port(target, port),
{
    let mut left: u32 = MAX_DRAWS;
    while left > 0
        decreases left,
    {
        let drawn: u16 = draw_port(LOWEST_PORT, u16::MAX);
        match accept_draw(target, drawn) {
            Some(port) => {
                return port;
            },
            None => {},
        }
        left = left - 1;
    }
    next_port(target)
}

} // verus!
