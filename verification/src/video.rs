//! Decisions and conversions of the video playback path.
//!
//! Decoding, seeking and texture upload live in the application; this
//! module holds the parts that are pure: turning a decoded packed-color
//! frame into the four-byte-per-pixel layout textures take, and deciding,
//! once the elapsed time says how many frames to advance, where playback
//! lands — wrapping at the end when looping, or stopping on the last
//! frame.

use vstd::prelude::*;
use vstd::arithmetic::div_mod::lemma_fundamental_div_mod;

verus! {

/// Expand three-byte pixels to four-byte pixels by appending a fully
/// opaque alpha channel: the color bytes of every pixel are kept in
/// order and every fourth byte is 255.
pub fn rgb_to_rgba(rgb: &Vec<u8>) -> (r: Vec<u8>)
    requires
        rgb@.len() % 3 == 0,
    ensures
        r@.len() == rgb@.len() / 3 * 4,
        forall|p: int|
            0 <= p < rgb@.len() / 3 ==> {
                &&& #[trigger] r@[4 * p] == rgb@[3 * p]
                &&& r@[4 * p + 1] == rgb@[3 * p + 1]
                &&& r@[4 * p + 2] == rgb@[3 * p + 2]
                &&& r@[4 * p + 3] == 255
            },
{
    let len = rgb.len();
    let pixels = len / 3;
    proof {
        lemma_fundamental_div_mod(len as int, 3);
    }
    let mut r: Vec<u8> = Vec::new();
    let mut p: usize = 0;
    while p < pixels
        invariant
            p <= pixels,
            len == rgb@.len(),
            pixels == rgb@.len() / 3,
            3 * pixels == rgb@.len(),
            r@.len() == 4 * p,
            forall|q: int|
                0 <= q < p ==> {
                    &&& #[trigger] r@[4 * q] == rgb@[3 * q]
                    &&& r@[4 * q + 1] == rgb@[3 * q + 1]
                    &&& r@[4 * q + 2] == rgb@[3 * q + 2]
                    &&& r@[4 * q + 3] == 255
                },
        decreases pixels - p,
    {
        let ghost r0 = r@;
        r.push(rgb[3 * p]);
        r.push(rgb[3 * p + 1]);
        r.push(rgb[3 * p + 2]);
        r.push(255);
        proof {
            assert forall|q: int|
                0 <= q < p implies {
                &&& #[trigger] r@[4 * q] == rgb@[3 * q]
                &&& r@[4 * q + 1] == rgb@[3 * q + 1]
                &&& r@[4 * q + 2] == rgb@[3 * q + 2]
                &&& r@[4 * q + 3] == 255
            } by {
                assert(r@[4 * q] == r0[4 * q]);
                assert(r@[4 * q + 1] == r0[4 * q + 1]);
                assert(r@[4 * q + 2] == r0[4 * q + 2]);
                assert(r@[4 * q + 3] == r0[4 * q + 3]);
            };
            assert(r@[4 * (p as int)] == rgb@[3 * (p as int)]);
            assert(r@[4 * (p as int) + 3] == 255);
        }
        p = p + 1;
    }
    r
}

/// Advance playback by a number of frames. Returns the new frame and
/// whether playback continues: past the end, a looping video wraps to the
/// start while a non-looping one parks on the last frame and stops.
pub fn advance_playback(
    current_frame: usize,
    frames_to_advance: usize,
    frame_count: usize,
    loop_video: bool,
) -> (r: (usize, bool))
    requires
        frame_count > 0,
        current_frame + frames_to_advance <= usize::MAX,
    ensures
        ({
            let new_frame = current_frame + frames_to_advance;
            if new_frame >= frame_count {
                if loop_video {
                    r.0 == new_frame % (frame_count as int) && r.1
                } else {
                    r.0 == frame_count - 1 && !r.1
                }
            } else {
                r.0 == new_frame && r.1
            }
        }),
{
    let new_frame = current_frame + frames_to_advance;
    if new_frame >= frame_count {
        if loop_video {
            (new_frame % frame_count, true)
        } else {
            (frame_count - 1, false)
        }
    } else {
        (new_frame, true)
    }
}

} // verus!
