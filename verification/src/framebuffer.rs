//! Colouring the display: from one byte per pixel to three.

use vstd::prelude::*;

verus! {

/// Bytes of a framebuffer that holds the extended resolution in RGB.
pub const FRAMEBUFFER_SIZE: usize = 24576;

/// The colour of a pixel: the background for a dark one, the foreground for
/// any other.
pub open spec fn pixel_colour(pixel: u8, foreground: [u8; 3], background: [u8; 3]) -> [u8; 3] {
    if pixel == 0 {
        background
    } else {
        foreground
    }
}

/// Writes the colour of every pixel of `video` to `framebuffer`, three
/// bytes per pixel in the order of `video`. Where `video` is shorter than
/// the framebuffer has room for, the rest of the framebuffer stays as it is;
/// where it is longer, the pixels that have no room are left out.
pub fn update_framebuffer(
    framebuffer: &mut [u8; 24576],
    video: &[u8],
    foreground: [u8; 3],
    background: [u8; 3],
)
    ensures
        forall|p: int, channel: int|
            #![trigger final(framebuffer)@[3 * p + channel]]
            0 <= p < 8192 && 0 <= channel < 3 ==> final(framebuffer)@[3 * p + channel] == (if p
                < video@.len() {
                pixel_colour(video@[p], foreground, background)@[channel]
            } else {
                old(framebuffer)@[3 * p + channel]
            }),
{
    let count: usize = if video.len() < 8192 {
        video.len()
    } else {
        8192
    };
    let mut p: usize = 0;
    while p < count
        invariant
            p <= count <= 8192,
            count <= video@.len(),
            count == video@.len() || count == 8192,
            forall|q: int, channel: int|
                #![trigger framebuffer@[3 * q + channel]]
                0 <= q < 8192 && 0 <= channel < 3 ==> framebuffer@[3 * q + channel] == (if q < p {
                    pixel_colour(video@[q], foreground, background)@[channel]
                } else {
                    old(framebuffer)@[3 * q + channel]
                }),
        decreases count - p,
    {
        let colour = if video[p] == 0 {
            background
        } else {
            foreground
        };
        let ghost before = framebuffer@;
        framebuffer[3 * p] = colour[0];
        framebuffer[3 * p + 1] = colour[1];
        framebuffer[3 * p + 2] = colour[2];
        proof {
            assert forall|q: int, channel: int|
                #![trigger framebuffer@[3 * q + channel]]
                0 <= q < 8192 && 0 <= channel < 3 implies framebuffer@[3 * q + channel] == (if q < p
                + 1 {
                pixel_colour(video@[q], foreground, background)@[channel]
            } else {
                old(framebuffer)@[3 * q + channel]
            }) by {
                if q != p {
                    assert(3 * q + channel != 3 * p);
                    assert(3 * q + channel != 3 * p + 1);
                    assert(3 * q + channel != 3 * p + 2);
                    assert(framebuffer@[3 * q + channel] == before[3 * q + channel]);
                }
            }
        }
        p += 1;
    }
}

} // verus!
