//! Framing of the byte stream coming back from the device into discrete
//! response lines.
//!
//! A frame ends at the protocol's end-of-text control byte (0x03); anything
//! before a start-of-text control byte (0x02) within the frame is noise from
//! before the payload, and both control bytes are stripped from the payload.
//! The buffer keeps whatever follows the frame, so that partial reads and
//! delimiters split across socket reads are handled by whoever refills it.

use vstd::prelude::*;

use crate::status::{lemma_find_first, spec_find};

verus! {

/// One framed response line: the noise before the start-of-text byte, and
/// the payload proper.
pub struct DiagnosticString {
    /// Bytes of the frame before (and including) the start-of-text byte.
    pub start: Vec<u8>,
    /// The payload: bytes strictly between the control bytes.
    pub string: Vec<u8>,
}

/// Where the payload of a frame begins: right after the first start-of-text
/// byte, or at the frame's start when there is none.
pub open spec fn spec_payload_start(frame: Seq<u8>) -> int {
    match spec_find(frame, 2) {
        Some(i) => i + 1,
        None => 0,
    }
}

/// Takes one complete frame off the front of `buf`, if `buf` holds an
/// end-of-text byte: the frame is everything up to and including the first
/// end-of-text byte, which is stripped; the rest stays in `buf`.
pub fn take_line(buf: &mut Vec<u8>) -> (r: Option<DiagnosticString>)
    ensures
        match r {
            None => final(buf)@ == old(buf)@ && spec_find(old(buf)@, 3) is None,
            Some(d) => spec_find(old(buf)@, 3) is Some && {
                let e = spec_find(old(buf)@, 3).unwrap();
                let frame = old(buf)@.take(e);
                let boundary = spec_payload_start(frame);
                &&& final(buf)@ == old(buf)@.skip(e + 1)
                &&& d.start@ == frame.take(boundary)
                &&& d.string@ == frame.skip(boundary)
            },
        },
{
    let ghost whole = buf@;
    // Find the first end-of-text byte.
    let mut e: usize = 0;
    while e < buf.len() && buf[e] != 3
        invariant
            0 <= e <= buf@.len(),
            forall|j: int| 0 <= j < e ==> buf@[j] != 3,
        decreases buf@.len() - e,
    {
        e = e + 1;
    }
    proof {
        lemma_find_first(whole, 3);
    }
    if e == buf.len() {
        return None;
    }
    proof {
        assert(spec_find(whole, 3) == Some(e as int));
    }
    // Split the frame (without its end-of-text byte) off the front.
    let mut frame: Vec<u8> = Vec::new();
    frame.extend_from_slice(&buf.as_slice()[0..e]);
    let rest = buf.split_off(e + 1);
    *buf = rest;
    proof {
        assert(frame@ =~= whole.take(e as int));
        assert(buf@ =~= whole.skip(e as int + 1));
    }
    // Discard noise before the first start-of-text byte.
    let mut s: usize = 0;
    while s < frame.len() && frame[s] != 2
        invariant
            0 <= s <= frame@.len(),
            forall|j: int| 0 <= j < s ==> frame@[j] != 2,
        decreases frame@.len() - s,
    {
        s = s + 1;
    }
    proof {
        lemma_find_first(frame@, 2);
    }
    let boundary: usize = if s == frame.len() {
        proof {
            assert(spec_find(frame@, 2) is None);
        }
        0
    } else {
        proof {
            assert(spec_find(frame@, 2) == Some(s as int));
        }
        s + 1
    };
    let ghost f = frame@;
    let string = frame.split_off(boundary);
    proof {
        assert(frame@ == f.take(boundary as int));
        assert(string@ =~= f.skip(boundary as int));
    }
    Some(DiagnosticString { start: frame, string })
}

} // verus!
