//! The frame uniform record: the fixed-layout block of per-frame data
//! that is mirrored into GPU-visible memory before every draw.

use vstd::prelude::*;

verus! {

/// One 32-bit word per field component, in the order the shader declares
/// them. Fields the shader reads as 32-bit floats (`resolution`, `time`,
/// `cursor`, `drag_start`, `drag_end`) are carried as their IEEE-754 bit
/// patterns, encoded by the host layer; `frame` and the two mouse flags
/// are the integers themselves. `drag_start`, `drag_end` and the mouse
/// flags are part of the layout contract but are never written by the
/// current event handling.
#[derive(Clone, Copy, Debug, PartialEq, Eq, Structural)]
pub struct FrameUniforms {
    pub resolution_x: u32,
    pub resolution_y: u32,
    pub frame: u32,
    pub time: u32,
    pub cursor_x: u32,
    pub cursor_y: u32,
    pub drag_start_x: u32,
    pub drag_start_y: u32,
    pub drag_end_x: u32,
    pub drag_end_y: u32,
    pub mouse_left_pressed: u32,
    pub mouse_left_clicked: u32,
}

/// The record as created at context construction: the encoded window
/// size, frame 0, and every other word zero (zero is also the encoding
/// of the float 0.0).
pub open spec fn initial_record(resolution_x: u32, resolution_y: u32) -> FrameUniforms {
    FrameUniforms {
        resolution_x,
        resolution_y,
        frame: 0,
        time: 0,
        cursor_x: 0,
        cursor_y: 0,
        drag_start_x: 0,
        drag_start_y: 0,
        drag_end_x: 0,
        drag_end_y: 0,
        mouse_left_pressed: 0,
        mouse_left_clicked: 0,
    }
}

/// The record after a resize: only the resolution words move.
pub open spec fn with_resolution(u: FrameUniforms, w: u32, h: u32) -> FrameUniforms {
    FrameUniforms { resolution_x: w, resolution_y: h, ..u }
}

/// The record after a pointer move: only the cursor words move.
pub open spec fn with_cursor(u: FrameUniforms, x: u32, y: u32) -> FrameUniforms {
    FrameUniforms { cursor_x: x, cursor_y: y, ..u }
}

/// The record after one presented frame: the counter advances by one,
/// wrapping at 2^32; nothing else moves.
pub open spec fn after_frame(u: FrameUniforms) -> FrameUniforms {
    FrameUniforms { frame: (((u.frame + 1) % 0x1_0000_0000) as u32), ..u }
}

/// The record after `n` presented frames.
pub open spec fn after_frames(u: FrameUniforms, n: nat) -> FrameUniforms
    decreases n,
{
    if n == 0 {
        u
    } else {
        after_frame(after_frames(u, (n - 1) as nat))
    }
}

/// The record after a whole sequence of resizes, oldest first.
pub open spec fn after_resizes(u: FrameUniforms, sizes: Seq<(u32, u32)>) -> FrameUniforms
    decreases sizes.len(),
{
    if sizes.len() == 0 {
        u
    } else {
        with_resolution(
            after_resizes(u, sizes.drop_last()),
            sizes.last().0,
            sizes.last().1,
        )
    }
}

/// The four bytes of `w`, least significant first.
pub open spec fn le_word(w: u32) -> Seq<u8> {
    seq![
        (w & 0xff) as u8,
        ((w >> 8) & 0xff) as u8,
        ((w >> 16) & 0xff) as u8,
        ((w >> 24) & 0xff) as u8,
    ]
}

/// The 48-byte GPU image of the record: every field in declaration
/// order, each word little endian, no padding anywhere.
pub open spec fn record_bytes(u: FrameUniforms) -> Seq<u8> {
    le_word(u.resolution_x) + le_word(u.resolution_y) + le_word(u.frame) + le_word(u.time)
        + le_word(u.cursor_x) + le_word(u.cursor_y) + le_word(u.drag_start_x) + le_word(
        u.drag_start_y,
    ) + le_word(u.drag_end_x) + le_word(u.drag_end_y) + le_word(u.mouse_left_pressed) + le_word(
        u.mouse_left_clicked,
    )
}

fn push_word_le(v: &mut Vec<u8>, w: u32)
    ensures
        final(v)@ == old(v)@ + le_word(w),
{
    proof {
        assert(w & 0xff < 256 && (w >> 8) & 0xff < 256 && (w >> 16) & 0xff < 256 && (w >> 24)
            & 0xff < 256) by (bit_vector);
    }
    v.push((w & 0xff) as u8);
    v.push(((w >> 8) & 0xff) as u8);
    v.push(((w >> 16) & 0xff) as u8);
    v.push(((w >> 24) & 0xff) as u8);
    proof {
        assert(v@ =~= old(v)@ + le_word(w));
    }
}

impl FrameUniforms {
    /// The record as created at context construction; see
    /// `initial_record`.
    pub fn new(resolution_x: u32, resolution_y: u32) -> (u: FrameUniforms)
        ensures
            u == initial_record(resolution_x, resolution_y),
    {
        FrameUniforms {
            resolution_x,
            resolution_y,
            frame: 0,
            time: 0,
            cursor_x: 0,
            cursor_y: 0,
            drag_start_x: 0,
            drag_start_y: 0,
            drag_end_x: 0,
            drag_end_y: 0,
            mouse_left_pressed: 0,
            mouse_left_clicked: 0,
        }
    }

    /// Records the dimensions of a resize; every other word is kept.
    pub fn set_resolution(&mut self, w: u32, h: u32)
        ensures
            *final(self) == with_resolution(*old(self), w, h),
    {
        self.resolution_x = w;
        self.resolution_y = h;
    }

    /// Records a pointer position; every other word is kept.
    pub fn set_cursor(&mut self, x: u32, y: u32)
        ensures
            *final(self) == with_cursor(*old(self), x, y),
    {
        self.cursor_x = x;
        self.cursor_y = y;
    }

    /// One presented frame: the wrapping counter advances, nothing else.
    pub fn advance_frame(&mut self)
        ensures
            *final(self) == after_frame(*old(self)),
    {
        self.frame = self.frame.wrapping_add(1);
    }

    /// The exact bytes the GPU sees, as `record_bytes` lays them out.
    pub fn to_bytes(&self) -> (r: Vec<u8>)
        ensures
            r@ == record_bytes(*self),
            r@.len() == 48,
    {
        let mut v: Vec<u8> = Vec::new();
        push_word_le(&mut v, self.resolution_x);
        push_word_le(&mut v, self.resolution_y);
        push_word_le(&mut v, self.frame);
        push_word_le(&mut v, self.time);
        push_word_le(&mut v, self.cursor_x);
        push_word_le(&mut v, self.cursor_y);
        push_word_le(&mut v, self.drag_start_x);
        push_word_le(&mut v, self.drag_start_y);
        push_word_le(&mut v, self.drag_end_x);
        push_word_le(&mut v, self.drag_end_y);
        push_word_le(&mut v, self.mouse_left_pressed);
        push_word_le(&mut v, self.mouse_left_clicked);
        proof {
            assert(v@ =~= record_bytes(*self));
        }
        v
    }
}

/// For any sequence of resize events, the record's resolution words
/// equal the dimensions of the most recent one, and no other word has
/// moved.
pub proof fn lemma_last_resize_wins(u: FrameUniforms, sizes: Seq<(u32, u32)>)
    requires
        sizes.len() > 0,
    ensures
        after_resizes(u, sizes) == (FrameUniforms {
            resolution_x: sizes.last().0,
            resolution_y: sizes.last().1,
            ..u
        }),
    decreases sizes.len(),
{
    if sizes.len() == 1 {
        assert(sizes.drop_last().len() == 0);
        assert(after_resizes(u, sizes.drop_last()) == u);
    } else {
        lemma_last_resize_wins(u, sizes.drop_last());
    }
}

/// The frame counter is monotone modulo wraparound: after `n` presented
/// frames it reads its initial value plus `n`, modulo 2^32, and no other
/// word has moved.
pub proof fn lemma_frame_counter(u: FrameUniforms, n: nat)
    ensures
        after_frames(u, n) == (FrameUniforms {
            frame: (((u.frame + n) % 0x1_0000_0000) as u32),
            ..u
        }),
    decreases n,
{
    if n > 0 {
        lemma_frame_counter(u, (n - 1) as nat);
        vstd::arithmetic::div_mod::lemma_add_mod_noop(
            u.frame + (n - 1),
            1,
            0x1_0000_0000,
        );
    }
}

} // verus!
