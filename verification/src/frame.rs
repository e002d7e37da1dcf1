//! The frame: one decoded image as width, height and an interleaved
//! red-green-blue byte buffer.

use vstd::prelude::*;

verus! {

/// Number of bytes in the pixel buffer of an image of the given dimensions:
/// three bytes (red, green, blue) for each pixel.
pub open spec fn buffer_len(width: nat, height: nat) -> nat {
    width * height * 3
}

/// The mathematical content of a [`Frame`].
pub struct FrameView {
    pub width: nat,
    pub height: nat,
    pub data: Seq<u8>,
}

impl FrameView {
    /// A frame is well formed when both dimensions are positive and the
    /// buffer holds exactly three bytes per pixel.
    pub open spec fn wf(self) -> bool {
        &&& 0 < self.width <= u32::MAX
        &&& 0 < self.height <= u32::MAX
        &&& self.data.len() == buffer_len(self.width, self.height)
    }

    /// Index in the buffer of the red byte of the pixel in column `x` of
    /// row `y`: rows follow one another, and so do the pixels of a row.
    pub open spec fn offset(self, x: nat, y: nat) -> int {
        ((y * self.width + x) * 3) as int
    }

    /// The red, green and blue bytes of the pixel in column `x` of row `y`.
    pub open spec fn pixel(self, x: nat, y: nat) -> (u8, u8, u8)
        recommends
            self.wf(),
            x < self.width,
            y < self.height,
    {
        (
            self.data[self.offset(x, y)],
            self.data[self.offset(x, y) + 1],
            self.data[self.offset(x, y) + 2],
        )
    }
}

/// The three bytes of every pixel of a well-formed frame lie inside its
/// buffer.
pub proof fn lemma_pixel_in_buffer(frame: FrameView, x: nat, y: nat)
    requires
        frame.wf(),
        x < frame.width,
        y < frame.height,
    ensures
        frame.offset(x, y) + 2 < frame.data.len(),
        y * frame.width + x < frame.width * frame.height,
{
    assert(y * frame.width + x < frame.width * frame.height) by (nonlinear_arith)
        requires
            x < frame.width,
            y < frame.height,
    ;
}

/// One image: `width * height` pixels, row after row, each pixel as its
/// red, green and blue byte.
#[derive(Debug)]
pub struct Frame {
    width: u32,
    height: u32,
    data: Vec<u8>,
}

impl View for Frame {
    type V = FrameView;

    closed spec fn view(&self) -> FrameView {
        FrameView { width: self.width as nat, height: self.height as nat, data: self.data@ }
    }
}

impl Frame {
    #[verifier::type_invariant]
    spec fn inv(self) -> bool {
        self@.wf()
    }

    /// Whether `data` can be the pixel buffer of a `width` by `height` frame.
    pub open spec fn fits(width: u32, height: u32, data: Seq<u8>) -> bool {
        (FrameView { width: width as nat, height: height as nat, data }).wf()
    }

    /// Wraps `data` as a frame of the given dimensions. The buffer is taken
    /// as it is; it is refused unless both dimensions are positive and it
    /// holds exactly `width * height * 3` bytes.
    pub fn from_vec(width: u32, height: u32, data: Vec<u8>) -> (frame: Option<Frame>)
        ensures
            frame is Some <==> Self::fits(width, height, data@),
            frame matches Some(f) ==> f@.wf() && f@ == (FrameView {
                width: width as nat,
                height: height as nat,
                data: data@,
            }),
    {
        if width == 0 || height == 0 {
            return None;
        }
        assert((width as nat) * (height as nat) * 3 <= 0xffff_ffff * 0xffff_ffff * 3)
            by (nonlinear_arith)
            requires
                width <= 0xffff_ffff,
                height <= 0xffff_ffff,
        ;
        let pixels: u128 = (width as u128) * (height as u128);
        let expected: u128 = pixels * 3;
        if data.len() as u128 == expected {
            Some(Frame { width, height, data })
        } else {
            None
        }
    }

    /// Number of pixels in a row.
    pub fn width(&self) -> (width: u32)
        ensures
            width == self@.width,
    {
        self.width
    }

    /// Number of rows.
    pub fn height(&self) -> (height: u32)
        ensures
            height == self@.height,
    {
        self.height
    }

    /// The pixel buffer: exactly three bytes for each pixel.
    pub fn as_raw(&self) -> (data: &Vec<u8>)
        ensures
            self@.wf(),
            data@ == self@.data,
            data@.len() == buffer_len(self@.width, self@.height),
    {
        proof {
            use_type_invariant(self);
        }
        &self.data
    }

    /// Gives up the frame for its pixel buffer.
    pub fn into_raw(self) -> (data: Vec<u8>)
        ensures
            self@.wf(),
            data@ == self@.data,
            data@.len() == buffer_len(self@.width, self@.height),
    {
        proof {
            use_type_invariant(&self);
        }
        self.data
    }

    /// The red, green and blue bytes of the pixel in column `x` of row `y`,
    /// or `None` where the frame has no such pixel.
    pub fn get_pixel(&self, x: u32, y: u32) -> (pixel: Option<(u8, u8, u8)>)
        ensures
            pixel is Some <==> x < self@.width && y < self@.height,
            pixel matches Some(p) ==> p == self@.pixel(x as nat, y as nat),
    {
        proof {
            use_type_invariant(self);
        }
        if x >= self.width || y >= self.height {
            return None;
        }
        proof {
            lemma_pixel_in_buffer(self@, x as nat, y as nat);
            let w = self.width as int;
            let h = self.height as int;
            assert(0 <= y * w) by (nonlinear_arith)
                requires
                    0 <= y,
                    0 <= w,
            ;
            assert(self.data.len() == w * h * 3);
        }
        let row: usize = (y as usize) * (self.width as usize);
        let start: usize = (row + x as usize) * 3;
        Some((self.data[start], self.data[start + 1], self.data[start + 2]))
    }
}

impl Clone for Frame {
    /// An independent copy: same dimensions, same bytes, a buffer of its own.
    fn clone(&self) -> (copy: Self)
        ensures
            copy@ == self@,
            copy@.wf(),
    {
        proof {
            use_type_invariant(self);
        }
        let data = self.data.clone();
        assert(data@ =~= self.data@);
        Frame { width: self.width, height: self.height, data }
    }
}

} // verus!
