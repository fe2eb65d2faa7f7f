use vstd::prelude::*;

verus! {

/// Largest value of a signed 32-bit integer on the wire: the protocol carries
/// sizes and dimensions of a shared-memory buffer as `int`.
pub const MAX_WIRE_INT: u32 = 0x7fff_ffff;

/// Code of the 32-bit ARGB format, the fallback used when allocating a
/// buffer for a format the allocator does not recognise.
pub const ARGB8888: u32 = 0;

/// Pixel format of a frame: a code that the shared-memory format table
/// recognises, or a compositor-specific code that it does not.
#[derive(Clone, Copy, Debug, PartialEq, Eq, Structural)]
pub enum PixelFormat {
    Known(u32),
    Unknown(u32),
}

impl PixelFormat {
    /// The format code used to allocate a buffer: the advertised one when it
    /// is recognised, otherwise the ARGB fallback.
    pub open spec fn allocation_code_spec(self) -> u32 {
        match self {
            PixelFormat::Known(c) => c,
            PixelFormat::Unknown(_) => ARGB8888,
        }
    }

    pub fn allocation_code(&self) -> (r: u32)
        ensures
            r == self.allocation_code_spec(),
    {
        match self {
            PixelFormat::Known(c) => *c,
            PixelFormat::Unknown(_) => ARGB8888,
        }
    }

    /// The code as the compositor advertised it, recognised or not.
    pub fn code(&self) -> (r: u32)
        ensures
            r == match *self {
                PixelFormat::Known(c) => c,
                PixelFormat::Unknown(c) => c,
            },
    {
        match self {
            PixelFormat::Known(c) => *c,
            PixelFormat::Unknown(c) => *c,
        }
    }
}

/// Geometry of one captured frame.
#[derive(Clone, Copy, Debug, PartialEq, Eq, Structural)]
pub struct FrameInfo {
    pub format: PixelFormat,
    pub width: u32,
    pub height: u32,
    pub stride: u32,
}

/// What the allocator is asked for: a shared-memory region of `size` bytes,
/// wrapped as a buffer of the given geometry and format code.
#[derive(Clone, Copy, Debug, PartialEq, Eq, Structural)]
pub struct BufferRequest {
    pub size: i32,
    pub width: i32,
    pub height: i32,
    pub stride: i32,
    pub format: u32,
}

impl FrameInfo {
    /// Bytes the frame occupies: one row stride per row.
    pub open spec fn size_spec(self) -> nat {
        self.stride as nat * self.height as nat
    }

    /// Whether the buffer's size and geometry can all be carried by the
    /// protocol's signed 32-bit fields.
    pub open spec fn fits_wire(self) -> bool {
        &&& self.width <= MAX_WIRE_INT
        &&& self.height <= MAX_WIRE_INT
        &&& self.stride <= MAX_WIRE_INT
        &&& self.size_spec() <= MAX_WIRE_INT
    }

    /// The allocation request for this frame.
    pub open spec fn request_spec(self) -> BufferRequest {
        BufferRequest {
            size: self.size_spec() as i32,
            width: self.width as i32,
            height: self.height as i32,
            stride: self.stride as i32,
            format: self.format.allocation_code_spec(),
        }
    }

    /// Number of bytes of the frame's buffer: `stride * height`, never
    /// derived from the width.
    pub fn buffer_size(&self) -> (r: u64)
        ensures
            r as nat == self.size_spec(),
    {
        let s: u64 = self.stride as u64;
        let h: u64 = self.height as u64;
        assert(s * h <= 0xffff_ffff * 0xffff_ffff) by (nonlinear_arith)
            requires
                s <= 0xffff_ffff,
                h <= 0xffff_ffff,
        ;
        s * h
    }

    /// The allocation request for this frame, or `None` when the protocol
    /// cannot carry its size or geometry.
    pub fn buffer_request(&self) -> (r: Option<BufferRequest>)
        ensures
            r == (if self.fits_wire() {
                Some(self.request_spec())
            } else {
                None
            }),
    {
        let size = self.buffer_size();
        if self.width <= MAX_WIRE_INT && self.height <= MAX_WIRE_INT && self.stride
            <= MAX_WIRE_INT && size <= MAX_WIRE_INT as u64 {
            Some(
                BufferRequest {
                    size: size as i32,
                    width: self.width as i32,
                    height: self.height as i32,
                    stride: self.stride as i32,
                    format: self.format.allocation_code(),
                },
            )
        } else {
            None
        }
    }
}

/// Presentation time of a frame: whole seconds and nanoseconds.
#[derive(Clone, Copy, Debug, PartialEq, Eq, Structural)]
pub struct FrameTime {
    pub secs: u64,
    pub nsec: u32,
}

/// Seconds carried by the protocol as a high and a low 32-bit half.
pub open spec fn joined_secs(hi: u32, lo: u32) -> nat {
    hi as nat * 0x1_0000_0000 + lo as nat
}

pub open spec fn frame_time_spec(hi: u32, lo: u32, nsec: u32) -> FrameTime {
    FrameTime { secs: joined_secs(hi, lo) as u64, nsec }
}

impl FrameTime {
    pub fn from_parts(tv_sec_hi: u32, tv_sec_lo: u32, tv_nsec: u32) -> (r: FrameTime)
        ensures
            r == frame_time_spec(tv_sec_hi, tv_sec_lo, tv_nsec),
            r.secs as nat == joined_secs(tv_sec_hi, tv_sec_lo),
    {
        let hi: u64 = tv_sec_hi as u64;
        assert(hi * 0x1_0000_0000 <= 0xffff_ffff * 0x1_0000_0000) by (nonlinear_arith)
            requires
                hi <= 0xffff_ffff,
        ;
        FrameTime { secs: hi * 0x1_0000_0000 + tv_sec_lo as u64, nsec: tv_nsec }
    }
}

} // verus!
