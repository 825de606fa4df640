//! The buffer descriptor handed across the foreign boundary to a generated
//! kernel, and the builder that constructs it from flat pixel data plus
//! width/height/channel metadata.

use vstd::prelude::*;

verus! {

/// A runtime tag for a scalar type: ints, unsigned ints, or floats of
/// various bit-widths, with `lanes > 1` marking a vector type.
#[derive(Debug, Clone, Copy, PartialEq, Eq, Structural)]
pub struct halide_type_t {
    /// Kind of scalar: 0 = signed integer, 1 = unsigned integer, 2 = IEEE float.
    pub code: u8,
    /// The number of bits of precision of a single scalar value of this type.
    pub bits: u8,
    /// How many elements in a vector. This is 1 for scalar types.
    pub lanes: u16,
}

/// One axis of a buffer: its origin, extent and stride, all in elements.
#[derive(Debug, Clone, Copy, PartialEq, Eq, Structural)]
pub struct halide_dimension_t {
    /// Coordinate of the first element along this axis; 0 for freshly built buffers.
    pub min: i32,
    /// Number of elements along this axis.
    pub extent: i32,
    /// Distance in elements between neighbours along this axis.
    pub stride: i32,
    /// Per-axis flags; the builder copies the low bits of the buffer flags here.
    pub flags: u32,
}

/// An opaque marker for a per-device implementation of the device interface.
/// Host-only buffers never carry one.
#[derive(Debug, Clone, Copy)]
pub struct HalideDeviceInterfaceImplT {
    pub(crate) _unused: [u8; 0],
}

/// Why a validated build of a descriptor was refused.
#[derive(Debug, Clone, Copy, PartialEq, Eq, Structural)]
pub enum BufferError {
    /// The data length does not equal `width * height * channels`.
    ShapeMismatch,
    /// The element type triple is not one the kernels can represent.
    InvalidElementType,
}

/// The flat offset of element `(x, y, c)` in a row-major buffer with
/// interleaved channels: `x * channels + y * width * channels + c`.
pub open spec fn flat_offset(x: int, y: int, c: int, width: int, channels: int) -> int {
    x * channels + y * width * channels + c
}

/// The dimension entry the builder emits for one axis: origin 0, the given
/// extent and stride, and the low bits of the buffer flags.
pub open spec fn dim_entry(extent: i32, stride: i32, flags: u64) -> halide_dimension_t {
    halide_dimension_t { min: 0, extent: extent, stride: stride, flags: flags as u32 }
}

/// An element type the generated kernels can represent: a signed-int,
/// unsigned-int or float code, a power-of-two scalar width of at least a
/// byte, and at least one lane.
pub open spec fn valid_element_type(t: halide_type_t) -> bool {
    &&& t.code <= 2
    &&& (t.bits == 8 || t.bits == 16 || t.bits == 32 || t.bits == 64)
    &&& t.lanes >= 1
}

/// The record a foreign kernel entry point reads: shape, element type and
/// the pixel data itself. The descriptor owns both the pixel data and the
/// dimension table, so neither can be reclaimed while it exists.
pub struct halide_buffer_t<T> {
    /// A device handle for e.g. GPU memory backing this buffer; always 0 here.
    pub device: u64,
    /// The interface used to interpret the device handle; always `None` here.
    pub device_interface: Option<HalideDeviceInterfaceImplT>,
    /// The buffer's data in main memory, element `(0, 0, 0)` first.
    pub host: Vec<T>,
    /// Flags with various meanings; bit 0 marks the allocation-owning side.
    pub flags: u64,
    /// The type of each buffer element.
    pub type_: halide_type_t,
    /// The dimensionality of the buffer.
    pub dimensions: i32,
    /// The shape of the buffer, one entry per axis.
    pub dim: Vec<halide_dimension_t>,
    /// Trailing padding; always `None` here.
    pub padding: Option<u8>,
}

impl<T> halide_buffer_t<T> {
    /// Extent of axis 0: the width.
    pub open spec fn width(self) -> int {
        self.dim@[0].extent as int
    }

    /// Extent of axis 1: the height.
    pub open spec fn height(self) -> int {
        self.dim@[1].extent as int
    }

    /// Extent of axis 2: the channel count.
    pub open spec fn channels(self) -> int {
        self.dim@[2].extent as int
    }

    /// A well-formed three-dimensional descriptor: exactly three axes, all
    /// starting at 0 with positive extents, strides encoding the row-major
    /// interleaved-channel layout, and data of exactly the implied length.
    pub open spec fn wf(self) -> bool {
        &&& self.dimensions == 3
        &&& self.dim@.len() == 3
        &&& self.dim@[0].min == 0 && self.dim@[1].min == 0 && self.dim@[2].min == 0
        &&& self.width() >= 1 && self.height() >= 1 && self.channels() >= 1
        &&& self.dim@[0].stride == self.channels()
        &&& self.dim@[1].stride == self.width() * self.channels()
        &&& self.dim@[2].stride == 1
        &&& self.host@.len() == self.width() * self.height() * self.channels()
    }
}

/// A flat pixel array with its shape metadata: the builder's input.
pub struct HalideBuffer<T> {
    /// Number of pixels per row.
    pub width: i32,
    /// Number of rows.
    pub height: i32,
    /// Number of interleaved channels per pixel.
    pub channels: i32,
    /// The element type tag the kernel was generated for.
    pub t: halide_type_t,
    /// The pixel data, exactly `width * height * channels` elements, laid out
    /// so that element `(x, y, c)` sits at `x*channels + y*width*channels + c`.
    pub data: Vec<T>,
    /// Flags passed through to the descriptor; bit 0 marks the owning side.
    pub flags: u64,
}

impl<T> HalideBuffer<T> {
    /// The shape metadata is usable: positive extents, all representable as
    /// 32-bit signed values, the row stride included.
    pub open spec fn valid_shape(self) -> bool {
        &&& 1 <= self.width
        &&& 1 <= self.height
        &&& 1 <= self.channels
        &&& self.width * self.channels <= i32::MAX
    }

    /// The descriptor `d` is exactly what building from `self` yields:
    /// no device backing, the data moved in unchanged, the type and flags
    /// passed through, and the three dimension entries for width, height and
    /// channels in that order with strides `channels`, `width * channels`, 1.
    pub open spec fn builds(self, d: halide_buffer_t<T>) -> bool {
        &&& d.device == 0
        &&& d.device_interface is None
        &&& d.host@ == self.data@
        &&& d.flags == self.flags
        &&& d.type_ == self.t
        &&& d.dimensions == 3
        &&& d.dim@ =~= seq![
            dim_entry(self.width, self.channels, self.flags),
            dim_entry(self.height, (self.width * self.channels) as i32, self.flags),
            dim_entry(self.channels, 1, self.flags),
        ]
        &&& d.padding is None
    }

    /// Build the descriptor for this buffer.
    ///
    /// The dimension table is built in a fixed order — width first with
    /// stride `channels`, then height with stride `width * channels`, then
    /// channels with stride 1 — so the count is always 3. The pixel data
    /// moves into the descriptor without copying; the caller must keep the
    /// data length equal to `width * height * channels`.
    pub fn create_buffer(self) -> (r: halide_buffer_t<T>)
        requires
            self.valid_shape(),
            self.data@.len() == self.width * self.height * self.channels,
        ensures
            self.builds(r),
            r.wf(),
    {
        let mut dim: Vec<halide_dimension_t> = Vec::new();

        dim.push(halide_dimension_t {
            flags: self.flags as u32,
            min: 0,
            extent: self.width,
            stride: self.channels,
        });

        dim.push(halide_dimension_t {
            flags: self.flags as u32,
            min: 0,
            extent: self.height,
            stride: self.width * self.channels,
        });

        dim.push(halide_dimension_t {
            flags: self.flags as u32,
            min: 0,
            extent: self.channels,
            stride: 1,
        });

        halide_buffer_t {
            device: 0,
            device_interface: None,
            dimensions: 3,
            host: self.data,
            flags: self.flags,
            padding: None,
            type_: self.t,
            dim: dim,
        }
    }

    /// Build the descriptor only after validating the inputs.
    ///
    /// Fails with [`BufferError::ShapeMismatch`] when the data length is not
    /// exactly `width * height * channels`, and with
    /// [`BufferError::InvalidElementType`] when the element type triple is
    /// not one the kernels can represent; in either case the data is never
    /// touched. On success the descriptor is exactly the one
    /// [`Self::create_buffer`] builds.
    pub fn try_create_buffer(self) -> (r: Result<halide_buffer_t<T>, BufferError>)
        requires
            self.valid_shape(),
        ensures
            self.data@.len() != self.width * self.height * self.channels ==> r
                == Result::<halide_buffer_t<T>, BufferError>::Err(BufferError::ShapeMismatch),
            self.data@.len() == self.width * self.height * self.channels
                && !valid_element_type(self.t) ==> r
                == Result::<halide_buffer_t<T>, BufferError>::Err(BufferError::InvalidElementType),
            self.data@.len() == self.width * self.height * self.channels
                && valid_element_type(self.t) ==> r is Ok && self.builds(r->Ok_0)
                && r->Ok_0.wf(),
    {
        proof {
            let w = self.width as int;
            let h = self.height as int;
            let c = self.channels as int;
            assert(w * h < 0x4000000000000000 && w * h * c < 0x2000000000000000000000000)
                by (nonlinear_arith)
                requires
                    0 <= w < 0x80000000,
                    0 <= h < 0x80000000,
                    0 <= c < 0x80000000,
            ;
        }
        let expected: u128 = (self.width as u128) * (self.height as u128) * (self.channels as u128);
        if (self.data.len() as u128) != expected {
            return Err(BufferError::ShapeMismatch);
        }
        let t = self.t;
        if !(t.code <= 2 && (t.bits == 8 || t.bits == 16 || t.bits == 32 || t.bits == 64)
            && t.lanes >= 1) {
            return Err(BufferError::InvalidElementType);
        }
        Ok(self.create_buffer())
    }
}

/// For every coordinate in range, the flat offset lands inside the buffer,
/// every partial product on the way to it stays inside as well, and the two
/// groupings of the row term agree.
pub proof fn lemma_flat_offset_bounds(x: int, y: int, c: int, w: int, h: int, ch: int)
    by (nonlinear_arith)
    requires
        1 <= w,
        1 <= h,
        1 <= ch,
        0 <= x < w,
        0 <= y < h,
        0 <= c < ch,
    ensures
        1 <= w * ch <= w * h * ch,
        0 <= x * ch < w * h * ch,
        0 <= y * w < w * h * ch,
        0 <= y * w * ch < w * h * ch,
        y * (w * ch) == y * w * ch,
        0 <= flat_offset(x, y, c, w, ch) < w * h * ch,
{
}

impl<T: Copy> halide_buffer_t<T> {
    /// Read the element at `(x, y, c)` back through the descriptor's own
    /// stride formula: the offset is
    /// `x * dim[0].stride + y * dim[1].stride + c * dim[2].stride`, which for
    /// a well-formed descriptor equals `x*channels + y*width*channels + c`.
    pub fn read_element(&self, x: i32, y: i32, c: i32) -> (r: T)
        requires
            self.wf(),
            0 <= x < self.width(),
            0 <= y < self.height(),
            0 <= c < self.channels(),
        ensures
            r == self.host@[x * self.dim@[0].stride + y * self.dim@[1].stride + c * self.dim@[2].stride],
            r == self.host@[flat_offset(x as int, y as int, c as int, self.width(), self.channels())],
    {
        proof {
            lemma_flat_offset_bounds(
                x as int,
                y as int,
                c as int,
                self.width(),
                self.height(),
                self.channels(),
            );
        }
        // the data length fits in usize, so the partial products, all below
        // it, cannot overflow
        let n = self.host.len();
        let sx = self.dim[0].stride as usize;
        let sy = self.dim[1].stride as usize;
        let sz = self.dim[2].stride as usize;
        let offset: usize = (x as usize) * sx + (y as usize) * sy + (c as usize) * sz;
        self.host[offset]
    }
}

/// Round trip: a descriptor built over a buffer of known values hands every
/// one of them back. For each coordinate `(x, y, c)` in range, the offset the
/// descriptor's own strides compute equals the flat offset
/// `x*channels + y*width*channels + c`, that offset is inside the data, and
/// the element found there is the one the input buffer held.
pub proof fn lemma_round_trip<T>(b: HalideBuffer<T>, d: halide_buffer_t<T>, x: int, y: int, c: int)
    requires
        b.valid_shape(),
        b.data@.len() == b.width * b.height * b.channels,
        b.builds(d),
        0 <= x < b.width,
        0 <= y < b.height,
        0 <= c < b.channels,
    ensures
        x * d.dim@[0].stride + y * d.dim@[1].stride + c * d.dim@[2].stride == flat_offset(
            x,
            y,
            c,
            b.width as int,
            b.channels as int,
        ),
        0 <= flat_offset(x, y, c, b.width as int, b.channels as int) < d.host@.len(),
        d.host@[flat_offset(x, y, c, b.width as int, b.channels as int)] == b.data@[flat_offset(
            x,
            y,
            c,
            b.width as int,
            b.channels as int,
        )],
{
    lemma_flat_offset_bounds(x, y, c, b.width as int, b.height as int, b.channels as int);
    assert(d.dim@[0].stride == b.channels);
    assert(d.dim@[1].stride == (b.width * b.channels) as i32);
    assert(d.dim@[1].stride == b.width * b.channels);
    assert(d.dim@[2].stride == 1);
    assert(x * d.dim@[0].stride == x * (b.channels as int));
    assert(y * d.dim@[1].stride == y * ((b.width as int) * (b.channels as int)));
    assert(c * d.dim@[2].stride == c);
}

/// The low-order ownership bit handed to the builder is reflected identically
/// in the descriptor's own flags and in every one of the three dimension
/// entries' flags.
pub proof fn lemma_ownership_flag_propagation<T>(b: HalideBuffer<T>, d: halide_buffer_t<T>)
    requires
        b.builds(d),
    ensures
        d.flags == b.flags,
        forall|i: int| 0 <= i < 3 ==> (#[trigger] d.dim@[i].flags) as u64 & 1 == b.flags & 1,
{
    assert forall|i: int| 0 <= i < 3 implies (#[trigger] d.dim@[i].flags) as u64 & 1 == b.flags
        & 1 by {
        assert(d.dim@[i].flags == b.flags as u32);
        let f = b.flags;
        assert(((f as u32) as u64) & 1 == f & 1) by (bit_vector);
    }
}

} // verus!
