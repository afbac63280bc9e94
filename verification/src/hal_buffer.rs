//! Device-resident buffer views.
//!
//! A buffer view owns one device buffer together with its metadata: a shape
//! (ordered dimension sizes), an element type tag, an encoding type tag and
//! the byte length of its contents.  Allocation validates that the supplied
//! byte span matches `product(shape) × element size` exactly; a mismatch is
//! a typed, recoverable error, never a truncation.

use vstd::prelude::*;

use crate::bytespan::IreeConstByteSpan;
use crate::err::spec_is_status_error;
use crate::err::IreeError;
use crate::session::IreeHalAllocator;
use crate::status::STATUS_INVALID_ARGUMENT;
use crate::status::STATUS_OUT_OF_RANGE;
use crate::text::decimal_string;
use crate::text::spec_decimal;

verus! {

/// A buffer-view shape: the ordered sizes of each dimension.
pub type IreeHalBufferShape = Vec<usize>;

/// Signed integer elements, 8 bits wide.
pub const ELEMENT_TYPE_SINT_8: u32 = 0x0100_0008;
/// Signed integer elements, 16 bits wide.
pub const ELEMENT_TYPE_SINT_16: u32 = 0x0100_0010;
/// Signed integer elements, 32 bits wide.
pub const ELEMENT_TYPE_SINT_32: u32 = 0x0100_0020;
/// Signed integer elements, 64 bits wide.
pub const ELEMENT_TYPE_SINT_64: u32 = 0x0100_0040;
/// Unsigned integer elements, 8 bits wide.
pub const ELEMENT_TYPE_UINT_8: u32 = 0x0200_0008;
/// Unsigned integer elements, 16 bits wide.
pub const ELEMENT_TYPE_UINT_16: u32 = 0x0200_0010;
/// Unsigned integer elements, 32 bits wide.
pub const ELEMENT_TYPE_UINT_32: u32 = 0x0200_0020;
/// Unsigned integer elements, 64 bits wide.
pub const ELEMENT_TYPE_UINT_64: u32 = 0x0200_0040;
/// Floating-point elements, 16 bits wide.
pub const ELEMENT_TYPE_FLOAT_16: u32 = 0x0300_0010;
/// Floating-point elements, 32 bits wide.
pub const ELEMENT_TYPE_FLOAT_32: u32 = 0x0300_0020;
/// Floating-point elements, 64 bits wide.
pub const ELEMENT_TYPE_FLOAT_64: u32 = 0x0300_0040;

/// Opaque encoding: the buffer layout is not interpreted.
pub const ENCODING_TYPE_OPAQUE: u32 = 0;
/// Dense row-major encoding.
pub const ENCODING_TYPE_DENSE_ROW_MAJOR: u32 = 1;

/// Memory visible to the host.
pub const MEMORY_TYPE_HOST_VISIBLE: u32 = 0x1;
/// Memory coherent with the host caches.
pub const MEMORY_TYPE_HOST_COHERENT: u32 = 0x2;
/// Memory local to the host: visible and coherent.
pub const MEMORY_TYPE_HOST_LOCAL: u32 = MEMORY_TYPE_HOST_VISIBLE | MEMORY_TYPE_HOST_COHERENT;
/// Memory visible to the device.
pub const MEMORY_TYPE_DEVICE_VISIBLE: u32 = 0x4;
/// Memory local to the device: resident there and visible to it.
pub const MEMORY_TYPE_DEVICE_LOCAL: u32 = 0x8 | MEMORY_TYPE_DEVICE_VISIBLE;

/// The buffer may be read.
pub const MEMORY_ACCESS_READ: u32 = 0x1;
/// The buffer may be written.
pub const MEMORY_ACCESS_WRITE: u32 = 0x2;
/// Full read/write access.
pub const MEMORY_ACCESS_ALL: u32 = MEMORY_ACCESS_READ | MEMORY_ACCESS_WRITE;

/// The buffer takes part in transfer operations.
pub const BUFFER_USAGE_TRANSFER: u32 = 0x1;
/// The buffer backs dispatch storage.
pub const BUFFER_USAGE_DISPATCH_STORAGE: u32 = 0x2;
/// The buffer may be mapped into host memory.
pub const BUFFER_USAGE_MAPPING: u32 = 0x4;
/// The usual usage set: transfer, dispatch storage and mapping.
pub const BUFFER_USAGE_DEFAULT: u32 = BUFFER_USAGE_TRANSFER | BUFFER_USAGE_DISPATCH_STORAGE
    | BUFFER_USAGE_MAPPING;

/// The most dimensions a shape query reports; a deeper shape is a hard
/// error, never a silent truncation.
pub const MAX_SHAPE_RANK: usize = 32;

/// The byte width of one element of the tagged type: the low byte of the tag
/// holds the bit width.  Zero when the tag is not byte-aligned or empty,
/// which no buffer view accepts.
pub open spec fn spec_element_byte_size(element_type: u32) -> int {
    if (element_type & 0xff) % 8 == 0 {
        ((element_type & 0xff) / 8) as int
    } else {
        0
    }
}

/// A tag denotes allocatable elements when it has a whole, non-zero byte
/// width.
pub open spec fn spec_element_type_valid(element_type: u32) -> bool {
    spec_element_byte_size(element_type) > 0
}

/// The number of elements a shape holds: the product of its dimensions (one
/// for the empty, rank-zero shape of a scalar).
pub open spec fn spec_shape_product(dims: Seq<usize>) -> int
    decreases dims.len(),
{
    if dims.len() == 0 {
        1
    } else {
        spec_shape_product(dims.drop_last()) * (dims.last() as int)
    }
}

/// A shape's product is never negative.
pub proof fn lemma_shape_product_nonneg(dims: Seq<usize>)
    ensures
        spec_shape_product(dims) >= 0,
    decreases dims.len(),
{
    if dims.len() > 0 {
        lemma_shape_product_nonneg(dims.drop_last());
    }
}

/// Taking one more dimension multiplies the product by that dimension.
proof fn lemma_shape_product_take_step(dims: Seq<usize>, i: int)
    requires
        0 <= i < dims.len(),
    ensures
        spec_shape_product(dims.take(i + 1)) == spec_shape_product(dims.take(i)) * (
        dims[i] as int),
{
    assert(dims.take(i + 1).drop_last() =~= dims.take(i));
    assert(dims.take(i + 1).last() == dims[i]);
}

/// A shape with a zero dimension holds no elements.
proof fn lemma_shape_product_zero(dims: Seq<usize>, i: int)
    requires
        0 <= i < dims.len(),
        dims[i] == 0,
    ensures
        spec_shape_product(dims) == 0,
    decreases dims.len(),
{
    if i == dims.len() - 1 {
        assert(dims.last() == 0);
        assert(spec_shape_product(dims) == spec_shape_product(dims.drop_last()) * 0);
    } else {
        lemma_shape_product_zero(dims.drop_last(), i);
        assert(spec_shape_product(dims) == 0 * (dims.last() as int));
    }
}

/// With every dimension at least one, the product is at least one.
proof fn lemma_shape_product_all_pos(dims: Seq<usize>)
    requires
        forall|j: int| 0 <= j < dims.len() ==> dims[j] >= 1,
    ensures
        spec_shape_product(dims) >= 1,
    decreases dims.len(),
{
    if dims.len() > 0 {
        lemma_shape_product_all_pos(dims.drop_last());
        let p = spec_shape_product(dims.drop_last());
        let d = dims.last() as int;
        assert(p * d >= 1) by (nonlinear_arith)
            requires
                p >= 1,
                d >= 1,
        ;
    }
}

/// With every dimension at least one, a prefix's product never exceeds the
/// whole shape's product.
proof fn lemma_shape_product_prefix_le(dims: Seq<usize>, i: int)
    requires
        0 <= i <= dims.len(),
        forall|j: int| 0 <= j < dims.len() ==> dims[j] >= 1,
    ensures
        spec_shape_product(dims.take(i)) <= spec_shape_product(dims),
    decreases dims.len() - i,
{
    if i == dims.len() {
        assert(dims.take(i) =~= dims);
    } else {
        lemma_shape_product_take_step(dims, i);
        lemma_shape_product_prefix_le(dims, i + 1);
        assert(forall|j: int| 0 <= j < dims.take(i).len() ==> dims.take(i)[j] >= 1);
        lemma_shape_product_all_pos(dims.take(i));
        let p = spec_shape_product(dims.take(i));
        let d = dims[i] as int;
        assert(p <= p * d) by (nonlinear_arith)
            requires
                p >= 1,
                d >= 1,
        ;
    }
}

/// The law tying allocation to the shape query.  Allocation succeeds
/// exactly when the span's byte length is `product(shape) × element size`
/// (so a mismatched length is always refused), and the allocated view
/// records the allocation shape, element type and byte length unchanged.
/// This lemma states the resulting bridge: any view carrying what a
/// successful allocation recorded factors its byte length through the
/// product of exactly the shape that the shape query reports.
pub proof fn lemma_buffer_view_shape_law(
    bv: &IreeHalBufferView,
    shape: Seq<usize>,
    element_type: u32,
    byte_length: usize,
)
    requires
        bv.spec_shape() == shape,
        bv.spec_element_type() == element_type,
        bv.spec_byte_length() == byte_length,
        spec_element_type_valid(element_type),
        spec_shape_product(shape) * spec_element_byte_size(element_type) == byte_length,
    ensures
        spec_shape_product(bv.spec_shape()) * spec_element_byte_size(bv.spec_element_type())
            == bv.spec_byte_length(),
{
}

/// Finalized buffer parameters: the memory-type, access and usage bitfields
/// a buffer view is allocated with.
#[derive(Clone, Copy, Debug)]
pub struct IreeHalBufferParams {
    memory_type: u32,
    access: u32,
    usage: u32,
}

impl IreeHalBufferParams {
    /// The memory-type bits.
    pub closed spec fn spec_memory_type(&self) -> u32 {
        self.memory_type
    }

    /// The access bits.
    pub closed spec fn spec_access(&self) -> u32 {
        self.access
    }

    /// The usage bits.
    pub closed spec fn spec_usage(&self) -> u32 {
        self.usage
    }

    /// The memory-type bits.
    pub fn memory_type(&self) -> (r: u32)
        ensures
            r == self.spec_memory_type(),
    {
        self.memory_type
    }

    /// The access bits.
    pub fn access(&self) -> (r: u32)
        ensures
            r == self.spec_access(),
    {
        self.access
    }

    /// The usage bits.
    pub fn usage(&self) -> (r: u32)
        ensures
            r == self.spec_usage(),
    {
        self.usage
    }
}

/// Builds [`IreeHalBufferParams`] by OR-accumulating bits into the three
/// fields, finalized by [`IreeHalBufferViewParamsBuilder::build`].
#[derive(Clone, Copy, Debug)]
pub struct IreeHalBufferViewParamsBuilder {
    memory_type: u32,
    access: u32,
    usage: u32,
}

impl Default for IreeHalBufferViewParamsBuilder {
    /// Starts from all-empty bitfields.
    fn default() -> (r: Self)
        ensures
            r.spec_memory_type() == 0,
            r.spec_access() == 0,
            r.spec_usage() == 0,
    {
        IreeHalBufferViewParamsBuilder { memory_type: 0, access: 0, usage: 0 }
    }
}

impl IreeHalBufferViewParamsBuilder {
    /// The memory-type bits accumulated so far.
    pub closed spec fn spec_memory_type(&self) -> u32 {
        self.memory_type
    }

    /// The access bits accumulated so far.
    pub closed spec fn spec_access(&self) -> u32 {
        self.access
    }

    /// The usage bits accumulated so far.
    pub closed spec fn spec_usage(&self) -> u32 {
        self.usage
    }

    /// Finalizes the accumulated bits as an immutable parameter value.
    pub fn build(&self) -> (r: IreeHalBufferParams)
        ensures
            r.spec_memory_type() == self.spec_memory_type(),
            r.spec_access() == self.spec_access(),
            r.spec_usage() == self.spec_usage(),
    {
        IreeHalBufferParams {
            memory_type: self.memory_type,
            access: self.access,
            usage: self.usage,
        }
    }

    /// ORs `memory_type` into the memory-type bits.
    pub fn type_(self, memory_type: u32) -> (r: Self)
        ensures
            r.spec_memory_type() == (self.spec_memory_type() | memory_type),
            r.spec_access() == self.spec_access(),
            r.spec_usage() == self.spec_usage(),
    {
        IreeHalBufferViewParamsBuilder {
            memory_type: self.memory_type | memory_type,
            access: self.access,
            usage: self.usage,
        }
    }

    /// ORs `access` into the access bits.
    pub fn access(self, access: u32) -> (r: Self)
        ensures
            r.spec_memory_type() == self.spec_memory_type(),
            r.spec_access() == (self.spec_access() | access),
            r.spec_usage() == self.spec_usage(),
    {
        IreeHalBufferViewParamsBuilder {
            memory_type: self.memory_type,
            access: self.access | access,
            usage: self.usage,
        }
    }

    /// ORs `usage` into the usage bits.
    pub fn usage(self, usage: u32) -> (r: Self)
        ensures
            r.spec_memory_type() == self.spec_memory_type(),
            r.spec_access() == self.spec_access(),
            r.spec_usage() == (self.spec_usage() | usage),
    {
        IreeHalBufferViewParamsBuilder {
            memory_type: self.memory_type,
            access: self.access,
            usage: self.usage | usage,
        }
    }
}

/// The one-letter class prefix a buffer view renders for its element type:
/// `i` for signed integers, `u` for unsigned, `f` for floating point.
pub open spec fn spec_element_class_letter(element_type: u32) -> Seq<char> {
    if element_type >> 24 == 1 {
        "i"@
    } else if element_type >> 24 == 2 {
        "u"@
    } else if element_type >> 24 == 3 {
        "f"@
    } else {
        "?"@
    }
}

/// The element-type suffix of a buffer view's rendering: the class letter
/// followed by the bit width, e.g. `f32`.
pub open spec fn spec_element_type_text(element_type: u32) -> Seq<char> {
    spec_element_class_letter(element_type) + spec_decimal((element_type & 0xff) as nat)
}

/// The dimension part of a buffer view's rendering: the dimension sizes in
/// decimal, separated by `x`.
pub open spec fn spec_shape_text(dims: Seq<usize>) -> Seq<char>
    decreases dims.len(),
{
    if dims.len() == 0 {
        Seq::empty()
    } else if dims.len() == 1 {
        spec_decimal(dims[0] as nat)
    } else {
        spec_shape_text(dims.drop_last()) + "x"@ + spec_decimal(dims.last() as nat)
    }
}

/// The full rendering of a buffer view's metadata: shape and element type,
/// e.g. `1x3x224x224xf32`; a rank-zero scalar renders as the element type
/// alone.
pub open spec fn spec_buffer_view_text(dims: Seq<usize>, element_type: u32) -> Seq<char> {
    if dims.len() == 0 {
        spec_element_type_text(element_type)
    } else {
        spec_shape_text(dims) + "x"@ + spec_element_type_text(element_type)
    }
}

/// A buffer view's rendering is never empty.
proof fn lemma_buffer_view_text_len_pos(dims: Seq<usize>, element_type: u32)
    ensures
        spec_buffer_view_text(dims, element_type).len() >= 1,
{
    crate::text::lemma_decimal_len_pos((element_type & 0xff) as nat);
}

/// The element-type suffix, e.g. `f32`, as a string.
fn element_type_string(element_type: u32) -> (r: String)
    ensures
        r@ == spec_element_type_text(element_type),
{
    let class: u32 = element_type >> 24;
    let letter: &str = if class == 1 {
        "i"
    } else if class == 2 {
        "u"
    } else if class == 3 {
        "f"
    } else {
        "?"
    };
    let mut out = String::from_str(letter);
    proof {
        assert(element_type & 0xff < 256) by (bit_vector);
    }
    let bits: usize = (element_type & 0xff) as usize;
    out.append(decimal_string(bits).as_str());
    out
}

/// Exclusive owner of one device-resident tensor buffer, together with the
/// shape, element type and encoding type it was allocated with.  The handle
/// is neither copyable nor clonable, so the buffer is released exactly once,
/// when the handle is dropped.
#[derive(Debug)]
pub struct IreeHalBufferView {
    shape: Vec<usize>,
    element_type: u32,
    encoding_type: u32,
    byte_length: usize,
}

impl View for IreeHalBufferView {
    type V = (Seq<usize>, u32, u32, usize);

    /// The model of a buffer view: its shape, element type, encoding type
    /// and contents length in bytes.
    closed spec fn view(&self) -> (Seq<usize>, u32, u32, usize) {
        (self.shape@, self.element_type, self.encoding_type, self.byte_length)
    }
}

impl IreeHalBufferView {
    /// The shape this view was allocated with.
    pub open spec fn spec_shape(&self) -> Seq<usize> {
        self@.0
    }

    /// The element type tag this view was allocated with.
    pub open spec fn spec_element_type(&self) -> u32 {
        self@.1
    }

    /// The encoding type tag this view was allocated with.
    pub open spec fn spec_encoding_type(&self) -> u32 {
        self@.2
    }

    /// The byte length of this view's contents.
    pub open spec fn spec_byte_length(&self) -> usize {
        self@.3
    }

    /// Allocates a device buffer sized by `shape` and the element type, and
    /// stages the bytes of `byte_span` into it according to `params`.  The
    /// span must cover `product(shape) × element size` bytes exactly: a
    /// mismatch, like an element type without a whole non-zero byte width,
    /// is a typed invalid-argument error, never a truncation.
    #[verifier::loop_isolation(false)]
    #[allow(unused_variables)]
    pub fn allocate_buffer<T>(
        allocator: &IreeHalAllocator,
        shape: &IreeHalBufferShape,
        element_type: u32,
        encoding_type: u32,
        params: &IreeHalBufferParams,
        byte_span: &IreeConstByteSpan<T>,
    ) -> (r: Result<Self, IreeError>)
        ensures
            r.is_ok() <==> (spec_element_type_valid(element_type) && spec_shape_product(shape@)
                * spec_element_byte_size(element_type) == byte_span.spec_byte_length()),
            r matches Ok(bv) ==> bv.spec_shape() == shape@ && bv.spec_element_type()
                == element_type && bv.spec_encoding_type() == encoding_type
                && bv.spec_byte_length() == byte_span.spec_byte_length(),
            r matches Err(e) ==> spec_is_status_error(e, STATUS_INVALID_ARGUMENT),
    {
        proof {
            assert(element_type & 0xff < 256) by (bit_vector);
        }
        let bits: u32 = element_type & 0xff;
        if bits == 0 || bits % 8 != 0 {
            return Err(crate::err::status_error(STATUS_INVALID_ARGUMENT));
        }
        let element_size: usize = (bits / 8) as usize;

        let mut has_zero = false;
        let mut i: usize = 0;
        while i < shape.len()
            invariant
                i <= shape@.len(),
                has_zero <==> exists|j: int| 0 <= j < i && shape@[j] == 0,
            decreases shape@.len() - i,
        {
            if shape[i] == 0 {
                has_zero = true;
            }
            i += 1;
        }

        if has_zero {
            proof {
                let j = choose|j: int| 0 <= j < shape@.len() && shape@[j] == 0;
                lemma_shape_product_zero(shape@, j);
            }
            if byte_span.byte_length() == 0 {
                return Ok(Self::with_metadata(shape, element_type, encoding_type, 0));
            } else {
                return Err(crate::err::status_error(STATUS_INVALID_ARGUMENT));
            }
        }
        assert(forall|j: int| 0 <= j < shape@.len() ==> shape@[j] >= 1);

        let mut product: usize = 1;
        let mut i: usize = 0;
        while i < shape.len()
            invariant
                i <= shape@.len(),
                forall|j: int| 0 <= j < shape@.len() ==> shape@[j] >= 1,
                product == spec_shape_product(shape@.take(i as int)),
            decreases shape@.len() - i,
        {
            proof {
                lemma_shape_product_take_step(shape@, i as int);
            }
            match product.checked_mul(shape[i]) {
                Some(p) => {
                    product = p;
                },
                None => {
                    proof {
                        lemma_shape_product_prefix_le(shape@, i + 1);
                        lemma_shape_product_nonneg(shape@);
                        let full = spec_shape_product(shape@);
                        let esize = spec_element_byte_size(element_type);
                        assert(full <= full * esize) by (nonlinear_arith)
                            requires
                                full >= 0,
                                esize >= 1,
                        ;
                    }
                    return Err(crate::err::status_error(STATUS_INVALID_ARGUMENT));
                },
            }
            i += 1;
        }
        proof {
            assert(shape@.take(shape@.len() as int) =~= shape@);
        }

        match product.checked_mul(element_size) {
            Some(total) => {
                if total == byte_span.byte_length() {
                    Ok(Self::with_metadata(shape, element_type, encoding_type, total))
                } else {
                    Err(crate::err::status_error(STATUS_INVALID_ARGUMENT))
                }
            },
            None => {
                proof {
                    lemma_shape_product_nonneg(shape@);
                }
                Err(crate::err::status_error(STATUS_INVALID_ARGUMENT))
            },
        }
    }

    /// Builds a view carrying the given metadata; allocation entry points
    /// validate before calling this.
    fn with_metadata(
        shape: &IreeHalBufferShape,
        element_type: u32,
        encoding_type: u32,
        byte_length: usize,
    ) -> (r: Self)
        ensures
            r.spec_shape() == shape@,
            r.spec_element_type() == element_type,
            r.spec_encoding_type() == encoding_type,
            r.spec_byte_length() == byte_length,
    {
        let stored = shape.clone();
        proof {
            assert(stored@ =~= shape@);
        }
        IreeHalBufferView { shape: stored, element_type, encoding_type, byte_length }
    }

    /// A second handle over the same buffer contents, for handing a view
    /// into a call's input queue while the caller keeps its own handle; the
    /// runtime's reference counting keeps the buffer alive for both.
    /// Crate-internal so that owning handles stay non-duplicable for users.
    pub(crate) fn retain(&self) -> (r: Self)
        ensures
            r@ == self@,
    {
        let stored = self.shape.clone();
        proof {
            assert(stored@ =~= self.shape@);
        }
        IreeHalBufferView {
            shape: stored,
            element_type: self.element_type,
            encoding_type: self.encoding_type,
            byte_length: self.byte_length,
        }
    }

    /// Queries the live buffer's rank and dimension sizes.  A rank beyond
    /// [`MAX_SHAPE_RANK`] is a typed out-of-range error, never a silent
    /// truncation.
    pub fn shape(&self) -> (r: Result<IreeHalBufferShape, IreeError>)
        ensures
            r.is_ok() <==> self.spec_shape().len() <= MAX_SHAPE_RANK,
            r matches Ok(dims) ==> dims@ == self.spec_shape(),
            r matches Err(e) ==> spec_is_status_error(e, STATUS_OUT_OF_RANGE),
    {
        if self.shape.len() > MAX_SHAPE_RANK {
            Err(crate::err::status_error(STATUS_OUT_OF_RANGE))
        } else {
            let dims = self.shape.clone();
            proof {
                assert(dims@ =~= self.shape@);
            }
            Ok(dims)
        }
    }

    /// Formats the view's metadata (shape and element type) for diagnostics,
    /// e.g. `4xf64`.  The text must fit the buffer the formatter sizes at 24
    /// bytes per element for `max_element_count` elements; when it does not,
    /// the call fails with a typed out-of-range error rather than emitting
    /// truncated text.
    pub fn try_to_string(&self, max_element_count: usize) -> (r: Result<String, IreeError>)
        ensures
            r.is_ok() <==> spec_buffer_view_text(self.spec_shape(), self.spec_element_type()).len()
                <= max_element_count * 24,
            r matches Ok(s) ==> s@ == spec_buffer_view_text(
                self.spec_shape(),
                self.spec_element_type(),
            ),
            r matches Err(e) ==> spec_is_status_error(e, STATUS_OUT_OF_RANGE),
    {
        let text = self.metadata_string();
        let length: usize = text.as_str().unicode_len();
        match max_element_count.checked_mul(24) {
            Some(capacity) => {
                if length > capacity {
                    Err(crate::err::status_error(STATUS_OUT_OF_RANGE))
                } else {
                    Ok(text)
                }
            },
            None => Ok(text),
        }
    }

    /// Renders shape and element type, e.g. `1x3x224x224xf32`.
    fn metadata_string(&self) -> (r: String)
        ensures
            r@ == spec_buffer_view_text(self.spec_shape(), self.spec_element_type()),
    {
        let ghost dims = self.shape@;
        let mut text = String::new();
        let mut i: usize = 0;
        while i < self.shape.len()
            invariant
                i <= dims.len(),
                dims == self.shape@,
                text@ == spec_shape_text(dims.take(i as int)),
            decreases dims.len() - i,
        {
            if i > 0 {
                text.append("x");
            }
            text.append(decimal_string(self.shape[i]).as_str());
            proof {
                assert(dims.take(i + 1).drop_last() =~= dims.take(i as int));
                if i == 0 {
                    assert(text@ =~= spec_shape_text(dims.take(1int)));
                }
            }
            i += 1;
        }
        proof {
            assert(dims.take(dims.len() as int) =~= dims);
        }
        if self.shape.len() > 0 {
            text.append("x");
        }
        text.append(element_type_string(self.element_type).as_str());
        text
    }

    /// The convenience rendering: the shape query followed by formatting for
    /// the view's full element count.  Either failure, like an element count
    /// beyond the address range, collapses into `None`, the single opaque
    /// formatting-failed signal of a display path.
    #[verifier::loop_isolation(false)]
    pub fn display_string(&self) -> (r: Option<String>)
        ensures
            r is Some <==> (self.spec_shape().len() <= MAX_SHAPE_RANK && spec_shape_product(
                self.spec_shape(),
            ) <= usize::MAX && spec_buffer_view_text(
                self.spec_shape(),
                self.spec_element_type(),
            ).len() <= spec_shape_product(self.spec_shape()) * 24),
            r matches Some(s) ==> s@ == spec_buffer_view_text(
                self.spec_shape(),
                self.spec_element_type(),
            ),
    {
        let dims = match self.shape() {
            Ok(dims) => dims,
            Err(_) => {
                return None;
            },
        };
        let ghost full = spec_shape_product(self.spec_shape());
        let mut count: usize = 1;
        let mut i: usize = 0;
        while i < dims.len()
            invariant
                i <= dims@.len(),
                dims@ == self.spec_shape(),
                count == spec_shape_product(dims@.take(i as int)),
            decreases dims@.len() - i,
        {
            proof {
                lemma_shape_product_take_step(dims@, i as int);
            }
            match count.checked_mul(dims[i]) {
                Some(p) => {
                    count = p;
                },
                None => {
                    proof {
                        lemma_buffer_view_text_len_pos(dims@, self.spec_element_type());
                        if exists|j: int| 0 <= j < dims@.len() && dims@[j] == 0 {
                            let j = choose|j: int| 0 <= j < dims@.len() && dims@[j] == 0;
                            lemma_shape_product_zero(dims@, j);
                        } else {
                            assert(forall|j: int| 0 <= j < dims@.len() ==> dims@[j] >= 1);
                            lemma_shape_product_prefix_le(dims@, i + 1);
                        }
                    }
                    return None;
                },
            }
            i += 1;
        }
        proof {
            assert(dims@.take(dims@.len() as int) =~= dims@);
        }
        match self.try_to_string(count) {
            Ok(s) => Some(s),
            Err(_) => None,
        }
    }
}

} // verus!
