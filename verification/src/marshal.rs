//! Marshalling of host-side numeric arrays into the bytes that a GPU buffer
//! receives.
//!
//! A 32-bit float is held by its IEEE-754 bit pattern throughout: the logic
//! here moves floats around and lays them out, and never calculates with them.

use vstd::prelude::*;
use crate::webgl_const::BufferDataType;

verus! {

/// The bit pattern of a 32-bit float.
pub type FloatBits = u32;

/// The order in which the bytes of one element are laid out.
#[derive(Copy, Clone, Debug, PartialEq, Eq, Structural)]
pub enum ByteOrder {
    /// Least significant byte first.
    LittleEndian,
    /// Most significant byte first.
    BigEndian,
}

/// Why an array could not be marshalled.
#[derive(Copy, Clone, Debug, PartialEq, Eq, Structural)]
pub enum MarshalError {
    /// The element type has no host-side array representation.
    UnsupportedDatatype,
    /// The array's elements are not as wide as the element type asks.
    WidthMismatch,
}

/// A numeric array on the host, of one of the seven element types that a
/// typed array can have.
#[derive(Clone, Debug, PartialEq, Eq)]
pub enum HostArray {
    Int8(Vec<i8>),
    Uint8(Vec<u8>),
    Int16(Vec<i16>),
    Uint16(Vec<u16>),
    Int32(Vec<i32>),
    Uint32(Vec<u32>),
    Float32(Vec<FloatBits>),
}

/// The number of values that an element of `width` bytes can take.
pub open spec fn modulus(width: nat) -> int {
    if width == 1 {
        0x100
    } else if width == 2 {
        0x1_0000
    } else {
        0x1_0000_0000
    }
}

/// The two's-complement bit pattern of `value` in an element of `width`
/// bytes, as an unsigned number.
pub open spec fn pattern_of(value: int, width: nat) -> int {
    if value < 0 {
        value + modulus(width)
    } else {
        value
    }
}

/// The weight of byte `k` of an element, counted from the least significant.
pub open spec fn place(k: int) -> int {
    if k <= 0 {
        1
    } else if k == 1 {
        0x100
    } else if k == 2 {
        0x1_0000
    } else {
        0x100_0000
    }
}

/// Byte `k` of `pattern`, counted from the least significant.
pub open spec fn digit(pattern: int, k: int) -> u8 {
    ((pattern / place(k)) % 0x100) as u8
}

/// The bytes of one element of `width` bytes, in the given order.
pub open spec fn element_bytes(order: ByteOrder, width: nat, pattern: int) -> Seq<u8> {
    Seq::new(
        width,
        |k: int|
            match order {
                ByteOrder::LittleEndian => digit(pattern, k),
                ByteOrder::BigEndian => digit(pattern, width - 1 - k),
            },
    )
}

/// The dense layout of an array: the bytes of its elements, one element after
/// the other.
pub open spec fn layout(order: ByteOrder, width: nat, patterns: Seq<int>) -> Seq<u8>
    decreases patterns.len(),
{
    if patterns.len() == 0 {
        Seq::empty()
    } else {
        layout(order, width, patterns.drop_last()) + element_bytes(order, width, patterns.last())
    }
}

/// What a host array is to the marshaller: how wide its elements are, and
/// the bit pattern of each, as an unsigned number.
pub struct HostArrayView {
    pub width: nat,
    pub patterns: Seq<int>,
}

/// What marshalling `values` as `datatype` gives.
pub open spec fn marshalled(order: ByteOrder, datatype: BufferDataType, values: HostArrayView) -> Result<
    Seq<u8>,
    MarshalError,
> {
    if datatype == BufferDataType::HalfFloat {
        Err(MarshalError::UnsupportedDatatype)
    } else if datatype.width() != values.width {
        Err(MarshalError::WidthMismatch)
    } else {
        Ok(layout(order, values.width, values.patterns))
    }
}

impl View for HostArray {
    type V = HostArrayView;

    open spec fn view(&self) -> HostArrayView {
        HostArrayView { width: self.width(), patterns: self.patterns() }
    }
}

impl HostArray {
    /// Bytes per element.
    pub open spec fn width(self) -> nat {
        match self {
            HostArray::Int8(_) | HostArray::Uint8(_) => 1,
            HostArray::Int16(_) | HostArray::Uint16(_) => 2,
            HostArray::Int32(_) | HostArray::Uint32(_) | HostArray::Float32(_) => 4,
        }
    }

    /// Number of elements.
    pub open spec fn count(self) -> nat {
        match self {
            HostArray::Int8(v) => v@.len(),
            HostArray::Uint8(v) => v@.len(),
            HostArray::Int16(v) => v@.len(),
            HostArray::Uint16(v) => v@.len(),
            HostArray::Int32(v) => v@.len(),
            HostArray::Uint32(v) => v@.len(),
            HostArray::Float32(v) => v@.len(),
        }
    }

    /// The bit pattern of each element, as an unsigned number.
    pub open spec fn patterns(self) -> Seq<int> {
        match self {
            HostArray::Int8(v) => Seq::new(v@.len(), |i: int| pattern_of(v@[i] as int, 1)),
            HostArray::Uint8(v) => Seq::new(v@.len(), |i: int| v@[i] as int),
            HostArray::Int16(v) => Seq::new(v@.len(), |i: int| pattern_of(v@[i] as int, 2)),
            HostArray::Uint16(v) => Seq::new(v@.len(), |i: int| v@[i] as int),
            HostArray::Int32(v) => Seq::new(v@.len(), |i: int| pattern_of(v@[i] as int, 4)),
            HostArray::Uint32(v) => Seq::new(v@.len(), |i: int| v@[i] as int),
            HostArray::Float32(v) => Seq::new(v@.len(), |i: int| v@[i] as int),
        }
    }

    /// Bytes per element.
    pub fn element_width(&self) -> (width: usize)
        ensures
            width == self.width(),
    {
        match self {
            HostArray::Int8(_) | HostArray::Uint8(_) => 1,
            HostArray::Int16(_) | HostArray::Uint16(_) => 2,
            HostArray::Int32(_) | HostArray::Uint32(_) | HostArray::Float32(_) => 4,
        }
    }

    /// Number of elements.
    pub fn len(&self) -> (count: usize)
        ensures
            count == self.count(),
            self.patterns().len() == count,
    {
        match self {
            HostArray::Int8(v) => v.len(),
            HostArray::Uint8(v) => v.len(),
            HostArray::Int16(v) => v.len(),
            HostArray::Uint16(v) => v.len(),
            HostArray::Int32(v) => v.len(),
            HostArray::Uint32(v) => v.len(),
            HostArray::Float32(v) => v.len(),
        }
    }

    /// The bit pattern of element `i`.
    pub fn pattern_at(&self, i: usize) -> (pattern: u32)
        requires
            i < self.count(),
        ensures
            pattern == self.patterns()[i as int],
            pattern < modulus(self.width()),
    {
        match self {
            HostArray::Int8(v) => {
                let x: i8 = v[i];
                if x < 0 {
                    (x as i32 + 0x100) as u32
                } else {
                    x as u32
                }
            },
            HostArray::Uint8(v) => v[i] as u32,
            HostArray::Int16(v) => {
                let x: i16 = v[i];
                if x < 0 {
                    (x as i32 + 0x1_0000) as u32
                } else {
                    x as u32
                }
            },
            HostArray::Uint16(v) => v[i] as u32,
            HostArray::Int32(v) => {
                let x: i32 = v[i];
                if x < 0 {
                    (x as i64 + 0x1_0000_0000) as u32
                } else {
                    x as u32
                }
            },
            HostArray::Uint32(v) => v[i],
            HostArray::Float32(v) => v[i],
        }
    }
}

/// `u16::to_ne_bytes`: the two bytes of `x` as they lie in memory, which is
/// either least significant first or most significant first.
#[verifier::external_body]
fn bytes_in_memory(x: u16) -> (bytes: [u8; 2])
    ensures
        bytes@ == element_bytes(ByteOrder::LittleEndian, 2, x as int) || bytes@ == element_bytes(
            ByteOrder::BigEndian,
            2,
            x as int,
        ),
{
    x.to_ne_bytes()
}

/// The byte order that lays the number one out, in two bytes, as `probe`:
/// least significant first where the one comes first.
pub open spec fn order_storing_one_as(probe: Seq<u8>) -> ByteOrder {
    if probe[0] == 1 {
        ByteOrder::LittleEndian
    } else {
        ByteOrder::BigEndian
    }
}

impl ByteOrder {
    /// The byte order of the machine that this runs on, found by looking at
    /// how it stores the number one.
    pub fn native() -> ByteOrder {
        ByteOrder::storing_one_as(bytes_in_memory(1))
    }

    /// The byte order of a machine on which the two bytes of the number one
    /// lie in memory as `probe`.  Each order is told from its own layout of
    /// the one.
    pub fn storing_one_as(probe: [u8; 2]) -> (order: ByteOrder)
        ensures
            order == order_storing_one_as(probe@),
            probe@ == element_bytes(ByteOrder::LittleEndian, 2, 1) ==> order
                == ByteOrder::LittleEndian,
            probe@ == element_bytes(ByteOrder::BigEndian, 2, 1) ==> order == ByteOrder::BigEndian,
    {
        proof {
            assert(element_bytes(ByteOrder::LittleEndian, 2, 1)[0] == 1u8);
            assert(element_bytes(ByteOrder::BigEndian, 2, 1)[0] == 0u8);
        }
        if probe[0] == 1 {
            ByteOrder::LittleEndian
        } else {
            ByteOrder::BigEndian
        }
    }
}

/// Appends the bytes of one element to `out`.
fn push_element(out: &mut Vec<u8>, order: ByteOrder, width: usize, pattern: u32)
    requires
        width == 1 || width == 2 || width == 4,
        pattern < modulus(width as nat),
    ensures
        final(out)@ == old(out)@ + element_bytes(order, width as nat, pattern as int),
{
    let d0: u8 = (pattern % 0x100) as u8;
    let d1: u8 = ((pattern / 0x100) % 0x100) as u8;
    let d2: u8 = ((pattern / 0x1_0000) % 0x100) as u8;
    let d3: u8 = ((pattern / 0x100_0000) % 0x100) as u8;
    if width == 1 {
        out.push(d0);
    } else if width == 2 {
        match order {
            ByteOrder::LittleEndian => {
                out.push(d0);
                out.push(d1);
            },
            ByteOrder::BigEndian => {
                out.push(d1);
                out.push(d0);
            },
        }
    } else {
        match order {
            ByteOrder::LittleEndian => {
                out.push(d0);
                out.push(d1);
                out.push(d2);
                out.push(d3);
            },
            ByteOrder::BigEndian => {
                out.push(d3);
                out.push(d2);
                out.push(d1);
                out.push(d0);
            },
        }
    }
    assert(out@ =~= old(out)@ + element_bytes(order, width as nat, pattern as int));
}

/// Marshals `values` as an array of `datatype` elements in the given byte
/// order.  The element type decides only whether the array is accepted: the
/// bits of each element go out as they are.
pub fn marshal_in(order: ByteOrder, datatype: BufferDataType, values: &HostArray) -> (result: Result<
    Vec<u8>,
    MarshalError,
>)
    ensures
        match marshalled(order, datatype, values@) {
            Ok(bytes) => result matches Ok(out) && out@ == bytes,
            Err(e) => result == Err::<Vec<u8>, MarshalError>(e),
        },
        result matches Ok(out) ==> out@.len() == values.count() * datatype.width(),
{
    if datatype == BufferDataType::HalfFloat {
        return Err(MarshalError::UnsupportedDatatype);
    }
    let width = values.element_width();
    if datatype.byte_width() != width {
        return Err(MarshalError::WidthMismatch);
    }
    let count = values.len();
    let mut out: Vec<u8> = Vec::new();
    let mut i: usize = 0;
    while i < count
        invariant
            i <= count,
            count == values.count(),
            values.patterns().len() == count,
            width == values.width(),
            out@ == layout(order, width as nat, values.patterns().take(i as int)),
        decreases count - i,
    {
        let pattern = values.pattern_at(i);
        push_element(&mut out, order, width, pattern);
        proof {
            let grown = values.patterns().take(i + 1);
            assert(grown.drop_last() =~= values.patterns().take(i as int));
            assert(grown.last() == pattern as int);
        }
        i += 1;
    }
    proof {
        assert(values.patterns().take(count as int) =~= values.patterns());
        lemma_layout_len(order, width as nat, values.patterns());
    }
    Ok(out)
}

/// Marshals `values` as an array of `datatype` elements in the byte order of
/// this machine.
pub fn marshal(datatype: BufferDataType, values: &HostArray) -> (result: Result<Vec<u8>, MarshalError>)
    ensures
        datatype == BufferDataType::HalfFloat ==> result == Err::<Vec<u8>, MarshalError>(
            MarshalError::UnsupportedDatatype,
        ),
        datatype != BufferDataType::HalfFloat && datatype.width() != values.width() ==> result
            == Err::<Vec<u8>, MarshalError>(MarshalError::WidthMismatch),
        datatype != BufferDataType::HalfFloat && datatype.width() == values.width() ==> result is Ok
            && (result->Ok_0@ == layout(ByteOrder::LittleEndian, values.width(), values.patterns())
            || result->Ok_0@ == layout(ByteOrder::BigEndian, values.width(), values.patterns())),
        result matches Ok(out) ==> out@.len() == values.count() * datatype.width(),
{
    marshal_in(ByteOrder::native(), datatype, values)
}

/// A layout holds `width` bytes for each element.
pub proof fn lemma_layout_len(order: ByteOrder, width: nat, patterns: Seq<int>)
    ensures
        layout(order, width, patterns).len() == patterns.len() * width,
    decreases patterns.len(),
{
    if patterns.len() > 0 {
        lemma_layout_len(order, width, patterns.drop_last());
        assert((patterns.len() - 1) * width + width == patterns.len() * width) by (nonlinear_arith);
    }
}

} // verus!
