//! Reading values out of guest memory, and writing them back.
//!
//! Guest memory is taken as a byte string. Every read copies: nothing that is
//! returned refers to the memory it came from. A range is accepted only if it
//! lies wholly inside the memory, and the check is made without wrapping.

use vstd::prelude::*;
use vstd::utf8::*;
use crate::error::MarshalError;

verus! {

/// A range of guest memory: where it starts and how many elements it holds.
#[derive(Clone, Copy, Debug, PartialEq, Eq, Structural)]
pub struct Span {
    pub ptr: u32,
    pub len: u32,
}

/// The bytes of a buffer in guest memory, with the size of one item.
#[derive(Clone, Copy, Debug, PartialEq, Eq, Structural)]
pub struct BufferSlice {
    pub ptr: u32,
    pub size: u32,
    pub item_size: u32,
}

/// One shader stage of a pipeline request, as the guest lays it out.
#[derive(Clone, Copy, Debug, PartialEq, Eq, Structural)]
pub struct ExternPipelineShaderInfo {
    pub entry_point: Span,
    pub shader: u32,
}

/// A pipeline request, as the guest lays it out.
#[derive(Clone, Copy, Debug, PartialEq, Eq, Structural)]
pub struct ExternPipelineInfo {
    pub attributes: Span,
    pub fragment: ExternPipelineShaderInfo,
    pub vertex: ExternPipelineShaderInfo,
}

/// A vertex attribute as the guest names it.
#[derive(Clone, Copy, Debug, PartialEq, Eq, Structural)]
pub struct VertexAttribute {
    pub format: u32,
    pub buffer_index: u32,
}

/// Pointer position and window size, each number as the bits of a 32-bit float.
#[derive(Clone, Copy, Debug, PartialEq, Eq, Structural)]
pub struct WindowState {
    pub pointer_x: u32,
    pub pointer_y: u32,
    pub width: u32,
    pub height: u32,
}

/// Bytes that a `Span` record takes.
pub const SPAN_SIZE: u32 = 8;

/// Bytes that a `BufferSlice` record takes.
pub const BUFFER_SLICE_SIZE: u32 = 12;

/// Bytes that a `VertexAttribute` record takes.
pub const VERTEX_ATTRIBUTE_SIZE: u32 = 8;

/// Bytes that an `ExternPipelineInfo` record takes.
pub const PIPELINE_INFO_SIZE: u32 = 32;

/// Bytes that a `WindowState` record takes.
pub const WINDOW_STATE_SIZE: u32 = 16;

/// The number whose little-endian image is the four bytes of `bytes` from `at` on.
pub open spec fn le_u32(bytes: Seq<u8>, at: int) -> u32 {
    (bytes[at] as int + bytes[at + 1] as int * 0x100 + bytes[at + 2] as int * 0x1_0000
        + bytes[at + 3] as int * 0x100_0000) as u32
}

/// The little-endian image of a number: four bytes, least significant first.
pub open spec fn le_bytes(value: u32) -> Seq<u8> {
    seq![
        (value as int % 0x100) as u8,
        (value as int / 0x100 % 0x100) as u8,
        (value as int / 0x1_0000 % 0x100) as u8,
        (value as int / 0x100_0000 % 0x100) as u8,
    ]
}

/// Whether `count` bytes from `address` on lie inside a memory of `size` bytes.
pub open spec fn in_bounds(size: nat, address: int, count: int) -> bool {
    address + count <= size
}

impl Span {
    /// The bytes that the range covers when one element takes `element_size` bytes.
    pub open spec fn byte_len(self, element_size: nat) -> int {
        self.len * element_size
    }

    /// The address one past the range.
    pub open spec fn end(self, element_size: nat) -> int {
        self.ptr + self.byte_len(element_size)
    }

    /// Whether the range lies inside a memory of `size` bytes.
    pub open spec fn fits(self, size: nat, element_size: nat) -> bool {
        in_bounds(size, self.ptr as int, self.byte_len(element_size))
    }

    /// The record that starts at `at` in `bytes`.
    pub open spec fn decode(bytes: Seq<u8>, at: int) -> Span {
        Span { ptr: le_u32(bytes, at), len: le_u32(bytes, at + 4) }
    }
}

impl BufferSlice {
    /// The record that starts at `at` in `bytes`.
    pub open spec fn decode(bytes: Seq<u8>, at: int) -> BufferSlice {
        BufferSlice {
            ptr: le_u32(bytes, at),
            size: le_u32(bytes, at + 4),
            item_size: le_u32(bytes, at + 8),
        }
    }

    /// The range of bytes that the record names.
    pub open spec fn span(self) -> Span {
        Span { ptr: self.ptr, len: self.size }
    }
}

impl ExternPipelineShaderInfo {
    /// The record that starts at `at` in `bytes`.
    pub open spec fn decode(bytes: Seq<u8>, at: int) -> ExternPipelineShaderInfo {
        ExternPipelineShaderInfo {
            entry_point: Span::decode(bytes, at),
            shader: le_u32(bytes, at + 8),
        }
    }
}

impl ExternPipelineInfo {
    /// The record that starts at `at` in `bytes`.
    pub open spec fn decode(bytes: Seq<u8>, at: int) -> ExternPipelineInfo {
        ExternPipelineInfo {
            attributes: Span::decode(bytes, at),
            fragment: ExternPipelineShaderInfo::decode(bytes, at + 8),
            vertex: ExternPipelineShaderInfo::decode(bytes, at + 20),
        }
    }
}

impl VertexAttribute {
    /// The record that starts at `at` in `bytes`.
    pub open spec fn decode(bytes: Seq<u8>, at: int) -> VertexAttribute {
        VertexAttribute { format: le_u32(bytes, at), buffer_index: le_u32(bytes, at + 4) }
    }
}

impl WindowState {
    /// The sixteen bytes of the record: pointer first, then size.
    pub open spec fn encode(self) -> Seq<u8> {
        le_bytes(self.pointer_x) + le_bytes(self.pointer_y) + le_bytes(self.width) + le_bytes(
            self.height,
        )
    }
}

/// What reading the bytes of a span gives.
pub open spec fn span_read(memory: Seq<u8>, span: Span, element_size: nat) -> Result<
    Seq<u8>,
    MarshalError,
> {
    if span.fits(memory.len(), element_size) {
        Ok(memory.subrange(span.ptr as int, span.end(element_size)))
    } else {
        Err(MarshalError::OutOfBounds)
    }
}

/// What reading a span as text gives.
pub open spec fn string_read(memory: Seq<u8>, span: Span) -> Result<Seq<char>, MarshalError> {
    match span_read(memory, span, 1) {
        Err(e) => Err(e),
        Ok(bytes) => if valid_utf8(bytes) {
            Ok(decode_utf8(bytes))
        } else {
            Err(MarshalError::InvalidEncoding)
        },
    }
}

/// What reading a span as vertex attributes gives.
pub open spec fn attributes_read(memory: Seq<u8>, span: Span) -> Result<
    Seq<VertexAttribute>,
    MarshalError,
> {
    if span.fits(memory.len(), VERTEX_ATTRIBUTE_SIZE as nat) {
        Ok(
            Seq::new(
                span.len as nat,
                |i: int| VertexAttribute::decode(memory, span.ptr + i * VERTEX_ATTRIBUTE_SIZE),
            ),
        )
    } else {
        Err(MarshalError::OutOfBounds)
    }
}

/// What writing `bytes` at `address` gives: the memory with that part replaced.
pub open spec fn bytes_written(memory: Seq<u8>, address: u32, bytes: Seq<u8>) -> Result<
    Seq<u8>,
    MarshalError,
> {
    if in_bounds(memory.len(), address as int, bytes.len() as int) {
        Ok(
            memory.subrange(0, address as int) + bytes + memory.subrange(
                address + bytes.len(),
                memory.len() as int,
            ),
        )
    } else {
        Err(MarshalError::OutOfBounds)
    }
}

/// The error with which `String::from_utf8` refuses bytes.
#[verifier::external_type_specification]
#[verifier::external_body]
pub struct ExFromUtf8Error(std::string::FromUtf8Error);

/// `String::from_utf8`: the text that the bytes encode, or an error where they
/// are not well-formed UTF-8. Nothing else is claimed of the error.
#[verifier::external_body]
fn string_from_utf8(bytes: Vec<u8>) -> (text: Result<String, std::string::FromUtf8Error>)
    ensures
        text is Ok <==> valid_utf8(bytes@),
        text matches Ok(s) ==> s@ == decode_utf8(bytes@),
{
    String::from_utf8(bytes)
}

/// The number stored least significant byte first at `at`.
fn u32_at(memory: &[u8], at: usize) -> (value: u32)
    requires
        at + 4 <= memory@.len(),
    ensures
        value == le_u32(memory@, at as int),
{
    let b0: u32 = memory[at] as u32;
    let b1: u32 = memory[at + 1] as u32;
    let b2: u32 = memory[at + 2] as u32;
    let b3: u32 = memory[at + 3] as u32;
    b0 + b1 * 0x100 + b2 * 0x1_0000 + b3 * 0x100_0000
}

/// Appends the little-endian image of `value` to `out`.
fn push_u32(out: &mut Vec<u8>, value: u32)
    ensures
        final(out)@ == old(out)@ + le_bytes(value),
{
    out.push((value % 0x100) as u8);
    out.push((value / 0x100 % 0x100) as u8);
    out.push((value / 0x1_0000 % 0x100) as u8);
    out.push((value / 0x100_0000 % 0x100) as u8);
    assert(out@ =~= old(out)@ + le_bytes(value));
}

/// Where a range of `count` elements of `element_size` bytes from `ptr` ends,
/// if that is inside `memory`.
fn checked_end(memory: &[u8], ptr: u32, count: u32, element_size: u32) -> (end: Option<usize>)
    ensures
        end is Some <==> in_bounds(memory@.len(), ptr as int, count * element_size),
        end matches Some(e) ==> e == ptr + count * element_size,
{
    assert(count * element_size <= 0xffff_ffff * 0xffff_ffff) by (nonlinear_arith)
        requires
            0 <= count <= 0xffff_ffff,
            0 <= element_size <= 0xffff_ffff,
    ;
    let bytes: u64 = count as u64 * element_size as u64;
    let end: u64 = ptr as u64 + bytes;
    if end <= memory.len() as u64 {
        Some(end as usize)
    } else {
        None
    }
}

/// Copies the bytes of `span` out of guest memory, one element taking
/// `element_size` bytes.
pub fn read_span(memory: &[u8], span: Span, element_size: u32) -> (result: Result<
    Vec<u8>,
    MarshalError,
>)
    ensures
        match result {
            Ok(bytes) => span_read(memory@, span, element_size as nat) == Ok::<
                Seq<u8>,
                MarshalError,
            >(bytes@),
            Err(e) => span_read(memory@, span, element_size as nat) == Err::<
                Seq<u8>,
                MarshalError,
            >(e),
        },
{
    match checked_end(memory, span.ptr, span.len, element_size) {
        None => Err(MarshalError::OutOfBounds),
        Some(end) => {
            let part = vstd::slice::slice_subrange(memory, span.ptr as usize, end);
            Ok(vstd::slice::slice_to_vec(part))
        },
    }
}

/// Copies the bytes of `span` out of guest memory and reads them as UTF-8.
pub fn read_string(memory: &[u8], span: Span) -> (result: Result<String, MarshalError>)
    ensures
        match result {
            Ok(text) => string_read(memory@, span) == Ok::<Seq<char>, MarshalError>(text@),
            Err(e) => string_read(memory@, span) == Err::<Seq<char>, MarshalError>(e),
        },
{
    match read_span(memory, span, 1) {
        Err(e) => Err(e),
        Ok(bytes) => match string_from_utf8(bytes) {
            Ok(text) => Ok(text),
            Err(_) => Err(MarshalError::InvalidEncoding),
        },
    }
}

/// Copies the vertex attributes of `span` out of guest memory.
pub fn read_attributes(memory: &[u8], span: Span) -> (result: Result<
    Vec<VertexAttribute>,
    MarshalError,
>)
    ensures
        match result {
            Ok(attributes) => attributes_read(memory@, span) == Ok::<
                Seq<VertexAttribute>,
                MarshalError,
            >(attributes@),
            Err(e) => attributes_read(memory@, span) == Err::<Seq<VertexAttribute>, MarshalError>(
                e,
            ),
        },
{
    match checked_end(memory, span.ptr, span.len, VERTEX_ATTRIBUTE_SIZE) {
        None => Err(MarshalError::OutOfBounds),
        Some(end) => {
            let mut attributes: Vec<VertexAttribute> = Vec::new();
            let mut i: usize = 0;
            let count: usize = span.len as usize;
            let base: usize = span.ptr as usize;
            while i < count
                invariant
                    count == span.len,
                    base == span.ptr,
                    i <= count,
                    end == base + count * 8,
                    end <= memory@.len(),
                    attributes@.len() == i,
                    forall|k: int|
                        0 <= k < i ==> attributes@[k] == VertexAttribute::decode(
                            memory@,
                            span.ptr + k * 8,
                        ),
                decreases count - i,
            {
                let at: usize = base + i * 8;
                let attribute = VertexAttribute {
                    format: u32_at(memory, at),
                    buffer_index: u32_at(memory, at + 4),
                };
                attributes.push(attribute);
                i = i + 1;
            }
            assert(attributes@ =~= attributes_read(memory@, span).unwrap());
            Ok(attributes)
        },
    }
}

impl Span {
    /// Reads the record at `address`.
    pub fn read(memory: &[u8], address: u32) -> (result: Result<Span, MarshalError>)
        ensures
            result == (if in_bounds(memory@.len(), address as int, SPAN_SIZE as int) {
                Ok::<Span, MarshalError>(Span::decode(memory@, address as int))
            } else {
                Err::<Span, MarshalError>(MarshalError::OutOfBounds)
            }),
    {
        match checked_end(memory, address, 1, SPAN_SIZE) {
            None => Err(MarshalError::OutOfBounds),
            Some(_) => {
                let at: usize = address as usize;
                Ok(Span { ptr: u32_at(memory, at), len: u32_at(memory, at + 4) })
            },
        }
    }
}

impl BufferSlice {
    /// Reads the record at `address`.
    pub fn read(memory: &[u8], address: u32) -> (result: Result<BufferSlice, MarshalError>)
        ensures
            result == (if in_bounds(memory@.len(), address as int, BUFFER_SLICE_SIZE as int) {
                Ok::<BufferSlice, MarshalError>(BufferSlice::decode(memory@, address as int))
            } else {
                Err::<BufferSlice, MarshalError>(MarshalError::OutOfBounds)
            }),
    {
        match checked_end(memory, address, 1, BUFFER_SLICE_SIZE) {
            None => Err(MarshalError::OutOfBounds),
            Some(_) => {
                let at: usize = address as usize;
                Ok(
                    BufferSlice {
                        ptr: u32_at(memory, at),
                        size: u32_at(memory, at + 4),
                        item_size: u32_at(memory, at + 8),
                    },
                )
            },
        }
    }
}

impl ExternPipelineInfo {
    /// Reads the record at `address`.
    pub fn read(memory: &[u8], address: u32) -> (result: Result<ExternPipelineInfo, MarshalError>)
        ensures
            result == (if in_bounds(memory@.len(), address as int, PIPELINE_INFO_SIZE as int) {
                Ok::<ExternPipelineInfo, MarshalError>(
                    ExternPipelineInfo::decode(memory@, address as int),
                )
            } else {
                Err::<ExternPipelineInfo, MarshalError>(MarshalError::OutOfBounds)
            }),
    {
        match checked_end(memory, address, 1, PIPELINE_INFO_SIZE) {
            None => Err(MarshalError::OutOfBounds),
            Some(_) => {
                let at: usize = address as usize;
                Ok(
                    ExternPipelineInfo {
                        attributes: Span { ptr: u32_at(memory, at), len: u32_at(memory, at + 4) },
                        fragment: ExternPipelineShaderInfo {
                            entry_point: Span {
                                ptr: u32_at(memory, at + 8),
                                len: u32_at(memory, at + 12),
                            },
                            shader: u32_at(memory, at + 16),
                        },
                        vertex: ExternPipelineShaderInfo {
                            entry_point: Span {
                                ptr: u32_at(memory, at + 20),
                                len: u32_at(memory, at + 24),
                            },
                            shader: u32_at(memory, at + 28),
                        },
                    },
                )
            },
        }
    }
}

impl WindowState {
    /// The bytes of the record.
    pub fn to_bytes(&self) -> (bytes: Vec<u8>)
        ensures
            bytes@ == self.encode(),
            bytes@.len() == WINDOW_STATE_SIZE,
    {
        let mut bytes: Vec<u8> = Vec::new();
        push_u32(&mut bytes, self.pointer_x);
        push_u32(&mut bytes, self.pointer_y);
        push_u32(&mut bytes, self.width);
        push_u32(&mut bytes, self.height);
        assert(bytes@ =~= self.encode());
        bytes
    }

    /// Writes the record into guest memory at `address`. Where it does not
    /// fit, the memory is left as it was.
    pub fn write(&self, memory: &mut Vec<u8>, address: u32) -> (result: Result<(), MarshalError>)
        ensures
            match result {
                Ok(_) => bytes_written(old(memory)@, address, self.encode()) == Ok::<
                    Seq<u8>,
                    MarshalError,
                >(final(memory)@),
                Err(e) => bytes_written(old(memory)@, address, self.encode()) == Err::<
                    Seq<u8>,
                    MarshalError,
                >(e) && final(memory)@ == old(memory)@,
            },
    {
        let bytes = self.to_bytes();
        write_bytes(memory, address, &bytes)
    }
}

/// Copies `bytes` into guest memory at `address`. Where they do not fit, the
/// memory is left as it was.
pub fn write_bytes(memory: &mut Vec<u8>, address: u32, bytes: &Vec<u8>) -> (result: Result<
    (),
    MarshalError,
>)
    ensures
        match result {
            Ok(_) => bytes_written(old(memory)@, address, bytes@) == Ok::<Seq<u8>, MarshalError>(
                final(memory)@,
            ),
            Err(e) => bytes_written(old(memory)@, address, bytes@) == Err::<Seq<u8>, MarshalError>(
                e,
            ) && final(memory)@ == old(memory)@,
        },
{
    let count: usize = bytes.len();
    let size: usize = memory.len();
    let start: u64 = address as u64;
    if count as u64 > size as u64 || start > size as u64 - count as u64 {
        return Err(MarshalError::OutOfBounds);
    }
    let base: usize = address as usize;
    let mut i: usize = 0;
    while i < count
        invariant
            count == bytes@.len(),
            base == address,
            base + count <= size,
            size == memory@.len(),
            memory@.len() == old(memory)@.len(),
            i <= count,
            forall|k: int| 0 <= k < base ==> memory@[k] == old(memory)@[k],
            forall|k: int| base <= k < base + i ==> memory@[k] == bytes@[k - base],
            forall|k: int| base + i <= k < memory@.len() ==> memory@[k] == old(memory)@[k],
        decreases count - i,
    {
        memory.set(base + i, bytes[i]);
        i = i + 1;
    }
    assert(memory@ =~= bytes_written(old(memory)@, address, bytes@).unwrap());
    Ok(())
}

/// A range that reaches past the end of guest memory is refused by every read,
/// whatever the memory holds.
pub proof fn lemma_span_past_end_is_refused(memory: Seq<u8>, span: Span)
    requires
        span.ptr + span.len > memory.len(),
    ensures
        forall|element_size: nat|
            element_size >= 1 ==> #[trigger] span_read(memory, span, element_size) == Err::<
                Seq<u8>,
                MarshalError,
            >(MarshalError::OutOfBounds),
        string_read(memory, span) == Err::<Seq<char>, MarshalError>(MarshalError::OutOfBounds),
        attributes_read(memory, span) == Err::<Seq<VertexAttribute>, MarshalError>(
            MarshalError::OutOfBounds,
        ),
{
    assert forall|element_size: nat| element_size >= 1 implies #[trigger] span_read(
        memory,
        span,
        element_size,
    ) == Err::<Seq<u8>, MarshalError>(MarshalError::OutOfBounds) by {
        assert(span.len * element_size >= span.len) by (nonlinear_arith)
            requires
                element_size >= 1,
                span.len >= 0,
        ;
    }
    assert(span_read(memory, span, 1) == Err::<Seq<u8>, MarshalError>(MarshalError::OutOfBounds));
}

/// A read never hands out a byte from outside the range that was asked for.
pub proof fn lemma_read_stays_in_range(memory: Seq<u8>, span: Span, element_size: nat, i: int)
    requires
        span_read(memory, span, element_size) is Ok,
        0 <= i < span.byte_len(element_size),
    ensures
        span_read(memory, span, element_size).unwrap().len() == span.byte_len(element_size),
        span_read(memory, span, element_size).unwrap()[i] == memory[span.ptr + i],
        span.ptr + i < memory.len(),
{
}

/// Writing a number and reading it back gives the number.
pub proof fn lemma_le_round_trip(value: u32)
    ensures
        le_bytes(value).len() == 4,
        le_u32(le_bytes(value), 0) == value,
{
}

} // verus!
