//! Framing checks on FlexBuffers payloads of database events. A payload is
//! only handed to a decoder once its root has been located.

use vstd::prelude::*;

verus! {

#[verifier::external_type_specification]
#[verifier::external_body]
pub struct ExReaderError(flexbuffers::ReaderError);

/// The byte widths that a FlexBuffers root may have.
pub open spec fn is_root_width(b: u8) -> bool {
    b == 1 || b == 2 || b == 4 || b == 8
}

/// The FlexBuffers type codes: 0 to 26, and 36.
pub open spec fn is_flexbuffer_type(code: int) -> bool {
    0 <= code <= 26 || code == 36
}

/// The type codes stored inline rather than by offset: null, signed and
/// unsigned integers, floats (0 to 3) and booleans (26).
pub open spec fn is_inline_type(code: int) -> bool {
    0 <= code <= 3 || code == 26
}

/// The little-endian value of a byte string.
pub open spec fn le_value(bytes: Seq<u8>) -> nat
    decreases bytes.len(),
{
    if bytes.len() == 0 {
        0
    } else {
        (bytes[0] + 256 * le_value(bytes.drop_first())) as nat
    }
}

/// Whether a FlexBuffers reader can locate and open the root of `data`: at
/// least three bytes; the last one a root width `w`; the one before it a
/// packed type whose upper six bits are a type code; `w` bytes before those
/// two for the root; and, for a type stored by offset, an offset (the root's
/// `w` bytes, little-endian, read as a `usize`) that does not reach back
/// before the start of the buffer.
pub open spec fn flexbuffer_root_readable(data: Seq<u8>) -> bool {
    let n = data.len() as int;
    let w = data[n - 1] as int;
    let code = data[n - 2] / 4;
    let address = n - 2 - w;
    &&& n >= 3
    &&& is_root_width(data[n - 1])
    &&& is_flexbuffer_type(code as int)
    &&& address >= 0
    &&& (is_inline_type(code as int) || (le_value(data.subrange(address, address + w)) as int) % (
    usize::MAX as int + 1) <= address)
}

/// `flexbuffers::Reader::get_root` on a byte slice, with the reader dropped:
/// `Ok` exactly when `flexbuffer_root_readable` holds of the bytes, as its
/// source reads them (the length check, `BitWidth::from_nbytes` of the last
/// byte, the type code of the packed type byte, the root address, and for a
/// type stored by offset the checked subtraction of the offset). Which error
/// comes back is not stated.
#[verifier::external_body]
fn get_root(data: &[u8]) -> (r: Result<(), flexbuffers::ReaderError>)
    ensures
        r is Ok == flexbuffer_root_readable(data@),
{
    flexbuffers::Reader::get_root(data).map(|_reader| ())
}

/// Why a payload could not be read.
#[derive(Debug)]
pub enum ReadError {
    /// The FlexBuffer root could not be read.
    Root(flexbuffers::ReaderError),
}

/// Locates the root of a FlexBuffers payload, as reading a batch or an event
/// does before decoding it.
pub fn read_root(data: &[u8]) -> (r: Result<(), ReadError>)
    ensures
        r is Ok == flexbuffer_root_readable(data@),
        data@.len() < 3 ==> r is Err,
        data@.len() >= 3 && !is_root_width(data@.last()) ==> r is Err,
{
    match get_root(data) {
        Ok(()) => Ok(()),
        Err(e) => Err(ReadError::Root(e)),
    }
}

} // verus!
