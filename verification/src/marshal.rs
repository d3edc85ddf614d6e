//! Marshalling of text and byte buffers across the host boundary.
//!
//! Outgoing data crosses the boundary as an `(address, length)` pair of
//! 32-bit signed integers naming a guest buffer; incoming data is copied by
//! the host into a guest buffer that the guest allocates first. Any address
//! or length that does not fit the boundary's integer width is a fatal
//! [`MtgError::ConversionOverflow`].

use vstd::prelude::*;

use crate::MtgError;

verus! {

/// Relies on `str::as_ptr`: the address of the first byte of the buffer,
/// which depends on where the allocator placed it.
#[verifier::external_body]
fn str_buffer_address(text: &str) -> usize {
    text.as_ptr() as usize
}

/// Relies on `<[u8]>::as_ptr`: the address of the first byte of the buffer,
/// which depends on where the allocator placed it.
#[verifier::external_body]
fn bytes_buffer_address(bytes: &[u8]) -> usize {
    bytes.as_ptr() as usize
}

/// Narrows a buffer's address and length to the boundary's integer width.
///
/// Returns the pair exactly when both values fit in a 32-bit signed integer,
/// and reports [`MtgError::ConversionOverflow`] otherwise.
pub fn pack_pair(address: usize, len: usize) -> (r: Result<(i32, i32), MtgError>)
    ensures
        r matches Ok(p) <==> address <= i32::MAX && len <= i32::MAX,
        r matches Ok(p) ==> p.0 == address && p.1 == len,
        r matches Err(e) ==> e == MtgError::ConversionOverflow,
{
    if address <= i32::MAX as usize && len <= i32::MAX as usize {
        Ok((address as i32, len as i32))
    } else {
        Err(MtgError::ConversionOverflow)
    }
}

/// Exposes a text buffer to the host as an `(address, length)` pair.
///
/// The caller must keep the buffer alive for the duration of the host call
/// that receives the pair. The length is the text's length in bytes. The
/// address depends on where the allocator placed the buffer, so the
/// contract can promise failure outright only when the length alone
/// already fails to fit.
pub fn convert_str(text: &str) -> (r: Result<(i32, i32), MtgError>)
    ensures
        r matches Ok(p) ==> p.0 >= 0 && p.1 == text.len(),
        r matches Err(e) ==> e == MtgError::ConversionOverflow,
        text.len() > i32::MAX ==> r is Err,
{
    pack_pair(str_buffer_address(text), text.len())
}

/// Exposes a byte buffer to the host as an `(address, length)` pair.
///
/// The caller must keep the buffer alive for the duration of the host call
/// that receives the pair.
pub fn convert_bytes(bytes: &[u8]) -> (r: Result<(i32, i32), MtgError>)
    ensures
        r matches Ok(p) ==> p.0 >= 0 && p.1 == bytes@.len(),
        r matches Err(e) ==> e == MtgError::ConversionOverflow,
        bytes@.len() > i32::MAX ==> r is Err,
{
    pack_pair(bytes_buffer_address(bytes), bytes.len())
}

/// What an incoming host-to-guest copy needs from the guest.
#[derive(Debug, PartialEq)]
pub enum PersistentRead {
    /// The store is empty: no host fill call is needed and the data is the
    /// empty byte sequence.
    Empty,
    /// The guest allocated this zeroed buffer; the host must fill it in
    /// place before the data is used.
    Fill(Vec<u8>),
}

/// Plans the incoming copy of a host-side buffer of the given length.
///
/// A `length == 0` request is short-circuited locally: it yields
/// [`PersistentRead::Empty`] and costs no host round trip. A positive length
/// yields a freshly allocated zeroed buffer of exactly that length for the
/// host to fill. A negative length cannot name a buffer and is a fatal
/// [`MtgError::ConversionOverflow`].
pub fn decode(length: i32) -> (r: Result<PersistentRead, MtgError>)
    ensures
        length == 0 ==> r == Ok::<PersistentRead, MtgError>(PersistentRead::Empty),
        length > 0 ==> (r matches Ok(PersistentRead::Fill(data))
            && data@.len() == length
            && (forall|i: int| 0 <= i < data@.len() ==> data@[i] == 0u8)),
        length < 0 ==> r == Err::<PersistentRead, MtgError>(MtgError::ConversionOverflow),
{
    if length == 0 {
        Ok(PersistentRead::Empty)
    } else if length > 0 {
        let n = length as usize;
        let mut data: Vec<u8> = Vec::new();
        let mut i: usize = 0;
        while i < n
            invariant
                i <= n,
                data@.len() == i,
                forall|j: int| 0 <= j < i ==> data@[j] == 0u8,
            decreases n - i,
        {
            data.push(0u8);
            i = i + 1;
        }
        Ok(PersistentRead::Fill(data))
    } else {
        Err(MtgError::ConversionOverflow)
    }
}

} // verus!
