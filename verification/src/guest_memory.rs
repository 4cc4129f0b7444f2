//! The guest memory bridge.
//!
//! The guest hands host functions an offset and a length into the shared
//! linear memory; both are untrusted. Every access is mediated here: the
//! range is bounds-checked against the current memory size, the bytes are
//! copied out whole or not at all, and the logging path decodes them as
//! text. No raw pointer into guest memory leaves this module.

use vstd::prelude::*;
use vstd::utf8::{valid_utf8, decode_utf8};
use crate::errors::HostError;
use crate::linker::{mem_min_pages, PAGE_SIZE_BYTES};
use crate::text::decode_text;

verus! {

/// The bytes a memory view holds, from its base to its current size.
pub uninterp spec fn view_contents(view: wasmer::MemoryView) -> Seq<u8>;

/// The bytes at [offset, offset + length) of the view, meaningful when the
/// range lies within bounds.
pub open spec fn guest_range(view: wasmer::MemoryView, offset: u64, length: usize) -> Seq<u8>
    recommends
        offset + length <= view_contents(view).len(),
{
    view_contents(view).subrange(offset as int, offset as int + length as int)
}

/// The memory contents after `data` is written at `offset`, meaningful when
/// the written range lies within bounds: the model of a guest store to the
/// shared memory.
pub open spec fn written(contents: Seq<u8>, offset: u64, data: Seq<u8>) -> Seq<u8>
    recommends
        offset + data.len() <= contents.len(),
{
    contents.subrange(0, offset as int) + data + contents.subrange(
        offset as int + data.len() as int,
        contents.len() as int,
    )
}

/// Round-trip fidelity: writing `data` at an in-bounds `offset` keeps the
/// memory size, and a bridge read of that same range afterwards yields
/// exactly `data` — the bytes the guest wrote, nothing else.
pub proof fn lemma_write_read_round_trip(contents: Seq<u8>, offset: u64, data: Seq<u8>)
    requires
        offset + data.len() <= contents.len(),
    ensures
        written(contents, offset, data).len() == contents.len(),
        written(contents, offset, data).subrange(offset as int, offset as int + data.len() as int)
            == data,
{
    assert(written(contents, offset, data).subrange(
        offset as int,
        offset as int + data.len() as int,
    ) =~= data);
}

/// Relies on wasmer::Memory::view: the view spans the memory's current
/// contents. A linear memory starts at the minimum page count it was
/// created with and grows but never shrinks, so the view is never smaller
/// than that minimum. A memory handed in with a store it does not belong to
/// would make the engine abort, so that pairing is tested first, via
/// wasmer::Memory::is_from_store, and refused as a `Link` error.
#[verifier::external_body]
pub fn memory_view<'a>(memory: &wasmer::Memory, store: &'a wasmer::Store) -> (r: Result<
    wasmer::MemoryView<'a>,
    HostError,
>)
    ensures
        r matches Ok(v) ==> view_contents(v).len() >= mem_min_pages(*memory) * (
        PAGE_SIZE_BYTES as nat),
        r matches Err(e) ==> e == HostError::Link,
{
    if !memory.is_from_store(store) {
        return Err(HostError::Link);
    }
    Ok(memory.view(store))
}

/// The shared memory's current size in bytes, as the bridge sees it: never
/// below the minimum the memory was allocated with — for the memory of
/// `allocate_shared_memory`, 102 pages of 64 KiB. Fails only on a memory
/// that does not belong to the store.
pub fn shared_memory_size(memory: &wasmer::Memory, store: &wasmer::Store) -> (r: Result<
    u64,
    HostError,
>)
    ensures
        r matches Ok(n) ==> n >= mem_min_pages(*memory) * (PAGE_SIZE_BYTES as nat),
        r matches Err(e) ==> e == HostError::Link,
{
    match memory_view(memory, store) {
        Ok(view) => Ok(view_len(&view)),
        Err(e) => Err(e),
    }
}

/// Relies on wasmer::MemoryView::data_size: the size of the view in bytes.
#[verifier::external_body]
pub(crate) fn view_len(view: &wasmer::MemoryView) -> (r: u64)
    ensures
        r == view_contents(*view).len(),
{
    view.data_size()
}

/// Relies on wasmer::MemoryView::read: when the whole range lies within the
/// view it fills the buffer with exactly the bytes at
/// [offset, offset + buffer length); otherwise it fails before copying
/// anything, leaving the buffer as it was — never a partial read.
#[verifier::external_body]
pub(crate) fn view_read(view: &wasmer::MemoryView, offset: u64, buf: &mut Vec<u8>) -> (r: Result<
    (),
    wasmer::MemoryAccessError,
>)
    ensures
        r is Ok <==> offset + old(buf)@.len() <= view_contents(*view).len(),
        r is Ok ==> final(buf)@ == view_contents(*view).subrange(
            offset as int,
            offset as int + old(buf)@.len() as int,
        ),
        r is Err ==> final(buf)@ == old(buf)@,
{
    view.read(offset, buf.as_mut_slice())
}

/// Copy `length` bytes starting at `offset` out of the shared memory.
///
/// Succeeds exactly when the whole range lies within the current memory
/// size, returning precisely the bytes the guest wrote there; any other
/// range — overflowing or past the end — is a `MemoryAccess` error with no
/// partial data.
pub fn read_guest_bytes(view: &wasmer::MemoryView, offset: u64, length: usize) -> (r: Result<
    Vec<u8>,
    HostError,
>)
    ensures
        r is Ok <==> offset + length <= view_contents(*view).len(),
        r matches Ok(bytes) ==> bytes@ == guest_range(*view, offset, length),
        r matches Err(e) ==> e == HostError::MemoryAccess,
{
    let size = view_len(view);
    if length as u64 > size || offset > size - (length as u64) {
        return Err(HostError::MemoryAccess);
    }
    let mut buf: Vec<u8> = vec![0u8; length];
    match view_read(view, offset, &mut buf) {
        Ok(()) => Ok(buf),
        Err(_e) => Err(HostError::MemoryAccess),
    }
}

/// Read a guest-supplied range and decode it as text, for the logging host
/// functions.
///
/// A range outside the current memory size is a `MemoryAccess` error; an
/// in-bounds range whose bytes are not valid text is a `TextDecode` error,
/// distinct from the bounds failure and scoped to this call. Exactly the
/// in-bounds, valid ranges decode, to the characters the guest's bytes
/// encode.
pub fn read_log_text(view: &wasmer::MemoryView, offset: u64, length: usize) -> (r: Result<
    String,
    HostError,
>)
    ensures
        r is Ok <==> (offset + length <= view_contents(*view).len() && valid_utf8(
            guest_range(*view, offset, length),
        )),
        r matches Ok(t) ==> t@ == decode_utf8(guest_range(*view, offset, length)),
        (r matches Err(e) && e == HostError::MemoryAccess) <==> offset + length > view_contents(
            *view,
        ).len(),
        (r matches Err(e) && e == HostError::TextDecode) <==> (offset + length <= view_contents(
            *view,
        ).len() && !valid_utf8(guest_range(*view, offset, length))),
{
    match read_guest_bytes(view, offset, length) {
        Ok(bytes) => match decode_text(bytes.as_slice()) {
            Ok(t) => Ok(t),
            Err(_e) => Err(HostError::TextDecode),
        },
        Err(e) => Err(e),
    }
}

} // verus!
