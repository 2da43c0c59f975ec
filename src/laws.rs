//! Properties of sessions that relate several operations.
use vstd::prelude::*;

use crate::address::Address;
use crate::protocol::{authorized, begun, extend_spec, UploadState};
use crate::state::{UploadError, IMAGE_CAPACITY};

verus! {

/// The outcome of extending `s` by each of `chunks` in turn: the final
/// session, or the first error.
pub open spec fn extend_all(s: UploadState, signers: Seq<Address>, chunks: Seq<Seq<u8>>) -> Result<
    UploadState,
    UploadError,
>
    decreases chunks.len(),
{
    if chunks.len() == 0 {
        Ok(s)
    } else {
        match extend_all(s, signers, chunks.drop_last()) {
            Ok(t) => extend_spec(t, signers, chunks.last()),
            Err(e) => Err(e),
        }
    }
}

/// The summed length of `chunks`.
pub open spec fn total_len(chunks: Seq<Seq<u8>>) -> int
    decreases chunks.len(),
{
    if chunks.len() == 0 {
        0
    } else {
        total_len(chunks.drop_last()) + chunks.last().len()
    }
}

/// After a run of successful extensions the cursor has moved by the summed
/// length of the chunks.
pub proof fn cursor_is_sum_of_chunks(s: UploadState, signers: Seq<Address>, chunks: Seq<Seq<u8>>)
    requires
        extend_all(s, signers, chunks) is Ok,
    ensures
        extend_all(s, signers, chunks)->Ok_0.processor.last_chunk == s.processor.last_chunk
            + total_len(chunks),
    decreases chunks.len(),
{
    if chunks.len() > 0 {
        cursor_is_sum_of_chunks(s, signers, chunks.drop_last());
    }
}

/// From a freshly opened session, a run of successful extensions leaves the
/// cursor at the summed length of the chunks.
pub proof fn fresh_cursor_is_sum_of_chunks(
    bump: u8,
    seed_key: Address,
    owner: Address,
    image: Address,
    total_bytes: u16,
    chunk_size: u16,
    signers: Seq<Address>,
    chunks: Seq<Seq<u8>>,
)
    requires
        extend_all(begun(bump, seed_key, owner, image, total_bytes, chunk_size), signers, chunks)
            is Ok,
    ensures
        begun(bump, seed_key, owner, image, total_bytes, chunk_size).processor.last_chunk == 0,
        extend_all(
            begun(bump, seed_key, owner, image, total_bytes, chunk_size),
            signers,
            chunks,
        )->Ok_0.processor.last_chunk == total_len(chunks),
{
    cursor_is_sum_of_chunks(
        begun(bump, seed_key, owner, image, total_bytes, chunk_size),
        signers,
        chunks,
    );
}

/// The chunk limit is not enforced: an authorized chunk of any length that
/// fits in the buffer from the cursor on is accepted, and the stored limit
/// stays as it was.
pub proof fn chunk_limit_not_enforced(s: UploadState, signers: Seq<Address>, chunk: Seq<u8>)
    requires
        authorized(s.processor, signers),
        s.processor.last_chunk + chunk.len() <= IMAGE_CAPACITY,
    ensures
        extend_spec(s, signers, chunk) is Ok,
        extend_spec(s, signers, chunk)->Ok_0.processor.chunk_size == s.processor.chunk_size,
        extend_spec(s, signers, chunk)->Ok_0.processor.last_chunk == s.processor.last_chunk
            + chunk.len(),
{
}

/// An authorized chunk that would run past the end of the buffer is refused
/// with `OutOfBounds`; the operation then leaves the session unchanged.
pub proof fn overrun_is_out_of_bounds(s: UploadState, signers: Seq<Address>, chunk: Seq<u8>)
    requires
        authorized(s.processor, signers),
        s.processor.last_chunk + chunk.len() > IMAGE_CAPACITY,
    ensures
        extend_spec(s, signers, chunk) == Err::<UploadState, UploadError>(
            UploadError::OutOfBounds,
        ),
{
}

/// A failed extension can be resumed: the session is as it was, so an
/// authorized retry with a chunk that fits from the cursor on succeeds and
/// moves the cursor by that chunk's length.
pub proof fn failed_extend_is_resumable(
    s: UploadState,
    signers: Seq<Address>,
    chunk: Seq<u8>,
    retry_signers: Seq<Address>,
    retry: Seq<u8>,
)
    requires
        extend_spec(s, signers, chunk) is Err,
        authorized(s.processor, retry_signers),
        s.processor.last_chunk + retry.len() <= IMAGE_CAPACITY,
    ensures
        extend_spec(s, retry_signers, retry) is Ok,
        extend_spec(s, retry_signers, retry)->Ok_0.processor.last_chunk == s.processor.last_chunk
            + retry.len(),
{
}

/// At the boundary: a chunk that fills the buffer exactly from the cursor on
/// is accepted and leaves the cursor at the capacity; one byte more is refused
/// with `OutOfBounds`.
pub proof fn capacity_boundary(s: UploadState, signers: Seq<Address>, chunk: Seq<u8>)
    requires
        authorized(s.processor, signers),
        s.processor.last_chunk <= IMAGE_CAPACITY,
    ensures
        chunk.len() == IMAGE_CAPACITY - s.processor.last_chunk ==> extend_spec(s, signers, chunk)
            is Ok && extend_spec(s, signers, chunk)->Ok_0.processor.last_chunk == IMAGE_CAPACITY,
        chunk.len() == IMAGE_CAPACITY - s.processor.last_chunk + 1 ==> extend_spec(
            s,
            signers,
            chunk,
        ) == Err::<UploadState, UploadError>(UploadError::OutOfBounds),
{
}

} // verus!
