//! The operations of an upload session: opening it, extending it by a chunk,
//! and the declared transfer of ownership.
use vstd::prelude::*;

use crate::address::{Address, processor_address, processor_seeds, program_address};
use crate::state::{
    advanced, chunk_limit_of, written, zero_buffer, Image, ImageProcessor, ImageType, ImageView,
    UploadError, IMAGE_CAPACITY,
};

verus! {

/// Whether `key` is one of `keys`.
pub open spec fn listed(keys: Seq<Address>, key: Address) -> bool {
    exists|i: int| 0 <= i < keys.len() && #[trigger] keys[i]@ == key@
}

/// Whether `key` is one of `keys`.
pub fn is_listed(keys: &Vec<Address>, key: &Address) -> (r: bool)
    ensures
        r == listed(keys@, *key),
{
    let mut i: usize = 0;
    while i < keys.len()
        invariant
            i <= keys@.len(),
            forall|j: int| 0 <= j < i ==> keys@[j]@ != key@,
        decreases keys@.len() - i,
    {
        if keys[i].same_as(key) {
            return true;
        }
        i = i + 1;
    }
    false
}

/// The accounts that opening a session names.
pub struct InitProcessing {
    /// Identity of the program that owns the session's records.
    pub program_id: Address,
    /// Principal that opens and pays for the session; must sign.
    pub owner: Address,
    /// Address of the freshly allocated data record; must sign.
    pub image: Address,
    /// Addresses at which a record already stands.
    pub occupied: Vec<Address>,
}

/// The two records of a session, which extending it writes.
#[derive(Clone, Debug, PartialEq, Eq)]
pub struct Process {
    pub processor: ImageProcessor,
    pub image: Image,
}

/// A session as a mathematical value.
pub struct UploadState {
    pub processor: ImageProcessor,
    pub image: ImageView,
}

impl View for Process {
    type V = UploadState;

    open spec fn view(&self) -> UploadState {
        UploadState { processor: self.processor, image: self.image@ }
    }
}

impl Process {
    /// The data record's buffer has its full capacity.
    pub open spec fn wf(&self) -> bool {
        self.image.wf()
    }
}

/// The accounts that a transfer of ownership names.
pub struct Transfer {
    /// The present owner; must sign.
    pub owner: Address,
    /// The proposed owner.
    pub new_owner: Address,
}

/// The session that a successful opening creates.
pub open spec fn begun(
    bump: u8,
    seed_key: Address,
    owner: Address,
    image: Address,
    total_bytes: u16,
    chunk_size: u16,
) -> UploadState {
    UploadState {
        processor: ImageProcessor {
            bump,
            owner,
            seed_key,
            image,
            last_chunk: 0,
            total_bytes,
            chunk_size: chunk_limit_of(chunk_size),
            closed: false,
        },
        image: ImageView {
            owner,
            raw_byte_length: total_bytes,
            image_type: ImageType::UNKNOWN,
            data: zero_buffer(),
        },
    }
}

/// The outcome of opening a session with seed `seed_key`: the control record's
/// address and the new session, or the error.
pub open spec fn initialize_spec(
    ctx_program_id: Address,
    ctx_owner: Address,
    ctx_image: Address,
    occupied: Seq<Address>,
    signers: Seq<Address>,
    seed_key: Address,
    total_bytes: u16,
    chunk_size: u16,
) -> Result<(Seq<u8>, UploadState), UploadError> {
    match program_address(processor_seeds(seed_key@), ctx_program_id@) {
        None => Err(UploadError::AddressDerivationFailure),
        Some((addr, bump)) => {
            if exists|i: int| 0 <= i < occupied.len() && #[trigger] occupied[i]@ == addr {
                Err(UploadError::DuplicateSession)
            } else if !listed(signers, ctx_owner) || !listed(signers, ctx_image) {
                Err(UploadError::UnauthorizedSigner)
            } else {
                Ok((addr, begun(bump, seed_key, ctx_owner, ctx_image, total_bytes, chunk_size)))
            }
        },
    }
}

/// Both principals that a write needs, the session's owner and its data
/// record, are among `signers`.
pub open spec fn authorized(p: ImageProcessor, signers: Seq<Address>) -> bool {
    listed(signers, p.owner) && listed(signers, p.image)
}

/// The outcome of extending session `s` by `chunk`: the chunk lands at the
/// cursor and the cursor moves past it. Neither the chunk limit nor the
/// declared total is checked; only the buffer's capacity is.
pub open spec fn extend_spec(s: UploadState, signers: Seq<Address>, chunk: Seq<u8>) -> Result<
    UploadState,
    UploadError,
> {
    if !authorized(s.processor, signers) {
        Err(UploadError::UnauthorizedSigner)
    } else if s.processor.last_chunk + chunk.len() > IMAGE_CAPACITY {
        Err(UploadError::OutOfBounds)
    } else {
        Ok(
            UploadState {
                processor: advanced(s.processor, chunk.len() as int),
                image: ImageView {
                    data: written(s.image.data, s.processor.last_chunk as int, chunk),
                    ..s.image
                },
            },
        )
    }
}

/// Opens a session with seed `seed_key`: derives the control record's address,
/// refuses it where a record already stands there, requires the owner's and
/// the data record's signatures, and returns that address with the new
/// records. The cursor starts at zero.
pub fn initialize(
    ctx: &InitProcessing,
    signers: &Vec<Address>,
    seed_key: Address,
    total_bytes: u16,
    chunk_size: u16,
) -> (r: Result<(Address, Process), UploadError>)
    ensures
        match r {
            Ok((addr, session)) => session.wf() && initialize_spec(
                ctx.program_id,
                ctx.owner,
                ctx.image,
                ctx.occupied@,
                signers@,
                seed_key,
                total_bytes,
                chunk_size,
            ) == Ok::<(Seq<u8>, UploadState), UploadError>((addr@, session@)),
            Err(e) => initialize_spec(
                ctx.program_id,
                ctx.owner,
                ctx.image,
                ctx.occupied@,
                signers@,
                seed_key,
                total_bytes,
                chunk_size,
            ) == Err::<(Seq<u8>, UploadState), UploadError>(e),
        },
{
    let derived = processor_address(&ctx.program_id, &seed_key);
    let (addr, bump) = match derived {
        None => {
            return Err(UploadError::AddressDerivationFailure);
        },
        Some(found) => found,
    };
    if is_listed(&ctx.occupied, &addr) {
        return Err(UploadError::DuplicateSession);
    }
    if !is_listed(signers, &ctx.owner) || !is_listed(signers, &ctx.image) {
        return Err(UploadError::UnauthorizedSigner);
    }
    let mut processor = ImageProcessor {
        bump: 0,
        owner: Address::zero(),
        seed_key: Address::zero(),
        image: Address::zero(),
        last_chunk: 0,
        total_bytes: 0,
        chunk_size: 0,
        closed: false,
    };
    let _ = processor.init(bump, seed_key, ctx.owner, ctx.image, total_bytes, chunk_size);
    let image = Image::new(ctx.owner, total_bytes);
    let session = Process { processor, image };
    assert(session@ == begun(bump, seed_key, ctx.owner, ctx.image, total_bytes, chunk_size));
    Ok((addr, session))
}

/// Extends a session by `chunk`: with both the owner's and the data record's
/// signatures, writes the chunk at the cursor and moves the cursor past it.
/// A failed call leaves both records exactly as they were.
pub fn process(ctx: &mut Process, signers: &Vec<Address>, chunk: &Vec<u8>) -> (r: Result<
    (),
    UploadError,
>)
    requires
        old(ctx).wf(),
    ensures
        final(ctx).wf(),
        match extend_spec(old(ctx)@, signers@, chunk@) {
            Ok(s) => r is Ok && final(ctx)@ == s,
            Err(e) => r == Err::<(), UploadError>(e) && *final(ctx) == *old(ctx),
        },
{
    if !is_listed(signers, &ctx.processor.owner) || !is_listed(signers, &ctx.processor.image) {
        return Err(UploadError::UnauthorizedSigner);
    }
    let last_chunk = ctx.processor.last_chunk as usize;
    let written = ctx.image.write_chunk(last_chunk, chunk);
    if written.is_err() {
        return written;
    }
    ctx.processor.advance(chunk.len())
}

/// Transfer of a session's ownership: declared, with no defined effect. With
/// the present owner's signature it reports `Unimplemented`, else
/// `UnauthorizedSigner`; it never changes either record.
pub fn transfer(ctx: &Transfer, session: &mut Process, signers: &Vec<Address>) -> (r: Result<
    (),
    UploadError,
>)
    ensures
        *final(session) == *old(session),
        r == if listed(signers@, ctx.owner) {
            Err::<(), UploadError>(UploadError::Unimplemented)
        } else {
            Err::<(), UploadError>(UploadError::UnauthorizedSigner)
        },
{
    if !is_listed(signers, &ctx.owner) {
        return Err(UploadError::UnauthorizedSigner);
    }
    Err(UploadError::Unimplemented)
}

} // verus!
