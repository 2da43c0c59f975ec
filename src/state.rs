//! The two records of an upload session: the control record that tracks its
//! progress and the data record that holds the payload.
use vstd::prelude::*;

use crate::address::Address;

verus! {

/// Capacity in bytes of a data record's buffer.
pub const IMAGE_CAPACITY: usize = 40000;

/// The per-call chunk limit that a session gets when it is opened with zero.
pub const DEFAULT_CHUNK_SIZE: u16 = 500;

/// Bytes reserved for a control record: an 8-byte type tag, the bump seed,
/// three identities, three `u16` fields and the `closed` flag.
pub const PROCESSOR_SPACE: usize = 112;

/// Bytes reserved for a data record: an 8-byte type tag, the owner, the
/// declared length, the content tag and the buffer.
pub const IMAGE_SPACE: usize = 40043;

/// The ways an operation on a session can fail. A failed operation changes
/// nothing.
#[derive(Clone, Copy, Debug, PartialEq, Eq)]
pub enum UploadError {
    /// No bump seed yields an address for the session's seed.
    AddressDerivationFailure,
    /// A record already stands at the derived control record address.
    DuplicateSession,
    /// A principal whose signature is required did not sign.
    UnauthorizedSigner,
    /// The chunk would run past the end of the buffer.
    OutOfBounds,
    /// The cursor would leave the range of a `u16`.
    ArithmeticOverflow,
    /// The operation has no defined effect.
    Unimplemented,
}

/// The control record of a session.
#[derive(Clone, Copy, Debug, PartialEq, Eq)]
pub struct ImageProcessor {
    /// Bump seed that makes the record's derived address valid.
    pub bump: u8,
    /// Principal that opened the session.
    pub owner: Address,
    /// Seed from which the record's address is derived.
    pub seed_key: Address,
    /// Address of the session's data record.
    pub image: Address,
    /// Number of bytes written so far: the cursor.
    pub last_chunk: u16,
    /// Declared size of the whole payload (not enforced).
    pub total_bytes: u16,
    /// Declared bytes per chunk (not enforced).
    pub chunk_size: u16,
    /// Terminal flag; no operation sets it.
    pub closed: bool,
}

/// The chunk limit stored for a requested limit `chunk_size`.
pub open spec fn chunk_limit_of(chunk_size: u16) -> u16 {
    if chunk_size > 0 {
        chunk_size
    } else {
        DEFAULT_CHUNK_SIZE
    }
}

/// The record with the cursor moved `n` bytes on.
pub open spec fn advanced(p: ImageProcessor, n: int) -> ImageProcessor {
    ImageProcessor { last_chunk: (p.last_chunk + n) as u16, ..p }
}

impl ImageProcessor {
    /// Sets every field of a freshly created control record: the cursor at
    /// zero, the chunk limit at `chunk_size` or, for zero, at
    /// `DEFAULT_CHUNK_SIZE`, and the record open. Never fails.
    pub fn init(
        &mut self,
        bump: u8,
        seed_key: Address,
        owner: Address,
        image: Address,
        total_bytes: u16,
        chunk_size: u16,
    ) -> (r: Result<(), UploadError>)
        ensures
            r is Ok,
            *final(self) == (ImageProcessor {
                bump,
                owner,
                seed_key,
                image,
                last_chunk: 0,
                total_bytes,
                chunk_size: chunk_limit_of(chunk_size),
                closed: false,
            }),
    {
        self.bump = bump;
        self.owner = owner;
        self.seed_key = seed_key;
        self.image = image;
        self.last_chunk = 0;
        self.total_bytes = total_bytes;
        self.chunk_size = if chunk_size > 0 {
            chunk_size
        } else {
            DEFAULT_CHUNK_SIZE
        };
        self.closed = false;
        Ok(())
    }

    /// Moves the cursor `n` bytes on, or fails with `ArithmeticOverflow`,
    /// changing nothing, where the new cursor would not fit in a `u16`.
    /// Checks `n` against neither the chunk limit nor the declared total.
    pub fn advance(&mut self, n: usize) -> (r: Result<(), UploadError>)
        ensures
            old(self).last_chunk + n > u16::MAX ==> r == Err::<(), UploadError>(
                UploadError::ArithmeticOverflow,
            ) && *final(self) == *old(self),
            old(self).last_chunk + n <= u16::MAX ==> r is Ok && *final(self) == advanced(
                *old(self),
                n as int,
            ),
    {
        if n > (u16::MAX - self.last_chunk) as usize {
            return Err(UploadError::ArithmeticOverflow);
        }
        self.last_chunk = self.last_chunk + n as u16;
        Ok(())
    }
}

/// Kind of content a data record holds. Nothing inspects the payload: the
/// tag is `UNKNOWN` from creation on.
#[allow(non_camel_case_types)]
#[derive(Clone, Copy, Debug, PartialEq, Eq)]
pub enum ImageType {
    PNG,
    JPEG,
    GIF,
    WEBP,
    TIFF,
    BMP,
    ICO,
    PSD,
    SVG,
    HEIF,
    PDF,
    EPS,
    RAW,
    UNKNOWN,
}

/// Capacity classes for a data record. Only the default class is what
/// records are allocated with.
#[derive(Clone, Copy, Debug, PartialEq, Eq)]
pub enum ImageSize {
    Small,
    Default,
    Large,
}

impl ImageSize {
    /// The buffer size in bytes of the class.
    pub fn bytes(&self) -> (r: u32)
        ensures
            r == match self {
                ImageSize::Small => 10000u32,
                ImageSize::Default => 40000u32,
                ImageSize::Large => 100000u32,
            },
    {
        match self {
            ImageSize::Small => 10000,
            ImageSize::Default => 40000,
            ImageSize::Large => 100000,
        }
    }
}

/// The data record of a session.
#[derive(Clone, Debug, PartialEq, Eq)]
pub struct Image {
    /// Principal that opened the session.
    pub owner: Address,
    /// Declared size of the whole payload.
    pub raw_byte_length: u16,
    /// Kind of content.
    pub image_type: ImageType,
    /// The buffer, `IMAGE_CAPACITY` bytes long.
    pub data: Vec<u8>,
}

/// A data record as a mathematical value.
pub struct ImageView {
    pub owner: Address,
    pub raw_byte_length: u16,
    pub image_type: ImageType,
    pub data: Seq<u8>,
}

impl View for Image {
    type V = ImageView;

    open spec fn view(&self) -> ImageView {
        ImageView {
            owner: self.owner,
            raw_byte_length: self.raw_byte_length,
            image_type: self.image_type,
            data: self.data@,
        }
    }
}

/// A buffer of `IMAGE_CAPACITY` zero bytes.
pub open spec fn zero_buffer() -> Seq<u8> {
    Seq::new(IMAGE_CAPACITY as nat, |i: int| 0u8)
}

/// `data` with `chunk` copied in from `offset` on.
pub open spec fn written(data: Seq<u8>, offset: int, chunk: Seq<u8>) -> Seq<u8> {
    Seq::new(
        data.len(),
        |j: int|
            if offset <= j < offset + chunk.len() {
                chunk[j - offset]
            } else {
                data[j]
            },
    )
}

impl Image {
    /// The buffer has its full capacity.
    pub open spec fn wf(&self) -> bool {
        self.data@.len() == IMAGE_CAPACITY
    }

    /// A data record of the given owner and declared length, with the
    /// `UNKNOWN` content tag and a zeroed buffer.
    pub fn new(owner: Address, raw_byte_length: u16) -> (r: Image)
        ensures
            r.wf(),
            r@ == (ImageView {
                owner,
                raw_byte_length,
                image_type: ImageType::UNKNOWN,
                data: zero_buffer(),
            }),
    {
        let mut data: Vec<u8> = Vec::with_capacity(IMAGE_CAPACITY);
        let mut i: usize = 0;
        while i < IMAGE_CAPACITY
            invariant
                i <= IMAGE_CAPACITY,
                data@.len() == i,
                forall|j: int| 0 <= j < i ==> data@[j] == 0u8,
            decreases IMAGE_CAPACITY - i,
        {
            data.push(0u8);
            i = i + 1;
        }
        assert(data@ =~= zero_buffer());
        Image { owner, raw_byte_length, image_type: ImageType::UNKNOWN, data }
    }

    /// Copies `bytes` into the buffer from `offset` on, or fails with
    /// `OutOfBounds`, changing nothing, where they would run past its end.
    /// This capacity check is the only bound on what is written.
    pub fn write_chunk(&mut self, offset: usize, bytes: &Vec<u8>) -> (r: Result<(), UploadError>)
        requires
            old(self).wf(),
        ensures
            final(self).wf(),
            offset + bytes@.len() > IMAGE_CAPACITY ==> r == Err::<(), UploadError>(
                UploadError::OutOfBounds,
            ) && *final(self) == *old(self),
            offset + bytes@.len() <= IMAGE_CAPACITY ==> r is Ok && final(self)@ == (ImageView {
                data: written(old(self).data@, offset as int, bytes@),
                ..old(self)@
            }),
    {
        if offset > IMAGE_CAPACITY || bytes.len() > IMAGE_CAPACITY - offset {
            return Err(UploadError::OutOfBounds);
        }
        let ghost before = self.data@;
        let mut i: usize = 0;
        while i < bytes.len()
            invariant
                offset + bytes@.len() <= IMAGE_CAPACITY,
                i <= bytes@.len(),
                self.data@.len() == IMAGE_CAPACITY,
                before.len() == IMAGE_CAPACITY,
                self.owner == old(self).owner,
                self.raw_byte_length == old(self).raw_byte_length,
                self.image_type == old(self).image_type,
                forall|j: int|
                    0 <= j < IMAGE_CAPACITY ==> self.data@[j] == if offset <= j < offset + i {
                        bytes@[j - offset]
                    } else {
                        before[j]
                    },
            decreases bytes@.len() - i,
        {
            self.data.set(offset + i, bytes[i]);
            i = i + 1;
        }
        assert(self.data@ =~= written(before, offset as int, bytes@));
        Ok(())
    }
}

} // verus!
