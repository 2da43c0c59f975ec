use anchor_lang::prelude::Pubkey;
use image_writer::address::{processor_address, Address};
use image_writer::protocol::{initialize, process, transfer, InitProcessing, Process, Transfer};
use image_writer::state::{
    Image, ImageProcessor, ImageSize, ImageType, UploadError, DEFAULT_CHUNK_SIZE, IMAGE_CAPACITY,
};

fn key(b: u8) -> Address {
    Address { bytes: [b; 32] }
}

fn program() -> Address {
    key(42)
}

fn accounts() -> InitProcessing {
    InitProcessing { program_id: program(), owner: key(1), image: key(2), occupied: vec![] }
}

fn both() -> Vec<Address> {
    vec![key(1), key(2)]
}

fn begin(total: u16, chunk: u16) -> (Address, Process) {
    initialize(&accounts(), &both(), key(9), total, chunk).expect("session opens")
}

fn bytes(len: usize, seed: u8) -> Vec<u8> {
    (0..len).map(|i| (i as u8).wrapping_mul(7).wrapping_add(seed) | 1).collect()
}

#[test]
fn derivation_matches_pubkey() {
    let seed = key(9);
    let (addr, bump) = processor_address(&program(), &seed).expect("derivable");
    let pid = Pubkey::new_from_array(program().bytes);
    let (expected, expected_bump) =
        Pubkey::find_program_address(&[b"image", seed.bytes.as_ref(), b"processor"], &pid);
    assert_eq!(addr.bytes, expected.to_bytes());
    assert_eq!(bump, expected_bump);
    assert_ne!(addr, seed);
    assert_ne!(addr, program());
}

#[test]
fn derivation_is_deterministic_and_seed_dependent() {
    let a = processor_address(&program(), &key(9)).unwrap();
    let b = processor_address(&program(), &key(9)).unwrap();
    let c = processor_address(&program(), &key(10)).unwrap();
    assert_eq!(a, b);
    assert_ne!(a.0, c.0);
}

#[test]
fn begin_sets_both_records() {
    let (addr, s) = begin(1000, 250);
    let (derived, bump) = processor_address(&program(), &key(9)).unwrap();
    assert_eq!(addr, derived);
    let expected = ImageProcessor {
        bump,
        owner: key(1),
        seed_key: key(9),
        image: key(2),
        last_chunk: 0,
        total_bytes: 1000,
        chunk_size: 250,
        closed: false,
    };
    assert_eq!(s.processor, expected);
    assert_eq!(s.image.owner, key(1));
    assert_eq!(s.image.raw_byte_length, 1000);
    assert_eq!(s.image.image_type, ImageType::UNKNOWN);
    assert_eq!(s.image.data.len(), IMAGE_CAPACITY);
    assert!(s.image.data.iter().all(|b| *b == 0));
}

#[test]
fn zero_chunk_size_defaults_to_500() {
    let (_, s) = begin(1000, 0);
    assert_eq!(s.processor.chunk_size, 500);
    assert_eq!(DEFAULT_CHUNK_SIZE, 500);
    let (_, t) = begin(1000, 1);
    assert_eq!(t.processor.chunk_size, 1);
    let (_, u) = begin(1000, u16::MAX);
    assert_eq!(u.processor.chunk_size, u16::MAX);
}

#[test]
fn begin_refuses_an_occupied_address() {
    let (derived, _) = processor_address(&program(), &key(9)).unwrap();
    let mut ctx = accounts();
    ctx.occupied = vec![key(3), derived];
    assert_eq!(initialize(&ctx, &both(), key(9), 10, 10).unwrap_err(), UploadError::DuplicateSession);
    ctx.occupied = vec![key(3)];
    assert!(initialize(&ctx, &both(), key(9), 10, 10).is_ok());
}

#[test]
fn begin_needs_both_signatures() {
    let only_owner = vec![key(1)];
    let only_image = vec![key(2)];
    let none: Vec<Address> = vec![];
    for signers in [only_owner, only_image, none] {
        assert_eq!(
            initialize(&accounts(), &signers, key(9), 10, 10).unwrap_err(),
            UploadError::UnauthorizedSigner
        );
    }
}

#[test]
fn cursor_is_sum_of_chunk_lengths() {
    let (_, mut s) = begin(5000, 500);
    assert_eq!(s.processor.last_chunk, 0);
    let lens = [500usize, 17, 0, 1, 499, 3000];
    let mut sum = 0usize;
    for (i, len) in lens.iter().enumerate() {
        process(&mut s, &both(), &bytes(*len, i as u8)).unwrap();
        sum += len;
        assert_eq!(s.processor.last_chunk as usize, sum);
    }
    assert_eq!(sum, 4017);
}

#[test]
fn chunk_above_limit_is_accepted() {
    let (_, mut s) = begin(40000, 100);
    let chunk = bytes(1200, 3);
    assert_eq!(process(&mut s, &both(), &chunk), Ok(()));
    assert_eq!(s.processor.last_chunk, 1200);
    assert_eq!(s.processor.chunk_size, 100);
    assert_eq!(&s.image.data[0..1200], &chunk[..]);
}

#[test]
fn cursor_past_declared_total_is_accepted() {
    let (_, mut s) = begin(10, 500);
    assert_eq!(process(&mut s, &both(), &bytes(400, 1)), Ok(()));
    assert_eq!(s.processor.last_chunk, 400);
}

#[test]
fn overrun_fails_and_changes_nothing() {
    let (_, mut s) = begin(40000, 500);
    process(&mut s, &both(), &bytes(39000, 5)).unwrap();
    let before = s.clone();
    assert_eq!(process(&mut s, &both(), &bytes(1001, 6)), Err(UploadError::OutOfBounds));
    assert_eq!(s, before);
    assert_eq!(s.processor.last_chunk, 39000);
}

#[test]
fn failed_extend_then_resume() {
    let (_, mut s) = begin(40000, 500);
    process(&mut s, &both(), &bytes(39500, 1)).unwrap();
    let before = s.clone();
    let chunk = bytes(600, 2);
    assert_eq!(process(&mut s, &both(), &chunk), Err(UploadError::OutOfBounds));
    assert_eq!(s, before);
    let shorter = chunk[..500].to_vec();
    assert_eq!(process(&mut s, &both(), &shorter), Ok(()));
    assert_eq!(s.processor.last_chunk, 40000);
    assert_eq!(&s.image.data[39500..], &shorter[..]);
}

#[test]
fn unsigned_extend_fails_then_same_chunk_succeeds() {
    let (_, mut s) = begin(1000, 500);
    let before = s.clone();
    let chunk = bytes(300, 4);
    assert_eq!(process(&mut s, &vec![key(1)], &chunk), Err(UploadError::UnauthorizedSigner));
    assert_eq!(process(&mut s, &vec![key(2), key(7)], &chunk), Err(UploadError::UnauthorizedSigner));
    assert_eq!(s, before);
    assert_eq!(process(&mut s, &vec![key(7), key(2), key(1)], &chunk), Ok(()));
    assert_eq!(s.processor.last_chunk, 300);
}

#[test]
fn two_chunks_round_trip() {
    let (_, mut s) = begin(1000, 500);
    let first = bytes(500, 11);
    let second = bytes(500, 77);
    assert!(first.iter().all(|b| *b != 0));
    assert_ne!(first, second);
    process(&mut s, &both(), &first).unwrap();
    process(&mut s, &both(), &second).unwrap();
    assert_eq!(s.processor.last_chunk, 1000);
    assert_eq!(&s.image.data[0..500], &first[..]);
    assert_eq!(&s.image.data[500..1000], &second[..]);
    assert!(s.image.data[1000..].iter().all(|b| *b == 0));
}

#[test]
fn chunk_that_fills_the_buffer_exactly() {
    let (_, mut s) = begin(40000, 500);
    process(&mut s, &both(), &bytes(1234, 1)).unwrap();
    let mut t = s.clone();
    let rest = 40000 - 1234;
    assert_eq!(process(&mut t, &both(), &bytes(rest + 1, 2)), Err(UploadError::OutOfBounds));
    assert_eq!(t, s);
    assert_eq!(process(&mut s, &both(), &bytes(rest, 2)), Ok(()));
    assert_eq!(s.processor.last_chunk, 40000);
    assert_eq!(process(&mut s, &both(), &bytes(1, 3)), Err(UploadError::OutOfBounds));
    assert_eq!(process(&mut s, &both(), &vec![]), Ok(()));
}

#[test]
fn whole_buffer_in_one_chunk() {
    let (_, mut s) = begin(40000, 0);
    assert_eq!(process(&mut s, &both(), &bytes(40001, 1)), Err(UploadError::OutOfBounds));
    assert_eq!(process(&mut s, &both(), &bytes(40000, 1)), Ok(()));
    assert_eq!(s.processor.last_chunk, 40000);
}

#[test]
fn transfer_changes_no_owner() {
    let (_, mut s) = begin(1000, 500);
    process(&mut s, &both(), &bytes(10, 1)).unwrap();
    let before = s.clone();
    let ctx = Transfer { owner: key(1), new_owner: key(5) };
    assert_eq!(transfer(&ctx, &mut s, &vec![key(1)]), Err(UploadError::Unimplemented));
    assert_eq!(s, before);
    assert_eq!(s.processor.owner, key(1));
    assert_eq!(s.image.owner, key(1));
    assert_eq!(transfer(&ctx, &mut s, &vec![key(5)]), Err(UploadError::UnauthorizedSigner));
    assert_eq!(s, before);
}

#[test]
fn advance_overflow_is_reported() {
    let (_, s) = begin(1000, 500);
    let mut p = s.processor;
    p.last_chunk = 65000;
    assert_eq!(p.advance(536), Err(UploadError::ArithmeticOverflow));
    assert_eq!(p.last_chunk, 65000);
    assert_eq!(p.advance(535), Ok(()));
    assert_eq!(p.last_chunk, u16::MAX);
    assert_eq!(p.advance(0), Ok(()));
    assert_eq!(p.advance(usize::MAX), Err(UploadError::ArithmeticOverflow));
}

#[test]
fn write_chunk_checks_capacity() {
    let mut img = Image::new(key(1), 5);
    assert_eq!(img.write_chunk(40001, &vec![]), Err(UploadError::OutOfBounds));
    assert_eq!(img.write_chunk(usize::MAX, &vec![1]), Err(UploadError::OutOfBounds));
    assert_eq!(img.write_chunk(39999, &vec![1, 2]), Err(UploadError::OutOfBounds));
    assert_eq!(img.write_chunk(39998, &vec![1, 2]), Ok(()));
    assert_eq!(&img.data[39997..], &[0, 1, 2]);
    assert_eq!(img.write_chunk(40000, &vec![]), Ok(()));
}

#[test]
fn init_overwrites_every_field() {
    let mut p = ImageProcessor {
        bump: 1,
        owner: key(3),
        seed_key: key(3),
        image: key(3),
        last_chunk: 77,
        total_bytes: 5,
        chunk_size: 5,
        closed: true,
    };
    assert_eq!(p.init(254, key(4), key(5), key(6), 300, 0), Ok(()));
    let expected = ImageProcessor {
        bump: 254,
        owner: key(5),
        seed_key: key(4),
        image: key(6),
        last_chunk: 0,
        total_bytes: 300,
        chunk_size: 500,
        closed: false,
    };
    assert_eq!(p, expected);
}

#[test]
fn size_classes() {
    assert_eq!(ImageSize::Small.bytes(), 10000);
    assert_eq!(ImageSize::Default.bytes(), 40000);
    assert_eq!(ImageSize::Large.bytes(), 100000);
}

#[test]
fn address_helpers() {
    assert!(key(3).same_as(&key(3)));
    assert!(!key(3).same_as(&key(4)));
    let mut a = key(3);
    a.bytes[31] = 4;
    assert!(!key(3).same_as(&a));
    assert_eq!(Address::zero().bytes, [0u8; 32]);
    assert_eq!(a.to_vec(), a.bytes.to_vec());
}
