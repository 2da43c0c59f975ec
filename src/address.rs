//! Identities and storage addresses, and the derivation of a control record's
//! address from its seed.
use vstd::prelude::*;

verus! {

/// A 32-byte identity: the key of a principal or the address of a record.
#[derive(Clone, Copy, Debug, PartialEq, Eq, Hash)]
pub struct Address {
    pub bytes: [u8; 32],
}

impl View for Address {
    type V = Seq<u8>;

    open spec fn view(&self) -> Seq<u8> {
        self.bytes@
    }
}

impl Address {
    /// The address whose bytes are all zero.
    pub fn zero() -> (r: Address)
        ensures
            r@ == Seq::new(32, |i: int| 0u8),
    {
        let r = Address { bytes: [0u8; 32] };
        assert(r@ =~= Seq::new(32, |i: int| 0u8));
        r
    }

    /// Whether two addresses hold the same bytes.
    pub fn same_as(&self, other: &Address) -> (r: bool)
        ensures
            r == (self@ == other@),
    {
        let mut i: usize = 0;
        while i < 32
            invariant
                0 <= i <= 32,
                self@.len() == 32,
                other@.len() == 32,
                forall|j: int| 0 <= j < i ==> self@[j] == other@[j],
            decreases 32 - i,
        {
            if self.bytes[i] != other.bytes[i] {
                return false;
            }
            i = i + 1;
        }
        assert(self@ =~= other@);
        true
    }

    /// The bytes of the address, as a vector.
    pub fn to_vec(&self) -> (r: Vec<u8>)
        ensures
            r@ == self@,
    {
        let mut r: Vec<u8> = Vec::new();
        let mut i: usize = 0;
        while i < 32
            invariant
                0 <= i <= 32,
                self@.len() == 32,
                r@ == self@.take(i as int),
            decreases 32 - i,
        {
            r.push(self.bytes[i]);
            i = i + 1;
            assert(r@ =~= self@.take(i as int));
        }
        assert(self@.take(32) =~= self@);
        r
    }
}

/// The domain tag that opens the seeds of a control record's address.
pub open spec fn image_tag() -> Seq<u8> {
    seq![105u8, 109u8, 97u8, 103u8, 101u8]
}

/// The domain tag that closes the seeds of a control record's address.
pub open spec fn processor_tag() -> Seq<u8> {
    seq![112u8, 114u8, 111u8, 99u8, 101u8, 115u8, 115u8, 111u8, 114u8]
}

/// The seeds from which the address of the control record of a session with
/// seed `seed` is derived.
pub open spec fn processor_seeds(seed: Seq<u8>) -> Seq<Seq<u8>> {
    seq![image_tag(), seed, processor_tag()]
}

/// The address derived from `seeds` under `program_id`, with its bump seed, or
/// `None` where no bump seed gives a valid address.
pub uninterp spec fn program_address(seeds: Seq<Seq<u8>>, program_id: Seq<u8>) -> Option<(Seq<u8>, u8)>;

/// The view of a derivation's outcome.
pub open spec fn derived_view(r: Option<(Address, u8)>) -> Option<(Seq<u8>, u8)> {
    match r {
        Some((a, bump)) => Some((a@, bump)),
        None => None,
    }
}

/// Relies on `Pubkey::try_find_program_address` of solana-program, as anchor-lang
/// exports it: the address and bump seed depend on the seeds and the program id
/// alone, and `None` comes back when no bump seed yields an address.
#[verifier::external_body]
fn try_find_program_address(seeds: &Vec<Vec<u8>>, program_id: &Address) -> (r: Option<(Address, u8)>)
    ensures
        derived_view(r) == program_address(seeds.deep_view(), program_id@),
{
    let s: Vec<&[u8]> = seeds.iter().map(|v| v.as_slice()).collect();
    let id = anchor_lang::prelude::Pubkey::new_from_array(program_id.bytes);
    anchor_lang::prelude::Pubkey::try_find_program_address(&s, &id).map(
        |(a, bump)| (Address { bytes: a.to_bytes() }, bump),
    )
}

/// The seeds of the control record of the session with seed `seed_key`.
pub fn seeds_of(seed_key: &Address) -> (r: Vec<Vec<u8>>)
    ensures
        r.deep_view() == processor_seeds(seed_key@),
{
    let r = vec![
        vec![105u8, 109u8, 97u8, 103u8, 101u8],
        seed_key.to_vec(),
        vec![112u8, 114u8, 111u8, 99u8, 101u8, 115u8, 115u8, 111u8, 114u8],
    ];
    assert(r@[0]@ =~= image_tag());
    assert(r@[2]@ =~= processor_tag());
    assert(r@[0].deep_view() =~= image_tag());
    assert(r@[1].deep_view() =~= seed_key@);
    assert(r@[2].deep_view() =~= processor_tag());
    assert(r.deep_view() =~= processor_seeds(seed_key@));
    r
}

/// Derives the address of the control record of the session with seed
/// `seed_key`, and its bump seed. Anyone who holds the seed finds the same
/// address.
pub fn processor_address(program_id: &Address, seed_key: &Address) -> (r: Option<(Address, u8)>)
    ensures
        derived_view(r) == program_address(processor_seeds(seed_key@), program_id@),
{
    let seeds = seeds_of(seed_key);
    try_find_program_address(&seeds, program_id)
}

} // verus!
