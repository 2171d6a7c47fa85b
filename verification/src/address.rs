//! Account addresses and the derivation of addresses that no key pair owns.
//!
//! Every record of this program lives at an address computed from seeds and
//! the program's own address. Such an address has no private key: only the
//! program can authorise on its behalf, by presenting the seeds again.

use anchor_lang::prelude::Pubkey;
use vstd::prelude::*;

verus! {

/// Number of bytes in an address.
pub const ADDRESS_BYTES: usize = 32;

/// The longest seed the derivation accepts, in bytes.
pub const MAX_SEED_LEN: usize = 32;

/// The largest number of seeds the derivation accepts, bump seed included.
pub const MAX_SEEDS: usize = 16;

/// The address of an account: 32 opaque bytes.
#[derive(Clone, Copy, Debug)]
pub struct Address {
    pub bytes: [u8; 32],
}

impl View for Address {
    type V = Seq<u8>;

    open spec fn view(&self) -> Seq<u8> {
        self.bytes@
    }
}

impl Address {
    /// An address from its 32 bytes.
    pub fn new(bytes: [u8; 32]) -> (a: Address)
        ensures
            a.bytes == bytes,
            a@ == bytes@,
    {
        Address { bytes }
    }

    /// The bytes of the address, as a seed for a derivation.
    pub fn to_vec(&self) -> (v: Vec<u8>)
        ensures
            v@ == self@,
    {
        let mut v: Vec<u8> = Vec::new();
        let mut i: usize = 0;
        while i < 32
            invariant
                i <= 32,
                v@.len() == i,
                forall|j: int| 0 <= j < i ==> v@[j] == self.bytes@[j],
            decreases 32 - i,
        {
            v.push(self.bytes[i]);
            i = i + 1;
        }
        assert(v@ =~= self@);
        v
    }

    /// Two addresses with the same bytes are the same address.
    pub proof fn lemma_view_injective(a: Address, b: Address)
        requires
            a@ == b@,
        ensures
            a == b,
    {
        assert forall|i: int| 0 <= i < 32 implies a.bytes[i] == b.bytes[i] by {
            assert(a.bytes@[i] == b.bytes@[i]);
        }
        assert(a.bytes =~= b.bytes);
    }
}

impl PartialEq for Address {
    fn eq(&self, other: &Address) -> (r: bool) {
        let mut i: usize = 0;
        while i < 32
            invariant
                i <= 32,
                forall|j: int| 0 <= j < i ==> self.bytes@[j] == other.bytes@[j],
            decreases 32 - i,
        {
            if self.bytes[i] != other.bytes[i] {
                return false;
            }
            i = i + 1;
        }
        proof {
            assert(self@ =~= other@);
            Address::lemma_view_injective(*self, *other);
        }
        true
    }
}

impl Eq for Address {}

impl vstd::std_specs::cmp::PartialEqSpecImpl for Address {
    open spec fn obeys_eq_spec() -> bool {
        true
    }

    open spec fn eq_spec(&self, other: &Address) -> bool {
        *self == *other
    }
}

/// The address that `create_program_address` of the Solana SDK derives from
/// `seeds` for the program at `program_id`, or `None` where it derives none.
pub uninterp spec fn spec_create_program_address(seeds: Seq<Seq<u8>>, program_id: Seq<u8>) -> Option<Seq<u8>>;

/// The address and bump seed that `try_find_program_address` of the Solana SDK
/// finds for `seeds` and the program at `program_id`, or `None` where it finds
/// none.
pub uninterp spec fn spec_find_program_address(seeds: Seq<Seq<u8>>, program_id: Seq<u8>) -> Option<(Seq<u8>, u8)>;

/// Whether a list of seeds is within the limits of the derivation.
pub open spec fn seeds_within_limits(seeds: Seq<Seq<u8>>) -> bool {
    &&& seeds.len() <= MAX_SEEDS
    &&& forall|i: int| 0 <= i < seeds.len() ==> (#[trigger] seeds[i]).len() <= MAX_SEED_LEN
}

/// Calls `Pubkey::create_program_address`. The contract names its result. Of
/// that result it claims only what the source shows: more than sixteen seeds,
/// or a seed of more than 32 bytes, derive nothing.
#[verifier::external_body]
pub(crate) fn create_program_address(seeds: &Vec<Vec<u8>>, program_id: &Address) -> (r: Option<Address>)
    ensures
        match r {
            Some(a) => spec_create_program_address(seeds.deep_view(), program_id@) == Some(a@),
            None => spec_create_program_address(seeds.deep_view(), program_id@) is None,
        },
        !seeds_within_limits(seeds.deep_view()) ==> r is None,
{
    let seeds: Vec<&[u8]> = seeds.iter().map(|s| s.as_slice()).collect();
    let program_id = Pubkey::new_from_array(program_id.bytes);
    Pubkey::create_program_address(&seeds, &program_id)
        .ok()
        .map(|key| Address { bytes: key.to_bytes() })
}

/// Calls `Pubkey::try_find_program_address`. The contract names its result and
/// claims of it what the source shows: the address found is the one that
/// `create_program_address` derives from the same seeds followed by the bump
/// seed found.
#[verifier::external_body]
pub(crate) fn try_find_program_address(seeds: &Vec<Vec<u8>>, program_id: &Address) -> (r: Option<(Address, u8)>)
    ensures
        match r {
            Some((a, bump)) => {
                &&& spec_find_program_address(seeds.deep_view(), program_id@) == Some((a@, bump))
                &&& spec_create_program_address(seeds.deep_view().push(seq![bump]), program_id@)
                    == Some(a@)
            },
            None => spec_find_program_address(seeds.deep_view(), program_id@) is None,
        },
{
    let seeds: Vec<&[u8]> = seeds.iter().map(|s| s.as_slice()).collect();
    let program_id = Pubkey::new_from_array(program_id.bytes);
    Pubkey::try_find_program_address(&seeds, &program_id)
        .map(|(key, bump)| (Address { bytes: key.to_bytes() }, bump))
}

/// The seed that sets the address of a weight record apart from that of a
/// ledger: the bytes of `voter-weight-record`.
pub const VOTER_WEIGHT_RECORD: [u8; 19] = [
    118, 111, 116, 101, 114, 45, 119, 101, 105, 103, 104, 116, 45, 114, 101, 99, 111, 114, 100,
];

/// `derived` by its bytes.
pub open spec fn address_view(derived: Option<Address>) -> Option<Seq<u8>> {
    match derived {
        Some(a) => Some(a@),
        None => None,
    }
}

/// `found` with its address by its bytes.
pub open spec fn found_view(found: Option<(Address, u8)>) -> Option<(Seq<u8>, u8)> {
    match found {
        Some((a, bump)) => Some((a@, bump)),
        None => None,
    }
}

/// The seeds of a registrar's address: the realm and the bump seed.
pub open spec fn registrar_seeds(realm: Address, bump: u8) -> Seq<Seq<u8>> {
    seq![realm@, seq![bump]]
}

/// The seeds of a ledger's address: registrar, participant and bump seed.
pub open spec fn voter_seeds(registrar: Address, authority: Address, bump: u8) -> Seq<Seq<u8>> {
    seq![registrar@, authority@, seq![bump]]
}

/// The seeds of a weight record's address: the fixed seed, registrar,
/// participant and bump seed.
pub open spec fn voter_weight_record_seeds(registrar: Address, authority: Address, bump: u8) -> Seq<
    Seq<u8>,
> {
    seq![VOTER_WEIGHT_RECORD@, registrar@, authority@, seq![bump]]
}

/// The address of the registrar of `realm` with bump seed `bump`, which is
/// also the address of the authority over the registrar's vault.
pub open spec fn spec_registrar_address(realm: Address, bump: u8, program_id: Address) -> Option<
    Seq<u8>,
> {
    spec_create_program_address(registrar_seeds(realm, bump), program_id@)
}

/// The address of the ledger of `authority` with `registrar`.
pub open spec fn spec_voter_address(
    registrar: Address,
    authority: Address,
    bump: u8,
    program_id: Address,
) -> Option<Seq<u8>> {
    spec_create_program_address(voter_seeds(registrar, authority, bump), program_id@)
}

/// The address of the weight record of `authority` with `registrar`.
pub open spec fn spec_voter_weight_record_address(
    registrar: Address,
    authority: Address,
    bump: u8,
    program_id: Address,
) -> Option<Seq<u8>> {
    spec_create_program_address(voter_weight_record_seeds(registrar, authority, bump), program_id@)
}

/// The one address at which the registrar of `realm` can be created, and
/// its bump seed.
pub open spec fn spec_find_registrar_address(realm: Address, program_id: Address) -> Option<
    (Seq<u8>, u8),
> {
    spec_find_program_address(seq![realm@], program_id@)
}

/// The one address at which the ledger of `authority` with `registrar` can
/// be created, and its bump seed.
pub open spec fn spec_find_voter_address(
    registrar: Address,
    authority: Address,
    program_id: Address,
) -> Option<(Seq<u8>, u8)> {
    spec_find_program_address(seq![registrar@, authority@], program_id@)
}

/// The one address at which the weight record of `authority` with
/// `registrar` can be created, and its bump seed.
pub open spec fn spec_find_voter_weight_record_address(
    registrar: Address,
    authority: Address,
    program_id: Address,
) -> Option<(Seq<u8>, u8)> {
    spec_find_program_address(seq![VOTER_WEIGHT_RECORD@, registrar@, authority@], program_id@)
}

/// A seed of one byte.
fn bump_seed(bump: u8) -> (v: Vec<u8>)
    ensures
        v@ == seq![bump],
{
    let mut v: Vec<u8> = Vec::new();
    v.push(bump);
    assert(v@ =~= seq![bump]);
    v
}

/// The fixed seed of weight records.
fn voter_weight_record_seed() -> (v: Vec<u8>)
    ensures
        v@ == VOTER_WEIGHT_RECORD@,
{
    let mut v: Vec<u8> = Vec::new();
    let mut i: usize = 0;
    while i < 19
        invariant
            i <= 19,
            v@.len() == i,
            forall|j: int| 0 <= j < i ==> v@[j] == VOTER_WEIGHT_RECORD@[j],
        decreases 19 - i,
    {
        v.push(VOTER_WEIGHT_RECORD[i]);
        i = i + 1;
    }
    assert(v@ =~= VOTER_WEIGHT_RECORD@);
    v
}

/// A seed is its own deep view.
pub(crate) proof fn lemma_seed_deep_view(v: Vec<u8>)
    ensures
        v.deep_view() == v@,
{
    assert(v.deep_view() =~= v@);
}

/// The seeds that prove the authority over the vault of the registrar of
/// `realm`: the realm and the registrar's bump seed.
pub fn registrar_signer_seeds(realm: &Address, bump: u8) -> (seeds: Vec<Vec<u8>>)
    ensures
        seeds.deep_view() == registrar_seeds(*realm, bump),
{
    let mut seeds: Vec<Vec<u8>> = Vec::new();
    seeds.push(realm.to_vec());
    seeds.push(bump_seed(bump));
    proof {
        lemma_seed_deep_view(seeds@[0]);
        lemma_seed_deep_view(seeds@[1]);
        assert(seeds.deep_view() =~= registrar_seeds(*realm, bump));
    }
    seeds
}

/// The address of the registrar of `realm` with bump seed `bump`: `None`
/// where the seeds derive no address.
pub fn registrar_address(realm: &Address, bump: u8, program_id: &Address) -> (r: Option<Address>)
    ensures
        address_view(r) == spec_registrar_address(*realm, bump, *program_id),
{
    let seeds = registrar_signer_seeds(realm, bump);
    create_program_address(&seeds, program_id)
}

/// The address of the ledger of `authority` with `registrar`, for the bump
/// seed `bump`: `None` where the seeds derive no address.
pub fn voter_address(registrar: &Address, authority: &Address, bump: u8, program_id: &Address) -> (r:
    Option<Address>)
    ensures
        address_view(r) == spec_voter_address(*registrar, *authority, bump, *program_id),
{
    let mut seeds: Vec<Vec<u8>> = Vec::new();
    seeds.push(registrar.to_vec());
    seeds.push(authority.to_vec());
    seeds.push(bump_seed(bump));
    proof {
        lemma_seed_deep_view(seeds@[0]);
        lemma_seed_deep_view(seeds@[1]);
        lemma_seed_deep_view(seeds@[2]);
        assert(seeds.deep_view() =~= voter_seeds(*registrar, *authority, bump));
    }
    create_program_address(&seeds, program_id)
}

/// The address of the weight record of `authority` with `registrar`, for the
/// bump seed `bump`: `None` where the seeds derive no address.
pub fn voter_weight_record_address(
    registrar: &Address,
    authority: &Address,
    bump: u8,
    program_id: &Address,
) -> (r: Option<Address>)
    ensures
        address_view(r) == spec_voter_weight_record_address(
            *registrar,
            *authority,
            bump,
            *program_id,
        ),
{
    let mut seeds: Vec<Vec<u8>> = Vec::new();
    seeds.push(voter_weight_record_seed());
    seeds.push(registrar.to_vec());
    seeds.push(authority.to_vec());
    seeds.push(bump_seed(bump));
    proof {
        lemma_seed_deep_view(seeds@[0]);
        lemma_seed_deep_view(seeds@[1]);
        lemma_seed_deep_view(seeds@[2]);
        lemma_seed_deep_view(seeds@[3]);
        assert(seeds.deep_view() =~= voter_weight_record_seeds(*registrar, *authority, bump));
    }
    create_program_address(&seeds, program_id)
}

/// Searches the one address at which the registrar of `realm` can be
/// created. What comes back is that address and the bump seed that, handed
/// to [`registrar_address`], derives it again; `None` where no bump seed
/// derives an address.
pub fn find_registrar_address(realm: &Address, program_id: &Address) -> (r: Option<(Address, u8)>)
    ensures
        found_view(r) == spec_find_registrar_address(*realm, *program_id),
        r matches Some((a, bump)) ==> spec_registrar_address(*realm, bump, *program_id) == Some(a@),
{
    let mut seeds: Vec<Vec<u8>> = Vec::new();
    seeds.push(realm.to_vec());
    proof {
        lemma_seed_deep_view(seeds@[0]);
        assert(seeds.deep_view() =~= seq![realm@]);
    }
    let r = try_find_program_address(&seeds, program_id);
    proof {
        if let Some((a, bump)) = r {
            assert(seq![realm@].push(seq![bump]) =~= registrar_seeds(*realm, bump));
        }
    }
    r
}

/// Searches the one address at which the ledger of `authority` with
/// `registrar` can be created, and the bump seed that derives it again.
pub fn find_voter_address(registrar: &Address, authority: &Address, program_id: &Address) -> (r:
    Option<(Address, u8)>)
    ensures
        found_view(r) == spec_find_voter_address(*registrar, *authority, *program_id),
        r matches Some((a, bump)) ==> spec_voter_address(*registrar, *authority, bump, *program_id)
            == Some(a@),
{
    let mut seeds: Vec<Vec<u8>> = Vec::new();
    seeds.push(registrar.to_vec());
    seeds.push(authority.to_vec());
    proof {
        lemma_seed_deep_view(seeds@[0]);
        lemma_seed_deep_view(seeds@[1]);
        assert(seeds.deep_view() =~= seq![registrar@, authority@]);
    }
    let r = try_find_program_address(&seeds, program_id);
    proof {
        if let Some((a, bump)) = r {
            assert(seq![registrar@, authority@].push(seq![bump]) =~= voter_seeds(
                *registrar,
                *authority,
                bump,
            ));
        }
    }
    r
}

/// Searches the one address at which the weight record of `authority` with
/// `registrar` can be created, and the bump seed that derives it again.
pub fn find_voter_weight_record_address(
    registrar: &Address,
    authority: &Address,
    program_id: &Address,
) -> (r: Option<(Address, u8)>)
    ensures
        found_view(r) == spec_find_voter_weight_record_address(*registrar, *authority, *program_id),
        r matches Some((a, bump)) ==> spec_voter_weight_record_address(
            *registrar,
            *authority,
            bump,
            *program_id,
        ) == Some(a@),
{
    let mut seeds: Vec<Vec<u8>> = Vec::new();
    seeds.push(voter_weight_record_seed());
    seeds.push(registrar.to_vec());
    seeds.push(authority.to_vec());
    proof {
        lemma_seed_deep_view(seeds@[0]);
        lemma_seed_deep_view(seeds@[1]);
        lemma_seed_deep_view(seeds@[2]);
        assert(seeds.deep_view() =~= seq![VOTER_WEIGHT_RECORD@, registrar@, authority@]);
    }
    let r = try_find_program_address(&seeds, program_id);
    proof {
        if let Some((a, bump)) = r {
            assert(seq![VOTER_WEIGHT_RECORD@, registrar@, authority@].push(seq![bump])
                =~= voter_weight_record_seeds(*registrar, *authority, bump));
        }
    }
    r
}

} // verus!
