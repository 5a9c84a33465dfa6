//! Deterministic addressing: every account the program controls lives at an
//! address computed from fixed seed bytes and the program's own address.

use vstd::prelude::*;

verus! {

/// A 32-byte account address.
#[derive(Clone, Copy, Debug, Eq, Hash)]
pub struct Address {
    pub bytes: [u8; 32],
}

impl View for Address {
    type V = Seq<u8>;

    open spec fn view(&self) -> Seq<u8> {
        self.bytes@
    }
}

impl PartialEq for Address {
    fn eq(&self, other: &Self) -> (r: bool) {
        let mut i: usize = 0;
        while i < 32
            invariant
                i <= 32,
                forall|j: int| 0 <= j < i ==> self.bytes[j] == other.bytes[j],
            decreases 32 - i,
        {
            if self.bytes[i] != other.bytes[i] {
                return false;
            }
            i = i + 1;
        }
        assert(self.bytes =~= other.bytes);
        true
    }
}

impl vstd::std_specs::cmp::PartialEqSpecImpl for Address {
    open spec fn obeys_eq_spec() -> bool {
        true
    }

    open spec fn eq_spec(&self, other: &Self) -> bool {
        *self == *other
    }
}

impl Address {
    /// The address made of `bytes`.
    pub fn new(bytes: [u8; 32]) -> (r: Address)
        ensures
            r.bytes == bytes,
    {
        Address { bytes }
    }

    /// The address whose bytes are `bytes`; no two addresses share their
    /// bytes (`lemma_view_injective`).
    pub open spec fn of(bytes: Seq<u8>) -> Address {
        choose|a: Address| a@ == bytes
    }

    /// Two addresses with the same bytes are the same address.
    pub proof fn lemma_view_injective(a: Address, b: Address)
        ensures
            a@ == b@ <==> a == b,
            Address::of(a@) == a,
    {
        if a@ == b@ {
            assert(a.bytes =~= b.bytes);
        }
        let c = Address::of(a@);
        assert(c@ == a@);
        assert(c.bytes =~= a.bytes);
    }
}

/// Seed of the authority record: the ASCII text `SSF_ACCOUNT_VAULT`.
pub const AUTHORITY_TAG: [u8; 17] = [
    0x53, 0x53, 0x46, 0x5f, 0x41, 0x43, 0x43, 0x4f, 0x55, 0x4e, 0x54, 0x5f, 0x56, 0x41, 0x55, 0x4c, 0x54,
];

/// First seed of every vault record: the ASCII text `SSF_PDA_VAULT`.
pub const VAULT_TAG: [u8; 13] = [
    0x53, 0x53, 0x46, 0x5f, 0x50, 0x44, 0x41, 0x5f, 0x56, 0x41, 0x55, 0x4c, 0x54,
];

/// The seed list of the authority record: the authority tag alone.
pub open spec fn authority_seeds() -> Seq<Seq<u8>> {
    seq![AUTHORITY_TAG@]
}

/// The seed list of the vault record of `mint`: the vault tag, then the raw
/// bytes of the mint's address.
pub open spec fn vault_seeds(mint: Address) -> Seq<Seq<u8>> {
    seq![VAULT_TAG@, mint@]
}

/// The program address that the seed list `seeds` gives under the program
/// `program_id`, with its bump, or `None` where the seeds give none.
pub uninterp spec fn program_address(
    seeds: Seq<Seq<u8>>,
    program_id: Seq<u8>,
) -> Option<(Seq<u8>, u8)>;

/// A derived address together with the bump under which it was found.
#[derive(Clone, Copy, Debug, PartialEq, Eq)]
pub struct ProgramAddress {
    pub address: Address,
    pub bump: u8,
}

/// `program_address`, with the address as an `Address`.
pub open spec fn derived(seeds: Seq<Seq<u8>>, program_id: Address) -> Option<ProgramAddress> {
    match program_address(seeds, program_id@) {
        Some((bytes, bump)) => Some(ProgramAddress { address: Address::of(bytes), bump }),
        None => None,
    }
}

/// Where the authority record of the program `program_id` lives.
pub open spec fn authority_address(program_id: Address) -> Option<ProgramAddress> {
    derived(authority_seeds(), program_id)
}

/// Where the vault record for `mint` lives under the program `program_id`.
pub open spec fn vault_address(program_id: Address, mint: Address) -> Option<ProgramAddress> {
    derived(vault_seeds(mint), program_id)
}

/// Address derivation is a function of the program and the mint, and the
/// seeds keep the mints apart: two distinct mints differ in their seed lists
/// and in the bytes that those lists spell out one after the other, and no
/// vault's seeds spell out what the authority's do.
pub proof fn lemma_vault_seeds_distinct(program_id: Address, m1: Address, m2: Address)
    ensures
        m1 == m2 ==> vault_address(program_id, m1) == vault_address(program_id, m2),
        m1 != m2 ==> vault_seeds(m1) != vault_seeds(m2),
        m1 != m2 ==> vault_seeds(m1).flatten() != vault_seeds(m2).flatten(),
        vault_seeds(m1).flatten() != authority_seeds().flatten(),
{
    reveal_with_fuel(Seq::flatten, 3);
    assert(vault_seeds(m1).flatten() =~= VAULT_TAG@ + m1@);
    assert(vault_seeds(m2).flatten() =~= VAULT_TAG@ + m2@);
    assert(authority_seeds().flatten() =~= AUTHORITY_TAG@);
    if m1 != m2 {
        Address::lemma_view_injective(m1, m2);
        assert(vault_seeds(m1)[1] == m1@);
        assert(vault_seeds(m2)[1] == m2@);
        assert((VAULT_TAG@ + m1@).subrange(13, 45) =~= m1@);
        assert((VAULT_TAG@ + m2@).subrange(13, 45) =~= m2@);
    }
}

/// Calls `Pubkey::try_find_program_address` of `anchor_lang` (re-exported
/// from `solana_pubkey`). Trusted: the result is a function of the seeds and
/// the program id alone, which `program_address` names. Nothing is claimed
/// about which address that is, nor that one exists.
#[verifier::external_body]
fn try_find_program_address(
    seeds: &[&[u8]],
    program_id: &[u8; 32],
) -> (r: Option<([u8; 32], u8)>)
    ensures
        match r {
            Some((address, bump)) => {
                program_address(seeds.deep_view(), program_id@) == Some((address@, bump))
            },
            None => program_address(seeds.deep_view(), program_id@) is None,
        },
{
    let id = anchor_lang::prelude::Pubkey::new_from_array(*program_id);
    match anchor_lang::prelude::Pubkey::try_find_program_address(seeds, &id) {
        Some((key, bump)) => Some((key.to_bytes(), bump)),
        None => None,
    }
}

fn find(seeds: &[&[u8]], program_id: &Address) -> (r: Option<ProgramAddress>)
    ensures
        r == derived(seeds.deep_view(), *program_id),
{
    match try_find_program_address(seeds, &program_id.bytes) {
        Some((bytes, bump)) => {
            let address = Address { bytes };
            proof {
                Address::lemma_view_injective(address, address);
            }
            Some(ProgramAddress { address, bump })
        },
        None => None,
    }
}

/// Derives the address of the authority record of the program `program_id`.
pub fn find_authority_address(program_id: &Address) -> (r: Option<ProgramAddress>)
    ensures
        r == authority_address(*program_id),
{
    let seeds: [&[u8]; 1] = [AUTHORITY_TAG.as_slice()];
    let seeds = seeds.as_slice();
    assert(seeds.deep_view() =~~= authority_seeds());
    find(seeds, program_id)
}

/// Derives the address of the vault record for `mint` under the program
/// `program_id`.
pub fn find_vault_address(program_id: &Address, mint: &Address) -> (r: Option<ProgramAddress>)
    ensures
        r == vault_address(*program_id, *mint),
{
    let seeds: [&[u8]; 2] = [VAULT_TAG.as_slice(), mint.bytes.as_slice()];
    let seeds = seeds.as_slice();
    assert(seeds.deep_view() =~~= vault_seeds(*mint));
    find(seeds, program_id)
}

} // verus!
