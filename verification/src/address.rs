//! Deterministic addressing.
//!
//! Every record and custody sub-account lives at an address computed from a
//! seed tuple: a role tag plus the identities that own the record. The same
//! tuple always yields the same address and auxiliary bump byte, so an
//! operation never stores a pointer; it re-derives the address from the
//! claimed tuple and rejects the operation when the supplied address does
//! not match.

use vstd::prelude::*;

verus! {

/// A 32-byte account identity: a signer's public key, a record address,
/// or a derived custody address.
#[derive(Debug)]
pub struct Address {
    pub bytes: Vec<u8>,
}

impl View for Address {
    type V = Seq<u8>;

    open spec fn view(&self) -> Seq<u8> {
        self.bytes@
    }
}

impl Address {
    /// A proper address is exactly 32 bytes.
    pub open spec fn wf(&self) -> bool {
        self@.len() == 32
    }

    /// Wraps raw key bytes as an address.
    pub fn from_bytes(bytes: Vec<u8>) -> (r: Address)
        ensures
            r@ == bytes@,
    {
        Address { bytes }
    }

    /// An independent copy of this address.
    pub fn dup(&self) -> (r: Address)
        ensures
            r@ == self@,
    {
        let mut bytes: Vec<u8> = Vec::new();
        let mut i: usize = 0;
        while i < self.bytes.len()
            invariant
                i <= self.bytes.len(),
                bytes@ == self.bytes@.subrange(0, i as int),
            decreases self.bytes.len() - i,
        {
            bytes.push(self.bytes[i]);
            i = i + 1;
            proof {
                assert(bytes@ =~= self.bytes@.subrange(0, i as int));
            }
        }
        proof {
            assert(bytes@ =~= self.bytes@);
        }
        Address { bytes }
    }

    /// Whether two addresses hold the same key bytes.
    pub fn matches(&self, other: &Address) -> (r: bool)
        ensures
            r == (self@ == other@),
    {
        if self.bytes.len() != other.bytes.len() {
            return false;
        }
        let mut i: usize = 0;
        while i < self.bytes.len()
            invariant
                i <= self.bytes.len(),
                self.bytes.len() == other.bytes.len(),
                forall|j: int| 0 <= j < i ==> self.bytes@[j] == other.bytes@[j],
            decreases self.bytes.len() - i,
        {
            if self.bytes[i] != other.bytes[i] {
                return false;
            }
            i = i + 1;
        }
        proof {
            assert(self@ =~= other@);
        }
        true
    }
}

/// Role tag of a survey record's seed tuple: the bytes of `"survey"`.
pub open spec fn survey_tag() -> Seq<u8> {
    seq![115u8, 117u8, 114u8, 118u8, 101u8, 121u8]
}

/// Role tag of a vault's seed tuple: the bytes of `"vault"`.
pub open spec fn vault_tag() -> Seq<u8> {
    seq![118u8, 97u8, 117u8, 108u8, 116u8]
}

/// Role tag of a participation receipt's seed tuple: the bytes of `"part"`.
pub open spec fn part_tag() -> Seq<u8> {
    seq![112u8, 97u8, 114u8, 116u8]
}

fn survey_tag_bytes() -> (r: Vec<u8>)
    ensures
        r@ == survey_tag(),
{
    let mut v: Vec<u8> = Vec::new();
    v.push(115u8);
    v.push(117u8);
    v.push(114u8);
    v.push(118u8);
    v.push(101u8);
    v.push(121u8);
    proof {
        assert(v@ =~= survey_tag());
    }
    v
}

fn vault_tag_bytes() -> (r: Vec<u8>)
    ensures
        r@ == vault_tag(),
{
    let mut v: Vec<u8> = Vec::new();
    v.push(118u8);
    v.push(97u8);
    v.push(117u8);
    v.push(108u8);
    v.push(116u8);
    proof {
        assert(v@ =~= vault_tag());
    }
    v
}

fn part_tag_bytes() -> (r: Vec<u8>)
    ensures
        r@ == part_tag(),
{
    let mut v: Vec<u8> = Vec::new();
    v.push(112u8);
    v.push(97u8);
    v.push(114u8);
    v.push(116u8);
    proof {
        assert(v@ =~= part_tag());
    }
    v
}

/// The seed slices, as byte sequences, of a vector of seed buffers.
pub open spec fn seeds_view(s: Seq<Vec<u8>>) -> Seq<Seq<u8>> {
    s.map_values(|v: Vec<u8>| v@)
}

/// The address-and-bump payload of a derivation result.
pub open spec fn pda_view(r: Option<(Address, u8)>) -> Option<(Seq<u8>, u8)> {
    match r {
        Some(p) => Some((p.0@, p.1)),
        None => None,
    }
}

/// What the hosting ledger's program-derived-address function returns for a
/// program id and seed tuple: `None` when the tuple admits no valid address,
/// otherwise the unique address and bump byte of that tuple.
pub uninterp spec fn pda_of(program: Seq<u8>, seeds: Seq<Seq<u8>>) -> Option<(Seq<u8>, u8)>;

/// Relies on anchor_lang's `Pubkey::try_find_program_address`: the returned
/// address and bump depend on the program id and the seed slices alone, the
/// returned address is 32 bytes, and `None` comes back exactly when the
/// seed tuple admits no valid derived address.
#[verifier::external_body]
fn find_pda(program_id: &Address, seeds: &Vec<Vec<u8>>) -> (r: Option<(Address, u8)>)
    requires
        program_id.wf(),
    ensures
        pda_view(r) == pda_of(program_id@, seeds_view(seeds@)),
        r matches Some(p) ==> p.0.wf(),
{
    let pid = anchor_lang::prelude::Pubkey::try_from(program_id.bytes.as_slice()).unwrap();
    let slices: Vec<&[u8]> = seeds.iter().map(|s| s.as_slice()).collect();
    anchor_lang::prelude::Pubkey::try_find_program_address(&slices, &pid)
        .map(|(key, bump)| (Address { bytes: key.to_bytes().to_vec() }, bump))
}

/// Seed tuple of the survey record owned by `creator` under `survey_id`.
pub open spec fn survey_seed_tuple(creator: Seq<u8>, survey_id: u64) -> Seq<Seq<u8>> {
    seq![survey_tag(), creator, vstd::bytes::spec_u64_to_le_bytes(survey_id)]
}

/// Seed tuple of the vault of the survey at `survey_addr` owned by `owner`.
pub open spec fn vault_seed_tuple(survey_addr: Seq<u8>, owner: Seq<u8>) -> Seq<Seq<u8>> {
    seq![vault_tag(), survey_addr, owner]
}

/// Seed tuple of the participation receipt binding `participant` to the
/// survey at `survey_addr`.
pub open spec fn participation_seed_tuple(survey_addr: Seq<u8>, participant: Seq<u8>) -> Seq<Seq<u8>> {
    seq![part_tag(), survey_addr, participant]
}

/// The derived address of a survey record, if its tuple admits one.
pub open spec fn survey_pda(program: Seq<u8>, creator: Seq<u8>, survey_id: u64) -> Option<(Seq<u8>, u8)> {
    pda_of(program, survey_seed_tuple(creator, survey_id))
}

/// The derived address of a survey's vault, if its tuple admits one.
pub open spec fn vault_pda(program: Seq<u8>, survey_addr: Seq<u8>, owner: Seq<u8>) -> Option<(Seq<u8>, u8)> {
    pda_of(program, vault_seed_tuple(survey_addr, owner))
}

/// The derived address of a participation receipt, if its tuple admits one.
pub open spec fn participation_pda(program: Seq<u8>, survey_addr: Seq<u8>, participant: Seq<u8>) -> Option<(Seq<u8>, u8)> {
    pda_of(program, participation_seed_tuple(survey_addr, participant))
}

/// Whether a derivation result exists and its address equals `claimed`.
pub open spec fn derives_to(d: Option<(Seq<u8>, u8)>, claimed: Seq<u8>) -> bool {
    match d {
        Some(p) => p.0 == claimed,
        None => false,
    }
}

/// Derives the address and bump of the survey record owned by `creator`
/// under `survey_id`.
pub fn derive_survey_address(program_id: &Address, creator: &Address, survey_id: u64) -> (r: Option<(Address, u8)>)
    requires
        program_id.wf(),
    ensures
        pda_view(r) == survey_pda(program_id@, creator@, survey_id),
        r matches Some(p) ==> p.0.wf(),
{
    let mut seeds: Vec<Vec<u8>> = Vec::new();
    seeds.push(survey_tag_bytes());
    seeds.push(creator.dup().bytes);
    seeds.push(vstd::bytes::u64_to_le_bytes(survey_id));
    proof {
        assert(seeds_view(seeds@) =~= survey_seed_tuple(creator@, survey_id));
    }
    find_pda(program_id, &seeds)
}

/// Derives the address and bump of the vault of the survey at
/// `survey_addr` owned by `owner`.
pub fn derive_vault_address(program_id: &Address, survey_addr: &Address, owner: &Address) -> (r: Option<(Address, u8)>)
    requires
        program_id.wf(),
    ensures
        pda_view(r) == vault_pda(program_id@, survey_addr@, owner@),
        r matches Some(p) ==> p.0.wf(),
{
    let mut seeds: Vec<Vec<u8>> = Vec::new();
    seeds.push(vault_tag_bytes());
    seeds.push(survey_addr.dup().bytes);
    seeds.push(owner.dup().bytes);
    proof {
        assert(seeds_view(seeds@) =~= vault_seed_tuple(survey_addr@, owner@));
    }
    find_pda(program_id, &seeds)
}

/// Derives the address and bump of the participation receipt binding
/// `participant` to the survey at `survey_addr`.
pub fn derive_participation_address(program_id: &Address, survey_addr: &Address, participant: &Address) -> (r: Option<(Address, u8)>)
    requires
        program_id.wf(),
    ensures
        pda_view(r) == participation_pda(program_id@, survey_addr@, participant@),
        r matches Some(p) ==> p.0.wf(),
{
    let mut seeds: Vec<Vec<u8>> = Vec::new();
    seeds.push(part_tag_bytes());
    seeds.push(survey_addr.dup().bytes);
    seeds.push(participant.dup().bytes);
    proof {
        assert(seeds_view(seeds@) =~= participation_seed_tuple(survey_addr@, participant@));
    }
    find_pda(program_id, &seeds)
}

/// Derivation is a pure function of the seed tuple: two derivations from
/// the same program id and tuple yield the identical address and bump.
pub proof fn lemma_derivation_deterministic(
    program: Seq<u8>,
    seeds: Seq<Seq<u8>>,
    r1: Option<(Seq<u8>, u8)>,
    r2: Option<(Seq<u8>, u8)>,
)
    requires
        r1 == pda_of(program, seeds),
        r2 == pda_of(program, seeds),
    ensures
        r1 == r2,
{
}

} // verus!
