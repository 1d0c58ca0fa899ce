//! Deterministic derivation of a market's record address and of the shared
//! custody-authority address.

use vstd::prelude::*;
use vstd::slice::slice_to_vec;
use crate::constants::{authority_seed_bytes, authority_seed_spec};
use crate::keys::Pubkey;

verus! {

/// What the host's program-derived-address search returns for a program
/// namespace and a seed list: the found address with its bump seed, or
/// nothing when no viable bump exists for these seeds.
pub uninterp spec fn pda_of(program: Seq<u8>, seeds: Seq<Seq<u8>>) -> Option<(Seq<u8>, u8)>;

/// Relies on solana_program's `Pubkey::try_find_program_address`: a
/// trial-and-error search over SHA-256 digests of the seeds, a bump byte and
/// the program id, a function of those arguments alone.
#[verifier::external_body]
fn try_find_pda(seeds: &Vec<Vec<u8>>, program: &Pubkey) -> (r: Option<(Pubkey, u8)>)
    ensures
        (match r {
            Some(p) => pda_of(program@, seeds@.map_values(|s: Vec<u8>| s@)) == Some((p.0@, p.1)),
            None => pda_of(program@, seeds@.map_values(|s: Vec<u8>| s@)) is None,
        }),
{
    let key = solana_program::pubkey::Pubkey::new_from_array(program.bytes);
    let refs: Vec<&[u8]> = seeds.iter().map(|s| s.as_slice()).collect();
    solana_program::pubkey::Pubkey::try_find_program_address(&refs, &key)
        .map(|(a, b)| (Pubkey { bytes: a.to_bytes() }, b))
}

/// The storage slot of the record for market `id`: a function of the
/// identifier alone, under the program namespace.
pub open spec fn record_pda_of(program: Seq<u8>, id: Seq<u8>) -> Option<(Seq<u8>, u8)> {
    pda_of(program, seq![id])
}

/// The shared custody-authority address: derived from the fixed textual
/// domain-separation tag, the same for every market.
pub open spec fn authority_pda_of(program: Seq<u8>) -> Option<(Seq<u8>, u8)> {
    pda_of(program, seq![authority_seed_spec()])
}

/// The record and authority addresses of one market, with their bump seeds.
#[derive(Clone, Copy, Debug)]
pub struct DerivedAddresses {
    pub record: Pubkey,
    pub record_bump: u8,
    pub authority: Pubkey,
    pub authority_bump: u8,
}

impl DerivedAddresses {
    /// This value is exactly what derivation yields for market `id` under
    /// namespace `program`.
    pub open spec fn wf(self, program: Seq<u8>, id: Seq<u8>) -> bool {
        &&& record_pda_of(program, id) == Some((self.record@, self.record_bump))
        &&& authority_pda_of(program) == Some((self.authority@, self.authority_bump))
    }
}

/// Computes the record and authority addresses for market `id` under
/// `program`'s namespace. Pure and total in its arguments; `None` arises only
/// in the statistically improbable event that the host search finds no viable
/// bump for one of the two seed lists.
pub fn derive_addresses(program: &Pubkey, id: &Pubkey) -> (r: Option<DerivedAddresses>)
    ensures
        (match r {
            Some(d) => d.wf(program@, id@),
            None => record_pda_of(program@, id@) is None || authority_pda_of(
                program@,
            ) is None,
        }),
{
    let mut record_seeds: Vec<Vec<u8>> = Vec::new();
    record_seeds.push(slice_to_vec(id.bytes.as_slice()));
    proof {
        assert(record_seeds@.map_values(|s: Vec<u8>| s@) =~= seq![id@]);
    }
    match try_find_pda(&record_seeds, program) {
        None => None,
        Some((record, record_bump)) => {
            let mut authority_seeds: Vec<Vec<u8>> = Vec::new();
            authority_seeds.push(authority_seed_bytes());
            proof {
                assert(authority_seeds@.map_values(|s: Vec<u8>| s@) =~= seq![
                    authority_seed_spec(),
                ]);
            }
            match try_find_pda(&authority_seeds, program) {
                None => None,
                Some((authority, authority_bump)) => Some(
                    DerivedAddresses { record, record_bump, authority, authority_bump },
                ),
            }
        },
    }
}

/// Derivation is deterministic: any two derivation results for the same
/// program namespace and the same market identifier agree on both addresses
/// and both bump seeds.
pub proof fn lemma_derive_addresses_deterministic(
    program: Seq<u8>,
    id: Seq<u8>,
    d1: DerivedAddresses,
    d2: DerivedAddresses,
)
    requires
        d1.wf(program, id),
        d2.wf(program, id),
    ensures
        d1.record@ == d2.record@,
        d1.record_bump == d2.record_bump,
        d1.authority@ == d2.authority@,
        d1.authority_bump == d2.authority_bump,
{
}

} // verus!
