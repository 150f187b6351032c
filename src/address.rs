//! Escrow addresses derived from the deposit's own terms, so that anyone who
//! holds the terms can recompute and check the address.
use vstd::prelude::*;
use crate::key::Key;
use crate::wire::{i64_to_le, le_i64, le_u64, u64_to_le};

verus! {

/// What `Pubkey::try_find_program_address` returns for these seeds and this
/// program: an address off the curve and the bump that reaches it, or nothing.
pub uninterp spec fn found_program_address(seeds: Seq<Seq<u8>>, program_id: Seq<u8>) -> Option<
    (Seq<u8>, u8),
>;

/// What `Pubkey::create_program_address` returns for these seeds and this
/// program, with its error mapped to `None`.
pub uninterp spec fn created_program_address(seeds: Seq<Seq<u8>>, program_id: Seq<u8>) -> Option<
    Seq<u8>,
>;

/// The fixed first seed, the bytes of `futurity_escrow`.
pub open spec fn escrow_prefix() -> Seq<u8> {
    seq![102u8, 117, 116, 117, 114, 105, 116, 121, 95, 101, 115, 99, 114, 111, 119]
}

/// The seeds that bind an escrow's address to its terms.
pub open spec fn spec_escrow_seeds(
    sender: Seq<u8>,
    recipient: Seq<u8>,
    amount: u64,
    unlock_time: i64,
) -> Seq<Seq<u8>> {
    seq![escrow_prefix(), sender, recipient, le_u64(amount), le_i64(unlock_time)]
}

/// Relies on `Pubkey::try_find_program_address` of solana-pubkey: the search for
/// a bump depends on the seeds and the program alone.
#[verifier::external_body]
fn try_find_program_address(seeds: &Vec<Vec<u8>>, program_id: &Key) -> (r: Option<(Key, u8)>)
    ensures
        match r {
            Some(p) => found_program_address(seeds.deep_view(), program_id@) == Some((p.0@, p.1)),
            None => found_program_address(seeds.deep_view(), program_id@) is None,
        },
{
    let s: Vec<&[u8]> = seeds.iter().map(|v| v.as_slice()).collect();
    let id = solana_program::pubkey::Pubkey::new_from_array(program_id.0);
    solana_program::pubkey::Pubkey::try_find_program_address(&s, &id).map(
        |(k, b)| (Key(k.to_bytes()), b),
    )
}

/// Relies on `Pubkey::create_program_address` of solana-pubkey: the address
/// depends on the seeds and the program alone.
#[verifier::external_body]
fn create_program_address(seeds: &Vec<Vec<u8>>, program_id: &Key) -> (r: Option<Key>)
    ensures
        match r {
            Some(k) => created_program_address(seeds.deep_view(), program_id@) == Some(k@),
            None => created_program_address(seeds.deep_view(), program_id@) is None,
        },
{
    let s: Vec<&[u8]> = seeds.iter().map(|v| v.as_slice()).collect();
    let id = solana_program::pubkey::Pubkey::new_from_array(program_id.0);
    solana_program::pubkey::Pubkey::create_program_address(&s, &id).ok().map(
        |k| Key(k.to_bytes()),
    )
}

fn key_bytes(k: &Key) -> (r: Vec<u8>)
    ensures
        r@ == k@,
{
    let mut r: Vec<u8> = Vec::new();
    crate::wire::append_bytes(&mut r, k.0.as_slice());
    assert(r@ =~= k@);
    r
}

pub fn escrow_seeds(sender: &Key, recipient: &Key, amount: u64, unlock_time: i64) -> (r: Vec<
    Vec<u8>,
>)
    ensures
        r.deep_view() == spec_escrow_seeds(sender@, recipient@, amount, unlock_time),
{
    let prefix: Vec<u8> = vec![102u8, 117, 116, 117, 114, 105, 116, 121, 95, 101, 115, 99, 114, 111, 119];
    assert(prefix@ =~= escrow_prefix());
    let mut r: Vec<Vec<u8>> = Vec::new();
    r.push(prefix);
    r.push(key_bytes(sender));
    r.push(key_bytes(recipient));
    r.push(u64_to_le(amount));
    r.push(i64_to_le(unlock_time));
    proof {
        lemma_seeds_deep_view(r);
    }
    assert(r.deep_view() =~= spec_escrow_seeds(sender@, recipient@, amount, unlock_time));
    r
}

proof fn lemma_seeds_deep_view(seeds: Vec<Vec<u8>>)
    ensures
        seeds.deep_view().len() == seeds@.len(),
        forall|i: int| 0 <= i < seeds@.len() ==> #[trigger] seeds.deep_view()[i] == seeds@[i]@,
{
    assert forall|i: int| 0 <= i < seeds@.len() implies #[trigger] seeds.deep_view()[i]
        == seeds@[i]@ by {
        assert(seeds@[i].deep_view() =~= seeds@[i]@);
    }
}

/// Finds the address and bump of the escrow with these terms.
pub fn derive_escrow_address(
    program_id: &Key,
    sender: &Key,
    recipient: &Key,
    amount: u64,
    unlock_time: i64,
) -> (r: Option<(Key, u8)>)
    ensures
        match r {
            Some(p) => found_program_address(
                spec_escrow_seeds(sender@, recipient@, amount, unlock_time),
                program_id@,
            ) == Some((p.0@, p.1)),
            None => found_program_address(
                spec_escrow_seeds(sender@, recipient@, amount, unlock_time),
                program_id@,
            ) is None,
        },
{
    let seeds = escrow_seeds(sender, recipient, amount, unlock_time);
    try_find_program_address(&seeds, program_id)
}

/// Whether `expected` is the address that these terms and this bump derive.
pub fn verify_escrow_address(
    expected: &Key,
    program_id: &Key,
    sender: &Key,
    recipient: &Key,
    amount: u64,
    unlock_time: i64,
    bump: u8,
) -> (r: bool)
    ensures
        r == (created_program_address(
            spec_escrow_seeds(sender@, recipient@, amount, unlock_time).push(seq![bump]),
            program_id@,
        ) == Some(expected@)),
{
    let mut seeds = escrow_seeds(sender, recipient, amount, unlock_time);
    let b: Vec<u8> = vec![bump];
    assert(b@ =~= seq![bump]);
    seeds.push(b);
    proof {
        lemma_seeds_deep_view(seeds);
    }
    assert(seeds.deep_view() =~= spec_escrow_seeds(sender@, recipient@, amount, unlock_time).push(
        seq![bump],
    ));
    match create_program_address(&seeds, program_id) {
        Some(k) => k.same_as(expected),
        None => false,
    }
}

} // verus!
