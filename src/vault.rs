use vstd::prelude::*;

verus! {

/// A participant, program or account address: 32 bytes.
pub type Address = [u8; 32];

/// The address that the ledger derives from `seeds` under `program_id`, or
/// `None` where no bump seed yields one.
pub uninterp spec fn program_address(seeds: Seq<Seq<u8>>, program_id: Seq<u8>) -> Option<Seq<u8>>;

/// The bytes of each seed.
pub open spec fn seeds_view(seeds: Seq<Vec<u8>>) -> Seq<Seq<u8>> {
    seeds.map_values(|s: Vec<u8>| s@)
}

/// The domain tag of vault addresses: the bytes of `vault`.
pub open spec fn vault_tag() -> Seq<u8> {
    seq![118u8, 97u8, 117u8, 108u8, 116u8]
}

/// The vault address of `owner` under `program_id`.
pub open spec fn vault_of(owner: Seq<u8>, program_id: Seq<u8>) -> Option<Seq<u8>> {
    program_address(seq![vault_tag(), owner], program_id)
}

/// Relies on `Pubkey::try_find_program_address` of solana-program: the
/// address it finds depends on the seeds and the program id alone, and it
/// returns `None` where no bump seed gives an address.
#[verifier::external_body]
fn find_program_address(seeds: &Vec<Vec<u8>>, program_id: &Address) -> (r: Option<Address>)
    ensures
        match r {
            Some(a) => program_address(seeds_view(seeds@), program_id@) == Some(a@),
            None => program_address(seeds_view(seeds@), program_id@) is None,
        },
{
    let parts: Vec<&[u8]> = seeds.iter().map(|s| s.as_slice()).collect();
    let program = anchor_lang::prelude::Pubkey::new_from_array(*program_id);
    anchor_lang::prelude::Pubkey::try_find_program_address(&parts, &program).map(|found| found.0.to_bytes())
}

/// Whether two addresses hold the same bytes.
pub fn same_address(a: &Address, b: &Address) -> (r: bool)
    ensures
        r == (a@ == b@),
{
    let mut i: usize = 0;
    while i < 32
        invariant
            i <= 32,
            a@.len() == 32,
            b@.len() == 32,
            forall|j: int| 0 <= j < i ==> a@[j] == b@[j],
        decreases 32 - i,
    {
        if a[i] != b[i] {
            assert(a@[i as int] != b@[i as int]);
            return false;
        }
        i = i + 1;
    }
    assert(a@ =~= b@);
    true
}

/// The vault address of `owner` under `program_id`, or `None` where the
/// ledger derives none.
pub fn derive_vault(owner: &Address, program_id: &Address) -> (r: Option<Address>)
    ensures
        match r {
            Some(a) => vault_of(owner@, program_id@) == Some(a@),
            None => vault_of(owner@, program_id@) is None,
        },
{
    let tag: Vec<u8> = vec![118u8, 97u8, 117u8, 108u8, 116u8];
    let mut key: Vec<u8> = Vec::new();
    let mut i: usize = 0;
    while i < 32
        invariant
            i <= 32,
            owner@.len() == 32,
            key@ == owner@.subrange(0, i as int),
        decreases 32 - i,
    {
        key.push(owner[i]);
        i = i + 1;
    }
    assert(key@ =~= owner@);
    assert(tag@ =~= vault_tag());
    let seeds: Vec<Vec<u8>> = vec![tag, key];
    proof {
        assert(seeds_view(seeds@) =~= seq![vault_tag(), owner@]);
    }
    find_program_address(&seeds, program_id)
}

/// Checks a vault address supplied by a caller against the one derived for
/// `owner`. Fails closed: where none can be derived, no vault is accepted.
pub fn verify_vault(owner: &Address, vault: &Address, program_id: &Address) -> (r: bool)
    ensures
        r == (vault_of(owner@, program_id@) == Some(vault@)),
{
    match derive_vault(owner, program_id) {
        Some(expected) => same_address(&expected, vault),
        None => false,
    }
}

} // verus!
