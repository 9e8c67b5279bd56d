use vstd::prelude::*;

verus! {

/// The tag that starts the seeds of a pool's address: the bytes of `pool`.
pub open spec fn pool_tag() -> Seq<u8> {
    seq![112u8, 111u8, 111u8, 108u8]
}

/// The tag that starts the seeds of a stake record's address: the bytes of
/// `user_stake`.
pub open spec fn user_stake_tag() -> Seq<u8> {
    seq![117u8, 115u8, 101u8, 114u8, 95u8, 115u8, 116u8, 97u8, 107u8, 101u8]
}

/// The identity of a party, or the address of a record: 32 bytes.
#[derive(Clone, Copy, Debug)]
pub struct Address {
    pub bytes: [u8; 32],
}

impl View for Address {
    type V = Seq<u8>;

    open spec fn view(&self) -> Seq<u8> {
        self.bytes@
    }
}

impl PartialEq for Address {
    fn eq(&self, other: &Address) -> (r: bool) {
        let mut i: usize = 0;
        while i < 32
            invariant
                i <= 32,
                forall|j: int| 0 <= j < i ==> self.bytes[j] == other.bytes[j],
            decreases 32 - i,
        {
            if self.bytes[i] != other.bytes[i] {
                return false;
            }
            i = i + 1;
        }
        assert(self.bytes =~= other.bytes);
        true
    }
}

impl Eq for Address {}

impl vstd::std_specs::cmp::PartialEqSpecImpl for Address {
    open spec fn obeys_eq_spec() -> bool {
        true
    }

    open spec fn eq_spec(&self, other: &Address) -> bool {
        *self == *other
    }
}

impl Address {
    /// The address made of the given bytes.
    pub fn new(bytes: [u8; 32]) -> (a: Address)
        ensures
            a.bytes == bytes,
    {
        Address { bytes }
    }

    /// The bytes of the address, in order.
    pub fn to_vec(&self) -> (v: Vec<u8>)
        ensures
            v@ == self@,
    {
        let mut v: Vec<u8> = Vec::new();
        let mut i: usize = 0;
        while i < 32
            invariant
                i <= 32,
                v@ == self@.take(i as int),
            decreases 32 - i,
        {
            v.push(self.bytes[i]);
            i = i + 1;
            assert(self@.take(i as int) =~= self@.take(i - 1).push(self@[i - 1]));
        }
        assert(self@.take(32) =~= self@);
        v
    }
}

/// Two addresses with the same bytes are the same address.
pub proof fn lemma_address_view_injective(a: Address, b: Address)
    requires
        a@ == b@,
    ensures
        a == b,
{
    assert(a.bytes =~= b.bytes);
}

/// The views of the seeds, in order.
pub open spec fn seed_views(seeds: Seq<Vec<u8>>) -> Seq<Seq<u8>> {
    Seq::new(seeds.len(), |i: int| seeds[i]@)
}

/// The view of an address that may be absent.
pub open spec fn address_view(a: Option<Address>) -> Option<Seq<u8>> {
    match a {
        Some(a) => Some(a@),
        None => None,
    }
}

/// The address that the runtime derives for a program from a list of seeds,
/// or `None` where the seeds derive none.
pub uninterp spec fn program_address(seeds: Seq<Seq<u8>>, program_id: Seq<u8>) -> Option<Seq<u8>>;

/// Calls `Pubkey::create_program_address` of `anchor_lang`. The address it
/// returns is a function of the seeds and the program id alone (a SHA-256
/// digest that is rejected when it lies on the ed25519 curve); the contract
/// gives that function the name `program_address` and says nothing more of
/// it. Every error of the call (too many seeds, a seed that is too long, a
/// digest on the curve) comes back as `None`.
#[verifier::external_body]
fn create_program_address(seeds: &Vec<Vec<u8>>, program_id: &Address) -> (r: Option<Address>)
    ensures
        address_view(r) == program_address(seed_views(seeds@), program_id@),
{
    let parts: Vec<&[u8]> = seeds.iter().map(|seed| seed.as_slice()).collect();
    let program = anchor_lang::prelude::Pubkey::new_from_array(program_id.bytes);
    match anchor_lang::prelude::Pubkey::create_program_address(&parts, &program) {
        Ok(key) => Some(Address { bytes: key.to_bytes() }),
        Err(_) => None,
    }
}

/// The seeds of a pool's address: the pool tag, the authority, the bump.
pub open spec fn pool_seeds(authority: Seq<u8>, bump: u8) -> Seq<Seq<u8>> {
    seq![pool_tag(), authority, seq![bump]]
}

/// The seeds of a stake record's address: the stake tag, the depositor, the
/// pool's address, the bump.
pub open spec fn user_stake_seeds(user: Seq<u8>, pool: Seq<u8>, bump: u8) -> Seq<Seq<u8>> {
    seq![user_stake_tag(), user, pool, seq![bump]]
}

/// The address of the pool that `authority` creates with `bump`, derived
/// without consulting any record; `None` where this bump derives no address.
pub fn pool_address(program_id: &Address, authority: &Address, bump: u8) -> (r: Option<Address>)
    ensures
        address_view(r) == program_address(pool_seeds(authority@, bump), program_id@),
{
    let mut seeds: Vec<Vec<u8>> = Vec::new();
    seeds.push(vec![112u8, 111u8, 111u8, 108u8]);
    seeds.push(authority.to_vec());
    seeds.push(vec![bump]);
    assert(seed_views(seeds@) =~~= pool_seeds(authority@, bump));
    create_program_address(&seeds, program_id)
}

/// The address of the stake record of `user` in the pool at `pool`, derived
/// with `bump`; `None` where this bump derives no address.
pub fn user_stake_address(
    program_id: &Address,
    user: &Address,
    pool: &Address,
    bump: u8,
) -> (r: Option<Address>)
    ensures
        address_view(r) == program_address(user_stake_seeds(user@, pool@, bump), program_id@),
{
    let mut seeds: Vec<Vec<u8>> = Vec::new();
    seeds.push(vec![117u8, 115u8, 101u8, 114u8, 95u8, 115u8, 116u8, 97u8, 107u8, 101u8]);
    seeds.push(user.to_vec());
    seeds.push(pool.to_vec());
    seeds.push(vec![bump]);
    assert(seed_views(seeds@) =~~= user_stake_seeds(user@, pool@, bump));
    create_program_address(&seeds, program_id)
}

/// A derived address is a function of what it is derived from: whoever
/// derives a pool's address from the same program, authority and bump, or a
/// stake record's from the same program, depositor, pool and bump, gets the
/// same answer, without consulting any record.
pub proof fn lemma_derived_address_is_determined(
    first: Option<Address>,
    second: Option<Address>,
    seeds: Seq<Seq<u8>>,
    program_id: Seq<u8>,
)
    requires
        address_view(first) == program_address(seeds, program_id),
        address_view(second) == program_address(seeds, program_id),
    ensures
        first == second,
{
    if let Some(a) = first {
        lemma_address_view_injective(a, second->Some_0);
    }
}

} // verus!
