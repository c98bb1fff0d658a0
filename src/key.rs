use vstd::prelude::*;

use anchor_lang::prelude::Pubkey;

verus! {

/// The 32 bytes of an account address.
#[derive(Copy, Clone, Debug)]
pub struct AccountKey {
    pub bytes: [u8; 32],
}

impl View for AccountKey {
    type V = Seq<u8>;

    open spec fn view(&self) -> Seq<u8> {
        self.bytes@
    }
}

impl PartialEq for AccountKey {
    fn eq(&self, other: &AccountKey) -> (r: bool) {
        let mut i: usize = 0;
        while i < 32
            invariant
                0 <= i <= 32,
                self.bytes@.len() == 32,
                other.bytes@.len() == 32,
                forall|j: int| 0 <= j < i ==> self.bytes@[j] == other.bytes@[j],
            decreases 32 - i,
        {
            if self.bytes[i] != other.bytes[i] {
                return false;
            }
            i = i + 1;
        }
        assert(self.bytes@ =~= other.bytes@);
        true
    }
}

impl vstd::std_specs::cmp::PartialEqSpecImpl for AccountKey {
    open spec fn obeys_eq_spec() -> bool {
        true
    }

    open spec fn eq_spec(&self, other: &AccountKey) -> bool {
        self@ == other@
    }
}

impl AccountKey {
    /// Whether `self` and `other` name the same account.
    pub fn same(&self, other: &AccountKey) -> (r: bool)
        ensures
            r == (self@ == other@),
    {
        *self == *other
    }

    /// The address as a list of bytes.
    pub fn to_vec(&self) -> (r: Vec<u8>)
        ensures
            r@ == self@,
    {
        let mut bytes: Vec<u8> = Vec::new();
        let mut i: usize = 0;
        while i < 32
            invariant
                0 <= i <= 32,
                self.bytes@.len() == 32,
                bytes@ == self.bytes@.take(i as int),
            decreases 32 - i,
        {
            bytes.push(self.bytes[i]);
            assert(bytes@ =~= self.bytes@.take(i as int + 1));
            i = i + 1;
        }
        assert(bytes@ =~= self.bytes@);
        bytes
    }

    /// Whether `o` holds the account `self`.
    pub fn held_by(&self, o: &Option<AccountKey>) -> (r: bool)
        ensures
            r == (o is Some && o->Some_0@ == self@),
    {
        match o {
            Some(k) => k.same(self),
            None => false,
        }
    }
}

/// The address and bump seed that `Pubkey::try_find_program_address` finds for
/// `seeds` under the program `program`.
pub uninterp spec fn program_address(seeds: Seq<Seq<u8>>, program: Seq<u8>) -> Option<(Seq<u8>, u8)>;

/// Relies on solana_program's `Pubkey::try_find_program_address`: the address
/// and bump it finds are determined by the seeds and the program id.
#[verifier::external_body]
fn find_program_address(seeds: &Vec<Vec<u8>>, program: &AccountKey) -> (r: Option<(AccountKey, u8)>)
    ensures
        match r {
            Some(found) => program_address(seeds.deep_view(), program@) == Some((found.0@, found.1)),
            None => program_address(seeds.deep_view(), program@) is None,
        },
{
    let refs: Vec<&[u8]> = seeds.iter().map(|s| s.as_slice()).collect();
    match Pubkey::try_find_program_address(&refs, &Pubkey::new_from_array(program.bytes)) {
        Some((key, bump)) => Some((AccountKey { bytes: key.to_bytes() }, bump)),
        None => None,
    }
}

/// The address of this program.
pub open spec fn program_id_bytes() -> Seq<u8> {
    seq![
        166u8, 107, 45, 131, 140, 49, 163, 173, 121, 152, 121, 197, 83, 57, 241, 19, 121, 224, 129,
        186, 249, 177, 187, 9, 219, 107, 79, 244, 117, 195, 250, 26,
    ]
}

/// The address of this program.
pub fn program_id() -> (r: AccountKey)
    ensures
        r@ == program_id_bytes(),
{
    let r = AccountKey {
        bytes: [
            166, 107, 45, 131, 140, 49, 163, 173, 121, 152, 121, 197, 83, 57, 241, 19, 121, 224,
            129, 186, 249, 177, 187, 9, 219, 107, 79, 244, 117, 195, 250, 26,
        ],
    };
    assert(r@ =~= program_id_bytes());
    r
}

/// `x` in eight bytes, most significant first.
pub open spec fn be_bytes(x: u64) -> Seq<u8> {
    Seq::new(8, |i: int| (x >> (((7 - i) * 8) as u64)) as u8)
}

/// `x` in eight bytes, most significant first.
pub fn to_be_bytes(x: u64) -> (r: Vec<u8>)
    ensures
        r@ == be_bytes(x),
{
    let mut bytes: Vec<u8> = Vec::new();
    let mut i: u64 = 0;
    while i < 8
        invariant
            0 <= i <= 8,
            bytes@ == be_bytes(x).take(i as int),
        decreases 8 - i,
    {
        bytes.push((x >> ((7 - i) * 8)) as u8);
        assert(bytes@ =~= be_bytes(x).take(i as int + 1));
        i = i + 1;
    }
    assert(bytes@ =~= be_bytes(x));
    bytes
}

/// The program address derived from `seeds` under this program.
pub fn derive_address(seeds: Vec<Vec<u8>>) -> (r: Option<(AccountKey, u8)>)
    ensures
        match r {
            Some(found) => program_address(seeds.deep_view(), program_id_bytes()) == Some(
                (found.0@, found.1),
            ),
            None => program_address(seeds.deep_view(), program_id_bytes()) is None,
        },
{
    let id = program_id();
    find_program_address(&seeds, &id)
}

} // verus!
