use vstd::prelude::*;

verus! {

broadcast use vstd::array::group_array_axioms;

/// Which kind of account a key names: a user account or a contract.
#[derive(Clone, Copy, Debug, PartialEq, Eq, Structural)]
pub enum KeyKind {
    Account,
    Hash,
}

/// An address on the chain: its kind and its 32-byte hash.
#[derive(Clone, Copy, Debug, PartialEq, Eq)]
pub struct Key {
    pub kind: KeyKind,
    pub addr: [u8; 32],
}

/// A purse on the chain: its 32-byte address and its access rights.
#[derive(Clone, Copy, Debug)]
pub struct Purse {
    pub addr: [u8; 32],
    pub access_rights: u8,
}

impl View for Key {
    type V = Key;

    open spec fn view(&self) -> Key {
        *self
    }
}

/// The address that stands for "nobody": a contract hash of 32 zero bytes.
pub open spec fn spec_zero_address() -> Key {
    Key { kind: KeyKind::Hash, addr: spec_zero_bytes() }
}

/// 32 zero bytes.
pub open spec fn spec_zero_bytes() -> [u8; 32] {
    choose|a: [u8; 32]| a@ == Seq::new(32, |i: int| 0u8)
}

impl Key {
    /// An account key over the given hash.
    pub fn account(addr: [u8; 32]) -> (r: Key)
        ensures
            r.kind == KeyKind::Account,
            r.addr == addr,
    {
        Key { kind: KeyKind::Account, addr }
    }

    /// A contract key over the given hash.
    pub fn hash(addr: [u8; 32]) -> (r: Key)
        ensures
            r.kind == KeyKind::Hash,
            r.addr == addr,
    {
        Key { kind: KeyKind::Hash, addr }
    }

    /// Whether two keys are the same address.
    pub fn same(&self, other: &Key) -> (r: bool)
        ensures
            r == (*self == *other),
    {
        if self.kind != other.kind {
            return false;
        }
        let mut i: usize = 0;
        while i < 32
            invariant
                0 <= i <= 32,
                forall|j: int| 0 <= j < i ==> self.addr@[j] == other.addr@[j],
            decreases 32 - i,
        {
            if self.addr[i] != other.addr[i] {
                return false;
            }
            i = i + 1;
        }
        assert(self.addr =~= other.addr);
        true
    }

    /// Whether the key names a contract rather than an account.
    pub fn is_contract(&self) -> (r: bool)
        ensures
            r == (self.kind == KeyKind::Hash),
    {
        match self.kind {
            KeyKind::Hash => true,
            KeyKind::Account => false,
        }
    }
}

/// The zero address.
pub fn zero_address() -> (r: Key)
    ensures
        r == spec_zero_address(),
{
    let z: [u8; 32] = [0u8; 32];
    assert(z@ =~= Seq::new(32, |i: int| 0u8));
    let k = Key { kind: KeyKind::Hash, addr: z };
    assert(k.addr == spec_zero_bytes());
    k
}

/// The contract hash a key names: its hash for a contract key, 32 zero
/// bytes for an account key.
pub open spec fn spec_contract_hash_of(key: Key) -> [u8; 32] {
    if key.kind == KeyKind::Hash {
        key.addr
    } else {
        spec_zero_bytes()
    }
}

/// The contract hash a key names, 32 zero bytes for an account key.
pub fn contract_hash_of(key: &Key) -> (r: [u8; 32])
    ensures
        r == spec_contract_hash_of(*key),
{
    if key.is_contract() {
        key.addr
    } else {
        zero_address().addr
    }
}

/// The contract hash of a contract key; refused for an account key.
pub fn convert_to_contract_hash(key: &Key) -> (r: Result<[u8; 32], crate::types::StakeError>)
    ensures
        r is Ok <==> key.kind == KeyKind::Hash,
        r matches Ok(h) ==> h == key.addr,
        r matches Err(e) ==> e == crate::types::StakeError::UnexpectedKeyVariant,
{
    if key.is_contract() {
        Ok(key.addr)
    } else {
        Err(crate::types::StakeError::UnexpectedKeyVariant)
    }
}

/// Whether an address is not the zero address.
pub fn non_zero_address(key: &Key) -> (r: bool)
    ensures
        r == (*key != spec_zero_address()),
{
    let z = zero_address();
    !key.same(&z)
}

} // verus!
