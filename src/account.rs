use vstd::prelude::*;

verus! {

/// A 32-byte account address.
#[derive(Clone, Copy, Debug)]
pub struct Key {
    pub bytes: [u8; 32],
}

impl View for Key {
    type V = Seq<u8>;

    open spec fn view(&self) -> Seq<u8> {
        self.bytes@
    }
}

impl Key {
    pub fn new(bytes: [u8; 32]) -> (r: Key)
        ensures
            r@ == bytes@,
    {
        Key { bytes }
    }

    /// Byte-wise address equality.
    pub fn equals(&self, other: &Key) -> (r: bool)
        ensures
            r == (self@ == other@),
    {
        let mut i: usize = 0;
        while i < 32
            invariant
                i <= 32,
                self@.len() == 32,
                other@.len() == 32,
                forall|j: int| 0 <= j < i ==> self@[j] == other@[j],
            decreases 32 - i,
        {
            if self.bytes[i] != other.bytes[i] {
                return false;
            }
            i = i + 1;
        }
        proof {
            assert(self@ =~= other@);
        }
        true
    }

    /// The address as a byte vector, e.g. to serve as a seed.
    pub fn to_vec(&self) -> (r: Vec<u8>)
        ensures
            r@ == self@,
    {
        let mut v: Vec<u8> = Vec::new();
        let mut i: usize = 0;
        while i < 32
            invariant
                i <= 32,
                self@.len() == 32,
                v@ == self@.subrange(0, i as int),
            decreases 32 - i,
        {
            v.push(self.bytes[i]);
            i = i + 1;
        }
        proof {
            assert(self@.subrange(0, 32) =~= self@);
        }
        v
    }
}

/// What the runtime tells about one account handed to an instruction.
#[derive(Clone, Copy, Debug)]
pub struct AccountInput {
    pub key: Key,
    pub owner: Key,
    pub is_signer: bool,
    pub is_writable: bool,
    pub executable: bool,
}

/// One entry of the account list of an instruction.
#[derive(Clone, Copy, Debug)]
pub struct Meta {
    pub key: Key,
    pub is_signer: bool,
    pub is_writable: bool,
}

pub open spec fn meta(key: Key, is_signer: bool, is_writable: bool) -> Meta {
    Meta { key, is_signer, is_writable }
}

/// The addresses that an account list names, in order.
pub open spec fn meta_keys(s: Seq<Meta>) -> Seq<Seq<u8>> {
    s.map_values(|m: Meta| m.key@)
}

/// The addresses of a sequence of accounts, in order.
pub open spec fn input_keys(s: Seq<AccountInput>) -> Seq<Seq<u8>> {
    s.map_values(|a: AccountInput| a.key@)
}

/// An instruction addressed to another program: its id, its account list and
/// its data.
#[derive(Clone, Debug)]
pub struct ForwardCall {
    pub program_id: Key,
    pub metas: Vec<Meta>,
    pub data: Vec<u8>,
}

/// The addresses of the programs and sysvars that the schemas name.
#[derive(Clone, Copy, Debug)]
pub struct ProgramIds {
    pub whirlpool: Key,
    pub token: Key,
    pub system: Key,
    pub rent: Key,
    pub associated_token: Key,
}

} // verus!
