//! The faucet's custody authority: the program-derived signing identity that
//! alone may debit a faucet's vault, and the token transfers that the
//! instructions ask the host ledger to perform.
use vstd::prelude::*;
use crate::address::Address;
use crate::state::{FaucetState, FaucetView};

verus! {

/// The first seed of every faucet address: the bytes of `faucet`.
pub open spec fn faucet_seed() -> Seq<u8> {
    seq![102u8, 97u8, 117u8, 99u8, 101u8, 116u8]
}

/// The capability to sign for a faucet's vault. Its fields are private, so the
/// only way to hold one is to have it derived by this library from the
/// faucet's own record.
#[derive(Clone, Debug, PartialEq, Eq)]
pub struct CustodyAuthority {
    faucet: Address,
    authority: Address,
    name: Vec<u8>,
    bump: u8,
}

/// The mathematical value of a [`CustodyAuthority`].
pub struct CustodyView {
    /// The faucet account, which is the signing address.
    pub faucet: Address,
    pub authority: Address,
    pub name: Seq<u8>,
    pub bump: u8,
}

impl View for CustodyAuthority {
    type V = CustodyView;

    closed spec fn view(&self) -> CustodyView {
        CustodyView { faucet: self.faucet, authority: self.authority, name: self.name@, bump: self.bump }
    }
}

/// The custody authority of the faucet stored at `faucet` with record `f`: it
/// is fixed by the authority and name the faucet's address was derived from,
/// and the bump, none of which any instruction changes after creation.
pub open spec fn custody_of(faucet: Address, f: FaucetView) -> CustodyView {
    CustodyView { faucet, authority: f.seed_authority, name: f.seed_name, bump: f.bump }
}

/// The seeds that reproduce the custody address: `faucet`, the authority's
/// bytes, the name, and the bump.
pub open spec fn custody_seeds(c: CustodyView) -> Seq<Seq<u8>> {
    seq![faucet_seed(), c.authority.bytes@, c.name, seq![c.bump]]
}

impl CustodyAuthority {
    pub(crate) fn derive(faucet: Address, state: &FaucetState) -> (r: CustodyAuthority)
        ensures
            r@ == custody_of(faucet, state@),
    {
        CustodyAuthority {
            faucet,
            authority: state.seed_authority,
            name: state.seed_name.clone(),
            bump: state.bump,
        }
    }

    /// The address that signs: the faucet account itself.
    pub fn address(&self) -> (r: Address)
        ensures
            r == self@.faucet,
    {
        self.faucet
    }

    /// The signer seeds, in order.
    pub fn seeds(&self) -> (r: Vec<Vec<u8>>)
        ensures
            r@.len() == 4,
            forall|i: int| 0 <= i < 4 ==> r@[i]@ == #[trigger] custody_seeds(self@)[i],
    {
        let mut authority_bytes: Vec<u8> = Vec::new();
        let mut i: usize = 0;
        while i < 32
            invariant
                0 <= i <= 32,
                authority_bytes@ == self.authority.bytes@.subrange(0, i as int),
            decreases 32 - i,
        {
            authority_bytes.push(self.authority.bytes[i]);
            i = i + 1;
        }
        assert(authority_bytes@ =~= self.authority.bytes@);
        let mut r: Vec<Vec<u8>> = Vec::new();
        r.push(vec![102u8, 97u8, 117u8, 99u8, 101u8, 116u8]);
        r.push(authority_bytes);
        r.push(self.name.clone());
        r.push(vec![self.bump]);
        assert(r@[0]@ =~= faucet_seed());
        assert(r@[3]@ =~= seq![self.bump]);
        r
    }
}

/// Who authorizes a token transfer.
#[derive(Clone, Debug, PartialEq, Eq)]
pub enum TransferSigner {
    /// The owner of the source balance signed the instruction.
    Owner(Address),
    /// The faucet's custody authority signs with its seeds.
    Custody(CustodyAuthority),
}

/// One call of the ledger's token-transfer primitive, which moves `amount`
/// from `from` to `to` atomically or fails the whole instruction.
#[derive(Clone, Debug, PartialEq, Eq)]
pub struct TokenTransfer {
    pub from: Address,
    pub to: Address,
    pub amount: u64,
    pub signer: TransferSigner,
}

/// A transfer out of the faucet's vault, signed by its custody authority.
pub open spec fn is_custody_transfer(
    t: TokenTransfer,
    faucet: Address,
    f: FaucetView,
    from: Address,
    to: Address,
    amount: u64,
) -> bool {
    &&& t.from == from
    &&& t.to == to
    &&& t.amount == amount
    &&& t.signer matches TransferSigner::Custody(c) && c@ == custody_of(faucet, f)
}

pub(crate) fn custody_transfer(
    faucet: Address,
    state: &FaucetState,
    from: Address,
    to: Address,
    amount: u64,
) -> (r: TokenTransfer)
    ensures
        is_custody_transfer(r, faucet, state@, from, to, amount),
{
    TokenTransfer {
        from,
        to,
        amount,
        signer: TransferSigner::Custody(CustodyAuthority::derive(faucet, state)),
    }
}

} // verus!
