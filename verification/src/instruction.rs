//! Account addresses and the instructions a transaction carries, as plain
//! values.

use vstd::prelude::*;
use crate::ledger::{system_transfer, transfer_view};

verus! {

/// The 32 bytes that name an account or a program on the ledger.
#[derive(Clone, Copy, Debug, PartialEq, Eq, Hash)]
pub struct Address {
    pub bytes: [u8; 32],
}

/// One account that an instruction touches.
#[derive(Clone, Copy, Debug, PartialEq, Eq, Hash)]
pub struct AccountRef {
    pub address: Address,
    /// The transaction must be signed by this account's key.
    pub is_signer: bool,
    /// The instruction may change this account.
    pub is_writable: bool,
}

/// One operation of a transaction before signing: the program that runs it,
/// the accounts it touches, and the bytes the program reads.
#[derive(Clone, Debug, PartialEq, Eq)]
pub struct UnsignedInstruction {
    pub program_id: Address,
    pub accounts: Vec<AccountRef>,
    pub data: Vec<u8>,
}

/// An account reference as a mathematical value.
pub struct AccountView {
    pub address: Seq<u8>,
    pub is_signer: bool,
    pub is_writable: bool,
}

/// An instruction as a mathematical value.
pub struct InstructionView {
    pub program_id: Seq<u8>,
    pub accounts: Seq<AccountView>,
    pub data: Seq<u8>,
}

impl View for Address {
    type V = Seq<u8>;

    open spec fn view(&self) -> Seq<u8> {
        self.bytes@
    }
}

impl View for AccountRef {
    type V = AccountView;

    open spec fn view(&self) -> AccountView {
        AccountView {
            address: self.address@,
            is_signer: self.is_signer,
            is_writable: self.is_writable,
        }
    }
}

/// The views of a list of account references, in order.
pub open spec fn account_views(list: Seq<AccountRef>) -> Seq<AccountView> {
    Seq::new(list.len(), |i: int| list[i]@)
}

impl View for UnsignedInstruction {
    type V = InstructionView;

    open spec fn view(&self) -> InstructionView {
        InstructionView {
            program_id: self.program_id@,
            accounts: account_views(self.accounts@),
            data: self.data@,
        }
    }
}

/// The views of a list of instructions, in order.
pub open spec fn instruction_views(list: Seq<UnsignedInstruction>) -> Seq<InstructionView> {
    Seq::new(list.len(), |i: int| list[i]@)
}

impl UnsignedInstruction {
    /// A transfer of `lamports` by the system program from `from`, which
    /// must sign, to `to`.
    pub fn transfer(from: &Address, to: &Address, lamports: u64) -> (r: UnsignedInstruction)
        ensures
            r@ == transfer_view(from@, to@, lamports),
    {
        system_transfer(from, to, lamports)
    }

    /// A second instruction with the same content.
    pub fn copy(&self) -> (r: UnsignedInstruction)
        ensures
            r@ == self@,
    {
        UnsignedInstruction {
            program_id: self.program_id,
            accounts: self.accounts.clone(),
            data: self.data.clone(),
        }
    }
}

impl Address {
    /// Whether two addresses hold the same bytes.
    pub fn same(&self, other: &Address) -> (r: bool)
        ensures
            r == (self@ == other@),
    {
        let mut i: usize = 0;
        while i < 32
            invariant
                i <= 32,
                forall|j: int| 0 <= j < i ==> self.bytes[j] == other.bytes[j],
            decreases 32 - i,
        {
            if self.bytes[i] != other.bytes[i] {
                assert(self@[i as int] != other@[i as int]);
                return false;
            }
            i += 1;
        }
        assert(self@ =~= other@);
        true
    }
}

} // verus!
