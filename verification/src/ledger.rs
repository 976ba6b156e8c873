//! The ledger's own encodings, reached through the ledger SDK: instruction
//! construction, signing, and the wire form of a signed transaction.
//!
//! Every function here that is marked `external_body` states what the SDK
//! does without proof. The rest of the crate is proved against those
//! statements.

use vstd::prelude::*;
use vstd::bytes::spec_u64_to_le_bytes;
use solana_sdk::instruction::{AccountMeta, Instruction};
use solana_sdk::pubkey::Pubkey;
use solana_sdk::signer::keypair::Keypair;
use solana_sdk::signer::Signer;
use solana_sdk::transaction::Transaction;
use crate::encoding::encodable;
use crate::instruction::{
    AccountRef, AccountView, Address, InstructionView, UnsignedInstruction, instruction_views,
};

verus! {

/// The 64 bytes of a signing keypair: the secret half, then the public half.
#[derive(Clone, Copy)]
pub struct PayerKeys {
    pub bytes: [u8; 64],
}

/// The recency token ("blockhash") that bounds a transaction's lifetime.
#[derive(Clone, Copy, Debug, PartialEq, Eq, Hash)]
pub struct RecencyToken {
    pub bytes: [u8; 32],
}

/// The 64 bytes of a transaction signature.
#[derive(Clone, Copy, Debug, PartialEq, Eq, Hash)]
pub struct Signature {
    pub bytes: [u8; 64],
}

/// The result of signing as a mathematical value.
pub struct SignedPartsView {
    pub signature: Seq<u8>,
    pub wire: Seq<u8>,
}

impl View for PayerKeys {
    type V = Seq<u8>;

    open spec fn view(&self) -> Seq<u8> {
        self.bytes@
    }
}

impl View for RecencyToken {
    type V = Seq<u8>;

    open spec fn view(&self) -> Seq<u8> {
        self.bytes@
    }
}

impl View for Signature {
    type V = Seq<u8>;

    open spec fn view(&self) -> Seq<u8> {
        self.bytes@
    }
}

impl PayerKeys {
    /// The address that pays and signs: the public half of the keypair.
    pub fn address(&self) -> (r: Address)
        ensures
            r@ == public_half(self@),
    {
        let mut bytes = [0u8; 32];
        let mut i: usize = 0;
        while i < 32
            invariant
                i <= 32,
                forall|j: int| 0 <= j < i ==> bytes[j] == self.bytes[j + 32],
            decreases 32 - i,
        {
            bytes[i] = self.bytes[i + 32];
            i += 1;
        }
        let r = Address { bytes };
        assert(r@ =~= public_half(self@));
        r
    }
}

impl Signature {
    /// Whether two signatures hold the same bytes.
    pub fn same(&self, other: &Signature) -> (r: bool)
        ensures
            r == (self@ == other@),
    {
        let mut i: usize = 0;
        while i < 64
            invariant
                i <= 64,
                forall|j: int| 0 <= j < i ==> self.bytes[j] == other.bytes[j],
            decreases 64 - i,
        {
            if self.bytes[i] != other.bytes[i] {
                assert(self@[i as int] != other@[i as int]);
                return false;
            }
            i += 1;
        }
        assert(self@ =~= other@);
        true
    }
}

/// The address of the system program: 32 zero bytes.
pub open spec fn system_program_id() -> Seq<u8> {
    Seq::new(32, |i: int| 0u8)
}

/// The bytes the system program reads for a transfer: the variant tag 2 as
/// four little-endian bytes, then the amount as eight.
pub open spec fn transfer_data(lamports: u64) -> Seq<u8> {
    seq![2u8, 0u8, 0u8, 0u8] + spec_u64_to_le_bytes(lamports)
}

/// A transfer of `lamports` from `from`, which signs, to `to`.
pub open spec fn transfer_view(from: Seq<u8>, to: Seq<u8>, lamports: u64) -> InstructionView {
    InstructionView {
        program_id: system_program_id(),
        accounts: seq![
            AccountView { address: from, is_signer: true, is_writable: true },
            AccountView { address: to, is_signer: false, is_writable: true },
        ],
        data: transfer_data(lamports),
    }
}

/// The public half of a keypair.
pub open spec fn public_half(keys: Seq<u8>) -> Seq<u8> {
    keys.subrange(32, 64)
}

/// Whether some instruction asks for the signature of an account other than
/// the payer.
pub open spec fn needs_other_signer(payer: Seq<u8>, instructions: Seq<InstructionView>) -> bool {
    exists|i: int, j: int|
        0 <= i < instructions.len() && 0 <= j < instructions[i].accounts.len() && (
        #[trigger] instructions[i].accounts[j]).is_signer && instructions[i].accounts[j].address
            != payer
}

/// What the SDK yields when the keypair `keys` pays for and signs a
/// transaction of `instructions` stamped with `token`: the payer's signature
/// and the transaction's wire form, or `None` where it refuses to sign.
pub uninterp spec fn signed_parts_of(
    keys: Seq<u8>,
    instructions: Seq<InstructionView>,
    token: Seq<u8>,
) -> Option<SignedPartsView>;

/// The view of an optional signing result.
pub open spec fn signed_parts_view(r: Option<([u8; 64], Vec<u8>)>) -> Option<SignedPartsView> {
    match r {
        Some(parts) => Some(SignedPartsView { signature: parts.0@, wire: parts.1@ }),
        None => None,
    }
}

/// Calls `solana_sdk::system_instruction::transfer`.
///
/// Claimed of the SDK, without proof: it builds an instruction for the
/// system program with two writable accounts, the sender as signer and then
/// the receiver, and with the transfer variant and the amount as data.
#[verifier::external_body]
pub(crate) fn system_transfer(from: &Address, to: &Address, lamports: u64) -> (r:
    UnsignedInstruction)
    ensures
        r@ == transfer_view(from@, to@, lamports),
{
    let ix = solana_sdk::system_instruction::transfer(
        &Pubkey::new_from_array(from.bytes),
        &Pubkey::new_from_array(to.bytes),
        lamports,
    );
    UnsignedInstruction {
        program_id: Address { bytes: ix.program_id.to_bytes() },
        accounts: ix.accounts.iter().map(|a| AccountRef {
            address: Address { bytes: a.pubkey.to_bytes() },
            is_signer: a.is_signer,
            is_writable: a.is_writable,
        }).collect(),
        data: ix.data,
    }
}

/// Signs and serializes one transaction with the SDK: reads the key
/// material with `Keypair::from_bytes`, compiles the instructions with
/// `Transaction::new_with_payer` for the keypair's own address as payer,
/// signs with `Transaction::try_sign`, and writes the wire form with
/// `bincode::serialize`.
///
/// Claimed of the SDK, without proof: the result depends on the three
/// arguments alone; and signing is refused where an instruction asks for a
/// signer other than the payer, whose signature slot then stays empty. The
/// SDK also refuses key material that is no keypair. It panics while
/// compiling or serializing what `encodable` leaves out.
#[verifier::external_body]
pub(crate) fn sign_and_serialize(
    keys: &PayerKeys,
    instructions: &Vec<UnsignedInstruction>,
    token: &RecencyToken,
) -> (r: Option<([u8; 64], Vec<u8>)>)
    requires
        encodable(public_half(keys@), instruction_views(instructions@)),
    ensures
        signed_parts_view(r) == signed_parts_of(keys@, instruction_views(instructions@), token@),
        needs_other_signer(public_half(keys@), instruction_views(instructions@)) ==> r is None,
{
    let keypair = Keypair::from_bytes(&keys.bytes).ok()?;
    let list: Vec<Instruction> = instructions.iter().map(|i| Instruction {
        program_id: i.program_id.bytes.into(),
        accounts: i.accounts.iter().map(|a| AccountMeta {
            pubkey: a.address.bytes.into(),
            is_signer: a.is_signer,
            is_writable: a.is_writable,
        }).collect(),
        data: i.data.clone(),
    }).collect();
    let mut tx = Transaction::new_with_payer(&list, Some(&keypair.pubkey()));
    tx.try_sign(&[&keypair], token.bytes.into()).ok()?;
    Some((tx.signatures[0].into(), bincode::serialize(&tx).ok()?))
}

} // verus!
