//! The bundle builder: an ordered group of signed transactions that all
//! carry one recency token and each end with a tip transfer.

use vstd::prelude::*;
use vstd::bytes::{lemma_auto_spec_u64_to_from_le_bytes, spec_u64_to_le_bytes};
use crate::encoding::{MAX_WIRE_LIST, encodable, lemma_encodable_within};
use crate::instruction::{Address, InstructionView, UnsignedInstruction, instruction_views};
use crate::ledger::{
    PayerKeys, RecencyToken, Signature, needs_other_signer, public_half, sign_and_serialize,
    signed_parts_of, system_program_id, system_transfer, transfer_data, transfer_view,
};

verus! {

/// The most transactions the relay executes as one bundle.
pub const MAX_BUNDLE_SIZE: usize = 5;

/// The amount, in lamports, of each payment to the recipient.
pub const PAYMENT_LAMPORTS: u64 = 1_000;

/// Why a bundle could not be built.
#[derive(Clone, Copy, Debug, PartialEq, Eq, Structural)]
pub enum BundleError {
    /// The number of transactions is zero or above `MAX_BUNDLE_SIZE`.
    InvalidBundleSize,
    /// The key material is not a keypair, or an instruction needs the
    /// signature of a key that was not given.
    SigningError,
}

/// One signed transaction of a bundle.
pub struct SignedTransaction {
    payer: Address,
    instructions: Vec<UnsignedInstruction>,
    recency_token: RecencyToken,
    signature: Signature,
    wire: Vec<u8>,
}

/// A signed transaction as a mathematical value.
pub struct SignedTransactionView {
    /// The address that pays and signs.
    pub payer: Seq<u8>,
    /// The instructions, in order.
    pub instructions: Seq<InstructionView>,
    /// The recency token the transaction is stamped with.
    pub recency_token: Seq<u8>,
    /// The payer's signature.
    pub signature: Seq<u8>,
    /// The bytes that are sent to the relay.
    pub wire: Seq<u8>,
}

impl View for SignedTransaction {
    type V = SignedTransactionView;

    closed spec fn view(&self) -> SignedTransactionView {
        SignedTransactionView {
            payer: self.payer@,
            instructions: instruction_views(self.instructions@),
            recency_token: self.recency_token@,
            signature: self.signature@,
            wire: self.wire@,
        }
    }
}

/// The view of what signing one transaction gave.
pub open spec fn signed_view(signed: Option<SignedTransaction>) -> Option<SignedTransactionView> {
    match signed {
        Some(tx) => Some(tx@),
        None => None,
    }
}

/// The views of what signing each transaction gave, in order.
pub open spec fn signed_views(list: Seq<Option<SignedTransaction>>) -> Seq<
    Option<SignedTransactionView>,
> {
    Seq::new(list.len(), |i: int| signed_view(list[i]))
}

/// The instructions of one transaction: what the caller supplied, then the
/// tip transfer from the payer.
pub open spec fn with_tip(
    supplied: Seq<InstructionView>,
    payer: Seq<u8>,
    tip_account: Seq<u8>,
    tip_lamports: u64,
) -> Seq<InstructionView> {
    supplied.push(transfer_view(payer, tip_account, tip_lamports))
}

/// `count` payments of `PAYMENT_LAMPORTS` from `payer` to `recipient`.
pub open spec fn payments(payer: Seq<u8>, recipient: Seq<u8>, count: nat) -> Seq<InstructionView> {
    Seq::new(count, |j: int| transfer_view(payer, recipient, PAYMENT_LAMPORTS))
}

/// The signed transaction that `keys` yields for the supplied instructions,
/// where the ledger SDK signs.
pub open spec fn signed_transaction_of(
    keys: Seq<u8>,
    supplied: Seq<InstructionView>,
    tip_account: Seq<u8>,
    tip_lamports: u64,
    token: Seq<u8>,
) -> Option<SignedTransactionView> {
    let instructions = with_tip(supplied, public_half(keys), tip_account, tip_lamports);
    match signed_parts_of(keys, instructions, token) {
        Some(parts) => Some(
            SignedTransactionView {
                payer: public_half(keys),
                instructions,
                recency_token: token,
                signature: parts.signature,
                wire: parts.wire,
            },
        ),
        None => None,
    }
}

/// The instructions of one transaction: a copy of what the caller supplied,
/// then the transfer of the tip from the payer to the tip account.
pub fn tipped_instructions(
    payer: &Address,
    supplied: &Vec<UnsignedInstruction>,
    tip_account: &Address,
    tip_lamports: u64,
) -> (r: Vec<UnsignedInstruction>)
    ensures
        instruction_views(r@) == with_tip(
            instruction_views(supplied@),
            payer@,
            tip_account@,
            tip_lamports,
        ),
{
    let mut instructions: Vec<UnsignedInstruction> = Vec::new();
    let mut i: usize = 0;
    while i < supplied.len()
        invariant
            i <= supplied.len(),
            instructions.len() == i,
            forall|j: int| 0 <= j < i ==> instructions[j]@ == supplied[j]@,
        decreases supplied.len() - i,
    {
        instructions.push(supplied[i].copy());
        i += 1;
    }
    instructions.push(system_transfer(payer, tip_account, tip_lamports));
    assert(instruction_views(instructions@) =~= with_tip(
        instruction_views(supplied@),
        payer@,
        tip_account@,
        tip_lamports,
    ));
    instructions
}

/// `count` payments of `PAYMENT_LAMPORTS` from `payer` to `recipient`.
pub fn payment_instructions(payer: &Address, recipient: &Address, count: usize) -> (r: Vec<
    UnsignedInstruction,
>)
    ensures
        instruction_views(r@) == payments(payer@, recipient@, count as nat),
{
    let mut list: Vec<UnsignedInstruction> = Vec::new();
    let mut j: usize = 0;
    while j < count
        invariant
            j <= count,
            list.len() == j,
            forall|k: int|
                0 <= k < j ==> (#[trigger] list[k])@ == transfer_view(
                    payer@,
                    recipient@,
                    PAYMENT_LAMPORTS,
                ),
        decreases count - j,
    {
        list.push(system_transfer(payer, recipient, PAYMENT_LAMPORTS));
        j += 1;
    }
    assert(instruction_views(list@) =~= payments(payer@, recipient@, count as nat));
    list
}

impl SignedTransaction {
    /// A signed transaction of these parts.
    pub fn from_parts(
        payer: Address,
        instructions: Vec<UnsignedInstruction>,
        recency_token: RecencyToken,
        signature: Signature,
        wire: Vec<u8>,
    ) -> (r: SignedTransaction)
        ensures
            r@ == (SignedTransactionView {
                payer: payer@,
                instructions: instruction_views(instructions@),
                recency_token: recency_token@,
                signature: signature@,
                wire: wire@,
            }),
    {
        SignedTransaction { payer, instructions, recency_token, signature, wire }
    }

    /// Signs one transaction: the supplied instructions followed by the tip
    /// transfer, paid for by the keypair's own address. There is no
    /// transaction where the ledger SDK refuses to sign, as it does where
    /// an instruction asks for a signer other than the payer.
    pub fn sign(
        keys: &PayerKeys,
        supplied: &Vec<UnsignedInstruction>,
        tip_account: &Address,
        tip_lamports: u64,
        token: &RecencyToken,
    ) -> (r: Option<SignedTransaction>)
        requires
            encodable(
                public_half(keys@),
                with_tip(instruction_views(supplied@), public_half(keys@), tip_account@, tip_lamports),
            ),
        ensures
            signed_view(r) == signed_transaction_of(
                keys@,
                instruction_views(supplied@),
                tip_account@,
                tip_lamports,
                token@,
            ),
            needs_other_signer(public_half(keys@), instruction_views(supplied@)) ==> r is None,
    {
        let payer = keys.address();
        let instructions = tipped_instructions(&payer, supplied, tip_account, tip_lamports);
        proof {
            let given = instruction_views(supplied@);
            let all = instruction_views(instructions@);
            if needs_other_signer(public_half(keys@), given) {
                let (i, j) = choose|i: int, j: int|
                    0 <= i < given.len() && 0 <= j < given[i].accounts.len() && (
                    #[trigger] given[i].accounts[j]).is_signer && given[i].accounts[j].address
                        != public_half(keys@);
                assert(all[i] == given[i]);
                assert(all[i].accounts[j].is_signer);
            }
        }
        match sign_and_serialize(keys, &instructions, token) {
            Some(parts) => {
                let (bytes, wire) = parts;
                Some(
                    SignedTransaction::from_parts(
                        payer,
                        instructions,
                        *token,
                        Signature { bytes },
                        wire,
                    ),
                )
            },
            None => None,
        }
    }
}

/// An ordered group of 1 to `MAX_BUNDLE_SIZE` signed transactions that the
/// relay executes together or not at all.
pub struct Bundle {
    transactions: Vec<SignedTransaction>,
    tip_account: Address,
    tip_lamports: u64,
}

/// A bundle as a mathematical value.
pub struct BundleView {
    /// The transactions, in the order of execution.
    pub transactions: Seq<SignedTransactionView>,
    /// The account that every transaction tips.
    pub tip_account: Seq<u8>,
    /// The amount that every transaction tips.
    pub tip_lamports: u64,
}

impl View for Bundle {
    type V = BundleView;

    closed spec fn view(&self) -> BundleView {
        BundleView {
            transactions: Seq::new(self.transactions@.len(), |i: int| self.transactions@[i]@),
            tip_account: self.tip_account@,
            tip_lamports: self.tip_lamports,
        }
    }
}

/// The identity of a submitted bundle: the signature of each of its
/// transactions, in order.
#[derive(Clone, Debug, PartialEq, Eq)]
pub struct BundleIdentity {
    pub signatures: Vec<Signature>,
}

impl View for BundleIdentity {
    type V = Seq<Seq<u8>>;

    open spec fn view(&self) -> Seq<Seq<u8>> {
        Seq::new(self.signatures@.len(), |i: int| self.signatures@[i]@)
    }
}

impl BundleIdentity {
    /// Whether two identities list the same signatures in the same order.
    pub fn same(&self, other: &BundleIdentity) -> (r: bool)
        ensures
            r == (self@ == other@),
    {
        if self.signatures.len() != other.signatures.len() {
            assert(self@.len() != other@.len());
            return false;
        }
        let mut i: usize = 0;
        while i < self.signatures.len()
            invariant
                i <= self.signatures.len(),
                self.signatures.len() == other.signatures.len(),
                forall|j: int| 0 <= j < i ==> self.signatures[j]@ == other.signatures[j]@,
            decreases self.signatures.len() - i,
        {
            if !self.signatures[i].same(&other.signatures[i]) {
                assert(self@[i as int] != other@[i as int]);
                return false;
            }
            i += 1;
        }
        assert(self@ =~= other@);
        true
    }
}

impl BundleView {
    /// What every bundle satisfies: its size is within bounds, its
    /// transactions share one payer and one recency token, and each ends
    /// with the tip transfer.
    pub open spec fn well_formed(self) -> bool {
        &&& 1 <= self.transactions.len() <= MAX_BUNDLE_SIZE
        &&& forall|i: int|
            0 <= i < self.transactions.len() ==> {
                &&& (#[trigger] self.transactions[i]).payer == self.transactions[0].payer
                &&& self.transactions[i].recency_token == self.transactions[0].recency_token
                &&& ends_with_tip(self.transactions[i], self.tip_account, self.tip_lamports)
            }
    }

    /// The signatures of the transactions, in order.
    pub open spec fn identity(self) -> Seq<Seq<u8>> {
        Seq::new(self.transactions.len(), |i: int| self.transactions[i].signature)
    }

    /// The wire forms of the transactions, in order.
    pub open spec fn wire_transactions(self) -> Seq<Seq<u8>> {
        Seq::new(self.transactions.len(), |i: int| self.transactions[i].wire)
    }
}

/// Whether the last instruction of a transaction is the transfer of the
/// tip from its payer to the tip account.
pub open spec fn ends_with_tip(
    tx: SignedTransactionView,
    tip_account: Seq<u8>,
    tip_lamports: u64,
) -> bool {
    tx.instructions.len() >= 1 && tx.instructions.last() == transfer_view(
        tx.payer,
        tip_account,
        tip_lamports,
    )
}

/// Whether the transactions that were signed can stand in one bundle: they
/// share one payer and one recency token, and each ends with the tip.
pub open spec fn fit_together(
    signed: Seq<Option<SignedTransactionView>>,
    tip_account: Seq<u8>,
    tip_lamports: u64,
) -> bool {
    forall|i: int, j: int|
        0 <= i < signed.len() && 0 <= j < signed.len() && (#[trigger] signed[i]) is Some && (
        #[trigger] signed[j]) is Some ==> {
            &&& signed[i]->0.payer == signed[j]->0.payer
            &&& signed[i]->0.recency_token == signed[j]->0.recency_token
            &&& ends_with_tip(signed[i]->0, tip_account, tip_lamports)
        }
}

/// The bundle of what signing each transaction gave, or the reason why
/// there is none: the size, where the count is zero or above
/// `MAX_BUNDLE_SIZE`; else the signing, where a transaction is missing.
pub open spec fn collected(
    signed: Seq<Option<SignedTransactionView>>,
    tip_account: Seq<u8>,
    tip_lamports: u64,
) -> Result<BundleView, BundleError> {
    if signed.len() == 0 || signed.len() > MAX_BUNDLE_SIZE {
        Err(BundleError::InvalidBundleSize)
    } else if exists|i: int| 0 <= i < signed.len() && (#[trigger] signed[i]) is None {
        Err(BundleError::SigningError)
    } else {
        Ok(
            BundleView {
                transactions: Seq::new(signed.len(), |i: int| signed[i]->0),
                tip_account,
                tip_lamports,
            },
        )
    }
}

/// The bundle that `keys` yields for one supplied instruction list per
/// transaction, or the reason why there is none.
pub open spec fn assembled(
    keys: Seq<u8>,
    supplied: Seq<Seq<InstructionView>>,
    tip_account: Seq<u8>,
    tip_lamports: u64,
    token: Seq<u8>,
) -> Result<BundleView, BundleError> {
    collected(
        Seq::new(
            supplied.len(),
            |i: int| signed_transaction_of(keys, supplied[i], tip_account, tip_lamports, token),
        ),
        tip_account,
        tip_lamports,
    )
}

/// The bundle of `tx_count` transactions that each pay `recipient`
/// `instructions_per_tx` times, or the reason why there is none.
pub open spec fn built(
    keys: Seq<u8>,
    recipient: Seq<u8>,
    tip_account: Seq<u8>,
    tip_lamports: u64,
    token: Seq<u8>,
    instructions_per_tx: nat,
    tx_count: nat,
) -> Result<BundleView, BundleError> {
    assembled(
        keys,
        Seq::new(tx_count, |i: int| payments(public_half(keys), recipient, instructions_per_tx)),
        tip_account,
        tip_lamports,
        token,
    )
}

/// The views of several instruction lists, in order.
pub open spec fn instruction_set_views(sets: Seq<Vec<UnsignedInstruction>>) -> Seq<
    Seq<InstructionView>,
> {
    Seq::new(sets.len(), |i: int| instruction_views(sets[i]@))
}

/// Whether each supplied list, with the tip transfer added, can be compiled
/// into one transaction paid by `payer`.
pub open spec fn all_encodable(
    payer: Seq<u8>,
    supplied: Seq<Seq<InstructionView>>,
    tip_account: Seq<u8>,
    tip_lamports: u64,
) -> bool {
    forall|i: int|
        0 <= i < supplied.len() ==> encodable(
            payer,
            with_tip(#[trigger] supplied[i], payer, tip_account, tip_lamports),
        )
}

/// The view of a bundle or of the reason why there is none.
pub open spec fn bundle_result_view(r: Result<Bundle, BundleError>) -> Result<
    BundleView,
    BundleError,
> {
    match r {
        Ok(bundle) => Ok(bundle@),
        Err(e) => Err(e),
    }
}

impl Bundle {
    /// Gathers what signing each transaction gave into a bundle. The
    /// bundle is refused for its size where the count is zero or above
    /// `MAX_BUNDLE_SIZE`, and else for its signing where a transaction is
    /// missing.
    pub fn from_signed(
        signed: Vec<Option<SignedTransaction>>,
        tip_account: Address,
        tip_lamports: u64,
    ) -> (r: Result<Bundle, BundleError>)
        requires
            fit_together(signed_views(signed@), tip_account@, tip_lamports),
        ensures
            bundle_result_view(r) == collected(signed_views(signed@), tip_account@, tip_lamports),
            r matches Ok(bundle) ==> bundle@.well_formed(),
            forall|i: int|
                1 <= signed.len() <= MAX_BUNDLE_SIZE && 0 <= i < signed.len() && (
                #[trigger] signed[i]) is None ==> r matches Err(BundleError::SigningError),
    {
        let ghost given = signed_views(signed@);
        assert forall|i: int| 0 <= i < signed.len() && (#[trigger] signed[i]) is None implies given[i]
            is None by {}
        if signed.len() == 0 || signed.len() > MAX_BUNDLE_SIZE {
            return Err(BundleError::InvalidBundleSize);
        }
        let count = signed.len();
        let mut rest = signed;
        let mut reversed: Vec<SignedTransaction> = Vec::new();
        while rest.len() > 0
            invariant
                rest.len() + reversed.len() == count,
                1 <= count <= MAX_BUNDLE_SIZE,
                given == signed_views(signed@),
                given.len() == count,
                signed_views(rest@) == given.take(rest.len() as int),
                forall|k: int|
                    0 <= k < reversed.len() ==> Some((#[trigger] reversed[k])@) == given[count - 1
                        - k],
            decreases rest.len(),
        {
            let ghost before = rest@;
            let last = rest.pop();
            proof {
                assert(signed_views(before)[before.len() - 1] == signed_view(before.last()));
                assert(signed_views(rest@) =~= given.take(rest.len() as int)) by {
                    assert forall|k: int| 0 <= k < rest.len() implies signed_views(rest@)[k]
                        == given[k] by {
                        assert(signed_views(before)[k] == given[k]);
                    }
                }
            }
            match last {
                Some(Some(tx)) => {
                    reversed.push(tx);
                },
                _ => {
                    assert(given[rest.len() as int] is None);
                    return Err(BundleError::SigningError);
                },
            }
        }
        let mut transactions: Vec<SignedTransaction> = Vec::new();
        while reversed.len() > 0
            invariant
                transactions.len() + reversed.len() == count,
                given.len() == count,
                forall|k: int|
                    0 <= k < reversed.len() ==> Some((#[trigger] reversed[k])@) == given[count - 1
                        - k],
                forall|k: int|
                    0 <= k < transactions.len() ==> Some((#[trigger] transactions[k])@) == given[k],
            decreases reversed.len(),
        {
            let ghost before = reversed@;
            match reversed.pop() {
                Some(tx) => {
                    assert(tx == before[before.len() - 1]);
                    transactions.push(tx);
                },
                None => {},
            }
        }
        let bundle = Bundle { transactions, tip_account, tip_lamports };
        proof {
            let want = collected(given, tip_account@, tip_lamports);
            assert forall|k: int| 0 <= k < given.len() implies (#[trigger] given[k]) is Some by {
                assert(Some(bundle.transactions[k]@) == given[k]);
            }
            assert(bundle@.transactions =~= want->Ok_0.transactions) by {
                assert forall|k: int| 0 <= k < given.len() implies bundle@.transactions[k]
                    == want->Ok_0.transactions[k] by {
                    assert(Some(bundle.transactions[k]@) == given[k]);
                }
            }
            assert(bundle@.well_formed()) by {
                assert(given[0] is Some);
                assert forall|k: int| 0 <= k < given.len() implies {
                    &&& (#[trigger] bundle@.transactions[k]).payer == bundle@.transactions[0].payer
                    &&& bundle@.transactions[k].recency_token
                        == bundle@.transactions[0].recency_token
                    &&& ends_with_tip(bundle@.transactions[k], tip_account@, tip_lamports)
                } by {
                    assert(given[k] is Some);
                    assert(bundle@.transactions[k] == given[k]->0);
                    assert(bundle@.transactions[0] == given[0]->0);
                }
            }
        }
        Ok(bundle)
    }
}

/// Builds a bundle of one transaction per supplied instruction list. Each
/// transaction carries its list followed by a transfer of `tip_lamports`
/// from the payer to `tip_account`; all are signed with `payer_keys` and
/// stamped with `recency_token`.
///
/// The bundle is refused for its size where the number of lists is zero or
/// above `MAX_BUNDLE_SIZE`, and else for its signing where the key material
/// is no keypair or a list asks for a signer other than the payer. Each
/// list with its tip must fit one transaction, which `is_encodable` tells.
pub fn assemble_bundle(
    payer_keys: &PayerKeys,
    supplied: &Vec<Vec<UnsignedInstruction>>,
    tip_account: &Address,
    tip_lamports: u64,
    recency_token: &RecencyToken,
) -> (r: Result<Bundle, BundleError>)
    requires
        all_encodable(
            public_half(payer_keys@),
            instruction_set_views(supplied@),
            tip_account@,
            tip_lamports,
        ),
    ensures
        bundle_result_view(r) == assembled(
            payer_keys@,
            instruction_set_views(supplied@),
            tip_account@,
            tip_lamports,
            recency_token@,
        ),
        r matches Ok(bundle) ==> bundle@.well_formed(),
        1 <= supplied.len() <= MAX_BUNDLE_SIZE && (exists|i: int|
            0 <= i < supplied.len() && needs_other_signer(
                public_half(payer_keys@),
                #[trigger] instruction_set_views(supplied@)[i],
            )) ==> r == Err::<Bundle, BundleError>(BundleError::SigningError),
{
    if supplied.len() == 0 || supplied.len() > MAX_BUNDLE_SIZE {
        return Err(BundleError::InvalidBundleSize);
    }
    let ghost sets = instruction_set_views(supplied@);
    let mut signed: Vec<Option<SignedTransaction>> = Vec::new();
    let mut i: usize = 0;
    while i < supplied.len()
        invariant
            i <= supplied.len(),
            sets == instruction_set_views(supplied@),
            all_encodable(public_half(payer_keys@), sets, tip_account@, tip_lamports),
            signed.len() == i,
            forall|j: int|
                0 <= j < i ==> signed_view(#[trigger] signed[j]) == signed_transaction_of(
                    payer_keys@,
                    sets[j],
                    tip_account@,
                    tip_lamports,
                    recency_token@,
                ),
            forall|j: int|
                0 <= j < i && needs_other_signer(public_half(payer_keys@), #[trigger] sets[j])
                    ==> signed[j] is None,
        decreases supplied.len() - i,
    {
        assert(sets[i as int] == instruction_views(supplied[i as int]@));
        signed.push(
            SignedTransaction::sign(
                payer_keys,
                &supplied[i],
                tip_account,
                tip_lamports,
                recency_token,
            ),
        );
        i += 1;
    }
    proof {
        let given = signed_views(signed@);
        assert(given =~= Seq::new(
            sets.len(),
            |i: int|
                signed_transaction_of(payer_keys@, sets[i], tip_account@, tip_lamports, recency_token@),
        ));
        assert forall|i: int| 0 <= i < given.len() && (#[trigger] given[i]) is Some implies {
            &&& given[i]->0.payer == public_half(payer_keys@)
            &&& given[i]->0.recency_token == recency_token@
            &&& ends_with_tip(given[i]->0, tip_account@, tip_lamports)
        } by {
            assert(given[i] == signed_transaction_of(
                payer_keys@,
                sets[i],
                tip_account@,
                tip_lamports,
                recency_token@,
            ));
        }
        if exists|i: int|
            0 <= i < supplied.len() && needs_other_signer(
                public_half(payer_keys@),
                #[trigger] sets[i],
            ) {
            let i = choose|i: int|
                0 <= i < supplied.len() && needs_other_signer(
                    public_half(payer_keys@),
                    #[trigger] sets[i],
                );
            assert(signed[i] is None);
            assert(given[i] is None);
        }
    }
    Bundle::from_signed(signed, *tip_account, tip_lamports)
}

/// Payments and the tip name at most four addresses, so a transaction of
/// them can be compiled whenever its instruction count can be written.
proof fn lemma_payments_encodable(
    payer: Seq<u8>,
    recipient: Seq<u8>,
    tip_account: Seq<u8>,
    tip_lamports: u64,
    count: nat,
)
    requires
        count < MAX_WIRE_LIST,
    ensures
        encodable(payer, with_tip(payments(payer, recipient, count), payer, tip_account, tip_lamports)),
{
    let instructions = with_tip(payments(payer, recipient, count), payer, tip_account, tip_lamports);
    let allowed = set![payer, system_program_id(), recipient, tip_account];
    lemma_auto_spec_u64_to_from_le_bytes();
    assert forall|i: int| 0 <= i < instructions.len() implies {
        &&& (#[trigger] instructions[i]).program_id == system_program_id()
        &&& instructions[i].accounts.len() == 2
        &&& instructions[i].accounts[0].address == payer
        &&& (instructions[i].accounts[1].address == recipient || instructions[i].accounts[1].address
            == tip_account)
        &&& instructions[i].data.len() == 12
    } by {
        if i < count {
            assert(instructions[i] == transfer_view(payer, recipient, PAYMENT_LAMPORTS));
        } else {
            assert(instructions[i] == transfer_view(payer, tip_account, tip_lamports));
        }
    }
    lemma_encodable_within(payer, instructions, allowed);
}

/// Builds a bundle of `tx_count` transactions. Each carries
/// `instructions_per_tx` payments of `PAYMENT_LAMPORTS` from the payer to
/// `recipient`, then one transfer of `tip_lamports` from the payer to
/// `tip_account`; all are signed with `payer_keys` and stamped with
/// `recency_token`.
///
/// The bundle is refused for its size where `tx_count` is zero or above
/// `MAX_BUNDLE_SIZE`, and else for its signing where the key material is no
/// keypair. The payments and the tip of one transaction must be few enough
/// for their count to be written on the wire.
pub fn build_bundle(
    payer_keys: &PayerKeys,
    recipient: &Address,
    tip_account: &Address,
    tip_lamports: u64,
    recency_token: &RecencyToken,
    instructions_per_tx: usize,
    tx_count: usize,
) -> (r: Result<Bundle, BundleError>)
    requires
        instructions_per_tx < MAX_WIRE_LIST,
    ensures
        bundle_result_view(r) == built(
            payer_keys@,
            recipient@,
            tip_account@,
            tip_lamports,
            recency_token@,
            instructions_per_tx as nat,
            tx_count as nat,
        ),
        r matches Ok(bundle) ==> bundle@.well_formed(),
{
    if tx_count == 0 || tx_count > MAX_BUNDLE_SIZE {
        return Err(BundleError::InvalidBundleSize);
    }
    let payer = payer_keys.address();
    let ghost one = payments(payer@, recipient@, instructions_per_tx as nat);
    let mut supplied: Vec<Vec<UnsignedInstruction>> = Vec::new();
    let mut t: usize = 0;
    while t < tx_count
        invariant
            t <= tx_count,
            supplied.len() == t,
            one == payments(payer@, recipient@, instructions_per_tx as nat),
            forall|k: int| 0 <= k < t ==> instruction_views(#[trigger] supplied[k]@) == one,
        decreases tx_count - t,
    {
        supplied.push(payment_instructions(&payer, recipient, instructions_per_tx));
        t += 1;
    }
    proof {
        let sets = instruction_set_views(supplied@);
        assert(sets =~= Seq::new(tx_count as nat, |i: int| one));
        lemma_payments_encodable(
            payer@,
            recipient@,
            tip_account@,
            tip_lamports,
            instructions_per_tx as nat,
        );
    }
    assemble_bundle(payer_keys, &supplied, tip_account, tip_lamports, recency_token)
}

impl SignedTransaction {
    /// The address that pays for the transaction and signs it.
    pub fn payer(&self) -> (r: &Address)
        ensures
            r@ == self@.payer,
    {
        &self.payer
    }

    /// The instructions of the transaction, the tip transfer last.
    pub fn instructions(&self) -> (r: &Vec<UnsignedInstruction>)
        ensures
            instruction_views(r@) == self@.instructions,
    {
        &self.instructions
    }

    /// The recency token the transaction is stamped with.
    pub fn recency_token(&self) -> (r: &RecencyToken)
        ensures
            r@ == self@.recency_token,
    {
        &self.recency_token
    }

    /// The payer's signature, which identifies the transaction.
    pub fn signature(&self) -> (r: &Signature)
        ensures
            r@ == self@.signature,
    {
        &self.signature
    }

    /// The bytes that are sent to the relay.
    pub fn wire(&self) -> (r: &Vec<u8>)
        ensures
            r@ == self@.wire,
    {
        &self.wire
    }
}

impl Bundle {
    /// The number of transactions.
    pub fn len(&self) -> (r: usize)
        ensures
            r == self@.transactions.len(),
    {
        self.transactions.len()
    }

    /// The transaction at `index`.
    pub fn transaction(&self, index: usize) -> (r: &SignedTransaction)
        requires
            index < self@.transactions.len(),
        ensures
            r@ == self@.transactions[index as int],
    {
        &self.transactions[index]
    }

    /// The account that every transaction tips.
    pub fn tip_account(&self) -> (r: &Address)
        ensures
            r@ == self@.tip_account,
    {
        &self.tip_account
    }

    /// The amount that every transaction tips.
    pub fn tip_lamports(&self) -> (r: u64)
        ensures
            r == self@.tip_lamports,
    {
        self.tip_lamports
    }

    /// The identity under which the relay reports on this bundle.
    pub fn identity(&self) -> (r: BundleIdentity)
        ensures
            r@ == self@.identity(),
    {
        let mut signatures: Vec<Signature> = Vec::new();
        let mut i: usize = 0;
        while i < self.transactions.len()
            invariant
                i <= self.transactions.len(),
                signatures.len() == i,
                forall|k: int| 0 <= k < i ==> signatures[k]@ == self.transactions[k]@.signature,
            decreases self.transactions.len() - i,
        {
            signatures.push(self.transactions[i].signature);
            i += 1;
        }
        let r = BundleIdentity { signatures };
        assert(r@ =~= self@.identity());
        r
    }

    /// The wire form of each transaction, in the order of submission.
    pub fn wire_transactions(&self) -> (r: Vec<Vec<u8>>)
        ensures
            r@.len() == self@.transactions.len(),
            forall|i: int| 0 <= i < r@.len() ==> (#[trigger] r@[i])@ == self@.wire_transactions()[i],
    {
        let mut out: Vec<Vec<u8>> = Vec::new();
        let mut i: usize = 0;
        while i < self.transactions.len()
            invariant
                i <= self.transactions.len(),
                out.len() == i,
                forall|k: int| 0 <= k < i ==> (#[trigger] out[k])@ == self.transactions[k]@.wire,
            decreases self.transactions.len() - i,
        {
            out.push(self.transactions[i].wire.clone());
            i += 1;
        }
        out
    }
}

/// Whether an instruction is a system transfer of `lamports` to `account`.
pub open spec fn pays_tip(ix: InstructionView, account: Seq<u8>, lamports: u64) -> bool {
    &&& ix.program_id == system_program_id()
    &&& ix.accounts.len() == 2
    &&& ix.accounts[1].address == account
    &&& ix.data == transfer_data(lamports)
}

/// How many of the instructions are system transfers of `lamports` to
/// `account`.
pub open spec fn tip_count(instructions: Seq<InstructionView>, account: Seq<u8>, lamports: u64) -> nat
    decreases instructions.len(),
{
    if instructions.len() == 0 {
        0
    } else {
        tip_count(instructions.drop_last(), account, lamports) + if pays_tip(
            instructions.last(),
            account,
            lamports,
        ) {
            1nat
        } else {
            0nat
        }
    }
}

/// A bundle has as many transactions as instruction lists were supplied,
/// between 1 and `MAX_BUNDLE_SIZE`; every transaction carries the one
/// recency token; and every transaction holds one tip transfer of the
/// requested amount to the requested account more than its supplied list.
pub proof fn lemma_bundle_shape(
    keys: Seq<u8>,
    supplied: Seq<Seq<InstructionView>>,
    tip_account: Seq<u8>,
    tip_lamports: u64,
    token: Seq<u8>,
)
    requires
        assembled(keys, supplied, tip_account, tip_lamports, token) is Ok,
    ensures
        ({
            let bundle = assembled(keys, supplied, tip_account, tip_lamports, token)->Ok_0;
            &&& 1 <= supplied.len() <= MAX_BUNDLE_SIZE
            &&& bundle.transactions.len() == supplied.len()
            &&& bundle.well_formed()
            &&& forall|i: int|
                0 <= i < supplied.len() ==> {
                    &&& (#[trigger] bundle.transactions[i]).recency_token == token
                    &&& bundle.transactions[i].instructions == with_tip(
                        supplied[i],
                        public_half(keys),
                        tip_account,
                        tip_lamports,
                    )
                    &&& tip_count(bundle.transactions[i].instructions, tip_account, tip_lamports)
                        == tip_count(supplied[i], tip_account, tip_lamports) + 1
                }
        }),
{
    let bundle = assembled(keys, supplied, tip_account, tip_lamports, token)->Ok_0;
    assert forall|i: int| 0 <= i < supplied.len() implies {
        &&& (#[trigger] bundle.transactions[i]).recency_token == token
        &&& bundle.transactions[i].payer == public_half(keys)
        &&& bundle.transactions[i].instructions == with_tip(
            supplied[i],
            public_half(keys),
            tip_account,
            tip_lamports,
        )
        &&& tip_count(bundle.transactions[i].instructions, tip_account, tip_lamports) == tip_count(
            supplied[i],
            tip_account,
            tip_lamports,
        ) + 1
    } by {
        let signed = Seq::new(
            supplied.len(),
            |k: int| signed_transaction_of(keys, supplied[k], tip_account, tip_lamports, token),
        );
        assert(signed[i] is Some);
        let all = with_tip(supplied[i], public_half(keys), tip_account, tip_lamports);
        assert(all.drop_last() =~= supplied[i]);
        assert(pays_tip(all.last(), tip_account, tip_lamports));
    }
}

/// Where the supplied lists hold no tip transfer, every transaction of the
/// bundle holds exactly one.
pub proof fn lemma_exactly_one_tip(
    keys: Seq<u8>,
    supplied: Seq<Seq<InstructionView>>,
    tip_account: Seq<u8>,
    tip_lamports: u64,
    token: Seq<u8>,
)
    requires
        assembled(keys, supplied, tip_account, tip_lamports, token) is Ok,
        forall|i: int|
            0 <= i < supplied.len() ==> tip_count(#[trigger] supplied[i], tip_account, tip_lamports)
                == 0,
    ensures
        forall|i: int|
            0 <= i < supplied.len() ==> tip_count(
                (#[trigger] assembled(
                    keys,
                    supplied,
                    tip_account,
                    tip_lamports,
                    token,
                )->Ok_0.transactions[i]).instructions,
                tip_account,
                tip_lamports,
            ) == 1,
{
    lemma_bundle_shape(keys, supplied, tip_account, tip_lamports, token);
}

/// A list of payments holds no tip transfer unless the recipient is the
/// tip account and the tip equals the payment.
pub proof fn lemma_payments_hold_no_tip(
    payer: Seq<u8>,
    recipient: Seq<u8>,
    count: nat,
    tip_account: Seq<u8>,
    tip_lamports: u64,
)
    requires
        recipient != tip_account || tip_lamports != PAYMENT_LAMPORTS,
    ensures
        tip_count(payments(payer, recipient, count), tip_account, tip_lamports) == 0,
    decreases count,
{
    if count > 0 {
        let list = payments(payer, recipient, count);
        assert(list.drop_last() =~= payments(payer, recipient, (count - 1) as nat));
        lemma_payments_hold_no_tip(payer, recipient, (count - 1) as nat, tip_account, tip_lamports);
        lemma_auto_spec_u64_to_from_le_bytes();
        if recipient == tip_account {
            let a = spec_u64_to_le_bytes(PAYMENT_LAMPORTS);
            let b = spec_u64_to_le_bytes(tip_lamports);
            if transfer_data(PAYMENT_LAMPORTS) == transfer_data(tip_lamports) {
                assert(a =~= transfer_data(PAYMENT_LAMPORTS).subrange(4, 12));
                assert(b =~= transfer_data(tip_lamports).subrange(4, 12));
            }
        }
    }
}

/// The bundle that `build_bundle` yields for a count between 1 and
/// `MAX_BUNDLE_SIZE` has exactly that many transactions, all stamped with
/// the one recency token, and each holds exactly one transfer of the tip
/// to the tip account, unless the payments themselves are such transfers.
pub proof fn lemma_built_shape(
    keys: Seq<u8>,
    recipient: Seq<u8>,
    tip_account: Seq<u8>,
    tip_lamports: u64,
    token: Seq<u8>,
    instructions_per_tx: nat,
    tx_count: nat,
)
    requires
        built(keys, recipient, tip_account, tip_lamports, token, instructions_per_tx, tx_count)
            is Ok,
        recipient != tip_account || tip_lamports != PAYMENT_LAMPORTS,
    ensures
        ({
            let bundle = built(
                keys,
                recipient,
                tip_account,
                tip_lamports,
                token,
                instructions_per_tx,
                tx_count,
            )->Ok_0;
            &&& 1 <= tx_count <= MAX_BUNDLE_SIZE
            &&& bundle.transactions.len() == tx_count
            &&& forall|i: int|
                0 <= i < tx_count ==> {
                    &&& (#[trigger] bundle.transactions[i]).recency_token == token
                    &&& tip_count(bundle.transactions[i].instructions, tip_account, tip_lamports)
                        == 1
                }
        }),
{
    let supplied = Seq::new(
        tx_count,
        |i: int| payments(public_half(keys), recipient, instructions_per_tx),
    );
    lemma_bundle_shape(keys, supplied, tip_account, tip_lamports, token);
    lemma_payments_hold_no_tip(
        public_half(keys),
        recipient,
        instructions_per_tx,
        tip_account,
        tip_lamports,
    );
}

/// A bundle is refused for its size exactly when the count of transactions
/// is zero or above `MAX_BUNDLE_SIZE`.
pub proof fn lemma_size_refusal(
    keys: Seq<u8>,
    recipient: Seq<u8>,
    tip_account: Seq<u8>,
    tip_lamports: u64,
    token: Seq<u8>,
    instructions_per_tx: nat,
    tx_count: nat,
)
    ensures
        built(keys, recipient, tip_account, tip_lamports, token, instructions_per_tx, tx_count)
            == Err::<BundleView, BundleError>(BundleError::InvalidBundleSize) <==> (tx_count == 0
            || tx_count > MAX_BUNDLE_SIZE),
{
}

} // verus!
