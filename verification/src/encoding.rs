//! The limits of the transaction format: how many distinct addresses one
//! transaction may name, and how long its lists may be.

use vstd::prelude::*;
use vstd::set_lib::lemma_len_subset;
use crate::instruction::{
    AccountView, Address, InstructionView, UnsignedInstruction, instruction_views,
};

verus! {

/// The largest number of distinct addresses one transaction may name, so
/// that each can be indexed by one byte.
pub const MAX_TRANSACTION_ADDRESSES: usize = 255;

/// The largest length the wire form can record for a list.
pub const MAX_WIRE_LIST: usize = 65535;

/// The addresses of a list of account references, in order.
pub open spec fn account_addresses(accounts: Seq<AccountView>) -> Seq<Seq<u8>> {
    Seq::new(accounts.len(), |j: int| accounts[j].address)
}

/// Every address a transaction names, with repetitions: the payer, then for
/// each instruction its program and its accounts.
pub open spec fn named_addresses(payer: Seq<u8>, instructions: Seq<InstructionView>) -> Seq<
    Seq<u8>,
>
    decreases instructions.len(),
{
    if instructions.len() == 0 {
        seq![payer]
    } else {
        let last = instructions.last();
        named_addresses(payer, instructions.drop_last()).push(last.program_id)
            + account_addresses(last.accounts)
    }
}

/// Whether a payer and a list of instructions can be compiled into one
/// transaction: the distinct addresses can be indexed by a byte, and every
/// list is short enough for its length to be written.
pub open spec fn encodable(payer: Seq<u8>, instructions: Seq<InstructionView>) -> bool {
    &&& named_addresses(payer, instructions).to_set().len() <= MAX_TRANSACTION_ADDRESSES
    &&& instructions.len() <= MAX_WIRE_LIST
    &&& forall|i: int|
        0 <= i < instructions.len() ==> {
            &&& (#[trigger] instructions[i]).accounts.len() <= MAX_WIRE_LIST
            &&& instructions[i].data.len() <= MAX_WIRE_LIST
        }
}

/// The views of a list of addresses, in order.
pub open spec fn address_views(list: Seq<Address>) -> Seq<Seq<u8>> {
    Seq::new(list.len(), |i: int| list[i]@)
}

/// Where every address that a transaction names lies in `allowed`, so do
/// all its named addresses.
pub proof fn lemma_named_addresses_within(
    payer: Seq<u8>,
    instructions: Seq<InstructionView>,
    allowed: Set<Seq<u8>>,
)
    requires
        allowed.contains(payer),
        forall|i: int|
            0 <= i < instructions.len() ==> allowed.contains(
                (#[trigger] instructions[i]).program_id,
            ),
        forall|i: int, j: int|
            0 <= i < instructions.len() && 0 <= j < instructions[i].accounts.len()
                ==> allowed.contains((#[trigger] instructions[i].accounts[j]).address),
    ensures
        named_addresses(payer, instructions).to_set().subset_of(allowed),
    decreases instructions.len(),
{
    let all = named_addresses(payer, instructions);
    if instructions.len() == 0 {
        assert forall|a: Seq<u8>| all.contains(a) implies allowed.contains(a) by {
            let k = choose|k: int| 0 <= k < all.len() && all[k] == a;
        }
    } else {
        let rest = instructions.drop_last();
        let last = instructions.last();
        assert forall|i: int| 0 <= i < rest.len() implies allowed.contains(
            (#[trigger] rest[i]).program_id,
        ) by {
            assert(rest[i] == instructions[i]);
        }
        assert forall|i: int, j: int|
            0 <= i < rest.len() && 0 <= j < rest[i].accounts.len() implies allowed.contains(
            (#[trigger] rest[i].accounts[j]).address,
        ) by {
            assert(rest[i] == instructions[i]);
        }
        lemma_named_addresses_within(payer, rest, allowed);
        let before = named_addresses(payer, rest);
        assert forall|a: Seq<u8>| all.contains(a) implies allowed.contains(a) by {
            let k = choose|k: int| 0 <= k < all.len() && all[k] == a;
            if k < before.len() {
                assert(before.contains(all[k]));
                assert(before.to_set().contains(a));
            } else if k == before.len() {
                assert(a == last.program_id);
            } else {
                let j = k - before.len() - 1;
                assert(a == last.accounts[j].address);
            }
        }
    }
}

/// Adds an address to a duplicate-free list unless the list holds it.
fn note_address(seen: &mut Vec<Address>, address: &Address)
    requires
        address_views(old(seen)@).no_duplicates(),
    ensures
        address_views(final(seen)@).no_duplicates(),
        address_views(final(seen)@).to_set() == address_views(old(seen)@).to_set().insert(
            address@,
        ),
{
    let mut k: usize = 0;
    while k < seen.len()
        invariant
            k <= seen.len(),
            *seen == *old(seen),
            address_views(seen@).no_duplicates(),
            forall|m: int| 0 <= m < k ==> seen[m]@ != address@,
        decreases seen.len() - k,
    {
        if seen[k].same(address) {
            proof {
                let views = address_views(seen@);
                assert(views[k as int] == address@);
                assert(views.contains(address@));
                assert(views.to_set().insert(address@) =~= views.to_set());
            }
            return ;
        }
        k += 1;
    }
    seen.push(*address);
    proof {
        let before = address_views(old(seen)@);
        assert(address_views(seen@) =~= before.push(address@));
        before.lemma_push_to_set_commute(address@);
    }
}

/// Whether `instructions`, paid by `payer`, can be compiled into one
/// transaction.
pub fn is_encodable(payer: &Address, instructions: &Vec<UnsignedInstruction>) -> (r: bool)
    ensures
        r == encodable(payer@, instruction_views(instructions@)),
{
    if instructions.len() > MAX_WIRE_LIST {
        return false;
    }
    let ghost views = instruction_views(instructions@);
    let mut seen: Vec<Address> = Vec::new();
    seen.push(*payer);
    assert(address_views(seen@) =~= seq![payer@]);
    assert(views.take(0) =~= Seq::<InstructionView>::empty());
    let mut i: usize = 0;
    while i < instructions.len()
        invariant
            i <= instructions.len(),
            views == instruction_views(instructions@),
            address_views(seen@).no_duplicates(),
            address_views(seen@).to_set() == named_addresses(payer@, views.take(i as int)).to_set(),
            forall|k: int|
                0 <= k < i ==> (#[trigger] views[k]).accounts.len() <= MAX_WIRE_LIST
                    && views[k].data.len() <= MAX_WIRE_LIST,
        decreases instructions.len() - i,
    {
        let ix = &instructions[i];
        assert(views[i as int] == ix@);
        if ix.accounts.len() > MAX_WIRE_LIST || ix.data.len() > MAX_WIRE_LIST {
            return false;
        }
        note_address(&mut seen, &ix.program_id);
        let ghost base = named_addresses(payer@, views.take(i as int)).push(ix@.program_id);
        let ghost addresses = account_addresses(ix@.accounts);
        proof {
            named_addresses(payer@, views.take(i as int)).lemma_push_to_set_commute(
                ix@.program_id,
            );
            assert(base + addresses.take(0) =~= base);
        }
        let mut j: usize = 0;
        while j < ix.accounts.len()
            invariant
                j <= ix.accounts.len(),
                addresses == account_addresses(ix@.accounts),
                address_views(seen@).no_duplicates(),
                address_views(seen@).to_set() == (base + addresses.take(j as int)).to_set(),
            decreases ix.accounts.len() - j,
        {
            note_address(&mut seen, &ix.accounts[j].address);
            proof {
                let sofar = base + addresses.take(j as int);
                assert(addresses[j as int] == ix.accounts[j as int].address@);
                assert(sofar.push(addresses[j as int]) =~= base + addresses.take(j + 1));
                sofar.lemma_push_to_set_commute(addresses[j as int]);
            }
            j += 1;
        }
        proof {
            assert(addresses.take(ix.accounts.len() as int) =~= addresses);
            let next = views.take(i + 1);
            assert(next.drop_last() =~= views.take(i as int));
            assert(next.last() == ix@);
        }
        i += 1;
    }
    proof {
        assert(views.take(instructions.len() as int) =~= views);
        address_views(seen@).unique_seq_to_set();
    }
    seen.len() <= MAX_TRANSACTION_ADDRESSES
}

/// A transaction that names only addresses of a set of at most
/// `MAX_TRANSACTION_ADDRESSES` members, in lists short enough for the wire,
/// can be compiled.
pub proof fn lemma_encodable_within(
    payer: Seq<u8>,
    instructions: Seq<InstructionView>,
    allowed: Set<Seq<u8>>,
)
    requires
        allowed.finite(),
        allowed.len() <= MAX_TRANSACTION_ADDRESSES,
        allowed.contains(payer),
        forall|i: int|
            0 <= i < instructions.len() ==> allowed.contains(
                (#[trigger] instructions[i]).program_id,
            ),
        forall|i: int, j: int|
            0 <= i < instructions.len() && 0 <= j < instructions[i].accounts.len()
                ==> allowed.contains((#[trigger] instructions[i].accounts[j]).address),
        instructions.len() <= MAX_WIRE_LIST,
        forall|i: int|
            0 <= i < instructions.len() ==> {
                &&& (#[trigger] instructions[i]).accounts.len() <= MAX_WIRE_LIST
                &&& instructions[i].data.len() <= MAX_WIRE_LIST
            },
    ensures
        encodable(payer, instructions),
{
    lemma_named_addresses_within(payer, instructions, allowed);
    lemma_len_subset(named_addresses(payer, instructions).to_set(), allowed);
}

} // verus!
