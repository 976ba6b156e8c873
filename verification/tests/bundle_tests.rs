use bundle_relay::bundle::{
    assemble_bundle, build_bundle, payment_instructions, tipped_instructions, Bundle, BundleError,
    SignedTransaction, MAX_BUNDLE_SIZE, PAYMENT_LAMPORTS,
};
use bundle_relay::encoding::is_encodable;
use bundle_relay::instruction::{AccountRef, Address, UnsignedInstruction};
use bundle_relay::ledger::{PayerKeys, RecencyToken, Signature};
use solana_sdk::signer::keypair::keypair_from_seed;
use solana_sdk::signer::Signer;
use solana_sdk::transaction::Transaction;

fn payer_keys() -> PayerKeys {
    let keypair = keypair_from_seed(&[7u8; 32]).unwrap();
    PayerKeys { bytes: keypair.to_bytes() }
}

fn recipient() -> Address {
    Address { bytes: [1u8; 32] }
}

fn tip_account() -> Address {
    Address { bytes: [2u8; 32] }
}

fn token() -> RecencyToken {
    RecencyToken { bytes: [3u8; 32] }
}

fn is_tip(ix: &UnsignedInstruction, account: &Address, lamports: u64) -> bool {
    let mut data = vec![2u8, 0, 0, 0];
    data.extend_from_slice(&lamports.to_le_bytes());
    ix.program_id == (Address { bytes: [0u8; 32] })
        && ix.accounts.len() == 2
        && ix.accounts[1].address == *account
        && ix.data == data
}

fn tips_in(bundle: &Bundle, index: usize, account: &Address, lamports: u64) -> usize {
    bundle
        .transaction(index)
        .instructions()
        .iter()
        .filter(|ix| is_tip(ix, account, lamports))
        .count()
}

fn build(tx_count: usize) -> Result<Bundle, BundleError> {
    build_bundle(&payer_keys(), &recipient(), &tip_account(), 1000, &token(), 1, tx_count)
}

fn check_shape(tx_count: usize) {
    let bundle = build_bundle(
        &payer_keys(),
        &recipient(),
        &tip_account(),
        4321,
        &token(),
        2,
        tx_count,
    )
    .unwrap_or_else(|e| panic!("no bundle: {:?}", e));
    assert_eq!(bundle.len(), tx_count);
    for i in 0..tx_count {
        let tx = bundle.transaction(i);
        assert_eq!(*tx.recency_token(), token());
        assert_eq!(tx.instructions().len(), 3);
        assert_eq!(tips_in(&bundle, i, &tip_account(), 4321), 1);
        assert!(is_tip(&tx.instructions()[2], &tip_account(), 4321));
        assert_eq!(*tx.payer(), payer_keys().address());
    }
}

#[test]
fn one_transaction_has_the_asked_shape() {
    check_shape(1);
}

#[test]
fn two_transactions_have_the_asked_shape() {
    check_shape(2);
}

#[test]
fn three_transactions_have_the_asked_shape() {
    check_shape(3);
}

#[test]
fn four_transactions_have_the_asked_shape() {
    check_shape(4);
}

#[test]
fn five_transactions_have_the_asked_shape() {
    check_shape(5);
}

#[test]
fn zero_transactions_is_invalid_size() {
    assert!(matches!(build(0), Err(BundleError::InvalidBundleSize)));
}

#[test]
fn six_transactions_is_invalid_size() {
    assert!(matches!(build(6), Err(BundleError::InvalidBundleSize)));
    assert_eq!(MAX_BUNDLE_SIZE, 5);
}

#[test]
fn boundary_sizes_succeed() {
    assert_eq!(build(1).ok().unwrap().len(), 1);
    assert_eq!(build(5).ok().unwrap().len(), 5);
}

#[test]
fn the_size_is_judged_before_the_keys() {
    let broken = PayerKeys { bytes: [9u8; 64] };
    let r = build_bundle(&broken, &recipient(), &tip_account(), 1000, &token(), 1, 0);
    assert!(matches!(r, Err(BundleError::InvalidBundleSize)));
}

#[test]
fn key_material_that_is_no_keypair_is_a_signing_error() {
    let mut bytes = payer_keys().bytes;
    bytes[40] ^= 0xff;
    let r = build_bundle(
        &PayerKeys { bytes },
        &recipient(),
        &tip_account(),
        1000,
        &token(),
        1,
        1,
    );
    assert!(matches!(r, Err(BundleError::SigningError)));
}

#[test]
fn an_absent_signer_key_is_a_signing_error() {
    let stranger = Address { bytes: [8u8; 32] };
    let needs_stranger = UnsignedInstruction::transfer(&stranger, &recipient(), 5);
    let r = assemble_bundle(
        &payer_keys(),
        &vec![vec![needs_stranger]],
        &tip_account(),
        1000,
        &token(),
    );
    assert!(matches!(r, Err(BundleError::SigningError)));
}

#[test]
fn transfer_instruction_is_as_the_system_program_reads_it() {
    let from = Address { bytes: [4u8; 32] };
    let to = Address { bytes: [5u8; 32] };
    let ix = UnsignedInstruction::transfer(&from, &to, PAYMENT_LAMPORTS);
    assert_eq!(PAYMENT_LAMPORTS, 1000);
    assert_eq!(ix.program_id, Address { bytes: [0u8; 32] });
    assert_eq!(
        ix.accounts,
        vec![
            AccountRef { address: from, is_signer: true, is_writable: true },
            AccountRef { address: to, is_signer: false, is_writable: true },
        ]
    );
    assert_eq!(ix.data, vec![2u8, 0, 0, 0, 0xe8, 0x03, 0, 0, 0, 0, 0, 0]);
}

#[test]
fn transfer_instruction_writes_the_amount_little_endian() {
    let from = Address { bytes: [4u8; 32] };
    let to = Address { bytes: [5u8; 32] };
    let ix = UnsignedInstruction::transfer(&from, &to, 0x0102030405060708);
    assert_eq!(ix.data, vec![2u8, 0, 0, 0, 8, 7, 6, 5, 4, 3, 2, 1]);
}

#[test]
fn payer_address_is_the_public_half() {
    let keypair = keypair_from_seed(&[7u8; 32]).unwrap();
    assert_eq!(payer_keys().address().bytes, keypair.pubkey().to_bytes());
    assert_eq!(payer_keys().address().bytes[..], payer_keys().bytes[32..]);
}

#[test]
fn wire_form_is_the_signed_transaction() {
    let bundle = build_bundle(&payer_keys(), &recipient(), &tip_account(), 77, &token(), 1, 2)
        .ok()
        .unwrap();
    let keypair = keypair_from_seed(&[7u8; 32]).unwrap();
    let wires = bundle.wire_transactions();
    assert_eq!(wires.len(), 2);
    for i in 0..2 {
        assert_eq!(wires[i], *bundle.transaction(i).wire());
        let tx: Transaction = bincode::deserialize(&wires[i]).unwrap();
        assert!(tx.verify().is_ok());
        assert_eq!(tx.signatures.len(), 1);
        assert_eq!(tx.signatures[0].as_ref(), &bundle.transaction(i).signature().bytes[..]);
        assert_eq!(tx.message.recent_blockhash.to_bytes(), token().bytes);
        assert_eq!(tx.message.account_keys[0], keypair.pubkey());
        assert_eq!(tx.message.instructions.len(), 2);
        let expected = [
            solana_sdk::system_instruction::transfer(
                &keypair.pubkey(),
                &solana_sdk::pubkey::Pubkey::new_from_array(recipient().bytes),
                PAYMENT_LAMPORTS,
            ),
            solana_sdk::system_instruction::transfer(
                &keypair.pubkey(),
                &solana_sdk::pubkey::Pubkey::new_from_array(tip_account().bytes),
                77,
            ),
        ];
        let mut reference = Transaction::new_with_payer(&expected, Some(&keypair.pubkey()));
        reference.sign(&[&keypair], solana_sdk::hash::Hash::new_from_array(token().bytes));
        assert_eq!(tx, reference);
    }
}

#[test]
fn identity_lists_the_signatures_in_order() {
    let first = vec![UnsignedInstruction::transfer(&payer_keys().address(), &recipient(), 1)];
    let second = vec![UnsignedInstruction::transfer(&payer_keys().address(), &recipient(), 2)];
    let bundle = assemble_bundle(
        &payer_keys(),
        &vec![first.clone(), second.clone()],
        &tip_account(),
        10,
        &token(),
    )
    .ok()
    .unwrap();
    let identity = bundle.identity();
    assert_eq!(identity.signatures.len(), 2);
    assert_eq!(identity.signatures[0], *bundle.transaction(0).signature());
    assert_eq!(identity.signatures[1], *bundle.transaction(1).signature());
    assert_ne!(identity.signatures[0], identity.signatures[1]);
    assert_eq!(bundle.transaction(0).instructions()[0], first[0]);
    assert_eq!(bundle.transaction(1).instructions()[0], second[0]);
    assert_eq!(*bundle.tip_account(), tip_account());
    assert_eq!(bundle.tip_lamports(), 10);
}

#[test]
fn assembling_nothing_is_invalid_size() {
    let r = assemble_bundle(&payer_keys(), &vec![], &tip_account(), 10, &token());
    assert!(matches!(r, Err(BundleError::InvalidBundleSize)));
    let six: Vec<Vec<UnsignedInstruction>> = vec![vec![]; 6];
    let r = assemble_bundle(&payer_keys(), &six, &tip_account(), 10, &token());
    assert!(matches!(r, Err(BundleError::InvalidBundleSize)));
}

#[test]
fn a_transaction_of_the_tip_alone_is_built() {
    let bundle = build_bundle(&payer_keys(), &recipient(), &tip_account(), 9, &token(), 0, 1)
        .ok()
        .unwrap();
    assert_eq!(bundle.transaction(0).instructions().len(), 1);
    assert_eq!(tips_in(&bundle, 0, &tip_account(), 9), 1);
}

#[test]
fn payments_to_the_tip_account_of_the_tip_amount_count_as_tips() {
    let bundle = build_bundle(
        &payer_keys(),
        &tip_account(),
        &tip_account(),
        PAYMENT_LAMPORTS,
        &token(),
        2,
        1,
    )
    .ok()
    .unwrap();
    assert_eq!(tips_in(&bundle, 0, &tip_account(), PAYMENT_LAMPORTS), 3);
}

fn instruction_naming(count: usize) -> UnsignedInstruction {
    let mut accounts = Vec::new();
    for i in 0..count {
        let mut bytes = [0xaau8; 32];
        bytes[0] = (i % 256) as u8;
        bytes[1] = (i / 256) as u8;
        accounts.push(AccountRef { address: Address { bytes }, is_signer: false, is_writable: false });
    }
    UnsignedInstruction { program_id: Address { bytes: [0u8; 32] }, accounts, data: vec![] }
}

#[test]
fn up_to_255_distinct_addresses_can_be_encoded() {
    let payer = payer_keys().address();
    assert!(is_encodable(&payer, &vec![]));
    assert!(is_encodable(&payer, &vec![instruction_naming(253)]));
    assert!(!is_encodable(&payer, &vec![instruction_naming(254)]));
    assert!(is_encodable(&payer, &vec![instruction_naming(253), instruction_naming(253)]));
    assert!(is_encodable(&payer, &vec![instruction_naming(100), instruction_naming(253)]));
    assert!(!is_encodable(&payer, &vec![instruction_naming(100), instruction_naming(254)]));
}

#[test]
fn lists_too_long_for_the_wire_cannot_be_encoded() {
    let payer = payer_keys().address();
    let long_data = UnsignedInstruction {
        program_id: Address { bytes: [0u8; 32] },
        accounts: vec![],
        data: vec![0u8; 65536],
    };
    assert!(!is_encodable(&payer, &vec![long_data]));
    let full_data = UnsignedInstruction {
        program_id: Address { bytes: [0u8; 32] },
        accounts: vec![],
        data: vec![0u8; 65535],
    };
    assert!(is_encodable(&payer, &vec![full_data]));
    let repeated = AccountRef { address: payer, is_signer: true, is_writable: true };
    let long_accounts = UnsignedInstruction {
        program_id: Address { bytes: [0u8; 32] },
        accounts: vec![repeated; 65536],
        data: vec![],
    };
    assert!(!is_encodable(&payer, &vec![long_accounts]));
}

#[test]
fn payments_are_transfers_of_the_payment_amount() {
    let payer = payer_keys().address();
    let list = payment_instructions(&payer, &recipient(), 3);
    assert_eq!(list.len(), 3);
    for ix in &list {
        assert_eq!(*ix, UnsignedInstruction::transfer(&payer, &recipient(), 1000));
    }
    assert_eq!(payment_instructions(&payer, &recipient(), 0), vec![]);
}

#[test]
fn the_tip_comes_last() {
    let payer = payer_keys().address();
    let supplied = vec![
        UnsignedInstruction { program_id: Address { bytes: [6u8; 32] }, accounts: vec![], data: vec![1, 2] },
        UnsignedInstruction::transfer(&payer, &recipient(), 5),
    ];
    let all = tipped_instructions(&payer, &supplied, &tip_account(), 42);
    assert_eq!(all.len(), 3);
    assert_eq!(all[0], supplied[0]);
    assert_eq!(all[1], supplied[1]);
    assert_eq!(all[2], UnsignedInstruction::transfer(&payer, &tip_account(), 42));
}

fn signed(tag: u8) -> SignedTransaction {
    let payer = payer_keys().address();
    SignedTransaction::from_parts(
        payer,
        tipped_instructions(&payer, &vec![], &tip_account(), 42),
        token(),
        Signature { bytes: [tag; 64] },
        vec![tag, tag],
    )
}

#[test]
fn signed_transactions_are_gathered_in_order() {
    let bundle = Bundle::from_signed(
        vec![Some(signed(1)), Some(signed(2)), Some(signed(3))],
        tip_account(),
        42,
    )
    .ok()
    .unwrap();
    assert_eq!(bundle.len(), 3);
    for i in 0..3 {
        let tag = i as u8 + 1;
        assert_eq!(*bundle.transaction(i).signature(), Signature { bytes: [tag; 64] });
        assert_eq!(*bundle.transaction(i).wire(), vec![tag, tag]);
        assert_eq!(*bundle.transaction(i).recency_token(), token());
    }
    assert_eq!(bundle.wire_transactions(), vec![vec![1u8, 1], vec![2, 2], vec![3, 3]]);
    assert_eq!(
        bundle.identity().signatures,
        vec![Signature { bytes: [1; 64] }, Signature { bytes: [2; 64] }, Signature { bytes: [3; 64] }]
    );
}

#[test]
fn a_missing_transaction_is_a_signing_error() {
    let r = Bundle::from_signed(vec![Some(signed(1)), None, Some(signed(3))], tip_account(), 42);
    assert!(matches!(r, Err(BundleError::SigningError)));
    let r = Bundle::from_signed(vec![None], tip_account(), 42);
    assert!(matches!(r, Err(BundleError::SigningError)));
}

#[test]
fn the_size_is_judged_before_the_signing() {
    let r = Bundle::from_signed(vec![], tip_account(), 42);
    assert!(matches!(r, Err(BundleError::InvalidBundleSize)));
    let six = vec![Some(signed(1)), None, None, None, None, None];
    let r = Bundle::from_signed(six, tip_account(), 42);
    assert!(matches!(r, Err(BundleError::InvalidBundleSize)));
    let five = vec![Some(signed(1)), Some(signed(2)), Some(signed(3)), Some(signed(4)), Some(signed(5))];
    assert_eq!(Bundle::from_signed(five, tip_account(), 42).ok().unwrap().len(), 5);
}

#[test]
fn a_transaction_at_the_address_limit_is_signed() {
    let payer = payer_keys().address();
    let supplied = vec![instruction_naming(252)];
    let all = tipped_instructions(&payer, &supplied, &tip_account(), 7);
    assert!(is_encodable(&payer, &all));
    let bundle =
        assemble_bundle(&payer_keys(), &vec![supplied], &tip_account(), 7, &token()).ok().unwrap();
    let tx: Transaction = bincode::deserialize(bundle.transaction(0).wire()).unwrap();
    assert_eq!(tx.message.account_keys.len(), 255);
    assert!(tx.verify().is_ok());
    let one_more = tipped_instructions(&payer, &vec![instruction_naming(253)], &tip_account(), 7);
    assert!(!is_encodable(&payer, &one_more));
}
