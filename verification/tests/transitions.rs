use confidential_transfer::account::{
    process_allow_confidential_credits, process_allow_non_confidential_credits,
    process_approve_account, process_configure_account, process_empty_account,
};
use confidential_transfer::context::{proof_program_id, ProofSource};
use confidential_transfer::error::TransferError;
use confidential_transfer::mint::{process_initialize_mint, process_update_mint};
use confidential_transfer::processor::{
    process_apply_pending_balance, process_deposit, process_withdraw, Signer,
    MAXIMUM_DEPOSIT_TRANSFER_AMOUNT,
};
use confidential_transfer::state::{
    ConfidentialTransferAccount, ConfidentialTransferFeeConfig, Mint, TokenAccount, TransferFee,
    TransferFeeConfig,
};
use confidential_transfer::transfer::process_transfer;
use confidential_transfer::types::{DecryptableBalance, ElGamalCiphertext, ElGamalPubkey, Pubkey};
use solana_zk_token_sdk::encryption::elgamal::{
    ElGamalCiphertext as SdkCiphertext, ElGamalKeypair,
};
use solana_zk_token_sdk::instruction::{
    FeeParameters, PubkeyValidityData, TransferData, TransferWithFeeData, WithdrawData,
    ZeroBalanceProofData,
};

const TEST_MAXIMUM_FEE: u64 = 100;
const TEST_FEE_BASIS_POINTS: u16 = 250;
const TEST_MAXIMUM_PENDING_BALANCE_CREDIT_COUNTER: u64 = 2;
const DECIMALS: u8 = 9;

fn address(n: u8) -> Pubkey {
    Pubkey { bytes: [n; 32] }
}

fn hint(n: u8) -> DecryptableBalance {
    DecryptableBalance { bytes: [n; 36] }
}

fn elgamal(keypair: &ElGamalKeypair) -> ElGamalPubkey {
    ElGamalPubkey { bytes: keypair.pubkey().to_bytes() }
}

fn proof_instruction(tag: u8, proof_data: &[u8]) -> ProofSource {
    let mut data = vec![tag];
    data.extend_from_slice(proof_data);
    ProofSource::Instruction { program_id: proof_program_id(), data }
}

fn context_record(tag: u8, context: &[u8]) -> ProofSource {
    let mut data = vec![7u8; 32];
    data.push(tag);
    data.extend_from_slice(context);
    ProofSource::ContextState { owner: proof_program_id(), data }
}

fn sdk_ciphertext(ciphertext: &ElGamalCiphertext) -> SdkCiphertext {
    SdkCiphertext::from_bytes(&ciphertext.bytes).unwrap()
}

fn decrypt(keypair: &ElGamalKeypair, ciphertext: &ElGamalCiphertext) -> u64 {
    keypair.secret().decrypt_u32(&sdk_ciphertext(ciphertext)).unwrap()
}

fn plain_mint(auditor: Option<ElGamalPubkey>, auto_approve: bool) -> Mint {
    let bare = Mint {
        address: address(1),
        decimals: DECIMALS,
        non_transferable: false,
        confidential_transfer: None,
        transfer_fee: None,
        confidential_transfer_fee: None,
    };
    process_initialize_mint(&bare, Some(address(2)), auto_approve, auditor).unwrap()
}

fn fee_mint(auditor: Option<ElGamalPubkey>, withheld_authority: ElGamalPubkey) -> Mint {
    let mut mint = plain_mint(auditor, true);
    let fee = TransferFee {
        epoch: 0,
        maximum_fee: TEST_MAXIMUM_FEE,
        transfer_fee_basis_points: TEST_FEE_BASIS_POINTS,
    };
    mint.transfer_fee = Some(TransferFeeConfig { older_transfer_fee: fee, newer_transfer_fee: fee });
    mint.confidential_transfer_fee = Some(ConfidentialTransferFeeConfig {
        withdraw_withheld_authority_elgamal_pubkey: withheld_authority,
    });
    mint
}

fn bare_account(n: u8, mint: &Mint, amount: u64) -> TokenAccount {
    TokenAccount {
        address: address(n),
        mint: mint.address,
        owner: address(n + 100),
        amount,
        frozen: false,
        native: false,
        memo_required: false,
        confidential_transfer: None,
        confidential_transfer_fee: None,
    }
}

fn configured_account(
    n: u8,
    mint: &Mint,
    amount: u64,
    keypair: &ElGamalKeypair,
    maximum_pending_balance_credit_counter: u64,
) -> TokenAccount {
    let proof = PubkeyValidityData::new(keypair).unwrap();
    process_configure_account(
        &bare_account(n, mint, amount),
        mint,
        &proof_instruction(6, bytemuck::bytes_of(&proof)),
        Ok(()),
        hint(0),
        maximum_pending_balance_credit_counter,
    )
    .unwrap()
}

fn state(account: &TokenAccount) -> ConfidentialTransferAccount {
    account.confidential_transfer.unwrap()
}

/// An account that holds `amount` in its available balance and nothing else.
fn account_with_tokens(n: u8, mint: &Mint, keypair: &ElGamalKeypair, amount: u64) -> TokenAccount {
    let account = configured_account(
        n,
        mint,
        amount,
        keypair,
        TEST_MAXIMUM_PENDING_BALANCE_CREDIT_COUNTER,
    );
    let deposited = process_deposit(&account, mint, Ok(()), amount, DECIMALS).unwrap();
    process_apply_pending_balance(&deposited, Ok(()), 1, hint(1)).unwrap()
}

fn transfer_proof(
    amount: u64,
    balance: u64,
    source: &TokenAccount,
    source_keypair: &ElGamalKeypair,
    destination: &ElGamalKeypair,
    auditor: &ElGamalKeypair,
) -> TransferData {
    TransferData::new(
        amount,
        (balance, &sdk_ciphertext(&state(source).available_balance)),
        source_keypair,
        (destination.pubkey(), auditor.pubkey()),
    )
    .unwrap()
}

fn transfer_with_fee_proof(
    amount: u64,
    balance: u64,
    source: &TokenAccount,
    source_keypair: &ElGamalKeypair,
    destination: &ElGamalKeypair,
    auditor: &ElGamalKeypair,
    withheld_authority: &ElGamalKeypair,
) -> TransferWithFeeData {
    TransferWithFeeData::new(
        amount,
        (balance, &sdk_ciphertext(&state(source).available_balance)),
        source_keypair,
        (destination.pubkey(), auditor.pubkey()),
        FeeParameters {
            fee_rate_basis_points: TEST_FEE_BASIS_POINTS,
            maximum_fee: TEST_MAXIMUM_FEE,
        },
        withheld_authority.pubkey(),
    )
    .unwrap()
}

#[test]
fn confidential_transfer_initialize_and_update_mint() {
    let authority = address(2);
    let auditor = ElGamalKeypair::new_rand();
    let mint = plain_mint(Some(elgamal(&auditor)), true);
    let extension = mint.confidential_transfer.unwrap();
    assert_eq!(extension.authority, Some(authority));
    assert!(extension.auto_approve_new_accounts);
    assert_eq!(extension.auditor_elgamal_pubkey, Some(elgamal(&auditor)));

    // a configuration is set up once
    assert_eq!(
        process_initialize_mint(&mint, None, false, None),
        Err(TransferError::ExtensionAlreadyInitialized)
    );

    // the authority moves to another key
    let new_authority = address(3);
    let mut moved = mint;
    moved.confidential_transfer = Some({
        let mut config = extension;
        config.authority = Some(new_authority);
        config
    });

    // the new authority can change the mint's parameters while the old cannot
    assert_eq!(
        process_update_mint(&moved, &Signer { key: authority, is_signer: true }, false, None),
        Err(TransferError::OwnerMismatch)
    );
    assert_eq!(
        process_update_mint(&moved, &Signer { key: new_authority, is_signer: false }, false, None),
        Err(TransferError::MissingRequiredSignature)
    );
    let updated =
        process_update_mint(&moved, &Signer { key: new_authority, is_signer: true }, false, None)
            .unwrap();
    let extension = updated.confidential_transfer.unwrap();
    assert_eq!(extension.authority, Some(new_authority));
    assert!(!extension.auto_approve_new_accounts);
    assert_eq!(extension.auditor_elgamal_pubkey, None);

    // without authority the configuration is fixed
    let mut fixed = updated;
    fixed.confidential_transfer = Some({
        let mut config = extension;
        config.authority = None;
        config
    });
    assert_eq!(
        process_update_mint(&fixed, &Signer { key: new_authority, is_signer: true }, true, None),
        Err(TransferError::NoAuthorityExists)
    );
}

#[test]
fn confidential_transfer_configure_token_account() {
    let authority = address(2);
    let mint = plain_mint(None, false);
    let keypair = ElGamalKeypair::new_rand();
    let account = configured_account(10, &mint, 0, &keypair, 2);
    let extension = state(&account);
    assert!(!extension.approved);
    assert!(extension.allow_confidential_credits);
    assert!(extension.allow_non_confidential_credits);
    assert_eq!(extension.elgamal_pubkey, elgamal(&keypair));
    assert_eq!(extension.maximum_pending_balance_credit_counter, 2);
    assert_eq!(extension.pending_balance_lo, ElGamalCiphertext::zeroed());
    assert_eq!(extension.pending_balance_hi, ElGamalCiphertext::zeroed());
    assert_eq!(extension.available_balance, ElGamalCiphertext::zeroed());
    assert_eq!(extension.decryptable_available_balance, hint(0));
    assert_eq!(account.confidential_transfer_fee, None);

    // only the mint's authority approves
    assert_eq!(
        process_approve_account(&account, &mint, &Signer { key: authority, is_signer: false }),
        Err(TransferError::MissingRequiredSignature)
    );
    assert_eq!(
        process_approve_account(&account, &mint, &Signer { key: address(9), is_signer: true }),
        Err(TransferError::MissingRequiredSignature)
    );
    let approved =
        process_approve_account(&account, &mint, &Signer { key: authority, is_signer: true })
            .unwrap();
    assert!(state(&approved).approved);
    assert_eq!(
        ConfidentialTransferAccount { approved: false, ..state(&approved) },
        extension
    );

    // an account is configured once
    let proof = PubkeyValidityData::new(&keypair).unwrap();
    assert_eq!(
        process_configure_account(
            &approved,
            &mint,
            &proof_instruction(6, bytemuck::bytes_of(&proof)),
            Ok(()),
            hint(0),
            2
        ),
        Err(TransferError::ExtensionAlreadyInitialized)
    );
}

#[test]
fn confidential_transfer_enable_disable_confidential_credits() {
    let mint = plain_mint(None, true);
    let alice = ElGamalKeypair::new_rand();
    let bob = ElGamalKeypair::new_rand();
    let auditor = ElGamalKeypair::new_rand();
    let mint = Mint {
        confidential_transfer: Some({
            let mut config = mint.confidential_transfer.unwrap();
            config.auditor_elgamal_pubkey = Some(elgamal(&auditor));
            config
        }),
        ..mint
    };
    let alice_account = account_with_tokens(10, &mint, &alice, 10);
    let bob_account = configured_account(11, &mint, 10, &bob, 2);

    let closed = process_allow_confidential_credits(&bob_account, Ok(()), false).unwrap();
    assert!(!state(&closed).allow_confidential_credits);

    let proof = transfer_proof(10, 10, &alice_account, &alice, &bob, &auditor);
    let source = proof_instruction(4, bytemuck::bytes_of(&proof));
    assert_eq!(
        process_transfer(&alice_account, &closed, &mint, &source, Ok(()), false, 0, hint(2)),
        Err(TransferError::ConfidentialTransferDepositsAndTransfersDisabled)
    );
    assert_eq!(
        process_deposit(&closed, &mint, Ok(()), 10, DECIMALS),
        Err(TransferError::ConfidentialTransferDepositsAndTransfersDisabled)
    );

    let reopened = process_allow_confidential_credits(&closed, Ok(()), true).unwrap();
    assert!(state(&reopened).allow_confidential_credits);
    assert_eq!(reopened, bob_account);

    let (_, credited) =
        process_transfer(&alice_account, &reopened, &mint, &source, Ok(()), false, 0, hint(2))
            .unwrap();
    assert_eq!(decrypt(&bob, &state(&credited).pending_balance_lo), 10);
    let deposited = process_deposit(&credited, &mint, Ok(()), 10, DECIMALS).unwrap();
    assert_eq!(deposited.amount, 0);
    assert_eq!(decrypt(&bob, &state(&deposited).pending_balance_lo), 20);
}

#[test]
fn confidential_transfer_enable_disable_non_confidential_credits() {
    let mint = plain_mint(None, true);
    let bob = ElGamalKeypair::new_rand();
    let account = configured_account(11, &mint, 10, &bob, 2);
    assert_eq!(state(&account).non_confidential_transfer_allowed(), Ok(()));

    let closed = process_allow_non_confidential_credits(&account, Ok(()), false).unwrap();
    assert!(!state(&closed).allow_non_confidential_credits);
    assert_eq!(
        state(&closed).non_confidential_transfer_allowed(),
        Err(TransferError::NonConfidentialTransfersDisabled)
    );
    // confidential credits are a gate of their own
    assert!(state(&closed).allow_confidential_credits);

    let reopened = process_allow_non_confidential_credits(&closed, Ok(()), true).unwrap();
    assert_eq!(reopened, account);

    assert_eq!(
        process_allow_non_confidential_credits(&account, Err(TransferError::OwnerMismatch), false),
        Err(TransferError::OwnerMismatch)
    );
}

#[test]
fn confidential_transfer_empty_account() {
    // a newly configured account holds no balance and can be closed at once
    let mint = plain_mint(None, true);
    let alice = ElGamalKeypair::new_rand();
    let account = configured_account(10, &mint, 0, &alice, 2);
    let proof =
        ZeroBalanceProofData::new(&alice, &sdk_ciphertext(&state(&account).available_balance))
            .unwrap();
    let emptied = process_empty_account(
        &account,
        &proof_instruction(1, bytemuck::bytes_of(&proof)),
        Ok(()),
    )
    .unwrap();
    assert_eq!(emptied, account);
}

#[test]
fn confidential_transfer_deposit() {
    let mint = plain_mint(None, true);
    let alice = ElGamalKeypair::new_rand();
    let account = configured_account(10, &mint, 65537, &alice, 2);
    assert_eq!(account.amount, 65537);
    let extension = state(&account);
    assert_eq!(extension.pending_balance_credit_counter, 0);
    assert_eq!(extension.expected_pending_balance_credit_counter, 0);
    assert_eq!(extension.actual_pending_balance_credit_counter, 0);
    assert_eq!(extension.pending_balance_lo, ElGamalCiphertext::zeroed());
    assert_eq!(extension.pending_balance_hi, ElGamalCiphertext::zeroed());
    assert_eq!(extension.available_balance, ElGamalCiphertext::zeroed());

    let account = process_deposit(&account, &mint, Ok(()), 65537, DECIMALS).unwrap();
    assert_eq!(account.amount, 0);
    let extension = state(&account);
    assert_eq!(extension.pending_balance_credit_counter, 1);
    assert_eq!(extension.expected_pending_balance_credit_counter, 0);
    assert_eq!(extension.actual_pending_balance_credit_counter, 0);
    assert_eq!(decrypt(&alice, &extension.pending_balance_lo), 1);
    assert_eq!(decrypt(&alice, &extension.pending_balance_hi), 1);
    assert_eq!(decrypt(&alice, &extension.available_balance), 0);

    // deposit zero amount
    let account = process_deposit(&account, &mint, Ok(()), 0, DECIMALS).unwrap();
    assert_eq!(state(&account).pending_balance_lo, extension.pending_balance_lo);
    assert_eq!(state(&account).pending_balance_hi, extension.pending_balance_hi);
    assert_eq!(state(&account).pending_balance_credit_counter, 2);

    let account = process_apply_pending_balance(&account, Ok(()), 2, hint(5)).unwrap();
    assert_eq!(decrypt(&alice, &state(&account).available_balance), 65537);
    assert_eq!(state(&account).decryptable_available_balance, hint(5));

    // try to deposit over maximum allowed value
    let illegal_amount = MAXIMUM_DEPOSIT_TRANSFER_AMOUNT.checked_add(1).unwrap();
    let account = TokenAccount { amount: illegal_amount, ..account };
    assert_eq!(
        process_deposit(&account, &mint, Ok(()), illegal_amount, DECIMALS),
        Err(TransferError::MaximumDepositAmountExceeded)
    );

    // deposit maximum allowed value
    let account =
        process_deposit(&account, &mint, Ok(()), MAXIMUM_DEPOSIT_TRANSFER_AMOUNT, DECIMALS)
            .unwrap();

    // maximum pending balance credits exceeded
    let account = process_deposit(&account, &mint, Ok(()), 0, DECIMALS).unwrap();
    assert_eq!(
        process_deposit(&account, &mint, Ok(()), 1, DECIMALS),
        Err(TransferError::MaximumPendingBalanceCreditCounterExceeded)
    );

    assert_eq!(account.amount, 1);
    let extension = state(&account);
    assert_eq!(extension.pending_balance_credit_counter, 2);
    assert_eq!(extension.expected_pending_balance_credit_counter, 2);
    assert_eq!(extension.actual_pending_balance_credit_counter, 2);
}

#[test]
fn confidential_transfer_withdraw() {
    let mint = plain_mint(None, true);
    let alice = ElGamalKeypair::new_rand();
    let account = account_with_tokens(10, &mint, &alice, 42);
    assert_eq!(account.amount, 0);
    assert_eq!(decrypt(&alice, &state(&account).available_balance), 42);

    // withdraw zero amount
    let proof =
        WithdrawData::new(0, &alice, 42, &sdk_ciphertext(&state(&account).available_balance))
            .unwrap();
    let account = process_withdraw(
        &account,
        &mint,
        &proof_instruction(2, bytemuck::bytes_of(&proof)),
        Ok(()),
        0,
        DECIMALS,
        hint(42),
    )
    .unwrap();
    assert_eq!(account.amount, 0);
    assert_eq!(decrypt(&alice, &state(&account).available_balance), 42);
    assert_eq!(state(&account).decryptable_available_balance, hint(42));

    // withdraw entire balance
    let proof =
        WithdrawData::new(42, &alice, 42, &sdk_ciphertext(&state(&account).available_balance))
            .unwrap();
    let source = proof_instruction(2, bytemuck::bytes_of(&proof));

    // a proof made for another amount attests another ciphertext
    assert_eq!(
        process_withdraw(&account, &mint, &source, Ok(()), 41, DECIMALS, hint(0)),
        Err(TransferError::ConfidentialTransferBalanceMismatch)
    );
    assert_eq!(
        process_withdraw(&account, &mint, &source, Ok(()), 42, DECIMALS + 1, hint(0)),
        Err(TransferError::MintDecimalsMismatch)
    );

    let account =
        process_withdraw(&account, &mint, &source, Ok(()), 42, DECIMALS, hint(0)).unwrap();
    assert_eq!(account.amount, 42);
    assert_eq!(decrypt(&alice, &state(&account).available_balance), 0);
    assert_eq!(state(&account).decryptable_available_balance, hint(0));
    assert_eq!(state(&account).pending_balance_lo, ElGamalCiphertext::zeroed());
    assert_eq!(state(&account).pending_balance_hi, ElGamalCiphertext::zeroed());

    // the account can be closed
    let proof =
        ZeroBalanceProofData::new(&alice, &sdk_ciphertext(&state(&account).available_balance))
            .unwrap();
    let emptied = process_empty_account(
        &account,
        &proof_instruction(1, bytemuck::bytes_of(&proof)),
        Ok(()),
    )
    .unwrap();
    assert_eq!(state(&emptied).available_balance, ElGamalCiphertext::zeroed());
}

#[test]
fn confidential_transfer_transfer() {
    let auditor = ElGamalKeypair::new_rand();
    let mint = plain_mint(Some(elgamal(&auditor)), true);
    let alice = ElGamalKeypair::new_rand();
    let bob = ElGamalKeypair::new_rand();
    let alice_account = account_with_tokens(10, &mint, &alice, 42);
    let bob_account = configured_account(11, &mint, 0, &bob, 2);

    // Self-transfer of 0 tokens
    let proof = transfer_proof(0, 42, &alice_account, &alice, &alice, &auditor);
    let source = proof_instruction(4, bytemuck::bytes_of(&proof));
    let (alice_account, same) = process_transfer(
        &alice_account,
        &alice_account,
        &mint,
        &source,
        Ok(()),
        false,
        0,
        hint(42),
    )
    .unwrap();
    assert_eq!(alice_account, same);
    assert_eq!(decrypt(&alice, &state(&alice_account).pending_balance_lo), 0);
    assert_eq!(decrypt(&alice, &state(&alice_account).pending_balance_hi), 0);
    assert_eq!(decrypt(&alice, &state(&alice_account).available_balance), 42);
    assert_eq!(state(&alice_account).pending_balance_credit_counter, 1);

    // Self-transfer of N tokens
    let proof = transfer_proof(42, 42, &alice_account, &alice, &alice, &auditor);
    let source = proof_instruction(4, bytemuck::bytes_of(&proof));
    let (alice_account, _) = process_transfer(
        &alice_account,
        &alice_account,
        &mint,
        &source,
        Ok(()),
        false,
        0,
        hint(0),
    )
    .unwrap();
    assert_eq!(decrypt(&alice, &state(&alice_account).pending_balance_lo), 42);
    assert_eq!(decrypt(&alice, &state(&alice_account).pending_balance_hi), 0);
    assert_eq!(decrypt(&alice, &state(&alice_account).available_balance), 0);
    assert_eq!(state(&alice_account).decryptable_available_balance, hint(0));

    let alice_account = process_apply_pending_balance(&alice_account, Ok(()), 2, hint(42)).unwrap();
    assert_eq!(decrypt(&alice, &state(&alice_account).available_balance), 42);

    // transfer to bob
    let proof = transfer_proof(42, 42, &alice_account, &alice, &bob, &auditor);
    let source = proof_instruction(4, bytemuck::bytes_of(&proof));
    let (alice_after, bob_after) =
        process_transfer(&alice_account, &bob_account, &mint, &source, Ok(()), false, 0, hint(0))
            .unwrap();
    assert_eq!(decrypt(&alice, &state(&alice_after).available_balance), 0);
    assert_eq!(decrypt(&bob, &state(&bob_after).pending_balance_lo), 42);
    assert_eq!(decrypt(&bob, &state(&bob_after).pending_balance_hi), 0);
    assert_eq!(decrypt(&bob, &state(&bob_after).available_balance), 0);
    assert_eq!(state(&bob_after).pending_balance_credit_counter, 1);

    // the same proof cannot be used twice: the source's balance has moved on
    assert_eq!(
        process_transfer(&alice_after, &bob_after, &mint, &source, Ok(()), false, 0, hint(0)),
        Err(TransferError::ConfidentialTransferBalanceMismatch)
    );

    // a proof for another auditor is refused
    let stranger = ElGamalKeypair::new_rand();
    let proof = transfer_proof(42, 42, &alice_account, &alice, &bob, &stranger);
    let source = proof_instruction(4, bytemuck::bytes_of(&proof));
    assert_eq!(
        process_transfer(&alice_account, &bob_account, &mint, &source, Ok(()), false, 0, hint(0)),
        Err(TransferError::ConfidentialTransferElGamalPubkeyMismatch)
    );

    let bob_after = process_apply_pending_balance(&bob_after, Ok(()), 1, hint(42)).unwrap();
    assert_eq!(decrypt(&bob, &state(&bob_after).available_balance), 42);
    assert_eq!(decrypt(&bob, &state(&bob_after).pending_balance_lo), 0);
}

#[test]
fn ct_transfer_with_fee() {
    let auditor = ElGamalKeypair::new_rand();
    let withheld_authority = ElGamalKeypair::new_rand();
    let mint = fee_mint(Some(elgamal(&auditor)), elgamal(&withheld_authority));
    let alice = ElGamalKeypair::new_rand();
    let bob = ElGamalKeypair::new_rand();
    let alice_account = account_with_tokens(10, &mint, &alice, 100);
    let bob_account = configured_account(11, &mint, 0, &bob, 2);
    assert_eq!(
        alice_account.confidential_transfer_fee.unwrap().withheld_amount,
        ElGamalCiphertext::zeroed()
    );

    // Self-transfers does not incur a fee
    let proof = transfer_proof(100, 100, &alice_account, &alice, &alice, &auditor);
    let source = proof_instruction(4, bytemuck::bytes_of(&proof));
    let (alice_account, _) = process_transfer(
        &alice_account,
        &alice_account,
        &mint,
        &source,
        Ok(()),
        false,
        0,
        hint(0),
    )
    .unwrap();
    assert_eq!(decrypt(&alice, &state(&alice_account).pending_balance_lo), 100);
    assert_eq!(decrypt(&alice, &state(&alice_account).pending_balance_hi), 0);
    assert_eq!(decrypt(&alice, &state(&alice_account).available_balance), 0);
    assert_eq!(
        alice_account.confidential_transfer_fee.unwrap().withheld_amount,
        ElGamalCiphertext::zeroed()
    );

    let alice_account =
        process_apply_pending_balance(&alice_account, Ok(()), 2, hint(100)).unwrap();
    assert_eq!(decrypt(&alice, &state(&alice_account).available_balance), 100);

    // a plain transfer proof does not do for a transfer that owes a fee
    let plain = transfer_proof(100, 100, &alice_account, &alice, &bob, &auditor);
    assert_eq!(
        process_transfer(
            &alice_account,
            &bob_account,
            &mint,
            &proof_instruction(4, bytemuck::bytes_of(&plain)),
            Ok(()),
            false,
            0,
            hint(0)
        ),
        Err(TransferError::InvalidInstructionData)
    );

    let proof = transfer_with_fee_proof(
        100,
        100,
        &alice_account,
        &alice,
        &bob,
        &auditor,
        &withheld_authority,
    );
    let source = proof_instruction(5, bytemuck::bytes_of(&proof));

    // the mint's schedule must be the one the proof was made for
    let mut dearer = mint;
    dearer.transfer_fee = Some({
        let mut config = mint.transfer_fee.unwrap();
        config.newer_transfer_fee.maximum_fee = TEST_MAXIMUM_FEE + 1;
        config
    });
    assert_eq!(
        process_transfer(&alice_account, &bob_account, &dearer, &source, Ok(()), false, 0, hint(0)),
        Err(TransferError::FeeParametersMismatch)
    );

    let (alice_after, bob_after) =
        process_transfer(&alice_account, &bob_account, &mint, &source, Ok(()), false, 0, hint(0))
            .unwrap();
    assert_eq!(decrypt(&alice, &state(&alice_after).pending_balance_lo), 0);
    assert_eq!(decrypt(&alice, &state(&alice_after).pending_balance_hi), 0);
    assert_eq!(decrypt(&alice, &state(&alice_after).available_balance), 0);

    // Alice's account can be closed: nothing was withheld from her self-transfer
    let zero =
        ZeroBalanceProofData::new(&alice, &sdk_ciphertext(&state(&alice_after).available_balance))
            .unwrap();
    process_empty_account(&alice_after, &proof_instruction(1, bytemuck::bytes_of(&zero)), Ok(()))
        .unwrap();

    // Bob's cannot: it holds a pending balance and withheld fees
    let zero =
        ZeroBalanceProofData::new(&bob, &sdk_ciphertext(&state(&bob_after).available_balance))
            .unwrap();
    assert_eq!(
        process_empty_account(&bob_after, &proof_instruction(1, bytemuck::bytes_of(&zero)), Ok(())),
        Err(TransferError::ConfidentialTransferAccountHasBalance)
    );

    assert_eq!(decrypt(&bob, &state(&bob_after).pending_balance_lo), 97);
    assert_eq!(decrypt(&bob, &state(&bob_after).pending_balance_hi), 0);
    assert_eq!(decrypt(&bob, &state(&bob_after).available_balance), 0);
    assert_eq!(
        decrypt(&withheld_authority, &bob_after.confidential_transfer_fee.unwrap().withheld_amount),
        3
    );

    let bob_after = process_apply_pending_balance(&bob_after, Ok(()), 1, hint(97)).unwrap();
    assert_eq!(decrypt(&bob, &state(&bob_after).available_balance), 97);
    assert_eq!(decrypt(&bob, &state(&bob_after).pending_balance_lo), 0);
    assert_eq!(state(&bob_after).decryptable_available_balance, hint(97));
}

#[test]
fn confidential_transfer_transfer_memo() {
    let auditor = ElGamalKeypair::new_rand();
    let mint = plain_mint(Some(elgamal(&auditor)), true);
    let alice = ElGamalKeypair::new_rand();
    let bob = ElGamalKeypair::new_rand();
    let alice_account = account_with_tokens(10, &mint, &alice, 42);
    let bob_account =
        TokenAccount { memo_required: true, ..configured_account(11, &mint, 0, &bob, 2) };

    let proof = transfer_proof(42, 42, &alice_account, &alice, &bob, &auditor);
    let source = proof_instruction(4, bytemuck::bytes_of(&proof));

    // transfer without memo
    assert_eq!(
        process_transfer(&alice_account, &bob_account, &mint, &source, Ok(()), false, 0, hint(0)),
        Err(TransferError::NoMemo)
    );

    // transfer with memo
    let (alice_after, bob_after) =
        process_transfer(&alice_account, &bob_account, &mint, &source, Ok(()), true, 0, hint(0))
            .unwrap();
    assert_eq!(decrypt(&alice, &state(&alice_after).available_balance), 0);
    assert_eq!(decrypt(&bob, &state(&bob_after).pending_balance_lo), 42);
    assert_eq!(decrypt(&bob, &state(&bob_after).pending_balance_hi), 0);
}

#[test]
fn ct_transfer_with_fee_memo() {
    let auditor = ElGamalKeypair::new_rand();
    let withheld_authority = ElGamalKeypair::new_rand();
    let mint = fee_mint(Some(elgamal(&auditor)), elgamal(&withheld_authority));
    let alice = ElGamalKeypair::new_rand();
    let bob = ElGamalKeypair::new_rand();
    let alice_account = account_with_tokens(10, &mint, &alice, 100);
    let bob_account =
        TokenAccount { memo_required: true, ..configured_account(11, &mint, 0, &bob, 2) };

    let proof = transfer_with_fee_proof(
        100,
        100,
        &alice_account,
        &alice,
        &bob,
        &auditor,
        &withheld_authority,
    );
    let source = proof_instruction(5, bytemuck::bytes_of(&proof));

    assert_eq!(
        process_transfer(&alice_account, &bob_account, &mint, &source, Ok(()), false, 0, hint(0)),
        Err(TransferError::NoMemo)
    );

    let (alice_after, bob_after) =
        process_transfer(&alice_account, &bob_account, &mint, &source, Ok(()), true, 0, hint(0))
            .unwrap();
    assert_eq!(decrypt(&alice, &state(&alice_after).available_balance), 0);
    assert_eq!(decrypt(&bob, &state(&bob_after).pending_balance_lo), 97);
    assert_eq!(decrypt(&bob, &state(&bob_after).pending_balance_hi), 0);
}

#[test]
fn confidential_transfer_configure_token_account_with_proof_context() {
    let mint = plain_mint(None, true);
    let keypair = ElGamalKeypair::new_rand();
    let proof = PubkeyValidityData::new(&keypair).unwrap();
    let account = process_configure_account(
        &bare_account(10, &mint, 0),
        &mint,
        &context_record(6, bytemuck::bytes_of(&proof.context)),
        Ok(()),
        hint(0),
        2,
    )
    .unwrap();
    let extension = state(&account);
    assert!(extension.approved);
    assert!(extension.allow_confidential_credits);
    assert_eq!(extension.elgamal_pubkey, elgamal(&keypair));
    assert_eq!(extension.maximum_pending_balance_credit_counter, 2);
    assert_eq!(extension.decryptable_available_balance, hint(0));

    // attempt to create an account with a wrong proof type context state
    let zero = ZeroBalanceProofData::new(&keypair, &SdkCiphertext::default()).unwrap();
    assert_eq!(
        process_configure_account(
            &bare_account(11, &mint, 0),
            &mint,
            &context_record(1, bytemuck::bytes_of(&zero.context)),
            Ok(()),
            hint(0),
            2,
        ),
        Err(TransferError::InvalidArgument)
    );
}

#[test]
fn confidential_transfer_empty_account_with_proof_context() {
    let mint = plain_mint(None, true);
    let alice = ElGamalKeypair::new_rand();
    let account = configured_account(10, &mint, 0, &alice, 2);
    let zero = ZeroBalanceProofData::new(&alice, &SdkCiphertext::default()).unwrap();
    process_empty_account(&account, &context_record(1, bytemuck::bytes_of(&zero.context)), Ok(()))
        .unwrap();

    // attempt to empty an account with a wrong proof type context state
    let proof = PubkeyValidityData::new(&alice).unwrap();
    assert_eq!(
        process_empty_account(
            &account,
            &context_record(6, bytemuck::bytes_of(&proof.context)),
            Ok(())
        ),
        Err(TransferError::InvalidArgument)
    );
}

#[test]
fn confidential_transfer_withdraw_with_proof_context() {
    let mint = plain_mint(None, true);
    let alice = ElGamalKeypair::new_rand();
    let account = account_with_tokens(10, &mint, &alice, 42);
    let proof =
        WithdrawData::new(0, &alice, 42, &sdk_ciphertext(&state(&account).available_balance))
            .unwrap();
    let after = process_withdraw(
        &account,
        &mint,
        &context_record(2, bytemuck::bytes_of(&proof.context)),
        Ok(()),
        0,
        DECIMALS,
        hint(42),
    )
    .unwrap();
    assert_eq!(decrypt(&alice, &state(&after).available_balance), 42);

    // attempt to withdraw with a wrong proof type context state: a record of
    // the same length with another tag
    let zero = ZeroBalanceProofData::new(&alice, &SdkCiphertext::default()).unwrap();
    let wrong = context_record(1, bytemuck::bytes_of(&zero.context));
    assert_eq!(
        process_withdraw(&account, &mint, &wrong, Ok(()), 0, DECIMALS, hint(42)),
        Err(TransferError::InvalidInstructionData)
    );
}

#[test]
fn confidential_transfer_transfer_with_proof_context() {
    let auditor = ElGamalKeypair::new_rand();
    let mint = plain_mint(Some(elgamal(&auditor)), true);
    let alice = ElGamalKeypair::new_rand();
    let bob = ElGamalKeypair::new_rand();
    let alice_account = account_with_tokens(10, &mint, &alice, 42);
    let bob_account = configured_account(11, &mint, 0, &bob, 2);

    let proof = transfer_proof(42, 42, &alice_account, &alice, &bob, &auditor);
    let (alice_after, bob_after) = process_transfer(
        &alice_account,
        &bob_account,
        &mint,
        &context_record(4, bytemuck::bytes_of(&proof.context)),
        Ok(()),
        false,
        0,
        hint(0),
    )
    .unwrap();
    assert_eq!(decrypt(&alice, &state(&alice_after).available_balance), 0);
    assert_eq!(decrypt(&bob, &state(&bob_after).pending_balance_lo), 42);

    // attempt to transfer with a wrong proof type context state
    let wrong = WithdrawData::new(
        0,
        &alice,
        42,
        &sdk_ciphertext(&state(&alice_account).available_balance),
    )
    .unwrap();
    assert_eq!(
        process_transfer(
            &alice_account,
            &bob_account,
            &mint,
            &context_record(2, bytemuck::bytes_of(&wrong.context)),
            Ok(()),
            false,
            0,
            hint(0),
        ),
        Err(TransferError::InvalidArgument)
    );
}
