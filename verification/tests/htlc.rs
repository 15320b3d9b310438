use fusion_swap::htlc::{
    create_htlc, initialize, redeem_htlc, redeem_with_digest, refund_htlc, same_bytes,
    CreateHTLC, HTLCAccount, HTLCError, Initialize, Pubkey, RedeemHTLC, RefundHTLC, HTLC,
};

const AUTHORITY: Pubkey = [1; 32];
const SENDER: Pubkey = [2; 32];
const RECIPIENT: Pubkey = [3; 32];
const HTLC_KEY: Pubkey = [4; 32];
const VAULT: Pubkey = [5; 32];
const PROGRAM_ACCOUNT: Pubkey = [6; 32];
const SENDER_TOKENS: Pubkey = [7; 32];
const RECIPIENT_TOKENS: Pubkey = [8; 32];
const PREIMAGE: [u8; 32] = [0; 32];

/// The SHA-256 digest of thirty-two zero bytes.
const HASHLOCK: [u8; 32] = [
    0x66, 0x68, 0x7a, 0xad, 0xf8, 0x62, 0xbd, 0x77, 0x6c, 0x8f, 0xc1, 0x8b, 0x8e, 0x9f, 0x8e, 0x20,
    0x08, 0x97, 0x14, 0x85, 0x6e, 0xe2, 0x33, 0xb3, 0x90, 0x2a, 0x59, 0x1d, 0x0d, 0x5f, 0x29, 0x25,
];

fn program_account() -> HTLCAccount {
    initialize(&Initialize { authority: AUTHORITY, bump: 254 })
}

fn create_accounts() -> CreateHTLC {
    CreateHTLC {
        htlc: HTLC_KEY,
        htlc_token_account: VAULT,
        htlc_account: program_account(),
        authority: AUTHORITY,
        sender: SENDER,
        recipient: RECIPIENT,
        sender_token_account: SENDER_TOKENS,
    }
}

fn open_contract() -> HTLC {
    create_htlc(&create_accounts(), 100, HASHLOCK, 200, 1000).unwrap().htlc
}

fn redeem_accounts(htlc: HTLC) -> RedeemHTLC {
    RedeemHTLC {
        htlc_key: HTLC_KEY,
        htlc,
        htlc_token_account: VAULT,
        htlc_account_key: PROGRAM_ACCOUNT,
        htlc_account: program_account(),
        authority: AUTHORITY,
        recipient: RECIPIENT,
        recipient_token_account: RECIPIENT_TOKENS,
    }
}

fn refund_accounts(htlc: HTLC) -> RefundHTLC {
    RefundHTLC {
        htlc_key: HTLC_KEY,
        htlc,
        htlc_token_account: VAULT,
        htlc_account_key: PROGRAM_ACCOUNT,
        htlc_account: program_account(),
        authority: AUTHORITY,
        sender: SENDER,
        sender_token_account: SENDER_TOKENS,
    }
}

#[test]
fn initialize_records_authority_and_bump() {
    let account = program_account();
    assert_eq!(account.authority, AUTHORITY);
    assert_eq!(account.bump, 254);
}

#[test]
fn same_bytes_compares_every_byte() {
    let mut other = HASHLOCK;
    assert!(same_bytes(&HASHLOCK, &other));
    other[31] ^= 1;
    assert!(!same_bytes(&HASHLOCK, &other));
    other[31] ^= 1;
    other[0] ^= 0x80;
    assert!(!same_bytes(&HASHLOCK, &other));
}

#[test]
fn create_opens_a_contract_and_moves_the_tokens_in() {
    let created = create_htlc(&create_accounts(), 100, HASHLOCK, 200, 1000).unwrap();
    assert_eq!(created.htlc.sender, SENDER);
    assert_eq!(created.htlc.recipient, RECIPIENT);
    assert_eq!(created.htlc.hashlock, HASHLOCK);
    assert_eq!(created.htlc.timelock, 200);
    assert_eq!(created.htlc.amount, 1000);
    assert!(!created.htlc.withdrawn);
    assert!(!created.htlc.refunded);
    assert_eq!(created.htlc.preimage, None);
    assert_eq!(created.htlc.created_at, 100);
    assert_eq!(created.transfer.from, SENDER_TOKENS);
    assert_eq!(created.transfer.to, VAULT);
    assert_eq!(created.transfer.authority, SENDER);
    assert_eq!(created.transfer.amount, 1000);
    assert_eq!(created.event.htlc, HTLC_KEY);
    assert_eq!(created.event.sender, SENDER);
    assert_eq!(created.event.recipient, RECIPIENT);
    assert_eq!(created.event.hashlock, HASHLOCK);
    assert_eq!(created.event.timelock, 200);
    assert_eq!(created.event.amount, 1000);
}

#[test]
fn create_needs_a_later_timelock_and_a_positive_amount() {
    let accounts = create_accounts();
    assert_eq!(
        create_htlc(&accounts, 100, HASHLOCK, 100, 1000).unwrap_err(),
        HTLCError::InvalidTimelock
    );
    assert_eq!(
        create_htlc(&accounts, 100, HASHLOCK, -5, 1000).unwrap_err(),
        HTLCError::InvalidTimelock
    );
    assert_eq!(
        create_htlc(&accounts, 100, HASHLOCK, 101, 0).unwrap_err(),
        HTLCError::InvalidAmount
    );
    assert_eq!(
        create_htlc(&accounts, 100, HASHLOCK, 100, 0).unwrap_err(),
        HTLCError::InvalidTimelock
    );
    assert!(create_htlc(&accounts, 100, HASHLOCK, 101, 1).is_ok());
    assert!(create_htlc(&accounts, -10, HASHLOCK, -9, 1).is_ok());
}

#[test]
fn create_needs_the_program_authority() {
    let mut accounts = create_accounts();
    accounts.authority = SENDER;
    assert_eq!(
        create_htlc(&accounts, 100, HASHLOCK, 50, 0).unwrap_err(),
        HTLCError::InvalidAuthority
    );
}

#[test]
fn redeem_with_the_preimage_pays_the_recipient() {
    let redeemed = redeem_htlc(&redeem_accounts(open_contract()), PREIMAGE).unwrap();
    assert!(redeemed.htlc.withdrawn);
    assert!(!redeemed.htlc.refunded);
    assert_eq!(redeemed.htlc.preimage, Some(PREIMAGE));
    assert_eq!(redeemed.htlc.amount, 1000);
    assert_eq!(redeemed.htlc.hashlock, HASHLOCK);
    assert_eq!(redeemed.htlc.timelock, 200);
    assert_eq!(redeemed.htlc.created_at, 100);
    assert_eq!(redeemed.transfer.from, VAULT);
    assert_eq!(redeemed.transfer.to, RECIPIENT_TOKENS);
    assert_eq!(redeemed.transfer.authority, PROGRAM_ACCOUNT);
    assert_eq!(redeemed.transfer.amount, 1000);
    assert_eq!(redeemed.event.htlc, HTLC_KEY);
    assert_eq!(redeemed.event.preimage, PREIMAGE);
    assert_eq!(redeemed.event.recipient, RECIPIENT);
}

#[test]
fn redeem_rejects_every_other_preimage() {
    let accounts = redeem_accounts(open_contract());
    let mut wrong = PREIMAGE;
    wrong[0] = 1;
    assert_eq!(redeem_htlc(&accounts, wrong).unwrap_err(), HTLCError::InvalidPreimage);
    assert_eq!(redeem_htlc(&accounts, HASHLOCK).unwrap_err(), HTLCError::InvalidPreimage);
}

#[test]
fn redeem_with_digest_compares_digest_and_hashlock() {
    let accounts = redeem_accounts(open_contract());
    let mut wrong = HASHLOCK;
    wrong[5] ^= 1;
    assert_eq!(
        redeem_with_digest(&accounts, PREIMAGE, &wrong).unwrap_err(),
        HTLCError::InvalidPreimage
    );
    assert!(redeem_with_digest(&accounts, PREIMAGE, &HASHLOCK).is_ok());
}

#[test]
fn redeem_is_for_the_recipient_and_only_once() {
    let mut accounts = redeem_accounts(open_contract());
    accounts.recipient = SENDER;
    assert_eq!(redeem_htlc(&accounts, PREIMAGE).unwrap_err(), HTLCError::InvalidRecipient);
    let mut accounts = redeem_accounts(open_contract());
    accounts.authority = SENDER;
    assert_eq!(redeem_htlc(&accounts, PREIMAGE).unwrap_err(), HTLCError::InvalidAuthority);
    let redeemed = redeem_htlc(&redeem_accounts(open_contract()), PREIMAGE).unwrap();
    assert_eq!(
        redeem_htlc(&redeem_accounts(redeemed.htlc), PREIMAGE).unwrap_err(),
        HTLCError::AlreadyWithdrawn
    );
    assert_eq!(
        refund_htlc(&refund_accounts(redeemed.htlc), 1_000).unwrap_err(),
        HTLCError::AlreadyWithdrawn
    );
}

#[test]
fn htlc_refund_waits_for_the_timelock() {
    let accounts = refund_accounts(open_contract());
    assert_eq!(refund_htlc(&accounts, 100).unwrap_err(), HTLCError::TimelockNotExpired);
    assert_eq!(refund_htlc(&accounts, 199).unwrap_err(), HTLCError::TimelockNotExpired);
    let refunded = refund_htlc(&accounts, 200).unwrap();
    assert!(refunded.htlc.refunded);
    assert!(!refunded.htlc.withdrawn);
    assert_eq!(refunded.htlc.preimage, None);
    assert_eq!(refunded.htlc.amount, 1000);
    assert_eq!(refunded.transfer.from, VAULT);
    assert_eq!(refunded.transfer.to, SENDER_TOKENS);
    assert_eq!(refunded.transfer.authority, PROGRAM_ACCOUNT);
    assert_eq!(refunded.transfer.amount, 1000);
    assert_eq!(refunded.event.htlc, HTLC_KEY);
    assert_eq!(refunded.event.sender, SENDER);
}

#[test]
fn refund_is_for_the_sender_and_only_once() {
    let mut accounts = refund_accounts(open_contract());
    accounts.sender = RECIPIENT;
    assert_eq!(refund_htlc(&accounts, 500).unwrap_err(), HTLCError::InvalidSender);
    let mut accounts = refund_accounts(open_contract());
    accounts.authority = SENDER;
    assert_eq!(refund_htlc(&accounts, 500).unwrap_err(), HTLCError::InvalidAuthority);
    let refunded = refund_htlc(&refund_accounts(open_contract()), 500).unwrap();
    assert_eq!(
        refund_htlc(&refund_accounts(refunded.htlc), 500).unwrap_err(),
        HTLCError::AlreadyRefunded
    );
    assert_eq!(
        redeem_htlc(&redeem_accounts(refunded.htlc), PREIMAGE).unwrap_err(),
        HTLCError::AlreadyRefunded
    );
}
