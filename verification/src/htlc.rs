//! A hash-time-locked contract over 32-byte preimages and keys: the
//! recipient redeems by showing the preimage of the hashlock, the sender
//! takes the tokens back once the timelock has passed.
//!
//! Each instruction decides alone. It hands back the record as it is to be
//! stored together with the token transfer and the event; the host stores
//! the record only if the transfer went through.

use vstd::prelude::*;

verus! {

/// The address of an account.
pub type Pubkey = [u8; 32];

/// Why an instruction was refused.
#[derive(Clone, Copy, Debug, PartialEq, Eq, Structural)]
pub enum HTLCError {
    InvalidTimelock,
    InvalidAmount,
    AlreadyWithdrawn,
    AlreadyRefunded,
    InvalidRecipient,
    InvalidSender,
    InvalidPreimage,
    TimelockNotExpired,
    InvalidAuthority,
}

/// The program's own account, which holds the escrowed tokens' authority.
#[derive(Clone, Copy, Debug)]
pub struct HTLCAccount {
    pub authority: Pubkey,
    pub bump: u8,
}

/// One contract.
#[derive(Clone, Copy, Debug)]
pub struct HTLC {
    pub sender: Pubkey,
    pub recipient: Pubkey,
    pub hashlock: [u8; 32],
    pub timelock: i64,
    pub amount: u64,
    pub withdrawn: bool,
    pub refunded: bool,
    pub preimage: Option<[u8; 32]>,
    pub created_at: i64,
}

#[derive(Clone, Copy, Debug)]
pub struct HTLCCreated {
    pub htlc: Pubkey,
    pub sender: Pubkey,
    pub recipient: Pubkey,
    pub hashlock: [u8; 32],
    pub timelock: i64,
    pub amount: u64,
}

#[derive(Clone, Copy, Debug)]
pub struct HTLCRedeemed {
    pub htlc: Pubkey,
    pub preimage: [u8; 32],
    pub recipient: Pubkey,
}

#[derive(Clone, Copy, Debug)]
pub struct HTLCRefunded {
    pub htlc: Pubkey,
    pub sender: Pubkey,
}

/// A transfer of tokens between two token accounts, signed for by `authority`.
#[derive(Clone, Copy, Debug)]
pub struct TokenTransfer {
    pub from: Pubkey,
    pub to: Pubkey,
    pub authority: Pubkey,
    pub amount: u64,
}

/// The accounts of `initialize`.
#[derive(Clone, Copy, Debug)]
pub struct Initialize {
    pub authority: Pubkey,
    /// The bump of the program account's address.
    pub bump: u8,
}

/// The accounts of `create_htlc`.
#[derive(Clone, Copy, Debug)]
pub struct CreateHTLC {
    /// The address of the contract to be created.
    pub htlc: Pubkey,
    pub htlc_token_account: Pubkey,
    pub htlc_account: HTLCAccount,
    pub authority: Pubkey,
    pub sender: Pubkey,
    pub recipient: Pubkey,
    pub sender_token_account: Pubkey,
}

/// The accounts of `redeem_htlc`.
#[derive(Clone, Copy, Debug)]
pub struct RedeemHTLC {
    pub htlc_key: Pubkey,
    pub htlc: HTLC,
    pub htlc_token_account: Pubkey,
    pub htlc_account_key: Pubkey,
    pub htlc_account: HTLCAccount,
    pub authority: Pubkey,
    /// The signer.
    pub recipient: Pubkey,
    pub recipient_token_account: Pubkey,
}

/// The accounts of `refund_htlc`.
#[derive(Clone, Copy, Debug)]
pub struct RefundHTLC {
    pub htlc_key: Pubkey,
    pub htlc: HTLC,
    pub htlc_token_account: Pubkey,
    pub htlc_account_key: Pubkey,
    pub htlc_account: HTLCAccount,
    pub authority: Pubkey,
    /// The signer.
    pub sender: Pubkey,
    pub sender_token_account: Pubkey,
}

/// What an accepted `create_htlc` hands back.
#[derive(Clone, Copy, Debug)]
pub struct Creation {
    pub htlc: HTLC,
    pub transfer: TokenTransfer,
    pub event: HTLCCreated,
}

/// What an accepted `redeem_htlc` hands back.
#[derive(Clone, Copy, Debug)]
pub struct Redemption {
    pub htlc: HTLC,
    pub transfer: TokenTransfer,
    pub event: HTLCRedeemed,
}

/// What an accepted `refund_htlc` hands back.
#[derive(Clone, Copy, Debug)]
pub struct Refund {
    pub htlc: HTLC,
    pub transfer: TokenTransfer,
    pub event: HTLCRefunded,
}

/// The SHA-256 digest that the ledger's hash function gives for `data`.
pub uninterp spec fn ledger_hash(data: Seq<u8>) -> Seq<u8>;

/// Calls `solana_sha256_hasher::hash` and takes the bytes of its result.
/// Trusted: the 32 bytes are the SHA-256 digest of `data`.
#[verifier::external_body]
fn hash(data: &[u8]) -> (digest: [u8; 32])
    ensures
        digest@ == ledger_hash(data@),
{
    solana_sha256_hasher::hash(data).to_bytes()
}

/// Whether two 32-byte strings are the same.
pub fn same_bytes(a: &[u8; 32], b: &[u8; 32]) -> (same: bool)
    ensures
        same == (a@ == b@),
        same == (*a == *b),
{
    broadcast use vstd::array::group_array_axioms;

    let mut i: usize = 0;
    while i < 32
        invariant
            i <= 32,
            forall|j: int| 0 <= j < i ==> a@[j] == b@[j],
        decreases 32 - i,
    {
        if a[i] != b[i] {
            assert(a@[i as int] != b@[i as int]);
            return false;
        }
        i += 1;
    }
    assert(a@ =~= b@);
    assert(*a =~= *b);
    true
}

/// The program account that `initialize` sets up.
pub fn initialize(ctx: &Initialize) -> (account: HTLCAccount)
    ensures
        account.authority == ctx.authority,
        account.bump == ctx.bump,
{
    HTLCAccount { authority: ctx.authority, bump: ctx.bump }
}

/// What `create_htlc` answers at `now`.
pub open spec fn create_check(ctx: CreateHTLC, now: i64, timelock: i64, amount: u64) -> Result<
    (),
    HTLCError,
> {
    if ctx.htlc_account.authority != ctx.authority {
        Err(HTLCError::InvalidAuthority)
    } else if timelock <= now {
        Err(HTLCError::InvalidTimelock)
    } else if amount == 0 {
        Err(HTLCError::InvalidAmount)
    } else {
        Ok(())
    }
}

/// Opens a contract over `amount` tokens that unlocks for the preimage of
/// `hashlock` and falls back to the sender at `timelock`, which must lie
/// after `now`. The tokens go from the sender's token account to the
/// contract's, signed for by the sender.
pub fn create_htlc(ctx: &CreateHTLC, now: i64, hashlock: [u8; 32], timelock: i64, amount: u64) -> (result:
    Result<Creation, HTLCError>)
    ensures
        match create_check(*ctx, now, timelock, amount) {
            Err(error) => result == Err::<Creation, HTLCError>(error),
            Ok(_) => result == Ok::<Creation, HTLCError>(
                Creation {
                    htlc: HTLC {
                        sender: ctx.sender,
                        recipient: ctx.recipient,
                        hashlock,
                        timelock,
                        amount,
                        withdrawn: false,
                        refunded: false,
                        preimage: None,
                        created_at: now,
                    },
                    transfer: TokenTransfer {
                        from: ctx.sender_token_account,
                        to: ctx.htlc_token_account,
                        authority: ctx.sender,
                        amount,
                    },
                    event: HTLCCreated {
                        htlc: ctx.htlc,
                        sender: ctx.sender,
                        recipient: ctx.recipient,
                        hashlock,
                        timelock,
                        amount,
                    },
                },
            ),
        },
{
    if !same_bytes(&ctx.htlc_account.authority, &ctx.authority) {
        return Err(HTLCError::InvalidAuthority);
    }
    if timelock <= now {
        return Err(HTLCError::InvalidTimelock);
    }
    if amount == 0 {
        return Err(HTLCError::InvalidAmount);
    }
    Ok(
        Creation {
            htlc: HTLC {
                sender: ctx.sender,
                recipient: ctx.recipient,
                hashlock,
                timelock,
                amount,
                withdrawn: false,
                refunded: false,
                preimage: None,
                created_at: now,
            },
            transfer: TokenTransfer {
                from: ctx.sender_token_account,
                to: ctx.htlc_token_account,
                authority: ctx.sender,
                amount,
            },
            event: HTLCCreated {
                htlc: ctx.htlc,
                sender: ctx.sender,
                recipient: ctx.recipient,
                hashlock,
                timelock,
                amount,
            },
        },
    )
}

/// What a redemption answers, given whether the preimage hashes to the hashlock.
pub open spec fn redeem_check(ctx: RedeemHTLC, opens: bool) -> Result<(), HTLCError> {
    if ctx.htlc.withdrawn {
        Err(HTLCError::AlreadyWithdrawn)
    } else if ctx.htlc.refunded {
        Err(HTLCError::AlreadyRefunded)
    } else if ctx.htlc_account.authority != ctx.authority {
        Err(HTLCError::InvalidAuthority)
    } else if ctx.htlc.recipient != ctx.recipient {
        Err(HTLCError::InvalidRecipient)
    } else if !opens {
        Err(HTLCError::InvalidPreimage)
    } else {
        Ok(())
    }
}

/// What an accepted redemption with `preimage` hands back.
pub open spec fn redemption(ctx: RedeemHTLC, preimage: [u8; 32]) -> Redemption {
    Redemption {
        htlc: HTLC { withdrawn: true, preimage: Some(preimage), ..ctx.htlc },
        transfer: TokenTransfer {
            from: ctx.htlc_token_account,
            to: ctx.recipient_token_account,
            authority: ctx.htlc_account_key,
            amount: ctx.htlc.amount,
        },
        event: HTLCRedeemed { htlc: ctx.htlc_key, preimage, recipient: ctx.htlc.recipient },
    }
}

/// The redemption of a contract by its recipient, given the digest of the
/// preimage: the digest must be the hashlock. All tokens go to the
/// recipient's token account, and the contract counts as withdrawn with
/// the preimage on record.
pub fn redeem_with_digest(ctx: &RedeemHTLC, preimage: [u8; 32], digest: &[u8; 32]) -> (result:
    Result<Redemption, HTLCError>)
    ensures
        match redeem_check(*ctx, digest@ == ctx.htlc.hashlock@) {
            Err(error) => result == Err::<Redemption, HTLCError>(error),
            Ok(_) => result == Ok::<Redemption, HTLCError>(redemption(*ctx, preimage)),
        },
{
    if ctx.htlc.withdrawn {
        return Err(HTLCError::AlreadyWithdrawn);
    }
    if ctx.htlc.refunded {
        return Err(HTLCError::AlreadyRefunded);
    }
    if !same_bytes(&ctx.htlc_account.authority, &ctx.authority) {
        return Err(HTLCError::InvalidAuthority);
    }
    if !same_bytes(&ctx.htlc.recipient, &ctx.recipient) {
        return Err(HTLCError::InvalidRecipient);
    }
    if !same_bytes(digest, &ctx.htlc.hashlock) {
        return Err(HTLCError::InvalidPreimage);
    }
    Ok(
        Redemption {
            htlc: HTLC {
                sender: ctx.htlc.sender,
                recipient: ctx.htlc.recipient,
                hashlock: ctx.htlc.hashlock,
                timelock: ctx.htlc.timelock,
                amount: ctx.htlc.amount,
                withdrawn: true,
                refunded: ctx.htlc.refunded,
                preimage: Some(preimage),
                created_at: ctx.htlc.created_at,
            },
            transfer: TokenTransfer {
                from: ctx.htlc_token_account,
                to: ctx.recipient_token_account,
                authority: ctx.htlc_account_key,
                amount: ctx.htlc.amount,
            },
            event: HTLCRedeemed {
                htlc: ctx.htlc_key,
                preimage,
                recipient: ctx.htlc.recipient,
            },
        },
    )
}

/// The redemption of a contract by its recipient with the preimage, whose
/// SHA-256 digest must be the hashlock. See `redeem_with_digest` for what
/// follows.
pub fn redeem_htlc(ctx: &RedeemHTLC, preimage: [u8; 32]) -> (result: Result<Redemption, HTLCError>)
    ensures
        match redeem_check(*ctx, ledger_hash(preimage@) == ctx.htlc.hashlock@) {
            Err(error) => result == Err::<Redemption, HTLCError>(error),
            Ok(_) => result == Ok::<Redemption, HTLCError>(redemption(*ctx, preimage)),
        },
{
    let digest = hash(preimage.as_slice());
    redeem_with_digest(ctx, preimage, &digest)
}

/// What `refund_htlc` answers at `now`.
pub open spec fn refund_check(ctx: RefundHTLC, now: i64) -> Result<(), HTLCError> {
    if ctx.htlc.withdrawn {
        Err(HTLCError::AlreadyWithdrawn)
    } else if ctx.htlc.refunded {
        Err(HTLCError::AlreadyRefunded)
    } else if ctx.htlc_account.authority != ctx.authority {
        Err(HTLCError::InvalidAuthority)
    } else if ctx.htlc.sender != ctx.sender {
        Err(HTLCError::InvalidSender)
    } else if now < ctx.htlc.timelock {
        Err(HTLCError::TimelockNotExpired)
    } else {
        Ok(())
    }
}

/// The refund of a contract to its sender once the timelock has passed.
/// All tokens go back to the sender's token account, and the contract
/// counts as refunded.
pub fn refund_htlc(ctx: &RefundHTLC, now: i64) -> (result: Result<Refund, HTLCError>)
    ensures
        match refund_check(*ctx, now) {
            Err(error) => result == Err::<Refund, HTLCError>(error),
            Ok(_) => result == Ok::<Refund, HTLCError>(
                Refund {
                    htlc: HTLC { refunded: true, ..ctx.htlc },
                    transfer: TokenTransfer {
                        from: ctx.htlc_token_account,
                        to: ctx.sender_token_account,
                        authority: ctx.htlc_account_key,
                        amount: ctx.htlc.amount,
                    },
                    event: HTLCRefunded { htlc: ctx.htlc_key, sender: ctx.htlc.sender },
                },
            ),
        },
{
    if ctx.htlc.withdrawn {
        return Err(HTLCError::AlreadyWithdrawn);
    }
    if ctx.htlc.refunded {
        return Err(HTLCError::AlreadyRefunded);
    }
    if !same_bytes(&ctx.htlc_account.authority, &ctx.authority) {
        return Err(HTLCError::InvalidAuthority);
    }
    if !same_bytes(&ctx.htlc.sender, &ctx.sender) {
        return Err(HTLCError::InvalidSender);
    }
    if now < ctx.htlc.timelock {
        return Err(HTLCError::TimelockNotExpired);
    }
    Ok(
        Refund {
            htlc: HTLC {
                sender: ctx.htlc.sender,
                recipient: ctx.htlc.recipient,
                hashlock: ctx.htlc.hashlock,
                timelock: ctx.htlc.timelock,
                amount: ctx.htlc.amount,
                withdrawn: ctx.htlc.withdrawn,
                refunded: true,
                preimage: ctx.htlc.preimage,
                created_at: ctx.htlc.created_at,
            },
            transfer: TokenTransfer {
                from: ctx.htlc_token_account,
                to: ctx.sender_token_account,
                authority: ctx.htlc_account_key,
                amount: ctx.htlc.amount,
            },
            event: HTLCRefunded { htlc: ctx.htlc_key, sender: ctx.htlc.sender },
        },
    )
}

/// A contract pays out once: after a redemption no second redemption and no
/// refund is accepted, after a refund no redemption and no second refund,
/// and a refund is never accepted before the timelock.
pub proof fn lemma_redeem_and_refund_exclude(
    redeem: RedeemHTLC,
    refund: RefundHTLC,
    preimage: [u8; 32],
    opens: bool,
    now: i64,
)
    ensures
        refund_check(refund, now) is Ok ==> now >= refund.htlc.timelock,
        redeem_check(redeem, opens) is Ok ==> opens,
        redeem.htlc == redemption(redeem, preimage).htlc ==> redeem_check(redeem, opens) == Err::<
            (),
            HTLCError,
        >(HTLCError::AlreadyWithdrawn),
        refund.htlc == redemption(redeem, preimage).htlc ==> refund_check(refund, now) == Err::<
            (),
            HTLCError,
        >(HTLCError::AlreadyWithdrawn),
        refund.htlc.refunded && !refund.htlc.withdrawn ==> refund_check(refund, now) == Err::<
            (),
            HTLCError,
        >(HTLCError::AlreadyRefunded),
        redeem.htlc.refunded && !redeem.htlc.withdrawn ==> redeem_check(redeem, opens) == Err::<
            (),
            HTLCError,
        >(HTLCError::AlreadyRefunded),
{
}

} // verus!
