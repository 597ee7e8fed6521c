use vstd::prelude::*;

use crate::authority::spec_escrow_authority;
use crate::error::AuctionError;
use crate::processor::{
    spec_finalize_outcome, spec_init_outcome, spec_init_record, spec_settle_outcome,
    BalanceAccount, FinalizeEffects, OwnedAccount, PartyAccount,
};
use crate::requests::RequestModel;
use crate::state::{lemma_codec_round_trip, spec_decode};

verus! {

/// Every valid Initiate opens the record: the written bytes decode to an
/// open record whose identities are exactly the input accounts' and whose
/// ask is the declared amount, and the emitted request hands the custody
/// account from the initializer to the derived authority.
pub proof fn lemma_initiate_opens_record(
    initializer: PartyAccount,
    custody: Seq<u8>,
    receive: OwnedAccount,
    record_bytes: Seq<u8>,
    rent_exempt: bool,
    token_ledger: Seq<u8>,
    program_id: Seq<u8>,
    amount: u64,
)
    requires
        initializer.is_signer,
        receive.owner@ == token_ledger,
        rent_exempt,
        custody.len() == 32,
        spec_decode(record_bytes) matches Some(m) && !m.is_initialized,
        spec_escrow_authority(program_id) is Some,
    ensures
        ({
            let out = spec_init_outcome(
                initializer,
                custody,
                receive,
                record_bytes,
                rent_exempt,
                token_ledger,
                program_id,
                amount,
            );
            match (out, spec_escrow_authority(program_id)) {
                (Ok(eff), Some(auth)) => {
                    &&& eff.0 == RequestModel::ChangeAuthority {
                        account: custody,
                        new_authority: auth.0,
                        current_authority: initializer.identity@,
                    }
                    &&& spec_decode(eff.1) == Some(
                        spec_init_record(initializer.identity@, custody, receive.identity@, amount),
                    )
                },
                _ => false,
            }
        }),
{
    lemma_codec_round_trip(
        spec_init_record(initializer.identity@, custody, receive.identity@, amount),
    );
}

/// Initiate on an already-open record fails with DoubleInitFailure, however
/// the rest of the call is formed; that the record bytes stay unchanged is
/// part of the processing function's own contract.
pub proof fn lemma_double_initiate_rejected(
    initializer: PartyAccount,
    custody: Seq<u8>,
    receive: OwnedAccount,
    record_bytes: Seq<u8>,
    rent_exempt: bool,
    token_ledger: Seq<u8>,
    program_id: Seq<u8>,
    amount: u64,
)
    requires
        initializer.is_signer,
        receive.owner@ == token_ledger,
        rent_exempt,
        spec_decode(record_bytes) matches Some(m) && m.is_initialized,
    ensures
        spec_init_outcome(
            initializer,
            custody,
            receive,
            record_bytes,
            rent_exempt,
            token_ledger,
            program_id,
            amount,
        ) == Err::<(RequestModel, Seq<u8>), AuctionError>(AuctionError::DoubleInitFailure),
{
}

/// Settle-Leg's amount rule: an expectation below the custody amount is
/// refused with AmountBelowAskFailure, and an expectation at or above it
/// succeeds and moves exactly the recorded ask amount — not the caller's
/// expectation — to the initializer's receive account.
pub proof fn lemma_settle_amount_rule(
    bidder: PartyAccount,
    bidder_source: Seq<u8>,
    custody: Seq<u8>,
    custody_amount: u64,
    initializer_main: Seq<u8>,
    initializer_receive: Seq<u8>,
    record_bytes: Seq<u8>,
    expected: u64,
)
    requires
        bidder.is_signer,
        spec_decode(record_bytes) matches Some(m) && {
            &&& m.is_initialized
            &&& m.custody == custody
            &&& m.initializer == initializer_main
            &&& m.receive == initializer_receive
        },
    ensures
        expected < custody_amount ==> spec_settle_outcome(
            bidder,
            bidder_source,
            custody,
            custody_amount,
            initializer_main,
            initializer_receive,
            record_bytes,
            expected,
        ) == Err::<RequestModel, AuctionError>(AuctionError::AmountBelowAskFailure),
        expected >= custody_amount ==> spec_settle_outcome(
            bidder,
            bidder_source,
            custody,
            custody_amount,
            initializer_main,
            initializer_receive,
            record_bytes,
            expected,
        ) == Ok::<RequestModel, AuctionError>(
            RequestModel::Transfer {
                amount: match spec_decode(record_bytes) {
                    Some(m) => m.ask,
                    None => 0,
                },
                source: bidder_source,
                destination: initializer_receive,
                authority: bidder.identity@,
                authority_proof: None,
            },
        ),
{
}

/// Finalize-And-Close demands an exact amount match: an expectation that
/// differs from the custody amount in either direction is refused with
/// AmountMismatchFailure, so no exchange requests are issued; that nothing
/// is mutated then is part of the processing function's own contract.
pub proof fn lemma_finalize_exact_amount(
    bidder: PartyAccount,
    bidder_source: Seq<u8>,
    bidder_receive: Seq<u8>,
    custody: Seq<u8>,
    custody_amount: u64,
    initializer_main: BalanceAccount,
    initializer_receive: Seq<u8>,
    record_bytes: Seq<u8>,
    record_lamports: u64,
    program_id: Seq<u8>,
    expected: u64,
)
    requires
        bidder.is_signer,
        expected != custody_amount,
        spec_decode(record_bytes) matches Some(m) && {
            &&& m.is_initialized
            &&& m.custody == custody
            &&& m.initializer == initializer_main.identity@
            &&& m.receive == initializer_receive
        },
    ensures
        spec_finalize_outcome(
            bidder,
            bidder_source,
            bidder_receive,
            custody,
            custody_amount,
            initializer_main,
            initializer_receive,
            record_bytes,
            record_lamports,
            program_id,
            expected,
        ) == Err::<FinalizeEffects, AuctionError>(AuctionError::AmountMismatchFailure),
{
}

/// An identity cross-check mismatch — custody account, initializer, or
/// receive account differing from what the open record stores — is refused
/// with IdentityMismatchFailure, whatever the amounts, by Settle-Leg and by
/// Finalize-And-Close alike.
pub proof fn lemma_identity_mismatch_rejected(
    bidder: PartyAccount,
    bidder_source: Seq<u8>,
    bidder_receive: Seq<u8>,
    custody: Seq<u8>,
    custody_amount: u64,
    initializer_main: BalanceAccount,
    initializer_receive: Seq<u8>,
    record_bytes: Seq<u8>,
    record_lamports: u64,
    program_id: Seq<u8>,
    expected: u64,
)
    requires
        bidder.is_signer,
        spec_decode(record_bytes) matches Some(m) && m.is_initialized && {
            ||| m.custody != custody
            ||| m.initializer != initializer_main.identity@
            ||| m.receive != initializer_receive
        },
    ensures
        spec_settle_outcome(
            bidder,
            bidder_source,
            custody,
            custody_amount,
            initializer_main.identity@,
            initializer_receive,
            record_bytes,
            expected,
        ) == Err::<RequestModel, AuctionError>(AuctionError::IdentityMismatchFailure),
        spec_finalize_outcome(
            bidder,
            bidder_source,
            bidder_receive,
            custody,
            custody_amount,
            initializer_main,
            initializer_receive,
            record_bytes,
            record_lamports,
            program_id,
            expected,
        ) == Err::<FinalizeEffects, AuctionError>(AuctionError::IdentityMismatchFailure),
{
}

/// A storage-deposit reclamation that would overflow the initializer's
/// balance fails with ArithmeticOverflowFailure; that both balances stay
/// unchanged is part of the processing function's own contract.
pub proof fn lemma_reclamation_overflow_rejected(
    bidder: PartyAccount,
    bidder_source: Seq<u8>,
    bidder_receive: Seq<u8>,
    custody: Seq<u8>,
    custody_amount: u64,
    initializer_main: BalanceAccount,
    initializer_receive: Seq<u8>,
    record_bytes: Seq<u8>,
    record_lamports: u64,
    program_id: Seq<u8>,
    expected: u64,
)
    requires
        bidder.is_signer,
        expected == custody_amount,
        initializer_main.lamports + record_lamports > u64::MAX,
        spec_escrow_authority(program_id) is Some,
        spec_decode(record_bytes) matches Some(m) && {
            &&& m.is_initialized
            &&& m.custody == custody
            &&& m.initializer == initializer_main.identity@
            &&& m.receive == initializer_receive
        },
    ensures
        spec_finalize_outcome(
            bidder,
            bidder_source,
            bidder_receive,
            custody,
            custody_amount,
            initializer_main,
            initializer_receive,
            record_bytes,
            record_lamports,
            program_id,
            expected,
        ) == Err::<FinalizeEffects, AuctionError>(AuctionError::ArithmeticOverflowFailure),
{
}

} // verus!
