use vstd::prelude::*;

use crate::authority::{derive_escrow_authority, spec_escrow_authority};
use crate::error::AuctionError;
use crate::identity::Identity;
use crate::requests::{ExchangeRequest, RequestModel};
use crate::state::{spec_decode, Auction, AuctionModel};

verus! {

/// A party to the operation: its identity and whether it signed.
#[derive(Clone, Copy, Debug, PartialEq)]
pub struct PartyAccount {
    pub identity: Identity,
    pub is_signer: bool,
}

/// An account together with the program that owns it.
#[derive(Clone, Copy, Debug, PartialEq)]
pub struct OwnedAccount {
    pub identity: Identity,
    pub owner: Identity,
}

/// An account whose storage-deposit balance the processor may credit.
#[derive(Clone, Copy, Debug, PartialEq)]
pub struct BalanceAccount {
    pub identity: Identity,
    pub lamports: u64,
}

/// The auction-record account: its storage-deposit balance and its data
/// region, which holds the encoded record.
#[derive(Debug, PartialEq)]
pub struct RecordAccount {
    pub lamports: u64,
    pub data: Vec<u8>,
}

/// The amount field of an encoded token-ledger account: the little-endian
/// integer at bytes 64..72 of its fixed layout.
pub open spec fn spec_token_amount(s: Seq<u8>) -> u64 {
    vstd::bytes::spec_u64_from_le_bytes(s.subrange(64, 72))
}

/// A well-formed tag of one of the token account layout's optional fields:
/// a little-endian 32-bit 0 or 1 at the given offset.
pub open spec fn spec_coption_tag_ok(s: Seq<u8>, at: int) -> bool {
    (s[at] == 0 || s[at] == 1) && s[at + 1] == 0 && s[at + 2] == 0 && s[at + 3] == 0
}

/// When the token ledger's codec accepts a byte region as an initialized
/// token account: exactly 165 bytes, well-formed tags for the delegate,
/// native and close-authority options (at offsets 72, 109 and 129), and a
/// state byte at offset 108 naming an initialized or frozen account.
pub open spec fn spec_token_account_parses(s: Seq<u8>) -> bool {
    &&& s.len() == 165
    &&& spec_coption_tag_ok(s, 72)
    &&& (s[108] == 1 || s[108] == 2)
    &&& spec_coption_tag_ok(s, 109)
    &&& spec_coption_tag_ok(s, 129)
}

/// The record written by a successful Initiate: open, with every identity
/// taken from the corresponding input account.
pub open spec fn spec_init_record(
    initializer: Seq<u8>,
    custody: Seq<u8>,
    receive: Seq<u8>,
    amount: u64,
) -> AuctionModel {
    AuctionModel {
        is_initialized: true,
        initializer: initializer,
        custody: custody,
        receive: receive,
        ask: amount,
    }
}

/// What Initiate returns and writes, for every input: either the
/// authority-change request and the new record bytes, or the error that the
/// first failing precondition dictates.
pub open spec fn spec_init_outcome(
    initializer: PartyAccount,
    custody: Seq<u8>,
    receive: OwnedAccount,
    record_bytes: Seq<u8>,
    rent_exempt: bool,
    token_ledger: Seq<u8>,
    program_id: Seq<u8>,
    amount: u64,
) -> Result<(RequestModel, Seq<u8>), AuctionError> {
    if !initializer.is_signer {
        Err(AuctionError::AuthorizationFailure)
    } else if receive.owner@ != token_ledger {
        Err(AuctionError::WrongOwnerFailure)
    } else if !rent_exempt {
        Err(AuctionError::StorageExemptionFailure)
    } else {
        match spec_decode(record_bytes) {
            Option::None => Err(AuctionError::RecordDecodeFailure),
            Option::Some(m) => {
                if m.is_initialized {
                    Err(AuctionError::DoubleInitFailure)
                } else {
                    match spec_escrow_authority(program_id) {
                        Option::None => Err(AuctionError::AuthorityDerivationFailure),
                        Option::Some(auth) => Ok(
                            (
                                RequestModel::ChangeAuthority {
                                    account: custody,
                                    new_authority: auth.0,
                                    current_authority: initializer.identity@,
                                },
                                spec_init_record(
                                    initializer.identity@,
                                    custody,
                                    receive.identity@,
                                    amount,
                                ).spec_encoding(),
                            ),
                        ),
                    }
                }
            },
        }
    }
}

/// What Settle-Leg returns, for every input: the payment-leg transfer of
/// exactly the recorded ask amount, or the error that the first failing
/// precondition dictates. Identity cross-checks dominate the amount check.
pub open spec fn spec_settle_outcome(
    bidder: PartyAccount,
    bidder_source: Seq<u8>,
    custody: Seq<u8>,
    custody_amount: u64,
    initializer_main: Seq<u8>,
    initializer_receive: Seq<u8>,
    record_bytes: Seq<u8>,
    expected: u64,
) -> Result<RequestModel, AuctionError> {
    if !bidder.is_signer {
        Err(AuctionError::AuthorizationFailure)
    } else {
        match spec_decode(record_bytes) {
            Option::None => Err(AuctionError::RecordDecodeFailure),
            Option::Some(m) => {
                if !m.is_initialized {
                    Err(AuctionError::RecordNotOpenFailure)
                } else if m.custody != custody || m.initializer != initializer_main || m.receive
                    != initializer_receive {
                    Err(AuctionError::IdentityMismatchFailure)
                } else if expected < custody_amount {
                    Err(AuctionError::AmountBelowAskFailure)
                } else {
                    Ok(
                        RequestModel::Transfer {
                            amount: m.ask,
                            source: bidder_source,
                            destination: initializer_receive,
                            authority: bidder.identity@,
                            authority_proof: Option::None,
                        },
                    )
                }
            },
        }
    }
}

/// What a successful Finalize-And-Close effects: the three exchange
/// requests, in order, and the initializer's balance after reclaiming the
/// record account's storage deposit.
#[verifier::ext_equal]
pub struct FinalizeEffects {
    pub requests: Seq<RequestModel>,
    pub initializer_lamports: u64,
}

/// What Finalize-And-Close returns and effects, for every input: the
/// payment leg, the custody release signed by the derived authority, the
/// custody-account closure refunding the initializer, and the reclamation
/// of the record account's deposit — or the error that the first failing
/// precondition dictates. Identity cross-checks dominate the amount check,
/// and an overflowing reclamation aborts with nothing mutated.
pub open spec fn spec_finalize_outcome(
    bidder: PartyAccount,
    bidder_source: Seq<u8>,
    bidder_receive: Seq<u8>,
    custody: Seq<u8>,
    custody_amount: u64,
    initializer_main: BalanceAccount,
    initializer_receive: Seq<u8>,
    record_bytes: Seq<u8>,
    record_lamports: u64,
    program_id: Seq<u8>,
    expected: u64,
) -> Result<FinalizeEffects, AuctionError> {
    if !bidder.is_signer {
        Err(AuctionError::AuthorizationFailure)
    } else {
        match spec_decode(record_bytes) {
            Option::None => Err(AuctionError::RecordDecodeFailure),
            Option::Some(m) => {
                if !m.is_initialized {
                    Err(AuctionError::RecordNotOpenFailure)
                } else if m.custody != custody || m.initializer != initializer_main.identity@
                    || m.receive != initializer_receive {
                    Err(AuctionError::IdentityMismatchFailure)
                } else if expected != custody_amount {
                    Err(AuctionError::AmountMismatchFailure)
                } else {
                    match spec_escrow_authority(program_id) {
                        Option::None => Err(AuctionError::AuthorityDerivationFailure),
                        Option::Some(auth) => {
                            if initializer_main.lamports + record_lamports > u64::MAX {
                                Err(AuctionError::ArithmeticOverflowFailure)
                            } else {
                                Ok(
                                    FinalizeEffects {
                                        requests: seq![
                                            RequestModel::Transfer {
                                                amount: m.ask,
                                                source: bidder_source,
                                                destination: initializer_receive,
                                                authority: bidder.identity@,
                                                authority_proof: Option::None,
                                            },
                                            RequestModel::Transfer {
                                                amount: custody_amount,
                                                source: custody,
                                                destination: bidder_receive,
                                                authority: auth.0,
                                                authority_proof: Option::Some(auth.1),
                                            },
                                            RequestModel::CloseAccount {
                                                account: custody,
                                                refund_destination: initializer_main.identity@,
                                                authority: auth.0,
                                                authority_bump: auth.1,
                                            },
                                        ],
                                        initializer_lamports: (initializer_main.lamports
                                            + record_lamports) as u64,
                                    },
                                )
                            }
                        },
                    }
                }
            },
        }
    }
}

/// Relies on spl_token::state::Account::unpack: it accepts exactly the
/// 165-byte initialized layout that `spec_token_account_parses` describes,
/// and the amount field is the little-endian integer at bytes 64..72.
#[verifier::external_body]
fn token_account_amount(data: &Vec<u8>) -> (r: Result<u64, AuctionError>)
    ensures
        r is Ok <==> spec_token_account_parses(data@),
        match r {
            Ok(amount) => amount == spec_token_amount(data@),
            Err(e) => e == AuctionError::CustodyDecodeFailure,
        },
{
    match <spl_token::state::Account as spl_token::solana_program::program_pack::Pack>::unpack(
        data.as_slice(),
    ) {
        Ok(account) => Ok(account.amount),
        Err(_) => Err(AuctionError::CustodyDecodeFailure),
    }
}

pub struct Processor;

impl Processor {
    /// Initiate: opens the escrow. Validates the initializer's signature,
    /// the receive account's owner and the record account's storage
    /// exemption, refuses a record that is already open, writes the open
    /// record, and asks the executor to hand the custody account to the
    /// derived authority.
    pub fn process_init_auction(
        initializer: &PartyAccount,
        temp_token_account: &Identity,
        token_to_receive_account: &OwnedAccount,
        auction_account: &mut RecordAccount,
        rent_exempt: bool,
        token_ledger: &Identity,
        program_id: &Identity,
        amount: u64,
    ) -> (r: Result<ExchangeRequest, AuctionError>)
        ensures
            ({
                let out = spec_init_outcome(
                    *initializer,
                    temp_token_account@,
                    *token_to_receive_account,
                    old(auction_account).data@,
                    rent_exempt,
                    token_ledger@,
                    program_id@,
                    amount,
                );
                match (r, out) {
                    (Ok(req), Ok(eff)) => req@ == eff.0 && final(auction_account).data@ == eff.1,
                    (Err(e), Err(se)) => e == se && final(auction_account).data@ == old(
                        auction_account,
                    ).data@,
                    _ => false,
                }
            }),
            final(auction_account).lamports == old(auction_account).lamports,
    {
        if !initializer.is_signer {
            return Err(AuctionError::AuthorizationFailure);
        }
        if !(token_to_receive_account.owner == *token_ledger) {
            return Err(AuctionError::WrongOwnerFailure);
        }
        if !rent_exempt {
            return Err(AuctionError::StorageExemptionFailure);
        }
        let auction_info = match Auction::unpack_from_slice(auction_account.data.as_slice()) {
            Ok(a) => a,
            Err(e) => {
                return Err(e);
            },
        };
        if auction_info.is_initialized() {
            return Err(AuctionError::DoubleInitFailure);
        }
        let (pda, _bump) = match derive_escrow_authority(program_id) {
            Some(p) => p,
            None => {
                return Err(AuctionError::AuthorityDerivationFailure);
            },
        };
        let record = Auction {
            is_initialized: true,
            initializer_pubkey: initializer.identity,
            temp_token_account_pubkey: *temp_token_account,
            initializer_token_to_receive_account_pubkey: token_to_receive_account.identity,
            bid_amount: amount,
        };
        record.pack_into_slice(&mut auction_account.data);
        Ok(
            ExchangeRequest::ChangeAuthority {
                account: *temp_token_account,
                new_authority: pda,
                current_authority: initializer.identity,
            },
        )
    }

    /// Settle-Leg with the custody amount already read: validates the
    /// bidder's signature, the open record and the three identity
    /// cross-checks, refuses an expectation below the custody amount, and
    /// asks the executor to move exactly the recorded ask amount from the
    /// bidder's source account to the initializer's receive account.
    pub fn settle_leg(
        bidder: &PartyAccount,
        bidder_sending_token_account: &Identity,
        pdas_temp_token_account: &Identity,
        custody_amount: u64,
        initializers_main_account: &Identity,
        initializers_token_to_receive_account: &Identity,
        auction_account: &RecordAccount,
        amount_expected_by_bidder: u64,
    ) -> (r: Result<ExchangeRequest, AuctionError>)
        ensures
            ({
                let out = spec_settle_outcome(
                    *bidder,
                    bidder_sending_token_account@,
                    pdas_temp_token_account@,
                    custody_amount,
                    initializers_main_account@,
                    initializers_token_to_receive_account@,
                    auction_account.data@,
                    amount_expected_by_bidder,
                );
                match (r, out) {
                    (Ok(req), Ok(mreq)) => req@ == mreq,
                    (Err(e), Err(se)) => e == se,
                    _ => false,
                }
            }),
    {
        if !bidder.is_signer {
            return Err(AuctionError::AuthorizationFailure);
        }
        let auction_info = match Auction::unpack(auction_account.data.as_slice()) {
            Ok(a) => a,
            Err(e) => {
                return Err(e);
            },
        };
        if !(auction_info.temp_token_account_pubkey == *pdas_temp_token_account) {
            return Err(AuctionError::IdentityMismatchFailure);
        }
        if !(auction_info.initializer_pubkey == *initializers_main_account) {
            return Err(AuctionError::IdentityMismatchFailure);
        }
        if !(auction_info.initializer_token_to_receive_account_pubkey
            == *initializers_token_to_receive_account) {
            return Err(AuctionError::IdentityMismatchFailure);
        }
        if amount_expected_by_bidder < custody_amount {
            return Err(AuctionError::AmountBelowAskFailure);
        }
        Ok(
            ExchangeRequest::Transfer {
                amount: auction_info.bid_amount,
                source: *bidder_sending_token_account,
                destination: *initializers_token_to_receive_account,
                authority: bidder.identity,
                authority_proof: None,
            },
        )
    }

    /// Settle-Leg as invoked: reads the custody amount out of the custody
    /// account's bytes, then settles. When the custody bytes parse as an
    /// initialized token account the outcome is exactly that of
    /// `settle_leg` on the parsed amount; when they do not, the operation
    /// is refused.
    pub fn process_place_bid(
        bidder: &PartyAccount,
        bidder_sending_token_account: &Identity,
        pdas_temp_token_account: &Identity,
        pdas_temp_token_account_data: &Vec<u8>,
        initializers_main_account: &Identity,
        initializers_token_to_receive_account: &Identity,
        auction_account: &RecordAccount,
        amount_expected_by_bidder: u64,
    ) -> (r: Result<ExchangeRequest, AuctionError>)
        ensures
            !bidder.is_signer ==> r == Err::<ExchangeRequest, AuctionError>(
                AuctionError::AuthorizationFailure,
            ),
            bidder.is_signer && !spec_token_account_parses(pdas_temp_token_account_data@) ==> r
                == Err::<ExchangeRequest, AuctionError>(AuctionError::CustodyDecodeFailure),
            bidder.is_signer && spec_token_account_parses(pdas_temp_token_account_data@) ==> ({
                let out = spec_settle_outcome(
                    *bidder,
                    bidder_sending_token_account@,
                    pdas_temp_token_account@,
                    spec_token_amount(pdas_temp_token_account_data@),
                    initializers_main_account@,
                    initializers_token_to_receive_account@,
                    auction_account.data@,
                    amount_expected_by_bidder,
                );
                match (r, out) {
                    (Ok(req), Ok(mreq)) => req@ == mreq,
                    (Err(e), Err(se)) => e == se,
                    _ => false,
                }
            }),
    {
        if !bidder.is_signer {
            return Err(AuctionError::AuthorizationFailure);
        }
        let custody_amount = match token_account_amount(pdas_temp_token_account_data) {
            Ok(a) => a,
            Err(e) => {
                return Err(e);
            },
        };
        Self::settle_leg(
            bidder,
            bidder_sending_token_account,
            pdas_temp_token_account,
            custody_amount,
            initializers_main_account,
            initializers_token_to_receive_account,
            auction_account,
            amount_expected_by_bidder,
        )
    }

    /// Finalize-And-Close with the custody amount already read: validates as
    /// Settle-Leg does but demands the expectation equal the custody amount
    /// exactly, then, as one unit, asks the executor for the payment leg,
    /// the custody release and the custody-account closure, and reclaims the
    /// record account's storage deposit into the initializer's balance,
    /// zeroing the record's balance and data.
    pub fn finalize_and_close(
        bidder: &PartyAccount,
        bidder_sending_token_account: &Identity,
        bidder_token_to_receive_account: &Identity,
        pdas_temp_token_account: &Identity,
        custody_amount: u64,
        initializers_main_account: &mut BalanceAccount,
        initializers_token_to_receive_account: &Identity,
        auction_account: &mut RecordAccount,
        program_id: &Identity,
        amount_expected_by_bidder: u64,
    ) -> (r: Result<Vec<ExchangeRequest>, AuctionError>)
        ensures
            ({
                let out = spec_finalize_outcome(
                    *bidder,
                    bidder_sending_token_account@,
                    bidder_token_to_receive_account@,
                    pdas_temp_token_account@,
                    custody_amount,
                    *old(initializers_main_account),
                    initializers_token_to_receive_account@,
                    old(auction_account).data@,
                    old(auction_account).lamports,
                    program_id@,
                    amount_expected_by_bidder,
                );
                match (r, out) {
                    (Ok(reqs), Ok(eff)) => {
                        &&& reqs@.len() == 3
                        &&& reqs@[0]@ == eff.requests[0]
                        &&& reqs@[1]@ == eff.requests[1]
                        &&& reqs@[2]@ == eff.requests[2]
                        &&& final(initializers_main_account).identity == old(
                            initializers_main_account,
                        ).identity
                        &&& final(initializers_main_account).lamports == eff.initializer_lamports
                        &&& final(auction_account).lamports == 0
                        &&& final(auction_account).data@ == Seq::<u8>::empty()
                    },
                    (Err(e), Err(se)) => {
                        &&& e == se
                        &&& *final(initializers_main_account) == *old(initializers_main_account)
                        &&& *final(auction_account) == *old(auction_account)
                    },
                    _ => false,
                }
            }),
    {
        if !bidder.is_signer {
            return Err(AuctionError::AuthorizationFailure);
        }
        let auction_info = match Auction::unpack(auction_account.data.as_slice()) {
            Ok(a) => a,
            Err(e) => {
                return Err(e);
            },
        };
        if !(auction_info.temp_token_account_pubkey == *pdas_temp_token_account) {
            return Err(AuctionError::IdentityMismatchFailure);
        }
        if !(auction_info.initializer_pubkey == initializers_main_account.identity) {
            return Err(AuctionError::IdentityMismatchFailure);
        }
        if !(auction_info.initializer_token_to_receive_account_pubkey
            == *initializers_token_to_receive_account) {
            return Err(AuctionError::IdentityMismatchFailure);
        }
        if amount_expected_by_bidder != custody_amount {
            return Err(AuctionError::AmountMismatchFailure);
        }
        let (pda, bump) = match derive_escrow_authority(program_id) {
            Some(p) => p,
            None => {
                return Err(AuctionError::AuthorityDerivationFailure);
            },
        };
        let new_lamports = match initializers_main_account.lamports.checked_add(
            auction_account.lamports,
        ) {
            Some(v) => v,
            None => {
                return Err(AuctionError::ArithmeticOverflowFailure);
            },
        };
        initializers_main_account.lamports = new_lamports;
        auction_account.lamports = 0;
        auction_account.data = Vec::new();
        let mut requests: Vec<ExchangeRequest> = Vec::new();
        requests.push(
            ExchangeRequest::Transfer {
                amount: auction_info.bid_amount,
                source: *bidder_sending_token_account,
                destination: *initializers_token_to_receive_account,
                authority: bidder.identity,
                authority_proof: None,
            },
        );
        requests.push(
            ExchangeRequest::Transfer {
                amount: custody_amount,
                source: *pdas_temp_token_account,
                destination: *bidder_token_to_receive_account,
                authority: pda,
                authority_proof: Some(bump),
            },
        );
        requests.push(
            ExchangeRequest::CloseAccount {
                account: *pdas_temp_token_account,
                refund_destination: initializers_main_account.identity,
                authority: pda,
                authority_bump: bump,
            },
        );
        Ok(requests)
    }

    /// Finalize-And-Close as invoked: reads the custody amount out of the
    /// custody account's bytes, then finalizes. When the custody bytes
    /// parse as an initialized token account the outcome is exactly that of
    /// `finalize_and_close` on the parsed amount; when they do not, the
    /// operation is refused with nothing mutated.
    pub fn process_bid_winner(
        bidder: &PartyAccount,
        bidder_sending_token_account: &Identity,
        bidder_token_to_receive_account: &Identity,
        pdas_temp_token_account: &Identity,
        pdas_temp_token_account_data: &Vec<u8>,
        initializers_main_account: &mut BalanceAccount,
        initializers_token_to_receive_account: &Identity,
        auction_account: &mut RecordAccount,
        program_id: &Identity,
        amount_expected_by_bidder: u64,
    ) -> (r: Result<Vec<ExchangeRequest>, AuctionError>)
        ensures
            r is Err ==> {
                &&& *final(initializers_main_account) == *old(initializers_main_account)
                &&& *final(auction_account) == *old(auction_account)
            },
            !bidder.is_signer ==> r == Err::<Vec<ExchangeRequest>, AuctionError>(
                AuctionError::AuthorizationFailure,
            ),
            bidder.is_signer && !spec_token_account_parses(pdas_temp_token_account_data@) ==> r
                == Err::<Vec<ExchangeRequest>, AuctionError>(AuctionError::CustodyDecodeFailure),
            bidder.is_signer && spec_token_account_parses(pdas_temp_token_account_data@) ==> ({
                let out = spec_finalize_outcome(
                    *bidder,
                    bidder_sending_token_account@,
                    bidder_token_to_receive_account@,
                    pdas_temp_token_account@,
                    spec_token_amount(pdas_temp_token_account_data@),
                    *old(initializers_main_account),
                    initializers_token_to_receive_account@,
                    old(auction_account).data@,
                    old(auction_account).lamports,
                    program_id@,
                    amount_expected_by_bidder,
                );
                match (r, out) {
                    (Ok(reqs), Ok(eff)) => {
                        &&& reqs@.len() == 3
                        &&& reqs@[0]@ == eff.requests[0]
                        &&& reqs@[1]@ == eff.requests[1]
                        &&& reqs@[2]@ == eff.requests[2]
                        &&& final(initializers_main_account).identity == old(
                            initializers_main_account,
                        ).identity
                        &&& final(initializers_main_account).lamports == eff.initializer_lamports
                        &&& final(auction_account).lamports == 0
                        &&& final(auction_account).data@ == Seq::<u8>::empty()
                    },
                    (Err(e), Err(se)) => e == se,
                    _ => false,
                }
            }),
    {
        if !bidder.is_signer {
            return Err(AuctionError::AuthorizationFailure);
        }
        let custody_amount = match token_account_amount(pdas_temp_token_account_data) {
            Ok(a) => a,
            Err(e) => {
                return Err(e);
            },
        };
        Self::finalize_and_close(
            bidder,
            bidder_sending_token_account,
            bidder_token_to_receive_account,
            pdas_temp_token_account,
            custody_amount,
            initializers_main_account,
            initializers_token_to_receive_account,
            auction_account,
            program_id,
            amount_expected_by_bidder,
        )
    }
}

/// One decoded inbound operation, each carrying its caller-declared amount.
/// The decoding of raw operation bytes into these variants is the dispatch
/// wiring's job.
#[derive(Clone, Copy, Debug, PartialEq)]
pub enum Operation {
    Initiate { amount: u64 },
    SettleLeg { amount: u64 },
    FinalizeAndClose { amount: u64 },
}

/// What the dispatch wiring reads from the supplied ledger accounts before
/// handing an operation to the processor. The party is the acting account:
/// the initializer for Initiate, the bidder otherwise.
pub struct EscrowAccounts {
    pub party: PartyAccount,
    pub party_source: Identity,
    pub party_receive: Identity,
    pub custody: Identity,
    pub custody_data: Vec<u8>,
    pub receive: OwnedAccount,
    pub initializer_main: BalanceAccount,
    pub auction: RecordAccount,
    pub rent_exempt: bool,
}

impl Processor {
    /// Dispatches one decoded operation to its transition. Exactly the
    /// accounts that transition mutates may change; every emitted request is
    /// pinned by the corresponding outcome.
    pub fn process(
        op: &Operation,
        accounts: &mut EscrowAccounts,
        token_ledger: &Identity,
        program_id: &Identity,
    ) -> (r: Result<Vec<ExchangeRequest>, AuctionError>)
        ensures
            final(accounts).party == old(accounts).party,
            final(accounts).party_source == old(accounts).party_source,
            final(accounts).party_receive == old(accounts).party_receive,
            final(accounts).custody == old(accounts).custody,
            final(accounts).custody_data@ == old(accounts).custody_data@,
            final(accounts).receive == old(accounts).receive,
            final(accounts).rent_exempt == old(accounts).rent_exempt,
            final(accounts).initializer_main.identity == old(accounts).initializer_main.identity,
            match *op {
                Operation::Initiate { amount } => ({
                    let out = spec_init_outcome(
                        old(accounts).party,
                        old(accounts).custody@,
                        old(accounts).receive,
                        old(accounts).auction.data@,
                        old(accounts).rent_exempt,
                        token_ledger@,
                        program_id@,
                        amount,
                    );
                    &&& final(accounts).initializer_main == old(accounts).initializer_main
                    &&& final(accounts).auction.lamports == old(accounts).auction.lamports
                    &&& match (r, out) {
                        (Ok(reqs), Ok(eff)) => reqs@.len() == 1 && reqs@[0]@ == eff.0
                            && final(accounts).auction.data@ == eff.1,
                        (Err(e), Err(se)) => e == se
                            && final(accounts).auction.data@ == old(accounts).auction.data@,
                        _ => false,
                    }
                }),
                Operation::SettleLeg { amount } => ({
                    let out = spec_settle_outcome(
                        old(accounts).party,
                        old(accounts).party_source@,
                        old(accounts).custody@,
                        spec_token_amount(old(accounts).custody_data@),
                        old(accounts).initializer_main.identity@,
                        old(accounts).receive.identity@,
                        old(accounts).auction.data@,
                        amount,
                    );
                    &&& final(accounts).initializer_main == old(accounts).initializer_main
                    &&& final(accounts).auction == old(accounts).auction
                    &&& (!old(accounts).party.is_signer ==> r == Err::<
                        Vec<ExchangeRequest>,
                        AuctionError,
                    >(AuctionError::AuthorizationFailure))
                    &&& (old(accounts).party.is_signer && !spec_token_account_parses(
                        old(accounts).custody_data@,
                    ) ==> r == Err::<Vec<ExchangeRequest>, AuctionError>(
                        AuctionError::CustodyDecodeFailure,
                    ))
                    &&& (old(accounts).party.is_signer && spec_token_account_parses(
                        old(accounts).custody_data@,
                    ) ==> match (r, out) {
                        (Ok(reqs), Ok(mreq)) => reqs@.len() == 1 && reqs@[0]@ == mreq,
                        (Err(e), Err(se)) => e == se,
                        _ => false,
                    })
                }),
                Operation::FinalizeAndClose { amount } => ({
                    let out = spec_finalize_outcome(
                        old(accounts).party,
                        old(accounts).party_source@,
                        old(accounts).party_receive@,
                        old(accounts).custody@,
                        spec_token_amount(old(accounts).custody_data@),
                        old(accounts).initializer_main,
                        old(accounts).receive.identity@,
                        old(accounts).auction.data@,
                        old(accounts).auction.lamports,
                        program_id@,
                        amount,
                    );
                    &&& (r is Err ==> final(accounts).initializer_main
                        == old(accounts).initializer_main
                        && final(accounts).auction == old(accounts).auction)
                    &&& (!old(accounts).party.is_signer ==> r == Err::<
                        Vec<ExchangeRequest>,
                        AuctionError,
                    >(AuctionError::AuthorizationFailure))
                    &&& (old(accounts).party.is_signer && !spec_token_account_parses(
                        old(accounts).custody_data@,
                    ) ==> r == Err::<Vec<ExchangeRequest>, AuctionError>(
                        AuctionError::CustodyDecodeFailure,
                    ))
                    &&& (old(accounts).party.is_signer && spec_token_account_parses(
                        old(accounts).custody_data@,
                    ) ==> match (r, out) {
                        (Ok(reqs), Ok(eff)) => {
                            &&& reqs@.len() == 3
                            &&& reqs@[0]@ == eff.requests[0]
                            &&& reqs@[1]@ == eff.requests[1]
                            &&& reqs@[2]@ == eff.requests[2]
                            &&& final(accounts).initializer_main.lamports
                                == eff.initializer_lamports
                            &&& final(accounts).auction.lamports == 0
                            &&& final(accounts).auction.data@ == Seq::<u8>::empty()
                        },
                        (Err(e), Err(se)) => e == se,
                        _ => false,
                    })
                }),
            },
    {
        match op {
            Operation::Initiate { amount } => {
                let req = match Self::process_init_auction(
                    &accounts.party,
                    &accounts.custody,
                    &accounts.receive,
                    &mut accounts.auction,
                    accounts.rent_exempt,
                    token_ledger,
                    program_id,
                    *amount,
                ) {
                    Ok(req) => req,
                    Err(e) => {
                        return Err(e);
                    },
                };
                let mut requests: Vec<ExchangeRequest> = Vec::new();
                requests.push(req);
                Ok(requests)
            },
            Operation::SettleLeg { amount } => {
                let req = match Self::process_place_bid(
                    &accounts.party,
                    &accounts.party_source,
                    &accounts.custody,
                    &accounts.custody_data,
                    &accounts.initializer_main.identity,
                    &accounts.receive.identity,
                    &accounts.auction,
                    *amount,
                ) {
                    Ok(req) => req,
                    Err(e) => {
                        return Err(e);
                    },
                };
                let mut requests: Vec<ExchangeRequest> = Vec::new();
                requests.push(req);
                Ok(requests)
            },
            Operation::FinalizeAndClose { amount } => {
                Self::process_bid_winner(
                    &accounts.party,
                    &accounts.party_source,
                    &accounts.party_receive,
                    &accounts.custody,
                    &accounts.custody_data,
                    &mut accounts.initializer_main,
                    &accounts.receive.identity,
                    &mut accounts.auction,
                    program_id,
                    *amount,
                )
            },
        }
    }
}

} // verus!
