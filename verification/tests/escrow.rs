use aucty_program::authority::derive_escrow_authority;
use aucty_program::error::AuctionError;
use aucty_program::identity::Identity;
use aucty_program::processor::{
    BalanceAccount, EscrowAccounts, Operation, OwnedAccount, PartyAccount, Processor,
    RecordAccount,
};
use aucty_program::requests::{compile_request, ExchangeRequest};
use aucty_program::state::Auction;

use spl_token::solana_program::program_option::COption;
use spl_token::solana_program::program_pack::Pack;
use spl_token::solana_program::pubkey::Pubkey;
use spl_token::state::{Account as TokenAccount, AccountState};

fn id(n: u8) -> Identity {
    Identity { bytes: [n; 32] }
}

fn sample_record() -> Auction {
    Auction {
        is_initialized: true,
        initializer_pubkey: id(1),
        temp_token_account_pubkey: id(2),
        initializer_token_to_receive_account_pubkey: id(3),
        bid_amount: 500,
    }
}

/// Packs a real token-ledger account holding `amount` units.
fn token_account_bytes(owner: Identity, amount: u64) -> Vec<u8> {
    let account = TokenAccount {
        mint: Pubkey::new_from_array([9; 32]),
        owner: Pubkey::new_from_array(owner.bytes),
        amount,
        delegate: COption::None,
        state: AccountState::Initialized,
        is_native: COption::None,
        delegated_amount: 0,
        close_authority: COption::None,
    };
    let mut buf = vec![0u8; TokenAccount::LEN];
    TokenAccount::pack(account, &mut buf).unwrap();
    buf
}

fn token_ledger() -> Identity {
    Identity { bytes: spl_token::id().to_bytes() }
}

fn expected_authority(program_id: Identity) -> (Identity, u8) {
    let (address, bump) = Pubkey::find_program_address(
        &[b"auction"],
        &Pubkey::new_from_array(program_id.bytes),
    );
    (Identity { bytes: address.to_bytes() }, bump)
}

#[test]
fn codec_round_trip() {
    let record = sample_record();
    let bytes = record.pack();
    assert_eq!(bytes.len(), 105);
    let decoded = Auction::unpack_from_slice(&bytes).unwrap();
    assert_eq!(decoded, record);
}

#[test]
fn codec_exact_layout() {
    let record = sample_record();
    let bytes = record.pack();
    let mut expected = vec![1u8];
    expected.extend_from_slice(&[1; 32]);
    expected.extend_from_slice(&[2; 32]);
    expected.extend_from_slice(&[3; 32]);
    expected.extend_from_slice(&500u64.to_le_bytes());
    assert_eq!(bytes, expected);
}

#[test]
fn decode_all_zero_is_uninitialized() {
    let bytes = vec![0u8; 105];
    let decoded = Auction::unpack_from_slice(&bytes).unwrap();
    assert!(!decoded.is_initialized());
    assert_eq!(decoded.bid_amount, 0);
    assert_eq!(decoded.initializer_pubkey, id(0));
}

#[test]
fn decode_short_buffer_fails() {
    let bytes = vec![0u8; 10];
    assert_eq!(
        Auction::unpack_from_slice(&bytes),
        Err(AuctionError::RecordDecodeFailure)
    );
}

#[test]
fn decode_bad_flag_fails() {
    let mut bytes = vec![0u8; 105];
    bytes[0] = 2;
    assert_eq!(
        Auction::unpack_from_slice(&bytes),
        Err(AuctionError::RecordDecodeFailure)
    );
}

#[test]
fn checked_decode_demands_open_record() {
    let bytes = vec![0u8; 105];
    assert_eq!(Auction::unpack(&bytes), Err(AuctionError::RecordNotOpenFailure));
}

#[test]
fn initiate_opens_record_and_delegates_custody() {
    let initializer = PartyAccount { identity: id(1), is_signer: true };
    let custody = id(2);
    let receive = OwnedAccount { identity: id(3), owner: token_ledger() };
    let mut auction = RecordAccount { lamports: 7, data: vec![0u8; 105] };
    let program = id(8);

    let request = Processor::process_init_auction(
        &initializer,
        &custody,
        &receive,
        &mut auction,
        true,
        &token_ledger(),
        &program,
        500,
    )
    .unwrap();

    let (authority, _bump) = expected_authority(program);
    assert_eq!(
        request,
        ExchangeRequest::ChangeAuthority {
            account: custody,
            new_authority: authority,
            current_authority: id(1),
        }
    );
    let written = Auction::unpack(&auction.data).unwrap();
    assert!(written.is_initialized());
    assert_eq!(written.initializer_pubkey, id(1));
    assert_eq!(written.temp_token_account_pubkey, id(2));
    assert_eq!(written.initializer_token_to_receive_account_pubkey, id(3));
    assert_eq!(written.bid_amount, 500);
    assert_eq!(auction.lamports, 7);
}

#[test]
fn initiate_twice_fails_and_keeps_record() {
    let initializer = PartyAccount { identity: id(1), is_signer: true };
    let custody = id(2);
    let receive = OwnedAccount { identity: id(3), owner: token_ledger() };
    let mut auction = RecordAccount { lamports: 7, data: vec![0u8; 105] };
    let program = id(8);

    Processor::process_init_auction(
        &initializer, &custody, &receive, &mut auction, true, &token_ledger(), &program, 500,
    )
    .unwrap();
    let written = auction.data.clone();

    let again = Processor::process_init_auction(
        &initializer, &custody, &receive, &mut auction, true, &token_ledger(), &program, 900,
    );
    assert_eq!(again, Err(AuctionError::DoubleInitFailure));
    assert_eq!(auction.data, written);
}

#[test]
fn initiate_demands_signature() {
    let initializer = PartyAccount { identity: id(1), is_signer: false };
    let receive = OwnedAccount { identity: id(3), owner: token_ledger() };
    let mut auction = RecordAccount { lamports: 7, data: vec![0u8; 105] };
    let r = Processor::process_init_auction(
        &initializer, &id(2), &receive, &mut auction, true, &token_ledger(), &id(8), 500,
    );
    assert_eq!(r, Err(AuctionError::AuthorizationFailure));
}

#[test]
fn initiate_demands_token_ledger_owner() {
    let initializer = PartyAccount { identity: id(1), is_signer: true };
    let receive = OwnedAccount { identity: id(3), owner: id(4) };
    let mut auction = RecordAccount { lamports: 7, data: vec![0u8; 105] };
    let r = Processor::process_init_auction(
        &initializer, &id(2), &receive, &mut auction, true, &token_ledger(), &id(8), 500,
    );
    assert_eq!(r, Err(AuctionError::WrongOwnerFailure));
}

#[test]
fn initiate_demands_storage_exemption() {
    let initializer = PartyAccount { identity: id(1), is_signer: true };
    let receive = OwnedAccount { identity: id(3), owner: token_ledger() };
    let mut auction = RecordAccount { lamports: 7, data: vec![0u8; 105] };
    let r = Processor::process_init_auction(
        &initializer, &id(2), &receive, &mut auction, false, &token_ledger(), &id(8), 500,
    );
    assert_eq!(r, Err(AuctionError::StorageExemptionFailure));
}

#[test]
fn settle_leg_undershooting_by_one_fails() {
    let bidder = PartyAccount { identity: id(5), is_signer: true };
    let auction = RecordAccount { lamports: 7, data: sample_record().pack() };
    let r = Processor::settle_leg(&bidder, &id(6), &id(2), 1000, &id(1), &id(3), &auction, 999);
    assert_eq!(r, Err(AuctionError::AmountBelowAskFailure));
}

#[test]
fn settle_leg_moves_exactly_the_ask_amount() {
    let bidder = PartyAccount { identity: id(5), is_signer: true };
    let auction = RecordAccount { lamports: 7, data: sample_record().pack() };
    let expected_transfer = ExchangeRequest::Transfer {
        amount: 500,
        source: id(6),
        destination: id(3),
        authority: id(5),
        authority_proof: None,
    };
    let at = Processor::settle_leg(&bidder, &id(6), &id(2), 1000, &id(1), &id(3), &auction, 1000);
    assert_eq!(at, Ok(expected_transfer));
    let above = Processor::settle_leg(&bidder, &id(6), &id(2), 1000, &id(1), &id(3), &auction, 2000);
    assert_eq!(above, Ok(expected_transfer));
}

#[test]
fn settle_leg_reads_custody_amount_from_token_account() {
    let bidder = PartyAccount { identity: id(5), is_signer: true };
    let auction = RecordAccount { lamports: 7, data: sample_record().pack() };
    let custody_data = token_account_bytes(id(1), 1000);
    let undershooting = Processor::process_place_bid(
        &bidder, &id(6), &id(2), &custody_data, &id(1), &id(3), &auction, 999,
    );
    assert_eq!(undershooting, Err(AuctionError::AmountBelowAskFailure));
    let meeting = Processor::process_place_bid(
        &bidder, &id(6), &id(2), &custody_data, &id(1), &id(3), &auction, 1000,
    );
    assert_eq!(
        meeting,
        Ok(ExchangeRequest::Transfer {
            amount: 500,
            source: id(6),
            destination: id(3),
            authority: id(5),
            authority_proof: None,
        })
    );
}

#[test]
fn garbled_custody_account_is_refused() {
    let bidder = PartyAccount { identity: id(5), is_signer: true };
    let auction = RecordAccount { lamports: 7, data: sample_record().pack() };
    let garbage = vec![1u8; 10];
    let r = Processor::process_place_bid(
        &bidder, &id(6), &id(2), &garbage, &id(1), &id(3), &auction, 1000,
    );
    assert_eq!(r, Err(AuctionError::CustodyDecodeFailure));
}

#[test]
fn finalize_demands_exact_amount_both_directions() {
    let bidder = PartyAccount { identity: id(5), is_signer: true };
    for expected in [999u64, 1001u64] {
        let mut main = BalanceAccount { identity: id(1), lamports: 50 };
        let mut auction = RecordAccount { lamports: 7, data: sample_record().pack() };
        let r = Processor::finalize_and_close(
            &bidder, &id(6), &id(7), &id(2), 1000, &mut main, &id(3), &mut auction, &id(8),
            expected,
        );
        assert_eq!(r, Err(AuctionError::AmountMismatchFailure));
        assert_eq!(main.lamports, 50);
        assert_eq!(auction.lamports, 7);
        assert_eq!(auction.data, sample_record().pack());
    }
}

#[test]
fn identity_mismatch_dominates_amounts() {
    let bidder = PartyAccount { identity: id(5), is_signer: true };
    let auction = RecordAccount { lamports: 7, data: sample_record().pack() };
    // Wrong custody account, with an undershooting amount: the identity
    // check must win for Settle-Leg.
    let r = Processor::settle_leg(&bidder, &id(6), &id(9), 1000, &id(1), &id(3), &auction, 1);
    assert_eq!(r, Err(AuctionError::IdentityMismatchFailure));
    // Wrong initializer main account for Finalize-And-Close, with a
    // mismatched amount as well.
    let mut main = BalanceAccount { identity: id(9), lamports: 50 };
    let mut record = RecordAccount { lamports: 7, data: sample_record().pack() };
    let f = Processor::finalize_and_close(
        &bidder, &id(6), &id(7), &id(2), 1000, &mut main, &id(3), &mut record, &id(8), 1,
    );
    assert_eq!(f, Err(AuctionError::IdentityMismatchFailure));
    // Wrong receive account for Settle-Leg.
    let w = Processor::settle_leg(&bidder, &id(6), &id(2), 1000, &id(1), &id(9), &auction, 1000);
    assert_eq!(w, Err(AuctionError::IdentityMismatchFailure));
}

#[test]
fn settle_and_finalize_demand_signature() {
    let bidder = PartyAccount { identity: id(5), is_signer: false };
    let auction = RecordAccount { lamports: 7, data: sample_record().pack() };
    let r = Processor::settle_leg(&bidder, &id(6), &id(2), 1000, &id(1), &id(3), &auction, 1000);
    assert_eq!(r, Err(AuctionError::AuthorizationFailure));
    let mut main = BalanceAccount { identity: id(1), lamports: 50 };
    let mut record = RecordAccount { lamports: 7, data: sample_record().pack() };
    let f = Processor::finalize_and_close(
        &bidder, &id(6), &id(7), &id(2), 1000, &mut main, &id(3), &mut record, &id(8), 1000,
    );
    assert_eq!(f, Err(AuctionError::AuthorizationFailure));
}

#[test]
fn settle_demands_open_record() {
    let bidder = PartyAccount { identity: id(5), is_signer: true };
    let auction = RecordAccount { lamports: 7, data: vec![0u8; 105] };
    let r = Processor::settle_leg(&bidder, &id(6), &id(2), 1000, &id(1), &id(3), &auction, 1000);
    assert_eq!(r, Err(AuctionError::RecordNotOpenFailure));
    let garbled = RecordAccount { lamports: 7, data: vec![0u8; 3] };
    let g = Processor::settle_leg(&bidder, &id(6), &id(2), 1000, &id(1), &id(3), &garbled, 1000);
    assert_eq!(g, Err(AuctionError::RecordDecodeFailure));
}

#[test]
fn reclamation_overflow_leaves_balances_unchanged() {
    let bidder = PartyAccount { identity: id(5), is_signer: true };
    let mut main = BalanceAccount { identity: id(1), lamports: u64::MAX };
    let mut auction = RecordAccount { lamports: 1, data: sample_record().pack() };
    let r = Processor::finalize_and_close(
        &bidder, &id(6), &id(7), &id(2), 1000, &mut main, &id(3), &mut auction, &id(8), 1000,
    );
    assert_eq!(r, Err(AuctionError::ArithmeticOverflowFailure));
    assert_eq!(main.lamports, u64::MAX);
    assert_eq!(auction.lamports, 1);
    assert_eq!(auction.data, sample_record().pack());
}

#[test]
fn end_to_end_finalize_settles_both_legs_and_closes() {
    // Custody holds 1000 units; the record asks 500.
    let program = id(8);
    let bidder = PartyAccount { identity: id(5), is_signer: true };
    let mut accounts = EscrowAccounts {
        party: bidder,
        party_source: id(6),
        party_receive: id(7),
        custody: id(2),
        custody_data: token_account_bytes(id(1), 1000),
        receive: OwnedAccount { identity: id(3), owner: token_ledger() },
        initializer_main: BalanceAccount { identity: id(1), lamports: 50 },
        auction: RecordAccount { lamports: 7, data: sample_record().pack() },
        rent_exempt: true,
    };

    let requests = Processor::process(
        &Operation::FinalizeAndClose { amount: 1000 },
        &mut accounts,
        &token_ledger(),
        &program,
    )
    .unwrap();

    let (authority, bump) = expected_authority(program);
    assert_eq!(requests.len(), 3);
    // The bidder pays the 500-unit ask to the initializer's receive account.
    assert_eq!(
        requests[0],
        ExchangeRequest::Transfer {
            amount: 500,
            source: id(6),
            destination: id(3),
            authority: id(5),
            authority_proof: None,
        }
    );
    // The full 1000-unit custody balance goes to the bidder's receive
    // account, signed by the derived authority.
    assert_eq!(
        requests[1],
        ExchangeRequest::Transfer {
            amount: 1000,
            source: id(2),
            destination: id(7),
            authority,
            authority_proof: Some(bump),
        }
    );
    // The custody account closes with its deposit refunded to the
    // initializer, signed by the derived authority.
    assert_eq!(
        requests[2],
        ExchangeRequest::CloseAccount {
            account: id(2),
            refund_destination: id(1),
            authority,
            authority_bump: bump,
        }
    );
    // The record account's storage deposit lands with the initializer and
    // the record is zeroed.
    assert_eq!(accounts.initializer_main.lamports, 57);
    assert_eq!(accounts.auction.lamports, 0);
    assert!(accounts.auction.data.is_empty());
}

#[test]
fn process_dispatches_settle_leg() {
    let mut accounts = EscrowAccounts {
        party: PartyAccount { identity: id(5), is_signer: true },
        party_source: id(6),
        party_receive: id(7),
        custody: id(2),
        custody_data: token_account_bytes(id(1), 1000),
        receive: OwnedAccount { identity: id(3), owner: token_ledger() },
        initializer_main: BalanceAccount { identity: id(1), lamports: 50 },
        auction: RecordAccount { lamports: 7, data: sample_record().pack() },
        rent_exempt: true,
    };
    let requests = Processor::process(
        &Operation::SettleLeg { amount: 1000 },
        &mut accounts,
        &token_ledger(),
        &id(8),
    )
    .unwrap();
    assert_eq!(requests.len(), 1);
    assert_eq!(
        requests[0],
        ExchangeRequest::Transfer {
            amount: 500,
            source: id(6),
            destination: id(3),
            authority: id(5),
            authority_proof: None,
        }
    );
    assert_eq!(accounts.initializer_main.lamports, 50);
    assert_eq!(accounts.auction.lamports, 7);
}

#[test]
fn process_dispatches_initiate() {
    let mut accounts = EscrowAccounts {
        party: PartyAccount { identity: id(1), is_signer: true },
        party_source: id(6),
        party_receive: id(7),
        custody: id(2),
        custody_data: token_account_bytes(id(1), 1000),
        receive: OwnedAccount { identity: id(3), owner: token_ledger() },
        initializer_main: BalanceAccount { identity: id(1), lamports: 50 },
        auction: RecordAccount { lamports: 7, data: vec![0u8; 105] },
        rent_exempt: true,
    };
    let requests = Processor::process(
        &Operation::Initiate { amount: 500 },
        &mut accounts,
        &token_ledger(),
        &id(8),
    )
    .unwrap();
    assert_eq!(requests.len(), 1);
    let (authority, _bump) = expected_authority(id(8));
    assert_eq!(
        requests[0],
        ExchangeRequest::ChangeAuthority {
            account: id(2),
            new_authority: authority,
            current_authority: id(1),
        }
    );
    assert_eq!(Auction::unpack(&accounts.auction.data).unwrap(), sample_record());
}

#[test]
fn derive_escrow_authority_is_deterministic() {
    let first = derive_escrow_authority(&id(8)).unwrap();
    let second = derive_escrow_authority(&id(8)).unwrap();
    assert_eq!(first, second);
    let (expected, bump) = expected_authority(id(8));
    assert_eq!(first.0, expected);
    assert_eq!(first.1, bump);
}

#[test]
fn compile_transfer_matches_token_ledger_builder() {
    let request = ExchangeRequest::Transfer {
        amount: 500,
        source: id(6),
        destination: id(3),
        authority: id(5),
        authority_proof: None,
    };
    let compiled = compile_request(&request, &token_ledger()).unwrap();
    let source = Pubkey::new_from_array([6; 32]);
    let destination = Pubkey::new_from_array([3; 32]);
    let authority = Pubkey::new_from_array([5; 32]);
    #[allow(deprecated)]
    let direct = spl_token::instruction::transfer(
        &spl_token::id(),
        &source,
        &destination,
        &authority,
        &[&authority],
        500,
    )
    .unwrap();
    assert_eq!(compiled, direct);
}

#[test]
fn compile_close_account_matches_token_ledger_builder() {
    let request = ExchangeRequest::CloseAccount {
        account: id(2),
        refund_destination: id(1),
        authority: id(4),
        authority_bump: 255,
    };
    let compiled = compile_request(&request, &token_ledger()).unwrap();
    let account = Pubkey::new_from_array([2; 32]);
    let refund = Pubkey::new_from_array([1; 32]);
    let authority = Pubkey::new_from_array([4; 32]);
    let direct = spl_token::instruction::close_account(
        &spl_token::id(),
        &account,
        &refund,
        &authority,
        &[&authority],
    )
    .unwrap();
    assert_eq!(compiled, direct);
}

#[test]
fn compile_change_authority_matches_token_ledger_builder() {
    let request = ExchangeRequest::ChangeAuthority {
        account: id(2),
        new_authority: id(4),
        current_authority: id(1),
    };
    let compiled = compile_request(&request, &token_ledger()).unwrap();
    let account = Pubkey::new_from_array([2; 32]);
    let new_authority = Pubkey::new_from_array([4; 32]);
    let current = Pubkey::new_from_array([1; 32]);
    let direct = spl_token::instruction::set_authority(
        &spl_token::id(),
        &account,
        Some(&new_authority),
        spl_token::instruction::AuthorityType::AccountOwner,
        &current,
        &[&current],
    )
    .unwrap();
    assert_eq!(compiled, direct);
}

#[test]
fn compile_refuses_wrong_token_program() {
    let request = ExchangeRequest::Transfer {
        amount: 500,
        source: id(6),
        destination: id(3),
        authority: id(5),
        authority_proof: None,
    };
    let r = compile_request(&request, &id(9));
    assert_eq!(r, Err(AuctionError::InvalidInstruction));
}

#[test]
fn operations_after_close_are_rejected() {
    let program = id(8);
    let mut accounts = EscrowAccounts {
        party: PartyAccount { identity: id(5), is_signer: true },
        party_source: id(6),
        party_receive: id(7),
        custody: id(2),
        custody_data: token_account_bytes(id(1), 1000),
        receive: OwnedAccount { identity: id(3), owner: token_ledger() },
        initializer_main: BalanceAccount { identity: id(1), lamports: 50 },
        auction: RecordAccount { lamports: 7, data: sample_record().pack() },
        rent_exempt: true,
    };
    Processor::process(
        &Operation::FinalizeAndClose { amount: 1000 },
        &mut accounts,
        &token_ledger(),
        &program,
    )
    .unwrap();
    // The record no longer decodes, so a replayed settle or finalize fails.
    let settle = Processor::process(
        &Operation::SettleLeg { amount: 1000 },
        &mut accounts,
        &token_ledger(),
        &program,
    );
    assert_eq!(settle, Err(AuctionError::RecordDecodeFailure));
    let finalize = Processor::process(
        &Operation::FinalizeAndClose { amount: 1000 },
        &mut accounts,
        &token_ledger(),
        &program,
    );
    assert_eq!(finalize, Err(AuctionError::RecordDecodeFailure));
}

#[test]
fn corrupted_custody_tag_is_refused() {
    // Right length, but the delegate option's tag bytes are not a
    // little-endian 0 or 1, so the token ledger's codec refuses it.
    let bidder = PartyAccount { identity: id(5), is_signer: true };
    let auction = RecordAccount { lamports: 7, data: sample_record().pack() };
    let mut corrupted = token_account_bytes(id(1), 1000);
    corrupted[72] = 5;
    let r = Processor::process_place_bid(
        &bidder, &id(6), &id(2), &corrupted, &id(1), &id(3), &auction, 1000,
    );
    assert_eq!(r, Err(AuctionError::CustodyDecodeFailure));
}
