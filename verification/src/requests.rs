use vstd::prelude::*;

use crate::error::AuctionError;
use crate::identity::Identity;

verus! {

/// The mathematical model of an exchange request, over plain byte
/// sequences; contracts speak of requests through this view.
#[verifier::ext_equal]
pub enum RequestModel {
    ChangeAuthority { account: Seq<u8>, new_authority: Seq<u8>, current_authority: Seq<u8> },
    Transfer {
        amount: u64,
        source: Seq<u8>,
        destination: Seq<u8>,
        authority: Seq<u8>,
        authority_proof: Option<u8>,
    },
    CloseAccount {
        account: Seq<u8>,
        refund_destination: Seq<u8>,
        authority: Seq<u8>,
        authority_bump: u8,
    },
}

/// One request the processor instructs the exchange executor to carry out.
/// A transfer or close whose `authority_proof` carries a bump is signed by
/// the derived custody authority; one without is signed by the party named
/// in `authority`, who must have signed the enclosing operation.
#[derive(Clone, Copy, Debug, PartialEq)]
pub enum ExchangeRequest {
    ChangeAuthority { account: Identity, new_authority: Identity, current_authority: Identity },
    Transfer {
        amount: u64,
        source: Identity,
        destination: Identity,
        authority: Identity,
        authority_proof: Option<u8>,
    },
    CloseAccount {
        account: Identity,
        refund_destination: Identity,
        authority: Identity,
        authority_bump: u8,
    },
}

impl View for ExchangeRequest {
    type V = RequestModel;

    open spec fn view(&self) -> RequestModel {
        match self {
            ExchangeRequest::ChangeAuthority { account, new_authority, current_authority } => {
                RequestModel::ChangeAuthority {
                    account: account@,
                    new_authority: new_authority@,
                    current_authority: current_authority@,
                }
            },
            ExchangeRequest::Transfer { amount, source, destination, authority, authority_proof } => {
                RequestModel::Transfer {
                    amount: *amount,
                    source: source@,
                    destination: destination@,
                    authority: authority@,
                    authority_proof: *authority_proof,
                }
            },
            ExchangeRequest::CloseAccount {
                account,
                refund_destination,
                authority,
                authority_bump,
            } => {
                RequestModel::CloseAccount {
                    account: account@,
                    refund_destination: refund_destination@,
                    authority: authority@,
                    authority_bump: *authority_bump,
                }
            },
        }
    }
}

#[verifier::external_type_specification]
#[verifier::external_body]
pub struct ExInstruction(solana_program::instruction::Instruction);

/// Whether an identity is the token ledger program's own: the condition
/// under which spl_token::check_program_account accepts it, and so the one
/// condition on which every instruction builder below succeeds. A function
/// of the identity alone, named rather than spelled out.
pub uninterp spec fn is_token_ledger(id: Seq<u8>) -> bool;

/// Relies on spl_token::instruction::set_authority to build the token
/// ledger's authority-change instruction; per its source it succeeds if and
/// only if the token-program identity is the token ledger's own.
#[verifier::external_body]
fn build_set_authority(
    token_program: &Identity,
    owned: &Identity,
    new_authority: &Identity,
    current_authority: &Identity,
) -> (r: Result<solana_program::instruction::Instruction, AuctionError>)
    ensures
        r is Ok <==> is_token_ledger(token_program@),
        match r {
            Ok(_) => true,
            Err(e) => e == AuctionError::InvalidInstruction,
        },
{
    let token = solana_program::pubkey::Pubkey::new_from_array(token_program.bytes);
    let owned_key = solana_program::pubkey::Pubkey::new_from_array(owned.bytes);
    let new_key = solana_program::pubkey::Pubkey::new_from_array(new_authority.bytes);
    let current = solana_program::pubkey::Pubkey::new_from_array(current_authority.bytes);
    match spl_token::instruction::set_authority(
        &token,
        &owned_key,
        Some(&new_key),
        spl_token::instruction::AuthorityType::AccountOwner,
        &current,
        &[&current],
    ) {
        Ok(ix) => Ok(ix),
        Err(_) => Err(AuctionError::InvalidInstruction),
    }
}

/// Relies on spl_token::instruction::transfer to build the token ledger's
/// transfer instruction; per its source it succeeds if and only if the
/// token-program identity is the token ledger's own.
#[verifier::external_body]
fn build_transfer(
    token_program: &Identity,
    source: &Identity,
    destination: &Identity,
    authority: &Identity,
    amount: u64,
) -> (r: Result<solana_program::instruction::Instruction, AuctionError>)
    ensures
        r is Ok <==> is_token_ledger(token_program@),
        match r {
            Ok(_) => true,
            Err(e) => e == AuctionError::InvalidInstruction,
        },
{
    let token = solana_program::pubkey::Pubkey::new_from_array(token_program.bytes);
    let source_key = solana_program::pubkey::Pubkey::new_from_array(source.bytes);
    let destination_key = solana_program::pubkey::Pubkey::new_from_array(destination.bytes);
    let authority_key = solana_program::pubkey::Pubkey::new_from_array(authority.bytes);
    match spl_token::instruction::transfer(
        &token,
        &source_key,
        &destination_key,
        &authority_key,
        &[&authority_key],
        amount,
    ) {
        Ok(ix) => Ok(ix),
        Err(_) => Err(AuctionError::InvalidInstruction),
    }
}

/// Relies on spl_token::instruction::close_account to build the token
/// ledger's account-closing instruction; per its source it succeeds if and
/// only if the token-program identity is the token ledger's own.
#[verifier::external_body]
fn build_close_account(
    token_program: &Identity,
    account: &Identity,
    refund_destination: &Identity,
    authority: &Identity,
) -> (r: Result<solana_program::instruction::Instruction, AuctionError>)
    ensures
        r is Ok <==> is_token_ledger(token_program@),
        match r {
            Ok(_) => true,
            Err(e) => e == AuctionError::InvalidInstruction,
        },
{
    let token = solana_program::pubkey::Pubkey::new_from_array(token_program.bytes);
    let account_key = solana_program::pubkey::Pubkey::new_from_array(account.bytes);
    let refund_key = solana_program::pubkey::Pubkey::new_from_array(refund_destination.bytes);
    let authority_key = solana_program::pubkey::Pubkey::new_from_array(authority.bytes);
    match spl_token::instruction::close_account(
        &token,
        &account_key,
        &refund_key,
        &authority_key,
        &[&authority_key],
    ) {
        Ok(ix) => Ok(ix),
        Err(_) => Err(AuctionError::InvalidInstruction),
    }
}

/// Turns one exchange request into the token ledger's wire instruction,
/// succeeding exactly when the token-program identity is the token
/// ledger's own. The instruction itself is opaque here; what the request
/// means is fixed by the contracts of the processor functions that emitted
/// it. A request signed by the derived authority keeps its bump proof for
/// the caller to present alongside the instruction.
pub fn compile_request(req: &ExchangeRequest, token_program: &Identity) -> (r: Result<
    solana_program::instruction::Instruction,
    AuctionError,
>)
    ensures
        r is Ok <==> is_token_ledger(token_program@),
        match r {
            Ok(_) => true,
            Err(e) => e == AuctionError::InvalidInstruction,
        },
{
    match req {
        ExchangeRequest::ChangeAuthority { account, new_authority, current_authority } => {
            build_set_authority(token_program, account, new_authority, current_authority)
        },
        ExchangeRequest::Transfer { amount, source, destination, authority, authority_proof: _ } => {
            build_transfer(token_program, source, destination, authority, *amount)
        },
        ExchangeRequest::CloseAccount {
            account,
            refund_destination,
            authority,
            authority_bump: _,
        } => {
            build_close_account(token_program, account, refund_destination, authority)
        },
    }
}

} // verus!
