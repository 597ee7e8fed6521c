use vstd::prelude::*;

use crate::error::AuctionError;
use crate::identity::Identity;

verus! {

/// Encoded length of an auction record: one flag byte, three 32-byte
/// identities, and a little-endian 64-bit ask amount.
pub const AUCTION_LEN: usize = 105;

/// The mathematical model of an auction record: what the persistent bytes
/// mean. All contracts about records are stated over this model.
#[verifier::ext_equal]
pub struct AuctionModel {
    pub is_initialized: bool,
    pub initializer: Seq<u8>,
    pub custody: Seq<u8>,
    pub receive: Seq<u8>,
    pub ask: u64,
}

impl AuctionModel {
    /// A well-formed model carries full 32-byte identities.
    pub open spec fn wf(self) -> bool {
        self.initializer.len() == 32 && self.custody.len() == 32 && self.receive.len() == 32
    }

    /// The fixed-offset byte layout of a record: flag at 0, initializer at
    /// 1..33, custody account at 33..65, receive account at 65..97, and the
    /// ask amount, little-endian, at 97..105.
    pub open spec fn spec_encoding(self) -> Seq<u8> {
        seq![if self.is_initialized { 1u8 } else { 0u8 }] + self.initializer + self.custody
            + self.receive + vstd::bytes::spec_u64_to_le_bytes(self.ask)
    }
}

/// What a byte region decodes to: `None` exactly when the region is not
/// 105 bytes long or its flag byte is neither 0 nor 1.
pub open spec fn spec_decode(s: Seq<u8>) -> Option<AuctionModel> {
    if s.len() == 105 && (s[0] == 0 || s[0] == 1) {
        Some(
            AuctionModel {
                is_initialized: s[0] == 1,
                initializer: s.subrange(1, 33),
                custody: s.subrange(33, 65),
                receive: s.subrange(65, 97),
                ask: vstd::bytes::spec_u64_from_le_bytes(s.subrange(97, 105)),
            },
        )
    } else {
        None
    }
}

/// The persistent auction record: the sole durable state of one escrow.
#[derive(Debug, PartialEq)]
pub struct Auction {
    pub is_initialized: bool,
    pub initializer_pubkey: Identity,
    pub temp_token_account_pubkey: Identity,
    pub initializer_token_to_receive_account_pubkey: Identity,
    pub bid_amount: u64,
}

impl View for Auction {
    type V = AuctionModel;

    open spec fn view(&self) -> AuctionModel {
        AuctionModel {
            is_initialized: self.is_initialized,
            initializer: self.initializer_pubkey@,
            custody: self.temp_token_account_pubkey@,
            receive: self.initializer_token_to_receive_account_pubkey@,
            ask: self.bid_amount,
        }
    }
}

/// Copies the 32 bytes of `src` starting at `start` into a fresh identity.
fn read_identity(src: &[u8], start: usize) -> (r: Identity)
    requires
        start <= 65,
        start + 32 <= src@.len(),
    ensures
        r@ == src@.subrange(start as int, start as int + 32),
{
    let mut bytes: [u8; 32] = [0u8; 32];
    let mut i: usize = 0;
    while i < 32
        invariant
            0 <= i <= 32,
            start <= 65,
            start + 32 <= src@.len(),
            forall|j: int| 0 <= j < i ==> bytes@[j] == src@[start + j],
        decreases 32 - i,
    {
        bytes[i] = *vstd::slice::slice_index_get(src, start + i);
        i = i + 1;
    }
    proof {
        assert(bytes@ =~= src@.subrange(start as int, start as int + 32));
    }
    Identity { bytes }
}

/// Appends the 32 bytes of `id` to `out`.
fn push_identity(out: &mut Vec<u8>, id: &Identity)
    ensures
        final(out)@ == old(out)@ + id@,
{
    let mut i: usize = 0;
    while i < 32
        invariant
            0 <= i <= 32,
            out@ == old(out)@ + id@.subrange(0, i as int),
        decreases 32 - i,
    {
        out.push(id.bytes[i]);
        proof {
            assert(out@ =~= old(out)@ + id@.subrange(0, i + 1));
        }
        i = i + 1;
    }
    proof {
        assert(old(out)@ + id@.subrange(0, 32) =~= old(out)@ + id@);
    }
}

impl Auction {
    /// Whether this record is open. Mirrors the flag field.
    pub fn is_initialized(&self) -> (b: bool)
        ensures
            b == self@.is_initialized,
    {
        self.is_initialized
    }

    /// Decodes a record from its storage bytes without demanding that it be
    /// open; an all-zero region decodes to an uninitialized record, while a
    /// region of the wrong length or with a flag byte above 1 is refused.
    pub fn unpack_from_slice(src: &[u8]) -> (r: Result<Auction, AuctionError>)
        ensures
            match r {
                Ok(a) => spec_decode(src@) == Some(a@),
                Err(e) => spec_decode(src@) is None && e == AuctionError::RecordDecodeFailure,
            },
    {
        if src.len() != AUCTION_LEN {
            return Err(AuctionError::RecordDecodeFailure);
        }
        let flag = *vstd::slice::slice_index_get(src, 0);
        let is_initialized = if flag == 0 {
            false
        } else if flag == 1 {
            true
        } else {
            return Err(AuctionError::RecordDecodeFailure);
        };
        let initializer_pubkey = read_identity(src, 1);
        let temp_token_account_pubkey = read_identity(src, 33);
        let initializer_token_to_receive_account_pubkey = read_identity(src, 65);
        let amount_bytes = vstd::slice::slice_subrange(src, 97, 105);
        let bid_amount = vstd::bytes::u64_from_le_bytes(amount_bytes);
        Ok(
            Auction {
                is_initialized,
                initializer_pubkey,
                temp_token_account_pubkey,
                initializer_token_to_receive_account_pubkey,
                bid_amount,
            },
        )
    }

    /// Decodes a record and demands that it be open: a record that does not
    /// decode as open has no escrow to act on.
    pub fn unpack(src: &[u8]) -> (r: Result<Auction, AuctionError>)
        ensures
            match r {
                Ok(a) => spec_decode(src@) == Some(a@) && a@.is_initialized,
                Err(e) => match spec_decode(src@) {
                    Option::None => e == AuctionError::RecordDecodeFailure,
                    Option::Some(m) => !m.is_initialized && e == AuctionError::RecordNotOpenFailure,
                },
            },
    {
        let a = match Self::unpack_from_slice(src) {
            Ok(a) => a,
            Err(e) => {
                return Err(e);
            },
        };
        if !a.is_initialized() {
            return Err(AuctionError::RecordNotOpenFailure);
        }
        Ok(a)
    }

    /// Encodes this record into a fresh 105-byte buffer.
    pub fn pack(&self) -> (out: Vec<u8>)
        ensures
            out@ == self@.spec_encoding(),
            out@.len() == 105,
    {
        let mut out: Vec<u8> = Vec::new();
        if self.is_initialized {
            out.push(1);
        } else {
            out.push(0);
        }
        push_identity(&mut out, &self.initializer_pubkey);
        push_identity(&mut out, &self.temp_token_account_pubkey);
        push_identity(&mut out, &self.initializer_token_to_receive_account_pubkey);
        let mut amount_bytes = vstd::bytes::u64_to_le_bytes(self.bid_amount);
        out.append(&mut amount_bytes);
        proof {
            assert(out@ =~= self@.spec_encoding());
        }
        out
    }

    /// Encodes this record over the full storage region of a record account.
    pub fn pack_into_slice(&self, dst: &mut Vec<u8>)
        requires
            old(dst)@.len() == 105,
        ensures
            final(dst)@ == self@.spec_encoding(),
    {
        let packed = self.pack();
        *dst = packed;
    }
}

/// Round trip: every well-formed record model decodes back from its own
/// encoding unchanged.
pub proof fn lemma_codec_round_trip(m: AuctionModel)
    requires
        m.wf(),
    ensures
        spec_decode(m.spec_encoding()) == Some(m),
{
    vstd::bytes::lemma_auto_spec_u64_to_from_le_bytes();
    let enc = m.spec_encoding();
    assert(vstd::bytes::spec_u64_to_le_bytes(m.ask).len() == 8);
    assert(enc.len() == 105);
    assert(enc[0] == 0 || enc[0] == 1);
    assert((enc[0] == 1) == m.is_initialized);
    assert(enc.subrange(1, 33) =~= m.initializer);
    assert(enc.subrange(33, 65) =~= m.custody);
    assert(enc.subrange(65, 97) =~= m.receive);
    assert(enc.subrange(97, 105) =~= vstd::bytes::spec_u64_to_le_bytes(m.ask));
    let d = spec_decode(enc).unwrap();
    assert(d =~= m);
}

} // verus!
