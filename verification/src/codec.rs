//! Versioned binary codec for the two record shapes of the ledger.
//!
//! Each record is a tagged blob: an 8-byte discriminator naming the record's
//! logical type and layout version, followed by the fields in declaration
//! order. Integers are fixed-width little-endian; booleans are one byte
//! (zero is false, anything else true); strings are a 4-byte little-endian
//! length prefix followed by the UTF-8 bytes, with no terminator and no
//! padding. String fields are carried as their UTF-8 bytes; identity
//! references are 32-byte keys.

use vstd::prelude::*;
use vstd::bytes::{
    spec_u32_to_le_bytes, spec_u32_from_le_bytes, spec_u64_to_le_bytes, spec_u64_from_le_bytes,
    u32_to_le_bytes, u32_from_le_bytes, u64_to_le_bytes, u64_from_le_bytes,
    lemma_auto_spec_u32_to_from_le_bytes, lemma_auto_spec_u64_to_from_le_bytes,
};
use vstd::utf8::valid_utf8;
use vstd::slice::{slice_subrange, slice_to_vec};
use crate::error::CodecError;

verus! {

/// One tokenized real-world asset.
#[derive(Debug, PartialEq, Eq)]
pub struct AssetAccount {
    /// Unique naming seed of the asset (UTF-8 bytes).
    pub asset_id: Vec<u8>,
    /// Free-form category (UTF-8 bytes).
    pub asset_type: Vec<u8>,
    /// Base-unit value of the asset.
    pub valuation: u64,
    /// Off-record pointer to descriptive metadata (UTF-8 bytes).
    pub metadata_uri: Vec<u8>,
    /// Identity key of the owner, 32 bytes.
    pub owner: Vec<u8>,
    pub is_active: bool,
    /// Risk score, 0 to 100 inclusive.
    pub risk_score: u8,
    /// Nonce that made the address derivation succeed.
    pub bump: u8,
}

/// One borrowing event against an asset.
#[derive(Debug, PartialEq, Eq)]
pub struct LoanAccount {
    /// Identity key of the borrower, 32 bytes.
    pub borrower: Vec<u8>,
    /// Derived address of the collateral asset, 32 bytes.
    pub asset: Vec<u8>,
    pub principal: u64,
    /// Interest rate in basis points.
    pub interest_rate: u64,
    pub start_time: i64,
    pub end_time: i64,
    pub is_active: bool,
    pub repaid: bool,
    pub liquidated: bool,
    /// Snapshot of the asset's risk score at issuance.
    pub risk_score_at_creation: u8,
    /// Nonce that made the address derivation succeed.
    pub bump: u8,
}

/// Mathematical model of an asset record.
pub ghost struct AssetModel {
    pub asset_id: Seq<u8>,
    pub asset_type: Seq<u8>,
    pub valuation: u64,
    pub metadata_uri: Seq<u8>,
    pub owner: Seq<u8>,
    pub is_active: bool,
    pub risk_score: u8,
    pub bump: u8,
}

/// Mathematical model of a loan record.
pub ghost struct LoanModel {
    pub borrower: Seq<u8>,
    pub asset: Seq<u8>,
    pub principal: u64,
    pub interest_rate: u64,
    pub start_time: i64,
    pub end_time: i64,
    pub is_active: bool,
    pub repaid: bool,
    pub liquidated: bool,
    pub risk_score_at_creation: u8,
    pub bump: u8,
}

impl View for AssetAccount {
    type V = AssetModel;

    open spec fn view(&self) -> AssetModel {
        AssetModel {
            asset_id: self.asset_id@,
            asset_type: self.asset_type@,
            valuation: self.valuation,
            metadata_uri: self.metadata_uri@,
            owner: self.owner@,
            is_active: self.is_active,
            risk_score: self.risk_score,
            bump: self.bump,
        }
    }
}

impl View for LoanAccount {
    type V = LoanModel;

    open spec fn view(&self) -> LoanModel {
        LoanModel {
            borrower: self.borrower@,
            asset: self.asset@,
            principal: self.principal,
            interest_rate: self.interest_rate,
            start_time: self.start_time,
            end_time: self.end_time,
            is_active: self.is_active,
            repaid: self.repaid,
            liquidated: self.liquidated,
            risk_score_at_creation: self.risk_score_at_creation,
            bump: self.bump,
        }
    }
}

/// A string field short enough for its 4-byte length prefix.
pub open spec fn len_ok(s: Seq<u8>) -> bool {
    s.len() < 0x1_0000_0000
}

/// A string field that the codec can write and read back: short enough for
/// its length prefix and valid UTF-8.
pub open spec fn str_field_ok(s: Seq<u8>) -> bool {
    len_ok(s) && valid_utf8(s)
}

impl AssetModel {
    /// The record can be encoded: string fields fit their length prefix and
    /// the owner key is 32 bytes.
    pub open spec fn encodable(self) -> bool {
        len_ok(self.asset_id) && len_ok(self.asset_type) && len_ok(self.metadata_uri)
            && self.owner.len() == 32
    }

    /// Well-formed: encodable with valid UTF-8 in every string field.
    pub open spec fn wf(self) -> bool {
        self.encodable() && valid_utf8(self.asset_id) && valid_utf8(self.asset_type)
            && valid_utf8(self.metadata_uri)
    }
}

impl LoanModel {
    /// The record can be encoded: both identity keys are 32 bytes.
    pub open spec fn encodable(self) -> bool {
        self.borrower.len() == 32 && self.asset.len() == 32
    }

    /// Well-formed; a loan record has no string fields, so this coincides
    /// with being encodable.
    pub open spec fn wf(self) -> bool {
        self.encodable()
    }
}

/// Discriminator of an asset record.
pub open spec fn asset_tag() -> Seq<u8> {
    seq![234u8, 180u8, 241u8, 252u8, 139u8, 224u8, 160u8, 8u8]
}

/// Discriminator of a loan record.
pub open spec fn loan_tag() -> Seq<u8> {
    seq![20u8, 195u8, 70u8, 117u8, 165u8, 227u8, 182u8, 1u8]
}

/// The asset record discriminator as bytes.
pub fn asset_tag_bytes() -> (r: Vec<u8>)
    ensures
        r@ == asset_tag(),
{
    let mut v: Vec<u8> = Vec::new();
    v.push(234);
    v.push(180);
    v.push(241);
    v.push(252);
    v.push(139);
    v.push(224);
    v.push(160);
    v.push(8);
    proof {
        assert(v@ =~= asset_tag());
    }
    v
}

/// The loan record discriminator as bytes.
pub fn loan_tag_bytes() -> (r: Vec<u8>)
    ensures
        r@ == loan_tag(),
{
    let mut v: Vec<u8> = Vec::new();
    v.push(20);
    v.push(195);
    v.push(70);
    v.push(117);
    v.push(165);
    v.push(227);
    v.push(182);
    v.push(1);
    proof {
        assert(v@ =~= loan_tag());
    }
    v
}

/// Wire form of a boolean.
pub open spec fn bool_byte(b: bool) -> u8 {
    if b { 1 } else { 0 }
}

/// Wire form of a length-prefixed string field.
pub open spec fn spec_encode_str(s: Seq<u8>) -> Seq<u8> {
    spec_u32_to_le_bytes(s.len() as u32) + s
}

/// Wire form of an asset record.
pub open spec fn spec_encode_asset(m: AssetModel) -> Seq<u8> {
    asset_tag() + spec_encode_str(m.asset_id) + spec_encode_str(m.asset_type)
        + spec_u64_to_le_bytes(m.valuation) + spec_encode_str(m.metadata_uri) + m.owner
        + seq![bool_byte(m.is_active), m.risk_score, m.bump]
}

/// Wire form of a loan record.
pub open spec fn spec_encode_loan(m: LoanModel) -> Seq<u8> {
    loan_tag() + m.borrower + m.asset + spec_u64_to_le_bytes(m.principal)
        + spec_u64_to_le_bytes(m.interest_rate) + spec_u64_to_le_bytes(m.start_time as u64)
        + spec_u64_to_le_bytes(m.end_time as u64)
        + seq![
            bool_byte(m.is_active),
            bool_byte(m.repaid),
            bool_byte(m.liquidated),
            m.risk_score_at_creation,
            m.bump,
        ]
}

/// Reads `n` raw bytes at offset `at`.
pub open spec fn spec_read_bytes(b: Seq<u8>, at: int, n: int) -> Option<(Seq<u8>, int)> {
    if 0 <= at && 0 <= n && at + n <= b.len() {
        Some((b.subrange(at, at + n), at + n))
    } else {
        None
    }
}

/// Reads one byte at offset `at`.
pub open spec fn spec_read_u8(b: Seq<u8>, at: int) -> Option<(u8, int)> {
    if 0 <= at && at + 1 <= b.len() {
        Some((b[at], at + 1))
    } else {
        None
    }
}

/// Reads a little-endian `u32` at offset `at`.
pub open spec fn spec_read_u32(b: Seq<u8>, at: int) -> Option<(u32, int)> {
    match spec_read_bytes(b, at, 4) {
        Some((s, end)) => Some((spec_u32_from_le_bytes(s), end)),
        None => None,
    }
}

/// Reads a little-endian `u64` at offset `at`.
pub open spec fn spec_read_u64(b: Seq<u8>, at: int) -> Option<(u64, int)> {
    match spec_read_bytes(b, at, 8) {
        Some((s, end)) => Some((spec_u64_from_le_bytes(s), end)),
        None => None,
    }
}

/// Reads a little-endian two's-complement `i64` at offset `at`.
pub open spec fn spec_read_i64(b: Seq<u8>, at: int) -> Option<(i64, int)> {
    match spec_read_u64(b, at) {
        Some((v, end)) => Some((v as i64, end)),
        None => None,
    }
}

/// Reads a length-prefixed string field at offset `at`; fails when the
/// declared length reads past the end or the bytes are not valid UTF-8.
pub open spec fn spec_read_str(b: Seq<u8>, at: int) -> Option<(Seq<u8>, int)> {
    match spec_read_u32(b, at) {
        Some((n, mid)) => match spec_read_bytes(b, mid, n as int) {
            Some((s, end)) => if valid_utf8(s) {
                Some((s, end))
            } else {
                None
            },
            None => None,
        },
        None => None,
    }
}

/// Meaning of a buffer as an asset record: the asset discriminator followed
/// by the fields in declaration order. Trailing bytes are ignored, matching
/// storage that over-allocates records.
pub open spec fn spec_decode_asset(b: Seq<u8>) -> Option<AssetModel> {
    if b.len() < 8 || b.subrange(0, 8) != asset_tag() {
        None
    } else {
        match spec_read_str(b, 8) {
            None => None,
            Some((asset_id, o1)) => match spec_read_str(b, o1) {
                None => None,
                Some((asset_type, o2)) => match spec_read_u64(b, o2) {
                    None => None,
                    Some((valuation, o3)) => match spec_read_str(b, o3) {
                        None => None,
                        Some((metadata_uri, o4)) => match spec_read_bytes(b, o4, 32) {
                            None => None,
                            Some((owner, o5)) => match spec_read_u8(b, o5) {
                                None => None,
                                Some((act, o6)) => match spec_read_u8(b, o6) {
                                    None => None,
                                    Some((risk, o7)) => match spec_read_u8(b, o7) {
                                        None => None,
                                        Some((bump, _o8)) => Some(
                                            AssetModel {
                                                asset_id,
                                                asset_type,
                                                valuation,
                                                metadata_uri,
                                                owner,
                                                is_active: act != 0,
                                                risk_score: risk,
                                                bump,
                                            },
                                        ),
                                    },
                                },
                            },
                        },
                    },
                },
            },
        }
    }
}

/// Meaning of a buffer as a loan record.
pub open spec fn spec_decode_loan(b: Seq<u8>) -> Option<LoanModel> {
    if b.len() < 8 || b.subrange(0, 8) != loan_tag() {
        None
    } else {
        match spec_read_bytes(b, 8, 32) {
            None => None,
            Some((borrower, o1)) => match spec_read_bytes(b, o1, 32) {
                None => None,
                Some((asset, o2)) => match spec_read_u64(b, o2) {
                    None => None,
                    Some((principal, o3)) => match spec_read_u64(b, o3) {
                        None => None,
                        Some((interest_rate, o4)) => match spec_read_i64(b, o4) {
                            None => None,
                            Some((start_time, o5)) => match spec_read_i64(b, o5) {
                                None => None,
                                Some((end_time, o6)) => match spec_read_u8(b, o6) {
                                    None => None,
                                    Some((act, o7)) => match spec_read_u8(b, o7) {
                                        None => None,
                                        Some((rep, o8)) => match spec_read_u8(b, o8) {
                                            None => None,
                                            Some((liq, o9)) => match spec_read_u8(b, o9) {
                                                None => None,
                                                Some((risk, o10)) => match spec_read_u8(b, o10) {
                                                    None => None,
                                                    Some((bump, _o11)) => Some(
                                                        LoanModel {
                                                            borrower,
                                                            asset,
                                                            principal,
                                                            interest_rate,
                                                            start_time,
                                                            end_time,
                                                            is_active: act != 0,
                                                            repaid: rep != 0,
                                                            liquidated: liq != 0,
                                                            risk_score_at_creation: risk,
                                                            bump,
                                                        },
                                                    ),
                                                },
                                            },
                                        },
                                    },
                                },
                            },
                        },
                    },
                },
            },
        }
    }
}

/// Appends a slice to a byte vector.
pub fn push_bytes(out: &mut Vec<u8>, b: &[u8])
    ensures
        final(out)@ == old(out)@ + b@,
{
    let mut i: usize = 0;
    while i < b.len()
        invariant
            i <= b@.len(),
            out@ == old(out)@ + b@.subrange(0, i as int),
        decreases b@.len() - i,
    {
        out.push(b[i]);
        proof {
            assert(out@ =~= old(out)@ + b@.subrange(0, i as int + 1));
        }
        i += 1;
    }
    proof {
        assert(b@.subrange(0, b@.len() as int) =~= b@);
    }
}

/// Appends the wire form of a length-prefixed string field.
pub fn encode_str(out: &mut Vec<u8>, s: &Vec<u8>)
    requires
        len_ok(s@),
    ensures
        final(out)@ == old(out)@ + spec_encode_str(s@),
{
    let len_bytes = u32_to_le_bytes(s.len() as u32);
    push_bytes(out, len_bytes.as_slice());
    push_bytes(out, s.as_slice());
    proof {
        assert(old(out)@ + spec_u32_to_le_bytes(s@.len() as u32) + s@ =~= old(out)@
            + spec_encode_str(s@));
    }
}

impl AssetAccount {
    /// Encodes the record; always succeeds on an encodable record.
    pub fn to_bytes(&self) -> (out: Vec<u8>)
        requires
            self@.encodable(),
        ensures
            out@ == spec_encode_asset(self@),
    {
        let mut out: Vec<u8> = Vec::new();
        let tag = asset_tag_bytes();
        push_bytes(&mut out, tag.as_slice());
        encode_str(&mut out, &self.asset_id);
        encode_str(&mut out, &self.asset_type);
        let val = u64_to_le_bytes(self.valuation);
        push_bytes(&mut out, val.as_slice());
        encode_str(&mut out, &self.metadata_uri);
        push_bytes(&mut out, self.owner.as_slice());
        out.push(if self.is_active { 1 } else { 0 });
        out.push(self.risk_score);
        out.push(self.bump);
        proof {
            assert(out@ =~= spec_encode_asset(self@));
        }
        out
    }
}

impl LoanAccount {
    /// Encodes the record; always succeeds on an encodable record.
    pub fn to_bytes(&self) -> (out: Vec<u8>)
        requires
            self@.encodable(),
        ensures
            out@ == spec_encode_loan(self@),
    {
        let mut out: Vec<u8> = Vec::new();
        let tag = loan_tag_bytes();
        push_bytes(&mut out, tag.as_slice());
        push_bytes(&mut out, self.borrower.as_slice());
        push_bytes(&mut out, self.asset.as_slice());
        let principal = u64_to_le_bytes(self.principal);
        push_bytes(&mut out, principal.as_slice());
        let rate = u64_to_le_bytes(self.interest_rate);
        push_bytes(&mut out, rate.as_slice());
        let start = u64_to_le_bytes(self.start_time as u64);
        push_bytes(&mut out, start.as_slice());
        let end = u64_to_le_bytes(self.end_time as u64);
        push_bytes(&mut out, end.as_slice());
        out.push(if self.is_active { 1 } else { 0 });
        out.push(if self.repaid { 1 } else { 0 });
        out.push(if self.liquidated { 1 } else { 0 });
        out.push(self.risk_score_at_creation);
        out.push(self.bump);
        proof {
            assert(out@ =~= spec_encode_loan(self@));
        }
        out
    }
}

/// Relies on `core::str::from_utf8`: it returns `Ok` exactly when the input
/// is valid UTF-8.
#[verifier::external_body]
fn utf8_check(bytes: &[u8]) -> (r: bool)
    ensures
        r == valid_utf8(bytes@),
{
    core::str::from_utf8(bytes).is_ok()
}

/// Byte-wise equality of two slices.
pub fn bytes_eq(a: &[u8], b: &[u8]) -> (r: bool)
    ensures
        r == (a@ == b@),
{
    if a.len() != b.len() {
        return false;
    }
    let mut i: usize = 0;
    while i < a.len()
        invariant
            i <= a@.len(),
            a@.len() == b@.len(),
            forall|j: int| 0 <= j < i ==> a@[j] == b@[j],
        decreases a@.len() - i,
    {
        if a[i] != b[i] {
            return false;
        }
        i += 1;
    }
    proof {
        assert(a@ =~= b@);
    }
    true
}

/// Reads `n` raw bytes at offset `at`.
fn read_bytes(data: &[u8], at: usize, n: usize) -> (r: Option<(Vec<u8>, usize)>)
    ensures
        match r {
            Some(p) => spec_read_bytes(data@, at as int, n as int) == Some((p.0@, p.1 as int)),
            None => spec_read_bytes(data@, at as int, n as int) is None,
        },
{
    if n <= data.len() && at <= data.len() - n {
        let s = slice_subrange(data, at, at + n);
        Some((slice_to_vec(s), at + n))
    } else {
        None
    }
}

/// Reads one byte at offset `at`.
fn read_u8(data: &[u8], at: usize) -> (r: Option<(u8, usize)>)
    ensures
        match r {
            Some(p) => spec_read_u8(data@, at as int) == Some((p.0, p.1 as int)),
            None => spec_read_u8(data@, at as int) is None,
        },
{
    if at < data.len() {
        Some((data[at], at + 1))
    } else {
        None
    }
}

/// Reads a little-endian `u32` at offset `at`.
fn read_u32(data: &[u8], at: usize) -> (r: Option<(u32, usize)>)
    ensures
        match r {
            Some(p) => spec_read_u32(data@, at as int) == Some((p.0, p.1 as int)),
            None => spec_read_u32(data@, at as int) is None,
        },
{
    if data.len() >= 4 && at <= data.len() - 4 {
        let s = slice_subrange(data, at, at + 4);
        Some((u32_from_le_bytes(s), at + 4))
    } else {
        None
    }
}

/// Reads a little-endian `u64` at offset `at`.
fn read_u64(data: &[u8], at: usize) -> (r: Option<(u64, usize)>)
    ensures
        match r {
            Some(p) => spec_read_u64(data@, at as int) == Some((p.0, p.1 as int)),
            None => spec_read_u64(data@, at as int) is None,
        },
{
    if data.len() >= 8 && at <= data.len() - 8 {
        let s = slice_subrange(data, at, at + 8);
        Some((u64_from_le_bytes(s), at + 8))
    } else {
        None
    }
}

/// Reads a little-endian two's-complement `i64` at offset `at`.
fn read_i64(data: &[u8], at: usize) -> (r: Option<(i64, usize)>)
    ensures
        match r {
            Some(p) => spec_read_i64(data@, at as int) == Some((p.0, p.1 as int)),
            None => spec_read_i64(data@, at as int) is None,
        },
{
    match read_u64(data, at) {
        Some(p) => Some((p.0 as i64, p.1)),
        None => None,
    }
}

/// Reads a length-prefixed string field at offset `at`.
fn read_str(data: &[u8], at: usize) -> (r: Option<(Vec<u8>, usize)>)
    ensures
        match r {
            Some(p) => spec_read_str(data@, at as int) == Some((p.0@, p.1 as int)),
            None => spec_read_str(data@, at as int) is None,
        },
{
    match read_u32(data, at) {
        None => None,
        Some(p) => {
            let n = p.0 as usize;
            match read_bytes(data, p.1, n) {
                None => None,
                Some(q) => if utf8_check(q.0.as_slice()) {
                    Some(q)
                } else {
                    None
                },
            }
        },
    }
}

impl AssetAccount {
    /// Decodes an asset record; fails on a short buffer, a wrong
    /// discriminator, a string length that reads past the end, or string
    /// bytes that are not valid UTF-8. Domain invariants are not
    /// re-validated here.
    pub fn from_bytes(data: &[u8]) -> (r: Result<AssetAccount, CodecError>)
        ensures
            match r {
                Ok(a) => spec_decode_asset(data@) == Some(a@) && a@.wf(),
                Err(_) => spec_decode_asset(data@) is None,
            },
    {
        if data.len() < 8 {
            return Err(CodecError);
        }
        let tag = asset_tag_bytes();
        let head = slice_subrange(data, 0, 8);
        if !bytes_eq(head, tag.as_slice()) {
            return Err(CodecError);
        }
        let p1 = match read_str(data, 8) {
            Some(p) => p,
            None => {
                return Err(CodecError);
            },
        };
        let p2 = match read_str(data, p1.1) {
            Some(p) => p,
            None => {
                return Err(CodecError);
            },
        };
        let p3 = match read_u64(data, p2.1) {
            Some(p) => p,
            None => {
                return Err(CodecError);
            },
        };
        let p4 = match read_str(data, p3.1) {
            Some(p) => p,
            None => {
                return Err(CodecError);
            },
        };
        let p5 = match read_bytes(data, p4.1, 32) {
            Some(p) => p,
            None => {
                return Err(CodecError);
            },
        };
        let p6 = match read_u8(data, p5.1) {
            Some(p) => p,
            None => {
                return Err(CodecError);
            },
        };
        let p7 = match read_u8(data, p6.1) {
            Some(p) => p,
            None => {
                return Err(CodecError);
            },
        };
        let p8 = match read_u8(data, p7.1) {
            Some(p) => p,
            None => {
                return Err(CodecError);
            },
        };
        Ok(
            AssetAccount {
                asset_id: p1.0,
                asset_type: p2.0,
                valuation: p3.0,
                metadata_uri: p4.0,
                owner: p5.0,
                is_active: p6.0 != 0,
                risk_score: p7.0,
                bump: p8.0,
            },
        )
    }
}

impl LoanAccount {
    /// Decodes a loan record; fails on a short buffer or a wrong
    /// discriminator. Domain invariants are not re-validated here.
    pub fn from_bytes(data: &[u8]) -> (r: Result<LoanAccount, CodecError>)
        ensures
            match r {
                Ok(l) => spec_decode_loan(data@) == Some(l@) && l@.wf(),
                Err(_) => spec_decode_loan(data@) is None,
            },
    {
        if data.len() < 8 {
            return Err(CodecError);
        }
        let tag = loan_tag_bytes();
        let head = slice_subrange(data, 0, 8);
        if !bytes_eq(head, tag.as_slice()) {
            return Err(CodecError);
        }
        let p1 = match read_bytes(data, 8, 32) {
            Some(p) => p,
            None => {
                return Err(CodecError);
            },
        };
        let p2 = match read_bytes(data, p1.1, 32) {
            Some(p) => p,
            None => {
                return Err(CodecError);
            },
        };
        let p3 = match read_u64(data, p2.1) {
            Some(p) => p,
            None => {
                return Err(CodecError);
            },
        };
        let p4 = match read_u64(data, p3.1) {
            Some(p) => p,
            None => {
                return Err(CodecError);
            },
        };
        let p5 = match read_i64(data, p4.1) {
            Some(p) => p,
            None => {
                return Err(CodecError);
            },
        };
        let p6 = match read_i64(data, p5.1) {
            Some(p) => p,
            None => {
                return Err(CodecError);
            },
        };
        let p7 = match read_u8(data, p6.1) {
            Some(p) => p,
            None => {
                return Err(CodecError);
            },
        };
        let p8 = match read_u8(data, p7.1) {
            Some(p) => p,
            None => {
                return Err(CodecError);
            },
        };
        let p9 = match read_u8(data, p8.1) {
            Some(p) => p,
            None => {
                return Err(CodecError);
            },
        };
        let p10 = match read_u8(data, p9.1) {
            Some(p) => p,
            None => {
                return Err(CodecError);
            },
        };
        let p11 = match read_u8(data, p10.1) {
            Some(p) => p,
            None => {
                return Err(CodecError);
            },
        };
        Ok(
            LoanAccount {
                borrower: p1.0,
                asset: p2.0,
                principal: p3.0,
                interest_rate: p4.0,
                start_time: p5.0,
                end_time: p6.0,
                is_active: p7.0 != 0,
                repaid: p8.0 != 0,
                liquidated: p9.0 != 0,
                risk_score_at_creation: p10.0,
                bump: p11.0,
            },
        )
    }
}

/// A stored record of either shape.
#[derive(Debug, PartialEq, Eq)]
pub enum Record {
    Asset(AssetAccount),
    Loan(LoanAccount),
}

/// Mathematical model of a stored record.
pub ghost enum RecordModel {
    Asset(AssetModel),
    Loan(LoanModel),
}

impl View for Record {
    type V = RecordModel;

    open spec fn view(&self) -> RecordModel {
        match self {
            Record::Asset(a) => RecordModel::Asset(a@),
            Record::Loan(l) => RecordModel::Loan(l@),
        }
    }
}

/// Meaning of a buffer as a record of either shape; unknown discriminators
/// are rejected rather than guessed at.
pub open spec fn spec_decode_record(b: Seq<u8>) -> Option<RecordModel> {
    if b.len() >= 8 && b.subrange(0, 8) == asset_tag() {
        match spec_decode_asset(b) {
            Some(m) => Some(RecordModel::Asset(m)),
            None => None,
        }
    } else if b.len() >= 8 && b.subrange(0, 8) == loan_tag() {
        match spec_decode_loan(b) {
            Some(m) => Some(RecordModel::Loan(m)),
            None => None,
        }
    } else {
        None
    }
}

/// Decodes a record of either shape, dispatching on the discriminator.
pub fn decode_record(data: &[u8]) -> (r: Result<Record, CodecError>)
    ensures
        match r {
            Ok(rec) => spec_decode_record(data@) == Some(rec@),
            Err(_) => spec_decode_record(data@) is None,
        },
{
    if data.len() >= 8 {
        let head = slice_subrange(data, 0, 8);
        let at = asset_tag_bytes();
        if bytes_eq(head, at.as_slice()) {
            return match AssetAccount::from_bytes(data) {
                Ok(a) => Ok(Record::Asset(a)),
                Err(e) => Err(e),
            };
        }
        let lt = loan_tag_bytes();
        if bytes_eq(head, lt.as_slice()) {
            return match LoanAccount::from_bytes(data) {
                Ok(l) => Ok(Record::Loan(l)),
                Err(e) => Err(e),
            };
        }
    }
    Err(CodecError)
}

/// Reading a string field back from its own wire form yields the field.
proof fn lemma_read_str_at(b: Seq<u8>, at: int, s: Seq<u8>)
    requires
        str_field_ok(s),
        0 <= at,
        at + 4 + s.len() <= b.len(),
        b.subrange(at, at + 4 + s.len()) == spec_encode_str(s),
    ensures
        spec_read_str(b, at) == Some((s, at + 4 + s.len())),
{
    lemma_auto_spec_u32_to_from_le_bytes();
    let e = spec_encode_str(s);
    assert(b.subrange(at, at + 4) =~= e.subrange(0, 4));
    assert(e.subrange(0, 4) =~= spec_u32_to_le_bytes(s.len() as u32));
    assert(b.subrange(at + 4, at + 4 + s.len()) =~= e.subrange(4, 4 + s.len() as int));
    assert(e.subrange(4, 4 + s.len() as int) =~= s);
}

/// Round trip for asset records: decoding the wire form of a well-formed
/// record yields the record, exactly.
pub proof fn lemma_asset_round_trip(m: AssetModel)
    requires
        m.wf(),
    ensures
        spec_decode_asset(spec_encode_asset(m)) == Some(m),
{
    lemma_auto_spec_u32_to_from_le_bytes();
    lemma_auto_spec_u64_to_from_le_bytes();
    let b = spec_encode_asset(m);
    let o1 = 12 + m.asset_id.len() as int;
    let o2 = o1 + 4 + m.asset_type.len();
    let o3 = o2 + 8;
    let o4 = o3 + 4 + m.metadata_uri.len();
    let o5 = o4 + 32;
    assert(b.len() == o5 + 3);
    assert(b.subrange(0, 8) =~= asset_tag());
    assert(b.subrange(8, o1) =~= spec_encode_str(m.asset_id));
    lemma_read_str_at(b, 8, m.asset_id);
    assert(b.subrange(o1, o2) =~= spec_encode_str(m.asset_type));
    lemma_read_str_at(b, o1, m.asset_type);
    assert(b.subrange(o2, o3) =~= spec_u64_to_le_bytes(m.valuation));
    assert(b.subrange(o3, o4) =~= spec_encode_str(m.metadata_uri));
    lemma_read_str_at(b, o3, m.metadata_uri);
    assert(b.subrange(o4, o5) =~= m.owner);
    assert(b[o5] == bool_byte(m.is_active));
    assert(b[o5 + 1] == m.risk_score);
    assert(b[o5 + 2] == m.bump);
    assert(spec_decode_asset(b) == Some(m));
}

/// Round trip for loan records: decoding the wire form of a well-formed
/// record yields the record, exactly.
pub proof fn lemma_loan_round_trip(m: LoanModel)
    requires
        m.wf(),
    ensures
        spec_decode_loan(spec_encode_loan(m)) == Some(m),
{
    lemma_auto_spec_u64_to_from_le_bytes();
    let b = spec_encode_loan(m);
    let o1 = 40int;
    let o2 = 72int;
    let o3 = 80int;
    let o4 = 88int;
    let o5 = 96int;
    let o6 = 104int;
    assert(b.len() == 109);
    assert(b.subrange(0, 8) =~= loan_tag());
    assert(b.subrange(8, o1) =~= m.borrower);
    assert(b.subrange(o1, o2) =~= m.asset);
    assert(b.subrange(o2, o3) =~= spec_u64_to_le_bytes(m.principal));
    assert(b.subrange(o3, o4) =~= spec_u64_to_le_bytes(m.interest_rate));
    assert(b.subrange(o4, o5) =~= spec_u64_to_le_bytes(m.start_time as u64));
    assert(b.subrange(o5, o6) =~= spec_u64_to_le_bytes(m.end_time as u64));
    assert(b[o6] == bool_byte(m.is_active));
    assert(b[o6 + 1] == bool_byte(m.repaid));
    assert(b[o6 + 2] == bool_byte(m.liquidated));
    assert(b[o6 + 3] == m.risk_score_at_creation);
    assert(b[o6 + 4] == m.bump);
    let st = m.start_time;
    let et = m.end_time;
    assert((st as u64) as i64 == st) by (bit_vector);
    assert((et as u64) as i64 == et) by (bit_vector);
    assert(spec_decode_loan(b) == Some(m));
}

} // verus!
