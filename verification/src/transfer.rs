//! Transfer result marshaller: packages a completed transfer attempt
//! (a partially signed transaction plus an optional consignment text)
//! into the boundary struct, routing every text through the string
//! ownership transfer utility.

use vstd::prelude::*;

use crate::strings::BoundaryString;
use crate::strings::transfer_out;

verus! {

/// The byte that the standard encoding alphabet assigns to the 6-bit
/// value `v` (A..Z, a..z, 0..9, `+`, `/`), for `0 <= v < 64`.
pub open spec fn b64_char(v: int) -> u8 {
    if v < 26 {
        (65 + v) as u8
    } else if v < 52 {
        (97 + (v - 26)) as u8
    } else if v < 62 {
        (48 + (v - 52)) as u8
    } else if v == 62 {
        43u8
    } else {
        47u8
    }
}

/// Base64 (standard alphabet, with `=` padding) over a byte sequence:
/// each group of three input bytes becomes four alphabet bytes; a final
/// group of one or two input bytes is padded to four with `=` (61).
pub open spec fn spec_base64(s: Seq<u8>) -> Seq<u8>
    decreases s.len(),
{
    if s.len() == 0 {
        Seq::empty()
    } else if s.len() == 1 {
        let b0 = s[0] as int;
        seq![b64_char(b0 / 4), b64_char((b0 % 4) * 16), 61u8, 61u8]
    } else if s.len() == 2 {
        let b0 = s[0] as int;
        let b1 = s[1] as int;
        seq![b64_char(b0 / 4), b64_char((b0 % 4) * 16 + b1 / 16), b64_char((b1 % 16) * 4), 61u8]
    } else {
        let b0 = s[0] as int;
        let b1 = s[1] as int;
        let b2 = s[2] as int;
        seq![
            b64_char(b0 / 4),
            b64_char((b0 % 4) * 16 + b1 / 16),
            b64_char((b1 % 16) * 4 + b2 / 64),
            b64_char(b2 % 64),
        ] + spec_base64(s.skip(3))
    }
}

/// Law: a base64 encoding never contains the boundary terminator byte,
/// since every byte it emits is either an alphabet byte or the padding
/// byte `=`. Moving the mandatory transaction text across the boundary
/// therefore cannot fail.
pub proof fn lemma_base64_no_terminator(s: Seq<u8>)
    ensures
        forall|i: int| 0 <= i < spec_base64(s).len() ==> spec_base64(s)[i] != 0u8,
    decreases s.len(),
{
    if s.len() >= 3 {
        lemma_base64_no_terminator(s.skip(3));
        assert forall|i: int| 0 <= i < spec_base64(s).len() implies spec_base64(s)[i] != 0u8 by {
            if i >= 4 {
                assert(spec_base64(s)[i] == spec_base64(s.skip(3))[i - 4]);
            }
        }
    }
}

#[verifier::external_type_specification]
#[verifier::external_body]
pub struct ExPsbt(bitcoin::Psbt);

/// Relies on bitcoin's `Psbt::serialize`: the raw binary serialization
/// of a partially signed transaction. The transaction is opaque here,
/// so nothing is claimed of the bytes; everything downstream holds for
/// every byte sequence.
#[verifier::external_body]
fn psbt_serialize(p: &bitcoin::Psbt) -> (r: Vec<u8>)
{
    p.serialize()
}

/// Relies on base64's `encode`: standard alphabet with `=` padding,
/// as [`spec_base64`] states it.
#[verifier::external_body]
fn base64_bytes(data: &Vec<u8>) -> (r: Vec<u8>)
    ensures
        r@ == spec_base64(data@),
{
    base64::encode(data.as_slice()).into_bytes()
}

/// A completed transfer attempt as the protocol logic hands it over:
/// the partially signed transaction, plus — if a consignment was
/// attached — the consignment's self-describing, checksum-bearing text
/// encoding, already computed by the protocol side.
pub struct PreparedTransfer {
    pub psbt: bitcoin::Psbt,
    pub consignment_text: Option<Vec<u8>>,
}

/// The boundary struct for a transfer attempt. Once returned, the
/// library has relinquished ownership of both texts; the only way to
/// reclaim them is the paired release operation.
#[allow(non_camel_case_types)]
pub struct prepared_transfer_t {
    pub success: bool,
    pub consignment_bech32: Option<BoundaryString>,
    pub psbt_base64: Option<BoundaryString>,
}

impl prepared_transfer_t {
    /// The struct's invariant: a failed result carries no text at all,
    /// a successful one always carries the transaction text.
    pub open spec fn wf(&self) -> bool {
        &&& !self.success ==> self.consignment_bech32 is None && self.psbt_base64 is None
        &&& self.success ==> self.psbt_base64 is Some
        &&& (self.consignment_bech32 matches Some(b) ==> b.wf())
        &&& (self.psbt_base64 matches Some(b) ==> b.wf())
    }

    /// The result used on any upstream error path, before a domain
    /// result exists: not a success, and both text fields absent.
    pub fn failure() -> (r: Self)
        ensures
            r.success == false,
            r.consignment_bech32 is None,
            r.psbt_base64 is None,
            r.wf(),
    {
        prepared_transfer_t { success: false, consignment_bech32: None, psbt_base64: None }
    }
}

/// Builds the boundary struct from the transaction's binary
/// serialization and the optional consignment text. The transaction
/// text is the base64 form of the bytes and is always present — the
/// encoding provably contains no terminator. The consignment text is
/// kept only when it can cross the boundary: an embedded terminator
/// silently degrades it to absent rather than failing the result.
pub fn marshal_transfer(psbt_bytes: &Vec<u8>, consignment_text: Option<Vec<u8>>) -> (r:
    prepared_transfer_t)
    ensures
        r.wf(),
        r.success,
        r.psbt_base64 matches Some(b) && b.content() == spec_base64(psbt_bytes@),
        match consignment_text {
            Some(c) => if c@.contains(0u8) {
                r.consignment_bech32 is None
            } else {
                r.consignment_bech32 matches Some(b) && b.content() == c@
            },
            None => r.consignment_bech32 is None,
        },
{
    let encoded = base64_bytes(psbt_bytes);
    proof {
        lemma_base64_no_terminator(psbt_bytes@);
        assert(!encoded@.contains(0u8));
    }
    let psbt_base64 = transfer_out(&encoded);
    let consignment_bech32 = match consignment_text {
        None => None,
        Some(c) => transfer_out(&c),
    };
    prepared_transfer_t { success: true, consignment_bech32, psbt_base64 }
}

impl core::convert::From<PreparedTransfer> for prepared_transfer_t {
    /// Serializes the transaction and hands the bytes to
    /// [`marshal_transfer`]. The result is a well-formed success with
    /// the transaction text present and the consignment kept exactly
    /// when it was attached and terminator-free; only the transaction
    /// text's bytes go unstated here, since the serialization of an
    /// opaque transaction has no description at the specification
    /// level — [`marshal_transfer`] ties them to its input exactly.
    fn from(p: PreparedTransfer) -> (r: Self)
        ensures
            r.success,
            r.wf(),
            r.psbt_base64 is Some,
            match p.consignment_text {
                Some(c) => if c@.contains(0u8) {
                    r.consignment_bech32 is None
                } else {
                    r.consignment_bech32 matches Some(b) && b.content() == c@
                },
                None => r.consignment_bech32 is None,
            },
    {
        let bytes = psbt_serialize(&p.psbt);
        marshal_transfer(&bytes, p.consignment_text)
    }
}

impl vstd::std_specs::convert::FromSpecImpl<PreparedTransfer> for prepared_transfer_t {
    open spec fn obeys_from_spec() -> bool {
        false
    }

    open spec fn from_spec(p: PreparedTransfer) -> Self {
        vstd::pervasive::arbitrary()
    }
}

} // verus!
