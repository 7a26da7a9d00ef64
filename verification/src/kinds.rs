//! The four closed enumerations that cross the boundary, with total,
//! order-preserving mappings between the domain side and the
//! boundary side, and the stable numeric codes a caller may hardcode.

use vstd::prelude::*;

verus! {

/// Domain classification of a script descriptor's content.
#[derive(Clone, Copy, Debug, PartialEq, Eq, Structural)]
pub enum ContentType {
    Bare,
    Hashed,
    SegWit,
    Taproot,
}

/// Boundary counterpart of [`ContentType`]; its stable codes are
/// Bare = 0, Hashed = 1, SegWit = 2, Taproot = 3 (see [`descriptor_type::code`]).
#[allow(non_camel_case_types)]
#[derive(Clone, Copy, Debug, PartialEq, Eq, Structural)]
pub enum descriptor_type {
    BARE,
    HASHED,
    SEGWIT,
    TAPROOT,
}

/// Domain classification of a payment request.
#[derive(Clone, Copy, Debug, PartialEq, Eq, Structural)]
pub enum InvoiceType {
    AddressUtxo,
    Descriptor,
    Psbt,
}

/// Boundary counterpart of [`InvoiceType`]; stable codes are
/// AddressUtxo = 0, Descriptor = 1, Psbt = 2 (see [`invoice_type::code`]).
#[allow(non_camel_case_types)]
#[derive(Clone, Copy, Debug, PartialEq, Eq, Structural)]
pub enum invoice_type {
    ADDRESS_UTXO,
    DESCRIPTOR,
    PSBT,
}

/// Domain outcome of validating a transfer. The domain never reports
/// "unable to validate": that value exists only at the boundary.
#[derive(Clone, Copy, Debug, PartialEq, Eq, Structural)]
pub enum Validity {
    Valid,
    UnresolvedTransactions,
    Invalid,
}

/// Boundary counterpart of [`Validity`], extended with the failure
/// sentinel `UNABLE_TO_VALIDATE`, which is assigned only when the
/// boundary struct itself could not be built. Stable codes are
/// UnableToValidate = 0, Valid = 1, UnresolvedTransactions = 2,
/// Invalid = 3 (see [`validity_t::code`]).
#[allow(non_camel_case_types)]
#[derive(Clone, Copy, Debug, PartialEq, Eq, Structural)]
pub enum validity_t {
    UNABLE_TO_VALIDATE,
    VALID,
    UNRESOLVED_TX,
    INVALID,
}

/// The boundary-to-domain mapping for descriptor kinds.
pub open spec fn descriptor_domain(t: descriptor_type) -> ContentType {
    match t {
        descriptor_type::BARE => ContentType::Bare,
        descriptor_type::HASHED => ContentType::Hashed,
        descriptor_type::SEGWIT => ContentType::SegWit,
        descriptor_type::TAPROOT => ContentType::Taproot,
    }
}

/// The domain-to-boundary mapping for descriptor kinds.
pub open spec fn descriptor_boundary(t: ContentType) -> descriptor_type {
    match t {
        ContentType::Bare => descriptor_type::BARE,
        ContentType::Hashed => descriptor_type::HASHED,
        ContentType::SegWit => descriptor_type::SEGWIT,
        ContentType::Taproot => descriptor_type::TAPROOT,
    }
}

/// The boundary-to-domain mapping for invoice kinds.
pub open spec fn invoice_domain(t: invoice_type) -> InvoiceType {
    match t {
        invoice_type::ADDRESS_UTXO => InvoiceType::AddressUtxo,
        invoice_type::DESCRIPTOR => InvoiceType::Descriptor,
        invoice_type::PSBT => InvoiceType::Psbt,
    }
}

/// The domain-to-boundary mapping for invoice kinds.
pub open spec fn invoice_boundary(t: InvoiceType) -> invoice_type {
    match t {
        InvoiceType::AddressUtxo => invoice_type::ADDRESS_UTXO,
        InvoiceType::Descriptor => invoice_type::DESCRIPTOR,
        InvoiceType::Psbt => invoice_type::PSBT,
    }
}

/// The domain-to-boundary mapping for validity; total on the domain
/// side, and never yields the boundary-only failure sentinel.
pub open spec fn validity_boundary(v: Validity) -> validity_t {
    match v {
        Validity::Valid => validity_t::VALID,
        Validity::UnresolvedTransactions => validity_t::UNRESOLVED_TX,
        Validity::Invalid => validity_t::INVALID,
    }
}

impl core::convert::From<descriptor_type> for ContentType {
    fn from(t: descriptor_type) -> Self {
        match t {
            descriptor_type::BARE => ContentType::Bare,
            descriptor_type::HASHED => ContentType::Hashed,
            descriptor_type::SEGWIT => ContentType::SegWit,
            descriptor_type::TAPROOT => ContentType::Taproot,
        }
    }
}

impl vstd::std_specs::convert::FromSpecImpl<descriptor_type> for ContentType {
    open spec fn obeys_from_spec() -> bool {
        true
    }

    open spec fn from_spec(t: descriptor_type) -> Self {
        descriptor_domain(t)
    }
}

impl core::convert::From<ContentType> for descriptor_type {
    fn from(t: ContentType) -> Self {
        match t {
            ContentType::Bare => descriptor_type::BARE,
            ContentType::Hashed => descriptor_type::HASHED,
            ContentType::SegWit => descriptor_type::SEGWIT,
            ContentType::Taproot => descriptor_type::TAPROOT,
        }
    }
}

impl vstd::std_specs::convert::FromSpecImpl<ContentType> for descriptor_type {
    open spec fn obeys_from_spec() -> bool {
        true
    }

    open spec fn from_spec(t: ContentType) -> Self {
        descriptor_boundary(t)
    }
}

impl core::convert::From<invoice_type> for InvoiceType {
    fn from(t: invoice_type) -> Self {
        match t {
            invoice_type::ADDRESS_UTXO => InvoiceType::AddressUtxo,
            invoice_type::DESCRIPTOR => InvoiceType::Descriptor,
            invoice_type::PSBT => InvoiceType::Psbt,
        }
    }
}

impl vstd::std_specs::convert::FromSpecImpl<invoice_type> for InvoiceType {
    open spec fn obeys_from_spec() -> bool {
        true
    }

    open spec fn from_spec(t: invoice_type) -> Self {
        invoice_domain(t)
    }
}

impl core::convert::From<InvoiceType> for invoice_type {
    fn from(t: InvoiceType) -> Self {
        match t {
            InvoiceType::AddressUtxo => invoice_type::ADDRESS_UTXO,
            InvoiceType::Descriptor => invoice_type::DESCRIPTOR,
            InvoiceType::Psbt => invoice_type::PSBT,
        }
    }
}

impl vstd::std_specs::convert::FromSpecImpl<InvoiceType> for invoice_type {
    open spec fn obeys_from_spec() -> bool {
        true
    }

    open spec fn from_spec(t: InvoiceType) -> Self {
        invoice_boundary(t)
    }
}

impl core::convert::From<Validity> for validity_t {
    fn from(v: Validity) -> Self {
        match v {
            Validity::Valid => validity_t::VALID,
            Validity::UnresolvedTransactions => validity_t::UNRESOLVED_TX,
            Validity::Invalid => validity_t::INVALID,
        }
    }
}

impl vstd::std_specs::convert::FromSpecImpl<Validity> for validity_t {
    open spec fn obeys_from_spec() -> bool {
        true
    }

    open spec fn from_spec(v: Validity) -> Self {
        validity_boundary(v)
    }
}

impl descriptor_type {
    /// The stable numeric code of each descriptor kind, an explicit
    /// table rather than an ordinal: reordering variants in source can
    /// never silently renumber the wire contract.
    pub fn code(self) -> (c: u8)
        ensures
            c == match self {
                descriptor_type::BARE => 0u8,
                descriptor_type::HASHED => 1u8,
                descriptor_type::SEGWIT => 2u8,
                descriptor_type::TAPROOT => 3u8,
            },
    {
        match self {
            descriptor_type::BARE => 0,
            descriptor_type::HASHED => 1,
            descriptor_type::SEGWIT => 2,
            descriptor_type::TAPROOT => 3,
        }
    }
}

impl invoice_type {
    /// The stable numeric code of each invoice kind.
    pub fn code(self) -> (c: u8)
        ensures
            c == match self {
                invoice_type::ADDRESS_UTXO => 0u8,
                invoice_type::DESCRIPTOR => 1u8,
                invoice_type::PSBT => 2u8,
            },
    {
        match self {
            invoice_type::ADDRESS_UTXO => 0,
            invoice_type::DESCRIPTOR => 1,
            invoice_type::PSBT => 2,
        }
    }
}

impl validity_t {
    /// The stable numeric code of each validity outcome.
    pub fn code(self) -> (c: u8)
        ensures
            c == match self {
                validity_t::UNABLE_TO_VALIDATE => 0u8,
                validity_t::VALID => 1u8,
                validity_t::UNRESOLVED_TX => 2u8,
                validity_t::INVALID => 3u8,
            },
    {
        match self {
            validity_t::UNABLE_TO_VALIDATE => 0,
            validity_t::VALID => 1,
            validity_t::UNRESOLVED_TX => 2,
            validity_t::INVALID => 3,
        }
    }
}

/// Law: for every descriptor kind, mapping the domain value to the
/// boundary and back is the identity.
pub proof fn lemma_descriptor_kind_round_trip(t: ContentType)
    ensures
        descriptor_domain(descriptor_boundary(t)) == t,
{
}

/// Law: for every invoice kind, mapping the domain value to the
/// boundary and back is the identity.
pub proof fn lemma_invoice_kind_round_trip(t: InvoiceType)
    ensures
        invoice_domain(invoice_boundary(t)) == t,
{
}

} // verus!
