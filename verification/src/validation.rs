//! Validation report marshaller: packages a validation outcome — a
//! classification plus three ordered diagnostic lists — into the
//! boundary struct, one boundary text per diagnostic entry, in the
//! domain's original order.

use vstd::prelude::*;

use crate::kinds::Validity;
use crate::kinds::validity_t;
use crate::strings::BoundaryString;
use crate::strings::transfer_out;

verus! {

/// A validation outcome as the validation engine hands it over: the
/// transactions it could not resolve, and its diagnostic entries in
/// original order, each already rendered to its human-readable text.
pub struct Status {
    pub unresolved_txids: Vec<Vec<u8>>,
    pub failures: Vec<Vec<u8>>,
    pub warnings: Vec<Vec<u8>>,
    pub info: Vec<Vec<u8>>,
}

impl Status {
    /// The classification a status reports: any failure entry makes it
    /// invalid; otherwise any unresolved transaction leaves it pending
    /// external resolution; otherwise it is valid. Note the counts of
    /// info and warning entries play no part.
    pub open spec fn spec_validity(&self) -> Validity {
        if self.failures@.len() > 0 {
            Validity::Invalid
        } else if self.unresolved_txids@.len() > 0 {
            Validity::UnresolvedTransactions
        } else {
            Validity::Valid
        }
    }

    /// The authoritative validity classification of this status.
    pub fn validity(&self) -> (v: Validity)
        ensures
            v == self.spec_validity(),
    {
        if self.failures.len() > 0 {
            Validity::Invalid
        } else if self.unresolved_txids.len() > 0 {
            Validity::UnresolvedTransactions
        } else {
            Validity::Valid
        }
    }
}

/// The boundary struct for a validation outcome: the classification and
/// three parallel count/array pairs of boundary texts. Once returned,
/// the library has relinquished ownership of every text.
#[allow(non_camel_case_types)]
pub struct validation_status_t {
    pub validity: validity_t,
    pub info_len: u32,
    pub info: Vec<BoundaryString>,
    pub warn_len: u32,
    pub warn: Vec<BoundaryString>,
    pub failures_len: u32,
    pub failures: Vec<BoundaryString>,
}

impl validation_status_t {
    /// The struct's invariant: each count field equals its array's
    /// length, every text is well formed, and the failure sentinel
    /// carries no diagnostics at all.
    pub open spec fn wf(&self) -> bool {
        &&& self.info_len == self.info@.len()
        &&& self.warn_len == self.warn@.len()
        &&& self.failures_len == self.failures@.len()
        &&& self.validity == validity_t::UNABLE_TO_VALIDATE ==> self.info@.len() == 0
            && self.warn@.len() == 0 && self.failures@.len() == 0
        &&& forall|i: int| 0 <= i < self.info@.len() ==> (#[trigger] self.info@[i]).wf()
        &&& forall|i: int| 0 <= i < self.warn@.len() ==> (#[trigger] self.warn@[i]).wf()
        &&& forall|i: int| 0 <= i < self.failures@.len() ==> (#[trigger] self.failures@[i]).wf()
    }

    /// The result used when the boundary struct cannot be built at all
    /// (the domain status is unavailable): the failure sentinel, with
    /// all three arrays empty.
    pub fn failure() -> (r: Self)
        ensures
            r.validity == validity_t::UNABLE_TO_VALIDATE,
            r.info_len == 0 && r.info@.len() == 0,
            r.warn_len == 0 && r.warn@.len() == 0,
            r.failures_len == 0 && r.failures@.len() == 0,
            r.wf(),
    {
        validation_status_t {
            validity: validity_t::UNABLE_TO_VALIDATE,
            info_len: 0,
            info: Vec::new(),
            warn_len: 0,
            warn: Vec::new(),
            failures_len: 0,
            failures: Vec::new(),
        }
    }
}

/// Law: any failure entry makes a status classify as invalid at the
/// boundary, whatever else it holds — so a status with failure entries
/// can never marshal as valid or as pending resolution. Together with
/// [`validation_status_t::convert`]'s contract, which fixes the
/// boundary validity as exactly this classification and each count as
/// its list's length, this pins the whole boundary struct for such a
/// status, up to the diagnostic texts themselves.
pub proof fn lemma_failures_imply_invalid(status: Status)
    requires
        status.failures@.len() > 0,
    ensures
        crate::kinds::validity_boundary(status.spec_validity()) == validity_t::INVALID,
{
}

/// Moves a diagnostic list across the boundary: one boundary text per
/// entry, in the original order, the array sized exactly to the entry
/// count. No entry may contain an embedded terminator byte.
fn marshal_texts(texts: &Vec<Vec<u8>>) -> (r: Vec<BoundaryString>)
    requires
        forall|i: int| 0 <= i < texts@.len() ==> !(#[trigger] texts@[i])@.contains(0u8),
    ensures
        r@.len() == texts@.len(),
        forall|i: int|
            0 <= i < texts@.len() ==> (#[trigger] r@[i]).wf() && r@[i].content() == texts@[i]@,
{
    let mut out: Vec<BoundaryString> = Vec::new();
    let mut i: usize = 0;
    while i < texts.len()
        invariant
            i <= texts@.len(),
            out@.len() == i,
            forall|i: int| 0 <= i < texts@.len() ==> !(#[trigger] texts@[i])@.contains(0u8),
            forall|j: int|
                0 <= j < i ==> (#[trigger] out@[j]).wf() && out@[j].content() == texts@[j]@,
        decreases texts@.len() - i,
    {
        let entry = vstd::slice::slice_index_get(texts.as_slice(), i);
        let b = transfer_out(entry);
        if let Some(b) = b {
            out.push(b);
        }
        i += 1;
    }
    out
}

impl validation_status_t {
    /// Packages a validation outcome for the boundary: classifies
    /// through the status's own authoritative method exactly once, maps
    /// the outcome to its boundary value, and moves every diagnostic
    /// entry across the boundary in the original order, each array
    /// sized exactly to its entry count. Since every entry becomes
    /// boundary text, no entry may contain an embedded terminator byte,
    /// and each list must fit the boundary's 32-bit count field.
    pub fn convert(status: Status) -> (r: Self)
        requires
            forall|i: int|
                0 <= i < status.info@.len() ==> !(#[trigger] status.info@[i])@.contains(0u8),
            forall|i: int|
                0 <= i < status.warnings@.len() ==> !(#[trigger] status.warnings@[i])@.contains(
                    0u8,
                ),
            forall|i: int|
                0 <= i < status.failures@.len() ==> !(#[trigger] status.failures@[i])@.contains(
                    0u8,
                ),
            status.info@.len() <= u32::MAX,
            status.warnings@.len() <= u32::MAX,
            status.failures@.len() <= u32::MAX,
        ensures
            r.wf(),
            r.validity == crate::kinds::validity_boundary(status.spec_validity()),
            r.info_len == status.info@.len(),
            r.warn_len == status.warnings@.len(),
            r.failures_len == status.failures@.len(),
            forall|i: int|
                0 <= i < status.info@.len() ==> (#[trigger] r.info@[i]).content()
                    == status.info@[i]@,
            forall|i: int|
                0 <= i < status.warnings@.len() ==> (#[trigger] r.warn@[i]).content()
                    == status.warnings@[i]@,
            forall|i: int|
                0 <= i < status.failures@.len() ==> (#[trigger] r.failures@[i]).content()
                    == status.failures@[i]@,
    {
        let validity: validity_t = status.validity().into();
        let info = marshal_texts(&status.info);
        let warn = marshal_texts(&status.warnings);
        let failures = marshal_texts(&status.failures);
        let info_len = info.len() as u32;
        let warn_len = warn.len() as u32;
        let failures_len = failures.len() as u32;
        validation_status_t { validity, info_len, info, warn_len, warn, failures_len, failures }
    }
}

} // verus!
