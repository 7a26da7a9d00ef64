//! String ownership transfer: the one place where text crosses the
//! boundary. Text travels as a terminator-delimited byte buffer; the
//! terminator byte `0` therefore cannot occur inside the text itself.

use vstd::prelude::*;

verus! {

/// A boundary-owned text buffer: the text's bytes followed by a single
/// terminator byte, with no terminator anywhere inside the text.
///
/// Values are only ever built by [`transfer_out`], so every value a
/// caller can hold is well formed.
pub struct BoundaryString {
    buf: Vec<u8>,
}

impl BoundaryString {
    /// Well-formedness: non-empty, ends with the terminator, and the
    /// terminator occurs nowhere else.
    pub closed spec fn wf(&self) -> bool {
        &&& self.buf@.len() >= 1
        &&& self.buf@[self.buf@.len() - 1] == 0u8
        &&& forall|j: int| 0 <= j < self.buf@.len() - 1 ==> self.buf@[j] != 0u8
    }

    /// The text carried by the buffer: everything before the terminator.
    pub closed spec fn content(&self) -> Seq<u8> {
        self.buf@.take(self.buf@.len() - 1)
    }
}

/// Moves `text` across the boundary: allocates a terminator-delimited
/// buffer holding `text`'s bytes. Returns `None` exactly when `text`
/// contains an embedded terminator byte, which the boundary
/// representation cannot express; there is no other failure mode.
pub fn transfer_out(text: &Vec<u8>) -> (r: Option<BoundaryString>)
    ensures
        r is Some <==> !text@.contains(0u8),
        r matches Some(b) ==> b.wf() && b.content() == text@,
{
    let mut buf: Vec<u8> = Vec::new();
    let mut i: usize = 0;
    while i < text.len()
        invariant
            i <= text@.len(),
            buf@ == text@.take(i as int),
            forall|j: int| 0 <= j < i ==> text@[j] != 0u8,
        decreases text@.len() - i,
    {
        if text[i] == 0u8 {
            assert(text@.contains(0u8)) by {
                assert(text@[i as int] == 0u8);
            }
            return None;
        }
        buf.push(text[i]);
        assert(buf@ =~= text@.take(i + 1));
        i += 1;
    }
    assert(!text@.contains(0u8)) by {
        assert(forall|j: int| 0 <= j < text@.len() ==> text@[j] != 0u8);
    }
    buf.push(0u8);
    let b = BoundaryString { buf };
    assert(b.content() =~= text@);
    Some(b)
}

/// Reclaims a buffer previously produced by [`transfer_out`], giving the
/// carried text back; `None` stands for the C side's null pointer and is
/// a no-op.
pub fn transfer_in(s: Option<BoundaryString>) -> (r: Option<Vec<u8>>)
    requires
        s matches Some(b) ==> b.wf(),
    ensures
        s is None <==> r is None,
        (s matches Some(b) ==> r matches Some(v) && v@ == b.content()),
{
    match s {
        None => None,
        Some(b) => {
            let mut v = b.buf;
            let _terminator = v.pop();
            assert(v@ =~= b.content());
            Some(v)
        },
    }
}

/// The release entry point: the sole legitimate way for a caller to give
/// boundary-owned text back to the library, which reclaims the memory.
/// `None` stands for the null pointer and releases nothing.
pub fn release_string(s: Option<BoundaryString>)
    requires
        s matches Some(b) ==> b.wf(),
{
    let _ = transfer_in(s);
}

} // verus!
