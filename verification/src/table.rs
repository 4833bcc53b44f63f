//! The boundary surface: an explicit handle table.
//!
//! A caller across the boundary holds a plain integer handle, never a native
//! value. At any instant a handle is in exactly one of two states: live
//! (owned by the caller, denoting exactly one range) or invalid (never
//! produced, or already destroyed). Construction returns a fresh live
//! handle; reads and comparisons leave the table untouched; destruction
//! invalidates the handle and is detected — never silently absorbed — when
//! the handle was already invalid.

use vstd::prelude::*;

verus! {

use vstd::utf8::decode_utf8;
use vstd::utf8::encode_utf8;
use vstd::utf8::valid_utf8;
use crate::decode::utf16_decoded;
use crate::decode::utf8_decoded;
use crate::matcher::WildcardMatcher;
use crate::range::RustStringRange;

/// The arena of ranges owned by callers, indexed by handle. A destroyed
/// handle's slot stays empty forever, so a handle is never reused.
pub struct HandleTable {
    slots: Vec<Option<RustStringRange>>,
}

impl HandleTable {
    /// The entry a handle denotes: the live range, or `None` for a handle
    /// that was never produced here or was already destroyed.
    pub closed spec fn handle(&self, h: usize) -> Option<RustStringRange> {
        if h < self.slots@.len() {
            self.slots@[h as int]
        } else {
            None
        }
    }

    /// A handle is live when it denotes exactly one range.
    pub open spec fn live(&self, h: usize) -> bool {
        self.handle(h) is Some
    }

    /// The range a live handle denotes.
    pub open spec fn range_of(&self, h: usize) -> RustStringRange {
        self.handle(h)->Some_0
    }

    /// Every live entry is a well-formed range.
    pub open spec fn wf(&self) -> bool {
        forall|h: usize| #[trigger] self.live(h) ==> self.range_of(h).wf()
    }

    /// A fresh table with no live handle.
    pub fn new() -> (t: HandleTable)
        ensures
            t.wf(),
            forall|h: usize| !t.live(h),
    {
        HandleTable { slots: Vec::new() }
    }

    /// Takes ownership of a range and hands out the fresh handle that now
    /// denotes it; every other handle is untouched.
    fn install(&mut self, r: RustStringRange) -> (h: usize)
        requires
            old(self).wf(),
            r.wf(),
        ensures
            final(self).wf(),
            !old(self).live(h),
            final(self).handle(h) == Some(r),
            forall|j: usize| j != h ==> final(self).handle(j) == old(self).handle(j),
    {
        let h = self.slots.len();
        self.slots.push(Some(r));
        proof {
            assert forall|j: usize| #[trigger] self.live(j) implies self.range_of(j).wf() by {
                if j != h {
                    assert(self.handle(j) == old(self).handle(j));
                    assert(old(self).live(j));
                }
            }
        }
        h
    }
}

/// Decodes a UTF-16 code-unit buffer (lossily) and returns a fresh handle
/// owning the result. Every previously issued handle is untouched.
pub fn ruststringrange_new(table: &mut HandleTable, buffer: &[u16]) -> (h: usize)
    requires
        old(table).wf(),
    ensures
        final(table).wf(),
        !old(table).live(h),
        final(table).live(h),
        final(table).range_of(h)@ == utf16_decoded(buffer@),
        final(table).range_of(h).bytes() == encode_utf8(utf16_decoded(buffer@)),
        forall|j: usize| j != h ==> final(table).handle(j) == old(table).handle(j),
{
    let r = RustStringRange::from_buffer_utf16(buffer);
    table.install(r)
}

/// Decodes a UTF-8 byte buffer (lossily) and returns a fresh handle owning
/// the result. A buffer that already is valid UTF-8 comes back byte for
/// byte through the raw accessor. Every previously issued handle is
/// untouched.
pub fn ruststringrange_new_utf8(table: &mut HandleTable, buffer: &[u8]) -> (h: usize)
    requires
        old(table).wf(),
    ensures
        final(table).wf(),
        !old(table).live(h),
        final(table).live(h),
        final(table).range_of(h)@ == utf8_decoded(buffer@),
        final(table).range_of(h).bytes() == encode_utf8(utf8_decoded(buffer@)),
        valid_utf8(buffer@) ==> final(table).range_of(h)@ == decode_utf8(buffer@)
            && final(table).range_of(h).bytes() == buffer@,
        forall|j: usize| j != h ==> final(table).handle(j) == old(table).handle(j),
{
    let r = RustStringRange::from_buffer_utf8(buffer);
    table.install(r)
}

/// Destroys the handle: exactly when it was live, its range is released and
/// `true` comes back; a handle that is not live is reported with `false` and
/// the table is left exactly as it was. Either way the handle is invalid
/// afterwards and every other handle is untouched.
pub fn ruststringrange_free(table: &mut HandleTable, h: usize) -> (ok: bool)
    requires
        old(table).wf(),
    ensures
        final(table).wf(),
        ok == old(table).live(h),
        !final(table).live(h),
        forall|j: usize| j != h ==> final(table).handle(j) == old(table).handle(j),
        !ok ==> *final(table) == *old(table),
{
    if h < table.slots.len() {
        if table.slots[h].is_some() {
            table.slots[h] = None;
            proof {
                assert forall|j: usize| #[trigger] table.live(j) implies table.range_of(j).wf()
                by {
                    assert(table.handle(j) == old(table).handle(j));
                    assert(old(table).live(j));
                }
            }
            return true;
        }
        false
    } else {
        false
    }
}

/// Reads the byte count of a live handle's view; a handle that is not live
/// is detected and answered with `None`. The table is never changed.
pub fn ruststringrange_len(table: &HandleTable, h: usize) -> (r: Option<usize>)
    requires
        table.wf(),
    ensures
        match r {
            Some(n) => table.live(h) && n == table.range_of(h).bytes().len(),
            None => !table.live(h),
        },
{
    if h < table.slots.len() {
        match &table.slots[h] {
            Some(range) => {
                proof {
                    assert(table.live(h));
                    assert(*range == table.range_of(h));
                }
                Some(range.len())
            },
            None => None,
        }
    } else {
        None
    }
}

/// Reads the raw bytes of a live handle's view — the stable zero-copy window
/// onto the decoded text — or detects a handle that is not live. The table
/// is never changed.
pub fn ruststringrange_raw<'a>(table: &'a HandleTable, h: usize) -> (r: Option<&'a [u8]>)
    requires
        table.wf(),
    ensures
        match r {
            Some(b) => table.live(h) && b@ == table.range_of(h).bytes(),
            None => !table.live(h),
        },
{
    if h < table.slots.len() {
        match &table.slots[h] {
            Some(range) => {
                proof {
                    assert(table.live(h));
                    assert(*range == table.range_of(h));
                }
                Some(range.as_slice().as_bytes())
            },
            None => None,
        }
    } else {
        None
    }
}

/// Compares the texts of two live handles by delegating — exactly — to the
/// supplied wildcard matcher on their decoded views; if either handle is not
/// live, that is detected and answered with `None`. The table is never
/// changed.
pub fn ruststringrange_compare_with_wildcard<M: WildcardMatcher>(
    table: &HandleTable,
    x: usize,
    y: usize,
    matcher: &M,
) -> (r: Option<bool>)
    requires
        table.wf(),
    ensures
        match r {
            Some(v) => table.live(x) && table.live(y) && v == matcher.spec_matches(
                table.range_of(x)@,
                table.range_of(y)@,
            ),
            None => !table.live(x) || !table.live(y),
        },
{
    if x >= table.slots.len() || y >= table.slots.len() {
        return None;
    }
    match (&table.slots[x], &table.slots[y]) {
        (Some(rx), Some(ry)) => {
            proof {
                assert(table.live(x));
                assert(table.live(y));
                assert(*rx == table.range_of(x));
                assert(*ry == table.range_of(y));
            }
            Some(matcher.matches(rx.as_slice(), ry.as_slice()))
        },
        _ => None,
    }
}

/// Idempotent reads: the length and the bytes that the read operations
/// return are fully determined by the handle's entry. Reads take the table
/// immutably, and creating or destroying any other handle leaves the entry
/// as it was; so every read of a handle between its creation and its
/// destruction returns the same length and the same bytes.
pub proof fn lemma_reads_idempotent(t1: HandleTable, t2: HandleTable, h: usize)
    requires
        t1.wf(),
        t2.wf(),
        t1.live(h),
        t2.handle(h) == t1.handle(h),
    ensures
        t2.live(h),
        t2.range_of(h).bytes() == t1.range_of(h).bytes(),
        t2.range_of(h).bytes().len() == t1.range_of(h).bytes().len(),
        t2.range_of(h)@ == t1.range_of(h)@,
{
}

} // verus!
