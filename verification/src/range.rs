//! The string-range data layer: an immutable, reference-counted text buffer
//! and a read-only byte-range view over it.

use vstd::prelude::*;

verus! {

use std::rc::Rc;
use vstd::utf8::decode_utf8;
use vstd::utf8::decode_utf8_encode_utf8;
use vstd::utf8::encode_utf8;
use vstd::utf8::encode_utf8_decode_utf8;
use vstd::utf8::encode_utf8_valid_utf8;
use vstd::utf8::is_char_boundary;
use vstd::utf8::is_char_boundary_start_end_of_seq;
use vstd::utf8::valid_utf8;
use vstd::string::StringSliceAdditionalSpecFns;
use crate::decode::decode_utf8_lossy;
use crate::decode::utf16_decoded;
use crate::decode::utf8_decoded;

/// An immutable text value in shared storage, together with a read-only view:
/// `offset` and `length` select a byte range of the storage's UTF-8 encoding.
/// The range is the unit handed across the boundary; it never mutates the
/// storage, and many ranges may share one storage.
pub struct RustStringRange {
    string: Rc<String>,
    offset: usize,
    length: usize,
}

impl RustStringRange {
    /// The UTF-8 encoding of the whole backing storage.
    pub closed spec fn storage_bytes(&self) -> Seq<u8> {
        encode_utf8(self.string@)
    }

    /// The bytes of the selected range: exactly what a reader of the range
    /// sees through the raw byte accessors.
    pub closed spec fn bytes(&self) -> Seq<u8> {
        self.storage_bytes().subrange(
            self.offset as int,
            self.offset as int + self.length as int,
        )
    }

    /// Well-formedness: the byte range lies inside the storage and on
    /// character boundaries of its encoding, so the range's bytes are
    /// themselves valid UTF-8. Constructors establish this and no operation
    /// ever disturbs it.
    pub closed spec fn wf(&self) -> bool {
        &&& valid_utf8(self.storage_bytes())
        &&& self.offset as int + self.length as int <= self.storage_bytes().len()
        &&& is_char_boundary(self.storage_bytes(), self.offset as int)
        &&& is_char_boundary(
            self.storage_bytes().subrange(self.offset as int, self.storage_bytes().len() as int),
            self.length as int,
        )
        &&& valid_utf8(self.bytes())
    }

    /// Byte count of the view.
    pub fn len(&self) -> (r: usize)
        requires
            self.wf(),
        ensures
            r == self.bytes().len(),
    {
        self.length
    }

    /// Wraps the given text in a fresh, singly-owned storage; the resulting
    /// range covers the entire text.
    pub fn from_string(s: String) -> (r: RustStringRange)
        ensures
            r.wf(),
            r@ == s@,
            r.bytes() == encode_utf8(s@),
    {
        let ghost chars: Seq<char> = s@;
        let length: usize = s.as_str().as_bytes().len();
        let string = Rc::new(s);
        let r = RustStringRange { string, offset: 0, length };
        proof {
            encode_utf8_valid_utf8(chars);
            is_char_boundary_start_end_of_seq(encode_utf8(chars));
            assert(r.storage_bytes() == encode_utf8(chars));
            assert(r.bytes() =~= encode_utf8(chars));
            assert(r.storage_bytes().subrange(0, r.storage_bytes().len() as int)
                =~= r.storage_bytes());
            encode_utf8_decode_utf8(chars);
        }
        r
    }

    /// Copies the given slice into a fresh range covering all of it.
    pub fn from_str(s: &str) -> (r: RustStringRange)
        ensures
            r.wf(),
            r@ == s@,
            r.bytes() == s.spec_bytes(),
    {
        RustStringRange::from_string(s.to_owned())
    }

    /// Decodes a UTF-16 code-unit buffer into a fresh range; ill-formed data
    /// is replaced, never rejected.
    pub fn from_buffer_utf16(buffer: &[u16]) -> (r: RustStringRange)
        ensures
            r.wf(),
            r@ == utf16_decoded(buffer@),
            r.bytes() == encode_utf8(utf16_decoded(buffer@)),
    {
        RustStringRange::from_string(String::from_utf16_lossy(buffer))
    }

    /// Decodes a UTF-8 byte buffer into a fresh range; ill-formed sequences
    /// are replaced, never rejected. A buffer that already is valid UTF-8
    /// comes back byte for byte.
    pub fn from_buffer_utf8(buffer: &[u8]) -> (r: RustStringRange)
        ensures
            r.wf(),
            r@ == utf8_decoded(buffer@),
            r.bytes() == encode_utf8(utf8_decoded(buffer@)),
            valid_utf8(buffer@) ==> r@ == decode_utf8(buffer@) && r.bytes() == buffer@,
    {
        let s = decode_utf8_lossy(buffer);
        let r = RustStringRange::from_string(s);
        proof {
            if valid_utf8(buffer@) {
                decode_utf8_encode_utf8(buffer@);
            }
        }
        r
    }

    /// The textual content of the range, as a read-only slice of the shared
    /// storage: no copy, no allocation.
    pub fn as_slice(&self) -> (r: &str)
        requires
            self.wf(),
        ensures
            r@ == self@,
            r.spec_bytes() == self.bytes(),
    {
        let s: &str = self.string.as_str();
        proof {
            assert(s.spec_bytes() == self.storage_bytes());
        }
        let (_, tail) = s.split_at(self.offset);
        let (head, _) = tail.split_at(self.length);
        proof {
            assert(head.spec_bytes() =~= self.bytes());
            encode_utf8_decode_utf8(head@);
        }
        head
    }
}

impl View for RustStringRange {
    type V = Seq<char>;

    /// The decoded characters of the selected range.
    closed spec fn view(&self) -> Seq<char> {
        decode_utf8(self.bytes())
    }
}

/// Round trip between the two faces of a range: the bytes a reader sees
/// decode to exactly the range's text, and the text encodes back to exactly
/// those bytes. Reading a range therefore loses nothing and adds nothing.
pub proof fn lemma_bytes_view_round_trip(r: RustStringRange)
    requires
        r.wf(),
    ensures
        decode_utf8(r.bytes()) == r@,
        encode_utf8(r@) == r.bytes(),
{
    decode_utf8_encode_utf8(r.bytes());
}

} // verus!
