//! Strings in the platform's native encoding.
use vstd::prelude::*;
use vstd::string::StrSliceExecFns;
use vstd::utf8::{decode_utf8, encode_utf8, encode_utf8_decode_utf8, encode_utf8_valid_utf8, valid_utf8};

verus! {

/// A string as the operating system holds it: a sequence of bytes that is
/// UTF-8 wherever the string is Unicode, and that may hold anything else
/// where it is not.
///
/// Its view is that byte sequence.
#[derive(Debug, PartialEq, Eq)]
pub struct NativeString {
    bytes: Vec<u8>,
}

impl View for NativeString {
    type V = Seq<u8>;

    closed spec fn view(&self) -> Seq<u8> {
        self.bytes@
    }
}

impl DeepView for NativeString {
    type V = Seq<u8>;

    open spec fn deep_view(&self) -> Seq<u8> {
        self@
    }
}

impl Clone for NativeString {
    fn clone(&self) -> (copy: Self)
        ensures
            copy@ == self@,
    {
        NativeString { bytes: self.bytes.clone() }
    }
}

impl NativeString {
    /// The native string made of `bytes`.
    pub fn from_bytes(bytes: Vec<u8>) -> (native: Self)
        ensures
            native@ == bytes@,
    {
        NativeString { bytes }
    }

    /// The native form of a Unicode string: its UTF-8 encoding.
    pub fn from_str(s: &str) -> (native: Self)
        ensures
            native@ == encode_utf8(s@),
            native.is_unicode(),
            native.unicode() == s@,
    {
        proof {
            encode_utf8_valid_utf8(s@);
            encode_utf8_decode_utf8(s@);
        }
        NativeString { bytes: s.as_bytes_vec() }
    }

    /// The bytes of the string.
    pub fn as_bytes(&self) -> (bytes: &Vec<u8>)
        ensures
            bytes@ == self@,
    {
        &self.bytes
    }

    /// The bytes of the string, by value.
    pub fn into_bytes(self) -> (bytes: Vec<u8>)
        ensures
            bytes@ == self@,
    {
        self.bytes
    }

    /// Whether the string holds the same bytes as `other`.
    pub fn same_as(&self, other: &NativeString) -> (same: bool)
        ensures
            same == (self@ == other@),
    {
        if self.bytes.len() != other.bytes.len() {
            return false;
        }
        let mut i: usize = 0;
        while i < self.bytes.len()
            invariant
                i <= self.bytes.len(),
                self.bytes.len() == other.bytes.len(),
                forall|j: int| 0 <= j < i ==> self.bytes@[j] == other.bytes@[j],
            decreases self.bytes.len() - i,
        {
            if self.bytes[i] != other.bytes[i] {
                return false;
            }
            i += 1;
        }
        assert(self.bytes@ =~= other.bytes@);
        true
    }

    /// Whether the string holds no byte at all.
    pub fn is_empty(&self) -> (empty: bool)
        ensures
            empty == (self@.len() == 0),
    {
        self.bytes.len() == 0
    }

    /// Whether the string is valid Unicode.
    pub open spec fn is_unicode(&self) -> bool {
        valid_utf8(self@)
    }

    /// The characters of a string that is valid Unicode.
    pub open spec fn unicode(&self) -> Seq<char>
        recommends
            self.is_unicode(),
    {
        decode_utf8(self@)
    }

    /// The string as Unicode text, where it is valid Unicode; `None` where
    /// it is not.
    pub fn to_unicode(&self) -> (text: Option<String>)
        ensures
            text is Some <==> self.is_unicode(),
            text matches Some(s) ==> s@ == self.unicode(),
    {
        let text = string_from_utf8(self.bytes.clone());
        proof {
            if text is Some {
                encode_utf8_decode_utf8(text->0@);
            }
        }
        text
    }
}

/// Calls `String::from_utf8`, which is not verified here. It is taken to
/// succeed exactly on the byte sequences that are valid UTF-8, and then to
/// give the string whose UTF-8 encoding is those bytes.
#[verifier::external_body]
fn string_from_utf8(bytes: Vec<u8>) -> (text: Option<String>)
    ensures
        text is Some <==> valid_utf8(bytes@),
        text matches Some(s) ==> encode_utf8(s@) == bytes@,
{
    match String::from_utf8(bytes) {
        Ok(s) => Some(s),
        Err(_) => None,
    }
}

} // verus!
