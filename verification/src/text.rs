//! Byte strings that end in the terminator that the runtime expects.
//!
//! Text goes to the runtime, and comes back from it, as bytes followed by a
//! single zero byte. A [`NulString`] holds such bytes: no zero byte but the
//! last.

use crate::errors::LocalFault;
use vstd::prelude::*;
use vstd::slice::{slice_subrange, slice_to_vec};
use vstd::string::StringSliceAdditionalSpecFns;
use vstd::utf8::{decode_utf8, encode_utf8_decode_utf8, valid_utf8};

verus! {

/// Whether `bytes` end in a zero byte and hold no other.
pub open spec fn is_nul_terminated(bytes: Seq<u8>) -> bool {
    &&& bytes.len() > 0
    &&& bytes.last() == 0
    &&& forall|i: int| 0 <= i < bytes.len() - 1 ==> bytes[i] != 0
}

/// Whether `position` is where the first zero byte of `bytes` stands.
pub open spec fn is_first_nul(bytes: Seq<u8>, position: int) -> bool {
    &&& 0 <= position < bytes.len()
    &&& bytes[position] == 0
    &&& forall|i: int| 0 <= i < position ==> bytes[i] != 0
}

/// Whether `text` is what `buffer` holds before its first zero byte.
pub open spec fn begins_with_text(buffer: Seq<u8>, text: Seq<u8>) -> bool {
    &&& text.len() < buffer.len()
    &&& buffer.take(text.len() as int) == text
    &&& buffer[text.len() as int] == 0
    &&& !text.contains(0)
}

/// The text that the bytes `bytes` stand for where they are not valid UTF-8:
/// each ill-formed run of bytes gives way to the replacement character.
pub uninterp spec fn utf8_lossy(bytes: Seq<u8>) -> Seq<char>;

/// The text that the bytes `bytes` are read as: what they spell where they
/// are valid UTF-8, and what is left of them after replacement where they
/// are not.
pub open spec fn text_of(bytes: Seq<u8>) -> Seq<char> {
    if valid_utf8(bytes) {
        decode_utf8(bytes)
    } else {
        utf8_lossy(bytes)
    }
}

/// Calls `std::str::from_utf8`, which accepts exactly the byte strings that
/// are valid UTF-8 and hands back the same bytes as text.
#[verifier::external_body]
fn str_from_utf8(bytes: &[u8]) -> (text: Option<&str>)
    ensures
        text is Some <==> valid_utf8(bytes@),
        text matches Some(s) ==> s.spec_bytes() == bytes@,
{
    std::str::from_utf8(bytes).ok()
}

/// Calls `String::from_utf8_lossy`, whose result depends on the bytes alone.
#[verifier::external_body]
fn string_from_utf8_lossy(bytes: &[u8]) -> (text: String)
    ensures
        text@ == utf8_lossy(bytes@),
{
    String::from_utf8_lossy(bytes).into_owned()
}

/// Bytes without a zero byte, kept with the terminator behind them.
#[derive(Debug)]
pub struct NulString {
    bytes: Vec<u8>,
}

impl View for NulString {
    type V = Seq<u8>;

    /// The bytes before the terminator.
    closed spec fn view(&self) -> Seq<u8> {
        self.bytes@.drop_last()
    }
}

impl NulString {
    #[verifier::type_invariant]
    spec fn terminated(self) -> bool {
        is_nul_terminated(self.bytes@)
    }

    /// The bytes as the runtime takes them: with the terminator.
    pub open spec fn with_nul(self) -> Seq<u8> {
        self@.push(0)
    }

    /// Puts the terminator behind `content`. Content that holds a zero byte
    /// cannot be handed to the runtime: the fault names the first one.
    pub fn new(content: &[u8]) -> (result: Result<NulString, LocalFault>)
        ensures
            result is Ok <==> !content@.contains(0),
            result matches Ok(s) ==> s@ == content@,
            result matches Err(fault) ==> (fault matches LocalFault::InteriorNul { position }
                && is_first_nul(content@, position as int)),
    {
        let n = content.len();
        let mut i: usize = 0;
        while i < n
            invariant
                n == content@.len(),
                i <= n,
                forall|k: int| 0 <= k < i ==> content@[k] != 0,
            decreases n - i,
        {
            if content[i] == 0 {
                return Err(LocalFault::InteriorNul { position: i });
            }
            i += 1;
        }
        let mut bytes = slice_to_vec(content);
        bytes.push(0);
        assert(bytes@.drop_last() =~= content@);
        Ok(NulString { bytes })
    }

    /// The UTF-8 bytes of `text` with the terminator behind them.
    pub fn from_str(text: &str) -> (result: Result<NulString, LocalFault>)
        ensures
            result is Ok <==> !text.spec_bytes().contains(0),
            result matches Ok(s) ==> s@ == text.spec_bytes(),
            result matches Err(fault) ==> (fault matches LocalFault::InteriorNul { position }
                && is_first_nul(text.spec_bytes(), position as int)),
    {
        NulString::new(text.as_bytes())
    }

    /// Takes over a buffer that the runtime filled, where it is terminated
    /// as it must be.
    pub fn from_vec_with_nul(bytes: Vec<u8>) -> (result: Option<NulString>)
        ensures
            result is Some <==> is_nul_terminated(bytes@),
            result matches Some(s) ==> s.with_nul() == bytes@,
    {
        if ends_in_only_nul(bytes.as_slice()) {
            assert(bytes@.drop_last().push(0) =~= bytes@);
            Some(NulString { bytes })
        } else {
            None
        }
    }

    /// Takes the text out of a buffer that the runtime wrote to: the bytes
    /// before the first zero byte. A buffer without a zero byte holds no
    /// text that could be told from what lies behind it.
    pub fn from_buffer(buffer: Vec<u8>) -> (result: Option<NulString>)
        ensures
            result is Some <==> buffer@.contains(0),
            result matches Some(s) ==> begins_with_text(buffer@, s@),
    {
        let mut bytes = buffer;
        let n = bytes.len();
        let mut i: usize = 0;
        while i < n
            invariant
                bytes@ == buffer@,
                n == buffer@.len(),
                i <= n,
                forall|k: int| 0 <= k < i ==> buffer@[k] != 0,
            decreases n - i,
        {
            if bytes[i] == 0 {
                bytes.truncate(i + 1);
                assert(bytes@ =~= buffer@.take(i + 1));
                assert(bytes@.drop_last() =~= buffer@.take(i as int));
                assert(buffer@[i as int] == 0);
                return Some(NulString { bytes });
            }
            i += 1;
        }
        None
    }

    /// The bytes before the terminator.
    pub fn as_bytes(&self) -> (content: &[u8])
        ensures
            content@ == self@,
            !content@.contains(0),
    {
        proof {
            use_type_invariant(self);
        }
        let n = self.bytes.len();
        let content = slice_subrange(self.bytes.as_slice(), 0, n - 1);
        assert(content@ =~= self.bytes@.drop_last());
        content
    }

    /// The bytes with the terminator, as the runtime takes them.
    pub fn as_bytes_with_nul(&self) -> (bytes: &[u8])
        ensures
            bytes@ == self.with_nul(),
            is_nul_terminated(bytes@),
    {
        proof {
            use_type_invariant(self);
            assert(self.bytes@.drop_last().push(0) =~= self.bytes@);
        }
        self.bytes.as_slice()
    }

    pub fn into_bytes_with_nul(self) -> (bytes: Vec<u8>)
        ensures
            bytes@ == self.with_nul(),
            is_nul_terminated(bytes@),
    {
        proof {
            use_type_invariant(&self);
            assert(self.bytes@.drop_last().push(0) =~= self.bytes@);
        }
        self.bytes
    }

    /// The bytes read as text: as they stand where they are valid UTF-8,
    /// and with what is ill-formed replaced where they are not. Either way
    /// the text is made from the bytes held, and nothing is fetched again.
    pub fn into_string(self) -> (text: String)
        ensures
            text@ == text_of(self@),
    {
        let content = self.as_bytes();
        match str_from_utf8(content) {
            Some(s) => {
                proof {
                    encode_utf8_decode_utf8(s@);
                }
                s.to_owned()
            },
            None => string_from_utf8_lossy(content),
        }
    }
}

/// Whether `bytes` end in a zero byte and hold no other.
pub fn ends_in_only_nul(bytes: &[u8]) -> (ok: bool)
    ensures
        ok == is_nul_terminated(bytes@),
{
    let n = bytes.len();
    if n == 0 {
        return false;
    }
    if bytes[n - 1] != 0 {
        return false;
    }
    let mut i: usize = 0;
    while i < n - 1
        invariant
            n == bytes@.len(),
            n > 0,
            i <= n - 1,
            forall|k: int| 0 <= k < i ==> bytes@[k] != 0,
        decreases n - i,
    {
        if bytes[i] == 0 {
            return false;
        }
        i += 1;
    }
    true
}

} // verus!
