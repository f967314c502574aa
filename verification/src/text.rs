//! The text codec capability: decoding labelled encodings to text, and
//! encoding text to UTF-8 bytes.
//!
//! A decoder is built from a WHATWG encoding label and two switches:
//! `fatal` decides whether a malformed sequence is an error or becomes
//! replacement characters, and `ignoreBOM` keeps a leading byte-order
//! mark as data. The decoding itself is the `encoding_rs` crate's; what
//! each decode returns is a function of the canonical encoding name, the
//! byte-order-mark switch and the bytes alone, named below.

use vstd::prelude::*;

use encoding_rs::DecoderResult;
use vstd::utf8::encode_utf8;

use crate::strutil::{ascii_lower, chars_to_string, lower_char};

verus! {

/// The canonical name of the encoding a WHATWG label names, when the
/// label names one.
pub uninterp spec fn encoding_for_label_of(label: Seq<char>) -> Option<Seq<char>>;

/// The text the bytes decode to under an encoding, with malformed
/// sequences replaced by replacement characters.
pub uninterp spec fn lossy_decode_of(
    encoding: Seq<char>,
    ignore_bom: bool,
    bytes: Seq<u8>,
) -> Seq<char>;

/// The text the bytes decode to under an encoding, when no malformed
/// sequence occurs; `None` when one does.
pub uninterp spec fn strict_decode_of(
    encoding: Seq<char>,
    ignore_bom: bool,
    bytes: Seq<u8>,
) -> Option<Seq<char>>;

/// Relies on `encoding_rs::Encoding::for_label` and `Encoding::name`:
/// the label lookup of the WHATWG encoding standard. A canonical name is
/// itself a label of its encoding, so the lookup is idempotent.
#[verifier::external_body]
fn lookup_encoding(label: &str) -> (r: Option<String>)
    ensures
        match r {
            Some(name) => encoding_for_label_of(label@) == Some(name@) && encoding_for_label_of(
                name@,
            ) == Some(name@),
            None => encoding_for_label_of(label@) is None,
        },
{
    encoding_rs::Encoding::for_label(label.as_bytes()).map(|e| e.name().to_owned())
}

/// Relies on `encoding_rs::Decoder::decode_to_string` (on a decoder from
/// `new_decoder` or `new_decoder_without_bom_handling`, sized by
/// `max_utf8_buffer_length`): one whole-input decode with replacement,
/// which cannot fail.
#[verifier::external_body]
fn decode_lossy(encoding: &str, ignore_bom: bool, bytes: &Vec<u8>) -> (r: String)
    requires
        encoding_for_label_of(encoding@) == Some(encoding@),
        bytes@.len() * 3 + 3 <= usize::MAX,
    ensures
        r@ == lossy_decode_of(encoding@, ignore_bom, bytes@),
{
    let enc = encoding_rs::Encoding::for_label(encoding.as_bytes()).unwrap();
    let mut decoder = if ignore_bom {
        enc.new_decoder_without_bom_handling()
    } else {
        enc.new_decoder()
    };
    let len = decoder.max_utf8_buffer_length(bytes.len());
    let mut decoded = len.map(String::with_capacity).unwrap_or_else(String::new);
    let _ = decoder.decode_to_string(bytes, &mut decoded, true);
    decoded
}

/// Relies on `encoding_rs::Decoder::decode_to_string_without_replacement`
/// (on a decoder from `new_decoder` or
/// `new_decoder_without_bom_handling`, sized by
/// `max_utf8_buffer_length_without_replacement`): one whole-input decode
/// that reports the first malformed sequence instead of replacing it.
#[verifier::external_body]
fn decode_strict(encoding: &str, ignore_bom: bool, bytes: &Vec<u8>) -> (r: Option<String>)
    requires
        encoding_for_label_of(encoding@) == Some(encoding@),
        bytes@.len() * 3 + 3 <= usize::MAX,
    ensures
        match r {
            Some(s) => strict_decode_of(encoding@, ignore_bom, bytes@) == Some(s@),
            None => strict_decode_of(encoding@, ignore_bom, bytes@) is None,
        },
{
    let enc = encoding_rs::Encoding::for_label(encoding.as_bytes()).unwrap();
    let mut decoder = if ignore_bom {
        enc.new_decoder_without_bom_handling()
    } else {
        enc.new_decoder()
    };
    let len = decoder.max_utf8_buffer_length_without_replacement(bytes.len());
    let mut decoded = len.map(String::with_capacity).unwrap_or_else(String::new);
    let (res, _) = decoder.decode_to_string_without_replacement(bytes, &mut decoded, true);
    match res {
        DecoderResult::Malformed(_, _) => None,
        _ => Some(decoded),
    }
}

/// Why a decoder could not be built or could not decode.
#[derive(Clone, Copy, Debug, PartialEq, Eq, Structural)]
pub enum TextCodecError {
    /// The label names no encoding.
    UnknownEncoding,
    /// A malformed sequence was found and replacements are not allowed.
    Malformed,
}

/// A decoder from a labelled encoding to text.
#[derive(Debug)]
pub struct TextDecoder {
    encoding: String,
    fatal: bool,
    ignore_bom: bool,
}

impl TextDecoder {
    /// The decoder holds the canonical name of a real encoding.
    #[verifier::type_invariant]
    spec fn type_inv(self) -> bool {
        encoding_for_label_of(self.encoding@) == Some(self.encoding@)
    }

    /// The canonical name of the decoder's encoding.
    pub closed spec fn encoding_view(&self) -> Seq<char> {
        self.encoding@
    }

    /// Malformed sequences are errors rather than replacement characters.
    pub closed spec fn fatal_spec(&self) -> bool {
        self.fatal
    }

    /// A leading byte-order mark is kept as data.
    pub closed spec fn ignore_bom_spec(&self) -> bool {
        self.ignore_bom
    }

    /// Build a decoder for the encoding `label` names; the label defaults
    /// to UTF-8 upstream. Fails exactly when the label names no encoding.
    pub fn new(label: &str, fatal: bool, ignore_bom: bool) -> (r: Result<
        TextDecoder,
        TextCodecError,
    >)
        ensures
            match r {
                Ok(d) => encoding_for_label_of(label@) == Some(d.encoding_view()) && d.fatal_spec()
                    == fatal && d.ignore_bom_spec() == ignore_bom,
                Err(e) => encoding_for_label_of(label@) is None && e
                    == TextCodecError::UnknownEncoding,
            },
    {
        match lookup_encoding(label) {
            Some(encoding) => Ok(TextDecoder { encoding, fatal, ignore_bom }),
            None => Err(TextCodecError::UnknownEncoding),
        }
    }

    /// The decoder's encoding, as scripts read it: the canonical name,
    /// ASCII-lowercased.
    pub fn encoding(&self) -> (r: String)
        ensures
            r@ == ascii_lower(self.encoding_view()),
    {
        let label = &self.encoding;
        let len = label.as_str().unicode_len();
        let mut lowered: Vec<char> = Vec::new();
        let mut i: usize = 0;
        while i < len
            invariant
                i <= len,
                len == label@.len(),
                lowered@ =~= ascii_lower(label@).subrange(0, i as int),
            decreases len - i,
        {
            lowered.push(lower_char(label.as_str().get_char(i)));
            proof {
                assert(lowered@ =~= ascii_lower(label@).subrange(0, i + 1));
            }
            i += 1;
        }
        proof {
            assert(lowered@ =~= ascii_lower(self.encoding_view()));
        }
        chars_to_string(&lowered)
    }

    /// Malformed sequences are errors rather than replacement characters.
    pub fn fatal(&self) -> (r: bool)
        ensures
            r == self.fatal_spec(),
    {
        self.fatal
    }

    /// A leading byte-order mark is kept as data.
    pub fn ignore_bom(&self) -> (r: bool)
        ensures
            r == self.ignore_bom_spec(),
    {
        self.ignore_bom
    }

    /// Decode one whole buffer; no buffer decodes to the empty string.
    /// In fatal mode a malformed sequence is an error; otherwise it
    /// becomes replacement characters and the decode cannot fail. The
    /// length bound keeps the decoder's worst-case output size within
    /// the machine's address range.
    pub fn decode(&self, buffer: Option<&Vec<u8>>) -> (r: Result<String, TextCodecError>)
        requires
            match buffer {
                Some(b) => b@.len() * 3 + 3 <= usize::MAX,
                None => true,
            },
        ensures
            match buffer {
                None => match r {
                    Ok(s) => s@ == Seq::<char>::empty(),
                    Err(_) => false,
                },
                Some(b) => if self.fatal_spec() {
                    match strict_decode_of(self.encoding_view(), self.ignore_bom_spec(), b@) {
                        Some(text) => match r {
                            Ok(s) => s@ == text,
                            Err(_) => false,
                        },
                        None => r == Err::<String, TextCodecError>(TextCodecError::Malformed),
                    }
                } else {
                    match r {
                        Ok(s) => s@ == lossy_decode_of(
                            self.encoding_view(),
                            self.ignore_bom_spec(),
                            b@,
                        ),
                        Err(_) => false,
                    }
                },
            },
    {
        proof {
            use_type_invariant(self);
        }
        let buffer = match buffer {
            Some(b) => b,
            None => {
                return Ok(String::new());
            },
        };
        if self.fatal {
            match decode_strict(self.encoding.as_str(), self.ignore_bom, buffer) {
                Some(s) => Ok(s),
                None => Err(TextCodecError::Malformed),
            }
        } else {
            Ok(decode_lossy(self.encoding.as_str(), self.ignore_bom, buffer))
        }
    }
}

/// An encoder from text to UTF-8 bytes.
pub struct TextEncoder {}

impl TextEncoder {
    /// A fresh encoder; it has no state.
    pub fn new() -> (r: TextEncoder)
        ensures
            r == (TextEncoder {  }),
    {
        TextEncoder {  }
    }

    /// The encoder's encoding: always UTF-8.
    pub fn encoding(&self) -> (r: &'static str)
        ensures
            r@ == "utf-8"@,
    {
        "utf-8"
    }

    /// The UTF-8 bytes of `src`.
    pub fn encode(&self, src: &str) -> (r: Vec<u8>)
        ensures
            r@ == encode_utf8(src@),
    {
        src.as_bytes_vec()
    }

    /// Encode `src` into the front of `dest`, which must have room, and
    /// report how many bytes were read and written — both the length of
    /// the UTF-8 encoding.
    pub fn encode_into(&self, src: &str, dest: &mut Vec<u8>) -> (r: (usize, usize))
        requires
            encode_utf8(src@).len() <= old(dest)@.len(),
        ensures
            r.0 == encode_utf8(src@).len(),
            r.1 == encode_utf8(src@).len(),
            final(dest)@.len() == old(dest)@.len(),
            final(dest)@.subrange(0, encode_utf8(src@).len() as int) == encode_utf8(src@),
            final(dest)@.skip(encode_utf8(src@).len() as int) == old(dest)@.skip(
                encode_utf8(src@).len() as int,
            ),
    {
        let bytes = src.as_bytes_vec();
        let n = bytes.len();
        let mut i: usize = 0;
        while i < n
            invariant
                i <= n,
                n == bytes@.len() == encode_utf8(src@).len(),
                bytes@ == encode_utf8(src@),
                n <= dest@.len() == old(dest)@.len(),
                forall|j: int| 0 <= j < i ==> dest@[j] == bytes@[j],
                forall|j: int| i <= j < dest@.len() ==> dest@[j] == old(dest)@[j],
            decreases n - i,
        {
            let slot = &mut dest[i];
            *slot = bytes[i];
            i += 1;
        }
        proof {
            assert(dest@.subrange(0, n as int) =~= bytes@);
            assert(dest@.skip(n as int) =~= old(dest)@.skip(n as int));
        }
        (n, n)
    }
}

impl Default for TextEncoder {
    /// The default encoder.
    fn default() -> (r: Self)
        ensures
            r == (TextEncoder {  }),
    {
        TextEncoder {  }
    }
}

} // verus!
