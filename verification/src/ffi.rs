//! The records that cross the engine boundary, held as plain values.

#![allow(non_camel_case_types)]

use vstd::prelude::*;
use vstd::string::StringSliceAdditionalSpecFns;

use crate::text::{longest_valid_str, readable_text, valid_prefix_len};

verus! {

/// A string as the engine hands it over: a run of bytes, or a null pointer
/// (`None`), which reads as the empty string.
pub struct hd_str {
    pub data: Option<Vec<u8>>,
}

impl View for hd_str {
    type V = Seq<u8>;

    open spec fn view(&self) -> Seq<u8> {
        match self.data {
            Some(v) => v@,
            None => Seq::empty(),
        }
    }
}

impl hd_str {
    /// The text this string reads as.
    pub open spec fn text(&self) -> Seq<char> {
        readable_text(self@)
    }

    /// The string as text. Bytes that are not valid UTF-8 end the text: what
    /// comes before the first malformed scalar is returned, the rest is dropped.
    pub fn as_str(&self) -> (r: &str)
        ensures
            r@ == self.text(),
            r.spec_bytes() == self@.take(valid_prefix_len(self@) as int),
    {
        match &self.data {
            Some(bytes) => longest_valid_str(bytes.as_slice()),
            None => {
                proof {
                    reveal_strlit("");
                    assert(Seq::<u8>::empty().take(0) =~= Seq::<u8>::empty());
                }
                ""
            },
        }
    }
}


/// What an import report says, as the binding reads it from the engine:
/// the title and counts when `success` is nonzero, the message when it is zero.
/// The strings are the bytes of the engine's C strings, without the NUL.
pub struct hd_import_result {
    pub success: i32,
    pub title: Vec<u8>,
    pub error: Vec<u8>,
    pub term_count: u64,
    pub meta_count: u64,
    pub freq_count: u64,
    pub pitch_count: u64,
    pub kanji_count: u64,
    pub media_count: u64,
}


/// How a lookup ranks results by frequency, as the engine numbers it.
#[derive(Clone, Copy, Debug, PartialEq, Eq, Structural)]
pub enum hd_lookup_frequency_order {
    Auto,
    Ascending,
    Descending,
    Disabled,
}

impl hd_lookup_frequency_order {
    /// The number the engine knows this order by.
    pub open spec fn code(self) -> i32 {
        match self {
            hd_lookup_frequency_order::Auto => 0,
            hd_lookup_frequency_order::Ascending => 1,
            hd_lookup_frequency_order::Descending => 2,
            hd_lookup_frequency_order::Disabled => 3,
        }
    }

    /// The number the engine knows this order by.
    pub fn as_c_int(self) -> (r: i32)
        ensures
            r == self.code(),
    {
        match self {
            hd_lookup_frequency_order::Auto => 0,
            hd_lookup_frequency_order::Ascending => 1,
            hd_lookup_frequency_order::Descending => 2,
            hd_lookup_frequency_order::Disabled => 3,
        }
    }
}

/// The options of one lookup, as the engine is given them.
pub struct hd_lookup_options {
    pub frequency_dictionary: hd_str,
    pub frequency_order: i32,
    pub primary_reading: hd_str,
}

} // verus!
