//! The options of a lookup, and how they are handed to the engine.

use vstd::prelude::*;
use vstd::string::StringSliceAdditionalSpecFns;

use crate::ffi;
use crate::text::lemma_encoded_text_reads_back;
use crate::{cstr, Error};

verus! {

/// How a lookup ranks results using the selected frequency dictionary.
///
/// Mirrors the engine's `hd_lookup_frequency_order`.
#[derive(Debug, Clone, Copy, PartialEq, Eq, Structural)]
pub enum LookupFrequencyOrder {
    Auto,
    Ascending,
    Descending,
    Disabled,
}

impl Default for LookupFrequencyOrder {
    fn default() -> (r: Self)
        ensures
            r == LookupFrequencyOrder::Auto,
    {
        LookupFrequencyOrder::Auto
    }
}

impl LookupFrequencyOrder {
    /// The engine's counterpart of this order.
    pub open spec fn ffi_order(self) -> ffi::hd_lookup_frequency_order {
        match self {
            LookupFrequencyOrder::Auto => ffi::hd_lookup_frequency_order::Auto,
            LookupFrequencyOrder::Ascending => ffi::hd_lookup_frequency_order::Ascending,
            LookupFrequencyOrder::Descending => ffi::hd_lookup_frequency_order::Descending,
            LookupFrequencyOrder::Disabled => ffi::hd_lookup_frequency_order::Disabled,
        }
    }

    /// The engine's counterpart of this order.
    pub fn to_ffi(self) -> (r: ffi::hd_lookup_frequency_order)
        ensures
            r == self.ffi_order(),
    {
        match self {
            LookupFrequencyOrder::Auto => ffi::hd_lookup_frequency_order::Auto,
            LookupFrequencyOrder::Ascending => ffi::hd_lookup_frequency_order::Ascending,
            LookupFrequencyOrder::Descending => ffi::hd_lookup_frequency_order::Descending,
            LookupFrequencyOrder::Disabled => ffi::hd_lookup_frequency_order::Disabled,
        }
    }
}

/// Optional tuning for a single lookup.
///
/// The string fields are borrowed for the duration of the call only. An empty
/// field (`None`) is passed to the engine as a null, zero-length string.
#[derive(Debug, Clone, Copy, PartialEq, Eq)]
pub struct LookupOptions<'a> {
    pub frequency_dictionary: Option<&'a str>,
    pub frequency_order: LookupFrequencyOrder,
    pub primary_reading: Option<&'a str>,
}

impl<'a> Default for LookupOptions<'a> {
    fn default() -> (r: Self)
        ensures
            r.frequency_dictionary is None,
            r.frequency_order == LookupFrequencyOrder::Auto,
            r.primary_reading is None,
    {
        LookupOptions {
            frequency_dictionary: None,
            frequency_order: LookupFrequencyOrder::Auto,
            primary_reading: None,
        }
    }
}

/// True when `s` is how the engine is given the optional string `value`:
/// null when absent, else the string's UTF-8 bytes.
pub open spec fn hands_over(value: Option<&str>, s: ffi::hd_str) -> bool {
    match value {
        Some(v) => s.data is Some && s@ == v.spec_bytes(),
        None => s.data is None,
    }
}

/// The engine string for an optional string: null when absent.
pub fn hd_str(value: Option<&str>) -> (r: ffi::hd_str)
    ensures
        hands_over(value, r),
{
    match value {
        Some(s) => ffi::hd_str { data: Some(vstd::slice::slice_to_vec(s.as_bytes())) },
        None => ffi::hd_str { data: None },
    }
}

/// True when `r` is how the engine is given `options`.
pub open spec fn marshals(options: LookupOptions, r: ffi::hd_lookup_options) -> bool {
    &&& hands_over(options.frequency_dictionary, r.frequency_dictionary)
    &&& r.frequency_order == options.frequency_order.ffi_order().code()
    &&& hands_over(options.primary_reading, r.primary_reading)
}

/// The engine's form of `options`.
pub fn marshal_options(options: &LookupOptions<'_>) -> (r: ffi::hd_lookup_options)
    ensures
        marshals(*options, r),
        options.frequency_order == LookupFrequencyOrder::Auto ==> r.frequency_order == 0,
        options.frequency_order == LookupFrequencyOrder::Ascending ==> r.frequency_order == 1,
        options.frequency_order == LookupFrequencyOrder::Descending ==> r.frequency_order == 2,
        options.frequency_order == LookupFrequencyOrder::Disabled ==> r.frequency_order == 3,
        options.frequency_dictionary is None ==> r.frequency_dictionary.data is None,
        options.frequency_dictionary matches Some(v) ==> r.frequency_dictionary.data is Some
            && r.frequency_dictionary@ == v.spec_bytes(),
        options.primary_reading is None ==> r.primary_reading.data is None,
        options.primary_reading matches Some(v) ==> r.primary_reading.data is Some
            && r.primary_reading@ == v.spec_bytes(),
{
    ffi::hd_lookup_options {
        frequency_dictionary: hd_str(options.frequency_dictionary),
        frequency_order: options.frequency_order.to_ffi().as_c_int(),
        primary_reading: hd_str(options.primary_reading),
    }
}

/// The request text and the options of a lookup, as the engine is given them.
/// A lookup string that holds a NUL character is refused.
pub fn lookup_request(lookup_string: &str, options: &LookupOptions<'_>) -> (r: Result<
    (Vec<u8>, ffi::hd_lookup_options),
    Error,
>)
    ensures
        r is Err <==> lookup_string@.contains('\0'),
        r matches Err(e) ==> e == Error::InteriorNul,
        r matches Ok((c, o)) ==> c@ == lookup_string.spec_bytes().push(0u8) && marshals(*options, o),
        r matches Ok((_, o)) ==> (options.frequency_order == LookupFrequencyOrder::Auto ==> o.frequency_order == 0),
        r matches Ok((_, o)) ==> (options.frequency_order == LookupFrequencyOrder::Ascending ==> o.frequency_order == 1),
        r matches Ok((_, o)) ==> (options.frequency_order == LookupFrequencyOrder::Descending ==> o.frequency_order == 2),
        r matches Ok((_, o)) ==> (options.frequency_order == LookupFrequencyOrder::Disabled ==> o.frequency_order == 3),
        r matches Ok((_, o)) ==> (options.frequency_dictionary is None ==> o.frequency_dictionary.data is None),
        r matches Ok((_, o)) ==> (options.frequency_dictionary matches Some(v) ==> o.frequency_dictionary.data is Some
            && o.frequency_dictionary@ == v.spec_bytes()),
        r matches Ok((_, o)) ==> (options.primary_reading is None ==> o.primary_reading.data is None),
        r matches Ok((_, o)) ==> (options.primary_reading matches Some(v) ==> o.primary_reading.data is Some
            && o.primary_reading@ == v.spec_bytes()),
{
    let c = cstr(lookup_string)?;
    Ok((c, marshal_options(options)))
}

/// A string that is handed to the engine reads back, through the engine's
/// string record, as the same text.
pub proof fn lemma_handed_over_text_reads_back(value: &str, s: ffi::hd_str)
    requires
        hands_over(Some(value), s),
    ensures
        s.text() == value@,
{
    lemma_encoded_text_reads_back(value@);
}

/// Default options reach the engine as no frequency dictionary, the automatic
/// order (code 0) and no primary reading: the engine's own defaults.
pub proof fn lemma_default_options_marshal_to_engine_defaults(r: ffi::hd_lookup_options)
    requires
        marshals(
            LookupOptions {
                frequency_dictionary: None,
                frequency_order: LookupFrequencyOrder::Auto,
                primary_reading: None,
            },
            r,
        ),
    ensures
        r.frequency_dictionary.data is None,
        r.frequency_order == 0,
        r.primary_reading.data is None,
{
}

/// Each frequency order reaches the engine as its own code, one of 0 to 3.
pub proof fn lemma_frequency_order_codes_are_distinct(a: LookupFrequencyOrder, b: LookupFrequencyOrder)
    ensures
        0 <= a.ffi_order().code() <= 3,
        a.ffi_order().code() == b.ffi_order().code() ==> a == b,
{
}

/// Whatever the other options are, the frequency order reaches the engine as
/// the engine's number for it: automatic 0, ascending 1, descending 2,
/// disabled 3.
pub proof fn lemma_marshalled_order_is_the_engine_number(o: LookupOptions, r: ffi::hd_lookup_options)
    requires
        marshals(o, r),
    ensures
        o.frequency_order == LookupFrequencyOrder::Auto ==> r.frequency_order == 0,
        o.frequency_order == LookupFrequencyOrder::Ascending ==> r.frequency_order == 1,
        o.frequency_order == LookupFrequencyOrder::Descending ==> r.frequency_order == 2,
        o.frequency_order == LookupFrequencyOrder::Disabled ==> r.frequency_order == 3,
{
}

/// Whatever the other options are, a frequency dictionary or primary reading
/// that is given reaches the engine as its own bytes (and reads back as the
/// same text), and one that is not given reaches it as null.
pub proof fn lemma_marshalled_strings_are_the_given_strings(o: LookupOptions, r: ffi::hd_lookup_options)
    requires
        marshals(o, r),
    ensures
        o.frequency_dictionary is None <==> r.frequency_dictionary.data is None,
        o.frequency_dictionary matches Some(v) ==> r.frequency_dictionary@ == v.spec_bytes()
            && r.frequency_dictionary.text() == v@,
        o.primary_reading is None <==> r.primary_reading.data is None,
        o.primary_reading matches Some(v) ==> r.primary_reading@ == v.spec_bytes()
            && r.primary_reading.text() == v@,
{
    if let Some(v) = o.frequency_dictionary {
        lemma_encoded_text_reads_back(v@);
    }
    if let Some(v) = o.primary_reading {
        lemma_encoded_text_reads_back(v@);
    }
}

} // verus!
