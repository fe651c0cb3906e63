//! Safe bindings for the hoshidicts Yomitan-dictionary engine: the verified part.
//!
//! The engine itself is native code. What this crate holds is the binding's
//! own rules around it: when a request is refused before it reaches the
//! engine, how strings and options are handed over, how the engine's answers
//! become results, and how the engine's bytes are read as text.

pub mod ffi;
pub mod options;
pub mod results;
pub mod text;

pub use options::{LookupFrequencyOrder, LookupOptions};
pub use results::{
    DictionaryStyle, Frequency, FrequencyEntry, Glossary, KanjiEntry, KanjiResults, KanjiStat,
    LookupResult, LookupResults, Pitch, PitchEntry, Results, Styles, Term, TransformGroup,
};

use vstd::prelude::*;
use vstd::string::StringExecFns;
use vstd::string::StringSliceAdditionalSpecFns;

use crate::text::{lemma_nul_byte_iff_nul_char, lossy_string, lossy_utf8};

verus! {

/// Why a call into the engine did not give a result.
#[derive(Debug, Clone, PartialEq, Eq)]
pub enum Error {
    /// The engine reported a failure.
    Failed,
    /// A dictionary import failed; the engine's message.
    Import(String),
    /// A string meant for the engine holds a NUL character.
    InteriorNul,
}

impl Error {
    /// The message that describes this error.
    pub open spec fn message_text(self) -> Seq<char> {
        match self {
            Error::Failed => "hoshidicts call failed"@,
            Error::Import(e) => "import failed: "@ + e@,
            Error::InteriorNul => "string contains an interior nul byte"@,
        }
    }

    /// The message that describes this error.
    pub fn message(&self) -> (r: String)
        ensures
            r@ == self.message_text(),
    {
        match self {
            Error::Failed => String::from_str("hoshidicts call failed"),
            Error::Import(e) => {
                let mut s = String::from_str("import failed: ");
                s.append(e.as_str());
                s
            },
            Error::InteriorNul => String::from_str("string contains an interior nul byte"),
        }
    }
}

/// Copies `bytes` into a NUL-terminated C string, refusing bytes that hold a NUL.
fn c_string(bytes: &[u8]) -> (r: Result<Vec<u8>, Error>)
    ensures
        r is Err <==> bytes@.contains(0u8),
        r matches Err(e) ==> e == Error::InteriorNul,
        r matches Ok(c) ==> c@ == bytes@.push(0u8),
{
    let mut i: usize = 0;
    while i < bytes.len()
        invariant
            i <= bytes@.len(),
            forall|j: int| 0 <= j < i ==> bytes@[j] != 0u8,
        decreases bytes@.len() - i,
    {
        if bytes[i] == 0 {
            return Err(Error::InteriorNul);
        }
        i = i + 1;
    }
    let mut c = vstd::slice::slice_to_vec(bytes);
    c.push(0u8);
    Ok(c)
}

/// The C string the engine is given for `s`: its UTF-8 bytes and a NUL.
/// A string that holds a NUL character is refused.
pub fn cstr(s: &str) -> (r: Result<Vec<u8>, Error>)
    ensures
        r is Err <==> s@.contains('\0'),
        r matches Err(e) ==> e == Error::InteriorNul,
        r matches Ok(c) ==> c@ == s.spec_bytes().push(0u8),
{
    proof {
        lemma_nul_byte_iff_nul_char(s@);
    }
    c_string(s.as_bytes())
}

/// The C string the engine is given for a path, from the path's bytes.
/// A path that holds a NUL byte is refused.
pub fn cpath(path: &[u8]) -> (r: Result<Vec<u8>, Error>)
    ensures
        r is Err <==> path@.contains(0u8),
        r matches Err(e) ==> e == Error::InteriorNul,
        r matches Ok(c) ==> c@ == path@.push(0u8),
{
    c_string(path)
}

/// What adding a dictionary to a query gives, from the engine's status code.
pub fn dict_added(status: i32) -> (r: Result<(), Error>)
    ensures
        r is Ok <==> status == 0,
        r matches Err(e) ==> e == Error::Failed,
{
    if status == 0 {
        Ok(())
    } else {
        Err(Error::Failed)
    }
}

/// A dictionary import as the engine reports it.
pub struct Import {
    pub title: String,
    pub terms: u64,
    pub meta: u64,
    pub freq: u64,
    pub pitch: u64,
    pub kanji: u64,
    pub media: u64,
}

/// What an import gives, from the engine's report (`None` when the engine
/// returned no report at all).
pub fn import_outcome(report: Option<&ffi::hd_import_result>) -> (r: Result<Import, Error>)
    ensures
        report is None ==> r == Err::<Import, Error>(Error::Failed),
        report matches Some(rep) ==> {
            if rep.success == 0 {
                r matches Err(Error::Import(msg)) && msg@ == lossy_utf8(rep.error@)
            } else {
                r matches Ok(i) && {
                    &&& i.title@ == lossy_utf8(rep.title@)
                    &&& i.terms == rep.term_count
                    &&& i.meta == rep.meta_count
                    &&& i.freq == rep.freq_count
                    &&& i.pitch == rep.pitch_count
                    &&& i.kanji == rep.kanji_count
                    &&& i.media == rep.media_count
                }
            }
        },
{
    match report {
        None => Err(Error::Failed),
        Some(rep) => {
            if rep.success == 0 {
                Err(Error::Import(lossy_string(rep.error.as_slice())))
            } else {
                Ok(
                    Import {
                        title: lossy_string(rep.title.as_slice()),
                        terms: rep.term_count,
                        meta: rep.meta_count,
                        freq: rep.freq_count,
                        pitch: rep.pitch_count,
                        kanji: rep.kanji_count,
                        media: rep.media_count,
                    },
                )
            }
        },
    }
}

/// The C string made for a text without NUL holds no NUL before its
/// terminator: the engine, reading up to the first NUL, reads the whole text.
pub proof fn lemma_c_string_ends_at_terminator(s: &str)
    requires
        !s@.contains('\0'),
    ensures
        ({
            let c = s.spec_bytes().push(0u8);
            &&& c.last() == 0u8
            &&& forall|i: int| 0 <= i < c.len() - 1 ==> c[i] != 0u8
        }),
{
    lemma_nul_byte_iff_nul_char(s@);
    let b = s.spec_bytes();
    assert forall|i: int| 0 <= i < b.len() implies b[i] != 0u8 by {
        if b[i] == 0u8 {
            assert(b.contains(0u8));
        }
    }
}

} // verus!
