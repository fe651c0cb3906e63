//! What a query or lookup answers, held as the engine reported it.
//!
//! Each record keeps the engine's strings as raw bytes ([`hd_str`]); the
//! accessors read them as text.

use vstd::prelude::*;

use crate::ffi::hd_str;
use crate::Error;

verus! {

/// Reads each engine string as text, in order.
fn read_all(strs: &Vec<hd_str>) -> (r: Vec<&str>)
    ensures
        r@.len() == strs@.len(),
        forall|i: int| 0 <= i < strs@.len() ==> #[trigger] r@[i]@ == strs@[i].text(),
{
    let mut out: Vec<&str> = Vec::new();
    let mut i: usize = 0;
    while i < strs.len()
        invariant
            i <= strs@.len(),
            out@.len() == i,
            forall|j: int| 0 <= j < i ==> #[trigger] out@[j]@ == strs@[j].text(),
        decreases strs@.len() - i,
    {
        out.push(strs[i].as_str());
        i = i + 1;
    }
    out
}

/// One glossary of a term, from one dictionary.
pub struct Glossary {
    pub dict_name: hd_str,
    pub glossary: hd_str,
    pub definition_tags: hd_str,
    pub term_tags: hd_str,
}

impl Glossary {
    pub fn dict_name(&self) -> (r: &str)
        ensures
            r@ == self.dict_name.text(),
    {
        self.dict_name.as_str()
    }

    pub fn glossary(&self) -> (r: &str)
        ensures
            r@ == self.glossary.text(),
    {
        self.glossary.as_str()
    }

    pub fn definition_tags(&self) -> (r: &str)
        ensures
            r@ == self.definition_tags.text(),
    {
        self.definition_tags.as_str()
    }

    pub fn term_tags(&self) -> (r: &str)
        ensures
            r@ == self.term_tags.text(),
    {
        self.term_tags.as_str()
    }
}

/// One frequency value of a term.
pub struct Frequency {
    pub value: i32,
    pub display_value: hd_str,
}

impl Frequency {
    pub fn value(&self) -> (r: i32)
        ensures
            r == self.value,
    {
        self.value
    }

    pub fn display_value(&self) -> (r: &str)
        ensures
            r@ == self.display_value.text(),
    {
        self.display_value.as_str()
    }
}

/// The frequencies one dictionary gives a term.
pub struct FrequencyEntry {
    pub dict_name: hd_str,
    pub frequencies: Vec<Frequency>,
}

impl FrequencyEntry {
    pub fn dict_name(&self) -> (r: &str)
        ensures
            r@ == self.dict_name.text(),
    {
        self.dict_name.as_str()
    }

    pub fn frequencies(&self) -> (r: &[Frequency])
        ensures
            r@ == self.frequencies@,
    {
        self.frequencies.as_slice()
    }
}

/// One pitch accent of a term.
pub struct Pitch {
    pub position: i32,
    pub pattern: hd_str,
    pub nasal: Vec<i32>,
    pub devoice: Vec<i32>,
}

impl Pitch {
    pub fn position(&self) -> (r: i32)
        ensures
            r == self.position,
    {
        self.position
    }

    pub fn pattern(&self) -> (r: &str)
        ensures
            r@ == self.pattern.text(),
    {
        self.pattern.as_str()
    }

    pub fn nasal(&self) -> (r: &[i32])
        ensures
            r@ == self.nasal@,
    {
        self.nasal.as_slice()
    }

    pub fn devoice(&self) -> (r: &[i32])
        ensures
            r@ == self.devoice@,
    {
        self.devoice.as_slice()
    }
}

/// The pitch accents one dictionary gives a term.
pub struct PitchEntry {
    pub dict_name: hd_str,
    pub pitches: Vec<Pitch>,
    pub transcriptions: Vec<hd_str>,
}

impl PitchEntry {
    pub fn dict_name(&self) -> (r: &str)
        ensures
            r@ == self.dict_name.text(),
    {
        self.dict_name.as_str()
    }

    pub fn pitches(&self) -> (r: &[Pitch])
        ensures
            r@ == self.pitches@,
    {
        self.pitches.as_slice()
    }

    /// The phonetic transcriptions, in the engine's order.
    pub fn transcriptions(&self) -> (r: Vec<&str>)
        ensures
            r@.len() == self.transcriptions@.len(),
            forall|i: int|
                0 <= i < r@.len() ==> #[trigger] r@[i]@ == self.transcriptions@[i].text(),
    {
        read_all(&self.transcriptions)
    }
}

/// One term found by a query.
pub struct Term {
    pub expression: hd_str,
    pub reading: hd_str,
    pub rules: hd_str,
    pub score: i32,
    pub glossaries: Vec<Glossary>,
    pub frequencies: Vec<FrequencyEntry>,
    pub pitches: Vec<PitchEntry>,
}

impl Term {
    pub fn expression(&self) -> (r: &str)
        ensures
            r@ == self.expression.text(),
    {
        self.expression.as_str()
    }

    pub fn reading(&self) -> (r: &str)
        ensures
            r@ == self.reading.text(),
    {
        self.reading.as_str()
    }

    pub fn rules(&self) -> (r: &str)
        ensures
            r@ == self.rules.text(),
    {
        self.rules.as_str()
    }

    pub fn score(&self) -> (r: i32)
        ensures
            r == self.score,
    {
        self.score
    }

    pub fn glossaries(&self) -> (r: &[Glossary])
        ensures
            r@ == self.glossaries@,
    {
        self.glossaries.as_slice()
    }

    pub fn frequencies(&self) -> (r: &[FrequencyEntry])
        ensures
            r@ == self.frequencies@,
    {
        self.frequencies.as_slice()
    }

    pub fn pitches(&self) -> (r: &[PitchEntry])
        ensures
            r@ == self.pitches@,
    {
        self.pitches.as_slice()
    }
}

/// One statistic of a kanji.
pub struct KanjiStat {
    pub key: hd_str,
    pub value: hd_str,
}

impl KanjiStat {
    pub fn key(&self) -> (r: &str)
        ensures
            r@ == self.key.text(),
    {
        self.key.as_str()
    }

    pub fn value(&self) -> (r: &str)
        ensures
            r@ == self.value.text(),
    {
        self.value.as_str()
    }
}

/// What one dictionary says of a kanji.
pub struct KanjiEntry {
    pub dict_name: hd_str,
    pub onyomi: hd_str,
    pub kunyomi: hd_str,
    pub tags: hd_str,
    pub definitions: Vec<hd_str>,
    pub stats: Vec<KanjiStat>,
}

impl KanjiEntry {
    pub fn dict_name(&self) -> (r: &str)
        ensures
            r@ == self.dict_name.text(),
    {
        self.dict_name.as_str()
    }

    pub fn onyomi(&self) -> (r: &str)
        ensures
            r@ == self.onyomi.text(),
    {
        self.onyomi.as_str()
    }

    pub fn kunyomi(&self) -> (r: &str)
        ensures
            r@ == self.kunyomi.text(),
    {
        self.kunyomi.as_str()
    }

    pub fn tags(&self) -> (r: &str)
        ensures
            r@ == self.tags.text(),
    {
        self.tags.as_str()
    }

    /// The definitions, in the engine's order.
    pub fn definitions(&self) -> (r: Vec<&str>)
        ensures
            r@.len() == self.definitions@.len(),
            forall|i: int| 0 <= i < r@.len() ==> #[trigger] r@[i]@ == self.definitions@[i].text(),
    {
        read_all(&self.definitions)
    }

    pub fn stats(&self) -> (r: &[KanjiStat])
        ensures
            r@ == self.stats@,
    {
        self.stats.as_slice()
    }
}

/// The style sheet of one dictionary.
pub struct DictionaryStyle {
    pub dict_name: hd_str,
    pub styles: hd_str,
}

impl DictionaryStyle {
    pub fn dict_name(&self) -> (r: &str)
        ensures
            r@ == self.dict_name.text(),
    {
        self.dict_name.as_str()
    }

    pub fn styles(&self) -> (r: &str)
        ensures
            r@ == self.styles.text(),
    {
        self.styles.as_str()
    }
}

/// One deinflection step that led from the scanned text to a term.
pub struct TransformGroup {
    pub name: hd_str,
    pub description: hd_str,
}

impl TransformGroup {
    pub fn name(&self) -> (r: &str)
        ensures
            r@ == self.name.text(),
    {
        self.name.as_str()
    }

    pub fn description(&self) -> (r: &str)
        ensures
            r@ == self.description.text(),
    {
        self.description.as_str()
    }
}

/// One result of a lookup: the matched text, how it was deinflected, and the term.
pub struct LookupResult {
    pub matched: hd_str,
    pub deinflected: hd_str,
    pub trace: Vec<TransformGroup>,
    pub term: Term,
    pub preprocessor_steps: i32,
}

impl LookupResult {
    pub fn matched(&self) -> (r: &str)
        ensures
            r@ == self.matched.text(),
    {
        self.matched.as_str()
    }

    pub fn deinflected(&self) -> (r: &str)
        ensures
            r@ == self.deinflected.text(),
    {
        self.deinflected.as_str()
    }

    pub fn trace(&self) -> (r: &[TransformGroup])
        ensures
            r@ == self.trace@,
    {
        self.trace.as_slice()
    }

    pub fn term(&self) -> (r: &Term)
        ensures
            *r == self.term,
    {
        &self.term
    }

    pub fn preprocessor_steps(&self) -> (r: i32)
        ensures
            r == self.preprocessor_steps,
    {
        self.preprocessor_steps
    }
}

/// The terms a term query found.
pub struct Results {
    terms: Vec<Term>,
}

impl View for Results {
    type V = Seq<Term>;

    closed spec fn view(&self) -> Seq<Term> {
        self.terms@
    }
}

impl Results {
    /// What the query gives, from what the engine returned: `returned` is
    /// false when the engine gave no answer at all, which is a failure.
    pub fn from_engine(returned: bool, terms: Vec<Term>) -> (r: Result<Results, Error>)
        ensures
            r is Ok <==> returned,
            r matches Ok(found) ==> found@ == terms@,
            r matches Err(e) ==> e == Error::Failed,
    {
        if returned {
            Ok(Results { terms })
        } else {
            Err(Error::Failed)
        }
    }

    pub fn terms(&self) -> (r: &[Term])
        ensures
            r@ == self@,
    {
        self.terms.as_slice()
    }
}

/// The entries a kanji query found.
pub struct KanjiResults {
    entries: Vec<KanjiEntry>,
}

impl View for KanjiResults {
    type V = Seq<KanjiEntry>;

    closed spec fn view(&self) -> Seq<KanjiEntry> {
        self.entries@
    }
}

impl KanjiResults {
    /// What the query gives, from what the engine returned: `returned` is
    /// false when the engine gave no answer at all, which is a failure.
    pub fn from_engine(returned: bool, entries: Vec<KanjiEntry>) -> (r: Result<KanjiResults, Error>)
        ensures
            r is Ok <==> returned,
            r matches Ok(found) ==> found@ == entries@,
            r matches Err(e) ==> e == Error::Failed,
    {
        if returned {
            Ok(KanjiResults { entries })
        } else {
            Err(Error::Failed)
        }
    }

    pub fn entries(&self) -> (r: &[KanjiEntry])
        ensures
            r@ == self@,
    {
        self.entries.as_slice()
    }
}

/// The style sheets of the query's dictionaries.
pub struct Styles {
    styles: Vec<DictionaryStyle>,
}

impl View for Styles {
    type V = Seq<DictionaryStyle>;

    closed spec fn view(&self) -> Seq<DictionaryStyle> {
        self.styles@
    }
}

impl Styles {
    /// What the query gives, from what the engine returned: `returned` is
    /// false when the engine gave no answer at all, which is a failure.
    pub fn from_engine(returned: bool, styles: Vec<DictionaryStyle>) -> (r: Result<Styles, Error>)
        ensures
            r is Ok <==> returned,
            r matches Ok(found) ==> found@ == styles@,
            r matches Err(e) ==> e == Error::Failed,
    {
        if returned {
            Ok(Styles { styles })
        } else {
            Err(Error::Failed)
        }
    }

    pub fn styles(&self) -> (r: &[DictionaryStyle])
        ensures
            r@ == self@,
    {
        self.styles.as_slice()
    }
}

/// The results of a lookup.
pub struct LookupResults {
    results: Vec<LookupResult>,
}

impl View for LookupResults {
    type V = Seq<LookupResult>;

    closed spec fn view(&self) -> Seq<LookupResult> {
        self.results@
    }
}

impl LookupResults {
    /// What the query gives, from what the engine returned: `returned` is
    /// false when the engine gave no answer at all, which is a failure.
    pub fn from_engine(returned: bool, results: Vec<LookupResult>) -> (r: Result<LookupResults, Error>)
        ensures
            r is Ok <==> returned,
            r matches Ok(found) ==> found@ == results@,
            r matches Err(e) ==> e == Error::Failed,
    {
        if returned {
            Ok(LookupResults { results })
        } else {
            Err(Error::Failed)
        }
    }

    pub fn results(&self) -> (r: &[LookupResult])
        ensures
            r@ == self@,
    {
        self.results.as_slice()
    }
}

} // verus!
