use hoshidicts::ffi::hd_str;
use hoshidicts::{
    DictionaryStyle, Error, Frequency, FrequencyEntry, Glossary, KanjiEntry, KanjiResults,
    KanjiStat, LookupResult, LookupResults, Pitch, PitchEntry, Results, Styles, Term,
    TransformGroup,
};

fn s(text: &str) -> hd_str {
    hd_str {
        data: Some(text.as_bytes().to_vec()),
    }
}

fn raw(bytes: &[u8]) -> hd_str {
    hd_str {
        data: Some(bytes.to_vec()),
    }
}

fn null() -> hd_str {
    hd_str { data: None }
}

fn term() -> Term {
    Term {
        expression: s("食べる"),
        reading: s("たべる"),
        rules: s("v1"),
        score: 7,
        glossaries: vec![Glossary {
            dict_name: s("jitendex"),
            glossary: s("to eat"),
            definition_tags: null(),
            term_tags: raw(&[b'c', b'o', b'm', 0xc0]),
        }],
        frequencies: vec![FrequencyEntry {
            dict_name: s("BCCWJ"),
            frequencies: vec![Frequency {
                value: 120,
                display_value: s("120㋕"),
            }],
        }],
        pitches: vec![PitchEntry {
            dict_name: s("NHK"),
            pitches: vec![Pitch {
                position: 2,
                pattern: s("LHL"),
                nasal: vec![1],
                devoice: vec![],
            }],
            transcriptions: vec![s("[tabeɾɯ]"), null(), raw(&[0xe3, 0x81])],
        }],
    }
}

#[test]
fn term_accessors_read_each_field() {
    let t = term();
    assert_eq!(t.expression(), "食べる");
    assert_eq!(t.reading(), "たべる");
    assert_eq!(t.rules(), "v1");
    assert_eq!(t.score(), 7);
    let g = &t.glossaries()[0];
    assert_eq!(g.dict_name(), "jitendex");
    assert_eq!(g.glossary(), "to eat");
    assert_eq!(g.definition_tags(), "");
    assert_eq!(g.term_tags(), "com");
    let f = &t.frequencies()[0];
    assert_eq!(f.dict_name(), "BCCWJ");
    assert_eq!(f.frequencies()[0].value(), 120);
    assert_eq!(f.frequencies()[0].display_value(), "120㋕");
    let p = &t.pitches()[0];
    assert_eq!(p.dict_name(), "NHK");
    assert_eq!(p.pitches()[0].position(), 2);
    assert_eq!(p.pitches()[0].pattern(), "LHL");
    assert_eq!(p.pitches()[0].nasal(), &[1]);
    assert!(p.pitches()[0].devoice().is_empty());
    assert_eq!(p.transcriptions(), vec!["[tabeɾɯ]", "", ""]);
}

#[test]
fn kanji_accessors_read_each_field() {
    let e = KanjiEntry {
        dict_name: s("KANJIDIC"),
        onyomi: s("ショク"),
        kunyomi: s("く.う"),
        tags: s("jouyou"),
        definitions: vec![s("eat"), s("food")],
        stats: vec![KanjiStat {
            key: s("strokes"),
            value: s("9"),
        }],
    };
    assert_eq!(e.dict_name(), "KANJIDIC");
    assert_eq!(e.onyomi(), "ショク");
    assert_eq!(e.kunyomi(), "く.う");
    assert_eq!(e.tags(), "jouyou");
    assert_eq!(e.definitions(), vec!["eat", "food"]);
    assert_eq!(e.stats()[0].key(), "strokes");
    assert_eq!(e.stats()[0].value(), "9");

    let found = KanjiResults::from_engine(true, vec![e]).ok().unwrap();
    assert_eq!(found.entries().len(), 1);
}

#[test]
fn lookup_result_accessors_read_each_field() {
    let r = LookupResult {
        matched: s("食べた"),
        deinflected: s("食べる"),
        trace: vec![TransformGroup {
            name: s("past"),
            description: s("-ta"),
        }],
        term: term(),
        preprocessor_steps: 1,
    };
    assert_eq!(r.matched(), "食べた");
    assert_eq!(r.deinflected(), "食べる");
    assert_eq!(r.trace()[0].name(), "past");
    assert_eq!(r.trace()[0].description(), "-ta");
    assert_eq!(r.term().expression(), "食べる");
    assert_eq!(r.preprocessor_steps(), 1);

    let found = LookupResults::from_engine(true, vec![r]).ok().unwrap();
    assert_eq!(found.results().len(), 1);
    assert_eq!(found.results()[0].matched(), "食べた");
}

#[test]
fn styles_read_each_field() {
    let found = Styles::from_engine(
        true,
        vec![DictionaryStyle {
            dict_name: s("jitendex"),
            styles: s(".gloss { color: red }"),
        }],
    )
    .ok()
    .unwrap();
    assert_eq!(found.styles()[0].dict_name(), "jitendex");
    assert_eq!(found.styles()[0].styles(), ".gloss { color: red }");
}

#[test]
fn results_keep_the_engines_order() {
    let mut second = term();
    second.expression = s("走る");
    let found = Results::from_engine(true, vec![term(), second]).ok().unwrap();
    let terms = found.terms();
    assert_eq!(terms.len(), 2);
    assert_eq!(terms[0].expression(), "食べる");
    assert_eq!(terms[1].expression(), "走る");
}

#[test]
fn no_answer_from_the_engine_is_a_failure() {
    assert!(matches!(Results::from_engine(false, vec![term()]), Err(Error::Failed)));
    assert!(matches!(KanjiResults::from_engine(false, vec![]), Err(Error::Failed)));
    assert!(matches!(Styles::from_engine(false, vec![]), Err(Error::Failed)));
    assert!(matches!(LookupResults::from_engine(false, vec![]), Err(Error::Failed)));
}

#[test]
fn an_empty_answer_is_not_a_failure() {
    let found = Results::from_engine(true, vec![]).ok().unwrap();
    assert_eq!(found.terms().len(), 0);
}
