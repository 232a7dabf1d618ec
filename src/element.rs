//! Parsed element records and the parse entry point.
use vstd::prelude::*;
use crate::grammar::{family_of, family_text, lemma_code_is_one_token, ElementParser};
use crate::table::{get_base_value, get_full_name, name_of, value_of};
use crate::tokens::{
    all_white_space, lemma_blank_has_no_tokens, lemma_run_extends, lemma_spaced_tokens,
    no_white_space, separates, spaced, split_tokens, tokens,
};

verus! {

/// One recognised element: its family's display text, its canonical name
/// and its base value in tenths of a point.
#[derive(Debug)]
pub struct ParsedElement {
    pub element_type: String,
    pub full_name: String,
    pub base_value_tenths: u32,
}

/// The failure of a parse: a token that no element grammar matches.
#[derive(Debug)]
pub enum ParseError {
    ParseError(String),
}

impl ParseError {
    /// The token that did not match.
    pub open spec fn offending(&self) -> Seq<char> {
        match self {
            ParseError::ParseError(t) => t@,
        }
    }
}

/// Whether `e` is the record of the recognised code `code`.
pub open spec fn describes(e: ParsedElement, code: Seq<char>) -> bool {
    &&& family_of(code) is Some
    &&& e.element_type@ == family_text(family_of(code)->0)
    &&& e.full_name@ == name_of(code)
    &&& e.base_value_tenths as nat == value_of(code)
}

/// Whether `r` is the outcome of parsing `text`: one record per token, in
/// order, when every token is a recognised code; otherwise an error that
/// names the first token that is not.
pub open spec fn parses_to(text: Seq<char>, r: Result<Vec<ParsedElement>, ParseError>) -> bool {
    let ts = tokens(text);
    match r {
        Ok(v) => v@.len() == ts.len() && forall|i: int|
            0 <= i < ts.len() ==> describes(#[trigger] v@[i], ts[i]),
        Err(e) => exists|k: int|
            0 <= k < ts.len() && family_of(#[trigger] ts[k]) is None && (forall|j: int|
                0 <= j < k ==> family_of(#[trigger] ts[j]) is Some) && e.offending() == ts[k],
    }
}

impl ParsedElement {
    /// Parses every whitespace-separated token of `text`, failing on the
    /// first one that is not a recognised code.
    pub fn from_text(text: &str) -> (r: Result<Vec<ParsedElement>, ParseError>)
        ensures
            parses_to(text@, r),
    {
        let toks = split_tokens(text);
        let ghost ts = tokens(text@);
        let mut elements: Vec<ParsedElement> = Vec::new();
        let mut i: usize = 0;
        while i < toks.len()
            invariant
                ts == tokens(text@),
                toks@.len() == ts.len(),
                forall|k: int| 0 <= k < toks@.len() ==> (#[trigger] toks@[k])@ == ts[k],
                i <= toks@.len(),
                elements@.len() == i,
                forall|k: int| 0 <= k < i ==> describes(#[trigger] elements@[k], ts[k]),
            decreases toks@.len() - i,
        {
            let code = toks[i];
            match ElementParser::classify(code) {
                None => {
                    let r = Err(ParseError::ParseError(code.to_owned()));
                    assert forall|j: int| 0 <= j < i implies family_of(#[trigger] ts[j]) is Some by {
                        assert(describes(elements@[j], ts[j]));
                    }
                    assert(family_of(ts[i as int]) is None);
                    assert(r->Err_0.offending() == ts[i as int]);
                    return r;
                },
                Some(f) => {
                    let e = ParsedElement {
                        element_type: f.display_name(),
                        full_name: get_full_name(code),
                        base_value_tenths: get_base_value(code),
                    };
                    elements.push(e);
                },
            }
            i = i + 1;
        }
        Ok(elements)
    }
}

/// Parses `text` into element records; see [`ParsedElement::from_text`].
pub fn parse_elements(text: &str) -> (r: Result<Vec<ParsedElement>, ParseError>)
    ensures
        parses_to(text@, r),
{
    ParsedElement::from_text(text)
}

/// The sum of the base values of `elements`, in tenths of a point.
pub open spec fn total_tenths(elements: Seq<ParsedElement>) -> nat
    decreases elements.len(),
{
    if elements.len() == 0 {
        0
    } else {
        total_tenths(elements.drop_last()) + elements.last().base_value_tenths as nat
    }
}

/// The sum of the base values of `elements`, in tenths of a point.
pub fn total_base_value_tenths(elements: &[ParsedElement]) -> (r: u64)
    requires
        elements@.len() <= 0xffff_ffff,
    ensures
        r as nat == total_tenths(elements@),
{
    let mut sum: u64 = 0;
    let mut i: usize = 0;
    while i < elements.len()
        invariant
            elements@.len() <= 0xffff_ffff,
            i <= elements@.len(),
            sum as nat == total_tenths(elements@.subrange(0, i as int)),
            sum <= i * 0xffff_ffff,
        decreases elements@.len() - i,
    {
        assert(elements@.subrange(0, i + 1).drop_last() =~= elements@.subrange(0, i as int));
        sum = sum + elements[i].base_value_tenths as u64;
        i = i + 1;
    }
    assert(elements@.subrange(0, i as int) =~= elements@);
    sum
}

/// Parsing a single recognised code yields exactly one record, that of the
/// code.
pub proof fn law_single_code(code: Seq<char>, r: Result<Vec<ParsedElement>, ParseError>)
    requires
        family_of(code) is Some,
        parses_to(code, r),
    ensures
        r is Ok,
        r->Ok_0@.len() == 1,
        describes(r->Ok_0@[0], code),
{
    lemma_code_is_one_token(code);
    lemma_run_extends(code, seq![], seq![]);
    assert(code + Seq::<char>::empty() =~= code);
    assert(Seq::<char>::empty() + code =~= code);
    assert(tokens(code) =~= seq![code]);
}

/// Recognised codes separated by white space parse to one record per code,
/// in the order of the codes.
pub proof fn law_spaced_codes(
    codes: Seq<Seq<char>>,
    gaps: Seq<Seq<char>>,
    r: Result<Vec<ParsedElement>, ParseError>,
)
    requires
        forall|i: int| 0 <= i < codes.len() ==> family_of(#[trigger] codes[i]) is Some,
        separates(gaps, codes),
        parses_to(spaced(codes, gaps), r),
    ensures
        r is Ok,
        r->Ok_0@.len() == codes.len(),
        forall|i: int| 0 <= i < codes.len() ==> describes(#[trigger] r->Ok_0@[i], codes[i]),
{
    assert forall|i: int| 0 <= i < codes.len() implies (#[trigger] codes[i]).len() > 0
        && no_white_space(codes[i]) by {
        lemma_code_is_one_token(codes[i]);
    }
    lemma_spaced_tokens(codes, gaps);
}

/// Text made only of white space, the empty text included, parses to no
/// records and no error.
pub proof fn law_blank_text(text: Seq<char>, r: Result<Vec<ParsedElement>, ParseError>)
    requires
        all_white_space(text),
        parses_to(text, r),
    ensures
        r is Ok,
        r->Ok_0@.len() == 0,
{
    lemma_blank_has_no_tokens(text);
}

/// Two parses of the same text agree: both succeed with records equal field
/// by field, or both fail on the same token.
pub proof fn law_parse_deterministic(
    text: Seq<char>,
    r1: Result<Vec<ParsedElement>, ParseError>,
    r2: Result<Vec<ParsedElement>, ParseError>,
)
    requires
        parses_to(text, r1),
        parses_to(text, r2),
    ensures
        r1 is Ok <==> r2 is Ok,
        r1 is Ok ==> {
            &&& r1->Ok_0@.len() == r2->Ok_0@.len()
            &&& forall|i: int| 0 <= i < r1->Ok_0@.len() ==> {
                &&& (#[trigger] r1->Ok_0@[i]).element_type@ == r2->Ok_0@[i].element_type@
                &&& r1->Ok_0@[i].full_name@ == r2->Ok_0@[i].full_name@
                &&& r1->Ok_0@[i].base_value_tenths == r2->Ok_0@[i].base_value_tenths
            }
        },
        r1 is Err ==> r1->Err_0.offending() == r2->Err_0.offending(),
{
    let ts = tokens(text);
    if r1 is Ok && r2 is Err {
        let k = choose|k: int|
            0 <= k < ts.len() && family_of(#[trigger] ts[k]) is None && (forall|j: int|
                0 <= j < k ==> family_of(#[trigger] ts[j]) is Some) && r2->Err_0.offending() == ts[k];
        assert(describes(r1->Ok_0@[k], ts[k]));
    }
    if r1 is Err && r2 is Ok {
        let k = choose|k: int|
            0 <= k < ts.len() && family_of(#[trigger] ts[k]) is None && (forall|j: int|
                0 <= j < k ==> family_of(#[trigger] ts[j]) is Some) && r1->Err_0.offending() == ts[k];
        assert(describes(r2->Ok_0@[k], ts[k]));
    }
    if r1 is Ok && r2 is Ok {
        assert forall|i: int| 0 <= i < r1->Ok_0@.len() implies {
            &&& (#[trigger] r1->Ok_0@[i]).element_type@ == r2->Ok_0@[i].element_type@
            &&& r1->Ok_0@[i].full_name@ == r2->Ok_0@[i].full_name@
            &&& r1->Ok_0@[i].base_value_tenths == r2->Ok_0@[i].base_value_tenths
        } by {
            assert(describes(r1->Ok_0@[i], ts[i]));
            assert(describes(r2->Ok_0@[i], ts[i]));
        }
    }
    if r1 is Err && r2 is Err {
        let k1 = choose|k: int|
            0 <= k < ts.len() && family_of(#[trigger] ts[k]) is None && (forall|j: int|
                0 <= j < k ==> family_of(#[trigger] ts[j]) is Some) && r1->Err_0.offending() == ts[k];
        let k2 = choose|k: int|
            0 <= k < ts.len() && family_of(#[trigger] ts[k]) is None && (forall|j: int|
                0 <= j < k ==> family_of(#[trigger] ts[j]) is Some) && r2->Err_0.offending() == ts[k];
        assert(k1 == k2);
    }
}

} // verus!
