//! The closed set of element codes and the family each one belongs to.
use vstd::prelude::*;

verus! {

/// The seven families of skating elements.
#[derive(Clone, Copy, Debug, PartialEq, Eq, Structural)]
pub enum ElementFamily {
    Jump,
    Spin,
    StepSequence,
    PairSpin,
    DeathSpiral,
    Twizzle,
    ChoreographicElement,
}

/// How a family is written in output.
pub open spec fn family_text(f: ElementFamily) -> Seq<char> {
    match f {
        ElementFamily::Jump => "Jump"@,
        ElementFamily::Spin => "Spin"@,
        ElementFamily::StepSequence => "Step Sequence"@,
        ElementFamily::PairSpin => "Pair Spin"@,
        ElementFamily::DeathSpiral => "Death Spiral"@,
        ElementFamily::Twizzle => "Twizzle"@,
        ElementFamily::ChoreographicElement => "Choreographic Element"@,
    }
}

impl ElementFamily {
    /// The display text of this family.
    pub fn display_name(&self) -> (r: String)
        ensures
            r@ == family_text(*self),
    {
        match self {
            ElementFamily::Jump => "Jump".to_owned(),
            ElementFamily::Spin => "Spin".to_owned(),
            ElementFamily::StepSequence => "Step Sequence".to_owned(),
            ElementFamily::PairSpin => "Pair Spin".to_owned(),
            ElementFamily::DeathSpiral => "Death Spiral".to_owned(),
            ElementFamily::Twizzle => "Twizzle".to_owned(),
            ElementFamily::ChoreographicElement => "Choreographic Element".to_owned(),
        }
    }
}

/// The family of a whole token, or `None` when the token is not one of the
/// recognised codes.
pub open spec fn family_of(code: Seq<char>) -> Option<ElementFamily> {
    if code == "1T"@ || code == "2T"@ || code == "3T"@ || code == "4T"@
        || code == "1S"@ || code == "2S"@ || code == "3S"@ || code == "4S"@
        || code == "1Lo"@ || code == "2Lo"@ || code == "3Lo"@ || code == "4Lo"@
        || code == "1F"@ || code == "2F"@ || code == "3F"@ || code == "4F"@
        || code == "1Lz"@ || code == "2Lz"@ || code == "3Lz"@ || code == "4Lz"@
        || code == "1A"@ || code == "2A"@ || code == "3A"@ || code == "4A"@ {
        Some(ElementFamily::Jump)
    } else if code == "USp"@ || code == "LSp"@ || code == "CSp"@ || code == "SSp"@
        || code == "FUSp"@ || code == "FLSp"@ || code == "FCSp"@ || code == "FSSp"@
        || code == "FCCSp"@ {
        Some(ElementFamily::Spin)
    } else if code == "StSq"@ || code == "ChSq"@ {
        Some(ElementFamily::StepSequence)
    } else if code == "FiDs"@ || code == "BiDs"@ || code == "FoDs"@ || code == "BoDs"@ {
        Some(ElementFamily::DeathSpiral)
    } else if code == "PSp"@ || code == "PCoSp"@ {
        Some(ElementFamily::PairSpin)
    } else if code == "STw"@ {
        Some(ElementFamily::Twizzle)
    } else if code == "ChLi1"@ || code == "ChSp1"@ {
        Some(ElementFamily::ChoreographicElement)
    } else {
        None
    }
}

/// Whether two strings hold the same characters.
pub fn same_text(a: &str, b: &str) -> (r: bool)
    ensures
        r == (a@ == b@),
{
    let n = a.unicode_len();
    if n != b.unicode_len() {
        return false;
    }
    let mut i: usize = 0;
    while i < n
        invariant
            n == a@.len() == b@.len(),
            i <= n,
            forall|k: int| 0 <= k < i ==> a@[k] == b@[k],
        decreases n - i,
    {
        if a.get_char(i) != b.get_char(i) {
            return false;
        }
        i = i + 1;
    }
    assert(a@ =~= b@);
    true
}

/// The grammar of element codes: a token matches when it is, in whole, one of
/// the codes of some family.
pub struct ElementParser;

impl ElementParser {
    /// The family whose grammar the whole of `code` matches.
    pub fn classify(code: &str) -> (r: Option<ElementFamily>)
        ensures
            r == family_of(code@),
    {
        if same_text(code, "1T") {
            return Some(ElementFamily::Jump);
        }
        if same_text(code, "2T") {
            return Some(ElementFamily::Jump);
        }
        if same_text(code, "3T") {
            return Some(ElementFamily::Jump);
        }
        if same_text(code, "4T") {
            return Some(ElementFamily::Jump);
        }
        if same_text(code, "1S") {
            return Some(ElementFamily::Jump);
        }
        if same_text(code, "2S") {
            return Some(ElementFamily::Jump);
        }
        if same_text(code, "3S") {
            return Some(ElementFamily::Jump);
        }
        if same_text(code, "4S") {
            return Some(ElementFamily::Jump);
        }
        if same_text(code, "1Lo") {
            return Some(ElementFamily::Jump);
        }
        if same_text(code, "2Lo") {
            return Some(ElementFamily::Jump);
        }
        if same_text(code, "3Lo") {
            return Some(ElementFamily::Jump);
        }
        if same_text(code, "4Lo") {
            return Some(ElementFamily::Jump);
        }
        if same_text(code, "1F") {
            return Some(ElementFamily::Jump);
        }
        if same_text(code, "2F") {
            return Some(ElementFamily::Jump);
        }
        if same_text(code, "3F") {
            return Some(ElementFamily::Jump);
        }
        if same_text(code, "4F") {
            return Some(ElementFamily::Jump);
        }
        if same_text(code, "1Lz") {
            return Some(ElementFamily::Jump);
        }
        if same_text(code, "2Lz") {
            return Some(ElementFamily::Jump);
        }
        if same_text(code, "3Lz") {
            return Some(ElementFamily::Jump);
        }
        if same_text(code, "4Lz") {
            return Some(ElementFamily::Jump);
        }
        if same_text(code, "1A") {
            return Some(ElementFamily::Jump);
        }
        if same_text(code, "2A") {
            return Some(ElementFamily::Jump);
        }
        if same_text(code, "3A") {
            return Some(ElementFamily::Jump);
        }
        if same_text(code, "4A") {
            return Some(ElementFamily::Jump);
        }
        if same_text(code, "USp") {
            return Some(ElementFamily::Spin);
        }
        if same_text(code, "LSp") {
            return Some(ElementFamily::Spin);
        }
        if same_text(code, "CSp") {
            return Some(ElementFamily::Spin);
        }
        if same_text(code, "SSp") {
            return Some(ElementFamily::Spin);
        }
        if same_text(code, "FUSp") {
            return Some(ElementFamily::Spin);
        }
        if same_text(code, "FLSp") {
            return Some(ElementFamily::Spin);
        }
        if same_text(code, "FCSp") {
            return Some(ElementFamily::Spin);
        }
        if same_text(code, "FSSp") {
            return Some(ElementFamily::Spin);
        }
        if same_text(code, "FCCSp") {
            return Some(ElementFamily::Spin);
        }
        if same_text(code, "StSq") {
            return Some(ElementFamily::StepSequence);
        }
        if same_text(code, "ChSq") {
            return Some(ElementFamily::StepSequence);
        }
        if same_text(code, "FiDs") {
            return Some(ElementFamily::DeathSpiral);
        }
        if same_text(code, "BiDs") {
            return Some(ElementFamily::DeathSpiral);
        }
        if same_text(code, "FoDs") {
            return Some(ElementFamily::DeathSpiral);
        }
        if same_text(code, "BoDs") {
            return Some(ElementFamily::DeathSpiral);
        }
        if same_text(code, "PSp") {
            return Some(ElementFamily::PairSpin);
        }
        if same_text(code, "PCoSp") {
            return Some(ElementFamily::PairSpin);
        }
        if same_text(code, "STw") {
            return Some(ElementFamily::Twizzle);
        }
        if same_text(code, "ChLi1") {
            return Some(ElementFamily::ChoreographicElement);
        }
        if same_text(code, "ChSp1") {
            return Some(ElementFamily::ChoreographicElement);
        }
        None
    }
}

/// Every recognised code is a non-empty run of characters none of which is
/// white space, so it stands as one token of its own.
pub proof fn lemma_code_is_one_token(code: Seq<char>)
    requires
        family_of(code) is Some,
    ensures
        code.len() > 0,
        forall|i: int| 0 <= i < code.len() ==> !crate::tokens::is_white_space(#[trigger] code[i]),
{
    reveal_strlit("1T");
    reveal_strlit("2T");
    reveal_strlit("3T");
    reveal_strlit("4T");
    reveal_strlit("1S");
    reveal_strlit("2S");
    reveal_strlit("3S");
    reveal_strlit("4S");
    reveal_strlit("1Lo");
    reveal_strlit("2Lo");
    reveal_strlit("3Lo");
    reveal_strlit("4Lo");
    reveal_strlit("1F");
    reveal_strlit("2F");
    reveal_strlit("3F");
    reveal_strlit("4F");
    reveal_strlit("1Lz");
    reveal_strlit("2Lz");
    reveal_strlit("3Lz");
    reveal_strlit("4Lz");
    reveal_strlit("1A");
    reveal_strlit("2A");
    reveal_strlit("3A");
    reveal_strlit("4A");
    reveal_strlit("USp");
    reveal_strlit("LSp");
    reveal_strlit("CSp");
    reveal_strlit("SSp");
    reveal_strlit("FUSp");
    reveal_strlit("FLSp");
    reveal_strlit("FCSp");
    reveal_strlit("FSSp");
    reveal_strlit("FCCSp");
    reveal_strlit("StSq");
    reveal_strlit("ChSq");
    reveal_strlit("FiDs");
    reveal_strlit("BiDs");
    reveal_strlit("FoDs");
    reveal_strlit("BoDs");
    reveal_strlit("PSp");
    reveal_strlit("PCoSp");
    reveal_strlit("STw");
    reveal_strlit("ChLi1");
    reveal_strlit("ChSp1");
}

} // verus!
