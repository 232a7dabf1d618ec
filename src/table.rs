//! The reference table: canonical name and base value of each element code.
use vstd::prelude::*;
use crate::grammar::same_text;

verus! {

/// The name given to a code that the table does not define.
pub open spec fn unknown_name() -> Seq<char> {
    "Unknown Element"@
}

/// The canonical name of an element code.
pub open spec fn name_of(code: Seq<char>) -> Seq<char> {
    if code == "1T"@ {
        "Single Toeloop"@
    } else if code == "2T"@ {
        "Double Toeloop"@
    } else if code == "3T"@ {
        "Triple Toeloop"@
    } else if code == "4T"@ {
        "Quad Toeloop"@
    } else if code == "1S"@ {
        "Single Salchow"@
    } else if code == "2S"@ {
        "Double Salchow"@
    } else if code == "3S"@ {
        "Triple Salchow"@
    } else if code == "4S"@ {
        "Quad Salchow"@
    } else if code == "1Lo"@ {
        "Single Loop"@
    } else if code == "2Lo"@ {
        "Double Loop"@
    } else if code == "3Lo"@ {
        "Triple Loop"@
    } else if code == "4Lo"@ {
        "Quad Loop"@
    } else if code == "1F"@ {
        "Single Flip"@
    } else if code == "2F"@ {
        "Double Flip"@
    } else if code == "3F"@ {
        "Triple Flip"@
    } else if code == "4F"@ {
        "Quad Flip"@
    } else if code == "1Lz"@ {
        "Single Lutz"@
    } else if code == "2Lz"@ {
        "Double Lutz"@
    } else if code == "3Lz"@ {
        "Triple Lutz"@
    } else if code == "4Lz"@ {
        "Quad Lutz"@
    } else if code == "1A"@ {
        "Single Axel"@
    } else if code == "2A"@ {
        "Double Axel"@
    } else if code == "3A"@ {
        "Triple Axel"@
    } else if code == "4A"@ {
        "Quad Axel"@
    } else if code == "USp"@ {
        "Upright Spin"@
    } else if code == "LSp"@ {
        "Layback Spin"@
    } else if code == "CSp"@ {
        "Camel Spin"@
    } else if code == "SSp"@ {
        "Sit Spin"@
    } else if code == "FUSp"@ {
        "Flying Upright Spin"@
    } else if code == "FLSp"@ {
        "Flying Layback Spin"@
    } else if code == "FCSp"@ {
        "Flying Camel Spin"@
    } else if code == "FSSp"@ {
        "Flying Sit Spin"@
    } else if code == "FCCSp"@ {
        "Flying Change Foot Camel Spin"@
    } else if code == "StSq"@ {
        "Step Sequence"@
    } else if code == "ChSq"@ {
        "Choreographic Sequence"@
    } else if code == "FiDs"@ {
        "Forward Inside Death Spiral"@
    } else if code == "BiDs"@ {
        "Backward Inside Death Spiral"@
    } else if code == "FoDs"@ {
        "Forward Outside Death Spiral"@
    } else if code == "BoDs"@ {
        "Backward Outside Death Spiral"@
    } else if code == "PSp"@ {
        "Pair Spin"@
    } else if code == "PCoSp"@ {
        "Pair Combination Spin"@
    } else if code == "STw"@ {
        "Twizzle"@
    } else if code == "ChLi1"@ {
        "Choreographic Lift"@
    } else if code == "ChSp1"@ {
        "Choreographic Spinning Movement"@
    } else {
        unknown_name()
    }
}

/// The base value of an element code, in tenths of a point; zero for a code
/// that the table does not define.
pub open spec fn value_of(code: Seq<char>) -> nat {
    if code == "1T"@ {
        4
    } else if code == "2T"@ {
        13
    } else if code == "3T"@ {
        42
    } else if code == "4T"@ {
        95
    } else if code == "1S"@ {
        4
    } else if code == "2S"@ {
        13
    } else if code == "3S"@ {
        43
    } else if code == "4S"@ {
        97
    } else if code == "1Lo"@ {
        5
    } else if code == "2Lo"@ {
        17
    } else if code == "3Lo"@ {
        49
    } else if code == "4Lo"@ {
        105
    } else if code == "1F"@ {
        5
    } else if code == "2F"@ {
        18
    } else if code == "3F"@ {
        53
    } else if code == "4F"@ {
        110
    } else if code == "1Lz"@ {
        6
    } else if code == "2Lz"@ {
        21
    } else if code == "3Lz"@ {
        60
    } else if code == "4Lz"@ {
        115
    } else if code == "1A"@ {
        11
    } else if code == "2A"@ {
        33
    } else if code == "3A"@ {
        80
    } else if code == "4A"@ {
        125
    } else if code == "USp"@ {
        12
    } else if code == "LSp"@ {
        15
    } else if code == "CSp"@ {
        17
    } else if code == "SSp"@ {
        18
    } else if code == "FUSp"@ {
        20
    } else if code == "FLSp"@ {
        23
    } else if code == "FCSp"@ {
        25
    } else if code == "FSSp"@ {
        26
    } else if code == "FCCSp"@ {
        28
    } else if code == "StSq"@ {
        15
    } else if code == "ChSq"@ {
        30
    } else if code == "FiDs"@ {
        15
    } else if code == "BiDs"@ {
        16
    } else if code == "FoDs"@ {
        17
    } else if code == "BoDs"@ {
        18
    } else if code == "PSp"@ {
        17
    } else if code == "PCoSp"@ {
        25
    } else if code == "STw"@ {
        10
    } else if code == "ChLi1"@ {
        11
    } else if code == "ChSp1"@ {
        11
    } else {
        0
    }
}

/// The canonical name of `code`, or "Unknown Element" when the table does not
/// define it.
pub fn get_full_name(code: &str) -> (r: String)
    ensures
        r@ == name_of(code@),
{
    let name = {
        if same_text(code, "1T") {
            "Single Toeloop"
        } else if same_text(code, "2T") {
            "Double Toeloop"
        } else if same_text(code, "3T") {
            "Triple Toeloop"
        } else if same_text(code, "4T") {
            "Quad Toeloop"
        } else if same_text(code, "1S") {
            "Single Salchow"
        } else if same_text(code, "2S") {
            "Double Salchow"
        } else if same_text(code, "3S") {
            "Triple Salchow"
        } else if same_text(code, "4S") {
            "Quad Salchow"
        } else if same_text(code, "1Lo") {
            "Single Loop"
        } else if same_text(code, "2Lo") {
            "Double Loop"
        } else if same_text(code, "3Lo") {
            "Triple Loop"
        } else if same_text(code, "4Lo") {
            "Quad Loop"
        } else if same_text(code, "1F") {
            "Single Flip"
        } else if same_text(code, "2F") {
            "Double Flip"
        } else if same_text(code, "3F") {
            "Triple Flip"
        } else if same_text(code, "4F") {
            "Quad Flip"
        } else if same_text(code, "1Lz") {
            "Single Lutz"
        } else if same_text(code, "2Lz") {
            "Double Lutz"
        } else if same_text(code, "3Lz") {
            "Triple Lutz"
        } else if same_text(code, "4Lz") {
            "Quad Lutz"
        } else if same_text(code, "1A") {
            "Single Axel"
        } else if same_text(code, "2A") {
            "Double Axel"
        } else if same_text(code, "3A") {
            "Triple Axel"
        } else if same_text(code, "4A") {
            "Quad Axel"
        } else if same_text(code, "USp") {
            "Upright Spin"
        } else if same_text(code, "LSp") {
            "Layback Spin"
        } else if same_text(code, "CSp") {
            "Camel Spin"
        } else if same_text(code, "SSp") {
            "Sit Spin"
        } else if same_text(code, "FUSp") {
            "Flying Upright Spin"
        } else if same_text(code, "FLSp") {
            "Flying Layback Spin"
        } else if same_text(code, "FCSp") {
            "Flying Camel Spin"
        } else if same_text(code, "FSSp") {
            "Flying Sit Spin"
        } else if same_text(code, "FCCSp") {
            "Flying Change Foot Camel Spin"
        } else if same_text(code, "StSq") {
            "Step Sequence"
        } else if same_text(code, "ChSq") {
            "Choreographic Sequence"
        } else if same_text(code, "FiDs") {
            "Forward Inside Death Spiral"
        } else if same_text(code, "BiDs") {
            "Backward Inside Death Spiral"
        } else if same_text(code, "FoDs") {
            "Forward Outside Death Spiral"
        } else if same_text(code, "BoDs") {
            "Backward Outside Death Spiral"
        } else if same_text(code, "PSp") {
            "Pair Spin"
        } else if same_text(code, "PCoSp") {
            "Pair Combination Spin"
        } else if same_text(code, "STw") {
            "Twizzle"
        } else if same_text(code, "ChLi1") {
            "Choreographic Lift"
        } else if same_text(code, "ChSp1") {
            "Choreographic Spinning Movement"
        } else {
            "Unknown Element"
        }
    };
    name.to_owned()
}

/// The base value of `code` in tenths of a point, or zero when the table does
/// not define it.
pub fn get_base_value(code: &str) -> (r: u32)
    ensures
        r as nat == value_of(code@),
{
    if same_text(code, "1T") {
        4
    } else if same_text(code, "2T") {
        13
    } else if same_text(code, "3T") {
        42
    } else if same_text(code, "4T") {
        95
    } else if same_text(code, "1S") {
        4
    } else if same_text(code, "2S") {
        13
    } else if same_text(code, "3S") {
        43
    } else if same_text(code, "4S") {
        97
    } else if same_text(code, "1Lo") {
        5
    } else if same_text(code, "2Lo") {
        17
    } else if same_text(code, "3Lo") {
        49
    } else if same_text(code, "4Lo") {
        105
    } else if same_text(code, "1F") {
        5
    } else if same_text(code, "2F") {
        18
    } else if same_text(code, "3F") {
        53
    } else if same_text(code, "4F") {
        110
    } else if same_text(code, "1Lz") {
        6
    } else if same_text(code, "2Lz") {
        21
    } else if same_text(code, "3Lz") {
        60
    } else if same_text(code, "4Lz") {
        115
    } else if same_text(code, "1A") {
        11
    } else if same_text(code, "2A") {
        33
    } else if same_text(code, "3A") {
        80
    } else if same_text(code, "4A") {
        125
    } else if same_text(code, "USp") {
        12
    } else if same_text(code, "LSp") {
        15
    } else if same_text(code, "CSp") {
        17
    } else if same_text(code, "SSp") {
        18
    } else if same_text(code, "FUSp") {
        20
    } else if same_text(code, "FLSp") {
        23
    } else if same_text(code, "FCSp") {
        25
    } else if same_text(code, "FSSp") {
        26
    } else if same_text(code, "FCCSp") {
        28
    } else if same_text(code, "StSq") {
        15
    } else if same_text(code, "ChSq") {
        30
    } else if same_text(code, "FiDs") {
        15
    } else if same_text(code, "BiDs") {
        16
    } else if same_text(code, "FoDs") {
        17
    } else if same_text(code, "BoDs") {
        18
    } else if same_text(code, "PSp") {
        17
    } else if same_text(code, "PCoSp") {
        25
    } else if same_text(code, "STw") {
        10
    } else if same_text(code, "ChLi1") {
        11
    } else if same_text(code, "ChSp1") {
        11
    } else {
        0
    }
}

} // verus!
