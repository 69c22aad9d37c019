use crate::errors::PipelineError;
use vstd::prelude::*;

verus! {

/// A refinement tier of the hierarchical grid.
///
/// Each tier carries a fixed numeric tag (the value stored in the `level`
/// column and accepted as a numeric configuration token). The declaration
/// order, coarsest subdivisions first, is the order `all` enumerates.
#[derive(Debug, Clone, Copy, PartialEq, Eq, Structural)]
pub enum Level {
    Lv1,
    X40,
    X20,
    X16,
    Lv2,
    X8,
    X5,
    X4,
    X2_5,
    X2,
    Lv3,
    Lv4,
    Lv5,
    Lv6,
}

impl Level {
    /// The numeric tag of this tier.
    pub open spec fn tag_spec(self) -> u64 {
        match self {
            Level::Lv1 => 1,
            Level::X40 => 40000,
            Level::X20 => 20000,
            Level::X16 => 16000,
            Level::Lv2 => 2,
            Level::X8 => 8000,
            Level::X5 => 5000,
            Level::X4 => 4000,
            Level::X2_5 => 2500,
            Level::X2 => 2000,
            Level::Lv3 => 3,
            Level::Lv4 => 4,
            Level::Lv5 => 5,
            Level::Lv6 => 6,
        }
    }

    #[verifier::when_used_as_spec(tag_spec)]
    pub fn tag(self) -> (t: u64)
        ensures
            t == self.tag_spec(),
    {
        match self {
            Level::Lv1 => 1,
            Level::X40 => 40000,
            Level::X20 => 20000,
            Level::X16 => 16000,
            Level::Lv2 => 2,
            Level::X8 => 8000,
            Level::X5 => 5000,
            Level::X4 => 4000,
            Level::X2_5 => 2500,
            Level::X2 => 2000,
            Level::Lv3 => 3,
            Level::Lv4 => 4,
            Level::Lv5 => 5,
            Level::Lv6 => 6,
        }
    }

    /// The tier that carries the given numeric tag, if any.
    pub open spec fn spec_from_tag(t: u64) -> Option<Level> {
        if t == 1 {
            Some(Level::Lv1)
        } else if t == 40000 {
            Some(Level::X40)
        } else if t == 20000 {
            Some(Level::X20)
        } else if t == 16000 {
            Some(Level::X16)
        } else if t == 2 {
            Some(Level::Lv2)
        } else if t == 8000 {
            Some(Level::X8)
        } else if t == 5000 {
            Some(Level::X5)
        } else if t == 4000 {
            Some(Level::X4)
        } else if t == 2500 {
            Some(Level::X2_5)
        } else if t == 2000 {
            Some(Level::X2)
        } else if t == 3 {
            Some(Level::Lv3)
        } else if t == 4 {
            Some(Level::Lv4)
        } else if t == 5 {
            Some(Level::Lv5)
        } else if t == 6 {
            Some(Level::Lv6)
        } else {
            None
        }
    }

    pub fn from_tag(t: u64) -> (r: Option<Level>)
        ensures
            r == Level::spec_from_tag(t),
    {
        match t {
            1 => Some(Level::Lv1),
            40000 => Some(Level::X40),
            20000 => Some(Level::X20),
            16000 => Some(Level::X16),
            2 => Some(Level::Lv2),
            8000 => Some(Level::X8),
            5000 => Some(Level::X5),
            4000 => Some(Level::X4),
            2500 => Some(Level::X2_5),
            2000 => Some(Level::X2),
            3 => Some(Level::Lv3),
            4 => Some(Level::Lv4),
            5 => Some(Level::Lv5),
            6 => Some(Level::Lv6),
            _ => None,
        }
    }

    /// The sequence of all tiers, in declaration order: the default level set
    /// when the configuration names none.
    pub open spec fn all_spec() -> Seq<Level> {
        seq![
            Level::Lv1,
            Level::X40,
            Level::X20,
            Level::X16,
            Level::Lv2,
            Level::X8,
            Level::X5,
            Level::X4,
            Level::X2_5,
            Level::X2,
            Level::Lv3,
            Level::Lv4,
            Level::Lv5,
            Level::Lv6,
        ]
    }

    pub fn all() -> (r: Vec<Level>)
        ensures
            r@ == Level::all_spec(),
    {
        let mut v: Vec<Level> = Vec::new();
        v.push(Level::Lv1);
        v.push(Level::X40);
        v.push(Level::X20);
        v.push(Level::X16);
        v.push(Level::Lv2);
        v.push(Level::X8);
        v.push(Level::X5);
        v.push(Level::X4);
        v.push(Level::X2_5);
        v.push(Level::X2);
        v.push(Level::Lv3);
        v.push(Level::Lv4);
        v.push(Level::Lv5);
        v.push(Level::Lv6);
        proof {
            assert(v@ =~= Level::all_spec());
        }
        v
    }
}

/// The level a configuration token names, if any.
///
/// A token is either the decimal tag of a tier (`"1"`, `"40000"`) or its
/// symbolic name (`"Lv1"`, `"X2_5"`). Every other string is rejected before
/// any task starts.
pub open spec fn spec_token_level(s: Seq<char>) -> Option<Level> {
    if s == "1"@ || s == "Lv1"@ {
        Some(Level::Lv1)
    } else if s == "40000"@ || s == "X40"@ {
        Some(Level::X40)
    } else if s == "20000"@ || s == "X20"@ {
        Some(Level::X20)
    } else if s == "16000"@ || s == "X16"@ {
        Some(Level::X16)
    } else if s == "2"@ || s == "Lv2"@ {
        Some(Level::Lv2)
    } else if s == "8000"@ || s == "X8"@ {
        Some(Level::X8)
    } else if s == "5000"@ || s == "X5"@ {
        Some(Level::X5)
    } else if s == "4000"@ || s == "X4"@ {
        Some(Level::X4)
    } else if s == "2500"@ || s == "X2_5"@ {
        Some(Level::X2_5)
    } else if s == "2000"@ || s == "X2"@ {
        Some(Level::X2)
    } else if s == "3"@ || s == "Lv3"@ {
        Some(Level::Lv3)
    } else if s == "4"@ || s == "Lv4"@ {
        Some(Level::Lv4)
    } else if s == "5"@ || s == "Lv5"@ {
        Some(Level::Lv5)
    } else if s == "6"@ || s == "Lv6"@ {
        Some(Level::Lv6)
    } else {
        None
    }
}

/// True when the token equals the literal, compared by contents.
fn token_matches(token: &String, lit: &str) -> (r: bool)
    ensures
        r == (token@ == lit@),
{
    let cand: String = lit.to_owned();
    token.eq(&cand)
}

/// Decide which tier a single configuration token names.
pub fn parse_token(token: &String) -> (r: Option<Level>)
    ensures
        r == spec_token_level(token@),
{
    if token_matches(token, "1") || token_matches(token, "Lv1") {
        Some(Level::Lv1)
    } else if token_matches(token, "40000") || token_matches(token, "X40") {
        Some(Level::X40)
    } else if token_matches(token, "20000") || token_matches(token, "X20") {
        Some(Level::X20)
    } else if token_matches(token, "16000") || token_matches(token, "X16") {
        Some(Level::X16)
    } else if token_matches(token, "2") || token_matches(token, "Lv2") {
        Some(Level::Lv2)
    } else if token_matches(token, "8000") || token_matches(token, "X8") {
        Some(Level::X8)
    } else if token_matches(token, "5000") || token_matches(token, "X5") {
        Some(Level::X5)
    } else if token_matches(token, "4000") || token_matches(token, "X4") {
        Some(Level::X4)
    } else if token_matches(token, "2500") || token_matches(token, "X2_5") {
        Some(Level::X2_5)
    } else if token_matches(token, "2000") || token_matches(token, "X2") {
        Some(Level::X2)
    } else if token_matches(token, "3") || token_matches(token, "Lv3") {
        Some(Level::Lv3)
    } else if token_matches(token, "4") || token_matches(token, "Lv4") {
        Some(Level::Lv4)
    } else if token_matches(token, "5") || token_matches(token, "Lv5") {
        Some(Level::Lv5)
    } else if token_matches(token, "6") || token_matches(token, "Lv6") {
        Some(Level::Lv6)
    } else {
        None
    }
}

/// Validate a whole list of level tokens before any task is spawned.
///
/// Succeeds exactly when every token names a tier; otherwise reports the
/// first token that names none.
pub fn parse_levels(tokens: &Vec<String>) -> (r: Result<Vec<Level>, PipelineError>)
    ensures
        r is Ok <==> (forall|i: int|
            0 <= i < tokens@.len() ==> spec_token_level(tokens@[i]@) is Some),
        r matches Ok(ls) ==> {
            &&& ls@.len() == tokens@.len()
            &&& forall|i: int|
                0 <= i < tokens@.len() ==> Some(ls@[i]) == spec_token_level(tokens@[i]@)
        },
        r matches Err(e) ==> (e matches PipelineError::InvalidLevelToken(t) && exists|i: int|
            0 <= i < tokens@.len() && spec_token_level(tokens@[i]@) is None && t@ == tokens@[i]@),
{
    let mut out: Vec<Level> = Vec::new();
    let n = tokens.len();
    for k in 0..n
        invariant
            n == tokens@.len(),
            out@.len() == k,
            forall|i: int| 0 <= i < k ==> Some(out@[i]) == #[trigger] spec_token_level(tokens@[i]@),
    {
        match parse_token(&tokens[k]) {
            Some(level) => out.push(level),
            None => {
                return Err(PipelineError::InvalidLevelToken(tokens[k].clone()));
            },
        }
    }
    Ok(out)
}

/// Recover the tier set stored in the `level` column of the table.
///
/// Succeeds exactly when every stored value is the tag of a tier; a value
/// that is none marks a table this loader did not write.
pub fn levels_from_raw(raw: &Vec<i64>) -> (r: Result<Vec<Level>, PipelineError>)
    ensures
        r is Ok <==> (forall|i: int|
            0 <= i < raw@.len() ==> (#[trigger] raw@[i]) >= 0 && Level::spec_from_tag(
                raw@[i] as u64,
            ) is Some),
        r matches Ok(ls) ==> {
            &&& ls@.len() == raw@.len()
            &&& forall|i: int|
                0 <= i < raw@.len() ==> Some(ls@[i]) == Level::spec_from_tag(raw@[i] as u64)
        },
        r matches Err(e) ==> (e matches PipelineError::UnknownStoredLevel(v) && exists|i: int|
            0 <= i < raw@.len() && raw@[i] == v && (v < 0 || Level::spec_from_tag(
                v as u64,
            ) is None)),
{
    let mut out: Vec<Level> = Vec::new();
    let n = raw.len();
    for k in 0..n
        invariant
            n == raw@.len(),
            out@.len() == k,
            forall|i: int|
                0 <= i < k ==> (#[trigger] raw@[i]) >= 0 && Some(out@[i]) == Level::spec_from_tag(
                    raw@[i] as u64,
                ),
    {
        let v = raw[k];
        if v < 0 {
            return Err(PipelineError::UnknownStoredLevel(v));
        }
        match Level::from_tag(v as u64) {
            Some(level) => out.push(level),
            None => {
                return Err(PipelineError::UnknownStoredLevel(v));
            },
        }
    }
    Ok(out)
}

} // verus!

