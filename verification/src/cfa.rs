use crate::error::DecodeError;
use vstd::prelude::*;
use vstd::string::*;

verus! {

/// One of the three colours that a photosite can be filtered for.
#[derive(Clone, Copy, Debug, PartialEq, Eq, Structural)]
pub enum CfaColor {
    Red,
    Green,
    Blue,
}

impl CfaColor {
    /// Position of the colour's channel in an RGB triple.
    pub open spec fn spec_channel(self) -> int {
        match self {
            CfaColor::Red => 0,
            CfaColor::Green => 1,
            CfaColor::Blue => 2,
        }
    }

    /// Position of the colour's channel in an RGB triple.
    pub fn channel(self) -> (r: usize)
        ensures
            r == self.spec_channel(),
    {
        match self {
            CfaColor::Red => 0,
            CfaColor::Green => 1,
            CfaColor::Blue => 2,
        }
    }
}

/// The 2x2 tile of a Bayer colour filter array, named by its colours row by
/// row: top-left, top-right, bottom-left, bottom-right.
#[derive(Clone, Copy, Debug, PartialEq, Eq, Structural)]
pub enum CfaPattern {
    Rggb,
    Grbg,
    Bggr,
    Gbrg,
}

/// The pattern that a token names; only the four tokens `RGGB`, `GRBG`,
/// `BGGR` and `GBRG` name one.
pub open spec fn spec_pattern(name: Seq<char>) -> Option<CfaPattern> {
    if name == "RGGB"@ {
        Some(CfaPattern::Rggb)
    } else if name == "GRBG"@ {
        Some(CfaPattern::Grbg)
    } else if name == "BGGR"@ {
        Some(CfaPattern::Bggr)
    } else if name == "GBRG"@ {
        Some(CfaPattern::Gbrg)
    } else {
        None
    }
}

impl CfaPattern {
    /// The colour of the tile at column parity `px` and row parity `py`.
    pub open spec fn tile(self, px: int, py: int) -> CfaColor {
        match self {
            CfaPattern::Rggb => if px == 0 && py == 0 {
                CfaColor::Red
            } else if px == 1 && py == 1 {
                CfaColor::Blue
            } else {
                CfaColor::Green
            },
            CfaPattern::Bggr => if px == 0 && py == 0 {
                CfaColor::Blue
            } else if px == 1 && py == 1 {
                CfaColor::Red
            } else {
                CfaColor::Green
            },
            CfaPattern::Grbg => if px == 1 && py == 0 {
                CfaColor::Red
            } else if px == 0 && py == 1 {
                CfaColor::Blue
            } else {
                CfaColor::Green
            },
            CfaPattern::Gbrg => if px == 1 && py == 0 {
                CfaColor::Blue
            } else if px == 0 && py == 1 {
                CfaColor::Red
            } else {
                CfaColor::Green
            },
        }
    }

    /// The colour of the photosite in column `x` of row `y`.
    pub open spec fn spec_color_at(self, x: int, y: int) -> CfaColor {
        self.tile(x % 2, y % 2)
    }

    /// The colour of the photosite in column `x` of row `y`.
    pub fn color_at(self, x: usize, y: usize) -> (c: CfaColor)
        ensures
            c == self.spec_color_at(x as int, y as int),
    {
        let px = x % 2;
        let py = y % 2;
        match self {
            CfaPattern::Rggb => if px == 0 && py == 0 {
                CfaColor::Red
            } else if px == 1 && py == 1 {
                CfaColor::Blue
            } else {
                CfaColor::Green
            },
            CfaPattern::Bggr => if px == 0 && py == 0 {
                CfaColor::Blue
            } else if px == 1 && py == 1 {
                CfaColor::Red
            } else {
                CfaColor::Green
            },
            CfaPattern::Grbg => if px == 1 && py == 0 {
                CfaColor::Red
            } else if px == 0 && py == 1 {
                CfaColor::Blue
            } else {
                CfaColor::Green
            },
            CfaPattern::Gbrg => if px == 1 && py == 0 {
                CfaColor::Blue
            } else if px == 0 && py == 1 {
                CfaColor::Red
            } else {
                CfaColor::Green
            },
        }
    }

    /// The token that names the pattern.
    pub open spec fn spec_token(self) -> Seq<char> {
        match self {
            CfaPattern::Rggb => "RGGB"@,
            CfaPattern::Grbg => "GRBG"@,
            CfaPattern::Bggr => "BGGR"@,
            CfaPattern::Gbrg => "GBRG"@,
        }
    }

    /// The token that names the pattern.
    pub fn token(self) -> (r: &'static str)
        ensures
            r@ == self.spec_token(),
    {
        match self {
            CfaPattern::Rggb => "RGGB",
            CfaPattern::Grbg => "GRBG",
            CfaPattern::Bggr => "BGGR",
            CfaPattern::Gbrg => "GBRG",
        }
    }

    /// Reads a pattern token. Any text but the four tokens is unsupported.
    pub fn from_name(name: &str) -> (r: Result<CfaPattern, DecodeError>)
        ensures
            r == match spec_pattern(name@) {
                Some(p) => Ok::<CfaPattern, DecodeError>(p),
                None => Err(DecodeError::UnsupportedCfaPattern),
            },
    {
        let owned = String::from_str(name);
        if owned == String::from_str("RGGB") {
            Ok(CfaPattern::Rggb)
        } else if owned == String::from_str("GRBG") {
            Ok(CfaPattern::Grbg)
        } else if owned == String::from_str("BGGR") {
            Ok(CfaPattern::Bggr)
        } else if owned == String::from_str("GBRG") {
            Ok(CfaPattern::Gbrg)
        } else {
            Err(DecodeError::UnsupportedCfaPattern)
        }
    }
}

/// The four tokens are pairwise different, and each names its pattern.
pub proof fn lemma_tokens_distinct(p: CfaPattern, q: CfaPattern)
    ensures
        p.spec_token() == q.spec_token() <==> p == q,
        p.spec_token().len() == 4,
        spec_pattern(p.spec_token()) == Some(p),
{
    reveal_strlit("RGGB");
    reveal_strlit("GRBG");
    reveal_strlit("BGGR");
    reveal_strlit("GBRG");
    if p != q {
        assert(p.spec_token()[0] != q.spec_token()[0] || p.spec_token()[1] != q.spec_token()[1]);
    }
    assert("RGGB"@[0] != "GRBG"@[0] && "RGGB"@[0] != "BGGR"@[0] && "RGGB"@[0] != "GBRG"@[0]);
    assert("GRBG"@[1] != "BGGR"@[1] && "GRBG"@[1] != "GBRG"@[1]);
    assert("BGGR"@[0] != "GBRG"@[0]);
}

} // verus!
