//! The closed game-mode enumeration and its wire-tag table.

use vstd::prelude::*;
use vstd::string::StringExecFns;
use vstd::string::StringSliceAdditionalSpecFns;
use vstd::utf8::encode_utf8_decode_utf8;

verus! {

/// Error carrying a tag that names no defined game mode.
#[derive(Debug)]
pub struct InvalidGametype(pub String);

impl InvalidGametype {
    /// Human-readable description of the rejected tag.
    pub fn message(&self) -> (text: String)
        ensures
            text@ == "Invalid gametype: "@ + self.0@,
    {
        let mut text = String::from_str("Invalid gametype: ");
        text.append(self.0.as_str());
        text
    }
}

/// The game modes the server understands, a closed enumeration.
#[derive(Clone, Debug, PartialEq, Eq, Structural)]
pub enum Gametype {
    FreeForAll,
    TeamDeathmatch,
    Domination,
    SearchAndDestroy,
    Headquarters,
    Sabotage,
}

/// The fixed wire tag of each game mode.
pub open spec fn tag_of(gametype: Gametype) -> Seq<char> {
    match gametype {
        Gametype::FreeForAll => "dm"@,
        Gametype::TeamDeathmatch => "war"@,
        Gametype::Domination => "dom"@,
        Gametype::SearchAndDestroy => "sd"@,
        Gametype::Headquarters => "koth"@,
        Gametype::Sabotage => "sab"@,
    }
}

/// The game mode a tag names, if any.
pub open spec fn gametype_of_tag(tag: Seq<char>) -> Option<Gametype> {
    if tag == "dm"@ {
        Some(Gametype::FreeForAll)
    } else if tag == "war"@ {
        Some(Gametype::TeamDeathmatch)
    } else if tag == "dom"@ {
        Some(Gametype::Domination)
    } else if tag == "sd"@ {
        Some(Gametype::SearchAndDestroy)
    } else if tag == "koth"@ {
        Some(Gametype::Headquarters)
    } else if tag == "sab"@ {
        Some(Gametype::Sabotage)
    } else {
        None
    }
}

/// Equality of two byte slices, element by element.
fn bytes_eq(a: &[u8], b: &[u8]) -> (r: bool)
    ensures
        r == (a@ == b@),
{
    if a.len() != b.len() {
        assert(a@ != b@) by {
            assert(a@.len() != b@.len());
        }
        return false;
    }
    let mut i: usize = 0;
    while i < a.len()
        invariant
            i <= a@.len(),
            a@.len() == b@.len(),
            forall|j: int| 0 <= j < i ==> a@[j] == b@[j],
        decreases a@.len() - i,
    {
        if a[i] != b[i] {
            return false;
        }
        i = i + 1;
    }
    proof {
        assert(a@ =~= b@);
    }
    true
}

/// Equality of two strings, decided on their UTF-8 bytes.  Equal bytes mean
/// equal character sequences because UTF-8 encoding is injective.
fn str_eq(a: &str, b: &str) -> (r: bool)
    ensures
        r == (a@ == b@),
{
    let r = bytes_eq(a.as_bytes(), b.as_bytes());
    proof {
        if a.spec_bytes() == b.spec_bytes() {
            encode_utf8_decode_utf8(a@);
            encode_utf8_decode_utf8(b@);
        }
    }
    r
}

impl Gametype {
    /// The wire tag of this game mode.
    pub fn to_tag(&self) -> (tag: &str)
        ensures
            tag@ == tag_of(*self),
    {
        match self {
            Gametype::FreeForAll => "dm",
            Gametype::TeamDeathmatch => "war",
            Gametype::Domination => "dom",
            Gametype::SearchAndDestroy => "sd",
            Gametype::Headquarters => "koth",
            Gametype::Sabotage => "sab",
        }
    }

    /// The game mode named by a wire tag, or `None` for an unknown tag.
    pub fn from_tag(tag: &str) -> (found: Option<Gametype>)
        ensures
            found == gametype_of_tag(tag@),
    {
        if str_eq(tag, "dm") {
            Some(Gametype::FreeForAll)
        } else if str_eq(tag, "war") {
            Some(Gametype::TeamDeathmatch)
        } else if str_eq(tag, "dom") {
            Some(Gametype::Domination)
        } else if str_eq(tag, "sd") {
            Some(Gametype::SearchAndDestroy)
        } else if str_eq(tag, "koth") {
            Some(Gametype::Headquarters)
        } else if str_eq(tag, "sab") {
            Some(Gametype::Sabotage)
        } else {
            None
        }
    }

    /// The game mode named by a wire tag, or an [`InvalidGametype`] error
    /// carrying the unrecognized tag.
    pub fn parse_tag(tag: &str) -> (parsed: Result<Gametype, InvalidGametype>)
        ensures
            gametype_of_tag(tag@) matches Some(gametype) ==> parsed == Ok::<
                Gametype,
                InvalidGametype,
            >(gametype),
            gametype_of_tag(tag@) is None ==> (parsed matches Err(error) && error.0@ == tag@),
    {
        match Gametype::from_tag(tag) {
            Some(gametype) => Ok(gametype),
            None => Err(InvalidGametype(tag.to_owned())),
        }
    }
}

/// Every defined game mode comes back unchanged from a trip through its tag.
pub proof fn lemma_tag_roundtrip(gametype: Gametype)
    ensures
        gametype_of_tag(tag_of(gametype)) == Some(gametype),
{
    reveal_strlit("dm");
    reveal_strlit("war");
    reveal_strlit("dom");
    reveal_strlit("sd");
    reveal_strlit("koth");
    reveal_strlit("sab");
    assert("dm"@.len() == 2);
    assert("war"@.len() == 3);
    assert("dom"@.len() == 3);
    assert("sd"@.len() == 2);
    assert("koth"@.len() == 4);
    assert("sab"@.len() == 3);
    assert("war"@[0] == 'w' && "dom"@[0] == 'd' && "sab"@[0] == 's');
    assert("dm"@[0] == 'd' && "sd"@[0] == 's');
}

} // verus!
