//! The closed catalog of muscle groups, with the name of each and the
//! parsing of free-text answers into it.

use vstd::prelude::*;
use vstd::string::*;
use crate::text::{lower, trimmed, trim_str, eq_lowered};

verus! {

/// The muscle groups an exercise can target. `Unset` is a sentinel
/// meaning "not chosen yet": it is never a valid target and no text
/// parses to it.
#[derive(Clone, Copy, PartialEq, Eq, Structural, Debug)]
pub enum BodyPart {
    Chest,
    Back,
    Shoulders,
    Triceps,
    Biceps,
    Abs,
    Legs,
    Calves,
    Unset,
}

/// The keyword that names each concrete muscle group, in lower case.
pub open spec fn keyword(bp: BodyPart) -> Seq<char> {
    match bp {
        BodyPart::Chest => seq!['c', 'h', 'e', 's', 't'],
        BodyPart::Back => seq!['b', 'a', 'c', 'k'],
        BodyPart::Shoulders => seq!['s', 'h', 'o', 'u', 'l', 'd', 'e', 'r', 's'],
        BodyPart::Triceps => seq!['t', 'r', 'i', 'c', 'e', 'p', 's'],
        BodyPart::Biceps => seq!['b', 'i', 'c', 'e', 'p', 's'],
        BodyPart::Abs => seq!['a', 'b', 's'],
        BodyPart::Legs => seq!['l', 'e', 'g', 's'],
        BodyPart::Calves => seq!['c', 'a', 'l', 'v', 'e', 's'],
        BodyPart::Unset => Seq::<char>::empty(),
    }
}

/// The concrete muscle groups in declaration order, the sentinel left out.
pub open spec fn declaration_order() -> Seq<BodyPart> {
    seq![
        BodyPart::Chest,
        BodyPart::Back,
        BodyPart::Shoulders,
        BodyPart::Triceps,
        BodyPart::Biceps,
        BodyPart::Abs,
        BodyPart::Legs,
        BodyPart::Calves,
    ]
}

/// What a line of text parses to: it is trimmed, lower-cased, and held
/// against each keyword in turn; anything else, the sentinel's name
/// included, matches nothing.
pub open spec fn parse_spec(s: Seq<char>) -> Option<BodyPart> {
    let t = lower(trimmed(s));
    if t == keyword(BodyPart::Chest) {
        Some(BodyPart::Chest)
    } else if t == keyword(BodyPart::Back) {
        Some(BodyPart::Back)
    } else if t == keyword(BodyPart::Shoulders) {
        Some(BodyPart::Shoulders)
    } else if t == keyword(BodyPart::Triceps) {
        Some(BodyPart::Triceps)
    } else if t == keyword(BodyPart::Biceps) {
        Some(BodyPart::Biceps)
    } else if t == keyword(BodyPart::Abs) {
        Some(BodyPart::Abs)
    } else if t == keyword(BodyPart::Legs) {
        Some(BodyPart::Legs)
    } else if t == keyword(BodyPart::Calves) {
        Some(BodyPart::Calves)
    } else {
        None
    }
}

impl BodyPart {
    /// The concrete muscle groups, in declaration order, fresh on every
    /// call. The sentinel is left out.
    pub fn iterator() -> (r: Vec<BodyPart>)
        ensures
            r@ == declaration_order(),
    {
        let mut r: Vec<BodyPart> = Vec::new();
        r.push(BodyPart::Chest);
        r.push(BodyPart::Back);
        r.push(BodyPart::Shoulders);
        r.push(BodyPart::Triceps);
        r.push(BodyPart::Biceps);
        r.push(BodyPart::Abs);
        r.push(BodyPart::Legs);
        r.push(BodyPart::Calves);
        proof {
            assert(r@ =~= declaration_order());
        }
        r
    }

    /// Parse a free-text answer into a muscle group, as `parse_spec`
    /// says: case-insensitive, surrounding blanks ignored, no match for
    /// anything outside the eight keywords.
    pub fn to_enum(s: &str) -> (r: Option<BodyPart>)
        ensures
            r == parse_spec(s@),
    {
        proof {
            reveal_strlit("chest");
            reveal_strlit("back");
            reveal_strlit("shoulders");
            reveal_strlit("triceps");
            reveal_strlit("biceps");
            reveal_strlit("abs");
            reveal_strlit("legs");
            reveal_strlit("calves");
            assert("chest"@ =~= keyword(BodyPart::Chest));
            assert("back"@ =~= keyword(BodyPart::Back));
            assert("shoulders"@ =~= keyword(BodyPart::Shoulders));
            assert("triceps"@ =~= keyword(BodyPart::Triceps));
            assert("biceps"@ =~= keyword(BodyPart::Biceps));
            assert("abs"@ =~= keyword(BodyPart::Abs));
            assert("legs"@ =~= keyword(BodyPart::Legs));
            assert("calves"@ =~= keyword(BodyPart::Calves));
        }
        let t = trim_str(s);
        if eq_lowered(t.as_str(), "chest") {
            Some(BodyPart::Chest)
        } else if eq_lowered(t.as_str(), "back") {
            Some(BodyPart::Back)
        } else if eq_lowered(t.as_str(), "shoulders") {
            Some(BodyPart::Shoulders)
        } else if eq_lowered(t.as_str(), "triceps") {
            Some(BodyPart::Triceps)
        } else if eq_lowered(t.as_str(), "biceps") {
            Some(BodyPart::Biceps)
        } else if eq_lowered(t.as_str(), "abs") {
            Some(BodyPart::Abs)
        } else if eq_lowered(t.as_str(), "legs") {
            Some(BodyPart::Legs)
        } else if eq_lowered(t.as_str(), "calves") {
            Some(BodyPart::Calves)
        } else {
            None
        }
    }

    /// The display name of a muscle group, capitalised as declared.
    pub fn name(&self) -> (r: String)
        ensures
            r@ == name_spec(*self),
    {
        proof {
            reveal_strlit("Chest");
            reveal_strlit("Back");
            reveal_strlit("Shoulders");
            reveal_strlit("Triceps");
            reveal_strlit("Biceps");
            reveal_strlit("Abs");
            reveal_strlit("Legs");
            reveal_strlit("Calves");
            reveal_strlit("None");
        }
        let n: &str = match self {
            BodyPart::Chest => "Chest",
            BodyPart::Back => "Back",
            BodyPart::Shoulders => "Shoulders",
            BodyPart::Triceps => "Triceps",
            BodyPart::Biceps => "Biceps",
            BodyPart::Abs => "Abs",
            BodyPart::Legs => "Legs",
            BodyPart::Calves => "Calves",
            BodyPart::Unset => "None",
        };
        n.to_owned()
    }
}

/// The display name of each muscle group; the sentinel shows as "None".
pub open spec fn name_spec(bp: BodyPart) -> Seq<char> {
    match bp {
        BodyPart::Chest => seq!['C', 'h', 'e', 's', 't'],
        BodyPart::Back => seq!['B', 'a', 'c', 'k'],
        BodyPart::Shoulders => seq!['S', 'h', 'o', 'u', 'l', 'd', 'e', 'r', 's'],
        BodyPart::Triceps => seq!['T', 'r', 'i', 'c', 'e', 'p', 's'],
        BodyPart::Biceps => seq!['B', 'i', 'c', 'e', 'p', 's'],
        BodyPart::Abs => seq!['A', 'b', 's'],
        BodyPart::Legs => seq!['L', 'e', 'g', 's'],
        BodyPart::Calves => seq!['C', 'a', 'l', 'v', 'e', 's'],
        BodyPart::Unset => seq!['N', 'o', 'n', 'e'],
    }
}

/// Parsing hits a concrete muscle group exactly when the trimmed,
/// lower-cased text reads as that group's keyword, and never yields the
/// sentinel; text matching no keyword parses to nothing.
pub proof fn lemma_parse_exact(s: Seq<char>)
    ensures
        forall|bp: BodyPart| #![auto]
            bp != BodyPart::Unset ==> (parse_spec(s) == Some(bp) <==> lower(trimmed(s))
                == keyword(bp)),
        parse_spec(s) is None <==> (forall|bp: BodyPart| #![auto]
            bp != BodyPart::Unset ==> lower(trimmed(s)) != keyword(bp)),
        parse_spec(s) != Some(BodyPart::Unset),
{
    let t = lower(trimmed(s));
    assert(keyword(BodyPart::Chest) != keyword(BodyPart::Back));
    if parse_spec(s) is Some {
        let bp = parse_spec(s)->Some_0;
        assert(t == keyword(bp));
    }
}

/// The catalog iteration yields exactly the eight concrete muscle
/// groups, each once, in declaration order, and never the sentinel.
pub proof fn lemma_iteration_order()
    ensures
        declaration_order().len() == 8,
        forall|i: int| 0 <= i < 8 ==> #[trigger] declaration_order()[i] != BodyPart::Unset,
        forall|i: int, j: int| #![auto]
            0 <= i < j < 8 ==> declaration_order()[i] != declaration_order()[j],
{
}

} // verus!
