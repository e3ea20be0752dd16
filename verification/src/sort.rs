//! Sort specifications: a field name together with a direction.
//!
//! On the wire a sort specification becomes one `sort_key=<field>` entry
//! followed by one `sort_dir=<asc|desc>` entry; the two directions are
//! spelled exactly `"asc"` and `"desc"`.

use vstd::prelude::*;

verus! {

/// A single sort specification: list by `field`, ascending or descending.
pub enum Sort {
    /// Ascending order on the named field.
    Asc(String),
    /// Descending order on the named field.
    Desc(String),
}

impl Sort {
    /// The field this specification sorts by.
    pub open spec fn spec_field(&self) -> Seq<char> {
        match self {
            Sort::Asc(f) => f@,
            Sort::Desc(f) => f@,
        }
    }

    /// Whether the direction is ascending.
    pub open spec fn spec_is_asc(&self) -> bool {
        self is Asc
    }

    /// The direction string emitted on the wire.
    pub open spec fn spec_dir(&self) -> Seq<char> {
        if self.spec_is_asc() {
            "asc"@
        } else {
            "desc"@
        }
    }

    /// The `(field, direction)` pair this specification encodes to.
    pub fn to_pair(&self) -> (r: (String, String))
        ensures
            r.0@ == self.spec_field(),
            r.1@ == self.spec_dir(),
    {
        match self {
            Sort::Asc(f) => (f.clone(), String::from_str("asc")),
            Sort::Desc(f) => (f.clone(), String::from_str("desc")),
        }
    }
}

/// What decoding a `(field, direction)` pair yields: the direction as a
/// flag (`true` for ascending) and the field, or nothing for an unknown
/// direction string.
pub open spec fn spec_sort_from_pair(field: Seq<char>, dir: Seq<char>) -> Option<(bool, Seq<char>)> {
    if dir == "asc"@ {
        Some((true, field))
    } else if dir == "desc"@ {
        Some((false, field))
    } else {
        None
    }
}

/// Decode a `(field, direction)` pair back into a sort specification.
pub fn sort_from_pair(field: &str, dir: &str) -> (r: Option<Sort>)
    ensures
        spec_sort_from_pair(field@, dir@) is Some <==> r is Some,
        r matches Some(s) ==> spec_sort_from_pair(field@, dir@)
            == Some((s.spec_is_asc(), s.spec_field())) && s.spec_field() == field@,
{
    proof {
        reveal_strlit("asc");
        reveal_strlit("desc");
    }
    let d = dir.to_owned();
    let asc = String::from_str("asc");
    let desc = String::from_str("desc");
    if d == asc {
        Some(Sort::Asc(field.to_owned()))
    } else if d == desc {
        Some(Sort::Desc(field.to_owned()))
    } else {
        None
    }
}

/// Law: encoding a sort specification as its `(field, direction)` pair and
/// decoding that pair yields the same direction and the same field, for
/// every specification.
pub proof fn lemma_sort_round_trip(s: Sort)
    ensures
        spec_sort_from_pair(s.spec_field(), s.spec_dir()) == Some((s.spec_is_asc(), s.spec_field())),
{
    reveal_strlit("asc");
    reveal_strlit("desc");
    assert("asc"@.len() == 3);
    assert("desc"@.len() == 4);
}

} // verus!
