use vstd::prelude::*;

use crate::text::strings::vec_eq_str;
use crate::text::strings::str_to_chars;

verus! {

#[derive(Debug, PartialEq, Eq, Clone, Copy, Hash, Structural)]
pub enum VisibilityKind {
    Public,
    Protected,
    Private,
    Internal,
    Package,
}

/// The keyword that spells each visibility.
pub open spec fn visibility_name(kind: VisibilityKind) -> Seq<char> {
    match kind {
        VisibilityKind::Public => "public"@,
        VisibilityKind::Protected => "protected"@,
        VisibilityKind::Private => "private"@,
        VisibilityKind::Internal => "internal"@,
        VisibilityKind::Package => "package"@,
    }
}

pub open spec fn spec_visibility_of(name: Seq<char>) -> Option<VisibilityKind> {
    if name == "public"@ {
        Some(VisibilityKind::Public)
    } else if name == "protected"@ {
        Some(VisibilityKind::Protected)
    } else if name == "private"@ {
        Some(VisibilityKind::Private)
    } else if name == "internal"@ {
        Some(VisibilityKind::Internal)
    } else if name == "package"@ {
        Some(VisibilityKind::Package)
    } else {
        None
    }
}

impl VisibilityKind {
    pub fn to_visibility_kind(visibility: &str) -> (r: Option<VisibilityKind>)
        ensures
            r == spec_visibility_of(visibility@),
    {
        let v = str_to_chars(visibility);
        if vec_eq_str(&v, "public") {
            Some(VisibilityKind::Public)
        } else if vec_eq_str(&v, "protected") {
            Some(VisibilityKind::Protected)
        } else if vec_eq_str(&v, "private") {
            Some(VisibilityKind::Private)
        } else if vec_eq_str(&v, "internal") {
            Some(VisibilityKind::Internal)
        } else if vec_eq_str(&v, "package") {
            Some(VisibilityKind::Package)
        } else {
            None
        }
    }

    pub fn to_str(&self) -> (r: Option<&'static str>)
        ensures
            r is Some,
            r.unwrap()@ == visibility_name(*self),
    {
        match self {
            VisibilityKind::Public => Some("public"),
            VisibilityKind::Protected => Some("protected"),
            VisibilityKind::Private => Some("private"),
            VisibilityKind::Internal => Some("internal"),
            VisibilityKind::Package => Some("package"),
        }
    }
}

/// Reading back the name of a visibility gives that visibility.
pub proof fn lemma_visibility_round_trip(kind: VisibilityKind)
    ensures
        spec_visibility_of(visibility_name(kind)) == Some(kind),
{
    reveal_strlit("public");
    reveal_strlit("protected");
    reveal_strlit("private");
    reveal_strlit("internal");
    reveal_strlit("package");
    assert("public"@.len() == 6 && "protected"@.len() == 9 && "private"@.len() == 7);
    assert("internal"@.len() == 8 && "package"@.len() == 7);
    assert("private"@[1] != "package"@[1]);
}

} // verus!
