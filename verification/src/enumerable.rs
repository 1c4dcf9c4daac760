//! The capability that enum-backed selection prompts require of their option
//! type: a canonical, ordered list of all variants, a display label, and a
//! value-equality test.

use vstd::prelude::*;

verus! {

/// A closed, finite type whose variants can be enumerated in declaration
/// order, labelled for display, and compared by value.
pub trait Enumerable: Sized {
    /// The canonical ordered sequence of all variants.
    spec fn all_variants() -> Seq<Self>;

    /// The display label of a variant, as a character sequence.
    spec fn label_spec(&self) -> Seq<char>;

    /// All variants, in canonical order.
    fn variants() -> (v: Vec<Self>)
        ensures
            v@ == Self::all_variants(),
    ;

    /// The display label of this variant.
    fn label(&self) -> (s: String)
        ensures
            s@ == self.label_spec(),
    ;

    /// Value equality.
    fn same(&self, other: &Self) -> (b: bool)
        ensures
            b == (*self == *other),
    ;

    /// A copy of this variant.
    fn duplicate(&self) -> (r: Self)
        ensures
            r == *self,
    ;
}

/// A ready-made enumerable answer type for confirmation prompts.
#[derive(Clone, Copy, PartialEq, Eq, Structural, Debug)]
pub enum Confirmation {
    Yes,
    No,
    Cancel,
}

impl Enumerable for Confirmation {
    open spec fn all_variants() -> Seq<Confirmation> {
        seq![Confirmation::Yes, Confirmation::No, Confirmation::Cancel]
    }

    open spec fn label_spec(&self) -> Seq<char> {
        match *self {
            Confirmation::Yes => "Yes"@,
            Confirmation::No => "No"@,
            Confirmation::Cancel => "Cancel"@,
        }
    }

    fn variants() -> (v: Vec<Confirmation>) {
        let mut v: Vec<Confirmation> = Vec::new();
        v.push(Confirmation::Yes);
        v.push(Confirmation::No);
        v.push(Confirmation::Cancel);
        proof {
            assert(v@ =~= Self::all_variants());
        }
        v
    }

    fn label(&self) -> (s: String) {
        match *self {
            Confirmation::Yes => "Yes".to_owned(),
            Confirmation::No => "No".to_owned(),
            Confirmation::Cancel => "Cancel".to_owned(),
        }
    }

    fn same(&self, other: &Self) -> (b: bool) {
        *self == *other
    }

    fn duplicate(&self) -> (r: Self) {
        *self
    }
}

} // verus!
