use vstd::prelude::*;

verus! {

/// Capabilities a form-state type must provide: a default value, cloning,
/// and a decidable equality.
///
/// `eqv` is the equivalence that the type's equality test decides, and
/// `is_default` holds of the values its default constructor may produce.
/// The controller compares defaults with `eq_value` and rebuilds its reset
/// callback with `clone_value`, so both must answer for their specs.
pub trait FormValue: Sized {
    /// Which values count as the type's default.
    spec fn is_default(&self) -> bool;

    /// The equivalence that `eq_value` decides.
    spec fn eqv(&self, other: &Self) -> bool;

    /// `eqv` is an equivalence: reflexive, symmetric and transitive.
    proof fn eqv_laws(a: &Self, b: &Self, c: &Self)
        ensures
            a.eqv(a),
            a.eqv(b) == b.eqv(a),
            a.eqv(b) && b.eqv(c) ==> a.eqv(c),
    ;

    /// Construct the default value.
    fn default_value() -> (r: Self)
        ensures
            r.is_default(),
    ;

    /// Clone the value; the clone is the value.
    fn clone_value(&self) -> (r: Self)
        ensures
            r == *self,
    ;

    /// Decide `eqv`.
    fn eq_value(&self, other: &Self) -> (r: bool)
        ensures
            r == self.eqv(other),
    ;
}

/// `eqv` lifted to optional values: both absent, or both present and
/// equivalent.
pub open spec fn opt_eqv<T: FormValue>(a: Option<T>, b: Option<T>) -> bool {
    match (a, b) {
        (Some(x), Some(y)) => x.eqv(&y),
        (None, None) => true,
        _ => false,
    }
}

/// Decide `opt_eqv`.
pub fn opt_eq_value<T: FormValue>(a: &Option<T>, b: &Option<T>) -> (r: bool)
    ensures
        r == opt_eqv(*a, *b),
{
    match (a, b) {
        (Some(x), Some(y)) => x.eq_value(y),
        (None, None) => true,
        _ => false,
    }
}

impl FormValue for i32 {
    open spec fn is_default(&self) -> bool {
        *self == 0
    }

    open spec fn eqv(&self, other: &Self) -> bool {
        *self == *other
    }

    proof fn eqv_laws(a: &Self, b: &Self, c: &Self) {
    }

    fn default_value() -> (r: Self) {
        0
    }

    fn clone_value(&self) -> (r: Self) {
        *self
    }

    fn eq_value(&self, other: &Self) -> (r: bool) {
        *self == *other
    }
}

impl FormValue for i64 {
    open spec fn is_default(&self) -> bool {
        *self == 0
    }

    open spec fn eqv(&self, other: &Self) -> bool {
        *self == *other
    }

    proof fn eqv_laws(a: &Self, b: &Self, c: &Self) {
    }

    fn default_value() -> (r: Self) {
        0
    }

    fn clone_value(&self) -> (r: Self) {
        *self
    }

    fn eq_value(&self, other: &Self) -> (r: bool) {
        *self == *other
    }
}

impl FormValue for u64 {
    open spec fn is_default(&self) -> bool {
        *self == 0
    }

    open spec fn eqv(&self, other: &Self) -> bool {
        *self == *other
    }

    proof fn eqv_laws(a: &Self, b: &Self, c: &Self) {
    }

    fn default_value() -> (r: Self) {
        0
    }

    fn clone_value(&self) -> (r: Self) {
        *self
    }

    fn eq_value(&self, other: &Self) -> (r: bool) {
        *self == *other
    }
}

impl FormValue for bool {
    open spec fn is_default(&self) -> bool {
        *self == false
    }

    open spec fn eqv(&self, other: &Self) -> bool {
        *self == *other
    }

    proof fn eqv_laws(a: &Self, b: &Self, c: &Self) {
    }

    fn default_value() -> (r: Self) {
        false
    }

    fn clone_value(&self) -> (r: Self) {
        *self
    }

    fn eq_value(&self, other: &Self) -> (r: bool) {
        *self == *other
    }
}

impl FormValue for String {
    open spec fn is_default(&self) -> bool {
        self@ == Seq::<char>::empty()
    }

    open spec fn eqv(&self, other: &Self) -> bool {
        self@ == other@
    }

    proof fn eqv_laws(a: &Self, b: &Self, c: &Self) {
    }

    fn default_value() -> (r: Self) {
        String::new()
    }

    fn clone_value(&self) -> (r: Self) {
        self.clone()
    }

    fn eq_value(&self, other: &Self) -> (r: bool) {
        self.eq(other)
    }
}

} // verus!
