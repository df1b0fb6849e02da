use vstd::prelude::*;

verus! {

/// An opaque native identifier with a reserved null value.
///
/// The all-zero value is the null sentinel and never names a real object; a
/// handle confers no ownership of the object it names.
pub trait Handle: Sized {
    /// The native value wrapped by the handle.
    spec fn raw(&self) -> int;

    /// The null handle.
    spec fn spec_null() -> Self;

    proof fn lemma_null_is_zero()
        ensures
            Self::spec_null().raw() == 0,
    ;

    fn null() -> (r: Self)
        ensures
            r == Self::spec_null(),
    ;

    fn is_null(&self) -> (r: bool)
        ensures
            r == (self.raw() == 0),
    ;
}

/// A handle is null exactly when its native value is zero.
pub open spec fn handle_is_null<H: Handle>(h: &H) -> bool {
    h.raw() == 0
}

/// The null handle of every handle type tests null, and a handle built from a
/// non-zero native value never does.
pub proof fn lemma_null_convention<H: Handle>(h: H)
    ensures
        handle_is_null(&H::spec_null()),
        h.raw() != 0 ==> !handle_is_null(&h),
{
    H::lemma_null_is_zero();
}

/// The text of an implementation of [`Handle`] for the single-field integer
/// wrapper `name`: zero is its null value.
pub open spec fn handle_impl_spec(name: Seq<char>) -> Seq<char> {
    "impl dlcompute::handle::Handle for "@ + name
        + " { fn null() -> Self { Self(0) } fn is_null(&self) -> bool { self.0 == 0 } }"@
}

/// Emits the implementation of [`Handle`] for the wrapper type `name`.
pub fn handle_impl_text(name: &str) -> (r: String)
    ensures
        r@ == handle_impl_spec(name@),
{
    let mut r = String::new();
    r.append("impl dlcompute::handle::Handle for ");
    r.append(name);
    r.append(" { fn null() -> Self { Self(0) } fn is_null(&self) -> bool { self.0 == 0 } }");
    r
}

} // verus!
