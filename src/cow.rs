//! The copy-on-write container.

use crate::family::{Beef, BeefEq};
use core::hash::{Hash, Hasher};
use vstd::prelude::*;
use vstd::std_specs::cmp::PartialEqSpec;

verus! {

/// What a container holds: a borrow of someone else's data, or the owned
/// value itself. Ownership is carried by the value, so it is released exactly
/// once, when the container or whoever takes the value out drops it.
enum Repr<'a, T: Beef + ?Sized + 'a> {
    Borrowed(&'a T),
    Owned(T::Owned),
}

/// A value that either borrows data of the family `T` or owns it, read through
/// the borrowed form in both cases.
pub struct Cow<'a, T: Beef + ?Sized + 'a> {
    repr: Repr<'a, T>,
}

impl<'a, T: Beef + ?Sized + 'a> Cow<'a, T> {
    /// Whether the container owns its data.
    pub closed spec fn is_owned(&self) -> bool {
        self.repr is Owned
    }

    /// The reference a borrowing container holds.
    pub closed spec fn borrowed_ref(&self) -> &'a T {
        match self.repr {
            Repr::Borrowed(r) => r,
            Repr::Owned(_) => arbitrary(),
        }
    }

    /// The value an owning container holds.
    pub closed spec fn owned_value(&self) -> T::Owned {
        match self.repr {
            Repr::Owned(o) => o,
            Repr::Borrowed(_) => arbitrary(),
        }
    }

    /// The container that borrows `val`.
    pub closed spec fn spec_borrowed(val: &'a T) -> Self {
        Cow { repr: Repr::Borrowed(val) }
    }

    /// The container that owns `val`.
    pub closed spec fn spec_owned(val: T::Owned) -> Self {
        Cow { repr: Repr::Owned(val) }
    }

    /// Wraps a reference; the container owns nothing.
    pub fn borrowed(val: &'a T) -> (r: Self)
        ensures
            r == Self::spec_borrowed(val),
            !r.is_owned(),
            r.borrowed_ref() == val,
            r@ == val.data(),
    {
        Cow { repr: Repr::Borrowed(val) }
    }

    /// Takes ownership of `val`; it is released when the container is.
    ///
    /// A value that reserves no storage at all (a capacity of zero) is owned
    /// like any other: it is not mistaken for a borrow, and converting the
    /// container back hands that same value over.
    pub fn owned(val: T::Owned) -> (r: Self)
        ensures
            r == Self::spec_owned(val),
            r.is_owned(),
            r.owned_value() == val,
            r@ == T::owned_data(&val),
    {
        Cow { repr: Repr::Owned(val) }
    }

    /// The data, read through the borrowed form whatever the container holds.
    /// A borrowing container hands back the very reference it was given.
    pub fn inner(&self) -> (r: &T)
        ensures
            r.data() == self@,
            !self.is_owned() ==> r == self.borrowed_ref(),
    {
        match &self.repr {
            Repr::Borrowed(b) => *b,
            Repr::Owned(o) => T::borrow_owned(o),
        }
    }

    /// Turns the container into an owned value: an owning container hands
    /// over the value it holds, without copying; a borrowing one copies the
    /// data into a fresh owned value.
    pub fn into_owned(self) -> (r: T::Owned)
        ensures
            T::owned_data(&r) == self@,
            self.is_owned() ==> r == self.owned_value(),
    {
        match self.repr {
            Repr::Borrowed(b) => b.to_owned_copy(),
            Repr::Owned(o) => o,
        }
    }
}

/// Borrowing is transparent: the container made from `r` owns nothing, so
/// dropping it releases nothing, shows `r`'s data, and reading it back gives
/// `r` itself.
pub proof fn lemma_borrow_transparency<'a, T: Beef + ?Sized>(r: &'a T, d: &T)
    requires
        call_ensures(Cow::<'a, T>::inner, (&Cow::<'a, T>::spec_borrowed(r),), d),
    ensures
        !Cow::spec_borrowed(r).is_owned(),
        Cow::spec_borrowed(r)@ == r.data(),
        d == r,
{
}

/// Absorbing an owned value and taking it back out loses nothing: the
/// container owns exactly that value and shows its data, and `into_owned`
/// hands back the very same value, so its data and its capacity are kept.
pub proof fn lemma_owned_round_trip<'a, T: Beef + ?Sized>(a: T::Owned, b: T::Owned)
    requires
        call_ensures(Cow::<'a, T>::into_owned, (Cow::<'a, T>::spec_owned(a),), b),
    ensures
        Cow::<'a, T>::spec_owned(a).is_owned(),
        Cow::<'a, T>::spec_owned(a)@ == T::owned_data(&a),
        b == a,
        T::owned_data(&b) == T::owned_data(&a),
{
}

/// Equality ignores representation: a container that borrows some data and
/// one that owns a copy of it are equal, compared in either order.
pub proof fn lemma_eq_ignores_representation<'a, 'b, T: BeefEq + ?Sized>(
    r: &'a T,
    a: T::Owned,
    e1: bool,
    e2: bool,
)
    requires
        T::obeys_data_eq(),
        T::owned_data(&a) == r.data(),
        call_ensures(
            <Cow<'a, T> as PartialEq<Cow<'b, T>>>::eq,
            (&Cow::<'a, T>::spec_borrowed(r), &Cow::<'b, T>::spec_owned(a)),
            e1,
        ),
        call_ensures(
            <Cow<'b, T> as PartialEq<Cow<'a, T>>>::eq,
            (&Cow::<'b, T>::spec_owned(a), &Cow::<'a, T>::spec_borrowed(r)),
            e2,
        ),
    ensures
        Cow::<'a, T>::spec_borrowed(r).eq_spec(&Cow::<'b, T>::spec_owned(a)),
        Cow::<'b, T>::spec_owned(a).eq_spec(&Cow::<'a, T>::spec_borrowed(r)),
        e1,
        e2,
{
}

impl<'a, T: Beef + ?Sized + 'a> View for Cow<'a, T> {
    type V = Seq<T::Elem>;

    /// The data the container shows.
    open spec fn view(&self) -> Seq<T::Elem> {
        if self.is_owned() {
            T::owned_data(&self.owned_value())
        } else {
            self.borrowed_ref().data()
        }
    }
}

impl<'a, T: Beef + ?Sized + 'a> Clone for Cow<'a, T> {
    /// A borrowing container is copied as it is, sharing the borrowed data;
    /// an owning one gets a fresh owned copy of its data, so the two never
    /// share storage.
    fn clone(&self) -> (r: Self)
        ensures
            r@ == self@,
            r.is_owned() == self.is_owned(),
            !self.is_owned() ==> r == *self,
    {
        match &self.repr {
            Repr::Borrowed(b) => Cow { repr: Repr::Borrowed(*b) },
            Repr::Owned(o) => Cow::owned(T::borrow_owned(o).to_owned_copy()),
        }
    }
}

impl<'a, T: Beef + ?Sized + 'a> core::ops::Deref for Cow<'a, T> {
    type Target = T;

    fn deref(&self) -> (r: &T)
        ensures
            r.data() == self@,
            !self.is_owned() ==> r == self.borrowed_ref(),
    {
        self.inner()
    }
}

impl<'a, T: Beef + ?Sized + 'a> AsRef<T> for Cow<'a, T> {
    fn as_ref(&self) -> (r: &T)
        ensures
            r.data() == self@,
            !self.is_owned() ==> r == self.borrowed_ref(),
    {
        self.inner()
    }
}

impl<'a, T: Beef + ?Sized + 'a> core::borrow::Borrow<T> for Cow<'a, T> {
    fn borrow(&self) -> (r: &T)
        ensures
            <T as Beef>::data(r) == self.view(),
            !self.is_owned() ==> r == self.borrowed_ref(),
    {
        self.inner()
    }
}

impl<'a, 'b, T: BeefEq + ?Sized> PartialEq<Cow<'b, T>> for Cow<'a, T> {
    fn eq(&self, other: &Cow<'b, T>) -> (r: bool) {
        self.inner().same_data(other.inner())
    }
}

impl<'a, 'b, T: BeefEq + ?Sized> vstd::std_specs::cmp::PartialEqSpecImpl<Cow<'b, T>> for Cow<'a, T> {
    open spec fn obeys_eq_spec() -> bool {
        T::obeys_data_eq()
    }

    open spec fn eq_spec(&self, other: &Cow<'b, T>) -> bool {
        self@ == other@
    }
}

impl<'a, T: BeefEq + Eq + ?Sized> Eq for Cow<'a, T> {

}

impl<'a> PartialEq<Cow<'a, str>> for str {
    fn eq(&self, other: &Cow<'a, str>) -> (r: bool) {
        self.same_data(other.inner())
    }
}

impl<'a> vstd::std_specs::cmp::PartialEqSpecImpl<Cow<'a, str>> for str {
    open spec fn obeys_eq_spec() -> bool {
        true
    }

    open spec fn eq_spec(&self, other: &Cow<'a, str>) -> bool {
        self@ == other@
    }
}

impl<'a, 'b> PartialEq<Cow<'a, str>> for &'b str {
    fn eq(&self, other: &Cow<'a, str>) -> (r: bool) {
        (*self).same_data(other.inner())
    }
}

impl<'a, 'b> vstd::std_specs::cmp::PartialEqSpecImpl<Cow<'a, str>> for &'b str {
    open spec fn obeys_eq_spec() -> bool {
        true
    }

    open spec fn eq_spec(&self, other: &Cow<'a, str>) -> bool {
        self@ == other@
    }
}

impl<'a> PartialEq<Cow<'a, str>> for String {
    fn eq(&self, other: &Cow<'a, str>) -> (r: bool) {
        self.as_str().same_data(other.inner())
    }
}

impl<'a> vstd::std_specs::cmp::PartialEqSpecImpl<Cow<'a, str>> for String {
    open spec fn obeys_eq_spec() -> bool {
        true
    }

    open spec fn eq_spec(&self, other: &Cow<'a, str>) -> bool {
        self@ == other@
    }
}

impl<'a, E: Copy + PartialEq> PartialEq<Cow<'a, [E]>> for [E] {
    fn eq(&self, other: &Cow<'a, [E]>) -> (r: bool) {
        self.same_data(other.inner())
    }
}

impl<'a, E: Copy + PartialEq> vstd::std_specs::cmp::PartialEqSpecImpl<Cow<'a, [E]>> for [E] {
    open spec fn obeys_eq_spec() -> bool {
        <[E] as BeefEq>::obeys_data_eq()
    }

    open spec fn eq_spec(&self, other: &Cow<'a, [E]>) -> bool {
        self@ == other@
    }
}

impl<'a, 'b, E: Copy + PartialEq> PartialEq<Cow<'a, [E]>> for &'b [E] {
    fn eq(&self, other: &Cow<'a, [E]>) -> (r: bool) {
        (*self).same_data(other.inner())
    }
}

impl<'a, 'b, E: Copy + PartialEq> vstd::std_specs::cmp::PartialEqSpecImpl<Cow<'a, [E]>> for &'b [E] {
    open spec fn obeys_eq_spec() -> bool {
        <[E] as BeefEq>::obeys_data_eq()
    }

    open spec fn eq_spec(&self, other: &Cow<'a, [E]>) -> bool {
        self@ == other@
    }
}

impl<'a, E: Copy + PartialEq> PartialEq<Cow<'a, [E]>> for Vec<E> {
    fn eq(&self, other: &Cow<'a, [E]>) -> (r: bool) {
        self.as_slice().same_data(other.inner())
    }
}

impl<'a, E: Copy + PartialEq> vstd::std_specs::cmp::PartialEqSpecImpl<Cow<'a, [E]>> for Vec<E> {
    open spec fn obeys_eq_spec() -> bool {
        <[E] as BeefEq>::obeys_data_eq()
    }

    open spec fn eq_spec(&self, other: &Cow<'a, [E]>) -> bool {
        self@ == other@
    }
}

impl<'a, 'b> PartialEq<&'b str> for Cow<'a, str> {
    fn eq(&self, other: &&'b str) -> (r: bool) {
        self.inner().same_data(*other)
    }
}

impl<'a, 'b> vstd::std_specs::cmp::PartialEqSpecImpl<&'b str> for Cow<'a, str> {
    open spec fn obeys_eq_spec() -> bool {
        true
    }

    open spec fn eq_spec(&self, other: &&'b str) -> bool {
        self@ == other@
    }
}

impl<'a> PartialEq<str> for Cow<'a, str> {
    fn eq(&self, other: &str) -> (r: bool) {
        self.inner().same_data(other)
    }
}

impl<'a> vstd::std_specs::cmp::PartialEqSpecImpl<str> for Cow<'a, str> {
    open spec fn obeys_eq_spec() -> bool {
        true
    }

    open spec fn eq_spec(&self, other: &str) -> bool {
        self@ == other@
    }
}

impl<'a> PartialEq<String> for Cow<'a, str> {
    fn eq(&self, other: &String) -> (r: bool) {
        self.inner().same_data(other.as_str())
    }
}

impl<'a> vstd::std_specs::cmp::PartialEqSpecImpl<String> for Cow<'a, str> {
    open spec fn obeys_eq_spec() -> bool {
        true
    }

    open spec fn eq_spec(&self, other: &String) -> bool {
        self@ == other@
    }
}

impl<'a, 'b, E: Copy + PartialEq> PartialEq<&'b [E]> for Cow<'a, [E]> {
    fn eq(&self, other: &&'b [E]) -> (r: bool) {
        self.inner().same_data(*other)
    }
}

impl<'a, 'b, E: Copy + PartialEq> vstd::std_specs::cmp::PartialEqSpecImpl<&'b [E]> for Cow<'a, [E]> {
    open spec fn obeys_eq_spec() -> bool {
        <[E] as BeefEq>::obeys_data_eq()
    }

    open spec fn eq_spec(&self, other: &&'b [E]) -> bool {
        self@ == other@
    }
}

impl<'a, E: Copy + PartialEq> PartialEq<[E]> for Cow<'a, [E]> {
    fn eq(&self, other: &[E]) -> (r: bool) {
        self.inner().same_data(other)
    }
}

impl<'a, E: Copy + PartialEq> vstd::std_specs::cmp::PartialEqSpecImpl<[E]> for Cow<'a, [E]> {
    open spec fn obeys_eq_spec() -> bool {
        <[E] as BeefEq>::obeys_data_eq()
    }

    open spec fn eq_spec(&self, other: &[E]) -> bool {
        self@ == other@
    }
}

impl<'a, E: Copy + PartialEq> PartialEq<Vec<E>> for Cow<'a, [E]> {
    fn eq(&self, other: &Vec<E>) -> (r: bool) {
        self.inner().same_data(other.as_slice())
    }
}

impl<'a, E: Copy + PartialEq> vstd::std_specs::cmp::PartialEqSpecImpl<Vec<E>> for Cow<'a, [E]> {
    open spec fn obeys_eq_spec() -> bool {
        <[E] as BeefEq>::obeys_data_eq()
    }

    open spec fn eq_spec(&self, other: &Vec<E>) -> bool {
        self@ == other@
    }
}

/// Relies on `Hash::hash` of the borrowed form: it feeds `state` what hashing
/// `data` itself feeds it.
#[verifier::external_body]
fn hash_data<T: Hash + ?Sized, H: Hasher>(data: &T, state: &mut H) {
    data.hash(state)
}

impl<'a, T: Beef + Hash + ?Sized + 'a> Hash for Cow<'a, T> {
    /// Hashes the data alone, so a container hashes as the data it shows,
    /// whether it borrows or owns it.
    fn hash<H: Hasher>(&self, state: &mut H) {
        hash_data(self.inner(), state)
    }
}

impl<'a, T: Beef + ?Sized + 'a> From<&'a T> for Cow<'a, T> {
    fn from(val: &'a T) -> (r: Self)
        ensures
            !r.is_owned(),
            r.borrowed_ref() == val,
            r@ == val.data(),
    {
        Cow::borrowed(val)
    }
}

impl<'a, T: Beef + ?Sized + 'a> vstd::std_specs::convert::FromSpecImpl<&'a T> for Cow<'a, T> {
    open spec fn obeys_from_spec() -> bool {
        true
    }

    open spec fn from_spec(v: &'a T) -> Self {
        Cow::spec_borrowed(v)
    }
}

impl<'a> From<String> for Cow<'a, str> {
    fn from(val: String) -> (r: Self)
        ensures
            r.is_owned(),
            r.owned_value() == val,
            r@ == val@,
    {
        Cow::owned(val)
    }
}

impl<'a> vstd::std_specs::convert::FromSpecImpl<String> for Cow<'a, str> {
    open spec fn obeys_from_spec() -> bool {
        true
    }

    open spec fn from_spec(v: String) -> Self {
        Cow::spec_owned(v)
    }
}

impl<'a, E: Copy> From<Vec<E>> for Cow<'a, [E]> {
    fn from(val: Vec<E>) -> (r: Self)
        ensures
            r.is_owned(),
            r.owned_value() == val,
            r@ == val@,
    {
        Cow::owned(val)
    }
}

impl<'a, E: Copy> vstd::std_specs::convert::FromSpecImpl<Vec<E>> for Cow<'a, [E]> {
    open spec fn obeys_from_spec() -> bool {
        true
    }

    open spec fn from_spec(v: Vec<E>) -> Self {
        Cow::spec_owned(v)
    }
}

impl<'a> From<std::borrow::Cow<'a, str>> for Cow<'a, str> {
    /// Keeps the representation: a borrow stays a borrow, an owned string
    /// is taken over without copying.
    fn from(val: std::borrow::Cow<'a, str>) -> (r: Self)
        ensures
            val matches std::borrow::Cow::Borrowed(b) ==> !r.is_owned() && r.borrowed_ref() == b,
            val matches std::borrow::Cow::Owned(o) ==> r.is_owned() && r.owned_value() == o,
            r@ == val@,
    {
        match val {
            std::borrow::Cow::Borrowed(b) => Cow::borrowed(b),
            std::borrow::Cow::Owned(o) => Cow::owned(o),
        }
    }
}

impl<'a> vstd::std_specs::convert::FromSpecImpl<std::borrow::Cow<'a, str>> for Cow<'a, str> {
    open spec fn obeys_from_spec() -> bool {
        true
    }

    open spec fn from_spec(v: std::borrow::Cow<'a, str>) -> Self {
        match v {
            std::borrow::Cow::Borrowed(b) => Cow::spec_borrowed(b),
            std::borrow::Cow::Owned(o) => Cow::spec_owned(o),
        }
    }
}

impl<'a, E: Copy> From<std::borrow::Cow<'a, [E]>> for Cow<'a, [E]> {
    /// Keeps the representation: a borrow stays a borrow, an owned vector is
    /// taken over without copying.
    fn from(val: std::borrow::Cow<'a, [E]>) -> (r: Self)
        ensures
            val matches std::borrow::Cow::Borrowed(b) ==> !r.is_owned() && r.borrowed_ref() == b
                && r@ == b@,
            val matches std::borrow::Cow::Owned(o) ==> r.is_owned() && r.owned_value() == o
                && r@ == o@,
    {
        match val {
            std::borrow::Cow::Borrowed(b) => Cow::borrowed(b),
            std::borrow::Cow::Owned(o) => Cow::owned(o),
        }
    }
}

impl<'a, E: Copy> vstd::std_specs::convert::FromSpecImpl<std::borrow::Cow<'a, [E]>> for Cow<'a, [E]> {
    open spec fn obeys_from_spec() -> bool {
        true
    }

    open spec fn from_spec(v: std::borrow::Cow<'a, [E]>) -> Self {
        match v {
            std::borrow::Cow::Borrowed(b) => Cow::spec_borrowed(b),
            std::borrow::Cow::Owned(o) => Cow::spec_owned(o),
        }
    }
}

impl<'a> From<Cow<'a, str>> for std::borrow::Cow<'a, str> {
    /// Keeps the representation: an owning container hands over its string,
    /// a borrowing one its reference.
    fn from(val: Cow<'a, str>) -> (r: Self)
        ensures
            val.is_owned() ==> r == std::borrow::Cow::<'a, str>::Owned(val.owned_value()),
            !val.is_owned() ==> r == std::borrow::Cow::<'a, str>::Borrowed(val.borrowed_ref()),
            r@ == val@,
    {
        match val.repr {
            Repr::Borrowed(b) => std::borrow::Cow::Borrowed(b),
            Repr::Owned(o) => std::borrow::Cow::Owned(o),
        }
    }
}

impl<'a> vstd::std_specs::convert::FromSpecImpl<Cow<'a, str>> for std::borrow::Cow<'a, str> {
    open spec fn obeys_from_spec() -> bool {
        true
    }

    open spec fn from_spec(v: Cow<'a, str>) -> Self {
        if v.is_owned() {
            std::borrow::Cow::Owned(v.owned_value())
        } else {
            std::borrow::Cow::Borrowed(v.borrowed_ref())
        }
    }
}

impl<'a, E: Copy> From<Cow<'a, [E]>> for std::borrow::Cow<'a, [E]> {
    /// Keeps the representation: an owning container hands over its vector,
    /// a borrowing one its reference.
    fn from(val: Cow<'a, [E]>) -> (r: Self)
        ensures
            val.is_owned() ==> r == std::borrow::Cow::<'a, [E]>::Owned(val.owned_value()),
            !val.is_owned() ==> r == std::borrow::Cow::<'a, [E]>::Borrowed(val.borrowed_ref()),
    {
        match val.repr {
            Repr::Borrowed(b) => std::borrow::Cow::Borrowed(b),
            Repr::Owned(o) => std::borrow::Cow::Owned(o),
        }
    }
}

impl<'a, E: Copy> vstd::std_specs::convert::FromSpecImpl<Cow<'a, [E]>> for std::borrow::Cow<'a, [E]> {
    open spec fn obeys_from_spec() -> bool {
        true
    }

    open spec fn from_spec(v: Cow<'a, [E]>) -> Self {
        if v.is_owned() {
            std::borrow::Cow::Owned(v.owned_value())
        } else {
            std::borrow::Cow::Borrowed(v.borrowed_ref())
        }
    }
}

} // verus!
