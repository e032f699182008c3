//! Element families: what it means to own data of a given borrowed shape.

use vstd::laws_eq::obeys_concrete_eq;
use vstd::prelude::*;
use vstd::utf8::encode_utf8;

verus! {

/// A family of data that can be borrowed as `Self` and owned as `Self::Owned`.
///
/// The data of either form is a sequence of `Self::Elem`; every operation
/// below is stated over that sequence.
pub trait Beef {
    /// The owned form of the data.
    type Owned;

    /// One element of the data.
    type Elem;

    /// The data that a borrowed value shows.
    spec fn data(&self) -> Seq<Self::Elem>;

    /// The data that an owned value holds.
    spec fn owned_data(owned: &Self::Owned) -> Seq<Self::Elem>;

    /// How many units of storage (bytes of text, elements of an array) the
    /// data of an owned value fills.
    spec fn owned_len(owned: &Self::Owned) -> nat;

    /// The reserved capacity of an owned value, in units of storage, or
    /// `None` where it reserves nothing. A capacity is never below the length
    /// of the data, so data that is not empty always reports one.
    fn capacity(owned: &Self::Owned) -> (r: Option<usize>)
        ensures
            r matches Some(c) ==> c > 0 && c >= Self::owned_len(owned) && c
                >= Self::owned_data(owned).len(),
            Self::owned_len(owned) > 0 || Self::owned_data(owned).len() > 0 ==> r is Some,
    ;

    /// Reads an owned value through the borrowed form, without copying.
    fn borrow_owned(owned: &Self::Owned) -> (r: &Self)
        ensures
            r.data() == Self::owned_data(owned),
    ;

    /// Copies borrowed data into a fresh owned value.
    fn to_owned_copy(&self) -> (r: Self::Owned)
        ensures
            Self::owned_data(&r) == self.data(),
    ;
}

/// A family whose data can be compared for equality.
pub trait BeefEq: Beef {
    /// Whether comparing data decides equality of the data sequences.
    spec fn obeys_data_eq() -> bool;

    /// Compares the data of two borrowed values.
    fn same_data(&self, other: &Self) -> (r: bool)
        ensures
            Self::obeys_data_eq() ==> r == (self.data() == other.data()),
    ;
}

/// Relies on `String::capacity`: the number of bytes the string can hold
/// without reallocating, never below its length in bytes (the UTF-8 encoding
/// of its characters), which in turn is never below its number of characters.
#[verifier::external_body]
fn string_capacity(s: &String) -> (r: usize)
    ensures
        r >= encode_utf8(s@).len(),
        r >= s@.len(),
{
    s.capacity()
}

/// Relies on `Vec::capacity`: the number of elements the vector can hold
/// without reallocating, never below its length.
#[verifier::external_body]
fn vec_capacity<E>(v: &Vec<E>) -> (r: usize)
    ensures
        r >= v@.len(),
{
    v.capacity()
}

/// The capacity a family reports for `reserved` units of storage: `None`
/// where nothing is reserved, else that amount.
pub fn reported_capacity(reserved: usize) -> (r: Option<usize>)
    ensures
        r == (if reserved == 0 {
            None
        } else {
            Some(reserved)
        }),
{
    if reserved == 0 {
        None
    } else {
        Some(reserved)
    }
}

/// Text: borrowed as `str`, owned as `String`, seen as characters.
impl Beef for str {
    type Owned = String;

    type Elem = char;

    open spec fn data(&self) -> Seq<char> {
        self@
    }

    open spec fn owned_data(owned: &String) -> Seq<char> {
        owned@
    }

    open spec fn owned_len(owned: &String) -> nat {
        encode_utf8(owned@).len()
    }

    fn capacity(owned: &String) -> (r: Option<usize>) {
        reported_capacity(string_capacity(owned))
    }

    fn borrow_owned(owned: &String) -> (r: &str) {
        owned.as_str()
    }

    fn to_owned_copy(&self) -> (r: String) {
        self.to_owned()
    }
}

/// Arrays of copyable elements: borrowed as a slice, owned as a `Vec`.
impl<E: Copy> Beef for [E] {
    type Owned = Vec<E>;

    type Elem = E;

    open spec fn data(&self) -> Seq<E> {
        self@
    }

    open spec fn owned_data(owned: &Vec<E>) -> Seq<E> {
        owned@
    }

    open spec fn owned_len(owned: &Vec<E>) -> nat {
        owned@.len()
    }

    fn capacity(owned: &Vec<E>) -> (r: Option<usize>) {
        reported_capacity(vec_capacity(owned))
    }

    fn borrow_owned(owned: &Vec<E>) -> (r: &[E]) {
        owned.as_slice()
    }

    fn to_owned_copy(&self) -> (r: Vec<E>) {
        let mut v: Vec<E> = Vec::with_capacity(self.len());
        let mut i: usize = 0;
        while i < self.len()
            invariant
                i <= self@.len(),
                v@ == self@.subrange(0, i as int),
            decreases self@.len() - i,
        {
            v.push(self[i]);
            i = i + 1;
        }
        proof {
            assert(self@.subrange(0, self@.len() as int) =~= self@);
        }
        v
    }
}

impl BeefEq for str {
    open spec fn obeys_data_eq() -> bool {
        true
    }

    fn same_data(&self, other: &str) -> (r: bool) {
        broadcast use vstd::laws_eq::group_laws_eq;

        let r = self.as_bytes().same_data(other.as_bytes());
        proof {
            vstd::utf8::encode_utf8_decode_utf8(self@);
            vstd::utf8::encode_utf8_decode_utf8(other@);
        }
        r
    }
}

impl<E: Copy + PartialEq> BeefEq for [E] {
    open spec fn obeys_data_eq() -> bool {
        obeys_concrete_eq::<E>()
    }

    fn same_data(&self, other: &[E]) -> (r: bool) {
        proof {
            reveal(obeys_concrete_eq);
        }
        if self.len() != other.len() {
            return false;
        }
        let mut i: usize = 0;
        while i < self.len()
            invariant
                i <= self@.len(),
                self@.len() == other@.len(),
                obeys_concrete_eq::<E>() ==> forall|j: int| 0 <= j < i ==> self@[j] == other@[j],
            decreases self@.len() - i,
        {
            proof {
                reveal(obeys_concrete_eq);
            }
            if !(self[i] == other[i]) {
                proof {
                    if obeys_concrete_eq::<E>() {
                        assert(self@[i as int] != other@[i as int]);
                    }
                }
                return false;
            }
            i = i + 1;
        }
        proof {
            if obeys_concrete_eq::<E>() {
                assert(self@ =~= other@);
            }
        }
        true
    }
}

} // verus!
