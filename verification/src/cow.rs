//! A copy-on-write container: a value that is either borrowed from its
//! surroundings or owned outright, and that is copied only when it must be.

use vstd::prelude::*;

verus! {

/// Data that can be held by shared reference and copied into an owned form.
///
/// Both forms have the same mathematical view, so a reader never has to know
/// which one it is looking at.
pub trait Promote: View {
    /// The owned form: mutable, and independent of the data it was copied from.
    type Owned: View<V = Self::V>;

    /// Copies the data behind the reference into a fresh owned value.
    fn promote(&self) -> (owned: Self::Owned)
        ensures
            owned@ == self@,
    ;

    /// Reads an owned value through the shared form.
    fn borrow_owned(owned: &Self::Owned) -> (shared: &Self)
        ensures
            shared@ == owned@,
    ;
}

impl Promote for str {
    type Owned = String;

    fn promote(&self) -> (owned: String) {
        self.to_owned()
    }

    fn borrow_owned(owned: &String) -> (shared: &str) {
        owned.as_str()
    }
}

impl<T: Copy> Promote for [T] {
    type Owned = Vec<T>;

    fn promote(&self) -> (owned: Vec<T>) {
        vstd::slice::slice_to_vec(self)
    }

    fn borrow_owned(owned: &Vec<T>) -> (shared: &[T]) {
        owned.as_slice()
    }
}

/// A value that is either borrowed or owned.
///
/// A `CowValue` starts in either variant. The only transition is promotion,
/// from `Borrowed` to `Owned`; nothing leads back.
pub enum CowValue<'a, B: ?Sized + Promote + 'a> {
    /// A reference to data that lives elsewhere and outlives this value.
    Borrowed(&'a B),
    /// A private copy.
    Owned(B::Owned),
}

impl<'a, B: ?Sized + Promote + 'a> View for CowValue<'a, B> {
    type V = B::V;

    /// The content, whichever variant holds it.
    open spec fn view(&self) -> B::V {
        match self {
            CowValue::Borrowed(source) => source@,
            CowValue::Owned(value) => value@,
        }
    }
}

impl<'a, B: ?Sized + Promote + 'a> CowValue<'a, B> {
    /// Whether `after` is what promotion makes of `self`: an owned value with
    /// the content of `self`, and `self` itself where that is owned already.
    pub open spec fn promotes_to(self, after: Self) -> bool {
        &&& after is Owned
        &&& after@ == self@
        &&& self is Owned ==> after == self
    }

    /// Holds `source` by reference. Nothing is copied.
    pub fn borrowed(source: &'a B) -> (cow: Self)
        ensures
            cow == CowValue::<'a, B>::Borrowed(source),
    {
        CowValue::Borrowed(source)
    }

    /// Takes ownership of `value`. Nothing is copied.
    pub fn owned(value: B::Owned) -> (cow: Self)
        ensures
            cow == CowValue::<'a, B>::Owned(value),
    {
        CowValue::Owned(value)
    }

    /// Reads the content. A borrowed value hands out the very reference it
    /// holds.
    pub fn as_ref(&self) -> (shared: &B)
        ensures
            shared@ == self@,
            self matches CowValue::Borrowed(source) ==> shared == source,
    {
        match self {
            CowValue::Borrowed(source) => source,
            CowValue::Owned(value) => B::borrow_owned(value),
        }
    }

    /// Promotes the value in place and lends out the owned data for writing.
    ///
    /// A borrowed value is copied first; an owned one is lent out as it is.
    /// Whatever the caller writes through the reference is what the value
    /// holds afterwards.
    pub fn to_mut(&mut self) -> (value: &mut B::Owned)
        ensures
            (*old(self)).promotes_to(CowValue::Owned(*value)),
            *final(self) == CowValue::<'a, B>::Owned(*final(value)),
    {
        if let CowValue::Borrowed(source) = self {
            let copy = source.promote();
            *self = CowValue::Owned(copy);
        }
        match self {
            CowValue::Owned(value) => value,
            CowValue::Borrowed(_) => vstd::pervasive::unreached(),
        }
    }

    /// Consumes the value and returns its owned data: a copy of what was
    /// borrowed, or the data that was owned.
    pub fn into_owned(self) -> (value: B::Owned)
        ensures
            self.promotes_to(CowValue::Owned(value)),
    {
        match self {
            CowValue::Borrowed(source) => source.promote(),
            CowValue::Owned(value) => value,
        }
    }

    /// Promotion is idempotent: once a value has been promoted, promoting it
    /// again leaves it exactly as it is, so at most the first of two
    /// promotions in a row copies anything.
    pub proof fn lemma_promotion_is_idempotent(self, once: Self, twice: Self)
        requires
            self.promotes_to(once),
            once.promotes_to(twice),
        ensures
            once is Owned,
            twice == once,
            twice@ == self@,
    {
    }

    /// Promotion never leads back: whatever is promoted is owned afterwards,
    /// and an owned value is its own promotion.
    pub proof fn lemma_promotion_is_one_way(self, after: Self)
        requires
            self.promotes_to(after),
        ensures
            after is Owned,
            after.promotes_to(after),
            self is Owned ==> after == self,
    {
    }
}

} // verus!
