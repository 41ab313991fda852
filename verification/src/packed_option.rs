//! Optional values that take no more room than the value itself.
//!
//! `Option<T>` needs a discriminant next to the `T`. Where one value of `T`
//! is never used for anything else, that value can stand for "none" instead,
//! and the optional value is exactly as large as a `T`.

use vstd::prelude::*;

verus! {

/// A type with one value set aside to mean "no value".
pub trait ReservedValue: Sized {
    /// The value that is set aside.
    spec fn spec_reserved_value() -> Self;

    /// The value that is set aside.
    fn reserved_value() -> (r: Self)
        ensures
            r == Self::spec_reserved_value(),
    ;

    /// Whether this is the value that is set aside.
    fn is_reserved_value(&self) -> (b: bool)
        ensures
            b == (*self == Self::spec_reserved_value()),
    ;
}

/// An `Option<T>` stored in a single `T`, with the reserved value of `T`
/// standing for `None`.
#[derive(Clone, Copy, PartialEq, Eq, Hash, Debug)]
pub struct PackedOption<T: ReservedValue>(T);

impl<T: ReservedValue> View for PackedOption<T> {
    type V = Option<T>;

    closed spec fn view(&self) -> Option<T> {
        if self.0 == T::spec_reserved_value() {
            None
        } else {
            Some(self.0)
        }
    }
}

impl<T: ReservedValue> PackedOption<T> {
    /// The packed form of `opt`. `Some` of the reserved value cannot be told
    /// from `None` once packed, and packs to the same thing.
    pub closed spec fn pack(opt: Option<T>) -> Self {
        match opt {
            None => PackedOption(T::spec_reserved_value()),
            Some(t) => PackedOption(t),
        }
    }

    /// What a packed option holds is what was packed, but that the reserved
    /// value reads back as `None`.
    pub proof fn lemma_pack_view(opt: Option<T>)
        ensures
            Self::pack(opt)@ == if opt == Some(T::spec_reserved_value()) {
                None
            } else {
                opt
            },
    {
    }

    /// A packed option is the packed form of what it holds.
    pub proof fn lemma_view_pack(self)
        ensures
            Self::pack(self@) == self,
            self@ != Some(T::spec_reserved_value()),
    {
    }

    /// Packed options that hold the same are the same.
    pub proof fn lemma_view_determines(self, other: Self)
        requires
            self@ == other@,
        ensures
            self == other,
    {
    }

    /// Whether nothing is held.
    pub fn is_none(&self) -> (b: bool)
        ensures
            b == (self@ is None),
    {
        self.0.is_reserved_value()
    }

    /// Whether a value is held.
    pub fn is_some(&self) -> (b: bool)
        ensures
            b == (self@ is Some),
    {
        !self.0.is_reserved_value()
    }

    /// The ordinary `Option` with the same content.
    pub fn expand(self) -> (opt: Option<T>)
        ensures
            opt == self@,
    {
        if self.0.is_reserved_value() {
            None
        } else {
            Some(self.0)
        }
    }

    /// Takes the content out and leaves `None` behind.
    pub fn take(&mut self) -> (opt: Option<T>)
        ensures
            opt == old(self)@,
            final(self)@ is None,
    {
        let mut held = T::reserved_value();
        core::mem::swap(&mut self.0, &mut held);
        if held.is_reserved_value() {
            None
        } else {
            Some(held)
        }
    }
}

impl<T: ReservedValue> Default for PackedOption<T> {
    /// The packed `None`.
    fn default() -> (p: Self)
        ensures
            p@ is None,
            p == Self::pack(None),
    {
        PackedOption(T::reserved_value())
    }
}

impl<T: ReservedValue> From<T> for PackedOption<T> {
    /// Packs `Some(t)`. The reserved value packs to `None`.
    fn from(t: T) -> (p: Self) {
        PackedOption(t)
    }
}

impl<T: ReservedValue> vstd::std_specs::convert::FromSpecImpl<T> for PackedOption<T> {
    open spec fn obeys_from_spec() -> bool {
        true
    }

    open spec fn from_spec(t: T) -> Self {
        Self::pack(Some(t))
    }
}

impl<T: ReservedValue> From<Option<T>> for PackedOption<T> {
    /// Packs `opt`.
    fn from(opt: Option<T>) -> (p: Self) {
        match opt {
            None => PackedOption(T::reserved_value()),
            Some(t) => PackedOption(t),
        }
    }
}

impl<T: ReservedValue> vstd::std_specs::convert::FromSpecImpl<Option<T>> for PackedOption<T> {
    open spec fn obeys_from_spec() -> bool {
        true
    }

    open spec fn from_spec(opt: Option<T>) -> Self {
        Self::pack(opt)
    }
}

} // verus!
