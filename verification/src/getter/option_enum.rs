//! Contains the enums for the list of options [`MutableOptionList`] and [`ImmutableOptionList`]
//! and the trait [`OptionList`]

use vstd::prelude::*;
use vstd::string::*;

verus! {

/// Trait for common code for listing option:
/// [`MutableOptionList`] and [`ImmutableOptionList`].
pub trait OptionList: Sized + Copy {
    /// The name of the option as the messages show it.
    spec fn label(self) -> Seq<char>;

    /// The name of the option as the messages show it.
    fn name(&self) -> (r: String)
        ensures
            r@ == self.label(),
    ;

    /// Whether two options are the same one.
    fn same(&self, other: &Self) -> (r: bool)
        ensures
            r == (*self == *other),
    ;
}

/// List option for the mutable getter
#[derive(Debug, Clone, Copy, PartialEq, Eq, Structural, Hash, PartialOrd, Ord)]
pub enum MutableOptionList {
    /// Visibility
    Visibility,
    /// name
    IdentOption,
}

impl OptionList for MutableOptionList {
    open spec fn label(self) -> Seq<char> {
        match self {
            MutableOptionList::Visibility => "visibility"@,
            MutableOptionList::IdentOption => "name"@,
        }
    }

    fn name(&self) -> (r: String) {
        match self {
            Self::Visibility => String::from_str("visibility"),
            Self::IdentOption => String::from_str("name"),
        }
    }

    fn same(&self, other: &Self) -> (r: bool) {
        *self == *other
    }
}

/// List option for the immutable getter
#[derive(Debug, Clone, Copy, PartialEq, Eq, Structural, Hash, PartialOrd, Ord)]
pub enum ImmutableOptionList {
    /// Common option with mut getter:
    /// - name
    /// - visibility
    MutableOption(MutableOptionList),
    /// if the function is constant or not
    ConstTy,
    /// if the getter is by ref, value or clone
    GetterTy,
    /// if the self value is by ref or moved
    SelfTy,
}

impl OptionList for ImmutableOptionList {
    open spec fn label(self) -> Seq<char> {
        match self {
            ImmutableOptionList::MutableOption(option) => option.label(),
            ImmutableOptionList::ConstTy => "const"@,
            ImmutableOptionList::GetterTy => "getter type"@,
            ImmutableOptionList::SelfTy => "self type"@,
        }
    }

    fn name(&self) -> (r: String) {
        match self {
            Self::MutableOption(option) => option.name(),
            Self::ConstTy => String::from_str("const"),
            Self::GetterTy => String::from_str("getter type"),
            Self::SelfTy => String::from_str("self type"),
        }
    }

    fn same(&self, other: &Self) -> (r: bool) {
        *self == *other
    }
}

impl From<MutableOptionList> for ImmutableOptionList {
    fn from(value: MutableOptionList) -> (r: Self) {
        Self::MutableOption(value)
    }
}

impl vstd::std_specs::convert::FromSpecImpl<MutableOptionList> for ImmutableOptionList {
    open spec fn obeys_from_spec() -> bool {
        true
    }

    open spec fn from_spec(value: MutableOptionList) -> Self {
        ImmutableOptionList::MutableOption(value)
    }
}

} // verus!
