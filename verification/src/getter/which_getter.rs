//! Contains [`WhichGetter`]

use vstd::prelude::*;

use super::error::OptionValidationError;
use super::field::{FieldInformation, FieldInformationView};
use super::option::{
    AccessorCode, AccessorCodeView, ImmutableGetterOption, ImmutableGetterOptionView,
    MutableGetterOption, MutableGetterOptionView,
};

verus! {

/// Determine which getter type is being implemented.
#[derive(Debug, PartialEq, Eq)]
pub enum WhichGetter {
    /// Immutable getter.
    Immutable(ImmutableGetterOption),
    /// Mutable getter.
    Mutable(MutableGetterOption),
    /// Both the mutable getter and immutable getter.
    Both {
        /// immut getter
        immutable: ImmutableGetterOption,
        /// mut getter
        mutable: MutableGetterOption,
    },
}

/// What a [`WhichGetter`] holds.
pub enum WhichGetterView {
    /// Immutable getter.
    Immutable(ImmutableGetterOptionView),
    /// Mutable getter.
    Mutable(MutableGetterOptionView),
    /// Both the mutable getter and immutable getter.
    Both {
        /// immut getter
        immutable: ImmutableGetterOptionView,
        /// mut getter
        mutable: MutableGetterOptionView,
    },
}

impl View for WhichGetter {
    type V = WhichGetterView;

    open spec fn view(&self) -> WhichGetterView {
        match self {
            WhichGetter::Immutable(immutable) => WhichGetterView::Immutable(immutable@),
            WhichGetter::Mutable(mutable) => WhichGetterView::Mutable(mutable@),
            WhichGetter::Both { immutable, mutable } => WhichGetterView::Both {
                immutable: immutable@,
                mutable: mutable@,
            },
        }
    }
}

/// What a sequence of [`AccessorCode`] holds.
pub open spec fn codes_view(codes: Seq<AccessorCode>) -> Seq<AccessorCodeView> {
    codes.map_values(|c: AccessorCode| c@)
}

impl WhichGetterView {
    /// The configuration of the immutable getter, where it is selected.
    pub open spec fn immutable(self) -> Option<ImmutableGetterOptionView> {
        match self {
            WhichGetterView::Immutable(immutable) => Some(immutable),
            WhichGetterView::Mutable(_) => None,
            WhichGetterView::Both { immutable, mutable } => Some(immutable),
        }
    }

    /// The configuration of the mutable getter, where it is selected.
    pub open spec fn mutable(self) -> Option<MutableGetterOptionView> {
        match self {
            WhichGetterView::Immutable(_) => None,
            WhichGetterView::Mutable(mutable) => Some(mutable),
            WhichGetterView::Both { immutable, mutable } => Some(mutable),
        }
    }

    /// The selection of the getters that either half selects, each with the
    /// latter of its two configurations.
    pub open spec fn merge(self, other: WhichGetterView) -> WhichGetterView {
        match (self, other) {
            (WhichGetterView::Mutable(_), WhichGetterView::Mutable(m)) => WhichGetterView::Mutable(
                m,
            ),
            (WhichGetterView::Immutable(i), WhichGetterView::Mutable(m)) => WhichGetterView::Both {
                immutable: i,
                mutable: m,
            },
            (
                WhichGetterView::Both { immutable: i, mutable: _ },
                WhichGetterView::Mutable(m),
            ) => WhichGetterView::Both { immutable: i, mutable: m },
            (WhichGetterView::Mutable(m), WhichGetterView::Immutable(i)) => WhichGetterView::Both {
                immutable: i,
                mutable: m,
            },
            (
                WhichGetterView::Both { immutable: _, mutable: m },
                WhichGetterView::Immutable(i),
            ) => WhichGetterView::Both { immutable: i, mutable: m },
            (
                WhichGetterView::Immutable(_),
                WhichGetterView::Immutable(i),
            ) => WhichGetterView::Immutable(i),
            (_, WhichGetterView::Both { immutable, mutable }) => WhichGetterView::Both {
                immutable,
                mutable,
            },
        }
    }

    /// Whether the configurations are valid.
    pub open spec fn validation(self) -> Result<(), OptionValidationError> {
        match self.immutable() {
            Some(immutable) => immutable.validation(),
            None => Ok(()),
        }
    }

    /// Whether a field gives every selected getter a name.
    pub open spec fn named(self, field: FieldInformationView) -> bool {
        &&& self.immutable() matches Some(immutable) ==> immutable.accessor_name(field) is Some
        &&& self.mutable() matches Some(mutable) ==> mutable.accessor_name(field) is Some
    }

    /// The getters of a field that names each of them: the immutable one
    /// where it is selected, then the mutable one where it is selected.
    pub open spec fn code(self, field: FieldInformationView) -> Seq<AccessorCodeView> {
        match self {
            WhichGetterView::Immutable(immutable) => seq![immutable.code(field)],
            WhichGetterView::Mutable(mutable) => seq![mutable.code(field)],
            WhichGetterView::Both { immutable, mutable } => seq![
                immutable.code(field),
                mutable.code(field),
            ],
        }
    }
}

impl WhichGetter {
    /// Merge two config with other being the one being prioritized
    pub fn add_config(self, other: Self) -> (r: Self)
        ensures
            r@ == self@.merge(other@),
    {
        match (self, other) {
            (Self::Mutable(_), Self::Mutable(m)) => Self::Mutable(m),
            (Self::Immutable(i), Self::Mutable(m)) => Self::Both { immutable: i, mutable: m },
            (Self::Both { immutable: i, mutable: _ }, Self::Mutable(m)) => Self::Both {
                immutable: i,
                mutable: m,
            },
            (Self::Mutable(m), Self::Immutable(i)) => Self::Both { immutable: i, mutable: m },
            (Self::Both { immutable: _, mutable: m }, Self::Immutable(i)) => Self::Both {
                immutable: i,
                mutable: m,
            },
            (Self::Immutable(_), Self::Immutable(i)) => Self::Immutable(i),
            (_, Self::Both { immutable, mutable }) => Self::Both { immutable, mutable },
        }
    }

    /// Verify that the option is valid
    pub fn validate(&self) -> (r: Result<(), OptionValidationError>)
        ensures
            r == self@.validation(),
    {
        match self {
            Self::Immutable(immutable) => immutable.validate(),
            Self::Mutable(mutable) => mutable.validate(),
            Self::Both { immutable, mutable } => {
                match mutable.validate() {
                    Ok(()) => {},
                    Err(error) => {
                        return Err(error);
                    },
                }
                immutable.validate()
            },
        }
    }

    /// The text of each selected getter of a field.
    pub fn to_code(&self, field: &FieldInformation) -> (r: Vec<AccessorCode>)
        requires
            self@.named(field@),
        ensures
            codes_view(r@) == self@.code(field@),
    {
        let mut out: Vec<AccessorCode> = Vec::new();
        match self {
            Self::Immutable(i) => {
                out.push(i.to_code(field));
            },
            Self::Mutable(m) => {
                out.push(m.to_code(field));
            },
            Self::Both { immutable, mutable } => {
                out.push(immutable.to_code(field));
                out.push(mutable.to_code(field));
            },
        }
        assert(codes_view(out@) =~= self@.code(field@));
        out
    }
}

impl Clone for WhichGetter {
    fn clone(&self) -> (r: Self)
        ensures
            r@ == self@,
    {
        match self {
            Self::Immutable(immutable) => Self::Immutable(immutable.clone()),
            Self::Mutable(mutable) => Self::Mutable(mutable.clone()),
            Self::Both { immutable, mutable } => Self::Both {
                immutable: immutable.clone(),
                mutable: mutable.clone(),
            },
        }
    }
}

impl Default for WhichGetter {
    fn default() -> (r: Self)
        ensures
            r@ == WhichGetterView::Immutable(ImmutableGetterOptionView::initial()),
    {
        Self::Immutable(ImmutableGetterOption::default())
    }
}

} // verus!
