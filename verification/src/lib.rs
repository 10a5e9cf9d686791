//! Lookup of C integer and pointer byte widths under the named data models.
//!
//! A data model is a platform convention fixing the byte sizes of the C
//! types `char`, `short`, `int`, `long`, `long long` and of pointers.
//! This crate enumerates the historical and contemporary models, answers
//! size queries against a fixed table, and guesses the model back from
//! the observed sizes of `int`, `long` and pointer.

use vstd::prelude::*;

verus! {

/// The named data models: platform conventions for the byte widths of the
/// C integer types and of pointers. `Unknown` is the sentinel for a model
/// that could not be determined; it maps every type to size 0.
#[derive(Clone, Copy, PartialEq, Eq, Structural, Debug)]
pub enum DataModel {
    /// 16-bit int and pointer; no short, long or long long (16-bit PDP-11).
    IP16,
    /// 16-bit int and pointer, 32-bit long; no long long (32-bit PDP-11).
    IP16L32,
    /// 16-bit int, 32-bit long and pointer (m68k Mac, Win16).
    LP32,
    /// 32-bit int, long and pointer (Win32, older Unix).
    ILP32,
    /// 32-bit int and long, 64-bit pointer (Win64).
    LLP64,
    /// 32-bit int, 64-bit long and pointer (modern Unix and Linux).
    LP64,
    /// 64-bit int, long and pointer (SPARC64).
    ILP64,
    /// 64-bit short, int, long and pointer (Cray UNICOS).
    SILP64,
    /// Sentinel for an undetermined model; every size query answers 0.
    Unknown,
}

/// The six queryable kinds of C type. Each selects one column of the
/// size table.
#[derive(Clone, Copy, PartialEq, Eq, Structural, Debug)]
pub enum TypeCategory {
    Char,
    Short,
    Int,
    Long,
    LongLong,
    Pointer,
}

/// The size table: the byte width of each type category under each data
/// model. A 0 means the model leaves the type unspecified (or, under
/// `Unknown`, that no size is determined at all).
pub open spec fn size_of_spec(m: DataModel, c: TypeCategory) -> nat {
    match c {
        TypeCategory::Char => match m {
            DataModel::Unknown => 0,
            _ => 1,
        },
        TypeCategory::Short => match m {
            DataModel::IP16 | DataModel::Unknown => 0,
            DataModel::SILP64 => 8,
            _ => 2,
        },
        TypeCategory::Int => match m {
            DataModel::IP16 | DataModel::IP16L32 | DataModel::LP32 => 2,
            DataModel::ILP32 | DataModel::LLP64 | DataModel::LP64 => 4,
            DataModel::ILP64 | DataModel::SILP64 => 8,
            DataModel::Unknown => 0,
        },
        TypeCategory::Long => match m {
            DataModel::IP16 | DataModel::Unknown => 0,
            DataModel::IP16L32 | DataModel::LP32 | DataModel::ILP32 | DataModel::LLP64 => 4,
            _ => 8,
        },
        TypeCategory::LongLong => match m {
            DataModel::IP16 | DataModel::IP16L32 | DataModel::Unknown => 0,
            _ => 8,
        },
        TypeCategory::Pointer => match m {
            DataModel::IP16 | DataModel::IP16L32 => 2,
            DataModel::LP32 | DataModel::ILP32 => 4,
            DataModel::Unknown => 0,
            _ => 8,
        },
    }
}

/// The reverse lookup: the unique model whose canonical (int, long,
/// pointer) byte widths match the given triple, or `Unknown` when none
/// does. `SILP64` shares `ILP64`'s triple and is never returned.
pub open spec fn new_spec(int_size: usize, long_size: usize, pointer_size: usize) -> DataModel {
    match (int_size, long_size, pointer_size) {
        (2usize, 0usize, 2usize) => DataModel::IP16,
        (2usize, 4usize, 2usize) => DataModel::IP16L32,
        (2usize, 4usize, 4usize) => DataModel::LP32,
        (4usize, 4usize, 4usize) => DataModel::ILP32,
        (4usize, 4usize, 8usize) => DataModel::LLP64,
        (4usize, 8usize, 8usize) => DataModel::LP64,
        (8usize, 8usize, 8usize) => DataModel::ILP64,
        _ => DataModel::Unknown,
    }
}

impl DataModel {
    /// Guesses the data model from the observed byte sizes of `int`,
    /// `long` and pointer. Returns `Unknown` when no model's canonical
    /// triple matches exactly.
    pub fn new(int_size: usize, long_size: usize, pointer_size: usize) -> (m: DataModel)
        ensures
            m == new_spec(int_size, long_size, pointer_size),
    {
        match (int_size, long_size, pointer_size) {
            (2, 0, 2) => DataModel::IP16,
            (2, 4, 2) => DataModel::IP16L32,
            (2, 4, 4) => DataModel::LP32,
            (4, 4, 4) => DataModel::ILP32,
            (4, 4, 8) => DataModel::LLP64,
            (4, 8, 8) => DataModel::LP64,
            (8, 8, 8) => DataModel::ILP64,
            _ => DataModel::Unknown,
        }
    }

    /// Reports the byte size of the type category selected by the marker
    /// type `T` under this model, as the size table defines it.
    pub fn size_of<T: CType>(self) -> (s: usize)
        ensures
            s == size_of_spec(self, T::spec_category()),
    {
        self.size_of_category(T::category())
    }

    /// Reports the byte size of the given type category under this model,
    /// as the size table defines it.
    pub fn size_of_category(self, c: TypeCategory) -> (s: usize)
        ensures
            s == size_of_spec(self, c),
    {
        match c {
            TypeCategory::Char => match self {
                DataModel::Unknown => 0,
                _ => 1,
            },
            TypeCategory::Short => match self {
                DataModel::IP16 | DataModel::Unknown => 0,
                DataModel::SILP64 => 8,
                _ => 2,
            },
            TypeCategory::Int => match self {
                DataModel::IP16 | DataModel::IP16L32 | DataModel::LP32 => 2,
                DataModel::ILP32 | DataModel::LLP64 | DataModel::LP64 => 4,
                DataModel::ILP64 | DataModel::SILP64 => 8,
                DataModel::Unknown => 0,
            },
            TypeCategory::Long => match self {
                DataModel::IP16 | DataModel::Unknown => 0,
                DataModel::IP16L32 | DataModel::LP32 | DataModel::ILP32 | DataModel::LLP64 => 4,
                _ => 8,
            },
            TypeCategory::LongLong => match self {
                DataModel::IP16 | DataModel::IP16L32 | DataModel::Unknown => 0,
                _ => 8,
            },
            TypeCategory::Pointer => match self {
                DataModel::IP16 | DataModel::IP16L32 => 2,
                DataModel::LP32 | DataModel::ILP32 => 4,
                DataModel::Unknown => 0,
                _ => 8,
            },
        }
    }
}

/// Within any model that defines all five integer types (their sizes are
/// all non-zero), the sizes are non-decreasing along the conventional
/// promotion order char, short, int, long, long long.
pub proof fn lemma_sizes_non_decreasing(m: DataModel)
    ensures
        (size_of_spec(m, TypeCategory::Char) != 0
            && size_of_spec(m, TypeCategory::Short) != 0
            && size_of_spec(m, TypeCategory::Int) != 0
            && size_of_spec(m, TypeCategory::Long) != 0
            && size_of_spec(m, TypeCategory::LongLong) != 0) ==> {
            &&& size_of_spec(m, TypeCategory::Char) <= size_of_spec(m, TypeCategory::Short)
            &&& size_of_spec(m, TypeCategory::Short) <= size_of_spec(m, TypeCategory::Int)
            &&& size_of_spec(m, TypeCategory::Int) <= size_of_spec(m, TypeCategory::Long)
            &&& size_of_spec(m, TypeCategory::Long) <= size_of_spec(m, TypeCategory::LongLong)
        },
{
}

/// The reverse lookup never answers `SILP64`: its (int, long, pointer)
/// triple is the same as `ILP64`'s, and only the short width, which the
/// lookup does not take, tells them apart.
pub proof fn lemma_new_never_silp64(int_size: usize, long_size: usize, pointer_size: usize)
    ensures
        new_spec(int_size, long_size, pointer_size) != DataModel::SILP64,
{
}

/// A marker type standing for one of the six queryable C type kinds.
/// Each implementor names its column of the size table.
pub trait CType {
    /// The type category this marker stands for.
    spec fn spec_category() -> TypeCategory;

    /// Returns the type category this marker stands for.
    fn category() -> (c: TypeCategory)
        ensures
            c == Self::spec_category(),
    ;
}

/// Marker for the C `char` type: the smallest addressable unit.
pub enum Char {
    Marker,
}

impl CType for Char {
    open spec fn spec_category() -> TypeCategory {
        TypeCategory::Char
    }

    fn category() -> (c: TypeCategory) {
        TypeCategory::Char
    }
}

/// Marker for the C `short` type.
pub enum Short {
    Marker,
}

impl CType for Short {
    open spec fn spec_category() -> TypeCategory {
        TypeCategory::Short
    }

    fn category() -> (c: TypeCategory) {
        TypeCategory::Short
    }
}

/// Marker for the C `int` type.
pub enum Int {
    Marker,
}

impl CType for Int {
    open spec fn spec_category() -> TypeCategory {
        TypeCategory::Int
    }

    fn category() -> (c: TypeCategory) {
        TypeCategory::Int
    }
}

/// Marker for the C `long` type.
pub enum Long {
    Marker,
}

impl CType for Long {
    open spec fn spec_category() -> TypeCategory {
        TypeCategory::Long
    }

    fn category() -> (c: TypeCategory) {
        TypeCategory::Long
    }
}

/// Marker for the C `long long` type.
pub enum LongLong {
    Marker,
}

impl CType for LongLong {
    open spec fn spec_category() -> TypeCategory {
        TypeCategory::LongLong
    }

    fn category() -> (c: TypeCategory) {
        TypeCategory::LongLong
    }
}

/// Marker for pointer types (the C `size_t` width).
pub enum Pointer {
    Marker,
}

impl CType for Pointer {
    open spec fn spec_category() -> TypeCategory {
        TypeCategory::Pointer
    }

    fn category() -> (c: TypeCategory) {
        TypeCategory::Pointer
    }
}

} // verus!

