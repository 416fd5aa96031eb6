use vstd::prelude::*;

verus! {

/// Numeric type supporting overflow-checked addition.
///
/// Each value stands for an integer, `value()`, and the type holds exactly the
/// integers from `min_value()` to `max_value()`, zero among them.
pub trait CheckedAdd: Sized {
    /// The integer that this value stands for.
    spec fn value(&self) -> int;

    /// The smallest integer the type can hold.
    spec fn min_value() -> int;

    /// The largest integer the type can hold.
    spec fn max_value() -> int;

    /// Zero lies in the range of the type.
    proof fn lemma_zero_in_range()
        ensures
            Self::min_value() <= 0 <= Self::max_value(),
    ;

    /// Every value lies in the range of the type.
    proof fn lemma_value_in_range(&self)
        ensures
            Self::min_value() <= self.value() <= Self::max_value(),
    ;

    /// The additive identity.
    fn zero() -> (r: Self)
        ensures
            r.value() == 0,
    ;

    /// Adds two numbers checking for overflow, returns `None` if overflow
    /// occurred.
    fn checked_add(&self, other: &Self) -> (r: Option<Self>)
        ensures
            match r {
                Some(s) => s.value() == self.value() + other.value(),
                None => !(Self::min_value() <= self.value() + other.value()
                    <= Self::max_value()),
            },
    ;
}

/// Whether the integer `v` can be held by `T`.
pub open spec fn fits<T: CheckedAdd>(v: int) -> bool {
    T::min_value() <= v <= T::max_value()
}

impl CheckedAdd for u8 {
    open spec fn value(&self) -> int {
        *self as int
    }

    open spec fn min_value() -> int {
        u8::MIN as int
    }

    open spec fn max_value() -> int {
        u8::MAX as int
    }

    proof fn lemma_zero_in_range() {
    }

    proof fn lemma_value_in_range(&self) {
    }

    fn zero() -> (r: u8)
        ensures
            r == 0,
    {
        0
    }

    fn checked_add(&self, other: &u8) -> (r: Option<u8>)
        ensures
            r == (if u8::MIN <= *self + *other <= u8::MAX {
                Some((*self + *other) as u8)
            } else {
                None
            }),
    {
        u8::checked_add(*self, *other)
    }
}

impl CheckedAdd for u16 {
    open spec fn value(&self) -> int {
        *self as int
    }

    open spec fn min_value() -> int {
        u16::MIN as int
    }

    open spec fn max_value() -> int {
        u16::MAX as int
    }

    proof fn lemma_zero_in_range() {
    }

    proof fn lemma_value_in_range(&self) {
    }

    fn zero() -> (r: u16)
        ensures
            r == 0,
    {
        0
    }

    fn checked_add(&self, other: &u16) -> (r: Option<u16>)
        ensures
            r == (if u16::MIN <= *self + *other <= u16::MAX {
                Some((*self + *other) as u16)
            } else {
                None
            }),
    {
        u16::checked_add(*self, *other)
    }
}

impl CheckedAdd for u32 {
    open spec fn value(&self) -> int {
        *self as int
    }

    open spec fn min_value() -> int {
        u32::MIN as int
    }

    open spec fn max_value() -> int {
        u32::MAX as int
    }

    proof fn lemma_zero_in_range() {
    }

    proof fn lemma_value_in_range(&self) {
    }

    fn zero() -> (r: u32)
        ensures
            r == 0,
    {
        0
    }

    fn checked_add(&self, other: &u32) -> (r: Option<u32>)
        ensures
            r == (if u32::MIN <= *self + *other <= u32::MAX {
                Some((*self + *other) as u32)
            } else {
                None
            }),
    {
        u32::checked_add(*self, *other)
    }
}

impl CheckedAdd for u64 {
    open spec fn value(&self) -> int {
        *self as int
    }

    open spec fn min_value() -> int {
        u64::MIN as int
    }

    open spec fn max_value() -> int {
        u64::MAX as int
    }

    proof fn lemma_zero_in_range() {
    }

    proof fn lemma_value_in_range(&self) {
    }

    fn zero() -> (r: u64)
        ensures
            r == 0,
    {
        0
    }

    fn checked_add(&self, other: &u64) -> (r: Option<u64>)
        ensures
            r == (if u64::MIN <= *self + *other <= u64::MAX {
                Some((*self + *other) as u64)
            } else {
                None
            }),
    {
        u64::checked_add(*self, *other)
    }
}

impl CheckedAdd for u128 {
    open spec fn value(&self) -> int {
        *self as int
    }

    open spec fn min_value() -> int {
        u128::MIN as int
    }

    open spec fn max_value() -> int {
        u128::MAX as int
    }

    proof fn lemma_zero_in_range() {
    }

    proof fn lemma_value_in_range(&self) {
    }

    fn zero() -> (r: u128)
        ensures
            r == 0,
    {
        0
    }

    fn checked_add(&self, other: &u128) -> (r: Option<u128>)
        ensures
            r == (if u128::MIN <= *self + *other <= u128::MAX {
                Some((*self + *other) as u128)
            } else {
                None
            }),
    {
        u128::checked_add(*self, *other)
    }
}

impl CheckedAdd for usize {
    open spec fn value(&self) -> int {
        *self as int
    }

    open spec fn min_value() -> int {
        usize::MIN as int
    }

    open spec fn max_value() -> int {
        usize::MAX as int
    }

    proof fn lemma_zero_in_range() {
    }

    proof fn lemma_value_in_range(&self) {
    }

    fn zero() -> (r: usize)
        ensures
            r == 0,
    {
        0
    }

    fn checked_add(&self, other: &usize) -> (r: Option<usize>)
        ensures
            r == (if usize::MIN <= *self + *other <= usize::MAX {
                Some((*self + *other) as usize)
            } else {
                None
            }),
    {
        usize::checked_add(*self, *other)
    }
}

impl CheckedAdd for i8 {
    open spec fn value(&self) -> int {
        *self as int
    }

    open spec fn min_value() -> int {
        i8::MIN as int
    }

    open spec fn max_value() -> int {
        i8::MAX as int
    }

    proof fn lemma_zero_in_range() {
    }

    proof fn lemma_value_in_range(&self) {
    }

    fn zero() -> (r: i8)
        ensures
            r == 0,
    {
        0
    }

    fn checked_add(&self, other: &i8) -> (r: Option<i8>)
        ensures
            r == (if i8::MIN <= *self + *other <= i8::MAX {
                Some((*self + *other) as i8)
            } else {
                None
            }),
    {
        i8::checked_add(*self, *other)
    }
}

impl CheckedAdd for i16 {
    open spec fn value(&self) -> int {
        *self as int
    }

    open spec fn min_value() -> int {
        i16::MIN as int
    }

    open spec fn max_value() -> int {
        i16::MAX as int
    }

    proof fn lemma_zero_in_range() {
    }

    proof fn lemma_value_in_range(&self) {
    }

    fn zero() -> (r: i16)
        ensures
            r == 0,
    {
        0
    }

    fn checked_add(&self, other: &i16) -> (r: Option<i16>)
        ensures
            r == (if i16::MIN <= *self + *other <= i16::MAX {
                Some((*self + *other) as i16)
            } else {
                None
            }),
    {
        i16::checked_add(*self, *other)
    }
}

impl CheckedAdd for i32 {
    open spec fn value(&self) -> int {
        *self as int
    }

    open spec fn min_value() -> int {
        i32::MIN as int
    }

    open spec fn max_value() -> int {
        i32::MAX as int
    }

    proof fn lemma_zero_in_range() {
    }

    proof fn lemma_value_in_range(&self) {
    }

    fn zero() -> (r: i32)
        ensures
            r == 0,
    {
        0
    }

    fn checked_add(&self, other: &i32) -> (r: Option<i32>)
        ensures
            r == (if i32::MIN <= *self + *other <= i32::MAX {
                Some((*self + *other) as i32)
            } else {
                None
            }),
    {
        i32::checked_add(*self, *other)
    }
}

impl CheckedAdd for i64 {
    open spec fn value(&self) -> int {
        *self as int
    }

    open spec fn min_value() -> int {
        i64::MIN as int
    }

    open spec fn max_value() -> int {
        i64::MAX as int
    }

    proof fn lemma_zero_in_range() {
    }

    proof fn lemma_value_in_range(&self) {
    }

    fn zero() -> (r: i64)
        ensures
            r == 0,
    {
        0
    }

    fn checked_add(&self, other: &i64) -> (r: Option<i64>)
        ensures
            r == (if i64::MIN <= *self + *other <= i64::MAX {
                Some((*self + *other) as i64)
            } else {
                None
            }),
    {
        i64::checked_add(*self, *other)
    }
}

impl CheckedAdd for i128 {
    open spec fn value(&self) -> int {
        *self as int
    }

    open spec fn min_value() -> int {
        i128::MIN as int
    }

    open spec fn max_value() -> int {
        i128::MAX as int
    }

    proof fn lemma_zero_in_range() {
    }

    proof fn lemma_value_in_range(&self) {
    }

    fn zero() -> (r: i128)
        ensures
            r == 0,
    {
        0
    }

    fn checked_add(&self, other: &i128) -> (r: Option<i128>)
        ensures
            r == (if i128::MIN <= *self + *other <= i128::MAX {
                Some((*self + *other) as i128)
            } else {
                None
            }),
    {
        i128::checked_add(*self, *other)
    }
}

impl CheckedAdd for isize {
    open spec fn value(&self) -> int {
        *self as int
    }

    open spec fn min_value() -> int {
        isize::MIN as int
    }

    open spec fn max_value() -> int {
        isize::MAX as int
    }

    proof fn lemma_zero_in_range() {
    }

    proof fn lemma_value_in_range(&self) {
    }

    fn zero() -> (r: isize)
        ensures
            r == 0,
    {
        0
    }

    fn checked_add(&self, other: &isize) -> (r: Option<isize>)
        ensures
            r == (if isize::MIN <= *self + *other <= isize::MAX {
                Some((*self + *other) as isize)
            } else {
                None
            }),
    {
        isize::checked_add(*self, *other)
    }
}

} // verus!
