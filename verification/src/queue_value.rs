use vstd::prelude::*;
use vstd::std_specs::cmp::OrdSpec;
use vstd::std_specs::cmp::PartialEqSpec;
use vstd::std_specs::cmp::PartialOrdIs;
use vstd::std_specs::cmp::PartialOrdSpec;
use vstd::std_specs::ops::AddSpec;
use vstd::std_specs::ops::SubSpec;

verus! {

/// A discrete, totally ordered value with a smallest and a largest element.
///
/// Every value stands for one mathematical integer, `as_int()`, between
/// `lowest()` and `highest()`. The comparison operators of the type order its
/// values as those integers are ordered, and `+` and `-` compute on them
/// whenever the result is representable. Stepping by one is checked: at an end
/// of the range it yields `None` instead of wrapping.
///
/// The trait is implemented for all of Rust's built-in integer types.
pub trait QueueValue:
    Copy
    + Clone
    + Ord
    + PartialOrd
    + PartialEq
    + std::fmt::Debug
    + std::fmt::Display
    + std::ops::Add<Output = Self>
    + std::ops::Sub<Output = Self>
{
    /// The integer that this value stands for.
    spec fn as_int(self) -> int;

    /// The integer of the smallest value of the type.
    spec fn lowest() -> int;

    /// The integer of the largest value of the type.
    spec fn highest() -> int;

    /// Every value lies between `lowest()` and `highest()`, both `0` and `1`
    /// lie in that range, and `==`, `<`, `<=`, `>` and `>=` on values agree
    /// with the same comparison of their integers. The total order of `Ord`
    /// is the one that the comparison operators give.
    proof fn order_laws()
        ensures
            Self::lowest() <= 0,
            1 <= Self::highest(),
            forall|a: Self| Self::lowest() <= #[trigger] a.as_int() <= Self::highest(),
            Self::obeys_eq_spec(),
            Self::obeys_partial_cmp_spec(),
            forall|a: Self, b: Self| #[trigger] a.eq_spec(&b) <==> a.as_int() == b.as_int(),
            forall|a: Self, b: Self|
                #![trigger a.partial_cmp_spec(&b)]
                {
                    &&& a.is_lt(&b) <==> a.as_int() < b.as_int()
                    &&& a.is_le(&b) <==> a.as_int() <= b.as_int()
                    &&& a.is_gt(&b) <==> a.as_int() > b.as_int()
                    &&& a.is_ge(&b) <==> a.as_int() >= b.as_int()
                },
            Self::obeys_cmp_spec(),
            forall|a: Self, b: Self| a.partial_cmp_spec(&b) == Some(#[trigger] a.cmp_spec(&b)),
    ;

    /// `a + b` and `a - b` may be computed exactly when the result is
    /// representable, and then stand for the sum and the difference of the
    /// integers.
    proof fn arith_laws()
        ensures
            Self::obeys_add_spec(),
            Self::obeys_sub_spec(),
            forall|a: Self, b: Self| #[trigger]
                a.add_req(b) <==> Self::lowest() <= a.as_int() + b.as_int() <= Self::highest(),
            forall|a: Self, b: Self|
                a.add_req(b) ==> (#[trigger] a.add_spec(b)).as_int() == a.as_int() + b.as_int(),
            forall|a: Self, b: Self| #[trigger]
                a.sub_req(b) <==> Self::lowest() <= a.as_int() - b.as_int() <= Self::highest(),
            forall|a: Self, b: Self|
                a.sub_req(b) ==> (#[trigger] a.sub_spec(b)).as_int() == a.as_int() - b.as_int(),
    ;

    /// Two values that stand for the same integer are the same value.
    proof fn same_value(a: Self, b: Self)
        requires
            a.as_int() == b.as_int(),
        ensures
            a == b,
    ;

    /// The value that stands for `0`.
    fn zero() -> (r: Self)
        ensures
            r.as_int() == 0,
    ;

    /// The value that stands for `1`.
    fn one() -> (r: Self)
        ensures
            r.as_int() == 1,
    ;

    /// The value just below `self`, or `None` if `self` is the smallest value.
    fn checked_sub_one(self) -> (r: Option<Self>)
        ensures
            match r {
                Some(prev) => prev.as_int() == self.as_int() - 1,
                None => self.as_int() == Self::lowest(),
            },
    ;

    /// The value just above `self`, or `None` if `self` is the largest value.
    fn checked_add_one(self) -> (r: Option<Self>)
        ensures
            match r {
                Some(next) => next.as_int() == self.as_int() + 1,
                None => self.as_int() == Self::highest(),
            },
    ;
}

impl QueueValue for i8 {
    open spec fn as_int(self) -> int {
        self as int
    }

    open spec fn lowest() -> int {
        i8::MIN as int
    }

    open spec fn highest() -> int {
        i8::MAX as int
    }

    proof fn order_laws() {
    }

    proof fn arith_laws() {
    }

    proof fn same_value(a: Self, b: Self) {
    }

    fn zero() -> (r: Self) {
        0
    }

    fn one() -> (r: Self) {
        1
    }

    fn checked_sub_one(self) -> (r: Option<Self>) {
        self.checked_sub(1)
    }

    fn checked_add_one(self) -> (r: Option<Self>) {
        self.checked_add(1)
    }
}

impl QueueValue for i16 {
    open spec fn as_int(self) -> int {
        self as int
    }

    open spec fn lowest() -> int {
        i16::MIN as int
    }

    open spec fn highest() -> int {
        i16::MAX as int
    }

    proof fn order_laws() {
    }

    proof fn arith_laws() {
    }

    proof fn same_value(a: Self, b: Self) {
    }

    fn zero() -> (r: Self) {
        0
    }

    fn one() -> (r: Self) {
        1
    }

    fn checked_sub_one(self) -> (r: Option<Self>) {
        self.checked_sub(1)
    }

    fn checked_add_one(self) -> (r: Option<Self>) {
        self.checked_add(1)
    }
}

impl QueueValue for i32 {
    open spec fn as_int(self) -> int {
        self as int
    }

    open spec fn lowest() -> int {
        i32::MIN as int
    }

    open spec fn highest() -> int {
        i32::MAX as int
    }

    proof fn order_laws() {
    }

    proof fn arith_laws() {
    }

    proof fn same_value(a: Self, b: Self) {
    }

    fn zero() -> (r: Self) {
        0
    }

    fn one() -> (r: Self) {
        1
    }

    fn checked_sub_one(self) -> (r: Option<Self>) {
        self.checked_sub(1)
    }

    fn checked_add_one(self) -> (r: Option<Self>) {
        self.checked_add(1)
    }
}

impl QueueValue for i64 {
    open spec fn as_int(self) -> int {
        self as int
    }

    open spec fn lowest() -> int {
        i64::MIN as int
    }

    open spec fn highest() -> int {
        i64::MAX as int
    }

    proof fn order_laws() {
    }

    proof fn arith_laws() {
    }

    proof fn same_value(a: Self, b: Self) {
    }

    fn zero() -> (r: Self) {
        0
    }

    fn one() -> (r: Self) {
        1
    }

    fn checked_sub_one(self) -> (r: Option<Self>) {
        self.checked_sub(1)
    }

    fn checked_add_one(self) -> (r: Option<Self>) {
        self.checked_add(1)
    }
}

impl QueueValue for i128 {
    open spec fn as_int(self) -> int {
        self as int
    }

    open spec fn lowest() -> int {
        i128::MIN as int
    }

    open spec fn highest() -> int {
        i128::MAX as int
    }

    proof fn order_laws() {
    }

    proof fn arith_laws() {
    }

    proof fn same_value(a: Self, b: Self) {
    }

    fn zero() -> (r: Self) {
        0
    }

    fn one() -> (r: Self) {
        1
    }

    fn checked_sub_one(self) -> (r: Option<Self>) {
        self.checked_sub(1)
    }

    fn checked_add_one(self) -> (r: Option<Self>) {
        self.checked_add(1)
    }
}

impl QueueValue for isize {
    open spec fn as_int(self) -> int {
        self as int
    }

    open spec fn lowest() -> int {
        isize::MIN as int
    }

    open spec fn highest() -> int {
        isize::MAX as int
    }

    proof fn order_laws() {
    }

    proof fn arith_laws() {
    }

    proof fn same_value(a: Self, b: Self) {
    }

    fn zero() -> (r: Self) {
        0
    }

    fn one() -> (r: Self) {
        1
    }

    fn checked_sub_one(self) -> (r: Option<Self>) {
        self.checked_sub(1)
    }

    fn checked_add_one(self) -> (r: Option<Self>) {
        self.checked_add(1)
    }
}

impl QueueValue for u8 {
    open spec fn as_int(self) -> int {
        self as int
    }

    open spec fn lowest() -> int {
        u8::MIN as int
    }

    open spec fn highest() -> int {
        u8::MAX as int
    }

    proof fn order_laws() {
    }

    proof fn arith_laws() {
    }

    proof fn same_value(a: Self, b: Self) {
    }

    fn zero() -> (r: Self) {
        0
    }

    fn one() -> (r: Self) {
        1
    }

    fn checked_sub_one(self) -> (r: Option<Self>) {
        self.checked_sub(1)
    }

    fn checked_add_one(self) -> (r: Option<Self>) {
        self.checked_add(1)
    }
}

impl QueueValue for u16 {
    open spec fn as_int(self) -> int {
        self as int
    }

    open spec fn lowest() -> int {
        u16::MIN as int
    }

    open spec fn highest() -> int {
        u16::MAX as int
    }

    proof fn order_laws() {
    }

    proof fn arith_laws() {
    }

    proof fn same_value(a: Self, b: Self) {
    }

    fn zero() -> (r: Self) {
        0
    }

    fn one() -> (r: Self) {
        1
    }

    fn checked_sub_one(self) -> (r: Option<Self>) {
        self.checked_sub(1)
    }

    fn checked_add_one(self) -> (r: Option<Self>) {
        self.checked_add(1)
    }
}

impl QueueValue for u32 {
    open spec fn as_int(self) -> int {
        self as int
    }

    open spec fn lowest() -> int {
        u32::MIN as int
    }

    open spec fn highest() -> int {
        u32::MAX as int
    }

    proof fn order_laws() {
    }

    proof fn arith_laws() {
    }

    proof fn same_value(a: Self, b: Self) {
    }

    fn zero() -> (r: Self) {
        0
    }

    fn one() -> (r: Self) {
        1
    }

    fn checked_sub_one(self) -> (r: Option<Self>) {
        self.checked_sub(1)
    }

    fn checked_add_one(self) -> (r: Option<Self>) {
        self.checked_add(1)
    }
}

impl QueueValue for u64 {
    open spec fn as_int(self) -> int {
        self as int
    }

    open spec fn lowest() -> int {
        u64::MIN as int
    }

    open spec fn highest() -> int {
        u64::MAX as int
    }

    proof fn order_laws() {
    }

    proof fn arith_laws() {
    }

    proof fn same_value(a: Self, b: Self) {
    }

    fn zero() -> (r: Self) {
        0
    }

    fn one() -> (r: Self) {
        1
    }

    fn checked_sub_one(self) -> (r: Option<Self>) {
        self.checked_sub(1)
    }

    fn checked_add_one(self) -> (r: Option<Self>) {
        self.checked_add(1)
    }
}

impl QueueValue for u128 {
    open spec fn as_int(self) -> int {
        self as int
    }

    open spec fn lowest() -> int {
        u128::MIN as int
    }

    open spec fn highest() -> int {
        u128::MAX as int
    }

    proof fn order_laws() {
    }

    proof fn arith_laws() {
    }

    proof fn same_value(a: Self, b: Self) {
    }

    fn zero() -> (r: Self) {
        0
    }

    fn one() -> (r: Self) {
        1
    }

    fn checked_sub_one(self) -> (r: Option<Self>) {
        self.checked_sub(1)
    }

    fn checked_add_one(self) -> (r: Option<Self>) {
        self.checked_add(1)
    }
}

impl QueueValue for usize {
    open spec fn as_int(self) -> int {
        self as int
    }

    open spec fn lowest() -> int {
        usize::MIN as int
    }

    open spec fn highest() -> int {
        usize::MAX as int
    }

    proof fn order_laws() {
    }

    proof fn arith_laws() {
    }

    proof fn same_value(a: Self, b: Self) {
    }

    fn zero() -> (r: Self) {
        0
    }

    fn one() -> (r: Self) {
        1
    }

    fn checked_sub_one(self) -> (r: Option<Self>) {
        self.checked_sub(1)
    }

    fn checked_add_one(self) -> (r: Option<Self>) {
        self.checked_add(1)
    }
}

} // verus!
