//! Fallible conversions between the library's integers and the native ones.
//!
//! No conversion at the native boundary truncates: a value that does not fit
//! its target type becomes an `OutOfRange` error that names the field, the
//! value, the target type and the task.
use vstd::prelude::*;
use crate::errors::{Error, ErrorTask};
use crate::text::{decimal, decimal_text};

verus! {

/// An integer type that crosses the native boundary.
pub trait NativeInt: Copy + Sized {
    /// The mathematical value.
    spec fn int_value(&self) -> int;

    /// Whether `v` is a value of this type.
    spec fn holds(v: int) -> bool;

    /// The name of this type, as Rust writes it.
    spec fn spec_width_name() -> Seq<char>;

    fn width_name() -> (r: &'static str)
        ensures
            r@ == Self::spec_width_name(),
    ;

    fn widen(&self) -> (r: i128)
        ensures
            r as int == self.int_value(),
            Self::holds(r as int),
    ;

    fn narrow(v: i128) -> (r: Option<Self>)
        ensures
            Self::holds(v as int) <==> r is Some,
            r matches Some(x) ==> x.int_value() == v as int,
    ;
}

impl NativeInt for i32 {
    open spec fn int_value(&self) -> int {
        *self as int
    }

    open spec fn holds(v: int) -> bool {
        i32::MIN <= v <= i32::MAX
    }

    open spec fn spec_width_name() -> Seq<char> {
        "i32"@
    }

    fn width_name() -> (r: &'static str) {
        "i32"
    }

    fn widen(&self) -> (r: i128) {
        *self as i128
    }

    fn narrow(v: i128) -> (r: Option<i32>) {
        if i32::MIN as i128 <= v && v <= i32::MAX as i128 {
            Some(v as i32)
        } else {
            None
        }
    }
}

impl NativeInt for i64 {
    open spec fn int_value(&self) -> int {
        *self as int
    }

    open spec fn holds(v: int) -> bool {
        i64::MIN <= v <= i64::MAX
    }

    open spec fn spec_width_name() -> Seq<char> {
        "i64"@
    }

    fn width_name() -> (r: &'static str) {
        "i64"
    }

    fn widen(&self) -> (r: i128) {
        *self as i128
    }

    fn narrow(v: i128) -> (r: Option<i64>) {
        if i64::MIN as i128 <= v && v <= i64::MAX as i128 {
            Some(v as i64)
        } else {
            None
        }
    }
}

impl NativeInt for u8 {
    open spec fn int_value(&self) -> int {
        *self as int
    }

    open spec fn holds(v: int) -> bool {
        0 <= v <= u8::MAX
    }

    open spec fn spec_width_name() -> Seq<char> {
        "u8"@
    }

    fn width_name() -> (r: &'static str) {
        "u8"
    }

    fn widen(&self) -> (r: i128) {
        *self as i128
    }

    fn narrow(v: i128) -> (r: Option<u8>) {
        if 0 <= v && v <= u8::MAX as i128 {
            Some(v as u8)
        } else {
            None
        }
    }
}

impl NativeInt for u64 {
    open spec fn int_value(&self) -> int {
        *self as int
    }

    open spec fn holds(v: int) -> bool {
        0 <= v <= u64::MAX
    }

    open spec fn spec_width_name() -> Seq<char> {
        "u64"@
    }

    fn width_name() -> (r: &'static str) {
        "u64"
    }

    fn widen(&self) -> (r: i128) {
        *self as i128
    }

    fn narrow(v: i128) -> (r: Option<u64>) {
        if 0 <= v && v <= u64::MAX as i128 {
            Some(v as u64)
        } else {
            None
        }
    }
}

impl NativeInt for usize {
    open spec fn int_value(&self) -> int {
        *self as int
    }

    open spec fn holds(v: int) -> bool {
        0 <= v <= usize::MAX
    }

    open spec fn spec_width_name() -> Seq<char> {
        "usize"@
    }

    fn width_name() -> (r: &'static str) {
        "usize"
    }

    fn widen(&self) -> (r: i128) {
        *self as i128
    }

    fn narrow(v: i128) -> (r: Option<usize>) {
        if 0 <= v && v <= usize::MAX as i128 {
            Some(v as usize)
        } else {
            None
        }
    }
}

/// The error for field `name`, of value `v`, that does not fit `O` during `task`.
pub open spec fn out_of_range<O: NativeInt>(e: Error, name: &'static str, v: int, task: ErrorTask) -> bool {
    e matches Error::OutOfRange { name: n, value, target, task: k }
        && n == name && value@ == decimal(v) && target@ == O::spec_width_name() && k == task
}

/// Converts `value` to the integer type `O`, for field `name` during `task`.
///
/// Succeeds with the same mathematical value exactly when it fits `O`.
pub fn to<I: NativeInt, O: NativeInt>(value: I, task: ErrorTask, name: &'static str) -> (r: Result<O, Error>)
    ensures
        O::holds(value.int_value()) <==> r is Ok,
        r matches Ok(o) ==> o.int_value() == value.int_value(),
        r matches Err(e) ==> out_of_range::<O>(e, name, value.int_value(), task),
{
    let wide = value.widen();
    match O::narrow(wide) {
        Some(o) => Ok(o),
        None => Err(Error::OutOfRange { name, value: decimal_text(wide), target: O::width_name(), task }),
    }
}

} // verus!
