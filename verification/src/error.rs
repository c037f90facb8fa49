//! Error numbers and the conversions between them and `Result`.
//!
//! An [`Error`] carries a negative error number. Functions that talk to the outside hand numbers
//! back and forth: a negative number is an error, anything else is the value of a success.
//!
//! The numbers are Linux's generic ones. They hold on all architectures but Alpha, MIPS, PA-RISC
//! and SPARC, which number [`ENAMETOOLONG`] differently.
use vstd::prelude::*;

verus! {

/// The largest magnitude of an error number.
pub const MAX_ERRNO: i32 = 4095;

/// No such file or directory.
pub const ENOENT: i32 = -2;

/// I/O error.
pub const EIO: i32 = -5;

/// Bad file descriptor.
pub const EBADF: i32 = -9;

/// Invalid argument.
pub const EINVAL: i32 = -22;

/// Argument outside the domain of a function.
pub const EDOM: i32 = -33;

/// File name too long.
pub const ENAMETOOLONG: i32 = -36;

/// Operation not supported.
pub const ENOTSUPP: i32 = -524;

/// An error number.
#[derive(Copy, Clone, PartialEq, Eq, Structural, Debug)]
pub struct Error {
    /// The number itself, negative.
    pub errno: i32,
}

impl Error {
    /// Whether the number lies in the range that is reserved for errors.
    pub open spec fn wf(self) -> bool {
        -MAX_ERRNO <= self.errno < 0
    }

    /// The error with the number `errno`.
    pub open spec fn spec_of(errno: i32) -> Error {
        Error { errno }
    }

    /// The error with the number `errno`, which is an error number.
    #[verifier::when_used_as_spec(spec_of)]
    pub fn of(errno: i32) -> (e: Error)
        requires
            -MAX_ERRNO <= errno < 0,
        ensures
            e == Error::spec_of(errno),
            e.wf(),
    {
        Error { errno }
    }

    /// The error that stands for any number: `EINVAL` for one outside the reserved range.
    pub open spec fn of_errno(errno: i32) -> Error {
        if -MAX_ERRNO <= errno < 0 {
            Error::of(errno)
        } else {
            Error::of(EINVAL)
        }
    }

    /// Makes an error of an error number; a number that is none becomes `EINVAL`.
    pub fn from_errno(errno: i32) -> (e: Error)
        ensures
            e == Error::of_errno(errno),
            e.wf(),
    {
        if errno < -MAX_ERRNO || errno >= 0 {
            Error::of(EINVAL)
        } else {
            Error::of(errno)
        }
    }

    /// The error number.
    pub fn to_errno(self) -> (errno: i32)
        ensures
            errno == self.errno,
    {
        self.errno
    }
}

/// Reads the number that an outside call returned: negative is an error, the rest is success.
pub fn to_result(ret: i32) -> (r: Result<(), Error>)
    ensures
        r == to_result_spec(ret),
{
    if ret < 0 {
        Err(Error::from_errno(ret))
    } else {
        Ok(())
    }
}

/// What [`to_result`] makes of `ret`.
pub open spec fn to_result_spec(ret: i32) -> Result<(), Error> {
    if ret < 0 {
        Err(Error::of_errno(ret))
    } else {
        Ok(())
    }
}

/// The number that an error is handed outside as: its error number, sixteen bits wide.
pub open spec fn errno_out(e: Error) -> i16 {
    e.errno as i16
}

/// The 32-bit number that a result is handed outside as.
pub open spec fn result_i32(r: Result<i32, Error>) -> i32 {
    match r {
        Ok(v) => v,
        Err(e) => errno_out(e) as i32,
    }
}

/// The 64-bit number that a result is handed outside as.
pub open spec fn result_i64(r: Result<i64, Error>) -> i64 {
    match r {
        Ok(v) => v,
        Err(e) => errno_out(e) as i64,
    }
}

/// The pointer-sized number that a result is handed outside as.
pub open spec fn result_isize(r: Result<isize, Error>) -> isize {
    match r {
        Ok(v) => v,
        Err(e) => errno_out(e) as isize,
    }
}

/// Hands a result outside as a 32-bit number.
pub fn from_result_i32(r: Result<i32, Error>) -> (n: i32)
    ensures
        n == result_i32(r),
{
    match r {
        Ok(v) => v,
        Err(e) => #[verifier::truncate] (e.to_errno() as i16) as i32,
    }
}

/// Hands a result outside as a 64-bit number.
pub fn from_result_i64(r: Result<i64, Error>) -> (n: i64)
    ensures
        n == result_i64(r),
{
    match r {
        Ok(v) => v,
        Err(e) => #[verifier::truncate] (e.to_errno() as i16) as i64,
    }
}

/// Hands a result outside as a pointer-sized number.
pub fn from_result_isize(r: Result<isize, Error>) -> (n: isize)
    ensures
        n == result_isize(r),
{
    match r {
        Ok(v) => v,
        Err(e) => #[verifier::truncate] (e.to_errno() as i16) as isize,
    }
}

/// The result of narrowing a number to an `i64`.
pub open spec fn to_i64_spec(v: int) -> Result<i64, Error> {
    if i64::MIN <= v <= i64::MAX {
        Ok(v as i64)
    } else {
        Err(Error::of(EINVAL))
    }
}

/// Narrows to an `i64`; a value that does not fit is `EINVAL`.
pub fn u64_to_i64(v: u64) -> (r: Result<i64, Error>)
    ensures
        r == to_i64_spec(v as int),
{
    if v <= 0x7fff_ffff_ffff_ffff {
        Ok(v as i64)
    } else {
        Err(Error::of(EINVAL))
    }
}

/// Narrows to an `i64`; a value that does not fit is `EINVAL`.
pub fn usize_to_i64(v: usize) -> (r: Result<i64, Error>)
    ensures
        r == to_i64_spec(v as int),
{
    u64_to_i64(v as u64)
}

/// The result of narrowing a number to a `u64`.
pub open spec fn to_u64_spec(v: int) -> Result<u64, Error> {
    if 0 <= v <= u64::MAX {
        Ok(v as u64)
    } else {
        Err(Error::of(EINVAL))
    }
}

/// Narrows to a `u64`; a negative value is `EINVAL`.
pub fn i64_to_u64(v: i64) -> (r: Result<u64, Error>)
    ensures
        r == to_u64_spec(v as int),
{
    if v >= 0 {
        Ok(v as u64)
    } else {
        Err(Error::of(EINVAL))
    }
}

/// The result of narrowing a number to a `usize`.
pub open spec fn to_usize_spec(v: int) -> Result<usize, Error> {
    if 0 <= v <= usize::MAX {
        Ok(v as usize)
    } else {
        Err(Error::of(EINVAL))
    }
}

/// Narrows to a `usize`; a value that does not fit is `EINVAL`.
pub fn u64_to_usize(v: u64) -> (r: Result<usize, Error>)
    ensures
        r == to_usize_spec(v as int),
{
    if v <= usize::MAX as u64 {
        Ok(v as usize)
    } else {
        Err(Error::of(EINVAL))
    }
}

/// The result of narrowing a number to an `isize`.
pub open spec fn to_isize_spec(v: int) -> Result<isize, Error> {
    if isize::MIN <= v <= isize::MAX {
        Ok(v as isize)
    } else {
        Err(Error::of(EINVAL))
    }
}

/// Narrows to an `isize`; a value that does not fit is `EINVAL`.
pub fn usize_to_isize(v: usize) -> (r: Result<isize, Error>)
    ensures
        r == to_isize_spec(v as int),
{
    if v <= isize::MAX as usize {
        Ok(v as isize)
    } else {
        Err(Error::of(EINVAL))
    }
}

/// The result of narrowing a number to a `u16`.
pub open spec fn to_u16_spec(v: int) -> Result<u16, Error> {
    if 0 <= v <= u16::MAX {
        Ok(v as u16)
    } else {
        Err(Error::of(EINVAL))
    }
}

/// Narrows to a `u16`; a value that does not fit is `EINVAL`.
pub fn u32_to_u16(v: u32) -> (r: Result<u16, Error>)
    ensures
        r == to_u16_spec(v as int),
{
    if v <= 0xffff {
        Ok(v as u16)
    } else {
        Err(Error::of(EINVAL))
    }
}

/// An error number keeps its value on the way outside, whatever the width of the number there,
/// and arrives as a negative number.
pub proof fn law_errno_survives(e: Error)
    requires
        e.wf(),
    ensures
        result_i32(Err(e)) == e.errno,
        result_i64(Err(e)) == e.errno,
        result_isize(Err(e)) == e.errno,
        result_i32(Err(e)) < 0,
        Error::of_errno(result_i32(Err(e))) == e,
{
}

/// The error numbers.
pub proof fn law_error_numbers()
    ensures
        (ENOENT, EIO, EBADF, EINVAL) == (-2i32, -5i32, -9i32, -22i32),
        (EDOM, ENAMETOOLONG, ENOTSUPP, MAX_ERRNO) == (-33i32, -36i32, -524i32, 4095i32),
{
}

/// An error has the number that it was made of, if that is an error number, and `EINVAL` otherwise.
pub proof fn law_error_has_its_number(errno: i32, of: Error, from: Error, out: i32)
    requires
        call_ensures(Error::of, (errno,), of),
        call_ensures(Error::from_errno, (errno,), from),
        call_ensures(Error::to_errno, (from,), out),
    ensures
        of.errno == errno,
        from.errno == out,
        -4095 <= errno <= -1 ==> out == errno,
        errno < -4095 || errno >= 0 ==> out == -22,
        -4095 <= errno <= -1 ==> call_requires(Error::of, (errno,)),
{
}

/// The answer of an outside call is a success if and only if it is not negative, and the error that
/// it stands for otherwise.
pub proof fn law_answer_is_read(ret: i32, r: Result<(), Error>)
    requires
        call_ensures(to_result, (ret,), r),
    ensures
        ret >= 0 ==> r is Ok,
        -4095 <= ret < 0 ==> (r matches Err(e) && e.errno == ret),
        ret < -4095 ==> (r matches Err(e) && e.errno == -22),
{
}

/// A value is handed outside as it is, whatever the width.
pub proof fn law_value_is_handed_out(v: i32, w: i64, x: isize, n: (i32, i64, isize))
    requires
        call_ensures(from_result_i32, (Ok::<i32, Error>(v),), n.0),
        call_ensures(from_result_i64, (Ok::<i64, Error>(w),), n.1),
        call_ensures(from_result_isize, (Ok::<isize, Error>(x),), n.2),
    ensures
        n == (v, w, x),
{
}

/// An error is handed outside as its number, whatever the width.
pub proof fn law_error_is_handed_out(e: Error, n: (i32, i64, isize))
    requires
        -4095 <= e.errno <= -1,
        call_ensures(from_result_i32, (Err::<i32, Error>(e),), n.0),
        call_ensures(from_result_i64, (Err::<i64, Error>(e),), n.1),
        call_ensures(from_result_isize, (Err::<isize, Error>(e),), n.2),
    ensures
        n.0 == e.errno,
        n.1 == e.errno,
        n.2 == e.errno,
{
}

/// Narrowing a number keeps its value, and is `EINVAL` if and only if the value does not fit.
pub proof fn law_narrowing_keeps_the_value(
    a: u64,
    b: usize,
    c: i64,
    d: u32,
    to_i64: Result<i64, Error>,
    to_i64_too: Result<i64, Error>,
    to_u64: Result<u64, Error>,
    to_usize: Result<usize, Error>,
    to_isize: Result<isize, Error>,
    to_u16: Result<u16, Error>,
)
    requires
        call_ensures(u64_to_i64, (a,), to_i64),
        call_ensures(usize_to_i64, (b,), to_i64_too),
        call_ensures(i64_to_u64, (c,), to_u64),
        call_ensures(u64_to_usize, (a,), to_usize),
        call_ensures(usize_to_isize, (b,), to_isize),
        call_ensures(u32_to_u16, (d,), to_u16),
    ensures
        match to_i64 {
            Ok(v) => v == a,
            Err(e) => a > i64::MAX && e.errno == -22,
        },
        match to_i64_too {
            Ok(v) => v == b,
            Err(e) => b > i64::MAX && e.errno == -22,
        },
        match to_u64 {
            Ok(v) => v == c,
            Err(e) => c < 0 && e.errno == -22,
        },
        match to_usize {
            Ok(v) => v == a,
            Err(e) => a > usize::MAX && e.errno == -22,
        },
        match to_isize {
            Ok(v) => v == b,
            Err(e) => b > isize::MAX && e.errno == -22,
        },
        match to_u16 {
            Ok(v) => v == d,
            Err(e) => d > 65535 && e.errno == -22,
        },
{
}

} // verus!
