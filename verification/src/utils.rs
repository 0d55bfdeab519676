//! Shared helpers of the socket layer: byte-order conversion, engine status
//! translation, and the candidate-address connect policy.
//!
//! The engine reports failure through integer return values: a BSD-style
//! call hands back `-1` and leaves an error code behind, which the caller
//! reads and passes in here for translation.  Retrying interrupted calls is
//! deliberately not hidden inside the primitives — the bounded retry helper
//! makes the policy explicit and its outcome exact.

use vstd::prelude::*;

use crate::errors::SocketError;

verus! {

/// The engine's error code for an interrupted call.
pub const ZTS_EINTR: i32 = 4;

/// A 16-bit value with its two bytes exchanged.
pub open spec fn spec_swap_u16(x: u16) -> u16 {
    ((x & 0xff) << 8) | (x >> 8)
}

/// A 32-bit value with its four bytes reversed.
pub open spec fn spec_swap_u32(x: u32) -> u32 {
    ((x & 0xff) << 24) | (((x >> 8) & 0xff) << 16) | (((x >> 16) & 0xff) << 8) | (x >> 24)
}

/// Converts a 16-bit port from network (big-endian) order to the host
/// representation used by this layer, which is little-endian: a byte swap.
pub fn ntohs(i: u16) -> (r: u16)
    ensures
        r == spec_swap_u16(i),
{
    ((i & 0xff) << 8) | (i >> 8)
}

/// Converts a 16-bit port from the host representation to network
/// (big-endian) order: a byte swap, the inverse of [`ntohs`].
pub fn htons(i: u16) -> (r: u16)
    ensures
        r == spec_swap_u16(i),
{
    ((i & 0xff) << 8) | (i >> 8)
}

/// Converts a raw 32-bit IPv4 address, as the engine stores it in network
/// byte order, to the host representation: a byte reversal.
pub fn ipv4_addr(s_addr: u32) -> (r: u32)
    ensures
        r == spec_swap_u32(s_addr),
{
    ((s_addr & 0xff) << 24) | (((s_addr >> 8) & 0xff) << 16) | (((s_addr >> 16) & 0xff) << 8) | (
    s_addr >> 24)
}

/// Integer return values that signal failure with `-1`, BSD style.
pub trait IsMinusOne: Sized {
    /// Whether the value is the failure sentinel.
    spec fn spec_is_minus_one(&self) -> bool;

    /// Runtime test matching [`IsMinusOne::spec_is_minus_one`].
    fn is_minus_one(&self) -> (r: bool)
        ensures
            r == self.spec_is_minus_one(),
    ;
}

impl IsMinusOne for i8 {
    open spec fn spec_is_minus_one(&self) -> bool {
        *self == -1
    }

    fn is_minus_one(&self) -> bool {
        *self == -1
    }
}

impl IsMinusOne for i16 {
    open spec fn spec_is_minus_one(&self) -> bool {
        *self == -1
    }

    fn is_minus_one(&self) -> bool {
        *self == -1
    }
}

impl IsMinusOne for i32 {
    open spec fn spec_is_minus_one(&self) -> bool {
        *self == -1
    }

    fn is_minus_one(&self) -> bool {
        *self == -1
    }
}

impl IsMinusOne for i64 {
    open spec fn spec_is_minus_one(&self) -> bool {
        *self == -1
    }

    fn is_minus_one(&self) -> bool {
        *self == -1
    }
}

impl IsMinusOne for isize {
    open spec fn spec_is_minus_one(&self) -> bool {
        *self == -1
    }

    fn is_minus_one(&self) -> bool {
        *self == -1
    }
}

/// Translates a BSD-style return value: `-1` becomes an `IoError` carrying
/// the error code the engine left behind, anything else passes through.
pub fn cvt<T: IsMinusOne>(t: T, last_error: i32) -> (r: Result<T, SocketError>)
    ensures
        t.spec_is_minus_one() ==> r == Err::<T, SocketError>(
            SocketError::IoError { code: last_error },
        ),
        !t.spec_is_minus_one() ==> r == Ok::<T, SocketError>(t),
{
    if t.is_minus_one() {
        Err(SocketError::IoError { code: last_error })
    } else {
        Ok(t)
    }
}

/// Calls the given operation until it returns something other than an
/// interrupted failure, at most `max_attempts` times, and translates the
/// final outcome as [`cvt`] does.  Each attempt yields the call's return
/// value paired with the error code the engine left behind; a `-1` return
/// with the interrupted code is retried, any other outcome is final.  If
/// every attempt was interrupted, the interrupted code itself is surfaced.
pub fn cvt_r<T: IsMinusOne, F: Fn() -> (T, i32)>(f: F, max_attempts: u32) -> (r: Result<
    T,
    SocketError,
>)
    requires
        max_attempts >= 1,
        call_requires(f, ()),
    ensures
        r matches Ok(t) ==> !t.spec_is_minus_one() && exists|e: i32| call_ensures(f, (), (t, e)),
        r matches Err(err) ==> err matches SocketError::IoError { code } && (code == ZTS_EINTR
            || exists|t: T| t.spec_is_minus_one() && call_ensures(f, (), (t, code))),
{
    let mut attempt: u32 = 0;
    while attempt < max_attempts
        invariant
            call_requires(f, ()),
        decreases max_attempts - attempt,
    {
        let (t, e) = f();
        if t.is_minus_one() {
            if e != ZTS_EINTR {
                return Err(SocketError::IoError { code: e });
            }
        } else {
            return Ok(t);
        }
        attempt = attempt + 1;
    }
    Err(SocketError::IoError { code: ZTS_EINTR })
}

/// Every element before index `i` is an `Err`.
pub open spec fn spec_all_err_before<T>(s: Seq<Result<T, SocketError>>, i: int) -> bool {
    forall|j: int| 0 <= j < i ==> s[j] is Err
}

/// Picks the overall outcome of trying a list of candidate endpoints in
/// order: the first success wins and later candidates are never reached;
/// if every candidate failed, the last failure is reported; if resolution
/// produced no candidates at all, `UnresolvedAddressError` is reported.
pub fn each_addr<T>(outcomes: Vec<Result<T, SocketError>>) -> (r: Result<T, SocketError>)
    ensures
        outcomes@.len() == 0 ==> r == Err::<T, SocketError>(SocketError::UnresolvedAddressError),
        r is Ok ==> exists|i: int|
            0 <= i < outcomes@.len() && outcomes@[i] == r && spec_all_err_before(outcomes@, i),
        spec_all_err_before(outcomes@, outcomes@.len() as int) && outcomes@.len() > 0 ==> r
            == outcomes@[outcomes@.len() - 1],
        (exists|i: int| 0 <= i < outcomes@.len() && outcomes@[i] is Ok) ==> r is Ok,
{
    let ghost orig = outcomes@;
    let mut rest = outcomes;
    let total: usize = rest.len();
    let mut last_err: Option<SocketError> = None;
    let mut consumed: usize = 0;
    while rest.len() > 0
        invariant
            orig == outcomes@,
            orig.len() == total,
            consumed + rest@.len() == orig.len(),
            rest@ == orig.subrange(consumed as int, orig.len() as int),
            spec_all_err_before(orig, consumed as int),
            consumed > 0 ==> (last_err matches Some(e) && orig[consumed - 1] == Err::<
                T,
                SocketError,
            >(e)),
            consumed == 0 ==> last_err is None,
        decreases rest@.len(),
    {
        let ghost rest_before = rest@;
        let head = rest.remove(0);
        proof {
            assert(head == orig[consumed as int]);
            assert(rest@ =~= orig.subrange(consumed as int + 1, orig.len() as int));
        }
        match head {
            Ok(v) => {
                proof {
                    assert(outcomes@[consumed as int] == Ok::<T, SocketError>(v));
                    assert(spec_all_err_before(outcomes@, consumed as int));
                }
                return Ok(v);
            },
            Err(e) => {
                last_err = Some(e);
            },
        }
        consumed = consumed + 1;
    }
    match last_err {
        Some(e) => Err(e),
        None => Err(SocketError::UnresolvedAddressError),
    }
}

/// Borrowing access to a wrapped inner value.
pub trait AsInner<Inner> {
    /// A shared borrow of the inner value.
    fn as_inner(&self) -> &Inner;
}

/// Mutable access to a wrapped inner value.
pub trait AsInnerMut<Inner> {
    /// An exclusive borrow of the inner value.
    fn as_inner_mut(&mut self) -> &mut Inner;
}

/// Consuming a wrapper to take its inner value; ownership moves, it is
/// never duplicated.
pub trait IntoInner<Inner> {
    /// The inner value, by move.
    fn into_inner(self) -> Inner;
}

/// Building a wrapper around an inner value; ownership moves into the
/// wrapper.
pub trait FromInner<Inner>: Sized {
    /// The wrapper owning `inner`.
    fn from_inner(inner: Inner) -> Self;
}

} // verus!
