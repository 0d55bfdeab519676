//! Socket-option payloads and the timeout representation.
//!
//! Options travel to and from the engine as raw byte payloads of a size
//! fixed per option kind: four little-endian bytes for integer options, two
//! 64-bit fields for the paired seconds/microseconds timeout layout.  A
//! timeout of `(0, 0)` means "no timeout" when read back; a non-zero
//! duration that would serialize to `(0, 0)` is coerced to one microsecond
//! rather than silently becoming "no timeout", and an explicit zero
//! duration is rejected outright.

use vstd::prelude::*;

use crate::addr::spec_u32_le;
use crate::addr::lemma_u32_le_split;
use crate::errors::SocketError;

verus! {

/// Nanoseconds in one second.
pub const NANOS_PER_SEC: u32 = 1_000_000_000;

/// Nanoseconds in one microsecond.
pub const NANOS_PER_MICRO: u32 = 1_000;

/// Microseconds in one second.
pub const MICROS_PER_SEC: i64 = 1_000_000;

/// Byte size of an integer option payload.
pub const INT_OPTION_LEN: usize = 4;

/// A span of time with nanosecond precision: whole seconds plus a
/// sub-second remainder.
#[derive(Clone, Copy, Debug, PartialEq, Eq, Structural)]
pub struct TimeDuration {
    pub secs: u64,
    pub nanos: u32,
}

impl TimeDuration {
    /// The sub-second part stays below one second.
    pub open spec fn wf(&self) -> bool {
        self.nanos < NANOS_PER_SEC
    }

    /// A zero-length span.
    pub open spec fn spec_is_zero(&self) -> bool {
        self.secs == 0 && self.nanos == 0
    }

    /// Builds a span from seconds and a sub-second remainder.
    pub fn new(secs: u64, nanos: u32) -> (r: TimeDuration)
        requires
            nanos < NANOS_PER_SEC,
        ensures
            r == (TimeDuration { secs, nanos }),
    {
        TimeDuration { secs, nanos }
    }

    /// Builds a span from a number of milliseconds.
    pub fn from_millis(ms: u64) -> (r: TimeDuration)
        ensures
            r.secs == ms / 1000,
            r.nanos == (ms % 1000) * 1_000_000,
            r.wf(),
    {
        TimeDuration { secs: ms / 1000, nanos: ((ms % 1000) as u32) * 1_000_000 }
    }

    /// Runtime test matching [`TimeDuration::spec_is_zero`].
    pub fn is_zero(&self) -> (r: bool)
        ensures
            r == self.spec_is_zero(),
    {
        self.secs == 0 && self.nanos == 0
    }
}

/// The engine's paired seconds/microseconds timeout layout.
#[derive(Clone, Copy, Debug, PartialEq, Eq, Structural)]
pub struct Timeval {
    pub tv_sec: i64,
    pub tv_usec: i64,
}

impl Timeval {
    /// Both fields non-negative and the microseconds below one second.
    pub open spec fn wf(&self) -> bool {
        &&& 0 <= self.tv_sec
        &&& 0 <= self.tv_usec < MICROS_PER_SEC
    }
}

/// What serializing a timeout setting yields: `None` becomes the `(0, 0)`
/// "no timeout" pair; an explicit zero duration is rejected with
/// `InvalidTimeout`; a non-zero duration is truncated to microseconds, with
/// seconds saturating at the field maximum, and coerced to one microsecond
/// if truncation alone would have produced `(0, 0)`.
pub open spec fn spec_timeout_to_timeval(dur: Option<TimeDuration>) -> Result<
    Timeval,
    SocketError,
> {
    match dur {
        None => Ok(Timeval { tv_sec: 0, tv_usec: 0 }),
        Some(d) => {
            if d.spec_is_zero() {
                Err(SocketError::InvalidTimeout)
            } else {
                let secs: i64 = if d.secs > i64::MAX as u64 {
                    i64::MAX
                } else {
                    d.secs as i64
                };
                let usec: i64 = (d.nanos / NANOS_PER_MICRO) as i64;
                if secs == 0 && usec == 0 {
                    Ok(Timeval { tv_sec: 0, tv_usec: 1 })
                } else {
                    Ok(Timeval { tv_sec: secs, tv_usec: usec })
                }
            }
        },
    }
}

/// What reading a timeout back yields: the `(0, 0)` pair means "no
/// timeout", anything else is the stored duration at microsecond precision.
pub open spec fn spec_timeval_to_timeout(tv: Timeval) -> Option<TimeDuration> {
    if tv.tv_sec == 0 && tv.tv_usec == 0 {
        None
    } else {
        Some(TimeDuration { secs: tv.tv_sec as u64, nanos: (tv.tv_usec * NANOS_PER_MICRO) as u32 })
    }
}

/// Serializes a timeout setting into the engine's paired layout; see
/// [`spec_timeout_to_timeval`] for the exact outcome.
pub fn timeout_to_timeval(dur: Option<TimeDuration>) -> (r: Result<Timeval, SocketError>)
    requires
        dur matches Some(d) ==> d.wf(),
    ensures
        r == spec_timeout_to_timeval(dur),
        r matches Ok(tv) ==> tv.wf(),
    {
    match dur {
        None => Ok(Timeval { tv_sec: 0, tv_usec: 0 }),
        Some(d) => {
            if d.is_zero() {
                Err(SocketError::InvalidTimeout)
            } else {
                let secs: i64 = if d.secs > i64::MAX as u64 {
                    i64::MAX
                } else {
                    d.secs as i64
                };
                let usec: i64 = (d.nanos / NANOS_PER_MICRO) as i64;
                if secs == 0 && usec == 0 {
                    Ok(Timeval { tv_sec: 0, tv_usec: 1 })
                } else {
                    Ok(Timeval { tv_sec: secs, tv_usec: usec })
                }
            }
        },
    }
}

/// Reads a timeout back from the engine's paired layout; see
/// [`spec_timeval_to_timeout`] for the exact outcome.
pub fn timeval_to_timeout(tv: Timeval) -> (r: Option<TimeDuration>)
    requires
        tv.wf(),
    ensures
        r == spec_timeval_to_timeout(tv),
{
    if tv.tv_sec == 0 && tv.tv_usec == 0 {
        None
    } else {
        Some(
            TimeDuration {
                secs: tv.tv_sec as u64,
                nanos: (tv.tv_usec as u32) * NANOS_PER_MICRO,
            },
        )
    }
}

/// A duration reduced to what the timeout layout can carry: truncated to
/// whole microseconds, except that a positive duration below one
/// microsecond becomes exactly one microsecond.
pub open spec fn spec_micros_truncated(d: TimeDuration) -> TimeDuration {
    if d.secs == 0 && d.nanos < NANOS_PER_MICRO {
        TimeDuration { secs: 0, nanos: NANOS_PER_MICRO }
    } else {
        TimeDuration { secs: d.secs, nanos: ((d.nanos / NANOS_PER_MICRO) * NANOS_PER_MICRO) as u32 }
    }
}

/// Setting a representable non-zero timeout and reading it back returns the
/// same duration within microsecond precision: the serialized pair decodes
/// to the duration truncated to whole microseconds, sub-microsecond
/// settings having been coerced up to one microsecond.
pub proof fn lemma_timeout_round_trip(d: TimeDuration)
    requires
        d.wf(),
        !d.spec_is_zero(),
        d.secs <= i64::MAX as u64,
    ensures
        spec_timeout_to_timeval(Some(d)) matches Ok(tv) && spec_timeval_to_timeout(tv) == Some(
            spec_micros_truncated(d),
        ),
{
}

/// Setting "no timeout" serializes to the `(0, 0)` pair, and reading that
/// pair back reports "no timeout" again.
pub proof fn lemma_no_timeout_round_trip()
    ensures
        spec_timeout_to_timeval(None) matches Ok(tv) && spec_timeval_to_timeout(tv)
            == None::<TimeDuration>,
{
}

/// The four-byte little-endian payload of an integer option value.
pub open spec fn spec_int_option_bytes(v: i32) -> Seq<u8> {
    seq![
        ((v as u32) & 0xff) as u8,
        (((v as u32) >> 8) & 0xff) as u8,
        (((v as u32) >> 16) & 0xff) as u8,
        ((v as u32) >> 24) as u8,
    ]
}

/// Serializes an integer option value into its four-byte little-endian
/// payload.
pub fn encode_int_option(v: i32) -> (r: Vec<u8>)
    ensures
        r@ == spec_int_option_bytes(v),
        r@.len() == INT_OPTION_LEN,
        spec_u32_le(r@[0], r@[1], r@[2], r@[3]) == v as u32,
{
    let u = v as u32;
    let mut r: Vec<u8> = Vec::new();
    r.push((u & 0xff) as u8);
    r.push(((u >> 8) & 0xff) as u8);
    r.push(((u >> 16) & 0xff) as u8);
    r.push((u >> 24) as u8);
    proof {
        lemma_u32_le_split(u);
        assert(r@ =~= spec_int_option_bytes(v));
    }
    r
}

/// Reads an integer option value out of its four-byte little-endian
/// payload; any other payload size is a size mismatch and yields
/// `OptionError` rather than a partially filled value.
pub fn decode_int_option(payload: &Vec<u8>) -> (r: Result<i32, SocketError>)
    ensures
        payload@.len() != INT_OPTION_LEN ==> r == Err::<i32, SocketError>(SocketError::OptionError),
        payload@.len() == INT_OPTION_LEN ==> r == Ok::<i32, SocketError>(
            spec_u32_le(payload@[0], payload@[1], payload@[2], payload@[3]) as i32,
        ),
{
    if payload.len() != INT_OPTION_LEN {
        Err(SocketError::OptionError)
    } else {
        let u = ((payload[3] as u32) << 24) | ((payload[2] as u32) << 16) | ((payload[1] as u32)
            << 8) | (payload[0] as u32);
        Ok(u as i32)
    }
}

/// What reading an unsigned integer option yields: a rejected call or a
/// mis-sized payload is an `OptionError`, otherwise the four little-endian
/// payload bytes carry the value.
pub open spec fn spec_u32_le_option(payload: Seq<u8>, engine_status: i32) -> Result<
    u32,
    SocketError,
> {
    if engine_status < 0 {
        Err(SocketError::OptionError)
    } else if payload.len() != INT_OPTION_LEN {
        Err(SocketError::OptionError)
    } else {
        Ok(spec_u32_le(payload[0], payload[1], payload[2], payload[3]))
    }
}

/// Reads an unsigned integer option value out of the payload the engine
/// returned; see [`spec_u32_le_option`] for the exact outcome.
pub fn read_u32_option(payload: &Vec<u8>, engine_status: i32) -> (r: Result<u32, SocketError>)
    ensures
        r == spec_u32_le_option(payload@, engine_status),
{
    if engine_status < 0 {
        Err(SocketError::OptionError)
    } else if payload.len() != INT_OPTION_LEN {
        Err(SocketError::OptionError)
    } else {
        let u = ((payload[3] as u32) << 24) | ((payload[2] as u32) << 16) | ((payload[1] as u32)
            << 8) | (payload[0] as u32);
        Ok(u)
    }
}

/// Judges an engine set-option call: writes of exactly the payload's size
/// either take effect or are rejected by the engine, whose rejection
/// surfaces as `OptionError`.
pub fn setsockopt(level: i32, name: i32, payload: &Vec<u8>, engine_status: i32) -> (r: Result<
    (),
    SocketError,
>)
    ensures
        engine_status < 0 ==> r == Err::<(), SocketError>(SocketError::OptionError),
        engine_status >= 0 ==> r == Ok::<(), SocketError>(()),
{
    if engine_status < 0 {
        Err(SocketError::OptionError)
    } else {
        Ok(())
    }
}

/// Judges an engine get-option call: a rejected call or a returned payload
/// whose size does not match the expected size for the requested option
/// yields `OptionError`; on success the payload passes through whole, never
/// partially filled.
pub fn getsockopt(level: i32, name: i32, expected_len: usize, payload: Vec<u8>, engine_status: i32)
    -> (r: Result<Vec<u8>, SocketError>)
    ensures
        engine_status < 0 ==> r == Err::<Vec<u8>, SocketError>(SocketError::OptionError),
        engine_status >= 0 && payload@.len() != expected_len ==> r == Err::<Vec<u8>, SocketError>(
            SocketError::OptionError,
        ),
        engine_status >= 0 && payload@.len() == expected_len ==> (r matches Ok(p) && p@
            == payload@),
{
    if engine_status < 0 {
        Err(SocketError::OptionError)
    } else if payload.len() != expected_len {
        Err(SocketError::OptionError)
    } else {
        Ok(payload)
    }
}

} // verus!
