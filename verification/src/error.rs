//! The error taxonomy: a closed set of POSIX-style fault codes plus a
//! catch-all numeric variant for unrecognized host status codes.
use vstd::prelude::*;

verus! {

/// A named fault reported by the host environment. Every allocation path in
/// this library fails with `ENOMEM`; the remaining variants let the same
/// result type carry other host-reported faults. An unrecognized magnitude
/// is preserved in `Unknown` for diagnostics.
#[allow(non_camel_case_types)]
#[derive(Copy, Clone, Debug, PartialEq, Eq, Structural)]
pub enum KernelError {
    EPERM,
    ENOENT,
    EIO,
    EAGAIN,
    ENOMEM,
    EACCES,
    EFAULT,
    EBUSY,
    EEXIST,
    ENODEV,
    EINVAL,
    Unknown(i32),
}

/// The unified result type of this library.
pub type KernelResult<T> = Result<T, KernelError>;

/// Magnitude of a raw host status code: its absolute value, except that
/// `i32::MIN`, whose absolute value does not fit in `i32`, is kept as
/// itself so that the raw value is still preserved for diagnostics.
pub open spec fn code_magnitude(code: i32) -> i32 {
    if code == i32::MIN {
        code
    } else if code < 0 {
        (-(code as int)) as i32
    } else {
        code
    }
}

/// Classification of a signed host status code: the fixed table of known
/// magnitudes, with everything else preserved in `Unknown`. Total and
/// deterministic.
pub open spec fn error_from_code(code: i32) -> KernelError {
    let magnitude = code_magnitude(code);
    if magnitude == 1 {
        KernelError::EPERM
    } else if magnitude == 2 {
        KernelError::ENOENT
    } else if magnitude == 5 {
        KernelError::EIO
    } else if magnitude == 11 {
        KernelError::EAGAIN
    } else if magnitude == 12 {
        KernelError::ENOMEM
    } else if magnitude == 13 {
        KernelError::EACCES
    } else if magnitude == 14 {
        KernelError::EFAULT
    } else if magnitude == 16 {
        KernelError::EBUSY
    } else if magnitude == 17 {
        KernelError::EEXIST
    } else if magnitude == 19 {
        KernelError::ENODEV
    } else if magnitude == 22 {
        KernelError::EINVAL
    } else {
        KernelError::Unknown(magnitude)
    }
}

impl From<i32> for KernelError {
    /// Maps the magnitude of the raw code over the fixed table; what it
    /// returns is pinned down by `error_from_code` (via `from_spec`).
    fn from(val: i32) -> (r: Self) {
        let magnitude: i32 = if val == i32::MIN {
            val
        } else if val < 0 {
            -val
        } else {
            val
        };
        match magnitude {
            1 => KernelError::EPERM,
            2 => KernelError::ENOENT,
            5 => KernelError::EIO,
            11 => KernelError::EAGAIN,
            12 => KernelError::ENOMEM,
            13 => KernelError::EACCES,
            14 => KernelError::EFAULT,
            16 => KernelError::EBUSY,
            17 => KernelError::EEXIST,
            19 => KernelError::ENODEV,
            22 => KernelError::EINVAL,
            _ => KernelError::Unknown(magnitude),
        }
    }
}

impl vstd::std_specs::convert::FromSpecImpl<i32> for KernelError {
    open spec fn obeys_from_spec() -> bool {
        true
    }

    open spec fn from_spec(v: i32) -> Self {
        error_from_code(v)
    }
}

} // verus!
