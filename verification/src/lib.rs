//! Common exit codes for applications, after the BSD `sysexits.h` convention,
//! and two predicates that classify an arbitrary exit code.
//!
//! The named codes are plain `i32` constants, fit to be handed to whatever
//! ends the process. The predicates are total: they take any `i32`, and their
//! contracts are stated over the mathematical integers by [`reserved`] and
//! [`valid`].

use vstd::prelude::*;

verus! {

/// Successful termination.
pub const SUCCESS: i32 = 0;

/// Unsuccessful termination. This is a catch-all error code that should only
/// be used by processes if the reason for the failure is unknown.
pub const FAILURE: i32 = 1;

/// The command was used incorrectly, e.g., with the wrong number of arguments,
/// a bad flag, or a bad syntax in a parameter.
pub const USAGE_ERROR: i32 = 64;

/// The input data was incorrect in some way. This should only be used for
/// user's data and not system files.
pub const DATA_ERROR: i32 = 65;

/// An input file (not a system file) did not exist or was not readable.
pub const NO_INPUT: i32 = 66;

/// The user specified did not exist. This might be used for mail addresses or
/// remote logins.
pub const NO_USER: i32 = 67;

/// The host specified did not exist. This is used in mail addresses or network
/// requests.
pub const NO_HOST: i32 = 68;

/// A service is unavailable. This can occur if a support program or file does
/// not exist. It also serves as a catch-all when something that was wanted
/// does not work and the reason is not known.
pub const SERVICE_UNAVAILABLE: i32 = 69;

/// An internal software error has been detected. This should be limited to
/// errors that are not related to the operating system.
pub const SOFTWARE_ERROR: i32 = 70;

/// An operating system error has been detected, such as "cannot fork" or
/// "cannot create pipe", or `getuid` returning a user that does not exist in
/// the `passwd` file.
pub const OS_ERROR: i32 = 71;

/// Some system file (e.g., `/etc/passwd`, `/var/run/utmp`) does not exist,
/// cannot be opened, or has some sort of error (e.g., a syntax error).
pub const OS_FILE_ERROR: i32 = 72;

/// A (user specified) output file cannot be created.
pub const CANNOT_CREATE: i32 = 73;

/// An error occurred while doing I/O on some file.
pub const IO_ERROR: i32 = 74;

/// Temporary failure, indicating something that is not really an error: the
/// request should be attempted again later.
pub const TEMPORARY_FAILURE: i32 = 75;

/// The remote system returned something that was "not possible" during a
/// protocol exchange.
pub const PROTOCOL_ERROR: i32 = 76;

/// Insufficient permissions to perform an operation. This is not intended for
/// file system problems, which should use `NO_INPUT` or `CANNOT_CREATE`, but
/// rather for higher level permissions.
pub const NO_PERMISSION: i32 = 77;

/// Something was found in an unconfigured or misconfigured state.
pub const CONFIG_ERROR: i32 = 78;

/// The codes that have a name in this crate.
pub open spec fn named(code: int) -> bool {
    ||| code == SUCCESS
    ||| code == FAILURE
    ||| code == USAGE_ERROR
    ||| code == DATA_ERROR
    ||| code == NO_INPUT
    ||| code == NO_USER
    ||| code == NO_HOST
    ||| code == SERVICE_UNAVAILABLE
    ||| code == SOFTWARE_ERROR
    ||| code == OS_ERROR
    ||| code == OS_FILE_ERROR
    ||| code == CANNOT_CREATE
    ||| code == IO_ERROR
    ||| code == TEMPORARY_FAILURE
    ||| code == PROTOCOL_ERROR
    ||| code == NO_PERMISSION
    ||| code == CONFIG_ERROR
}

/// The codes to which a shell or the operating system gives a meaning of its
/// own. They lie in three inclusive ranges:
///
/// | Codes      | Meaning                                                |
/// |------------|--------------------------------------------------------|
/// | 0 to 2     | success, general error, misuse of shell built-ins      |
/// | 64 to 78   | the application failures of `sysexits.h`               |
/// | 126 to 137 | command cannot execute (126), command not found (127), |
/// |            | fatal signal `n` (128 + `n`, for `n` from 0 to 9)      |
pub open spec fn reserved(code: int) -> bool {
    ||| 0 <= code <= 2
    ||| 64 <= code <= 78
    ||| 126 <= code <= 137
}

/// The codes that a process can hand to its parent as its exit status:
/// 0 to 255, both included.
pub open spec fn valid(code: int) -> bool {
    0 <= code <= 255
}

/// Check if the given exit code is reserved.
///
/// Reserved exit codes are the ones that have a special meaning in a shell;
/// [`reserved`] lists them. Every `i32` is accepted, and a code outside the
/// three ranges, negative or large, is simply not reserved.
pub fn is_reserved(c: i32) -> (r: bool)
    ensures
        r == reserved(c as int),
{
    (0 <= c && c <= 2) || (64 <= c && c <= 78) || (126 <= c && c <= 137)
}

/// Check if the given exit code is valid.
///
/// Valid exit codes are those from 0 to 255. Every `i32` is accepted: this is
/// the test to make before relying on a code that came from elsewhere.
pub fn is_valid(c: i32) -> (r: bool)
    ensures
        r == valid(c as int),
{
    0 <= c && c <= 255
}

/// Every reserved code is a valid exit status.
pub proof fn lemma_reserved_is_valid(code: int)
    requires
        reserved(code),
    ensures
        valid(code),
{
}

/// Every code that has a name in this crate is both reserved and valid, so
/// the catalogue and the two predicates agree.
pub proof fn lemma_named_is_reserved_and_valid(code: int)
    requires
        named(code),
    ensures
        reserved(code),
        valid(code),
{
    lemma_reserved_is_valid(code);
}

/// `is_reserved` can be called on every `i32`, and its result depends on the
/// argument alone: whatever two calls on the same code return, they return the
/// same.
pub proof fn lemma_is_reserved_deterministic(c: i32, first: bool, second: bool)
    requires
        call_ensures(is_reserved, (c,), first),
        call_ensures(is_reserved, (c,), second),
    ensures
        call_requires(is_reserved, (c,)),
        first == second,
{
}

/// `is_valid` can be called on every `i32`, and its result depends on the
/// argument alone: whatever two calls on the same code return, they return the
/// same.
pub proof fn lemma_is_valid_deterministic(c: i32, first: bool, second: bool)
    requires
        call_ensures(is_valid, (c,), first),
        call_ensures(is_valid, (c,), second),
    ensures
        call_requires(is_valid, (c,)),
        first == second,
{
}

} // verus!
