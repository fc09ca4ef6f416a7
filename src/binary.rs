//! Binary encoding of a call result.
use vstd::prelude::*;

verus! {

/// Return type of every call: a pair of words, `error` in the first register
/// and `value` in the second.
#[derive(Clone, Copy, PartialEq, Eq, Structural)]
pub struct SbiRet {
    /// Error number
    pub error: usize,
    /// Result value
    pub value: usize,
}

/// Success state.
pub const RET_SUCCESS: usize = 0;

/// The call failed for unknown reasons (code -1).
pub const RET_ERR_FAILED: usize = usize::MAX;

/// The operation is not supported (code -2).
pub const RET_ERR_NOT_SUPPORTED: usize = usize::MAX - 1;

/// A parameter is invalid (code -3).
pub const RET_ERR_INVALID_PARAM: usize = usize::MAX - 2;

/// The call was denied (code -4).
pub const RET_ERR_DENIED: usize = usize::MAX - 3;

/// An address is invalid (code -5).
pub const RET_ERR_INVALID_ADDRESS: usize = usize::MAX - 4;

/// The resource is already available (code -6).
pub const RET_ERR_ALREADY_AVAILABLE: usize = usize::MAX - 5;

/// The resource is already started (code -7).
pub const RET_ERR_ALREADY_STARTED: usize = usize::MAX - 6;

/// The resource is already stopped (code -8).
pub const RET_ERR_ALREADY_STOPPED: usize = usize::MAX - 7;

/// The word that holds the signed number `code` in two's complement.
pub open spec fn word_of(code: int) -> usize {
    if code < 0 {
        (code + usize::MAX + 1) as usize
    } else {
        code as usize
    }
}

/// The signed number that the word `w` holds in two's complement.
pub open spec fn signed_of(w: usize) -> int {
    if w > isize::MAX {
        w - usize::MAX - 1
    } else {
        w as int
    }
}

/// Error of a call, by category.
#[derive(Debug, Clone, Copy, PartialEq, Eq, Structural)]
pub enum Error {
    /// The call failed for unknown reasons
    Failed,
    /// The operation is not supported
    NotSupported,
    /// A parameter is invalid
    InvalidParam,
    /// The call was denied
    Denied,
    /// An address is invalid
    InvalidAddress,
    /// The resource is already available
    AlreadyAvailable,
    /// The resource is already started
    AlreadyStarted,
    /// The resource is already stopped
    AlreadyStopped,
    /// Any other error code, kept as it came
    Custom(isize),
}

impl Error {
    /// The signed error code of this category.
    pub open spec fn code(self) -> int {
        match self {
            Error::Failed => -1,
            Error::NotSupported => -2,
            Error::InvalidParam => -3,
            Error::Denied => -4,
            Error::InvalidAddress => -5,
            Error::AlreadyAvailable => -6,
            Error::AlreadyStarted => -7,
            Error::AlreadyStopped => -8,
            Error::Custom(c) => c as int,
        }
    }

    /// One of the eight categories that the standard names.
    pub open spec fn is_standard(self) -> bool {
        !(self is Custom)
    }

    /// The category of a signed error code: a standard one where the code is
    /// among -1 to -8, else `Custom` with the code itself.
    pub open spec fn from_code(code: int) -> Error {
        if code == -1 {
            Error::Failed
        } else if code == -2 {
            Error::NotSupported
        } else if code == -3 {
            Error::InvalidParam
        } else if code == -4 {
            Error::Denied
        } else if code == -5 {
            Error::InvalidAddress
        } else if code == -6 {
            Error::AlreadyAvailable
        } else if code == -7 {
            Error::AlreadyStarted
        } else if code == -8 {
            Error::AlreadyStopped
        } else {
            Error::Custom(code as isize)
        }
    }
}

impl SbiRet {
    /// The record that reports error `e`: its code in the first word, zero in
    /// the second.
    pub open spec fn of_error(e: Error) -> SbiRet {
        SbiRet { error: word_of(e.code()), value: 0 }
    }

    /// The record reports success.
    pub open spec fn is_success(self) -> bool {
        self.error == RET_SUCCESS
    }

    /// What the record means: `Ok` with the value on success, else the
    /// category of the signed error code.
    pub open spec fn outcome(self) -> Result<usize, Error> {
        if self.is_success() {
            Ok(self.value)
        } else {
            Err(Error::from_code(signed_of(self.error)))
        }
    }

    /// How the record reads: the value in decimal on success, a fixed phrase
    /// for each standard error, and the word in hexadecimal for any other.
    pub open spec fn text(self) -> Seq<char> {
        if self.error == RET_SUCCESS {
            radix_text(self.value as nat, 10)
        } else if self.error == RET_ERR_FAILED {
            "<SBI call failed>"@
        } else if self.error == RET_ERR_NOT_SUPPORTED {
            "<SBI feature not supported>"@
        } else if self.error == RET_ERR_INVALID_PARAM {
            "<SBI invalid parameter>"@
        } else if self.error == RET_ERR_DENIED {
            "<SBI denied>"@
        } else if self.error == RET_ERR_INVALID_ADDRESS {
            "<SBI invalid address>"@
        } else if self.error == RET_ERR_ALREADY_AVAILABLE {
            "<SBI already available>"@
        } else if self.error == RET_ERR_ALREADY_STARTED {
            "<SBI already started>"@
        } else if self.error == RET_ERR_ALREADY_STOPPED {
            "<SBI already stopped>"@
        } else {
            "[SBI Unknown error: 0x"@ + radix_text(self.error as nat, 16) + "]"@
        }
    }

    /// Returns a success state carrying `value`.
    pub fn success(value: usize) -> (r: Self)
        ensures
            r.error == RET_SUCCESS,
            r.value == value,
    {
        Self { error: RET_SUCCESS, value }
    }

    /// The call failed for unknown reasons.
    pub fn failed() -> (r: Self)
        ensures
            r == SbiRet::of_error(Error::Failed),
            r.error == RET_ERR_FAILED,
    {
        Self { error: RET_ERR_FAILED, value: 0 }
    }

    /// The operation is not supported by the target, its type is not
    /// supported, or it is left unimplemented on purpose.
    pub fn not_supported() -> (r: Self)
        ensures
            r == SbiRet::of_error(Error::NotSupported),
            r.error == RET_ERR_NOT_SUPPORTED,
    {
        Self { error: RET_ERR_NOT_SUPPORTED, value: 0 }
    }

    /// A hart mask, hart id, operation type or resource index is invalid.
    pub fn invalid_param() -> (r: Self)
        ensures
            r == SbiRet::of_error(Error::InvalidParam),
            r.error == RET_ERR_INVALID_PARAM,
    {
        Self { error: RET_ERR_INVALID_PARAM, value: 0 }
    }

    /// The call was denied.
    pub fn denied() -> (r: Self)
        ensures
            r == SbiRet::of_error(Error::Denied),
            r.error == RET_ERR_DENIED,
    {
        Self { error: RET_ERR_DENIED, value: 0 }
    }

    /// A mask start address is invalid, an address is not a valid physical
    /// address, or the target address may not run in supervisor mode.
    pub fn invalid_address() -> (r: Self)
        ensures
            r == SbiRet::of_error(Error::InvalidAddress),
            r.error == RET_ERR_INVALID_ADDRESS,
    {
        Self { error: RET_ERR_INVALID_ADDRESS, value: 0 }
    }

    /// The target resource is already available, as a hart that is started
    /// when a caller asks to start it.
    pub fn already_available() -> (r: Self)
        ensures
            r == SbiRet::of_error(Error::AlreadyAvailable),
            r.error == RET_ERR_ALREADY_AVAILABLE,
    {
        Self { error: RET_ERR_ALREADY_AVAILABLE, value: 0 }
    }

    /// The target resource is already started, as a running performance
    /// counter.
    pub fn already_started() -> (r: Self)
        ensures
            r == SbiRet::of_error(Error::AlreadyStarted),
            r.error == RET_ERR_ALREADY_STARTED,
    {
        Self { error: RET_ERR_ALREADY_STARTED, value: 0 }
    }

    /// The target resource is already stopped, as a halted performance
    /// counter.
    pub fn already_stopped() -> (r: Self)
        ensures
            r == SbiRet::of_error(Error::AlreadyStopped),
            r.error == RET_ERR_ALREADY_STOPPED,
    {
        Self { error: RET_ERR_ALREADY_STOPPED, value: 0 }
    }

    /// Converts to a [`Result`] of value and error.
    pub fn into_result(self) -> (r: Result<usize, Error>)
        ensures
            r == self.outcome(),
    {
        if self.error == RET_SUCCESS {
            Ok(self.value)
        } else if self.error == RET_ERR_FAILED {
            Err(Error::Failed)
        } else if self.error == RET_ERR_NOT_SUPPORTED {
            Err(Error::NotSupported)
        } else if self.error == RET_ERR_INVALID_PARAM {
            Err(Error::InvalidParam)
        } else if self.error == RET_ERR_DENIED {
            Err(Error::Denied)
        } else if self.error == RET_ERR_INVALID_ADDRESS {
            Err(Error::InvalidAddress)
        } else if self.error == RET_ERR_ALREADY_AVAILABLE {
            Err(Error::AlreadyAvailable)
        } else if self.error == RET_ERR_ALREADY_STARTED {
            Err(Error::AlreadyStarted)
        } else if self.error == RET_ERR_ALREADY_STOPPED {
            Err(Error::AlreadyStopped)
        } else if self.error > isize::MAX as usize {
            Err(Error::Custom(-((usize::MAX - self.error) as isize) - 1))
        } else {
            Err(Error::Custom(self.error as isize))
        }
    }
    /// The record as text, for diagnostics.
    pub fn debug_text(&self) -> (r: String)
        ensures
            r@ == self.text(),
    {
        if self.error == RET_SUCCESS {
            radix_string(self.value, 10)
        } else if self.error == RET_ERR_FAILED {
            String::from_str("<SBI call failed>")
        } else if self.error == RET_ERR_NOT_SUPPORTED {
            String::from_str("<SBI feature not supported>")
        } else if self.error == RET_ERR_INVALID_PARAM {
            String::from_str("<SBI invalid parameter>")
        } else if self.error == RET_ERR_DENIED {
            String::from_str("<SBI denied>")
        } else if self.error == RET_ERR_INVALID_ADDRESS {
            String::from_str("<SBI invalid address>")
        } else if self.error == RET_ERR_ALREADY_AVAILABLE {
            String::from_str("<SBI already available>")
        } else if self.error == RET_ERR_ALREADY_STARTED {
            String::from_str("<SBI already started>")
        } else if self.error == RET_ERR_ALREADY_STOPPED {
            String::from_str("<SBI already stopped>")
        } else {
            let mut text = String::from_str("[SBI Unknown error: 0x");
            let digits = radix_string(self.error, 16);
            text.append(digits.as_str());
            text.append("]");
            text
        }
    }

    /// Returns `true` if the call succeeded.
    pub fn is_ok(&self) -> (r: bool)
        ensures
            r == self.is_success(),
    {
        self.error == RET_SUCCESS
    }

    /// Returns `true` if the call reported an error.
    pub fn is_err(&self) -> (r: bool)
        ensures
            r == !self.is_success(),
    {
        !self.is_ok()
    }

    /// Returns the value of a successful call.
    ///
    /// The record must report success; on an error the call would stop the
    /// program with `msg` and the error's category.
    pub fn expect(self, msg: &str) -> (r: usize)
        requires
            self.is_success(),
        ensures
            r == self.value,
    {
        self.into_result().expect(msg)
    }
}

broadcast use vstd::arithmetic::div_mod::lemma_div_decreases;

/// The character of digit `d`, lower-case letters past nine.
pub open spec fn digit_char(d: nat) -> char {
    seq!['0', '1', '2', '3', '4', '5', '6', '7', '8', '9', 'a', 'b', 'c', 'd', 'e', 'f'][d as int]
}

/// The digits of `n` in base `base`, most significant first, without leading
/// zeros.
pub open spec fn radix_text(n: nat, base: nat) -> Seq<char>
    decreases n,
{
    if base < 2 || n < base {
        seq![digit_char(n)]
    } else {
        radix_text(n / base, base).push(digit_char(n % base))
    }
}

fn digit_str(d: usize) -> (r: &'static str)
    requires
        d < 16,
    ensures
        r@ == seq![digit_char(d as nat)],
{
    let digits = "0123456789abcdef";
    proof {
        reveal_strlit("0123456789abcdef");
    }
    assert(digits@ =~= seq![
        '0', '1', '2', '3', '4', '5', '6', '7', '8', '9', 'a', 'b', 'c', 'd', 'e', 'f',
    ]);
    digits.substring_char(d, d + 1)
}

fn radix_string(n: usize, base: usize) -> (r: String)
    requires
        2 <= base <= 16,
    ensures
        r@ == radix_text(n as nat, base as nat),
{
    let mut rest: usize = n;
    let mut text = String::new();
    loop
        invariant
            2 <= base <= 16,
            radix_text(n as nat, base as nat) == radix_text(rest as nat, base as nat) + text@,
        decreases rest,
    {
        let d: usize = rest % base;
        let digit = String::from_str(digit_str(d));
        text = digit.concat(text.as_str());
        if rest < base {
            proof {
                vstd::arithmetic::div_mod::lemma_small_mod(rest as nat, base as nat);
            }
            assert(radix_text(n as nat, base as nat) =~= text@);
            return text;
        }
        let ghost before = rest;
        rest = rest / base;
        assert(radix_text(before as nat, base as nat) == radix_text(rest as nat, base as nat).push(
            digit_char(d as nat),
        ));
        assert(radix_text(n as nat, base as nat) =~= radix_text(rest as nat, base as nat) + text@);
    }
}

/// A success record reports success and classifies as `Ok` with its value,
/// for every value of the second word.
pub proof fn lemma_success_classifies(v: usize)
    ensures
        (SbiRet { error: RET_SUCCESS, value: v }).is_success(),
        (SbiRet { error: RET_SUCCESS, value: v }).outcome() == Ok::<usize, Error>(v),
{
}

/// A record built for a standard category reports an error and classifies as
/// exactly that category.
pub proof fn lemma_standard_error_classifies(e: Error)
    requires
        e.is_standard(),
    ensures
        !SbiRet::of_error(e).is_success(),
        SbiRet::of_error(e).outcome() == Err::<usize, Error>(e),
{
}

/// Encoding a standard category as a word and reading the word back gives the
/// category's code, and that code gives back the category.
pub proof fn lemma_standard_error_round_trip(e: Error)
    requires
        e.is_standard(),
    ensures
        signed_of(SbiRet::of_error(e).error) == e.code(),
        Error::from_code(signed_of(SbiRet::of_error(e).error)) == e,
{
}

/// A negative code outside the standard eight classifies as `Custom` with
/// exactly that code, and so as no standard category.
pub proof fn lemma_custom_error_classifies(code: isize, v: usize)
    requires
        code < 0,
        !(-8 <= code <= -1),
    ensures
        (SbiRet { error: word_of(code as int), value: v }).outcome() == Err::<usize, Error>(
            Error::Custom(code),
        ),
        !Error::Custom(code).is_standard(),
{
}

/// Classification is total and loses nothing: every error word classifies as
/// a category whose code is the word's signed value.
pub proof fn lemma_classification_keeps_code(w: usize)
    requires
        w != RET_SUCCESS,
    ensures
        (SbiRet { error: w, value: 0 }).outcome() is Err,
        (SbiRet { error: w, value: 0 }).outcome()->Err_0.code() == signed_of(w),
{
}

} // verus!
