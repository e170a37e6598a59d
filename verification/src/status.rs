//! Exit status decoding and the one-word result-cell convention used to
//! carry the child branch's outcome back to the parent across a spawn.

use vstd::prelude::*;

verus! {

/// The error carried by every fallible operation of this crate: a raw
/// kernel error number, in the range the kernel itself uses (1..=131).
#[derive(Clone, Copy, PartialEq, Eq, Structural, Debug)]
pub struct Error {
    errno: i32,
}

impl Error {
    pub closed spec fn spec_errno(self) -> i32 {
        self.errno
    }

    pub fn new(errno: i32) -> (r: Error)
        ensures
            r.spec_errno() == errno,
    {
        Error { errno }
    }

    pub fn errno(&self) -> (r: i32)
        ensures
            r == self.spec_errno(),
    {
        self.errno
    }
}

/// The raw status word of a reaped child process. `success` is true
/// exactly when the whole word is zero; `code` reinterprets the low
/// 32 bits of the word as a signed exit code.
pub struct ExitStatus {
    status: usize,
}

impl View for ExitStatus {
    type V = usize;

    closed spec fn view(&self) -> usize {
        self.status
    }
}

/// The low 32 bits of a word, reinterpreted as a signed value.
pub open spec fn low32_signed(w: usize) -> int {
    let low = (w as nat) % 0x1_0000_0000;
    if low < 0x8000_0000 {
        low as int
    } else {
        low - 0x1_0000_0000
    }
}

impl ExitStatus {
    pub fn from_raw(status: usize) -> (r: ExitStatus)
        ensures
            r@ == status,
    {
        ExitStatus { status }
    }

    pub fn success(&self) -> (r: bool)
        ensures
            r == (self@ == 0),
    {
        self.status == 0
    }

    pub fn code(&self) -> (r: Option<i32>)
        ensures
            r matches Some(c) && c as int == low32_signed(self@),
    {
        let w: u64 = self.status as u64;
        let low: u64 = w % 0x1_0000_0000;
        let c: i32 = if low < 0x8000_0000 {
            low as i32
        } else {
            ((low as i64) - 0x1_0000_0000) as i32
        };
        Some(c)
    }
}

/// How many distinct error numbers the result-cell convention carries:
/// the kernel's error numbers all lie in 1..=131.
pub open spec fn max_errno() -> int {
    131
}

/// A result-cell word carries an error exactly when it lies in the top
/// `max_errno()` values of the word range; such a word is the two's
/// complement of the error number.
pub open spec fn word_is_error(w: usize) -> bool {
    w > usize::MAX - max_errno()
}

/// The error number carried by an error word.
pub open spec fn word_errno(w: usize) -> int {
    usize::MAX - w + 1
}

/// The word that carries a given error number.
pub open spec fn spec_error_word(errno: int) -> usize
    recommends
        1 <= errno <= max_errno(),
{
    (usize::MAX - errno + 1) as usize
}

/// Encode a spawn failure for the shared result cell.
pub fn error_word(e: &Error) -> (w: usize)
    requires
        1 <= e.spec_errno() <= max_errno(),
    ensures
        w == spec_error_word(e.spec_errno() as int),
        word_is_error(w),
        word_errno(w) == e.spec_errno(),
{
    let errno = e.errno();
    usize::MAX - (errno as usize) + 1
}

/// Decode the word read from the shared result cell after a spawn: the
/// top `max_errno()` words carry the error number of a failed exec, and
/// every other word reports success.
pub fn decode_result_word(w: usize) -> (r: Result<usize, Error>)
    ensures
        word_is_error(w) ==> (r matches Err(e) && e.spec_errno() as int == word_errno(w)),
        !word_is_error(w) ==> r == Result::<usize, Error>::Ok(w),
{
    if w > usize::MAX - 131 {
        let errno: usize = usize::MAX - w + 1;
        Err(Error::new(errno as i32))
    } else {
        Ok(w)
    }
}

/// A word written for an error number decodes back to exactly that error
/// number, and a word outside the error range always reports success:
/// the result cell loses no failure and invents none.
pub proof fn lemma_result_word_roundtrip(errno: int, w: usize)
    ensures
        1 <= errno <= max_errno() ==> word_is_error(spec_error_word(errno)) && word_errno(
            spec_error_word(errno),
        ) == errno,
        w <= usize::MAX - max_errno() ==> !word_is_error(w),
{
}

} // verus!
