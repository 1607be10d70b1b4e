//! The error type shared by all wrappers.

use vstd::prelude::*;

use crate::sys;
use crate::text::{decimal, push_decimal, push_str, string_of};

verus! {

/// The result type of the wrappers.
pub type Result<T, E = Error> = core::result::Result<T, E>;

/// Everything that can go wrong in a wrapper call.
#[derive(Debug, Clone, Copy, PartialEq, Eq, Structural)]
pub enum Error {
    /// libavif returned an error code.
    Code(sys::avifResult),
    /// libavif failed to allocate the memory needed to create an object.
    AllocationFailed,
    /// libavif reported success but produced no output data.
    EmptyOutput,
    /// The image's bit depth was not one of the four depths libavif
    /// supports (8, 10, 12, or 16).
    InvalidDepth(u32),
    /// The caller-provided pixel buffer was too small for the declared
    /// image dimensions.
    BufferTooSmall { required: usize, len: usize },
    /// The caller-provided pixel buffer was not aligned as libavif requires.
    MisalignedBuffer { required: usize },
    /// Computing the size required to hold the declared image dimensions
    /// overflowed.
    SizeOverflow,
}

impl Error {
    /// The text that describes this error; `code_text` is libavif's own
    /// description of the code, which stands for an [`Error::Code`].
    pub open spec fn message(self, code_text: Seq<char>) -> Seq<char> {
        match self {
            Error::Code(_) => code_text,
            Error::AllocationFailed => "libavif failed to allocate memory"@,
            Error::EmptyOutput => "libavif reported success but produced no output data"@,
            Error::InvalidDepth(depth) => "image bit depth of "@ + decimal(depth as nat)
                + " is not supported; expected 8, 10, 12, or 16"@,
            Error::BufferTooSmall { required, len } => "pixel buffer of "@ + decimal(len as nat)
                + " bytes is too small; "@ + decimal(required as nat) + " bytes are required"@,
            Error::MisalignedBuffer { required } => "pixel buffer is not "@ + decimal(
                required as nat,
            ) + "-byte aligned"@,
            Error::SizeOverflow =>
                "required pixel buffer size for the declared image dimensions overflowed"@,
        }
    }

    /// Describes this error in words, as its `Display` shows it; `code_text`
    /// is libavif's description of the code, used for an [`Error::Code`].
    pub fn describe(&self, code_text: &str) -> (s: String)
        ensures
            s@ == self.message(code_text@),
    {
        let mut v: Vec<char> = Vec::new();
        match *self {
            Error::Code(_) => push_str(&mut v, code_text),
            Error::AllocationFailed => push_str(&mut v, "libavif failed to allocate memory"),
            Error::EmptyOutput => push_str(
                &mut v,
                "libavif reported success but produced no output data",
            ),
            Error::InvalidDepth(depth) => {
                push_str(&mut v, "image bit depth of ");
                push_decimal(&mut v, depth as u64);
                push_str(&mut v, " is not supported; expected 8, 10, 12, or 16");
            },
            Error::BufferTooSmall { required, len } => {
                push_str(&mut v, "pixel buffer of ");
                push_decimal(&mut v, len as u64);
                push_str(&mut v, " bytes is too small; ");
                push_decimal(&mut v, required as u64);
                push_str(&mut v, " bytes are required");
            },
            Error::MisalignedBuffer { required } => {
                push_str(&mut v, "pixel buffer is not ");
                push_decimal(&mut v, required as u64);
                push_str(&mut v, "-byte aligned");
            },
            Error::SizeOverflow => push_str(
                &mut v,
                "required pixel buffer size for the declared image dimensions overflowed",
            ),
        }
        assert(v@ =~= self.message(code_text@));
        string_of(v.as_slice())
    }
}

impl From<sys::avifResult> for Error {
    fn from(result: sys::avifResult) -> (e: Self) {
        Error::Code(result)
    }
}

impl vstd::std_specs::convert::FromSpecImpl<sys::avifResult> for Error {
    open spec fn obeys_from_spec() -> bool {
        true
    }

    open spec fn from_spec(result: sys::avifResult) -> Self {
        Error::Code(result)
    }
}

impl sys::avifResult {
    /// `Ok(())` for the success code, the code wrapped in [`Error::Code`]
    /// otherwise.
    pub fn check(self) -> (res: Result<()>)
        ensures
            self.is_ok_spec() ==> res is Ok,
            !self.is_ok_spec() ==> res == Err::<(), Error>(Error::Code(self)),
    {
        if self.0 != sys::AVIF_RESULT_OK {
            return Err(Error::Code(self));
        }
        Ok(())
    }
}

} // verus!
