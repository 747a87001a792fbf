//! What opening an output stream decides, and how it can fail.

use crate::callback::CallbackSpeedError;
use vstd::prelude::*;
use vstd::std_specs::convert::FromSpecImpl;

verus! {

/// The sample representations that a device may offer.
#[derive(Clone, Copy, Debug, PartialEq, Eq)]
pub enum SampleFormat {
    I8,
    I16,
    I32,
    I64,
    U8,
    U16,
    U32,
    U64,
    F32,
    F64,
    /// A representation that has no name here.
    Other,
}

/// The two representations that the callback can write.
#[derive(Clone, Copy, Debug, PartialEq, Eq)]
pub enum SampleWidth {
    /// 32-bit floating point.
    Single,
    /// 64-bit floating point.
    Double,
}

/// Why a server could not be set up, or what its stream reported. Failures
/// of the audio backend are carried as the sentence the backend gave.
#[derive(Clone, Debug, PartialEq, Eq)]
pub enum Error {
    /// The output stream could not be built.
    BuildStreamError(String),
    /// A buffer took too long to fill.
    CallbackSpeedError(CallbackSpeedError),
    /// The device did not tell its default configuration.
    DefaultStreamConfigError(String),
    /// The devices could not be listed.
    DevicesError(String),
    /// The host has no output device.
    NoDevices,
    /// The device did not tell which configurations it supports.
    SupportedStreamConfigsError(String),
    /// The device offers a representation that the callback cannot write.
    UnsupportedSampleFormat(SampleFormat),
}

impl From<CallbackSpeedError> for Error {
    /// Wraps a report of a slow callback.
    fn from(report: CallbackSpeedError) -> (e: Self)
        ensures
            e == Error::CallbackSpeedError(report),
    {
        Error::CallbackSpeedError(report)
    }
}

impl FromSpecImpl<CallbackSpeedError> for Error {
    open spec fn obeys_from_spec() -> bool {
        true
    }

    open spec fn from_spec(report: CallbackSpeedError) -> Self {
        Error::CallbackSpeedError(report)
    }
}

impl Error {
    /// The sentence that describes the error.
    pub fn message(&self) -> (text: &str)
        ensures
            match *self {
                Error::BuildStreamError(s) => text@ == s@,
                Error::CallbackSpeedError(e) => text@
                    == "a stream data callback took too long to execute"@,
                Error::DefaultStreamConfigError(s) => text@ == s@,
                Error::DevicesError(s) => text@ == s@,
                Error::NoDevices => text@ == "the host has no available devices"@,
                Error::SupportedStreamConfigsError(s) => text@ == s@,
                Error::UnsupportedSampleFormat(_) => text@
                    == "sample format of default output device not supported"@,
            },
    {
        match self {
            Error::BuildStreamError(s) => s.as_str(),
            Error::CallbackSpeedError(e) => e.message(),
            Error::DefaultStreamConfigError(s) => s.as_str(),
            Error::DevicesError(s) => s.as_str(),
            Error::NoDevices => "the host has no available devices",
            Error::SupportedStreamConfigsError(s) => s.as_str(),
            Error::UnsupportedSampleFormat(_) => "sample format of default output device not supported",
        }
    }
}

/// Picks the representation that the callback will write for a device that
/// offers `format`. Only the two floating-point formats can be written; any
/// other is turned down.
pub fn sample_width(format: SampleFormat) -> (width: Result<SampleWidth, Error>)
    ensures
        format == SampleFormat::F32 ==> width == Ok::<SampleWidth, Error>(SampleWidth::Single),
        format == SampleFormat::F64 ==> width == Ok::<SampleWidth, Error>(SampleWidth::Double),
        format != SampleFormat::F32 && format != SampleFormat::F64 ==> width == Err::<
            SampleWidth,
            Error,
        >(Error::UnsupportedSampleFormat(format)),
{
    match format {
        SampleFormat::F32 => Ok(SampleWidth::Single),
        SampleFormat::F64 => Ok(SampleWidth::Double),
        _ => Err(Error::UnsupportedSampleFormat(format)),
    }
}

} // verus!
