//! Our error enum.

use vstd::prelude::*;
use vstd::string::*;
use crate::fixed::append_nat;
use crate::fixed::nat_text;

verus! {

/// An error of a format library or of the system, in its own words.
#[derive(Clone, Debug, PartialEq, Eq)]
pub struct Upstream {
    /// The error's short description of its kind.
    pub description: String,
    /// The error in full.
    pub message: String,
}

/// What went wrong in the las format.
#[derive(Clone, Debug, PartialEq, Eq)]
pub enum LasError {
    /// The classification has no place in a las point.
    InvalidClassification(u8),
    /// The number of returns has no place in a las point.
    InvalidNumberOfReturns(usize),
    /// The point format is none that can be written.
    InvalidPointFormat(u8),
    /// The return number has no place in a las point.
    InvalidReturnNumber(usize),
    /// Any other failure of the las reader or writer.
    Upstream(Upstream),
}

/// What went wrong in the sdc format.
#[derive(Clone, Debug, PartialEq, Eq)]
pub enum SdcError {
    /// The number is no target type.
    InvalidTargetType(u8),
    /// The return number does not fit the target field.
    InvalidTarget(usize),
    /// The number of returns does not fit the field for the number of targets.
    InvalidNumberOfTargets(usize),
    /// Any other failure of the sdc reader or writer.
    Upstream(Upstream),
}

/// Our custom error handling type.
#[derive(Clone, Debug, PartialEq, Eq)]
pub enum Error {
    /// Invalid configuration for a source or sink.
    Configuration(String),
    /// The configuration could not be decoded.
    Decode(Upstream),
    /// An option that the source or sink does not support.
    InvalidOption(String),
    /// A failure of the system to read or write.
    Io(Upstream),
    /// A point is missing a dimension that is required by someone else, usually a `Sink`.
    MissingDimension(String),
    /// An error of the las format.
    Las(LasError),
    /// An error of the reader of the rxp format.
    Rxp(Upstream),
    /// An error of the sdc format.
    Sdc(SdcError),
    /// An error of the reader of the sdf format.
    Sdf(Upstream),
    /// No source was registered for a format whose extension is known.
    UndefinedSource,
    /// No sink was registered for a format whose extension is known.
    UndefinedSink,
    /// Unregistered file extension when intuiting a source or sink type.
    UnregisteredFileExtension(String),
}

/// A label followed by a text.
fn labelled(label: &str, text: &str) -> (s: String)
    ensures
        s@ == label@ + text@,
{
    let mut s: String = String::from_str(label);
    s.append(text);
    s
}

/// A label followed by the decimal digits of a number.
fn numbered(label: &str, n: u64) -> (s: String)
    ensures
        s@ == label@ + nat_text(n as nat),
{
    let mut s: String = String::from_str(label);
    append_nat(&mut s, n);
    s
}

impl LasError {
    /// A short description of the kind of error: that of the error of a
    /// format library or of the system, where this error wraps one.
    pub open spec fn description_text(&self) -> Seq<char> {
        match *self {
            LasError::InvalidClassification(_) => "invalid classification"@,
            LasError::InvalidNumberOfReturns(_) => "invalid number of returns"@,
            LasError::InvalidPointFormat(_) => "invalid point data format"@,
            LasError::InvalidReturnNumber(_) => "invalid return number"@,
            LasError::Upstream(inner) => inner.description@,
        }
    }

    /// The error in full.
    pub open spec fn message_text(&self) -> Seq<char> {
        match *self {
            LasError::InvalidClassification(n) => "Invalid classification: "@ + nat_text(n as nat),
            LasError::InvalidNumberOfReturns(n) => "Invalid number of returns: "@ + nat_text(
                n as nat,
            ),
            LasError::InvalidPointFormat(n) => "Invalid point data format: "@ + nat_text(n as nat),
            LasError::InvalidReturnNumber(n) => "Invalid return number: "@ + nat_text(n as nat),
            LasError::Upstream(inner) => inner.message@,
        }
    }

    /// A short description of the kind of error: that of the error of a
    /// format library or of the system, where this error wraps one.
    pub fn description(&self) -> (d: &str)
        ensures
            d@ == self.description_text(),
    {
        match self {
            LasError::InvalidClassification(_) => "invalid classification",
            LasError::InvalidNumberOfReturns(_) => "invalid number of returns",
            LasError::InvalidPointFormat(_) => "invalid point data format",
            LasError::InvalidReturnNumber(_) => "invalid return number",
            LasError::Upstream(inner) => inner.description.as_str(),
        }
    }

    /// The error in full.
    pub fn message(&self) -> (m: String)
        ensures
            m@ == self.message_text(),
    {
        match self {
            LasError::InvalidClassification(n) => numbered("Invalid classification: ", *n as u64),
            LasError::InvalidNumberOfReturns(n) => numbered(
                "Invalid number of returns: ",
                *n as u64,
            ),
            LasError::InvalidPointFormat(n) => numbered("Invalid point data format: ", *n as u64),
            LasError::InvalidReturnNumber(n) => numbered("Invalid return number: ", *n as u64),
            LasError::Upstream(inner) => String::from_str(inner.message.as_str()),
        }
    }
}

impl SdcError {
    /// A short description of the kind of error: that of the error of a
    /// format library or of the system, where this error wraps one.
    pub open spec fn description_text(&self) -> Seq<char> {
        match *self {
            SdcError::InvalidTargetType(_) => "invalid target type"@,
            SdcError::InvalidTarget(_) => "invalid target"@,
            SdcError::InvalidNumberOfTargets(_) => "invalid number of targets"@,
            SdcError::Upstream(inner) => inner.description@,
        }
    }

    /// The error in full.
    pub open spec fn message_text(&self) -> Seq<char> {
        match *self {
            SdcError::InvalidTargetType(n) => "Invalid target type: "@ + nat_text(n as nat),
            SdcError::InvalidTarget(n) => "Invalid target: "@ + nat_text(n as nat),
            SdcError::InvalidNumberOfTargets(n) => "Invalid number of targets: "@ + nat_text(
                n as nat,
            ),
            SdcError::Upstream(inner) => inner.message@,
        }
    }

    /// A short description of the kind of error: that of the error of a
    /// format library or of the system, where this error wraps one.
    pub fn description(&self) -> (d: &str)
        ensures
            d@ == self.description_text(),
    {
        match self {
            SdcError::InvalidTargetType(_) => "invalid target type",
            SdcError::InvalidTarget(_) => "invalid target",
            SdcError::InvalidNumberOfTargets(_) => "invalid number of targets",
            SdcError::Upstream(inner) => inner.description.as_str(),
        }
    }

    /// The error in full.
    pub fn message(&self) -> (m: String)
        ensures
            m@ == self.message_text(),
    {
        match self {
            SdcError::InvalidTargetType(n) => numbered("Invalid target type: ", *n as u64),
            SdcError::InvalidTarget(n) => numbered("Invalid target: ", *n as u64),
            SdcError::InvalidNumberOfTargets(n) => numbered(
                "Invalid number of targets: ",
                *n as u64,
            ),
            SdcError::Upstream(inner) => String::from_str(inner.message.as_str()),
        }
    }
}

impl Error {
    /// A short description of the kind of error: that of the error of a
    /// format library or of the system, where this error wraps one.
    pub open spec fn description_text(&self) -> Seq<char> {
        match *self {
            Error::Configuration(_) => "configuration error"@,
            Error::Decode(inner) => inner.description@,
            Error::InvalidOption(_) => "invalid option"@,
            Error::Io(inner) => inner.description@,
            Error::MissingDimension(_) => "missing dimension"@,
            Error::Las(inner) => inner.description_text(),
            Error::Rxp(inner) => inner.description@,
            Error::Sdc(inner) => inner.description_text(),
            Error::Sdf(inner) => inner.description@,
            Error::UndefinedSource => "undefined source"@,
            Error::UndefinedSink => "undefined sink"@,
            Error::UnregisteredFileExtension(_) => "unregistered file extension"@,
        }
    }

    /// The error in full: what kind it is, then what it says.
    pub open spec fn message_text(&self) -> Seq<char> {
        match *self {
            Error::Configuration(text) => "Configuration error: "@ + text@,
            Error::Decode(inner) => "Decode error: "@ + inner.message@,
            Error::InvalidOption(text) => "Invalid option: "@ + text@,
            Error::Io(inner) => "IO error: "@ + inner.message@,
            Error::MissingDimension(text) => "Missing dimension: "@ + text@,
            Error::Las(inner) => "las error: "@ + inner.message_text(),
            Error::Rxp(inner) => "rxp error: "@ + inner.message@,
            Error::Sdc(inner) => "sdc error: "@ + inner.message_text(),
            Error::Sdf(inner) => "sdf error: "@ + inner.message@,
            Error::UndefinedSource => "Undefined source"@,
            Error::UndefinedSink => "Undefined sink"@,
            Error::UnregisteredFileExtension(text) => "Unregistered file extension: "@ + text@,
        }
    }

    /// The words of the error of a format library or of the system that this
    /// error wraps, where it wraps one.
    pub open spec fn cause_text(&self) -> Option<Seq<char>> {
        match *self {
            Error::Decode(inner) => Some(inner.message@),
            Error::Io(inner) => Some(inner.message@),
            Error::Las(inner) => Some(inner.message_text()),
            Error::Rxp(inner) => Some(inner.message@),
            Error::Sdc(inner) => Some(inner.message_text()),
            Error::Sdf(inner) => Some(inner.message@),
            _ => None,
        }
    }

    /// A short description of the kind of error: that of the error of a
    /// format library or of the system, where this error wraps one.
    pub fn description(&self) -> (d: &str)
        ensures
            d@ == self.description_text(),
    {
        match self {
            Error::Configuration(_) => "configuration error",
            Error::Decode(inner) => inner.description.as_str(),
            Error::InvalidOption(_) => "invalid option",
            Error::Io(inner) => inner.description.as_str(),
            Error::MissingDimension(_) => "missing dimension",
            Error::Las(inner) => inner.description(),
            Error::Rxp(inner) => inner.description.as_str(),
            Error::Sdc(inner) => inner.description(),
            Error::Sdf(inner) => inner.description.as_str(),
            Error::UndefinedSource => "undefined source",
            Error::UndefinedSink => "undefined sink",
            Error::UnregisteredFileExtension(_) => "unregistered file extension",
        }
    }

    /// The words of the error of a format library or of the system that this
    /// error wraps, where it wraps one.
    pub fn cause(&self) -> (c: Option<String>)
        ensures
            c is Some <==> self.cause_text() is Some,
            c matches Some(text) ==> Some(text@) == self.cause_text(),
    {
        match self {
            Error::Decode(inner) => Some(String::from_str(inner.message.as_str())),
            Error::Io(inner) => Some(String::from_str(inner.message.as_str())),
            Error::Las(inner) => Some(inner.message()),
            Error::Rxp(inner) => Some(String::from_str(inner.message.as_str())),
            Error::Sdc(inner) => Some(inner.message()),
            Error::Sdf(inner) => Some(String::from_str(inner.message.as_str())),
            _ => None,
        }
    }

    /// The error in full: what kind it is, then what it says.
    pub fn message(&self) -> (m: String)
        ensures
            m@ == self.message_text(),
    {
        match self {
            Error::Configuration(text) => labelled("Configuration error: ", text.as_str()),
            Error::Decode(inner) => labelled("Decode error: ", inner.message.as_str()),
            Error::InvalidOption(text) => labelled("Invalid option: ", text.as_str()),
            Error::Io(inner) => labelled("IO error: ", inner.message.as_str()),
            Error::MissingDimension(text) => labelled("Missing dimension: ", text.as_str()),
            Error::Las(inner) => {
                let words: String = inner.message();
                labelled("las error: ", words.as_str())
            },
            Error::Rxp(inner) => labelled("rxp error: ", inner.message.as_str()),
            Error::Sdc(inner) => {
                let words: String = inner.message();
                labelled("sdc error: ", words.as_str())
            },
            Error::Sdf(inner) => labelled("sdf error: ", inner.message.as_str()),
            Error::UndefinedSource => String::from_str("Undefined source"),
            Error::UndefinedSink => String::from_str("Undefined sink"),
            Error::UnregisteredFileExtension(text) => labelled(
                "Unregistered file extension: ",
                text.as_str(),
            ),
        }
    }
}

} // verus!
