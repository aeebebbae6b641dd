//! Point sinks.

pub mod las;
pub mod sdc;
pub mod text;

use vstd::prelude::*;
use vstd::string::*;
use crate::dispatch::extension_of;
use crate::dispatch::path_extension;
use crate::dispatch::spells;
use crate::dispatch::unregistered;
use crate::dispatch::unregistered_text;
use crate::error::Error;
use crate::point::Point;
use crate::sink::las::LasConfig;
use crate::sink::text::TextConfig;

verus! {

/// A point sink.
///
/// A sink is a place where points go. Mabye they're written to disk. Maybe not.
/// What a sink is made for decides which points it takes: a format that needs
/// a dimension takes no point without it.
pub trait Sink: Sized {
    /// Whether the sink has a place for the point.
    spec fn takes(&self, point: Point) -> bool;

    /// Whether the sink can be relied on not to fail on a point that it takes.
    spec fn reliable(&self) -> bool;

    /// The points that were sunk and whose output the sink still holds, in
    /// their order. What a sink holds for its writer is told of these points.
    spec fn sunk(&self) -> Seq<Point>;

    /// Sink a single point into this sink. A point that the sink does not
    /// take is refused, and a point that is refused is not sunk.
    fn sink(&mut self, point: &Point) -> (r: Result<(), Error>)
        ensures
            final(self).reliable() == old(self).reliable(),
            forall|p: Point| #[trigger] final(self).takes(p) == old(self).takes(p),
            r is Ok ==> old(self).takes(*point) && final(self).sunk() == old(self).sunk().push(
                *point,
            ),
            r is Err ==> final(self).sunk() == old(self).sunk(),
            old(self).reliable() && old(self).takes(*point) ==> r is Ok,
    ;

    /// Close a sink, probably writing its points out or something. A closed
    /// sink is gone: nothing can be sunk into it.
    fn close_sink(self) -> (r: Result<(), Error>)
        ensures
            self.reliable() ==> r is Ok,
    ;
}

/// The formats that points can be written to.
#[derive(Clone, Copy, Debug, PartialEq, Eq, Structural)]
pub enum SinkType {
    /// The las format, of files that end in `.las`.
    Las,
    /// The sdc format, of files that end in `.sdc`.
    Sdc,
    /// Text, of files that end in `.txt`.
    Text,
}

/// The format of the sinks with the given file extension, if any has it.
pub open spec fn sink_type_of(extension: Option<Seq<char>>) -> Option<SinkType> {
    match extension {
        Some(e) => if e == "las"@ {
            Some(SinkType::Las)
        } else if e == "sdc"@ {
            Some(SinkType::Sdc)
        } else if e == "txt"@ {
            Some(SinkType::Text)
        } else {
            None
        },
        None => None,
    }
}

impl SinkType {
    /// The format of the sinks with the given file extension, if any has it.
    pub fn from_extension(extension: &Option<String>) -> (r: Option<SinkType>)
        ensures
            r == sink_type_of(
                match *extension {
                    Some(e) => Some(e@),
                    None => None,
                },
            ),
    {
        match extension {
            Some(e) => {
                if spells(e, "las") {
                    Some(SinkType::Las)
                } else if spells(e, "sdc") {
                    Some(SinkType::Sdc)
                } else if spells(e, "txt") {
                    Some(SinkType::Text)
                } else {
                    None
                }
            },
            None => None,
        }
    }

    /// The format of the sink at `path`, by the extension of the path. A
    /// path whose extension belongs to no format is refused with that
    /// extension as an unregistered file extension, and a path that has no
    /// extension with the path itself.
    pub fn from_path(path: &str) -> (r: Result<SinkType, Error>)
        ensures
            r is Ok <==> sink_type_of(path_extension(path@)) is Some,
            r matches Ok(format) ==> sink_type_of(path_extension(path@)) == Some(format),
            r matches Err(err) ==> (err matches Error::UnregisteredFileExtension(p) && p@
                == unregistered_text(path@)),
    {
        let extension: Option<String> = extension_of(path);
        match SinkType::from_extension(&extension) {
            Some(format) => Ok(format),
            None => Err(Error::UnregisteredFileExtension(unregistered(path, extension))),
        }
    }
}

/// The configuration of a sink, one kind for each format.
#[derive(Clone, Debug, PartialEq, Eq)]
pub enum SinkConfig {
    /// For a las sink.
    Las(LasConfig),
    /// For an sdc sink, which has nothing to configure.
    Sdc,
    /// For a text sink.
    Text(TextConfig),
}

/// What to open as a sink, and how.
#[derive(Clone, Debug, PartialEq, Eq)]
pub enum OpenSink {
    /// Open a las writer with this configuration, whose point format is one
    /// that a las writer takes.
    Las(LasConfig),
    /// Open an sdc writer.
    Sdc,
    /// Open a text writer with this configuration.
    Text(TextConfig),
}

/// What a sink says of a configuration that is for another format.
pub open spec fn misfit_text() -> Seq<char> {
    "the sink configuration is for another format"@
}

/// Decides how to open the file sink at `path` with the given configuration.
///
/// The extension of the path selects the format; a path of no known
/// extension is refused as an unregistered file extension, which carries the
/// extension, or the path where it has none. A configuration
/// for another format than the selected one is refused as a configuration
/// error. Without a configuration the format's defaults hold. A las
/// configuration whose point format is 4 or above is refused as an invalid
/// point format.
pub fn open_file_sink(path: &str, config: Option<SinkConfig>) -> (r: Result<OpenSink, Error>)
    ensures
        sink_type_of(path_extension(path@)) is None ==> (r matches Err(
            Error::UnregisteredFileExtension(p),
        ) && p@ == unregistered_text(path@)),
        sink_type_of(path_extension(path@)) == Some(SinkType::Las) ==> match config {
            None => r matches Ok(OpenSink::Las(c)) && c == LasConfig::standard(),
            Some(SinkConfig::Las(given)) => match given.accepted_format() {
                Ok(_) => r matches Ok(OpenSink::Las(c)) && c == given,
                Err(err) => r == Err::<OpenSink, Error>(err),
            },
            Some(_) => r matches Err(Error::Configuration(words)) && words@ == misfit_text(),
        },
        sink_type_of(path_extension(path@)) == Some(SinkType::Sdc) ==> match config {
            None | Some(SinkConfig::Sdc) => r matches Ok(OpenSink::Sdc),
            Some(_) => r matches Err(Error::Configuration(words)) && words@ == misfit_text(),
        },
        sink_type_of(path_extension(path@)) == Some(SinkType::Text) ==> match config {
            None => r matches Ok(OpenSink::Text(c)) && c.names() == TextConfig::standard_names(),
            Some(SinkConfig::Text(given)) => r matches Ok(OpenSink::Text(c)) && c == given,
            Some(_) => r matches Err(Error::Configuration(words)) && words@ == misfit_text(),
        },
{
    let format: SinkType = match SinkType::from_path(path) {
        Ok(format) => format,
        Err(err) => {
            return Err(err);
        },
    };
    match (format, config) {
        (SinkType::Las, None) => Ok(OpenSink::Las(LasConfig::default())),
        (SinkType::Las, Some(SinkConfig::Las(given))) => {
            match given.point_format() {
                Ok(_) => Ok(OpenSink::Las(given)),
                Err(err) => Err(err),
            }
        },
        (SinkType::Sdc, None) | (SinkType::Sdc, Some(SinkConfig::Sdc)) => Ok(OpenSink::Sdc),
        (SinkType::Text, None) => Ok(OpenSink::Text(TextConfig::default())),
        (SinkType::Text, Some(SinkConfig::Text(given))) => Ok(OpenSink::Text(given)),
        _ => Err(
            Error::Configuration(String::from_str("the sink configuration is for another format")),
        ),
    }
}

/// A sink that puts points into a path.
pub trait FileSink: Sized {
    /// Configuration.
    type Config;

    /// Open a new file sink.
    fn open_file_sink(path: &str, config: Self::Config) -> Result<Self, Error>;
}

} // verus!
