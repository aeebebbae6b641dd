//! Sources of points.
//!
//! These don't necessarily have to be file format readers, but they usually are.

pub mod las;
pub mod rxp;
pub mod sdc;
pub mod sdf;

use vstd::prelude::*;
use vstd::string::*;
use crate::dispatch::extension_of;
use crate::dispatch::path_extension;
use crate::dispatch::spells;
use crate::dispatch::unregistered;
use crate::dispatch::unregistered_text;
use crate::error::Error;
use crate::point::Point;
use crate::source::rxp::RxpConfig;
use crate::source::sdc::SdcConfig;
use crate::source::sdf::SdfConfig;

verus! {

/// A point source.
///
/// A source holds a sequence of points and gives them out from the front, a
/// chunk at a time. It says that it is out of points once, with `None`.
pub trait Source {
    /// The points that the source has yet to give, in order.
    spec fn pending(&self) -> Seq<Point>;

    /// Whether the source can be relied on not to fail.
    spec fn reliable(&self) -> bool;

    /// Sources some points from the `Source`.
    ///
    /// Use `want` to request a certain number of points, but the source is not compelled to return
    /// exactly that number. This method returns an optional vector of points, or `None` if the
    /// source is out of points: never an empty vector, and never `None` while
    /// points are left.
    fn source(&mut self, want: usize) -> (r: Result<Option<Vec<Point>>, Error>)
        requires
            want > 0,
        ensures
            old(self).reliable() ==> r is Ok && final(self).reliable(),
            r matches Ok(None) ==> old(self).pending().len() == 0 && final(self).pending().len()
                == 0,
            r matches Ok(Some(points)) ==> {
                &&& 1 <= points.len() <= want
                &&& points.len() <= old(self).pending().len()
                &&& points@ == old(self).pending().take(points.len() as int)
                &&& final(self).pending() == old(self).pending().skip(points.len() as int)
            },
    ;

    /// Sources all points in this `Source`, asking for `want` points at a
    /// time: all that were pending come back, in their order, whatever `want`
    /// is.
    fn source_to_end(&mut self, want: usize) -> (r: Result<Vec<Point>, Error>)
        requires
            want > 0,
        ensures
            old(self).reliable() ==> r is Ok,
            r matches Ok(points) ==> points@ == old(self).pending() && final(self).pending().len()
                == 0,
    {
        let mut points: Vec<Point> = Vec::new();
        loop
            invariant
                want > 0,
                points@ + self.pending() == old(self).pending(),
                old(self).reliable() ==> self.reliable(),
            decreases self.pending().len(),
        {
            match self.source(want) {
                Err(err) => {
                    return Err(err);
                },
                Ok(None) => {
                    return Ok(points);
                },
                Ok(Some(mut chunk)) => {
                    points.append(&mut chunk);
                },
            }
        }
    }

    /// Returns a guess at total number of points in this source.
    ///
    /// If possible, sources should prefer to report point totals from headers, etc, rather than
    /// reading all of the points. For this reason, users of this method should be aware that it
    /// might not be exactly correct.
    ///
    /// Sources that cannot know their point count should return `None`.
    fn source_len(&mut self) -> (n: Option<usize>)
        ensures
            final(self).pending() == old(self).pending(),
            final(self).reliable() == old(self).reliable(),
    ;
}

/// Points that were read and not yet given out, and whether the reading has
/// come to its end.
///
/// A reader of a format feeds the backlog with the points of the records that
/// it reads, for as long as the backlog needs more, and tells it when the
/// records have come to their end; the chunk that was asked for is then
/// sourced from the backlog.
#[derive(Clone, Debug)]
pub struct Backlog {
    points: Vec<Point>,
    ended: bool,
}

impl View for Backlog {
    type V = Seq<Point>;

    closed spec fn view(&self) -> Seq<Point> {
        self.points@
    }
}

impl Backlog {
    /// Whether the backlog was told that no more records come.
    pub closed spec fn ended(&self) -> bool {
        self.ended
    }

    /// Creates an empty backlog.
    pub fn new() -> (b: Backlog)
        ensures
            b@ == Seq::<Point>::empty(),
            !b.ended(),
    {
        Backlog { points: Vec::new(), ended: false }
    }

    /// Creates a backlog of the given points.
    pub fn from_points(points: Vec<Point>) -> (b: Backlog)
        ensures
            b@ == points@,
            !b.ended(),
    {
        Backlog { points, ended: false }
    }

    /// The number of points in the backlog.
    pub fn len(&self) -> (n: usize)
        ensures
            n == self@.len(),
    {
        self.points.len()
    }

    /// Whether another record should be read before a chunk of `want`
    /// points is sourced: the backlog holds fewer points than that, and the
    /// records have not come to their end.
    pub fn needs(&self, want: usize) -> (b: bool)
        ensures
            b == (!self.ended() && self@.len() < want),
    {
        !self.ended && self.points.len() < want
    }

    /// Adds a point at the back.
    pub fn feed(&mut self, point: Point)
        ensures
            final(self)@ == old(self)@.push(point),
            final(self).ended() == old(self).ended(),
    {
        self.points.push(point);
    }

    /// Adds points at the back, in their order.
    pub fn feed_all(&mut self, points: Vec<Point>)
        ensures
            final(self)@ == old(self)@ + points@,
            final(self).ended() == old(self).ended(),
    {
        let mut points = points;
        self.points.append(&mut points);
    }

    /// Tells the backlog that the records have come to their end.
    pub fn end(&mut self)
        ensures
            final(self)@ == old(self)@,
            final(self).ended(),
    {
        self.ended = true;
    }

    /// Whether the backlog was told that no more records come.
    pub fn is_ended(&self) -> (b: bool)
        ensures
            b == self.ended(),
    {
        self.ended
    }
}

impl Source for Backlog {
    open spec fn pending(&self) -> Seq<Point> {
        self@
    }

    open spec fn reliable(&self) -> bool {
        true
    }

    /// Gives the first `want` points of the backlog, or all of them where
    /// there are fewer.
    fn source(&mut self, want: usize) -> (r: Result<Option<Vec<Point>>, Error>)
        ensures
            final(self).ended() == old(self).ended(),
            r matches Ok(Some(points)) ==> points.len() == (if want < old(self).pending().len() {
                want as int
            } else {
                old(self).pending().len() as int
            }),
    {
        let held: usize = self.points.len();
        if held == 0 {
            return Ok(None);
        }
        let n: usize = if want < held {
            want
        } else {
            held
        };
        let mut chunk: Vec<Point> = self.points.split_off(n);
        std::mem::swap(&mut self.points, &mut chunk);
        Ok(Some(chunk))
    }

    /// The number of points in the backlog.
    fn source_len(&mut self) -> (n: Option<usize>)
        ensures
            n == Some(old(self).pending().len() as usize),
            final(self).ended() == old(self).ended(),
    {
        Some(self.points.len())
    }
}

/// The formats that points can be read from.
#[derive(Clone, Copy, Debug, PartialEq, Eq, Structural)]
pub enum SourceType {
    /// The las format, of files that end in `.las`.
    Las,
    /// The rxp format, of files that end in `.rxp`.
    Rxp,
    /// The sdc format, of files that end in `.sdc`.
    Sdc,
    /// The sdf format, of files that end in `.sdf`.
    Sdf,
}

/// The format of the sources with the given file extension, if any has it.
pub open spec fn source_type_of(extension: Option<Seq<char>>) -> Option<SourceType> {
    match extension {
        Some(e) => if e == "las"@ {
            Some(SourceType::Las)
        } else if e == "rxp"@ {
            Some(SourceType::Rxp)
        } else if e == "sdc"@ {
            Some(SourceType::Sdc)
        } else if e == "sdf"@ {
            Some(SourceType::Sdf)
        } else {
            None
        },
        None => None,
    }
}

impl SourceType {
    /// The format of the sources with the given file extension, if any has it.
    pub fn from_extension(extension: &Option<String>) -> (r: Option<SourceType>)
        ensures
            r == source_type_of(
                match *extension {
                    Some(e) => Some(e@),
                    None => None,
                },
            ),
    {
        match extension {
            Some(e) => {
                if spells(e, "las") {
                    Some(SourceType::Las)
                } else if spells(e, "rxp") {
                    Some(SourceType::Rxp)
                } else if spells(e, "sdc") {
                    Some(SourceType::Sdc)
                } else if spells(e, "sdf") {
                    Some(SourceType::Sdf)
                } else {
                    None
                }
            },
            None => None,
        }
    }

    /// The format of the source at `path`, by the extension of the path. A
    /// path whose extension belongs to no format is refused with that
    /// extension as an unregistered file extension, and a path that has no
    /// extension with the path itself.
    pub fn from_path(path: &str) -> (r: Result<SourceType, Error>)
        ensures
            r is Ok <==> source_type_of(path_extension(path@)) is Some,
            r matches Ok(format) ==> source_type_of(path_extension(path@)) == Some(format),
            r matches Err(err) ==> (err matches Error::UnregisteredFileExtension(p) && p@
                == unregistered_text(path@)),
    {
        let extension: Option<String> = extension_of(path);
        match SourceType::from_extension(&extension) {
            Some(format) => Ok(format),
            None => Err(Error::UnregisteredFileExtension(unregistered(path, extension))),
        }
    }
}

/// The configuration of a source, one kind for each format.
#[derive(Clone, Copy, Debug, PartialEq, Eq, Structural)]
pub enum SourceConfig {
    /// For a las source, which has nothing to configure.
    Las {
        /// The number of options that the configuration gives, none of which
        /// a las source supports.
        options: usize,
    },
    /// For an rxp source.
    Rxp(RxpConfig),
    /// For an sdc source.
    Sdc(SdcConfig),
    /// For an sdf source.
    Sdf(SdfConfig),
}

impl SourceConfig {
    /// The format that the configuration is for.
    pub open spec fn format(&self) -> SourceType {
        match *self {
            SourceConfig::Las { .. } => SourceType::Las,
            SourceConfig::Rxp(_) => SourceType::Rxp,
            SourceConfig::Sdc(_) => SourceType::Sdc,
            SourceConfig::Sdf(_) => SourceType::Sdf,
        }
    }
}

/// What to open as a source, and how.
#[derive(Clone, Copy, Debug, PartialEq, Eq, Structural)]
pub enum OpenSource {
    /// Open a las reader.
    Las,
    /// Open an rxp stream, synchronized to the pulse-per-second signal or not.
    Rxp {
        /// Whether the stream synchronizes to the pulse-per-second signal.
        sync_to_pps: bool,
    },
    /// Open an sdc reader.
    Sdc,
    /// Open an sdf file.
    Sdf,
}

/// What to open for a source of the format `format`, given a configuration
/// that is for this format or absent.
pub open spec fn opening_of(format: SourceType, config: Option<SourceConfig>) -> OpenSource {
    match format {
        SourceType::Las => OpenSource::Las,
        SourceType::Rxp => OpenSource::Rxp {
            sync_to_pps: match config {
                Some(SourceConfig::Rxp(c)) => RxpConfig::synchronizes(Some(c)),
                _ => true,
            },
        },
        SourceType::Sdc => OpenSource::Sdc,
        SourceType::Sdf => OpenSource::Sdf,
    }
}

/// Whether the configuration, if there is one, is for the format `format`.
pub open spec fn config_fits(format: SourceType, config: Option<SourceConfig>) -> bool {
    match config {
        Some(c) => c.format() == format,
        None => true,
    }
}

/// Whether the configuration gives options to a source that supports none:
/// a las source.
pub open spec fn gives_unsupported_options(config: Option<SourceConfig>) -> bool {
    config matches Some(SourceConfig::Las { options }) && options > 0
}

/// Decides how to open the file source at `path` with the given configuration.
///
/// The extension of the path selects the format; a path of no known
/// extension is refused as an unregistered file extension, which carries the
/// extension, or the path where it has none. A configuration
/// for another format than the selected one is refused as a configuration
/// error, and options for a las source, which supports none, as an invalid
/// option. Without a configuration the format's defaults hold.
pub fn open_file_source(path: &str, config: Option<SourceConfig>) -> (r: Result<
    OpenSource,
    Error,
>)
    ensures
        match source_type_of(path_extension(path@)) {
            Some(format) => if config_fits(format, config) {
                if gives_unsupported_options(config) {
                    r matches Err(Error::InvalidOption(words)) && words@
                        == "las source does not support any options at this time"@
                } else {
                    r == Ok::<OpenSource, Error>(opening_of(format, config))
                }
            } else {
                r matches Err(Error::Configuration(words)) && words@
                    == "the source configuration is for another format"@
            },
            None => r matches Err(Error::UnregisteredFileExtension(p)) && p@ == unregistered_text(
                path@,
            ),
        },
{
    let format: SourceType = match SourceType::from_path(path) {
        Ok(format) => format,
        Err(err) => {
            return Err(err);
        },
    };
    match (format, config) {
        (SourceType::Las, None) => Ok(OpenSource::Las),
        (SourceType::Las, Some(SourceConfig::Las { options })) => {
            if options > 0 {
                Err(
                    Error::InvalidOption(
                        String::from_str("las source does not support any options at this time"),
                    ),
                )
            } else {
                Ok(OpenSource::Las)
            }
        },
        (SourceType::Rxp, None) => Ok(OpenSource::Rxp { sync_to_pps: RxpConfig::sync_to_pps(None) }),
        (SourceType::Rxp, Some(SourceConfig::Rxp(c))) => Ok(
            OpenSource::Rxp { sync_to_pps: RxpConfig::sync_to_pps(Some(c)) },
        ),
        (SourceType::Sdc, None) | (SourceType::Sdc, Some(SourceConfig::Sdc(_))) => Ok(
            OpenSource::Sdc,
        ),
        (SourceType::Sdf, None) | (SourceType::Sdf, Some(SourceConfig::Sdf(_))) => Ok(
            OpenSource::Sdf,
        ),
        _ => Err(
            Error::Configuration(
                String::from_str("the source configuration is for another format"),
            ),
        ),
    }
}

/// A point source that can be opened from a path.
pub trait FileSource: Sized {
    /// Configuration object.
    type Config;

    /// Opens a file source with the given config.
    fn open_file_source(path: &str, config: Self::Config) -> Result<Self, Error>;
}

} // verus!
