//! The options of a conversion, and the count of the points that it moves.
//!
//! A conversion pulls chunks of points from a source and pushes each point
//! into a sink, until the source is out of points or a limit is reached.

use vstd::prelude::*;
use vstd::string::*;
use crate::error::Error;
use crate::point::Point;
use crate::sink::Sink;
use crate::source::Backlog;
use crate::source::Source;

verus! {

/// The number of points asked of a source at a time, unless the options say
/// otherwise.
pub const DEFAULT_CHUNK_SIZE: usize = 10000;

/// The smaller of two numbers.
pub open spec fn smaller(a: int, b: int) -> int {
    if a < b {
        a
    } else {
        b
    }
}

/// The chunk size that the option `chunk_size` gives: the default where the
/// option is absent, the option where it is a positive number that a chunk
/// can have, and none otherwise.
pub open spec fn chunk_size_of(given: Option<i64>) -> Option<usize> {
    match given {
        None => Some(DEFAULT_CHUNK_SIZE),
        Some(n) => if 0 < n <= usize::MAX {
            Some(n as usize)
        } else {
            None
        },
    }
}

/// The number of points to ask of a source at a time, from the option
/// `chunk_size`. An option that is not positive, or beyond what a chunk can
/// have, is refused as a configuration error.
pub fn chunk_size(given: Option<i64>) -> (r: Result<usize, Error>)
    ensures
        match chunk_size_of(given) {
            Some(n) => r == Ok::<usize, Error>(n) && n > 0,
            None => r matches Err(Error::Configuration(words)) && words@
                == "chunk_size must be a positive number"@,
        },
{
    match given {
        None => Ok(DEFAULT_CHUNK_SIZE),
        Some(n) => {
            if n > 0 && n as u64 <= usize::MAX as u64 {
                Ok(n as usize)
            } else {
                Err(Error::Configuration(String::from_str("chunk_size must be a positive number")))
            }
        },
    }
}

/// The count of the points that a conversion has moved, held to its limit.
#[derive(Clone, Copy, Debug, PartialEq, Eq, Structural)]
pub struct Transfer {
    limit: Option<u64>,
    moved: u64,
}

impl Transfer {
    /// A conversion never moves more points than its limit.
    #[verifier::type_invariant]
    spec fn within_limit(&self) -> bool {
        self.limit matches Some(limit) ==> self.moved <= limit
    }

    /// The largest number of points that the conversion moves, if it has one.
    pub closed spec fn limit(&self) -> Option<u64> {
        self.limit
    }

    /// The number of points that the conversion has moved.
    pub closed spec fn moved(&self) -> u64 {
        self.moved
    }

    /// How many more points the conversion may move, if it has a limit.
    pub open spec fn room(&self) -> Option<int> {
        match self.limit() {
            Some(limit) => Some(limit - self.moved()),
            None => None,
        }
    }

    /// Starts a conversion that has moved nothing. A limit below zero is a
    /// limit of zero.
    pub fn new(limit: Option<i64>) -> (t: Transfer)
        ensures
            t.moved() == 0,
            t.limit() == (match limit {
                Some(n) => Some(
                    if n < 0 {
                        0u64
                    } else {
                        n as u64
                    },
                ),
                None => None,
            }),
    {
        let limit: Option<u64> = match limit {
            Some(n) => Some(
                if n < 0 {
                    0u64
                } else {
                    n as u64
                },
            ),
            None => None,
        };
        Transfer { limit, moved: 0 }
    }

    /// The number of points moved so far.
    pub fn count(&self) -> (n: u64)
        ensures
            n == self.moved(),
            self.room() matches Some(room) ==> room >= 0,
    {
        proof {
            use_type_invariant(self);
        }
        self.moved
    }

    /// Whether the limit is reached, so that the conversion ends.
    pub fn finished(&self) -> (b: bool)
        ensures
            b == (self.room() == Some(0int)),
    {
        proof {
            use_type_invariant(self);
        }
        match self.limit {
            Some(limit) => self.moved >= limit,
            None => false,
        }
    }

    /// Takes the first points of a chunk of `offered` points: as many as
    /// the limit leaves room for, all of them where there is no limit. The
    /// points taken are counted as moved; the count stops at the largest
    /// number that it can hold.
    pub fn take(&mut self, offered: usize) -> (n: usize)
        ensures
            final(self).limit() == old(self).limit(),
            n == (match old(self).room() {
                Some(room) => smaller(offered as int, room),
                None => offered as int,
            }),
            final(self).moved() == smaller(old(self).moved() + n, u64::MAX as int),
    {
        proof {
            use_type_invariant(&*self);
        }
        let n: usize = match self.limit {
            Some(limit) => {
                let room: u64 = limit - self.moved;
                if (offered as u64) < room {
                    offered
                } else {
                    room as usize
                }
            },
            None => offered,
        };
        self.moved = if u64::MAX - self.moved < n as u64 {
            u64::MAX
        } else {
            self.moved + n as u64
        };
        n
    }
}

/// The limit of a conversion as a number of points: a limit below zero is a
/// limit of zero.
pub open spec fn limit_of(limit: Option<i64>) -> Option<int> {
    match limit {
        Some(n) => Some(
            if n < 0 {
                0int
            } else {
                n as int
            },
        ),
        None => None,
    }
}

/// The number of points that a conversion moves, of `available` points and
/// under the given limit: all of them, or as many as the limit allows.
pub open spec fn moved_of(limit: Option<i64>, available: int) -> int {
    match limit_of(limit) {
        Some(most) => smaller(most, available),
        None => available,
    }
}

/// What a sink that had sunk `before` has sunk after the first `count` of
/// the points `offered` were sunk into it.
pub open spec fn extended(before: Seq<Point>, offered: Seq<Point>, count: int) -> Seq<Point> {
    before + offered.take(count)
}

/// Converts: pulls chunks of `want` points from the source and pushes each
/// point into the sink, in order, until the source is out of points or the
/// limit is reached. Returns the number of points moved, which stops at the
/// largest number that it can hold.
///
/// Every error ends the conversion: the points before the one that failed
/// have been sunk, and no other. The conversion succeeds where source and sink
/// are reliable and the sink takes every point that is to be moved.
pub fn convert<S: Source, K: Sink>(
    source: &mut S,
    sink: &mut K,
    want: usize,
    limit: Option<i64>,
) -> (r: Result<u64, Error>)
    requires
        want > 0,
    ensures
        final(sink).reliable() == old(sink).reliable(),
        forall|p: Point| #[trigger] final(sink).takes(p) == old(sink).takes(p),
        r matches Ok(n) ==> {
            let moved = moved_of(limit, old(source).pending().len() as int);
            let left = final(source).pending().len();
            &&& n == smaller(moved, u64::MAX as int)
            &&& final(sink).sunk() == extended(old(sink).sunk(), old(source).pending(), moved)
            &&& left <= old(source).pending().len() - moved
            &&& final(source).pending() == old(source).pending().skip(
                old(source).pending().len() - left,
            )
            &&& limit is None ==> left == 0
        },
        r is Err ==> exists|count: int|
            0 <= count <= moved_of(limit, old(source).pending().len() as int)
                && final(sink).sunk() == #[trigger] extended(
                old(sink).sunk(),
                old(source).pending(),
                count,
            ),
        ({
            &&& old(source).reliable()
            &&& old(sink).reliable()
            &&& forall|i: int|
                0 <= i < moved_of(limit, old(source).pending().len() as int) ==> old(sink).takes(
                    #[trigger] old(source).pending()[i],
                )
        }) ==> r is Ok,
{
    let ghost all: Seq<Point> = source.pending();
    let ghost before: Seq<Point> = sink.sunk();
    let ghost total: int = moved_of(limit, all.len() as int);
    let mut transfer: Transfer = Transfer::new(limit);
    let ghost mut consumed: int = 0;
    let ghost mut moved: int = 0;
    loop
        invariant
            want > 0,
            all == old(source).pending(),
            before == old(sink).sunk(),
            total == moved_of(limit, all.len() as int),
            old(source).reliable() ==> source.reliable(),
            sink.reliable() == old(sink).reliable(),
            forall|p: Point| #[trigger] sink.takes(p) == old(sink).takes(p),
            0 <= moved <= consumed <= all.len(),
            source.pending() == all.skip(consumed),
            sink.sunk() == extended(before, all, moved),
            transfer.limit() matches Some(most) ==> limit_of(limit) == Some(most as int),
            transfer.limit() is None <==> limit is None,
            transfer.moved() == smaller(moved, u64::MAX as int),
            limit_of(limit) matches Some(most) ==> moved <= most,
            moved == consumed || limit_of(limit) == Some(moved),
        ensures
            moved == total,
            sink.reliable() == old(sink).reliable(),
            forall|p: Point| #[trigger] sink.takes(p) == old(sink).takes(p),
            0 <= moved <= consumed <= all.len(),
            source.pending() == all.skip(consumed),
            sink.sunk() == extended(before, all, moved),
            transfer.moved() == smaller(moved, u64::MAX as int),
            limit is None ==> consumed == all.len(),
        decreases source.pending().len(),
    {
        if transfer.finished() {
            break;
        }
        let chunk: Vec<Point> = match source.source(want) {
            Err(err) => {
                return Err(err);
            },
            Ok(None) => {
                break;
            },
            Ok(Some(chunk)) => chunk,
        };
        let n: usize = transfer.take(chunk.len());
        let mut i: usize = 0;
        while i < n
            invariant
                i <= n <= chunk.len(),
                all == old(source).pending(),
                before == old(sink).sunk(),
                total == moved_of(limit, all.len() as int),
                0 <= moved <= consumed,
                consumed + chunk.len() <= all.len(),
                moved + n <= total,
                chunk@ == all.subrange(consumed, consumed + chunk.len()),
                moved == consumed,
                source.pending() == all.skip(consumed + chunk.len()),
                sink.reliable() == old(sink).reliable(),
                forall|p: Point| #[trigger] sink.takes(p) == old(sink).takes(p),
                sink.sunk() == extended(before, all, moved + i),
            decreases n - i,
        {
            match sink.sink(&chunk[i]) {
                Ok(()) => {},
                Err(err) => {
                    return Err(err);
                },
            }
            i = i + 1;
        }
        proof {
            consumed = consumed + chunk.len();
            moved = moved + n;
        }
    }
    Ok(transfer.count())
}

/// What the driver of a conversion does next.
#[derive(Clone, Copy, Debug, PartialEq, Eq, Structural)]
pub enum Step {
    /// Read a record and feed its points to the conversion, or tell the
    /// conversion that the records have come to their end.
    Read,
    /// Have the conversion write a chunk into the sink.
    Write,
    /// Nothing: the conversion is over.
    Done,
}

/// A conversion whose reading and writing somebody else does.
///
/// The conversion holds the points that were read and not yet written, and
/// counts the points that it has moved. It says what to do next: to read
/// while a chunk is not full and records are left, to write a chunk, and to
/// stop once the limit is reached or nothing is left.
pub struct Conversion {
    backlog: Backlog,
    transfer: Transfer,
    want: ChunkSize,
}

/// The number of points in a chunk, which is at least one.
struct ChunkSize {
    points: usize,
}

impl ChunkSize {
    #[verifier::type_invariant]
    spec fn positive(&self) -> bool {
        self.points > 0
    }

    /// The number of points.
    fn get(&self) -> (n: usize)
        ensures
            n == self.points,
            n > 0,
    {
        proof {
            use_type_invariant(self);
        }
        self.points
    }
}

impl Conversion {

    /// The points that were read and not yet written, in order.
    pub closed spec fn pending(&self) -> Seq<Point> {
        self.backlog@
    }

    /// Whether the records have come to their end.
    pub closed spec fn ended(&self) -> bool {
        self.backlog.ended()
    }

    /// The number of points in a chunk.
    pub closed spec fn want(&self) -> usize {
        self.want.points
    }

    /// The number of points moved so far.
    pub closed spec fn moved(&self) -> u64 {
        self.transfer.moved()
    }

    /// How many more points the conversion may move, if it has a limit.
    pub closed spec fn room(&self) -> Option<int> {
        self.transfer.room()
    }

    /// The number of points that the next chunk takes from the pending
    /// points: a chunk's worth, or all of them where there are fewer.
    pub open spec fn chunk(&self) -> int {
        smaller(self.want() as int, self.pending().len() as int)
    }

    /// The number of points of the next chunk that are written: all of the
    /// chunk, or as many as the limit leaves room for.
    pub open spec fn taken(&self) -> int {
        match self.room() {
            Some(room) => smaller(self.chunk(), room),
            None => self.chunk(),
        }
    }

    /// What the driver does next.
    pub open spec fn next(&self) -> Step {
        if self.room() == Some(0int) {
            Step::Done
        } else if !self.ended() && self.pending().len() < self.want() {
            Step::Read
        } else if self.pending().len() == 0 {
            Step::Done
        } else {
            Step::Write
        }
    }

    /// Starts a conversion with the options `chunk_size` and `limit`: nothing
    /// is pending and nothing has been moved. A chunk size that is not
    /// positive is refused as a configuration error; a limit below zero is a
    /// limit of zero.
    pub fn new(chunk_size: Option<i64>, limit: Option<i64>) -> (r: Result<Conversion, Error>)
        ensures
            match chunk_size_of(chunk_size) {
                Some(want) => r matches Ok(c) && {
                    &&& c.want() == want
                    &&& c.pending() == Seq::<Point>::empty()
                    &&& !c.ended()
                    &&& c.moved() == 0
                    &&& c.room() == limit_of(limit)
                },
                None => r matches Err(Error::Configuration(words)) && words@
                    == "chunk_size must be a positive number"@,
            },
    {
        match self::chunk_size(chunk_size) {
            Ok(want) => Ok(
                Conversion {
                    backlog: Backlog::new(),
                    transfer: Transfer::new(limit),
                    want: ChunkSize { points: want },
                },
            ),
            Err(err) => Err(err),
        }
    }

    /// What the driver does next.
    pub fn step(&self) -> (s: Step)
        ensures
            s == self.next(),
    {
        if self.transfer.finished() {
            Step::Done
        } else if self.backlog.needs(self.want.get()) {
            Step::Read
        } else if self.backlog.len() == 0 {
            Step::Done
        } else {
            Step::Write
        }
    }

    /// Takes the points of a record that was read.
    pub fn feed(&mut self, points: Vec<Point>)
        ensures
            final(self).pending() == old(self).pending() + points@,
            final(self).ended() == old(self).ended(),
            final(self).want() == old(self).want(),
            final(self).moved() == old(self).moved(),
            final(self).room() == old(self).room(),
    {
        self.backlog.feed_all(points);
    }

    /// Takes note that the records have come to their end.
    pub fn end(&mut self)
        ensures
            final(self).pending() == old(self).pending(),
            final(self).ended(),
            final(self).want() == old(self).want(),
            final(self).moved() == old(self).moved(),
            final(self).room() == old(self).room(),
    {
        self.backlog.end();
    }

    /// The number of points moved so far.
    pub fn count(&self) -> (n: u64)
        ensures
            n == self.moved(),
    {
        self.transfer.count()
    }

    /// Writes a chunk: takes the next chunk from the pending points and
    /// sinks the points of it that the limit leaves room for, in order. The
    /// rest of the chunk is dropped, the limit being reached.
    ///
    /// An error ends the conversion: the points before the one that failed
    /// have been sunk, and no other. The writing succeeds where the sink is
    /// reliable and takes every point that is to be written.
    pub fn write<K: Sink>(&mut self, sink: &mut K) -> (r: Result<(), Error>)
        ensures
            final(self).want() == old(self).want(),
            final(self).ended() == old(self).ended(),
            final(self).pending() == old(self).pending().skip(old(self).chunk()),
            final(sink).reliable() == old(sink).reliable(),
            forall|p: Point| #[trigger] final(sink).takes(p) == old(sink).takes(p),
            r is Ok ==> {
                &&& final(sink).sunk() == extended(
                    old(sink).sunk(),
                    old(self).pending(),
                    old(self).taken(),
                )
                &&& final(self).moved() == smaller(
                    old(self).moved() + old(self).taken(),
                    u64::MAX as int,
                )
                &&& final(self).room() == (match old(self).room() {
                    Some(room) => Some(room - old(self).taken()),
                    None => None,
                })
            },
            r is Err ==> exists|count: int|
                0 <= count < old(self).taken() && final(sink).sunk() == #[trigger] extended(
                    old(sink).sunk(),
                    old(self).pending(),
                    count,
                ),
            ({
                &&& old(sink).reliable()
                &&& forall|i: int|
                    0 <= i < old(self).taken() ==> old(sink).takes(
                        #[trigger] old(self).pending()[i],
                    )
            }) ==> r is Ok,
    {
        proof {
            use_type_invariant(&self.transfer);
        }
        let ghost all: Seq<Point> = self.pending();
        let ghost before: Seq<Point> = sink.sunk();
        let want: usize = self.want.get();
        let chunk: Vec<Point> = match self.backlog.source(want) {
            Ok(Some(chunk)) => chunk,
            _ => {
                return Ok(());
            },
        };
        let n: usize = self.transfer.take(chunk.len());
        let mut i: usize = 0;
        while i < n
            invariant
                i <= n <= chunk.len() <= all.len(),
                chunk@ == all.take(chunk.len() as int),
                before == old(sink).sunk(),
                self.want() == old(self).want(),
                self.ended() == old(self).ended(),
                self.pending() == old(self).pending().skip(old(self).chunk()),
                all == old(self).pending(),
                n == old(self).taken(),
                sink.reliable() == old(sink).reliable(),
                forall|p: Point| #[trigger] sink.takes(p) == old(sink).takes(p),
                sink.sunk() == extended(before, all, i as int),
            decreases n - i,
        {
            match sink.sink(&chunk[i]) {
                Ok(()) => {},
                Err(err) => {
                    return Err(err);
                },
            }
            i = i + 1;
        }
        Ok(())
    }
}

} // verus!
