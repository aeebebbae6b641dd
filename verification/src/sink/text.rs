//! A text writer.

use vstd::prelude::*;
use vstd::string::*;
use crate::dispatch::spells;
use crate::error::Error;
use crate::fixed::append_nat;
use crate::fixed::fixed_text;
use crate::fixed::nat_text;
use crate::fixed::Fixed;
use crate::point::Point;
use crate::sink::Sink;

verus! {

/// A simple configuration object.
#[derive(Clone, Debug, PartialEq, Eq)]
pub struct TextConfig {
    /// The names of the dimensions to write, in the order of the columns.
    pub dimensions: Vec<String>,
}

/// What each of the strings spells.
pub open spec fn spelled(strings: Seq<String>) -> Seq<Seq<char>> {
    Seq::new(strings.len(), |i: int| strings[i]@)
}

impl TextConfig {
    /// The names of the dimensions.
    pub open spec fn names(&self) -> Seq<Seq<char>> {
        spelled(self.dimensions@)
    }

    /// The dimensions of a writer that was given none: the coordinates.
    pub open spec fn standard_names() -> Seq<Seq<char>> {
        seq!["x"@, "y"@, "z"@]
    }
}

impl Default for TextConfig {
    fn default() -> (c: TextConfig)
        ensures
            c.names() == TextConfig::standard_names(),
    {
        let mut dimensions: Vec<String> = Vec::new();
        dimensions.push(String::from_str("x"));
        dimensions.push(String::from_str("y"));
        dimensions.push(String::from_str("z"));
        TextConfig { dimensions }
    }
}

/// The text of the dimension `name` of a point, where the writer knows the
/// dimension and the point has it. The writer knows the coordinates, the
/// intensity on the canonical scale, the range, the scan angle and the time.
pub open spec fn field_text(name: Seq<char>, point: Point) -> Option<Seq<char>> {
    if name == "x"@ {
        Some(fixed_text(point.x.nanos as int))
    } else if name == "y"@ {
        Some(fixed_text(point.y.nanos as int))
    } else if name == "z"@ {
        Some(fixed_text(point.z.nanos as int))
    } else if name == "intensity"@ {
        Some(nat_text(point.intensity.canonical() as nat))
    } else if name == "range"@ {
        match point.range {
            Some(range) => Some(fixed_text(range.nanos as int)),
            None => None,
        }
    } else if name == "scan_angle"@ {
        match point.scan_angle {
            Some(angle) => Some(fixed_text(angle.nanos as int)),
            None => None,
        }
    } else if name == "gps_time"@ {
        match point.gps_time {
            Some(time) => Some(fixed_text(time.nanos as int)),
            None => None,
        }
    } else {
        None
    }
}

/// What a point is said to be missing where the column `name` cannot be
/// written for it: `time` for the column of the time, that the point does
/// not have it for the columns of the range and of the scan angle, and that
/// the writer does not know how to write it for any other column.
pub open spec fn refusal_text(name: Seq<char>) -> Seq<char> {
    if name == "range"@ {
        "Point does not have range"@
    } else if name == "scan_angle"@ {
        "Point does not have scan angle"@
    } else if name == "gps_time"@ {
        "time"@
    } else {
        "Text writer doesn't know how to write dimension '"@ + name + "'"@
    }
}

/// The first `upto` names, with a space between one and the next.
pub open spec fn header_text(names: Seq<Seq<char>>, upto: int) -> Seq<char>
    decreases upto,
{
    if upto <= 0 {
        Seq::<char>::empty()
    } else if upto == 1 {
        names[0]
    } else {
        header_text(names, upto - 1) + seq![' '] + names[upto - 1]
    }
}

/// The first `upto` dimensions of a point, with a space between one and the
/// next.
pub open spec fn row_text(names: Seq<Seq<char>>, point: Point, upto: int) -> Seq<char>
    decreases upto,
{
    if upto <= 0 {
        Seq::<char>::empty()
    } else if upto == 1 {
        field_text(names[0], point)->0
    } else {
        row_text(names, point, upto - 1) + seq![' '] + field_text(names[upto - 1], point)->0
    }
}

/// Whether the first `upto` dimensions of a point can be written.
pub open spec fn writable(names: Seq<Seq<char>>, point: Point, upto: int) -> bool {
    forall|i: int| 0 <= i < upto ==> (#[trigger] field_text(names[i], point)) is Some
}

/// The lines of the given points, each with all of the dimensions `names`:
/// the row of each point and the end of its line, in the order of the points.
pub open spec fn rows_text(names: Seq<Seq<char>>, points: Seq<Point>) -> Seq<char>
    decreases points.len(),
{
    if points.len() == 0 {
        Seq::<char>::empty()
    } else {
        rows_text(names, points.drop_last()) + row_text(
            names,
            points.last(),
            names.len() as int,
        ) + seq!['\n']
    }
}

/// What a writer holds: its columns, the lines that it has written, and the
/// points that the lines are of.
struct Lines {
    dimensions: Vec<String>,
    output: String,
    sunk: Ghost<Seq<Point>>,
}

impl Lines {
    /// The output is the lines of the points sunk.
    #[verifier::type_invariant]
    spec fn lines_match(&self) -> bool {
        self.output@ == rows_text(spelled(self.dimensions@), self.sunk@)
    }

    /// No lines, of the given columns.
    fn of(dimensions: Vec<String>) -> (l: Lines)
        ensures
            l.dimensions@ == dimensions@,
            l.sunk@ == Seq::<Point>::empty(),
    {
        Lines { dimensions, output: String::new(), sunk: Ghost(Seq::empty()) }
    }
}

/// A very dumb text writer.
///
/// It has a line of dimension names, and writes a line for each point. What
/// it has written it holds until it is taken.
pub struct Writer {
    lines: Lines,
}

impl Writer {
    /// The names of the dimensions that the writer writes, in the order of
    /// the columns.
    pub closed spec fn names(&self) -> Seq<Seq<char>> {
        spelled(self.lines.dimensions@)
    }

    /// What the writer has written and still holds: the lines of the points
    /// sunk since the output was last taken.
    pub open spec fn written(&self) -> Seq<char> {
        rows_text(self.names(), self.sunk())
    }

    /// Creates a writer of the given dimensions, which has written nothing.
    pub fn new(dimensions: Vec<String>) -> (w: Writer)
        ensures
            w.sunk() == Seq::<Point>::empty(),
            w.names() == spelled(dimensions@),
    {
        Writer { lines: Lines::of(dimensions) }
    }

    /// The line of the names of the dimensions, with a space between one and
    /// the next, which stands before the lines of the points.
    pub fn header(&self) -> (line: String)
        ensures
            line@ == header_text(self.names(), self.names().len() as int) + seq!['\n'],
    {
        let mut line: String = String::new();
        let mut i: usize = 0;
        proof {
            reveal_strlit(" ");
            reveal_strlit("\n");
        }
        while i < self.lines.dimensions.len()
            invariant
                i <= self.lines.dimensions.len(),
                " "@ == seq![' '],
                line@ == header_text(self.names(), i as int),
            decreases self.lines.dimensions.len() - i,
        {
            if i > 0 {
                line.append(" ");
            }
            line.append(self.lines.dimensions[i].as_str());
            i = i + 1;
        }
        line.append("\n");
        line
    }

    /// Takes what the writer has written, leaving it with nothing written.
    pub fn take_output(&mut self) -> (text: String)
        ensures
            text@ == old(self).written(),
            final(self).sunk() == Seq::<Point>::empty(),
            final(self).names() == old(self).names(),
    {
        let mut lines: Lines = Lines::of(Vec::new());
        std::mem::swap(&mut self.lines, &mut lines);
        proof {
            use_type_invariant(&lines);
        }
        let Lines { dimensions, output, sunk: _ } = lines;
        self.lines = Lines::of(dimensions);
        output
    }

    /// The words `"Text writer doesn't know how to write dimension '"`, the
    /// name, and a closing quote.
    fn unknown_dimension(name: &String) -> (words: String)
        ensures
            words@ == "Text writer doesn't know how to write dimension '"@ + name@ + "'"@,
    {
        let mut words: String = String::from_str(
            "Text writer doesn't know how to write dimension '",
        );
        words.append(name.as_str());
        words.append("'");
        words
    }

    /// Appends the dimension `name` of a point to `line`, or says why it
    /// cannot, leaving the line as it was.
    fn append_field(name: &String, point: &Point, line: &mut String) -> (r: Result<(), Error>)
        ensures
            r is Ok <==> field_text(name@, *point) is Some,
            r is Ok ==> final(line)@ == old(line)@ + field_text(name@, *point)->0,
            r matches Err(err) ==> final(line)@ == old(line)@ && (err matches Error::MissingDimension(
                words,
            ) && words@ == refusal_text(name@)),
    {
        if spells(name, "x") {
            point.x.append_to(line);
            Ok(())
        } else if spells(name, "y") {
            point.y.append_to(line);
            Ok(())
        } else if spells(name, "z") {
            point.z.append_to(line);
            Ok(())
        } else if spells(name, "intensity") {
            append_nat(line, point.intensity.as_u16() as u64);
            Ok(())
        } else if spells(name, "range") {
            match point.range {
                Some(range) => {
                    range.append_to(line);
                    Ok(())
                },
                None => Err(
                    Error::MissingDimension(String::from_str("Point does not have range")),
                ),
            }
        } else if spells(name, "scan_angle") {
            match point.scan_angle {
                Some(angle) => {
                    angle.append_to(line);
                    Ok(())
                },
                None => Err(
                    Error::MissingDimension(String::from_str("Point does not have scan angle")),
                ),
            }
        } else if spells(name, "gps_time") {
            match point.gps_time {
                Some(time) => {
                    time.append_to(line);
                    Ok(())
                },
                None => Err(
                    Error::MissingDimension(String::from_str("time")),
                ),
            }
        } else {
            Err(Error::MissingDimension(Writer::unknown_dimension(name)))
        }
    }
}

impl Sink for Writer {
    /// A text writer takes the points that have all of its dimensions.
    open spec fn takes(&self, point: Point) -> bool {
        writable(self.names(), point, self.names().len() as int)
    }

    open spec fn reliable(&self) -> bool {
        true
    }

    closed spec fn sunk(&self) -> Seq<Point> {
        self.lines.sunk@
    }

    /// Writes the line of a point: its dimensions in the order of the
    /// columns, with a space between one and the next.
    ///
    /// A dimension that the writer does not know, or that the point does not
    /// have, is refused as a missing dimension, in the words of
    /// `refusal_text`: the first such in the order of the columns. Nothing is
    /// written then.
    fn sink(&mut self, point: &Point) -> (r: Result<(), Error>)
        ensures
            final(self).names() == old(self).names(),
            r matches Err(err) ==> exists|i: int|
                {
                    &&& 0 <= i < old(self).names().len()
                    &&& writable(old(self).names(), *point, i)
                    &&& field_text(#[trigger] old(self).names()[i], *point) is None
                    &&& err matches Error::MissingDimension(words)
                    &&& words@ == refusal_text(old(self).names()[i])
                },
    {
        let mut line: String = String::new();
        let mut i: usize = 0;
        proof {
            reveal_strlit(" ");
            reveal_strlit("\n");
        }
        while i < self.lines.dimensions.len()
            invariant
                i <= self.lines.dimensions.len(),
                *self == *old(self),
                " "@ == seq![' '],
                writable(self.names(), *point, i as int),
                line@ == row_text(self.names(), *point, i as int),
            decreases self.lines.dimensions.len() - i,
        {
            if i > 0 {
                line.append(" ");
            }
            match Writer::append_field(&self.lines.dimensions[i], point, &mut line) {
                Ok(()) => {},
                Err(err) => {
                    assert(self.names()[i as int] == self.lines.dimensions[i as int]@);
                    return Err(err);
                },
            }
            i = i + 1;
        }
        proof {
            reveal_strlit("\n");
        }
        line.append("\n");
        let ghost names: Seq<Seq<char>> = self.names();
        let mut lines: Lines = Lines::of(Vec::new());
        std::mem::swap(&mut self.lines, &mut lines);
        proof {
            use_type_invariant(&lines);
            lemma_rows_push(names, lines.sunk@, *point);
        }
        let Lines { dimensions, mut output, sunk } = lines;
        output.append(line.as_str());
        assert(output@ =~= rows_text(names, sunk@.push(*point)));
        self.lines = Lines { dimensions, output, sunk: Ghost(sunk@.push(*point)) };
        Ok(())
    }

    /// Closes the writer. What it has written and nobody took is dropped.
    fn close_sink(self) -> (r: Result<(), Error>)
        ensures
            r is Ok,
    {
        Ok(())
    }
}

/// What a writer has written after a point was sunk is what it had written
/// before, and the line of that point; a writer into which nothing was sunk
/// has written nothing.
pub proof fn lemma_rows_push(names: Seq<Seq<char>>, points: Seq<Point>, point: Point)
    ensures
        rows_text(names, points.push(point)) == rows_text(names, points) + row_text(
            names,
            point,
            names.len() as int,
        ) + seq!['\n'],
        rows_text(names, Seq::<Point>::empty()) == Seq::<char>::empty(),
{
    assert(points.push(point).drop_last() =~= points);
}

} // verus!
