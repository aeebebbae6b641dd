use pabst::error::Error;
use pabst::pipeline::{chunk_size, Conversion, Step, Transfer, DEFAULT_CHUNK_SIZE};
use pabst::{Sink, Source};

#[test]
fn the_chunk_size_defaults_to_ten_thousand() {
    assert_eq!(10000, DEFAULT_CHUNK_SIZE);
    assert_eq!(Ok(10000), chunk_size(None));
}

#[test]
fn a_positive_chunk_size_is_taken() {
    assert_eq!(Ok(1), chunk_size(Some(1)));
    assert_eq!(Ok(200000), chunk_size(Some(200000)));
    assert_eq!(Ok(i64::MAX as usize), chunk_size(Some(i64::MAX)));
}

#[test]
fn a_chunk_size_that_is_not_positive_is_refused() {
    assert_eq!(
        Err(Error::Configuration("chunk_size must be a positive number".to_string())),
        chunk_size(Some(0))
    );
    assert!(matches!(chunk_size(Some(-1)), Err(Error::Configuration(_))));
    assert!(matches!(chunk_size(Some(i64::MIN)), Err(Error::Configuration(_))));
}

#[test]
fn a_transfer_without_a_limit_takes_everything() {
    let mut transfer = Transfer::new(None);
    assert!(!transfer.finished());
    assert_eq!(10000, transfer.take(10000));
    assert_eq!(3, transfer.take(3));
    assert_eq!(0, transfer.take(0));
    assert_eq!(10003, transfer.count());
    assert!(!transfer.finished());
}

#[test]
fn a_transfer_stops_at_its_limit() {
    let mut transfer = Transfer::new(Some(25));
    assert_eq!(10, transfer.take(10));
    assert!(!transfer.finished());
    assert_eq!(10, transfer.take(10));
    assert!(!transfer.finished());
    assert_eq!(5, transfer.take(10));
    assert!(transfer.finished());
    assert_eq!(0, transfer.take(10));
    assert_eq!(25, transfer.count());
}

#[test]
fn a_limit_of_a_whole_chunk_is_reached_with_it() {
    let mut transfer = Transfer::new(Some(10));
    assert_eq!(10, transfer.take(10));
    assert!(transfer.finished());
    assert_eq!(10, transfer.count());
}

#[test]
fn a_limit_that_is_not_positive_lets_nothing_through() {
    let mut none = Transfer::new(Some(0));
    assert!(none.finished());
    assert_eq!(0, none.take(5));
    assert_eq!(0, none.count());
    let mut negative = Transfer::new(Some(-7));
    assert!(negative.finished());
    assert_eq!(0, negative.take(5));
    assert_eq!(0, negative.count());
}

#[test]
fn the_count_of_a_transfer_does_not_overflow() {
    let mut transfer = Transfer::new(None);
    assert_eq!(usize::MAX, transfer.take(usize::MAX));
    assert_eq!(usize::MAX, transfer.take(usize::MAX));
    assert_eq!(u64::MAX, transfer.count());
    let mut limited = Transfer::new(Some(i64::MAX));
    assert_eq!(i64::MAX as usize, limited.take(usize::MAX));
    assert!(limited.finished());
}

fn numbered(n: usize) -> pabst::Point {
    let mut point = pabst::Point::new(
        pabst::Fixed::from_whole(n as i32),
        pabst::Fixed::from_whole(0),
        pabst::Fixed::from_whole(0),
        pabst::point::Intensity::from_u16(0),
    );
    point.return_number = Some(n);
    point
}

fn numbers(n: usize) -> pabst::source::Backlog {
    pabst::source::Backlog::from_points((0..n).map(numbered).collect())
}

fn columns(names: &[&str]) -> pabst::sink::text::Writer {
    pabst::sink::text::Writer::new(names.iter().map(|name| name.to_string()).collect())
}

#[test]
fn a_conversion_moves_every_point_in_order() {
    for want in [1, 2, 3, 5, 100] {
        let mut source = numbers(5);
        let mut sink = columns(&["x"]);
        assert_eq!(Ok(5), pabst::pipeline::convert(&mut source, &mut sink, want, None));
        assert_eq!("0\n1\n2\n3\n4\n", sink.take_output());
        assert_eq!(Ok(None), source.source(1));
    }
}

#[test]
fn a_conversion_of_nothing_moves_nothing() {
    let mut source = numbers(0);
    let mut sink = columns(&["x"]);
    assert_eq!(Ok(0), pabst::pipeline::convert(&mut source, &mut sink, 10, None));
    assert_eq!("", sink.take_output());
}

#[test]
fn a_conversion_stops_at_its_limit() {
    for want in [1, 2, 3, 5, 100] {
        let mut source = numbers(5);
        let mut sink = columns(&["x"]);
        assert_eq!(Ok(3), pabst::pipeline::convert(&mut source, &mut sink, want, Some(3)));
        assert_eq!("0\n1\n2\n", sink.take_output());
    }
    let mut source = numbers(5);
    let mut sink = columns(&["x"]);
    assert_eq!(Ok(5), pabst::pipeline::convert(&mut source, &mut sink, 2, Some(5)));
    assert_eq!(Ok(0), pabst::pipeline::convert(&mut numbers(5), &mut sink, 2, Some(0)));
    assert_eq!(Ok(0), pabst::pipeline::convert(&mut numbers(5), &mut sink, 2, Some(-4)));
    assert_eq!(Ok(5), pabst::pipeline::convert(&mut numbers(5), &mut sink, 2, Some(i64::MAX)));
    assert_eq!("0\n1\n2\n3\n4\n0\n1\n2\n3\n4\n", sink.take_output());
}

#[test]
fn a_conversion_with_a_limit_leaves_what_it_did_not_pull() {
    let mut source = numbers(7);
    let mut sink = columns(&["x"]);
    assert_eq!(Ok(3), pabst::pipeline::convert(&mut source, &mut sink, 2, Some(3)));
    assert_eq!(Ok(vec![numbered(4), numbered(5), numbered(6)]), source.source_to_end(10));
}

#[test]
fn a_conversion_ends_at_the_first_point_that_is_refused() {
    let mut points: Vec<pabst::Point> = (0..5).map(numbered).collect();
    for point in points.iter_mut() {
        point.range = Some(pabst::Fixed::from_whole(9));
    }
    points[3].range = None;
    let mut source = pabst::source::Backlog::from_points(points);
    let mut sink = columns(&["x", "range"]);
    assert_eq!(
        Err(Error::MissingDimension("Point does not have range".to_string())),
        pabst::pipeline::convert(&mut source, &mut sink, 2, None)
    );
    assert_eq!("0 9\n1 9\n2 9\n", sink.take_output());
    assert_eq!(Ok(Some(vec![{
        let mut last = numbered(4);
        last.range = Some(pabst::Fixed::from_whole(9));
        last
    }])), source.source(5));
}

#[test]
fn a_conversion_into_las_holds_the_las_points() {
    let mut source = numbers(4);
    let mut sink = pabst::sink::las::Writer::new(0).unwrap();
    assert_eq!(Ok(4), pabst::pipeline::convert(&mut source, &mut sink, 3, None));
    let records = sink.take_records();
    assert_eq!(4, records.len());
    for (n, record) in records.iter().enumerate() {
        assert_eq!(Ok(record.clone()), pabst::sink::las::from_point(&numbered(n)));
        assert_eq!(n as u8, record.return_number);
    }
    assert_eq!(0, sink.take_records().len());
    assert_eq!(
        Err(Error::Las(pabst::error::LasError::InvalidReturnNumber(6))),
        sink.sink(&numbered(6))
    );
    assert_eq!(0, sink.take_records().len());
    assert_eq!(Ok(()), sink.close_sink());
}

#[test]
fn a_conversion_into_sdc_needs_time_and_angle() {
    let mut sink = pabst::sink::sdc::Writer::new();
    assert_eq!(
        Err(Error::MissingDimension("time".to_string())),
        pabst::pipeline::convert(&mut numbers(4), &mut sink, 3, None)
    );
    assert_eq!(0, sink.take_records().len());
    let mut point = numbered(1);
    point.gps_time = Some(pabst::Fixed::from_whole(10));
    point.scan_angle = Some(pabst::Fixed::from_whole(20));
    assert_eq!(Ok(()), sink.sink(&point));
    assert_eq!(vec![pabst::sink::sdc::from_point(&point).unwrap()], sink.take_records());
    assert_eq!(Ok(()), sink.close_sink());
}

fn timed(n: usize) -> pabst::Point {
    let mut point = numbered(n);
    point.gps_time = Some(pabst::Fixed::from_whole(100));
    point
}

#[test]
fn a_las_writer_of_a_format_with_time_needs_the_time() {
    for format in [1, 3] {
        let mut sink = pabst::sink::las::Writer::new(format).unwrap();
        assert_eq!(Err(Error::MissingDimension("time".to_string())), sink.sink(&numbered(1)));
        assert_eq!(0, sink.take_records().len());
    }
    let mut sink = pabst::sink::las::Writer::new(1).unwrap();
    assert_eq!(Ok(()), sink.sink(&timed(1)));
    assert_eq!(vec![pabst::sink::las::from_point(&timed(1)).unwrap()], sink.take_records());
    assert_eq!(
        Err(Error::MissingDimension("time".to_string())),
        pabst::pipeline::convert(&mut numbers(3), &mut sink, 2, None)
    );
}

#[test]
fn a_las_writer_of_a_format_without_time_takes_any_time() {
    let mut sink = pabst::sink::las::Writer::new(0).unwrap();
    assert_eq!(Ok(()), sink.sink(&numbered(1)));
    assert_eq!(Ok(()), sink.sink(&timed(2)));
    assert_eq!(2, sink.take_records().len());
}

#[test]
fn a_las_writer_of_a_format_with_colour_takes_no_point() {
    let mut sink = pabst::sink::las::Writer::new(2).unwrap();
    assert_eq!(Err(Error::MissingDimension("red".to_string())), sink.sink(&numbered(1)));
    assert_eq!(Err(Error::MissingDimension("red".to_string())), sink.sink(&timed(1)));
    let mut sink = pabst::sink::las::Writer::new(3).unwrap();
    assert_eq!(Err(Error::MissingDimension("time".to_string())), sink.sink(&numbered(1)));
    assert_eq!(Err(Error::MissingDimension("red".to_string())), sink.sink(&timed(1)));
    assert_eq!(0, sink.take_records().len());
}

#[test]
fn a_las_writer_refuses_what_has_no_las_point_first() {
    let mut sink = pabst::sink::las::Writer::new(3).unwrap();
    assert_eq!(
        Err(Error::Las(pabst::error::LasError::InvalidReturnNumber(7))),
        sink.sink(&numbered(7))
    );
}

#[test]
fn a_las_writer_has_a_point_format_below_four() {
    assert!(pabst::sink::las::Writer::new(3).is_ok());
    assert!(matches!(
        pabst::sink::las::Writer::new(4),
        Err(Error::Las(pabst::error::LasError::InvalidPointFormat(4)))
    ));
    assert!(matches!(
        pabst::sink::las::Writer::new(255),
        Err(Error::Las(pabst::error::LasError::InvalidPointFormat(255)))
    ));
}

/// Drives a conversion of the given records, each a list of points, and
/// tells the steps that it took.
fn drive<K: Sink>(
    conversion: &mut Conversion,
    records: Vec<Vec<pabst::Point>>,
    sink: &mut K,
) -> Result<Vec<Step>, Error> {
    let mut records = records.into_iter();
    let mut steps = Vec::new();
    loop {
        let step = conversion.step();
        steps.push(step);
        match step {
            Step::Read => match records.next() {
                Some(points) => conversion.feed(points),
                None => conversion.end(),
            },
            Step::Write => conversion.write(sink)?,
            Step::Done => return Ok(steps),
        }
    }
}

fn singles(n: usize) -> Vec<Vec<pabst::Point>> {
    (0..n).map(|i| vec![numbered(i)]).collect()
}

#[test]
fn a_driven_conversion_reads_a_chunk_and_writes_it() {
    let mut conversion = Conversion::new(Some(2), None).unwrap();
    let mut sink = columns(&["x"]);
    let steps = drive(&mut conversion, singles(3), &mut sink).unwrap();
    assert_eq!(
        vec![
            Step::Read,
            Step::Read,
            Step::Write,
            Step::Read,
            Step::Read,
            Step::Write,
            Step::Done
        ],
        steps
    );
    assert_eq!("0\n1\n2\n", sink.take_output());
    assert_eq!(3, conversion.count());
}

#[test]
fn a_driven_conversion_moves_what_convert_moves() {
    for want in [1, 2, 3, 5, 100] {
        for limit in [None, Some(-1), Some(0), Some(1), Some(4), Some(5), Some(6)] {
            let mut conversion = Conversion::new(Some(want), limit).unwrap();
            let mut driven = columns(&["x"]);
            drive(&mut conversion, singles(5), &mut driven).unwrap();
            let mut whole = columns(&["x"]);
            let moved =
                pabst::pipeline::convert(&mut numbers(5), &mut whole, want as usize, limit)
                    .unwrap();
            assert_eq!(moved, conversion.count());
            assert_eq!(whole.take_output(), driven.take_output());
        }
    }
}

#[test]
fn a_driven_conversion_stops_reading_at_its_limit() {
    let mut conversion = Conversion::new(Some(2), Some(3)).unwrap();
    let mut sink = columns(&["x"]);
    let steps = drive(&mut conversion, singles(10), &mut sink).unwrap();
    assert_eq!(
        vec![Step::Read, Step::Read, Step::Write, Step::Read, Step::Read, Step::Write, Step::Done],
        steps
    );
    assert_eq!("0\n1\n2\n", sink.take_output());
    assert_eq!(3, conversion.count());
    let mut none = Conversion::new(None, Some(0)).unwrap();
    assert_eq!(vec![Step::Done], drive(&mut none, singles(10), &mut sink).unwrap());
    assert_eq!("", sink.take_output());
}

#[test]
fn a_driven_conversion_takes_records_of_many_points() {
    let mut conversion = Conversion::new(Some(3), None).unwrap();
    let mut sink = columns(&["x"]);
    let records = vec![
        vec![numbered(0), numbered(1), numbered(2), numbered(3), numbered(4)],
        vec![],
        vec![numbered(5), numbered(6)],
    ];
    let steps = drive(&mut conversion, records, &mut sink).unwrap();
    assert_eq!(
        vec![
            Step::Read,
            Step::Write,
            Step::Read,
            Step::Read,
            Step::Write,
            Step::Read,
            Step::Write,
            Step::Done
        ],
        steps
    );
    assert_eq!("0\n1\n2\n3\n4\n5\n6\n", sink.take_output());
    assert_eq!(7, conversion.count());
}

#[test]
fn a_driven_conversion_of_nothing_is_done_after_the_end() {
    let mut conversion = Conversion::new(None, None).unwrap();
    let mut sink = columns(&["x"]);
    assert_eq!(
        vec![Step::Read, Step::Done],
        drive(&mut conversion, Vec::new(), &mut sink).unwrap()
    );
    assert_eq!(0, conversion.count());
}

#[test]
fn a_driven_conversion_ends_at_the_first_point_that_is_refused() {
    let mut conversion = Conversion::new(Some(4), None).unwrap();
    let mut sink = pabst::sink::las::Writer::new(0).unwrap();
    let records = vec![vec![numbered(1)], vec![numbered(2)], vec![numbered(9)], vec![numbered(3)]];
    assert_eq!(
        Err(Error::Las(pabst::error::LasError::InvalidReturnNumber(9))),
        drive(&mut conversion, records, &mut sink)
    );
    let held = sink.take_records();
    assert_eq!(2, held.len());
    assert_eq!(1, held[0].return_number);
    assert_eq!(2, held[1].return_number);
}

#[test]
fn a_conversion_needs_a_positive_chunk_size() {
    assert!(matches!(
        Conversion::new(Some(0), None),
        Err(Error::Configuration(words)) if words == "chunk_size must be a positive number"
    ));
    assert!(matches!(Conversion::new(Some(-3), Some(1)), Err(Error::Configuration(_))));
    assert_eq!(Step::Read, Conversion::new(None, None).unwrap().step());
}
