use std::io::{Cursor, Read, Seek, Write};

use pabst::fixed::Fixed;
use pabst::point::Point;
use pabst::sink::las::{LasConfig, ScaleFactors, Version};
use pabst::sink::text::Writer;
use pabst::sink::{OpenSink, SinkConfig};
use pabst::source::las::{LasPoint, LasScanDirection};
use pabst::source::sdc::{SdcPoint, TargetType};
use pabst::source::{Backlog, OpenSource};
use pabst::{open_file_sink, open_file_source, Sink, Source};

const LAS_1_0_0: [u8; 460] = [
    76, 65, 83, 70, 0, 0, 0, 0, 184, 241, 136, 131, 27, 170, 8, 65,
    188, 163, 107, 198, 142, 123, 6, 46, 1, 0, 108, 105, 98, 76, 65, 83,
    0, 0, 0, 0, 0, 0, 0, 0, 0, 0, 0, 0, 0, 0, 0, 0,
    0, 0, 0, 0, 0, 0, 0, 0, 0, 0, 108, 105, 98, 76, 65, 83,
    32, 49, 46, 50, 0, 0, 0, 0, 0, 0, 0, 0, 0, 0, 0, 0,
    0, 0, 0, 0, 0, 0, 0, 0, 0, 0, 78, 0, 216, 7, 227, 0,
    184, 1, 0, 0, 2, 0, 0, 0, 0, 20, 0, 1, 0, 0, 0, 0,
    0, 0, 0, 1, 0, 0, 0, 0, 0, 0, 0, 0, 0, 0, 0, 0,
    0, 0, 0, 123, 20, 174, 71, 225, 122, 132, 63, 123, 20, 174, 71, 225,
    122, 132, 63, 123, 20, 174, 71, 225, 122, 132, 63, 0, 0, 0, 0, 0,
    0, 0, 0, 0, 0, 0, 0, 0, 0, 0, 0, 0, 0, 0, 0, 0,
    0, 0, 0, 199, 102, 71, 202, 145, 186, 28, 65, 199, 102, 71, 202, 145,
    186, 28, 65, 143, 167, 229, 57, 2, 143, 81, 65, 143, 167, 229, 57, 2,
    143, 81, 65, 0, 0, 0, 0, 0, 0, 48, 64, 0, 0, 0, 0, 0,
    0, 48, 64, 0, 0, 76, 65, 83, 70, 95, 80, 114, 111, 106, 101, 99,
    116, 105, 111, 110, 0, 175, 135, 64, 0, 0, 0, 0, 0, 0, 0, 0,
    0, 0, 0, 0, 0, 0, 0, 0, 0, 0, 0, 0, 0, 0, 0, 0,
    0, 0, 0, 0, 0, 0, 0, 0, 0, 1, 0, 1, 0, 0, 0, 7,
    0, 0, 4, 0, 0, 1, 0, 1, 0, 1, 4, 0, 0, 1, 0, 1,
    0, 2, 4, 177, 135, 33, 0, 0, 0, 1, 8, 177, 135, 6, 0, 33,
    0, 6, 8, 0, 0, 1, 0, 142, 35, 0, 12, 0, 0, 1, 0, 35,
    105, 4, 12, 0, 0, 1, 0, 41, 35, 0, 0, 76, 65, 83, 70, 95,
    80, 114, 111, 106, 101, 99, 116, 105, 111, 110, 0, 177, 135, 39, 0, 0,
    0, 0, 0, 0, 0, 0, 0, 0, 0, 0, 0, 0, 0, 0, 0, 0,
    0, 0, 0, 0, 0, 0, 0, 0, 0, 0, 0, 0, 0, 0, 0, 85,
    84, 77, 32, 90, 111, 110, 101, 32, 49, 53, 44, 32, 78, 111, 114, 116,
    104, 101, 114, 110, 32, 72, 101, 109, 105, 115, 112, 104, 101, 114, 101, 124,
    78, 65, 68, 56, 51, 124, 204, 221, 60, 56, 206, 2, 122, 115, 111, 27,
    64, 6, 0, 0, 0, 0, 2, 2, 243, 0, 0, 0,
];

const LAS_1_0_1: [u8; 468] = [
    76, 65, 83, 70, 0, 0, 0, 0, 184, 241, 136, 131, 27, 170, 8, 65,
    188, 163, 107, 198, 142, 123, 6, 46, 1, 0, 108, 105, 98, 76, 65, 83,
    0, 0, 0, 0, 0, 0, 0, 0, 0, 0, 0, 0, 0, 0, 0, 0,
    0, 0, 0, 0, 0, 0, 0, 0, 0, 0, 108, 105, 98, 76, 65, 83,
    32, 49, 46, 50, 0, 0, 0, 0, 0, 0, 0, 0, 0, 0, 0, 0,
    0, 0, 0, 0, 0, 0, 0, 0, 0, 0, 78, 0, 216, 7, 227, 0,
    184, 1, 0, 0, 2, 0, 0, 0, 1, 28, 0, 1, 0, 0, 0, 0,
    0, 0, 0, 1, 0, 0, 0, 0, 0, 0, 0, 0, 0, 0, 0, 0,
    0, 0, 0, 123, 20, 174, 71, 225, 122, 132, 63, 123, 20, 174, 71, 225,
    122, 132, 63, 123, 20, 174, 71, 225, 122, 132, 63, 0, 0, 0, 0, 0,
    0, 0, 0, 0, 0, 0, 0, 0, 0, 0, 0, 0, 0, 0, 0, 0,
    0, 0, 0, 199, 102, 71, 202, 145, 186, 28, 65, 199, 102, 71, 202, 145,
    186, 28, 65, 143, 167, 229, 57, 2, 143, 81, 65, 143, 167, 229, 57, 2,
    143, 81, 65, 0, 0, 0, 0, 0, 0, 48, 64, 0, 0, 0, 0, 0,
    0, 48, 64, 0, 0, 76, 65, 83, 70, 95, 80, 114, 111, 106, 101, 99,
    116, 105, 111, 110, 0, 175, 135, 64, 0, 0, 0, 0, 0, 0, 0, 0,
    0, 0, 0, 0, 0, 0, 0, 0, 0, 0, 0, 0, 0, 0, 0, 0,
    0, 0, 0, 0, 0, 0, 0, 0, 0, 1, 0, 1, 0, 0, 0, 7,
    0, 0, 4, 0, 0, 1, 0, 1, 0, 1, 4, 0, 0, 1, 0, 1,
    0, 2, 4, 177, 135, 33, 0, 0, 0, 1, 8, 177, 135, 6, 0, 33,
    0, 6, 8, 0, 0, 1, 0, 142, 35, 0, 12, 0, 0, 1, 0, 35,
    105, 4, 12, 0, 0, 1, 0, 41, 35, 0, 0, 76, 65, 83, 70, 95,
    80, 114, 111, 106, 101, 99, 116, 105, 111, 110, 0, 177, 135, 39, 0, 0,
    0, 0, 0, 0, 0, 0, 0, 0, 0, 0, 0, 0, 0, 0, 0, 0,
    0, 0, 0, 0, 0, 0, 0, 0, 0, 0, 0, 0, 0, 0, 0, 85,
    84, 77, 32, 90, 111, 110, 101, 32, 49, 53, 44, 32, 78, 111, 114, 116,
    104, 101, 114, 110, 32, 72, 101, 109, 105, 115, 112, 104, 101, 114, 101, 124,
    78, 65, 68, 56, 51, 124, 204, 221, 60, 56, 206, 2, 122, 115, 111, 27,
    64, 6, 0, 0, 0, 0, 2, 2, 243, 0, 0, 0, 0, 0, 0, 116,
    39, 248, 209, 65,
];

const SDC_4_POINTS: [u8; 160] = [
    8, 0, 0, 0, 5, 0, 0, 0, 192, 48, 114, 72, 150, 187, 158, 64,
    88, 238, 206, 67, 241, 219, 239, 65, 225, 61, 179, 67, 151, 110, 35, 191,
    195, 207, 78, 67, 69, 0, 1, 0, 3, 1, 4, 1, 0, 2, 233, 254,
    114, 72, 150, 187, 158, 64, 134, 212, 207, 67, 241, 219, 239, 65, 65, 5,
    180, 67, 150, 35, 36, 191, 209, 181, 79, 67, 35, 0, 1, 0, 3, 2,
    4, 1, 0, 2, 135, 153, 115, 72, 150, 187, 158, 64, 39, 129, 208, 67,
    241, 219, 239, 65, 200, 154, 180, 67, 84, 171, 36, 191, 90, 98, 80, 67,
    105, 0, 1, 0, 3, 3, 4, 1, 0, 2, 131, 254, 111, 72, 150, 187,
    158, 64, 156, 122, 204, 67, 241, 219, 239, 65, 38, 30, 177, 67, 252, 128,
    33, 191, 92, 92, 76, 67, 81, 0, 1, 0, 3, 4, 4, 1, 0, 66,
];

fn fixed(value: f64) -> Fixed {
    Fixed::from_nanos((value * 1e9).round() as i64)
}

fn float(value: Fixed) -> f64 {
    value.as_nanos() as f64 / 1e9
}

fn las_record(point: &las::Point) -> LasPoint {
    LasPoint {
        x: fixed(point.x),
        y: fixed(point.y),
        z: fixed(point.z),
        intensity: point.intensity,
        return_number: point.return_number.as_u8(),
        number_of_returns: point.number_of_returns.as_u8(),
        scan_direction: match point.scan_direction {
            las::ScanDirection::Forward => LasScanDirection::Forward,
            las::ScanDirection::Backward => LasScanDirection::Backward,
        },
        edge_of_flight_line: point.edge_of_flight_line,
        classification: point.classification.as_u8(),
        synthetic: point.synthetic,
        key_point: point.key_point,
        withheld: point.withheld,
        scan_angle_rank: point.scan_angle_rank,
        user_data: point.user_data,
        point_source_id: point.point_source_id,
        gps_time: point.gps_time.map(fixed),
        red: point.red,
        green: point.green,
        blue: point.blue,
        extra_bytes: point.extra_bytes.clone(),
    }
}

fn las_native(record: &LasPoint) -> las::Point {
    las::Point {
        x: float(record.x),
        y: float(record.y),
        z: float(record.z),
        intensity: record.intensity,
        return_number: las::ReturnNumber::from_u8(record.return_number).unwrap(),
        number_of_returns: las::NumberOfReturns::from_u8(record.number_of_returns).unwrap(),
        scan_direction: match record.scan_direction {
            LasScanDirection::Forward => las::ScanDirection::Forward,
            LasScanDirection::Backward => las::ScanDirection::Backward,
        },
        edge_of_flight_line: record.edge_of_flight_line,
        classification: las::Classification::from_u8(record.classification).unwrap(),
        synthetic: record.synthetic,
        key_point: record.key_point,
        withheld: record.withheld,
        scan_angle_rank: record.scan_angle_rank,
        user_data: record.user_data,
        point_source_id: record.point_source_id,
        gps_time: record.gps_time.map(float),
        red: record.red,
        green: record.green,
        blue: record.blue,
        extra_bytes: record.extra_bytes.clone(),
    }
}

fn sdc_record(point: &sdc::Point) -> SdcPoint {
    SdcPoint {
        time: fixed(point.time),
        range: fixed(point.range as f64),
        theta: fixed(point.theta as f64),
        x: fixed(point.x as f64),
        y: fixed(point.y as f64),
        z: fixed(point.z as f64),
        amplitude: point.amplitude,
        width: point.width,
        target_type: match point.target_type {
            sdc::TargetType::CenterOfGravity => TargetType::CenterOfGravity,
            sdc::TargetType::Parabola => TargetType::Parabola,
            sdc::TargetType::Gaussian => TargetType::Gaussian,
            sdc::TargetType::Peak => TargetType::Peak,
        },
        target: point.target,
        num_target: point.num_target,
        rg_index: point.rg_index,
        facet_number: point.facet_number,
        high_channel: point.high_channel,
        class_id: point.class_id,
        rho: point.rho.map(|rho| fixed(rho as f64)),
        reflectance: point.reflectance,
    }
}

fn sdc_native(record: &SdcPoint) -> sdc::Point {
    sdc::Point {
        time: float(record.time),
        range: float(record.range) as f32,
        theta: float(record.theta) as f32,
        x: float(record.x) as f32,
        y: float(record.y) as f32,
        z: float(record.z) as f32,
        amplitude: record.amplitude,
        width: record.width,
        target_type: match record.target_type {
            TargetType::CenterOfGravity => sdc::TargetType::CenterOfGravity,
            TargetType::Parabola => sdc::TargetType::Parabola,
            TargetType::Gaussian => sdc::TargetType::Gaussian,
            TargetType::Peak => sdc::TargetType::Peak,
        },
        target: record.target,
        num_target: record.num_target,
        rg_index: record.rg_index,
        facet_number: record.facet_number,
        high_channel: record.high_channel,
        class_id: record.class_id,
        rho: record.rho.map(|rho| float(rho) as f32),
        reflectance: record.reflectance,
    }
}

fn read_las(bytes: &[u8]) -> Backlog {
    let mut reader = las::Reader::new(Cursor::new(bytes.to_vec())).unwrap();
    let mut backlog = Backlog::new();
    while let Some(point) = reader.read_point().unwrap() {
        backlog.feed(Point::from(las_record(&point)));
    }
    backlog
}

fn read_sdc(bytes: &[u8]) -> Backlog {
    let mut reader = sdc::Reader::new(Cursor::new(bytes.to_vec())).unwrap();
    let mut backlog = Backlog::new();
    while let Some(point) = reader.next_point().unwrap() {
        backlog.feed(Point::from(sdc_record(&point)));
    }
    backlog
}

fn read_source(bytes: &[u8], opening: OpenSource) -> Backlog {
    match opening {
        OpenSource::Las => read_las(bytes),
        OpenSource::Sdc => read_sdc(bytes),
        _ => panic!("no reader for this source"),
    }
}

fn las_writer<W: Write + Seek>(inner: W, config: &LasConfig) -> las::Writer<W> {
    let mut writer = las::Writer::new(inner);
    if let Some(s) = config.scale_factors {
        writer = writer.scale_factors(float(s.x), float(s.y), float(s.z));
    }
    if let Some(a) = config.auto_offsets {
        writer = writer.auto_offsets(a);
    }
    if let Some(p) = config.point_format().unwrap() {
        writer = writer.point_format(las::PointFormat::from_u8(p).unwrap());
    }
    if let Some(v) = config.version {
        writer = writer.version(v.major, v.minor);
    }
    writer
}

fn write_las<W: Write + Seek>(writer: las::Writer<W>, points: &[Point]) {
    let mut sink = writer.open().unwrap();
    for point in points {
        let record = pabst::sink::las::from_point(point).unwrap();
        sink.write_point(&las_native(&record)).unwrap();
    }
    let _ = sink.close().unwrap();
}

fn centimetres() -> LasConfig {
    LasConfig {
        scale_factors: Some(ScaleFactors {
            x: Fixed::from_nanos(10_000_000),
            y: Fixed::from_nanos(10_000_000),
            z: Fixed::from_nanos(10_000_000),
        }),
        auto_offsets: Some(true),
        point_format: Some(0),
        version: Some(Version { major: 1, minor: 2 }),
    }
}

fn check_readers<R: Read>(_: &R) {}

#[test]
fn read_write_las() {
    let mut source = read_las(&LAS_1_0_0);
    let mut written = Vec::new();
    write_las(las::Writer::new(Cursor::new(&mut written)), &source.source_to_end(100).unwrap());

    let mut source = read_las(&written);
    let points = source.source_to_end(100).unwrap();
    assert_eq!(1, points.len());
}

#[test]
fn source_and_sink() {
    let opening = open_file_source("data/1.0_0.las", None).unwrap();
    let mut source = read_source(&LAS_1_0_0, opening);
    let config = match open_file_sink("source_and_sink.las", Some(SinkConfig::Las(centimetres()))) {
        Ok(OpenSink::Las(config)) => config,
        other => panic!("not a las sink: {:?}", other),
    };
    let mut written = Vec::new();
    write_las(
        las_writer(Cursor::new(&mut written), &config),
        &source.source_to_end(100).unwrap(),
    );

    let mut source = read_las(&written);
    let points = source.source_to_end(100).unwrap();
    assert_eq!(1, points.len());
}

#[test]
fn sink_las() {
    let mut source = read_las(&LAS_1_0_1);
    let mut written = Vec::new();
    {
        let mut sink = sdc::Writer::new(&mut written).unwrap();
        for point in &source.source_to_end(100).unwrap() {
            let record = pabst::sink::sdc::from_point(point).unwrap();
            sink.write_point(&sdc_native(&record)).unwrap();
        }
    }
    let mut source = read_sdc(&written);
    let points = source.source_to_end(100).unwrap();
    assert_eq!(1, points.len());
}

#[test]
fn open_sink() {
    let opening = open_file_source("data/1.0_0.las", None).unwrap();
    let mut source = read_source(&LAS_1_0_0, opening);
    let mut sink = match open_file_sink("target/debug/open_sink.txt", None) {
        Ok(OpenSink::Text(config)) => Writer::new(config.dimensions),
        other => panic!("not a text sink: {:?}", other),
    };
    for ref point in source.source_to_end(1000).unwrap() {
        sink.sink(point).unwrap();
    }
    assert_eq!("x y z\n", sink.header());
    assert_eq!("470692.44 4602888.9 16\n", sink.take_output());
    sink.close_sink().unwrap();
}

#[test]
fn simple_read_format_5_0() {
    let mut source = read_sdc(&SDC_4_POINTS);
    let points = source.source_to_end(100).unwrap();
    assert_eq!(4, points.len());
}

#[test]
fn fs() {
    let opening = open_file_source("data/4-points.sdc", None).unwrap();
    let mut source = read_source(&SDC_4_POINTS, opening);
    let points = source.source_to_end(100).unwrap();
    assert_eq!(4, points.len());
}

#[test]
fn a_las_point_keeps_its_place_through_a_las_file() {
    let mut source = read_las(&LAS_1_0_0);
    let points = source.source(1).unwrap().unwrap();
    assert_eq!(1, points.len());
    assert_eq!(None, source.source(1).unwrap());
    assert_eq!(Fixed::from_nanos(470_692_440_000_000), points[0].x);
    assert_eq!(470692.44, float(points[0].x));
    assert_eq!(Fixed::from_nanos(4_602_888_900_000_000), points[0].y);
    assert_eq!(Fixed::from_whole(16), points[0].z);
    assert_eq!(Some(2), points[0].return_number);

    let mut written = Vec::new();
    write_las(las_writer(Cursor::new(&mut written), &centimetres()), &points);
    let mut source = read_las(&written);
    let again = source.source_to_end(1).unwrap();
    assert_eq!(1, again.len());
    assert_eq!(points[0].x, again[0].x);
    assert_eq!(470692.44, float(again[0].x));
    assert_eq!(points[0].y, again[0].y);
    assert_eq!(points[0].z, again[0].z);
    assert_eq!(Some(2), again[0].return_number);
    assert_eq!(points[0], again[0]);
}

#[test]
fn every_chunk_size_reads_the_same_sdc_points() {
    let whole = read_sdc(&SDC_4_POINTS).source_to_end(100).unwrap();
    check_readers(&Cursor::new(SDC_4_POINTS.to_vec()));
    for want in [1, 2, 4, 40] {
        assert_eq!(whole, read_sdc(&SDC_4_POINTS).source_to_end(want).unwrap());
    }
    let mut source = read_sdc(&SDC_4_POINTS);
    assert_eq!(Some(whole[0..3].to_vec()), source.source(3).unwrap());
    assert_eq!(Some(whole[3..4].to_vec()), source.source(3).unwrap());
    assert_eq!(None, source.source(3).unwrap());
}

#[test]
fn an_sdc_point_keeps_its_place_through_an_sdc_file() {
    let points = read_sdc(&SDC_4_POINTS).source_to_end(100).unwrap();
    let mut written = Vec::new();
    {
        let mut sink = sdc::Writer::new(&mut written).unwrap();
        for point in &points {
            let record = pabst::sink::sdc::from_point(point).unwrap();
            sink.write_point(&sdc_native(&record)).unwrap();
        }
    }
    let again = read_sdc(&written).source_to_end(100).unwrap();
    assert_eq!(4, again.len());
    for (before, after) in points.iter().zip(again.iter()) {
        assert_eq!(before.x, after.x);
        assert_eq!(before.y, after.y);
        assert_eq!(before.z, after.z);
        assert_eq!(before.gps_time, after.gps_time);
        assert_eq!(before.return_number, after.return_number);
    }
}

#[test]
fn a_las_point_without_time_is_no_sdc_point() {
    let points = read_las(&LAS_1_0_0).source_to_end(100).unwrap();
    assert_eq!(
        Err(pabst::Error::MissingDimension("time".to_string())),
        pabst::sink::sdc::from_point(&points[0])
    );
}

#[test]
fn open_file_source_test() {
    let _ = open_file_source("data/110630_174316.sdf", None).unwrap();
}

#[test]
fn a_las_file_converts_into_an_sdc_file() {
    let mut source = read_las(&LAS_1_0_1);
    let mut sink = pabst::sink::sdc::Writer::new();
    assert_eq!(Ok(1), pabst::pipeline::convert(&mut source, &mut sink, 10000, None));
    let mut written = Vec::new();
    {
        let mut writer = sdc::Writer::new(&mut written).unwrap();
        for record in sink.take_records() {
            writer.write_point(&sdc_native(&record)).unwrap();
        }
    }
    sink.close_sink().unwrap();
    let points = read_sdc(&written).source_to_end(100).unwrap();
    assert_eq!(1, points.len());
    assert_eq!(Some(Fixed::from_whole(1_205_902_800)), points[0].gps_time);
    assert_eq!(Some(Fixed::from_whole(-13)), points[0].scan_angle);
    assert_eq!(Some(2), points[0].return_number);
}

#[test]
fn an_sdc_file_converts_into_a_las_file() {
    let mut source = read_sdc(&SDC_4_POINTS);
    let first = source.source(1).unwrap().unwrap();
    let mut source = pabst::source::Backlog::from_points(first.clone());
    let mut sink = pabst::sink::las::Writer::new(1).unwrap();
    assert_eq!(Ok(1), pabst::pipeline::convert(&mut source, &mut sink, 10, Some(5)));
    let mut config = centimetres();
    config.point_format = Some(1);
    let mut written = Vec::new();
    {
        let mut writer = las_writer(Cursor::new(&mut written), &config).open().unwrap();
        for record in sink.take_records() {
            writer.write_point(&las_native(&record)).unwrap();
        }
        let _ = writer.close().unwrap();
    }
    let points = read_las(&written).source_to_end(100).unwrap();
    assert_eq!(1, points.len());
    assert_eq!(Fixed::from_nanos(358_480_000_000), points[0].x);
    assert_eq!(Fixed::from_nanos(-630_000_000), points[0].y);
    assert_eq!(Fixed::from_nanos(206_810_000_000), points[0].z);
    assert_eq!(first[0].gps_time, points[0].gps_time);
    assert_eq!(Some(Fixed::from_whole(29)), points[0].scan_angle);
    assert_eq!(69, points[0].intensity.as_u16());
    assert_eq!(Some(1), points[0].return_number);
    assert_eq!(Some(4), points[0].number_of_returns);
}
