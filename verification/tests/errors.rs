use pabst::error::{Error, LasError, SdcError, Upstream};

fn upstream(description: &str, message: &str) -> Upstream {
    Upstream { description: description.to_string(), message: message.to_string() }
}

#[test]
fn every_error_describes_its_kind() {
    assert_eq!("configuration error", Error::Configuration("a".to_string()).description());
    assert_eq!("invalid option", Error::InvalidOption("a".to_string()).description());
    assert_eq!("missing dimension", Error::MissingDimension("a".to_string()).description());
    assert_eq!("invalid return number", Error::Las(LasError::InvalidReturnNumber(7)).description());
    assert_eq!(
        "invalid number of returns",
        Error::Las(LasError::InvalidNumberOfReturns(7)).description()
    );
    assert_eq!(
        "invalid classification",
        Error::Las(LasError::InvalidClassification(7)).description()
    );
    assert_eq!(
        "invalid point data format",
        Error::Las(LasError::InvalidPointFormat(7)).description()
    );
    assert_eq!("invalid target type", Error::Sdc(SdcError::InvalidTargetType(7)).description());
    assert_eq!("invalid target", Error::Sdc(SdcError::InvalidTarget(7)).description());
    assert_eq!(
        "invalid number of targets",
        Error::Sdc(SdcError::InvalidNumberOfTargets(7)).description()
    );
    assert_eq!("undefined source", Error::UndefinedSource.description());
    assert_eq!("undefined sink", Error::UndefinedSink.description());
    assert_eq!(
        "unregistered file extension",
        Error::UnregisteredFileExtension("a".to_string()).description()
    );
}

#[test]
fn an_error_that_wraps_another_describes_itself_as_that_one_does() {
    assert_eq!(
        "expected a table",
        Error::Decode(upstream("expected a table", "b")).description()
    );
    assert_eq!("entity not found", Error::Io(upstream("entity not found", "b")).description());
    assert_eq!("no such stream", Error::Rxp(upstream("no such stream", "b")).description());
    assert_eq!("end of file", Error::Sdf(upstream("end of file", "b")).description());
    assert_eq!(
        "point format mismatch",
        Error::Las(LasError::Upstream(upstream("point format mismatch", "b"))).description()
    );
    assert_eq!(
        "invalid header information",
        Error::Sdc(SdcError::Upstream(upstream("invalid header information", "b"))).description()
    );
    assert_eq!("", Error::Io(upstream("", "b")).description());
}

#[test]
fn every_error_has_a_message() {
    assert_eq!(
        "Configuration error: no such key",
        Error::Configuration("no such key".to_string()).message()
    );
    assert_eq!(
        "Decode error: expected a table",
        Error::Decode(upstream("a", "expected a table")).message()
    );
    assert_eq!("Invalid option: none taken", Error::InvalidOption("none taken".to_string()).message());
    assert_eq!("IO error: broken pipe", Error::Io(upstream("a", "broken pipe")).message());
    assert_eq!("Missing dimension: time", Error::MissingDimension("time".to_string()).message());
    assert_eq!(
        "las error: Invalid return number: 7",
        Error::Las(LasError::InvalidReturnNumber(7)).message()
    );
    assert_eq!(
        "las error: Invalid number of returns: 261",
        Error::Las(LasError::InvalidNumberOfReturns(261)).message()
    );
    assert_eq!(
        "las error: Invalid classification: 32",
        Error::Las(LasError::InvalidClassification(32)).message()
    );
    assert_eq!(
        "las error: Invalid point data format: 4",
        Error::Las(LasError::InvalidPointFormat(4)).message()
    );
    assert_eq!(
        "las error: IO error: broken pipe",
        Error::Las(LasError::Upstream(upstream("a", "IO error: broken pipe"))).message()
    );
    assert_eq!("rxp error: no such stream", Error::Rxp(upstream("a", "no such stream")).message());
    assert_eq!(
        "sdc error: Invalid target type: 10",
        Error::Sdc(SdcError::InvalidTargetType(10)).message()
    );
    assert_eq!("sdc error: Invalid target: 256", Error::Sdc(SdcError::InvalidTarget(256)).message());
    assert_eq!(
        "sdc error: Invalid number of targets: 300",
        Error::Sdc(SdcError::InvalidNumberOfTargets(300)).message()
    );
    assert_eq!(
        "sdc error: Invalid header information",
        Error::Sdc(SdcError::Upstream(upstream("a", "Invalid header information"))).message()
    );
    assert_eq!("sdf error: end of file", Error::Sdf(upstream("a", "end of file")).message());
    assert_eq!("Undefined source", Error::UndefinedSource.message());
    assert_eq!("Undefined sink", Error::UndefinedSink.message());
    assert_eq!(
        "Unregistered file extension: unknown",
        Error::UnregisteredFileExtension("unknown".to_string()).message()
    );
    assert_eq!("Missing dimension: ", Error::MissingDimension(String::new()).message());
    assert_eq!(
        "las error: Invalid return number: 18446744073709551615",
        Error::Las(LasError::InvalidReturnNumber(usize::MAX)).message()
    );
    assert_eq!(
        "las error: Invalid classification: 0",
        Error::Las(LasError::InvalidClassification(0)).message()
    );
}

#[test]
fn the_errors_of_a_format_have_a_cause() {
    assert_eq!(
        Some("Invalid return number: 7".to_string()),
        Error::Las(LasError::InvalidReturnNumber(7)).cause()
    );
    assert_eq!(
        Some("Invalid target type: 4".to_string()),
        Error::Sdc(SdcError::InvalidTargetType(4)).cause()
    );
    assert_eq!(Some("a".to_string()), Error::Decode(upstream("x", "a")).cause());
    assert_eq!(Some("b".to_string()), Error::Rxp(upstream("x", "b")).cause());
    assert_eq!(Some("d".to_string()), Error::Io(upstream("x", "d")).cause());
    assert_eq!(Some("c".to_string()), Error::Sdf(upstream("x", "c")).cause());
    assert_eq!(None, Error::Configuration("a".to_string()).cause());
    assert_eq!(None, Error::InvalidOption("a".to_string()).cause());
    assert_eq!(None, Error::MissingDimension("a".to_string()).cause());
    assert_eq!(None, Error::UndefinedSource.cause());
    assert_eq!(None, Error::UndefinedSink.cause());
    assert_eq!(None, Error::UnregisteredFileExtension("a".to_string()).cause());
}

#[test]
fn the_errors_of_a_format_have_their_own_words() {
    assert_eq!("Invalid return number: 6", LasError::InvalidReturnNumber(6).message());
    assert_eq!("invalid return number", LasError::InvalidReturnNumber(6).description());
    assert_eq!("Invalid target: 256", SdcError::InvalidTarget(256).message());
    assert_eq!("invalid target", SdcError::InvalidTarget(256).description());
    assert_eq!("words", SdcError::Upstream(upstream("kind", "words")).message());
    assert_eq!("kind", SdcError::Upstream(upstream("kind", "words")).description());
    assert_eq!("words", LasError::Upstream(upstream("kind", "words")).message());
    assert_eq!("kind", LasError::Upstream(upstream("kind", "words")).description());
}
