use radio_station::error::InputError;
use radio_station::input::{Input, SeekTarget};

fn targets() -> Vec<SeekTarget> {
    vec![
        SeekTarget::Start(0),
        SeekTarget::Start(1),
        SeekTarget::Start(u64::MAX),
        SeekTarget::End(0),
        SeekTarget::End(-1),
        SeekTarget::End(i64::MIN),
        SeekTarget::End(i64::MAX),
        SeekTarget::Current(0),
        SeekTarget::Current(-4096),
        SeekTarget::Current(i64::MAX),
    ]
}

#[test]
fn standard_input_refuses_every_seek() {
    for target in targets() {
        assert_eq!(Input::Stdin.seek(target), Err(InputError::SeekUnsupported));
    }
}

#[test]
fn file_passes_every_seek_on_unchanged() {
    for target in targets() {
        assert_eq!(Input::File.seek(target), Ok(target));
    }
}

#[test]
fn only_a_file_is_seekable() {
    assert!(Input::File.is_seekable());
    assert!(!Input::Stdin.is_seekable());
}

#[test]
fn refusal_names_the_source() {
    assert_eq!(InputError::SeekUnsupported.message(), "not supported by stdin-input");
}
