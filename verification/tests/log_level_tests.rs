use ecall_gateway::errno::Errno;
use ecall_gateway::log_level::{effective_level, parse_log_level, LevelFilter};

fn parse(s: &[u8]) -> Result<LevelFilter, Errno> {
    parse_log_level(Some(s.to_vec()))
}

#[test]
fn null_level_is_off() {
    assert_eq!(parse_log_level(None), Ok(LevelFilter::Off));
}

#[test]
fn recognized_levels_parse() {
    assert_eq!(parse(b"off"), Ok(LevelFilter::Off));
    assert_eq!(parse(b"panic"), Ok(LevelFilter::Error));
    assert_eq!(parse(b"fatal"), Ok(LevelFilter::Error));
    assert_eq!(parse(b"error"), Ok(LevelFilter::Error));
    assert_eq!(parse(b"warning"), Ok(LevelFilter::Warn));
    assert_eq!(parse(b"warn"), Ok(LevelFilter::Warn));
    assert_eq!(parse(b"info"), Ok(LevelFilter::Info));
    assert_eq!(parse(b"debug"), Ok(LevelFilter::Debug));
    assert_eq!(parse(b"trace"), Ok(LevelFilter::Trace));
}

#[test]
fn parsing_ignores_ascii_case() {
    assert_eq!(parse(b"OFF"), Ok(LevelFilter::Off));
    assert_eq!(parse(b"Error"), Ok(LevelFilter::Error));
    assert_eq!(parse(b"WaRn"), Ok(LevelFilter::Warn));
    assert_eq!(parse(b"TRACE"), Ok(LevelFilter::Trace));
    assert_eq!(parse(b"Info"), Ok(LevelFilter::Info));
    assert_eq!(parse(b"DEBUG"), Ok(LevelFilter::Debug));
}

#[test]
fn unknown_level_is_off_not_error() {
    assert_eq!(parse(b"verbose"), Ok(LevelFilter::Off));
    assert_eq!(parse(b""), Ok(LevelFilter::Off));
    assert_eq!(parse(b"tracee"), Ok(LevelFilter::Off));
    assert_eq!(parse(b"  off"), Ok(LevelFilter::Off));
}

#[test]
fn non_text_level_is_einval() {
    assert_eq!(parse(&[0xff, 0xfe]), Err(Errno::EINVAL));
    assert_eq!(parse(&[b'o', 0x80, b'f']), Err(Errno::EINVAL));
}

#[test]
fn debug_disallowed_forces_off() {
    assert_eq!(effective_level(LevelFilter::Trace, false), LevelFilter::Off);
    assert_eq!(effective_level(LevelFilter::Debug, false), LevelFilter::Off);
    assert_eq!(effective_level(LevelFilter::Error, false), LevelFilter::Off);
    assert_eq!(effective_level(LevelFilter::Off, false), LevelFilter::Off);
}

#[test]
fn debug_allowed_keeps_requested_level() {
    assert_eq!(effective_level(LevelFilter::Trace, true), LevelFilter::Trace);
    assert_eq!(effective_level(LevelFilter::Off, true), LevelFilter::Off);
    assert_eq!(effective_level(LevelFilter::Warn, true), LevelFilter::Warn);
}
