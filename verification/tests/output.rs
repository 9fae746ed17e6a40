use process_control::output::{get_command_output, CommandReport, OutputError};

#[test]
fn successful_command_gives_its_text() {
    let report = CommandReport { success: true, stdout: b"hello world\n".to_vec() };
    assert_eq!(get_command_output(report), Ok("hello world\n".to_string()));
}

#[test]
fn successful_command_without_output_gives_empty_text() {
    let report = CommandReport { success: true, stdout: Vec::new() };
    assert_eq!(get_command_output(report), Ok(String::new()));
}

#[test]
fn multibyte_text_is_decoded() {
    let report = CommandReport { success: true, stdout: vec![0x68, 0xc3, 0xa9, 0xe2, 0x82, 0xac] };
    assert_eq!(get_command_output(report), Ok("h\u{e9}\u{20ac}".to_string()));
}

#[test]
fn failed_command_is_an_error() {
    let report = CommandReport { success: false, stdout: b"partial".to_vec() };
    assert_eq!(get_command_output(report), Err(OutputError::NonZeroExit));
}

#[test]
fn failed_command_with_bad_text_is_still_a_failed_command() {
    let report = CommandReport { success: false, stdout: vec![0xff, 0xfe] };
    assert_eq!(get_command_output(report), Err(OutputError::NonZeroExit));
}

#[test]
fn invalid_text_is_a_decode_error() {
    let report = CommandReport { success: true, stdout: vec![0x66, 0x6f, 0xff, 0x6f] };
    assert_eq!(get_command_output(report), Err(OutputError::NotUtf8));
    let report = CommandReport { success: true, stdout: vec![0xc3] };
    assert_eq!(get_command_output(report), Err(OutputError::NotUtf8));
    let report = CommandReport { success: true, stdout: vec![0xed, 0xa0, 0x80] };
    assert_eq!(get_command_output(report), Err(OutputError::NotUtf8));
}
