//! The wide command-line buffer: exact double-terminated shape and
//! byte-level round trips.

use transparent_runner::cmdline::build_command_buffer;
use transparent_runner::native::VirtualDesktopProcess;

/// Splits a double-terminated wide buffer back into its segments:
/// nul-closed stretches up to the empty stretch the final terminator
/// makes.
fn decode_segments(buffer: &[u16]) -> Vec<Vec<u16>> {
    let mut segments: Vec<Vec<u16>> = Vec::new();
    let mut current: Vec<u16> = Vec::new();
    for &unit in buffer {
        if unit == 0 {
            if current.is_empty() {
                return segments;
            }
            segments.push(current);
            current = Vec::new();
        } else {
            current.push(unit);
        }
    }
    panic!("buffer was not closed by a double terminator");
}

#[test]
fn buffer_has_exact_double_terminated_shape() {
    let path = String::from("prog");
    let args = vec![String::from("a"), String::from("b")];
    let buffer = VirtualDesktopProcess::parse_run_args(&path, &args);
    assert_eq!(
        buffer,
        vec![
            'p' as u16, 'r' as u16, 'o' as u16, 'g' as u16, 0, 'a' as u16, 0, 'b' as u16, 0, 0
        ]
    );
}

#[test]
fn buffer_round_trips_to_its_segments() {
    let path = String::from("prog");
    let args = vec![String::from("a"), String::from("b")];
    let buffer = VirtualDesktopProcess::parse_run_args(&path, &args);
    let segments = decode_segments(&buffer);
    let decoded: Vec<String> = segments
        .iter()
        .map(|s| String::from_utf16(s).expect("segment was valid UTF-16"))
        .collect();
    assert_eq!(
        decoded,
        vec![String::from("prog"), String::from("a"), String::from("b")]
    );
}

#[test]
fn buffer_without_arguments_is_path_then_two_nuls() {
    let path = String::from("x");
    let args: Vec<String> = Vec::new();
    let buffer = VirtualDesktopProcess::parse_run_args(&path, &args);
    assert_eq!(buffer, vec!['x' as u16, 0, 0]);
}

#[test]
fn non_ascii_path_is_encoded_as_utf16() {
    let path = String::from("\u{03c0}");
    let args: Vec<String> = Vec::new();
    let buffer = VirtualDesktopProcess::parse_run_args(&path, &args);
    assert_eq!(buffer, vec![0x03c0, 0, 0]);
}

#[test]
fn supplementary_plane_character_takes_a_surrogate_pair() {
    let path = String::from("\u{1f600}");
    let args: Vec<String> = Vec::new();
    let buffer = VirtualDesktopProcess::parse_run_args(&path, &args);
    assert_eq!(buffer, vec![0xd83d, 0xde00, 0, 0]);
}

#[test]
fn raw_segment_builder_closes_each_segment() {
    let path: Vec<u16> = vec![1, 2];
    let args: Vec<Vec<u16>> = vec![vec![3], vec![4, 5]];
    let buffer = build_command_buffer(&path, &args);
    assert_eq!(buffer, vec![1, 2, 0, 3, 0, 4, 5, 0, 0]);
}
