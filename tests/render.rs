use pathsearch::filename_filter::FileNameMatch;
use pathsearch::render::{get_colorized_filename, render_path};
use pathsearch::scan::MatchedFile;

fn file(directory: &str, filename: &str, range: FileNameMatch) -> MatchedFile {
    MatchedFile { directory: directory.to_string(), filename: filename.to_string(), range }
}

#[test]
fn plain_line_is_the_path() {
    let f = file("/usr/bin", "ls", FileNameMatch::SingleRange((0, 2)));
    assert_eq!(render_path(&f, false), b"/usr/bin/ls".to_vec());
}

#[test]
fn plain_line_keeps_non_ascii_bytes() {
    let f = file("/opt/caf\u{e9}", "r\u{e9}sum\u{e9}", FileNameMatch::NoHighlight);
    assert_eq!(render_path(&f, false), "/opt/caf\u{e9}/r\u{e9}sum\u{e9}".as_bytes().to_vec());
}

#[test]
fn colorized_filename_highlights_span() {
    let f = file("/bin", "xyzabc123", FileNameMatch::SingleRange((3, 6)));
    let out = get_colorized_filename("xyzabc123", &f);
    assert_eq!(out, b"xyz\x1b[1;31mabc\x1b[0m123".to_vec());
}

#[test]
fn colorized_filename_without_range_is_unchanged() {
    let f = file("/bin", "ls", FileNameMatch::NoHighlight);
    assert_eq!(get_colorized_filename("ls", &f), b"ls".to_vec());
}

#[test]
fn colorized_filename_empty_span_at_end() {
    let f = file("/bin", "ls", FileNameMatch::SingleRange((2, 2)));
    assert_eq!(get_colorized_filename("ls", &f), b"ls\x1b[1;31m\x1b[0m".to_vec());
}

#[test]
fn colorized_filename_slices_by_bytes() {
    let name = "\u{e9}b";
    let f = file("/bin", name, FileNameMatch::SingleRange((1, 2)));
    let out = get_colorized_filename(name, &f);
    let mut expected = vec![0xc3u8];
    expected.extend_from_slice(b"\x1b[1;31m");
    expected.push(0xa9);
    expected.extend_from_slice(b"\x1b[0m");
    expected.push(b'b');
    assert_eq!(out, expected);
}

#[test]
fn colored_line_layout() {
    let f = file("/usr/bin", "ls", FileNameMatch::SingleRange((0, 1)));
    let out = render_path(&f, true);
    assert_eq!(out, b"\x1b[38;5;240m/usr/bin/\x1b[0m\x1b[1;31ml\x1b[0ms\x1b[0m".to_vec());
}

#[test]
fn colored_line_without_range_still_resets() {
    let f = file("/bin", "ls", FileNameMatch::NoHighlight);
    assert_eq!(render_path(&f, true), b"\x1b[38;5;240m/bin/\x1b[0mls\x1b[0m".to_vec());
}
