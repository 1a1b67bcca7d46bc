//! Rendering a match as one line of output, with optional ANSI colors.
use vstd::prelude::*;
use vstd::utf8::encode_utf8;
use crate::filename_filter::FileNameMatch;
use crate::scan::MatchedFile;

verus! {

/// The byte that separates a directory from a name in a path.
pub const SEPARATOR: u8 = 0x2f;

/// ANSI: grey foreground, for the de-emphasized directory.
pub open spec fn fg_grey() -> Seq<u8> {
    seq![0x1bu8, 0x5b, 0x33, 0x38, 0x3b, 0x35, 0x3b, 0x32, 0x34, 0x30, 0x6d]
}

/// ANSI: bold red foreground, for the bytes that matched.
pub open spec fn fg_red_bold() -> Seq<u8> {
    seq![0x1bu8, 0x5b, 0x31, 0x3b, 0x33, 0x31, 0x6d]
}

/// ANSI: back to the terminal's default style.
pub open spec fn reset() -> Seq<u8> {
    seq![0x1bu8, 0x5b, 0x30, 0x6d]
}

/// The range lies within a name of `len` bytes.
pub open spec fn range_fits(range: FileNameMatch, len: int) -> bool {
    match range {
        FileNameMatch::NoHighlight => true,
        FileNameMatch::SingleRange((s, e)) => s <= e <= len,
    }
}

/// The name with the matched bytes in bold red; the name as it is where no
/// range is singled out.
pub open spec fn colorized_name(name: Seq<u8>, range: FileNameMatch) -> Seq<u8> {
    match range {
        FileNameMatch::NoHighlight => name,
        FileNameMatch::SingleRange((s, e)) => name.subrange(0, s as int) + fg_red_bold()
            + name.subrange(s as int, e as int) + reset() + name.subrange(e as int, name.len() as int),
    }
}

/// The output line of a match (without its line break): the path as it is,
/// or, in color, the directory de-emphasized, then the highlighted name, then
/// a closing reset.
pub open spec fn rendered_line(
    directory: Seq<u8>,
    name: Seq<u8>,
    range: FileNameMatch,
    color: bool,
) -> Seq<u8> {
    if color {
        fg_grey() + directory + seq![SEPARATOR] + reset() + colorized_name(name, range) + reset()
    } else {
        directory + seq![SEPARATOR] + name
    }
}

/// Appends `b[from .. to]` to `out`.
fn push_range(out: &mut Vec<u8>, b: &[u8], from: usize, to: usize)
    requires
        from <= to <= b@.len(),
    ensures
        final(out)@ == old(out)@ + b@.subrange(from as int, to as int),
{
    let mut k: usize = from;
    while k < to
        invariant
            from <= k <= to,
            to <= b@.len(),
            out@ == old(out)@ + b@.subrange(from as int, k as int),
        decreases to - k,
    {
        out.push(b[k]);
        assert(b@.subrange(from as int, k + 1) =~= b@.subrange(from as int, k as int).push(b@[k as int]));
        k = k + 1;
    }
}

/// Appends all of `b` to `out`.
fn push_all(out: &mut Vec<u8>, b: &[u8])
    ensures
        final(out)@ == old(out)@ + b@,
{
    let n = b.len();
    push_range(out, b, 0, n);
    assert(b@.subrange(0, n as int) =~= b@);
}

fn push_grey(out: &mut Vec<u8>)
    ensures
        final(out)@ == old(out)@ + fg_grey(),
{
    let code: [u8; 11] = [0x1b, 0x5b, 0x33, 0x38, 0x3b, 0x35, 0x3b, 0x32, 0x34, 0x30, 0x6d];
    push_all(out, &code);
    assert(code@ =~= fg_grey());
}

fn push_red_bold(out: &mut Vec<u8>)
    ensures
        final(out)@ == old(out)@ + fg_red_bold(),
{
    let code: [u8; 7] = [0x1b, 0x5b, 0x31, 0x3b, 0x33, 0x31, 0x6d];
    push_all(out, &code);
    assert(code@ =~= fg_red_bold());
}

fn push_reset(out: &mut Vec<u8>)
    ensures
        final(out)@ == old(out)@ + reset(),
{
    let code: [u8; 4] = [0x1b, 0x5b, 0x30, 0x6d];
    push_all(out, &code);
    assert(code@ =~= reset());
}

/// Appends the name, with the matched bytes highlighted.
fn push_colorized_name(out: &mut Vec<u8>, name: &[u8], range: &FileNameMatch)
    requires
        range_fits(*range, name@.len() as int),
    ensures
        final(out)@ == old(out)@ + colorized_name(name@, *range),
{
    match range {
        FileNameMatch::NoHighlight => {
            push_all(out, name);
        },
        FileNameMatch::SingleRange((start, end)) => {
            let n = name.len();
            push_range(out, name, 0, *start);
            push_red_bold(out);
            push_range(out, name, *start, *end);
            push_reset(out);
            push_range(out, name, *end, n);
            assert(out@ =~= old(out)@ + colorized_name(name@, *range));
        },
    }
}

/// The file name with the bytes of its match range in bold red. The range is
/// in bytes and is applied to the bytes of the name as they are.
pub fn get_colorized_filename(filename: &str, matched_file: &MatchedFile) -> (r: Vec<u8>)
    requires
        range_fits(matched_file.range, encode_utf8(filename@).len() as int),
    ensures
        r@ == colorized_name(encode_utf8(filename@), matched_file.range),
{
    let mut out: Vec<u8> = Vec::new();
    push_colorized_name(&mut out, filename.as_bytes(), &matched_file.range);
    assert(out@ =~= colorized_name(encode_utf8(filename@), matched_file.range));
    out
}

/// The output line of a match, without its line break. Without color it is
/// the directory, the separator and the name, byte for byte.
pub fn render_path(file: &MatchedFile, color: bool) -> (r: Vec<u8>)
    requires
        color ==> range_fits(file.range, encode_utf8(file.filename@).len() as int),
    ensures
        r@ == rendered_line(
            encode_utf8(file.directory@),
            encode_utf8(file.filename@),
            file.range,
            color,
        ),
        !color ==> r@ == encode_utf8(file.directory@) + seq![SEPARATOR] + encode_utf8(
            file.filename@,
        ),
{
    let directory = file.directory.as_str().as_bytes();
    let name = file.filename.as_str().as_bytes();
    let mut out: Vec<u8> = Vec::new();
    if color {
        push_grey(&mut out);
        push_all(&mut out, directory);
        out.push(SEPARATOR);
        push_reset(&mut out);
        push_colorized_name(&mut out, name, &file.range);
        push_reset(&mut out);
    } else {
        push_all(&mut out, directory);
        out.push(SEPARATOR);
        push_all(&mut out, name);
    }
    assert(out@ =~= rendered_line(directory@, name@, file.range, color));
    out
}

} // verus!
