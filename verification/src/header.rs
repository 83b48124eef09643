//! Header fields, the line each of them is written as, and the block that
//! the lines of a message make.

use crate::decode::{decode_lossy, lossy_text, lossy_text_fits};
use vstd::prelude::*;

verus! {

/// A header field. The name is written as it stands. The value is bytes and
/// need not be valid text.
#[derive(Clone, Debug, PartialEq, Eq)]
pub struct Header {
    pub name: String,
    pub value: Vec<u8>,
}

/// A header field as a pair of sequences.
pub ghost struct HeaderView {
    pub name: Seq<char>,
    pub value: Seq<u8>,
}

impl View for Header {
    type V = HeaderView;

    open spec fn view(&self) -> HeaderView {
        HeaderView { name: self.name@, value: self.value@ }
    }
}

/// The views of a list of header fields, in the order of the list.
pub open spec fn header_views(headers: Seq<Header>) -> Seq<HeaderView> {
    Seq::new(headers.len(), |i: int| headers[i]@)
}

/// The two characters that end a line.
pub open spec fn crlf() -> Seq<char> {
    seq!['\r', '\n']
}

/// The line of a header field whose value has been decoded to `value_text`.
pub open spec fn header_line_with(name: Seq<char>, value_text: Seq<char>) -> Seq<char> {
    name + seq![':'] + value_text
}

/// The line of a header field: its name, a colon, and the lossy text of its
/// value.
pub open spec fn header_line(header: HeaderView) -> Seq<char> {
    header_line_with(header.name, lossy_text(header.value))
}

/// The lines of a list of header fields: one for each, in the order of the
/// list.
pub open spec fn header_lines(headers: Seq<HeaderView>) -> Seq<Seq<char>> {
    Seq::new(headers.len(), |i: int| header_line(headers[i]))
}

/// The first `count` of `lines`, with a line end between each two of them
/// and none after the last.
pub open spec fn joined(lines: Seq<Seq<char>>, count: nat) -> Seq<char>
    recommends
        count <= lines.len(),
    decreases count,
{
    if count == 0 {
        Seq::empty()
    } else if count == 1 {
        lines[0]
    } else {
        joined(lines, (count - 1) as nat) + crlf() + lines[count - 1]
    }
}

/// The header block of a message: the lines of its header fields, joined.
pub open spec fn header_block(headers: Seq<HeaderView>) -> Seq<char> {
    joined(header_lines(headers), headers.len())
}

/// The characters of each of a list of strings.
pub open spec fn string_views(strings: Seq<String>) -> Seq<Seq<char>> {
    Seq::new(strings.len(), |i: int| strings[i]@)
}

/// Writes the line of a header field from its name and the text of its
/// value.
pub fn write_header_line(name: &str, value_text: &str) -> (line: String)
    ensures
        line@ == header_line_with(name@, value_text@),
{
    let mut line = String::from_str(name);
    proof {
        reveal_strlit(":");
    }
    line.append(":");
    assert(line@ =~= name@ + seq![':']);
    line.append(value_text);
    line
}

impl Header {
    /// The line of this header field. A value that is no valid UTF-8 is no
    /// failure: it is decoded as far as it is valid, and the replacement
    /// character stands where its first invalid sequence begins.
    pub fn line(&self) -> (line: String)
        ensures
            line@ == header_line(self@),
            lossy_text_fits(self.value@),
    {
        let value_text = decode_lossy(self.value.as_slice());
        write_header_line(self.name.as_str(), value_text.as_str())
    }
}

/// Writes the lines of a list of header fields, in the order of the list.
pub fn write_header_lines(headers: &Vec<Header>) -> (lines: Vec<String>)
    ensures
        lines.len() == headers.len(),
        string_views(lines@) == header_lines(header_views(headers@)),
        forall|i: int| 0 <= i < headers.len() ==> lossy_text_fits(#[trigger] headers[i].value@),
{
    let mut lines: Vec<String> = Vec::new();
    let mut i: usize = 0;
    while i < headers.len()
        invariant
            i <= headers.len(),
            lines.len() == i,
            forall|j: int| 0 <= j < i ==> (#[trigger] lines[j])@ == header_line(headers[j]@),
            forall|j: int| 0 <= j < i ==> lossy_text_fits(#[trigger] headers[j].value@),
        decreases headers.len() - i,
    {
        let line = headers[i].line();
        lines.push(line);
        i += 1;
    }
    assert(string_views(lines@) =~= header_lines(header_views(headers@)));
    lines
}

/// Joins lines: a line end stands between each two of them, none after the
/// last, and no lines give the empty string.
pub fn join_lines(lines: &Vec<String>) -> (block: String)
    ensures
        block@ == joined(string_views(lines@), lines.len() as nat),
{
    let mut block = String::new();
    let mut i: usize = 0;
    while i < lines.len()
        invariant
            i <= lines.len(),
            block@ == joined(string_views(lines@), i as nat),
        decreases lines.len() - i,
    {
        if i > 0 {
            proof {
                reveal_strlit("\r\n");
            }
            block.append("\r\n");
            assert(block@ =~= joined(string_views(lines@), i as nat) + crlf());
        }
        block.append(lines[i].as_str());
        assert(block@ =~= joined(string_views(lines@), (i + 1) as nat));
        i += 1;
    }
    block
}

} // verus!
