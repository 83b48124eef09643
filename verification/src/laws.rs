//! What holds of the text of every message, proved from the definitions
//! that the contracts of the serialiser are stated in.

use crate::decode::{lossy_text, lossy_text_fits, replacement_char, valid_prefix_text};
use crate::header::{crlf, header_block, header_line, header_lines, joined, HeaderView};
use crate::message::message_text;
use crate::parser::{header_values_fit, is_parse_of, wire_text, MessageView};
use crate::version::version_text;
use vstd::prelude::*;
use vstd::utf8::valid_utf8;

verus! {

/// Where the line with index `i` begins in the join of `lines`.
pub open spec fn line_start(lines: Seq<Seq<char>>, i: nat) -> int {
    if i == 0 {
        0
    } else {
        joined(lines, i).len() as int + 2
    }
}

/// Where the header block begins in the text of a message.
pub open spec fn block_start(message: MessageView) -> int {
    message.start_line().len() as int + 2
}

/// Where the version token begins in the text of a message.
pub open spec fn version_start(message: MessageView) -> int {
    match message {
        MessageView::Request(request) => request.method.len() as int + 1 + request.target.len() + 1,
        MessageView::Response(_) => 0,
    }
}

/// Where, in the line of a header field whose value is no valid UTF-8, the
/// replacement character for the first invalid sequence stands.
pub open spec fn marker_in_line(header: HeaderView) -> int {
    header.name.len() as int + 1 + valid_prefix_text(header.value).len()
}

/// The join of the first `i` lines is the beginning of the join of the
/// first `count`, for `i` up to `count`.
pub proof fn lemma_joined_prefix(lines: Seq<Seq<char>>, i: nat, count: nat)
    requires
        i <= count,
    ensures
        joined(lines, i).len() <= joined(lines, count).len(),
        joined(lines, count).subrange(0, joined(lines, i).len() as int) == joined(lines, i),
    decreases count,
{
    if i == count {
        assert(joined(lines, count).subrange(0, joined(lines, count).len() as int) =~= joined(
            lines,
            count,
        ));
    } else if count == 1 {
        assert(joined(lines, 1).subrange(0, 0) =~= joined(lines, 0));
    } else {
        let shorter = joined(lines, (count - 1) as nat);
        lemma_joined_prefix(lines, i, (count - 1) as nat);
        assert(joined(lines, count) == shorter + crlf() + lines[count - 1]);
        assert(joined(lines, count).subrange(0, joined(lines, i).len() as int)
            =~= shorter.subrange(0, joined(lines, i).len() as int));
    }
}

/// Every one of the joined lines stands in the join as it is, at its place:
/// the first at the beginning, each other one two characters after the end
/// of the one before it, and these two characters are a line end. The join
/// ends with the last line.
pub proof fn lemma_lines_in_join(lines: Seq<Seq<char>>, count: nat, i: nat)
    requires
        i < count,
    ensures
        0 <= line_start(lines, i),
        line_start(lines, i) + lines[i as int].len() <= joined(lines, count).len(),
        joined(lines, count).subrange(
            line_start(lines, i),
            line_start(lines, i) + lines[i as int].len(),
        ) == lines[i as int],
        i + 1 < count ==> line_start(lines, i + 1) == line_start(lines, i) + lines[i as int].len()
            + 2,
        i + 1 < count ==> joined(lines, count).subrange(
            line_start(lines, i) + lines[i as int].len(),
            line_start(lines, i + 1),
        ) == crlf(),
        i + 1 == count ==> joined(lines, count).len() == line_start(lines, i) + lines[i as int].len(),
{
    let start = line_start(lines, i);
    let line = lines[i as int];
    let upto = joined(lines, i + 1);
    assert(upto.len() == start + line.len() && upto.subrange(start, start + line.len()) =~= line)
        by {
        if i > 0 {
            assert(upto == joined(lines, i) + crlf() + line);
        }
    }
    lemma_joined_prefix(lines, i + 1, count);
    let whole = joined(lines, count);
    assert(whole.subrange(start, start + line.len()) =~= whole.subrange(
        0,
        upto.len() as int,
    ).subrange(start, start + line.len()));
    if i + 1 < count {
        let next = joined(lines, i + 2);
        assert(next == upto + crlf() + lines[i as int + 1]);
        lemma_joined_prefix(lines, i + 2, count);
        assert(whole.subrange(start + line.len(), start + line.len() + 2) =~= whole.subrange(
            0,
            next.len() as int,
        ).subrange(start + line.len(), start + line.len() + 2));
        assert(next.subrange(start + line.len(), start + line.len() + 2) =~= crlf());
    }
}

/// The text of a message is its start line, a line end, its header block, a
/// line end, and its body, each at its place and nothing else.
pub proof fn lemma_message_layout(message: MessageView)
    ensures
        ({
            let text = wire_text(message);
            let line = message.start_line();
            let block = header_block(message.headers());
            let body = message.body();
            &&& text.len() == line.len() + 2 + block.len() + 2 + body.len()
            &&& text.subrange(0, line.len() as int) == line
            &&& text.subrange(line.len() as int, block_start(message)) == crlf()
            &&& text.subrange(block_start(message), block_start(message) + block.len()) == block
            &&& text.subrange(
                block_start(message) + block.len(),
                block_start(message) + block.len() + 2,
            ) == crlf()
            &&& text.subrange(block_start(message) + block.len() + 2, text.len() as int) == body
        }),
{
    let text = wire_text(message);
    let line = message.start_line();
    let block = header_block(message.headers());
    let body = message.body();
    assert(text == message_text(line, block, body));
    assert(text.subrange(0, line.len() as int) =~= line);
    assert(text.subrange(line.len() as int, block_start(message)) =~= crlf());
    assert(text.subrange(block_start(message), block_start(message) + block.len()) =~= block);
    assert(text.subrange(block_start(message) + block.len(), block_start(message) + block.len() + 2)
        =~= crlf());
    assert(text.subrange(block_start(message) + block.len() + 2, text.len() as int) =~= body);
}

/// The version token in the text of a message is the one that the table of
/// `version_text` has for the version of the message. In a request it is
/// the last part of the start line, after method and target and a space
/// behind each. In a response it is the first part, and a space follows.
pub proof fn lemma_version_token(message: MessageView)
    ensures
        ({
            let text = wire_text(message);
            let token = version_text(message.version());
            let at = version_start(message);
            &&& 0 <= at
            &&& at + token.len() + 2 <= text.len()
            &&& text.subrange(at, at + token.len()) == token
            &&& message is Request ==> text.subrange(at + token.len(), at + token.len() + 2)
                == crlf()
            &&& message is Response ==> text[at + token.len()] == ' '
        }),
{
    let text = wire_text(message);
    let token = version_text(message.version());
    let at = version_start(message);
    lemma_message_layout(message);
    let line = message.start_line();
    assert(line.subrange(at, at + token.len()) =~= token);
    assert(text.subrange(at, at + token.len()) =~= text.subrange(0, line.len() as int).subrange(
        at,
        at + token.len(),
    ));
    if message is Request {
        assert(at + token.len() == line.len());
    } else {
        assert(line[at + token.len()] == ' ');
        assert(text.subrange(0, line.len() as int)[at + token.len()] == text[at + token.len()]);
    }
}

/// A message has as many header lines as header fields, the line with index
/// `i` is the line of the field with index `i`, and it stands in the header
/// block as it is, after the lines of the fields before it. Two fields of
/// one name have a line each.
pub proof fn lemma_header_lines_in_order(headers: Seq<HeaderView>, i: nat)
    requires
        i < headers.len(),
    ensures
        ({
            let lines = header_lines(headers);
            let block = header_block(headers);
            let start = line_start(lines, i);
            let line = header_line(headers[i as int]);
            &&& lines.len() == headers.len()
            &&& lines[i as int] == line
            &&& 0 <= start
            &&& start + line.len() <= block.len()
            &&& block.subrange(start, start + line.len()) == line
            &&& i + 1 < headers.len() ==> line_start(lines, i + 1) == start + line.len() + 2
            &&& i + 1 < headers.len() ==> block.subrange(start + line.len(), start + line.len() + 2)
                == crlf()
            &&& i + 1 == headers.len() ==> block.len() == start + line.len()
        }),
{
    lemma_lines_in_join(header_lines(headers), headers.len(), i);
}

/// Serialising is a function of the message alone: whatever `parse` returns
/// for one message at one time and at another is the same text.
pub proof fn lemma_parse_is_deterministic(
    message: MessageView,
    first: Option<String>,
    second: Option<String>,
)
    requires
        is_parse_of(message, first),
        is_parse_of(message, second),
    ensures
        first is Some,
        second is Some,
        first->0@ == second->0@,
{
}

/// In the line of a header field whose value is no valid UTF-8, the name,
/// the colon and the text of the valid beginning of the value are followed
/// by the replacement character.
pub proof fn lemma_marker_in_line(header: HeaderView)
    requires
        !valid_utf8(header.value),
        lossy_text_fits(header.value),
    ensures
        0 <= marker_in_line(header) < header_line(header).len(),
        header_line(header).subrange(0, marker_in_line(header)) == header.name + seq![':']
            + valid_prefix_text(header.value),
        header_line(header)[marker_in_line(header)] == replacement_char(),
{
    let kept = valid_prefix_text(header.value);
    let text = lossy_text(header.value);
    assert(text.subrange(0, kept.len() as int) == kept);
    assert(header_line(header).subrange(0, marker_in_line(header)) =~= header.name + seq![':']
        + text.subrange(0, kept.len() as int));
}

/// Where `parse` has returned the text of a message with a header value
/// that is no valid UTF-8, the text has the replacement character at the
/// place of the first invalid sequence of that value.
pub proof fn lemma_marker_in_message(message: MessageView, i: nat)
    requires
        i < message.headers().len(),
        !valid_utf8(message.headers()[i as int].value),
        header_values_fit(message.headers()),
    ensures
        ({
            let at = block_start(message) + line_start(header_lines(message.headers()), i)
                + marker_in_line(message.headers()[i as int]);
            0 <= at < wire_text(message).len() && wire_text(message)[at] == replacement_char()
        }),
{
    let headers = message.headers();
    let header = headers[i as int];
    let lines = header_lines(headers);
    let block = header_block(headers);
    let line = header_line(header);
    let text = wire_text(message);
    let in_block = line_start(lines, i);
    let in_line = marker_in_line(header);
    assert(lossy_text_fits(header.value));
    lemma_marker_in_line(header);
    lemma_header_lines_in_order(headers, i);
    lemma_message_layout(message);
    assert(block.subrange(in_block, in_block + line.len())[in_line] == block[in_block + in_line]);
    assert(text.subrange(block_start(message), block_start(message) + block.len())[in_block
        + in_line] == text[block_start(message) + in_block + in_line]);
}

} // verus!
