//! Reading back what was written: the head of a response on the wire, read
//! with the rules by which requests are read, gives the response's status,
//! the name of its content type and the byte length of its content.

use crate::server::protocol::content_type::{mime_of, ContentType};
use crate::server::protocol::request::{
    body_of, head_of, head_separator, header_entry, headers_of, line_break,
};
use crate::server::protocol::response::{
    byte_len, content_length_line, content_type_line, reason_of, status_line, wire_head,
    wire_text, ResponseView,
};
use crate::text::decimal::{
    decimal, decimal_value, is_digit, lemma_decimal_is_digits, lemma_decimal_value_of_decimal,
};
use crate::text::search::{
    free_of, has_match, is_first_match, lemma_first_match_after,
    lemma_first_match_unique, lemma_free_of_concat, lemma_no_match_when_free, lemma_split_cons,
    lemma_split_first_piece, lemma_split_without_match, matches_at, split,
};
use crate::text::trim::{is_white_space, lemma_trim_is_identity, lemma_trim_skips_leading};
use vstd::prelude::*;

verus! {

/// A decimal numeral is free of every character that is no digit.
proof fn lemma_decimal_free_of(n: nat, c: char)
    requires
        !is_digit(c),
    ensures
        free_of(decimal(n), c),
{
    lemma_decimal_is_digits(n);
}

/// A header line made of a name, a colon, a space and a value states that
/// name and that value, where neither starts or ends with white space and
/// the name holds no colon.
proof fn lemma_header_entry_of_line(name: Seq<char>, value: Seq<char>)
    requires
        free_of(name, ':'),
        name.len() > 0,
        !is_white_space(name.first()),
        !is_white_space(name.last()),
        value.len() > 0,
        !is_white_space(value.first()),
        !is_white_space(value.last()),
    ensures
        header_entry(name + ": "@ + value) == Some((name, value)),
{
    reveal_strlit(": ");
    reveal_strlit(":");
    reveal_strlit(" ");
    let line = name + ": "@ + value;
    let after = " "@ + value;
    assert(line =~= name + ":"@ + after);
    lemma_first_match_after(name, ":"@, after);
    lemma_first_match_unique(line, ":"@, name.len() as int);
    assert(line.subrange(name.len() as int + 1, line.len() as int) =~= after);
    lemma_trim_is_identity(name);
    assert(after =~= seq![' '] + value);
    lemma_trim_skips_leading(' ', value);
    lemma_trim_is_identity(value);
}

/// The status line is free of line breaks, and its second token is the
/// status code in decimal.
proof fn lemma_status_line_shape(status: u16)
    requires
        reason_of(status) is Some,
    ensures
        free_of(status_line(status), '\r'),
        status_line(status).len() > 0,
        split(status_line(status), " "@).len() >= 2,
        split(status_line(status), " "@)[1] == decimal(status as nat),
{
    reveal_strlit("HTTP/1.1 ");
    reveal_strlit("HTTP/1.1");
    reveal_strlit(" ");
    reveal_strlit("OK");
    reveal_strlit("Not Found");
    let code = decimal(status as nat);
    let reason = reason_of(status)->0;
    let line = status_line(status);
    let rest = code + " "@ + reason;
    lemma_decimal_free_of(status as nat, '\r');
    lemma_decimal_free_of(status as nat, ' ');
    lemma_free_of_concat("HTTP/1.1 "@, code, '\r');
    lemma_free_of_concat("HTTP/1.1 "@ + code, " "@, '\r');
    lemma_free_of_concat("HTTP/1.1 "@ + code + " "@, reason, '\r');
    assert(line =~= "HTTP/1.1"@ + " "@ + rest);
    lemma_first_match_after("HTTP/1.1"@, " "@, rest);
    lemma_first_match_unique(line, " "@, 8);
    lemma_split_first_piece(line, " "@);
    assert(line.subrange(9, line.len() as int) =~= rest);
    lemma_first_match_after(code, " "@, reason);
    lemma_first_match_unique(rest, " "@, code.len() as int);
    lemma_split_first_piece(rest, " "@);
}

/// The name of a content type holds no line break and no white space at
/// either end.
proof fn lemma_mime_shape(content_type: ContentType)
    ensures
        free_of(mime_of(content_type), '\r'),
        mime_of(content_type).len() > 0,
        !is_white_space(mime_of(content_type).first()),
        !is_white_space(mime_of(content_type).last()),
{
    reveal_strlit("text/plain");
    reveal_strlit("text/json");
    reveal_strlit("application/octet-stream");
}

/// The two header lines of a response are free of line breaks and state the
/// content type and the content length.
proof fn lemma_header_lines_shape(content_type: ContentType, length: nat)
    ensures
        free_of(content_type_line(content_type), '\r'),
        free_of(content_length_line(length), '\r'),
        content_type_line(content_type).len() > 0,
        content_length_line(length).len() > 0,
        content_type_line(content_type)[0] != '\r',
        content_length_line(length)[0] != '\r',
        header_entry(content_type_line(content_type)) == Some(
            ("Content-Type"@, mime_of(content_type)),
        ),
        header_entry(content_length_line(length)) == Some(("Content-Length"@, decimal(length))),
{
    reveal_strlit("Content-Type: ");
    reveal_strlit("Content-Type");
    reveal_strlit("Content-Length: ");
    reveal_strlit("Content-Length");
    reveal_strlit(": ");
    lemma_mime_shape(content_type);
    lemma_decimal_free_of(length, '\r');
    lemma_decimal_is_digits(length);
    let mime = mime_of(content_type);
    let digits = decimal(length);
    lemma_free_of_concat("Content-Type: "@, mime, '\r');
    lemma_free_of_concat("Content-Length: "@, digits, '\r');
    assert(content_type_line(content_type) =~= "Content-Type"@ + ": "@ + mime);
    assert(content_length_line(length) =~= "Content-Length"@ + ": "@ + digits);
    lemma_header_entry_of_line("Content-Type"@, mime);
    lemma_header_entry_of_line("Content-Length"@, digits);
}

/// The empty line that ends the head of a written response is the first
/// empty line of its wire form.
proof fn lemma_head_ends_at_first_empty_line(r: ResponseView)
    requires
        reason_of(r.status) is Some,
    ensures
        is_first_match(wire_text(r), head_separator(), wire_head(r).len() as int),
{
    reveal_strlit("\r\n\r\n");
    reveal_strlit("\r\n");
    let head = wire_head(r);
    let text = wire_text(r);
    let sep = head_separator();
    lemma_status_line_shape(r.status);
    lemma_header_lines_shape(r.content_type, byte_len(r.content));
    assert(text.subrange(head.len() as int, head.len() as int + 4) =~= sep);
    // An empty line inside the head would be a line break that another line
    // break follows. The lines hold none, and each of the two line breaks of
    // the head is followed by a header line, which starts with a letter.
    assert forall|j: int| 0 <= j < head.len() implies !matches_at(text, sep, j) by {
        if matches_at(text, sep, j) {
            let found = text.subrange(j, j + 4);
            assert(found[0] == '\r' && found[2] == '\r');
        }
    }
}

/// The round trip of a response. Where a response with a status that can be
/// written is serialized and its wire form is read back by the rules for
/// requests, then: the head ends at the first empty line and the body is the
/// content as it was; the head has three lines; the second token of the
/// first line is the status code in decimal, and reads back as the status;
/// the headers are `Content-Type`, with the name of the content type, and
/// `Content-Length`, with a numeral that reads back as the byte length of the
/// content.
pub proof fn lemma_wire_round_trip(r: ResponseView)
    requires
        reason_of(r.status) is Some,
    ensures
        has_match(wire_text(r), head_separator()),
        head_of(wire_text(r)) == wire_head(r),
        body_of(wire_text(r)) == r.content,
        split(wire_head(r), line_break()) == seq![
            status_line(r.status),
            content_type_line(r.content_type),
            content_length_line(byte_len(r.content)),
        ],
        split(status_line(r.status), " "@).len() >= 2,
        decimal_value(split(status_line(r.status), " "@)[1]) == r.status,
        headers_of(split(wire_head(r), line_break()).drop_first()) == map![
            "Content-Type"@ => mime_of(r.content_type),
            "Content-Length"@ => decimal(byte_len(r.content)),
        ],
        decimal_value(decimal(byte_len(r.content))) == byte_len(r.content),
{
    reveal_strlit("\r\n\r\n");
    reveal_strlit("\r\n");
    let first = status_line(r.status);
    let second = content_type_line(r.content_type);
    let third = content_length_line(byte_len(r.content));
    let head = wire_head(r);
    let text = wire_text(r);
    let lb = line_break();
    lemma_status_line_shape(r.status);
    lemma_header_lines_shape(r.content_type, byte_len(r.content));
    lemma_decimal_value_of_decimal(r.status as nat);
    lemma_decimal_value_of_decimal(byte_len(r.content));

    lemma_head_ends_at_first_empty_line(r);
    lemma_first_match_unique(text, head_separator(), head.len() as int);

    assert(head =~= first + lb + (second + lb + third));
    lemma_split_cons(first, lb, second + lb + third);
    lemma_split_cons(second, lb, third);
    lemma_no_match_when_free(third, lb);
    lemma_split_without_match(third, lb);
    let lines = split(head, lb);

    let headers = lines.drop_first();
    assert(headers.drop_last() =~= seq![second]);
    assert(seq![second].drop_last() =~= Seq::<Seq<char>>::empty());
    assert(headers_of(Seq::<Seq<char>>::empty()) == Map::<Seq<char>, Seq<char>>::empty());
    assert(headers_of(seq![second]) =~= Map::<Seq<char>, Seq<char>>::empty().insert(
        "Content-Type"@,
        mime_of(r.content_type),
    ));
}

} // verus!
