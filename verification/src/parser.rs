//! The response parser: status lines, dot-stuffing, and the assembly of
//! whole responses from the CRLF-delimited lines a transport reads.
//!
//! A multi-line data block ends with a line holding a single "." byte; a
//! content line that itself begins with "." reaches the wire with one extra
//! leading "." (dot-stuffing), which parsing removes. Lines are handled
//! here without their CRLF terminators: the transport strips them as it
//! reads.

use vstd::prelude::*;

use crate::bytes::{copy_bytes, copy_tail, views_of, DOT};
use crate::error::NntpError;
use crate::response::{status_line_ok, status_value, DataBlocks, RawResponse};
use crate::response_code::{spec_classify, spec_is_multiline, ResponseCode};

verus! {

/// The sender-side escaping: a line beginning with "." gains one extra
/// leading ".".
pub open spec fn escaped(l: Seq<u8>) -> Seq<u8> {
    if l.len() >= 1 && l[0] == DOT {
        seq![DOT] + l
    } else {
        l
    }
}

/// The receiver-side unescaping: a line beginning with ".." loses exactly
/// its first byte.
pub open spec fn unescaped(l: Seq<u8>) -> Seq<u8> {
    if l.len() >= 2 && l[0] == DOT && l[1] == DOT {
        l.drop_first()
    } else {
        l
    }
}

/// A terminator line holds a single "." byte.
pub open spec fn is_term(l: Seq<u8>) -> bool {
    l == seq![DOT]
}

/// Escaping followed by unescaping gives every content line back
/// unchanged, and an escaped line is never mistaken for the terminator.
pub proof fn lemma_dot_stuffing_round_trip(l: Seq<u8>)
    ensures
        unescaped(escaped(l)) == l,
        !is_term(escaped(l)),
{
    if l.len() >= 1 && l[0] == DOT {
        let e = seq![DOT] + l;
        assert(e.len() >= 2 && e[0] == DOT && e[1] == DOT);
        assert(e.drop_first() =~= l);
    } else {
        assert(unescaped(l) == l);
        if l.len() >= 1 {
            assert(l[0] != DOT);
            assert(l != seq![DOT]);
        } else {
            assert(l.len() != seq![DOT].len());
        }
    }
}

/// Escape one content line for the wire.
pub fn escape_line(line: &Vec<u8>) -> (r: Vec<u8>)
    ensures
        r@ == escaped(line@),
{
    let mut r: Vec<u8> = Vec::new();
    if line.len() >= 1 && line[0] == DOT {
        r.push(DOT);
    }
    crate::bytes::append_bytes(&mut r, line);
    proof {
        if line@.len() >= 1 && line@[0] == DOT {
            assert(r@ =~= seq![DOT] + line@);
        } else {
            assert(r@ =~= line@);
        }
    }
    r
}

/// Undo the wire escaping of one content line.
pub fn unescape_line(line: &Vec<u8>) -> (r: Vec<u8>)
    ensures
        r@ == unescaped(line@),
{
    if line.len() >= 2 && line[0] == DOT && line[1] == DOT {
        let r = copy_tail(line, 1);
        proof {
            assert(line@.subrange(1, line@.len() as int) =~= line@.drop_first());
        }
        r
    } else {
        copy_bytes(line)
    }
}

/// Whether this line is the data block terminator.
pub fn line_is_terminator(line: &Vec<u8>) -> (r: bool)
    ensures
        r == is_term(line@),
{
    if line.len() == 1 && line[0] == DOT {
        proof {
            assert(line@ =~= seq![DOT]);
        }
        true
    } else {
        proof {
            if line@.len() == 1 {
                assert(line@[0] != DOT);
                assert(line@ != seq![DOT]);
            } else {
                assert(line@.len() != seq![DOT].len());
            }
        }
        false
    }
}

/// A validated first line: the raw bytes and the classified code read from
/// their leading digits.
#[derive(Debug)]
pub struct FirstLine {
    pub code: ResponseCode,
    pub line: Vec<u8>,
}

impl FirstLine {
    /// The line fits the status grammar and the code matches its digits.
    pub open spec fn wf(self) -> bool {
        &&& status_line_ok(self.line@)
        &&& self.code == spec_classify(status_value(self.line@) as u16)
    }

    /// Whether the code announces a multi-line data block.
    pub fn is_multiline(&self) -> (r: bool)
        ensures
            r == spec_is_multiline(self.code),
    {
        self.code.is_multiline()
    }

    /// Finish a single-line response.
    pub fn into_simple(self) -> (r: RawResponse)
        requires
            self.wf(),
            !spec_is_multiline(self.code),
        ensures
            r.wf(),
            r.code == self.code,
            r.first_line@ == self.line@,
            r.data_blocks is None,
    {
        RawResponse { code: self.code, first_line: self.line, data_blocks: None }
    }

    /// Finish a multi-line response with its assembled data block.
    pub fn into_multiline(self, blocks: DataBlocks) -> (r: RawResponse)
        requires
            self.wf(),
            spec_is_multiline(self.code),
            blocks.wf(),
        ensures
            r.wf(),
            r.code == self.code,
            r.first_line@ == self.line@,
            r.data_blocks == Some(blocks),
    {
        RawResponse { code: self.code, first_line: self.line, data_blocks: Some(blocks) }
    }
}

/// Validate a first line: at least four bytes, three leading ASCII digits
/// in the 100 to 599 range. Classify the code on success.
pub fn parse_first_line(line: Vec<u8>) -> (r: Result<FirstLine, NntpError>)
    ensures
        r is Ok <==> status_line_ok(line@),
        r matches Ok(fl) ==> fl.line@ == line@ && fl.wf(),
        r matches Err(e) ==> e is MalformedLine,
{
    if line.len() < 4 {
        return Err(NntpError::MalformedLine);
    }
    let b0 = line[0];
    let b1 = line[1];
    let b2 = line[2];
    if b0 < 49 || b0 > 53 || b1 < 48 || b1 > 57 || b2 < 48 || b2 > 57 {
        return Err(NntpError::MalformedLine);
    }
    let value: u16 = (b0 - 48) as u16 * 100 + (b1 - 48) as u16 * 10 + (b2 - 48) as u16;
    let code = ResponseCode::from_code(value);
    proof {
        assert(value == status_value(line@) as u16);
    }
    Ok(FirstLine { code, line })
}

/// The raw content lines unescaped, one by one.
pub open spec fn unescaped_all(ls: Seq<Seq<u8>>) -> Seq<Seq<u8>> {
    ls.map_values(|l: Seq<u8>| unescaped(l))
}

/// No terminator line stands in `ls` between `from` and `to`.
pub open spec fn no_terminator(ls: Seq<Seq<u8>>, from: int, to: int) -> bool {
    forall|i: int| from <= i < to ==> !is_term(#[trigger] ls[i])
}

/// Parse one whole response from the lines read off the wire: the first
/// line, then, for a code that announces a data block, the content lines up
/// to and including the terminator line. Returns the response and how many
/// of the given lines it consumed.
///
/// An empty input, or a multi-line reply whose terminator never arrives,
/// is a truncated stream; a first line that fails validation is malformed.
pub fn parse_response(lines: &Vec<Vec<u8>>) -> (r: Result<(RawResponse, usize), NntpError>)
    ensures
        ({
            let ls = views_of(lines@);
            &&& (ls.len() == 0 ==> (r matches Err(e) && e is Truncated))
            &&& (ls.len() > 0 && !status_line_ok(ls[0]) ==> (r matches Err(e)
                && e is MalformedLine))
            &&& (ls.len() > 0 && status_line_ok(ls[0]) && !spec_is_multiline(
                spec_classify(status_value(ls[0]) as u16),
            ) ==> (r matches Ok(p) && {
                let (resp, used) = p;
                &&& used == 1
                &&& resp.wf()
                &&& resp.first_line@ == ls[0]
                &&& resp.code == spec_classify(status_value(ls[0]) as u16)
                &&& resp.data_blocks is None
            }))
            &&& (ls.len() > 0 && status_line_ok(ls[0]) && spec_is_multiline(
                spec_classify(status_value(ls[0]) as u16),
            ) && no_terminator(ls, 1, ls.len() as int) ==> (r matches Err(e) && e is Truncated))
            &&& (ls.len() > 0 && status_line_ok(ls[0]) && spec_is_multiline(
                spec_classify(status_value(ls[0]) as u16),
            ) && !no_terminator(ls, 1, ls.len() as int) ==> (r matches Ok(p) && {
                let (resp, used) = p;
                &&& 2 <= used <= ls.len()
                &&& is_term(ls[used - 1])
                &&& no_terminator(ls, 1, used - 1)
                &&& resp.wf()
                &&& resp.first_line@ == ls[0]
                &&& resp.code == spec_classify(status_value(ls[0]) as u16)
                &&& resp.data_blocks matches Some(db) && db.lines_model() == unescaped_all(
                    ls.subrange(1, used - 1),
                )
            }))
        }),
{
    let ghost ls = views_of(lines@);
    if lines.len() == 0 {
        return Err(NntpError::Truncated);
    }
    let first = copy_bytes(&lines[0]);
    let fl = match parse_first_line(first) {
        Ok(fl) => fl,
        Err(e) => {
            return Err(NntpError::MalformedLine);
        },
    };
    if !fl.is_multiline() {
        let resp = fl.into_simple();
        return Ok((resp, 1));
    }
    let mut blocks = DataBlocks::new_empty();
    let mut i: usize = 1;
    while i < lines.len()
        invariant
            1 <= i <= ls.len(),
            ls == views_of(lines@),
            ls.len() == lines@.len(),
            blocks.wf(),
            no_terminator(ls, 1, i as int),
            blocks.lines_model() == unescaped_all(ls.subrange(1, i as int)),
            fl.wf(),
            spec_is_multiline(fl.code),
            fl.line@ == ls[0],
        decreases ls.len() - i,
    {
        let line = &lines[i];
        if line_is_terminator(line) {
            let used = i + 1;
            let ghost code = fl.code;
            let resp = fl.into_multiline(blocks);
            proof {
                assert(ls[i as int] == lines@[i as int]@);
                assert(is_term(ls[i as int]));
                assert(!no_terminator(ls, 1, ls.len() as int));
                assert(ls.subrange(1, used - 1) =~= ls.subrange(1, i as int));
            }
            return Ok((resp, used));
        }
        let content = unescape_line(line);
        blocks.push_content_line(&content);
        proof {
            assert(unescaped_all(ls.subrange(1, i as int + 1)) =~= unescaped_all(
                ls.subrange(1, i as int),
            ).push(unescaped(ls[i as int])));
        }
        i = i + 1;
    }
    proof {
        assert(ls.subrange(1, ls.len() as int) =~= ls.subrange(1, ls.len() as int));
    }
    Err(NntpError::Truncated)
}

} // verus!
