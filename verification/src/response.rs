//! Raw responses and their multi-line data blocks.
//!
//! A [`RawResponse`] is syntactically valid NNTP but its bytes carry no
//! guaranteed text encoding; decoding is deferred to explicit accessors.
//! A [`DataBlocks`] holds the payload of a multi-line reply with the
//! protocol-level line escaping already undone, and an index of line
//! boundaries into that payload. Stored boundaries exclude each line's own
//! CRLF terminator, which this crate strips when lines are read.

use vstd::prelude::*;

use crate::bytes::{copy_bytes, copy_tail};
use crate::error::NntpError;
use crate::response_code::{spec_classify, spec_is_multiline, ResponseCode};
use crate::text::{utf8_chars, utf8_decode, utf8_decode_lossy, utf8_lossy_chars};

verus! {

/// A first line fits the wire grammar when it holds at least the three
/// ASCII digits of the code and the separator byte, with a leading digit
/// that keeps the code in the 100 to 599 range.
pub open spec fn status_line_ok(s: Seq<u8>) -> bool {
    &&& s.len() >= 4
    &&& 49 <= s[0] <= 53
    &&& 48 <= s[1] <= 57
    &&& 48 <= s[2] <= 57
}

/// The numeric value of the three digit bytes that open a first line.
pub open spec fn status_value(s: Seq<u8>) -> int {
    (s[0] - 48) * 100 + (s[1] - 48) * 10 + (s[2] - 48)
}

/// The multi-line data block portion of a response: a contiguous payload
/// with the escaping undone, and the boundaries of each stored line.
#[derive(Debug)]
pub struct DataBlocks {
    pub payload: Vec<u8>,
    pub line_boundaries: Vec<(usize, usize)>,
}

impl DataBlocks {
    /// The stored lines, each a slice of the payload.
    pub open spec fn lines_model(self) -> Seq<Seq<u8>> {
        Seq::new(
            self.line_boundaries@.len(),
            |i: int|
                self.payload@.subrange(
                    self.line_boundaries@[i].0 as int,
                    self.line_boundaries@[i].1 as int,
                ),
        )
    }

    /// The boundaries tile the payload: each pair is ordered and in
    /// bounds, consecutive pairs meet, and together they cover every byte.
    pub open spec fn wf(self) -> bool {
        let b = self.line_boundaries@;
        let n = b.len() as int;
        &&& forall|i: int|
            0 <= i < n ==> (#[trigger] b[i]).0 <= b[i].1 <= self.payload@.len()
        &&& forall|i: int| 0 <= i < n - 1 ==> (#[trigger] b[i]).1 == b[i + 1].0
        &&& n > 0 ==> b[0].0 == 0 && b[n - 1].1 == self.payload@.len()
        &&& n == 0 ==> self.payload@.len() == 0
    }

    /// An empty data block: no payload, no lines.
    pub fn new_empty() -> (r: DataBlocks)
        ensures
            r.wf(),
            r.lines_model() == Seq::<Seq<u8>>::empty(),
            r.payload@.len() == 0,
    {
        let r = DataBlocks { payload: Vec::new(), line_boundaries: Vec::new() };
        proof {
            assert(r.lines_model() =~= Seq::<Seq<u8>>::empty());
        }
        r
    }

    /// Append one content line, already unescaped and without its CRLF
    /// terminator, to the payload and record its boundary.
    pub fn push_content_line(&mut self, content: &Vec<u8>)
        requires
            old(self).wf(),
        ensures
            final(self).wf(),
            final(self).lines_model() == old(self).lines_model().push(content@),
            final(self).payload@ == old(self).payload@ + content@,
    {
        let start = self.payload.len();
        crate::bytes::append_bytes(&mut self.payload, content);
        let end = self.payload.len();
        self.line_boundaries.push((start, end));
        proof {
            let ob = old(self).line_boundaries@;
            let nb = self.line_boundaries@;
            let op = old(self).payload@;
            let np = self.payload@;
            assert(nb == ob.push((start, end)));
            assert forall|i: int| 0 <= i < ob.len() implies #[trigger] self.lines_model()[i]
                == old(self).lines_model()[i] by {
                assert(nb[i] == ob[i]);
                assert(np.subrange(nb[i].0 as int, nb[i].1 as int) =~= op.subrange(
                    ob[i].0 as int,
                    ob[i].1 as int,
                ));
            }
            assert(np.subrange(start as int, end as int) =~= content@);
            assert(self.lines_model() =~= old(self).lines_model().push(content@));
        }
    }

    /// The raw payload bytes.
    pub fn payload(&self) -> (r: &Vec<u8>)
        ensures
            r@ == self.payload@,
    {
        &self.payload
    }

    /// Decode the whole payload strictly as UTF-8.
    pub fn payload_as_utf8(&self) -> (r: Result<String, NntpError>)
        ensures
            r is Ok <==> utf8_chars(self.payload@) is Some,
            r matches Ok(s) ==> utf8_chars(self.payload@) == Some(s@),
            r matches Err(e) ==> e is Decode,
    {
        match utf8_decode(copy_bytes(&self.payload)) {
            Some(s) => Ok(s),
            None => Err(NntpError::Decode),
        }
    }

    /// The number of stored lines.
    pub fn lines_len(&self) -> (r: usize)
        ensures
            r == self.lines_model().len(),
    {
        self.line_boundaries.len()
    }

    /// The number of payload bytes.
    pub fn payload_len(&self) -> (r: usize)
        ensures
            r == self.payload@.len(),
    {
        self.payload.len()
    }

    /// True exactly when there are no stored lines.
    pub fn is_empty(&self) -> (r: bool)
        ensures
            r <==> self.lines_model().len() == 0,
    {
        self.line_boundaries.len() == 0
    }

    /// Copy out the stored line with the given index.
    pub fn line_at(&self, i: usize) -> (r: Vec<u8>)
        requires
            self.wf(),
            i < self.lines_model().len(),
        ensures
            r@ == self.lines_model()[i as int],
    {
        let (start, end) = self.line_boundaries[i];
        let mut r: Vec<u8> = Vec::new();
        let mut j: usize = start;
        while j < end
            invariant
                start <= j <= end <= self.payload@.len(),
                r@ == self.payload@.subrange(start as int, j as int),
            decreases end - j,
        {
            r.push(self.payload[j]);
            proof {
                assert(r@ =~= self.payload@.subrange(start as int, j as int + 1));
            }
            j = j + 1;
        }
        r
    }

    /// A cursor over copies of the stored lines, front to back.
    pub fn lines(&self) -> (r: Lines)
        requires
            self.wf(),
        ensures
            r.wf(),
            r.remaining() == self.lines_model(),
    {
        let mut items: Vec<Vec<u8>> = Vec::new();
        let mut i: usize = 0;
        let n = self.line_boundaries.len();
        while i < n
            invariant
                0 <= i <= n,
                n == self.lines_model().len(),
                self.wf(),
                crate::bytes::views_of(items@) == self.lines_model().subrange(0, i as int),
            decreases n - i,
        {
            let line = self.line_at(i);
            let ghost old_items = items@;
            let ghost line_view = line@;
            items.push(line);
            proof {
                assert(crate::bytes::views_of(items@) =~= crate::bytes::views_of(old_items).push(
                    line_view,
                ));
                assert(crate::bytes::views_of(items@) =~= self.lines_model().subrange(
                    0,
                    i as int + 1,
                ));
            }
            i = i + 1;
        }
        let r = Lines { items, pos: 0 };
        proof {
            assert(self.lines_model().subrange(0, self.lines_model().len() as int)
                =~= self.lines_model());
            assert(r.remaining() =~= self.lines_model());
        }
        r
    }
}

/// Two boundaries of a well-formed data block never overlap: every earlier
/// line ends at or before a later line begins.
pub proof fn lemma_boundaries_chain(db: DataBlocks, i: int, j: int)
    requires
        db.wf(),
        0 <= i < j < db.line_boundaries@.len(),
    ensures
        db.line_boundaries@[i].1 <= db.line_boundaries@[j].0,
    decreases j - i,
{
    let b = db.line_boundaries@;
    if j == i + 1 {
        assert(b[i].1 == b[j].0);
    } else {
        lemma_boundaries_chain(db, i, j - 1);
        assert(b[j - 1].1 == b[j].0);
    }
}

/// Law: in a well-formed data block the number of stored lines equals the
/// number of recorded boundaries; every boundary is ordered and lies within
/// the payload; boundaries come in order without overlap; and where every
/// stored line is non-empty the start offsets strictly increase.
pub proof fn lemma_boundaries_ordered(db: DataBlocks)
    requires
        db.wf(),
    ensures
        db.lines_model().len() == db.line_boundaries@.len(),
        forall|i: int|
            0 <= i < db.line_boundaries@.len() ==> (#[trigger] db.line_boundaries@[i]).0
                <= db.line_boundaries@[i].1 <= db.payload@.len(),
        forall|i: int, j: int|
            0 <= i < j < db.line_boundaries@.len() ==> (#[trigger] db.line_boundaries@[i]).1 <= (
            #[trigger] db.line_boundaries@[j]).0,
        (forall|i: int|
            0 <= i < db.lines_model().len() ==> (#[trigger] db.lines_model()[i]).len() > 0)
            ==> forall|i: int, j: int|
            0 <= i < j < db.line_boundaries@.len() ==> (#[trigger] db.line_boundaries@[i]).0 < (
            #[trigger] db.line_boundaries@[j]).0,
{
    let b = db.line_boundaries@;
    assert forall|i: int, j: int| 0 <= i < j < b.len() implies (#[trigger] b[i]).1 <= (
    #[trigger] b[j]).0 by {
        lemma_boundaries_chain(db, i, j);
    }
    if forall|i: int| 0 <= i < db.lines_model().len() ==> (#[trigger] db.lines_model()[i]).len()
        > 0 {
        assert forall|i: int, j: int| 0 <= i < j < b.len() implies (#[trigger] b[i]).0 < (
        #[trigger] b[j]).0 by {
            assert(db.lines_model()[i].len() > 0);
            assert(db.lines_model()[i].len() == b[i].1 - b[i].0);
            lemma_boundaries_chain(db, i, j);
        }
    }
}

/// A cursor over the lines of a data block.
#[derive(Debug)]
pub struct Lines {
    pub items: Vec<Vec<u8>>,
    pub pos: usize,
}

impl Lines {
    /// The cursor has not run past its items.
    pub open spec fn wf(self) -> bool {
        self.pos <= self.items@.len()
    }

    /// The lines not yet handed out.
    pub open spec fn remaining(self) -> Seq<Seq<u8>> {
        crate::bytes::views_of(self.items@).skip(self.pos as int)
    }

    /// Hand out the next line, or `None` when all lines are exhausted.
    pub fn next(&mut self) -> (r: Option<Vec<u8>>)
        requires
            old(self).wf(),
        ensures
            final(self).wf(),
            old(self).remaining().len() == 0 ==> r is None && *final(self) == *old(self),
            old(self).remaining().len() > 0 ==> (r matches Some(v) && v@ == old(
                self,
            ).remaining()[0] && final(self).remaining() == old(self).remaining().drop_first()),
    {
        if self.pos < self.items.len() {
            let line = copy_bytes(&self.items[self.pos]);
            self.pos = self.pos + 1;
            proof {
                assert(self.remaining() =~= old(self).remaining().drop_first());
            }
            Some(line)
        } else {
            proof {
                assert(old(self).remaining().len() == 0);
            }
            None
        }
    }
}

/// A response as it came off the wire: its classified code, the raw first
/// line without its CRLF terminator, and the data block exactly when the
/// code's classification announces a multi-line reply.
#[derive(Debug)]
pub struct RawResponse {
    pub code: ResponseCode,
    pub first_line: Vec<u8>,
    pub data_blocks: Option<DataBlocks>,
}

impl RawResponse {
    /// The invariant every parsed response satisfies: a grammatical first
    /// line, a code that matches its digits, and a data block present if
    /// and only if the code announces one.
    pub open spec fn wf(self) -> bool {
        &&& status_line_ok(self.first_line@)
        &&& self.code == spec_classify(status_value(self.first_line@) as u16)
        &&& (self.data_blocks is Some <==> spec_is_multiline(self.code))
        &&& (self.data_blocks matches Some(db) ==> db.wf())
    }

    /// The response code.
    pub fn code(&self) -> (r: ResponseCode)
        ensures
            r == self.code,
    {
        self.code
    }

    /// True exactly when this response carries a multi-line data block.
    pub fn has_data_blocks(&self) -> (r: bool)
        ensures
            r == (self.data_blocks is Some),
    {
        match self.data_blocks {
            Some(_) => true,
            None => false,
        }
    }

    /// The multi-line data block, where present.
    pub fn data_blocks(&self) -> (r: Option<&DataBlocks>)
        ensures
            r is Some <==> self.data_blocks is Some,
            r matches Some(db) ==> self.data_blocks == Some(*db),
    {
        self.data_blocks.as_ref()
    }

    /// The raw first line.
    pub fn first_line(&self) -> (r: &Vec<u8>)
        ensures
            r@ == self.first_line@,
    {
        &self.first_line
    }

    /// The first line with its three digit code and separator removed:
    /// exactly the bytes after the four byte prefix.
    pub fn first_line_without_code(&self) -> (r: Vec<u8>)
        requires
            self.wf(),
        ensures
            r@ == self.first_line@.subrange(4, self.first_line@.len() as int),
    {
        copy_tail(&self.first_line, 4)
    }

    /// Decode the first line strictly as UTF-8.
    pub fn first_line_as_utf8(&self) -> (r: Result<String, NntpError>)
        ensures
            r is Ok <==> utf8_chars(self.first_line@) is Some,
            r matches Ok(s) ==> utf8_chars(self.first_line@) == Some(s@),
            r matches Err(e) ==> e is Decode,
    {
        match utf8_decode(copy_bytes(&self.first_line)) {
            Some(s) => Ok(s),
            None => Err(NntpError::Decode),
        }
    }

    /// Decode the first line as UTF-8, replacing invalid sequences.
    pub fn first_line_to_utf8_lossy(&self) -> (r: String)
        ensures
            r@ == utf8_lossy_chars(self.first_line@),
            utf8_chars(self.first_line@) matches Some(cs) ==> r@ == cs,
    {
        utf8_decode_lossy(&self.first_line)
    }
}

} // verus!
