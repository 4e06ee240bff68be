//! The session-level data the protocol exchanges produce: the selected
//! group and the advertised capability set.

use vstd::prelude::*;

use crate::bytes::{all_digits, copy_bytes, digits_val, tokenize_from, tokens_from, views_of};
use crate::error::NntpError;
use crate::response::DataBlocks;

verus! {

/// A selected newsgroup: its name and the article numbers the server
/// reported for it.
#[derive(Debug)]
pub struct Group {
    /// The newsgroup name, as the server spelled it.
    pub name: Vec<u8>,
    /// The estimated number of articles.
    pub number: u64,
    /// The reported low water mark.
    pub low: u64,
    /// The reported high water mark.
    pub high: u64,
}

/// The space-separated fields of a group-selection first line, after its
/// four byte code-and-separator prefix.
pub open spec fn group_fields(s: Seq<u8>) -> Seq<Seq<u8>> {
    tokens_from(s, 4)
}

/// Whether one field is a readable article count.
pub open spec fn count_field_ok(t: Seq<u8>) -> bool {
    t.len() > 0 && all_digits(t) && digits_val(t) <= u64::MAX
}

/// A group-selection first line carries three article counts and the group
/// name: estimated number, low water mark, high water mark, name.
pub open spec fn group_line_ok(s: Seq<u8>) -> bool {
    let tk = group_fields(s);
    &&& s.len() >= 4
    &&& tk.len() >= 4
    &&& count_field_ok(tk[0])
    &&& count_field_ok(tk[1])
    &&& count_field_ok(tk[2])
}

impl Group {
    /// Read a group out of the first line of a group-selection response:
    /// count, low and high water marks, then the name.
    pub fn from_first_line(line: &Vec<u8>) -> (r: Result<Group, NntpError>)
        requires
            line@.len() >= 4,
        ensures
            r is Ok <==> group_line_ok(line@),
            r matches Ok(g) ==> {
                let tk = group_fields(line@);
                &&& g.number == digits_val(tk[0])
                &&& g.low == digits_val(tk[1])
                &&& g.high == digits_val(tk[2])
                &&& g.name@ == tk[3]
            },
            r matches Err(e) ==> e is MalformedLine,
    {
        let tokens = tokenize_from(line, 4);
        proof {
            assert(views_of(tokens@) == group_fields(line@));
        }
        if tokens.len() < 4 {
            return Err(NntpError::MalformedLine);
        }
        let number = match crate::bytes::parse_u64(&tokens[0]) {
            Some(v) => v,
            None => {
                return Err(NntpError::MalformedLine);
            },
        };
        let low = match crate::bytes::parse_u64(&tokens[1]) {
            Some(v) => v,
            None => {
                return Err(NntpError::MalformedLine);
            },
        };
        let high = match crate::bytes::parse_u64(&tokens[2]) {
            Some(v) => v,
            None => {
                return Err(NntpError::MalformedLine);
            },
        };
        let name = copy_bytes(&tokens[3]);
        Ok(Group { name, number, low, high })
    }

    /// A copy of this group, field for field.
    pub fn duplicate(&self) -> (r: Group)
        ensures
            r.name@ == self.name@,
            r.number == self.number,
            r.low == self.low,
            r.high == self.high,
    {
        Group {
            name: copy_bytes(&self.name),
            number: self.number,
            low: self.low,
            high: self.high,
        }
    }
}

/// One advertised capability: its label and its parameter tokens.
#[derive(Debug)]
pub struct Capability {
    pub label: Vec<u8>,
    pub params: Vec<Vec<u8>>,
}

/// The capability set a CAPABILITIES exchange advertised. Replaced
/// wholesale on each successful negotiation, never merged.
#[derive(Debug)]
pub struct Capabilities {
    pub entries: Vec<Capability>,
}

/// A capability line carries at least a label.
pub open spec fn cap_line_ok(l: Seq<u8>) -> bool {
    tokens_from(l, 0).len() > 0
}

/// The label of a capability line: its first field.
pub open spec fn cap_label(l: Seq<u8>) -> Seq<u8> {
    tokens_from(l, 0)[0]
}

/// The parameter tokens of a capability line: every field after the label.
pub open spec fn cap_params(l: Seq<u8>) -> Seq<Seq<u8>> {
    tokens_from(l, 0).drop_first()
}

/// Every line of a capability listing carries a label.
pub open spec fn caps_lines_ok(ls: Seq<Seq<u8>>) -> bool {
    forall|i: int| 0 <= i < ls.len() ==> cap_line_ok(#[trigger] ls[i])
}

/// An entry list matches a capability listing line for line.
pub open spec fn caps_match_lines(entries: Seq<Capability>, ls: Seq<Seq<u8>>) -> bool {
    &&& entries.len() == ls.len()
    &&& forall|i: int|
        0 <= i < ls.len() ==> (#[trigger] entries[i]).label@ == cap_label(ls[i]) && views_of(
            entries[i].params@,
        ) == cap_params(ls[i])
}

impl Capabilities {
    /// The capability set of a fresh, unnegotiated session: empty.
    pub fn new_empty() -> (r: Capabilities)
        ensures
            r.entries@.len() == 0,
    {
        Capabilities { entries: Vec::new() }
    }

    /// Parse a capability listing out of a data block, one capability per
    /// line: the label, then its parameter tokens.
    pub fn from_data_blocks(db: &DataBlocks) -> (r: Result<Capabilities, NntpError>)
        requires
            db.wf(),
        ensures
            r is Ok <==> caps_lines_ok(db.lines_model()),
            r matches Ok(c) ==> caps_match_lines(c.entries@, db.lines_model()),
            r matches Err(e) ==> e is MalformedLine,
    {
        let ghost ls = db.lines_model();
        let mut entries: Vec<Capability> = Vec::new();
        let n = db.lines_len();
        let mut i: usize = 0;
        while i < n
            invariant
                0 <= i <= n,
                n == ls.len(),
                db.wf(),
                ls == db.lines_model(),
                caps_lines_ok(ls.subrange(0, i as int)),
                caps_match_lines(entries@, ls.subrange(0, i as int)),
            decreases n - i,
        {
            let line = db.line_at(i);
            let mut tokens = tokenize_from(&line, 0);
            proof {
                assert(views_of(tokens@) == tokens_from(ls[i as int], 0));
            }
            if tokens.len() == 0 {
                proof {
                    assert(!cap_line_ok(ls[i as int]));
                }
                return Err(NntpError::MalformedLine);
            }
            let label = tokens.remove(0);
            let ghost old_entries = entries@;
            entries.push(Capability { label, params: tokens });
            proof {
                assert(views_of(tokens@) =~= tokens_from(ls[i as int], 0).drop_first());
                assert(ls.subrange(0, i as int + 1).drop_last() =~= ls.subrange(0, i as int));
                assert(caps_lines_ok(ls.subrange(0, i as int + 1)));
                assert(caps_match_lines(entries@, ls.subrange(0, i as int + 1)));
            }
            i = i + 1;
        }
        proof {
            assert(ls.subrange(0, n as int) =~= ls);
        }
        Ok(Capabilities { entries })
    }

    /// The number of advertised capabilities.
    pub fn len(&self) -> (r: usize)
        ensures
            r == self.entries@.len(),
    {
        self.entries.len()
    }
}

} // verus!
