//! Byte-level helpers shared by the wire layer: ASCII digit runs,
//! whitespace tokenizing, and small vector utilities.

use vstd::prelude::*;

verus! {

/// ASCII space.
pub const SP: u8 = 32;

/// ASCII full stop.
pub const DOT: u8 = 46;

/// Whether every byte of `s` is an ASCII digit.
pub open spec fn all_digits(s: Seq<u8>) -> bool {
    forall|i: int| 0 <= i < s.len() ==> 48 <= #[trigger] s[i] <= 57
}

/// The value of an ASCII digit run, read as a decimal number.
pub open spec fn digits_val(s: Seq<u8>) -> int
    decreases s.len(),
{
    if s.len() == 0 {
        0
    } else {
        digits_val(s.drop_last()) * 10 + (s.last() - 48)
    }
}

/// A digit run's value never goes down as the run grows to the right.
pub proof fn lemma_digits_val_nonneg(s: Seq<u8>)
    requires
        all_digits(s),
    ensures
        digits_val(s) >= 0,
    decreases s.len(),
{
    if s.len() > 0 {
        assert(all_digits(s.drop_last()));
        lemma_digits_val_nonneg(s.drop_last());
    }
}

/// The value of a prefix of a digit run is at most the value of the run.
pub proof fn lemma_digits_val_prefix(s: Seq<u8>, i: int)
    requires
        all_digits(s),
        0 <= i <= s.len(),
    ensures
        digits_val(s.subrange(0, i)) <= digits_val(s),
    decreases s.len() - i,
{
    if i < s.len() {
        let t = s.subrange(0, i + 1);
        assert(t.drop_last() =~= s.subrange(0, i));
        assert(all_digits(s.subrange(0, i)));
        lemma_digits_val_nonneg(s.subrange(0, i));
        assert(digits_val(t) == digits_val(s.subrange(0, i)) * 10 + (s[i] - 48));
        lemma_digits_val_prefix(s, i + 1);
    } else {
        assert(s.subrange(0, i) =~= s);
    }
}

/// Parse an ASCII digit run as a `u64`. Returns `Some` exactly when the
/// run is non-empty, all digits, and its value fits.
pub fn parse_u64(t: &Vec<u8>) -> (r: Option<u64>)
    ensures
        r is Some <==> t@.len() > 0 && all_digits(t@) && digits_val(t@) <= u64::MAX,
        r matches Some(v) ==> v == digits_val(t@),
{
    if t.len() == 0 {
        return None;
    }
    let mut acc: u64 = 0;
    let mut i: usize = 0;
    while i < t.len()
        invariant
            0 <= i <= t@.len(),
            all_digits(t@.subrange(0, i as int)),
            acc == digits_val(t@.subrange(0, i as int)),
        decreases t@.len() - i,
    {
        let b = t[i];
        if b < 48 || b > 57 {
            return None;
        }
        let d: u64 = (b - 48) as u64;
        let ghost pre = t@.subrange(0, i as int);
        let ghost cur = t@.subrange(0, i as int + 1);
        assert(cur.drop_last() =~= pre);
        assert(digits_val(cur) == acc * 10 + d);
        match acc.checked_mul(10) {
            None => {
                proof {
                    assert(all_digits(cur));
                    assert(digits_val(cur) > u64::MAX);
                    if all_digits(t@) {
                        lemma_digits_val_prefix(t@, i as int + 1);
                    }
                }
                return None;
            },
            Some(m) => {
                match m.checked_add(d) {
                    None => {
                        proof {
                            assert(all_digits(cur));
                            assert(digits_val(cur) > u64::MAX);
                            if all_digits(t@) {
                                lemma_digits_val_prefix(t@, i as int + 1);
                            }
                        }
                        return None;
                    },
                    Some(v) => {
                        acc = v;
                    },
                }
            },
        }
        i = i + 1;
    }
    proof {
        assert(t@.subrange(0, t@.len() as int) =~= t@);
    }
    Some(acc)
}

/// Splitting a byte run on spaces, left to right: `cur` is the token begun
/// before position `i`, and empty stretches produce no token.
pub open spec fn split_acc(s: Seq<u8>, i: int, cur: Seq<u8>) -> Seq<Seq<u8>>
    decreases s.len() - i,
{
    if i < 0 || i >= s.len() {
        if cur.len() > 0 {
            seq![cur]
        } else {
            seq![]
        }
    } else if s[i] == SP {
        if cur.len() > 0 {
            seq![cur] + split_acc(s, i + 1, seq![])
        } else {
            split_acc(s, i + 1, seq![])
        }
    } else {
        split_acc(s, i + 1, cur.push(s[i]))
    }
}

/// The space-separated tokens of `s` from position `from` on, empty tokens
/// dropped.
pub open spec fn tokens_from(s: Seq<u8>, from: int) -> Seq<Seq<u8>> {
    split_acc(s, from, seq![])
}

/// The views of a vector of byte vectors.
pub open spec fn views_of(v: Seq<Vec<u8>>) -> Seq<Seq<u8>> {
    v.map_values(|t: Vec<u8>| t@)
}

/// Split `line` from position `from` on into its space-separated tokens.
pub fn tokenize_from(line: &Vec<u8>, from: usize) -> (r: Vec<Vec<u8>>)
    requires
        from <= line@.len(),
    ensures
        views_of(r@) == tokens_from(line@, from as int),
{
    let mut r: Vec<Vec<u8>> = Vec::new();
    let mut cur: Vec<u8> = Vec::new();
    let mut i: usize = from;
    while i < line.len()
        invariant
            from <= i <= line@.len(),
            tokens_from(line@, from as int) == views_of(r@) + split_acc(line@, i as int, cur@),
        decreases line@.len() - i,
    {
        let b = line[i];
        if b == SP {
            if cur.len() > 0 {
                let ghost old_r = r@;
                let ghost old_cur = cur@;
                r.push(cur);
                cur = Vec::new();
                proof {
                    assert(views_of(r@) =~= views_of(old_r).push(old_cur));
                    assert(cur@ =~= Seq::<u8>::empty());
                    assert(views_of(old_r) + split_acc(line@, i as int, old_cur) =~= views_of(r@)
                        + split_acc(line@, i as int + 1, cur@));
                }
            } else {
                proof {
                    assert(cur@ =~= Seq::<u8>::empty());
                    assert(split_acc(line@, i as int, cur@) == split_acc(
                        line@,
                        i as int + 1,
                        cur@,
                    ));
                }
            }
        } else {
            let ghost old_cur = cur@;
            cur.push(b);
            proof {
                assert(split_acc(line@, i as int, old_cur) == split_acc(
                    line@,
                    i as int + 1,
                    old_cur.push(line@[i as int]),
                ));
            }
        }
        i = i + 1;
    }
    if cur.len() > 0 {
        let ghost old_r = r@;
        let ghost old_cur = cur@;
        r.push(cur);
        proof {
            assert(views_of(r@) =~= views_of(old_r).push(old_cur));
            assert(views_of(old_r) + split_acc(line@, line@.len() as int, old_cur) =~= views_of(
                r@,
            ));
        }
    } else {
        proof {
            assert(views_of(r@) + split_acc(line@, line@.len() as int, cur@) =~= views_of(r@));
        }
    }
    r
}

/// Copy a byte vector.
pub fn copy_bytes(v: &Vec<u8>) -> (r: Vec<u8>)
    ensures
        r@ == v@,
{
    let mut r: Vec<u8> = Vec::new();
    let mut i: usize = 0;
    while i < v.len()
        invariant
            0 <= i <= v@.len(),
            r@ == v@.subrange(0, i as int),
        decreases v@.len() - i,
    {
        r.push(v[i]);
        proof {
            assert(r@ =~= v@.subrange(0, i as int + 1));
        }
        i = i + 1;
    }
    proof {
        assert(r@ =~= v@);
    }
    r
}

/// Append the bytes of `src` to `dst`.
pub fn append_bytes(dst: &mut Vec<u8>, src: &Vec<u8>)
    ensures
        final(dst)@ == old(dst)@ + src@,
{
    let mut i: usize = 0;
    while i < src.len()
        invariant
            0 <= i <= src@.len(),
            dst@ == old(dst)@ + src@.subrange(0, i as int),
        decreases src@.len() - i,
    {
        dst.push(src[i]);
        proof {
            assert(dst@ =~= old(dst)@ + src@.subrange(0, i as int + 1));
        }
        i = i + 1;
    }
    proof {
        assert(dst@ =~= old(dst)@ + src@);
    }
}

/// Copy the bytes of `v` from position `from` on.
pub fn copy_tail(v: &Vec<u8>, from: usize) -> (r: Vec<u8>)
    requires
        from <= v@.len(),
    ensures
        r@ == v@.subrange(from as int, v@.len() as int),
{
    let mut r: Vec<u8> = Vec::new();
    let mut i: usize = from;
    while i < v.len()
        invariant
            from <= i <= v@.len(),
            r@ == v@.subrange(from as int, i as int),
        decreases v@.len() - i,
    {
        r.push(v[i]);
        proof {
            assert(r@ =~= v@.subrange(from as int, i as int + 1));
        }
        i = i + 1;
    }
    r
}

/// Whether `line` starts with `prefix`.
pub fn starts_with(line: &Vec<u8>, prefix: &Vec<u8>) -> (r: bool)
    ensures
        r == prefix@.is_prefix_of(line@),
{
    if line.len() < prefix.len() {
        return false;
    }
    let mut i: usize = 0;
    while i < prefix.len()
        invariant
            0 <= i <= prefix@.len(),
            prefix@.len() <= line@.len(),
            forall|j: int| 0 <= j < i ==> line@[j] == prefix@[j],
        decreases prefix@.len() - i,
    {
        if line[i] != prefix[i] {
            return false;
        }
        i = i + 1;
    }
    proof {
        assert(prefix@.is_prefix_of(line@)) by {
            assert(prefix@ =~= line@.subrange(0, prefix@.len() as int));
        }
    }
    true
}

} // verus!
