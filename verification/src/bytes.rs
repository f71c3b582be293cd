//! Byte-string helpers for the text the bridge renders and parses.
//! All pane-bound text is byte-oriented: the transports carry UTF-8.

use vstd::prelude::*;

verus! {

/// Line feed.
pub const LF: u8 = 10;

/// Carriage return.
pub const CR: u8 = 13;

/// Whether two byte strings hold the same bytes.
pub fn bytes_eq(a: &[u8], b: &[u8]) -> (r: bool)
    ensures
        r == (a@ == b@),
{
    if a.len() != b.len() {
        assert(a@ != b@);
        return false;
    }
    let n = a.len();
    let mut i: usize = 0;
    while i < n
        invariant
            n == a@.len() == b@.len(),
            0 <= i <= n,
            forall|k: int| 0 <= k < i ==> a@[k] == b@[k],
        decreases n - i,
    {
        if a[i] != b[i] {
            return false;
        }
        i = i + 1;
    }
    proof {
        assert(a@ =~= b@);
    }
    true
}

/// The concatenation of two byte strings, as a fresh vector.
pub fn concat_bytes(a: &[u8], b: &[u8]) -> (r: Vec<u8>)
    ensures
        r@ == a@ + b@,
{
    let mut r: Vec<u8> = Vec::new();
    r.extend_from_slice(a);
    r.extend_from_slice(b);
    proof {
        assert(r@ =~= a@ + b@);
    }
    r
}

/// The bytes of ASCII text, character for character.
pub open spec fn ascii_seq(s: Seq<char>) -> Seq<u8> {
    Seq::new(s.len(), |i: int| s[i] as u8)
}

/// The UTF-8 bytes of an ASCII string: its characters, one byte each.
pub fn ascii_bytes(s: &str) -> (r: Vec<u8>)
    requires
        vstd::string::is_ascii(s),
    ensures
        r@ == ascii_seq(s@),
{
    proof {
        vstd::string::is_ascii_spec_bytes(s);
    }
    vstd::slice::slice_to_vec(s.as_bytes())
}

/// The byte strings a sequence of byte vectors holds.
pub open spec fn views_of(s: Seq<Vec<u8>>) -> Seq<Seq<u8>> {
    s.map_values(|v: Vec<u8>| v@)
}

/// The byte strings a sequence of lists of byte vectors holds.
pub open spec fn views2_of(s: Seq<Vec<Vec<u8>>>) -> Seq<Seq<Seq<u8>>> {
    s.map_values(|v: Vec<Vec<u8>>| views_of(v@))
}

/// A fresh copy of a byte string.
pub fn copy_bytes(v: &Vec<u8>) -> (r: Vec<u8>)
    ensures
        r@ == v@,
{
    vstd::slice::slice_to_vec(v.as_slice())
}

/// The text split at line feeds: always at least one piece, none of
/// them containing a line feed; splitting empty text gives one empty
/// piece.
pub open spec fn split_lines(s: Seq<u8>) -> Seq<Seq<u8>>
    decreases s.len(),
{
    if s.len() == 0 {
        seq![Seq::empty()]
    } else {
        let rest = split_lines(s.drop_last());
        if s.last() == LF {
            rest.push(Seq::empty())
        } else {
            rest.update(rest.len() - 1, rest.last().push(s.last()))
        }
    }
}

pub proof fn lemma_split_lines_len(s: Seq<u8>)
    ensures
        split_lines(s).len() >= 1,
    decreases s.len(),
{
    if s.len() > 0 {
        lemma_split_lines_len(s.drop_last());
    }
}

/// Split a prompt text into the lines rendered as plain output (all
/// but the last) and the line handed to the line editor (the last).
pub fn split_prompt(text: &[u8]) -> (r: (Vec<Vec<u8>>, Vec<u8>))
    ensures
        r.0@.map_values(|v: Vec<u8>| v@) == split_lines(text@).drop_last(),
        r.1@ == split_lines(text@).last(),
{
    let ghost whole = text@;
    let mut head: Vec<Vec<u8>> = Vec::new();
    let mut cur: Vec<u8> = Vec::new();
    let n = text.len();
    let mut i: usize = 0;
    proof {
        assert(text@.take(0) =~= Seq::<u8>::empty());
        assert(head@.map_values(|v: Vec<u8>| v@) =~= Seq::<Seq<u8>>::empty());
    }
    while i < n
        invariant
            n == text@.len(),
            0 <= i <= n,
            split_lines(text@.take(i as int)) == head@.map_values(|v: Vec<u8>| v@).push(
                cur@,
            ),
        decreases n - i,
    {
        let ghost pre = text@.take(i as int);
        let ghost lines_pre = split_lines(pre);
        proof {
            assert(text@.take(i + 1).drop_last() =~= pre);
            assert(text@.take(i + 1).last() == text@[i as int]);
            lemma_split_lines_len(pre);
        }
        let b = text[i];
        if b == LF {
            head.push(cur);
            cur = Vec::new();
            proof {
                assert(head@.map_values(|v: Vec<u8>| v@) =~= lines_pre);
                assert(split_lines(text@.take(i + 1)) =~= head@.map_values(
                    |v: Vec<u8>| v@,
                ).push(cur@));
            }
        } else {
            let ghost cur_pre = cur@;
            cur.push(b);
            proof {
                assert(lines_pre.last() == cur_pre);
                assert(split_lines(text@.take(i + 1)) == lines_pre.update(
                    lines_pre.len() - 1,
                    lines_pre.last().push(text@[i as int]),
                ));
                assert(split_lines(text@.take(i + 1)) =~= head@.map_values(
                    |v: Vec<u8>| v@,
                ).push(cur@));
            }
        }
        i = i + 1;
    }
    proof {
        assert(text@.take(n as int) =~= text@);
        lemma_split_lines_len(text@);
        assert(split_lines(text@).drop_last() =~= head@.map_values(|v: Vec<u8>| v@));
    }
    (head, cur)
}

/// The decimal digits of a number, most significant first.
pub open spec fn decimal_of(n: nat) -> Seq<u8>
    decreases n,
{
    if n < 10 {
        seq![(48 + n) as u8]
    } else {
        decimal_of(n / 10).push((48 + n % 10) as u8)
    }
}

/// Render a number in decimal, as the pane identifier is rendered
/// into the environment.
pub fn decimal_bytes(n: u64) -> (r: Vec<u8>)
    ensures
        r@ == decimal_of(n as nat),
    decreases n,
{
    if n < 10 {
        let mut r: Vec<u8> = Vec::new();
        r.push(48 + (n as u8));
        proof {
            assert(r@ =~= decimal_of(n as nat));
        }
        r
    } else {
        let mut r = decimal_bytes(n / 10);
        r.push(48 + ((n % 10) as u8));
        r
    }
}

} // verus!
