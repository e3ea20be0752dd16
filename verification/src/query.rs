//! Ordered, multi-valued query mappings and their encoding as query strings.
//!
//! A `Query` preserves insertion order and keeps duplicate keys: multi-field
//! sorting emits parallel `sort_key` / `sort_dir` pairs whose pairing is
//! positional. Keys and values are escaped when the query string is emitted:
//! unreserved ASCII characters pass through, every other ASCII character
//! becomes a `%XX` escape, and characters outside ASCII are carried through
//! unchanged for the transport to handle.

use vstd::prelude::*;

verus! {

/// Characters that the query-string escaping leaves as they are:
/// ASCII letters, digits, `-`, `_`, `.` and `~`.
pub open spec fn is_unreserved(c: char) -> bool {
    (48 <= c as u32 && c as u32 <= 57)  // 0-9
    || (65 <= c as u32 && c as u32 <= 90)  // A-Z
    || (97 <= c as u32 && c as u32 <= 122)  // a-z
    || c as u32 == 45  // -
    || c as u32 == 95  // _
    || c as u32 == 46  // .
    || c as u32 == 126  // ~
}

/// The lower-case hexadecimal digit for a value below sixteen.
pub open spec fn hex_char(d: nat) -> char {
    if d == 0 { '0' } else if d == 1 { '1' } else if d == 2 { '2' }
    else if d == 3 { '3' } else if d == 4 { '4' } else if d == 5 { '5' }
    else if d == 6 { '6' } else if d == 7 { '7' } else if d == 8 { '8' }
    else if d == 9 { '9' } else if d == 10 { 'a' } else if d == 11 { 'b' }
    else if d == 12 { 'c' } else if d == 13 { 'd' } else if d == 14 { 'e' }
    else { 'f' }
}

/// What one character contributes to an escaped string.
pub open spec fn escape_char(c: char) -> Seq<char> {
    if is_unreserved(c) || c as u32 >= 128 {
        seq![c]
    } else {
        seq!['%', hex_char((c as u32 / 16) as nat), hex_char((c as u32 % 16) as nat)]
    }
}

/// The escaped form of a whole string.
pub open spec fn spec_escape(s: Seq<char>) -> Seq<char>
    decreases s.len(),
{
    if s.len() == 0 {
        Seq::empty()
    } else {
        spec_escape(s.drop_last()) + escape_char(s.last())
    }
}

/// The decimal digit sequence of a number, most significant digit first.
pub open spec fn spec_decimal(n: nat) -> Seq<char>
    decreases n,
{
    if n < 10 {
        seq![hex_char(n)]
    } else {
        spec_decimal(n / 10) + seq![hex_char(n % 10)]
    }
}

/// One `key=value` component of a query string, with both sides escaped.
pub open spec fn spec_encode_pair(p: (Seq<char>, Seq<char>)) -> Seq<char> {
    spec_escape(p.0) + seq!['='] + spec_escape(p.1)
}

/// The query string of an ordered pair sequence: components joined by `&`.
pub open spec fn spec_encode_query(q: Seq<(Seq<char>, Seq<char>)>) -> Seq<char>
    decreases q.len(),
{
    if q.len() == 0 {
        Seq::empty()
    } else if q.len() == 1 {
        spec_encode_pair(q[0])
    } else {
        spec_encode_query(q.drop_last()) + seq!['&'] + spec_encode_pair(q.last())
    }
}

/// A one-character string slice holding the lower-case hexadecimal digit `d`.
fn hex_digit_str(d: u8) -> (r: &'static str)
    requires
        d < 16,
    ensures
        r@ =~= seq![hex_char(d as nat)],
{
    let r: &'static str = if d == 0 { "0" } else if d == 1 { "1" } else if d == 2 { "2" }
        else if d == 3 { "3" } else if d == 4 { "4" } else if d == 5 { "5" }
        else if d == 6 { "6" } else if d == 7 { "7" } else if d == 8 { "8" }
        else if d == 9 { "9" } else if d == 10 { "a" } else if d == 11 { "b" }
        else if d == 12 { "c" } else if d == 13 { "d" } else if d == 14 { "e" }
        else { "f" };
    proof {
        reveal_strlit("0"); reveal_strlit("1"); reveal_strlit("2"); reveal_strlit("3");
        reveal_strlit("4"); reveal_strlit("5"); reveal_strlit("6"); reveal_strlit("7");
        reveal_strlit("8"); reveal_strlit("9"); reveal_strlit("a"); reveal_strlit("b");
        reveal_strlit("c"); reveal_strlit("d"); reveal_strlit("e"); reveal_strlit("f");
    }
    r
}

/// The decimal rendering of a machine-sized number.
pub fn format_usize(n: usize) -> (r: String)
    ensures
        r@ == spec_decimal(n as nat),
    decreases n,
{
    if n < 10 {
        let d = hex_digit_str(n as u8);
        d.to_owned()
    } else {
        let mut s = format_usize(n / 10);
        let d = hex_digit_str((n % 10) as u8);
        s.append(d);
        proof {
            assert((n / 10) as nat == n as nat / 10);
            assert((n % 10) as nat == n as nat % 10);
        }
        s
    }
}

/// The escaped form of a string: unreserved ASCII passes through, other
/// ASCII becomes `%XX`, characters beyond ASCII are carried through.
pub fn escape(s: &str) -> (r: String)
    ensures
        r@ == spec_escape(s@),
{
    let n = s.unicode_len();
    let mut out = String::new();
    let mut i: usize = 0;
    while i < n
        invariant
            n == s@.len(),
            i <= n,
            out@ == spec_escape(s@.take(i as int)),
        decreases n - i,
    {
        let c = s.get_char(i);
        let u = c as u32;
        proof {
            assert(s@.take(i + 1 as int).drop_last() =~= s@.take(i as int));
            assert(s@.take(i + 1 as int).last() == s@[i as int]);
        }
        if (48 <= u && u <= 57) || (65 <= u && u <= 90) || (97 <= u && u <= 122)
            || u == 45 || u == 95 || u == 46 || u == 126 || u >= 128 {
            let piece = s.substring_char(i, i + 1);
            out.append(piece);
            proof {
                assert(piece@ =~= seq![s@[i as int]]);
                assert(out@ =~= spec_escape(s@.take(i + 1 as int)));
            }
        } else {
            out.append("%");
            let hi = hex_digit_str((u / 16) as u8);
            out.append(hi);
            let lo = hex_digit_str((u % 16) as u8);
            out.append(lo);
            proof {
                reveal_strlit("%");
                assert((u / 16) as nat == (c as u32 / 16) as nat);
                assert(out@ =~= spec_escape(s@.take(i + 1 as int)));
            }
        }
        i = i + 1;
    }
    proof {
        assert(s@.take(n as int) =~= s@);
    }
    out
}

/// An ordered association list of query keys and values. Insertion order is
/// preserved and duplicate keys are kept: both carry meaning on the wire.
pub struct Query {
    pairs: Vec<(String, String)>,
}

impl View for Query {
    type V = Seq<(Seq<char>, Seq<char>)>;

    closed spec fn view(&self) -> Seq<(Seq<char>, Seq<char>)> {
        Seq::new(self.pairs@.len(), |i: int| (self.pairs@[i].0@, self.pairs@[i].1@))
    }
}

impl Query {
    /// An empty query.
    pub fn new() -> (r: Query)
        ensures
            r@ =~= Seq::<(Seq<char>, Seq<char>)>::empty(),
    {
        Query { pairs: Vec::new() }
    }

    /// Append one pair. Never overwrites: a repeated key yields two entries.
    pub fn push(&mut self, key: &str, value: &str)
        ensures
            final(self)@ =~= old(self)@.push((key@, value@)),
    {
        self.pairs.push((key.to_owned(), value.to_owned()));
    }

    /// How many pairs the query holds.
    pub fn len(&self) -> (r: usize)
        ensures
            r == self@.len(),
    {
        self.pairs.len()
    }

    /// The query string: escaped `key=value` components joined by `&`.
    pub fn encode(&self) -> (r: String)
        ensures
            r@ == spec_encode_query(self@),
    {
        let mut out = String::new();
        let mut i: usize = 0;
        let n = self.pairs.len();
        while i < n
            invariant
                n == self@.len(),
                n == self.pairs@.len(),
                i <= n,
                out@ == spec_encode_query(self@.take(i as int)),
            decreases n - i,
        {
            if i > 0 {
                out.append("&");
            }
            let k = escape(self.pairs[i].0.as_str());
            out.append(k.as_str());
            out.append("=");
            let v = escape(self.pairs[i].1.as_str());
            out.append(v.as_str());
            proof {
                reveal_strlit("&");
                reveal_strlit("=");
                assert(self@.take(i + 1 as int).drop_last() =~= self@.take(i as int));
                assert(self@.take(i + 1 as int).last() == self@[i as int]);
                assert(self@[i as int].0 == self.pairs@[i as int].0@);
                assert(out@ =~= spec_encode_query(self@.take(i + 1 as int)));
            }
            i = i + 1;
        }
        proof {
            assert(self@.take(n as int) =~= self@);
        }
        out
    }
}

} // verus!
