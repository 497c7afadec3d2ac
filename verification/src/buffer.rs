//! The text buffer: the ordered lines of loaded text, immutable after load.
//!
//! [`Buffer::from_content`] splits a file's contents into lines: lines end
//! at a line feed, a carriage return immediately before a line feed is
//! dropped, and a final line feed leaves no trailing empty line behind.

use vstd::prelude::*;
use vstd::string::StrSliceExecFns;

verus! {

/// The index of the first line feed in `s`, or `s.len()` if there is none.
pub open spec fn first_newline(s: Seq<char>) -> nat
    decreases s.len(),
{
    if s.len() == 0 {
        0
    } else if s[0] == '\n' {
        0
    } else {
        1 + first_newline(s.subrange(1, s.len() as int))
    }
}

/// A line with a trailing carriage return dropped.
pub open spec fn strip_cr(l: Seq<char>) -> Seq<char> {
    if l.len() > 0 && l[l.len() - 1] == '\r' {
        l.subrange(0, l.len() - 1)
    } else {
        l
    }
}

/// The lines of `s`: split at each line feed, each piece before a line feed
/// loses a trailing carriage return, and a final line feed produces no
/// trailing empty line.
pub open spec fn split_lines(s: Seq<char>) -> Seq<Seq<char>>
    decreases s.len(),
{
    if s.len() == 0 {
        Seq::empty()
    } else {
        let i = first_newline(s);
        if i >= s.len() {
            seq![s]
        } else {
            seq![strip_cr(s.subrange(0, i as int))] + split_lines(
                s.subrange(i as int + 1, s.len() as int),
            )
        }
    }
}

/// Where the line-feed-free prefix of `s` ends, there [`first_newline`]
/// points: at `k` when `s[k]` is the first line feed, at `s.len()` when
/// there is none.
proof fn lemma_first_newline_at(s: Seq<char>, k: int)
    requires
        0 <= k <= s.len(),
        forall|j: int| 0 <= j < k ==> s[j] != '\n',
        k == s.len() || s[k] == '\n',
    ensures
        first_newline(s) == k,
    decreases k,
{
    if k == 0 {
    } else {
        lemma_first_newline_at(s.subrange(1, s.len() as int), k - 1);
    }
}

/// The lines of the loaded file, in file order. An empty sequence means
/// "no file loaded"; the sequence itself is always present.
pub struct Buffer {
    pub text: Vec<String>,
}

impl View for Buffer {
    type V = Seq<Seq<char>>;

    open spec fn view(&self) -> Seq<Seq<char>> {
        self.text.deep_view()
    }
}

impl Buffer {
    /// A buffer with no file loaded: zero lines.
    pub fn default() -> (b: Buffer)
        ensures
            b@ =~= Seq::<Seq<char>>::empty(),
    {
        Buffer { text: Vec::new() }
    }

    /// True exactly when the buffer holds no lines.
    pub fn is_empty(&self) -> (r: bool)
        ensures
            r == (self@.len() == 0),
    {
        self.text.len() == 0
    }

    /// Split a file's contents into a buffer of lines, as [`split_lines`]
    /// says.
    pub fn from_content(s: &str) -> (b: Buffer)
        ensures
            b@ == split_lines(s@),
    {
        let n = s.unicode_len();
        let mut text: Vec<String> = Vec::new();
        let mut start: usize = 0;
        let mut i: usize = 0;
        proof {
            assert(s@.subrange(0, n as int) =~= s@);
            assert(text.deep_view() =~= Seq::<Seq<char>>::empty());
        }
        while i < n
            invariant
                start <= i <= n,
                n == s@.len(),
                forall|j: int| start <= j < i ==> s@[j] != '\n',
                split_lines(s@) == text.deep_view() + split_lines(
                    s@.subrange(start as int, n as int),
                ),
            decreases n - i,
        {
            let c = s.get_char(i);
            if c == '\n' {
                let end = if i > start && s.get_char(i - 1) == '\r' {
                    i - 1
                } else {
                    i
                };
                let piece = s.substring_char(start, end);
                let ghost prev = text.deep_view();
                text.push(piece.to_owned());
                proof {
                    let rem = s@.subrange(start as int, n as int);
                    lemma_first_newline_at(rem, i - start);
                    assert(rem.subrange(0, i - start) =~= s@.subrange(start as int, i as int));
                    assert(rem.subrange(i - start + 1, rem.len() as int) =~= s@.subrange(
                        i as int + 1,
                        n as int,
                    ));
                    assert(strip_cr(s@.subrange(start as int, i as int)) =~= piece@);
                    assert(text.deep_view() =~= prev.push(piece@));
                }
                start = i + 1;
            }
            i = i + 1;
        }
        if start < n {
            let piece = s.substring_char(start, n);
            let ghost prev = text.deep_view();
            text.push(piece.to_owned());
            proof {
                let rem = s@.subrange(start as int, n as int);
                lemma_first_newline_at(rem, rem.len() as int);
                assert(text.deep_view() =~= prev.push(piece@));
                assert(text.deep_view() + Seq::<Seq<char>>::empty() =~= text.deep_view());
            }
        } else {
            proof {
                assert(s@.subrange(start as int, n as int) =~= Seq::<char>::empty());
                assert(text.deep_view() + Seq::<Seq<char>>::empty() =~= text.deep_view());
            }
        }
        Buffer { text }
    }
}

} // verus!
