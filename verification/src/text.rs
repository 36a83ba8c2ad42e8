//! Character-sequence model of the streaming text: first newline, trailing
//! whitespace trimming, and the split of a buffer into complete lines plus
//! an unterminated remainder. These spec functions are the mathematical
//! model against which the reader's executable code is verified.

use vstd::prelude::*;
use vstd::string::StrSliceExecFns;

verus! {

/// The characters trimmed from the end of an emitted line: the Unicode
/// white-space set, the same set `char::is_whitespace` recognizes —
/// tab through carriage return, space, next line, no-break space, ogham
/// space mark, the en-quad..hair-space range, the line and paragraph
/// separators, narrow no-break space, medium mathematical space, and
/// ideographic space.
pub open spec fn is_ws(c: char) -> bool {
    (c as u32) == 0x09 || (c as u32) == 0x0A || (c as u32) == 0x0B || (c as u32) == 0x0C || (
    c as u32) == 0x0D || (c as u32) == 0x20 || (c as u32) == 0x85 || (c as u32) == 0xA0 || (
    c as u32) == 0x1680 || (0x2000 <= (c as u32) && (c as u32) <= 0x200A) || (c as u32) == 0x2028
        || (c as u32) == 0x2029 || (c as u32) == 0x202F || (c as u32) == 0x205F || (c as u32)
        == 0x3000
}

/// Executable counterpart of `is_ws`.
pub fn is_ws_char(c: char) -> (b: bool)
    ensures
        b == is_ws(c),
{
    let u: u32 = c as u32;
    u == 0x09 || u == 0x0A || u == 0x0B || u == 0x0C || u == 0x0D || u == 0x20 || u == 0x85
        || u == 0xA0 || u == 0x1680 || (0x2000 <= u && u <= 0x200A) || u == 0x2028 || u == 0x2029
        || u == 0x202F || u == 0x205F || u == 0x3000
}

/// Index of the first newline in `s`, or `s.len()` if there is none.
pub open spec fn first_nl(s: Seq<char>) -> nat
    decreases s.len(),
{
    if s.len() == 0 {
        0
    } else if s[0] == '\n' {
        0
    } else {
        (1 + first_nl(s.skip(1))) as nat
    }
}

/// `first_nl` is at most the length, points at a newline when it is a
/// proper index, and everything before it is not a newline.
pub proof fn lemma_first_nl(s: Seq<char>)
    ensures
        first_nl(s) <= s.len(),
        first_nl(s) < s.len() ==> s[first_nl(s) as int] == '\n',
        forall|j: int| 0 <= j < first_nl(s) ==> s[j] != '\n',
    decreases s.len(),
{
    if s.len() == 0 {
    } else if s[0] == '\n' {
    } else {
        lemma_first_nl(s.skip(1));
        assert forall|j: int| 0 <= j < first_nl(s) implies s[j] != '\n' by {
            if j > 0 {
                assert(s.skip(1)[j - 1] == s[j]);
            }
        }
    }
}

/// `s` with its trailing whitespace removed.
pub open spec fn trimmed(s: Seq<char>) -> Seq<char>
    decreases s.len(),
{
    if s.len() > 0 && is_ws(s.last()) {
        trimmed(s.drop_last())
    } else {
        s
    }
}

/// If everything from `j` on is whitespace and the character just before
/// `j` (if any) is not, then trimming drops exactly the tail from `j`.
pub proof fn lemma_trimmed_prefix(s: Seq<char>, j: int)
    requires
        0 <= j <= s.len(),
        forall|m: int| j <= m < s.len() ==> is_ws(#[trigger] s[m]),
        j > 0 ==> !is_ws(s[j - 1]),
    ensures
        trimmed(s) == s.take(j),
    decreases s.len(),
{
    if s.len() > j {
        assert(is_ws(s.last()));
        lemma_trimmed_prefix(s.drop_last(), j);
        assert(s.drop_last().take(j) =~= s.take(j));
    } else {
        assert(s.take(j) =~= s);
    }
}

/// The complete lines contained in `s`, in order, each trimmed of its
/// trailing whitespace: one line per newline character in `s`.
pub open spec fn drained(s: Seq<char>) -> Seq<Seq<char>>
    decreases s.len(),
{
    let k = first_nl(s);
    if k >= s.len() {
        Seq::empty()
    } else {
        seq![trimmed(s.take(k as int))] + drained(s.skip(k as int + 1))
    }
}

/// What is left of `s` after removing every complete line and its
/// newline: the trailing unterminated fragment (possibly all of `s`).
pub open spec fn remainder(s: Seq<char>) -> Seq<char>
    decreases s.len(),
{
    let k = first_nl(s);
    if k >= s.len() {
        s
    } else {
        remainder(s.skip(k as int + 1))
    }
}

/// Appending more text never disturbs the lines already present: the
/// first newline of `x + y` is the first newline of `x` when `x` has one,
/// and `x.len()` plus the first newline of `y` otherwise.
pub proof fn lemma_first_nl_append(x: Seq<char>, y: Seq<char>)
    ensures
        first_nl(x) < x.len() ==> first_nl(x + y) == first_nl(x),
        first_nl(x) >= x.len() ==> first_nl(x + y) == x.len() + first_nl(y),
    decreases x.len(),
{
    lemma_first_nl(x);
    if x.len() == 0 {
        assert(x + y =~= y);
    } else if x[0] == '\n' {
        assert((x + y)[0] == '\n');
    } else {
        assert((x + y)[0] == x[0]);
        lemma_first_nl_append(x.skip(1), y);
        assert((x + y).skip(1) =~= x.skip(1) + y);
    }
}

/// Law: how the incoming text is chunked into reads does not change what
/// is emitted. Processing `x` and then `y` emits the lines of `x` followed
/// by the lines of `x`'s unterminated remainder joined with `y`; this
/// equals the lines of `x + y` taken in one read, and the leftover
/// fragment agrees too. (The executable reader adds one proviso, stated in
/// its own contract: the accumulator must stay within its overflow
/// ceiling, since a cleared buffer forgets its fragment.)
pub proof fn lemma_split_read_preserves_lines(x: Seq<char>, y: Seq<char>)
    ensures
        drained(x + y) == drained(x) + drained(remainder(x) + y),
        remainder(x + y) == remainder(remainder(x) + y),
    decreases x.len(),
{
    lemma_first_nl(x);
    lemma_first_nl_append(x, y);
    let k = first_nl(x);
    if k >= x.len() {
        assert(remainder(x) + y =~= x + y);
        assert(drained(x) + drained(remainder(x) + y) =~= drained(x + y));
    } else {
        assert((x + y).take(k as int) =~= x.take(k as int));
        assert((x + y).skip(k as int + 1) =~= x.skip(k as int + 1) + y);
        lemma_split_read_preserves_lines(x.skip(k as int + 1), y);
        assert(drained(x) + drained(remainder(x) + y) =~= drained(x + y));
    }
}

/// All the chunks joined into the one stream they came from.
pub open spec fn concat_chunks(chunks: Seq<Seq<char>>) -> Seq<char>
    decreases chunks.len(),
{
    if chunks.len() == 0 {
        Seq::empty()
    } else {
        chunks[0] + concat_chunks(chunks.skip(1))
    }
}

/// Everything the splitter emits when the chunks arrive one read at a
/// time, starting from buffered text `buf`: the lines drained after each
/// read, in order.
pub open spec fn emitted_over_reads(buf: Seq<char>, chunks: Seq<Seq<char>>) -> Seq<Seq<char>>
    decreases chunks.len(),
{
    if chunks.len() == 0 {
        Seq::empty()
    } else {
        drained(buf + chunks[0]) + emitted_over_reads(
            remainder(buf + chunks[0]),
            chunks.skip(1),
        )
    }
}

/// The buffered text left after all the chunks have been read.
pub open spec fn leftover_over_reads(buf: Seq<char>, chunks: Seq<Seq<char>>) -> Seq<char>
    decreases chunks.len(),
{
    if chunks.len() == 0 {
        buf
    } else {
        leftover_over_reads(remainder(buf + chunks[0]), chunks.skip(1))
    }
}

/// Law: however the incoming stream is cut into reads — many small
/// chunks, one large one, a line split across two reads — the splitter
/// emits exactly the lines of the whole stream, in order, and is left
/// with the same unterminated fragment. Stated for any starting buffer
/// that holds no newline, which every reachable buffer state does. (The
/// executable reader adds one proviso, stated in its own contract: the
/// accumulator must stay within its overflow ceiling, since a cleared
/// buffer forgets its fragment.)
pub proof fn lemma_chunking_irrelevant(buf: Seq<char>, chunks: Seq<Seq<char>>)
    requires
        first_nl(buf) == buf.len(),
    ensures
        emitted_over_reads(buf, chunks) == drained(buf + concat_chunks(chunks)),
        leftover_over_reads(buf, chunks) == remainder(buf + concat_chunks(chunks)),
    decreases chunks.len(),
{
    if chunks.len() == 0 {
        lemma_first_nl(buf);
        assert(buf + Seq::<char>::empty() =~= buf);
        assert(drained(buf) =~= Seq::<Seq<char>>::empty());
    } else {
        let head = chunks[0];
        let rest = chunks.skip(1);
        let mid = remainder(buf + head);
        lemma_remainder_no_nl(buf + head);
        lemma_chunking_irrelevant(mid, rest);
        lemma_split_read_preserves_lines(buf + head, concat_chunks(rest));
        assert((buf + head) + concat_chunks(rest) =~= buf + concat_chunks(chunks));
        assert(emitted_over_reads(buf, chunks) =~= drained(buf + concat_chunks(chunks)));
    }
}

/// Scans `s` for its first newline character.
pub fn find_newline(s: &str) -> (r: Option<usize>)
    ensures
        r matches Some(i) ==> i == first_nl(s@) && i < s@.len(),
        r is None ==> first_nl(s@) == s@.len(),
{
    let n = s.unicode_len();
    let mut i: usize = 0;
    while i < n
        invariant
            i <= n,
            n == s@.len(),
            forall|j: int| 0 <= j < i ==> s@[j] != '\n',
        decreases n - i,
    {
        if s.get_char(i) == '\n' {
            proof {
                lemma_first_nl(s@);
            }
            return Some(i);
        }
        i += 1;
    }
    proof {
        lemma_first_nl(s@);
    }
    None
}

/// Character-wise string equality, against the sequence views.
pub fn str_eq(a: &str, b: &str) -> (r: bool)
    ensures
        r == (a@ == b@),
{
    let n = a.unicode_len();
    if n != b.unicode_len() {
        return false;
    }
    let mut i: usize = 0;
    while i < n
        invariant
            i <= n,
            n == a@.len(),
            n == b@.len(),
            forall|j: int| 0 <= j < i ==> a@[j] == b@[j],
        decreases n - i,
    {
        if a.get_char(i) != b.get_char(i) {
            return false;
        }
        i += 1;
    }
    proof {
        assert(a@ =~= b@);
    }
    true
}

/// The remainder holds no newline.
pub proof fn lemma_remainder_no_nl(s: Seq<char>)
    ensures
        first_nl(remainder(s)) == remainder(s).len(),
    decreases s.len(),
{
    lemma_first_nl(s);
    let k = first_nl(s);
    if k < s.len() {
        lemma_remainder_no_nl(s.skip(k as int + 1));
    } else {
        lemma_first_nl(remainder(s));
    }
}

} // verus!
