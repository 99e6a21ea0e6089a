//! Server-sent-event framing on raw bytes: line endings are normalised,
//! events end at a blank line, and an event's payload is the text of its
//! `data:` lines (leading whitespace trimmed) joined by line feeds.
use vstd::prelude::*;

verus! {

broadcast use vstd::std_specs::vec::group_vec_axioms;

/// `\r\n` replaced by `\n`, scanning left to right.
pub open spec fn normalize_newlines(s: Seq<u8>) -> Seq<u8>
    decreases s.len(),
{
    if s.len() == 0 {
        s
    } else if s.len() >= 2 && s[0] == 13 && s[1] == 10 {
        seq![10u8] + normalize_newlines(s.skip(2))
    } else {
        seq![s[0]] + normalize_newlines(s.skip(1))
    }
}

/// Index of the first blank-line separator (`\n\n`) at or after `i`.
pub open spec fn blank_from(s: Seq<u8>, i: int) -> Option<int>
    decreases s.len() - i,
{
    if i < 0 || i + 1 >= s.len() {
        None
    } else if s[i] == 10 && s[i + 1] == 10 {
        Some(i)
    } else {
        blank_from(s, i + 1)
    }
}

/// The text split at every `\n\n` (left to right); there is always at least
/// one piece.
pub open spec fn split_events(s: Seq<u8>) -> Seq<Seq<u8>>
    decreases s.len(),
{
    match blank_from(s, 0) {
        Some(i) => {
            if 0 <= i && i + 2 <= s.len() {
                seq![s.take(i)] + split_events(s.skip(i + 2))
            } else {
                seq![s]
            }
        },
        None => seq![s],
    }
}

/// Index of the first `\n` at or after `i`.
pub open spec fn newline_from(s: Seq<u8>, i: int) -> Option<int>
    decreases s.len() - i,
{
    if i < 0 || i >= s.len() {
        None
    } else if s[i] == 10 {
        Some(i)
    } else {
        newline_from(s, i + 1)
    }
}

/// A line without one trailing `\r`.
pub open spec fn strip_cr(l: Seq<u8>) -> Seq<u8> {
    if l.len() > 0 && l.last() == 13 { l.drop_last() } else { l }
}

/// The lines of a text: split at `\n`, one trailing `\r` dropped from each,
/// and no line after a final `\n`.
pub open spec fn text_lines(s: Seq<u8>) -> Seq<Seq<u8>>
    decreases s.len(),
{
    if s.len() == 0 {
        Seq::empty()
    } else {
        match newline_from(s, 0) {
            Some(i) => {
                if 0 <= i < s.len() {
                    seq![strip_cr(s.take(i))] + text_lines(s.skip(i + 1))
                } else {
                    seq![strip_cr(s)]
                }
            },
            None => seq![strip_cr(s)],
        }
    }
}

/// Length of the UTF-8 encoding of a Unicode whitespace character at the
/// start of `s`, or 0 when `s` does not start with one.
pub open spec fn leading_space_width(s: Seq<u8>) -> nat {
    if s.len() >= 1 && (s[0] == 9 || s[0] == 10 || s[0] == 11 || s[0] == 12 || s[0] == 13 || s[0] == 32) {
        1
    } else if s.len() >= 2 && s[0] == 0xc2 && (s[1] == 0x85 || s[1] == 0xa0) {
        2
    } else if s.len() >= 3 && s[0] == 0xe1 && s[1] == 0x9a && s[2] == 0x80 {
        3
    } else if s.len() >= 3 && s[0] == 0xe2 && s[1] == 0x80 && ((0x80 <= s[2] <= 0x8a) || s[2] == 0xa8 || s[2] == 0xa9 || s[2] == 0xaf) {
        3
    } else if s.len() >= 3 && s[0] == 0xe2 && s[1] == 0x81 && s[2] == 0x9f {
        3
    } else if s.len() >= 3 && s[0] == 0xe3 && s[1] == 0x80 && s[2] == 0x80 {
        3
    } else {
        0
    }
}

/// `s` without its leading Unicode whitespace.
pub open spec fn trim_start(s: Seq<u8>) -> Seq<u8>
    decreases s.len(),
{
    if leading_space_width(s) > 0 && leading_space_width(s) <= s.len() {
        trim_start(s.skip(leading_space_width(s) as int))
    } else {
        s
    }
}

/// `l` starts with `data:`.
pub open spec fn is_data_line(l: Seq<u8>) -> bool {
    l.len() >= 5 && l[0] == 100 && l[1] == 97 && l[2] == 116 && l[3] == 97 && l[4] == 58
}

/// The trimmed values of the `data:` lines, in order.
pub open spec fn data_values(lines: Seq<Seq<u8>>) -> Seq<Seq<u8>>
    decreases lines.len(),
{
    if lines.len() == 0 {
        Seq::empty()
    } else if is_data_line(lines[0]) {
        seq![trim_start(lines[0].skip(5))] + data_values(lines.skip(1))
    } else {
        data_values(lines.skip(1))
    }
}

/// Each part preceded by a line feed, concatenated.
pub open spec fn prefixed_lines(parts: Seq<Seq<u8>>) -> Seq<u8>
    decreases parts.len(),
{
    if parts.len() == 0 {
        Seq::empty()
    } else {
        seq![10u8] + parts[0] + prefixed_lines(parts.skip(1))
    }
}

/// The parts joined by line feeds.
pub open spec fn join_lines(parts: Seq<Seq<u8>>) -> Seq<u8> {
    if parts.len() == 0 {
        Seq::empty()
    } else {
        parts[0] + prefixed_lines(parts.skip(1))
    }
}

/// The payload of one event: its `data:` values joined by line feeds.
pub open spec fn event_payload(event: Seq<u8>) -> Seq<u8> {
    join_lines(data_values(text_lines(event)))
}

/// Where the text `s[start..end]` resumes after `trim_start`.
pub fn trimmed_start(s: &[u8], start: usize, end: usize) -> (r: usize)
    requires
        start <= end <= s@.len(),
    ensures
        start <= r <= end,
        trim_start(s@.subrange(start as int, end as int)) == s@.subrange(r as int, end as int),
    decreases end - start,
{
    let rest = end - start;
    let w: usize = if rest >= 1 && (s[start] == 9 || s[start] == 10 || s[start] == 11 || s[start] == 12 || s[start] == 13 || s[start] == 32) {
        1
    } else if rest >= 2 && s[start] == 0xc2 && (s[start + 1] == 0x85 || s[start + 1] == 0xa0) {
        2
    } else if rest >= 3 && s[start] == 0xe1 && s[start + 1] == 0x9a && s[start + 2] == 0x80 {
        3
    } else if rest >= 3 && s[start] == 0xe2 && s[start + 1] == 0x80 && ((0x80 <= s[start + 2] && s[start + 2] <= 0x8a) || s[start + 2] == 0xa8 || s[start + 2] == 0xa9 || s[start + 2] == 0xaf) {
        3
    } else if rest >= 3 && s[start] == 0xe2 && s[start + 1] == 0x81 && s[start + 2] == 0x9f {
        3
    } else if rest >= 3 && s[start] == 0xe3 && s[start + 1] == 0x80 && s[start + 2] == 0x80 {
        3
    } else {
        0
    };
    let ghost t = s@.subrange(start as int, end as int);
    assert(w == leading_space_width(t));
    if w == 0 {
        start
    } else {
        assert(t.skip(w as int) =~= s@.subrange(start + w, end as int));
        trimmed_start(s, start + w, end)
    }
}

/// Index of the first `\n` at or after `i`, or the length when there is none.
fn find_newline(s: &[u8], i: usize) -> (r: usize)
    requires
        i <= s@.len(),
    ensures
        i <= r <= s@.len(),
        r < s@.len() ==> newline_from(s@, i as int) == Some(r as int),
        r == s@.len() ==> newline_from(s@, i as int) is None,
{
    let mut j = i;
    while j < s.len()
        invariant
            i <= j <= s@.len(),
            newline_from(s@, i as int) == newline_from(s@, j as int),
        decreases s@.len() - j,
    {
        if s[j] == 10 {
            return j;
        }
        j = j + 1;
    }
    j
}

proof fn lemma_newline_shift(s: Seq<u8>, k: int, i: int)
    requires
        0 <= k <= s.len(),
        k <= i,
    ensures
        newline_from(s.skip(k), i - k) == (match newline_from(s, i) {
            Some(j) => Some(j - k),
            None => None::<int>,
        }),
    decreases s.len() - i,
{
    if i < 0 || i >= s.len() {
    } else if s[i] == 10 {
    } else {
        lemma_newline_shift(s, k, i + 1);
    }
}

proof fn lemma_blank_shift(s: Seq<u8>, k: int, i: int)
    requires
        0 <= k <= s.len(),
        k <= i,
    ensures
        blank_from(s.skip(k), i - k) == (match blank_from(s, i) {
            Some(j) => Some(j - k),
            None => None::<int>,
        }),
    decreases s.len() - i,
{
    if i < 0 || i + 1 >= s.len() {
    } else if s[i] == 10 && s[i + 1] == 10 {
    } else {
        lemma_blank_shift(s, k, i + 1);
    }
}

proof fn lemma_newline_bounds(s: Seq<u8>, i: int)
    ensures
        newline_from(s, i) matches Some(j) ==> i <= j < s.len() && s[j] == 10,
    decreases s.len() - i,
{
    if i < 0 || i >= s.len() {
    } else if s[i] == 10 {
    } else {
        lemma_newline_bounds(s, i + 1);
    }
}

proof fn lemma_blank_bounds(s: Seq<u8>, i: int)
    ensures
        blank_from(s, i) matches Some(j) ==> i <= j && j + 2 <= s.len(),
    decreases s.len() - i,
{
    if i < 0 || i + 1 >= s.len() {
    } else if s[i] == 10 && s[i + 1] == 10 {
    } else {
        lemma_blank_bounds(s, i + 1);
    }
}

/// The line that starts at `pos`: it ends (without `\r`) at `r.0`, and the
/// next line starts at `r.1`.
fn next_line(s: &[u8], pos: usize) -> (r: (usize, usize))
    requires
        pos < s@.len(),
    ensures
        pos <= r.0 <= r.1 <= s@.len(),
        pos < r.1,
        text_lines(s@.skip(pos as int)) == seq![s@.subrange(pos as int, r.0 as int)] + text_lines(s@.skip(r.1 as int)),
{
    let n = s.len();
    let ghost rest = s@.skip(pos as int);
    let nl = find_newline(s, pos);
    proof {
        lemma_newline_shift(s@, pos as int, pos as int);
        lemma_newline_bounds(s@, pos as int);
        assert(rest.skip(0) =~= rest);
    }
    let mut end = nl;
    if end > pos && s[end - 1] == 13 {
        end = end - 1;
    }
    assert(strip_cr(rest.take(nl - pos)) =~= s@.subrange(pos as int, end as int));
    let next = if nl < n { nl + 1 } else { n };
    proof {
        if nl < n {
            assert(rest.skip(nl - pos + 1) =~= s@.skip(next as int));
        } else {
            assert(rest.take(nl - pos) =~= rest);
            assert(s@.skip(next as int) =~= Seq::<u8>::empty());
            assert(text_lines(s@.skip(next as int)) =~= Seq::<Seq<u8>>::empty());
        }
    }
    (end, next)
}

/// Appends `s[start..end]` to `out`.
fn append_range(out: &mut Vec<u8>, s: &[u8], start: usize, end: usize)
    requires
        start <= end <= s@.len(),
    ensures
        final(out)@ == old(out)@ + s@.subrange(start as int, end as int),
{
    let mut k = start;
    while k < end
        invariant
            start <= k <= end,
            end <= s@.len(),
            out@ == old(out)@ + s@.subrange(start as int, k as int),
        decreases end - k,
    {
        out.push(s[k]);
        assert(s@.subrange(start as int, k + 1) =~= s@.subrange(start as int, k as int).push(s@[k as int]));
        k = k + 1;
    }
}

/// The payload of one event.
pub fn event_data(event: &[u8]) -> (r: Vec<u8>)
    ensures
        r@ == event_payload(event@),
{
    let n = event.len();
    let mut out: Vec<u8> = Vec::new();
    let mut started = false;
    let mut pos: usize = 0;
    assert(event@.skip(0) =~= event@);
    while pos < n
        invariant
            n == event@.len(),
            pos <= n,
            !started ==> out@.len() == 0,
            !started ==> event_payload(event@) == join_lines(data_values(text_lines(event@.skip(pos as int)))),
            started ==> event_payload(event@) == out@ + prefixed_lines(data_values(text_lines(event@.skip(pos as int)))),
        decreases n - pos,
    {
        let (end, next) = next_line(event, pos);
        let ghost line = event@.subrange(pos as int, end as int);
        let ghost lines_rest = text_lines(event@.skip(next as int));
        let ghost vals = data_values(lines_rest);
        assert((seq![line] + lines_rest).skip(1) =~= lines_rest);
        assert((seq![line] + lines_rest)[0] == line);
        if end - pos >= 5 && event[pos] == 100 && event[pos + 1] == 97 && event[pos + 2] == 116
            && event[pos + 3] == 97 && event[pos + 4] == 58 {
            let start = trimmed_start(event, pos + 5, end);
            assert(line.skip(5) =~= event@.subrange(pos + 5, end as int));
            let ghost value = trim_start(line.skip(5));
            assert(value =~= event@.subrange(start as int, end as int));
            assert(data_values(seq![line] + lines_rest) =~= seq![value] + vals);
            assert((seq![value] + vals).skip(1) =~= vals);
            let ghost before = out@;
            if started {
                out.push(10);
            }
            append_range(&mut out, event, start, end);
            proof {
                if started {
                    assert(prefixed_lines(seq![value] + vals) =~= seq![10u8] + value + prefixed_lines(vals));
                    assert(out@ =~= before + seq![10u8] + value);
                } else {
                    assert(out@ =~= value);
                }
            }
            started = true;
        } else {
            assert(data_values(seq![line] + lines_rest) =~= vals);
        }
        pos = next;
    }
    proof {
        assert(event@.skip(pos as int) =~= Seq::<u8>::empty());
        assert(text_lines(Seq::<u8>::empty()) =~= Seq::<Seq<u8>>::empty());
        assert(data_values(Seq::<Seq<u8>>::empty()) =~= Seq::<Seq<u8>>::empty());
        if started {
            assert(out@ =~= out@ + prefixed_lines(Seq::<Seq<u8>>::empty()));
        }
    }
    out
}

/// `\r\n` replaced by `\n` in a byte text.
pub fn normalize_crlf(s: &[u8]) -> (r: Vec<u8>)
    ensures
        r@ == normalize_newlines(s@),
{
    let n = s.len();
    let mut out: Vec<u8> = Vec::new();
    let mut i: usize = 0;
    assert(s@.skip(0) =~= s@);
    while i < n
        invariant
            n == s@.len(),
            i <= n,
            normalize_newlines(s@) == out@ + normalize_newlines(s@.skip(i as int)),
        decreases n - i,
    {
        let ghost rest = s@.skip(i as int);
        if i + 1 < n && s[i] == 13 && s[i + 1] == 10 {
            out.push(10);
            assert(rest.skip(2) =~= s@.skip(i + 2));
            i = i + 2;
        } else {
            out.push(s[i]);
            assert(rest.skip(1) =~= s@.skip(i + 1));
            i = i + 1;
        }
    }
    assert(s@.skip(n as int) =~= Seq::<u8>::empty());
    assert(out@ + Seq::<u8>::empty() =~= out@);
    out
}

/// Index of the first `\n\n` at or after `i`, or the length when there is
/// none.
fn find_blank(s: &[u8], i: usize) -> (r: usize)
    requires
        i <= s@.len(),
    ensures
        i <= r <= s@.len(),
        r < s@.len() ==> blank_from(s@, i as int) == Some(r as int),
        r == s@.len() ==> blank_from(s@, i as int) is None,
{
    let mut j = i;
    while j < s.len() && s.len() - j > 1
        invariant
            i <= j <= s@.len(),
            blank_from(s@, i as int) == blank_from(s@, j as int),
        decreases s@.len() - j,
    {
        if s[j] == 10 && s[j + 1] == 10 {
            return j;
        }
        j = j + 1;
    }
    s.len()
}

/// The event that starts at `pos`: it ends at `r.0`; when a separator follows
/// (`r.2`), the next event starts at `r.1`.
pub fn next_event(s: &[u8], pos: usize) -> (r: (usize, usize, bool))
    requires
        pos <= s@.len(),
    ensures
        pos <= r.0 <= s@.len(),
        r.2 ==> r.1 == r.0 + 2 && r.1 <= s@.len(),
        !r.2 ==> r.0 == s@.len(),
        r.2 ==> split_events(s@.skip(pos as int)) == seq![s@.subrange(pos as int, r.0 as int)] + split_events(s@.skip(r.1 as int)),
        !r.2 ==> split_events(s@.skip(pos as int)) == seq![s@.subrange(pos as int, r.0 as int)],
{
    let ghost rest = s@.skip(pos as int);
    let b = find_blank(s, pos);
    proof {
        lemma_blank_shift(s@, pos as int, pos as int);
        lemma_blank_bounds(s@, pos as int);
        assert(rest.skip(0) =~= rest);
    }
    if b < s.len() {
        assert(rest.take(b - pos) =~= s@.subrange(pos as int, b as int));
        assert(rest.skip(b - pos + 2) =~= s@.skip(b + 2));
        (b, b + 2, true)
    } else {
        assert(rest =~= s@.subrange(pos as int, b as int));
        (b, b, false)
    }
}

/// Copies `s[start..end]`.
pub fn copy_range(s: &[u8], start: usize, end: usize) -> (r: Vec<u8>)
    requires
        start <= end <= s@.len(),
    ensures
        r@ == s@.subrange(start as int, end as int),
{
    let mut out: Vec<u8> = Vec::new();
    append_range(&mut out, s, start, end);
    assert(out@ =~= s@.subrange(start as int, end as int));
    out
}

/// Length of the UTF-8 encoding of a Unicode whitespace character at the
/// end of `s`, or 0 when `s` does not end with one.
pub open spec fn trailing_space_width(s: Seq<u8>) -> nat {
    let n = s.len();
    if n >= 1 && (s[n - 1] == 9 || s[n - 1] == 10 || s[n - 1] == 11 || s[n - 1] == 12 || s[n - 1] == 13 || s[n - 1] == 32) {
        1
    } else if n >= 2 && s[n - 2] == 0xc2 && (s[n - 1] == 0x85 || s[n - 1] == 0xa0) {
        2
    } else if n >= 3 && s[n - 3] == 0xe1 && s[n - 2] == 0x9a && s[n - 1] == 0x80 {
        3
    } else if n >= 3 && s[n - 3] == 0xe2 && s[n - 2] == 0x80 && ((0x80 <= s[n - 1] <= 0x8a) || s[n - 1] == 0xa8 || s[n - 1] == 0xa9 || s[n - 1] == 0xaf) {
        3
    } else if n >= 3 && s[n - 3] == 0xe2 && s[n - 2] == 0x81 && s[n - 1] == 0x9f {
        3
    } else if n >= 3 && s[n - 3] == 0xe3 && s[n - 2] == 0x80 && s[n - 1] == 0x80 {
        3
    } else {
        0
    }
}

/// `s` without its trailing Unicode whitespace.
pub open spec fn trim_end(s: Seq<u8>) -> Seq<u8>
    decreases s.len(),
{
    if trailing_space_width(s) > 0 && trailing_space_width(s) <= s.len() {
        trim_end(s.take(s.len() - trailing_space_width(s)))
    } else {
        s
    }
}

/// `s` without leading and trailing Unicode whitespace.
pub open spec fn trim_ws(s: Seq<u8>) -> Seq<u8> {
    trim_end(trim_start(s))
}

/// Where the text `s[start..end]` stops after trailing whitespace is trimmed.
pub fn trimmed_end(s: &[u8], start: usize, end: usize) -> (r: usize)
    requires
        start <= end <= s@.len(),
    ensures
        start <= r <= end,
        trim_end(s@.subrange(start as int, end as int)) == s@.subrange(start as int, r as int),
    decreases end - start,
{
    let n = end - start;
    let w: usize = if n >= 1 && (s[end - 1] == 9 || s[end - 1] == 10 || s[end - 1] == 11 || s[end - 1] == 12 || s[end - 1] == 13 || s[end - 1] == 32) {
        1
    } else if n >= 2 && s[end - 2] == 0xc2 && (s[end - 1] == 0x85 || s[end - 1] == 0xa0) {
        2
    } else if n >= 3 && s[end - 3] == 0xe1 && s[end - 2] == 0x9a && s[end - 1] == 0x80 {
        3
    } else if n >= 3 && s[end - 3] == 0xe2 && s[end - 2] == 0x80 && ((0x80 <= s[end - 1] && s[end - 1] <= 0x8a) || s[end - 1] == 0xa8 || s[end - 1] == 0xa9 || s[end - 1] == 0xaf) {
        3
    } else if n >= 3 && s[end - 3] == 0xe2 && s[end - 2] == 0x81 && s[end - 1] == 0x9f {
        3
    } else if n >= 3 && s[end - 3] == 0xe3 && s[end - 2] == 0x80 && s[end - 1] == 0x80 {
        3
    } else {
        0
    };
    let ghost t = s@.subrange(start as int, end as int);
    assert(w == trailing_space_width(t));
    if w == 0 {
        end
    } else {
        assert(t.take(t.len() - w) =~= s@.subrange(start as int, end - w));
        trimmed_end(s, start, end - w)
    }
}

/// The bytes of `s` without leading and trailing Unicode whitespace.
pub fn trim_bytes(s: &[u8]) -> (r: Vec<u8>)
    ensures
        r@ == trim_ws(s@),
{
    let a = trimmed_start(s, 0, s.len());
    let b = trimmed_end(s, a, s.len());
    assert(s@.subrange(0, s@.len() as int) =~= s@);
    copy_range(s, a, b)
}

} // verus!
