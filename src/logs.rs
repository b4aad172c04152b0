//! Progressive console-log streaming: each fetch asks for the text from the
//! current offset on, and the server answers with the new text, the offset
//! to ask from next, and whether more text is to come.
use vstd::prelude::*;
use crate::text::{digit_value, str_eq};

verus! {

/// The value of a non-empty run of decimal digits.
pub open spec fn digits_value(ds: Seq<char>) -> nat
    decreases ds.len(),
{
    if ds.len() == 0 {
        0
    } else {
        digits_value(ds.drop_last()) * 10 + match digit_value(ds.last()) {
            Some(d) => d,
            None => 0,
        }
    }
}

/// Every character is a decimal digit.
pub open spec fn all_digits(ds: Seq<char>) -> bool {
    forall|i: int| 0 <= i < ds.len() ==> (#[trigger] digit_value(ds[i])) is Some
}

/// The number that decimal text denotes: an optional `+`, then at least one
/// digit, and nothing else.
pub open spec fn decimal_value(s: Seq<char>) -> Option<nat> {
    let ds = if s.len() > 0 && s[0] == '+' { s.drop_first() } else { s };
    if ds.len() > 0 && all_digits(ds) {
        Some(digits_value(ds))
    } else {
        None
    }
}

proof fn lemma_digits_value_grows(ds: Seq<char>, k: int)
    requires
        0 <= k <= ds.len(),
    ensures
        digits_value(ds.subrange(0, k)) <= digits_value(ds),
    decreases ds.len() - k,
{
    if k < ds.len() {
        lemma_digits_value_grows(ds, k + 1);
        assert(ds.subrange(0, k + 1).drop_last() == ds.subrange(0, k));
    } else {
        assert(ds.subrange(0, k) == ds);
    }
}

/// Reads a decimal count of characters; `None` when the text is not one or
/// the count does not fit.
pub fn parse_count(s: &str) -> (r: Option<usize>)
    ensures
        r == match decimal_value(s@) {
            Some(v) => if v <= usize::MAX {
                Some(v as usize)
            } else {
                None::<usize>
            },
            None => None::<usize>,
        },
{
    let n = s.unicode_len();
    let start: usize = if n > 0 && s.get_char(0) == '+' { 1 } else { 0 };
    let ghost ds = if s@.len() > 0 && s@[0] == '+' { s@.drop_first() } else { s@ };
    if start >= n {
        return None;
    }
    let mut acc: usize = 0;
    let mut overflow = false;
    let mut i: usize = start;
    while i < n
        invariant
            n == s@.len(),
            start <= i <= n,
            ds == s@.subrange(start as int, n as int),
            ds == (if s@.len() > 0 && s@[0] == '+' { s@.drop_first() } else { s@ }),
            all_digits(ds.subrange(0, i - start)),
            !overflow ==> acc == digits_value(ds.subrange(0, i - start)),
            overflow ==> digits_value(ds.subrange(0, i - start)) > usize::MAX,
        decreases n - i,
    {
        let c = s.get_char(i);
        if c < '0' || c > '9' {
            assert(digit_value(ds[i - start]) is None);
            assert(!all_digits(ds));
            return None;
        }
        let d: usize = (c as u32 - '0' as u32) as usize;
        let ghost prefix = ds.subrange(0, i + 1 - start);
        assert(prefix.drop_last() == ds.subrange(0, i - start));
        assert(prefix.last() == c);
        if !overflow {
            if acc > (usize::MAX - d) / 10 {
                overflow = true;
                assert(digits_value(prefix) > usize::MAX) by (nonlinear_arith)
                    requires
                        acc > (usize::MAX - d) / 10,
                        digits_value(prefix) == acc * 10 + d,
                        d <= 9,
                ;
            } else {
                assert(acc * 10 + d <= usize::MAX) by (nonlinear_arith)
                    requires
                        acc <= (usize::MAX - d) / 10,
                        d <= 9,
                ;
                acc = acc * 10 + d;
            }
        } else {
            assert(digits_value(prefix) >= digits_value(ds.subrange(0, i - start))) by (
            nonlinear_arith)
                requires
                    digits_value(prefix) == digits_value(ds.subrange(0, i - start)) * 10 + d,
            ;
        }
        assert forall|j: int| 0 <= j < prefix.len() implies (#[trigger] digit_value(
            prefix[j])) is Some by {
            if j < prefix.len() - 1 {
                assert(prefix[j] == ds.subrange(0, i - start)[j]);
            }
        }
        i = i + 1;
    }
    assert(ds.subrange(0, n - start) == ds);
    if overflow {
        None
    } else {
        Some(acc)
    }
}

/// One answer of the server to a progressive fetch.
#[derive(Debug, Clone, PartialEq)]
pub struct LogChunk {
    /// The new text, shown as it is.
    pub text: String,
    /// The offset to ask from next.
    pub next_offset: usize,
    /// The build is still writing output.
    pub more_data: bool,
}

/// The mathematical content of a server answer.
pub struct LogReply {
    pub chunk: Seq<char>,
    pub next_offset: nat,
    pub more_data: bool,
}

impl View for LogChunk {
    type V = LogReply;

    open spec fn view(&self) -> LogReply {
        LogReply { chunk: self.text@, next_offset: self.next_offset as nat, more_data: self.more_data }
    }
}

/// Reads a progressive answer: more text is to come exactly when the
/// more-data header reads `true`; the next offset is the text-size header,
/// or the offset asked from when that header is absent or not a count.
pub fn progressive_chunk(
    text: String,
    more_data_header: Option<&str>,
    text_size_header: Option<&str>,
    start: usize,
) -> (r: LogChunk)
    ensures
        r.text@ == text@,
        r.more_data == match more_data_header {
            Some(h) => h@ == "true"@,
            None => false,
        },
        r.next_offset == match text_size_header {
            Some(h) => match decimal_value(h@) {
                Some(v) => if v <= usize::MAX {
                    v as usize
                } else {
                    start
                },
                None => start,
            },
            None => start,
        },
{
    let more_data = match more_data_header {
        Some(h) => str_eq(h, "true"),
        None => false,
    };
    let next_offset = match text_size_header {
        Some(h) => match parse_count(h) {
            Some(v) => v,
            None => start,
        },
        None => start,
    };
    LogChunk { text, next_offset, more_data }
}

/// Where a stream stands: the offset to ask from, whether it has ended,
/// and all the text shown so far.
pub struct FollowState {
    pub offset: nat,
    pub finished: bool,
    pub shown: Seq<char>,
}

/// The state before the first fetch.
pub open spec fn follow_start() -> FollowState {
    FollowState { offset: 0, finished: false, shown: Seq::empty() }
}

/// The state after one answer; an ended stream takes no more answers.
pub open spec fn follow_step(s: FollowState, r: LogReply) -> FollowState {
    if s.finished {
        s
    } else {
        FollowState { offset: r.next_offset, finished: !r.more_data, shown: s.shown + r.chunk }
    }
}

/// The state after a series of answers, in order.
pub open spec fn follow_all(rs: Seq<LogReply>) -> FollowState
    decreases rs.len(),
{
    if rs.len() == 0 {
        follow_start()
    } else {
        follow_step(follow_all(rs.drop_last()), rs.last())
    }
}

/// The offset that the `i`-th fetch asks from.
pub open spec fn offset_before(rs: Seq<LogReply>, i: int) -> nat {
    if i == 0 {
        0
    } else {
        rs[i - 1].next_offset
    }
}

/// The answers are those of a server holding the log `full`: each chunk is
/// the log from the offset asked from to the next offset, which never lies
/// before it.
pub open spec fn answers_from_log(rs: Seq<LogReply>, full: Seq<char>) -> bool {
    forall|i: int|
        0 <= i < rs.len() ==> {
            &&& offset_before(rs, i) <= (#[trigger] rs[i]).next_offset <= full.len()
            &&& rs[i].chunk == full.subrange(offset_before(rs, i) as int, rs[i].next_offset as int)
        }
}

/// When a server holding the log `full` answers a stream that ends on its
/// last answer, the chunks shown, put together in order, are the log up to
/// the last offset, with nothing shown twice or left out; the stream has
/// ended exactly when the last answer says no more is to come.
pub proof fn lemma_stream_reassembles_log(rs: Seq<LogReply>, full: Seq<char>)
    requires
        rs.len() > 0,
        answers_from_log(rs, full),
        forall|i: int| 0 <= i < rs.len() - 1 ==> (#[trigger] rs[i]).more_data,
    ensures
        follow_all(rs).shown == full.subrange(0, rs.last().next_offset as int),
        follow_all(rs).offset == rs.last().next_offset,
        follow_all(rs).finished == !rs.last().more_data,
    decreases rs.len(),
{
    let prev = rs.drop_last();
    let last = rs.last();
    if prev.len() == 0 {
        assert(offset_before(rs, 0) == 0);
        assert(rs[0].chunk == full.subrange(0, rs[0].next_offset as int));
        assert(follow_all(prev) == follow_start());
        assert(follow_all(rs).shown =~= full.subrange(0, last.next_offset as int));
    } else {
        assert forall|i: int| 0 <= i < prev.len() implies {
            &&& offset_before(prev, i) <= (#[trigger] prev[i]).next_offset <= full.len()
            &&& prev[i].chunk == full.subrange(
                offset_before(prev, i) as int,
                prev[i].next_offset as int,
            )
        } by {
            assert(prev[i] == rs[i]);
            assert(rs[i].next_offset <= full.len());
            if i > 0 {
                assert(prev[i - 1] == rs[i - 1]);
            }
        }
        assert forall|i: int| 0 <= i < prev.len() - 1 implies (#[trigger] prev[i]).more_data by {
            assert(prev[i] == rs[i]);
        }
        lemma_stream_reassembles_log(prev, full);
        let k = rs.len() - 1;
        assert(prev.last() == rs[k - 1]);
        assert(rs[k - 1].more_data);
        assert(offset_before(rs, k) == rs[k - 1].next_offset);
        assert(rs[k] == last);
        assert(rs[k].next_offset <= full.len());
        assert(full.subrange(0, rs[k - 1].next_offset as int) + full.subrange(
            rs[k - 1].next_offset as int,
            last.next_offset as int,
        ) =~= full.subrange(0, last.next_offset as int));
    }
}

/// Against a server holding a log, the offset asked from never decreases
/// from one fetch to a later one.
pub proof fn lemma_stream_offsets_never_decrease(rs: Seq<LogReply>, full: Seq<char>, i: int, j: int)
    requires
        answers_from_log(rs, full),
        0 <= i <= j < rs.len(),
    ensures
        offset_before(rs, i) <= offset_before(rs, j),
    decreases j - i,
{
    if i < j {
        lemma_stream_offsets_never_decrease(rs, full, i, j - 1);
        assert(offset_before(rs, j - 1) <= rs[j - 1].next_offset);
    }
}

/// Whatever the answers, a stream ends on the first answer that says no
/// more is to come: it is still open before that answer, ended after it,
/// and later answers change nothing.
pub proof fn lemma_stream_stops_at_first_final(rs: Seq<LogReply>, k: int)
    requires
        0 <= k < rs.len(),
        !rs[k].more_data,
        forall|i: int| 0 <= i < k ==> (#[trigger] rs[i]).more_data,
    ensures
        forall|j: int| 0 <= j <= k ==> !(#[trigger] follow_all(rs.subrange(0, j))).finished,
        follow_all(rs.subrange(0, k + 1)).finished,
        follow_all(rs) == follow_all(rs.subrange(0, k + 1)),
    decreases rs.len(),
{
    assert forall|j: int| 0 <= j <= k implies !(#[trigger] follow_all(
        rs.subrange(0, j),
    )).finished by {
        lemma_open_before(rs, k, j);
    }
    lemma_open_before(rs, k, k);
    assert(rs.subrange(0, k + 1).drop_last() == rs.subrange(0, k));
    lemma_ended_stays(rs, k + 1);
}

proof fn lemma_open_before(rs: Seq<LogReply>, k: int, j: int)
    requires
        0 <= j <= k < rs.len(),
        forall|i: int| 0 <= i < k ==> (#[trigger] rs[i]).more_data,
    ensures
        !follow_all(rs.subrange(0, j)).finished,
    decreases j,
{
    if j > 0 {
        lemma_open_before(rs, k, j - 1);
        assert(rs.subrange(0, j).drop_last() == rs.subrange(0, j - 1));
        assert(rs.subrange(0, j).last() == rs[j - 1]);
    }
}

proof fn lemma_ended_stays(rs: Seq<LogReply>, m: int)
    requires
        0 < m <= rs.len(),
        follow_all(rs.subrange(0, m)).finished,
    ensures
        follow_all(rs) == follow_all(rs.subrange(0, m)),
    decreases rs.len(),
{
    if rs.len() == m {
        assert(rs.subrange(0, m) == rs);
    } else {
        let prev = rs.drop_last();
        assert(prev.subrange(0, m) == rs.subrange(0, m));
        lemma_ended_stays(prev, m);
    }
}

/// The state of one stream.
pub struct LogFollower {
    offset: usize,
    finished: bool,
    shown: Ghost<Seq<char>>,
}

impl View for LogFollower {
    type V = FollowState;

    closed spec fn view(&self) -> FollowState {
        FollowState { offset: self.offset as nat, finished: self.finished, shown: self.shown@ }
    }
}

impl LogFollower {
    /// A stream that asks from offset zero.
    pub fn new() -> (r: LogFollower)
        ensures
            r@ == follow_start(),
    {
        LogFollower { offset: 0, finished: false, shown: Ghost(Seq::empty()) }
    }

    /// The offset to ask from, while the stream has not ended.
    pub fn next_fetch(&self) -> (r: Option<usize>)
        ensures
            self@.finished ==> r is None,
            !self@.finished ==> r == Some(self@.offset as usize),
    {
        if self.finished {
            None
        } else {
            Some(self.offset)
        }
    }

    /// The stream has ended.
    pub fn is_finished(&self) -> (r: bool)
        ensures
            r == self@.finished,
    {
        self.finished
    }

    /// Takes one answer: the offset moves to the one the server gave, even
    /// for an empty chunk, and the stream ends when no more is to come.
    pub fn accept(&mut self, chunk: &LogChunk) -> (ended: bool)
        requires
            !old(self)@.finished,
        ensures
            final(self)@ == follow_step(old(self)@, chunk@),
            ended == !chunk.more_data,
    {
        self.offset = chunk.next_offset;
        self.finished = !chunk.more_data;
        self.shown = Ghost(self.shown@ + chunk.text@);
        !chunk.more_data
    }

    /// Ends the stream after a failed fetch; nothing is retried.
    pub fn fail(&mut self)
        ensures
            final(self)@.finished,
            final(self)@.offset == old(self)@.offset,
            final(self)@.shown == old(self)@.shown,
    {
        self.finished = true;
    }
}

} // verus!
