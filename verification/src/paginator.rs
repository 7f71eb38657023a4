//! The cursor paginator: a three-state machine driving an interactive paged
//! listing.
//!
//! The caller performs each fetch and reads each line of operator input; the
//! machine decides, from the response's next-page cursor and the operator's
//! line, whether another fetch follows. A cursor that is absent or the empty
//! string means "no more pages" — the one canonical rule, whichever of the two
//! a list endpoint answers with. The machine never re-issues a superseded
//! cursor: each page's cursor replaces the previous one.

use vstd::prelude::*;

verus! {

/// Where the pager stands.
#[derive(Debug, Clone, Copy, PartialEq, Eq, Structural)]
pub enum PagerState {
    /// The next fetch should be issued with the held cursor.
    Fetching,
    /// A page was shown and one line of operator input is awaited.
    AwaitingInput,
    /// No further fetch will be issued.
    Done,
}

/// What one line of operator input asks for.
#[derive(Debug, Clone, Copy, PartialEq, Eq, Structural)]
pub enum InputOutcome {
    /// A bare Enter: clear the screen and fetch the next page.
    Continue,
    /// A `q`: stop paging.
    Quit,
    /// Anything else: announce the invalid input and stop paging.
    Invalid,
}

/// Whether a next-page cursor asks for another fetch: present and non-empty.
pub open spec fn spec_has_more(c: Option<String>) -> bool {
    c is Some && c->0@.len() > 0
}

/// Whether a next-page cursor asks for another fetch.
pub fn has_more(c: &Option<String>) -> (r: bool)
    ensures
        r == spec_has_more(*c),
{
    match c {
        Some(s) => !s.as_str().is_empty(),
        None => false,
    }
}

/// The whitespace an operator's line is trimmed of.
pub open spec fn is_ws(c: char) -> bool {
    c == ' ' || c == '\t' || c == '\n' || c == '\r'
}

/// The line with leading whitespace removed.
pub open spec fn spec_trim_front(s: Seq<char>) -> Seq<char>
    decreases s.len(),
{
    if s.len() > 0 && is_ws(s.first()) {
        spec_trim_front(s.drop_first())
    } else {
        s
    }
}

/// The line with trailing whitespace removed.
pub open spec fn spec_trim_back(s: Seq<char>) -> Seq<char>
    decreases s.len(),
{
    if s.len() > 0 && is_ws(s.last()) {
        spec_trim_back(s.drop_last())
    } else {
        s
    }
}

/// The line with whitespace removed at both ends.
pub open spec fn spec_trim(s: Seq<char>) -> Seq<char> {
    spec_trim_back(spec_trim_front(s))
}

/// What a line of operator input asks for, after trimming: nothing left means
/// continue, a lone `q` means quit, anything else is invalid.
pub open spec fn spec_classify(line: Seq<char>) -> InputOutcome {
    if spec_trim(line) =~= Seq::<char>::empty() {
        InputOutcome::Continue
    } else if spec_trim(line) =~= seq!['q'] {
        InputOutcome::Quit
    } else {
        InputOutcome::Invalid
    }
}

proof fn lemma_trim_front_skip(s: Seq<char>, i: int)
    requires
        0 <= i <= s.len(),
        forall|j: int| 0 <= j < i ==> is_ws(s[j]),
        i < s.len() ==> !is_ws(s[i]),
    ensures
        spec_trim_front(s) == s.skip(i),
    decreases i,
{
    if i == 0 {
        assert(s.skip(0) =~= s);
    } else {
        assert(is_ws(s.first()));
        lemma_trim_front_skip(s.drop_first(), i - 1);
        assert(s.drop_first().skip(i - 1) =~= s.skip(i));
    }
}

proof fn lemma_trim_back_take(s: Seq<char>, i: int)
    requires
        0 <= i <= s.len(),
        forall|j: int| i <= j < s.len() ==> is_ws(s[j]),
        i > 0 ==> !is_ws(s[i - 1]),
    ensures
        spec_trim_back(s) == s.take(i),
    decreases s.len() - i,
{
    if i == s.len() {
        assert(s.take(i) =~= s);
    } else {
        assert(is_ws(s.last()));
        lemma_trim_back_take(s.drop_last(), i);
        assert(s.drop_last().take(i) =~= s.take(i));
    }
}

/// Classify one line of operator input, exactly as `spec_classify` reads it.
pub fn classify_input(line: &str) -> (r: InputOutcome)
    ensures
        r == spec_classify(line@),
{
    let n = line.unicode_len();
    let mut lo: usize = 0;
    let mut found_start = false;
    while !found_start && lo < n
        invariant
            n == line@.len(),
            lo <= n,
            forall|j: int| 0 <= j < lo ==> is_ws(line@[j]),
            found_start ==> lo < n && !is_ws(line@[lo as int]),
        decreases n - lo, (if found_start { 0int } else { 1int }),
    {
        let c = line.get_char(lo);
        if c == ' ' || c == '\t' || c == '\n' || c == '\r' {
            lo = lo + 1;
        } else {
            found_start = true;
        }
    }
    if !found_start {
        proof {
            lemma_trim_front_skip(line@, lo as int);
            assert(line@.skip(n as int) =~= Seq::<char>::empty());
        }
        return InputOutcome::Continue;
    }
    // line@[lo] is the first non-whitespace character.
    let mut hi: usize = n;
    let mut found_end = false;
    while !found_end && hi > lo + 1
        invariant
            n == line@.len(),
            lo < hi <= n,
            !is_ws(line@[lo as int]),
            forall|j: int| hi <= j < n ==> is_ws(line@[j]),
            found_end ==> !is_ws(line@[hi as int - 1]),
        decreases hi, (if found_end { 0int } else { 1int }),
    {
        let c = line.get_char(hi - 1);
        if c == ' ' || c == '\t' || c == '\n' || c == '\r' {
            hi = hi - 1;
        } else {
            found_end = true;
        }
    }
    // line@[hi - 1] is the last non-whitespace character: either hi - 1 == lo,
    // whose character is known not to be whitespace, or the loop stopped on it.
    proof {
        lemma_trim_front_skip(line@, lo as int);
        let t = line@.skip(lo as int);
        assert(forall|j: int| hi - lo <= j < t.len() ==> is_ws(t[j]));
        assert(!is_ws(t[hi - 1 - lo]));
        lemma_trim_back_take(t, hi - lo);
        assert(spec_trim(line@) =~= line@.subrange(lo as int, hi as int));
    }
    if hi == lo + 1 && line.get_char(lo) == 'q' {
        proof {
            assert(spec_trim(line@) =~= seq!['q']);
        }
        InputOutcome::Quit
    } else {
        proof {
            assert(spec_trim(line@).len() > 0);
            if spec_trim(line@) =~= seq!['q'] {
                assert(spec_trim(line@).len() == 1);
                assert(line@[lo as int] == 'q');
            }
        }
        InputOutcome::Invalid
    }
}

/// The pager: which fetch comes next, and how many were issued.
#[derive(Debug, Clone)]
pub struct Paginator {
    /// Where the machine stands.
    pub state: PagerState,
    /// The cursor the next fetch carries; each page's answer replaces it, so a
    /// superseded cursor is never re-issued.
    pub cursor: Option<String>,
    /// How many fetches were issued so far, successful or not.
    pub fetches: u64,
}

impl Paginator {
    /// A pager about to issue its first fetch with the caller-supplied cursor.
    pub fn new(cursor: Option<String>) -> (r: Paginator)
        ensures
            r.state == PagerState::Fetching,
            r.cursor == cursor,
            r.fetches == 0,
    {
        Paginator { state: PagerState::Fetching, cursor, fetches: 0 }
    }

    /// The machine after a fetched page handed back `next`: await input when
    /// the cursor asks for more, and finish otherwise.
    pub open spec fn spec_on_page(self, next: Option<String>) -> Paginator {
        Paginator {
            state: if spec_has_more(next) {
                PagerState::AwaitingInput
            } else {
                PagerState::Done
            },
            cursor: next,
            fetches: (self.fetches + 1) as u64,
        }
    }

    /// Record a fetched page and its next-page cursor. The page itself has
    /// already been rendered by the caller; only the cursor drives the machine.
    pub fn on_page(&mut self, next_cursor: Option<String>)
        requires
            old(self).state == PagerState::Fetching,
            old(self).fetches < u64::MAX,
        ensures
            *final(self) == old(self).spec_on_page(next_cursor),
    {
        let more = has_more(&next_cursor);
        self.cursor = next_cursor;
        self.fetches = self.fetches + 1;
        self.state = if more {
            PagerState::AwaitingInput
        } else {
            PagerState::Done
        };
    }

    /// Record a failed fetch: the request was issued, and the pager aborts so
    /// the error can propagate with no retry.
    pub fn on_failure(&mut self)
        requires
            old(self).state == PagerState::Fetching,
            old(self).fetches < u64::MAX,
        ensures
            final(self).state == PagerState::Done,
            final(self).cursor == old(self).cursor,
            final(self).fetches == old(self).fetches + 1,
    {
        self.fetches = self.fetches + 1;
        self.state = PagerState::Done;
    }

    /// Consume one line of operator input: a bare Enter resumes fetching with
    /// the held cursor, and anything else ends the run.
    pub fn on_input(&mut self, line: &str) -> (r: InputOutcome)
        requires
            old(self).state == PagerState::AwaitingInput,
        ensures
            r == spec_classify(line@),
            final(self).state == if r is Continue {
                PagerState::Fetching
            } else {
                PagerState::Done
            },
            final(self).cursor == old(self).cursor,
            final(self).fetches == old(self).fetches,
    {
        let outcome = classify_input(line);
        self.state = match outcome {
            InputOutcome::Continue => PagerState::Fetching,
            InputOutcome::Quit => PagerState::Done,
            InputOutcome::Invalid => PagerState::Done,
        };
        outcome
    }
}

/// The machine run against a script of next-page cursors with the operator
/// always continuing: `cursors[i]` is what the `i`-th fetch answers.
pub open spec fn spec_run(p: Paginator, cursors: Seq<Option<String>>) -> Paginator
    decreases cursors.len(),
{
    if p.state != PagerState::Fetching || cursors.len() == 0 {
        p
    } else {
        let q = p.spec_on_page(cursors.first());
        let resumed = if q.state == PagerState::AwaitingInput {
            Paginator { state: PagerState::Fetching, cursor: q.cursor, fetches: q.fetches }
        } else {
            q
        };
        spec_run(resumed, cursors.drop_first())
    }
}

/// For any finite page script whose cursors all ask for more except the last,
/// a fetching pager whose operator always continues issues exactly one fetch
/// per page — the pages with a continuation cursor, plus the final one — and
/// ends done after the last fetch.
pub proof fn lemma_pagination_fetch_count(p: Paginator, cursors: Seq<Option<String>>)
    requires
        p.state == PagerState::Fetching,
        cursors.len() >= 1,
        p.fetches + cursors.len() <= u64::MAX,
        forall|i: int| 0 <= i < cursors.len() - 1 ==> spec_has_more(#[trigger] cursors[i]),
        !spec_has_more(cursors.last()),
    ensures
        spec_run(p, cursors).state == PagerState::Done,
        spec_run(p, cursors).fetches == p.fetches + cursors.len(),
    decreases cursors.len(),
{
    let q = p.spec_on_page(cursors.first());
    if cursors.len() == 1 {
        assert(cursors.first() == cursors.last());
        assert(q.state == PagerState::Done);
        assert(spec_run(q, cursors.drop_first()) == q);
    } else {
        assert(spec_has_more(cursors[0]));
        let resumed = Paginator {
            state: PagerState::Fetching,
            cursor: q.cursor,
            fetches: q.fetches,
        };
        let rest = cursors.drop_first();
        assert(rest.last() == cursors.last());
        assert(forall|i: int| 0 <= i < rest.len() - 1 ==> spec_has_more(#[trigger] rest[i]));
        lemma_pagination_fetch_count(resumed, rest);
    }
}

} // verus!
