//! Rate limiting for what is relayed to the chat channel: a batcher that
//! gathers chat lines between two sends, and a throttle for error reports.
//!
//! Points in time are milliseconds on any clock that does not run backwards.

use vstd::prelude::*;

verus! {

/// One chat line waiting to be sent.
pub struct CachedChat {
    pub name: String,
    pub message: String,
}

/// The state of a `ChatRelayBatcher`: when it last sent, how long it waits
/// between sends, and the lines it holds back as pairs of name and message.
pub ghost struct Batch {
    pub last_flush: int,
    pub min_interval: int,
    pub pending: Seq<(Seq<char>, Seq<char>)>,
}

/// One chat line as it is shown: on a line of its own, the name in bold
/// between angle brackets, then the message.
pub open spec fn entry_text(name: Seq<char>, message: Seq<char>) -> Seq<char> {
    "\n<**"@ + name + "**> "@ + message
}

/// The text of a batch: its lines in order of arrival.
pub open spec fn batch_text(entries: Seq<(Seq<char>, Seq<char>)>) -> Seq<char>
    decreases entries.len(),
{
    if entries.len() == 0 {
        Seq::<char>::empty()
    } else {
        batch_text(entries.drop_last()) + entry_text(entries.last().0, entries.last().1)
    }
}

/// What `submit` does to a batch at time `now`. If more than the minimum
/// interval has passed since the last send, everything held back goes out
/// together with the new line as one text, and the batch is empty again.
/// Otherwise nothing goes out and the new line is held back.
pub open spec fn submitted(b: Batch, now: int, name: Seq<char>, message: Seq<char>) -> (
    Batch,
    Option<Seq<char>>,
) {
    if now - b.last_flush > b.min_interval {
        (
            Batch { last_flush: now, min_interval: b.min_interval, pending: Seq::empty() },
            Some(batch_text(b.pending.push((name, message)))),
        )
    } else {
        (
            Batch {
                last_flush: b.last_flush,
                min_interval: b.min_interval,
                pending: b.pending.push((name, message)),
            },
            None,
        )
    }
}

/// Gathers chat lines that arrive in quick succession into one message.
///
/// Lines held back go out only with the next line that arrives late enough:
/// nothing sends them on its own after a while.
pub struct ChatRelayBatcher {
    last_flush: i64,
    min_interval: i64,
    pending: Vec<CachedChat>,
}

impl View for ChatRelayBatcher {
    type V = Batch;

    closed spec fn view(&self) -> Batch {
        Batch {
            last_flush: self.last_flush as int,
            min_interval: self.min_interval as int,
            pending: Seq::new(
                self.pending@.len(),
                |i: int| (self.pending@[i].name@, self.pending@[i].message@),
            ),
        }
    }
}

impl ChatRelayBatcher {
    /// A batcher that holds nothing and counts its interval from `now`.
    pub fn new(now: i64, min_interval: i64) -> (r: ChatRelayBatcher)
        ensures
            r@ == (Batch { last_flush: now as int, min_interval: min_interval as int, pending: Seq::empty() }),
    {
        let r = ChatRelayBatcher { last_flush: now, min_interval, pending: Vec::new() };
        assert(r@.pending =~= Seq::empty());
        r
    }

    /// How many lines are held back.
    pub fn pending_len(&self) -> (r: usize)
        ensures
            r == self@.pending.len(),
    {
        self.pending.len()
    }

    /// The text of everything held back.
    fn pending_text(&self) -> (r: String)
        ensures
            r@ == batch_text(self@.pending),
    {
        let mut text = String::new();
        let mut i: usize = 0;
        assert(self@.pending.subrange(0, 0) =~= Seq::empty());
        while i < self.pending.len()
            invariant
                i <= self.pending.len(),
                text@ == batch_text(self@.pending.subrange(0, i as int)),
            decreases self.pending.len() - i,
        {
            let ghost before = text@;
            let entry = &self.pending[i];
            text.append("\n<**");
            text.append(entry.name.as_str());
            text.append("**> ");
            text.append(entry.message.as_str());
            i = i + 1;
            proof {
                let now = self@.pending.subrange(0, i as int);
                assert(now.drop_last() =~= self@.pending.subrange(0, i - 1));
                assert(now.last() == (entry.name@, entry.message@));
                assert(text@ =~= before + entry_text(entry.name@, entry.message@));
            }
        }
        assert(self@.pending.subrange(0, self.pending.len() as int) =~= self@.pending);
        text
    }

    /// Takes in one chat line at time `now`. Returns the text to send, if
    /// this is the moment to send.
    pub fn submit(&mut self, now: i64, name: String, message: String) -> (r: Option<String>)
        ensures
            final(self)@ == submitted(old(self)@, now as int, name@, message@).0,
            match submitted(old(self)@, now as int, name@, message@).1 {
                Some(text) => r is Some && r->0@ == text,
                None => r is None,
            },
    {
        let ghost held = self@.pending;
        if now as i128 - self.last_flush as i128 > self.min_interval as i128 {
            let mut text = self.pending_text();
            text.append("\n<**");
            text.append(name.as_str());
            text.append("**> ");
            text.append(message.as_str());
            self.pending.clear();
            self.last_flush = now;
            proof {
                assert(held.push((name@, message@)).drop_last() =~= held);
                assert(text@ =~= batch_text(held) + entry_text(name@, message@));
                assert(self@.pending =~= Seq::empty());
            }
            Some(text)
        } else {
            self.pending.push(CachedChat { name, message });
            assert(self@.pending =~= held.push((name@, message@)));
            None
        }
    }
}

/// Three lines, the first two early and the third late, go out as one text
/// that holds all three in order of arrival: the first two sends nothing,
/// the third sends exactly that text and leaves nothing behind.
pub proof fn lemma_batch_of_three(
    b: Batch,
    t1: int,
    t2: int,
    t3: int,
    e1: (Seq<char>, Seq<char>),
    e2: (Seq<char>, Seq<char>),
    e3: (Seq<char>, Seq<char>),
)
    requires
        b.pending.len() == 0,
        t1 - b.last_flush <= b.min_interval,
        t2 - b.last_flush <= b.min_interval,
        t3 - b.last_flush > b.min_interval,
    ensures
        ({
            let s1 = submitted(b, t1, e1.0, e1.1);
            let s2 = submitted(s1.0, t2, e2.0, e2.1);
            let s3 = submitted(s2.0, t3, e3.0, e3.1);
            &&& s1.1 is None
            &&& s2.1 is None
            &&& s3.1 == Some(
                entry_text(e1.0, e1.1) + entry_text(e2.0, e2.1) + entry_text(e3.0, e3.1),
            )
            &&& s3.0.pending.len() == 0
            &&& s3.0.last_flush == t3
        }),
{
    let all = b.pending.push(e1).push(e2).push(e3);
    assert(all.drop_last() =~= b.pending.push(e1).push(e2));
    assert(all.drop_last().drop_last() =~= b.pending.push(e1));
    assert(all.drop_last().drop_last().drop_last() =~= b.pending);
    assert(batch_text(b.pending) =~= Seq::<char>::empty());
    assert(batch_text(b.pending.push(e1)) =~= entry_text(e1.0, e1.1)) by {
        assert(b.pending.push(e1).drop_last() =~= b.pending);
    }
    assert(batch_text(all.drop_last()) =~= entry_text(e1.0, e1.1) + entry_text(e2.0, e2.1));
    assert(batch_text(all) =~= entry_text(e1.0, e1.1) + entry_text(e2.0, e2.1) + entry_text(
        e3.0,
        e3.1,
    ));
}

/// A line that comes early sends nothing and is kept behind those already
/// held back; the time of the last send stays as it was.
pub proof fn lemma_early_lines_wait(b: Batch, now: int, name: Seq<char>, message: Seq<char>)
    requires
        now - b.last_flush <= b.min_interval,
    ensures
        submitted(b, now, name, message).1 is None,
        submitted(b, now, name, message).0.pending == b.pending.push((name, message)),
        submitted(b, now, name, message).0.last_flush == b.last_flush,
{
}

/// The state of an `ErrorThrottle`: when an error was last reported and how
/// long to keep quiet after a report.
pub ghost struct Quiet {
    pub last_report: int,
    pub min_interval: int,
}

/// Whether an error that arrives at `now` is reported: when at least the
/// minimum interval has passed since the last report.
pub open spec fn is_due(q: Quiet, now: int) -> bool {
    now - q.last_report >= q.min_interval
}

/// Keeps error reports from flooding the chat channel.
pub struct ErrorThrottle {
    last_report: i64,
    min_interval: i64,
}

impl View for ErrorThrottle {
    type V = Quiet;

    closed spec fn view(&self) -> Quiet {
        Quiet { last_report: self.last_report as int, min_interval: self.min_interval as int }
    }
}

impl ErrorThrottle {
    /// A throttle that counts its interval from `now`.
    pub fn new(now: i64, min_interval: i64) -> (r: ErrorThrottle)
        ensures
            r@ == (Quiet { last_report: now as int, min_interval: min_interval as int }),
    {
        ErrorThrottle { last_report: now, min_interval }
    }

    /// Decides whether an error that arrives at `now` is reported, and
    /// remembers the report.
    pub fn admit_report(&mut self, now: i64) -> (r: bool)
        ensures
            r == is_due(old(self)@, now as int),
            final(self)@.min_interval == old(self)@.min_interval,
            final(self)@.last_report == if r {
                now as int
            } else {
                old(self)@.last_report
            },
    {
        if now as i128 - self.last_report as i128 >= self.min_interval as i128 {
            self.last_report = now;
            true
        } else {
            false
        }
    }
}

} // verus!
