//! Bounded capture of a decoded stream for analysis: the rolling window of
//! the most recent samples and the window of the first samples, neither of
//! which ever holds more than its capacity.
use vstd::prelude::*;

use crate::error::AppError;

verus! {

/// Seconds of full-rate mono kept for energy analysis and the fallback
/// detectors.
pub const MONO_CAP_SECS: usize = 60;

/// The last `n` items of `s` (all of `s` when it is shorter).
pub open spec fn last_n<T>(s: Seq<T>, n: nat) -> Seq<T> {
    if s.len() <= n {
        s
    } else {
        s.subrange(s.len() - n, s.len() as int)
    }
}

/// The first `n` items of `s` (all of `s` when it is shorter).
pub open spec fn first_n<T>(s: Seq<T>, n: nat) -> Seq<T> {
    if s.len() <= n {
        s
    } else {
        s.take(n as int)
    }
}

/// Keeps the most recent samples of a stream, at most `capacity` of them.
pub struct RecentWindow<T> {
    buf: Vec<T>,
    cap: usize,
}

impl<T> View for RecentWindow<T> {
    type V = Seq<T>;

    closed spec fn view(&self) -> Seq<T> {
        self.buf@
    }
}

impl<T: Copy> RecentWindow<T> {
    /// How many samples the window keeps at most.
    pub closed spec fn capacity(&self) -> nat {
        self.cap as nat
    }

    /// An empty window of the given capacity.
    pub fn new(capacity: usize) -> (w: Self)
        ensures
            w@ == Seq::<T>::empty(),
            w.capacity() == capacity,
    {
        RecentWindow { buf: Vec::new(), cap: capacity }
    }

    /// Appends a chunk and forgets the oldest samples beyond the capacity.
    pub fn extend(&mut self, chunk: &[T])
        ensures
            final(self).capacity() == old(self).capacity(),
            final(self)@ == last_n(old(self)@ + chunk@, old(self).capacity()),
            final(self)@.len() <= final(self).capacity(),
            final(self)@.len() == if old(self)@.len() + chunk@.len() <= old(self).capacity() {
                old(self)@.len() + chunk@.len()
            } else {
                old(self).capacity()
            },
            forall|i: int|
                0 <= i < final(self)@.len() ==> #[trigger] final(self)@[i] == (old(self)@
                    + chunk@)[old(self)@.len() + chunk@.len() - final(self)@.len() + i],
    {
        let mut i: usize = 0;
        while i < chunk.len()
            invariant
                i <= chunk.len(),
                self.cap == old(self).cap,
                self.buf@ == old(self).buf@ + chunk@.take(i as int),
            decreases chunk.len() - i,
        {
            self.buf.push(chunk[i]);
            assert(chunk@.take(i as int + 1) =~= chunk@.take(i as int).push(chunk@[i as int]));
            i = i + 1;
        }
        assert(chunk@.take(i as int) =~= chunk@);
        if self.buf.len() > self.cap {
            let drop = self.buf.len() - self.cap;
            let kept = self.buf.split_off(drop);
            self.buf = kept;
        }
    }

    /// The samples held, oldest first.
    pub fn as_slice(&self) -> (s: &[T])
        ensures
            s@ == self@,
    {
        self.buf.as_slice()
    }

    /// How many samples are held.
    pub fn len(&self) -> (n: usize)
        ensures
            n == self@.len(),
    {
        self.buf.len()
    }
}

/// Keeps the first samples of a stream, at most `capacity` of them.
pub struct LeadingWindow<T> {
    buf: Vec<T>,
    cap: usize,
}

impl<T> View for LeadingWindow<T> {
    type V = Seq<T>;

    closed spec fn view(&self) -> Seq<T> {
        self.buf@
    }
}

impl<T> LeadingWindow<T> {
    /// The window never holds more than its capacity.
    #[verifier::type_invariant]
    spec fn within_capacity(&self) -> bool {
        self.buf@.len() <= self.cap
    }
}

impl<T: Copy> LeadingWindow<T> {
    /// How many samples the window keeps at most.
    pub closed spec fn capacity(&self) -> nat {
        self.cap as nat
    }

    /// An empty window of the given capacity.
    pub fn new(capacity: usize) -> (w: Self)
        ensures
            w@ == Seq::<T>::empty(),
            w.capacity() == capacity,
    {
        LeadingWindow { buf: Vec::new(), cap: capacity }
    }

    /// Appends as much of the chunk as still fits; the rest is dropped.
    pub fn extend(&mut self, chunk: &[T])
        ensures
            final(self).capacity() == old(self).capacity(),
            final(self)@ == first_n(old(self)@ + chunk@, old(self).capacity()),
            final(self)@.len() <= final(self).capacity(),
            final(self)@.len() == if old(self)@.len() + chunk@.len() <= old(self).capacity() {
                old(self)@.len() + chunk@.len()
            } else {
                old(self).capacity()
            },
            forall|i: int|
                0 <= i < final(self)@.len() ==> #[trigger] final(self)@[i] == (old(self)@
                    + chunk@)[i],
    {
        proof {
            use_type_invariant(&*self);
        }
        if self.buf.len() < self.cap {
            let room = self.cap - self.buf.len();
            let take = if room < chunk.len() { room } else { chunk.len() };
            let mut buf: Vec<T> = Vec::new();
            std::mem::swap(&mut buf, &mut self.buf);
            let mut i: usize = 0;
            while i < take
                invariant
                    i <= take,
                    take <= chunk.len(),
                    take == if room < chunk.len() { room } else { chunk.len() },
                    room == old(self).cap - old(self).buf@.len(),
                    buf@ == old(self).buf@ + chunk@.take(i as int),
                decreases take - i,
            {
                buf.push(chunk[i]);
                assert(chunk@.take(i as int + 1) =~= chunk@.take(i as int).push(chunk@[i as int]));
                i = i + 1;
            }
            self.buf = buf;
            assert(self.buf@ =~= first_n(old(self)@ + chunk@, old(self).capacity()));
        } else {
            assert(self.buf@ =~= first_n(old(self)@ + chunk@, old(self).capacity()));
        }
    }

    /// The samples held, first sample first.
    pub fn as_slice(&self) -> (s: &[T])
        ensures
            s@ == self@,
    {
        self.buf.as_slice()
    }

    /// How many samples are held.
    pub fn len(&self) -> (n: usize)
        ensures
            n == self@.len(),
    {
        self.buf.len()
    }
}

/// Feeding a stream chunk by chunk into a recent-samples window leaves what
/// feeding it all at once would: the last `n` samples of the whole stream.
pub proof fn law_recent_window_keeps_stream_tail<T>(s: Seq<T>, t: Seq<T>, n: nat)
    ensures
        last_n(last_n(s, n) + t, n) =~= last_n(s + t, n),
        last_n(s, n).len() <= n,
{
}

/// Feeding a stream chunk by chunk into a leading-samples window leaves what
/// feeding it all at once would: the first `n` samples of the whole stream.
pub proof fn law_leading_window_keeps_stream_head<T>(s: Seq<T>, t: Seq<T>, n: nat)
    ensures
        first_n(first_n(s, n) + t, n) =~= first_n(s + t, n),
        first_n(s, n).len() <= n,
{
}

/// The recent window keeps exactly as many samples as the stream has, up to
/// its capacity, and they are the stream's last ones in order.
pub proof fn law_recent_window_holds_min_of_stream_and_capacity<T>(s: Seq<T>, n: nat)
    ensures
        last_n(s, n).len() == if s.len() <= n { s.len() } else { n },
        forall|i: int|
            0 <= i < last_n(s, n).len() ==> #[trigger] last_n(s, n)[i] == s[s.len() - last_n(
                s,
                n,
            ).len() + i],
{
}

/// The leading window keeps exactly as many samples as the stream has, up
/// to its capacity, and they are the stream's first ones in order.
pub proof fn law_leading_window_holds_min_of_stream_and_capacity<T>(s: Seq<T>, n: nat)
    ensures
        first_n(s, n).len() == if s.len() <= n { s.len() } else { n },
        forall|i: int| 0 <= i < first_n(s, n).len() ==> #[trigger] first_n(s, n)[i] == s[i],
{
}

/// How many samples the recent window keeps for a stream at `rate` Hz.
pub fn recent_capacity(rate: u32) -> (cap: usize)
    requires
        MONO_CAP_SECS * rate <= usize::MAX,
    ensures
        cap == MONO_CAP_SECS * rate,
{
    MONO_CAP_SECS * (rate as usize)
}

/// The cancel decision, taken before every decoded chunk and once after the
/// last: a set cancel flag aborts the analysis with `Other("cancelled")`, a
/// clear one lets it go on.
pub fn cancel_step(cancelled: bool) -> (r: Result<(), AppError>)
    ensures
        r is Ok <==> !cancelled,
        r matches Err(e) ==> e matches AppError::Other(m) && m@ == "cancelled"@,
{
    if cancelled {
        return Err(AppError::Other(String::from_str("cancelled")));
    }
    Ok(())
}

/// An analysis configuration with a zero hop, key rate or energy window is
/// refused.
pub fn check_analysis_config(tempo_hop: usize, key_rate: u32, energy_window_ms: u32) -> (r: Result<
    (),
    AppError,
>)
    ensures
        r is Ok <==> (tempo_hop != 0 && key_rate != 0 && energy_window_ms != 0),
        r matches Err(e) ==> e matches AppError::Analysis(m) && m@
            == "invalid analysis config (zero hop/rate/window)"@,
{
    if tempo_hop == 0 || key_rate == 0 || energy_window_ms == 0 {
        return Err(
            AppError::Analysis(String::from_str("invalid analysis config (zero hop/rate/window)")),
        );
    }
    Ok(())
}

} // verus!
