//! The per-session output channel: chunks the backing process produced,
//! pending delivery to the client. First in, first out — delivery order
//! is production order, with no reordering anywhere between.

use vstd::prelude::*;
use std::collections::VecDeque;

verus! {

/// Output chunks produced by one session's process and not yet delivered,
/// oldest first. Its view is the sequence of pending chunk texts in
/// production order.
pub struct OutputStream {
    pending: VecDeque<String>,
}

impl View for OutputStream {
    type V = Seq<Seq<char>>;

    closed spec fn view(&self) -> Seq<Seq<char>> {
        self.pending@.map_values(|c: String| c@)
    }
}

impl OutputStream {
    /// A channel with nothing pending.
    pub fn new() -> (s: OutputStream)
        ensures
            s@ == Seq::<Seq<char>>::empty(),
    {
        let s = OutputStream { pending: VecDeque::new() };
        proof {
            assert(s@ =~= Seq::<Seq<char>>::empty());
        }
        s
    }

    /// How many chunks are pending.
    pub fn len(&self) -> (n: usize)
        ensures
            n == self@.len(),
    {
        self.pending.len()
    }

    /// Whether nothing is pending.
    pub fn is_empty(&self) -> (r: bool)
        ensures
            r == (self@.len() == 0),
    {
        self.pending.len() == 0
    }

    /// Record one chunk the process produced: it joins the back of the
    /// pending sequence, after everything produced before it.
    pub fn produce(&mut self, chunk: String)
        ensures
            final(self)@ == old(self)@.push(chunk@),
    {
        self.pending.push_back(chunk);
        proof {
            assert(final(self)@ =~= old(self)@.push(chunk@));
        }
    }

    /// Deliver the oldest pending chunk, exactly the first of the view;
    /// the rest keep their order. On an empty channel nothing changes.
    pub fn deliver(&mut self) -> (r: Option<String>)
        ensures
            old(self)@.len() == 0 ==> r == None::<String> && final(self)@ == old(self)@,
            old(self)@.len() > 0 ==> (r matches Some(c) && c@ == old(self)@[0] && final(self)@
                == old(self)@.drop_first()),
    {
        let r = self.pending.pop_front();
        proof {
            if old(self)@.len() > 0 {
                assert(final(self)@ =~= old(self)@.drop_first());
            }
        }
        r
    }

    /// Deliver everything pending: the chunks come out exactly as they
    /// were produced — same chunks, same order — and the channel is left
    /// empty. This is the shape of the whole output path: no reordering.
    pub fn deliver_all(&mut self) -> (r: Vec<String>)
        ensures
            final(self)@ == Seq::<Seq<char>>::empty(),
            r@.map_values(|c: String| c@) == old(self)@,
    {
        let mut r: Vec<String> = Vec::new();
        proof {
            assert(r@.map_values(|c: String| c@) + self@ =~= old(self)@);
        }
        loop
            invariant
                r@.map_values(|c: String| c@) + self@ =~= old(self)@,
            ensures
                self@.len() == 0,
                r@.map_values(|c: String| c@) + self@ =~= old(self)@,
            decreases self@.len(),
        {
            let next = self.deliver();
            match next {
                Some(c) => {
                    r.push(c);
                    proof {
                        assert(r@.map_values(|c: String| c@) + self@ =~= old(self)@);
                    }
                },
                None => {
                    break ;
                },
            }
        }
        proof {
            assert(self@ =~= Seq::<Seq<char>>::empty());
            assert(r@.map_values(|c: String| c@) =~= old(self)@);
        }
        r
    }
}

} // verus!
