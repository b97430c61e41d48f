use vstd::prelude::*;

verus! {

/// Items waiting to be taken in by the actor task, in the order they came.
/// The task takes them all at once, so none waits behind a busy channel.
pub struct InjectQueue<S> {
    pending: Vec<S>,
}

impl<S> View for InjectQueue<S> {
    type V = Seq<S>;

    closed spec fn view(&self) -> Seq<S> {
        self.pending@
    }
}

impl<S> InjectQueue<S> {
    /// An empty queue.
    pub fn new() -> (q: InjectQueue<S>)
        ensures
            q@ == Seq::<S>::empty(),
    {
        InjectQueue { pending: Vec::new() }
    }

    /// Adds an item behind those already waiting.
    pub fn push(&mut self, i: S)
        ensures
            final(self)@ == old(self)@.push(i),
    {
        self.pending.push(i);
    }

    /// Takes every waiting item, in the order they came, and leaves the
    /// queue empty.
    pub fn drain(&mut self) -> (out: Vec<S>)
        ensures
            out@ == old(self)@,
            final(self)@ == Seq::<S>::empty(),
    {
        let mut out: Vec<S> = Vec::new();
        std::mem::swap(&mut out, &mut self.pending);
        out
    }
}

/// What a drain hands over after pushes onto an empty queue: every pushed
/// item, in push order, and nothing else.
pub proof fn lemma_drain_gives_pushes<S>(before: Seq<S>, pushed: Seq<S>)
    ensures
        pushed.fold_left(before, |acc: Seq<S>, x: S| acc.push(x)) == before + pushed,
    decreases pushed.len(),
{
    if pushed.len() == 0 {
        assert(before + pushed =~= before);
    } else {
        let init = pushed.drop_last();
        lemma_drain_gives_pushes(before, init);
        assert(before + init.push(pushed.last()) =~= (before + init).push(pushed.last()));
        assert(init.push(pushed.last()) =~= pushed);
    }
}

} // verus!
