//! The panes of a tab, and how many there may be.

use vstd::prelude::*;

verus! {

/// The panes of a tab, oldest first, and how many of them may be on the screen.
pub struct Panes {
    limit: Option<usize>,
    ids: Vec<i32>,
}

/// Whether one more pane makes room for itself by closing one of `panes`.
pub open spec fn is_full(panes: Seq<i32>, limit: Option<usize>) -> bool {
    limit matches Some(max) && panes.len() >= max && panes.len() > 0
}

/// `panes` after one more was let in: where they are full, the oldest is gone.
pub open spec fn opened(panes: Seq<i32>, limit: Option<usize>, id: i32) -> Seq<i32> {
    if is_full(panes, limit) {
        panes.drop_first().push(id)
    } else {
        panes.push(id)
    }
}

impl View for Panes {
    type V = Seq<i32>;

    closed spec fn view(&self) -> Seq<i32> {
        self.ids@
    }
}

impl Panes {
    /// How many panes there may be; without a limit, any number.
    pub closed spec fn limit(self) -> Option<usize> {
        self.limit
    }

    /// There are no more panes than there may be. One pane is always let in.
    pub open spec fn within_limit(self) -> bool {
        self.limit() matches Some(max) ==> self@.len() <= max || self@.len() <= 1
    }

    /// No panes yet.
    pub fn new(limit: Option<usize>) -> (panes: Panes)
        ensures
            panes@ == Seq::<i32>::empty(),
            panes.limit() == limit,
            panes.within_limit(),
    {
        Panes { limit, ids: Vec::new() }
    }

    /// Lets the pane `id` in. Where that is one too many, the oldest pane goes, and
    /// is to be closed.
    pub fn open(&mut self, id: i32) -> (to_close: Option<i32>)
        ensures
            old(self).within_limit() ==> final(self).within_limit(),
            final(self).limit() == old(self).limit(),
            final(self)@ == opened(old(self)@, old(self).limit(), id),
            to_close == if is_full(old(self)@, old(self).limit()) {
                Some(old(self)@[0])
            } else {
                None::<i32>
            },
    {
        let full: bool = match self.limit {
            Some(max) => self.ids.len() >= max && self.ids.len() > 0,
            None => false,
        };
        if full {
            let oldest: i32 = self.ids.remove(0);
            self.ids.push(id);
            assert(self.ids@ =~= old(self)@.drop_first().push(id));
            Some(oldest)
        } else {
            self.ids.push(id);
            None
        }
    }

    /// Takes the pane `id` out, where it is there.
    pub fn close(&mut self, id: i32)
        ensures
            old(self).within_limit() ==> final(self).within_limit(),
            final(self).limit() == old(self).limit(),
            final(self)@ == old(self)@.filter(|other: i32| other != id),
    {
        let ghost keep = |other: i32| other != id;
        let mut kept: Vec<i32> = Vec::new();
        let mut next: usize = 0;
        while next < self.ids.len()
            invariant
                next <= self.ids.len(),
                keep == (|other: i32| other != id),
                kept@ == self.ids@.take(next as int).filter(keep),
                kept@.len() <= next,
            decreases self.ids.len() - next,
        {
            proof {
                reveal(Seq::filter);
                assert(self.ids@.take(next + 1).drop_last() =~= self.ids@.take(next as int));
            }
            if self.ids[next] != id {
                kept.push(self.ids[next]);
            }
            next = next + 1;
        }
        assert(self.ids@.take(next as int) =~= self.ids@);
        self.ids = kept;
    }

    /// The panes, oldest first.
    pub fn ids(&self) -> (ids: &Vec<i32>)
        ensures
            ids@ == self@,
    {
        &self.ids
    }
}

} // verus!
