//! The sink's list of media, and the part of it the view shows.
use vstd::prelude::*;

verus! {

/// The media the sink has received, and the window of them it shows: `render_amount` media
/// from position `offset` on.
pub struct MediaListRust<T> {
    pub media: Vec<T>,
    pub offset: usize,
    pub total: usize,
    pub render_amount: usize,
}

/// The smaller of two numbers.
pub open spec fn min_of(a: int, b: int) -> int {
    if a <= b {
        a
    } else {
        b
    }
}

/// The larger of two numbers.
pub open spec fn max_of(a: int, b: int) -> int {
    if a >= b {
        a
    } else {
        b
    }
}

impl<T> MediaListRust<T> {
    /// An empty list that shows nothing.
    pub fn new() -> (r: MediaListRust<T>)
        ensures
            r.media@.len() == 0,
            r.offset == 0,
            r.total == 0,
            r.render_amount == 0,
    {
        MediaListRust { media: Vec::new(), offset: 0, total: 0, render_amount: 0 }
    }

    /// The positions of the media to show again: from `offset` up to `render_amount` media
    /// further, or to the end.  The offset must not lie past the end.
    pub fn rerender(&self) -> (r: (usize, usize))
        requires
            self.offset <= self.media@.len(),
            self.offset + self.render_amount <= usize::MAX,
        ensures
            r.0 == self.offset,
            r.1 == min_of(self.offset + self.render_amount, self.media@.len() as int),
            r.0 <= r.1 <= self.media@.len(),
    {
        let end = if self.offset + self.render_amount < self.media.len() {
            self.offset + self.render_amount
        } else {
            self.media.len()
        };
        (self.offset, end)
    }

    /// Takes a batch of media: they go to the end of the list, the total becomes the length
    /// the list had before the batch, and the answer is the range of positions of the new
    /// media that lie in the shown window (empty where none does).
    pub fn append_batch(&mut self, batch: Vec<T>) -> (r: (usize, usize))
        requires
            batch@.len() > 0 ==> old(self).offset + old(self).render_amount <= usize::MAX,
        ensures
            final(self).media@ == old(self).media@ + batch@,
            final(self).total == old(self).media@.len(),
            final(self).offset == old(self).offset,
            final(self).render_amount == old(self).render_amount,
            r.0 <= r.1,
            r.0 == max_of(old(self).media@.len() as int, old(self).offset as int),
            r.0 < r.1 ==> r.1 == min_of(
                final(self).media@.len() as int,
                old(self).offset + old(self).render_amount,
            ),
            forall|p: int|
                #![trigger final(self).media@[p]]
                old(self).media@.len() <= p < final(self).media@.len() ==> ((r.0 <= p < r.1) <==> (
                old(self).offset <= p < old(self).offset + old(self).render_amount)),
    {
        let len = self.media.len();
        let mut batch = batch;
        self.media.append(&mut batch);
        self.total = len;
        let new_len = self.media.len();
        let lo = if len > self.offset {
            len
        } else {
            self.offset
        };
        if new_len == len {
            return (lo, lo);
        }
        let window_end = self.offset + self.render_amount;
        let hi = if new_len < window_end {
            new_len
        } else {
            window_end
        };
        if lo < hi {
            (lo, hi)
        } else {
            (lo, lo)
        }
    }
}

} // verus!
