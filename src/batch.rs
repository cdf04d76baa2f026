//! A row buffer for one table that asks to be flushed by size or by age.
use vstd::prelude::*;

verus! {

/// Buffered rows of one table, with the thresholds that make a flush due.
pub struct BatchBuffer<T> {
    rows: Vec<T>,
    max_rows: usize,
    max_age_ms: u64,
    last_flush_ms: u64,
}

impl<T> View for BatchBuffer<T> {
    type V = Seq<T>;

    /// The buffered rows, oldest first.
    closed spec fn view(&self) -> Seq<T> {
        self.rows@
    }
}

impl<T> BatchBuffer<T> {
    /// The row count at which a flush is due.
    pub closed spec fn max_rows(&self) -> nat {
        self.max_rows as nat
    }

    /// The time since the last flush, in milliseconds, at which a flush is due.
    pub closed spec fn max_age_ms(&self) -> nat {
        self.max_age_ms as nat
    }

    /// When the buffer was last flushed (or made), in milliseconds.
    pub closed spec fn last_flush_ms(&self) -> nat {
        self.last_flush_ms as nat
    }

    /// Whether a flush is due at `now_ms`: enough rows are buffered, or the
    /// last flush is old enough.
    pub open spec fn due_at(&self, now_ms: u64) -> bool {
        self@.len() >= self.max_rows() || now_ms >= self.last_flush_ms() + self.max_age_ms()
    }

    /// An empty buffer made at `now_ms`.
    pub fn new(max_rows: usize, max_age_ms: u64, now_ms: u64) -> (b: BatchBuffer<T>)
        ensures
            b@ == Seq::<T>::empty(),
            b.max_rows() == max_rows,
            b.max_age_ms() == max_age_ms,
            b.last_flush_ms() == now_ms,
    {
        BatchBuffer { rows: Vec::new(), max_rows, max_age_ms, last_flush_ms: now_ms }
    }

    /// How many rows are buffered.
    pub fn len(&self) -> (n: usize)
        ensures
            n == self@.len(),
    {
        self.rows.len()
    }

    /// Whether a flush is due at `now_ms`.
    pub fn is_due(&self, now_ms: u64) -> (r: bool)
        ensures
            r == self.due_at(now_ms),
    {
        self.rows.len() >= self.max_rows || (now_ms >= self.last_flush_ms && now_ms
            - self.last_flush_ms >= self.max_age_ms)
    }

    /// Appends a row; returns whether a flush is now due.
    pub fn write(&mut self, row: T, now_ms: u64) -> (due: bool)
        ensures
            final(self)@ == old(self)@.push(row),
            final(self).max_rows() == old(self).max_rows(),
            final(self).max_age_ms() == old(self).max_age_ms(),
            final(self).last_flush_ms() == old(self).last_flush_ms(),
            due == final(self).due_at(now_ms),
    {
        self.rows.push(row);
        self.is_due(now_ms)
    }

    /// Hands out every buffered row, oldest first, and empties the buffer.
    pub fn flush(&mut self, now_ms: u64) -> (rows: Vec<T>)
        ensures
            rows@ == old(self)@,
            final(self)@ == Seq::<T>::empty(),
            final(self).max_rows() == old(self).max_rows(),
            final(self).max_age_ms() == old(self).max_age_ms(),
            final(self).last_flush_ms() == now_ms,
    {
        let rows = self.rows.split_off(0);
        self.last_flush_ms = now_ms;
        rows
    }
}

} // verus!
