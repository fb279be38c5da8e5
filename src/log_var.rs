use std::sync::Arc;
use vstd::prelude::*;

verus! {

/// Relies on `Arc::clone`: the result is another handle to the same allocation,
/// so as a value it is the handle that was cloned.
#[verifier::external_body]
fn share<V: ?Sized>(a: &Arc<V>) -> (r: Arc<V>)
    ensures
        r == *a,
{
    Arc::clone(a)
}

/// What one transaction attempt has done with one variable: read it, written
/// it, or both, and whether the read took place on a blocked (retrying) path.
///
/// The payload is a shared handle to an immutable value; a transaction manager
/// uses `LogVar<dyn Any + Send + Sync>`.
pub enum LogVar<V: ?Sized> {
    /// The variable has been read.
    Read(Arc<V>),
    /// The variable has been written and nothing depends on its original value:
    /// there is nothing to check for consistency.
    Write(Arc<V>),
    /// `ReadWrite(original, pending)`: read first, then written. Checked for
    /// consistency at commit.
    ReadWrite(Arc<V>, Arc<V>),
    /// Read on a blocked path: not checked for consistency, only blocked on.
    ReadObsolete(Arc<V>),
    /// `ReadObsoleteWrite(original, pending)`: read on a blocked path, then
    /// written. Not checked for consistency, only blocked on.
    ReadObsoleteWrite(Arc<V>, Arc<V>),
}

impl<V: ?Sized> LogVar<V> {
    /// The value that the attempt sees: its own pending write if there is one,
    /// else the value it read.
    pub open spec fn current(self) -> Arc<V> {
        match self {
            LogVar::Read(v) => v,
            LogVar::Write(w) => w,
            LogVar::ReadWrite(_, w) => w,
            LogVar::ReadObsolete(o) => o,
            LogVar::ReadObsoleteWrite(_, w) => w,
        }
    }

    /// The value that was read, if the variable was read at all.
    pub open spec fn original(self) -> Option<Arc<V>> {
        match self {
            LogVar::Read(v) => Some(v),
            LogVar::Write(_) => None,
            LogVar::ReadWrite(o, _) => Some(o),
            LogVar::ReadObsolete(o) => Some(o),
            LogVar::ReadObsoleteWrite(o, _) => Some(o),
        }
    }

    /// The entry after a read: a read on the current path clears the obsolete mark.
    pub open spec fn after_read(self) -> LogVar<V> {
        match self {
            LogVar::ReadObsolete(o) => LogVar::Read(o),
            LogVar::ReadObsoleteWrite(o, w) => LogVar::ReadWrite(o, w),
            _ => self,
        }
    }

    /// The entry after writing `w`: the original and the obsolete mark stay.
    pub open spec fn after_write(self, w: Arc<V>) -> LogVar<V> {
        match self {
            LogVar::Write(_) => LogVar::Write(w),
            LogVar::Read(o) => LogVar::ReadWrite(o, w),
            LogVar::ReadWrite(o, _) => LogVar::ReadWrite(o, w),
            LogVar::ReadObsolete(o) => LogVar::ReadObsoleteWrite(o, w),
            LogVar::ReadObsoleteWrite(o, _) => LogVar::ReadObsoleteWrite(o, w),
        }
    }

    /// The entry to block on when the attempt retries: the original alone, if any.
    pub open spec fn obsoleted(self) -> Option<LogVar<V>> {
        match self.original() {
            Some(o) => Some(LogVar::ReadObsolete(o)),
            None => None,
        }
    }

    /// Read a value and potentially upgrade the state.
    ///
    /// Returns the pair (value, original).
    pub fn read(&mut self) -> (r: (Arc<V>, Option<Arc<V>>))
        ensures
            r == (old(self).current(), old(self).original()),
            *final(self) == old(self).after_read(),
    {
        // Only the upgrading variants are replaced; the others stay as they are.
        let (val, upgraded) = match *self {
            LogVar::Read(ref r) => ((share(r), Some(share(r))), None),
            LogVar::Write(ref w) => ((share(w), None), None),
            LogVar::ReadWrite(ref o, ref w) => ((share(w), Some(share(o))), None),
            LogVar::ReadObsolete(ref o) => {
                ((share(o), Some(share(o))), Some(LogVar::Read(share(o))))
            },
            LogVar::ReadObsoleteWrite(ref o, ref w) => {
                ((share(w), Some(share(o))), Some(LogVar::ReadWrite(share(o), share(w))))
            },
        };
        if let Some(next) = upgraded {
            *self = next;
        }
        val
    }

    /// Write a value and potentially upgrade the state.
    pub fn write(&mut self, w: Arc<V>)
        ensures
            *final(self) == old(self).after_write(w),
    {
        let next = match *self {
            LogVar::Write(_) => LogVar::Write(w),
            LogVar::ReadObsolete(ref r) | LogVar::ReadObsoleteWrite(ref r, _) => {
                LogVar::ReadObsoleteWrite(share(r), w)
            },
            LogVar::Read(ref r) | LogVar::ReadWrite(ref r, _) => LogVar::ReadWrite(share(r), w),
        };
        *self = next;
    }

    /// Turn `self` into an obsolete version.
    ///
    /// A variable that was only written has nothing to block on: `None`.
    pub fn obsolete(self) -> (r: Option<LogVar<V>>)
        ensures
            r == self.obsoleted(),
    {
        match self.into_read_value() {
            Some(a) => Some(LogVar::ReadObsolete(a)),
            None => None,
        }
    }

    /// Ignore all writes and get the original value of a variable.
    pub fn into_read_value(self) -> (r: Option<Arc<V>>)
        ensures
            r == self.original(),
    {
        match self {
            LogVar::Read(v)
            | LogVar::ReadWrite(v, _)
            | LogVar::ReadObsolete(v)
            | LogVar::ReadObsoleteWrite(v, _) => Some(v),
            LogVar::Write(_) => None,
        }
    }
}

impl<V: ?Sized> Clone for LogVar<V> {
    /// Another entry with handles to the same values.
    fn clone(&self) -> (r: Self)
        ensures
            r == *self,
    {
        match *self {
            LogVar::Read(ref v) => LogVar::Read(share(v)),
            LogVar::Write(ref w) => LogVar::Write(share(w)),
            LogVar::ReadWrite(ref o, ref w) => LogVar::ReadWrite(share(o), share(w)),
            LogVar::ReadObsolete(ref o) => LogVar::ReadObsolete(share(o)),
            LogVar::ReadObsoleteWrite(ref o, ref w) => LogVar::ReadObsoleteWrite(share(o), share(w)),
        }
    }
}

/// An entry that was only written has nothing to block on: it leaves the
/// wake set when the attempt retries.
pub proof fn lemma_write_is_not_obsoleted<V: ?Sized>(v: Arc<V>)
    ensures
        LogVar::Write(v).obsoleted() == None::<LogVar<V>>,
{
}

/// Reading a plain read entry returns the value twice, as value and as
/// original, and leaves the entry as it was.
pub proof fn lemma_read_of_read<V: ?Sized>(v: Arc<V>)
    ensures
        (LogVar::Read(v).current(), LogVar::Read(v).original()) == (v, Some(v)),
        LogVar::Read(v).after_read() == LogVar::Read(v),
{
}

/// Writing after a read keeps the original; a later write replaces only the
/// pending value.
pub proof fn lemma_writes_keep_original<V: ?Sized>(v: Arc<V>, w: Arc<V>, w2: Arc<V>)
    ensures
        LogVar::Read(v).after_write(w) == LogVar::ReadWrite(v, w),
        LogVar::Read(v).after_write(w).after_write(w2) == LogVar::ReadWrite(v, w2),
{
}

/// Writing does not clear the obsolete mark.
pub proof fn lemma_write_keeps_obsolete<V: ?Sized>(o: Arc<V>, w: Arc<V>)
    ensures
        LogVar::ReadObsolete(o).after_write(w) == LogVar::ReadObsoleteWrite(o, w),
{
}

/// Reading an obsolete entry returns its original, turns it into a plain read,
/// and making that obsolete again gives back the entry that was read.
pub proof fn lemma_read_then_obsolete<V: ?Sized>(o: Arc<V>)
    ensures
        (LogVar::ReadObsolete(o).current(), LogVar::ReadObsolete(o).original()) == (o, Some(o)),
        LogVar::ReadObsolete(o).after_read() == LogVar::Read(o),
        LogVar::ReadObsolete(o).after_read().obsoleted() == Some(LogVar::ReadObsolete(o)),
{
}

/// The read value of an entry is its original whatever was written after it,
/// and a write-only entry has none.
pub proof fn lemma_read_value_ignores_writes<V: ?Sized>(e: LogVar<V>)
    ensures
        match e {
            LogVar::Read(v) => e.original() == Some(v),
            LogVar::ReadWrite(o, _) => e.original() == Some(o),
            LogVar::ReadObsolete(o) => e.original() == Some(o),
            LogVar::ReadObsoleteWrite(o, _) => e.original() == Some(o),
            LogVar::Write(_) => e.original() == None::<Arc<V>>,
        },
        forall|w: Arc<V>| #[trigger] e.after_write(w).original() == e.original(),
{
}

} // verus!
