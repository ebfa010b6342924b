//! The warning sink: the per-session buffer of registered warnings.

use vstd::prelude::*;
use proc_macro2::{Span, TokenStream};

verus! {

/// One registered warning: the source location the caller supplied and the
/// pre-built fragment defining the deprecated marker symbols for it.
pub struct WarningEntry {
    pub span: Span,
    pub fragment: TokenStream,
}

/// The buffer of warnings registered during one expansion session.
///
/// Entries are kept in registration order, which is the only order the
/// collectors later use.  Each session owns its own sink, so warnings from
/// unrelated sessions never mix.
pub struct WarningSink {
    entries: Vec<WarningEntry>,
}

impl View for WarningSink {
    type V = Seq<WarningEntry>;

    closed spec fn view(&self) -> Seq<WarningEntry> {
        self.entries@
    }
}

impl WarningSink {
    /// A fresh sink with nothing registered.
    pub fn new() -> (r: WarningSink)
        ensures
            r@ == Seq::<WarningEntry>::empty(),
    {
        WarningSink { entries: Vec::new() }
    }

    /// Appends one entry; every earlier entry stays, in order.
    pub fn register(&mut self, entry: WarningEntry)
        ensures
            final(self)@ == old(self)@.push(entry),
    {
        self.entries.push(entry);
    }

    /// Removes and returns every entry, oldest first, leaving the sink
    /// empty.  On an empty sink it returns an empty sequence.
    pub fn drain(&mut self) -> (r: Vec<WarningEntry>)
        ensures
            r@ == old(self)@,
            final(self)@ == Seq::<WarningEntry>::empty(),
    {
        let mut taken: Vec<WarningEntry> = Vec::new();
        core::mem::swap(&mut taken, &mut self.entries);
        taken
    }
}

} // verus!
