use vstd::prelude::*;

verus! {

/// The process-wide audio backend context, passed explicitly to every voice
/// operation.
///
/// The backend initializes its device and context once, before any voice may
/// be used; every operation checks that this succeeded before doing anything.
/// The context also hands out the source handles voices are built around:
/// handles are drawn from a counter, so no two voices ever share one.
pub struct Context {
    valid: bool,
    next_source: u32,
}

impl Context {
    /// Whether backend initialization completed. While this is false, every
    /// voice operation is a no-op that returns its documented fallback.
    pub closed spec fn valid(self) -> bool {
        self.valid
    }

    /// The next source handle this context will hand out. Handles already
    /// handed out are all below it and never reused.
    pub closed spec fn next_source(self) -> u32 {
        self.next_source
    }

    /// A context whose backend initialization completed; source handles are
    /// drawn from 1 upward.
    pub fn new() -> (c: Context)
        ensures
            c.valid(),
            c.next_source() == 1,
    {
        Context { valid: true, next_source: 1 }
    }

    /// A context whose backend never came up: every voice operation run
    /// against it refuses to touch the voice.
    pub fn uninitialized() -> (c: Context)
        ensures
            !c.valid(),
    {
        Context { valid: false, next_source: 1 }
    }

    /// The check made at the top of every voice operation.
    pub fn is_valid(&self) -> (r: bool)
        ensures
            r == self.valid(),
    {
        self.valid
    }

    /// Draws a fresh source handle, distinct from every handle drawn before.
    /// `None` once the handle space is exhausted, which a caller reports as a
    /// backend error.
    pub(crate) fn gen_source(&mut self) -> (r: Option<u32>)
        ensures
            old(self).next_source() < u32::MAX ==> r == Some(old(self).next_source())
                && final(self).next_source() == old(self).next_source() + 1,
            old(self).next_source() == u32::MAX ==> r == None::<u32> && *final(self) == *old(
                self,
            ),
            final(self).valid() == old(self).valid(),
    {
        if self.next_source < u32::MAX {
            let s: u32 = self.next_source;
            self.next_source = self.next_source + 1;
            Some(s)
        } else {
            None
        }
    }
}

} // verus!
