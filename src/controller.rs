use vstd::prelude::*;
use crate::error::{ErrorKind, poisons_handle};

verus! {

/// What the device actor must do to get a handle for the next operation.
#[derive(Clone, Copy, Debug, PartialEq, Eq, Structural)]
pub enum Acquire {
    /// Use the handle that is open, numbered as given.
    Reuse(u64),
    /// Enumerate the tokens and open the first one.
    Open,
}

/// What enumerating and opening the first token gave.
#[derive(Clone, Copy, Debug, PartialEq, Eq, Structural)]
pub enum OpenOutcome {
    /// The transport lists no token.
    NoTokens,
    /// The first token does not identify as a Solo 2.
    NotASolo2,
    /// The first token was opened and identified.
    Opened,
}

/// Owner of the single device handle. Handles are numbered in the order in
/// which they were opened, so a number is never given out twice.
#[derive(Clone, Copy, Debug, PartialEq, Eq, Structural)]
pub struct Controller {
    /// The number of the open handle, if one is open.
    pub handle: Option<u64>,
    /// How many handles have been opened so far.
    pub opened: u64,
}

impl Controller {
    /// The open handle, if any, is the one opened last.
    pub open spec fn wf(&self) -> bool {
        match self.handle {
            Some(h) => h == self.opened && h > 0,
            None => true,
        }
    }

    pub open spec fn acquire_spec(&self) -> Acquire {
        match self.handle {
            Some(h) => Acquire::Reuse(h),
            None => Acquire::Open,
        }
    }

    pub open spec fn on_open_spec(&self, outcome: OpenOutcome) -> (Controller, Result<u64, ErrorKind>) {
        match outcome {
            OpenOutcome::NoTokens => (
                Controller { handle: None, opened: self.opened },
                Err(ErrorKind::NoDevice),
            ),
            OpenOutcome::NotASolo2 => (
                Controller { handle: None, opened: self.opened },
                Err(ErrorKind::NotASolo2),
            ),
            OpenOutcome::Opened => (
                Controller {
                    handle: Some((self.opened + 1) as u64),
                    opened: (self.opened + 1) as u64,
                },
                Ok((self.opened + 1) as u64),
            ),
        }
    }

    pub open spec fn after_spec(&self, error: Option<ErrorKind>) -> Controller {
        match error {
            Some(e) => if poisons_handle(e) {
                Controller { handle: None, opened: self.opened }
            } else {
                *self
            },
            None => *self,
        }
    }

    /// A controller with no device handle.
    pub fn new() -> (r: Controller)
        ensures
            r.wf(),
            r.handle.is_none(),
            r.opened == 0,
    {
        Controller { handle: None, opened: 0 }
    }

    /// Whether a handle is open.
    pub fn is_present(&self) -> (r: bool)
        ensures
            r == self.handle.is_some(),
    {
        self.handle.is_some()
    }

    /// How the next operation gets its handle: the open one, or a new one.
    pub fn acquire(&self) -> (r: Acquire)
        ensures
            r == self.acquire_spec(),
    {
        match self.handle {
            Some(h) => Acquire::Reuse(h),
            None => Acquire::Open,
        }
    }

    /// Records what enumerating and opening gave. On success the new handle
    /// gets the next number, which is returned.
    pub fn on_open(&mut self, outcome: OpenOutcome) -> (r: Result<u64, ErrorKind>)
        requires
            old(self).wf(),
            old(self).handle.is_none(),
            old(self).opened < u64::MAX,
        ensures
            final(self).wf(),
            (*final(self), r) == old(self).on_open_spec(outcome),
    {
        match outcome {
            OpenOutcome::NoTokens => {
                self.handle = None;
                Err(ErrorKind::NoDevice)
            },
            OpenOutcome::NotASolo2 => {
                self.handle = None;
                Err(ErrorKind::NotASolo2)
            },
            OpenOutcome::Opened => {
                self.opened = self.opened + 1;
                self.handle = Some(self.opened);
                Ok(self.opened)
            },
        }
    }

    /// Drops the open handle, if any, so that the next operation reopens.
    pub fn invalidate(&mut self)
        requires
            old(self).wf(),
        ensures
            final(self).wf(),
            final(self).handle.is_none(),
            final(self).opened == old(self).opened,
    {
        self.handle = None;
    }

    /// Records how an operation ended: a transport failure or a timeout drops
    /// the handle, anything else keeps it.
    pub fn finish(&mut self, error: Option<ErrorKind>)
        requires
            old(self).wf(),
        ensures
            final(self).wf(),
            *final(self) == old(self).after_spec(error),
    {
        match error {
            Some(e) => {
                if e.invalidates_handle() {
                    self.handle = None;
                }
            },
            None => {},
        }
    }
}

/// After an error that drops the handle, the next operation never reuses it:
/// it opens a handle whose number exceeds every number given out before, or
/// reports that no device is there.
pub proof fn lemma_fresh_handle_after_error(c: Controller, e: ErrorKind, outcome: OpenOutcome)
    requires
        c.wf(),
        poisons_handle(e),
        c.opened < u64::MAX,
        outcome != OpenOutcome::NotASolo2,
    ensures
        c.after_spec(Some(e)).acquire_spec() == Acquire::Open,
        ({
            let (c2, r) = c.after_spec(Some(e)).on_open_spec(outcome);
            match r {
                Ok(h) => h > c.opened && c2.handle == Some(h),
                Err(k) => k == ErrorKind::NoDevice && c2.handle.is_none(),
            }
        }),
{
}

} // verus!
