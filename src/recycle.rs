use vstd::prelude::*;

verus! {

/// Why a recycle did not publish a new handle.
#[derive(Clone, Copy, Debug, PartialEq, Eq, Structural)]
pub enum RecycleError {
    /// No recycle with that identity is under way.
    NotInProgress,
    /// The replacement backend could not be constructed; the old handle stays.
    ConstructionFailed,
}

/// Abstract state of the handle slot.
pub struct SlotState {
    /// Identity of the published handle, if any.
    pub current: Option<u64>,
    /// Identity that the next published handle receives.
    pub next_id: u64,
    /// Identity reserved by a recycle that is under way.
    pub pending: Option<u64>,
}

impl SlotState {
    pub open spec fn wf(self) -> bool {
        &&& (self.current matches Some(h) ==> h < self.next_id)
        &&& (self.pending matches Some(p) ==> p == self.next_id && p < u64::MAX)
    }
}

/// Whether a recycle can start: none is under way and identities remain.
pub open spec fn can_begin(s: SlotState) -> bool {
    s.pending is None && s.next_id < u64::MAX
}

pub open spec fn begin_next(s: SlotState) -> SlotState {
    if can_begin(s) {
        SlotState { pending: Some(s.next_id), ..s }
    } else {
        s
    }
}

pub open spec fn begin_result(s: SlotState) -> Option<u64> {
    if can_begin(s) {
        Some(s.next_id)
    } else {
        None
    }
}

pub open spec fn finish_next(s: SlotState, id: u64, built: bool) -> SlotState {
    if s.pending == Some(id) {
        if built {
            SlotState { current: Some(id), next_id: (id + 1) as u64, pending: None }
        } else {
            SlotState { pending: None, ..s }
        }
    } else {
        s
    }
}

pub open spec fn finish_result(s: SlotState, id: u64, built: bool) -> Result<u64, RecycleError> {
    if s.pending == Some(id) {
        if built {
            Ok(id)
        } else {
            Err(RecycleError::ConstructionFailed)
        }
    } else {
        Err(RecycleError::NotInProgress)
    }
}

/// The slot that holds the identity of the published backend handle. A
/// recycle reserves the next identity, and the old handle stays published
/// until the replacement is ready.
pub struct HandleSlot {
    current: Option<u64>,
    next_id: u64,
    pending: Option<u64>,
}

impl HandleSlot {
    pub closed spec fn view(&self) -> SlotState {
        SlotState { current: self.current, next_id: self.next_id, pending: self.pending }
    }

    /// An empty slot; the first handle receives identity 1.
    pub fn new() -> (r: HandleSlot)
        ensures
            r.view() == (SlotState { current: None, next_id: 1, pending: None }),
            r.view().wf(),
    {
        HandleSlot { current: None, next_id: 1, pending: None }
    }

    pub fn current(&self) -> (r: Option<u64>)
        ensures
            r == self.view().current,
    {
        self.current
    }

    pub fn pending(&self) -> (r: Option<u64>)
        ensures
            r == self.view().pending,
    {
        self.pending
    }

    /// Reserves the identity of a replacement handle.
    pub fn begin(&mut self) -> (r: Option<u64>)
        requires
            old(self).view().wf(),
        ensures
            final(self).view() == begin_next(old(self).view()),
            r == begin_result(old(self).view()),
            final(self).view().wf(),
    {
        if self.pending.is_none() && self.next_id < u64::MAX {
            self.pending = Some(self.next_id);
            Some(self.next_id)
        } else {
            None
        }
    }

    /// Ends the recycle `id`: publishes it when the backend was `built`,
    /// otherwise keeps the old handle.
    pub fn finish(&mut self, id: u64, built: bool) -> (r: Result<u64, RecycleError>)
        requires
            old(self).view().wf(),
        ensures
            final(self).view() == finish_next(old(self).view(), id, built),
            r == finish_result(old(self).view(), id, built),
            final(self).view().wf(),
    {
        if self.pending == Some(id) {
            self.pending = None;
            if built {
                self.current = Some(id);
                self.next_id = id + 1;
                Ok(id)
            } else {
                Err(RecycleError::ConstructionFailed)
            }
        } else {
            Err(RecycleError::NotInProgress)
        }
    }
}

} // verus!
