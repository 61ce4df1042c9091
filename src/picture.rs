//! The state machine of a decode transaction.
//!
//! A context runs at most one picture at a time: it is begun against a surface, fed buffers
//! in order and finalized. The decisions live here; the caller performs each driver call
//! that a successful transition asks for and reports a driver failure back with `abort`.

use vstd::prelude::*;

verus! {

/// Where a context's picture transaction stands.
#[derive(Clone, Copy, PartialEq, Eq, Structural, Debug)]
pub enum PictureState {
    /// No picture has been begun yet.
    Idle,
    /// Begun, no buffer submitted.
    Open,
    /// At least one buffer submitted.
    Rendering,
    /// Finalized: the decode was handed to the hardware.
    Done,
    /// Ended by a driver error.
    Aborted,
}

/// Misuse of the picture protocol.
#[derive(Clone, Copy, PartialEq, Eq, Structural, Debug)]
pub enum ProtocolError {
    /// A picture was begun while another one is open.
    PictureAlreadyOpen,
    /// A buffer was submitted, or a picture finalized or aborted, with no picture open.
    NoOpenPicture,
    /// A picture was finalized before any buffer was submitted.
    NothingSubmitted,
    /// A buffer was submitted that a picture of this context already consumed.
    BufferAlreadySubmitted,
}

/// What the target surface of the last picture holds.
#[derive(Clone, Copy, PartialEq, Eq, Structural, Debug)]
pub enum SurfaceStatus {
    /// No decode was ever begun.
    Idle,
    /// A picture is open and not finalized.
    InProgress,
    /// The last picture was finalized.
    Ready,
    /// The last picture was aborted.
    Failed,
}

/// Whether a picture is open, that is begun and not yet finalized or aborted.
pub open spec fn is_open(s: PictureState) -> bool {
    s == PictureState::Open || s == PictureState::Rendering
}

/// The error, if any, of beginning a picture in state `s`.
pub open spec fn begin_error(s: PictureState) -> Option<ProtocolError> {
    if is_open(s) { Some(ProtocolError::PictureAlreadyOpen) } else { None }
}

/// The error, if any, of submitting `buffer` in state `s` when the buffers in `consumed`
/// were submitted before.
pub open spec fn render_error(s: PictureState, consumed: Seq<u32>, buffer: u32) -> Option<ProtocolError> {
    if !is_open(s) {
        Some(ProtocolError::NoOpenPicture)
    } else if consumed.contains(buffer) {
        Some(ProtocolError::BufferAlreadySubmitted)
    } else {
        None
    }
}

/// The error, if any, of finalizing in state `s`.
pub open spec fn end_error(s: PictureState) -> Option<ProtocolError> {
    if s == PictureState::Rendering {
        None
    } else if s == PictureState::Open {
        Some(ProtocolError::NothingSubmitted)
    } else {
        Some(ProtocolError::NoOpenPicture)
    }
}

/// The state after finalizing in state `s`: done when that succeeds, unchanged otherwise.
pub open spec fn state_after_end(s: PictureState) -> PictureState {
    if end_error(s) is None { PictureState::Done } else { s }
}

/// The surface status that state `s` reports.
pub open spec fn status_of(s: PictureState) -> SurfaceStatus {
    match s {
        PictureState::Idle => SurfaceStatus::Idle,
        PictureState::Open => SurfaceStatus::InProgress,
        PictureState::Rendering => SurfaceStatus::InProgress,
        PictureState::Done => SurfaceStatus::Ready,
        PictureState::Aborted => SurfaceStatus::Failed,
    }
}

/// The picture transaction of one context: its state, its target surface, the buffers
/// submitted to the current picture in order, and every buffer any of its pictures has
/// consumed.
pub struct Picture {
    state: PictureState,
    surface: u32,
    buffers: Vec<u32>,
    consumed: Vec<u32>,
}

impl Picture {
    pub closed spec fn spec_state(&self) -> PictureState {
        self.state
    }

    pub closed spec fn spec_surface(&self) -> u32 {
        self.surface
    }

    pub closed spec fn spec_buffers(&self) -> Seq<u32> {
        self.buffers@
    }

    pub closed spec fn spec_consumed(&self) -> Seq<u32> {
        self.consumed@
    }

    /// Whether the submitted buffers agree with the state.
    pub closed spec fn wf(&self) -> bool {
        &&& self.state == PictureState::Open ==> self.buffers@.len() == 0
        &&& self.state == PictureState::Rendering ==> self.buffers@.len() > 0
    }

    pub fn new() -> (r: Self)
        ensures
            r.wf(),
            r.spec_state() == PictureState::Idle,
            r.spec_buffers().len() == 0,
            r.spec_consumed().len() == 0,
    {
        Picture { state: PictureState::Idle, surface: 0, buffers: Vec::new(), consumed: Vec::new() }
    }

    /// Begins a picture that decodes into `surface`. Fails while another one is open, and
    /// changes nothing then.
    pub fn begin_picture(&mut self, surface: u32) -> (r: Result<(), ProtocolError>)
        requires
            old(self).wf(),
        ensures
            final(self).wf(),
            begin_error(old(self).spec_state()) matches Some(e) ==> r == Err::<(), ProtocolError>(e)
                && *final(self) == *old(self),
            begin_error(old(self).spec_state()) is None ==> {
                &&& r is Ok
                &&& final(self).spec_state() == PictureState::Open
                &&& final(self).spec_surface() == surface
                &&& final(self).spec_buffers().len() == 0
                &&& final(self).spec_consumed() == old(self).spec_consumed()
            },
    {
        if self.state == PictureState::Open || self.state == PictureState::Rendering {
            return Err(ProtocolError::PictureAlreadyOpen);
        }
        self.state = PictureState::Open;
        self.surface = surface;
        self.buffers = Vec::new();
        Ok(())
    }

    /// Submits `buffer` to the open picture, after those submitted before. Fails when no
    /// picture is open or a picture already consumed `buffer`, and changes nothing then.
    pub fn render_picture(&mut self, buffer: u32) -> (r: Result<(), ProtocolError>)
        requires
            old(self).wf(),
        ensures
            final(self).wf(),
            render_error(old(self).spec_state(), old(self).spec_consumed(), buffer) matches Some(e)
                ==> r == Err::<(), ProtocolError>(e) && *final(self) == *old(self),
            render_error(old(self).spec_state(), old(self).spec_consumed(), buffer) is None ==> {
                &&& r is Ok
                &&& final(self).spec_state() == PictureState::Rendering
                &&& final(self).spec_surface() == old(self).spec_surface()
                &&& final(self).spec_buffers() == old(self).spec_buffers().push(buffer)
                &&& final(self).spec_consumed() == old(self).spec_consumed().push(buffer)
            },
    {
        if !(self.state == PictureState::Open || self.state == PictureState::Rendering) {
            return Err(ProtocolError::NoOpenPicture);
        }
        let mut i: usize = 0;
        while i < self.consumed.len()
            invariant
                *self == *old(self),
                self.wf(),
                is_open(self.state),
                0 <= i <= self.consumed@.len(),
                forall|j: int| 0 <= j < i ==> self.consumed@[j] != buffer,
            decreases self.consumed@.len() - i,
        {
            if self.consumed[i] == buffer {
                assert(self.consumed@.contains(buffer));
                return Err(ProtocolError::BufferAlreadySubmitted);
            }
            i += 1;
        }
        assert(!self.consumed@.contains(buffer));
        self.consumed.push(buffer);
        self.buffers.push(buffer);
        self.state = PictureState::Rendering;
        Ok(())
    }

    /// Finalizes the open picture, which hands the decode to the hardware. Fails when no
    /// picture is open or nothing was submitted, and changes nothing then.
    pub fn end_picture(&mut self) -> (r: Result<(), ProtocolError>)
        requires
            old(self).wf(),
        ensures
            final(self).wf(),
            end_error(old(self).spec_state()) matches Some(e) ==> r == Err::<(), ProtocolError>(e)
                && *final(self) == *old(self),
            end_error(old(self).spec_state()) is None ==> {
                &&& r is Ok
                &&& final(self).spec_surface() == old(self).spec_surface()
                &&& final(self).spec_buffers() == old(self).spec_buffers()
                &&& final(self).spec_consumed() == old(self).spec_consumed()
            },
            final(self).spec_state() == state_after_end(old(self).spec_state()),
    {
        if self.state == PictureState::Open {
            return Err(ProtocolError::NothingSubmitted);
        }
        if self.state != PictureState::Rendering {
            return Err(ProtocolError::NoOpenPicture);
        }
        self.state = PictureState::Done;
        Ok(())
    }

    /// Ends the open picture after the driver reported an error on a submission or on
    /// finalization. Fails when no picture is open, and changes nothing then.
    pub fn abort(&mut self) -> (r: Result<(), ProtocolError>)
        requires
            old(self).wf(),
        ensures
            final(self).wf(),
            !is_open(old(self).spec_state()) ==> r == Err::<(), ProtocolError>(ProtocolError::NoOpenPicture)
                && *final(self) == *old(self),
            is_open(old(self).spec_state()) ==> {
                &&& r is Ok
                &&& final(self).spec_state() == PictureState::Aborted
                &&& final(self).spec_surface() == old(self).spec_surface()
                &&& final(self).spec_buffers() == old(self).spec_buffers()
                &&& final(self).spec_consumed() == old(self).spec_consumed()
            },
    {
        if !(self.state == PictureState::Open || self.state == PictureState::Rendering) {
            return Err(ProtocolError::NoOpenPicture);
        }
        self.state = PictureState::Aborted;
        Ok(())
    }

    pub fn state(&self) -> (r: PictureState)
        ensures
            r == self.spec_state(),
    {
        self.state
    }

    /// What the target surface holds.
    pub fn status(&self) -> (r: SurfaceStatus)
        ensures
            r == status_of(self.spec_state()),
    {
        match self.state {
            PictureState::Idle => SurfaceStatus::Idle,
            PictureState::Open => SurfaceStatus::InProgress,
            PictureState::Rendering => SurfaceStatus::InProgress,
            PictureState::Done => SurfaceStatus::Ready,
            PictureState::Aborted => SurfaceStatus::Failed,
        }
    }

    pub fn surface(&self) -> (r: u32)
        ensures
            r == self.spec_surface(),
    {
        self.surface
    }

    /// The buffers submitted to the current or last picture, in order.
    pub fn buffers(&self) -> (r: &Vec<u32>)
        ensures
            r@ == self.spec_buffers(),
    {
        &self.buffers
    }
}

/// With no picture open (none begun yet, or the last one finalized or aborted), submitting
/// any buffer and finalizing both fail with a protocol error, and the surface reports no
/// decode in progress.
pub proof fn lemma_no_open_picture(s: PictureState, consumed: Seq<u32>, buffer: u32)
    requires
        !is_open(s),
    ensures
        render_error(s, consumed, buffer) == Some(ProtocolError::NoOpenPicture),
        end_error(s) == Some(ProtocolError::NoOpenPicture),
        status_of(s) != SurfaceStatus::InProgress,
{
}

/// Finalizing twice fails the second time: from any state, finalizing again in the state
/// that the first attempt leaves behind is an error, and after a first success it is
/// `NoOpenPicture` with the surface reporting a completed decode.
pub proof fn lemma_end_twice(s: PictureState)
    ensures
        end_error(state_after_end(s)) is Some,
        end_error(s) is None ==> end_error(state_after_end(s)) == Some(ProtocolError::NoOpenPicture)
            && status_of(state_after_end(s)) == SurfaceStatus::Ready,
{
}

/// A buffer is consumed once: after it was submitted, submitting it again fails, whatever
/// the state.
pub proof fn lemma_buffer_consumed_once(s: PictureState, consumed: Seq<u32>, buffer: u32)
    ensures
        render_error(s, consumed.push(buffer), buffer) is Some,
{
    assert(consumed.push(buffer)[consumed.len() as int] == buffer);
}

} // verus!
