//! Pacing of the draw loop: which of the frames in flight is drawn next, and how
//! often one frame may be retried before the loop gives up.
use vstd::prelude::*;

verus! {

/// Frames that may be in flight on the device at once.
pub const MAX_FRAMES_IN_FLIGHT: usize = 5;

/// The state of the draw loop, as numbers: the frame in flight that is drawn
/// next, and for each frame in flight how often it has been attempted since it
/// last became the next one.
pub struct FramePacing {
    pub frame_index: int,
    pub retries: Seq<u8>,
}

impl FramePacing {
    pub open spec fn wf(self) -> bool {
        &&& 0 <= self.frame_index < MAX_FRAMES_IN_FLIGHT
        &&& self.retries.len() == MAX_FRAMES_IN_FLIGHT
    }

    /// Attempts of the current frame so far.
    pub open spec fn current_retries(self) -> int {
        self.retries[self.frame_index] as int
    }

    /// Another attempt of the current frame would pass the retry cap.
    pub open spec fn retry_cap_reached(self, cap: u8) -> bool {
        self.current_retries() >= cap
    }

    /// The state after one more attempt of the current frame.
    pub open spec fn attempted(self) -> FramePacing {
        FramePacing {
            frame_index: self.frame_index,
            retries: self.retries.update(self.frame_index, (self.current_retries() + 1) as u8),
        }
    }

    /// The state after the current frame was presented: the next frame in flight
    /// becomes current, with no attempts counted.
    pub open spec fn presented(self) -> FramePacing {
        let next: int = (self.frame_index + 1) % (MAX_FRAMES_IN_FLIGHT as int);
        FramePacing { frame_index: next, retries: self.retries.update(next, 0u8) }
    }

    /// The state after `k` frames in a row were presented.
    pub open spec fn presented_times(self, k: nat) -> FramePacing
        decreases k,
    {
        if k == 0 {
            self
        } else {
            self.presented_times((k - 1) as nat).presented()
        }
    }

    /// The state after `k` attempts in a row of the current frame.
    pub open spec fn attempted_times(self, k: nat) -> FramePacing
        decreases k,
    {
        if k == 0 {
            self
        } else {
            self.attempted_times((k - 1) as nat).attempted()
        }
    }
}

/// What the draw loop does next about the current frame.
#[derive(Debug, Clone, Copy, PartialEq, Eq, Structural)]
pub enum FrameAttempt {
    /// Draw the frame in flight with this index.
    Draw { frame_index: usize },
    /// The frame was attempted as often as the retry cap allows: give up.
    RetryCapExceeded,
}

/// How drawing a frame went.
#[derive(Debug, Clone, Copy, PartialEq, Eq, Structural)]
pub enum DrawOutcome {
    /// The image was submitted and queued for presentation.
    Presented,
    /// The swapchain no longer matches the surface.
    SwapchainOutOfDate,
    /// Any other failure of the device.
    Failed,
}

/// What the draw loop does after a frame was drawn.
#[derive(Debug, Clone, Copy, PartialEq, Eq, Structural)]
pub enum FrameFollowUp {
    /// The frame is done: take the swapchain's current extent as the aspect.
    UseCurrentAspect,
    /// Recreate the swapchain, then draw the same frame again.
    RecreateSwapchain,
    /// Stop: the failure cannot be handled.
    Abort,
}

/// Cycles through the frames in flight, counting the attempts of each; a frame
/// may be attempted at most `FRAME_DRAW_RETRY_CAP` times before it is presented.
pub struct DrawFrameIter<const FRAME_DRAW_RETRY_CAP: u8> {
    frameidx: usize,
    frame_draw_retries: [u8; MAX_FRAMES_IN_FLIGHT],
}

impl<const FRAME_DRAW_RETRY_CAP: u8> View for DrawFrameIter<FRAME_DRAW_RETRY_CAP> {
    type V = FramePacing;

    closed spec fn view(&self) -> FramePacing {
        FramePacing { frame_index: self.frameidx as int, retries: self.frame_draw_retries@ }
    }
}

impl<const FRAME_DRAW_RETRY_CAP: u8> DrawFrameIter<FRAME_DRAW_RETRY_CAP> {
    #[verifier::type_invariant]
    spec fn frame_index_in_range(self) -> bool {
        self.frameidx < MAX_FRAMES_IN_FLIGHT
    }

    /// Starts at the first frame in flight, with no attempts counted.
    pub fn new() -> (it: Self)
        ensures
            it@.wf(),
            it@.frame_index == 0,
            forall|i: int| 0 <= i < MAX_FRAMES_IN_FLIGHT ==> it@.retries[i] == 0,
    {
        DrawFrameIter { frameidx: 0, frame_draw_retries: [0u8; MAX_FRAMES_IN_FLIGHT] }
    }

    /// Index of the frame in flight that is drawn next.
    pub fn frame_index(&self) -> (i: usize)
        ensures
            i == self@.frame_index,
            i < MAX_FRAMES_IN_FLIGHT,
    {
        proof {
            use_type_invariant(self);
        }
        self.frameidx
    }

    /// Counts one more attempt of the current frame and says to draw it, unless
    /// that attempt would pass the retry cap: then nothing changes and the loop
    /// is told to give up.
    pub fn attempt_next_frame(&mut self) -> (a: FrameAttempt)
        ensures
            final(self)@.wf(),
            !old(self)@.retry_cap_reached(FRAME_DRAW_RETRY_CAP) ==> {
                &&& a == FrameAttempt::Draw { frame_index: old(self)@.frame_index as usize }
                &&& final(self)@ == old(self)@.attempted()
            },
            old(self)@.retry_cap_reached(FRAME_DRAW_RETRY_CAP) ==> {
                &&& a == FrameAttempt::RetryCapExceeded
                &&& final(self)@ == old(self)@
            },
            old(self)@.current_retries() < FRAME_DRAW_RETRY_CAP ==> {
                &&& a == FrameAttempt::Draw { frame_index: old(self)@.frame_index as usize }
                &&& final(self)@.frame_index == old(self)@.frame_index
                &&& final(self)@.current_retries() == old(self)@.current_retries() + 1
                &&& forall|j: int|
                    0 <= j < MAX_FRAMES_IN_FLIGHT && j != old(self)@.frame_index
                        ==> #[trigger] final(self)@.retries[j] == old(self)@.retries[j]
            },
            old(self)@.current_retries() >= FRAME_DRAW_RETRY_CAP ==> a == FrameAttempt::RetryCapExceeded,
    {
        proof {
            use_type_invariant(&*self);
        }
        let idx: usize = self.frameidx;
        let tries: u8 = self.frame_draw_retries[idx];
        if tries >= FRAME_DRAW_RETRY_CAP {
            FrameAttempt::RetryCapExceeded
        } else {
            self.frame_draw_retries[idx] = tries + 1;
            FrameAttempt::Draw { frame_index: idx }
        }
    }

    /// Takes the outcome of drawing the current frame. A presented frame moves
    /// the loop to the next frame in flight, whose count starts again at zero;
    /// otherwise the state stays, for the same frame to be drawn again after the
    /// swapchain is recreated, or for the loop to stop.
    pub fn record_frame_outcome(&mut self, outcome: DrawOutcome) -> (f: FrameFollowUp)
        ensures
            final(self)@.wf(),
            outcome == DrawOutcome::Presented ==> {
                &&& f == FrameFollowUp::UseCurrentAspect
                &&& final(self)@ == old(self)@.presented()
            },
            outcome == DrawOutcome::SwapchainOutOfDate ==> {
                &&& f == FrameFollowUp::RecreateSwapchain
                &&& final(self)@ == old(self)@
            },
            outcome == DrawOutcome::Failed ==> {
                &&& f == FrameFollowUp::Abort
                &&& final(self)@ == old(self)@
            },
    {
        proof {
            use_type_invariant(&*self);
        }
        match outcome {
            DrawOutcome::Presented => {
                let next: usize = (self.frameidx + 1) % MAX_FRAMES_IN_FLIGHT;
                self.frameidx = next;
                self.frame_draw_retries[next] = 0;
                FrameFollowUp::UseCurrentAspect
            },
            DrawOutcome::SwapchainOutOfDate => FrameFollowUp::RecreateSwapchain,
            DrawOutcome::Failed => FrameFollowUp::Abort,
        }
    }
}

impl<const FRAME_DRAW_RETRY_CAP: u8> Default for DrawFrameIter<FRAME_DRAW_RETRY_CAP> {
    /// The same state as [`DrawFrameIter::new`].
    fn default() -> (it: Self)
        ensures
            it@.wf(),
            it@.frame_index == 0,
            forall|i: int| 0 <= i < MAX_FRAMES_IN_FLIGHT ==> it@.retries[i] == 0,
    {
        Self::new()
    }
}

/// Presenting `k` frames in a row moves the loop `k` frames forward, round the
/// frames in flight, and each frame that becomes current starts with no
/// attempts counted.
pub proof fn lemma_presented_frames_cycle(s: FramePacing, k: nat)
    requires
        s.wf(),
    ensures
        s.presented_times(k).wf(),
        s.presented_times(k).frame_index == (s.frame_index + k) % (MAX_FRAMES_IN_FLIGHT as int),
        k > 0 ==> s.presented_times(k).current_retries() == 0,
    decreases k,
{
    if k > 0 {
        lemma_presented_frames_cycle(s, (k - 1) as nat);
        let p = s.presented_times((k - 1) as nat);
        assert(p.presented() == s.presented_times(k));
        assert(((s.frame_index + k - 1) % 5 + 1) % 5 == (s.frame_index + k) % 5) by (nonlinear_arith)
            requires s.frame_index >= 0, k >= 1;
    }
}

/// A frame is drawn at most `cap` times before it is presented: when each of
/// `k` attempts in a row is allowed, the frame has `k` more attempts counted
/// after them, and (for `k > 0`) had at most `cap - k` counted before them.
pub proof fn lemma_retry_cap_bounds_attempts(s: FramePacing, cap: u8, k: nat)
    requires
        s.wf(),
        forall|i: nat| i < k ==> !#[trigger] s.attempted_times(i).retry_cap_reached(cap),
    ensures
        s.attempted_times(k).wf(),
        s.attempted_times(k).frame_index == s.frame_index,
        s.attempted_times(k).current_retries() == s.current_retries() + k,
        k > 0 ==> s.current_retries() + k <= cap,
    decreases k,
{
    if k > 0 {
        let km1: nat = (k - 1) as nat;
        assert forall|i: nat| i < km1 implies !#[trigger] s.attempted_times(i).retry_cap_reached(
            cap,
        ) by {
            assert(i < k);
        }
        lemma_retry_cap_bounds_attempts(s, cap, km1);
        let p = s.attempted_times(km1);
        assert(!p.retry_cap_reached(cap));
        let r: int = p.current_retries();
        assert(0 <= r < cap);
        assert((r + 1) as u8 == r + 1);
        assert(p.attempted() == s.attempted_times(k));
        assert(p.attempted().current_retries() == r + 1);
    }
}

/// An attempt is refused exactly when the current frame has been attempted
/// `cap` times: a frame that has just become current is drawn `cap` times in a
/// row, and the attempt after those is refused.
pub proof fn lemma_fresh_frame_is_drawn_exactly_cap_times(s: FramePacing, cap: u8)
    requires
        s.wf(),
        s.current_retries() == 0,
    ensures
        forall|k: nat| k < cap ==> !#[trigger] s.attempted_times(k).retry_cap_reached(cap),
        s.attempted_times(cap as nat).retry_cap_reached(cap),
        s.attempted_times(cap as nat).current_retries() == cap,
{
    assert forall|k: nat| k < cap implies !#[trigger] s.attempted_times(k).retry_cap_reached(cap) by {
        lemma_attempts_count_up(s, k, cap);
    }
    lemma_attempts_count_up(s, cap as nat, cap);
}

proof fn lemma_attempts_count_up(s: FramePacing, k: nat, cap: u8)
    requires
        s.wf(),
        s.current_retries() == 0,
        k <= cap,
    ensures
        s.attempted_times(k).wf(),
        s.attempted_times(k).frame_index == s.frame_index,
        s.attempted_times(k).current_retries() == k,
    decreases k,
{
    if k > 0 {
        let km1: nat = (k - 1) as nat;
        lemma_attempts_count_up(s, km1, cap);
        let p = s.attempted_times(km1);
        assert((km1 + 1) as u8 == km1 + 1);
        assert(p.attempted() == s.attempted_times(k));
    }
}
} // verus!
