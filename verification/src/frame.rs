//! The wait/begin/render/end frame protocol.
//!
//! The compositor's pairing rules are strict: every wait-frame must be
//! followed by exactly one begin-frame, and every begun frame must be closed
//! by exactly one end-frame — even when nothing is rendered, and even when a
//! render step fails partway. Leaving a frame un-ended desynchronizes every
//! later frame. The protocol is a step machine: it names the next native
//! call to make, the driver performs the call (all of them are I/O) and
//! records whether it succeeded, and the machine advances. The ghost trace
//! of issued calls carries the proofs: a begun frame is always ended, a
//! skipped or failed frame ends with zero layers, and a rendered frame
//! issues exactly the canonical call sequence, with pose-independent command
//! recording placed before the pose query to keep pose-to-photon latency
//! low.

use vstd::prelude::*;

verus! {

/// One native call the frame driver makes on the protocol's behalf.
#[derive(Clone, Copy, Debug, PartialEq, Eq, Structural)]
pub enum FrameCall {
    /// Open the frame with the compositor.
    Begin,
    /// Ask the compositor for a swapchain image index.
    Acquire,
    /// Block until the acquired image is safe to write.
    WaitImage,
    /// Have the render-content collaborator record pose-independent
    /// commands against the acquired image.
    PrepareRender,
    /// Query the predicted eye poses for the display timestamp.
    LocateViews,
    /// Have the render-content collaborator upload pose-dependent
    /// transforms.
    LoadViewTransforms,
    /// Submit the recorded command buffers to the GPU queue.
    Submit,
    /// Hand the written image back to the compositor.
    ReleaseImage,
    /// Close the frame with this many projection layers.
    End { layers: u32 },
}

/// Where the frame protocol stands between native calls.
#[derive(Clone, Copy, Debug, PartialEq, Eq, Structural)]
pub enum FramePhase {
    /// wait-frame returned, with its render advice; the frame must now be
    /// begun unconditionally.
    Waited { should_render: bool },
    /// The frame is open; rendering proceeds only if advised.
    Begun { should_render: bool },
    /// An image index is acquired.
    Acquired,
    /// The acquired image is safe to write.
    ImageReady,
    /// Pose-independent commands are recorded.
    Prepared,
    /// The predicted eye poses are known.
    ViewsKnown,
    /// Pose-dependent transforms are uploaded.
    Loaded,
    /// The command buffers are submitted.
    Submitted,
    /// The image is handed back to the compositor.
    Released,
    /// A render step failed; the frame still owes its end-frame call, with
    /// an empty layer list, before the error propagates.
    RenderFailed,
    /// Terminal: the frame was ended; `rendered` tells whether layers were
    /// shown.
    Done { rendered: bool },
    /// Terminal: a step failed; the frame was still ended before the error
    /// propagates, and the next wait-frame cycle starts fresh.
    Failed,
    /// Terminal: the begin call itself failed, so no frame was opened and
    /// no end is owed.
    Aborted,
}

/// The seven render-path calls between begin and end, in protocol order.
pub open spec fn render_calls() -> Seq<FrameCall> {
    seq![
        FrameCall::Acquire,
        FrameCall::WaitImage,
        FrameCall::PrepareRender,
        FrameCall::LocateViews,
        FrameCall::LoadViewTransforms,
        FrameCall::Submit,
        FrameCall::ReleaseImage,
    ]
}

/// Whether the frame is over (no further native call).
pub open spec fn is_terminal(p: FramePhase) -> bool {
    p is Done || p is Failed || p is Aborted
}

/// The native call a non-terminal phase demands next.
pub open spec fn issued_call(p: FramePhase) -> FrameCall {
    match p {
        FramePhase::Waited { .. } => FrameCall::Begin,
        FramePhase::Begun { should_render } => if should_render {
            FrameCall::Acquire
        } else {
            FrameCall::End { layers: 0 }
        },
        FramePhase::Acquired => FrameCall::WaitImage,
        FramePhase::ImageReady => FrameCall::PrepareRender,
        FramePhase::Prepared => FrameCall::LocateViews,
        FramePhase::ViewsKnown => FrameCall::LoadViewTransforms,
        FramePhase::Loaded => FrameCall::Submit,
        FramePhase::Submitted => FrameCall::ReleaseImage,
        FramePhase::Released => FrameCall::End { layers: 2 },
        FramePhase::RenderFailed => FrameCall::End { layers: 0 },
        _ => FrameCall::Begin,
    }
}

/// The next native call, or nothing once the frame is over.
pub open spec fn next_call_spec(p: FramePhase) -> Option<FrameCall> {
    if is_terminal(p) {
        None
    } else {
        Some(issued_call(p))
    }
}

/// The phase after the demanded call returns with success `ok`.
pub open spec fn step_spec(p: FramePhase, ok: bool) -> FramePhase {
    match p {
        FramePhase::Waited { should_render } => if ok {
            FramePhase::Begun { should_render }
        } else {
            FramePhase::Aborted
        },
        FramePhase::Begun { should_render } => if should_render {
            if ok {
                FramePhase::Acquired
            } else {
                FramePhase::RenderFailed
            }
        } else {
            if ok {
                FramePhase::Done { rendered: false }
            } else {
                FramePhase::Failed
            }
        },
        FramePhase::Acquired => if ok {
            FramePhase::ImageReady
        } else {
            FramePhase::RenderFailed
        },
        FramePhase::ImageReady => if ok {
            FramePhase::Prepared
        } else {
            FramePhase::RenderFailed
        },
        FramePhase::Prepared => if ok {
            FramePhase::ViewsKnown
        } else {
            FramePhase::RenderFailed
        },
        FramePhase::ViewsKnown => if ok {
            FramePhase::Loaded
        } else {
            FramePhase::RenderFailed
        },
        FramePhase::Loaded => if ok {
            FramePhase::Submitted
        } else {
            FramePhase::RenderFailed
        },
        FramePhase::Submitted => if ok {
            FramePhase::Released
        } else {
            FramePhase::RenderFailed
        },
        FramePhase::Released => if ok {
            FramePhase::Done { rendered: true }
        } else {
            FramePhase::Failed
        },
        FramePhase::RenderFailed => FramePhase::Failed,
        _ => p,
    }
}

/// Which traces of issued calls belong to which phase. The render-failed
/// and failed phases keep the prefix of render calls that was issued before
/// the failure (the failing call included).
pub open spec fn phase_trace_ok(p: FramePhase, t: Seq<FrameCall>) -> bool {
    match p {
        FramePhase::Waited { .. } => t == Seq::<FrameCall>::empty(),
        FramePhase::Begun { .. } => t == seq![FrameCall::Begin],
        FramePhase::Acquired => t == seq![FrameCall::Begin] + render_calls().take(1),
        FramePhase::ImageReady => t == seq![FrameCall::Begin] + render_calls().take(2),
        FramePhase::Prepared => t == seq![FrameCall::Begin] + render_calls().take(3),
        FramePhase::ViewsKnown => t == seq![FrameCall::Begin] + render_calls().take(4),
        FramePhase::Loaded => t == seq![FrameCall::Begin] + render_calls().take(5),
        FramePhase::Submitted => t == seq![FrameCall::Begin] + render_calls().take(6),
        FramePhase::Released => t == seq![FrameCall::Begin] + render_calls().take(7),
        FramePhase::RenderFailed => exists|k: int|
            1 <= k <= 7 && t == seq![FrameCall::Begin] + render_calls().take(k),
        FramePhase::Done { rendered } => if rendered {
            t == seq![FrameCall::Begin] + render_calls() + seq![FrameCall::End { layers: 2 }]
        } else {
            t == seq![FrameCall::Begin, FrameCall::End { layers: 0 }]
        },
        FramePhase::Failed => {
            ||| exists|k: int|
                0 <= k <= 7 && t == seq![FrameCall::Begin] + render_calls().take(k) + seq![
                    FrameCall::End { layers: 0 },
                ]
            ||| t == seq![FrameCall::Begin] + render_calls() + seq![FrameCall::End { layers: 2 }]
        },
        FramePhase::Aborted => t == seq![FrameCall::Begin],
    }
}

/// Drives one frame through the compositor's pairing rules.
pub struct FrameLoop {
    phase: FramePhase,
    trace: Ghost<Seq<FrameCall>>,
}

impl FrameLoop {
    /// Where the protocol stands.
    pub closed spec fn phase(&self) -> FramePhase {
        self.phase
    }

    /// Every native call issued so far, in order.
    pub closed spec fn trace(&self) -> Seq<FrameCall> {
        self.trace@
    }

    /// The trace is exactly what the phase says was issued.
    pub open spec fn wf(&self) -> bool {
        phase_trace_ok(self.phase(), self.trace())
    }

    /// A frame fresh out of wait-frame, with the compositor's render advice.
    pub fn start(should_render: bool) -> (m: Self)
        ensures
            m.phase() == (FramePhase::Waited { should_render }),
            m.trace() == Seq::<FrameCall>::empty(),
            m.wf(),
    {
        FrameLoop { phase: FramePhase::Waited { should_render }, trace: Ghost(Seq::empty()) }
    }

    /// The native call the driver must make next, or nothing once the frame
    /// is over.
    pub fn next_call(&self) -> (c: Option<FrameCall>)
        ensures
            c == next_call_spec(self.phase()),
    {
        match self.phase {
            FramePhase::Waited { .. } => Some(FrameCall::Begin),
            FramePhase::Begun { should_render } => if should_render {
                Some(FrameCall::Acquire)
            } else {
                Some(FrameCall::End { layers: 0 })
            },
            FramePhase::Acquired => Some(FrameCall::WaitImage),
            FramePhase::ImageReady => Some(FrameCall::PrepareRender),
            FramePhase::Prepared => Some(FrameCall::LocateViews),
            FramePhase::ViewsKnown => Some(FrameCall::LoadViewTransforms),
            FramePhase::Loaded => Some(FrameCall::Submit),
            FramePhase::Submitted => Some(FrameCall::ReleaseImage),
            FramePhase::Released => Some(FrameCall::End { layers: 2 }),
            FramePhase::RenderFailed => Some(FrameCall::End { layers: 0 }),
            FramePhase::Done { .. } => None,
            FramePhase::Failed => None,
            FramePhase::Aborted => None,
        }
    }

    /// Whether the frame is over.
    pub fn finished(&self) -> (b: bool)
        ensures
            b == is_terminal(self.phase()),
    {
        match self.phase {
            FramePhase::Done { .. } => true,
            FramePhase::Failed => true,
            FramePhase::Aborted => true,
            _ => false,
        }
    }

    /// Records that the demanded call was made and whether it succeeded,
    /// and advances the protocol.
    pub fn record(&mut self, ok: bool)
        requires
            old(self).wf(),
            !is_terminal(old(self).phase()),
        ensures
            final(self).phase() == step_spec(old(self).phase(), ok),
            final(self).trace() == old(self).trace().push(issued_call(old(self).phase())),
            final(self).wf(),
    {
        let ghost old_phase = self.phase;
        let ghost old_trace = self.trace@;
        let issued = match self.next_call() {
            Some(c) => c,
            None => {
                proof {
                    assert(false);
                }
                FrameCall::Begin
            },
        };
        proof {
            self.trace@ = self.trace@.push(issued);
        }
        match self.phase {
            FramePhase::Waited { should_render } => {
                self.phase = if ok {
                    FramePhase::Begun { should_render }
                } else {
                    FramePhase::Aborted
                };
                proof {
                    assert(self.trace@ =~= seq![FrameCall::Begin]);
                }
            },
            FramePhase::Begun { should_render } => {
                if should_render {
                    self.phase = if ok {
                        FramePhase::Acquired
                    } else {
                        FramePhase::RenderFailed
                    };
                    proof {
                        assert(self.trace@ =~= seq![FrameCall::Begin] + render_calls().take(1));
                    }
                } else {
                    self.phase = if ok {
                        FramePhase::Done { rendered: false }
                    } else {
                        FramePhase::Failed
                    };
                    proof {
                        assert(self.trace@ =~= seq![
                            FrameCall::Begin,
                            FrameCall::End { layers: 0 },
                        ]);
                        assert(self.trace@ =~= seq![FrameCall::Begin] + render_calls().take(0)
                            + seq![FrameCall::End { layers: 0 }]);
                    }
                }
            },
            FramePhase::Acquired => {
                self.phase = if ok {
                    FramePhase::ImageReady
                } else {
                    FramePhase::RenderFailed
                };
                proof {
                    assert(self.trace@ =~= seq![FrameCall::Begin] + render_calls().take(2));
                }
            },
            FramePhase::ImageReady => {
                self.phase = if ok {
                    FramePhase::Prepared
                } else {
                    FramePhase::RenderFailed
                };
                proof {
                    assert(self.trace@ =~= seq![FrameCall::Begin] + render_calls().take(3));
                }
            },
            FramePhase::Prepared => {
                self.phase = if ok {
                    FramePhase::ViewsKnown
                } else {
                    FramePhase::RenderFailed
                };
                proof {
                    assert(self.trace@ =~= seq![FrameCall::Begin] + render_calls().take(4));
                }
            },
            FramePhase::ViewsKnown => {
                self.phase = if ok {
                    FramePhase::Loaded
                } else {
                    FramePhase::RenderFailed
                };
                proof {
                    assert(self.trace@ =~= seq![FrameCall::Begin] + render_calls().take(5));
                }
            },
            FramePhase::Loaded => {
                self.phase = if ok {
                    FramePhase::Submitted
                } else {
                    FramePhase::RenderFailed
                };
                proof {
                    assert(self.trace@ =~= seq![FrameCall::Begin] + render_calls().take(6));
                }
            },
            FramePhase::Submitted => {
                self.phase = if ok {
                    FramePhase::Released
                } else {
                    FramePhase::RenderFailed
                };
                proof {
                    assert(self.trace@ =~= seq![FrameCall::Begin] + render_calls().take(7));
                }
            },
            FramePhase::Released => {
                self.phase = if ok {
                    FramePhase::Done { rendered: true }
                } else {
                    FramePhase::Failed
                };
                proof {
                    assert(render_calls().take(7) =~= render_calls());
                    assert(self.trace@ =~= seq![FrameCall::Begin] + render_calls() + seq![
                        FrameCall::End { layers: 2 },
                    ]);
                }
            },
            FramePhase::RenderFailed => {
                self.phase = FramePhase::Failed;
                proof {
                    let k = choose|k: int|
                        1 <= k <= 7 && old_trace == seq![FrameCall::Begin] + render_calls().take(k);
                    assert(self.trace@ =~= seq![FrameCall::Begin] + render_calls().take(k) + seq![
                        FrameCall::End { layers: 0 },
                    ]);
                }
            },
            _ => {
                proof {
                    assert(false);
                }
            },
        }
    }
}

/// One eye's projection layer view: which swapchain array layer it samples
/// and the image sub-rectangle it presents.
#[derive(Clone, Copy, Debug, PartialEq, Eq, Structural)]
pub struct LayerView {
    /// Swapchain array layer: the left eye renders to layer zero, the right
    /// eye to layer one.
    pub image_array_index: u32,
    /// Sub-rectangle origin (always the full image).
    pub rect_x: u32,
    /// Sub-rectangle origin (always the full image).
    pub rect_y: u32,
    /// Sub-rectangle width: the swapchain resolution.
    pub rect_width: u32,
    /// Sub-rectangle height: the swapchain resolution.
    pub rect_height: u32,
}

/// The two projection layer views a rendered frame ends with: one per eye,
/// both presenting the full image, each from its own array layer.
pub fn projection_layer_views(width: u32, height: u32) -> (v: Vec<LayerView>)
    ensures
        v@.len() == 2,
        v@[0] == (LayerView {
            image_array_index: 0,
            rect_x: 0,
            rect_y: 0,
            rect_width: width,
            rect_height: height,
        }),
        v@[1] == (LayerView {
            image_array_index: 1,
            rect_x: 0,
            rect_y: 0,
            rect_width: width,
            rect_height: height,
        }),
{
    let mut v: Vec<LayerView> = Vec::new();
    v.push(
        LayerView { image_array_index: 0, rect_x: 0, rect_y: 0, rect_width: width, rect_height: height },
    );
    v.push(
        LayerView { image_array_index: 1, rect_x: 0, rect_y: 0, rect_width: width, rect_height: height },
    );
    v
}

/// How many begin calls a trace holds.
pub open spec fn begins_in(t: Seq<FrameCall>) -> int
    decreases t.len(),
{
    if t.len() == 0 {
        0
    } else {
        begins_in(t.drop_last()) + if t.last() is Begin {
            1int
        } else {
            0int
        }
    }
}

/// How many end calls a trace holds.
pub open spec fn ends_in(t: Seq<FrameCall>) -> int
    decreases t.len(),
{
    if t.len() == 0 {
        0
    } else {
        ends_in(t.drop_last()) + if t.last() is End {
            1int
        } else {
            0int
        }
    }
}

/// Begin and end counts of a one-call trace.
pub proof fn lemma_counts_singleton(c: FrameCall)
    ensures
        begins_in(seq![c]) == if c is Begin {
            1int
        } else {
            0int
        },
        ends_in(seq![c]) == if c is End {
            1int
        } else {
            0int
        },
{
    assert(seq![c].drop_last() =~= Seq::<FrameCall>::empty());
    assert(begins_in(Seq::<FrameCall>::empty()) == 0);
    assert(ends_in(Seq::<FrameCall>::empty()) == 0);
}

/// Begin and end counts distribute over concatenation.
pub proof fn lemma_counts_concat(a: Seq<FrameCall>, b: Seq<FrameCall>)
    ensures
        begins_in(a + b) == begins_in(a) + begins_in(b),
        ends_in(a + b) == ends_in(a) + ends_in(b),
    decreases b.len(),
{
    if b.len() == 0 {
        assert(a + b =~= a);
    } else {
        lemma_counts_concat(a, b.drop_last());
        assert((a + b).drop_last() =~= a + b.drop_last());
        assert((a + b).last() == b.last());
    }
}

/// No prefix of the render path holds a begin or an end call.
pub proof fn lemma_render_calls_counts(k: int)
    requires
        0 <= k <= 7,
    ensures
        begins_in(render_calls().take(k)) == 0,
        ends_in(render_calls().take(k)) == 0,
    decreases k,
{
    if k == 0 {
        assert(render_calls().take(0) =~= Seq::<FrameCall>::empty());
    } else {
        lemma_render_calls_counts(k - 1);
        assert(render_calls().take(k).drop_last() =~= render_calls().take(k - 1));
        assert(render_calls().take(k).last() == render_calls()[k - 1]);
        assert(!(render_calls()[k - 1] is Begin) && !(render_calls()[k - 1] is End));
    }
}

/// Law: when a frame is over, a frame that was opened was closed: a frame
/// whose begin call succeeded has issued exactly one begin and exactly one
/// end call, however rendering went; only a frame whose begin call itself
/// failed (which never opened) carries no end call.
pub proof fn lemma_begin_end_paired(m: &FrameLoop)
    requires
        m.wf(),
        is_terminal(m.phase()),
    ensures
        begins_in(m.trace()) == 1,
        m.phase() is Aborted ==> ends_in(m.trace()) == 0,
        !(m.phase() is Aborted) ==> ends_in(m.trace()) == 1,
{
    let t = m.trace();
    let b = seq![FrameCall::Begin];
    lemma_counts_singleton(FrameCall::Begin);
    lemma_counts_singleton(FrameCall::End { layers: 0 });
    lemma_counts_singleton(FrameCall::End { layers: 2 });
    match m.phase() {
        FramePhase::Done { rendered } => {
            if rendered {
                let e = seq![FrameCall::End { layers: 2 }];
                assert(render_calls().take(7) =~= render_calls());
                lemma_render_calls_counts(7);
                lemma_counts_concat(b, render_calls());
                lemma_counts_concat(b + render_calls(), e);
            } else {
                assert(t == seq![FrameCall::Begin, FrameCall::End { layers: 0 }]);
                assert(t.drop_last() =~= b);
            }
        },
        FramePhase::Failed => {
            if exists|k: int|
                0 <= k <= 7 && t == seq![FrameCall::Begin] + render_calls().take(k) + seq![
                    FrameCall::End { layers: 0 },
                ] {
                let k = choose|k: int|
                    0 <= k <= 7 && t == seq![FrameCall::Begin] + render_calls().take(k) + seq![
                        FrameCall::End { layers: 0 },
                    ];
                let e = seq![FrameCall::End { layers: 0 }];
                lemma_render_calls_counts(k);
                lemma_counts_concat(b, render_calls().take(k));
                lemma_counts_concat(b + render_calls().take(k), e);
            } else {
                let e = seq![FrameCall::End { layers: 2 }];
                assert(render_calls().take(7) =~= render_calls());
                lemma_render_calls_counts(7);
                lemma_counts_concat(b, render_calls());
                lemma_counts_concat(b + render_calls(), e);
            }
        },
        FramePhase::Aborted => {
            assert(t == b);
        },
        _ => {},
    }
}

/// Law: a fully rendered frame issues exactly the canonical sequence: one
/// begin, the seven render calls in order (commands are recorded before the
/// poses are queried), and one end with a layer per eye.
pub proof fn lemma_rendered_frame_trace(m: &FrameLoop)
    requires
        m.wf(),
        m.phase() == (FramePhase::Done { rendered: true }),
    ensures
        m.trace() == seq![FrameCall::Begin] + render_calls() + seq![
            FrameCall::End { layers: 2 },
        ],
        m.trace().len() == 9,
        m.trace()[3] == FrameCall::PrepareRender,
        m.trace()[5] == FrameCall::LoadViewTransforms,
        m.trace()[8] == (FrameCall::End { layers: 2 }),
{
}

/// Law: a frame the compositor advised not to render is closed immediately
/// with an empty layer list: begin, then end with zero layers, nothing else.
pub proof fn lemma_skipped_frame_trace(m: &FrameLoop)
    requires
        m.wf(),
        m.phase() == (FramePhase::Done { rendered: false }),
    ensures
        m.trace() == seq![FrameCall::Begin, FrameCall::End { layers: 0 }],
{
}

} // verus!
