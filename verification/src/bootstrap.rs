//! The bootstrap state machine and event dispatch: mediates between the
//! window system's synchronous callbacks and the asynchronous GPU
//! context construction, then routes window events to the context. The
//! host layer owns the event loop and the GPU objects; it feeds every
//! callback through the `Viewer` and performs what the directive says.

use crate::graphics::{
    cursor_moved, error_free, presented, reloaded, reported_texts, resized, success_note_text,
    CompilationMessage, GraphicsState, ReloadReport,
};
use crate::uniforms::record_bytes;
use vstd::prelude::*;

verus! {

/// Where the viewer stands between process start and the first frame.
/// `Pending` holds the one-shot delivery slot: `sender_live` is true
/// until the first resume signal consumes it, so construction can begin
/// at most once per process lifetime. `Ready` holds the delivered
/// context.
#[derive(Clone, Copy, Debug, PartialEq, Eq, Structural)]
pub enum BootstrapPhase {
    Pending { sender_live: bool },
    Ready { gfx: GraphicsState },
}

/// A window-system event, reduced to what the viewer decides on. Pixel
/// sizes come as the window system reports them; the `record_*` words
/// are the host layer's encoding of the same values for the uniform
/// record.
#[derive(Clone, Copy, Debug, PartialEq, Eq, Structural)]
pub enum ViewerEvent {
    Resized { width: u32, height: u32, record_width: u32, record_height: u32 },
    CursorMoved { record_x: u32, record_y: u32 },
    ReloadKeyPressed,
    CloseRequested,
    EscapePressed,
    Other,
}

/// What the host layer must do after an event was dispatched. `Ignore`
/// means no outside work, though the event may have updated the record.
#[derive(Clone, Copy, Debug, PartialEq, Eq, Structural)]
pub enum Directive {
    Ignore,
    Reconfigure { width: u32, height: u32 },
    Reload,
    Exit,
}

/// The resume transition: the first resume signal consumes the one-shot
/// slot and starts construction; every later one, and any resume once
/// ready, is a no-op.
pub open spec fn spec_on_resumed(p: BootstrapPhase) -> (BootstrapPhase, bool) {
    match p {
        BootstrapPhase::Pending { sender_live } => (
            BootstrapPhase::Pending { sender_live: false },
            sender_live,
        ),
        BootstrapPhase::Ready { gfx } => (p, false),
    }
}

/// The dispatch rules for a window event: everything is silently dropped
/// until the context is ready or when it is for another window; then a
/// resize updates surface and record and asks for a reconfigure, a
/// pointer move updates the record, the reload key starts the reload
/// protocol, and a close request or the escape key exits.
pub open spec fn spec_on_event(p: BootstrapPhase, same_window: bool, ev: ViewerEvent) -> (
    BootstrapPhase,
    Directive,
) {
    match p {
        BootstrapPhase::Pending { .. } => (p, Directive::Ignore),
        BootstrapPhase::Ready { gfx } => {
            if !same_window {
                (p, Directive::Ignore)
            } else {
                match ev {
                    ViewerEvent::Resized { width, height, record_width, record_height } => (
                        BootstrapPhase::Ready {
                            gfx: resized(gfx, width, height, record_width, record_height),
                        },
                        Directive::Reconfigure { width, height },
                    ),
                    ViewerEvent::CursorMoved { record_x, record_y } => (
                        BootstrapPhase::Ready { gfx: cursor_moved(gfx, record_x, record_y) },
                        Directive::Ignore,
                    ),
                    ViewerEvent::ReloadKeyPressed => (p, Directive::Reload),
                    ViewerEvent::CloseRequested => (p, Directive::Exit),
                    ViewerEvent::EscapePressed => (p, Directive::Exit),
                    ViewerEvent::Other => (p, Directive::Ignore),
                }
            }
        },
    }
}

/// The application: the bootstrap phase plus the dispatch rules above.
#[derive(Clone, Copy, Debug, PartialEq, Eq, Structural)]
pub struct Viewer {
    pub phase: BootstrapPhase,
}

impl Viewer {
    /// A fresh viewer: no context yet, the one-shot delivery slot armed.
    pub fn new() -> (v: Viewer)
        ensures
            v.phase == (BootstrapPhase::Pending { sender_live: true }),
    {
        Viewer { phase: BootstrapPhase::Pending { sender_live: true } }
    }

    /// The "window system resumed" signal. Returns whether the host
    /// layer must now create the window and begin the asynchronous GPU
    /// context construction — true exactly once per process lifetime.
    pub fn on_resumed(&mut self) -> (start_build: bool)
        ensures
            (final(self).phase, start_build) == spec_on_resumed(old(self).phase),
            start_build <==> old(self).phase == (BootstrapPhase::Pending { sender_live: true }),
    {
        match self.phase {
            BootstrapPhase::Pending { sender_live } => {
                self.phase = BootstrapPhase::Pending { sender_live: false };
                sender_live
            },
            BootstrapPhase::Ready { .. } => false,
        }
    }

    /// Receipt of the one "context ready" event: the constructed context
    /// arrives through the event loop and the viewer becomes ready.
    pub fn on_context_ready(&mut self, gfx: GraphicsState)
        ensures
            final(self).phase == (BootstrapPhase::Ready { gfx }),
    {
        self.phase = BootstrapPhase::Ready { gfx };
    }

    /// One window-system event, with whether it belongs to the viewer's
    /// window; see `spec_on_event` for the dispatch rules.
    pub fn on_window_event(&mut self, same_window: bool, ev: ViewerEvent) -> (d: Directive)
        ensures
            (final(self).phase, d) == spec_on_event(old(self).phase, same_window, ev),
    {
        match self.phase {
            BootstrapPhase::Pending { .. } => Directive::Ignore,
            BootstrapPhase::Ready { gfx } => {
                if !same_window {
                    Directive::Ignore
                } else {
                    match ev {
                        ViewerEvent::Resized { width, height, record_width, record_height } => {
                            let mut g = gfx;
                            g.resize(width, height, record_width, record_height);
                            self.phase = BootstrapPhase::Ready { gfx: g };
                            Directive::Reconfigure { width, height }
                        },
                        ViewerEvent::CursorMoved { record_x, record_y } => {
                            let mut g = gfx;
                            g.set_cursor(record_x, record_y);
                            self.phase = BootstrapPhase::Ready { gfx: g };
                            Directive::Ignore
                        },
                        ViewerEvent::ReloadKeyPressed => Directive::Reload,
                        ViewerEvent::CloseRequested => Directive::Exit,
                        ViewerEvent::EscapePressed => Directive::Exit,
                        ViewerEvent::Other => Directive::Ignore,
                    }
                }
            },
        }
    }

    /// Whether the context has been delivered: the idle callback draws a
    /// frame exactly when this holds.
    pub fn is_ready(&self) -> (r: bool)
        ensures
            r <==> self.phase is Ready,
    {
        match self.phase {
            BootstrapPhase::Ready { .. } => true,
            BootstrapPhase::Pending { .. } => false,
        }
    }

    /// The context, for inspection; the host layer mirrors it.
    pub fn graphics(&self) -> (g: Option<GraphicsState>)
        ensures
            self.phase matches BootstrapPhase::Ready { gfx } ==> g == Some(gfx),
            self.phase is Pending ==> g is None,
    {
        match self.phase {
            BootstrapPhase::Ready { gfx } => Some(gfx),
            BootstrapPhase::Pending { .. } => None,
        }
    }

    /// The exact bytes to upload into the uniform buffer for the next
    /// draw, once the context is ready.
    pub fn uniform_bytes(&self) -> (r: Option<Vec<u8>>)
        ensures
            self.phase matches BootstrapPhase::Ready { gfx } ==> (r matches Some(b) && b@
                == record_bytes(gfx.uniforms)),
            self.phase is Pending ==> r is None,
    {
        match self.phase {
            BootstrapPhase::Ready { gfx } => Some(gfx.uniforms.to_bytes()),
            BootstrapPhase::Pending { .. } => None,
        }
    }

    /// One frame was presented: the record's wrapping counter advances;
    /// before the context is ready nothing happens.
    pub fn frame_presented(&mut self)
        ensures
            old(self).phase matches BootstrapPhase::Ready { gfx } ==> final(self).phase == (
            BootstrapPhase::Ready { gfx: presented(gfx) }),
            old(self).phase is Pending ==> *final(self) == *old(self),
    {
        match self.phase {
            BootstrapPhase::Ready { gfx } => {
                let mut g = gfx;
                g.frame_presented();
                self.phase = BootstrapPhase::Ready { gfx: g };
            },
            BootstrapPhase::Pending { .. } => {},
        }
    }

    /// The tail of the reload protocol, once the host layer has read the
    /// source, submitted it, and drained the compiler's diagnostics: the
    /// active pipeline is replaced by the fresh generation whatever the
    /// diagnostics said, and the report carries what to print. Before
    /// the context is ready there is nothing to reload.
    pub fn finish_reload(&mut self, msgs: &Vec<CompilationMessage>, elapsed_seconds: u64) -> (r:
        Option<ReloadReport>)
        ensures
            old(self).phase is Pending ==> *final(self) == *old(self) && r is None,
            old(self).phase matches BootstrapPhase::Ready { gfx } ==> {
                &&& final(self).phase == (BootstrapPhase::Ready { gfx: reloaded(gfx) })
                &&& reloaded(gfx).pipeline_generation != gfx.pipeline_generation
                &&& r matches Some(rep) && rep.diagnostics@.map_values(|s: String| s@)
                    == reported_texts(msgs@) && ((rep.summary is Some) <==> error_free(msgs@))
                    && (rep.summary matches Some(s) ==> s@ == success_note_text(elapsed_seconds))
            },
    {
        match self.phase {
            BootstrapPhase::Ready { gfx } => {
                let mut g = gfx;
                let rep = g.apply_reload(msgs, elapsed_seconds);
                self.phase = BootstrapPhase::Ready { gfx: g };
                Some(rep)
            },
            BootstrapPhase::Pending { .. } => None,
        }
    }
}

/// How many of `n` consecutive resume signals, delivered from state
/// `p`, start construction.
pub open spec fn starts_in(p: BootstrapPhase, n: nat) -> nat
    decreases n,
{
    if n == 0 {
        0
    } else {
        (if spec_on_resumed(p).1 {
            1nat
        } else {
            0nat
        }) + starts_in(spec_on_resumed(p).0, (n - 1) as nat)
    }
}

/// However often the window system repeats its resume signal,
/// construction begins at most once per process lifetime: never from any
/// state other than the freshly constructed one, and from that state
/// exactly once, on the first signal.
pub proof fn lemma_construction_runs_once(p: BootstrapPhase, n: nat)
    ensures
        starts_in(p, n) <= 1,
        p != (BootstrapPhase::Pending { sender_live: true }) ==> starts_in(p, n) == 0,
        p == (BootstrapPhase::Pending { sender_live: true }) && n >= 1 ==> starts_in(p, n) == 1,
    decreases n,
{
    if n > 0 {
        lemma_construction_runs_once(spec_on_resumed(p).0, (n - 1) as nat);
    }
}

} // verus!
