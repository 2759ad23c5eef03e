//! The graphics context as the decision core sees it: surface
//! dimensions, the frame uniform record, and the identity of the active
//! render pipeline — together with the reload protocol's triage of
//! compiler diagnostics and its unconditional pipeline swap. The GPU
//! objects themselves (device, queue, surface, shader modules) live with
//! the host layer, which mirrors this model.

use crate::report::{display_seconds, duration_text};
use crate::uniforms::{after_frame, initial_record, with_cursor, with_resolution, FrameUniforms};
use vstd::prelude::*;
use vstd::string::StringExecFns;

verus! {

/// Severity of one shader-compiler diagnostic. Informational entries are
/// suppressed from the error channel; warnings and errors are reported.
#[derive(Clone, Copy, Debug, PartialEq, Eq, Structural)]
pub enum MessageKind {
    Info,
    Warning,
    Error,
}

/// One diagnostic from compiling the fragment shader.
#[derive(Clone, Debug)]
pub struct CompilationMessage {
    pub kind: MessageKind,
    pub text: String,
}

/// The diagnostics the operator must see: the texts of the
/// non-informational entries, in their original order.
pub open spec fn reported_texts(msgs: Seq<CompilationMessage>) -> Seq<Seq<char>>
    decreases msgs.len(),
{
    if msgs.len() == 0 {
        Seq::empty()
    } else {
        reported_texts(msgs.drop_last()) + (if msgs.last().kind is Info {
            Seq::empty()
        } else {
            seq![msgs.last().text@]
        })
    }
}

/// Filters the compiler's diagnostics down to what is printed on the
/// error channel: every warning- or error-severity entry, in order. An
/// empty result is what the reload protocol counts as success.
pub fn reportable_diagnostics(msgs: &Vec<CompilationMessage>) -> (r: Vec<String>)
    ensures
        r@.map_values(|s: String| s@) == reported_texts(msgs@),
{
    let mut r: Vec<String> = Vec::new();
    let mut i: usize = 0;
    while i < msgs.len()
        invariant
            i <= msgs@.len(),
            r@.map_values(|s: String| s@) == reported_texts(msgs@.take(i as int)),
        decreases msgs@.len() - i,
    {
        proof {
            assert(msgs@.take(i + 1).drop_last() =~= msgs@.take(i as int));
            assert(msgs@.take(i + 1).last() == msgs@[i as int]);
        }
        let keep = match msgs[i].kind {
            MessageKind::Info => false,
            MessageKind::Warning => true,
            MessageKind::Error => true,
        };
        if keep {
            r.push(msgs[i].text.clone());
        }
        proof {
            assert(r@.map_values(|s: String| s@) =~= reported_texts(msgs@.take(i + 1)));
        }
        i = i + 1;
    }
    proof {
        assert(msgs@.take(msgs@.len() as int) =~= msgs@);
    }
    r
}

/// Nothing is printed on the error channel exactly when every
/// diagnostic is informational.
pub proof fn lemma_clean_means_all_informational(msgs: Seq<CompilationMessage>)
    ensures
        reported_texts(msgs).len() == 0 <==> (forall|i: int|
            0 <= i < msgs.len() ==> msgs[i].kind is Info),
    decreases msgs.len(),
{
    if msgs.len() > 0 {
        lemma_clean_means_all_informational(msgs.drop_last());
        assert(forall|i: int| 0 <= i < msgs.len() - 1 ==> msgs.drop_last()[i] == msgs[i]);
    }
}

/// Whether the compiler's diagnostics hold no error-severity entry —
/// the condition under which a reload counts as a success and the
/// elapsed-time note is owed. Warnings are reported but do not withhold
/// the note.
pub open spec fn error_free(msgs: Seq<CompilationMessage>) -> bool {
    forall|i: int| 0 <= i < msgs.len() ==> !(msgs[i].kind is Error)
}

/// Whether any diagnostic has error severity; see `error_free`.
pub fn has_error_entry(msgs: &Vec<CompilationMessage>) -> (r: bool)
    ensures
        r <==> !error_free(msgs@),
{
    let mut i: usize = 0;
    while i < msgs.len()
        invariant
            i <= msgs@.len(),
            forall|j: int| 0 <= j < i ==> !(msgs@[j].kind is Error),
        decreases msgs@.len() - i,
    {
        let found = match msgs[i].kind {
            MessageKind::Error => true,
            MessageKind::Warning => false,
            MessageKind::Info => false,
        };
        if found {
            return true;
        }
        i = i + 1;
    }
    false
}

/// The note printed after a successful reload that took `elapsed`
/// seconds.
pub open spec fn success_note_text(elapsed: u64) -> Seq<char> {
    "reloaded prelude shader successfully in "@ + duration_text(elapsed)
}

/// What a reload hands back to the operator: the diagnostics to print on
/// the error channel and, when no diagnostic had error severity, the
/// success note with the elapsed time.
#[derive(Clone, Debug)]
pub struct ReloadReport {
    pub diagnostics: Vec<String>,
    pub summary: Option<String>,
}

/// The long-lived context, as plain data: what the decision logic reads
/// and updates. The replaceable unit — the active render pipeline paired
/// with its fragment shader module — is tracked by a generation number;
/// the host layer keeps the pipeline object of the current generation
/// and swaps it whenever the generation moves, so the active-pipeline
/// slot is never empty.
#[derive(Clone, Copy, Debug, PartialEq, Eq, Structural)]
pub struct GraphicsState {
    /// Presentation surface configuration, in pixels.
    pub surface_width: u32,
    pub surface_height: u32,
    /// The frame uniform record mirrored to the GPU each frame.
    pub uniforms: FrameUniforms,
    /// Identity of the active render pipeline.
    pub pipeline_generation: u64,
}

/// The context after a resize: the surface takes the new pixel size and
/// the record takes its encoding; nothing else moves.
pub open spec fn resized(
    g: GraphicsState,
    width: u32,
    height: u32,
    record_width: u32,
    record_height: u32,
) -> GraphicsState {
    GraphicsState {
        surface_width: width,
        surface_height: height,
        uniforms: with_resolution(g.uniforms, record_width, record_height),
        ..g
    }
}

/// The context after a pointer move: only the record's cursor words move.
pub open spec fn cursor_moved(g: GraphicsState, record_x: u32, record_y: u32) -> GraphicsState {
    GraphicsState { uniforms: with_cursor(g.uniforms, record_x, record_y), ..g }
}

/// The context after one presented frame: only the counter advances.
pub open spec fn presented(g: GraphicsState) -> GraphicsState {
    GraphicsState { uniforms: after_frame(g.uniforms), ..g }
}

/// The context after a reload: a fresh pipeline generation, whatever the
/// diagnostics said; the record and the surface are untouched.
pub open spec fn reloaded(g: GraphicsState) -> GraphicsState {
    GraphicsState {
        pipeline_generation: (((g.pipeline_generation + 1) % 0x1_0000_0000_0000_0000) as u64),
        ..g
    }
}

impl GraphicsState {
    /// The context as bootstrap constructs it: the window's pixel size,
    /// a fresh record carrying that size's encoding, and the first
    /// pipeline generation.
    pub fn new(width: u32, height: u32, record_width: u32, record_height: u32) -> (g:
        GraphicsState)
        ensures
            g == (GraphicsState {
                surface_width: width,
                surface_height: height,
                uniforms: initial_record(record_width, record_height),
                pipeline_generation: 0,
            }),
    {
        GraphicsState {
            surface_width: width,
            surface_height: height,
            uniforms: FrameUniforms::new(record_width, record_height),
            pipeline_generation: 0,
        }
    }

    /// A resize: the new pixel size for the surface, its encoding for
    /// the record. The host layer reconfigures the surface afterwards.
    pub fn resize(&mut self, width: u32, height: u32, record_width: u32, record_height: u32)
        ensures
            *final(self) == resized(*old(self), width, height, record_width, record_height),
    {
        self.surface_width = width;
        self.surface_height = height;
        self.uniforms.set_resolution(record_width, record_height);
    }

    /// A pointer move, as the encoded cursor position.
    pub fn set_cursor(&mut self, record_x: u32, record_y: u32)
        ensures
            *final(self) == cursor_moved(*old(self), record_x, record_y),
    {
        self.uniforms.set_cursor(record_x, record_y);
    }

    /// One presented frame: the wrapping counter advances.
    pub fn frame_presented(&mut self)
        ensures
            *final(self) == presented(*old(self)),
    {
        self.uniforms.advance_frame();
    }

    /// The reload protocol after the compiler has answered: triages the
    /// diagnostics, and replaces the active pipeline with the freshly
    /// built one whatever they said — the slot is assigned a new
    /// generation, never left on the previous one and never emptied.
    /// The summary is present exactly when no diagnostic had error
    /// severity.
    pub fn apply_reload(&mut self, msgs: &Vec<CompilationMessage>, elapsed_seconds: u64) -> (r:
        ReloadReport)
        ensures
            *final(self) == reloaded(*old(self)),
            final(self).pipeline_generation != old(self).pipeline_generation,
            r.diagnostics@.map_values(|s: String| s@) == reported_texts(msgs@),
            (r.summary is Some) <==> error_free(msgs@),
            r.summary matches Some(s) ==> s@ == success_note_text(elapsed_seconds),
    {
        let diagnostics = reportable_diagnostics(msgs);
        self.pipeline_generation = self.pipeline_generation.wrapping_add(1);
        let summary = if !has_error_entry(msgs) {
            let mut s = String::from_str("reloaded prelude shader successfully in ");
            let t = display_seconds(elapsed_seconds);
            s.append(t.as_str());
            Some(s)
        } else {
            None
        };
        ReloadReport { diagnostics, summary }
    }
}

} // verus!
