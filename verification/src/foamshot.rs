//! Capture/freeze orchestrator: the interaction state machine, the per-round
//! capture bookkeeping and the composed notifications.
//!
//! The orchestrator owns the output collection, the capture barrier and the
//! interaction state.  Protocol dispatch itself happens outside; the caller
//! asks [`FoamShot::next_directive`] what to do, performs the I/O, and feeds
//! completions and captured pixels back in.

use vstd::prelude::*;
use vstd::pervasive::unreached;
use vstd::string::StringExecFns;

use crate::barrier::CaptureBarrier;
use crate::foam_outputs::{FoamOutput, OutputEvent};
use crate::notify::{Notification, NotificationLevel};
use crate::render;

verus! {

/// Which way a freeze toggle goes.
#[derive(Clone, Copy, Debug, PartialEq, Eq, Structural)]
pub enum IsFreeze {
    /// Freeze onto a newly captured frame.
    NewFrameFreeze,
    /// Return to the live display.
    UnFreeze,
    /// Freeze onto the frame captured earlier.
    OldFrameFreeze,
}

/// The interaction state: exactly one value is live at a time, and it alone
/// decides which orchestration step runs next.
#[derive(Clone, Copy, Debug, PartialEq, Eq, Structural)]
pub enum Action {
    Init,
    WaitPointerPress,
    ToggleFreeze(IsFreeze),
    OnDraw,
    OnEdit,
    Exit,
}

impl Default for Action {
    /// The state a session starts in.
    fn default() -> (r: Self)
        ensures
            r == Action::Init,
    {
        Action::Init
    }
}

/// The image file format the encoder collaborator writes.
#[derive(Clone, Copy, Debug, PartialEq, Eq, Structural)]
pub enum ImageType {
    Png,
    Jpg,
}

/// Read-only configuration, consulted at exit.
pub struct FoamConfig {
    pub image_type: ImageType,
    pub output_path: String,
    pub allow_notify: bool,
}

impl FoamConfig {
    /// The defaults: PNG, no path chosen yet, notifications allowed.
    pub fn new() -> (r: Self)
        ensures
            r.image_type == ImageType::Png,
            r.output_path@ == Seq::<char>::empty(),
            r.allow_notify == true,
    {
        Self { image_type: ImageType::Png, output_path: String::new(), allow_notify: true }
    }
}

/// What the dispatch loop must do next, as a pure function of the
/// interaction state and the freeze flag.
#[derive(Clone, Copy, Debug, PartialEq, Eq, Structural)]
pub enum Directive {
    /// Keep dispatching events.
    Idle,
    /// Capture a fresh frame on every output, then re-attach frozen.
    FreezeNewFrame,
    /// Re-attach frozen onto the frame captured earlier.
    Refreeze,
    /// Re-attach the live pattern on every output.
    Unfreeze,
    /// Encode and terminate; when `capture_first` is set, one more capture
    /// round must run first so the encoder never sees an empty snapshot.
    SaveAndQuit { capture_first: bool },
}

/// The orchestrator: the output collection, the capture barrier, the freeze
/// flag and the interaction state.
pub struct FoamShot {
    /// One entry per discovered display, indexed by its id.
    pub outputs: Vec<FoamOutput>,
    /// Whether the compositor offers the capture protocol.
    pub scm_present: bool,
    /// Counts per-output capture completions for the current round.
    pub barrier: CaptureBarrier,
    /// Whether the displays currently show a frozen snapshot.
    pub current_freeze: bool,
    pub config: FoamConfig,
    pub action: Action,
}

impl FoamShot {
    /// Every output is well-formed and holds a stored snapshot of its own
    /// buffer size.
    pub open spec fn canvases_stored(self) -> bool {
        forall|i: int|
            0 <= i < self.outputs.len() ==> ((#[trigger] self.outputs[i]).wf()
                && (self.outputs[i].current_canvas matches Some(c) && c.len()
                == self.outputs[i].buf_len()))
    }

    /// Every output has a geometry a canvas can be allocated for.
    pub open spec fn outputs_configured(self) -> bool {
        forall|i: int| 0 <= i < self.outputs.len() ==> (#[trigger] self.outputs[i]).wf()
    }

    /// The barrier expects exactly one completion per output, and a frozen
    /// state always has a full set of snapshots — so exit from a frozen state
    /// can hand the encoder every display's pixels without another capture.
    pub open spec fn wf(self) -> bool {
        &&& self.barrier.outputs_total == self.outputs.len()
        &&& self.current_freeze ==> self.canvases_stored()
    }

    /// A fresh session: no outputs yet, nothing bound, unfrozen, default
    /// configuration, interaction state [`Action::Init`].
    pub fn new() -> (r: Self)
        ensures
            r.outputs.len() == 0,
            r.scm_present == false,
            r.barrier == (CaptureBarrier { copy_ready: 0, outputs_total: 0 }),
            r.current_freeze == false,
            r.config.image_type == ImageType::Png,
            r.config.output_path@ == Seq::<char>::empty(),
            r.config.allow_notify == true,
            r.action == Action::Init,
            r.wf(),
    {
        Self {
            outputs: Vec::new(),
            scm_present: false,
            barrier: CaptureBarrier::new(0),
            current_freeze: false,
            config: FoamConfig::new(),
            action: Action::default(),
        }
    }

    /// Registers one newly advertised display and returns its id.  Displays
    /// are discovered before the first capture round; hot-plug mid-session is
    /// unsupported.
    pub fn add_output(&mut self) -> (id: usize)
        requires
            old(self).barrier.copy_ready == 0,
            old(self).outputs.len() < usize::MAX,
        ensures
            id == old(self).outputs.len(),
            final(self).outputs.len() == old(self).outputs.len() + 1,
            forall|j: int|
                0 <= j < old(self).outputs.len() ==> final(self).outputs[j] == old(
                    self,
                ).outputs[j],
            final(self).outputs[id as int].is_fresh(id),
            final(self).barrier == (CaptureBarrier {
                copy_ready: 0,
                outputs_total: final(self).outputs.len(),
            }),
            *final(self) == (FoamShot {
                outputs: final(self).outputs,
                barrier: final(self).barrier,
                ..*old(self)
            }),
    {
        let id = self.outputs.len();
        self.outputs.push(FoamOutput::new(id));
        self.barrier = CaptureBarrier { copy_ready: 0, outputs_total: self.outputs.len() };
        id
    }

    /// Whether a capture can proceed at all: the compositor must offer the
    /// capture protocol, else the session must end before any output is
    /// touched.
    pub fn check_ok(&self) -> (b: bool)
        ensures
            b == self.scm_present,
    {
        self.scm_present
    }

    /// Whether the displays must first be restored to the live pattern
    /// before a capture is requested, so a stale frame is never captured.
    pub fn needs_unfreeze(&self) -> (b: bool)
        ensures
            b == (self.action == Action::ToggleFreeze(IsFreeze::UnFreeze) || self.action
                == Action::ToggleFreeze(IsFreeze::NewFrameFreeze)),
    {
        match self.action {
            Action::ToggleFreeze(IsFreeze::UnFreeze) => true,
            Action::ToggleFreeze(IsFreeze::NewFrameFreeze) => true,
            _ => false,
        }
    }

    /// Restores every output to the unfrozen pattern and clears the freeze
    /// flag, so the compositor shows a live frame again.
    pub fn unset_freeze(&mut self)
        requires
            old(self).outputs_configured(),
        ensures
            final(self).outputs.len() == old(self).outputs.len(),
            forall|j: int|
                0 <= j < old(self).outputs.len() ==> FoamOutput::no_freeze_attached(
                    old(self).outputs[j],
                    #[trigger] final(self).outputs[j],
                ),
            final(self).current_freeze == false,
            *final(self) == (FoamShot {
                outputs: final(self).outputs,
                current_freeze: false,
                ..*old(self)
            }),
    {
        let n = self.outputs.len();
        let mut i: usize = 0;
        while i < n
            invariant
                n == self.outputs.len(),
                self.outputs.len() == old(self).outputs.len(),
                i <= n,
                old(self).outputs_configured(),
                forall|j: int|
                    0 <= j < i ==> FoamOutput::no_freeze_attached(
                        old(self).outputs[j],
                        #[trigger] self.outputs[j],
                    ),
                forall|j: int| i <= j < n ==> self.outputs[j] == old(self).outputs[j],
                self.scm_present == old(self).scm_present,
                self.barrier == old(self).barrier,
                self.current_freeze == old(self).current_freeze,
                self.config == old(self).config,
                self.action == old(self).action,
            decreases n - i,
        {
            self.outputs[i].no_freeze_attach();
            i += 1;
        }
        self.current_freeze = false;
    }

    /// Re-attaches every output with the variant the target freeze flag asks
    /// for — the stored snapshot under the decorative pattern when freezing,
    /// the live pattern when unfreezing — and records the flag.
    pub fn toggle_freeze(&mut self, freeze: bool)
        requires
            old(self).outputs_configured(),
            freeze ==> old(self).canvases_stored(),
        ensures
            final(self).outputs.len() == old(self).outputs.len(),
            freeze ==> forall|j: int|
                0 <= j < old(self).outputs.len() ==> (old(
                    self,
                ).outputs[j].current_canvas matches Some(c) && FoamOutput::freeze_attached(
                    old(self).outputs[j],
                    #[trigger] final(self).outputs[j],
                    c@,
                )),
            !freeze ==> forall|j: int|
                0 <= j < old(self).outputs.len() ==> FoamOutput::no_freeze_attached(
                    old(self).outputs[j],
                    #[trigger] final(self).outputs[j],
                ),
            final(self).current_freeze == freeze,
            *final(self) == (FoamShot {
                outputs: final(self).outputs,
                current_freeze: freeze,
                ..*old(self)
            }),
    {
        let n = self.outputs.len();
        let mut i: usize = 0;
        while i < n
            invariant
                n == self.outputs.len(),
                self.outputs.len() == old(self).outputs.len(),
                i <= n,
                old(self).outputs_configured(),
                freeze ==> old(self).canvases_stored(),
                freeze ==> forall|j: int|
                    0 <= j < i ==> (old(self).outputs[j].current_canvas matches Some(c)
                        && FoamOutput::freeze_attached(
                        old(self).outputs[j],
                        #[trigger] self.outputs[j],
                        c@,
                    )),
                !freeze ==> forall|j: int|
                    0 <= j < i ==> FoamOutput::no_freeze_attached(
                        old(self).outputs[j],
                        #[trigger] self.outputs[j],
                    ),
                forall|j: int| i <= j < n ==> self.outputs[j] == old(self).outputs[j],
                self.scm_present == old(self).scm_present,
                self.barrier == old(self).barrier,
                self.current_freeze == old(self).current_freeze,
                self.config == old(self).config,
                self.action == old(self).action,
            decreases n - i,
        {
            if freeze {
                let snap: Vec<u8> = match &self.outputs[i].current_canvas {
                    Some(c) => render::copy_bytes(c),
                    None => unreached(),
                };
                self.outputs[i].freeze_attach(&snap);
            } else {
                self.outputs[i].no_freeze_attach();
            }
            i += 1;
        }
        self.current_freeze = freeze;
    }

    /// Stores the pixels captured in the round that just completed, one
    /// buffer per output, as each output's frozen snapshot.
    pub fn store_copy_canvas(&mut self, canvases: &Vec<Vec<u8>>)
        requires
            old(self).outputs_configured(),
            canvases.len() == old(self).outputs.len(),
            forall|j: int|
                0 <= j < canvases.len() ==> (#[trigger] canvases[j]).len() == old(
                    self,
                ).outputs[j].buf_len(),
        ensures
            final(self).outputs.len() == old(self).outputs.len(),
            forall|j: int|
                0 <= j < old(self).outputs.len() ==> #[trigger] final(self).outputs[j] == (
                FoamOutput {
                    current_canvas: final(self).outputs[j].current_canvas,
                    ..old(self).outputs[j]
                }),
            forall|j: int|
                0 <= j < old(self).outputs.len() ==> ((#[trigger] final(self).outputs[j]).current_canvas matches Some(c) && c@ == canvases[j]@),
            final(self).canvases_stored(),
            *final(self) == (FoamShot { outputs: final(self).outputs, ..*old(self) }),
    {
        let n = self.outputs.len();
        let mut i: usize = 0;
        while i < n
            invariant
                n == self.outputs.len(),
                self.outputs.len() == old(self).outputs.len(),
                i <= n,
                old(self).outputs_configured(),
                canvases.len() == n,
                forall|j: int|
                    0 <= j < n ==> (#[trigger] canvases[j]).len() == old(
                        self,
                    ).outputs[j].buf_len(),
                forall|j: int|
                    0 <= j < i ==> #[trigger] self.outputs[j] == (FoamOutput {
                        current_canvas: self.outputs[j].current_canvas,
                        ..old(self).outputs[j]
                    }),
                forall|j: int|
                    0 <= j < i ==> (#[trigger] self.outputs[j].current_canvas matches Some(c) && c@
                        == canvases[j]@),
                forall|j: int| i <= j < n ==> self.outputs[j] == old(self).outputs[j],
                self.scm_present == old(self).scm_present,
                self.barrier == old(self).barrier,
                self.current_freeze == old(self).current_freeze,
                self.config == old(self).config,
                self.action == old(self).action,
            decreases n - i,
        {
            let copy = render::copy_bytes(&canvases[i]);
            self.outputs[i].store_canvas(copy);
            i += 1;
        }
    }

    /// Routes one geometry update to the output it is keyed for.
    pub fn apply_output_event(&mut self, id: usize, event: OutputEvent)
        requires
            id < old(self).outputs.len(),
        ensures
            final(self).outputs.len() == old(self).outputs.len(),
            final(self).outputs[id as int] == FoamOutput::applied_event(
                old(self).outputs[id as int],
                event,
            ),
            forall|j: int|
                0 <= j < old(self).outputs.len() && j != id ==> final(self).outputs[j] == old(
                    self,
                ).outputs[j],
            *final(self) == (FoamShot { outputs: final(self).outputs, ..*old(self) }),
    {
        self.outputs[id].apply_output_event(event);
    }

    /// Whether every output already holds a stored snapshot of its buffer
    /// size, so a refreeze or an exit needs no further capture round.
    pub fn has_all_canvases(&self) -> (b: bool)
        ensures
            b == self.canvases_stored(),
    {
        let n = self.outputs.len();
        let mut i: usize = 0;
        while i < n
            invariant
                n == self.outputs.len(),
                i <= n,
                forall|j: int|
                    0 <= j < i ==> ((#[trigger] self.outputs[j]).wf()
                        && (self.outputs[j].current_canvas matches Some(c) && c.len()
                        == self.outputs[j].buf_len())),
            decreases n - i,
        {
            let o = &self.outputs[i];
            let w = o.width;
            let h = o.height;
            match &o.current_canvas {
                Some(c) => {
                    if w <= 0 || h <= 0 {
                        return false;
                    }
                    proof {
                        assert(0 <= (w as int) * (h as int) * 4 < 0x10000000000000000)
                            by (nonlinear_arith)
                            requires
                                0 < w < 0x80000000 && 0 < h < 0x80000000,
                        ;
                    }
                    let expected: u64 = (w as u64) * (h as u64) * 4;
                    if (c.len() as u64) != expected {
                        return false;
                    }
                },
                None => {
                    return false;
                },
            }
            i += 1;
        }
        true
    }

    /// What the dispatch loop does next, given the interaction state and the
    /// freeze flag.
    pub open spec fn directive_of(action: Action, frozen: bool) -> Directive {
        match action {
            Action::ToggleFreeze(IsFreeze::NewFrameFreeze) => Directive::FreezeNewFrame,
            Action::ToggleFreeze(IsFreeze::UnFreeze) => Directive::Unfreeze,
            Action::ToggleFreeze(IsFreeze::OldFrameFreeze) => Directive::Refreeze,
            Action::Exit => Directive::SaveAndQuit { capture_first: !frozen },
            _ => Directive::Idle,
        }
    }

    /// The next orchestration step: a pure function of the current
    /// interaction state and freeze flag.  Exit from an unfrozen state
    /// demands one capture round before encoding, so the encoder never
    /// receives an empty snapshot.
    pub fn next_directive(&self) -> (d: Directive)
        ensures
            d == Self::directive_of(self.action, self.current_freeze),
    {
        match self.action {
            Action::ToggleFreeze(IsFreeze::NewFrameFreeze) => Directive::FreezeNewFrame,
            Action::ToggleFreeze(IsFreeze::UnFreeze) => Directive::Unfreeze,
            Action::ToggleFreeze(IsFreeze::OldFrameFreeze) => Directive::Refreeze,
            Action::Exit => Directive::SaveAndQuit { capture_first: !self.current_freeze },
            _ => Directive::Idle,
        }
    }

    /// After a freeze toggle has been handled the session waits for the next
    /// pointer press.
    pub fn finish_toggle(&mut self)
        ensures
            *final(self) == (FoamShot { action: Action::WaitPointerPress, ..*old(self) }),
    {
        self.action = Action::WaitPointerPress;
    }

    /// Exit from a well-formed frozen state already has every display's
    /// snapshot stored: only exit from an unfrozen state needs the one extra
    /// capture round that [`FoamShot::next_directive`] demands.
    pub proof fn lemma_exit_has_snapshots(s: FoamShot)
        requires
            s.wf(),
            Self::directive_of(s.action, s.current_freeze) == (Directive::SaveAndQuit {
                capture_first: false,
            }),
        ensures
            s.canvases_stored(),
    {
    }

    /// The notification confirming where the image was saved.
    pub fn send_save_info(&self) -> (n: Notification)
        ensures
            n.level == NotificationLevel::Info,
            n.summary@ == "image_saved"@,
            n.body@ == "Image saved in "@ + self.config.output_path@,
            n.image_path@ == self.config.output_path@,
            n.allow == self.config.allow_notify,
    {
        let mut body = String::from_str("Image saved in ");
        body.append(self.config.output_path.as_str());
        Notification {
            level: NotificationLevel::Info,
            summary: String::from_str("image_saved"),
            body,
            image_path: self.config.output_path.clone(),
            allow: self.config.allow_notify,
        }
    }

    /// A fatal-error notification.
    pub fn send_error(&self, body: &str) -> (n: Notification)
        ensures
            n.level == NotificationLevel::Error,
            n.summary@ == "foamshot error"@,
            n.body@ == body@,
            n.image_path@ == "dialog-error"@,
            n.allow == self.config.allow_notify,
    {
        Notification {
            level: NotificationLevel::Error,
            summary: String::from_str("foamshot error"),
            body: String::from_str(body),
            image_path: String::from_str("dialog-error"),
            allow: self.config.allow_notify,
        }
    }

    /// A warning notification.
    pub fn send_warn(&self, body: &str) -> (n: Notification)
        ensures
            n.level == NotificationLevel::Warn,
            n.summary@ == "foamshot warn"@,
            n.body@ == body@,
            n.image_path@ == "dialog-warning"@,
            n.allow == self.config.allow_notify,
    {
        Notification {
            level: NotificationLevel::Warn,
            summary: String::from_str("foamshot warn"),
            body: String::from_str(body),
            image_path: String::from_str("dialog-warning"),
            allow: self.config.allow_notify,
        }
    }
}

} // verus!
