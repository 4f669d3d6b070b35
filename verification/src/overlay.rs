//! Lifecycle of the single reusable overlay window.
//!
//! Exactly one full-screen transparent overlay window exists per process;
//! it is created lazily, positioned on the monitor under the pointer, and
//! reused across capture sessions. The manager here is the exclusive owner
//! of that window's record: it decides what the platform must do (create
//! or reposition) and records the committed outcome. The platform calls
//! themselves — building, moving, showing and hiding the real window —
//! happen on the UI-owning context outside this crate; each request is
//! planned here, performed there, and committed back here before capture
//! proceeds.
//!
//! Reuse policy: hide-and-keep. `hide_window` switches visibility off and
//! keeps the window for the next session; `close` supports the alternate
//! destroy-and-recreate policy, after which the next ensure request plans
//! a creation. The two are never mixed implicitly: callers pick one.
use vstd::prelude::*;
use vstd::string::StringExecFns;
use crate::Point;
use crate::PlatformError;
use crate::geometry::Monitor;
use crate::geometry::Rect;
use crate::geometry::all_wf;
use crate::geometry::monitor_under_pointer;
use crate::geometry::selected_index;

verus! {

/// The overlay window while it exists: platform identity, the frame it
/// was last committed to, and its visibility flag.
#[derive(Clone, Copy, PartialEq, Eq, Structural, Debug)]
pub struct OverlayWindow {
    pub id: u64,
    pub frame: Rect,
    pub visible: bool,
}

/// What the platform must do to satisfy an ensure request: build a new
/// window covering the given frame, with the fixed attribute set of
/// `overlay_window_attributes`, or move the existing window onto the
/// frame.
#[derive(Clone, Copy, PartialEq, Eq, Structural, Debug)]
pub enum EnsureStep {
    Create { frame: Rect },
    Reposition { id: u64, frame: Rect },
}

/// The window attributes an overlay window is created with.
#[derive(Clone, Copy, PartialEq, Eq, Structural, Debug)]
pub struct WindowAttributes {
    /// No title bar or border.
    pub decorations: bool,
    pub resizable: bool,
    pub always_on_top: bool,
    /// Excluded from the taskbar or dock switcher.
    pub skip_taskbar: bool,
    /// Created invisible; shown only once positioned.
    pub visible: bool,
}

/// The fixed attribute set of the overlay window: undecorated,
/// non-resizable, always on top, excluded from the taskbar, initially
/// invisible.
pub fn overlay_window_attributes() -> (r: WindowAttributes)
    ensures
        r == (WindowAttributes {
            decorations: false,
            resizable: false,
            always_on_top: true,
            skip_taskbar: true,
            visible: false,
        }),
{
    WindowAttributes {
        decorations: false,
        resizable: false,
        always_on_top: true,
        skip_taskbar: true,
        visible: false,
    }
}

/// The frame of the monitor under the pointer, falling back to the first
/// enumerated monitor when the pointer is on none. Meaningful only for a
/// non-empty snapshot.
pub open spec fn target_frame(mons: Seq<Monitor>, p: Point) -> Rect {
    mons[selected_index(mons, p)].frame_spec()
}

/// Owner of the single overlay window record.
#[derive(Clone, Copy, Debug)]
pub struct OverlayManager {
    /// The window, once one has been created and committed.
    pub window: Option<OverlayWindow>,
}

impl OverlayManager {
    /// A window exists.
    pub open spec fn has_window(self) -> bool {
        self.window is Some
    }

    /// The existing window's identity; meaningful only when one exists.
    pub open spec fn window_id(self) -> u64 {
        match self.window {
            Some(w) => w.id,
            None => 0,
        }
    }

    /// The overlay is currently visible.
    pub open spec fn is_visible(self) -> bool {
        match self.window {
            Some(w) => w.visible,
            None => false,
        }
    }

    /// The step an ensure request plans in this state: reuse and
    /// reposition the existing window, else create one.
    pub open spec fn planned_step(self, p: Point, mons: Seq<Monitor>) -> EnsureStep {
        match self.window {
            None => EnsureStep::Create { frame: target_frame(mons, p) },
            Some(w) => EnsureStep::Reposition { id: w.id, frame: target_frame(mons, p) },
        }
    }

    /// This state with the window moved onto `frame`: identity and
    /// visibility untouched. Without a window, the state itself.
    pub open spec fn repositioned(self, frame: Rect) -> OverlayManager {
        match self.window {
            None => self,
            Some(w) => OverlayManager {
                window: Some(OverlayWindow { id: w.id, frame, visible: w.visible }),
            },
        }
    }

    /// This state with the window's visibility set to `v`: identity and
    /// frame untouched. Without a window, the state itself.
    pub open spec fn with_visibility(self, v: bool) -> OverlayManager {
        match self.window {
            None => self,
            Some(w) => OverlayManager {
                window: Some(OverlayWindow { id: w.id, frame: w.frame, visible: v }),
            },
        }
    }

    /// A fresh manager: no window yet; the first ensure request plans a
    /// creation.
    pub fn new() -> (r: OverlayManager)
        ensures
            r.window is None,
    {
        OverlayManager { window: None }
    }

    /// Plans an ensure request: determines the monitor under the current
    /// pointer position and returns the step the platform must perform —
    /// reposition the existing window (the idempotent path) or create one.
    /// Fails exactly when the enumeration snapshot is empty, in which case
    /// nothing is planned and the state is untouched (the manager itself
    /// is not even mutated: planning is read-only).
    pub fn plan_ensure(&self, pointer: Point, mons: &Vec<Monitor>) -> (r: Result<
        EnsureStep,
        PlatformError,
    >)
        requires
            all_wf(mons@),
        ensures
            (r is Err) == (mons@.len() == 0),
            r matches Ok(step) ==> step == self.planned_step(pointer, mons@),
    {
        match monitor_under_pointer(mons, pointer) {
            None => Err(
                PlatformError {
                    message: String::from_str("display enumeration returned no monitor"),
                },
            ),
            Some(i) => {
                let frame = mons[i].frame();
                match &self.window {
                    None => Ok(EnsureStep::Create { frame }),
                    Some(w) => Ok(EnsureStep::Reposition { id: w.id, frame }),
                }
            },
        }
    }

    /// Records a window the platform just created for the planned frame.
    /// The new window starts invisible; creation while a window exists is
    /// excluded — the destroy-then-create transition must complete (via
    /// `close`) before a new creation is committed, so no caller ever
    /// observes a half-destroyed window.
    pub fn commit_created(&mut self, id: u64, frame: Rect)
        requires
            !old(self).has_window(),
        ensures
            final(self).window == Some(OverlayWindow { id, frame, visible: false }),
    {
        self.window = Some(OverlayWindow { id, frame, visible: false });
    }

    /// Records that the platform moved the existing window onto `frame`.
    /// Identity and visibility are untouched: repositioning never
    /// recreates.
    pub fn commit_positioned(&mut self, frame: Rect)
        requires
            old(self).has_window(),
        ensures
            *final(self) == old(self).repositioned(frame),
    {
        match self.window {
            None => {},
            Some(w) => {
                self.window = Some(OverlayWindow { id: w.id, frame, visible: w.visible });
            },
        }
    }

    /// Records that the overlay was made visible.
    pub fn show(&mut self)
        requires
            old(self).has_window(),
        ensures
            *final(self) == old(self).with_visibility(true),
    {
        match self.window {
            None => {},
            Some(w) => {
                self.window = Some(OverlayWindow { id: w.id, frame: w.frame, visible: true });
            },
        }
    }

    /// Switches visibility off without destroying the window: the fast
    /// path that keeps the window for the next capture session. Identity
    /// and frame are untouched; without a window there is nothing to hide.
    pub fn hide_window(&mut self)
        ensures
            *final(self) == old(self).with_visibility(false),
    {
        match self.window {
            None => {},
            Some(w) => {
                self.window = Some(OverlayWindow { id: w.id, frame: w.frame, visible: false });
            },
        }
    }

    /// Forgets the window record after the platform destroyed the window:
    /// the alternate destroy-and-recreate policy. The next ensure request
    /// plans a creation.
    pub fn close(&mut self)
        ensures
            final(self).window is None,
    {
        self.window = None;
    }
}

/// Law: an ensure request is idempotent on an existing window. Two
/// plan-and-commit rounds without an intervening close keep the window's
/// identity — the same window is handed back, never a second one — and
/// the second round still repositions the window onto the monitor
/// currently under the pointer.
pub proof fn lemma_ensure_idempotent(
    m: OverlayManager,
    p1: Point,
    p2: Point,
    mons1: Seq<Monitor>,
    mons2: Seq<Monitor>,
)
    requires
        m.has_window(),
        mons1.len() > 0,
        mons2.len() > 0,
    ensures
        m.planned_step(p1, mons1) matches EnsureStep::Reposition { id: id1, frame: f1 } && {
            let m1 = m.repositioned(f1);
            &&& m1.planned_step(p2, mons2) == (EnsureStep::Reposition {
                id: id1,
                frame: target_frame(mons2, p2),
            })
            &&& m1.repositioned(target_frame(mons2, p2)).window_id() == m.window_id()
            &&& id1 == m.window_id()
        },
{
}

} // verus!
