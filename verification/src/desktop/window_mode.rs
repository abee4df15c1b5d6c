//! Window modes and the state shared between the handlers that change them.

use vstd::prelude::*;
use std::sync::Arc;
use std::sync::Mutex;
use crate::text::str_equal;

verus! {

/// How the visualizer window sits on the desktop.
#[derive(Debug, Clone, Copy, PartialEq, Eq, Structural)]
pub enum WindowMode {
    /// An ordinary decorated window.
    Normal,
    /// Undecorated, pinned below all other windows.
    DesktopWidget,
    /// Undecorated, floating above all other windows.
    Overlay,
}

impl Default for WindowMode {
    fn default() -> (mode: Self)
        ensures
            mode == WindowMode::Normal,
    {
        WindowMode::Normal
    }
}

impl WindowMode {
    /// The mode that the settings text `value` names. Names are matched
    /// exactly; anything unknown means the normal window.
    pub open spec fn parse(value: Seq<char>) -> WindowMode {
        if value == "desktopWidget"@ {
            WindowMode::DesktopWidget
        } else if value == "overlay"@ {
            WindowMode::Overlay
        } else {
            WindowMode::Normal
        }
    }

    /// Reads a mode from its name in the settings.
    pub fn from_raw(value: &str) -> (mode: Self)
        ensures
            mode == Self::parse(value@),
    {
        if str_equal(value, "desktopWidget") {
            WindowMode::DesktopWidget
        } else if str_equal(value, "overlay") {
            WindowMode::Overlay
        } else {
            WindowMode::Normal
        }
    }
}

/// A property of the window that entering a mode sets.
#[derive(Debug, Clone, Copy, PartialEq, Eq, Structural)]
pub enum WindowSetting {
    Decorations,
    Resizable,
    SkipTaskbar,
    AlwaysOnBottom,
    AlwaysOnTop,
    Focusable,
}

/// One change to the window: `setting` is switched on or off.
#[derive(Debug, Clone, Copy, PartialEq, Eq, Structural)]
pub struct WindowStep {
    pub setting: WindowSetting,
    pub enabled: bool,
}

impl WindowMode {
    /// Whether `setting` is on in this mode. Only the normal window has a
    /// frame, can be resized and shows in the taskbar; the widget is pinned
    /// below, the overlay above; every mode can take focus.
    pub open spec fn wants(self, setting: WindowSetting) -> bool {
        match setting {
            WindowSetting::Decorations => self == WindowMode::Normal,
            WindowSetting::Resizable => self == WindowMode::Normal,
            WindowSetting::SkipTaskbar => self != WindowMode::Normal,
            WindowSetting::AlwaysOnBottom => self == WindowMode::DesktopWidget,
            WindowSetting::AlwaysOnTop => self == WindowMode::Overlay,
            WindowSetting::Focusable => true,
        }
    }

    /// The order in which the settings are applied on entering this mode.
    /// Of the two stacking settings, the one the mode switches on comes last.
    pub open spec fn setting_order(self) -> Seq<WindowSetting> {
        if self == WindowMode::DesktopWidget {
            seq![
                WindowSetting::Decorations,
                WindowSetting::Resizable,
                WindowSetting::SkipTaskbar,
                WindowSetting::AlwaysOnTop,
                WindowSetting::AlwaysOnBottom,
                WindowSetting::Focusable,
            ]
        } else {
            seq![
                WindowSetting::Decorations,
                WindowSetting::Resizable,
                WindowSetting::SkipTaskbar,
                WindowSetting::AlwaysOnBottom,
                WindowSetting::AlwaysOnTop,
                WindowSetting::Focusable,
            ]
        }
    }

    /// The changes that put the window into this mode, in order.
    pub open spec fn steps(self) -> Seq<WindowStep> {
        Seq::new(
            self.setting_order().len(),
            |i: int|
                WindowStep {
                    setting: self.setting_order()[i],
                    enabled: self.wants(self.setting_order()[i]),
                },
        )
    }
}

fn step_for(mode: WindowMode, setting: WindowSetting) -> (step: WindowStep)
    ensures
        step == (WindowStep { setting, enabled: mode.wants(setting) }),
{
    let normal = matches!(mode, WindowMode::Normal);
    let enabled = match setting {
        WindowSetting::Decorations => normal,
        WindowSetting::Resizable => normal,
        WindowSetting::SkipTaskbar => !normal,
        WindowSetting::AlwaysOnBottom => matches!(mode, WindowMode::DesktopWidget),
        WindowSetting::AlwaysOnTop => matches!(mode, WindowMode::Overlay),
        WindowSetting::Focusable => true,
    };
    WindowStep { setting, enabled }
}

/// The changes that put the window into `mode`, in the order in which they
/// are to be applied.
pub fn window_mode_steps(mode: WindowMode) -> (steps: Vec<WindowStep>)
    ensures
        steps@ == mode.steps(),
{
    let widget = matches!(mode, WindowMode::DesktopWidget);
    let mut steps: Vec<WindowStep> = Vec::with_capacity(6);
    steps.push(step_for(mode, WindowSetting::Decorations));
    steps.push(step_for(mode, WindowSetting::Resizable));
    steps.push(step_for(mode, WindowSetting::SkipTaskbar));
    if widget {
        steps.push(step_for(mode, WindowSetting::AlwaysOnTop));
        steps.push(step_for(mode, WindowSetting::AlwaysOnBottom));
    } else {
        steps.push(step_for(mode, WindowSetting::AlwaysOnBottom));
        steps.push(step_for(mode, WindowSetting::AlwaysOnTop));
    }
    steps.push(step_for(mode, WindowSetting::Focusable));
    assert(steps@ =~= mode.steps());
    steps
}

/// What to report when `step` cannot be applied.
pub open spec fn step_failure(step: WindowStep) -> Seq<char> {
    match step.setting {
        WindowSetting::Decorations => if step.enabled {
            "failed to enable decorations"@
        } else {
            "failed to disable decorations"@
        },
        WindowSetting::Resizable => "failed to set resizable"@,
        WindowSetting::SkipTaskbar => if step.enabled {
            "failed to hide taskbar item"@
        } else {
            "failed to show taskbar item"@
        },
        WindowSetting::AlwaysOnBottom => if step.enabled {
            "failed to enable always-on-bottom"@
        } else {
            "failed to disable always-on-bottom"@
        },
        WindowSetting::AlwaysOnTop => if step.enabled {
            "failed to enable always-on-top"@
        } else {
            "failed to disable always-on-top"@
        },
        WindowSetting::Focusable => "failed to set focusable"@,
    }
}

/// The message that names `step` as the one that failed.
pub fn step_failure_label(step: WindowStep) -> (label: &'static str)
    ensures
        label@ == step_failure(step),
{
    match step.setting {
        WindowSetting::Decorations => if step.enabled {
            "failed to enable decorations"
        } else {
            "failed to disable decorations"
        },
        WindowSetting::Resizable => "failed to set resizable",
        WindowSetting::SkipTaskbar => if step.enabled {
            "failed to hide taskbar item"
        } else {
            "failed to show taskbar item"
        },
        WindowSetting::AlwaysOnBottom => if step.enabled {
            "failed to enable always-on-bottom"
        } else {
            "failed to disable always-on-bottom"
        },
        WindowSetting::AlwaysOnTop => if step.enabled {
            "failed to enable always-on-top"
        } else {
            "failed to disable always-on-top"
        },
        WindowSetting::Focusable => "failed to set focusable",
    }
}

impl WindowMode {
    /// Where in the order of this mode `setting` is applied.
    pub open spec fn position(self, setting: WindowSetting) -> int {
        match setting {
            WindowSetting::Decorations => 0,
            WindowSetting::Resizable => 1,
            WindowSetting::SkipTaskbar => 2,
            WindowSetting::AlwaysOnBottom => if self == WindowMode::DesktopWidget {
                4
            } else {
                3
            },
            WindowSetting::AlwaysOnTop => if self == WindowMode::DesktopWidget {
                3
            } else {
                4
            },
            WindowSetting::Focusable => 5,
        }
    }
}

/// Entering any mode sets each of the six settings exactly once, to what the
/// mode wants. No mode pins the window above and below at once, and the pin
/// a mode takes is applied after the other one has been released.
pub proof fn lemma_mode_steps_consistent(mode: WindowMode)
    ensures
        mode.steps().len() == 6,
        forall|setting: WindowSetting|
            0 <= #[trigger] mode.position(setting) < 6 && mode.steps()[mode.position(
                setting,
            )] == (WindowStep { setting, enabled: mode.wants(setting) }),
        forall|i: int|
            0 <= i < 6 ==> mode.position((#[trigger] mode.steps()[i]).setting) == i,
        !(mode.wants(WindowSetting::AlwaysOnTop) && mode.wants(WindowSetting::AlwaysOnBottom)),
        mode.wants(WindowSetting::AlwaysOnTop) ==> mode.position(WindowSetting::AlwaysOnBottom)
            < mode.position(WindowSetting::AlwaysOnTop),
        mode.wants(WindowSetting::AlwaysOnBottom) ==> mode.position(WindowSetting::AlwaysOnTop)
            < mode.position(WindowSetting::AlwaysOnBottom),
{
    let steps = mode.steps();
    let order = mode.setting_order();
    assert(order.len() == 6);
    assert forall|i: int| 0 <= i < 6 implies mode.position((#[trigger] steps[i]).setting)
        == i by {
        assert(steps[i].setting == order[i]);
    }
}

/// The window behaviour in force at one moment.
#[derive(Debug, Clone, Copy)]
pub struct WindowBehaviorSnapshot {
    pub mode: WindowMode,
    /// Whether click-through is asked for; whether it takes effect depends
    /// on the mode.
    pub click_through: bool,
}

impl WindowBehaviorSnapshot {
    /// The behaviour reported when the shared state cannot be read: a normal
    /// window that takes clicks.
    pub fn fallback() -> (snapshot: Self)
        ensures
            snapshot.mode == WindowMode::Normal,
            !snapshot.click_through,
    {
        WindowBehaviorSnapshot { mode: WindowMode::Normal, click_through: false }
    }

    /// What a reader of the shared state reports: the behaviour it found
    /// behind the lock, or the fallback where the lock was poisoned and
    /// nothing could be read.
    pub fn or_fallback(read: Option<WindowBehaviorSnapshot>) -> (snapshot: Self)
        ensures
            snapshot == match read {
                Some(held) => held,
                None => (WindowBehaviorSnapshot { mode: WindowMode::Normal, click_through: false }),
            },
    {
        match read {
            Some(held) => held,
            None => WindowBehaviorSnapshot::fallback(),
        }
    }

    /// This behaviour with the mode replaced.
    pub fn with_mode(self, mode: WindowMode) -> (snapshot: Self)
        ensures
            snapshot.mode == mode,
            snapshot.click_through == self.click_through,
    {
        WindowBehaviorSnapshot { mode, click_through: self.click_through }
    }

    /// This behaviour with the click-through request replaced.
    pub fn with_click_through(self, enabled: bool) -> (snapshot: Self)
        ensures
            snapshot.mode == self.mode,
            snapshot.click_through == enabled,
    {
        WindowBehaviorSnapshot { mode: self.mode, click_through: enabled }
    }
}

/// Window behaviour shared between command handlers. Clones share one state.
#[derive(Clone)]
pub struct WindowBehaviorState {
    inner: Arc<Mutex<WindowBehaviorSnapshot>>,
}

impl WindowBehaviorState {
    /// A shared state that starts from the given behaviour.
    pub fn new(mode: WindowMode, click_through: bool) -> Self {
        WindowBehaviorState {
            inner: Arc::new(Mutex::new(WindowBehaviorSnapshot { mode, click_through })),
        }
    }

    /// The behaviour in force now, or the fallback where the state was
    /// poisoned by a panicking writer.
    pub fn get(&self) -> WindowBehaviorSnapshot {
        let read = match self.inner.lock() {
            Ok(guard) => Some(*guard),
            Err(_) => None,
        };
        WindowBehaviorSnapshot::or_fallback(read)
    }

    /// Replaces the mode and keeps the click-through request.
    pub fn set_mode(&self, mode: WindowMode) {
        match self.inner.lock() {
            Ok(mut guard) => {
                let current: WindowBehaviorSnapshot = *guard;
                *guard = current.with_mode(mode);
            },
            Err(_) => {},
        }
    }

    /// Replaces the click-through request and keeps the mode.
    pub fn set_click_through(&self, enabled: bool) {
        match self.inner.lock() {
            Ok(mut guard) => {
                let current: WindowBehaviorSnapshot = *guard;
                *guard = current.with_click_through(enabled);
            },
            Err(_) => {},
        }
    }
}

} // verus!
