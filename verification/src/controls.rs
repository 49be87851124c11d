//! What the viewer does in answer to keys, double clicks and edge buttons.
//!
//! The decisions are taken here on a small view state; the caller carries out
//! the returned commands in order (loading images, changing the window,
//! showing notices).
use vstd::prelude::*;
use crate::config::{DoubleClickAction, FilmstripVisibility, FilterMode, WindowMode};

verus! {

/// The keys pressed during one frame.
pub struct KeyPresses {
    /// Left arrow or A.
    pub prev: bool,
    /// Right arrow or D.
    pub next: bool,
    /// Home.
    pub first: bool,
    /// End.
    pub last: bool,
    /// F or 0.
    pub fit: bool,
    /// 1.
    pub actual_size: bool,
    /// F11.
    pub toggle_window: bool,
    /// Escape.
    pub escape: bool,
    /// O.
    pub open: bool,
    /// S.
    pub settings: bool,
    /// T.
    pub cycle_filmstrip: bool,
    /// N.
    pub cycle_filter: bool,
    /// I.
    pub toggle_info: bool,
}

/// The part of the viewer's state that key presses change directly.
#[derive(Clone, Copy, Debug, PartialEq, Eq, Structural)]
pub struct ViewState {
    pub window_mode: WindowMode,
    pub settings_open: bool,
    pub filmstrip_visibility: FilmstripVisibility,
    pub filter_mode: FilterMode,
    pub show_info_badge: bool,
}

/// A short notice shown to the user.
#[derive(Clone, Copy, Debug, PartialEq, Eq, Structural)]
pub enum Toast {
    FitToWindow,
    ActualSize,
    WindowMode(WindowMode),
    Filmstrip(FilmstripVisibility),
    Filter(FilterMode),
}

/// Work for the caller, in the order the keys are handled.
#[derive(Clone, Copy, Debug, PartialEq, Eq, Structural)]
pub enum ViewCommand {
    NavigatePrev,
    NavigateNext,
    JumpTo(usize),
    /// Fit the image on screen, if any, to the window; `announce` shows the notice.
    FitToWindow { announce: bool },
    /// Show the image on screen, if any, at 100%; `announce` shows the notice.
    ActualSize { announce: bool },
    /// The window mode became this one: apply it and show its notice.
    WindowModeChanged(WindowMode),
    OpenFileDialog,
    /// The filter changed: re-upload the image on screen with it.
    RefreshTexture,
    ShowToast(Toast),
}

/// The text of a notice.
pub open spec fn toast_message(t: Toast) -> Seq<char> {
    match t {
        Toast::FitToWindow => "View: Fit to Window"@,
        Toast::ActualSize => "View: 1:1 (100%)"@,
        Toast::WindowMode(WindowMode::Windowed) => "Mode: Windowed"@,
        Toast::WindowMode(WindowMode::Overlay) => "Mode: Fullscreen overlay"@,
        Toast::Filmstrip(FilmstripVisibility::Hover) => "Filmstrip: Auto-hover"@,
        Toast::Filmstrip(FilmstripVisibility::Always) => "Filmstrip: Always visible"@,
        Toast::Filmstrip(FilmstripVisibility::Hidden) => "Filmstrip: Hidden"@,
        Toast::Filter(FilterMode::Auto) => "Filter: Auto (Crisp zoom)"@,
        Toast::Filter(FilterMode::Nearest) => "Filter: Nearest (Pixel art)"@,
        Toast::Filter(FilterMode::Bilinear) => "Filter: Bilinear (Smooth)"@,
    }
}

/// The text of a notice.
pub fn toast_text(t: Toast) -> (s: String)
    ensures
        s@ == toast_message(t),
{
    match t {
        Toast::FitToWindow => String::from_str("View: Fit to Window"),
        Toast::ActualSize => String::from_str("View: 1:1 (100%)"),
        Toast::WindowMode(WindowMode::Windowed) => String::from_str("Mode: Windowed"),
        Toast::WindowMode(WindowMode::Overlay) => String::from_str("Mode: Fullscreen overlay"),
        Toast::Filmstrip(FilmstripVisibility::Hover) => String::from_str("Filmstrip: Auto-hover"),
        Toast::Filmstrip(FilmstripVisibility::Always) => String::from_str(
            "Filmstrip: Always visible",
        ),
        Toast::Filmstrip(FilmstripVisibility::Hidden) => String::from_str("Filmstrip: Hidden"),
        Toast::Filter(FilterMode::Auto) => String::from_str("Filter: Auto (Crisp zoom)"),
        Toast::Filter(FilterMode::Nearest) => String::from_str("Filter: Nearest (Pixel art)"),
        Toast::Filter(FilterMode::Bilinear) => String::from_str("Filter: Bilinear (Smooth)"),
    }
}

/// `cmds` followed by `c` when `cond` holds.
pub open spec fn push_if(cmds: Seq<ViewCommand>, cond: bool, c: ViewCommand) -> Seq<ViewCommand> {
    if cond {
        cmds.push(c)
    } else {
        cmds
    }
}

/// The state after toggling the window mode.
pub open spec fn with_toggled_mode(s: ViewState) -> ViewState {
    ViewState { window_mode: s.window_mode.spec_toggled(), ..s }
}

/// Escape closes the settings when they are open, and otherwise leaves the
/// overlay mode; in windowed mode with the settings closed it does nothing.
pub open spec fn after_escape(s: ViewState, cmds: Seq<ViewCommand>) -> (ViewState, Seq<ViewCommand>) {
    if s.settings_open {
        (ViewState { settings_open: false, ..s }, cmds)
    } else if s.window_mode == WindowMode::Overlay {
        (
            with_toggled_mode(s),
            cmds.push(ViewCommand::WindowModeChanged(s.window_mode.spec_toggled())),
        )
    } else {
        (s, cmds)
    }
}

/// The keys up to F11 (navigation, view, window mode), handled in order.
pub open spec fn keyboard_first_part(s: ViewState, k: KeyPresses, file_count: nat) -> (
    ViewState,
    Seq<ViewCommand>,
) {
    let c0 = push_if(Seq::empty(), k.prev, ViewCommand::NavigatePrev);
    let c1 = push_if(c0, k.next, ViewCommand::NavigateNext);
    let c2 = push_if(c1, k.first && file_count > 0, ViewCommand::JumpTo(0));
    let c3 = push_if(
        c2,
        k.last && file_count > 0,
        ViewCommand::JumpTo((file_count - 1) as usize),
    );
    let c4 = push_if(c3, k.fit, ViewCommand::FitToWindow { announce: true });
    let c5 = push_if(c4, k.actual_size, ViewCommand::ActualSize { announce: true });
    if k.toggle_window {
        (with_toggled_mode(s), c5.push(ViewCommand::WindowModeChanged(s.window_mode.spec_toggled())))
    } else {
        (s, c5)
    }
}

/// All keys of one frame, handled in the order: previous, next, first, last,
/// fit, actual size, F11, Escape, open, settings, strip, filter, info.
pub open spec fn keyboard_outcome(s: ViewState, k: KeyPresses, file_count: nat) -> (
    ViewState,
    Seq<ViewCommand>,
) {
    let (s1, c1) = keyboard_first_part(s, k, file_count);
    let (s2, c2) = if k.escape {
        after_escape(s1, c1)
    } else {
        (s1, c1)
    };
    let c3 = push_if(c2, k.open, ViewCommand::OpenFileDialog);
    let s3 = if k.settings {
        ViewState { settings_open: !s2.settings_open, ..s2 }
    } else {
        s2
    };
    let (s4, c4) = if k.cycle_filmstrip {
        let v = s3.filmstrip_visibility.spec_next_in_cycle();
        (
            ViewState { filmstrip_visibility: v, ..s3 },
            c3.push(ViewCommand::ShowToast(Toast::Filmstrip(v))),
        )
    } else {
        (s3, c3)
    };
    let (s5, c5) = if k.cycle_filter {
        let f = s4.filter_mode.spec_next_in_cycle();
        (
            ViewState { filter_mode: f, ..s4 },
            c4.push(ViewCommand::RefreshTexture).push(ViewCommand::ShowToast(Toast::Filter(f))),
        )
    } else {
        (s4, c4)
    };
    let s6 = if k.toggle_info {
        ViewState { show_info_badge: !s5.show_info_badge, ..s5 }
    } else {
        s5
    };
    (s6, c5)
}

/// Updates the view state for the keys of one frame and returns the commands
/// the caller carries out, as `keyboard_outcome` gives them.
pub fn plan_keyboard(state: &mut ViewState, keys: &KeyPresses, file_count: usize) -> (cmds: Vec<ViewCommand>)
    ensures
        (*final(state), cmds@) == keyboard_outcome(*old(state), *keys, file_count as nat),
        final(state).show_info_badge == (old(state).show_info_badge != keys.toggle_info),
        final(state).filter_mode == (if !keys.cycle_filter {
            old(state).filter_mode
        } else {
            match old(state).filter_mode {
                FilterMode::Auto => FilterMode::Nearest,
                FilterMode::Nearest => FilterMode::Bilinear,
                FilterMode::Bilinear => FilterMode::Auto,
            }
        }),
        final(state).filmstrip_visibility == (if !keys.cycle_filmstrip {
            old(state).filmstrip_visibility
        } else {
            match old(state).filmstrip_visibility {
                FilmstripVisibility::Hover => FilmstripVisibility::Always,
                FilmstripVisibility::Always => FilmstripVisibility::Hidden,
                FilmstripVisibility::Hidden => FilmstripVisibility::Hover,
            }
        }),
        !keys.escape ==> final(state).settings_open == (old(state).settings_open != keys.settings),
        (!keys.toggle_window && !keys.escape) ==> final(state).window_mode == old(state).window_mode,
{
    let mut cmds: Vec<ViewCommand> = Vec::new();
    if keys.prev {
        cmds.push(ViewCommand::NavigatePrev);
    }
    if keys.next {
        cmds.push(ViewCommand::NavigateNext);
    }
    if keys.first && file_count > 0 {
        cmds.push(ViewCommand::JumpTo(0));
    }
    if keys.last && file_count > 0 {
        cmds.push(ViewCommand::JumpTo(file_count - 1));
    }
    if keys.fit {
        cmds.push(ViewCommand::FitToWindow { announce: true });
    }
    if keys.actual_size {
        cmds.push(ViewCommand::ActualSize { announce: true });
    }
    if keys.toggle_window {
        state.window_mode = state.window_mode.toggled();
        cmds.push(ViewCommand::WindowModeChanged(state.window_mode));
    }
    assert((*state, cmds@) == keyboard_first_part(*old(state), *keys, file_count as nat));
    if keys.escape {
        if state.settings_open {
            state.settings_open = false;
        } else if state.window_mode == WindowMode::Overlay {
            state.window_mode = state.window_mode.toggled();
            cmds.push(ViewCommand::WindowModeChanged(state.window_mode));
        }
    }
    if keys.open {
        cmds.push(ViewCommand::OpenFileDialog);
    }
    if keys.settings {
        state.settings_open = !state.settings_open;
    }
    if keys.cycle_filmstrip {
        state.filmstrip_visibility = state.filmstrip_visibility.next_in_cycle();
        cmds.push(ViewCommand::ShowToast(Toast::Filmstrip(state.filmstrip_visibility)));
    }
    if keys.cycle_filter {
        state.filter_mode = state.filter_mode.next_in_cycle();
        cmds.push(ViewCommand::RefreshTexture);
        cmds.push(ViewCommand::ShowToast(Toast::Filter(state.filter_mode)));
    }
    if keys.toggle_info {
        state.show_info_badge = !state.show_info_badge;
    }
    cmds
}

/// The I key shows or hides the information badge: over two frames its
/// state is changed once for each frame in which I was pressed, so pressing it
/// in both frames restores it.
pub proof fn lemma_info_badge_toggles(s: ViewState, k1: KeyPresses, k2: KeyPresses, n1: nat, n2: nat)
    ensures
        keyboard_outcome(s, k1, n1).0.show_info_badge == (s.show_info_badge != k1.toggle_info),
        keyboard_outcome(keyboard_outcome(s, k1, n1).0, k2, n2).0.show_info_badge == (
        s.show_info_badge != (k1.toggle_info != k2.toggle_info)),
        (k1.toggle_info && k2.toggle_info) ==> keyboard_outcome(
            keyboard_outcome(s, k1, n1).0,
            k2,
            n2,
        ).0.show_info_badge == s.show_info_badge,
{
}

/// The S key opens and closes the settings window when Escape is not pressed
/// in the same frame; pressing it in two frames restores the window.
pub proof fn lemma_settings_key_toggles(s: ViewState, k1: KeyPresses, k2: KeyPresses, n1: nat, n2: nat)
    ensures
        !k1.escape ==> keyboard_outcome(s, k1, n1).0.settings_open == (s.settings_open != k1.settings),
        (!k1.escape && !k2.escape && k1.settings && k2.settings) ==> keyboard_outcome(
            keyboard_outcome(s, k1, n1).0,
            k2,
            n2,
        ).0.settings_open == s.settings_open,
{
}

/// The command for a double click on the canvas: toggling the window mode
/// (the state records the new mode), fitting to the window or showing at
/// 100% (without a notice), or nothing.
pub fn plan_double_click(state: &mut ViewState, action: DoubleClickAction) -> (cmd: Option<ViewCommand>)
    ensures
        match action {
            DoubleClickAction::ToggleWindowMode => *final(state) == with_toggled_mode(*old(state))
                && cmd == Some(ViewCommand::WindowModeChanged(old(state).window_mode.spec_toggled())),
            DoubleClickAction::ToggleFitToWindow => *final(state) == *old(state) && cmd == Some(
                ViewCommand::FitToWindow { announce: false },
            ),
            DoubleClickAction::ToggleActualSize => *final(state) == *old(state) && cmd == Some(
                ViewCommand::ActualSize { announce: false },
            ),
            DoubleClickAction::NoAction => *final(state) == *old(state) && cmd is None,
        },
{
    match action {
        DoubleClickAction::ToggleWindowMode => {
            state.window_mode = state.window_mode.toggled();
            Some(ViewCommand::WindowModeChanged(state.window_mode))
        },
        DoubleClickAction::ToggleFitToWindow => Some(ViewCommand::FitToWindow { announce: false }),
        DoubleClickAction::ToggleActualSize => Some(ViewCommand::ActualSize { announce: false }),
        DoubleClickAction::NoAction => None,
    }
}

/// Toggles the window mode and returns the notice for the new mode.
pub fn toggle_window_mode(mode: &mut WindowMode) -> (t: Toast)
    ensures
        *final(mode) == old(mode).spec_toggled(),
        t == Toast::WindowMode(*final(mode)),
{
    *mode = mode.toggled();
    Toast::WindowMode(*mode)
}

} // verus!
