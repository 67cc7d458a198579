//! The application reducer: owns the UI-facing state and reduces each
//! incoming message — user action, tray command or host-window event —
//! into new state plus an ordered list of side effects for the shell
//! to perform.

use vstd::prelude::*;
use crate::config::Config;
use crate::config::WindowConfig;
use crate::config::config_wf;
use crate::config::has_rule_for;
use crate::config::has_rule_keyed_to;
use crate::config::is_rule_for;
use crate::config::lemma_remove_keyed_preserves_wf;
use crate::config::lemma_upsert_preserves_wf;
use crate::config::remove_keyed;
use crate::config::remove_rules_for;
use crate::config::upsert_rule;
use crate::enumerate::WindowInfo;
use crate::enumerate::window_info_wf;

verus! {

/// A message entering the reducer. User actions, tray commands and
/// host-window events are all translated into this one type before
/// they touch the state, so only the owning thread ever mutates it.
#[derive(Debug, Clone, Copy, PartialEq, Eq, Structural)]
pub enum Message {
    /// Re-run the enumeration pass.
    RefreshWindows,
    /// Select the window at this index of the current snapshot list.
    SelectWindow(usize),
    /// Move the selected window to this opacity percentage.
    UpdateTransparency(u8),
    /// Turn the durable rule for the selected window on or off.
    TogglePersist(bool),
    /// Move the default opacity to this percentage.
    UpdateDefaultOpacity(u8),
    /// Turn the default opacity on (at 100) or off.
    ToggleDefaultOpacity(bool),
    /// The host window was minimized or resized away: hide to tray.
    MinimizeToTray,
    /// The tray asked to bring the host window back.
    ShowWindow,
    /// The tray or the host asked to terminate.
    CloseRequested,
    /// A no-op, for events that mean nothing here.
    Ignore,
}

/// A side effect the reducer asks the shell to perform, in order.
#[derive(Debug, Clone, Copy, PartialEq, Eq, Structural)]
pub enum Action {
    /// Run the window enumeration pass and hand the list back.
    Enumerate,
    /// Apply a transparency percentage to the window with this handle.
    ApplyTransparency(u64, u8),
    /// Persist the rule store.
    SaveConfig,
    /// Hide the host window from view.
    HideHost,
    /// Minimize the host window.
    MinimizeHost,
    /// Restore the host window to windowed mode.
    RestoreHost,
    /// Un-minimize the host window.
    UnminimizeHost,
    /// Give the host window input focus.
    FocusHost,
    /// Terminate the process.
    Exit,
}

/// The UI-facing state the reducer owns.
#[derive(Debug, Clone)]
pub struct AppState {
    /// The rule store, mutated here and persisted by the shell.
    pub config: Config,
    /// The current snapshot list, replaced whole on each enumeration.
    pub windows: Vec<WindowInfo>,
    /// Index of the selected window, invalidated with the list.
    pub selected_window: Option<usize>,
    /// The opacity shown for the selection.
    pub current_transparency: u8,
    /// Whether the selection carries a durable rule.
    pub persist_setting: bool,
    /// The default opacity, mirrored from the store.
    pub default_opacity: Option<u8>,
    /// Whether a default opacity is in use at all.
    pub use_default_opacity: bool,
    /// The host window's own visibility state.
    pub window_visible: bool,
}

/// Well-formedness the reducer keeps: a selection indexes the current
/// list, and every opacity anywhere in the state is a percentage.
pub open spec fn state_wf(s: AppState) -> bool {
    &&& config_wf(s.config)
    &&& (s.selected_window matches Some(i) ==> i < s.windows@.len())
    &&& s.current_transparency <= 100
    &&& (s.default_opacity matches Some(d) ==> d <= 100)
    &&& (forall|i: int| 0 <= i < s.windows@.len() ==> window_info_wf(#[trigger] s.windows@[i]))
}

/// The transparency applications a new default opacity fans out: one
/// per window, in list order, skipping every window that carries an
/// explicit rule of its own.
pub open spec fn default_apply_actions(
    ws: Seq<WindowInfo>,
    rules: Seq<WindowConfig>,
    v: u8,
) -> Seq<Action>
    decreases ws.len(),
{
    if ws.len() == 0 {
        Seq::empty()
    } else {
        default_apply_actions(ws.drop_last(), rules, v) + (if has_rule_keyed_to(
            rules,
            ws.last().title@,
            ws.last().exe_name@,
        ) {
            Seq::<Action>::empty()
        } else {
            seq![Action::ApplyTransparency(ws.last().hwnd, v)]
        })
    }
}

/// Everything the reducer promises of one step: how the new state and
/// the emitted side effects follow from the old state and the message.
pub open spec fn update_ensures(
    pre: AppState,
    msg: Message,
    post: AppState,
    acts: Seq<Action>,
) -> bool {
    match msg {
        Message::Ignore => {
            &&& post == pre
            &&& acts == Seq::<Action>::empty()
        },
        Message::CloseRequested => {
            &&& post == pre
            &&& acts == seq![Action::Exit]
        },
        Message::MinimizeToTray => {
            &&& post == (AppState { window_visible: false, ..pre })
            &&& acts == seq![Action::HideHost, Action::MinimizeHost]
        },
        Message::ShowWindow => {
            &&& post == (AppState { window_visible: true, ..pre })
            &&& acts == seq![Action::RestoreHost, Action::UnminimizeHost, Action::FocusHost]
        },
        Message::RefreshWindows => {
            &&& post.windows@ == Seq::<WindowInfo>::empty()
            &&& post.selected_window is None
            &&& post.config == pre.config
            &&& post.current_transparency == pre.current_transparency
            &&& post.persist_setting == pre.persist_setting
            &&& post.default_opacity == pre.default_opacity
            &&& post.use_default_opacity == pre.use_default_opacity
            &&& post.window_visible == pre.window_visible
            &&& acts == seq![Action::Enumerate]
        },
        Message::SelectWindow(i) => {
            let w = pre.windows@[i as int];
            &&& post.selected_window == Some(i)
            &&& post.current_transparency == (match w.transparency {
                Some(p) => p,
                None => 100u8,
            })
            &&& post.persist_setting == has_rule_keyed_to(
                pre.config.specific_windows@,
                w.title@,
                w.exe_name@,
            )
            &&& post.config == pre.config
            &&& post.windows == pre.windows
            &&& post.default_opacity == pre.default_opacity
            &&& post.use_default_opacity == pre.use_default_opacity
            &&& post.window_visible == pre.window_visible
            &&& acts == Seq::<Action>::empty()
        },
        Message::UpdateTransparency(v) => {
            &&& post.current_transparency == v
            &&& post.selected_window == pre.selected_window
            &&& post.persist_setting == pre.persist_setting
            &&& post.windows == pre.windows
            &&& post.default_opacity == pre.default_opacity
            &&& post.use_default_opacity == pre.use_default_opacity
            &&& post.window_visible == pre.window_visible
            &&& match pre.selected_window {
                None => {
                    &&& post.config == pre.config
                    &&& acts == Seq::<Action>::empty()
                },
                Some(i) => {
                    let w = pre.windows@[i as int];
                    if pre.persist_setting {
                        &&& post.config.default_opacity == pre.config.default_opacity
                        &&& post.config.specific_windows@.len() == remove_keyed(
                            pre.config.specific_windows@,
                            w.title@,
                            w.exe_name@,
                        ).len() + 1
                        &&& post.config.specific_windows@.drop_last() == remove_keyed(
                            pre.config.specific_windows@,
                            w.title@,
                            w.exe_name@,
                        )
                        &&& is_rule_for(
                            post.config.specific_windows@.last(),
                            w.title@,
                            w.exe_name@,
                            v,
                        )
                        &&& acts == seq![
                            Action::ApplyTransparency(w.hwnd, v),
                            Action::SaveConfig,
                        ]
                    } else {
                        &&& post.config == pre.config
                        &&& acts == seq![Action::ApplyTransparency(w.hwnd, v)]
                    }
                },
            }
        },
        Message::TogglePersist(b) => {
            &&& post.persist_setting == b
            &&& post.selected_window == pre.selected_window
            &&& post.current_transparency == pre.current_transparency
            &&& post.windows == pre.windows
            &&& post.default_opacity == pre.default_opacity
            &&& post.use_default_opacity == pre.use_default_opacity
            &&& post.window_visible == pre.window_visible
            &&& match pre.selected_window {
                None => {
                    &&& post.config == pre.config
                    &&& acts == Seq::<Action>::empty()
                },
                Some(i) => {
                    let w = pre.windows@[i as int];
                    &&& post.config.default_opacity == pre.config.default_opacity
                    &&& acts == seq![Action::SaveConfig]
                    &&& if b {
                        &&& post.config.specific_windows@.len() == remove_keyed(
                            pre.config.specific_windows@,
                            w.title@,
                            w.exe_name@,
                        ).len() + 1
                        &&& post.config.specific_windows@.drop_last() == remove_keyed(
                            pre.config.specific_windows@,
                            w.title@,
                            w.exe_name@,
                        )
                        &&& is_rule_for(
                            post.config.specific_windows@.last(),
                            w.title@,
                            w.exe_name@,
                            pre.current_transparency,
                        )
                    } else {
                        post.config.specific_windows@ == remove_keyed(
                            pre.config.specific_windows@,
                            w.title@,
                            w.exe_name@,
                        )
                    }
                },
            }
        },
        Message::UpdateDefaultOpacity(v) => {
            &&& post.default_opacity == Some(v)
            &&& post.config.default_opacity == Some(v)
            &&& post.config.specific_windows == pre.config.specific_windows
            &&& post.windows == pre.windows
            &&& post.selected_window == pre.selected_window
            &&& post.current_transparency == pre.current_transparency
            &&& post.persist_setting == pre.persist_setting
            &&& post.use_default_opacity == pre.use_default_opacity
            &&& post.window_visible == pre.window_visible
            &&& acts == default_apply_actions(
                pre.windows@,
                pre.config.specific_windows@,
                v,
            ).push(Action::SaveConfig)
        },
        Message::ToggleDefaultOpacity(b) => {
            &&& post.use_default_opacity == b
            &&& post.default_opacity == (if b {
                Some(100u8)
            } else {
                None::<u8>
            })
            &&& post.config.default_opacity == (if b {
                Some(100u8)
            } else {
                None::<u8>
            })
            &&& post.config.specific_windows == pre.config.specific_windows
            &&& post.windows == pre.windows
            &&& post.selected_window == pre.selected_window
            &&& post.current_transparency == pre.current_transparency
            &&& post.persist_setting == pre.persist_setting
            &&& post.window_visible == pre.window_visible
            &&& acts == seq![Action::SaveConfig]
        },
    }
}

/// The state the application starts in, from the loaded store: empty
/// snapshot list, no selection, visible host window, and the default
/// opacity mirrored out of the store.
pub fn initial_state(config: Config) -> (s: AppState)
    requires
        config_wf(config),
    ensures
        s.config == config,
        s.windows@.len() == 0,
        s.selected_window is None,
        s.current_transparency == 0,
        !s.persist_setting,
        s.default_opacity == config.default_opacity,
        s.use_default_opacity == (config.default_opacity is Some),
        s.window_visible,
        state_wf(s),
{
    let use_default_opacity = config.default_opacity.is_some();
    let default_opacity = config.default_opacity;
    AppState {
        config,
        windows: Vec::new(),
        selected_window: None,
        current_transparency: 0,
        persist_setting: false,
        default_opacity,
        use_default_opacity,
        window_visible: true,
    }
}

/// Atomically replace the snapshot list after an enumeration pass:
/// the old list is discarded whole, and the selection, which indexed
/// it, is invalidated.
pub fn replace_windows(state: &mut AppState, windows: Vec<WindowInfo>)
    requires
        state_wf(*old(state)),
        forall|i: int| 0 <= i < windows@.len() ==> window_info_wf(#[trigger] windows@[i]),
    ensures
        final(state).windows == windows,
        final(state).selected_window is None,
        final(state).config == old(state).config,
        final(state).current_transparency == old(state).current_transparency,
        final(state).persist_setting == old(state).persist_setting,
        final(state).default_opacity == old(state).default_opacity,
        final(state).use_default_opacity == old(state).use_default_opacity,
        final(state).window_visible == old(state).window_visible,
        state_wf(*final(state)),
{
    state.windows = windows;
    state.selected_window = None;
}

/// One reducer step. The windowing side effects it asks for are only
/// requested, never performed here: the shell performs them in order
/// and treats a failed transparency application as non-fatal.
pub fn update(state: &mut AppState, msg: Message) -> (actions: Vec<Action>)
    requires
        state_wf(*old(state)),
        msg matches Message::SelectWindow(i) ==> i < old(state).windows@.len(),
        msg matches Message::UpdateTransparency(v) ==> v <= 100,
        msg matches Message::UpdateDefaultOpacity(v) ==> v <= 100,
    ensures
        state_wf(*final(state)),
        update_ensures(*old(state), msg, *final(state), actions@),
{
    let mut actions: Vec<Action> = Vec::new();
    match msg {
        Message::Ignore => {},
        Message::CloseRequested => {
            actions.push(Action::Exit);
            proof {
                assert(actions@ =~= seq![Action::Exit]);
            }
        },
        Message::MinimizeToTray => {
            state.window_visible = false;
            actions.push(Action::HideHost);
            actions.push(Action::MinimizeHost);
            proof {
                assert(actions@ =~= seq![Action::HideHost, Action::MinimizeHost]);
            }
        },
        Message::ShowWindow => {
            state.window_visible = true;
            actions.push(Action::RestoreHost);
            actions.push(Action::UnminimizeHost);
            actions.push(Action::FocusHost);
            proof {
                assert(actions@ =~= seq![
                    Action::RestoreHost,
                    Action::UnminimizeHost,
                    Action::FocusHost,
                ]);
            }
        },
        Message::RefreshWindows => {
            state.windows.clear();
            state.selected_window = None;
            actions.push(Action::Enumerate);
            proof {
                assert(actions@ =~= seq![Action::Enumerate]);
            }
        },
        Message::SelectWindow(index) => {
            state.selected_window = Some(index);
            proof {
                assert(window_info_wf(state.windows@[index as int]));
            }
            state.current_transparency = match state.windows[index].transparency {
                Some(p) => p,
                None => 100,
            };
            state.persist_setting = has_rule_for(
                &state.config,
                state.windows[index].title.as_str(),
                state.windows[index].exe_name.as_str(),
            );
        },
        Message::UpdateTransparency(value) => {
            state.current_transparency = value;
            match state.selected_window {
                Some(index) => {
                    let hwnd: u64 = state.windows[index].hwnd;
                    actions.push(Action::ApplyTransparency(hwnd, value));
                    if state.persist_setting {
                        let title = state.windows[index].title.clone();
                        let exe = state.windows[index].exe_name.clone();
                        upsert_rule(&mut state.config, title.as_str(), exe.as_str(), value);
                        actions.push(Action::SaveConfig);
                        proof {
                            lemma_upsert_preserves_wf(
                                old(state).config.specific_windows@,
                                title@,
                                exe@,
                                value,
                                state.config.specific_windows@,
                            );
                            assert(actions@ =~= seq![
                                Action::ApplyTransparency(hwnd, value),
                                Action::SaveConfig,
                            ]);
                        }
                    } else {
                        proof {
                            assert(actions@ =~= seq![Action::ApplyTransparency(hwnd, value)]);
                        }
                    }
                },
                None => {},
            }
        },
        Message::TogglePersist(value) => {
            state.persist_setting = value;
            match state.selected_window {
                Some(index) => {
                    let title = state.windows[index].title.clone();
                    let exe = state.windows[index].exe_name.clone();
                    if value {
                        upsert_rule(
                            &mut state.config,
                            title.as_str(),
                            exe.as_str(),
                            state.current_transparency,
                        );
                        proof {
                            lemma_upsert_preserves_wf(
                                old(state).config.specific_windows@,
                                title@,
                                exe@,
                                old(state).current_transparency,
                                state.config.specific_windows@,
                            );
                        }
                    } else {
                        remove_rules_for(&mut state.config, title.as_str(), exe.as_str());
                        proof {
                            lemma_remove_keyed_preserves_wf(
                                old(state).config.specific_windows@,
                                title@,
                                exe@,
                            );
                        }
                    }
                    actions.push(Action::SaveConfig);
                    proof {
                        assert(actions@ =~= seq![Action::SaveConfig]);
                    }
                },
                None => {},
            }
        },
        Message::UpdateDefaultOpacity(value) => {
            state.default_opacity = Some(value);
            state.config.default_opacity = Some(value);
            let n: usize = state.windows.len();
            let mut k: usize = 0;
            proof {
                assert(state.windows@.subrange(0, 0) =~= Seq::<WindowInfo>::empty());
            }
            while k < n
                invariant
                    n == state.windows@.len(),
                    k <= n,
                    *state == (AppState {
                        default_opacity: Some(value),
                        config: Config {
                            default_opacity: Some(value),
                            ..old(state).config
                        },
                        ..*old(state)
                    }),
                    actions@ == default_apply_actions(
                        state.windows@.subrange(0, k as int),
                        state.config.specific_windows@,
                        value,
                    ),
                decreases n - k,
            {
                let w = &state.windows[k];
                let covered = has_rule_for(&state.config, w.title.as_str(), w.exe_name.as_str());
                if !covered {
                    actions.push(Action::ApplyTransparency(w.hwnd, value));
                }
                proof {
                    let ws = state.windows@;
                    let pre_k = ws.subrange(0, k as int + 1);
                    assert(pre_k.drop_last() =~= ws.subrange(0, k as int));
                    assert(pre_k.last() == ws[k as int]);
                    assert(actions@ =~= default_apply_actions(
                        pre_k,
                        state.config.specific_windows@,
                        value,
                    ));
                }
                k += 1;
            }
            proof {
                assert(state.windows@.subrange(0, n as int) =~= state.windows@);
            }
            actions.push(Action::SaveConfig);
        },
        Message::ToggleDefaultOpacity(value) => {
            state.use_default_opacity = value;
            if !value {
                state.default_opacity = None;
                state.config.default_opacity = None;
            } else {
                state.default_opacity = Some(100);
                state.config.default_opacity = Some(100);
            }
            actions.push(Action::SaveConfig);
            proof {
                assert(actions@ =~= seq![Action::SaveConfig]);
            }
        },
    }
    actions
}

} // verus!
