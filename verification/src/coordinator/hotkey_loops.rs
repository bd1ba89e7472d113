//! Hotkeys: when their monitors are installed, changed and dropped, and which events count.
use vstd::prelude::*;
use vstd::string::*;

use crate::coordinator::cancel::{after_cancel, cancel_asks};
use crate::coordinator::inner::{clock_has_room, Coordinator};
use crate::coordinator::resources::{effects, Effect};
use crate::coordinator_state::{cancellable, SessionPhase};
use crate::text::{
    ascii_lowered, blank, decimal, decimal_text, eq_ignore_ascii_case, is_blank, join2, join3,
    owned, same,
};
use crate::types::{opt_text, HotkeyTrigger, Platform, ShortcutBinding};

verus! {

/// How long to wait before a monitor is installed once more, in milliseconds.
pub const RETRY_DELAY_MS: u64 = 3000;

/// The failure of an attempt is logged.
pub open spec fn logged(attempts: u32) -> bool {
    attempts <= 3 || attempts % 10 == 0
}

/// Whether the failure of an attempt is logged: the first three, and then each tenth.
pub fn logs_attempt(attempts: u32) -> (r: bool)
    ensures
        r == logged(attempts),
{
    attempts <= 3 || attempts % 10 == 0
}

/// Why a monitor could not be installed.
#[derive(Debug)]
pub struct HotkeyInstallError {
    pub code: String,
    pub message: String,
}

/// Where the monitor of the dictation key stands.
#[derive(Clone, Copy, PartialEq, Eq, Structural, Debug)]
pub enum HotkeyStatusState {
    Starting,
    Installed,
    Failed,
}

/// Where the monitor of the dictation key stands, and what is told of it.
#[derive(Debug)]
pub struct HotkeyStatus {
    pub state: HotkeyStatusState,
    pub message: Option<String>,
    pub last_error: Option<HotkeyInstallError>,
}

/// The monitor is being installed, for the `n`th time.
pub open spec fn starting(status: HotkeyStatus, n: nat) -> bool {
    &&& status.state == HotkeyStatusState::Starting
    &&& opt_text(status.message) == Some(
        "正在安装全局快捷键监听（第 "@ + decimal(n) + " 次）"@,
    )
    &&& status.last_error is None
}

/// The monitor is installed.
pub open spec fn installed(status: HotkeyStatus, adapter: Seq<char>) -> bool {
    &&& status.state == HotkeyStatusState::Installed
    &&& opt_text(status.message) == Some(adapter + " 已安装"@)
    &&& status.last_error is None
}

/// The monitor could not be installed.
pub open spec fn not_installed(
    status: HotkeyStatus,
    message: Seq<char>,
    code: Seq<char>,
    error: Seq<char>,
) -> bool {
    &&& status.state == HotkeyStatusState::Failed
    &&& opt_text(status.message) == Some(message)
    &&& status.last_error matches Some(e)
    &&& e.code@ == code
    &&& e.message@ == error
}

/// What the supervisor of the dictation key does next.
#[derive(Debug)]
pub enum SuperviseStep {
    Exit,
    /// Install the monitor.
    Install(HotkeyStatus),
    /// What the monitor needs is not there yet; wait and look again.
    Unavailable(HotkeyStatus),
}

/// What the supervisor of the dictation key does: it ends once the monitor is installed or the
/// program ends. On Linux it waits for the plugin of the input method.
pub fn hotkey_supervisor_step(
    shutdown: bool,
    monitor_installed: bool,
    platform: Platform,
    plugin_available: bool,
    attempts: u32,
) -> (r: SuperviseStep)
    ensures
        match r {
            SuperviseStep::Exit => shutdown || monitor_installed,
            SuperviseStep::Unavailable(status) => {
                &&& !shutdown && !monitor_installed
                &&& platform == Platform::Linux && !plugin_available
                &&& not_installed(
                    status,
                    "fcitx5 插件不可用 — 请确保 fcitx5 已安装且在运行"@,
                    "fcitx5_unavailable"@,
                    "fcitx5 插件 DBus 接口无响应"@,
                )
            },
            SuperviseStep::Install(status) => {
                &&& !shutdown && !monitor_installed
                &&& platform == Platform::Linux ==> plugin_available
                &&& starting(status, (attempts + 1) as nat)
            },
        },
{
    if shutdown || monitor_installed {
        return SuperviseStep::Exit;
    }
    if platform == Platform::Linux && !plugin_available {
        return SuperviseStep::Unavailable(
            HotkeyStatus {
                state: HotkeyStatusState::Failed,
                message: Some(
                    owned("fcitx5 插件不可用 — 请确保 fcitx5 已安装且在运行"),
                ),
                last_error: Some(
                    HotkeyInstallError {
                        code: owned("fcitx5_unavailable"),
                        message: owned("fcitx5 插件 DBus 接口无响应"),
                    },
                ),
            },
        );
    }
    let n: u64 = attempts as u64 + 1;
    SuperviseStep::Install(
        HotkeyStatus {
            state: HotkeyStatusState::Starting,
            message: Some(
                join3("正在安装全局快捷键监听（第 ", decimal_text(n).as_str(), " 次）"),
            ),
            last_error: None,
        },
    )
}

/// What installing the monitor of the dictation key came to. `Ok` holds the name of what it uses.
pub fn hotkey_install_outcome(result: Result<String, HotkeyInstallError>) -> (r: HotkeyStatus)
    ensures
        match result {
            Ok(adapter) => installed(r, adapter@),
            Err(e) => not_installed(r, e.message@, e.code@, e.message@),
        },
{
    match result {
        Ok(adapter) => HotkeyStatus {
            state: HotkeyStatusState::Installed,
            message: Some(join2(adapter.as_str(), " 已安装")),
            last_error: None,
        },
        Err(e) => HotkeyStatus {
            state: HotkeyStatusState::Failed,
            message: Some(owned(e.message.as_str())),
            last_error: Some(e),
        },
    }
}

/// What is done about a monitor.
#[derive(Clone, Copy, PartialEq, Eq, Structural, Debug)]
pub enum MonitorAction {
    Nothing,
    /// Start one.
    Start,
    /// Start one that tells left modifiers from right ones.
    StartSideAware,
    /// Give the one that is there its new binding.
    Update,
}

/// What is done about the monitors of key combinations for dictation.
#[derive(Clone, Copy, PartialEq, Eq, Structural, Debug)]
pub struct ComboPlan {
    pub drop_combo: bool,
    pub drop_side_aware: bool,
    pub action: MonitorAction,
}

/// How dictation is bound: to a modifier alone, to nothing, or to a combination, which may need
/// left modifiers told from right ones.
#[derive(Clone, Copy, PartialEq, Eq, Structural, Debug)]
pub enum DictationBinding {
    ModifierOnly,
    Unconfigured,
    SideAware,
    Combo,
}

/// How dictation is bound, with that key.
pub open spec fn bound_to(
    primary: Seq<char>,
    modifier_only: bool,
    side_aware: bool,
) -> DictationBinding {
    if modifier_only {
        DictationBinding::ModifierOnly
    } else if blank(primary) {
        DictationBinding::Unconfigured
    } else if side_aware {
        DictationBinding::SideAware
    } else {
        DictationBinding::Combo
    }
}

/// How dictation is bound. `modifier_only` and `side_aware` tell what the binding names.
pub fn dictation_binding(binding: &ShortcutBinding, modifier_only: bool, side_aware: bool) -> (r:
    DictationBinding)
    ensures
        r == bound_to(binding.primary@, modifier_only, side_aware),
{
    if modifier_only {
        DictationBinding::ModifierOnly
    } else if is_unconfigured_shortcut(binding) {
        DictationBinding::Unconfigured
    } else if side_aware {
        DictationBinding::SideAware
    } else {
        DictationBinding::Combo
    }
}

/// What the supervisor of key combinations does.
pub open spec fn combo_supervised(
    shutdown: bool,
    binding: DictationBinding,
    side_aware_installed: bool,
    combo_installed: bool,
) -> ComboPlan {
    if shutdown {
        ComboPlan { drop_combo: false, drop_side_aware: false, action: MonitorAction::Nothing }
    } else {
        match binding {
            DictationBinding::ModifierOnly => ComboPlan {
                drop_combo: true,
                drop_side_aware: true,
                action: MonitorAction::Nothing,
            },
            DictationBinding::Unconfigured => ComboPlan {
                drop_combo: true,
                drop_side_aware: true,
                action: MonitorAction::Nothing,
            },
            DictationBinding::SideAware => ComboPlan {
                drop_combo: true,
                drop_side_aware: false,
                action: if side_aware_installed {
                    MonitorAction::Nothing
                } else {
                    MonitorAction::StartSideAware
                },
            },
            DictationBinding::Combo => ComboPlan {
                drop_combo: false,
                drop_side_aware: true,
                action: if combo_installed {
                    MonitorAction::Nothing
                } else {
                    MonitorAction::Start
                },
            },
        }
    }
}

/// What the supervisor of key combinations does; nothing means that it ends.
pub fn combo_supervisor_step(
    shutdown: bool,
    binding: DictationBinding,
    side_aware_installed: bool,
    combo_installed: bool,
) -> (r: ComboPlan)
    ensures
        r == combo_supervised(shutdown, binding, side_aware_installed, combo_installed),
{
    if shutdown {
        return ComboPlan {
            drop_combo: false,
            drop_side_aware: false,
            action: MonitorAction::Nothing,
        };
    }
    match binding {
        DictationBinding::ModifierOnly | DictationBinding::Unconfigured => ComboPlan {
            drop_combo: true,
            drop_side_aware: true,
            action: MonitorAction::Nothing,
        },
        DictationBinding::SideAware => ComboPlan {
            drop_combo: true,
            drop_side_aware: false,
            action: if side_aware_installed {
                MonitorAction::Nothing
            } else {
                MonitorAction::StartSideAware
            },
        },
        DictationBinding::Combo => ComboPlan {
            drop_combo: false,
            drop_side_aware: true,
            action: if combo_installed {
                MonitorAction::Nothing
            } else {
                MonitorAction::Start
            },
        },
    }
}

/// What a change of the key combination asks for.
pub open spec fn combo_update(binding: DictationBinding, combo_installed: bool) -> ComboPlan {
    match binding {
        DictationBinding::ModifierOnly => ComboPlan {
            drop_combo: true,
            drop_side_aware: true,
            action: MonitorAction::Nothing,
        },
        DictationBinding::Unconfigured => ComboPlan {
            drop_combo: true,
            drop_side_aware: true,
            action: MonitorAction::Nothing,
        },
        DictationBinding::SideAware => ComboPlan {
            drop_combo: true,
            drop_side_aware: true,
            action: MonitorAction::StartSideAware,
        },
        DictationBinding::Combo => ComboPlan {
            drop_combo: false,
            drop_side_aware: true,
            action: if combo_installed {
                MonitorAction::Update
            } else {
                MonitorAction::Start
            },
        },
    }
}

/// The user has changed the key combination.
pub fn update_combo_hotkey_binding(binding: DictationBinding, combo_installed: bool) -> (r: ComboPlan)
    ensures
        r == combo_update(binding, combo_installed),
{
    match binding {
        DictationBinding::ModifierOnly | DictationBinding::Unconfigured => ComboPlan {
            drop_combo: true,
            drop_side_aware: true,
            action: MonitorAction::Nothing,
        },
        DictationBinding::SideAware => ComboPlan {
            drop_combo: true,
            drop_side_aware: true,
            action: MonitorAction::StartSideAware,
        },
        DictationBinding::Combo => ComboPlan {
            drop_combo: false,
            drop_side_aware: true,
            action: if combo_installed {
                MonitorAction::Update
            } else {
                MonitorAction::Start
            },
        },
    }
}

/// The user has changed the dictation key. The error comes once the plan is carried out, where the
/// monitor of the key was never installed.
pub fn update_dictation_hotkey_binding(
    binding: DictationBinding,
    combo_installed: bool,
    monitor_installed: bool,
) -> (r: (ComboPlan, Result<MonitorAction, String>))
    ensures
        r.0 == combo_update(binding, combo_installed),
        monitor_installed ==> r.1 == Ok::<MonitorAction, String>(MonitorAction::Update),
        !monitor_installed ==> (r.1 matches Err(e) && e@ == "dictation hotkey monitor 未初始化"@),
{
    let plan = update_combo_hotkey_binding(binding, combo_installed);
    if monitor_installed {
        (plan, Ok(MonitorAction::Update))
    } else {
        (plan, Err(owned("dictation hotkey monitor 未初始化")))
    }
}

/// What setting the dictation key anew as a whole asks for.
pub open spec fn whole_update(
    binding: DictationBinding,
    combo_installed: bool,
    monitor_installed: bool,
) -> (ComboPlan, MonitorAction) {
    (
        if binding == DictationBinding::ModifierOnly {
            ComboPlan { drop_combo: true, drop_side_aware: false, action: MonitorAction::Nothing }
        } else {
            combo_update(binding, combo_installed)
        },
        if monitor_installed {
            MonitorAction::Update
        } else {
            MonitorAction::Start
        },
    )
}

/// The dictation key is set anew as a whole: what is done about combinations, and about the monitor
/// of modifiers, which is always there afterwards.
pub fn update_hotkey_binding(
    binding: DictationBinding,
    combo_installed: bool,
    monitor_installed: bool,
) -> (r: (ComboPlan, MonitorAction))
    ensures
        r == whole_update(binding, combo_installed, monitor_installed),
{
    let plan = if binding == DictationBinding::ModifierOnly {
        ComboPlan { drop_combo: true, drop_side_aware: false, action: MonitorAction::Nothing }
    } else {
        update_combo_hotkey_binding(binding, combo_installed)
    };
    (
        plan,
        if monitor_installed {
            MonitorAction::Update
        } else {
            MonitorAction::Start
        },
    )
}

/// What is done about one monitor.
#[derive(Clone, Copy, PartialEq, Eq, Structural, Debug)]
pub struct MonitorPlan {
    pub drop: bool,
    /// The monitor of modifiers must learn of it.
    pub update_modifiers: bool,
    pub action: MonitorAction,
}

/// The translation key is one that the monitor of modifiers watches.
pub open spec fn watched_as_modifier(binding: ShortcutBinding, modifier_only: bool) -> bool {
    builtin_shift(binding) || modifier_only
}

/// The binding is the Shift key alone.
pub open spec fn builtin_shift(binding: ShortcutBinding) -> bool {
    binding.modifiers@.len() == 0 && ascii_lowered(binding.primary@) == ascii_lowered("shift"@)
}

/// Whether the binding is the Shift key alone.
pub fn is_builtin_translation_shift(binding: &ShortcutBinding) -> (r: bool)
    ensures
        r == builtin_shift(*binding),
{
    binding.modifiers.len() == 0 && eq_ignore_ascii_case(binding.primary.as_str(), "shift")
}

/// Whether the binding is a modifier alone. `modifier_only` tells whether it names one other than
/// Shift.
pub fn is_modifier_only_shortcut(binding: &ShortcutBinding, modifier_only: bool) -> (r: bool)
    ensures
        r == (binding.modifiers@.len() == 0 && (builtin_shift(*binding) || modifier_only)),
{
    binding.modifiers.len() == 0 && (eq_ignore_ascii_case(binding.primary.as_str(), "shift")
        || modifier_only)
}

/// Whether nothing is bound.
pub fn is_unconfigured_shortcut(binding: &ShortcutBinding) -> (r: bool)
    ensures
        r == blank(binding.primary@),
{
    is_blank(binding.primary.as_str())
}

/// What the supervisor of the translation key does.
pub open spec fn translation_supervised(
    shutdown: bool,
    binding: ShortcutBinding,
    modifier_only: bool,
    translation_installed: bool,
    monitor_installed: bool,
) -> MonitorPlan {
    if shutdown {
        MonitorPlan { drop: false, update_modifiers: false, action: MonitorAction::Nothing }
    } else if watched_as_modifier(binding, modifier_only) {
        MonitorPlan {
            drop: true,
            update_modifiers: monitor_installed,
            action: MonitorAction::Nothing,
        }
    } else {
        MonitorPlan {
            drop: false,
            update_modifiers: false,
            action: if translation_installed {
                MonitorAction::Nothing
            } else {
                MonitorAction::Start
            },
        }
    }
}

/// What the supervisor of the translation key does; nothing means that it ends.
pub fn translation_supervisor_step(
    shutdown: bool,
    binding: &ShortcutBinding,
    modifier_only: bool,
    translation_installed: bool,
    monitor_installed: bool,
) -> (r: MonitorPlan)
    ensures
        r == translation_supervised(
            shutdown,
            *binding,
            modifier_only,
            translation_installed,
            monitor_installed,
        ),
{
    if shutdown {
        return MonitorPlan {
            drop: false,
            update_modifiers: false,
            action: MonitorAction::Nothing,
        };
    }
    if is_builtin_translation_shift(binding) || modifier_only {
        return MonitorPlan {
            drop: true,
            update_modifiers: monitor_installed,
            action: MonitorAction::Nothing,
        };
    }
    MonitorPlan {
        drop: false,
        update_modifiers: false,
        action: if translation_installed {
            MonitorAction::Nothing
        } else {
            MonitorAction::Start
        },
    }
}

/// What a change of the translation key asks for.
pub open spec fn translation_update(
    binding: ShortcutBinding,
    modifier_only: bool,
    translation_installed: bool,
    monitor_installed: bool,
) -> MonitorPlan {
    MonitorPlan {
        drop: watched_as_modifier(binding, modifier_only),
        update_modifiers: monitor_installed,
        action: if watched_as_modifier(binding, modifier_only) {
            MonitorAction::Nothing
        } else if translation_installed {
            MonitorAction::Update
        } else {
            MonitorAction::Start
        },
    }
}

/// The user has changed the translation key.
pub fn try_update_translation_hotkey_binding(
    binding: &ShortcutBinding,
    modifier_only: bool,
    translation_installed: bool,
    monitor_installed: bool,
) -> (r: MonitorPlan)
    ensures
        r == translation_update(*binding, modifier_only, translation_installed, monitor_installed),
{
    if is_builtin_translation_shift(binding) || modifier_only {
        return MonitorPlan {
            drop: true,
            update_modifiers: monitor_installed,
            action: MonitorAction::Nothing,
        };
    }
    MonitorPlan {
        drop: false,
        update_modifiers: monitor_installed,
        action: if translation_installed {
            MonitorAction::Update
        } else {
            MonitorAction::Start
        },
    }
}

/// A binding that a key for an action can have: there is one, and it is not a modifier alone.
pub open spec fn bindable(binding: Option<ShortcutBinding>, modifier_only: bool) -> bool {
    binding matches Some(b) && !(b.modifiers@.len() == 0 && (builtin_shift(b) || modifier_only))
}

/// What the supervisor of a key for an action does.
pub open spec fn action_supervised(
    shutdown: bool,
    binding: Option<ShortcutBinding>,
    modifier_only: bool,
    action_installed: bool,
) -> MonitorPlan {
    MonitorPlan {
        drop: !shutdown && !bindable(binding, modifier_only),
        update_modifiers: false,
        action: if !shutdown && bindable(binding, modifier_only) && !action_installed {
            MonitorAction::Start
        } else {
            MonitorAction::Nothing
        },
    }
}

/// What the supervisor of a key for an action does; nothing means that it ends.
pub fn action_supervisor_step(
    shutdown: bool,
    binding: &Option<ShortcutBinding>,
    modifier_only: bool,
    action_installed: bool,
) -> (r: MonitorPlan)
    ensures
        r == action_supervised(shutdown, *binding, modifier_only, action_installed),
{
    if shutdown {
        return MonitorPlan {
            drop: false,
            update_modifiers: false,
            action: MonitorAction::Nothing,
        };
    }
    let usable = match binding {
        Some(b) => !is_modifier_only_shortcut(b, modifier_only),
        None => false,
    };
    MonitorPlan {
        drop: !usable,
        update_modifiers: false,
        action: if usable && !action_installed {
            MonitorAction::Start
        } else {
            MonitorAction::Nothing
        },
    }
}

/// What a change of a key for an action asks for.
pub open spec fn action_update(
    binding: Option<ShortcutBinding>,
    modifier_only: bool,
    action_installed: bool,
) -> MonitorPlan {
    MonitorPlan {
        drop: !bindable(binding, modifier_only),
        update_modifiers: false,
        action: if !bindable(binding, modifier_only) {
            MonitorAction::Nothing
        } else if action_installed {
            MonitorAction::Update
        } else {
            MonitorAction::Start
        },
    }
}

/// The user has changed a key for an action.
pub fn update_action_hotkey_binding(
    binding: &Option<ShortcutBinding>,
    modifier_only: bool,
    action_installed: bool,
) -> (r: MonitorPlan)
    ensures
        r == action_update(*binding, modifier_only, action_installed),
{
    let usable = match binding {
        Some(b) => !is_modifier_only_shortcut(b, modifier_only),
        None => false,
    };
    MonitorPlan {
        drop: !usable,
        update_modifiers: false,
        action: if !usable {
            MonitorAction::Nothing
        } else if action_installed {
            MonitorAction::Update
        } else {
            MonitorAction::Start
        },
    }
}

/// The modifier that the monitor watches for translation.
pub open spec fn translation_trigger(
    translation: ShortcutBinding,
    named: Option<HotkeyTrigger>,
) -> Option<HotkeyTrigger> {
    if builtin_shift(translation) {
        None
    } else {
        named
    }
}

/// The modifier that the monitor watches for translation: none where it is Shift, which it watches
/// anyway. `named` is the modifier that the binding names.
pub fn modifier_shortcut_trigger(
    translation: &ShortcutBinding,
    named: Option<HotkeyTrigger>,
) -> (r: Option<HotkeyTrigger>)
    ensures
        r == translation_trigger(*translation, named),
{
    if is_builtin_translation_shift(translation) {
        None
    } else {
        named
    }
}

/// Which monitors forget what is held when a shortcut is being recorded: those of the translation
/// key and of the key that opens the program, where they have one of their own.
pub fn reset_shortcut_held_state(
    translation: &ShortcutBinding,
    translation_modifier_only: bool,
    open_app: &Option<ShortcutBinding>,
    open_app_modifier_only: bool,
) -> (r: (bool, bool))
    ensures
        r.0 == !watched_as_modifier(*translation, translation_modifier_only),
        r.1 == bindable(*open_app, open_app_modifier_only),
{
    let first = !is_builtin_translation_shift(translation) && !translation_modifier_only;
    let second = match open_app {
        Some(b) => !is_modifier_only_shortcut(b, open_app_modifier_only),
        None => false,
    };
    (first, second)
}

/// An event of the dictation key's monitor.
#[derive(Clone, Copy, PartialEq, Eq, Structural, Debug)]
pub enum HotkeyEvent {
    Pressed { at: u64, press_id: u64 },
    Released { at: u64 },
    TranslationModifierPressed,
    /// No longer used.
    QaShortcutPressed,
}

/// The translation key counts in that phase.
pub open spec fn translation_counts(phase: SessionPhase) -> bool {
    phase == SessionPhase::Starting || phase == SessionPhase::Listening
}

impl Coordinator {
    /// Whether key events count. They do not while a shortcut is being recorded.
    pub fn accepts_hotkeys(&self) -> (r: bool)
        ensures
            r == !self.shortcut_recording_active,
    {
        !self.shortcut_recording_active
    }

    /// Escape was pressed.
    pub fn on_esc(&mut self, now: u64, out: &mut Vec<Effect>) -> (r: bool)
        requires
            clock_has_room(now),
        ensures
            old(self).shortcut_recording_active ==> {
                &&& !r
                &&& *final(self) == *old(self)
                &&& effects(final(out)@) == effects(old(out)@)
            },
            !old(self).shortcut_recording_active ==> {
                &&& r == cancellable(old(self).state.phase)
                &&& *final(self) == after_cancel(*old(self), now)
                &&& effects(final(out)@) == effects(old(out)@) + cancel_asks(*old(self))
            },
    {
        if !self.accepts_hotkeys() {
            return false;
        }
        self.cancel_session(now, out)
    }

    /// The translation key was pressed. It counts while the session starts or listens.
    pub fn mark_translation_modifier_seen(&mut self)
        ensures
            *final(self) == (Coordinator {
                translation_modifier_seen: old(self).translation_modifier_seen
                    || translation_counts(old(self).state.phase),
                ..*old(self)
            }),
    {
        if self.state.phase == SessionPhase::Starting || self.state.phase
            == SessionPhase::Listening {
            self.translation_modifier_seen = true;
        }
    }

    /// The monitor of modifiers saw the translation key. That counts only where the key is one that
    /// it watches.
    pub fn on_translation_modifier(&mut self, binding: &ShortcutBinding, modifier_only: bool)
        ensures
            *final(self) == (Coordinator {
                translation_modifier_seen: old(self).translation_modifier_seen || (!old(
                    self,
                ).shortcut_recording_active && watched_as_modifier(*binding, modifier_only)
                    && translation_counts(old(self).state.phase)),
                ..*old(self)
            }),
    {
        if !self.accepts_hotkeys() {
            return;
        }
        if is_builtin_translation_shift(binding) || modifier_only {
            self.mark_translation_modifier_seen();
        }
    }
}

/// What keyboards can do here.
#[derive(Clone, Copy, PartialEq, Eq, Structural, Debug)]
pub struct HotkeyCapability {
    /// Key events of the program's own window may stand in for the monitor.
    pub explicit_fallback_available: bool,
}

/// Whether key events of the program's own window count.
pub fn window_hotkey_fallback_enabled(capability: &HotkeyCapability) -> (r: bool)
    ensures
        r == capability.explicit_fallback_available,
{
    capability.explicit_fallback_available
}

/// The key that a trigger is, as a window reports it.
pub open spec fn window_key(trigger: HotkeyTrigger, key: Seq<char>, code: Seq<char>) -> bool {
    let alt = key == "Alt"@ || key == "AltGraph"@;
    match trigger {
        HotkeyTrigger::RightControl => key == "Control"@ && code == "ControlRight"@,
        HotkeyTrigger::LeftControl => key == "Control"@ && code == "ControlLeft"@,
        HotkeyTrigger::RightOption => alt && code == "AltRight"@,
        HotkeyTrigger::RightAlt => alt && code == "AltRight"@,
        HotkeyTrigger::LeftOption => alt && code == "AltLeft"@,
        HotkeyTrigger::RightCommand => key == "Meta"@ && code == "MetaRight"@,
        HotkeyTrigger::LeftCommand => key == "Meta"@ && code == "MetaLeft"@,
        HotkeyTrigger::LeftShift => key == "Shift"@ && code == "ShiftLeft"@,
        HotkeyTrigger::RightShift => key == "Shift"@ && code == "ShiftRight"@,
        HotkeyTrigger::Fn => key == "Control"@ && code == "ControlRight"@,
        HotkeyTrigger::MediaPlayPause => false,
        HotkeyTrigger::Custom => false,
    }
}

/// Whether a key that a window reports is the trigger.
pub fn window_key_matches_trigger(trigger: HotkeyTrigger, key: &str, code: &str) -> (r: bool)
    ensures
        r == window_key(trigger, key@, code@),
{
    match trigger {
        HotkeyTrigger::RightControl => same(key, "Control") && same(code, "ControlRight"),
        HotkeyTrigger::LeftControl => same(key, "Control") && same(code, "ControlLeft"),
        HotkeyTrigger::RightOption | HotkeyTrigger::RightAlt => (same(key, "Alt") || same(
            key,
            "AltGraph",
        )) && same(code, "AltRight"),
        HotkeyTrigger::LeftOption => (same(key, "Alt") || same(key, "AltGraph")) && same(
            code,
            "AltLeft",
        ),
        HotkeyTrigger::RightCommand => same(key, "Meta") && same(code, "MetaRight"),
        HotkeyTrigger::LeftCommand => same(key, "Meta") && same(code, "MetaLeft"),
        HotkeyTrigger::LeftShift => same(key, "Shift") && same(code, "ShiftLeft"),
        HotkeyTrigger::RightShift => same(key, "Shift") && same(code, "ShiftRight"),
        HotkeyTrigger::Fn => same(key, "Control") && same(code, "ControlRight"),
        HotkeyTrigger::MediaPlayPause => false,
        HotkeyTrigger::Custom => false,
    }
}

/// What a key event of the program's own window comes to.
#[derive(Clone, Copy, PartialEq, Eq, Structural, Debug)]
pub enum WindowHotkeyStep {
    Ignore,
    Cancel,
    Pressed,
    Released,
}

/// What a key event of the program's own window comes to.
pub open spec fn window_step(
    recording_shortcut: bool,
    platform: Platform,
    capability: HotkeyCapability,
    trigger: Option<HotkeyTrigger>,
    event_type: Seq<char>,
    key: Seq<char>,
    code: Seq<char>,
    repeat: bool,
) -> WindowHotkeyStep {
    let ours = platform == Platform::Windows && capability.explicit_fallback_available && (
    trigger matches Some(t) && window_key(t, key, code));
    if recording_shortcut {
        WindowHotkeyStep::Ignore
    } else if event_type == "keydown"@ && key == "Escape"@ {
        WindowHotkeyStep::Cancel
    } else if ours && event_type == "keydown"@ {
        if repeat {
            WindowHotkeyStep::Ignore
        } else {
            WindowHotkeyStep::Pressed
        }
    } else if ours && event_type == "keyup"@ {
        WindowHotkeyStep::Released
    } else {
        WindowHotkeyStep::Ignore
    }
}

/// What a key event of the program's own window comes to. Escape always cancels; the dictation key
/// counts on Windows, where such events may stand in for the monitor.
pub fn handle_window_hotkey_event(
    recording_shortcut: bool,
    platform: Platform,
    capability: &HotkeyCapability,
    trigger: Option<HotkeyTrigger>,
    event_type: &str,
    key: &str,
    code: &str,
    repeat: bool,
) -> (r: WindowHotkeyStep)
    ensures
        r == window_step(
            recording_shortcut,
            platform,
            *capability,
            trigger,
            event_type@,
            key@,
            code@,
            repeat,
        ),
{
    if recording_shortcut {
        return WindowHotkeyStep::Ignore;
    }
    if same(event_type, "keydown") && same(key, "Escape") {
        return WindowHotkeyStep::Cancel;
    }
    if platform != Platform::Windows || !window_hotkey_fallback_enabled(capability) {
        return WindowHotkeyStep::Ignore;
    }
    match trigger {
        Some(t) => {
            if !window_key_matches_trigger(t, key, code) {
                return WindowHotkeyStep::Ignore;
            }
        },
        None => {
            return WindowHotkeyStep::Ignore;
        },
    }
    if same(event_type, "keydown") {
        if repeat {
            WindowHotkeyStep::Ignore
        } else {
            WindowHotkeyStep::Pressed
        }
    } else if same(event_type, "keyup") {
        WindowHotkeyStep::Released
    } else {
        WindowHotkeyStep::Ignore
    }
}

/// The first three failures are logged, and of those after them just one in ten; the next attempt
/// follows after three seconds.
pub proof fn law_failures_are_logged_sparingly(tens: u32, rest: u32)
    requires
        tens <= 400_000_000,
        rest < 10,
    ensures
        1 <= rest <= 3 ==> logged(rest),
        tens == 0 && rest > 3 ==> !logged(rest),
        logged((10 * tens) as u32),
        tens >= 1 ==> (logged((10 * tens + rest) as u32) <==> rest == 0),
        RETRY_DELAY_MS == 3000,
{
}

/// A modifier alone is never a combination, and without a key there is none; only a combination
/// with a key can need left modifiers told from right ones.
pub proof fn law_binding_is_told_apart(primary: Seq<char>, modifier_only: bool, side_aware: bool)
    ensures
        bound_to(primary, modifier_only, side_aware) == DictationBinding::ModifierOnly
            <==> modifier_only,
        bound_to(primary, modifier_only, side_aware) == DictationBinding::Unconfigured
            <==> !modifier_only && blank(primary),
        bound_to(primary, modifier_only, side_aware) == DictationBinding::SideAware
            <==> !modifier_only && !blank(primary) && side_aware,
{
}

/// Once the plan of the supervisor is carried out, just the monitor that the binding needs is
/// there, and it was not started anew where it was there before. A program that ends leaves all as
/// it is.
pub proof fn law_right_combo_monitor_runs(
    binding: DictationBinding,
    side_aware_installed: bool,
    combo_installed: bool,
)
    ensures
        ({
            let plan = combo_supervised(false, binding, side_aware_installed, combo_installed);
            let combo = (combo_installed && !plan.drop_combo) || plan.action
                == MonitorAction::Start;
            let side_aware = (side_aware_installed && !plan.drop_side_aware) || plan.action
                == MonitorAction::StartSideAware;
            &&& combo <==> binding == DictationBinding::Combo
            &&& side_aware <==> binding == DictationBinding::SideAware
            &&& plan.action == MonitorAction::Start ==> !combo_installed
            &&& plan.action == MonitorAction::StartSideAware ==> !side_aware_installed
            &&& plan.action != MonitorAction::Update
        }),
        ({
            let plan = combo_supervised(true, binding, side_aware_installed, combo_installed);
            !plan.drop_combo && !plan.drop_side_aware && plan.action == MonitorAction::Nothing
        }),
{
}

/// After a change of the binding, just the monitor that it needs is there, and it knows the new
/// binding: it was given it, or started with it.
pub proof fn law_changed_combo_takes_effect(
    binding: DictationBinding,
    side_aware_installed: bool,
    combo_installed: bool,
)
    ensures
        ({
            let plan = combo_update(binding, combo_installed);
            let combo = (combo_installed && !plan.drop_combo) || plan.action
                == MonitorAction::Start;
            let side_aware = (side_aware_installed && !plan.drop_side_aware) || plan.action
                == MonitorAction::StartSideAware;
            &&& combo <==> binding == DictationBinding::Combo
            &&& side_aware <==> binding == DictationBinding::SideAware
            &&& binding == DictationBinding::Combo ==> (plan.action == MonitorAction::Update
                <==> combo_installed)
            &&& binding == DictationBinding::SideAware ==> plan.drop_side_aware
            &&& plan.action == MonitorAction::Nothing <==> binding == DictationBinding::ModifierOnly
                || binding == DictationBinding::Unconfigured
        }),
{
}

/// Setting the dictation key anew leaves the monitor of modifiers there with the new key, and just
/// the monitor of combinations that the binding needs.
pub proof fn law_dictation_key_is_set_anew(
    binding: DictationBinding,
    combo_installed: bool,
    monitor_installed: bool,
)
    ensures
        ({
            let (plan, action) = whole_update(binding, combo_installed, monitor_installed);
            let combo = (combo_installed && !plan.drop_combo) || plan.action
                == MonitorAction::Start;
            &&& monitor_installed ==> action == MonitorAction::Update
            &&& !monitor_installed ==> action == MonitorAction::Start
            &&& combo <==> binding == DictationBinding::Combo
            &&& plan.action == MonitorAction::StartSideAware <==> binding
                == DictationBinding::SideAware
            &&& binding == DictationBinding::Combo && combo_installed ==> plan.action
                == MonitorAction::Update
            &&& plan.drop_side_aware <==> binding != DictationBinding::ModifierOnly
            &&& plan.action == MonitorAction::Nothing <==> binding == DictationBinding::ModifierOnly
                || binding == DictationBinding::Unconfigured
        }),
{
}

/// The translation key has a monitor of its own exactly where the monitor of modifiers does not
/// watch it, and else that one learns of it.
pub proof fn law_translation_key_is_watched(
    binding: ShortcutBinding,
    modifier_only: bool,
    translation_installed: bool,
    monitor_installed: bool,
)
    ensures
        ({
            let kept = translation_supervised(
                false,
                binding,
                modifier_only,
                translation_installed,
                monitor_installed,
            );
            let there = (translation_installed && !kept.drop) || kept.action
                == MonitorAction::Start;
            &&& there <==> !watched_as_modifier(binding, modifier_only)
            &&& kept.update_modifiers <==> watched_as_modifier(binding, modifier_only)
                && monitor_installed
            &&& kept.action == MonitorAction::Start ==> !translation_installed
        }),
        ({
            let changed = translation_update(
                binding,
                modifier_only,
                translation_installed,
                monitor_installed,
            );
            let there = (translation_installed && !changed.drop) || changed.action
                == MonitorAction::Start;
            &&& there <==> !watched_as_modifier(binding, modifier_only)
            &&& changed.update_modifiers == monitor_installed
            &&& there && translation_installed ==> changed.action == MonitorAction::Update
        }),
        ({
            let ended = translation_supervised(
                true,
                binding,
                modifier_only,
                translation_installed,
                monitor_installed,
            );
            !ended.drop && !ended.update_modifiers && ended.action == MonitorAction::Nothing
        }),
{
}

/// A key for an action has a monitor exactly where something other than a modifier alone is bound,
/// and after a change that monitor knows the new binding.
pub proof fn law_action_key_is_watched(
    binding: Option<ShortcutBinding>,
    modifier_only: bool,
    action_installed: bool,
)
    ensures
        ({
            let kept = action_supervised(false, binding, modifier_only, action_installed);
            let there = (action_installed && !kept.drop) || kept.action == MonitorAction::Start;
            &&& there <==> bindable(binding, modifier_only)
            &&& kept.action == MonitorAction::Start ==> !action_installed
        }),
        ({
            let changed = action_update(binding, modifier_only, action_installed);
            let there = (action_installed && !changed.drop) || changed.action
                == MonitorAction::Start;
            &&& there <==> bindable(binding, modifier_only)
            &&& there && action_installed ==> changed.action == MonitorAction::Update
        }),
        ({
            let ended = action_supervised(true, binding, modifier_only, action_installed);
            !ended.drop && ended.action == MonitorAction::Nothing
        }),
        binding is None ==> !bindable(binding, modifier_only),
        binding is Some && binding->0.modifiers@.len() > 0 ==> bindable(binding, modifier_only),
        binding is Some && binding->0.modifiers@.len() == 0 && modifier_only ==> !bindable(
            binding,
            modifier_only,
        ),
{
}

/// Shift alone is Shift however it is written, and Shift with another modifier is not. The monitor
/// watches it anyway, and for translation it watches any other modifier that is named.
pub proof fn law_shift_alone(binding: ShortcutBinding, named: Option<HotkeyTrigger>)
    ensures
        builtin_shift(binding) <==> binding.modifiers@.len() == 0 && ascii_lowered(
            binding.primary@,
        ) == "shift"@,
        builtin_shift(binding) ==> translation_trigger(binding, named) is None
            && watched_as_modifier(binding, false),
        !builtin_shift(binding) ==> translation_trigger(binding, named) == named
            && !watched_as_modifier(binding, false),
        watched_as_modifier(binding, true),
{
    reveal_strlit("shift");
    assert(ascii_lowered("shift"@) =~= "shift"@);
}

/// A window reports a modifier by its name and by its side. `Fn` is taken for the right Control
/// key, and Option is Alt.
pub proof fn law_window_reports_sides(trigger: HotkeyTrigger, key: Seq<char>, code: Seq<char>)
    ensures
        window_key(HotkeyTrigger::LeftControl, key, code) <==> key == "Control"@ && code
            == "ControlLeft"@,
        window_key(HotkeyTrigger::RightControl, key, code) <==> key == "Control"@ && code
            == "ControlRight"@,
        window_key(HotkeyTrigger::LeftShift, key, code) <==> key == "Shift"@ && code
            == "ShiftLeft"@,
        window_key(HotkeyTrigger::RightShift, key, code) <==> key == "Shift"@ && code
            == "ShiftRight"@,
        window_key(HotkeyTrigger::LeftCommand, key, code) <==> key == "Meta"@ && code
            == "MetaLeft"@,
        window_key(HotkeyTrigger::RightCommand, key, code) <==> key == "Meta"@ && code
            == "MetaRight"@,
        window_key(HotkeyTrigger::LeftOption, key, code) <==> (key == "Alt"@ || key == "AltGraph"@)
            && code == "AltLeft"@,
        window_key(HotkeyTrigger::RightOption, key, code) <==> (key == "Alt"@ || key
            == "AltGraph"@) && code == "AltRight"@,
        window_key(HotkeyTrigger::RightAlt, key, code) == window_key(
            HotkeyTrigger::RightOption,
            key,
            code,
        ),
        window_key(HotkeyTrigger::Fn, key, code) == window_key(
            HotkeyTrigger::RightControl,
            key,
            code,
        ),
        trigger == HotkeyTrigger::MediaPlayPause || trigger == HotkeyTrigger::Custom
            ==> !window_key(trigger, key, code),
{
}

/// What keys of the program's own window do: none counts while a shortcut is recorded; Escape
/// going down cancels; the dictation key counts only on Windows where it may stand in, and a key
/// that is held is pressed once.
pub proof fn law_window_keys(
    platform: Platform,
    capability: HotkeyCapability,
    trigger: Option<HotkeyTrigger>,
    event_type: Seq<char>,
    key: Seq<char>,
    code: Seq<char>,
    repeat: bool,
)
    ensures
        window_step(true, platform, capability, trigger, event_type, key, code, repeat)
            == WindowHotkeyStep::Ignore,
        ({
            let step = window_step(
                false,
                platform,
                capability,
                trigger,
                event_type,
                key,
                code,
                repeat,
            );
            &&& step == WindowHotkeyStep::Cancel <==> event_type == "keydown"@ && key == "Escape"@
            &&& step == WindowHotkeyStep::Pressed ==> event_type == "keydown"@ && !repeat
            &&& step == WindowHotkeyStep::Released ==> event_type == "keyup"@
            &&& step == WindowHotkeyStep::Pressed || step == WindowHotkeyStep::Released ==> platform
                == Platform::Windows && capability.explicit_fallback_available && trigger is Some
                && window_key(trigger->0, key, code)
            &&& platform == Platform::Windows && capability.explicit_fallback_available && trigger
                is Some && window_key(trigger->0, key, code) && key != "Escape"@ ==> {
                &&& event_type == "keydown"@ && !repeat ==> step == WindowHotkeyStep::Pressed
                &&& event_type == "keydown"@ && repeat ==> step == WindowHotkeyStep::Ignore
                &&& event_type == "keyup"@ ==> step == WindowHotkeyStep::Released
            }
        }),
{
    reveal_strlit("keydown");
    reveal_strlit("keyup");
    assert("keydown"@.len() != "keyup"@.len());
}

/// The translation key counts from the start of a session until the recording ends.
pub proof fn law_translation_counts_while_recording(phase: SessionPhase)
    ensures
        translation_counts(SessionPhase::Starting),
        translation_counts(SessionPhase::Listening),
        phase != SessionPhase::Starting && phase != SessionPhase::Listening ==> !translation_counts(
            phase,
        ),
{
}

/// The status of the monitor says where it stands; an error stands in it only where it could not be
/// installed.
pub proof fn law_status_says_where_the_monitor_stands(
    status: HotkeyStatus,
    attempt: nat,
    adapter: Seq<char>,
    message: Seq<char>,
    code: Seq<char>,
    error: Seq<char>,
)
    ensures
        starting(status, attempt) ==> status.state == HotkeyStatusState::Starting
            && status.last_error is None && opt_text(status.message) == Some(
            "正在安装全局快捷键监听（第 "@ + decimal(attempt) + " 次）"@,
        ),
        installed(status, adapter) ==> status.state == HotkeyStatusState::Installed
            && status.last_error is None && opt_text(status.message) == Some(
            adapter + " 已安装"@,
        ),
        not_installed(status, message, code, error) ==> status.state == HotkeyStatusState::Failed
            && opt_text(status.message) == Some(message) && status.last_error is Some
            && status.last_error->0.code@ == code && status.last_error->0.message@ == error,
{
}

} // verus!
