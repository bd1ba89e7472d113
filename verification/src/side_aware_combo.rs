//! Matching of key combinations that tell left modifiers from right ones (left Command and D, say).
//!
//! Systems report such combinations only as single keys, so the state of each modifier is kept here
//! and the combination is recognised from it.
use vstd::prelude::*;
use vstd::multiset::Multiset;
use vstd::string::*;

use crate::text::{
    ascii_lowered, decimal, eq_ignore_ascii_case, law_trimming_keeps_the_text, owned, same, texts,
    trim, trimmed, white_space,
};
use crate::types::{Platform, ShortcutBinding};

verus! {

/// An edge of a key combination.
#[derive(Clone, Copy, PartialEq, Eq, Structural, Debug)]
pub enum ComboHotkeyEvent {
    Pressed { at: u64 },
    Released { at: u64 },
}

/// Why a key combination cannot be watched.
#[derive(Debug)]
pub enum ComboHotkeyError {
    UnsupportedModifier(String),
    UnsupportedKey(String),
}

/// A modifier key on one side of the keyboard.
#[derive(Clone, Copy, PartialEq, Eq, Structural, Debug)]
pub enum SideModifier {
    CmdLeft,
    CmdRight,
    CtrlLeft,
    CtrlRight,
    AltLeft,
    AltRight,
    ShiftLeft,
    ShiftRight,
}

/// Which modifiers are down.
#[derive(Clone, Copy, PartialEq, Eq, Structural, Debug)]
pub struct ModifierSideState {
    pub cmd_left: bool,
    pub cmd_right: bool,
    pub ctrl_left: bool,
    pub ctrl_right: bool,
    pub alt_left: bool,
    pub alt_right: bool,
    pub shift_left: bool,
    pub shift_right: bool,
}

impl ModifierSideState {
    /// The state in which one modifier is as given and the others are as they were.
    pub open spec fn with(self, side: SideModifier, pressed: bool) -> ModifierSideState {
        match side {
            SideModifier::CmdLeft => ModifierSideState { cmd_left: pressed, ..self },
            SideModifier::CmdRight => ModifierSideState { cmd_right: pressed, ..self },
            SideModifier::CtrlLeft => ModifierSideState { ctrl_left: pressed, ..self },
            SideModifier::CtrlRight => ModifierSideState { ctrl_right: pressed, ..self },
            SideModifier::AltLeft => ModifierSideState { alt_left: pressed, ..self },
            SideModifier::AltRight => ModifierSideState { alt_right: pressed, ..self },
            SideModifier::ShiftLeft => ModifierSideState { shift_left: pressed, ..self },
            SideModifier::ShiftRight => ModifierSideState { shift_right: pressed, ..self },
        }
    }

    /// The tags of the modifiers that are down.
    pub open spec fn tags(self) -> Seq<Seq<char>> {
        one_tag(self.cmd_left, "cmd-left"@) + one_tag(self.cmd_right, "cmd-right"@) + one_tag(
            self.ctrl_left,
            "ctrl-left"@,
        ) + one_tag(self.ctrl_right, "ctrl-right"@) + one_tag(self.alt_left, "alt-left"@) + one_tag(
            self.alt_right,
            "alt-right"@,
        ) + one_tag(self.shift_left, "shift-left"@) + one_tag(self.shift_right, "shift-right"@)
    }
}

/// A tag, where its modifier is down.
pub open spec fn one_tag(down: bool, tag: Seq<char>) -> Seq<Seq<char>> {
    if down {
        seq![tag]
    } else {
        seq![]
    }
}

/// The tag of a modifier as it is matched: `super` is another name for `cmd`.
pub open spec fn side_tag(tag: Seq<char>) -> Seq<char> {
    if tag == "super-left"@ {
        "cmd-left"@
    } else if tag == "super-right"@ {
        "cmd-right"@
    } else {
        tag
    }
}

/// The tag of a modifier as it is matched.
pub fn normalize_side_modifier_tag(tag: &str) -> (r: String)
    ensures
        r@ == side_tag(tag@),
{
    if same(tag, "super-left") {
        owned("cmd-left")
    } else if same(tag, "super-right") {
        owned("cmd-right")
    } else {
        owned(tag)
    }
}

/// A tag that names a modifier on one side of the keyboard.
pub open spec fn side_specific(tag: Seq<char>) -> bool {
    let t = side_tag(tag);
    ||| t == "cmd-left"@
    ||| t == "cmd-right"@
    ||| t == "ctrl-left"@
    ||| t == "ctrl-right"@
    ||| t == "alt-left"@
    ||| t == "alt-right"@
    ||| t == "shift-left"@
    ||| t == "shift-right"@
}

/// Whether a tag names a modifier on one side of the keyboard.
pub fn is_side_specific_modifier_tag(tag: &str) -> (r: bool)
    ensures
        r == side_specific(tag@),
{
    let t = normalize_side_modifier_tag(tag);
    let t = t.as_str();
    same(t, "cmd-left") || same(t, "cmd-right") || same(t, "ctrl-left") || same(t, "ctrl-right")
        || same(t, "alt-left") || same(t, "alt-right") || same(t, "shift-left") || same(
        t,
        "shift-right",
    )
}

/// Two names of keys are the same, but for white space around them and the case of ASCII letters.
pub open spec fn same_key(expected: Seq<char>, actual: Seq<char>) -> bool {
    ascii_lowered(trimmed(expected)) == ascii_lowered(trimmed(actual))
}

/// Whether two names of keys are the same.
fn primary_eq(expected: &str, actual: &str) -> (r: bool)
    ensures
        r == same_key(expected@, actual@),
{
    eq_ignore_ascii_case(trim(expected).as_str(), trim(actual).as_str())
}

/// A direction of an edge.
pub ghost enum Edge {
    Press,
    Release,
}

/// The event of an edge.
pub open spec fn event_of(edge: Option<Edge>, at: u64) -> Option<ComboHotkeyEvent> {
    match edge {
        Some(Edge::Press) => Some(ComboHotkeyEvent::Pressed { at }),
        Some(Edge::Release) => Some(ComboHotkeyEvent::Released { at }),
        None => None,
    }
}

/// Whether the combination is active after an edge.
pub open spec fn active_after(active: bool, edge: Option<Edge>) -> bool {
    match edge {
        Some(Edge::Press) => true,
        Some(Edge::Release) => false,
        None => active,
    }
}

/// The edge that the key of the combination gives: a press where the modifiers match and the
/// combination is not active; a release where it is active and either the key goes up or the
/// modifiers no longer match.
pub open spec fn primary_edge(active: bool, matching: bool, pressed: bool) -> Option<Edge> {
    if !active && pressed && matching {
        Some(Edge::Press)
    } else if active && !(pressed && matching) {
        Some(Edge::Release)
    } else {
        None
    }
}

/// The edge that letting go of a modifier gives.
pub open spec fn modifier_edge(active: bool, matching: bool) -> Option<Edge> {
    if active && !matching {
        Some(Edge::Release)
    } else {
        None
    }
}

/// The state of one key combination.
#[derive(Debug)]
pub struct SideAwareComboState {
    pub binding: ShortcutBinding,
    pub modifiers: ModifierSideState,
    pub combo_active: bool,
}

/// Just the given modifiers are down, each named once.
pub open spec fn tags_match(wanted: Seq<Seq<char>>, modifiers: ModifierSideState) -> bool {
    wanted.map_values(|t: Seq<char>| side_tag(t)).to_multiset() == modifiers.tags().to_multiset()
}

impl SideAwareComboState {
    /// The modifiers of the binding, and no others, are down.
    pub open spec fn matching(self) -> bool {
        tags_match(texts(self.binding.modifiers@), self.modifiers)
    }

    /// A combination whose keys are all up.
    pub fn new(binding: ShortcutBinding) -> (r: SideAwareComboState)
        ensures
            r.binding == binding,
            !r.combo_active,
            r.modifiers == (ModifierSideState {
                cmd_left: false,
                cmd_right: false,
                ctrl_left: false,
                ctrl_right: false,
                alt_left: false,
                alt_right: false,
                shift_left: false,
                shift_right: false,
            }),
    {
        SideAwareComboState {
            binding,
            modifiers: ModifierSideState {
                cmd_left: false,
                cmd_right: false,
                ctrl_left: false,
                ctrl_right: false,
                alt_left: false,
                alt_right: false,
                shift_left: false,
                shift_right: false,
            },
            combo_active: false,
        }
    }

    /// Notes that a modifier went down or up.
    pub fn set_side(&mut self, side: SideModifier, pressed: bool)
        ensures
            *final(self) == (SideAwareComboState {
                modifiers: old(self).modifiers.with(side, pressed),
                ..*old(self)
            }),
    {
        match side {
            SideModifier::CmdLeft => self.modifiers.cmd_left = pressed,
            SideModifier::CmdRight => self.modifiers.cmd_right = pressed,
            SideModifier::CtrlLeft => self.modifiers.ctrl_left = pressed,
            SideModifier::CtrlRight => self.modifiers.ctrl_right = pressed,
            SideModifier::AltLeft => self.modifiers.alt_left = pressed,
            SideModifier::AltRight => self.modifiers.alt_right = pressed,
            SideModifier::ShiftLeft => self.modifiers.shift_left = pressed,
            SideModifier::ShiftRight => self.modifiers.shift_right = pressed,
        }
    }

    /// The tags of the modifiers that are down.
    fn pressed_modifier_tags(&self) -> (r: Vec<String>)
        ensures
            texts(r@) == self.modifiers.tags(),
    {
        let mut tags: Vec<String> = Vec::new();
        push_tag(&mut tags, self.modifiers.cmd_left, "cmd-left");
        push_tag(&mut tags, self.modifiers.cmd_right, "cmd-right");
        push_tag(&mut tags, self.modifiers.ctrl_left, "ctrl-left");
        push_tag(&mut tags, self.modifiers.ctrl_right, "ctrl-right");
        push_tag(&mut tags, self.modifiers.alt_left, "alt-left");
        push_tag(&mut tags, self.modifiers.alt_right, "alt-right");
        push_tag(&mut tags, self.modifiers.shift_left, "shift-left");
        push_tag(&mut tags, self.modifiers.shift_right, "shift-right");
        assert(texts(tags@) =~= self.modifiers.tags());
        tags
    }

    /// Whether the modifiers of the binding, and no others, are down.
    pub fn modifiers_match(&self) -> (r: bool)
        ensures
            r == self.matching(),
    {
        let mut left = self.pressed_modifier_tags();
        let ghost wanted = texts(self.binding.modifiers@).map_values(|t: Seq<char>| side_tag(t));
        let ghost down = self.modifiers.tags();
        let n: usize = self.binding.modifiers.len();
        let mut i: usize = 0;
        proof {
            wanted.take(0).to_multiset_ensures();
            assert(wanted.take(0).to_multiset() =~= Multiset::empty());
            assert(texts(left@).to_multiset() =~= wanted.take(0).to_multiset().add(
                texts(left@).to_multiset(),
            ));
        }
        while i < n
            invariant
                i <= n,
                n == self.binding.modifiers@.len(),
                wanted == texts(self.binding.modifiers@).map_values(|t: Seq<char>| side_tag(t)),
                down == self.modifiers.tags(),
                down.to_multiset() == wanted.take(i as int).to_multiset().add(
                    texts(left@).to_multiset(),
                ),
            decreases n - i,
        {
            let tag = normalize_side_modifier_tag(self.binding.modifiers[i].as_str());
            assert(tag@ == wanted[i as int]);
            let ghost before = texts(left@);
            match position_of(&left, tag.as_str()) {
                Some(k) => {
                    left.remove(k);
                    proof {
                        assert(texts(left@) =~= before.remove(k as int));
                        before.to_multiset_ensures();
                        assert(wanted.take(i + 1) =~= wanted.take(i as int).push(tag@));
                        wanted.take(i as int).to_multiset_ensures();
                        assert(down.to_multiset() =~= wanted.take(i + 1).to_multiset().add(
                            texts(left@).to_multiset(),
                        ));
                    }
                },
                None => {
                    proof {
                        before.to_multiset_ensures();
                        assert(before.to_multiset().count(tag@) == 0);
                        assert(wanted.take(i + 1) =~= wanted.take(i as int).push(tag@));
                        wanted.take(i as int).to_multiset_ensures();
                        assert(wanted.take(i + 1).to_multiset().count(tag@) == down.to_multiset().count(
                            tag@,
                        ) + 1);
                        lemma_part_counts(wanted, i + 1, tag@);
                    }
                    return false;
                },
            }
            i += 1;
        }
        proof {
            assert(wanted.take(n as int) =~= wanted);
            if left@.len() == 0 {
                texts(left@).to_multiset_ensures();
                assert(texts(left@).to_multiset() =~= Multiset::empty());
                assert(down.to_multiset() =~= wanted.to_multiset());
            } else {
                texts(left@).to_multiset_ensures();
                assert(down.to_multiset().len() == wanted.to_multiset().len() + left@.len());
            }
        }
        left.len() == 0
    }

    /// The key of the combination went down or up.
    pub fn on_primary(&mut self, primary: &str, pressed: bool, now: u64) -> (r: Option<
        ComboHotkeyEvent,
    >)
        ensures
            ({
                let edge = if same_key(old(self).binding.primary@, primary@) {
                    primary_edge(old(self).combo_active, old(self).matching(), pressed)
                } else {
                    None
                };
                &&& r == event_of(edge, now)
                &&& *final(self) == (SideAwareComboState {
                    combo_active: active_after(old(self).combo_active, edge),
                    ..*old(self)
                })
            }),
    {
        if !primary_eq(self.binding.primary.as_str(), primary) {
            return None;
        }
        if pressed && self.modifiers_match() {
            if !self.combo_active {
                self.combo_active = true;
                return Some(ComboHotkeyEvent::Pressed { at: now });
            }
            return None;
        }
        if self.combo_active {
            self.combo_active = false;
            return Some(ComboHotkeyEvent::Released { at: now });
        }
        None
    }

    /// A modifier went up.
    pub fn on_modifier_release(&mut self, side: SideModifier, now: u64) -> (r: Option<
        ComboHotkeyEvent,
    >)
        ensures
            ({
                let modifiers = old(self).modifiers.with(side, false);
                let edge = modifier_edge(
                    old(self).combo_active,
                    tags_match(texts(old(self).binding.modifiers@), modifiers),
                );
                &&& r == event_of(edge, now)
                &&& *final(self) == (SideAwareComboState {
                    modifiers,
                    combo_active: active_after(old(self).combo_active, edge),
                    ..*old(self)
                })
            }),
    {
        self.set_side(side, false);
        if self.combo_active && !self.modifiers_match() {
            self.combo_active = false;
            return Some(ComboHotkeyEvent::Released { at: now });
        }
        None
    }
}

proof fn lemma_part_counts(s: Seq<Seq<char>>, n: int, t: Seq<char>)
    requires
        0 <= n <= s.len(),
    ensures
        s.take(n).to_multiset().count(t) <= s.to_multiset().count(t),
    decreases s.len(),
{
    if n < s.len() {
        let d = s.drop_last();
        lemma_part_counts(d, n, t);
        assert(d.take(n) =~= s.take(n));
        assert(s =~= d.push(s.last()));
        d.to_multiset_ensures();
    } else {
        assert(s.take(n) =~= s);
    }
}

/// Appends a tag, where its modifier is down.
fn push_tag(tags: &mut Vec<String>, down: bool, tag: &str)
    ensures
        texts(final(tags)@) == texts(old(tags)@) + one_tag(down, tag@),
{
    if down {
        tags.push(owned(tag));
    }
    assert(texts(tags@) =~= texts(old(tags)@) + one_tag(down, tag@));
}

/// Where a text stands in a list.
fn position_of(v: &Vec<String>, t: &str) -> (r: Option<usize>)
    ensures
        match r {
            Some(k) => k < v@.len() && v@[k as int]@ == t@,
            None => !texts(v@).contains(t@),
        },
{
    let mut i: usize = 0;
    while i < v.len()
        invariant
            i <= v@.len(),
            forall|j: int| 0 <= j < i ==> #[trigger] texts(v@)[j] != t@,
        decreases v@.len() - i,
    {
        if same(v[i].as_str(), t) {
            return Some(i);
        }
        i += 1;
    }
    None
}

/// Watches one combination at a time.
pub struct SideAwareComboMonitor {
    pub active: Option<SideAwareComboState>,
}

/// A binding that can be watched: it has modifiers, and each is one of one side.
pub open spec fn watchable(binding: ShortcutBinding) -> bool {
    &&& binding.modifiers@.len() > 0
    &&& forall|i: int| 0 <= i < binding.modifiers@.len() ==> side_specific(
        #[trigger] binding.modifiers@[i]@,
    )
}

impl SideAwareComboMonitor {
    /// A monitor that watches nothing.
    pub fn new() -> (r: SideAwareComboMonitor)
        ensures
            r.active is None,
    {
        SideAwareComboMonitor { active: None }
    }

    /// Begins to watch a combination in place of the one before. `key_error` tells why its key
    /// cannot be watched, where it cannot. Linux does not report the side of modifiers.
    pub fn start(
        &mut self,
        platform: Platform,
        binding: ShortcutBinding,
        key_error: Option<String>,
    ) -> (r: Result<(), ComboHotkeyError>)
        ensures
            match r {
                Ok(_) => platform != Platform::Linux && watchable(binding) && key_error is None,
                Err(ComboHotkeyError::UnsupportedModifier(m)) => {
                    ||| platform == Platform::Linux && m@ == "侧向修饰键组合键在 Linux 暂不支持"@
                    ||| platform != Platform::Linux && !watchable(binding) && m@
                        == "binding is not side-specific"@
                },
                Err(ComboHotkeyError::UnsupportedKey(m)) => platform != Platform::Linux && watchable(
                    binding,
                ) && key_error == Some(m),
            },
            r is Err ==> *final(self) == *old(self),
            r is Ok ==> {
                &&& final(self).active is Some
                &&& final(self).active->0.binding == binding
                &&& !final(self).active->0.combo_active
                &&& final(self).active->0.modifiers.tags() == Seq::<Seq<char>>::empty()
            },
    {
        if platform == Platform::Linux {
            return Err(
                ComboHotkeyError::UnsupportedModifier(
                    owned("侧向修饰键组合键在 Linux 暂不支持"),
                ),
            );
        }
        let mut ok = binding.modifiers.len() > 0;
        let mut i: usize = 0;
        while i < binding.modifiers.len()
            invariant
                i <= binding.modifiers@.len(),
                ok <==> binding.modifiers@.len() > 0 && forall|j: int|
                    0 <= j < i ==> side_specific(#[trigger] binding.modifiers@[j]@),
            decreases binding.modifiers@.len() - i,
        {
            if !is_side_specific_modifier_tag(binding.modifiers[i].as_str()) {
                ok = false;
            }
            i += 1;
        }
        if !ok {
            return Err(
                ComboHotkeyError::UnsupportedModifier(owned("binding is not side-specific")),
            );
        }
        match key_error {
            Some(m) => {
                return Err(ComboHotkeyError::UnsupportedKey(m));
            },
            None => {},
        }
        let state = SideAwareComboState::new(binding);
        assert(state.modifiers.tags() =~= Seq::<Seq<char>>::empty());
        self.active = Some(state);
        Ok(())
    }

    /// Watches nothing any more.
    pub fn stop(&mut self)
        ensures
            final(self).active is None,
    {
        self.active = None;
    }
}

/// The state after a modifier went down or up, and the edge it gives.
pub open spec fn after_side(s: SideAwareComboState, side: SideModifier, pressed: bool) -> (
    SideAwareComboState,
    Option<Edge>,
) {
    let moved = SideAwareComboState { modifiers: s.modifiers.with(side, pressed), ..s };
    let edge = if pressed {
        None
    } else {
        modifier_edge(s.combo_active, moved.matching())
    };
    (SideAwareComboState { combo_active: active_after(s.combo_active, edge), ..moved }, edge)
}

/// The state after a key went down or up, and the edge it gives.
pub open spec fn after_key(s: SideAwareComboState, key: Seq<char>, pressed: bool) -> (
    SideAwareComboState,
    Option<Edge>,
) {
    let edge = if same_key(s.binding.primary@, key) {
        primary_edge(s.combo_active, s.matching(), pressed)
    } else {
        None
    };
    (SideAwareComboState { combo_active: active_after(s.combo_active, edge), ..s }, edge)
}

/// A modifier went down or up.
pub fn handle_side_modifier(
    monitor: &mut SideAwareComboMonitor,
    side: SideModifier,
    pressed: bool,
    now: u64,
) -> (r: Option<ComboHotkeyEvent>)
    ensures
        old(monitor).active is None ==> r is None && final(monitor).active is None,
        old(monitor).active matches Some(s) ==> {
            &&& final(monitor).active == Some(after_side(s, side, pressed).0)
            &&& r == event_of(after_side(s, side, pressed).1, now)
        },
{
    match monitor.active.take() {
        Some(state) => {
            let mut state = state;
            let r = if pressed {
                state.set_side(side, true);
                None
            } else {
                state.on_modifier_release(side, now)
            };
            monitor.active = Some(state);
            r
        },
        None => None,
    }
}

/// A key other than a modifier went down or up.
pub fn handle_primary_key(
    monitor: &mut SideAwareComboMonitor,
    primary: &str,
    pressed: bool,
    now: u64,
) -> (r: Option<ComboHotkeyEvent>)
    ensures
        old(monitor).active is None ==> r is None && final(monitor).active is None,
        old(monitor).active matches Some(s) ==> {
            &&& final(monitor).active == Some(after_key(s, primary@, pressed).0)
            &&& r == event_of(after_key(s, primary@, pressed).1, now)
        },
{
    match monitor.active.take() {
        Some(state) => {
            let mut state = state;
            let r = state.on_primary(primary, pressed, now);
            monitor.active = Some(state);
            r
        },
        None => None,
    }
}

/// The modifier that a Windows virtual key is.
pub open spec fn side_of_vk(vk_code: u32) -> Option<SideModifier> {
    match vk_code {
        0x5b => Some(SideModifier::CmdLeft),
        0x5c => Some(SideModifier::CmdRight),
        0xa2 => Some(SideModifier::CtrlLeft),
        0xa3 => Some(SideModifier::CtrlRight),
        0xa4 => Some(SideModifier::AltLeft),
        0xa5 => Some(SideModifier::AltRight),
        0xa0 => Some(SideModifier::ShiftLeft),
        0xa1 => Some(SideModifier::ShiftRight),
        _ => None,
    }
}

/// The modifier that a Windows virtual key is.
pub fn side_from_vk(vk_code: u32) -> (r: Option<SideModifier>)
    ensures
        r == side_of_vk(vk_code),
{
    match vk_code {
        0x5b => Some(SideModifier::CmdLeft),
        0x5c => Some(SideModifier::CmdRight),
        0xa2 => Some(SideModifier::CtrlLeft),
        0xa3 => Some(SideModifier::CtrlRight),
        0xa4 => Some(SideModifier::AltLeft),
        0xa5 => Some(SideModifier::AltRight),
        0xa0 => Some(SideModifier::ShiftLeft),
        0xa1 => Some(SideModifier::ShiftRight),
        _ => None,
    }
}

/// The name of a Windows virtual key that is neither a letter nor a digit.
pub open spec fn named_vk(vk_code: u32) -> Option<Seq<char>> {
    match vk_code {
        0x20 => Some("Space"@),
        0x0d => Some("Enter"@),
        0x09 => Some("Tab"@),
        0x08 => Some("Backspace"@),
        0x2e => Some("Delete"@),
        0x1b => Some("Escape"@),
        0x24 => Some("Home"@),
        0x23 => Some("End"@),
        0x2d => Some("Insert"@),
        0x26 => Some("ArrowUp"@),
        0x28 => Some("ArrowDown"@),
        0x25 => Some("ArrowLeft"@),
        0x27 => Some("ArrowRight"@),
        0x70 => Some("F1"@),
        0x71 => Some("F2"@),
        0x72 => Some("F3"@),
        0x73 => Some("F4"@),
        0x74 => Some("F5"@),
        0x75 => Some("F6"@),
        0x76 => Some("F7"@),
        0x77 => Some("F8"@),
        0x78 => Some("F9"@),
        0x79 => Some("F10"@),
        0x7a => Some("F11"@),
        0x7b => Some("F12"@),
        0xba => Some(";"@),
        0xbb => Some("="@),
        0xbc => Some(","@),
        0xbd => Some("-"@),
        0xbe => Some("."@),
        0xbf => Some("/"@),
        0xc0 => Some("`"@),
        0xdb => Some("["@),
        0xdc => Some("\\"@),
        0xdd => Some("]"@),
        0xde => Some("'"@),
        _ => None,
    }
}

/// The name of a Windows virtual key that is neither a letter nor a digit.
fn vk_name(vk_code: u32) -> (r: Option<&'static str>)
    ensures
        match r {
            Some(name) => named_vk(vk_code) == Some(name@),
            None => named_vk(vk_code) is None,
        },
{
    match vk_code {
        0x20 => Some("Space"),
        0x0d => Some("Enter"),
        0x09 => Some("Tab"),
        0x08 => Some("Backspace"),
        0x2e => Some("Delete"),
        0x1b => Some("Escape"),
        0x24 => Some("Home"),
        0x23 => Some("End"),
        0x2d => Some("Insert"),
        0x26 => Some("ArrowUp"),
        0x28 => Some("ArrowDown"),
        0x25 => Some("ArrowLeft"),
        0x27 => Some("ArrowRight"),
        0x70 => Some("F1"),
        0x71 => Some("F2"),
        0x72 => Some("F3"),
        0x73 => Some("F4"),
        0x74 => Some("F5"),
        0x75 => Some("F6"),
        0x76 => Some("F7"),
        0x77 => Some("F8"),
        0x78 => Some("F9"),
        0x79 => Some("F10"),
        0x7a => Some("F11"),
        0x7b => Some("F12"),
        0xba => Some(";"),
        0xbb => Some("="),
        0xbc => Some(","),
        0xbd => Some("-"),
        0xbe => Some("."),
        0xbf => Some("/"),
        0xc0 => Some("`"),
        0xdb => Some("["),
        0xdc => Some("\\"),
        0xdd => Some("]"),
        0xde => Some("'"),
        _ => None,
    }
}

/// The name of a Windows virtual key. Letters and digits have the code of their character.
pub open spec fn primary_of_vk(vk_code: u32) -> Option<Seq<char>> {
    if 0x41 <= vk_code <= 0x5a || 0x30 <= vk_code <= 0x39 {
        Some(seq![vk_code as u8 as char])
    } else {
        named_vk(vk_code)
    }
}

/// The name of a Windows virtual key.
pub fn primary_from_vk(vk_code: u32) -> (r: Option<String>)
    ensures
        match r {
            Some(name) => primary_of_vk(vk_code) == Some(name@),
            None => primary_of_vk(vk_code) is None,
        },
{
    if (0x41 <= vk_code && vk_code <= 0x5a) || (0x30 <= vk_code && vk_code <= 0x39) {
        let mut name = String::new();
        name.push(vk_code as u8 as char);
        assert(name@ =~= seq![vk_code as u8 as char]);
        return Some(name);
    }
    match vk_name(vk_code) {
        Some(name) => Some(owned(name)),
        None => None,
    }
}

/// The state after a Windows virtual key went down or up, and the edge it gives.
pub open spec fn after_vk(s: SideAwareComboState, vk_code: u32, pressed: bool) -> (
    SideAwareComboState,
    Option<Edge>,
) {
    match side_of_vk(vk_code) {
        Some(side) => after_side(s, side, pressed),
        None => match primary_of_vk(vk_code) {
            Some(key) => after_key(s, key, pressed),
            None => (s, None),
        },
    }
}

/// A Windows virtual key went down or up.
pub fn dispatch_vk(
    monitor: &mut SideAwareComboMonitor,
    vk_code: u32,
    pressed: bool,
    now: u64,
) -> (r: Option<ComboHotkeyEvent>)
    ensures
        old(monitor).active is None ==> r is None && final(monitor).active is None,
        old(monitor).active matches Some(s) ==> {
            &&& final(monitor).active == Some(after_vk(s, vk_code, pressed).0)
            &&& r == event_of(after_vk(s, vk_code, pressed).1, now)
        },
{
    match side_from_vk(vk_code) {
        Some(side) => {
            return handle_side_modifier(monitor, side, pressed, now);
        },
        None => {},
    }
    match primary_from_vk(vk_code) {
        Some(primary) => handle_primary_key(monitor, primary.as_str(), pressed, now),
        None => None,
    }
}

/// The name of a macOS key, by its code on a US keyboard.
pub open spec fn primary_of_keycode(keycode: i64) -> Option<Seq<char>> {
    match keycode {
        0 => Some("A"@),
        1 => Some("S"@),
        2 => Some("D"@),
        3 => Some("F"@),
        4 => Some("H"@),
        5 => Some("G"@),
        6 => Some("Z"@),
        7 => Some("X"@),
        8 => Some("C"@),
        9 => Some("V"@),
        11 => Some("B"@),
        12 => Some("Q"@),
        13 => Some("W"@),
        14 => Some("E"@),
        15 => Some("R"@),
        16 => Some("Y"@),
        17 => Some("T"@),
        31 => Some("O"@),
        32 => Some("U"@),
        34 => Some("I"@),
        35 => Some("P"@),
        37 => Some("L"@),
        38 => Some("J"@),
        40 => Some("K"@),
        45 => Some("N"@),
        46 => Some("M"@),
        18 => Some("1"@),
        19 => Some("2"@),
        20 => Some("3"@),
        21 => Some("4"@),
        22 => Some("6"@),
        23 => Some("5"@),
        25 => Some("9"@),
        26 => Some("7"@),
        28 => Some("8"@),
        29 => Some("0"@),
        24 => Some("="@),
        27 => Some("-"@),
        30 => Some("]"@),
        33 => Some("["@),
        39 => Some("'"@),
        41 => Some(";"@),
        42 => Some("\\"@),
        43 => Some(","@),
        44 => Some("/"@),
        47 => Some("."@),
        50 => Some("`"@),
        36 => Some("Enter"@),
        48 => Some("Tab"@),
        49 => Some("Space"@),
        51 => Some("Backspace"@),
        53 => Some("Escape"@),
        117 => Some("Delete"@),
        123 => Some("ArrowLeft"@),
        124 => Some("ArrowRight"@),
        125 => Some("ArrowDown"@),
        126 => Some("ArrowUp"@),
        122 => Some("F1"@),
        120 => Some("F2"@),
        99 => Some("F3"@),
        118 => Some("F4"@),
        96 => Some("F5"@),
        97 => Some("F6"@),
        98 => Some("F7"@),
        100 => Some("F8"@),
        101 => Some("F9"@),
        109 => Some("F10"@),
        103 => Some("F11"@),
        111 => Some("F12"@),
        _ => None,
    }
}

/// The name of a macOS key, by its code on a US keyboard.
pub fn macos_keycode_to_primary(keycode: i64) -> (r: Option<&'static str>)
    ensures
        match r {
            Some(name) => primary_of_keycode(keycode) == Some(name@),
            None => primary_of_keycode(keycode) is None,
        },
{
    match keycode {
        0 => Some("A"),
        1 => Some("S"),
        2 => Some("D"),
        3 => Some("F"),
        4 => Some("H"),
        5 => Some("G"),
        6 => Some("Z"),
        7 => Some("X"),
        8 => Some("C"),
        9 => Some("V"),
        11 => Some("B"),
        12 => Some("Q"),
        13 => Some("W"),
        14 => Some("E"),
        15 => Some("R"),
        16 => Some("Y"),
        17 => Some("T"),
        31 => Some("O"),
        32 => Some("U"),
        34 => Some("I"),
        35 => Some("P"),
        37 => Some("L"),
        38 => Some("J"),
        40 => Some("K"),
        45 => Some("N"),
        46 => Some("M"),
        18 => Some("1"),
        19 => Some("2"),
        20 => Some("3"),
        21 => Some("4"),
        22 => Some("6"),
        23 => Some("5"),
        25 => Some("9"),
        26 => Some("7"),
        28 => Some("8"),
        29 => Some("0"),
        24 => Some("="),
        27 => Some("-"),
        30 => Some("]"),
        33 => Some("["),
        39 => Some("'"),
        41 => Some(";"),
        42 => Some("\\"),
        43 => Some(","),
        44 => Some("/"),
        47 => Some("."),
        50 => Some("`"),
        36 => Some("Enter"),
        48 => Some("Tab"),
        49 => Some("Space"),
        51 => Some("Backspace"),
        53 => Some("Escape"),
        117 => Some("Delete"),
        123 => Some("ArrowLeft"),
        124 => Some("ArrowRight"),
        125 => Some("ArrowDown"),
        126 => Some("ArrowUp"),
        122 => Some("F1"),
        120 => Some("F2"),
        99 => Some("F3"),
        118 => Some("F4"),
        96 => Some("F5"),
        97 => Some("F6"),
        98 => Some("F7"),
        100 => Some("F8"),
        101 => Some("F9"),
        109 => Some("F10"),
        103 => Some("F11"),
        111 => Some("F12"),
        _ => None,
    }
}

/// The modifier that a macOS key is.
pub open spec fn side_of_keycode(keycode: i64) -> Option<SideModifier> {
    match keycode {
        55 => Some(SideModifier::CmdLeft),
        54 => Some(SideModifier::CmdRight),
        59 => Some(SideModifier::CtrlLeft),
        62 => Some(SideModifier::CtrlRight),
        58 => Some(SideModifier::AltLeft),
        61 => Some(SideModifier::AltRight),
        56 => Some(SideModifier::ShiftLeft),
        60 => Some(SideModifier::ShiftRight),
        _ => None,
    }
}

/// The modifier that a macOS key is.
pub fn side_from_keycode(keycode: i64) -> (r: Option<SideModifier>)
    ensures
        r == side_of_keycode(keycode),
{
    match keycode {
        55 => Some(SideModifier::CmdLeft),
        54 => Some(SideModifier::CmdRight),
        59 => Some(SideModifier::CtrlLeft),
        62 => Some(SideModifier::CtrlRight),
        58 => Some(SideModifier::AltLeft),
        61 => Some(SideModifier::AltRight),
        56 => Some(SideModifier::ShiftLeft),
        60 => Some(SideModifier::ShiftRight),
        _ => None,
    }
}

/// The bit of an event's flags that stands for a modifier on either side.
pub open spec fn class_mask(side: SideModifier) -> u64 {
    match side {
        SideModifier::CmdLeft => 0x10_0000,
        SideModifier::CmdRight => 0x10_0000,
        SideModifier::CtrlLeft => 0x4_0000,
        SideModifier::CtrlRight => 0x4_0000,
        SideModifier::AltLeft => 0x8_0000,
        SideModifier::AltRight => 0x8_0000,
        SideModifier::ShiftLeft => 0x2_0000,
        SideModifier::ShiftRight => 0x2_0000,
    }
}

/// The bit of an event's flags that stands for a modifier on either side.
fn class_mask_for_keycode(keycode: i64) -> (r: Option<u64>)
    ensures
        r == match side_of_keycode(keycode) {
            Some(side) => Some(class_mask(side)),
            None => None,
        },
{
    match keycode {
        55 | 54 => Some(0x10_0000),
        59 | 62 => Some(0x4_0000),
        58 | 61 => Some(0x8_0000),
        56 | 60 => Some(0x2_0000),
        _ => None,
    }
}

/// What an event's flags tell of a modifier: that it is up, where the bit that it shares with the
/// other side is clear; else nothing.
pub fn resolve_side_pressed_from_flags(keycode: i64, flags: u64) -> (r: Option<bool>)
    ensures
        r == match side_of_keycode(keycode) {
            Some(side) if flags & class_mask(side) == 0 => Some(false),
            _ => None,
        },
{
    match class_mask_for_keycode(keycode) {
        Some(mask) => {
            if flags & mask == 0 {
                Some(false)
            } else {
                None
            }
        },
        None => None,
    }
}

/// The state after a macOS key event, and the edge it gives.
pub open spec fn after_keycode(
    s: SideAwareComboState,
    keycode: i64,
    flags_changed: bool,
    flags: u64,
    pressed: bool,
    key_down: bool,
) -> (SideAwareComboState, Option<Edge>) {
    if flags_changed {
        match side_of_keycode(keycode) {
            Some(side) => after_side(s, side, flags & class_mask(side) != 0 && key_down),
            None => (s, None),
        }
    } else {
        match primary_of_keycode(keycode) {
            Some(key) => after_key(s, key, pressed),
            None => (s, None),
        }
    }
}

/// A macOS key event. `key_down` tells whether the system has the key down now; it counts only
/// where the flags leave that open.
pub fn dispatch_keycode(
    monitor: &mut SideAwareComboMonitor,
    keycode: i64,
    flags_changed: bool,
    flags: u64,
    pressed: bool,
    key_down: bool,
    now: u64,
) -> (r: Option<ComboHotkeyEvent>)
    ensures
        old(monitor).active is None ==> r is None && final(monitor).active is None,
        old(monitor).active matches Some(s) ==> {
            let next = after_keycode(s, keycode, flags_changed, flags, pressed, key_down);
            &&& final(monitor).active == Some(next.0)
            &&& r == event_of(next.1, now)
        },
{
    if flags_changed {
        return match side_from_keycode(keycode) {
            Some(side) => {
                let down = match resolve_side_pressed_from_flags(keycode, flags) {
                    Some(down) => down,
                    None => key_down,
                };
                handle_side_modifier(monitor, side, down, now)
            },
            None => None,
        };
    }
    match macos_keycode_to_primary(keycode) {
        Some(primary) => handle_primary_key(monitor, primary, pressed, now),
        None => None,
    }
}

/// Something that happens on the keyboard.
pub ghost enum KeyInput {
    /// A modifier went down or up, and the combination is looked at.
    Side(SideModifier, bool),
    /// It is noted that a modifier is down or up, and nothing else.
    Noted(SideModifier, bool),
    /// A key other than a modifier went down or up.
    Key(Seq<char>, bool),
}

/// The state after one input, and the edge it gives.
pub open spec fn after_input(s: SideAwareComboState, input: KeyInput) -> (
    SideAwareComboState,
    Option<Edge>,
) {
    match input {
        KeyInput::Side(side, pressed) => after_side(s, side, pressed),
        KeyInput::Noted(side, pressed) => (
            SideAwareComboState { modifiers: s.modifiers.with(side, pressed), ..s },
            None,
        ),
        KeyInput::Key(key, pressed) => after_key(s, key, pressed),
    }
}

/// The state after inputs, and the edges they give.
pub open spec fn after_inputs(s: SideAwareComboState, inputs: Seq<KeyInput>) -> (
    SideAwareComboState,
    Seq<Edge>,
)
    decreases inputs.len(),
{
    if inputs.len() == 0 {
        (s, seq![])
    } else {
        let (t, edges) = after_inputs(s, inputs.drop_last());
        let (u, edge) = after_input(t, inputs.last());
        (
            u,
            match edge {
                Some(e) => edges.push(e),
                None => edges,
            },
        )
    }
}

/// Whatever happens on the keyboard, presses and releases of a combination take turns, beginning
/// with a press: no press comes twice, and no release without a press before it.
pub proof fn law_presses_and_releases_take_turns(s: SideAwareComboState, inputs: Seq<KeyInput>)
    requires
        !s.combo_active,
    ensures
        forall|i: int|
            0 <= i < after_inputs(s, inputs).1.len() ==> #[trigger] after_inputs(s, inputs).1[i]
                == if i % 2 == 0 {
                Edge::Press
            } else {
                Edge::Release
            },
        after_inputs(s, inputs).0.combo_active <==> after_inputs(s, inputs).1.len() % 2 == 1,
    decreases inputs.len(),
{
    if inputs.len() > 0 {
        law_presses_and_releases_take_turns(s, inputs.drop_last());
    }
}

/// No two keys share a name, so a combination is never mistaken for another.
pub proof fn law_key_names_are_distinct(a: i64, b: i64)
    requires
        primary_of_keycode(a) is Some,
        primary_of_keycode(a) == primary_of_keycode(b),
    ensures
        a == b,
{
    // Its length and its outer characters tell a name from all others.
    let name = primary_of_keycode(a)->0;
    let shape = (name.len(), name[0], name.last());
    reveal_strlit("A");
    reveal_strlit("S");
    reveal_strlit("D");
    reveal_strlit("F");
    reveal_strlit("H");
    reveal_strlit("G");
    reveal_strlit("Z");
    reveal_strlit("X");
    reveal_strlit("C");
    reveal_strlit("V");
    reveal_strlit("B");
    reveal_strlit("Q");
    reveal_strlit("W");
    reveal_strlit("E");
    reveal_strlit("R");
    reveal_strlit("Y");
    reveal_strlit("T");
    reveal_strlit("O");
    reveal_strlit("U");
    reveal_strlit("I");
    reveal_strlit("P");
    reveal_strlit("L");
    reveal_strlit("J");
    reveal_strlit("K");
    reveal_strlit("N");
    reveal_strlit("M");
    reveal_strlit("1");
    reveal_strlit("2");
    reveal_strlit("3");
    reveal_strlit("4");
    reveal_strlit("6");
    reveal_strlit("5");
    reveal_strlit("9");
    reveal_strlit("7");
    reveal_strlit("8");
    reveal_strlit("0");
    reveal_strlit("=");
    reveal_strlit("-");
    reveal_strlit("]");
    reveal_strlit("[");
    reveal_strlit("'");
    reveal_strlit(";");
    reveal_strlit("\\");
    reveal_strlit(",");
    reveal_strlit("/");
    reveal_strlit(".");
    reveal_strlit("`");
    reveal_strlit("Enter");
    reveal_strlit("Tab");
    reveal_strlit("Space");
    reveal_strlit("Backspace");
    reveal_strlit("Escape");
    reveal_strlit("Delete");
    reveal_strlit("ArrowLeft");
    reveal_strlit("ArrowRight");
    reveal_strlit("ArrowDown");
    reveal_strlit("ArrowUp");
    reveal_strlit("F1");
    reveal_strlit("F2");
    reveal_strlit("F3");
    reveal_strlit("F4");
    reveal_strlit("F5");
    reveal_strlit("F6");
    reveal_strlit("F7");
    reveal_strlit("F8");
    reveal_strlit("F9");
    reveal_strlit("F10");
    reveal_strlit("F11");
    reveal_strlit("F12");
}

/// When the key of an active combination goes up, the combination is released, whatever became of
/// its modifiers.
pub proof fn law_key_up_always_releases(s: SideAwareComboState, key: Seq<char>)
    requires
        s.combo_active,
        same_key(s.binding.primary@, key),
    ensures
        after_key(s, key, false).1 == Some(Edge::Release),
        !after_key(s, key, false).0.combo_active,
{
}

/// The modifiers of a macOS keyboard have these codes, left and right apart, and no other key is a
/// modifier. The bit that an event's flags share for both sides is the same for both.
pub proof fn law_modifier_keycodes(keycode: i64)
    ensures
        side_of_keycode(55) == Some(SideModifier::CmdLeft),
        side_of_keycode(54) == Some(SideModifier::CmdRight),
        side_of_keycode(56) == Some(SideModifier::ShiftLeft),
        side_of_keycode(60) == Some(SideModifier::ShiftRight),
        side_of_keycode(58) == Some(SideModifier::AltLeft),
        side_of_keycode(61) == Some(SideModifier::AltRight),
        side_of_keycode(59) == Some(SideModifier::CtrlLeft),
        side_of_keycode(62) == Some(SideModifier::CtrlRight),
        side_of_keycode(keycode) is Some <==> 54 <= keycode <= 62 && keycode != 57,
        class_mask(SideModifier::ShiftLeft) == 0x2_0000,
        class_mask(SideModifier::CtrlLeft) == 2 * class_mask(SideModifier::ShiftLeft),
        class_mask(SideModifier::AltLeft) == 2 * class_mask(SideModifier::CtrlLeft),
        class_mask(SideModifier::CmdLeft) == 2 * class_mask(SideModifier::AltLeft),
        class_mask(SideModifier::ShiftRight) == class_mask(SideModifier::ShiftLeft),
        class_mask(SideModifier::CtrlRight) == class_mask(SideModifier::CtrlLeft),
        class_mask(SideModifier::AltRight) == class_mask(SideModifier::AltLeft),
        class_mask(SideModifier::CmdRight) == class_mask(SideModifier::CmdLeft),
{
}

/// The modifiers of a Windows keyboard have these codes, left and right apart, and no other key is
/// a modifier.
pub proof fn law_modifier_virtual_keys(vk_code: u32)
    ensures
        side_of_vk(0x5b) == Some(SideModifier::CmdLeft),
        side_of_vk(0x5c) == Some(SideModifier::CmdRight),
        side_of_vk(0xa0) == Some(SideModifier::ShiftLeft),
        side_of_vk(0xa1) == Some(SideModifier::ShiftRight),
        side_of_vk(0xa2) == Some(SideModifier::CtrlLeft),
        side_of_vk(0xa3) == Some(SideModifier::CtrlRight),
        side_of_vk(0xa4) == Some(SideModifier::AltLeft),
        side_of_vk(0xa5) == Some(SideModifier::AltRight),
        side_of_vk(vk_code) is Some <==> 0xa0 <= vk_code <= 0xa5 || 0x5b <= vk_code <= 0x5c,
{
}

/// A modifier is down.
pub open spec fn is_down(m: ModifierSideState, side: SideModifier) -> bool {
    match side {
        SideModifier::CmdLeft => m.cmd_left,
        SideModifier::CmdRight => m.cmd_right,
        SideModifier::CtrlLeft => m.ctrl_left,
        SideModifier::CtrlRight => m.ctrl_right,
        SideModifier::AltLeft => m.alt_left,
        SideModifier::AltRight => m.alt_right,
        SideModifier::ShiftLeft => m.shift_left,
        SideModifier::ShiftRight => m.shift_right,
    }
}

/// A modifier that goes down or up leaves each other one, also that of the other side, as it was.
pub proof fn law_sides_are_kept_apart(
    m: ModifierSideState,
    side: SideModifier,
    pressed: bool,
    other: SideModifier,
)
    ensures
        is_down(m.with(side, pressed), side) == pressed,
        other != side ==> is_down(m.with(side, pressed), other) == is_down(m, other),
{
}

proof fn lemma_one_tag(down: bool, tag: Seq<char>, t: Seq<char>)
    ensures
        one_tag(down, tag).contains(t) <==> down && t == tag,
{
    if down {
        assert(one_tag(down, tag)[0] == tag);
    }
}

proof fn lemma_tags(m: ModifierSideState, t: Seq<char>)
    ensures
        m.tags().contains(t) <==> {
            ||| (m.cmd_left && t == "cmd-left"@)
            ||| (m.cmd_right && t == "cmd-right"@)
            ||| (m.ctrl_left && t == "ctrl-left"@)
            ||| (m.ctrl_right && t == "ctrl-right"@)
            ||| (m.alt_left && t == "alt-left"@)
            ||| (m.alt_right && t == "alt-right"@)
            ||| (m.shift_left && t == "shift-left"@)
            ||| (m.shift_right && t == "shift-right"@)
        },
{
    broadcast use vstd::seq_lib::group_seq_properties;

    lemma_one_tag(m.cmd_left, "cmd-left"@, t);
    lemma_one_tag(m.cmd_right, "cmd-right"@, t);
    lemma_one_tag(m.ctrl_left, "ctrl-left"@, t);
    lemma_one_tag(m.ctrl_right, "ctrl-right"@, t);
    lemma_one_tag(m.alt_left, "alt-left"@, t);
    lemma_one_tag(m.alt_right, "alt-right"@, t);
    lemma_one_tag(m.shift_left, "shift-left"@, t);
    lemma_one_tag(m.shift_right, "shift-right"@, t);
}

/// Each modifier that is down has its tag among those of the state, and no other has.
pub proof fn law_tags_tell_what_is_down(m: ModifierSideState)
    ensures
        m.tags().contains("cmd-left"@) <==> m.cmd_left,
        m.tags().contains("cmd-right"@) <==> m.cmd_right,
        m.tags().contains("ctrl-left"@) <==> m.ctrl_left,
        m.tags().contains("ctrl-right"@) <==> m.ctrl_right,
        m.tags().contains("alt-left"@) <==> m.alt_left,
        m.tags().contains("alt-right"@) <==> m.alt_right,
        m.tags().contains("shift-left"@) <==> m.shift_left,
        m.tags().contains("shift-right"@) <==> m.shift_right,
{
    reveal_strlit("cmd-left");
    reveal_strlit("cmd-right");
    reveal_strlit("ctrl-left");
    reveal_strlit("ctrl-right");
    reveal_strlit("alt-left");
    reveal_strlit("alt-right");
    reveal_strlit("shift-left");
    reveal_strlit("shift-right");
    assert("cmd-left"@.len() == 8);
    assert("cmd-right"@.len() == 9);
    assert("ctrl-left"@.len() == 9);
    assert("ctrl-right"@.len() == 10);
    assert("alt-left"@.len() == 8);
    assert("alt-right"@.len() == 9);
    assert("shift-left"@.len() == 10);
    assert("shift-right"@.len() == 11);
    assert("cmd-left"@[0] != "alt-left"@[0]);
    assert("cmd-right"@[1] != "ctrl-left"@[1]);
    assert("cmd-right"@[0] != "alt-right"@[0]);
    assert("ctrl-left"@[0] != "alt-right"@[0]);
    assert("ctrl-right"@[0] != "shift-left"@[0]);
    lemma_tags(m, "cmd-left"@);
    lemma_tags(m, "cmd-right"@);
    lemma_tags(m, "ctrl-left"@);
    lemma_tags(m, "ctrl-right"@);
    lemma_tags(m, "alt-left"@);
    lemma_tags(m, "alt-right"@);
    lemma_tags(m, "shift-left"@);
    lemma_tags(m, "shift-right"@);
}

/// A combination matches only where each modifier that it names is down, and no other is; the order
/// in which it names them does not count, and `super` is `cmd`.
pub proof fn law_combination_matches_just_its_modifiers(
    wanted: Seq<Seq<char>>,
    again: Seq<Seq<char>>,
    m: ModifierSideState,
    tag: Seq<char>,
)
    ensures
        tags_match(wanted, m) ==> (wanted.map_values(|t: Seq<char>| side_tag(t)).contains(tag)
            <==> m.tags().contains(tag)),
        tags_match(wanted, m) ==> wanted.len() == m.tags().len(),
        wanted.map_values(|t: Seq<char>| side_tag(t)).to_multiset() == again.map_values(
            |t: Seq<char>| side_tag(t),
        ).to_multiset() ==> tags_match(wanted, m) == tags_match(again, m),
        side_tag("super-left"@) == "cmd-left"@,
        side_tag("super-right"@) == "cmd-right"@,
        tag != "super-left"@ && tag != "super-right"@ ==> side_tag(tag) == tag,
{
    let named = wanted.map_values(|t: Seq<char>| side_tag(t));
    named.to_multiset_ensures();
    m.tags().to_multiset_ensures();
    reveal_strlit("super-left");
    reveal_strlit("super-right");
    assert("super-left"@.len() != "super-right"@.len());
    assert(named.contains(tag) <==> named.to_multiset().count(tag) > 0);
    assert(m.tags().contains(tag) <==> m.tags().to_multiset().count(tag) > 0);
}

/// A combination is pressed exactly when its key goes down while its modifiers are and it is not
/// pressed yet. Another key does nothing to it, and neither does a modifier that goes down.
pub proof fn law_combination_is_pressed(
    s: SideAwareComboState,
    key: Seq<char>,
    pressed: bool,
    side: SideModifier,
)
    ensures
        after_key(s, key, pressed).1 == Some(Edge::Press) <==> pressed && !s.combo_active
            && s.matching() && same_key(s.binding.primary@, key),
        after_key(s, key, pressed).1 == Some(Edge::Release) <==> s.combo_active && same_key(
            s.binding.primary@,
            key,
        ) && (!pressed || !s.matching()),
        !same_key(s.binding.primary@, key) ==> after_key(s, key, pressed).0 == s,
        after_side(s, side, true).1 is None,
        after_side(s, side, true).0.combo_active == s.combo_active,
        is_down(after_side(s, side, pressed).0.modifiers, side) == pressed,
        after_side(s, side, false).1 != Some(Edge::Press),
        after_side(s, side, false).1 == Some(Edge::Release) <==> s.combo_active && !(
        SideAwareComboState { modifiers: s.modifiers.with(side, false), ..s }).matching(),
        after_key(s, key, pressed).0.binding == s.binding,
        after_key(s, key, pressed).0.modifiers == s.modifiers,
        after_side(s, side, pressed).0.binding == s.binding,
{
}

/// After an edge the combination is pressed or not, as the edge says, and the event of an edge has
/// the time at which it came.
pub proof fn law_edges_are_told(active: bool, at: u64)
    ensures
        active_after(active, Some(Edge::Press)),
        !active_after(active, Some(Edge::Release)),
        active_after(active, None) == active,
        event_of(Some(Edge::Press), at) == Some(ComboHotkeyEvent::Pressed { at }),
        event_of(Some(Edge::Release), at) == Some(ComboHotkeyEvent::Released { at }),
        event_of(None, at) is None,
{
}

/// On macOS a modifier counts as down only where both the bit that it shares with the other side is
/// set and the system has the key itself down. Keys that have no name do nothing.
pub proof fn law_macos_modifier_is_down(
    s: SideAwareComboState,
    keycode: i64,
    flags: u64,
    pressed: bool,
    key_down: bool,
)
    ensures
        side_of_keycode(keycode) matches Some(side) ==> (is_down(
            after_keycode(s, keycode, true, flags, pressed, key_down).0.modifiers,
            side,
        ) <==> flags & class_mask(side) != 0 && key_down),
        side_of_keycode(keycode) is None ==> after_keycode(
            s,
            keycode,
            true,
            flags,
            pressed,
            key_down,
        ).0 == s,
        primary_of_keycode(keycode) is None ==> after_keycode(
            s,
            keycode,
            false,
            flags,
            pressed,
            key_down,
        ) == (s, None::<Edge>),
        after_keycode(s, keycode, false, flags, pressed, key_down).0.modifiers == s.modifiers,
{
}

/// On Windows letters and digits are named by themselves, and the keys from F1 to F12 follow each
/// other. A key that is a modifier never counts as the key of a combination.
pub proof fn law_windows_key_names(vk_code: u32, n: u32)
    requires
        1 <= n <= 12,
    ensures
        'A' as u32 <= vk_code <= 'Z' as u32 || '0' as u32 <= vk_code <= '9' as u32 ==> (
        primary_of_vk(vk_code) matches Some(name) && name.len() == 1 && name[0] as u32 == vk_code),
        primary_of_vk((0x6f + n) as u32) == Some("F"@ + decimal(n as nat)),
        side_of_vk(vk_code) is Some ==> primary_of_vk(vk_code) is None,
        primary_of_vk(0x25) == Some("ArrowLeft"@),
        primary_of_vk(0x26) == Some("ArrowUp"@),
        primary_of_vk(0x27) == Some("ArrowRight"@),
        primary_of_vk(0x28) == Some("ArrowDown"@),
        primary_of_vk(0x08) == Some("Backspace"@),
        primary_of_vk(0x09) == Some("Tab"@),
        primary_of_vk(0x0d) == Some("Enter"@),
        primary_of_vk(0x1b) == Some("Escape"@),
        primary_of_vk(0x20) == Some("Space"@),
        primary_of_vk(0x23) == Some("End"@),
        primary_of_vk(0x24) == Some("Home"@),
        primary_of_vk(0x2d) == Some("Insert"@),
        primary_of_vk(0x2e) == Some("Delete"@),
        0xba <= vk_code <= 0xc0 ==> primary_of_vk(vk_code) == Some(
            seq![";"@, "="@, ","@, "-"@, "."@, "/"@, "`"@][vk_code - 0xba],
        ),
        0xdb <= vk_code <= 0xde ==> primary_of_vk(vk_code) == Some(
            seq!["["@, "\\"@, "]"@, "'"@][vk_code - 0xdb],
        ),
        primary_of_vk(vk_code) is Some <==> {
            ||| 'A' as u32 <= vk_code <= 'Z' as u32
            ||| '0' as u32 <= vk_code <= '9' as u32
            ||| 0x70 <= vk_code <= 0x7b
            ||| 0x23 <= vk_code <= 0x28
            ||| 0xba <= vk_code <= 0xc0
            ||| 0xdb <= vk_code <= 0xde
            ||| vk_code == 0x08
            ||| vk_code == 0x09
            ||| vk_code == 0x0d
            ||| vk_code == 0x1b
            ||| vk_code == 0x20
            ||| vk_code == 0x2d
            ||| vk_code == 0x2e
        },
{
    reveal_with_fuel(decimal, 3);
    reveal_strlit("F");
    reveal_strlit("F1");
    assert("F"@ + decimal(1) =~= "F1"@);
    reveal_strlit("F2");
    assert("F"@ + decimal(2) =~= "F2"@);
    reveal_strlit("F3");
    assert("F"@ + decimal(3) =~= "F3"@);
    reveal_strlit("F4");
    assert("F"@ + decimal(4) =~= "F4"@);
    reveal_strlit("F5");
    assert("F"@ + decimal(5) =~= "F5"@);
    reveal_strlit("F6");
    assert("F"@ + decimal(6) =~= "F6"@);
    reveal_strlit("F7");
    assert("F"@ + decimal(7) =~= "F7"@);
    reveal_strlit("F8");
    assert("F"@ + decimal(8) =~= "F8"@);
    reveal_strlit("F9");
    assert("F"@ + decimal(9) =~= "F9"@);
    reveal_strlit("F10");
    assert("F"@ + decimal(10) =~= "F10"@);
    reveal_strlit("F11");
    assert("F"@ + decimal(11) =~= "F11"@);
    reveal_strlit("F12");
    assert("F"@ + decimal(12) =~= "F12"@);
}

/// The names of macOS keys by their codes, row after row of a US keyboard; no other code has one.
pub proof fn law_macos_key_names(keycode: i64)
    ensures
        0 <= keycode <= 9 ==> primary_of_keycode(keycode) == Some(
            seq!["A"@, "S"@, "D"@, "F"@, "H"@, "G"@, "Z"@, "X"@, "C"@, "V"@][keycode as int],
        ),
        11 <= keycode <= 17 ==> primary_of_keycode(keycode) == Some(
            seq!["B"@, "Q"@, "W"@, "E"@, "R"@, "Y"@, "T"@][keycode - 11],
        ),
        18 <= keycode <= 30 ==> primary_of_keycode(keycode) == Some(
            seq![
                "1"@,
                "2"@,
                "3"@,
                "4"@,
                "6"@,
                "5"@,
                "="@,
                "9"@,
                "7"@,
                "-"@,
                "8"@,
                "0"@,
                "]"@,
            ][keycode - 18],
        ),
        31 <= keycode <= 40 ==> primary_of_keycode(keycode) == Some(
            seq!["O"@, "U"@, "["@, "I"@, "P"@, "Enter"@, "L"@, "J"@, "'"@, "K"@][keycode - 31],
        ),
        41 <= keycode <= 51 ==> primary_of_keycode(keycode) == Some(
            seq![
                ";"@,
                "\\"@,
                ","@,
                "/"@,
                "N"@,
                "M"@,
                "."@,
                "Tab"@,
                "Space"@,
                "`"@,
                "Backspace"@,
            ][keycode - 41],
        ),
        primary_of_keycode(53) == Some("Escape"@),
        96 <= keycode <= 101 ==> primary_of_keycode(keycode) == Some(
            seq!["F5"@, "F6"@, "F7"@, "F3"@, "F8"@, "F9"@][keycode - 96],
        ),
        primary_of_keycode(103) == Some("F11"@),
        primary_of_keycode(109) == Some("F10"@),
        primary_of_keycode(111) == Some("F12"@),
        primary_of_keycode(117) == Some("Delete"@),
        primary_of_keycode(118) == Some("F4"@),
        primary_of_keycode(120) == Some("F2"@),
        122 <= keycode <= 126 ==> primary_of_keycode(keycode) == Some(
            seq!["F1"@, "ArrowLeft"@, "ArrowRight"@, "ArrowDown"@, "ArrowUp"@][keycode - 122],
        ),
        primary_of_keycode(keycode) is Some <==> {
            ||| 0 <= keycode <= 9
            ||| 11 <= keycode <= 51
            ||| keycode == 53
            ||| 96 <= keycode <= 101
            ||| keycode == 103
            ||| keycode == 109
            ||| keycode == 111
            ||| keycode == 117
            ||| keycode == 118
            ||| keycode == 120
            ||| 122 <= keycode <= 126
        },
{
}

/// A tag names one side of a modifier exactly where it is one of these ten; a binding can be watched
/// where it has modifiers and each has such a tag.
pub proof fn law_tags_of_one_side(binding: ShortcutBinding, tag: Seq<char>)
    ensures
        side_specific(tag) <==> {
            ||| tag == "cmd-left"@ || tag == "cmd-right"@
            ||| tag == "super-left"@ || tag == "super-right"@
            ||| tag == "ctrl-left"@ || tag == "ctrl-right"@
            ||| tag == "alt-left"@ || tag == "alt-right"@
            ||| tag == "shift-left"@ || tag == "shift-right"@
        },
        watchable(binding) <==> binding.modifiers@.len() > 0 && forall|i: int|
            0 <= i < binding.modifiers@.len() ==> side_specific(#[trigger] binding.modifiers@[i]@),
{
}

/// On Windows a modifier never counts as a key, and a key that has no name does nothing.
pub proof fn law_windows_keys_are_told_apart(s: SideAwareComboState, vk_code: u32, pressed: bool)
    ensures
        side_of_vk(vk_code) matches Some(side) ==> is_down(
            after_vk(s, vk_code, pressed).0.modifiers,
            side,
        ) == pressed,
        side_of_vk(vk_code) is None ==> after_vk(s, vk_code, pressed).0.modifiers == s.modifiers,
        side_of_vk(vk_code) is None && primary_of_vk(vk_code) is None ==> after_vk(
            s,
            vk_code,
            pressed,
        ) == (s, None::<Edge>),
        primary_of_vk(vk_code) matches Some(key) && side_of_vk(vk_code) is None && pressed
            && !s.combo_active && s.matching() && same_key(s.binding.primary@, key) ==> (after_vk(
            s,
            vk_code,
            pressed,
        ).1 == Some(Edge::Press)),
{
}

/// The key of a binding is recognised whatever the case of its letters and whatever white space
/// stands around its name; keys whose names differ in anything else are told apart.
pub proof fn law_key_is_recognised(
    before: Seq<char>,
    name: Seq<char>,
    after: Seq<char>,
    other: Seq<char>,
)
    requires
        forall|i: int| 0 <= i < before.len() ==> white_space(#[trigger] before[i]),
        forall|i: int| 0 <= i < after.len() ==> white_space(#[trigger] after[i]),
        name.len() > 0,
        !white_space(name[0]),
        !white_space(name.last()),
    ensures
        same_key(before + name + after, name),
        same_key(name, before + name + after),
        same_key(name, other) <==> ascii_lowered(name) == ascii_lowered(trimmed(other)),
{
    law_trimming_keeps_the_text(before, name, after);
    law_trimming_keeps_the_text(seq![], name, seq![]);
    assert(Seq::<char>::empty() + name + Seq::<char>::empty() =~= name);
}

} // verus!
