//! Inserting text at the cursor: through the clipboard and a paste shortcut, or by keystrokes.
use vstd::prelude::*;
use vstd::string::*;

use crate::permissions::opt_str;
use crate::text::{owned, same, to_chars};
use crate::types::{opt_copy, opt_text, InsertStatus, PasteShortcut, Platform};

verus! {

/// What the clipboard held before text was put on it, and that text.
#[derive(Debug)]
pub struct ClipboardRestorePlan {
    pub inserted_text: String,
    pub previous_text: Option<String>,
}

/// The status after the paste shortcut was sent: only macOS can tell that the text arrived.
pub open spec fn success_status(platform: Platform) -> InsertStatus {
    if platform == Platform::Macos {
        InsertStatus::Inserted
    } else {
        InsertStatus::PasteSent
    }
}

/// The status after the paste shortcut was sent.
pub fn insertion_success_status(platform: Platform) -> (r: InsertStatus)
    ensures
        r == success_status(platform),
{
    if platform == Platform::Macos {
        InsertStatus::Inserted
    } else {
        InsertStatus::PasteSent
    }
}

/// What inserting through the clipboard comes to: writing to it, pasting, and having its former
/// text restored later where that is wanted.
pub open spec fn pasted<W, P, S>(
    platform: Platform,
    text: &str,
    restore: bool,
    shortcut: PasteShortcut,
    write_clipboard: W,
    paste: P,
    schedule_restore: S,
    status: InsertStatus,
) -> bool where
    W: FnOnce(&str) -> Result<Option<String>, String>,
    P: FnOnce(PasteShortcut) -> Result<(), String>,
    S: FnOnce(ClipboardRestorePlan),
 {
    exists|written: Result<Option<String>, String>| #[trigger]
        call_ensures(write_clipboard, (text,), written) && match written {
            Err(_) => status == InsertStatus::Failed,
            Ok(previous) => exists|sent: Result<(), String>| #[trigger]
                call_ensures(paste, (shortcut,), sent) && match sent {
                    Err(_) => status == InsertStatus::CopiedFallback,
                    Ok(_) => status == success_status(platform) && (restore ==> exists|
                        plan: ClipboardRestorePlan,
                    | #[trigger]
                        call_ensures(schedule_restore, (plan,), ()) && plan.inserted_text@ == text@
                            && plan.previous_text == previous),
                },
        }
}

/// Which calls an insertion through the clipboard may make: a paste only once the text is on the
/// clipboard, and a restore only where it is wanted and the paste was sent, and then of the text
/// that was there before.
pub open spec fn pasting_granted<W, P, S>(
    text: &str,
    restore: bool,
    shortcut: PasteShortcut,
    write_clipboard: W,
    paste: P,
    schedule_restore: S,
) -> bool where
    W: FnOnce(&str) -> Result<Option<String>, String>,
    P: FnOnce(PasteShortcut) -> Result<(), String>,
    S: FnOnce(ClipboardRestorePlan),
 {
    &&& call_requires(write_clipboard, (text,))
    &&& forall|written: Result<Option<String>, String>| #[trigger]
        call_ensures(write_clipboard, (text,), written) && written is Ok ==> call_requires(
            paste,
            (shortcut,),
        )
    &&& restore ==> forall|
        written: Result<Option<String>, String>,
        sent: Result<(), String>,
        plan: ClipboardRestorePlan,
    |
        {
            &&& #[trigger] call_ensures(write_clipboard, (text,), written)
            &&& #[trigger] call_ensures(paste, (shortcut,), sent)
            &&& written == Ok::<Option<String>, String>(plan.previous_text)
            &&& sent is Ok
            &&& plan.inserted_text@ == text@
        } ==> #[trigger] call_requires(schedule_restore, (plan,))
}

/// Puts text on the clipboard, pastes it, and has the former text restored where that is wanted.
/// Text that could not be pasted stays on the clipboard, and nothing is restored then.
pub fn insert_with_clipboard_restore<W, P, S>(
    platform: Platform,
    text: &str,
    restore_clipboard_after_paste: bool,
    paste_shortcut: PasteShortcut,
    write_clipboard: W,
    paste: P,
    schedule_restore: S,
) -> (r: InsertStatus) where
    W: FnOnce(&str) -> Result<Option<String>, String>,
    P: FnOnce(PasteShortcut) -> Result<(), String>,
    S: FnOnce(ClipboardRestorePlan),

    requires
        pasting_granted(
            text,
            restore_clipboard_after_paste,
            paste_shortcut,
            write_clipboard,
            paste,
            schedule_restore,
        ),
    ensures
        pasted(
            platform,
            text,
            restore_clipboard_after_paste,
            paste_shortcut,
            write_clipboard,
            paste,
            schedule_restore,
            r,
        ),
{
    let previous_text = match write_clipboard(text) {
        Ok(previous) => previous,
        Err(_) => {
            return InsertStatus::Failed;
        },
    };
    match paste(paste_shortcut) {
        Ok(_) => {},
        Err(_) => {
            return InsertStatus::CopiedFallback;
        },
    }
    if restore_clipboard_after_paste {
        schedule_restore(ClipboardRestorePlan { inserted_text: owned(text), previous_text });
    }
    insertion_success_status(platform)
}

/// Commits text through the input method, and through the clipboard only where that fails. Empty
/// text touches neither.
pub fn insert_with_fcitx_or_clipboard_fallback<C, F>(
    text: &str,
    restore_clipboard_after_paste: bool,
    paste_shortcut: PasteShortcut,
    commit_text: C,
    clipboard_fallback: F,
) -> (r: InsertStatus) where
    C: FnOnce(&str) -> Result<(), String>,
    F: FnOnce(&str, bool, PasteShortcut) -> InsertStatus,

    requires
        text@.len() > 0 ==> call_requires(commit_text, (text,)),
        text@.len() > 0 ==> forall|committed: Result<(), String>| #[trigger]
            call_ensures(commit_text, (text,), committed) && committed is Err ==> call_requires(
                clipboard_fallback,
                (text, restore_clipboard_after_paste, paste_shortcut),
            ),
    ensures
        text@.len() == 0 ==> r == InsertStatus::CopiedFallback,
        text@.len() > 0 ==> exists|committed: Result<(), String>| #[trigger]
            call_ensures(commit_text, (text,), committed) && match committed {
                Ok(_) => r == InsertStatus::Inserted,
                Err(_) => call_ensures(
                    clipboard_fallback,
                    (text, restore_clipboard_after_paste, paste_shortcut),
                    r,
                ),
            },
{
    if text.is_empty() {
        return InsertStatus::CopiedFallback;
    }
    match commit_text(text) {
        Ok(_) => InsertStatus::Inserted,
        Err(_) => clipboard_fallback(text, restore_clipboard_after_paste, paste_shortcut),
    }
}

/// Inserts text at the cursor.
pub struct TextInserter;

impl TextInserter {
    pub fn new() -> (r: TextInserter)
        ensures
            r == TextInserter,
    {
        TextInserter
    }

    /// Inserts text: on Linux through the input method where that works, else through the
    /// clipboard. Empty text is not inserted.
    pub fn insert<C, W, P, S>(
        &self,
        platform: Platform,
        text: &str,
        restore_clipboard_after_paste: bool,
        paste_shortcut: PasteShortcut,
        commit_text: C,
        write_clipboard: W,
        paste: P,
        schedule_restore: S,
    ) -> (r: InsertStatus) where
        C: FnOnce(&str) -> Result<(), String>,
        W: FnOnce(&str) -> Result<Option<String>, String>,
        P: FnOnce(PasteShortcut) -> Result<(), String>,
        S: FnOnce(ClipboardRestorePlan),

        requires
            text@.len() > 0 && platform != Platform::Linux ==> pasting_granted(
                text,
                restore_clipboard_after_paste,
                paste_shortcut,
                write_clipboard,
                paste,
                schedule_restore,
            ),
            text@.len() > 0 && platform == Platform::Linux ==> {
                &&& call_requires(commit_text, (text,))
                &&& forall|committed: Result<(), String>| #[trigger]
                    call_ensures(commit_text, (text,), committed) && committed is Err
                        ==> pasting_granted(
                            text,
                            restore_clipboard_after_paste,
                            paste_shortcut,
                            write_clipboard,
                            paste,
                            schedule_restore,
                        )
            },
        ensures
            text@.len() == 0 ==> r == InsertStatus::CopiedFallback,
            text@.len() > 0 && platform != Platform::Linux ==> pasted(
                platform,
                text,
                restore_clipboard_after_paste,
                paste_shortcut,
                write_clipboard,
                paste,
                schedule_restore,
                r,
            ),
            text@.len() > 0 && platform == Platform::Linux ==> exists|
                committed: Result<(), String>,
            | #[trigger]
                call_ensures(commit_text, (text,), committed) && match committed {
                    Ok(_) => r == InsertStatus::Inserted,
                    Err(_) => pasted(
                        platform,
                        text,
                        restore_clipboard_after_paste,
                        paste_shortcut,
                        write_clipboard,
                        paste,
                        schedule_restore,
                        r,
                    ),
                },
    {
        if text.is_empty() {
            return InsertStatus::CopiedFallback;
        }
        if platform == Platform::Linux {
            match commit_text(text) {
                Ok(_) => {
                    return InsertStatus::Inserted;
                },
                Err(_) => {},
            }
        }
        insert_with_clipboard_restore(
            platform,
            text,
            restore_clipboard_after_paste,
            paste_shortcut,
            write_clipboard,
            paste,
            schedule_restore,
        )
    }

    /// Inserts text through the clipboard.
    pub fn insert_via_clipboard_fallback<W, P, S>(
        &self,
        platform: Platform,
        text: &str,
        restore_clipboard_after_paste: bool,
        paste_shortcut: PasteShortcut,
        write_clipboard: W,
        paste: P,
        schedule_restore: S,
    ) -> (r: InsertStatus) where
        W: FnOnce(&str) -> Result<Option<String>, String>,
        P: FnOnce(PasteShortcut) -> Result<(), String>,
        S: FnOnce(ClipboardRestorePlan),

        requires
            text@.len() > 0 ==> pasting_granted(
                text,
                restore_clipboard_after_paste,
                paste_shortcut,
                write_clipboard,
                paste,
                schedule_restore,
            ),
        ensures
            text@.len() == 0 ==> r == InsertStatus::CopiedFallback,
            text@.len() > 0 ==> pasted(
                platform,
                text,
                restore_clipboard_after_paste,
                paste_shortcut,
                write_clipboard,
                paste,
                schedule_restore,
                r,
            ),
    {
        if text.is_empty() {
            return InsertStatus::CopiedFallback;
        }
        insert_with_clipboard_restore(
            platform,
            text,
            restore_clipboard_after_paste,
            paste_shortcut,
            write_clipboard,
            paste,
            schedule_restore,
        )
    }

    /// Types text as keystrokes.
    pub fn insert_via_unicode_keystrokes<K>(&self, text: &str, type_text: K) -> (r:
        InsertStatus) where K: FnOnce(&str) -> Result<usize, TypeFailure>
        requires
            text@.len() > 0 ==> call_requires(type_text, (text,)),
        ensures
            text@.len() == 0 ==> r == InsertStatus::CopiedFallback,
            text@.len() > 0 ==> exists|typed: Result<usize, TypeFailure>| #[trigger]
                call_ensures(type_text, (text,), typed) && r == typed_status(text@, typed),
    {
        if text.is_empty() {
            return InsertStatus::CopiedFallback;
        }
        let typed = type_text(text);
        map_sendinput_type_result(text, typed)
    }

    /// Puts text on the clipboard and leaves it there.
    pub fn copy_fallback<W>(&self, text: &str, copy_to_clipboard: W) -> (r: InsertStatus) where
        W: FnOnce(&str) -> bool,

        requires
            text@.len() > 0 ==> call_requires(copy_to_clipboard, (text,)),
        ensures
            text@.len() == 0 ==> r == InsertStatus::CopiedFallback,
            text@.len() > 0 ==> exists|copied: bool| #[trigger]
                call_ensures(copy_to_clipboard, (text,), copied) && r == if copied {
                    InsertStatus::CopiedFallback
                } else {
                    InsertStatus::Failed
                },
    {
        if text.is_empty() {
            return InsertStatus::CopiedFallback;
        }
        if copy_to_clipboard(text) {
            InsertStatus::CopiedFallback
        } else {
            InsertStatus::Failed
        }
    }
}

/// Typing that broke off: how many characters were typed, and why no more.
#[derive(Debug)]
pub struct TypeFailure {
    pub typed_chars: usize,
    pub message: String,
}

/// How many keystrokes typing a text takes: carriage returns take none.
pub open spec fn typed_count(s: Seq<char>) -> nat
    decreases s.len(),
{
    if s.len() == 0 {
        0
    } else {
        typed_count(s.drop_last()) + if s.last() == '\r' {
            0nat
        } else {
            1nat
        }
    }
}

proof fn lemma_typed_count(s: Seq<char>)
    ensures
        typed_count(s) <= s.len(),
    decreases s.len(),
{
    if s.len() > 0 {
        lemma_typed_count(s.drop_last());
    }
}

/// How many keystrokes typing a text takes.
pub fn expected_sendinput_typed_chars(text: &str) -> (n: usize)
    ensures
        n == typed_count(text@),
{
    let v = to_chars(text);
    let mut n: usize = 0;
    let mut i: usize = 0;
    assert(v@.take(0) =~= seq![]);
    while i < v.len()
        invariant
            i <= v@.len(),
            n <= i,
            n == typed_count(v@.take(i as int)),
        decreases v@.len() - i,
    {
        assert(v@.take(i + 1).drop_last() =~= v@.take(i as int));
        if v[i] != '\r' {
            n += 1;
        }
        i += 1;
    }
    assert(v@.take(i as int) =~= v@);
    n
}

/// The status after typing: inserted only where just the expected keystrokes were made.
pub open spec fn typed_status(text: Seq<char>, typed: Result<usize, TypeFailure>) -> InsertStatus {
    match typed {
        Ok(n) => if n == typed_count(text) {
            InsertStatus::Inserted
        } else {
            InsertStatus::CopiedFallback
        },
        Err(_) => InsertStatus::CopiedFallback,
    }
}

/// The status after typing a text.
pub fn map_sendinput_type_result(text: &str, result: Result<usize, TypeFailure>) -> (r: InsertStatus)
    ensures
        r == typed_status(text@, result),
{
    match result {
        Ok(n) => {
            if n == expected_sendinput_typed_chars(text) {
                InsertStatus::Inserted
            } else {
                InsertStatus::CopiedFallback
            }
        },
        Err(_) => InsertStatus::CopiedFallback,
    }
}

/// A key of a paste shortcut.
#[derive(Clone, Copy, PartialEq, Eq, Structural, Debug)]
pub enum PasteKey {
    Control,
    Shift,
    V,
    Insert,
}

/// The modifiers of a paste shortcut, in the order in which they are pressed.
pub open spec fn shortcut_modifiers(shortcut: PasteShortcut) -> Seq<PasteKey> {
    match shortcut {
        PasteShortcut::CtrlV => seq![PasteKey::Control],
        PasteShortcut::CtrlShiftV => seq![PasteKey::Control, PasteKey::Shift],
        PasteShortcut::ShiftInsert => seq![PasteKey::Shift],
    }
}

/// The key of a paste shortcut.
pub open spec fn shortcut_key(shortcut: PasteShortcut) -> PasteKey {
    match shortcut {
        PasteShortcut::ShiftInsert => PasteKey::Insert,
        _ => PasteKey::V,
    }
}

/// The keys of a paste shortcut: its modifiers and its key.
pub fn paste_keys(shortcut: PasteShortcut) -> (r: (Vec<PasteKey>, PasteKey))
    ensures
        r.0@ == shortcut_modifiers(shortcut),
        r.1 == shortcut_key(shortcut),
{
    let mut modifiers: Vec<PasteKey> = Vec::new();
    let key = match shortcut {
        PasteShortcut::CtrlV => {
            modifiers.push(PasteKey::Control);
            PasteKey::V
        },
        PasteShortcut::CtrlShiftV => {
            modifiers.push(PasteKey::Control);
            modifiers.push(PasteKey::Shift);
            PasteKey::V
        },
        PasteShortcut::ShiftInsert => {
            modifiers.push(PasteKey::Shift);
            PasteKey::Insert
        },
    };
    assert(modifiers@ =~= shortcut_modifiers(shortcut));
    (modifiers, key)
}

/// What is to be done with the keyboard next.
#[derive(Debug)]
pub enum PasteStep {
    Press(PasteKey),
    Click(PasteKey),
    Release(PasteKey),
    /// All keys are up again: how it went.
    Done(Result<(), String>),
}

/// Where a paste shortcut stands.
pub ghost struct PasteProgress {
    pub pressed: int,
    pub releasing: bool,
    pub awaiting: Awaiting,
}

/// Where a paste shortcut with `n` modifiers stands after the step under way has come out so. The
/// modifiers are pressed one after the other, then the key is clicked; after that, or where
/// something failed, the modifiers that are down are released, the last one first.
pub open spec fn progress_after(p: PasteProgress, n: int, ok: bool) -> PasteProgress {
    let down = if p.awaiting == Awaiting::Press && ok {
        p.pressed + 1
    } else {
        p.pressed
    };
    if p.releasing || p.awaiting == Awaiting::Click || !ok {
        if down > 0 {
            PasteProgress { pressed: down - 1, releasing: true, awaiting: Awaiting::Release }
        } else {
            PasteProgress { pressed: down, releasing: true, awaiting: Awaiting::Nothing }
        }
    } else {
        PasteProgress {
            pressed: down,
            releasing: false,
            awaiting: if down < n {
                Awaiting::Press
            } else {
                Awaiting::Click
            },
        }
    }
}

/// A paste shortcut on its way: modifiers are pressed, the key is clicked, and the modifiers that
/// were pressed are released in reverse order, whatever failed before.
pub struct PasteRun {
    pub shortcut: PasteShortcut,
    /// How many modifiers are down.
    pub pressed: usize,
    /// Whether modifiers are being released.
    pub releasing: bool,
    /// The step that is under way.
    pub awaiting: Awaiting,
    pub first_err: Option<String>,
}

/// The step of a paste shortcut that is under way.
#[derive(Clone, Copy, PartialEq, Eq, Structural, Debug)]
pub enum Awaiting {
    Nothing,
    Press,
    Click,
    Release,
}

impl PasteRun {
    /// The number of modifiers that are down is one that the shortcut has.
    pub open spec fn valid(self) -> bool {
        &&& self.pressed <= shortcut_modifiers(self.shortcut).len()
        &&& self.awaiting == Awaiting::Press ==> !self.releasing && self.pressed
            < shortcut_modifiers(self.shortcut).len()
        &&& self.awaiting == Awaiting::Release ==> self.releasing
        &&& self.awaiting == Awaiting::Click ==> !self.releasing
    }

    /// A paste shortcut that has not begun.
    pub fn new(shortcut: PasteShortcut) -> (r: PasteRun)
        ensures
            r == (PasteRun {
                shortcut,
                pressed: 0,
                releasing: false,
                awaiting: Awaiting::Nothing,
                first_err: None,
            }),
            r.valid(),
    {
        PasteRun {
            shortcut,
            pressed: 0,
            releasing: false,
            awaiting: Awaiting::Nothing,
            first_err: None,
        }
    }

    /// Where the shortcut stands, without its failure.
    pub open spec fn progress(self) -> PasteProgress {
        PasteProgress {
            pressed: self.pressed as int,
            releasing: self.releasing,
            awaiting: self.awaiting,
        }
    }

    /// Takes in how the step under way came out (success, where there was none) and gives the
    /// next one.
    pub fn step(&mut self, outcome: Result<(), String>) -> (next: PasteStep)
        requires
            old(self).valid(),
        ensures
            final(self).valid(),
            final(self).shortcut == old(self).shortcut,
            final(self).first_err == if old(self).first_err is Some {
                old(self).first_err
            } else {
                match outcome {
                    Ok(_) => None,
                    Err(e) => Some(e),
                }
            },
            ({
                let modifiers = shortcut_modifiers(old(self).shortcut);
                let after = progress_after(old(self).progress(), modifiers.len() as int, outcome is Ok);
                &&& final(self).progress() == after
                &&& next == match after.awaiting {
                    Awaiting::Press => PasteStep::Press(modifiers[after.pressed]),
                    Awaiting::Click => PasteStep::Click(shortcut_key(old(self).shortcut)),
                    Awaiting::Release => PasteStep::Release(modifiers[after.pressed]),
                    Awaiting::Nothing => PasteStep::Done(
                        match final(self).first_err {
                            Some(e) => Err(e),
                            None => Ok(()),
                        },
                    ),
                }
            }),
    {
        let ok = outcome.is_ok();
        if self.awaiting == Awaiting::Press && ok {
            self.pressed = self.pressed + 1;
        }
        if self.awaiting == Awaiting::Click || !ok {
            self.releasing = true;
        }
        match outcome {
            Ok(_) => {},
            Err(e) => {
                if self.first_err.is_none() {
                    self.first_err = Some(e);
                }
            },
        }
        let (modifiers, key) = paste_keys(self.shortcut);
        if !self.releasing {
            if self.pressed < modifiers.len() {
                self.awaiting = Awaiting::Press;
                PasteStep::Press(modifiers[self.pressed])
            } else {
                self.awaiting = Awaiting::Click;
                PasteStep::Click(key)
            }
        } else if self.pressed > 0 {
            self.pressed = self.pressed - 1;
            self.awaiting = Awaiting::Release;
            PasteStep::Release(modifiers[self.pressed])
        } else {
            self.awaiting = Awaiting::Nothing;
            match &self.first_err {
                Some(e) => PasteStep::Done(Err(e.clone())),
                None => PasteStep::Done(Ok(())),
            }
        }
    }
}

/// A clipboard that is to be restored: the latest of the insertions that wait for it, and the text
/// that was there before the first of them.
#[derive(Debug)]
pub struct PendingClipboardRestore {
    pub latest_restore_id: u64,
    pub original_text: Option<String>,
}

/// The clipboard's former text, while insertions wait for it to be restored.
#[derive(Debug)]
pub struct ClipboardRestores {
    pub next_id: u64,
    pub pending: Option<PendingClipboardRestore>,
}

/// What is put back on the clipboard after the delay.
pub open spec fn given_back(
    latest: bool,
    reopened: bool,
    current: Option<Seq<char>>,
    inserted: Seq<char>,
    original: Option<String>,
) -> Option<String> {
    if latest && reopened && current == Some(inserted) {
        original
    } else {
        None
    }
}

/// The text to restore, given what is waiting and what the clipboard holds now.
pub open spec fn original_of(
    pending: Option<PendingClipboardRestore>,
    previous: Option<Seq<char>>,
) -> Option<Seq<char>> {
    match pending {
        Some(batch) => opt_text(batch.original_text),
        None => previous,
    }
}

impl ClipboardRestores {
    pub fn new() -> (r: ClipboardRestores)
        ensures
            r == (ClipboardRestores { next_id: 1, pending: None }),
    {
        ClipboardRestores { next_id: 1, pending: None }
    }

    /// An insertion waits for the clipboard to be restored. While others wait, the text to restore
    /// stays the one before the first of them.
    pub fn remember_pending_clipboard_restore(&mut self, previous_text: Option<String>) -> (r: (
        u64,
        Option<String>,
    ))
        ensures
            r.0 == old(self).next_id,
            final(self).next_id == if old(self).next_id == u64::MAX {
                0
            } else {
                old(self).next_id + 1
            },
            opt_text(r.1) == original_of(old(self).pending, opt_text(previous_text)),
            final(self).pending is Some,
            final(self).pending->0.latest_restore_id == r.0,
            opt_text(final(self).pending->0.original_text) == opt_text(r.1),
    {
        let restore_id: u64 = self.next_id;
        self.next_id = self.next_id.wrapping_add(1);
        let original = match &self.pending {
            Some(batch) => opt_copy(&batch.original_text),
            None => previous_text,
        };
        self.pending = Some(
            PendingClipboardRestore {
                latest_restore_id: restore_id,
                original_text: opt_copy(&original),
            },
        );
        (restore_id, original)
    }

    /// The insertion is the latest of those that wait.
    pub open spec fn latest(self, restore_id: u64) -> bool {
        self.pending is Some && self.pending->0.latest_restore_id == restore_id
    }

    /// Whether the insertion is the latest of those that wait.
    pub fn is_latest_clipboard_restore(&self, restore_id: u64) -> (r: bool)
        ensures
            r == self.latest(restore_id),
    {
        match &self.pending {
            Some(batch) => batch.latest_restore_id == restore_id,
            None => false,
        }
    }

    /// Nothing waits any more, where the insertion is the latest.
    pub fn clear_pending_clipboard_restore(&mut self, restore_id: u64)
        ensures
            final(self).next_id == old(self).next_id,
            final(self).pending == if old(self).latest(restore_id) {
                None
            } else {
                old(self).pending
            },
    {
        if self.is_latest_clipboard_restore(restore_id) {
            self.pending = None;
        }
    }

    /// Decides, after the delay, what to put back on the clipboard. Only the latest insertion
    /// restores, and only where the clipboard could be read and still holds the inserted text.
    pub fn restore_clipboard_after_delay(
        &mut self,
        restore_id: u64,
        original_text: Option<String>,
        inserted_text: &str,
        reopened: bool,
        current_text: Option<&str>,
    ) -> (r: Option<String>)
        ensures
            final(self).next_id == old(self).next_id,
            final(self).pending == if old(self).latest(restore_id) {
                None
            } else {
                old(self).pending
            },
            r == given_back(
                old(self).latest(restore_id),
                reopened,
                opt_str(current_text),
                inserted_text@,
                original_text,
            ),
    {
        if !self.is_latest_clipboard_restore(restore_id) {
            return None;
        }
        self.clear_pending_clipboard_restore(restore_id);
        if reopened && should_restore_clipboard(current_text, inserted_text) {
            original_text
        } else {
            None
        }
    }
}

/// Whether the clipboard is to be restored: it still holds the inserted text.
pub fn should_restore_clipboard(current_text: Option<&str>, inserted_text: &str) -> (r: bool)
    ensures
        r == (opt_str(current_text) == Some(inserted_text@)),
{
    match current_text {
        Some(current) => same(current, inserted_text),
        None => false,
    }
}

/// Of several insertions in a row, each of which would restore the clipboard, the text that was
/// there before the first is the one that is restored.
pub proof fn law_first_original_is_restored(
    first: PendingClipboardRestore,
    before_first: Option<Seq<char>>,
    before_second: Option<Seq<char>>,
)
    requires
        opt_text(first.original_text) == original_of(None, before_first),
    ensures
        original_of(Some(first), before_second) == before_first,
{
}

/// A paste shortcut as it goes on: where it stands, how many modifiers went down, and how many of
/// them were let go.
pub ghost struct PasteTrace {
    pub progress: PasteProgress,
    pub went_down: int,
    pub let_go: int,
}

/// A paste shortcut with `n` modifiers after steps that came out so.
pub open spec fn paste_trace(n: int, outcomes: Seq<bool>) -> PasteTrace
    decreases outcomes.len(),
{
    if outcomes.len() == 0 {
        PasteTrace {
            progress: PasteProgress { pressed: 0, releasing: false, awaiting: Awaiting::Nothing },
            went_down: 0,
            let_go: 0,
        }
    } else {
        let t = paste_trace(n, outcomes.drop_last());
        let ok = outcomes.last();
        let next = progress_after(t.progress, n, ok);
        PasteTrace {
            progress: next,
            went_down: if t.progress.awaiting == Awaiting::Press && ok {
                t.went_down + 1
            } else {
                t.went_down
            },
            let_go: if next.awaiting == Awaiting::Release {
                t.let_go + 1
            } else {
                t.let_go
            },
        }
    }
}

/// How many steps a paste shortcut has left at most.
spec fn steps_left(p: PasteProgress, n: int) -> int {
    if p.releasing && p.awaiting == Awaiting::Nothing {
        0
    } else if p.releasing || p.awaiting == Awaiting::Click {
        p.pressed + 1
    } else if p.awaiting == Awaiting::Press {
        2 * n - p.pressed + 1
    } else {
        2 * n - p.pressed + 2
    }
}

/// Whatever fails on the way, a paste shortcut comes to its end after at most two steps for each
/// modifier and two more, and by then each modifier that went down has been let go.
pub proof fn law_no_key_stays_down(n: int, outcomes: Seq<bool>)
    requires
        n >= 0,
    ensures
        paste_trace(n, outcomes).went_down - paste_trace(n, outcomes).let_go == paste_trace(
            n,
            outcomes,
        ).progress.pressed,
        outcomes.len() >= 2 * n + 2 ==> {
            let end = paste_trace(n, outcomes);
            &&& end.progress.releasing
            &&& end.progress.awaiting == Awaiting::Nothing
            &&& end.went_down == end.let_go
        },
{
    lemma_paste_trace(n, outcomes);
}

proof fn lemma_paste_trace(n: int, outcomes: Seq<bool>)
    requires
        n >= 0,
    ensures
        ({
            let t = paste_trace(n, outcomes);
            let p = t.progress;
            &&& 0 <= p.pressed <= n
            &&& t.went_down - t.let_go == p.pressed
            &&& p.awaiting == Awaiting::Press ==> !p.releasing && p.pressed < n
            &&& p.awaiting == Awaiting::Release ==> p.releasing
            &&& p.awaiting == Awaiting::Nothing ==> p.pressed == 0
            &&& p.awaiting == Awaiting::Nothing && !p.releasing ==> outcomes.len() == 0
            &&& steps_left(p, n) <= 0 || steps_left(p, n) + outcomes.len() <= 2 * n + 2
        }),
    decreases outcomes.len(),
{
    if outcomes.len() > 0 {
        lemma_paste_trace(n, outcomes.drop_last());
    }
}

/// What has been put on the clipboard since is left alone: the former text comes back only through
/// the latest insertion, and only where the clipboard could be read and still holds what was
/// inserted.
pub proof fn law_newer_clipboard_text_is_left_alone(
    latest: bool,
    reopened: bool,
    current: Option<Seq<char>>,
    inserted: Seq<char>,
    original: Option<String>,
)
    ensures
        !latest || !reopened || current is None ==> given_back(
            latest,
            reopened,
            current,
            inserted,
            original,
        ) is None,
        current is Some && current->0 != inserted ==> given_back(
            latest,
            reopened,
            current,
            inserted,
            original,
        ) is None,
        given_back(true, true, Some(inserted), inserted, original) == original,
{
}

/// What inserting through the clipboard comes to: it has failed where the text could not be put
/// there, and the text is left there where it could not be pasted. Where both went well, only
/// macOS can tell that the text arrived, and the former text is restored where that is wanted.
pub proof fn law_insertion_through_the_clipboard<W, P, S>(
    platform: Platform,
    text: &str,
    restore: bool,
    shortcut: PasteShortcut,
    write_clipboard: W,
    paste: P,
    schedule_restore: S,
    status: InsertStatus,
) where
    W: FnOnce(&str) -> Result<Option<String>, String>,
    P: FnOnce(PasteShortcut) -> Result<(), String>,
    S: FnOnce(ClipboardRestorePlan),

    requires
        pasted(platform, text, restore, shortcut, write_clipboard, paste, schedule_restore, status),
    ensures
        (forall|w: Result<Option<String>, String>| #[trigger]
            call_ensures(write_clipboard, (text,), w) ==> w is Err) ==> status
            == InsertStatus::Failed,
        (forall|w: Result<Option<String>, String>| #[trigger]
            call_ensures(write_clipboard, (text,), w) ==> w is Ok) && (forall|s: Result<(), String>|
         #[trigger]
            call_ensures(paste, (shortcut,), s) ==> s is Err) ==> status
            == InsertStatus::CopiedFallback,
        (forall|w: Result<Option<String>, String>| #[trigger]
            call_ensures(write_clipboard, (text,), w) ==> w is Ok) && (forall|s: Result<(), String>|
         #[trigger]
            call_ensures(paste, (shortcut,), s) ==> s is Ok) ==> {
            &&& platform == Platform::Macos ==> status == InsertStatus::Inserted
            &&& platform != Platform::Macos ==> status == InsertStatus::PasteSent
            &&& restore ==> exists|plan: ClipboardRestorePlan| #[trigger]
                call_ensures(schedule_restore, (plan,), ()) && plan.inserted_text@ == text@
                    && call_ensures(
                    write_clipboard,
                    (text,),
                    Ok::<Option<String>, String>(plan.previous_text),
                )
        },
{
}

/// Every character takes a keystroke but a carriage return, which takes none; a text takes as many
/// as its parts.
pub proof fn law_keystrokes_add_up(first: Seq<char>, second: Seq<char>, c: char)
    ensures
        typed_count(first + second) == typed_count(first) + typed_count(second),
        typed_count(seq![c]) == if c == '\r' {
            0nat
        } else {
            1nat
        },
    decreases second.len(),
{
    reveal_with_fuel(typed_count, 2);
    assert(seq![c].drop_last() =~= seq![]);
    if second.len() == 0 {
        assert(first + second =~= first);
    } else {
        law_keystrokes_add_up(first, second.drop_last(), c);
        assert((first + second).drop_last() =~= first + second.drop_last());
    }
}

/// Typing has inserted a text only where it made just as many keystrokes as the text takes; where
/// it broke off, or made fewer or more, the text is on the clipboard.
pub proof fn law_typed_text_is_inserted(text: Seq<char>, typed: Result<usize, TypeFailure>)
    ensures
        typed_status(text, typed) == InsertStatus::Inserted <==> (typed is Ok && typed->Ok_0
            == typed_count(text)),
        typed_status(text, typed) != InsertStatus::Inserted ==> typed_status(text, typed)
            == InsertStatus::CopiedFallback,
{
}

/// The keys of a shortcut: Control and Shift as its name says, Control first, and V but for the one
/// that is Shift and Insert.
pub proof fn law_shortcut_has_its_keys(shortcut: PasteShortcut)
    ensures
        shortcut_modifiers(shortcut).contains(PasteKey::Control) <==> shortcut
            != PasteShortcut::ShiftInsert,
        shortcut_modifiers(shortcut).contains(PasteKey::Shift) <==> shortcut
            != PasteShortcut::CtrlV,
        shortcut_modifiers(shortcut).contains(PasteKey::Control) ==> shortcut_modifiers(shortcut)[0]
            == PasteKey::Control,
        shortcut_modifiers(shortcut).no_duplicates(),
        !shortcut_modifiers(shortcut).contains(PasteKey::V),
        !shortcut_modifiers(shortcut).contains(PasteKey::Insert),
        shortcut == PasteShortcut::ShiftInsert ==> shortcut_key(shortcut) == PasteKey::Insert,
        shortcut != PasteShortcut::ShiftInsert ==> shortcut_key(shortcut) == PasteKey::V,
{
    let m = shortcut_modifiers(shortcut);
    assert(shortcut != PasteShortcut::ShiftInsert ==> m[0] == PasteKey::Control);
    assert(shortcut == PasteShortcut::ShiftInsert ==> m[0] == PasteKey::Shift);
    assert(shortcut == PasteShortcut::CtrlShiftV ==> m[1] == PasteKey::Shift);
}

/// Where every step goes well, the modifiers go down one after the other, the key is clicked once
/// all of them are down, and then they are let go, the last one first.
pub proof fn law_shortcut_is_played(n: int, steps: nat)
    requires
        n >= 0,
        steps <= 2 * n + 2,
    ensures
        ({
            let p = paste_trace(n, Seq::new(steps, |i: int| true)).progress;
            &&& 1 <= steps <= n ==> p.awaiting == Awaiting::Press && p.pressed == steps - 1
            &&& steps == n + 1 ==> p.awaiting == Awaiting::Click && p.pressed == n
            &&& n + 2 <= steps <= 2 * n + 1 ==> p.awaiting == Awaiting::Release && p.pressed == 2
                * n + 1 - steps
            &&& steps == 2 * n + 2 ==> p.awaiting == Awaiting::Nothing && p.pressed == 0
            &&& p.releasing <==> steps >= n + 2
        }),
    decreases steps,
{
    if steps > 0 {
        law_shortcut_is_played(n, (steps - 1) as nat);
        let all = Seq::new(steps, |i: int| true);
        assert(all.drop_last() =~= Seq::new((steps - 1) as nat, |i: int| true));
    }
}

/// After a failure nothing is pressed any more: the modifiers that are down are let go.
pub proof fn law_failure_lets_go(p: PasteProgress, n: int)
    ensures
        progress_after(p, n, false).releasing,
        progress_after(p, n, false).awaiting == Awaiting::Release <==> p.pressed > 0,
        progress_after(p, n, false).awaiting == Awaiting::Release
            || progress_after(p, n, false).awaiting == Awaiting::Nothing,
        p.pressed > 0 ==> progress_after(p, n, false).pressed == p.pressed - 1,
{
}

/// Only the latest of the insertions that wait restores the clipboard; where none waits, none does.
pub proof fn law_latest_insertion_restores(restores: ClipboardRestores, id: u64, other: u64)
    ensures
        restores.pending is None ==> !restores.latest(id),
        restores.latest(id) && restores.latest(other) ==> id == other,
        restores.pending matches Some(batch) ==> restores.latest(batch.latest_restore_id),
{
}

} // verus!
