//! Which editing command a key press asks for, and how the editor carries it out.
use vstd::prelude::*;

use super::editor::{
    delete_backward_post, delete_forward_post, fresh_model, lemma_nearest_of_boundary, model_wf, move_horizontal_post, move_to_post,
    model_can_edit, redo_post, replace_post, select_all_post, select_to_post, undo_post,
    Deletion, EditorModel, HorizontalMovement, InputState,
};
use crate::text::utf::{byte_to_char, chars_of, lemma_boundary_le_len, same_text, text_len, utf8_len};

verus! {

/// The platform whose editing conventions apply.
#[derive(Clone, Copy, PartialEq, Eq, Structural, Debug)]
pub enum Platform {
    /// macOS: the command key is the shortcut key; option moves by words.
    MacOs,
    /// Other platforms: control is the shortcut key and moves by words.
    Other,
}

/// Modifier keys held during a key press.
#[derive(Clone, Copy, PartialEq, Eq, Structural, Debug)]
pub struct Modifiers {
    pub control: bool,
    pub alt: bool,
    pub shift: bool,
    pub platform: bool,
    pub function: bool,
}

/// Number of modifiers held.
pub open spec fn modifier_count(m: Modifiers) -> int {
    (if m.control { 1int } else { 0int }) + (if m.alt { 1int } else { 0int }) + (if m.shift {
        1int
    } else {
        0int
    }) + (if m.platform { 1int } else { 0int }) + (if m.function { 1int } else { 0int })
}

/// The shortcut modifier of the platform is held.
pub open spec fn secondary_held(m: Modifiers, platform: Platform) -> bool {
    match platform {
        Platform::MacOs => m.platform,
        Platform::Other => m.control,
    }
}

/// No modifier but possibly shift is held.
pub open spec fn plain_or_shift(m: Modifiers) -> bool {
    !m.control && !m.alt && !m.platform && !m.function
}

/// Exactly the shortcut modifier is held, with shift when `shift`.
pub open spec fn secondary_shortcut(m: Modifiers, shift: bool, platform: Platform) -> bool {
    secondary_held(m, platform) && m.shift == shift && modifier_count(m) == if shift {
        2int
    } else {
        1int
    }
}

/// The movement that left/right arrows make under modifiers `m`.
pub open spec fn horizontal_movement_of(m: Modifiers, platform: Platform) -> Option<
    HorizontalMovement,
> {
    if plain_or_shift(m) {
        Some(HorizontalMovement::Grapheme)
    } else {
        match platform {
            Platform::MacOs => if m.alt && !m.control && !m.platform && !m.function {
                Some(HorizontalMovement::Word)
            } else if (m.platform != m.function) && !m.control && !m.alt {
                Some(HorizontalMovement::Line)
            } else {
                None
            },
            Platform::Other => if m.control && !m.alt && !m.platform && !m.function {
                Some(HorizontalMovement::Word)
            } else {
                None
            },
        }
    }
}

/// The deletion that backspace/delete make under modifiers `m`.
pub open spec fn deletion_of(m: Modifiers, platform: Platform) -> Option<Deletion> {
    if m.shift {
        None
    } else if plain_or_shift(m) {
        Some(Deletion::Grapheme)
    } else {
        match platform {
            Platform::MacOs => if m.alt && !m.control && !m.platform && !m.function {
                Some(Deletion::Word)
            } else if m.platform && !m.control && !m.alt && !m.function {
                Some(Deletion::Line)
            } else {
                None
            },
            Platform::Other => if m.control && !m.alt && !m.platform && !m.function {
                Some(Deletion::Word)
            } else {
                None
            },
        }
    }
}

impl Modifiers {
    /// No modifier but possibly shift is held.
    pub fn plain_or_shift(&self) -> (r: bool)
        ensures
            r == plain_or_shift(*self),
    {
        !self.control && !self.alt && !self.platform && !self.function
    }

    /// Number of modifiers held.
    pub fn number_of_modifiers(&self) -> (r: u8)
        ensures
            r == modifier_count(*self),
    {
        let mut n: u8 = 0;
        if self.control {
            n += 1;
        }
        if self.alt {
            n += 1;
        }
        if self.shift {
            n += 1;
        }
        if self.platform {
            n += 1;
        }
        if self.function {
            n += 1;
        }
        n
    }

    /// The shortcut modifier of the platform is held.
    pub fn secondary(&self, platform: Platform) -> (r: bool)
        ensures
            r == secondary_held(*self, platform),
    {
        match platform {
            Platform::MacOs => self.platform,
            Platform::Other => self.control,
        }
    }

    /// Exactly the shortcut modifier is held, with shift when `shift`.
    pub fn secondary_shortcut(&self, shift: bool, platform: Platform) -> (r: bool)
        ensures
            r == secondary_shortcut(*self, shift, platform),
    {
        self.secondary(platform) && self.shift == shift && self.number_of_modifiers() == if shift {
            2
        } else {
            1
        }
    }

    /// The movement that left/right arrows make.
    pub fn horizontal_movement(&self, platform: Platform) -> (r: Option<HorizontalMovement>)
        ensures
            r == horizontal_movement_of(*self, platform),
    {
        if self.plain_or_shift() {
            return Some(HorizontalMovement::Grapheme);
        }
        match platform {
            Platform::MacOs => if self.alt && !self.control && !self.platform && !self.function {
                Some(HorizontalMovement::Word)
            } else if (self.platform != self.function) && !self.control && !self.alt {
                Some(HorizontalMovement::Line)
            } else {
                None
            },
            Platform::Other => if self.control && !self.alt && !self.platform && !self.function {
                Some(HorizontalMovement::Word)
            } else {
                None
            },
        }
    }

    /// The deletion that backspace/delete make.
    pub fn deletion(&self, platform: Platform) -> (r: Option<Deletion>)
        ensures
            r == deletion_of(*self, platform),
    {
        if self.shift {
            return None;
        }
        if self.plain_or_shift() {
            return Some(Deletion::Grapheme);
        }
        match platform {
            Platform::MacOs => if self.alt && !self.control && !self.platform && !self.function {
                Some(Deletion::Word)
            } else if self.platform && !self.control && !self.alt && !self.function {
                Some(Deletion::Line)
            } else {
                None
            },
            Platform::Other => if self.control && !self.alt && !self.platform && !self.function {
                Some(Deletion::Word)
            } else {
                None
            },
        }
    }
}

/// The keys that the input reacts to.
#[derive(Clone, Copy, PartialEq, Eq, Structural, Debug)]
pub enum EditKey {
    A,
    C,
    X,
    V,
    Z,
    Y,
    Enter,
    Left,
    Right,
    Home,
    End,
    Backspace,
    Delete,
    Other,
}


/// The key that a key name denotes.
pub open spec fn edit_key_of(key: Seq<char>) -> EditKey {
    if key == "a"@ {
        EditKey::A
    } else if key == "c"@ {
        EditKey::C
    } else if key == "x"@ {
        EditKey::X
    } else if key == "v"@ {
        EditKey::V
    } else if key == "z"@ {
        EditKey::Z
    } else if key == "y"@ {
        EditKey::Y
    } else if key == "enter"@ {
        EditKey::Enter
    } else if key == "left"@ {
        EditKey::Left
    } else if key == "right"@ {
        EditKey::Right
    } else if key == "home"@ {
        EditKey::Home
    } else if key == "end"@ {
        EditKey::End
    } else if key == "backspace"@ {
        EditKey::Backspace
    } else if key == "delete"@ {
        EditKey::Delete
    } else {
        EditKey::Other
    }
}

/// The key that a key name denotes.
pub fn edit_key(key: &str) -> (r: EditKey)
    ensures
        r == edit_key_of(key@),
{
    if same_text(key, "a") {
        EditKey::A
    } else if same_text(key, "c") {
        EditKey::C
    } else if same_text(key, "x") {
        EditKey::X
    } else if same_text(key, "v") {
        EditKey::V
    } else if same_text(key, "z") {
        EditKey::Z
    } else if same_text(key, "y") {
        EditKey::Y
    } else if same_text(key, "enter") {
        EditKey::Enter
    } else if same_text(key, "left") {
        EditKey::Left
    } else if same_text(key, "right") {
        EditKey::Right
    } else if same_text(key, "home") {
        EditKey::Home
    } else if same_text(key, "end") {
        EditKey::End
    } else if same_text(key, "backspace") {
        EditKey::Backspace
    } else if same_text(key, "delete") {
        EditKey::Delete
    } else {
        EditKey::Other
    }
}

/// What a key press asks the input to do.
#[derive(Clone, Copy, PartialEq, Eq, Structural, Debug)]
pub enum KeyCommand {
    /// The key is not the input's; it propagates.
    Ignore,
    /// The key is swallowed without effect.
    Swallow,
    SelectAll,
    Copy,
    Cut,
    Paste,
    Undo,
    Redo,
    Submit,
    MoveHorizontal { right: bool, kind: HorizontalMovement, extend: bool },
    MoveToStart { extend: bool },
    MoveToEnd { extend: bool },
    DeleteBackward(Deletion),
    DeleteForward(Deletion),
}

/// The command of key `key` with modifiers `m`, for an input in the given state.
pub open spec fn key_command_of(
    key: EditKey,
    m: Modifiers,
    platform: Platform,
    disabled: bool,
    can_edit: bool,
    password_hidden: bool,
    composing: bool,
) -> KeyCommand {
    let sec = secondary_shortcut(m, false, platform);
    let sec_shift = secondary_shortcut(m, true, platform);
    if disabled {
        KeyCommand::Ignore
    } else if sec && key == EditKey::A {
        KeyCommand::SelectAll
    } else if sec && key == EditKey::C {
        KeyCommand::Copy
    } else if sec && key == EditKey::X {
        if password_hidden {
            KeyCommand::Swallow
        } else if can_edit {
            KeyCommand::Cut
        } else {
            KeyCommand::Ignore
        }
    } else if sec && key == EditKey::V && can_edit {
        KeyCommand::Paste
    } else if sec && key == EditKey::Z && can_edit {
        KeyCommand::Undo
    } else if ((sec_shift && key == EditKey::Z) || (sec && key == EditKey::Y)) && can_edit {
        KeyCommand::Redo
    } else if key == EditKey::Enter && plain_or_shift(m) {
        if composing {
            KeyCommand::Ignore
        } else {
            KeyCommand::Submit
        }
    } else if key == EditKey::Left && horizontal_movement_of(m, platform) is Some {
        KeyCommand::MoveHorizontal {
            right: false,
            kind: horizontal_movement_of(m, platform).unwrap(),
            extend: m.shift,
        }
    } else if key == EditKey::Right && horizontal_movement_of(m, platform) is Some {
        KeyCommand::MoveHorizontal {
            right: true,
            kind: horizontal_movement_of(m, platform).unwrap(),
            extend: m.shift,
        }
    } else if key == EditKey::Home && plain_or_shift(m) {
        KeyCommand::MoveToStart { extend: m.shift }
    } else if key == EditKey::End && plain_or_shift(m) {
        KeyCommand::MoveToEnd { extend: m.shift }
    } else if key == EditKey::Backspace && can_edit && deletion_of(m, platform) is Some {
        KeyCommand::DeleteBackward(deletion_of(m, platform).unwrap())
    } else if key == EditKey::Delete && can_edit && deletion_of(m, platform) is Some {
        KeyCommand::DeleteForward(deletion_of(m, platform).unwrap())
    } else {
        KeyCommand::Ignore
    }
}

/// Decides what a key press asks the input to do.
pub fn key_command(
    key: EditKey,
    m: Modifiers,
    platform: Platform,
    disabled: bool,
    can_edit: bool,
    password_hidden: bool,
    composing: bool,
) -> (r: KeyCommand)
    ensures
        r == key_command_of(key, m, platform, disabled, can_edit, password_hidden, composing),
{
    if disabled {
        return KeyCommand::Ignore;
    }
    let sec = m.secondary_shortcut(false, platform);
    let sec_shift = m.secondary_shortcut(true, platform);
    if sec && key == EditKey::A {
        return KeyCommand::SelectAll;
    }
    if sec && key == EditKey::C {
        return KeyCommand::Copy;
    }
    if sec && key == EditKey::X {
        if password_hidden {
            return KeyCommand::Swallow;
        } else if can_edit {
            return KeyCommand::Cut;
        }
        return KeyCommand::Ignore;
    }
    if sec && key == EditKey::V && can_edit {
        return KeyCommand::Paste;
    }
    if sec && key == EditKey::Z && can_edit {
        return KeyCommand::Undo;
    }
    if ((sec_shift && key == EditKey::Z) || (sec && key == EditKey::Y)) && can_edit {
        return KeyCommand::Redo;
    }
    if key == EditKey::Enter && m.plain_or_shift() {
        if composing {
            return KeyCommand::Ignore;
        }
        return KeyCommand::Submit;
    }
    if key == EditKey::Left {
        if let Some(kind) = m.horizontal_movement(platform) {
            return KeyCommand::MoveHorizontal { right: false, kind, extend: m.shift };
        }
    }
    if key == EditKey::Right {
        if let Some(kind) = m.horizontal_movement(platform) {
            return KeyCommand::MoveHorizontal { right: true, kind, extend: m.shift };
        }
    }
    if key == EditKey::Home && m.plain_or_shift() {
        return KeyCommand::MoveToStart { extend: m.shift };
    }
    if key == EditKey::End && m.plain_or_shift() {
        return KeyCommand::MoveToEnd { extend: m.shift };
    }
    if key == EditKey::Backspace && can_edit {
        if let Some(kind) = m.deletion(platform) {
            return KeyCommand::DeleteBackward(kind);
        }
    }
    if key == EditKey::Delete && can_edit {
        if let Some(kind) = m.deletion(platform) {
            return KeyCommand::DeleteForward(kind);
        }
    }
    KeyCommand::Ignore
}

/// What the host must do after a key command.
pub struct KeyOutcome {
    /// The key was the input's: stop its propagation.
    pub handled: bool,
    /// The value changed: publish a change event.
    pub changed: bool,
    /// Publish a submit event with the current value.
    pub submitted: bool,
    /// Write this text to the clipboard.
    pub clipboard: Option<String>,
}

/// `post` and `out` are the outcome of carrying out `cmd` (other than a paste) on `m`.
pub open spec fn perform_post(m: EditorModel, cmd: KeyCommand, post: EditorModel, out: KeyOutcome) -> bool {
    match cmd {
        KeyCommand::Ignore => post == m && !out.handled && !out.changed && !out.submitted
            && out.clipboard is None,
        KeyCommand::Swallow => post == m && out.handled && !out.changed && !out.submitted
            && out.clipboard is None,
        KeyCommand::SelectAll => post == select_all_post(m) && out.handled && !out.changed
            && !out.submitted && out.clipboard is None,
        KeyCommand::Copy => post == m && out.handled && !out.changed && !out.submitted && (if m.password_hidden
            || m.start == m.end {
            out.clipboard is None
        } else {
            out.clipboard matches Some(t) && t@ == m.value.subrange(
                byte_to_char(m.value, m.start) as int,
                byte_to_char(m.value, m.end) as int,
            )
        }),
        KeyCommand::Cut => out.handled && !out.submitted && (if m.password_hidden || m.start == m.end
            || !model_can_edit(m) {
            post == m && !out.changed && out.clipboard is None
        } else {
            (out.clipboard matches Some(t) && t@ == m.value.subrange(
                byte_to_char(m.value, m.start) as int,
                byte_to_char(m.value, m.end) as int,
            )) && (post, out.changed) == replace_post(
                m,
                (m.start as usize)..(m.end as usize),
                Seq::empty(),
            )
        }),
        KeyCommand::Paste => false,
        KeyCommand::Undo => post == undo_post(m) && out.handled && !out.submitted
            && out.clipboard is None && out.changed == (model_can_edit(m) && m.undo.len() > 0
            && m.value != m.undo.last().value),
        KeyCommand::Redo => post == redo_post(m) && out.handled && !out.submitted
            && out.clipboard is None && out.changed == (model_can_edit(m) && m.redo.len() > 0
            && m.value != m.redo.last().value),
        KeyCommand::Submit => post == m && out.handled && out.submitted && !out.changed
            && out.clipboard is None,
        KeyCommand::MoveHorizontal { right, kind, extend } => out.handled && !out.changed
            && !out.submitted && out.clipboard is None && exists|moved: bool|
            move_horizontal_post(m, right, kind, extend, post, moved),
        KeyCommand::MoveToStart { extend } => out.handled && !out.changed && !out.submitted
            && out.clipboard is None && post == if extend {
            select_to_post(m, 0)
        } else {
            move_to_post(m, 0)
        },
        KeyCommand::MoveToEnd { extend } => out.handled && !out.changed && !out.submitted
            && out.clipboard is None && post == if extend {
            select_to_post(m, utf8_len(m.value) as int)
        } else {
            move_to_post(m, utf8_len(m.value) as int)
        },
        KeyCommand::DeleteBackward(kind) => out.handled && !out.submitted && out.clipboard is None
            && delete_backward_post(m, kind, post, out.changed),
        KeyCommand::DeleteForward(kind) => out.handled && !out.submitted && out.clipboard is None
            && delete_forward_post(m, kind, post, out.changed),
    }
}

impl InputState {
    /// Carries out a key command. A paste needs the clipboard's text: the host reads it and
    /// calls `paste`.
    pub fn perform(&mut self, cmd: KeyCommand) -> (out: KeyOutcome)
        requires
            old(self).wf(),
            cmd != KeyCommand::Paste,
        ensures
            final(self).wf(),
            perform_post(old(self)@, cmd, final(self)@, out),
    {
        let nothing = KeyOutcome { handled: true, changed: false, submitted: false, clipboard: None };
        match cmd {
            KeyCommand::Ignore => KeyOutcome {
                handled: false,
                changed: false,
                submitted: false,
                clipboard: None,
            },
            KeyCommand::Swallow => nothing,
            KeyCommand::SelectAll => {
                self.select_all();
                nothing
            },
            KeyCommand::Copy => KeyOutcome {
                handled: true,
                changed: false,
                submitted: false,
                clipboard: self.copy_text(),
            },
            KeyCommand::Cut => {
                let (clipboard, changed) = self.cut();
                KeyOutcome { handled: true, changed, submitted: false, clipboard }
            },
            KeyCommand::Paste => nothing,
            KeyCommand::Undo => {
                let changed = match self.undo() {
                    Some(c) => c,
                    None => false,
                };
                KeyOutcome { handled: true, changed, submitted: false, clipboard: None }
            },
            KeyCommand::Redo => {
                let changed = match self.redo() {
                    Some(c) => c,
                    None => false,
                };
                KeyOutcome { handled: true, changed, submitted: false, clipboard: None }
            },
            KeyCommand::Submit => KeyOutcome {
                handled: true,
                changed: false,
                submitted: true,
                clipboard: None,
            },
            KeyCommand::MoveHorizontal { right, kind, extend } => {
                self.move_horizontal(right, kind, extend);
                nothing
            },
            KeyCommand::MoveToStart { extend } => {
                if extend {
                    self.select_to(0);
                } else {
                    self.move_to(0);
                }
                nothing
            },
            KeyCommand::MoveToEnd { extend } => {
                let end = text_len(self.value());
                if extend {
                    self.select_to(end);
                } else {
                    self.move_to(end);
                }
                nothing
            },
            KeyCommand::DeleteBackward(kind) => {
                let changed = self.delete_backward(kind);
                KeyOutcome { handled: true, changed, submitted: false, clipboard: None }
            },
            KeyCommand::DeleteForward(kind) => {
                let changed = self.delete_forward(kind);
                KeyOutcome { handled: true, changed, submitted: false, clipboard: None }
            },
        }
    }

    /// Handles a primary mouse press at value offset `offset`: the press starts a pointer
    /// drag; a triple click selects all, a double click selects the word, shift extends the
    /// selection, otherwise the caret moves. Returns whether the press was the input's (it
    /// is not when the input is disabled).
    pub fn mouse_down(&mut self, click_count: usize, shift: bool, offset: usize) -> (handled: bool)
        requires
            old(self).wf(),
        ensures
            final(self).wf(),
            handled == !old(self)@.disabled,
            old(self)@.disabled ==> final(self)@ == old(self)@,
            !old(self)@.disabled ==> final(self)@.selecting,
            !old(self)@.disabled && click_count >= 3 ==> final(self)@ == select_all_post(
                EditorModel { selecting: true, ..old(self)@ },
            ),
            !old(self)@.disabled && click_count == 2 ==> exists|r: std::ops::Range<usize>|
                #[trigger] crate::text::boundary::is_word_range_at(old(self)@.value, offset as int, r)
                    && final(self)@ == (EditorModel {
                    start: r.start as int,
                    end: r.end as int,
                    reversed: false,
                    selecting: true,
                    ..old(self)@
                }),
            !old(self)@.disabled && click_count < 2 && shift ==> final(self)@ == select_to_post(
                EditorModel { selecting: true, ..old(self)@ },
                offset as int,
            ),
            !old(self)@.disabled && click_count < 2 && !shift ==> final(self)@ == move_to_post(
                EditorModel { selecting: true, ..old(self)@ },
                offset as int,
            ),
    {
        if self.is_disabled() {
            return false;
        }
        self.set_selecting(true);
        if click_count >= 3 {
            self.select_all();
        } else if click_count == 2 {
            self.select_word_at(offset);
        } else if shift {
            self.select_to(offset);
        } else {
            self.move_to(offset);
        }
        true
    }

    /// Handles the release of the primary button: any pointer drag ends.
    pub fn mouse_up(&mut self)
        requires
            old(self).wf(),
        ensures
            final(self).wf(),
            final(self)@ == (EditorModel { selecting: false, ..old(self)@ }),
    {
        self.set_selecting(false);
    }

    /// Handles a pointer move over value offset `offset`: while a drag is selecting and
    /// the input is enabled, the selection extends to `offset`; otherwise nothing changes.
    pub fn mouse_move(&mut self, offset: usize)
        requires
            old(self).wf(),
        ensures
            final(self).wf(),
            final(self)@ == mouse_move_post(old(self)@, offset as int),
    {
        if self.is_selecting() && !self.is_disabled() {
            self.select_to(offset);
        }
    }
}

/// The state after a pointer move over `offset`: a drag under way on an enabled input
/// extends the selection there; otherwise nothing changes.
pub open spec fn mouse_move_post(m: EditorModel, offset: int) -> EditorModel {
    if m.selecting && !m.disabled {
        select_to_post(m, offset)
    } else {
        m
    }
}

/// Once the button is released, or the input is reset, pointer moves no longer change
/// the selection.
pub proof fn lemma_no_drag_after_release(
    m: EditorModel,
    offset: int,
    value: Seq<char>,
    disabled: bool,
    read_only: bool,
    password_hidden: bool,
)
    ensures
        mouse_move_post(EditorModel { selecting: false, ..m }, offset) == (EditorModel {
            selecting: false,
            ..m
        }),
        mouse_move_post(fresh_model(value, disabled, read_only, password_hidden), offset)
            == fresh_model(value, disabled, read_only, password_hidden),
{
}

/// The editing keys without modifiers (Shift extends the selection): Home and End move
/// the caret to the start and the end, the arrows move it by one grapheme cluster left or
/// right, Enter submits unless a composition runs, Backspace and Delete (without Shift)
/// delete one grapheme cluster backwards and forwards when the input can be edited, and
/// letters are typed text, not commands. A disabled input answers no key.
pub proof fn lemma_plain_editing_keys(
    m: Modifiers,
    platform: Platform,
    can_edit: bool,
    password_hidden: bool,
    composing: bool,
)
    requires
        !m.control && !m.alt && !m.platform && !m.function,
    ensures
        key_command_of(EditKey::Home, m, platform, false, can_edit, password_hidden, composing)
            == (KeyCommand::MoveToStart { extend: m.shift }),
        key_command_of(EditKey::End, m, platform, false, can_edit, password_hidden, composing)
            == (KeyCommand::MoveToEnd { extend: m.shift }),
        key_command_of(EditKey::Left, m, platform, false, can_edit, password_hidden, composing)
            == (KeyCommand::MoveHorizontal {
            right: false,
            kind: HorizontalMovement::Grapheme,
            extend: m.shift,
        }),
        key_command_of(EditKey::Right, m, platform, false, can_edit, password_hidden, composing)
            == (KeyCommand::MoveHorizontal {
            right: true,
            kind: HorizontalMovement::Grapheme,
            extend: m.shift,
        }),
        key_command_of(EditKey::Enter, m, platform, false, can_edit, password_hidden, composing)
            == if composing {
            KeyCommand::Ignore
        } else {
            KeyCommand::Submit
        },
        !m.shift && can_edit ==> key_command_of(
            EditKey::Backspace,
            m,
            platform,
            false,
            can_edit,
            password_hidden,
            composing,
        ) == KeyCommand::DeleteBackward(Deletion::Grapheme) && key_command_of(
            EditKey::Delete,
            m,
            platform,
            false,
            can_edit,
            password_hidden,
            composing,
        ) == KeyCommand::DeleteForward(Deletion::Grapheme),
        m.shift || !can_edit ==> key_command_of(
            EditKey::Backspace,
            m,
            platform,
            false,
            can_edit,
            password_hidden,
            composing,
        ) == KeyCommand::Ignore && key_command_of(
            EditKey::Delete,
            m,
            platform,
            false,
            can_edit,
            password_hidden,
            composing,
        ) == KeyCommand::Ignore,
        forall|k: EditKey|
            (k == EditKey::A || k == EditKey::C || k == EditKey::X || k == EditKey::V || k
                == EditKey::Z || k == EditKey::Y || k == EditKey::Other) ==> #[trigger] key_command_of(
                k,
                m,
                platform,
                false,
                can_edit,
                password_hidden,
                composing,
            ) == KeyCommand::Ignore,
        forall|k: EditKey, m2: Modifiers|
            #[trigger] key_command_of(k, m2, platform, true, can_edit, password_hidden, composing)
                == KeyCommand::Ignore,
{
}

/// Home and End, and Left and Right, never ask for the same thing of an enabled input
/// under the same modifiers unless neither is the input's.
pub proof fn lemma_opposite_keys_differ(
    m: Modifiers,
    platform: Platform,
    can_edit: bool,
    password_hidden: bool,
    composing: bool,
)
    ensures
        key_command_of(EditKey::Home, m, platform, false, can_edit, password_hidden, composing)
            == key_command_of(EditKey::End, m, platform, false, can_edit, password_hidden, composing)
            ==> key_command_of(EditKey::Home, m, platform, false, can_edit, password_hidden, composing)
            == KeyCommand::Ignore,
        key_command_of(EditKey::Left, m, platform, false, can_edit, password_hidden, composing)
            == key_command_of(EditKey::Right, m, platform, false, can_edit, password_hidden, composing)
            ==> key_command_of(EditKey::Left, m, platform, false, can_edit, password_hidden, composing)
            == KeyCommand::Ignore,
        key_command_of(EditKey::Backspace, m, platform, false, can_edit, password_hidden, composing)
            == key_command_of(EditKey::Delete, m, platform, false, can_edit, password_hidden, composing)
            ==> key_command_of(EditKey::Backspace, m, platform, false, can_edit, password_hidden, composing)
            == KeyCommand::Ignore,
{
}

/// The shortcut key alone (Control, or Command on macOS) selects all with A, copies with
/// C, cuts with X (swallowed on a hidden password, left alone when the input cannot be
/// edited), pastes with V, undoes with Z and redoes with Y; with Shift added, Z redoes.
/// Neither V, Z nor Y is the input's when it cannot be edited.
pub proof fn lemma_shortcut_keys(
    m: Modifiers,
    platform: Platform,
    can_edit: bool,
    password_hidden: bool,
    composing: bool,
)
    ensures
        secondary_shortcut(m, false, platform) ==> {
            &&& key_command_of(EditKey::A, m, platform, false, can_edit, password_hidden, composing)
                == KeyCommand::SelectAll
            &&& key_command_of(EditKey::C, m, platform, false, can_edit, password_hidden, composing)
                == KeyCommand::Copy
            &&& key_command_of(EditKey::X, m, platform, false, can_edit, password_hidden, composing)
                == if password_hidden {
                KeyCommand::Swallow
            } else if can_edit {
                KeyCommand::Cut
            } else {
                KeyCommand::Ignore
            }
            &&& key_command_of(EditKey::V, m, platform, false, can_edit, password_hidden, composing)
                == if can_edit {
                KeyCommand::Paste
            } else {
                KeyCommand::Ignore
            }
            &&& key_command_of(EditKey::Z, m, platform, false, can_edit, password_hidden, composing)
                == if can_edit {
                KeyCommand::Undo
            } else {
                KeyCommand::Ignore
            }
            &&& key_command_of(EditKey::Y, m, platform, false, can_edit, password_hidden, composing)
                == if can_edit {
                KeyCommand::Redo
            } else {
                KeyCommand::Ignore
            }
        },
        secondary_shortcut(m, true, platform) ==> key_command_of(
            EditKey::Z,
            m,
            platform,
            false,
            can_edit,
            password_hidden,
            composing,
        ) == if can_edit {
            KeyCommand::Redo
        } else {
            KeyCommand::Ignore
        },
{
}

/// Word and line movement: Control with an arrow (Option on macOS) moves by words, and
/// on macOS Command with an arrow moves to the line's start or end; Shift extends. The
/// same modifiers with Backspace or Delete (without Shift) delete by words or to the
/// line's start or end.
pub proof fn lemma_word_and_line_keys(
    m: Modifiers,
    can_edit: bool,
    password_hidden: bool,
    composing: bool,
)
    requires
        !m.function,
    ensures
        m.control && !m.alt && !m.platform ==> key_command_of(
            EditKey::Left,
            m,
            Platform::Other,
            false,
            can_edit,
            password_hidden,
            composing,
        ) == (KeyCommand::MoveHorizontal {
            right: false,
            kind: HorizontalMovement::Word,
            extend: m.shift,
        }) && key_command_of(
            EditKey::Right,
            m,
            Platform::Other,
            false,
            can_edit,
            password_hidden,
            composing,
        ) == (KeyCommand::MoveHorizontal {
            right: true,
            kind: HorizontalMovement::Word,
            extend: m.shift,
        }),
        m.alt && !m.control && !m.platform ==> key_command_of(
            EditKey::Left,
            m,
            Platform::MacOs,
            false,
            can_edit,
            password_hidden,
            composing,
        ) == (KeyCommand::MoveHorizontal {
            right: false,
            kind: HorizontalMovement::Word,
            extend: m.shift,
        }) && key_command_of(
            EditKey::Right,
            m,
            Platform::MacOs,
            false,
            can_edit,
            password_hidden,
            composing,
        ) == (KeyCommand::MoveHorizontal {
            right: true,
            kind: HorizontalMovement::Word,
            extend: m.shift,
        }),
        m.platform && !m.control && !m.alt ==> key_command_of(
            EditKey::Left,
            m,
            Platform::MacOs,
            false,
            can_edit,
            password_hidden,
            composing,
        ) == (KeyCommand::MoveHorizontal {
            right: false,
            kind: HorizontalMovement::Line,
            extend: m.shift,
        }) && key_command_of(
            EditKey::Right,
            m,
            Platform::MacOs,
            false,
            can_edit,
            password_hidden,
            composing,
        ) == (KeyCommand::MoveHorizontal {
            right: true,
            kind: HorizontalMovement::Line,
            extend: m.shift,
        }),
        m.control && !m.alt && !m.platform && !m.shift && can_edit ==> key_command_of(
            EditKey::Backspace,
            m,
            Platform::Other,
            false,
            can_edit,
            password_hidden,
            composing,
        ) == KeyCommand::DeleteBackward(Deletion::Word) && key_command_of(
            EditKey::Delete,
            m,
            Platform::Other,
            false,
            can_edit,
            password_hidden,
            composing,
        ) == KeyCommand::DeleteForward(Deletion::Word),
        m.alt && !m.control && !m.platform && !m.shift && can_edit ==> key_command_of(
            EditKey::Backspace,
            m,
            Platform::MacOs,
            false,
            can_edit,
            password_hidden,
            composing,
        ) == KeyCommand::DeleteBackward(Deletion::Word),
        m.platform && !m.control && !m.alt && !m.shift && can_edit ==> key_command_of(
            EditKey::Backspace,
            m,
            Platform::MacOs,
            false,
            can_edit,
            password_hidden,
            composing,
        ) == KeyCommand::DeleteBackward(Deletion::Line),
{
}

/// End puts the caret at the end of the value, with nothing selected; Shift+End selects
/// from the selection's anchor to the end. The value is unchanged either way.
pub proof fn lemma_end_moves_to_end(m: EditorModel, extend: bool, post: EditorModel, out: KeyOutcome)
    requires
        model_wf(m),
        perform_post(m, KeyCommand::MoveToEnd { extend }, post, out),
    ensures
        post.value == m.value,
        post.end == utf8_len(m.value),
        !extend ==> post.start == utf8_len(m.value) && !post.reversed,
        extend ==> post.start == (if m.reversed { m.end } else { m.start }) && !post.reversed,
        out.handled && !out.changed,
{
    lemma_nearest_of_boundary(m.value, utf8_len(m.value) as int);
    lemma_boundary_le_len(m.value, m.start);
    lemma_boundary_le_len(m.value, m.end);
}

} // verus!
