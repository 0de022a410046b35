//! Dialogs: buttons, the state of an open dialog, what it results in, and
//! how a dialog reacts to keys and clicks.

use crate::event::{
    Event, Hit, HitId, HitRegion, KeyCode, KeyEvent, KeyEventKind, Modifiers, MouseButton,
    MouseEventKind,
};
use crate::modal::container::{ModalConfig, ModalPosition, ModalSizeConstraints};
use crate::style::Style;
use crate::text::str_eq;
use vstd::prelude::*;

verus! {

/// The hit region of a dialog button.
pub open spec fn spec_hit_button() -> HitRegion {
    HitRegion::Custom(10)
}

/// The hit region of a dialog button.
pub fn dialog_hit_button() -> (r: HitRegion)
    ensures
        r == spec_hit_button(),
{
    HitRegion::Custom(10)
}

/// What a dialog ended with.
#[derive(Debug, Clone, PartialEq, Eq)]
pub enum DialogResult {
    /// Dismissed without a choice.
    Dismissed,
    /// The OK button.
    Accepted,
    /// The cancel button.
    Cancel,
    /// Another button, by its id.
    Custom(String),
    /// A prompt was submitted with this input.
    Input(String),
}

/// A dialog result with its strings as characters.
pub enum DialogResultView {
    Dismissed,
    Accepted,
    Cancel,
    Custom(Seq<char>),
    Input(Seq<char>),
}

impl View for DialogResult {
    type V = DialogResultView;

    open spec fn view(&self) -> DialogResultView {
        match self {
            DialogResult::Dismissed => DialogResultView::Dismissed,
            DialogResult::Accepted => DialogResultView::Accepted,
            DialogResult::Cancel => DialogResultView::Cancel,
            DialogResult::Custom(s) => DialogResultView::Custom(s@),
            DialogResult::Input(s) => DialogResultView::Input(s@),
        }
    }
}

/// The view of an optional result.
pub open spec fn result_view(r: Option<DialogResult>) -> Option<DialogResultView> {
    match r {
        Some(r) => Some(r@),
        None => None,
    }
}

impl DialogResult {
    /// A copy of the result.
    pub fn duplicate(&self) -> (r: DialogResult)
        ensures
            r@ == self@,
    {
        match self {
            DialogResult::Dismissed => DialogResult::Dismissed,
            DialogResult::Accepted => DialogResult::Accepted,
            DialogResult::Cancel => DialogResult::Cancel,
            DialogResult::Custom(s) => DialogResult::Custom(s.clone()),
            DialogResult::Input(s) => DialogResult::Input(s.clone()),
        }
    }
}

/// Number of bytes of a label in UTF-8, as `usize`.
pub open spec fn label_bytes(label: Seq<char>) -> int {
    (vstd::utf8::encode_utf8(label).len() as usize) as int
}

/// A button of a dialog.
#[derive(Debug, Clone, PartialEq, Eq)]
pub struct DialogButton {
    /// What the button shows.
    pub label: String,
    /// What identifies the button.
    pub id: String,
    /// Whether the button is the one chosen by default.
    pub primary: bool,
}

impl DialogButton {
    /// A button that is not primary.
    pub fn new(label: &str, id: &str) -> (b: DialogButton)
        ensures
            b.label@ == label@,
            b.id@ == id@,
            !b.primary,
    {
        DialogButton { label: label.to_owned(), id: id.to_owned(), primary: false }
    }

    /// The button as the primary one.
    pub fn primary(self) -> (b: DialogButton)
        ensures
            b.primary,
            b.label == self.label,
            b.id == self.id,
    {
        let mut b = self;
        b.primary = true;
        b
    }

    /// Width of the button as drawn, `[ label ]`: the bytes of the label
    /// and four more, held at the largest `usize`.
    pub fn display_width(&self) -> (w: usize)
        ensures
            w == crate::diff_strategy::held_at_max(
                label_bytes(self.label@) + 4,
            ),
    {
        self.label.as_str().len().saturating_add(4)
    }
}

/// The kinds of dialog.
#[derive(Debug, Clone, Copy, PartialEq, Eq, Structural)]
pub enum DialogKind {
    /// A message with an OK button.
    Alert,
    /// A message with OK and cancel.
    Confirm,
    /// A message with an input field, OK and cancel.
    Prompt,
    /// A dialog built by hand.
    Custom,
}

/// The state of a dialog while it is shown.
#[derive(Debug, Clone)]
pub struct DialogState {
    /// The button that has the focus.
    pub focused_button: Option<usize>,
    /// What was typed into the input field of a prompt.
    pub input_value: String,
    /// Whether the input field has the focus.
    pub input_focused: bool,
    /// Whether the dialog is open.
    pub open: bool,
    /// What the dialog ended with.
    pub result: Option<DialogResult>,
}

/// The state of a dialog, its strings as characters.
pub struct DialogModel {
    pub focused_button: Option<usize>,
    pub input_value: Seq<char>,
    pub input_focused: bool,
    pub open: bool,
    pub result: Option<DialogResultView>,
}

impl View for DialogState {
    type V = DialogModel;

    open spec fn view(&self) -> DialogModel {
        DialogModel {
            focused_button: self.focused_button,
            input_value: self.input_value@,
            input_focused: self.input_focused,
            open: self.open,
            result: result_view(self.result),
        }
    }
}

impl DialogState {
    /// The state of a dialog that was just opened.
    pub open spec fn fresh() -> DialogModel {
        DialogModel {
            focused_button: None,
            input_value: Seq::empty(),
            input_focused: true,
            open: true,
            result: None,
        }
    }

    /// An open dialog with the focus on its input field.
    pub fn new() -> (s: DialogState)
        ensures
            s@ == Self::fresh(),
    {
        DialogState {
            focused_button: None,
            input_value: String::new(),
            input_focused: true,
            open: true,
            result: None,
        }
    }

    /// Whether the dialog is open.
    pub fn is_open(&self) -> (r: bool)
        ensures
            r == self.open,
    {
        self.open
    }

    /// Closes the dialog with a result.
    pub fn close(&mut self, result: DialogResult)
        ensures
            final(self)@ == (DialogModel { open: false, result: Some(result@), ..old(self)@ }),
    {
        self.open = false;
        self.result = Some(result);
    }

    /// Opens the dialog again as it was when new.
    pub fn reset(&mut self)
        ensures
            final(self)@ == Self::fresh(),
    {
        self.open = true;
        self.result = None;
        self.input_value.clear();
        self.focused_button = None;
        self.input_focused = true;
    }

    /// Hands the result out and leaves none behind.
    pub fn take_result(&mut self) -> (r: Option<DialogResult>)
        ensures
            result_view(r) == old(self)@.result,
            final(self)@ == (DialogModel { result: None, ..old(self)@ }),
    {
        self.result.take()
    }
}

impl Default for DialogState {
    fn default() -> (s: DialogState)
        ensures
            s@ == (DialogModel { input_focused: false, open: false, ..DialogState::fresh() }),
    {
        DialogState {
            focused_button: None,
            input_value: String::new(),
            input_focused: false,
            open: false,
            result: None,
        }
    }
}

/// How a dialog looks and behaves.
#[derive(Debug, Clone, Copy, PartialEq, Eq, Structural)]
pub struct DialogConfig {
    pub modal_config: ModalConfig,
    pub kind: DialogKind,
    pub button_style: Style,
    pub primary_button_style: Style,
    pub focused_button_style: Style,
    pub title_style: Style,
    pub message_style: Style,
    pub input_style: Style,
}

impl DialogConfig {
    /// The configuration of a dialog of the given kind: centred, 30 to 60
    /// columns wide, primary button and title bold, focused button reversed.
    pub open spec fn standard(kind: DialogKind) -> DialogConfig {
        DialogConfig {
            modal_config: ModalConfig {
                position: ModalPosition::Center,
                size: ModalSizeConstraints {
                    min_width: Some(30),
                    max_width: Some(60),
                    min_height: None,
                    max_height: None,
                },
                backdrop: Some(crate::modal::container::default_backdrop()),
                close_on_backdrop: true,
                close_on_escape: true,
                hit_id: None,
            },
            kind,
            button_style: Style::empty(),
            primary_button_style: Style::empty().with_bits(crate::cell::FLAG_BOLD),
            focused_button_style: Style::empty().with_bits(crate::cell::FLAG_REVERSE),
            title_style: Style::empty().with_bits(crate::cell::FLAG_BOLD),
            message_style: Style::empty(),
            input_style: Style::empty(),
        }
    }

    /// The configuration of a dialog of the given kind.
    pub fn of_kind(kind: DialogKind) -> (c: DialogConfig)
        ensures
            c == Self::standard(kind),
    {
        DialogConfig {
            modal_config: ModalConfig::default().position(ModalPosition::Center).size(
                ModalSizeConstraints::new().min_width(30).max_width(60),
            ),
            kind,
            button_style: Style::new(),
            primary_button_style: Style::new().bold(),
            focused_button_style: Style::new().reverse(),
            title_style: Style::new().bold(),
            message_style: Style::new(),
            input_style: Style::new(),
        }
    }
}

impl Default for DialogConfig {
    fn default() -> (c: DialogConfig)
        ensures
            c == DialogConfig::standard(DialogKind::Alert),
    {
        DialogConfig::of_kind(DialogKind::Alert)
    }
}

/// Index of the first primary button among the first `n`.
pub open spec fn first_primary(buttons: Seq<DialogButton>, n: int) -> Option<int>
    decreases n,
{
    if n <= 0 {
        None
    } else {
        match first_primary(buttons, n - 1) {
            Some(i) => Some(i),
            None => if buttons[n - 1].primary {
                Some(n - 1)
            } else {
                None
            },
        }
    }
}

/// What pressing the button with the given id results in: `ok` gives the
/// input of a prompt and OK otherwise, `cancel` gives cancel, any other id
/// gives itself.
pub open spec fn button_result(id: Seq<char>, kind: DialogKind, input: Seq<char>) -> DialogResultView {
    if id == "ok"@ {
        if kind == DialogKind::Prompt {
            DialogResultView::Input(input)
        } else {
            DialogResultView::Accepted
        }
    } else if id == "cancel"@ {
        DialogResultView::Cancel
    } else {
        DialogResultView::Custom(id)
    }
}

/// The button after `current` among `count`, wrapping around.
pub open spec fn next_button(current: usize, count: int) -> usize {
    if current == usize::MAX {
        0
    } else {
        ((current + 1) % count) as usize
    }
}

/// The button before `current` among `count`, wrapping around.
pub open spec fn prev_button(current: usize, count: int) -> usize {
    if current == 0 {
        (count - 1) as usize
    } else {
        (current - 1) as usize
    }
}

/// The focus after tab or shift-tab. A prompt goes from its input field
/// through the buttons and back; other dialogs go round their buttons.
pub open spec fn cycled(m: DialogModel, has_input: bool, count: int, reverse: bool) -> DialogModel {
    if has_input {
        if m.input_focused {
            DialogModel {
                input_focused: false,
                focused_button: Some(
                    if reverse {
                        (count - 1) as usize
                    } else {
                        0
                    },
                ),
                ..m
            }
        } else {
            match m.focused_button {
                Some(idx) => if (reverse && idx == 0) || (!reverse && idx >= count - 1) {
                    DialogModel { input_focused: true, focused_button: None, ..m }
                } else if reverse {
                    DialogModel { focused_button: Some((idx - 1) as usize), ..m }
                } else {
                    DialogModel { focused_button: Some((idx + 1) as usize), ..m }
                },
                None => m,
            }
        }
    } else {
        let current = match m.focused_button {
            Some(i) => i,
            None => 0,
        };
        DialogModel {
            focused_button: Some(
                if reverse {
                    prev_button(current, count)
                } else {
                    next_button(current, count)
                },
            ),
            ..m
        }
    }
}

/// The focus after the left or right arrow key.
pub open spec fn navigated(m: DialogModel, count: int, forward: bool) -> DialogModel {
    let current = match m.focused_button {
        Some(i) => i,
        None => 0,
    };
    DialogModel {
        focused_button: Some(
            if forward {
                next_button(current, count)
            } else {
                prev_button(current, count)
            },
        ),
        ..m
    }
}

/// The input after a key press: a character is appended, backspace removes
/// the last character, delete removes all.
pub open spec fn typed(input: Seq<char>, key: KeyEvent) -> Seq<char> {
    if key.kind != KeyEventKind::Press {
        input
    } else {
        match key.code {
            KeyCode::Char(c) => input.push(c),
            KeyCode::Backspace => if input.len() > 0 {
                input.drop_last()
            } else {
                input
            },
            KeyCode::Delete => Seq::empty(),
            _ => input,
        }
    }
}

/// A dialog: title, message and buttons.
#[derive(Debug, Clone)]
pub struct Dialog {
    pub title: String,
    pub message: String,
    pub buttons: Vec<DialogButton>,
    pub config: DialogConfig,
    pub hit_id: Option<HitId>,
}

impl Dialog {
    /// A dialog has at least one button.
    pub open spec fn wf(&self) -> bool {
        self.buttons@.len() >= 1
    }

    /// The button that enter activates: the focused one, else the first
    /// primary one. `None` where there is neither or the focus points past
    /// the buttons.
    pub open spec fn target_button(&self, m: DialogModel) -> Option<int> {
        let idx = match m.focused_button {
            Some(i) => Some(i as int),
            None => first_primary(self.buttons@, self.buttons@.len() as int),
        };
        match idx {
            Some(i) => if i < self.buttons@.len() {
                Some(i)
            } else {
                None
            },
            None => None,
        }
    }

    /// The state and the result after the target button was activated.
    pub open spec fn activated(&self, m: DialogModel) -> (DialogModel, Option<DialogResultView>) {
        match self.target_button(m) {
            Some(i) => {
                let r = button_result(self.buttons@[i].id@, self.config.kind, m.input_value);
                (DialogModel { open: false, result: Some(r), ..m }, Some(r))
            },
            None => (m, None),
        }
    }

    /// Whether a hit is on one of this dialog's buttons, and on which.
    pub open spec fn clicked_button(&self, hit: Option<Hit>) -> Option<int> {
        match (hit, self.hit_id) {
            (Some(h), Some(expected)) => if h.id == expected && h.region == spec_hit_button()
                && h.data < self.buttons@.len() {
                Some(h.data as int)
            } else {
                None
            },
            _ => None,
        }
    }

    /// The state and the result after an event on an open dialog. In this
    /// order: escape dismisses where the configuration lets it; tab moves
    /// the focus; enter activates a button; the arrow keys move between
    /// buttons while the input field has no focus; a left click on a button
    /// activates it; any other key goes to the input field of a prompt that
    /// has the focus.
    pub open spec fn reaction(&self, m: DialogModel, event: Event, hit: Option<Hit>) -> (
        DialogModel,
        Option<DialogResultView>,
    ) {
        let count = self.buttons@.len() as int;
        let has_input = self.config.kind == DialogKind::Prompt;
        match event {
            Event::Key(key) => {
                let press = key.kind == KeyEventKind::Press;
                if press && key.code == KeyCode::Escape && self.config.modal_config.close_on_escape {
                    (
                        DialogModel {
                            open: false,
                            result: Some(DialogResultView::Dismissed),
                            ..m
                        },
                        Some(DialogResultView::Dismissed),
                    )
                } else if press && key.code == KeyCode::Tab {
                    (cycled(m, has_input, count, key.modifiers.spec_shift()), None)
                } else if press && key.code == KeyCode::Enter {
                    self.activated(m)
                } else if press && (key.code == KeyCode::Left || key.code == KeyCode::Right)
                    && !m.input_focused {
                    (navigated(m, count, key.code == KeyCode::Right), None)
                } else if has_input && m.input_focused {
                    (DialogModel { input_value: typed(m.input_value, key), ..m }, None)
                } else {
                    (m, None)
                }
            },
            Event::Mouse(mouse) => {
                if mouse.kind == MouseEventKind::Down(MouseButton::Left) {
                    match self.clicked_button(hit) {
                        Some(i) => self.activated(
                            DialogModel { focused_button: Some(i as usize), ..m },
                        ),
                        None => (m, None),
                    }
                } else {
                    (m, None)
                }
            },
            _ => (m, None),
        }
    }

    /// Number of rows that the dialog needs: borders, title and message
    /// where there are any, spacing, the input row of a prompt, and the
    /// row of buttons.
    pub open spec fn spec_content_height(&self) -> int {
        4 + if self.title@.len() > 0 {
            1int
        } else {
            0int
        } + if self.message@.len() > 0 {
            1int
        } else {
            0int
        } + if self.config.kind == DialogKind::Prompt {
            2int
        } else {
            0int
        }
    }

    /// A dialog of the given kind with the given buttons.
    fn with_buttons(title: &str, message: &str, kind: DialogKind, buttons: Vec<DialogButton>) -> (d:
        Dialog)
        ensures
            d.title@ == title@,
            d.message@ == message@,
            d.buttons == buttons,
            d.config == DialogConfig::standard(kind),
            d.hit_id.is_none(),
    {
        Dialog {
            title: title.to_owned(),
            message: message.to_owned(),
            buttons,
            config: DialogConfig::of_kind(kind),
            hit_id: None,
        }
    }

    /// A message with a primary OK button.
    pub fn alert(title: &str, message: &str) -> (d: Dialog)
        ensures
            d.wf(),
            d.title@ == title@,
            d.message@ == message@,
            d.config == DialogConfig::standard(DialogKind::Alert),
            d.hit_id.is_none(),
            d.buttons@.len() == 1,
            d.buttons@[0].label@ == "OK"@ && d.buttons@[0].id@ == "ok"@ && d.buttons@[0].primary,
    {
        let mut buttons: Vec<DialogButton> = Vec::new();
        buttons.push(DialogButton::new("OK", "ok").primary());
        Self::with_buttons(title, message, DialogKind::Alert, buttons)
    }

    /// A message with a primary OK button and a cancel button.
    pub fn confirm(title: &str, message: &str) -> (d: Dialog)
        ensures
            d.wf(),
            d.title@ == title@,
            d.message@ == message@,
            d.config == DialogConfig::standard(DialogKind::Confirm),
            d.hit_id.is_none(),
            d.buttons@.len() == 2,
            d.buttons@[0].label@ == "OK"@ && d.buttons@[0].id@ == "ok"@ && d.buttons@[0].primary,
            d.buttons@[1].label@ == "Cancel"@ && d.buttons@[1].id@ == "cancel"@
                && !d.buttons@[1].primary,
    {
        let mut buttons: Vec<DialogButton> = Vec::new();
        buttons.push(DialogButton::new("OK", "ok").primary());
        buttons.push(DialogButton::new("Cancel", "cancel"));
        Self::with_buttons(title, message, DialogKind::Confirm, buttons)
    }

    /// A message with an input field, a primary OK button and a cancel
    /// button.
    pub fn prompt(title: &str, message: &str) -> (d: Dialog)
        ensures
            d.wf(),
            d.title@ == title@,
            d.message@ == message@,
            d.config == DialogConfig::standard(DialogKind::Prompt),
            d.hit_id.is_none(),
            d.buttons@.len() == 2,
            d.buttons@[0].label@ == "OK"@ && d.buttons@[0].id@ == "ok"@ && d.buttons@[0].primary,
            d.buttons@[1].label@ == "Cancel"@ && d.buttons@[1].id@ == "cancel"@
                && !d.buttons@[1].primary,
    {
        let mut buttons: Vec<DialogButton> = Vec::new();
        buttons.push(DialogButton::new("OK", "ok").primary());
        buttons.push(DialogButton::new("Cancel", "cancel"));
        Self::with_buttons(title, message, DialogKind::Prompt, buttons)
    }

    /// A builder for a dialog with buttons of its own.
    pub fn custom(title: &str, message: &str) -> (b: DialogBuilder)
        ensures
            b.title@ == title@,
            b.message@ == message@,
            b.buttons@.len() == 0,
            b.config == DialogConfig::standard(DialogKind::Custom),
            b.hit_id.is_none(),
    {
        DialogBuilder {
            title: title.to_owned(),
            message: message.to_owned(),
            buttons: Vec::new(),
            config: DialogConfig::of_kind(DialogKind::Custom),
            hit_id: None,
        }
    }

    /// The dialog with the id that it registers its hit areas under, for
    /// its buttons and for the modal around it.
    pub fn hit_id(self, id: HitId) -> (d: Dialog)
        ensures
            d.hit_id == Some(id),
            d.config == (DialogConfig {
                modal_config: ModalConfig { hit_id: Some(id), ..self.config.modal_config },
                ..self.config
            }),
            d.title == self.title && d.message == self.message && d.buttons == self.buttons,
    {
        let mut d = self;
        d.hit_id = Some(id);
        d.config.modal_config = d.config.modal_config.hit_id(id);
        d
    }

    /// The dialog with another modal configuration.
    pub fn modal_config(self, config: ModalConfig) -> (d: Dialog)
        ensures
            d.config == (DialogConfig { modal_config: config, ..self.config }),
            d.title == self.title && d.message == self.message && d.buttons == self.buttons
                && d.hit_id == self.hit_id,
    {
        let mut d = self;
        d.config.modal_config = config;
        d
    }

    /// The dialog with another button style.
    pub fn button_style(self, style: Style) -> (d: Dialog)
        ensures
            d.config == (DialogConfig { button_style: style, ..self.config }),
            d.title == self.title && d.message == self.message && d.buttons == self.buttons
                && d.hit_id == self.hit_id,
    {
        let mut d = self;
        d.config.button_style = style;
        d
    }

    /// The dialog with another style of the primary button.
    pub fn primary_button_style(self, style: Style) -> (d: Dialog)
        ensures
            d.config == (DialogConfig { primary_button_style: style, ..self.config }),
            d.title == self.title && d.message == self.message && d.buttons == self.buttons
                && d.hit_id == self.hit_id,
    {
        let mut d = self;
        d.config.primary_button_style = style;
        d
    }

    /// The dialog with another style of the focused button.
    pub fn focused_button_style(self, style: Style) -> (d: Dialog)
        ensures
            d.config == (DialogConfig { focused_button_style: style, ..self.config }),
            d.title == self.title && d.message == self.message && d.buttons == self.buttons
                && d.hit_id == self.hit_id,
    {
        let mut d = self;
        d.config.focused_button_style = style;
        d
    }

    /// Index of the first primary button.
    pub fn primary_index(&self) -> (r: Option<usize>)
        ensures
            match r {
                Some(i) => first_primary(self.buttons@, self.buttons@.len() as int) == Some(
                    i as int,
                ) && i < self.buttons@.len(),
                None => first_primary(self.buttons@, self.buttons@.len() as int).is_none(),
            },
    {
        let n = self.buttons.len();
        let mut i: usize = 0;
        while i < n
            invariant
                n == self.buttons@.len(),
                0 <= i <= n,
                first_primary(self.buttons@, i as int).is_none(),
            decreases n - i,
        {
            if self.buttons[i].primary {
                proof {
                    lemma_first_primary_stays(self.buttons@, i + 1, n as int);
                }
                return Some(i);
            }
            i += 1;
        }
        None
    }

    /// Moves the focus on tab, backwards where `reverse` is set.
    pub fn cycle_focus(&self, state: &mut DialogState, reverse: bool)
        requires
            self.wf(),
        ensures
            final(state)@ == cycled(
                old(state)@,
                self.config.kind == DialogKind::Prompt,
                self.buttons@.len() as int,
                reverse,
            ),
    {
        let has_input = self.config.kind == DialogKind::Prompt;
        let button_count = self.buttons.len();
        if has_input {
            if state.input_focused {
                state.input_focused = false;
                state.focused_button = if reverse {
                    Some(button_count - 1)
                } else {
                    Some(0)
                };
            } else {
                match state.focused_button {
                    Some(idx) => {
                        if reverse {
                            if idx == 0 {
                                state.input_focused = true;
                                state.focused_button = None;
                            } else {
                                state.focused_button = Some(idx - 1);
                            }
                        } else if idx >= button_count - 1 {
                            state.input_focused = true;
                            state.focused_button = None;
                        } else {
                            state.focused_button = Some(idx + 1);
                        }
                    },
                    None => {},
                }
            }
        } else {
            let current = match state.focused_button {
                Some(i) => i,
                None => 0,
            };
            state.focused_button = if reverse {
                Some(step_back(current, button_count))
            } else {
                Some(step_forward(current, button_count))
            };
        }
    }

    /// Moves the focus between the buttons on an arrow key.
    pub fn navigate_buttons(&self, state: &mut DialogState, forward: bool)
        requires
            self.wf(),
        ensures
            final(state)@ == navigated(old(state)@, self.buttons@.len() as int, forward),
    {
        let count = self.buttons.len();
        let current = match state.focused_button {
            Some(i) => i,
            None => 0,
        };
        state.focused_button = if forward {
            Some(step_forward(current, count))
        } else {
            Some(step_back(current, count))
        };
    }

    /// Activates the focused button, or the first primary one where none
    /// has the focus, and closes the dialog with what the button results in.
    /// Nothing happens where there is no such button.
    pub fn activate_button(&self, state: &mut DialogState) -> (r: Option<DialogResult>)
        ensures
            final(state)@ == self.activated(old(state)@).0,
            result_view(r) == self.activated(old(state)@).1,
    {
        let idx = match state.focused_button {
            Some(i) => i,
            None => match self.primary_index() {
                Some(i) => i,
                None => {
                    return None;
                },
            },
        };
        if idx >= self.buttons.len() {
            return None;
        }
        let button = &self.buttons[idx];
        let id = button.id.as_str();
        let result = if str_eq(id, "ok") {
            if self.config.kind == DialogKind::Prompt {
                DialogResult::Input(state.input_value.clone())
            } else {
                DialogResult::Accepted
            }
        } else if str_eq(id, "cancel") {
            DialogResult::Cancel
        } else {
            DialogResult::Custom(id.to_owned())
        };
        state.close(result.duplicate());
        Some(result)
    }

    /// Takes a key for the input field of a prompt.
    pub fn handle_input_key(&self, state: &mut DialogState, key: &KeyEvent)
        ensures
            final(state)@ == (DialogModel {
                input_value: typed(old(state)@.input_value, *key),
                ..old(state)@
            }),
    {
        if key.kind != KeyEventKind::Press {
            return;
        }
        match key.code {
            KeyCode::Char(c) => {
                state.input_value.push(c);
            },
            KeyCode::Backspace => {
                state.input_value.pop();
            },
            KeyCode::Delete => {
                state.input_value.clear();
            },
            _ => {},
        }
    }

    /// Takes an event, with what the hit test says of it for a mouse
    /// event. A closed dialog does nothing. The result is given where the
    /// event closed the dialog.
    pub fn handle_event(&self, event: &Event, state: &mut DialogState, hit: Option<Hit>) -> (r:
        Option<DialogResult>)
        requires
            self.wf(),
        ensures
            !old(state).open ==> r.is_none() && final(state)@ == old(state)@,
            old(state).open ==> final(state)@ == self.reaction(old(state)@, *event, hit).0
                && result_view(r) == self.reaction(old(state)@, *event, hit).1,
    {
        if !state.open {
            return None;
        }
        match event {
            Event::Key(key) => {
                let press = key.kind == KeyEventKind::Press;
                if press && key.code == KeyCode::Escape && self.config.modal_config.close_on_escape {
                    state.close(DialogResult::Dismissed);
                    return Some(DialogResult::Dismissed);
                } else if press && key.code == KeyCode::Tab {
                    let shift = key.modifiers.contains(Modifiers::shift());
                    self.cycle_focus(state, shift);
                } else if press && key.code == KeyCode::Enter {
                    return self.activate_button(state);
                } else if press && (key.code == KeyCode::Left || key.code == KeyCode::Right)
                    && !state.input_focused {
                    self.navigate_buttons(state, key.code == KeyCode::Right);
                } else if self.config.kind == DialogKind::Prompt && state.input_focused {
                    self.handle_input_key(state, key);
                }
            },
            Event::Mouse(mouse) => {
                if mouse.kind == MouseEventKind::Down(MouseButton::Left) {
                    match (hit, self.hit_id) {
                        (Some(h), Some(expected)) => {
                            if h.id == expected && h.region == dialog_hit_button() && h.data
                                < self.buttons.len() as u64 {
                                state.focused_button = Some(h.data as usize);
                                return self.activate_button(state);
                            }
                        },
                        _ => {},
                    }
                }
            },
            _ => {},
        }
        None
    }

    /// Number of rows that the dialog needs.
    pub fn content_height(&self) -> (h: u16)
        ensures
            h == self.spec_content_height(),
    {
        let mut height: u16 = 2;
        if !self.title.as_str().is_empty() {
            height += 1;
        }
        if !self.message.as_str().is_empty() {
            height += 1;
        }
        height += 1;
        if self.config.kind == DialogKind::Prompt {
            height += 1;
            height += 1;
        }
        height += 1;
        height
    }
}

/// The button after `current` among `count`, wrapping around.
pub fn step_forward(current: usize, count: usize) -> (r: usize)
    requires
        count >= 1,
    ensures
        r == next_button(current, count as int),
{
    if current == usize::MAX {
        0
    } else {
        (current + 1) % count
    }
}

/// The button before `current` among `count`, wrapping around.
pub fn step_back(current: usize, count: usize) -> (r: usize)
    requires
        count >= 1,
    ensures
        r == prev_button(current, count as int),
{
    if current == 0 {
        count - 1
    } else {
        current - 1
    }
}

/// Once a primary button is found, it stays the first however many more
/// buttons are looked at.
pub proof fn lemma_first_primary_stays(buttons: Seq<DialogButton>, n: int, m: int)
    requires
        0 <= n <= m,
        first_primary(buttons, n).is_some(),
    ensures
        first_primary(buttons, m) == first_primary(buttons, n),
    decreases m - n,
{
    if n < m {
        lemma_first_primary_stays(buttons, n, m - 1);
    }
}

/// Builds a dialog with buttons of its own.
#[derive(Debug, Clone)]
pub struct DialogBuilder {
    pub title: String,
    pub message: String,
    pub buttons: Vec<DialogButton>,
    pub config: DialogConfig,
    pub hit_id: Option<HitId>,
}

impl DialogBuilder {
    /// The builder with one more button.
    pub fn button(self, button: DialogButton) -> (b: DialogBuilder)
        ensures
            b.buttons@ == self.buttons@.push(button),
            b.title == self.title && b.message == self.message && b.config == self.config
                && b.hit_id == self.hit_id,
    {
        let mut b = self;
        b.buttons.push(button);
        b
    }

    /// The builder with a primary OK button added.
    pub fn ok_button(self) -> (b: DialogBuilder)
        ensures
            b.buttons@.len() == self.buttons@.len() + 1,
            b.buttons@.drop_last() == self.buttons@,
            b.buttons@.last().label@ == "OK"@ && b.buttons@.last().id@ == "ok"@
                && b.buttons@.last().primary,
            b.title == self.title && b.message == self.message && b.config == self.config
                && b.hit_id == self.hit_id,
    {
        let old_buttons = Ghost(self.buttons@);
        let b = self.button(DialogButton::new("OK", "ok").primary());
        assert(b.buttons@.drop_last() =~= old_buttons@);
        b
    }

    /// The builder with a cancel button added.
    pub fn cancel_button(self) -> (b: DialogBuilder)
        ensures
            b.buttons@.len() == self.buttons@.len() + 1,
            b.buttons@.drop_last() == self.buttons@,
            b.buttons@.last().label@ == "Cancel"@ && b.buttons@.last().id@ == "cancel"@
                && !b.buttons@.last().primary,
            b.title == self.title && b.message == self.message && b.config == self.config
                && b.hit_id == self.hit_id,
    {
        let old_buttons = Ghost(self.buttons@);
        let b = self.button(DialogButton::new("Cancel", "cancel"));
        assert(b.buttons@.drop_last() =~= old_buttons@);
        b
    }

    /// The builder with a button of the given label and id added.
    pub fn custom_button(self, label: &str, id: &str) -> (b: DialogBuilder)
        ensures
            b.buttons@.len() == self.buttons@.len() + 1,
            b.buttons@.drop_last() == self.buttons@,
            b.buttons@.last().label@ == label@ && b.buttons@.last().id@ == id@
                && !b.buttons@.last().primary,
            b.title == self.title && b.message == self.message && b.config == self.config
                && b.hit_id == self.hit_id,
    {
        let old_buttons = Ghost(self.buttons@);
        let b = self.button(DialogButton::new(label, id));
        assert(b.buttons@.drop_last() =~= old_buttons@);
        b
    }

    /// The builder with another modal configuration.
    pub fn modal_config(self, config: ModalConfig) -> (b: DialogBuilder)
        ensures
            b.config == (DialogConfig { modal_config: config, ..self.config }),
            b.title == self.title && b.message == self.message && b.buttons == self.buttons
                && b.hit_id == self.hit_id,
    {
        let mut b = self;
        b.config.modal_config = config;
        b
    }

    /// The builder with the id that the dialog registers its buttons under.
    pub fn hit_id(self, id: HitId) -> (b: DialogBuilder)
        ensures
            b.hit_id == Some(id),
            b.title == self.title && b.message == self.message && b.buttons == self.buttons
                && b.config == self.config,
    {
        let mut b = self;
        b.hit_id = Some(id);
        b
    }

    /// The dialog. Where no button was added it gets a primary OK button.
    pub fn build(self) -> (d: Dialog)
        ensures
            d.wf(),
            d.title == self.title && d.message == self.message && d.config == self.config
                && d.hit_id == self.hit_id,
            self.buttons@.len() > 0 ==> d.buttons == self.buttons,
            self.buttons@.len() == 0 ==> d.buttons@.len() == 1 && d.buttons@[0].label@ == "OK"@
                && d.buttons@[0].id@ == "ok"@ && d.buttons@[0].primary,
    {
        let mut buttons = self.buttons;
        if buttons.len() == 0 {
            buttons.push(DialogButton::new("OK", "ok").primary());
        }
        Dialog {
            title: self.title,
            message: self.message,
            buttons,
            config: self.config,
            hit_id: self.hit_id,
        }
    }
}

} // verus!
