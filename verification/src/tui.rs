//! The rules of the terminal browser: what a key press does to its state. Drawing, the
//! terminal and the text field of the search are not here; the program around the library
//! holds them and asks these rules what to do.

use vstd::prelude::*;
use vstd::string::StringExecFns;

verus! {

/// What the rules read of the key of a key press.
#[derive(Debug, Clone, Copy, PartialEq, Eq, Structural)]
pub enum Key {
    Char(char),
    Esc,
    Up,
    Down,
    Home,
    End,
    /// Any other key.
    Other,
}

/// One key press.
#[derive(Debug, Clone, Copy, PartialEq, Eq, Structural)]
pub struct KeyPress {
    pub key: Key,
    /// Whether Control, and no other modifier, was held.
    pub control: bool,
}

/// The key of a key event, as the terminal names it.
#[derive(Debug, Clone, Copy, PartialEq, Eq, Structural)]
pub enum KeyCode {
    Backspace,
    Enter,
    Left,
    Right,
    Up,
    Down,
    Home,
    End,
    PageUp,
    PageDown,
    Tab,
    BackTab,
    Delete,
    Insert,
    /// A function key, by its number.
    F(u8),
    Char(char),
    Null,
    Esc,
    CapsLock,
    ScrollLock,
    NumLock,
    PrintScreen,
    Pause,
    Menu,
    KeypadBegin,
    /// A media key.
    Media,
    /// A modifier key by itself.
    Modifier,
}

/// What happened to the key of a key event.
#[derive(Debug, Clone, Copy, PartialEq, Eq, Structural)]
pub enum KeyEventKind {
    Press,
    Repeat,
    Release,
}

/// The modifier keys that were held during a key event.
#[derive(Debug, Clone, Copy, PartialEq, Eq, Structural)]
pub struct KeyModifiers {
    pub shift: bool,
    pub control: bool,
    pub alt: bool,
    pub super_key: bool,
    pub hyper: bool,
    pub meta: bool,
}

/// One key event of the terminal.
#[derive(Debug, Clone, Copy, PartialEq, Eq, Structural)]
pub struct KeyEvent {
    pub code: KeyCode,
    pub modifiers: KeyModifiers,
    pub kind: KeyEventKind,
}

/// One event of the terminal, as far as its kind goes; of a key event, all that it holds.
#[derive(Debug, Clone, Copy, PartialEq, Eq, Structural)]
pub enum TerminalEvent {
    FocusGained,
    FocusLost,
    Key(KeyEvent),
    Mouse,
    Paste,
    Resize,
}

impl KeyCode {
    /// What the rules read of the key: a character, Escape, the two arrows and the two ends
    /// of the list by themselves, and every other key as one and the same.
    pub open spec fn read(self) -> Key {
        match self {
            KeyCode::Char(character) => Key::Char(character),
            KeyCode::Esc => Key::Esc,
            KeyCode::Up => Key::Up,
            KeyCode::Down => Key::Down,
            KeyCode::Home => Key::Home,
            KeyCode::End => Key::End,
            _ => Key::Other,
        }
    }

    /// What the rules read of the key. See [`KeyCode::read`].
    pub fn key(&self) -> (key: Key)
        ensures
            key == self.read(),
    {
        match self {
            KeyCode::Char(character) => Key::Char(*character),
            KeyCode::Esc => Key::Esc,
            KeyCode::Up => Key::Up,
            KeyCode::Down => Key::Down,
            KeyCode::Home => Key::Home,
            KeyCode::End => Key::End,
            _ => Key::Other,
        }
    }
}

impl KeyModifiers {
    /// Whether Control was held, and no other modifier.
    pub open spec fn control_alone(self) -> bool {
        self.control && !self.shift && !self.alt && !self.super_key && !self.hyper && !self.meta
    }

    /// Whether Control was held, and no other modifier.
    pub fn is_control(&self) -> (alone: bool)
        ensures
            alone == self.control_alone(),
    {
        self.control && !self.shift && !self.alt && !self.super_key && !self.hyper && !self.meta
    }
}

impl TerminalEvent {
    /// The key press that the event is for the rules: a key event whose key was pressed. A
    /// key that repeats or is released is none, and neither is any other event.
    pub open spec fn pressed(self) -> Option<KeyPress> {
        match self {
            TerminalEvent::Key(event) => if event.kind == KeyEventKind::Press {
                Some(KeyPress { key: event.code.read(), control: event.modifiers.control_alone() })
            } else {
                None
            },
            _ => None,
        }
    }

    /// The key press that the event is for the rules. See [`TerminalEvent::pressed`].
    pub fn key_press(&self) -> (press: Option<KeyPress>)
        ensures
            press == self.pressed(),
    {
        match self {
            TerminalEvent::Key(event) => {
                match event.kind {
                    KeyEventKind::Press => Some(
                        KeyPress { key: event.code.key(), control: event.modifiers.is_control() },
                    ),
                    _ => None,
                }
            },
            _ => None,
        }
    }
}

/// A request from a screen or a modal to the browser.
#[derive(Debug, Clone, Copy, PartialEq, Eq, Structural)]
pub enum Message {
    OpenFunctionSearchModal,
}

/// What a screen or a modal made of a key press.
#[derive(Debug, Clone, Copy, PartialEq, Eq, Structural)]
pub enum EventHandlerResult {
    /// The key press is used up.
    Handled,
    /// The key press is used up, and the browser is to act on the message.
    HandledWithMessage(Message),
    /// The key press is left to whoever comes next.
    Pass,
}

/// What a search modal searches.
#[derive(Debug, Clone, Copy, PartialEq, Eq, Structural)]
pub enum SearchModalType {
    Function,
}

/// A window over the screen.
#[derive(Debug, Clone, Copy, PartialEq, Eq, Structural)]
pub enum Modal {
    SearchModal(SearchModalType),
}

/// The screen that the browser starts with.
#[derive(Debug, Clone, Copy, PartialEq, Eq, Structural, Default)]
pub struct HomeScreen;

/// A step of the selection in the list of a search modal.
#[derive(Debug, Clone, Copy, PartialEq, Eq, Structural)]
pub enum SelectionMove {
    Next,
    Previous,
    First,
    Last,
}

/// What the program around the rules has to do after a key press, beside keeping the new
/// state.
#[derive(Debug, Clone, Copy, PartialEq, Eq, Structural)]
pub enum Action {
    /// Nothing.
    Nothing,
    /// Show this modal afresh, with nothing typed and nothing selected.
    OpenModal(Modal),
    /// Take the modal away.
    CloseModal,
    /// Leave.
    Stop,
}

/// The part of the browser's state that the rules decide on.
#[derive(Debug, Clone, Copy, PartialEq, Eq, Structural)]
pub struct TerminalState {
    /// Whether the browser goes on running.
    pub running: bool,
    /// The modal that is open, if one is.
    pub open_modal: Option<Modal>,
}

/// Whether `key` is the letter `letter`, small or capital.
pub open spec fn is_letter(key: Key, small: char, capital: char) -> bool {
    key == Key::Char(small) || key == Key::Char(capital)
}

impl HomeScreen {
    /// What the home screen makes of a key press: `s` asks for the function search, and every
    /// other key is passed on.
    pub open spec fn handled(key: KeyPress) -> EventHandlerResult {
        if is_letter(key.key, 's', 'S') {
            EventHandlerResult::HandledWithMessage(Message::OpenFunctionSearchModal)
        } else {
            EventHandlerResult::Pass
        }
    }

    /// What the home screen makes of a key press. See [`HomeScreen::handled`].
    pub fn on_key_event(&self, key: &KeyPress) -> (result: EventHandlerResult)
        ensures
            result == HomeScreen::handled(*key),
    {
        match key.key {
            Key::Char(c) if c == 's' || c == 'S' => EventHandlerResult::HandledWithMessage(
                Message::OpenFunctionSearchModal,
            ),
            _ => EventHandlerResult::Pass,
        }
    }

    /// The line that tells how far the conversion of the documents has come.
    pub open spec fn progress(parsed: nat, total: nat) -> Seq<char> {
        (if parsed == total {
            "Parsed"@
        } else {
            "Parsing"@
        }) + " "@ + decimal(parsed) + "/"@ + decimal(total) + " definition files"@
    }

    /// The line that tells how far the conversion of the documents has come. See
    /// [`HomeScreen::progress`].
    pub fn progress_line(parsed: usize, total: usize) -> (line: String)
        ensures
            line@ == HomeScreen::progress(parsed as nat, total as nat),
    {
        let mut line = if parsed == total {
            "Parsed".to_owned()
        } else {
            "Parsing".to_owned()
        };
        line.append(" ");
        line.append(to_decimal(parsed).as_str());
        line.append("/");
        line.append(to_decimal(total).as_str());
        line.append(" definition files");
        line
    }
}

/// The decimal digit for `digit`.
pub open spec fn digit_text(digit: nat) -> Seq<char> {
    if digit == 0 {
        "0"@
    } else if digit == 1 {
        "1"@
    } else if digit == 2 {
        "2"@
    } else if digit == 3 {
        "3"@
    } else if digit == 4 {
        "4"@
    } else if digit == 5 {
        "5"@
    } else if digit == 6 {
        "6"@
    } else if digit == 7 {
        "7"@
    } else if digit == 8 {
        "8"@
    } else {
        "9"@
    }
}

/// `number` written in decimal digits, without leading zeros.
pub open spec fn decimal(number: nat) -> Seq<char>
    decreases number,
{
    if number < 10 {
        digit_text(number)
    } else {
        decimal(number / 10) + digit_text(number % 10)
    }
}

/// The decimal digit for `digit`.
fn digit(value: usize) -> (text: &'static str)
    requires
        value < 10,
    ensures
        text@ == digit_text(value as nat),
{
    let digit = value;
    if digit == 0 {
        "0"
    } else if digit == 1 {
        "1"
    } else if digit == 2 {
        "2"
    } else if digit == 3 {
        "3"
    } else if digit == 4 {
        "4"
    } else if digit == 5 {
        "5"
    } else if digit == 6 {
        "6"
    } else if digit == 7 {
        "7"
    } else if digit == 8 {
        "8"
    } else {
        "9"
    }
}

/// `number` written in decimal digits. See [`decimal`].
pub fn to_decimal(number: usize) -> (text: String)
    ensures
        text@ == decimal(number as nat),
    decreases number,
{
    if number < 10 {
        digit(number).to_owned()
    } else {
        let mut text = to_decimal(number / 10);
        text.append(digit(number % 10));
        text
    }
}

impl Modal {
    /// A search modal for `searched`.
    pub fn new_search_modal(searched: SearchModalType) -> (modal: Modal)
        ensures
            modal == Modal::SearchModal(searched),
    {
        Modal::SearchModal(searched)
    }

    /// The title over the modal.
    pub fn title(&self) -> (title: &'static str)
        ensures
            title@ == "Search functions"@,
    {
        match self {
            Modal::SearchModal(_) => "Search functions",
        }
    }

    /// How a key moves the selection in the list of a search modal, if it does.
    pub open spec fn selection_move(key: Key) -> Option<SelectionMove> {
        match key {
            Key::Down => Some(SelectionMove::Next),
            Key::Up => Some(SelectionMove::Previous),
            Key::Home => Some(SelectionMove::First),
            Key::End => Some(SelectionMove::Last),
            _ => None,
        }
    }

    /// Whether a key press goes on to the text field of a search modal: every key does but
    /// those that step through the list or jump to its start. The key to the end of the list
    /// also goes to the end of the text.
    pub open spec fn reaches_query(key: Key) -> bool {
        key != Key::Down && key != Key::Up && key != Key::Home
    }

    /// What a search modal makes of a key press, given whether the text field took it, for a
    /// key that reaches it. A key that does not reach the text field is used up; one that does
    /// is used up if the text field took it, and passed on otherwise.
    pub open spec fn handled(key: KeyPress, taken: bool) -> EventHandlerResult {
        if !Modal::reaches_query(key.key) || taken {
            EventHandlerResult::Handled
        } else {
            EventHandlerResult::Pass
        }
    }

    /// How the key press moves the selection in the list. See [`Modal::selection_move`].
    pub fn selection(&self, key: &KeyPress) -> (step: Option<SelectionMove>)
        ensures
            step == Modal::selection_move(key.key),
    {
        match key.key {
            Key::Down => Some(SelectionMove::Next),
            Key::Up => Some(SelectionMove::Previous),
            Key::Home => Some(SelectionMove::First),
            Key::End => Some(SelectionMove::Last),
            _ => None,
        }
    }

    /// Whether the key press goes on to the text field. See [`Modal::reaches_query`].
    pub fn edits_query(&self, key: &KeyPress) -> (reaches: bool)
        ensures
            reaches == Modal::reaches_query(key.key),
    {
        match key.key {
            Key::Down | Key::Up | Key::Home => false,
            _ => true,
        }
    }

    /// What the modal makes of a key press. See [`Modal::handled`].
    pub fn on_key_event(&self, key: &KeyPress, taken: bool) -> (result: EventHandlerResult)
        ensures
            result == Modal::handled(*key, taken),
    {
        if !self.edits_query(key) || taken {
            EventHandlerResult::Handled
        } else {
            EventHandlerResult::Pass
        }
    }
}

impl Message {
    /// The state after the browser has acted on the message.
    pub open spec fn applied(self, state: TerminalState) -> TerminalState {
        match self {
            Message::OpenFunctionSearchModal => TerminalState {
                open_modal: Some(Modal::SearchModal(SearchModalType::Function)),
                ..state
            },
        }
    }

    /// What the program has to do for the message.
    pub open spec fn action(self) -> Action {
        match self {
            Message::OpenFunctionSearchModal => Action::OpenModal(
                Modal::SearchModal(SearchModalType::Function),
            ),
        }
    }

    /// Acts on the message. See [`Message::applied`].
    pub fn handle(&self, state: &mut TerminalState)
        ensures
            *final(state) == self.applied(*old(state)),
            final(state).open_modal == Some(self.action()->OpenModal_0),
    {
        match self {
            Message::OpenFunctionSearchModal => {
                state.open_modal = Some(Modal::new_search_modal(SearchModalType::Function));
            },
        }
    }
}

impl TerminalState {
    /// Whether the key press asks the browser to stop: Escape, or Control with `c`.
    pub open spec fn asks_to_quit(key: KeyPress) -> bool {
        key.key == Key::Esc || (key.control && is_letter(key.key, 'c', 'C'))
    }

    /// The state after a key press that the open modal, if any, has not used up: the screen
    /// comes first, and a key that the screen passes on may stop the browser.
    pub open spec fn after_screen(self, key: KeyPress) -> TerminalState {
        match HomeScreen::handled(key) {
            EventHandlerResult::Handled => self,
            EventHandlerResult::HandledWithMessage(message) => message.applied(self),
            EventHandlerResult::Pass => if TerminalState::asks_to_quit(key) {
                TerminalState { running: false, ..self }
            } else {
                self
            },
        }
    }

    /// The state after a key press. `modal` is what the open modal made of the key press; it
    /// plays no part while no modal is open. A key that the modal used up goes no further.
    /// Escape, if the modal passes it on, closes the modal. Every other key that the modal
    /// passes on goes to the screen.
    pub open spec fn after_key(self, key: KeyPress, modal: EventHandlerResult) -> TerminalState {
        if self.open_modal is Some {
            match modal {
                EventHandlerResult::Handled => self,
                EventHandlerResult::HandledWithMessage(message) => message.applied(self),
                EventHandlerResult::Pass => if key.key == Key::Esc {
                    TerminalState { open_modal: None, ..self }
                } else {
                    self.after_screen(key)
                },
            }
        } else {
            self.after_screen(key)
        }
    }

    /// What the program has to do after a key press that the open modal, if any, has not
    /// used up.
    pub open spec fn action_of_screen(key: KeyPress) -> Action {
        match HomeScreen::handled(key) {
            EventHandlerResult::Handled => Action::Nothing,
            EventHandlerResult::HandledWithMessage(message) => message.action(),
            EventHandlerResult::Pass => if TerminalState::asks_to_quit(key) {
                Action::Stop
            } else {
                Action::Nothing
            },
        }
    }

    /// What the program has to do after a key press. It goes with
    /// [`TerminalState::after_key`]: a modal that opens is to be shown afresh, a modal that
    /// closes is to be taken away, and a browser that stops is to be left.
    pub open spec fn action_of(self, key: KeyPress, modal: EventHandlerResult) -> Action {
        if self.open_modal is Some {
            match modal {
                EventHandlerResult::Handled => Action::Nothing,
                EventHandlerResult::HandledWithMessage(message) => message.action(),
                EventHandlerResult::Pass => if key.key == Key::Esc {
                    Action::CloseModal
                } else {
                    TerminalState::action_of_screen(key)
                },
            }
        } else {
            TerminalState::action_of_screen(key)
        }
    }

    /// The state of a browser that has just been started: running, with no modal open.
    pub fn new() -> (state: TerminalState)
        ensures
            state == (TerminalState { running: true, open_modal: None }),
    {
        TerminalState { running: true, open_modal: None }
    }

    /// Takes a key press. See [`TerminalState::after_key`] and [`TerminalState::action_of`].
    pub fn on_key_event(&mut self, key: &KeyPress, modal: EventHandlerResult) -> (action: Action)
        ensures
            *final(self) == old(self).after_key(*key, modal),
            action == old(self).action_of(*key, modal),
    {
        if self.open_modal.is_some() {
            match modal {
                EventHandlerResult::Handled => {
                    return Action::Nothing;
                },
                EventHandlerResult::HandledWithMessage(message) => {
                    return self.act_on(message);
                },
                EventHandlerResult::Pass => {},
            }
            match key.key {
                Key::Esc => {
                    self.open_modal = None;
                    return Action::CloseModal;
                },
                _ => {},
            }
        }
        let screen = HomeScreen;
        match screen.on_key_event(key) {
            EventHandlerResult::Handled => {
                return Action::Nothing;
            },
            EventHandlerResult::HandledWithMessage(message) => {
                return self.act_on(message);
            },
            EventHandlerResult::Pass => {},
        }
        let quit = match key.key {
            Key::Esc => true,
            Key::Char(c) => key.control && (c == 'c' || c == 'C'),
            _ => false,
        };
        if quit {
            self.running = false;
            Action::Stop
        } else {
            Action::Nothing
        }
    }

    /// Acts on a message, and says what the program has to do for it.
    fn act_on(&mut self, message: Message) -> (action: Action)
        ensures
            *final(self) == message.applied(*old(self)),
            action == message.action(),
    {
        message.handle(self);
        match self.open_modal {
            Some(modal) => Action::OpenModal(modal),
            None => Action::Nothing,
        }
    }
}

} // verus!
