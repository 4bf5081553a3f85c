//! The LCD front panel: a two-line display, a push button and a rotary knob.
//!
//! Out of the menu the display shows the alarm state. The button opens a menu
//! whose entry the knob selects; the button then starts adding or removing
//! the next scanned badge. Ten seconds without activity close the menu.
//!
//! A polling round is a dialogue: the panel answers each input with the next
//! thing to do (draw, read the button or the knob, or stop), and the caller
//! performs it and reports back. A round whose display or read fails is
//! simply not continued; the next `Start` begins a fresh round.

use vstd::prelude::*;
use crate::arduino_consts::SecurityState;
use crate::badges::{BadgeManager, BadgeError, BadgeRecord, fresh_record, registry_accepts};
use crate::controller::badge_accepted;
use crate::text::{str_equal, opt_view};
pub use crate::grovepi::{GrovePiCommand, GrovePiPinMode};

verus! {

/// Analog input of the rotary knob (A0).
pub const ROTARY_PIN: u8 = 0;
/// Analog input of the button (A1).
pub const BUTTON_PIN: u8 = 1;
/// Address of the GrovePi on the bus.
pub const GROVE_PI_ADDR: u16 = 0x04;
/// Inactivity after which the menu closes, in milliseconds.
pub const MENU_TIMEOUT_MS: u64 = 10000;
/// Analog level above which the button counts as pressed.
pub const BUTTON_THRESHOLD: u16 = 512;
/// Full-scale analog level of the knob.
pub const ROTARY_FULL_SCALE: u64 = 1023;

/// The screen the panel is on.
#[derive(Debug, Clone, Copy, PartialEq, Eq, Structural)]
pub enum LcdState {
    Default,
    Menu,
    AddCard,
    RemoveCard,
}

/// An entry of the panel's menu.
#[derive(Debug, Clone, Copy, PartialEq, Eq, Structural)]
pub enum MenuOption {
    AddCard,
    RemoveCard,
}

/// The label of a menu entry.
pub open spec fn option_label(o: MenuOption) -> Seq<char> {
    match o {
        MenuOption::AddCard => "Add Card"@,
        MenuOption::RemoveCard => "Remove Card"@,
    }
}

impl MenuOption {
    /// The label shown for this entry.
    pub fn as_str(&self) -> (r: &'static str)
        ensures
            r@ == option_label(*self),
    {
        match self {
            MenuOption::AddCard => "Add Card",
            MenuOption::RemoveCard => "Remove Card",
        }
    }
}

/// What the panel does once the current drawing is done.
#[derive(Debug, Clone, Copy, PartialEq, Eq, Structural)]
pub enum Next {
    /// Read the button (out of the menu).
    DefaultButton,
    /// Read the button (in the menu).
    MenuButton,
    /// Close the menu if it timed out, then stop.
    MenuTimeout,
    /// Handle a scanned badge on a card screen.
    CardCheck,
    /// Leave the card screen after its message.
    CardExit,
    /// Close the card screen if it timed out, then stop.
    CardTimeout,
    /// Stop the round.
    Finish,
}

/// Where the panel is within a round.
#[derive(Debug, Clone, Copy, PartialEq, Eq, Structural)]
pub enum LcdPhase {
    /// No round in progress.
    Idle,
    /// Waiting for a drawing to complete, then continuing with `Next`.
    Showing(Next),
    /// Waiting for the button level.
    AwaitButton,
    /// Waiting for the knob level.
    AwaitRotary,
}

/// What the caller reports to the panel.
pub enum LcdInput {
    /// Start a round: the panel's clock in milliseconds, the instant for the
    /// badge registry in nanoseconds since the epoch, the alarm state and the
    /// last scanned UID.
    Start { now_ms: u64, instant: i128, alarm: SecurityState, last_rfid: Option<String> },
    /// The button's analog level.
    Button { now_ms: u64, level: u16 },
    /// The knob's analog level.
    Rotary { now_ms: u64, level: u16 },
    /// The requested drawing (and wait) is done.
    Shown { now_ms: u64 },
}

/// What the panel asks the caller to do next.
#[derive(Debug)]
pub enum LcdOutput {
    /// Clear the display, print `line1` on the first row and `line2`, if any,
    /// on the second.
    Show { line1: String, line2: Option<String> },
    /// As `Show`, then wait two seconds.
    ShowAndWait { line1: String, line2: Option<String> },
    /// Read the button.
    ReadButton,
    /// Read the knob.
    ReadRotary,
    /// The round is over.
    Done,
    /// The round is over: the badge registry refused a change.
    Failed(BadgeError),
}

/// The mathematical content of an input.
pub enum InputModel {
    Start { now_ms: u64, instant: i128, alarm: SecurityState, last_rfid: Option<Seq<char>> },
    Button { now_ms: u64, level: u16 },
    Rotary { now_ms: u64, level: u16 },
    Shown { now_ms: u64 },
}

/// The mathematical content of an output.
pub enum OutputModel {
    Show { line1: Seq<char>, line2: Option<Seq<char>> },
    ShowAndWait { line1: Seq<char>, line2: Option<Seq<char>> },
    ReadButton,
    ReadRotary,
    Done,
    Failed(BadgeError),
}

impl View for LcdInput {
    type V = InputModel;

    open spec fn view(&self) -> InputModel {
        match self {
            LcdInput::Start { now_ms, instant, alarm, last_rfid } =>
                InputModel::Start { now_ms: *now_ms, instant: *instant, alarm: *alarm, last_rfid: opt_view(*last_rfid) },
            LcdInput::Button { now_ms, level } => InputModel::Button { now_ms: *now_ms, level: *level },
            LcdInput::Rotary { now_ms, level } => InputModel::Rotary { now_ms: *now_ms, level: *level },
            LcdInput::Shown { now_ms } => InputModel::Shown { now_ms: *now_ms },
        }
    }
}

impl View for LcdOutput {
    type V = OutputModel;

    open spec fn view(&self) -> OutputModel {
        match self {
            LcdOutput::Show { line1, line2 } => OutputModel::Show { line1: line1@, line2: opt_view(*line2) },
            LcdOutput::ShowAndWait { line1, line2 } => OutputModel::ShowAndWait { line1: line1@, line2: opt_view(*line2) },
            LcdOutput::ReadButton => OutputModel::ReadButton,
            LcdOutput::ReadRotary => OutputModel::ReadRotary,
            LcdOutput::Done => OutputModel::Done,
            LcdOutput::Failed(e) => OutputModel::Failed(*e),
        }
    }
}

/// The mathematical state of the panel.
pub struct LcdModel {
    pub state: LcdState,
    /// The menu's entries, in knob order.
    pub options: Seq<MenuOption>,
    pub selected: int,
    pub last_activity: u64,
    pub text: (Option<Seq<char>>, Option<Seq<char>>),
    pub button_was_pressed: bool,
    pub phase: LcdPhase,
    pub pending: Option<(Seq<char>, Seq<char>)>,
    pub alarm: SecurityState,
    pub scanned: Option<Seq<char>>,
    pub now_ms: u64,
    pub instant: i128,
}

/// The name of a security state as the display prints it.
pub open spec fn state_name(s: SecurityState) -> Seq<char> {
    match s {
        SecurityState::Disarmed => "Disarmed"@,
        SecurityState::Armed => "Armed"@,
        SecurityState::Triggered => "Triggered"@,
    }
}

/// The two lines of the screen out of the menu.
pub open spec fn default_lines(alarm: SecurityState) -> (Seq<char>, Seq<char>) {
    (state_name(alarm), match alarm {
        SecurityState::Disarmed => "Use btn for menu"@,
        _ => "Scan to disarm"@,
    })
}

/// The two lines of the menu screen with entry `selected` chosen.
pub open spec fn menu_lines(selected: int) -> (Seq<char>, Seq<char>) {
    ("Menu:"@, option_label(if selected == 0 { MenuOption::AddCard } else { MenuOption::RemoveCard }))
}

/// The two lines of a card screen.
pub open spec fn card_lines(state: LcdState) -> (Seq<char>, Seq<char>) {
    (if state == LcdState::AddCard { "Add Card"@ } else { "Remove Card"@ }, "Scan RFID card"@)
}

/// Ends the round.
pub open spec fn spec_finish(m: LcdModel) -> (LcdModel, OutputModel) {
    (LcdModel { phase: LcdPhase::Idle, ..m }, OutputModel::Done)
}

/// Draws the lines unless the display already shows them, then goes on
/// with `k`; `after` is how the round goes on when nothing is drawn.
pub open spec fn spec_show(m: LcdModel, lines: (Seq<char>, Seq<char>), k: Next, after: (LcdModel, OutputModel)) -> (LcdModel, OutputModel) {
    if m.text == (Some(lines.0), Some(lines.1)) {
        after
    } else {
        (LcdModel { phase: LcdPhase::Showing(k), pending: Some(lines), ..m },
         OutputModel::Show { line1: lines.0, line2: Some(lines.1) })
    }
}

/// Whether more than the menu timeout elapsed since the last activity.
pub open spec fn timed_out(m: LcdModel) -> bool {
    m.now_ms >= m.last_activity && m.now_ms - m.last_activity > MENU_TIMEOUT_MS
}

/// Closes the menu if it timed out, then ends the round.
pub open spec fn spec_timeout(m: LcdModel) -> (LcdModel, OutputModel) {
    if timed_out(m) {
        let d = LcdModel { state: LcdState::Default, ..m };
        spec_show(d, default_lines(d.alarm), Next::Finish, spec_finish(d))
    } else {
        spec_finish(m)
    }
}

/// Leaves the card screen after its message.
pub open spec fn spec_card_exit(m: LcdModel) -> (LcdModel, OutputModel) {
    let d = LcdModel { state: LcdState::Default, ..m };
    spec_show(d, default_lines(d.alarm), Next::CardTimeout, spec_timeout(d))
}

/// Shows a message and waits, then leaves the card screen.
pub open spec fn spec_message(m: LcdModel, line1: Seq<char>, line2: Option<Seq<char>>) -> (LcdModel, OutputModel) {
    (LcdModel { phase: LcdPhase::Showing(Next::CardExit), pending: None, ..m },
     OutputModel::ShowAndWait { line1: line1, line2: line2 })
}

/// The name a badge added from the panel gets.
pub open spec fn panel_badge_name(uid: Seq<char>) -> Seq<char> {
    "Card "@ + uid
}

/// Why the registry refuses to add a badge (see `registry_accepts`): an
/// empty UID or name, a UID already taken, or no row id left.
pub open spec fn add_refusal(reg: BadgeManager, uid: Seq<char>, name: Seq<char>) -> BadgeError {
    if uid.len() == 0 {
        BadgeError::EmptyUid
    } else if name.len() == 0 {
        BadgeError::EmptyName
    } else if reg@.contains_key(uid) {
        BadgeError::DuplicateUid
    } else {
        BadgeError::IdsExhausted
    }
}

/// Handles the scanned badge on a card screen: the new panel state, the
/// output, and the registry afterwards.
pub open spec fn spec_card_check(m: LcdModel, reg: BadgeManager) -> (LcdModel, OutputModel, Map<Seq<char>, BadgeRecord>) {
    match m.scanned {
        None => {
            let (n, o) = spec_timeout(m);
            (n, o, reg@)
        },
        Some(uid) => {
            let valid = badge_accepted(reg@, uid, m.instant);
            if m.state == LcdState::AddCard {
                if valid {
                    let (n, o) = spec_message(m, "Card already"@, Some("exists"@));
                    (n, o, reg@)
                } else if registry_accepts(reg, uid, panel_badge_name(uid)) {
                    let (n, o) = spec_message(m, "Card added"@, None);
                    (n, o, reg@.insert(uid, fresh_record(reg.next_id(), uid, panel_badge_name(uid), m.instant, None)))
                } else {
                    (LcdModel { phase: LcdPhase::Idle, ..m },
                     OutputModel::Failed(add_refusal(reg, uid, panel_badge_name(uid))), reg@)
                }
            } else {
                if valid {
                    let (n, o) = spec_message(m, "Card removed"@, None);
                    (n, o, reg@.remove(uid))
                } else {
                    let (n, o) = spec_message(m, "Card not found"@, None);
                    (n, o, reg@)
                }
            }
        },
    }
}

/// Goes on with `k` after a drawing (registry untouched unless `k` is a
/// card check).
pub open spec fn spec_continue(m: LcdModel, k: Next, reg: BadgeManager) -> (LcdModel, OutputModel, Map<Seq<char>, BadgeRecord>) {
    match k {
        Next::DefaultButton => (LcdModel { phase: LcdPhase::AwaitButton, ..m }, OutputModel::ReadButton, reg@),
        Next::MenuButton => (LcdModel { phase: LcdPhase::AwaitButton, ..m }, OutputModel::ReadButton, reg@),
        Next::MenuTimeout => { let (n, o) = spec_timeout(m); (n, o, reg@) },
        Next::CardTimeout => { let (n, o) = spec_timeout(m); (n, o, reg@) },
        Next::CardExit => { let (n, o) = spec_card_exit(m); (n, o, reg@) },
        Next::CardCheck => spec_card_check(m, reg),
        Next::Finish => { let (n, o) = spec_finish(m); (n, o, reg@) },
    }
}

/// The entry the knob selects: its level scaled to the number of entries.
pub open spec fn knob_selection(level: u16, entries: int) -> int {
    (level as int * entries) / (ROTARY_FULL_SCALE as int)
}

/// One step of the panel's dialogue: the new state, the output, and the
/// badge registry afterwards.
pub open spec fn lcd_step(m: LcdModel, input: InputModel, reg: BadgeManager) -> (LcdModel, OutputModel, Map<Seq<char>, BadgeRecord>) {
    match input {
        InputModel::Start { now_ms, instant, alarm, last_rfid } => {
            let m = LcdModel { now_ms: now_ms, instant: instant, alarm: alarm, scanned: last_rfid, pending: None, ..m };
            match m.state {
                LcdState::Default => {
                    let (n, o) = spec_show(m, default_lines(alarm), Next::DefaultButton,
                        (LcdModel { phase: LcdPhase::AwaitButton, ..m }, OutputModel::ReadButton));
                    (n, o, reg@)
                },
                LcdState::Menu => {
                    let (n, o) = spec_show(m, menu_lines(m.selected), Next::MenuButton,
                        (LcdModel { phase: LcdPhase::AwaitButton, ..m }, OutputModel::ReadButton));
                    (n, o, reg@)
                },
                _ => if m.text == (Some(card_lines(m.state).0), Some(card_lines(m.state).1)) {
                    spec_card_check(m, reg)
                } else {
                    (LcdModel { phase: LcdPhase::Showing(Next::CardCheck), pending: Some(card_lines(m.state)), ..m },
                     OutputModel::Show { line1: card_lines(m.state).0, line2: Some(card_lines(m.state).1) }, reg@)
                },
            }
        },
        InputModel::Shown { now_ms } => match m.phase {
            LcdPhase::Showing(k) => {
                let m = LcdModel {
                    now_ms: now_ms,
                    text: match m.pending { Some(l) => (Some(l.0), Some(l.1)), None => m.text },
                    pending: None,
                    ..m
                };
                spec_continue(m, k, reg)
            },
            _ => { let (n, o) = spec_finish(m); (n, o, reg@) },
        },
        InputModel::Button { now_ms, level } => match m.phase {
            LcdPhase::AwaitButton => {
                let pressed = level > BUTTON_THRESHOLD;
                let edge = pressed && !m.button_was_pressed;
                let m = LcdModel { now_ms: now_ms, button_was_pressed: pressed, ..m };
                if m.state == LcdState::Default {
                    if edge {
                        let e = LcdModel { state: LcdState::Menu, selected: 0, last_activity: now_ms, ..m };
                        let (n, o) = spec_show(e, menu_lines(0), Next::Finish, spec_finish(e));
                        (n, o, reg@)
                    } else {
                        let (n, o) = spec_finish(m);
                        (n, o, reg@)
                    }
                } else if edge {
                    let c = LcdModel {
                        state: if m.selected == 0 { LcdState::AddCard } else { LcdState::RemoveCard },
                        last_activity: now_ms,
                        ..m
                    };
                    let (n, o) = spec_show(c, card_lines(c.state), Next::MenuTimeout, spec_timeout(c));
                    (n, o, reg@)
                } else {
                    (LcdModel { phase: LcdPhase::AwaitRotary, ..m }, OutputModel::ReadRotary, reg@)
                }
            },
            _ => { let (n, o) = spec_finish(m); (n, o, reg@) },
        },
        InputModel::Rotary { now_ms, level } => match m.phase {
            LcdPhase::AwaitRotary => {
                let m = LcdModel { now_ms: now_ms, ..m };
                let sel = knob_selection(level, 2);
                if sel != m.selected {
                    let c = LcdModel { selected: if sel < 1 { sel } else { 1 }, last_activity: now_ms, ..m };
                    let (n, o) = spec_show(c, menu_lines(c.selected), Next::MenuTimeout, spec_timeout(c));
                    (n, o, reg@)
                } else {
                    let (n, o) = spec_timeout(m);
                    (n, o, reg@)
                }
            },
            _ => { let (n, o) = spec_finish(m); (n, o, reg@) },
        },
    }
}

/// The front panel.
pub struct LcdController {
    state: LcdState,
    menu_options: Vec<MenuOption>,
    selected_option: usize,
    last_activity: u64,
    text_line1: Option<String>,
    text_line2: Option<String>,
    button_was_pressed: bool,
    phase: LcdPhase,
    pending: Option<(String, String)>,
    alarm: SecurityState,
    scanned: Option<String>,
    now_ms: u64,
    instant: i128,
}

impl View for LcdController {
    type V = LcdModel;

    closed spec fn view(&self) -> LcdModel {
        LcdModel {
            state: self.state,
            options: self.menu_options@,
            selected: self.selected_option as int,
            last_activity: self.last_activity,
            text: (opt_view(self.text_line1), opt_view(self.text_line2)),
            button_was_pressed: self.button_was_pressed,
            phase: self.phase,
            pending: match self.pending { Some(p) => Some((p.0@, p.1@)), None => None },
            alarm: self.alarm,
            scanned: opt_view(self.scanned),
            now_ms: self.now_ms,
            instant: self.instant,
        }
    }
}

fn same_text(cached: &Option<String>, line: &String) -> (r: bool)
    ensures
        r == (opt_view(*cached) == Some(line@)),
{
    match cached {
        Some(t) => str_equal(t.as_str(), line.as_str()),
        None => false,
    }
}

impl LcdController {
    /// The panel invariant: the menu holds its two entries, one of which is
    /// selected.
    pub closed spec fn wf(&self) -> bool {
        &&& self.menu_options@ == seq![MenuOption::AddCard, MenuOption::RemoveCard]
        &&& self.selected_option < 2
    }

    /// A panel out of the menu, with nothing drawn yet, at instant `now_ms`.
    pub fn new(now_ms: u64) -> (r: LcdController)
        ensures
            r.wf(),
            r@.state == LcdState::Default,
            r@.options == seq![MenuOption::AddCard, MenuOption::RemoveCard],
            r@.selected == 0,
            r@.last_activity == now_ms,
            r@.text == (None::<Seq<char>>, None::<Seq<char>>),
            !r@.button_was_pressed,
            r@.phase == LcdPhase::Idle,
    {
        let mut menu_options: Vec<MenuOption> = Vec::new();
        menu_options.push(MenuOption::AddCard);
        menu_options.push(MenuOption::RemoveCard);
        let r = LcdController {
            state: LcdState::Default,
            menu_options: menu_options,
            selected_option: 0,
            last_activity: now_ms,
            text_line1: None,
            text_line2: None,
            button_was_pressed: false,
            phase: LcdPhase::Idle,
            pending: None,
            alarm: SecurityState::Disarmed,
            scanned: None,
            now_ms: now_ms,
            instant: 0,
        };
        assert(r.menu_options@ =~= seq![MenuOption::AddCard, MenuOption::RemoveCard]);
        r
    }

    /// The screen the panel is on.
    pub fn lcd_state(&self) -> (r: LcdState)
        ensures
            r == self@.state,
    {
        self.state
    }

    fn finish(&mut self) -> (o: LcdOutput)
        ensures
            (final(self)@, o@) == spec_finish(old(self)@),
            final(self).menu_options == old(self).menu_options,
            final(self).selected_option == old(self).selected_option,
    {
        self.phase = LcdPhase::Idle;
        LcdOutput::Done
    }

    fn default_screen(&self) -> (r: (String, String))
        ensures
            (r.0@, r.1@) == default_lines(self.alarm),
    {
        let l1 = match self.alarm {
            SecurityState::Disarmed => String::from_str("Disarmed"),
            SecurityState::Armed => String::from_str("Armed"),
            SecurityState::Triggered => String::from_str("Triggered"),
        };
        let l2 = match self.alarm {
            SecurityState::Disarmed => String::from_str("Use btn for menu"),
            _ => String::from_str("Scan to disarm"),
        };
        (l1, l2)
    }

    fn menu_screen(&self) -> (r: (String, String))
        requires
            self.wf(),
        ensures
            (r.0@, r.1@) == menu_lines(self.selected_option as int),
    {
        let l2 = String::from_str(self.menu_options[self.selected_option].as_str());
        (String::from_str("Menu:"), l2)
    }

    fn card_screen(&self) -> (r: (String, String))
        ensures
            (r.0@, r.1@) == card_lines(self.state),
    {
        let l1 = if self.state == LcdState::AddCard {
            String::from_str("Add Card")
        } else {
            String::from_str("Remove Card")
        };
        (l1, String::from_str("Scan RFID card"))
    }

    /// Asks for the lines to be drawn unless they are on display already.
    fn show(&mut self, lines: (String, String), k: Next) -> (o: Option<LcdOutput>)
        ensures
            o is None <==> old(self)@.text == (Some(lines.0@), Some(lines.1@)),
            o is None ==> *final(self) == *old(self),
            o matches Some(out) ==> (final(self)@, out@) == (LcdModel {
                phase: LcdPhase::Showing(k), pending: Some((lines.0@, lines.1@)), ..old(self)@ },
                OutputModel::Show { line1: lines.0@, line2: Some(lines.1@) }),
            final(self).menu_options == old(self).menu_options,
            final(self).selected_option == old(self).selected_option,
    {
        let (l1, l2) = lines;
        if same_text(&self.text_line1, &l1) && same_text(&self.text_line2, &l2) {
            None
        } else {
            self.phase = LcdPhase::Showing(k);
            self.pending = Some((l1.clone(), l2.clone()));
            Some(LcdOutput::Show { line1: l1, line2: Some(l2) })
        }
    }

    fn timeout(&mut self) -> (o: LcdOutput)
        ensures
            (final(self)@, o@) == spec_timeout(old(self)@),
            final(self).menu_options == old(self).menu_options,
            final(self).selected_option == old(self).selected_option,
    {
        if self.now_ms >= self.last_activity && self.now_ms - self.last_activity > MENU_TIMEOUT_MS {
            self.state = LcdState::Default;
            let lines = self.default_screen();
            match self.show(lines, Next::Finish) {
                Some(o) => o,
                None => self.finish(),
            }
        } else {
            self.finish()
        }
    }

    fn card_exit(&mut self) -> (o: LcdOutput)
        ensures
            (final(self)@, o@) == spec_card_exit(old(self)@),
            final(self).menu_options == old(self).menu_options,
            final(self).selected_option == old(self).selected_option,
    {
        self.state = LcdState::Default;
        let lines = self.default_screen();
        match self.show(lines, Next::CardTimeout) {
            Some(o) => o,
            None => self.timeout(),
        }
    }

    fn message(&mut self, line1: &str, line2: Option<&str>) -> (o: LcdOutput)
        ensures
            (final(self)@, o@) == spec_message(old(self)@, line1@, match line2 { Some(t) => Some(t@), None => None }),
            final(self).menu_options == old(self).menu_options,
            final(self).selected_option == old(self).selected_option,
    {
        self.phase = LcdPhase::Showing(Next::CardExit);
        self.pending = None;
        let l2 = match line2 {
            Some(t) => Some(String::from_str(t)),
            None => None,
        };
        LcdOutput::ShowAndWait { line1: String::from_str(line1), line2: l2 }
    }

    fn card_check(&mut self, reg: &mut BadgeManager) -> (o: LcdOutput)
        requires
            old(reg).wf(),
        ensures
            final(reg).wf(),
            (final(self)@, o@, final(reg)@) == spec_card_check(old(self)@, *old(reg)),
            final(self).menu_options == old(self).menu_options,
            final(self).selected_option == old(self).selected_option,
    {
        let scanned = self.scanned.clone();
        match scanned {
            None => self.timeout(),
            Some(uid) => {
                let valid = reg.is_valid_badge_at(uid.as_str(), self.instant);
                if self.state == LcdState::AddCard {
                    if valid {
                        self.message("Card already", Some("exists"))
                    } else {
                        let name = String::from_str("Card ").concat(uid.as_str());
                        match reg.add_badge_at(uid.as_str(), name.as_str(), None, self.instant) {
                            Ok(_) => self.message("Card added", None),
                            Err(e) => {
                                self.phase = LcdPhase::Idle;
                                LcdOutput::Failed(e)
                            },
                        }
                    }
                } else {
                    if valid {
                        let _ = reg.remove_badge(uid.as_str());
                        self.message("Card removed", None)
                    } else {
                        self.message("Card not found", None)
                    }
                }
            },
        }
    }

    fn continue_with(&mut self, k: Next, reg: &mut BadgeManager) -> (o: LcdOutput)
        requires
            old(reg).wf(),
        ensures
            final(reg).wf(),
            (final(self)@, o@, final(reg)@) == spec_continue(old(self)@, k, *old(reg)),
            final(self).menu_options == old(self).menu_options,
            final(self).selected_option == old(self).selected_option,
    {
        match k {
            Next::DefaultButton => { self.phase = LcdPhase::AwaitButton; LcdOutput::ReadButton },
            Next::MenuButton => { self.phase = LcdPhase::AwaitButton; LcdOutput::ReadButton },
            Next::MenuTimeout => self.timeout(),
            Next::CardTimeout => self.timeout(),
            Next::CardExit => self.card_exit(),
            Next::CardCheck => self.card_check(reg),
            Next::Finish => self.finish(),
        }
    }

    /// One step of the panel's dialogue with its caller.
    pub fn step(&mut self, input: LcdInput, reg: &mut BadgeManager) -> (o: LcdOutput)
        requires
            old(self).wf(),
            old(reg).wf(),
        ensures
            final(self).wf(),
            final(reg).wf(),
            (final(self)@, o@, final(reg)@) == lcd_step(old(self)@, input@, *old(reg)),
            final(self)@.options == seq![MenuOption::AddCard, MenuOption::RemoveCard],
            0 <= final(self)@.selected < final(self)@.options.len(),
    {
        match input {
            LcdInput::Start { now_ms, instant, alarm, last_rfid } => {
                self.now_ms = now_ms;
                self.instant = instant;
                self.alarm = alarm;
                self.scanned = last_rfid;
                self.pending = None;
                match self.state {
                    LcdState::Default => {
                        let lines = self.default_screen();
                        match self.show(lines, Next::DefaultButton) {
                            Some(o) => o,
                            None => { self.phase = LcdPhase::AwaitButton; LcdOutput::ReadButton },
                        }
                    },
                    LcdState::Menu => {
                        let lines = self.menu_screen();
                        match self.show(lines, Next::MenuButton) {
                            Some(o) => o,
                            None => { self.phase = LcdPhase::AwaitButton; LcdOutput::ReadButton },
                        }
                    },
                    _ => {
                        let lines = self.card_screen();
                        match self.show(lines, Next::CardCheck) {
                            Some(o) => o,
                            None => self.card_check(reg),
                        }
                    },
                }
            },
            LcdInput::Shown { now_ms } => {
                match self.phase {
                    LcdPhase::Showing(k) => {
                        self.now_ms = now_ms;
                        match self.pending.take() {
                            Some((l1, l2)) => {
                                self.text_line1 = Some(l1);
                                self.text_line2 = Some(l2);
                            },
                            None => {},
                        }
                        self.continue_with(k, reg)
                    },
                    _ => self.finish(),
                }
            },
            LcdInput::Button { now_ms, level } => {
                match self.phase {
                    LcdPhase::AwaitButton => {
                        let pressed = level > BUTTON_THRESHOLD;
                        let edge = pressed && !self.button_was_pressed;
                        self.now_ms = now_ms;
                        self.button_was_pressed = pressed;
                        if self.state == LcdState::Default {
                            if edge {
                                self.state = LcdState::Menu;
                                self.selected_option = 0;
                                self.last_activity = now_ms;
                                let lines = self.menu_screen();
                                match self.show(lines, Next::Finish) {
                                    Some(o) => o,
                                    None => self.finish(),
                                }
                            } else {
                                self.finish()
                            }
                        } else if edge {
                            self.state = match self.menu_options[self.selected_option] {
                                MenuOption::AddCard => LcdState::AddCard,
                                MenuOption::RemoveCard => LcdState::RemoveCard,
                            };
                            self.last_activity = now_ms;
                            let lines = self.card_screen();
                            match self.show(lines, Next::MenuTimeout) {
                                Some(o) => o,
                                None => self.timeout(),
                            }
                        } else {
                            self.phase = LcdPhase::AwaitRotary;
                            LcdOutput::ReadRotary
                        }
                    },
                    _ => self.finish(),
                }
            },
            LcdInput::Rotary { now_ms, level } => {
                match self.phase {
                    LcdPhase::AwaitRotary => {
                        self.now_ms = now_ms;
                        let entries = self.menu_options.len() as u64;
                        let new_selection = ((level as u64 * entries) / ROTARY_FULL_SCALE) as usize;
                        if new_selection != self.selected_option {
                            self.selected_option = if new_selection < self.menu_options.len() - 1 {
                                new_selection
                            } else {
                                self.menu_options.len() - 1
                            };
                            self.last_activity = now_ms;
                            let lines = self.menu_screen();
                            match self.show(lines, Next::MenuTimeout) {
                                Some(o) => o,
                                None => self.timeout(),
                            }
                        } else {
                            self.timeout()
                        }
                    },
                    _ => self.finish(),
                }
            },
        }
    }
}

} // verus!
