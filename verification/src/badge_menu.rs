//! The badge tab of the terminal interface: listing badges, adding the next
//! scanned badge with a name and an optional validity in days, removing a
//! badge by selection or by scan, and toggling a badge on or off.

use vstd::prelude::*;
use crate::keys::Key;
use crate::badges::{Badge, BadgeError, BadgeManager, BadgeRecord, views, is_listing, registry_accepts, fresh_record};
use crate::controller::{AlarmController, ControllerState, badge_accepted};
use crate::datetime::{add_days_to_instant, shifted_instant, MAX_DELTA_DAYS};
use crate::text::{push_char, pop_char, str_equal, opt_view, parse_i64, parsed_i64};

verus! {

/// Longest badge name, in bytes, that the name field accepts.
pub const MAX_NAME_BYTES: usize = 30;
/// Most digits the validity field accepts.
pub const MAX_EXPIRY_DIGITS: usize = 4;

/// The sub-screen of the badge tab.
#[derive(Debug, Clone, Copy, PartialEq, Eq, Structural)]
pub enum BadgeTab {
    ListBadges,
    AddBadge,
    RemoveBadge,
}

/// The form filled in for a scanned badge.
#[derive(Debug)]
pub struct BadgeField {
    pub uid: String,
    pub name: String,
    pub expiry_days: String,
    /// 0: the name field, 1: the validity field.
    pub selected_field: usize,
}

/// The mathematical content of the form.
pub struct FieldModel {
    pub uid: Seq<char>,
    pub name: Seq<char>,
    pub expiry_days: Seq<char>,
    pub selected_field: usize,
}

impl View for BadgeField {
    type V = FieldModel;

    open spec fn view(&self) -> FieldModel {
        FieldModel {
            uid: self.uid@,
            name: self.name@,
            expiry_days: self.expiry_days@,
            selected_field: self.selected_field,
        }
    }
}

impl BadgeField {
    /// A copy of the form.
    pub fn duplicate(&self) -> (r: BadgeField)
        ensures
            r@ == self@,
    {
        BadgeField {
            uid: self.uid.clone(),
            name: self.name.clone(),
            expiry_days: self.expiry_days.clone(),
            selected_field: self.selected_field,
        }
    }
}

/// The form's content, if a form is open.
pub open spec fn field_view(f: Option<BadgeField>) -> Option<FieldModel> {
    match f {
        Some(g) => Some(g@),
        None => None,
    }
}

/// The state of the badge tab.
pub struct BadgeMenu {
    pub badge_tab: BadgeTab,
    pub selected_item: usize,
    pub max_items: usize,
    pub last_badge_uid: Option<String>,
    pub message: Option<String>,
    pub badges_list: Vec<Badge>,
    pub badge_field: Option<BadgeField>,
}

/// The list shows the registry, and the number of selectable rows is its
/// length, at least one.
pub open spec fn shows_registry(m: BadgeMenu, reg: Map<Seq<char>, BadgeRecord>) -> bool {
    &&& is_listing(views(m.badges_list@), reg)
    &&& m.max_items == (if m.badges_list@.len() >= 1 { m.badges_list@.len() } else { 1 })
}

/// `new` is `old` with the list reloaded from `reg`.
pub open spec fn reloaded(old: BadgeMenu, new: BadgeMenu, reg: Map<Seq<char>, BadgeRecord>) -> bool {
    shows_registry(new, reg) && new == BadgeMenu { badges_list: new.badges_list, max_items: new.max_items, ..old }
}

/// Only the registry of the controller changed, to `badges`.
pub open spec fn only_badges_changed(old: ControllerState, new: ControllerState, badges: Map<Seq<char>, BadgeRecord>) -> bool {
    new.state == old.state && new.last_events == old.last_events && new.last_rfid == old.last_rfid
        && new.last_rfid_time == old.last_rfid_time && new.badges == badges
}

/// The name a scanned badge is first given: `Badge ` and the first four
/// characters of its UID.
pub open spec fn default_badge_name(uid: Seq<char>) -> Seq<char> {
    "Badge "@ + uid.take(if uid.len() < 4 { uid.len() as int } else { 4 })
}

/// The validity field can be turned into a time span without overflow.
pub open spec fn expiry_in_range(days: Seq<char>) -> bool {
    parsed_i64(days) matches Some(d) ==> -MAX_DELTA_DAYS <= d <= MAX_DELTA_DAYS
}

/// The expiry of a badge confirmed at `now`: none for an empty or unreadable
/// validity field, else `now` plus that many days.
pub open spec fn confirmed_expiry(days: Seq<char>, now: i128) -> Option<i128> {
    if days.len() == 0 {
        None
    } else {
        match parsed_i64(days) {
            Some(d) => match shifted_instant(now as int, d) { Some(v) => Some(v as i128), None => None },
            None => None,
        }
    }
}

/// The number of bytes of a text in UTF-8, as `str::len` reports it.
pub open spec fn byte_len(s: Seq<char>) -> usize {
    vstd::utf8::encode_utf8(s).len() as usize
}

/// `new` is `old` with the form closed, back on the list, no message, and
/// the list reloaded from `reg`.
pub open spec fn form_closed(old: BadgeMenu, new: BadgeMenu, reg: Map<Seq<char>, BadgeRecord>) -> bool {
    &&& new.badge_field is None
    &&& new.badge_tab == BadgeTab::ListBadges
    &&& new.message is None
    &&& reloaded(BadgeMenu { badge_field: None, badge_tab: BadgeTab::ListBadges, message: None, ..old }, new, reg)
}

/// `new` is `old` with the form's content replaced by `g`.
pub open spec fn form_edited(old: BadgeMenu, new: BadgeMenu, g: FieldModel) -> bool {
    field_view(new.badge_field) == Some(g) && new == BadgeMenu { badge_field: new.badge_field, ..old }
}

/// The effect of a key on an open form `f`: the new tab state, the registry
/// afterwards, and whether the key was handled without error.
pub open spec fn field_key_effect(old: BadgeMenu, new: BadgeMenu, key: Key, f: FieldModel,
    reg: BadgeManager, reg2: Map<Seq<char>, BadgeRecord>, now: i128, ok: bool) -> bool {
    let unchanged = ok && reg2 == reg@ && new == old;
    match key {
        Key::Enter => if registry_accepts(reg, f.uid, f.name) {
            let reg_new = reg@.insert(f.uid, fresh_record(reg.next_id(), f.uid, f.name, now, confirmed_expiry(f.expiry_days, now)));
            ok && reg2 == reg_new && form_closed(old, new, reg_new)
        } else {
            !ok && reg2 == reg@ && new == old
        },
        Key::Esc => ok && reg2 == reg@ && form_closed(old, new, reg@),
        _ => match edited_form(f, key) {
            Some(g) => form_edited(old, new, g) && ok && reg2 == reg@,
            None => unchanged,
        },
    }
}

/// The form after an editing key: the arrows move between the two fields,
/// Backspace deletes the last character of the current field, and a
/// character is appended to the name while it is shorter than 30 bytes, or to
/// the validity if it is a digit and the validity has fewer than 4 digits.
/// `None` for keys that do not edit.
pub open spec fn edited_form(f: FieldModel, key: Key) -> Option<FieldModel> {
    match key {
        Key::Down => if f.selected_field < 1 {
            Some(FieldModel { selected_field: (f.selected_field + 1) as usize, ..f })
        } else {
            None
        },
        Key::Up => if f.selected_field > 0 {
            Some(FieldModel { selected_field: (f.selected_field - 1) as usize, ..f })
        } else {
            None
        },
        Key::Backspace => if f.selected_field == 0 {
            Some(FieldModel { name: if f.name.len() > 0 { f.name.drop_last() } else { f.name }, ..f })
        } else if f.selected_field == 1 {
            Some(FieldModel { expiry_days: if f.expiry_days.len() > 0 { f.expiry_days.drop_last() } else { f.expiry_days }, ..f })
        } else {
            None
        },
        Key::Char(c) => if f.selected_field == 0 && byte_len(f.name) < MAX_NAME_BYTES {
            Some(FieldModel { name: f.name.push(c), ..f })
        } else if f.selected_field == 1 && '0' <= c <= '9' && byte_len(f.expiry_days) < MAX_EXPIRY_DIGITS {
            Some(FieldModel { expiry_days: f.expiry_days.push(c), ..f })
        } else {
            None
        },
        _ => None,
    }
}

/// The form after an editing key, or `None` for keys that do not edit.
pub fn edit_form(f: &BadgeField, key: Key) -> (r: Option<BadgeField>)
    ensures
        field_view(r) == edited_form(f@, key),
{
    match key {
        Key::Down => {
            if f.selected_field < 1 {
                let mut g = f.duplicate();
                g.selected_field = g.selected_field + 1;
                Some(g)
            } else {
                None
            }
        },
        Key::Up => {
            if f.selected_field > 0 {
                let mut g = f.duplicate();
                g.selected_field = g.selected_field - 1;
                Some(g)
            } else {
                None
            }
        },
        Key::Backspace => {
            if f.selected_field == 0 {
                let mut g = f.duplicate();
                let _ = pop_char(&mut g.name);
                Some(g)
            } else if f.selected_field == 1 {
                let mut g = f.duplicate();
                let _ = pop_char(&mut g.expiry_days);
                Some(g)
            } else {
                None
            }
        },
        Key::Char(c) => {
            if f.selected_field == 0 && f.name.as_str().len() < MAX_NAME_BYTES {
                let mut g = f.duplicate();
                push_char(&mut g.name, c);
                Some(g)
            } else if f.selected_field == 1 && '0' <= c && c <= '9'
                && f.expiry_days.as_str().len() < MAX_EXPIRY_DIGITS {
                let mut g = f.duplicate();
                push_char(&mut g.expiry_days, c);
                Some(g)
            } else {
                None
            }
        },
        _ => None,
    }
}

/// The expiry for the validity field of a form confirmed at `now`.
pub fn expiry_of_form(f: &BadgeField, now: i128) -> (r: Option<i128>)
    requires
        expiry_in_range(f.expiry_days@),
    ensures
        r == confirmed_expiry(f.expiry_days@, now),
{
    if f.expiry_days.as_str().is_empty() {
        None
    } else {
        match parse_i64(f.expiry_days.as_str()) {
            Some(d) => add_days_to_instant(now, d),
            None => None,
        }
    }
}

/// The effect of a key on the list screen.
pub open spec fn list_key_effect(old: BadgeMenu, new: BadgeMenu, key: Key,
    reg: Map<Seq<char>, BadgeRecord>, reg2: Map<Seq<char>, BadgeRecord>, now: i128, ok: bool) -> bool {
    let unchanged = ok && reg2 == reg && new == old;
    let sel = old.selected_item as int;
    let has_row = sel < old.badges_list@.len();
    let uid = old.badges_list@[sel].uid@;
    match key {
        Key::Up => ok && reg2 == reg
            && new == BadgeMenu { selected_item: if sel > 0 { (sel - 1) as usize } else { old.selected_item }, ..old },
        Key::Down => ok && reg2 == reg
            && new == BadgeMenu {
                selected_item: if sel < old.max_items as int - 1 { (sel + 1) as usize } else { old.selected_item },
                ..old
            },
        Key::Char(c) => if c == 'a' || c == 'A' {
            ok && reg2 == reg && new.badge_tab == BadgeTab::AddBadge
                && opt_view(new.message) == Some("Place badge near scanner..."@)
                && new == BadgeMenu { badge_tab: BadgeTab::AddBadge, message: new.message, ..old }
        } else if c == 'r' || c == 'R' {
            ok && reg2 == reg && new.badge_tab == BadgeTab::RemoveBadge
                && opt_view(new.message) == Some("Place badge near scanner to remove..."@)
                && new == BadgeMenu { badge_tab: BadgeTab::RemoveBadge, message: new.message, ..old }
        } else if c == 'd' || c == 'D' {
            if !has_row {
                unchanged
            } else if reg.contains_key(uid) {
                ok && reg2 == reg.remove(uid) && shows_registry(new, reg2)
                    && new == BadgeMenu {
                        badges_list: new.badges_list,
                        max_items: new.max_items,
                        selected_item: if old.selected_item >= new.max_items { (new.max_items - 1) as usize } else { old.selected_item },
                        ..old
                    }
            } else {
                !ok && reg2 == reg && new == old
            }
        } else if c == 'e' || c == 'E' {
            if !has_row {
                unchanged
            } else if reg.contains_key(uid) {
                let reg_new = reg.insert(uid, BadgeRecord { enabled: !reg[uid].enabled, ..reg[uid] });
                ok && reg2 == reg_new && reloaded(old, new, reg_new)
            } else {
                !ok && reg2 == reg && new == old
            }
        } else {
            unchanged
        },
        _ => unchanged,
    }
}

/// The effect of a key on the add screen while no badge has been scanned.
pub open spec fn add_key_effect(old: BadgeMenu, new: BadgeMenu, key: Key, reg: Map<Seq<char>, BadgeRecord>) -> bool {
    if key == Key::Esc {
        reloaded(BadgeMenu { badge_tab: BadgeTab::ListBadges, badge_field: None, message: None, ..old }, new, reg)
    } else {
        new == old
    }
}

/// The effect of a key on the remove-by-scan screen.
pub open spec fn remove_key_effect(old: BadgeMenu, new: BadgeMenu, key: Key, reg: Map<Seq<char>, BadgeRecord>) -> bool {
    if key == Key::Esc {
        reloaded(BadgeMenu { badge_tab: BadgeTab::ListBadges, last_badge_uid: None, message: None, ..old }, new, reg)
    } else {
        new == old
    }
}

/// What a poll does on the add screen: a newly scanned UID opens the form.
pub open spec fn add_scan_effect(old: BadgeMenu, new: BadgeMenu, scanned: Option<Seq<char>>) -> bool {
    match scanned {
        Some(u) => if opt_view(old.last_badge_uid) != Some(u) {
            &&& opt_view(new.last_badge_uid) == Some(u)
            &&& field_view(new.badge_field) == Some(FieldModel {
                uid: u,
                name: default_badge_name(u),
                expiry_days: Seq::empty(),
                selected_field: 0,
            })
            &&& new.message is None
            &&& new == BadgeMenu { last_badge_uid: new.last_badge_uid, badge_field: new.badge_field, message: None, ..old }
        } else {
            new == old
        },
        None => new == old,
    }
}

/// What a poll does on the remove screen: a newly scanned UID is removed
/// from the registry, and a message tells whether it was there.
pub open spec fn remove_scan_effect(old: BadgeMenu, new: BadgeMenu, scanned: Option<Seq<char>>,
    reg: Map<Seq<char>, BadgeRecord>, reg2: Map<Seq<char>, BadgeRecord>) -> bool {
    match scanned {
        Some(u) => if opt_view(old.last_badge_uid) != Some(u) {
            &&& opt_view(new.last_badge_uid) == Some(u)
            &&& new == BadgeMenu { last_badge_uid: new.last_badge_uid, message: new.message, ..old }
            &&& if reg.contains_key(u) {
                reg2 == reg.remove(u) && opt_view(new.message) == Some("Badge removed: "@ + reg[u].name)
            } else {
                reg2 == reg && opt_view(new.message) == Some("Badge not found in database"@)
            }
        } else {
            new == old && reg2 == reg
        },
        None => new == old && reg2 == reg,
    }
}

impl BadgeMenu {
    /// The badge tab on its list screen, with nothing loaded yet.
    pub fn new() -> (r: BadgeMenu)
        ensures
            r.badge_tab == BadgeTab::ListBadges,
            r.selected_item == 0,
            r.max_items == 0,
            r.last_badge_uid is None,
            r.message is None,
            r.badges_list@.len() == 0,
            r.badge_field is None,
    {
        BadgeMenu {
            badge_tab: BadgeTab::ListBadges,
            selected_item: 0,
            max_items: 0,
            last_badge_uid: None,
            message: None,
            badges_list: Vec::new(),
            badge_field: None,
        }
    }

    fn load_badges_with_status(&mut self, controller: &AlarmController) -> (r: Result<(), BadgeError>)
        requires
            controller.wf(),
        ensures
            r is Ok,
            reloaded(*old(self), *final(self), controller@.badges),
    {
        let list = controller.badge_manager().get_all_badges()?;
        self.max_items = if list.len() >= 1 { list.len() } else { 1 };
        self.badges_list = list;
        Ok(())
    }

    fn check_add_badge_scan(&mut self, controller: &AlarmController)
        ensures
            add_scan_effect(*old(self), *final(self), controller@.last_rfid),
    {
        match controller.get_last_rfid() {
            Some(scanned) => {
                let differs = match &self.last_badge_uid {
                    Some(l) => !str_equal(l.as_str(), scanned),
                    None => true,
                };
                if differs {
                    self.last_badge_uid = Some(String::from_str(scanned));
                    let n = scanned.unicode_len();
                    let k = if n < 4 { n } else { 4 };
                    let prefix = scanned.substring_char(0, k);
                    let name = String::from_str("Badge ").concat(prefix);
                    proof {
                        assert(name@ == default_badge_name(scanned@));
                    }
                    self.badge_field = Some(BadgeField {
                        uid: String::from_str(scanned),
                        name: name,
                        expiry_days: String::new(),
                        selected_field: 0,
                    });
                    self.message = None;
                }
            },
            None => {},
        }
    }

    fn check_remove_badge_scan(&mut self, controller: &mut AlarmController) -> (r: Result<(), BadgeError>)
        requires
            old(controller).wf(),
        ensures
            final(controller).wf(),
            r is Ok,
            remove_scan_effect(*old(self), *final(self), old(controller)@.last_rfid,
                old(controller)@.badges, final(controller)@.badges),
            only_badges_changed(old(controller)@, final(controller)@, final(controller)@.badges),
    {
        let scanned = match controller.get_last_rfid() {
            Some(s) => Some(String::from_str(s)),
            None => None,
        };
        match scanned {
            Some(u) => {
                let differs = match &self.last_badge_uid {
                    Some(l) => !str_equal(l.as_str(), u.as_str()),
                    None => true,
                };
                if differs {
                    self.last_badge_uid = Some(u.clone());
                    let found = controller.badge_manager().get_badge(u.as_str());
                    match found {
                        Ok(Some(badge)) => {
                            controller.badge_manager_mut().remove_badge(u.as_str())?;
                            self.message = Some(String::from_str("Badge removed: ").concat(badge.name.as_str()));
                        },
                        _ => {
                            self.message = Some(String::from_str("Badge not found in database"));
                        },
                    }
                }
            },
            None => {},
        }
        Ok(())
    }

    fn handle_add_badge_keys(&mut self, key: Key, controller: &AlarmController) -> (r: Result<(), BadgeError>)
        requires
            controller.wf(),
        ensures
            r is Ok,
            add_key_effect(*old(self), *final(self), key, controller@.badges),
    {
        if key == Key::Esc {
            self.badge_tab = BadgeTab::ListBadges;
            self.badge_field = None;
            self.message = None;
            self.load_badges_with_status(controller)?;
        }
        Ok(())
    }

    fn handle_remove_badge_keys(&mut self, key: Key, controller: &AlarmController) -> (r: Result<(), BadgeError>)
        requires
            controller.wf(),
        ensures
            r is Ok,
            remove_key_effect(*old(self), *final(self), key, controller@.badges),
    {
        if key == Key::Esc {
            self.badge_tab = BadgeTab::ListBadges;
            self.last_badge_uid = None;
            self.message = None;
            self.load_badges_with_status(controller)?;
        }
        Ok(())
    }

    fn cancel_badge_operation(&mut self, controller: &AlarmController) -> (r: Result<(), BadgeError>)
        requires
            controller.wf(),
        ensures
            r is Ok,
            form_closed(*old(self), *final(self), controller@.badges),
    {
        self.badge_field = None;
        self.badge_tab = BadgeTab::ListBadges;
        self.message = None;
        self.load_badges_with_status(controller)
    }

    fn confirm_add_badge(&mut self, field: &BadgeField, controller: &mut AlarmController, now: i128) -> (r: Result<(), BadgeError>)
        requires
            old(controller).wf(),
            expiry_in_range(field.expiry_days@),
        ensures
            final(controller).wf(),
            only_badges_changed(old(controller)@, final(controller)@, final(controller)@.badges),
            field_key_effect(*old(self), *final(self), Key::Enter, field@, old(controller).registry(),
                final(controller)@.badges, now, r is Ok),
    {
        let expiry = expiry_of_form(field, now);
        controller.badge_manager_mut().add_badge_at(field.uid.as_str(), field.name.as_str(), expiry, now)?;
        let mut message = String::from_str("Badge added: ");
        message.append(field.name.as_str());
        message.append(" (");
        message.append(field.uid.as_str());
        message.append(")");
        self.message = Some(message);
        self.cancel_badge_operation(controller)?;
        Ok(())
    }

    fn handle_badge_field_input(&mut self, key: Key, field: &BadgeField, controller: &mut AlarmController, now: i128) -> (r: Result<(), BadgeError>)
        requires
            old(controller).wf(),
            field_view(old(self).badge_field) == Some(field@),
            expiry_in_range(field.expiry_days@),
        ensures
            final(controller).wf(),
            only_badges_changed(old(controller)@, final(controller)@, final(controller)@.badges),
            field_key_effect(*old(self), *final(self), key, field@, old(controller).registry(),
                final(controller)@.badges, now, r is Ok),
    {
        proof { old(controller).lemma_registry(); }
        match key {
            Key::Enter => {
                return self.confirm_add_badge(field, controller, now);
            },
            Key::Esc => {
                self.cancel_badge_operation(controller)?;
            },
            _ => {
                match edit_form(field, key) {
                    Some(g) => { self.badge_field = Some(g); },
                    None => {},
                }
            },
        }
        Ok(())
    }

    fn handle_list_badges(&mut self, key: Key, controller: &mut AlarmController, now: i128) -> (r: Result<(), BadgeError>)
        requires
            old(controller).wf(),
        ensures
            final(controller).wf(),
            only_badges_changed(old(controller)@, final(controller)@, final(controller)@.badges),
            list_key_effect(*old(self), *final(self), key, old(controller)@.badges,
                final(controller)@.badges, now, r is Ok),
    {
        match key {
            Key::Up => {
                if self.selected_item > 0 {
                    self.selected_item = self.selected_item - 1;
                }
            },
            Key::Down => {
                if self.selected_item < self.max_items.saturating_sub(1) {
                    self.selected_item = self.selected_item + 1;
                }
            },
            Key::Char(c) => {
                if c == 'a' || c == 'A' {
                    self.badge_tab = BadgeTab::AddBadge;
                    self.message = Some(String::from_str("Place badge near scanner..."));
                } else if c == 'r' || c == 'R' {
                    self.badge_tab = BadgeTab::RemoveBadge;
                    self.message = Some(String::from_str("Place badge near scanner to remove..."));
                } else if c == 'd' || c == 'D' {
                    if self.selected_item < self.badges_list.len() {
                        let uid = self.badges_list[self.selected_item].uid.clone();
                        controller.badge_manager_mut().remove_badge(uid.as_str())?;
                        self.load_badges_with_status(controller)?;
                        if self.selected_item >= self.max_items {
                            self.selected_item = self.max_items.saturating_sub(1);
                        }
                    }
                } else if c == 'e' || c == 'E' {
                    if self.selected_item < self.badges_list.len() {
                        let uid = self.badges_list[self.selected_item].uid.clone();
                        let enabled = match controller.badge_manager().get_badge(uid.as_str()) {
                            Ok(Some(b)) => b.enabled,
                            _ => false,
                        };
                        if enabled {
                            controller.badge_manager_mut().disable_badge(uid.as_str())?;
                        } else {
                            controller.badge_manager_mut().enable_badge(uid.as_str())?;
                        }
                        self.load_badges_with_status(controller)?;
                    }
                }
            },
            _ => {},
        }
        Ok(())
    }

    /// Back to the list screen with the first row selected, nothing scanned,
    /// no message, no form, and the list reloaded.
    pub fn reset(&mut self, controller: &AlarmController) -> (r: Result<(), BadgeError>)
        requires
            controller.wf(),
        ensures
            r is Ok,
            reloaded(BadgeMenu {
                badge_tab: BadgeTab::ListBadges,
                selected_item: 0,
                last_badge_uid: None,
                message: None,
                badge_field: None,
                ..*old(self)
            }, *final(self), controller@.badges),
    {
        self.badge_tab = BadgeTab::ListBadges;
        self.selected_item = 0;
        self.last_badge_uid = None;
        self.message = None;
        self.badge_field = None;
        self.load_badges_with_status(controller)
    }

    /// Reacts to a scan on the add or remove screen.
    pub fn poll(&mut self, controller: &mut AlarmController) -> (r: Result<(), BadgeError>)
        requires
            old(controller).wf(),
        ensures
            final(controller).wf(),
            r is Ok,
            only_badges_changed(old(controller)@, final(controller)@, final(controller)@.badges),
            match old(self).badge_tab {
                BadgeTab::AddBadge => add_scan_effect(*old(self), *final(self), old(controller)@.last_rfid)
                    && final(controller)@ == old(controller)@,
                BadgeTab::RemoveBadge => remove_scan_effect(*old(self), *final(self), old(controller)@.last_rfid,
                    old(controller)@.badges, final(controller)@.badges),
                BadgeTab::ListBadges => *final(self) == *old(self) && final(controller)@ == old(controller)@,
            },
    {
        match self.badge_tab {
            BadgeTab::AddBadge => self.check_add_badge_scan(controller),
            BadgeTab::RemoveBadge => { self.check_remove_badge_scan(controller)?; },
            _ => {},
        }
        Ok(())
    }

    /// The help line for the current screen.
    pub fn key_help(&self) -> (r: Option<String>)
        ensures
            r matches Some(t) && t@ == key_help_text(*self),
    {
        match self.badge_tab {
            BadgeTab::ListBadges => {
                let mut t = String::from_str("[A] Add  [R] Remove by Scan ");
                if self.badges_list.len() > 0 {
                    t.append(" [D] Delete Selected  [E] Toggle Selected  [↑/↓] Navigate ");
                }
                t.append(" [TAB] Switch Tab  [Q] Quit");
                proof {
                    if self.badges_list@.len() == 0 {
                        assert(t@ =~= key_help_text(*self));
                    }
                }
                Some(t)
            },
            BadgeTab::AddBadge => {
                if self.badge_field.is_some() {
                    Some(String::from_str("[↑/↓] Navigate  [ENTER] Confirm  [ESC] Cancel"))
                } else {
                    Some(String::from_str("[ESC] Back"))
                }
            },
            BadgeTab::RemoveBadge => Some(String::from_str("[ESC] Back")),
        }
    }

    /// Handles a key; the result tells whether the tab is off its list screen
    /// (and so keeps the keyboard).
    pub fn handle_key(&mut self, key: Key, controller: &mut AlarmController, now: i128) -> (r: Result<bool, BadgeError>)
        requires
            old(controller).wf(),
            old(self).badge_field matches Some(f) ==> expiry_in_range(f.expiry_days@),
        ensures
            final(controller).wf(),
            only_badges_changed(old(controller)@, final(controller)@, final(controller)@.badges),
            match field_view(old(self).badge_field) {
                Some(f) => field_key_effect(*old(self), *final(self), key, f, old(controller).registry(),
                    final(controller)@.badges, now, r is Ok) && (r matches Ok(b) ==> !b),
                None => (r matches Ok(b) ==> b == (final(self).badge_tab != BadgeTab::ListBadges)) && match old(self).badge_tab {
                    BadgeTab::ListBadges => list_key_effect(*old(self), *final(self), key, old(controller)@.badges,
                        final(controller)@.badges, now, r is Ok),
                    BadgeTab::AddBadge => r is Ok && final(controller)@ == old(controller)@
                        && add_key_effect(*old(self), *final(self), key, old(controller)@.badges),
                    BadgeTab::RemoveBadge => r is Ok && final(controller)@ == old(controller)@
                        && remove_key_effect(*old(self), *final(self), key, old(controller)@.badges),
                },
            },
    {
        let open_form = match &self.badge_field {
            Some(field) => Some(field.duplicate()),
            None => None,
        };
        if let Some(f) = open_form {
            self.handle_badge_field_input(key, &f, controller, now)?;
            return Ok(false);
        }
        match self.badge_tab {
            BadgeTab::AddBadge => { self.handle_add_badge_keys(key, controller)?; },
            BadgeTab::RemoveBadge => { self.handle_remove_badge_keys(key, controller)?; },
            BadgeTab::ListBadges => { self.handle_list_badges(key, controller, now)?; },
        }
        Ok(self.badge_tab != BadgeTab::ListBadges)
    }
}

/// The help line of the badge tab.
pub open spec fn key_help_text(m: BadgeMenu) -> Seq<char> {
    match m.badge_tab {
        BadgeTab::ListBadges => "[A] Add  [R] Remove by Scan "@
            + (if m.badges_list@.len() > 0 { " [D] Delete Selected  [E] Toggle Selected  [↑/↓] Navigate "@ } else { Seq::empty() })
            + " [TAB] Switch Tab  [Q] Quit"@,
        BadgeTab::AddBadge => if m.badge_field is Some {
            "[↑/↓] Navigate  [ENTER] Confirm  [ESC] Cancel"@
        } else {
            "[ESC] Back"@
        },
        BadgeTab::RemoveBadge => "[ESC] Back"@,
    }
}

} // verus!
