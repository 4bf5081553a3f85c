//! The two-tab terminal menu: a log tab and a badge tab whose list shows
//! each badge's UID and name with whether it currently grants access.

use vstd::prelude::*;
use crate::keys::Key;
use crate::badges::{BadgeError, BadgeManager, BadgeRecord, views, is_listing, registry_accepts, fresh_record, has_uid};
use crate::controller::{AlarmController, ControllerState, badge_accepted};
use crate::text::{str_equal, opt_view};
pub use crate::badge_menu::{BadgeTab, BadgeField, FieldModel, field_view, edited_form, edit_form, expiry_of_form,
    confirmed_expiry, expiry_in_range, default_badge_name, only_badges_changed};

verus! {

/// The tab shown by the menu.
#[derive(Debug, Clone, Copy, PartialEq, Eq, Structural)]
pub enum MainTab {
    Logs,
    Badges,
}

/// The state of the two-tab menu.
pub struct Menu {
    pub main_tab: MainTab,
    pub badge_tab: BadgeTab,
    pub selected_item: usize,
    pub max_items: usize,
    pub last_badge_uid: Option<String>,
    pub message: Option<String>,
    /// `(uid, name)` of each badge.
    pub badges_list: Vec<(String, String)>,
    /// Whether each badge of `badges_list` grants access.
    pub badge_statuses: Vec<bool>,
    pub badge_field: Option<BadgeField>,
}

/// The `(uid, name)` rows list the registry: each badge once, most recently
/// created first, and the statuses tell which grant access at `now`.
pub open spec fn pairs_show_registry(m: Menu, reg: Map<Seq<char>, BadgeRecord>, now: i128) -> bool {
    let rows = m.badges_list@;
    &&& reg.dom().finite()
    &&& rows.len() == reg.dom().len()
    &&& forall|i: int| 0 <= i < rows.len() ==> #[trigger] reg.contains_key(rows[i].0@) && reg[rows[i].0@].name == rows[i].1@
    &&& forall|k: Seq<char>| #[trigger] reg.contains_key(k) ==> exists|i: int| 0 <= i < rows.len() && #[trigger] rows[i].0@ == k
    &&& forall|i: int, j: int| 0 <= i < rows.len() && 0 <= j < rows.len() && i != j ==> #[trigger] rows[i].0@ != #[trigger] rows[j].0@
    &&& forall|i: int, j: int| 0 <= i < j < rows.len() ==> #[trigger] reg[rows[i].0@].created_at >= #[trigger] reg[rows[j].0@].created_at
    &&& m.badge_statuses@.len() == rows.len()
    &&& forall|i: int| 0 <= i < rows.len() ==> #[trigger] m.badge_statuses@[i] == badge_accepted(reg, rows[i].0@, now)
    &&& m.max_items == (if rows.len() >= 1 { rows.len() } else { 1 })
}

/// `new` is `old` with the rows reloaded from `reg` at `now`.
pub open spec fn menu_reloaded(old: Menu, new: Menu, reg: Map<Seq<char>, BadgeRecord>, now: i128) -> bool {
    pairs_show_registry(new, reg, now)
        && new == Menu { badges_list: new.badges_list, badge_statuses: new.badge_statuses, max_items: new.max_items, ..old }
}

/// `new` is `old` with the form closed, back on the list, no message, rows
/// reloaded.
pub open spec fn menu_form_closed(old: Menu, new: Menu, reg: Map<Seq<char>, BadgeRecord>, now: i128) -> bool {
    menu_reloaded(Menu { badge_field: None, badge_tab: BadgeTab::ListBadges, message: None, ..old }, new, reg, now)
}

/// The effect of a key on an open form `f`.
pub open spec fn menu_field_effect(old: Menu, new: Menu, key: Key, f: FieldModel,
    reg: BadgeManager, reg2: Map<Seq<char>, BadgeRecord>, now: i128, ok: bool) -> bool {
    match key {
        Key::Enter => if registry_accepts(reg, f.uid, f.name) {
            let reg_new = reg@.insert(f.uid, fresh_record(reg.next_id(), f.uid, f.name, now, confirmed_expiry(f.expiry_days, now)));
            ok && reg2 == reg_new && menu_form_closed(old, new, reg_new, now)
        } else {
            !ok && reg2 == reg@ && new == old
        },
        Key::Esc => ok && reg2 == reg@ && menu_form_closed(old, new, reg@, now),
        _ => ok && reg2 == reg@ && match edited_form(f, key) {
            Some(g) => field_view(new.badge_field) == Some(g) && new == Menu { badge_field: new.badge_field, ..old },
            None => new == old,
        },
    }
}

/// The effect of a key on the list screen.
pub open spec fn menu_list_effect(old: Menu, new: Menu, key: Key,
    reg: Map<Seq<char>, BadgeRecord>, reg2: Map<Seq<char>, BadgeRecord>, now: i128, ok: bool) -> bool {
    let unchanged = ok && reg2 == reg && new == old;
    let sel = old.selected_item as int;
    let has_row = sel < old.badges_list@.len();
    let uid = old.badges_list@[sel].0@;
    match key {
        Key::Up => ok && reg2 == reg
            && new == Menu { selected_item: if sel > 0 { (sel - 1) as usize } else { old.selected_item }, ..old },
        Key::Down => ok && reg2 == reg
            && new == Menu {
                selected_item: if sel < old.max_items as int - 1 { (sel + 1) as usize } else { old.selected_item },
                ..old
            },
        Key::Char(c) => if c == 'a' || c == 'A' {
            ok && reg2 == reg && opt_view(new.message) == Some("Place badge near scanner..."@)
                && new == Menu { badge_tab: BadgeTab::AddBadge, message: new.message, ..old }
        } else if c == 'r' || c == 'R' {
            ok && reg2 == reg && opt_view(new.message) == Some("Place badge near scanner to remove..."@)
                && new == Menu { badge_tab: BadgeTab::RemoveBadge, message: new.message, ..old }
        } else if c == 'd' || c == 'D' {
            if !has_row {
                unchanged
            } else if reg.contains_key(uid) {
                ok && reg2 == reg.remove(uid) && pairs_show_registry(new, reg2, now)
                    && new == Menu {
                        badges_list: new.badges_list,
                        badge_statuses: new.badge_statuses,
                        max_items: new.max_items,
                        selected_item: if old.selected_item >= new.max_items { (new.max_items - 1) as usize } else { old.selected_item },
                        ..old
                    }
            } else {
                !ok && reg2 == reg && new == old
            }
        } else if c == 'e' || c == 'E' {
            if !has_row {
                unchanged
            } else if reg.contains_key(uid) {
                let reg_new = reg.insert(uid, BadgeRecord { enabled: !reg[uid].enabled, ..reg[uid] });
                ok && reg2 == reg_new && menu_reloaded(old, new, reg_new, now)
            } else {
                !ok && reg2 == reg && new == old
            }
        } else {
            unchanged
        },
        _ => unchanged,
    }
}

/// The effect of a key on the badge tab's screens.
pub open spec fn menu_badge_key_effect(old: Menu, new: Menu, key: Key,
    reg: BadgeManager, reg2: Map<Seq<char>, BadgeRecord>, now: i128, ok: bool) -> bool {
    match field_view(old.badge_field) {
        Some(f) => menu_field_effect(old, new, key, f, reg, reg2, now, ok),
        None => match old.badge_tab {
            BadgeTab::ListBadges => menu_list_effect(old, new, key, reg@, reg2, now, ok),
            BadgeTab::AddBadge => ok && reg2 == reg@ && if key == Key::Esc {
                menu_reloaded(Menu { badge_tab: BadgeTab::ListBadges, badge_field: None, message: None, ..old }, new, reg@, now)
            } else {
                new == old
            },
            BadgeTab::RemoveBadge => ok && reg2 == reg@ && if key == Key::Esc {
                menu_reloaded(Menu { badge_tab: BadgeTab::ListBadges, last_badge_uid: None, message: None, ..old }, new, reg@, now)
            } else {
                new == old
            },
        },
    }
}

/// Keys that act whatever the tab: Tab switches tabs and `q` quits, both
/// only while no form is open.
pub open spec fn is_global_key(m: Menu, key: Key) -> bool {
    m.badge_field is None && (key == Key::Tab || key == Key::Char('q') || key == Key::Char('Q'))
}

/// What a poll does: a newly scanned UID opens the form on the add screen,
/// and is removed from the registry on the remove screen.
pub open spec fn menu_poll_effect(old: Menu, new: Menu, scanned: Option<Seq<char>>,
    reg: Map<Seq<char>, BadgeRecord>, reg2: Map<Seq<char>, BadgeRecord>) -> bool {
    match scanned {
        Some(u) => if old.badge_tab != BadgeTab::ListBadges && opt_view(old.last_badge_uid) != Some(u) {
            &&& opt_view(new.last_badge_uid) == Some(u)
            &&& if old.badge_tab == BadgeTab::AddBadge {
                &&& reg2 == reg
                &&& field_view(new.badge_field) == Some(FieldModel {
                    uid: u, name: default_badge_name(u), expiry_days: Seq::empty(), selected_field: 0 })
                &&& new == Menu { last_badge_uid: new.last_badge_uid, badge_field: new.badge_field, message: None, ..old }
            } else {
                &&& new == Menu { last_badge_uid: new.last_badge_uid, message: new.message, ..old }
                &&& if reg.contains_key(u) {
                    reg2 == reg.remove(u) && opt_view(new.message) == Some("Badge removed: "@ + reg[u].name)
                } else {
                    reg2 == reg && opt_view(new.message) == Some("Badge not found in database"@)
                }
            }
        } else {
            new == old && reg2 == reg
        },
        None => new == old && reg2 == reg,
    }
}

/// The help line of the bottom bar.
pub open spec fn bottom_help_text(m: Menu) -> Seq<char> {
    match m.badge_tab {
        BadgeTab::ListBadges => "[A] Add  [D] Delete  [R] Remove by Scan  [E] Toggle  [↑/↓] Navigate  [TAB] Switch Tab  [Q] Quit"@,
        BadgeTab::AddBadge => if m.badge_field is Some {
            "[↑/↓] Navigate  [ENTER] Confirm  [ESC] Cancel"@
        } else {
            "[ESC] Back"@
        },
        BadgeTab::RemoveBadge => "[ESC] Back"@,
    }
}

impl Menu {
    /// The menu on its log tab, nothing loaded.
    pub fn new() -> (r: Menu)
        ensures
            r.main_tab == MainTab::Logs,
            r.badge_tab == BadgeTab::ListBadges,
            r.selected_item == 0,
            r.max_items == 0,
            r.last_badge_uid is None,
            r.message is None,
            r.badges_list@.len() == 0,
            r.badge_statuses@.len() == 0,
            r.badge_field is None,
    {
        Menu {
            main_tab: MainTab::Logs,
            badge_tab: BadgeTab::ListBadges,
            selected_item: 0,
            max_items: 0,
            last_badge_uid: None,
            message: None,
            badges_list: Vec::new(),
            badge_statuses: Vec::new(),
            badge_field: None,
        }
    }

    fn load_badges_with_status(&mut self, controller: &AlarmController, now: i128) -> (r: Result<(), BadgeError>)
        requires
            controller.wf(),
        ensures
            r is Ok,
            menu_reloaded(*old(self), *final(self), controller@.badges, now),
    {
        let reg = controller.badge_manager();
        let list = reg.get_all_badges()?;
        let ghost s = views(list@);
        let ghost m = controller@.badges;
        let mut pairs: Vec<(String, String)> = Vec::new();
        let mut statuses: Vec<bool> = Vec::new();
        let mut i: usize = 0;
        while i < list.len()
            invariant
                reg.wf(),
                reg@ == m,
                s == views(list@),
                is_listing(s, m),
                i <= list@.len(),
                pairs@.len() == i,
                statuses@.len() == i,
                forall|j: int| 0 <= j < i ==> #[trigger] pairs@[j].0@ == s[j].uid && pairs@[j].1@ == s[j].name,
                forall|j: int| 0 <= j < i ==> #[trigger] statuses@[j] == badge_accepted(m, s[j].uid, now),
            decreases list@.len() - i,
        {
            let valid = reg.is_valid_badge_at(list[i].uid.as_str(), now);
            pairs.push((list[i].uid.clone(), list[i].name.clone()));
            statuses.push(valid);
            i = i + 1;
        }
        let n = pairs.len();
        self.badges_list = pairs;
        self.badge_statuses = statuses;
        self.max_items = if n >= 1 { n } else { 1 };
        proof {
            let rows = self.badges_list@;
            assert forall|k: Seq<char>| #[trigger] m.contains_key(k)
                implies exists|i: int| 0 <= i < rows.len() && #[trigger] rows[i].0@ == k by {
                assert(has_uid(s, k));
                let j = choose|j: int| 0 <= j < s.len() && #[trigger] s[j].uid == k;
                assert(rows[j].0@ == k);
            }
            assert forall|i: int, j: int| 0 <= i < j < rows.len()
                implies #[trigger] m[rows[i].0@].created_at >= #[trigger] m[rows[j].0@].created_at by {
                assert(rows[i].0@ == s[i].uid && rows[j].0@ == s[j].uid);
                assert(m.contains_key(s[i].uid) && m.contains_key(s[j].uid));
                assert(m[s[i].uid] == s[i] && m[s[j].uid] == s[j]);
                assert(s[i].created_at >= s[j].created_at);
            }
            assert forall|i: int, j: int| 0 <= i < rows.len() && 0 <= j < rows.len() && i != j
                implies #[trigger] rows[i].0@ != #[trigger] rows[j].0@ by {
                assert(rows[i].0@ == s[i].uid && rows[j].0@ == s[j].uid);
            }
            assert forall|i: int| 0 <= i < rows.len()
                implies #[trigger] m.contains_key(rows[i].0@) && m[rows[i].0@].name == rows[i].1@ by {
                assert(rows[i].0@ == s[i].uid && rows[i].1@ == s[i].name);
                assert(m.contains_key(s[i].uid) && m[s[i].uid] == s[i]);
            }
            assert forall|i: int| 0 <= i < rows.len()
                implies #[trigger] self.badge_statuses@[i] == badge_accepted(m, rows[i].0@, now) by {
                assert(rows[i].0@ == s[i].uid);
            }
        }
        Ok(())
    }

    fn cancel_badge_operation(&mut self, controller: &AlarmController, now: i128) -> (r: Result<(), BadgeError>)
        requires
            controller.wf(),
        ensures
            r is Ok,
            menu_form_closed(*old(self), *final(self), controller@.badges, now),
    {
        self.badge_field = None;
        self.badge_tab = BadgeTab::ListBadges;
        self.message = None;
        self.load_badges_with_status(controller, now)
    }

    fn handle_badge_keys(&mut self, key: Key, controller: &mut AlarmController, now: i128) -> (r: Result<(), BadgeError>)
        requires
            old(controller).wf(),
            old(self).badge_field matches Some(f) ==> expiry_in_range(f.expiry_days@),
        ensures
            final(controller).wf(),
            only_badges_changed(old(controller)@, final(controller)@, final(controller)@.badges),
            menu_badge_key_effect(*old(self), *final(self), key, old(controller).registry(),
                final(controller)@.badges, now, r is Ok),
    {
        proof { old(controller).lemma_registry(); }
        let open_form = match &self.badge_field {
            Some(field) => Some(field.duplicate()),
            None => None,
        };
        match open_form {
            Some(field) => {
                match key {
                    Key::Enter => {
                        let expiry = expiry_of_form(&field, now);
                        controller.badge_manager_mut().add_badge_at(field.uid.as_str(), field.name.as_str(), expiry, now)?;
                        let mut message = String::from_str("Badge added: ");
                        message.append(field.name.as_str());
                        message.append(" (");
                        message.append(field.uid.as_str());
                        message.append(")");
                        self.message = Some(message);
                        self.cancel_badge_operation(controller, now)?;
                    },
                    Key::Esc => {
                        self.cancel_badge_operation(controller, now)?;
                    },
                    _ => {
                        match edit_form(&field, key) {
                            Some(g) => { self.badge_field = Some(g); },
                            None => {},
                        }
                    },
                }
                return Ok(());
            },
            None => {},
        }
        match self.badge_tab {
            BadgeTab::AddBadge => {
                if key == Key::Esc {
                    self.badge_tab = BadgeTab::ListBadges;
                    self.badge_field = None;
                    self.message = None;
                    self.load_badges_with_status(controller, now)?;
                }
            },
            BadgeTab::RemoveBadge => {
                if key == Key::Esc {
                    self.badge_tab = BadgeTab::ListBadges;
                    self.last_badge_uid = None;
                    self.message = None;
                    self.load_badges_with_status(controller, now)?;
                }
            },
            BadgeTab::ListBadges => {
                match key {
                    Key::Up => {
                        if self.selected_item > 0 {
                            self.selected_item = self.selected_item - 1;
                        }
                    },
                    Key::Down => {
                        if self.selected_item < self.max_items.saturating_sub(1) {
                            self.selected_item = self.selected_item + 1;
                        }
                    },
                    Key::Char(c) => {
                        if c == 'a' || c == 'A' {
                            self.badge_tab = BadgeTab::AddBadge;
                            self.message = Some(String::from_str("Place badge near scanner..."));
                        } else if c == 'r' || c == 'R' {
                            self.badge_tab = BadgeTab::RemoveBadge;
                            self.message = Some(String::from_str("Place badge near scanner to remove..."));
                        } else if c == 'd' || c == 'D' {
                            if self.selected_item < self.badges_list.len() {
                                let uid = self.badges_list[self.selected_item].0.clone();
                                controller.badge_manager_mut().remove_badge(uid.as_str())?;
                                self.load_badges_with_status(controller, now)?;
                                if self.selected_item >= self.max_items {
                                    self.selected_item = self.max_items.saturating_sub(1);
                                }
                            }
                        } else if c == 'e' || c == 'E' {
                            if self.selected_item < self.badges_list.len() {
                                let uid = self.badges_list[self.selected_item].0.clone();
                                let enabled = match controller.badge_manager().get_badge(uid.as_str()) {
                            Ok(Some(b)) => b.enabled,
                            _ => false,
                        };
                                if enabled {
                                    controller.badge_manager_mut().disable_badge(uid.as_str())?;
                                } else {
                                    controller.badge_manager_mut().enable_badge(uid.as_str())?;
                                }
                                self.load_badges_with_status(controller, now)?;
                            }
                        }
                    },
                    _ => {},
                }
            },
        }
        Ok(())
    }

    /// Handles a key. Tab switches between the tabs (reloading the badge
    /// list when entering it) and `q` asks to quit, both only while no form
    /// is open; other keys act on the badge tab only.
    pub fn handle_key(&mut self, key: Key, controller: &mut AlarmController, now: i128) -> (r: Result<Option<String>, BadgeError>)
        requires
            old(controller).wf(),
            old(self).badge_field matches Some(f) ==> expiry_in_range(f.expiry_days@),
        ensures
            final(controller).wf(),
            only_badges_changed(old(controller)@, final(controller)@, final(controller)@.badges),
            is_global_key(*old(self), key) && key == Key::Tab ==> (r matches Ok(None))
                && final(controller)@ == old(controller)@
                && (old(self).main_tab == MainTab::Logs ==> menu_reloaded(Menu {
                    main_tab: MainTab::Badges, badge_tab: BadgeTab::ListBadges, selected_item: 0, ..*old(self)
                }, *final(self), old(controller)@.badges, now))
                && (old(self).main_tab == MainTab::Badges ==> *final(self) == Menu { main_tab: MainTab::Logs, ..*old(self) }),
            is_global_key(*old(self), key) && key != Key::Tab ==> (r matches Ok(Some(q)) && q@ == "quit"@)
                && *final(self) == *old(self) && final(controller)@ == old(controller)@,
            !is_global_key(*old(self), key) && old(self).main_tab != MainTab::Badges
                ==> (r matches Ok(None)) && *final(self) == *old(self) && final(controller)@ == old(controller)@,
            !is_global_key(*old(self), key) && old(self).main_tab == MainTab::Badges
                ==> (r is Err || r matches Ok(None)) && menu_badge_key_effect(*old(self), *final(self), key,
                    old(controller).registry(), final(controller)@.badges, now, r is Ok),
    {
        if self.badge_field.is_none() {
            if key == Key::Tab {
                match self.main_tab {
                    MainTab::Logs => {
                        self.badge_tab = BadgeTab::ListBadges;
                        self.load_badges_with_status(controller, now)?;
                        self.selected_item = 0;
                        self.main_tab = MainTab::Badges;
                    },
                    MainTab::Badges => {
                        self.main_tab = MainTab::Logs;
                    },
                }
                return Ok(None);
            }
            if key == Key::Char('q') || key == Key::Char('Q') {
                return Ok(Some(String::from_str("quit")));
            }
        }
        if self.main_tab != MainTab::Badges {
            return Ok(None);
        }
        self.handle_badge_keys(key, controller, now)?;
        Ok(None)
    }

    /// Reacts to a scan on the add or remove screen.
    pub fn poll(&mut self, controller: &mut AlarmController) -> (r: Result<(), BadgeError>)
        requires
            old(controller).wf(),
        ensures
            final(controller).wf(),
            r is Ok,
            only_badges_changed(old(controller)@, final(controller)@, final(controller)@.badges),
            menu_poll_effect(*old(self), *final(self), old(controller)@.last_rfid,
                old(controller)@.badges, final(controller)@.badges),
    {
        if self.badge_tab == BadgeTab::ListBadges {
            return Ok(());
        }
        let scanned = match controller.get_last_rfid() {
            Some(t) => Some(String::from_str(t)),
            None => None,
        };
        match scanned {
            Some(u) => {
                let differs = match &self.last_badge_uid {
                    Some(l) => !str_equal(l.as_str(), u.as_str()),
                    None => true,
                };
                if differs {
                    self.last_badge_uid = Some(u.clone());
                    if self.badge_tab == BadgeTab::AddBadge {
                        let n = u.as_str().unicode_len();
                        let k = if n < 4 { n } else { 4 };
                        let prefix = u.as_str().substring_char(0, k);
                        let name = String::from_str("Badge ").concat(prefix);
                        self.badge_field = Some(BadgeField {
                            uid: u,
                            name: name,
                            expiry_days: String::new(),
                            selected_field: 0,
                        });
                        self.message = None;
                    } else {
                        let found = controller.badge_manager().get_badge(u.as_str());
                        match found {
                            Ok(Some(badge)) => {
                                controller.badge_manager_mut().remove_badge(u.as_str())?;
                                self.message = Some(String::from_str("Badge removed: ").concat(badge.name.as_str()));
                            },
                            _ => {
                                self.message = Some(String::from_str("Badge not found in database"));
                            },
                        }
                    }
                }
            },
            None => {},
        }
        Ok(())
    }

    /// The help line of the bottom bar for the current badge screen.
    pub fn get_bottom_help(&self) -> (r: &'static str)
        ensures
            r@ == bottom_help_text(*self),
    {
        match self.badge_tab {
            BadgeTab::ListBadges => "[A] Add  [D] Delete  [R] Remove by Scan  [E] Toggle  [↑/↓] Navigate  [TAB] Switch Tab  [Q] Quit",
            BadgeTab::AddBadge => {
                if self.badge_field.is_some() {
                    "[↑/↓] Navigate  [ENTER] Confirm  [ESC] Cancel"
                } else {
                    "[ESC] Back"
                }
            },
            BadgeTab::RemoveBadge => "[ESC] Back",
        }
    }
}

} // verus!
