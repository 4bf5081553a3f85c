//! The registry of RFID badges: who may disarm the alarm, until when, and
//! whether the badge is currently enabled.
//!
//! A badge is identified by its UID (unique in the registry) and carries a
//! row id assigned like an SQLite `INTEGER PRIMARY KEY`: one more than the
//! largest id in use, or 1 in an empty registry. Instants are nanoseconds
//! since the Unix epoch, as precise as the clock and chrono's dates.

use vstd::prelude::*;
use crate::datetime::now_timestamp;
use crate::text::{str_equal, push_decimal_pad2, decimal_pad2};

verus! {

/// The mathematical content of a badge.
pub struct BadgeRecord {
    pub id: i32,
    pub uid: Seq<char>,
    pub name: Seq<char>,
    pub created_at: i128,
    pub last_used: Option<i128>,
    pub expires_at: Option<i128>,
    pub enabled: bool,
}

/// A badge as held in the registry.
#[derive(Debug)]
pub struct Badge {
    pub id: i32,
    pub uid: String,
    pub name: String,
    pub created_at: i128,
    pub last_used: Option<i128>,
    pub expires_at: Option<i128>,
    pub enabled: bool,
}

impl View for Badge {
    type V = BadgeRecord;

    open spec fn view(&self) -> BadgeRecord {
        BadgeRecord {
            id: self.id,
            uid: self.uid@,
            name: self.name@,
            created_at: self.created_at,
            last_used: self.last_used,
            expires_at: self.expires_at,
            enabled: self.enabled,
        }
    }
}

impl Badge {
    /// A copy of this badge.
    pub fn snapshot(&self) -> (r: Badge)
        ensures
            r@ == self@,
    {
        Badge {
            id: self.id,
            uid: self.uid.clone(),
            name: self.name.clone(),
            created_at: self.created_at,
            last_used: self.last_used,
            expires_at: self.expires_at,
            enabled: self.enabled,
        }
    }
}

/// Why a registry operation was refused.
#[derive(Debug)]
pub enum BadgeError {
    /// A badge needs a non-empty UID.
    EmptyUid,
    /// A badge needs a non-empty name.
    EmptyName,
    /// Another badge already has this UID.
    DuplicateUid,
    /// No row id is left below `i32::MAX`.
    IdsExhausted,
    /// No badge has this UID.
    NotFound(String),
    /// A stored date is not RFC 3339.
    InvalidDate,
}

/// The text of an error.
pub open spec fn error_text(e: BadgeError) -> Seq<char> {
    match e {
        BadgeError::EmptyUid => "Badge UID cannot be empty"@,
        BadgeError::EmptyName => "Badge name cannot be empty"@,
        BadgeError::DuplicateUid => "UNIQUE constraint failed: badges.uid"@,
        BadgeError::IdsExhausted => "No badge id is left"@,
        BadgeError::NotFound(uid) => "Badge with UID '"@ + uid@ + "' not found"@,
        BadgeError::InvalidDate => "Failed to parse datetime"@,
    }
}

impl BadgeError {
    /// The text of this error, as it is logged.
    pub fn message(&self) -> (r: String)
        ensures
            r@ == error_text(*self),
    {
        match self {
            BadgeError::EmptyUid => String::from_str("Badge UID cannot be empty"),
            BadgeError::EmptyName => String::from_str("Badge name cannot be empty"),
            BadgeError::DuplicateUid => String::from_str("UNIQUE constraint failed: badges.uid"),
            BadgeError::IdsExhausted => String::from_str("No badge id is left"),
            BadgeError::NotFound(uid) => {
                let mut r = String::from_str("Badge with UID '");
                r.append(uid.as_str());
                r.append("' not found");
                r
            },
            BadgeError::InvalidDate => String::from_str("Failed to parse datetime"),
        }
    }
}

/// No two records share a UID.
pub open spec fn unique_uids(s: Seq<BadgeRecord>) -> bool {
    forall|i: int, j: int|
        0 <= i < s.len() && 0 <= j < s.len() && i != j ==> #[trigger] s[i].uid != #[trigger] s[j].uid
}

/// No two records share a row id.
pub open spec fn unique_ids(s: Seq<BadgeRecord>) -> bool {
    forall|i: int, j: int|
        0 <= i < s.len() && 0 <= j < s.len() && i != j ==> #[trigger] s[i].id != #[trigger] s[j].id
}

/// Some record has this UID.
pub open spec fn has_uid(s: Seq<BadgeRecord>, uid: Seq<char>) -> bool {
    exists|i: int| 0 <= i < s.len() && #[trigger] s[i].uid == uid
}

/// The table that a sequence of records with distinct UIDs stands for: each
/// UID mapped to its record.
pub open spec fn table_of(s: Seq<BadgeRecord>) -> Map<Seq<char>, BadgeRecord> {
    Map::new(
        |k: Seq<char>| has_uid(s, k),
        |k: Seq<char>| s[choose|i: int| 0 <= i < s.len() && #[trigger] s[i].uid == k],
    )
}

/// The largest row id of a non-empty sequence of records.
pub open spec fn max_id(s: Seq<BadgeRecord>) -> int
    decreases s.len(),
{
    if s.len() <= 1 {
        if s.len() == 1 { s[0].id as int } else { 0 }
    } else {
        let m = max_id(s.drop_last());
        if s.last().id > m { s.last().id as int } else { m }
    }
}

/// The row id the next inserted badge gets.
pub open spec fn next_row_id(s: Seq<BadgeRecord>) -> int {
    if s.len() == 0 { 1 } else { max_id(s) + 1 }
}

proof fn lemma_max_id(s: Seq<BadgeRecord>)
    requires
        s.len() > 0,
    ensures
        forall|i: int| 0 <= i < s.len() ==> #[trigger] s[i].id <= max_id(s),
        exists|i: int| 0 <= i < s.len() && #[trigger] s[i].id == max_id(s),
    decreases s.len(),
{
    if s.len() > 1 {
        lemma_max_id(s.drop_last());
        let m = max_id(s.drop_last());
        assert forall|i: int| 0 <= i < s.len() implies #[trigger] s[i].id <= max_id(s) by {
            if i < s.len() - 1 {
                assert(s[i] == s.drop_last()[i]);
            }
        }
        if s.last().id > m {
            assert(s[s.len() - 1].id == max_id(s));
        } else {
            let j = choose|j: int| 0 <= j < s.drop_last().len() && #[trigger] s.drop_last()[j].id == m;
            assert(s[j].id == max_id(s));
        }
    } else {
        assert(s[0].id == max_id(s));
    }
}

proof fn lemma_table_at(s: Seq<BadgeRecord>, i: int)
    requires
        unique_uids(s),
        0 <= i < s.len(),
    ensures
        table_of(s).contains_key(s[i].uid),
        table_of(s)[s[i].uid] == s[i],
{
    assert(has_uid(s, s[i].uid));
    let j = choose|j: int| 0 <= j < s.len() && #[trigger] s[j].uid == s[i].uid;
    assert(j == i);
}

proof fn lemma_table_push(s: Seq<BadgeRecord>, r: BadgeRecord)
    requires
        unique_uids(s),
        !has_uid(s, r.uid),
    ensures
        unique_uids(s.push(r)),
        table_of(s.push(r)) == table_of(s).insert(r.uid, r),
{
    let t = s.push(r);
    assert forall|i: int, j: int|
        0 <= i < t.len() && 0 <= j < t.len() && i != j implies #[trigger] t[i].uid != #[trigger] t[j].uid by {
        if i < s.len() && j < s.len() {
            assert(t[i] == s[i] && t[j] == s[j]);
        } else if i < s.len() {
            assert(t[i] == s[i]);
        } else {
            assert(t[j] == s[j]);
        }
    }
    assert forall|k: Seq<char>| #[trigger] has_uid(t, k) == (has_uid(s, k) || k == r.uid) by {
        if has_uid(s, k) {
            let i = choose|i: int| 0 <= i < s.len() && #[trigger] s[i].uid == k;
            assert(t[i] == s[i]);
        }
        if k == r.uid {
            assert(t[s.len() as int].uid == k);
        }
        if has_uid(t, k) && k != r.uid {
            let i = choose|i: int| 0 <= i < t.len() && #[trigger] t[i].uid == k;
            assert(t[i] == s[i]);
        }
    }
    assert forall|k: Seq<char>| #[trigger] table_of(t).contains_key(k) implies
        table_of(t)[k] == table_of(s).insert(r.uid, r)[k] by {
        let i = choose|i: int| 0 <= i < t.len() && #[trigger] t[i].uid == k;
        lemma_table_at(t, i);
        if i < s.len() {
            assert(t[i] == s[i]);
            lemma_table_at(s, i);
        }
    }
    assert(table_of(t) =~= table_of(s).insert(r.uid, r));
}

proof fn lemma_table_remove(s: Seq<BadgeRecord>, i: int)
    requires
        unique_uids(s),
        0 <= i < s.len(),
    ensures
        unique_uids(s.remove(i)),
        table_of(s.remove(i)) == table_of(s).remove(s[i].uid),
{
    let t = s.remove(i);
    assert forall|a: int| 0 <= a < t.len() implies #[trigger] t[a] == s[if a < i { a } else { a + 1 }] by {}
    assert forall|a: int, b: int|
        0 <= a < t.len() && 0 <= b < t.len() && a != b implies #[trigger] t[a].uid != #[trigger] t[b].uid by {
        assert(t[a] == s[if a < i { a } else { a + 1 }]);
        assert(t[b] == s[if b < i { b } else { b + 1 }]);
    }
    assert forall|k: Seq<char>| #[trigger] has_uid(t, k) == (has_uid(s, k) && k != s[i].uid) by {
        if has_uid(s, k) && k != s[i].uid {
            let a = choose|a: int| 0 <= a < s.len() && #[trigger] s[a].uid == k;
            let b = if a < i { a } else { a - 1 };
            assert(t[b] == s[a]);
        }
        if has_uid(t, k) {
            let b = choose|b: int| 0 <= b < t.len() && #[trigger] t[b].uid == k;
            assert(t[b] == s[if b < i { b } else { b + 1 }]);
        }
    }
    assert forall|k: Seq<char>| #[trigger] table_of(t).contains_key(k) implies
        table_of(t)[k] == table_of(s).remove(s[i].uid)[k] by {
        let b = choose|b: int| 0 <= b < t.len() && #[trigger] t[b].uid == k;
        lemma_table_at(t, b);
        let a = if b < i { b } else { b + 1 };
        assert(t[b] == s[a]);
        lemma_table_at(s, a);
    }
    assert(table_of(t) =~= table_of(s).remove(s[i].uid));
}

proof fn lemma_table_update(s: Seq<BadgeRecord>, i: int, r: BadgeRecord)
    requires
        unique_uids(s),
        0 <= i < s.len(),
        r.uid == s[i].uid,
    ensures
        unique_uids(s.update(i, r)),
        table_of(s.update(i, r)) == table_of(s).insert(r.uid, r),
{
    let t = s.update(i, r);
    assert forall|a: int, b: int|
        0 <= a < t.len() && 0 <= b < t.len() && a != b implies #[trigger] t[a].uid != #[trigger] t[b].uid by {
        assert(t[a].uid == s[a].uid);
        assert(t[b].uid == s[b].uid);
    }
    assert forall|k: Seq<char>| #[trigger] has_uid(t, k) == has_uid(s, k) by {
        if has_uid(s, k) {
            let a = choose|a: int| 0 <= a < s.len() && #[trigger] s[a].uid == k;
            assert(t[a].uid == k);
        }
        if has_uid(t, k) {
            let a = choose|a: int| 0 <= a < t.len() && #[trigger] t[a].uid == k;
            assert(s[a].uid == k);
        }
    }
    assert forall|k: Seq<char>| #[trigger] table_of(t).contains_key(k) implies
        table_of(t)[k] == table_of(s).insert(r.uid, r)[k] by {
        let b = choose|b: int| 0 <= b < t.len() && #[trigger] t[b].uid == k;
        lemma_table_at(t, b);
        if b != i {
            lemma_table_at(s, b);
        }
    }
    assert(table_of(t) =~= table_of(s).insert(r.uid, r));
}

proof fn lemma_table_len(s: Seq<BadgeRecord>)
    requires
        unique_uids(s),
    ensures
        table_of(s).dom().finite(),
        table_of(s).dom().len() == s.len(),
    decreases s.len(),
{
    if s.len() == 0 {
        assert(table_of(s).dom() =~= Set::<Seq<char>>::empty());
    } else {
        let p = s.drop_last();
        assert(unique_uids(p)) by {
            assert forall|i: int, j: int|
                0 <= i < p.len() && 0 <= j < p.len() && i != j implies #[trigger] p[i].uid != #[trigger] p[j].uid by {
                assert(p[i] == s[i] && p[j] == s[j]);
            }
        }
        assert(!has_uid(p, s.last().uid)) by {
            if has_uid(p, s.last().uid) {
                let i = choose|i: int| 0 <= i < p.len() && #[trigger] p[i].uid == s.last().uid;
                assert(s[i].uid == s[s.len() - 1].uid);
            }
        }
        lemma_table_len(p);
        lemma_table_push(p, s.last());
        assert(p.push(s.last()) =~= s);
    }
}

/// The record a freshly added badge gets.
pub open spec fn fresh_record(
    id: int,
    uid: Seq<char>,
    name: Seq<char>,
    now: i128,
    expires_at: Option<i128>,
) -> BadgeRecord {
    BadgeRecord {
        id: id as i32,
        uid: uid,
        name: name,
        created_at: now,
        last_used: None,
        expires_at: expires_at,
        enabled: true,
    }
}

/// Whether the registry accepts a new badge with this UID and name.
pub open spec fn registry_accepts(reg: BadgeManager, uid: Seq<char>, name: Seq<char>) -> bool {
    uid.len() > 0 && name.len() > 0 && !reg@.contains_key(uid) && reg.next_id() <= i32::MAX
}

/// A badge grants access at instant `now`: it is enabled and, if temporary,
/// `now` is not past its expiry.
pub open spec fn grants_access(r: BadgeRecord, now: i128) -> bool {
    r.enabled && match r.expires_at {
        Some(e) => now <= e,
        None => true,
    }
}

/// The outcome of adding a badge created at `now`: refused, with the
/// registry unchanged, when the UID or the name is empty, the UID is taken or
/// no row id is left (in that order); otherwise an enabled badge with the
/// next row id, which the registry then holds under its UID.
pub open spec fn badge_added(old: BadgeManager, new: BadgeManager, uid: Seq<char>, name: Seq<char>,
    expires_at: Option<i128>, now: i128, r: Result<Badge, BadgeError>) -> bool {
    &&& r is Ok <==> registry_accepts(old, uid, name)
    &&& uid.len() == 0 ==> (r matches Err(BadgeError::EmptyUid))
    &&& uid.len() > 0 && name.len() == 0 ==> (r matches Err(BadgeError::EmptyName))
    &&& uid.len() > 0 && name.len() > 0 && old@.contains_key(uid) ==> (r matches Err(BadgeError::DuplicateUid))
    &&& uid.len() > 0 && name.len() > 0 && !old@.contains_key(uid) && old.next_id() > i32::MAX
        ==> (r matches Err(BadgeError::IdsExhausted))
    &&& (r matches Ok(b) ==> b@ == fresh_record(old.next_id(), uid, name, now, expires_at))
    &&& (r matches Ok(b) ==> new@ == old@.insert(uid, b@))
    &&& (r matches Ok(b) ==> new.next_id() == old.next_id() + 1)
    &&& (r matches Ok(b) ==> forall|k: Seq<char>| #[trigger] old@.contains_key(k) ==> old@[k].id < b.id)
    &&& r is Ok ==> new.rev() != old.rev()
    &&& r is Err ==> new == old
}

/// The registry holds a badge with this UID that grants access at `now`.
pub open spec fn accepts_at(m: Map<Seq<char>, BadgeRecord>, uid: Seq<char>, now: i128) -> bool {
    m.contains_key(uid) && grants_access(m[uid], now)
}

/// A temporary badge whose expiry lies before `now`.
pub open spec fn expired_at(r: BadgeRecord, now: i128) -> bool {
    match r.expires_at {
        Some(e) => now > e,
        None => false,
    }
}

/// The registry of badges, kept in memory; persisting it is the caller's task.
pub struct BadgeManager {
    badges: Vec<Badge>,
    revision: u64,
}

impl View for BadgeManager {
    type V = Map<Seq<char>, BadgeRecord>;

    closed spec fn view(&self) -> Map<Seq<char>, BadgeRecord> {
        table_of(self.records())
    }
}

impl BadgeManager {
    /// The stored records, in storage order.
    pub closed spec fn records(&self) -> Seq<BadgeRecord> {
        self.badges@.map_values(|b: Badge| b@)
    }

    /// The registry invariant: no two badges share a UID.
    pub closed spec fn wf(&self) -> bool {
        unique_uids(self.records())
    }

    /// The row id the next added badge gets.
    pub closed spec fn next_id(&self) -> int {
        next_row_id(self.records())
    }

    /// A counter that every change of the registry moves.
    pub closed spec fn rev(&self) -> u64 {
        self.revision
    }

    /// An empty registry.
    pub fn new() -> (r: BadgeManager)
        ensures
            r.wf(),
            r@ == Map::<Seq<char>, BadgeRecord>::empty(),
            r.next_id() == 1,
    {
        let r = BadgeManager { badges: Vec::new(), revision: 0 };
        assert(r.records() =~= Seq::<BadgeRecord>::empty());
        assert(r@ =~= Map::<Seq<char>, BadgeRecord>::empty());
        r
    }

    /// The change counter: it differs after every change of the registry.
    pub fn revision(&self) -> (r: u64)
        ensures
            r == self.rev(),
    {
        self.revision
    }

    proof fn lemma_view_at(&self, i: int)
        requires
            self.wf(),
            0 <= i < self.badges@.len(),
        ensures
            self@.contains_key(self.badges@[i].uid@),
            self@[self.badges@[i].uid@] == self.badges@[i]@,
    {
        assert(self.records()[i] == self.badges@[i]@);
        lemma_table_at(self.records(), i);
    }

    /// The position of the badge with this UID.
    fn find(&self, uid: &str) -> (r: Option<usize>)
        requires
            self.wf(),
        ensures
            r matches Some(i) ==> i < self.badges@.len() && self.badges@[i as int].uid@ == uid@,
            r is Some <==> self@.contains_key(uid@),
    {
        let mut i: usize = 0;
        while i < self.badges.len()
            invariant
                self.wf(),
                i <= self.badges@.len(),
                forall|j: int| 0 <= j < i ==> self.badges@[j].uid@ != uid@,
            decreases self.badges@.len() - i,
        {
            if str_equal(self.badges[i].uid.as_str(), uid) {
                proof { self.lemma_view_at(i as int); }
                return Some(i);
            }
            i = i + 1;
        }
        proof {
            if self@.contains_key(uid@) {
                let j = choose|j: int| 0 <= j < self.records().len() && #[trigger] self.records()[j].uid == uid@;
                assert(self.records()[j] == self.badges@[j]@);
            }
        }
        None
    }

    /// The row id for the next badge, if it fits an `i32`.
    fn compute_next_id(&self) -> (r: Option<i32>)
        requires
            self.wf(),
        ensures
            r is Some <==> self.next_id() <= i32::MAX,
            r matches Some(id) ==> id == self.next_id(),
    {
        let n = self.badges.len();
        if n == 0 {
            return Some(1);
        }
        let mut m: i32 = self.badges[0].id;
        let mut i: usize = 1;
        proof {
            assert(self.records().take(1).len() == 1);
        }
        while i < n
            invariant
                1 <= i <= n,
                n == self.badges@.len(),
                m == max_id(self.records().take(i as int)),
            decreases n - i,
        {
            proof {
                let t = self.records().take(i as int + 1);
                assert(t.drop_last() =~= self.records().take(i as int));
                assert(t.last() == self.badges@[i as int]@);
            }
            if self.badges[i].id > m {
                m = self.badges[i].id;
            }
            i = i + 1;
        }
        proof {
            assert(self.records().take(n as int) =~= self.records());
        }
        if m == i32::MAX {
            None
        } else {
            Some(m + 1)
        }
    }

    fn bump_revision(&mut self)
        ensures
            final(self).badges == old(self).badges,
            final(self).revision != old(self).revision,
    {
        if self.revision == u64::MAX {
            self.revision = 0;
        } else {
            self.revision = self.revision + 1;
        }
    }

    /// Adds an enabled badge created at `now`, temporary when `expires_at`
    /// is given.
    pub fn add_badge_at(&mut self, uid: &str, name: &str, expires_at: Option<i128>, now: i128) -> (r: Result<Badge, BadgeError>)
        requires
            old(self).wf(),
        ensures
            final(self).wf(),
            badge_added(*old(self), *final(self), uid@, name@, expires_at, now, r),
    {
        if uid.is_empty() {
            return Err(BadgeError::EmptyUid);
        }
        if name.is_empty() {
            return Err(BadgeError::EmptyName);
        }
        if self.find(uid).is_some() {
            return Err(BadgeError::DuplicateUid);
        }
        let id = match self.compute_next_id() {
            Some(id) => id,
            None => { return Err(BadgeError::IdsExhausted); },
        };
        let badge = Badge {
            id: id,
            uid: String::from_str(uid),
            name: String::from_str(name),
            created_at: now,
            last_used: None,
            expires_at: expires_at,
            enabled: true,
        };
        let ghost old_recs = self.records();
        proof {
            assert(!has_uid(old_recs, uid@)) by {
                if has_uid(old_recs, uid@) {
                    let j = choose|j: int| 0 <= j < old_recs.len() && #[trigger] old_recs[j].uid == uid@;
                    lemma_table_at(old_recs, j);
                }
            }
            if old_recs.len() > 0 {
                lemma_max_id(old_recs);
            }
            assert forall|k: Seq<char>| #[trigger] self@.contains_key(k) implies self@[k].id < id by {
                let j = choose|j: int| 0 <= j < old_recs.len() && #[trigger] old_recs[j].uid == k;
                lemma_table_at(old_recs, j);
            }
        }
        let out = badge.snapshot();
        self.badges.push(badge);
        self.bump_revision();
        proof {
            assert(self.records() =~= old_recs.push(out@));
            lemma_table_push(old_recs, out@);
            let s = self.records();
            assert(s.drop_last() =~= old_recs);
            if old_recs.len() == 0 {
                assert(max_id(s) == id);
            }
        }
        Ok(out)
    }

    /// Adds a permanent badge created now: the same as `add_badge_with_expiry`
    /// with no expiry.
    pub fn add_badge(&mut self, uid: &str, name: &str) -> (r: Result<Badge, BadgeError>)
        requires
            old(self).wf(),
        ensures
            final(self).wf(),
            exists|t: i128| #[trigger] badge_added(*old(self), *final(self), uid@, name@, None, t, r),
    {
        self.add_badge_with_expiry(uid, name, None)
    }

    /// Adds a badge created now, temporary when `expires_at` is given.
    /// Everything but the creation instant, which the clock decides, is as
    /// `add_badge_at` states.
    pub fn add_badge_with_expiry(&mut self, uid: &str, name: &str, expires_at: Option<i128>) -> (r: Result<Badge, BadgeError>)
        requires
            old(self).wf(),
        ensures
            final(self).wf(),
            exists|t: i128| #[trigger] badge_added(*old(self), *final(self), uid@, name@, expires_at, t, r),
    {
        let now = now_timestamp();
        self.add_badge_at(uid, name, expires_at, now)
    }

    /// Removes the badge with this UID.
    pub fn remove_badge(&mut self, uid: &str) -> (r: Result<(), BadgeError>)
        requires
            old(self).wf(),
        ensures
            final(self).wf(),
            r is Ok <==> old(self)@.contains_key(uid@),
            r matches Err(e) ==> e matches BadgeError::NotFound(u) && u@ == uid@,
            r is Ok ==> final(self)@ == old(self)@.remove(uid@) && final(self).rev() != old(self).rev(),
            r is Err ==> *final(self) == *old(self),
    {
        match self.find(uid) {
            None => Err(BadgeError::NotFound(String::from_str(uid))),
            Some(i) => {
                let ghost old_recs = self.records();
                let _ = self.badges.remove(i);
                self.bump_revision();
                proof {
                    assert(self.records() =~= old_recs.remove(i as int));
                    lemma_table_remove(old_recs, i as int);
                }
                Ok(())
            },
        }
    }

    /// Replaces the badge at position `i` by `b`, which has the same UID.
    fn replace_at(&mut self, i: usize, b: Badge)
        requires
            old(self).wf(),
            i < old(self).badges@.len(),
            b.uid@ == old(self).badges@[i as int].uid@,
        ensures
            final(self).wf(),
            final(self)@ == old(self)@.insert(b.uid@, b@),
            final(self).rev() != old(self).rev(),
    {
        let ghost old_recs = self.records();
        let ghost bv = b@;
        self.badges.set(i, b);
        self.bump_revision();
        proof {
            assert(self.records() =~= old_recs.update(i as int, bv));
            lemma_table_update(old_recs, i as int, bv);
        }
    }

    fn set_enabled(&mut self, uid: &str, enabled: bool) -> (r: Result<(), BadgeError>)
        requires
            old(self).wf(),
        ensures
            final(self).wf(),
            r is Ok <==> old(self)@.contains_key(uid@),
            r matches Err(e) ==> e matches BadgeError::NotFound(u) && u@ == uid@,
            r is Ok ==> final(self)@ == old(self)@.insert(uid@, BadgeRecord { enabled: enabled, ..old(self)@[uid@] })
                && final(self).rev() != old(self).rev(),
            r is Err ==> *final(self) == *old(self),
    {
        match self.find(uid) {
            None => Err(BadgeError::NotFound(String::from_str(uid))),
            Some(i) => {
                proof { self.lemma_view_at(i as int); }
                let mut b = self.badges[i].snapshot();
                b.enabled = enabled;
                self.replace_at(i, b);
                Ok(())
            },
        }
    }

    /// Enables the badge with this UID.
    pub fn enable_badge(&mut self, uid: &str) -> (r: Result<(), BadgeError>)
        requires
            old(self).wf(),
        ensures
            final(self).wf(),
            r is Ok <==> old(self)@.contains_key(uid@),
            r matches Err(e) ==> e matches BadgeError::NotFound(u) && u@ == uid@,
            r is Ok ==> final(self)@ == old(self)@.insert(uid@, BadgeRecord { enabled: true, ..old(self)@[uid@] })
                && final(self).rev() != old(self).rev(),
            r is Err ==> *final(self) == *old(self),
    {
        self.set_enabled(uid, true)
    }

    /// Disables the badge with this UID.
    pub fn disable_badge(&mut self, uid: &str) -> (r: Result<(), BadgeError>)
        requires
            old(self).wf(),
        ensures
            final(self).wf(),
            r is Ok <==> old(self)@.contains_key(uid@),
            r matches Err(e) ==> e matches BadgeError::NotFound(u) && u@ == uid@,
            r is Ok ==> final(self)@ == old(self)@.insert(uid@, BadgeRecord { enabled: false, ..old(self)@[uid@] })
                && final(self).rev() != old(self).rev(),
            r is Err ==> *final(self) == *old(self),
    {
        self.set_enabled(uid, false)
    }

    /// Records `now` as the last use of the badge with this UID; an unknown
    /// UID changes nothing and is no error.
    pub fn update_last_used_at(&mut self, uid: &str, now: i128) -> (r: Result<(), BadgeError>)
        requires
            old(self).wf(),
        ensures
            final(self).wf(),
            r is Ok,
            old(self)@.contains_key(uid@) ==> final(self)@ == old(self)@.insert(uid@,
                BadgeRecord { last_used: Some(now), ..old(self)@[uid@] }) && final(self).rev() != old(self).rev(),
            !old(self)@.contains_key(uid@) ==> *final(self) == *old(self),
    {
        match self.find(uid) {
            None => Ok(()),
            Some(i) => {
                proof { self.lemma_view_at(i as int); }
                let mut b = self.badges[i].snapshot();
                b.last_used = Some(now);
                self.replace_at(i, b);
                Ok(())
            },
        }
    }

    /// Records the current instant as the last use of the badge with this UID.
    pub fn update_last_used(&mut self, uid: &str) -> (r: Result<(), BadgeError>)
        requires
            old(self).wf(),
        ensures
            final(self).wf(),
            r is Ok,
            old(self)@.contains_key(uid@) ==> final(self)@.dom() == old(self)@.dom()
                && final(self)@[uid@].last_used is Some
                && final(self)@ == old(self)@.insert(uid@,
                BadgeRecord { last_used: final(self)@[uid@].last_used, ..old(self)@[uid@] }),
            !old(self)@.contains_key(uid@) ==> *final(self) == *old(self),
    {
        let now = now_timestamp();
        let r = self.update_last_used_at(uid, now);
        proof {
            if old(self)@.contains_key(uid@) {
                assert(final(self)@.dom() =~= old(self)@.dom());
            }
        }
        r
    }

    /// The badge with this UID, if any.
    pub fn get_badge(&self, uid: &str) -> (r: Result<Option<Badge>, BadgeError>)
        requires
            self.wf(),
        ensures
            r matches Ok(o) && (o is Some <==> self@.contains_key(uid@)),
            r matches Ok(Some(b)) ==> b@ == self@[uid@],
    {
        match self.find(uid) {
            None => Ok(None),
            Some(i) => {
                proof { self.lemma_view_at(i as int); }
                Ok(Some(self.badges[i].snapshot()))
            },
        }
    }

    /// Whether the badge with this UID exists and grants access at `now`.
    pub fn is_valid_badge_at(&self, uid: &str, now: i128) -> (r: bool)
        requires
            self.wf(),
        ensures
            r == (self@.contains_key(uid@) && grants_access(self@[uid@], now)),
    {
        match self.find(uid) {
            None => false,
            Some(i) => {
                proof { self.lemma_view_at(i as int); }
                let b = &self.badges[i];
                if !b.enabled {
                    false
                } else {
                    match b.expires_at {
                        Some(e) => now <= e,
                        None => true,
                    }
                }
            },
        }
    }

    /// Whether the badge with this UID exists and grants access now.
    pub fn is_valid_badge(&self, uid: &str) -> (r: Result<bool, BadgeError>)
        requires
            self.wf(),
        ensures
            r is Ok,
            r matches Ok(v) ==> exists|t: i128| v == #[trigger] accepts_at(self@, uid@, t),
            r matches Ok(v) ==> (v ==> self@.contains_key(uid@) && self@[uid@].enabled),
            r matches Ok(v) ==> (self@.contains_key(uid@) && self@[uid@].enabled
                && self@[uid@].expires_at is None ==> v),
    {
        let now = now_timestamp();
        let v = self.is_valid_badge_at(uid, now);
        assert(v == accepts_at(self@, uid@, now));
        Ok(v)
    }

    /// The number of badges.
    pub fn badge_count(&self) -> (r: Result<usize, BadgeError>)
        requires
            self.wf(),
        ensures
            self@.dom().finite(),
            r matches Ok(n) && n == self@.dom().len(),
    {
        proof { lemma_table_len(self.records()); }
        Ok(self.badges.len())
    }

    /// The number of enabled badges.
    pub fn enabled_badge_count(&self) -> (r: Result<usize, BadgeError>)
        requires
            self.wf(),
        ensures
            r matches Ok(n) && n == enabled_uids(self@).len(),
            enabled_uids(self@).finite(),
    {
        let ghost recs = self.records();
        let ghost mut seen: Set<Seq<char>> = Set::empty();
        let mut count: usize = 0;
        let mut i: usize = 0;
        while i < self.badges.len()
            invariant
                self.wf(),
                recs == self.records(),
                i <= self.badges@.len(),
                count <= i,
                seen.finite(),
                seen.len() == count,
                forall|k: Seq<char>| #[trigger] seen.contains(k) <==> enabled_in_prefix(recs, i as int, k),
            decreases self.badges@.len() - i,
        {
            proof {
                assert(recs[i as int] == self.badges@[i as int]@);
            }
            if self.badges[i].enabled {
                proof {
                    let u = recs[i as int].uid;
                    assert(!seen.contains(u)) by {
                        if seen.contains(u) {
                            let j = choose|j: int| 0 <= j < i && #[trigger] recs[j].uid == u && recs[j].enabled;
                            assert(j != i);
                        }
                    }
                    seen = seen.insert(u);
                    assert forall|k: Seq<char>| #[trigger] seen.contains(k) <==> enabled_in_prefix(recs, i + 1, k) by {
                        if enabled_in_prefix(recs, i as int, k) {
                            let j = choose|j: int| 0 <= j < i && #[trigger] recs[j].uid == k && recs[j].enabled;
                            assert(0 <= j < i + 1 && recs[j].uid == k && recs[j].enabled);
                        }
                        if k == u {
                            assert(recs[i as int].uid == k && recs[i as int].enabled);
                        }
                        if enabled_in_prefix(recs, i + 1, k) && k != u {
                            let j = choose|j: int| 0 <= j < i + 1 && #[trigger] recs[j].uid == k && recs[j].enabled;
                            assert(j < i);
                        }
                    }
                }
                count = count + 1;
            } else {
                proof {
                    assert forall|k: Seq<char>| #[trigger] seen.contains(k) <==> enabled_in_prefix(recs, i + 1, k) by {
                        if enabled_in_prefix(recs, i + 1, k) {
                            let j = choose|j: int| 0 <= j < i + 1 && #[trigger] recs[j].uid == k && recs[j].enabled;
                            assert(j < i);
                            assert(enabled_in_prefix(recs, i as int, k));
                        }
                        if enabled_in_prefix(recs, i as int, k) {
                            let j = choose|j: int| 0 <= j < i && #[trigger] recs[j].uid == k && recs[j].enabled;
                            assert(0 <= j < i + 1);
                        }
                    }
                }
            }
            i = i + 1;
        }
        proof {
            assert forall|k: Seq<char>| #[trigger] seen.contains(k) <==> enabled_uids(self@).contains(k) by {
                if enabled_in_prefix(recs, i as int, k) {
                    let j = choose|j: int| 0 <= j < i && #[trigger] recs[j].uid == k && recs[j].enabled;
                    lemma_table_at(recs, j);
                }
                if self@.contains_key(k) && self@[k].enabled {
                    let j = choose|j: int| 0 <= j < recs.len() && #[trigger] recs[j].uid == k;
                    lemma_table_at(recs, j);
                    assert(enabled_in_prefix(recs, i as int, k));
                }
            }
            assert(seen =~= enabled_uids(self@));
        }
        Ok(count)
    }

    /// All badges, most recently created first.
    #[verifier::spinoff_prover]
    pub fn get_all_badges(&self) -> (r: Result<Vec<Badge>, BadgeError>)
        requires
            self.wf(),
        ensures
            self@.dom().finite(),
            r matches Ok(v) && is_listing(views(v@), self@),
    {
        let ghost recs = self.records();
        proof { lemma_table_len(recs); }
        let n = self.badges.len();
        let mut out: Vec<Badge> = Vec::new();
        let mut i: usize = 0;
        while i < n
            invariant
                self.wf(),
                recs == self.records(),
                n == self.badges@.len(),
                i <= n,
                out@.len() == i,
                sorted_newest_first(views(out@)),
                unique_uids(views(out@)),
                forall|a: int| 0 <= a < out@.len()
                    ==> #[trigger] self@.contains_key(views(out@)[a].uid) && self@[views(out@)[a].uid] == views(out@)[a],
                forall|k: Seq<char>| #[trigger] has_uid(views(out@), k) == has_uid(recs.take(i as int), k),
            decreases n - i,
        {
            let b = self.badges[i].snapshot();
            proof {
                assert(recs[i as int] == self.badges@[i as int]@);
                self.lemma_view_at(i as int);
            }
            let ghost bv = b@;
            let ghost o = views(out@);
            let mut p = out.len();
            while p > 0 && out[p - 1].created_at < b.created_at
                invariant
                    p <= out@.len(),
                    o == views(out@),
                    bv == b@,
                    forall|a: int| p <= a < o.len() ==> #[trigger] o[a].created_at < bv.created_at,
                decreases p,
            {
                proof {
                    assert(o[p - 1] == out@[p - 1]@);
                    assert(o[p - 1].created_at < bv.created_at);
                }
                p = p - 1;
            }
            proof {
                if p > 0 {
                    assert(o[p - 1] == out@[p - 1]@);
                }
                assert(!has_uid(o, bv.uid)) by {
                    lemma_prefix_excludes(recs, i as int);
                }
                lemma_insert_keeps_order(o, p as int, bv);
            }
            out.insert(p, b);
            proof {
                assert(views(out@) =~= o.insert(p as int, bv));
                assert forall|k: Seq<char>| #[trigger] has_uid(views(out@), k) == has_uid(recs.take(i + 1), k) by {
                    lemma_has_uid_push(recs.take(i as int), recs[i as int], k);
                    assert(recs.take(i as int).push(recs[i as int]) =~= recs.take(i + 1));
                }
                assert forall|a: int| 0 <= a < out@.len()
                    implies #[trigger] self@.contains_key(views(out@)[a].uid) && self@[views(out@)[a].uid] == views(out@)[a] by {
                    if a < p {
                        assert(views(out@)[a] == o[a]);
                    } else if a > p {
                        assert(views(out@)[a] == o[a - 1]);
                    } else {
                        assert(views(out@)[a] == bv);
                        assert(bv == self.badges@[i as int]@);
                        assert(self@.contains_key(bv.uid) && self@[bv.uid] == bv);
                    }
                }
            }
            i = i + 1;
        }
        proof {
            assert(recs.take(n as int) =~= recs);
            assert forall|k: Seq<char>| #[trigger] self@.contains_key(k) implies has_uid(views(out@), k) by {}
        }
        Ok(out)
    }

    /// Whether the badge with this UID had expired at `now`.
    pub fn is_expired_at(&self, uid: &str, now: i128) -> (r: Result<bool, BadgeError>)
        requires
            self.wf(),
        ensures
            r is Ok <==> self@.contains_key(uid@),
            r matches Ok(v) ==> v == expired_at(self@[uid@], now),
            r matches Err(e) ==> e matches BadgeError::NotFound(u) && u@ == uid@,
    {
        match self.find(uid) {
            None => Err(BadgeError::NotFound(String::from_str(uid))),
            Some(i) => {
                proof { self.lemma_view_at(i as int); }
                match self.badges[i].expires_at {
                    Some(e) => Ok(now > e),
                    None => Ok(false),
                }
            },
        }
    }

    /// Whether the badge with this UID has expired; permanent badges never do.
    pub fn is_expired(&self, uid: &str) -> (r: Result<bool, BadgeError>)
        requires
            self.wf(),
        ensures
            r is Ok <==> self@.contains_key(uid@),
            r matches Ok(v) ==> exists|t: i128| v == #[trigger] expired_at(self@[uid@], t),
            r matches Ok(v) ==> (v ==> self@[uid@].expires_at is Some),
            r matches Err(e) ==> e matches BadgeError::NotFound(u) && u@ == uid@,
    {
        let now = now_timestamp();
        self.is_expired_at(uid, now)
    }

    /// The status line of the badge with this UID at `now`: `DISABLED`,
    /// `EXPIRED`, `PERMANENT`, or `TEMP (HHh MMm)` with the time left.
    pub fn badge_status_at(&self, uid: &str, now: i128) -> (r: Result<String, BadgeError>)
        requires
            self.wf(),
        ensures
            r is Ok <==> self@.contains_key(uid@),
            r matches Ok(s) ==> s@ == status_text(self@[uid@], now),
            r matches Err(e) ==> e matches BadgeError::NotFound(u) && u@ == uid@,
    {
        match self.find(uid) {
            None => Err(BadgeError::NotFound(String::from_str(uid))),
            Some(i) => {
                proof { self.lemma_view_at(i as int); }
                let b = &self.badges[i];
                if !b.enabled {
                    Ok(String::from_str("DISABLED"))
                } else {
                    match b.expires_at {
                        Some(e) => {
                            if now > e {
                                Ok(String::from_str("EXPIRED"))
                            } else {
                                let d: u128 = time_left(now, e);
                                let mut s = String::from_str("TEMP (");
                                push_decimal_pad2(&mut s, d / (NANOS_PER_HOUR as u128));
                                s.append("h ");
                                push_decimal_pad2(&mut s, (d / (NANOS_PER_MINUTE as u128)) % 60);
                                s.append("m)");
                                Ok(s)
                            }
                        },
                        None => Ok(String::from_str("PERMANENT")),
                    }
                }
            },
        }
    }

    /// The status line of the badge with this UID now.
    pub fn badge_status(&self, uid: &str) -> (r: Result<String, BadgeError>)
        requires
            self.wf(),
        ensures
            r is Ok <==> self@.contains_key(uid@),
            r matches Ok(s) ==> exists|t: i128| s@ == #[trigger] status_text(self@[uid@], t),
            r matches Ok(s) ==> (!self@[uid@].enabled ==> s@ == "DISABLED"@),
            r matches Ok(s) ==> (self@[uid@].enabled && self@[uid@].expires_at is None ==> s@ == "PERMANENT"@),
            r matches Err(e) ==> e matches BadgeError::NotFound(u) && u@ == uid@,
    {
        let now = now_timestamp();
        self.badge_status_at(uid, now)
    }

    /// Deletes the temporary badges that expired before `now`; returns how
    /// many were deleted.
    pub fn cleanup_expired_badges_at(&mut self, now: i128) -> (r: Result<usize, BadgeError>)
        requires
            old(self).wf(),
        ensures
            final(self).wf(),
            final(self)@ == unexpired(old(self)@, now),
            old(self)@.dom().finite() && final(self)@.dom().finite(),
            r matches Ok(c) && c == old(self)@.dom().len() - final(self)@.dom().len(),
            r matches Ok(c) ==> (c == 0 <==> final(self).rev() == old(self).rev()),
    {
        let ghost recs = self.records();
        let n = self.badges.len();
        let mut kept: Vec<Badge> = Vec::new();
        let mut i: usize = 0;
        while i < n
            invariant
                old(self).wf(),
                recs == old(self).records(),
                n == old(self).badges@.len(),
                *self == *old(self),
                i <= n,
                kept@.len() <= i,
                unique_uids(views(kept@)),
                unique_uids(recs.take(i as int)),
                table_of(views(kept@)) == unexpired(table_of(recs.take(i as int)), now),
            decreases n - i,
        {
            let ghost pre = recs.take(i as int);
            let ghost r = recs[i as int];
            proof {
                assert(r == self.badges@[i as int]@);
                lemma_prefix_excludes(recs, i as int);
                lemma_table_push(pre, r);
                assert(pre.push(r) =~= recs.take(i + 1));
            }
            let expired = match self.badges[i].expires_at {
                Some(e) => now > e,
                None => false,
            };
            if expired {
                proof {
                    assert(unexpired(table_of(pre).insert(r.uid, r), now) =~= unexpired(table_of(pre), now));
                }
            } else {
                let b = self.badges[i].snapshot();
                let ghost before = views(kept@);
                proof {
                    assert(!has_uid(views(kept@), r.uid)) by {
                        if has_uid(views(kept@), r.uid) {
                            let a = choose|a: int| 0 <= a < views(kept@).len() && #[trigger] views(kept@)[a].uid == r.uid;
                            lemma_table_at(views(kept@), a);
                            assert(table_of(pre).contains_key(r.uid));
                            let j = choose|j: int| 0 <= j < pre.len() && #[trigger] pre[j].uid == r.uid;
                        }
                    }
                    lemma_table_push(views(kept@), r);
                    assert(unexpired(table_of(pre).insert(r.uid, r), now) =~= unexpired(table_of(pre), now).insert(r.uid, r));
                }
                kept.push(b);
                proof {
                    assert(views(kept@) =~= before.push(r));
                }
            }
            i = i + 1;
        }
        proof {
            assert(recs.take(n as int) =~= recs);
            lemma_table_len(recs);
            lemma_table_len(views(kept@));
        }
        let removed = n - kept.len();
        self.badges = kept;
        proof {
            assert(self.records() =~= views(self.badges@));
        }
        if removed > 0 {
            self.bump_revision();
        }
        Ok(removed)
    }

    /// Deletes the temporary badges that expired before the current instant.
    pub fn cleanup_expired_badges(&mut self) -> (r: Result<usize, BadgeError>)
        requires
            old(self).wf(),
        ensures
            final(self).wf(),
            exists|t: i128| final(self)@ == #[trigger] unexpired(old(self)@, t),
            final(self)@.submap_of(old(self)@),
            forall|k: Seq<char>| #[trigger] old(self)@.contains_key(k) && old(self)@[k].expires_at is None
                ==> final(self)@.contains_key(k),
            old(self)@.dom().finite() && final(self)@.dom().finite(),
            r matches Ok(c) && c == old(self)@.dom().len() - final(self)@.dom().len(),
    {
        let now = now_timestamp();
        self.cleanup_expired_badges_at(now)
    }

    /// A registry holding the given badges, as loaded from storage; refused
    /// when two of them share a UID.
    pub fn from_badges(badges: Vec<Badge>) -> (r: Result<BadgeManager, BadgeError>)
        ensures
            r is Ok <==> unique_uids(views(badges@)),
            r matches Ok(m) ==> m.wf() && m@ == table_of(views(badges@)),
            r matches Err(e) ==> e matches BadgeError::DuplicateUid,
    {
        let ghost vs = views(badges@);
        let n = badges.len();
        let mut i: usize = 0;
        while i < n
            invariant
                n == badges@.len(),
                vs == views(badges@),
                i <= n,
                forall|a: int, b: int| 0 <= a < i && 0 <= b < n && a != b ==> #[trigger] vs[a].uid != #[trigger] vs[b].uid,
            decreases n - i,
        {
            let mut j: usize = 0;
            while j < n
                invariant
                    n == badges@.len(),
                    vs == views(badges@),
                    i < n,
                    j <= n,
                    forall|a: int, b: int| 0 <= a < i && 0 <= b < n && a != b ==> #[trigger] vs[a].uid != #[trigger] vs[b].uid,
                    forall|b: int| 0 <= b < j && b != i ==> vs[i as int].uid != #[trigger] vs[b].uid,
                decreases n - j,
            {
                if j != i && str_equal(badges[i].uid.as_str(), badges[j].uid.as_str()) {
                    proof {
                        assert(vs[i as int].uid == vs[j as int].uid);
                    }
                    return Err(BadgeError::DuplicateUid);
                }
                j = j + 1;
            }
            i = i + 1;
        }
        let m = BadgeManager { badges: badges, revision: 0 };
        proof {
            assert(m.records() =~= vs);
        }
        Ok(m)
    }
}

/// The records of a sequence of badges.
pub open spec fn views(s: Seq<Badge>) -> Seq<BadgeRecord> {
    s.map_values(|b: Badge| b@)
}

/// `s` lists the table: each badge once, most recently created first.
pub open spec fn is_listing(s: Seq<BadgeRecord>, m: Map<Seq<char>, BadgeRecord>) -> bool {
    &&& s.len() == m.dom().len()
    &&& forall|a: int| 0 <= a < s.len() ==> #[trigger] m.contains_key(s[a].uid) && m[s[a].uid] == s[a]
    &&& forall|k: Seq<char>| #[trigger] m.contains_key(k) ==> has_uid(s, k)
    &&& sorted_newest_first(s)
    &&& unique_uids(s)
}

/// Records ordered by creation instant, most recent first.
pub open spec fn sorted_newest_first(s: Seq<BadgeRecord>) -> bool {
    forall|a: int, b: int| 0 <= a < b < s.len() ==> #[trigger] s[a].created_at >= #[trigger] s[b].created_at
}

proof fn lemma_prefix_excludes(s: Seq<BadgeRecord>, i: int)
    requires
        unique_uids(s),
        0 <= i < s.len(),
    ensures
        !has_uid(s.take(i), s[i].uid),
{
    if has_uid(s.take(i), s[i].uid) {
        let j = choose|j: int| 0 <= j < s.take(i).len() && #[trigger] s.take(i)[j].uid == s[i].uid;
        assert(s[j].uid == s[i].uid);
    }
}

proof fn lemma_has_uid_push(s: Seq<BadgeRecord>, r: BadgeRecord, k: Seq<char>)
    ensures
        has_uid(s.push(r), k) == (has_uid(s, k) || r.uid == k),
{
    let t = s.push(r);
    if has_uid(s, k) {
        let j = choose|j: int| 0 <= j < s.len() && #[trigger] s[j].uid == k;
        assert(t[j] == s[j]);
    }
    if r.uid == k {
        assert(t[s.len() as int] == r);
    }
    if has_uid(t, k) && r.uid != k {
        let j = choose|j: int| 0 <= j < t.len() && #[trigger] t[j].uid == k;
        assert(t[j] == s[j]);
    }
}

proof fn lemma_insert_keeps_order(o: Seq<BadgeRecord>, p: int, b: BadgeRecord)
    requires
        sorted_newest_first(o),
        unique_uids(o),
        !has_uid(o, b.uid),
        0 <= p <= o.len(),
        p > 0 ==> o[p - 1].created_at >= b.created_at,
        forall|a: int| p <= a < o.len() ==> #[trigger] o[a].created_at < b.created_at,
    ensures
        sorted_newest_first(o.insert(p, b)),
        unique_uids(o.insert(p, b)),
        forall|k: Seq<char>| #[trigger] has_uid(o.insert(p, b), k) == (has_uid(o, k) || b.uid == k),
{
    let t = o.insert(p, b);
    assert forall|a: int| 0 <= a < t.len() implies #[trigger] t[a] == (if a < p { o[a] } else if a == p { b } else { o[a - 1] }) by {}
    assert forall|a: int| 0 <= a < p implies #[trigger] o[a].created_at >= b.created_at by {
        assert(o[a].created_at >= o[p - 1].created_at);
    }
    assert forall|a: int, c: int| 0 <= a < c < t.len() implies #[trigger] t[a].created_at >= #[trigger] t[c].created_at by {
        assert(t[a] == (if a < p { o[a] } else if a == p { b } else { o[a - 1] }));
        assert(t[c] == (if c < p { o[c] } else if c == p { b } else { o[c - 1] }));
    }
    assert forall|a: int, c: int| 0 <= a < t.len() && 0 <= c < t.len() && a != c
        implies #[trigger] t[a].uid != #[trigger] t[c].uid by {
        assert(t[a] == (if a < p { o[a] } else if a == p { b } else { o[a - 1] }));
        assert(t[c] == (if c < p { o[c] } else if c == p { b } else { o[c - 1] }));
        if a != p && c != p {
            let oa = if a < p { a } else { a - 1 };
            let oc = if c < p { c } else { c - 1 };
            assert(oa != oc);
        } else if a == p {
            let oc = if c < p { c } else { c - 1 };
            assert(o[oc].uid != b.uid);
        } else {
            let oa = if a < p { a } else { a - 1 };
            assert(o[oa].uid != b.uid);
        }
    }
    assert forall|k: Seq<char>| #[trigger] has_uid(t, k) == (has_uid(o, k) || b.uid == k) by {
        if has_uid(o, k) {
            let j = choose|j: int| 0 <= j < o.len() && #[trigger] o[j].uid == k;
            let tj = if j < p { j } else { j + 1 };
            assert(t[tj] == (if tj < p { o[tj] } else if tj == p { b } else { o[tj - 1] }));
        }
        if b.uid == k {
            assert(t[p] == b);
        }
        if has_uid(t, k) && b.uid != k {
            let j = choose|j: int| 0 <= j < t.len() && #[trigger] t[j].uid == k;
            assert(t[j] == (if j < p { o[j] } else if j == p { b } else { o[j - 1] }));
        }
    }
}

/// The table without the temporary badges that expired before `now`.
pub open spec fn unexpired(m: Map<Seq<char>, BadgeRecord>, now: i128) -> Map<Seq<char>, BadgeRecord> {
    Map::new(|k: Seq<char>| m.contains_key(k) && !expired_at(m[k], now), |k: Seq<char>| m[k])
}

/// Nanoseconds in a minute.
pub const NANOS_PER_MINUTE: u64 = 60_000_000_000;

/// Nanoseconds in an hour.
pub const NANOS_PER_HOUR: u64 = 3_600_000_000_000;

/// The nanoseconds from `now` to a later instant `e`.
fn time_left(now: i128, e: i128) -> (d: u128)
    requires
        now <= e,
    ensures
        d == e - now,
{
    if now >= 0 || e < 0 {
        (e - now) as u128
    } else {
        (e as u128) + ((-(now + 1)) as u128) + 1
    }
}

/// The status line of a badge at `now`.
pub open spec fn status_text(r: BadgeRecord, now: i128) -> Seq<char> {
    if !r.enabled {
        "DISABLED"@
    } else {
        match r.expires_at {
            Some(e) => if now > e {
                "EXPIRED"@
            } else {
                let left = (e - now) as nat;
                "TEMP ("@ + decimal_pad2(left / (NANOS_PER_HOUR as nat)) + "h "@ + decimal_pad2((left / (NANOS_PER_MINUTE as nat)) % 60) + "m)"@
            },
            None => "PERMANENT"@,
        }
    }
}

/// The UIDs of the enabled badges of a table.
pub open spec fn enabled_uids(m: Map<Seq<char>, BadgeRecord>) -> Set<Seq<char>> {
    m.dom().filter(|k: Seq<char>| m[k].enabled)
}

/// Some record among the first `i` is enabled and has this UID.
pub open spec fn enabled_in_prefix(s: Seq<BadgeRecord>, i: int, k: Seq<char>) -> bool {
    exists|j: int| 0 <= j < i && #[trigger] s[j].uid == k && s[j].enabled
}

} // verus!
