use vstd::prelude::*;
use crate::account::{default_settings, AutoCommitBehaviour, AutoPullBehaviour, AutoPushBehaviour, Settings};
use crate::error::RepoError;
use crate::ids::Uid;
use crate::row::{
    created_row, lemma_rows_read_back, merged_row, row_settings, written_row, RowView, SettingsRow,
};
use crate::text::same_text;
use crate::user::User;

verus! {

/// The stored preferences of one account.
#[derive(Debug, Clone)]
pub struct SettingsRecord {
    pub account_id: Uid,
    pub row: SettingsRow,
}

/// Accounts and their preferences, held in memory. Emails and ids are
/// unique among accounts, and every preferences record belongs to an account.
pub struct AccountStore {
    users: Vec<User>,
    records: Vec<SettingsRecord>,
}

/// What a store holds.
pub struct StoreView {
    /// The id of the account registered under each email.
    pub accounts: Map<Seq<char>, Uid>,
    /// The ids of all accounts.
    pub ids: Set<Uid>,
    /// The stored preferences record of each account that has one.
    pub rows: Map<Uid, RowView>,
}

pub open spec fn has_email(us: Seq<User>, e: Seq<char>) -> bool {
    exists|i: int| 0 <= i < us.len() && (#[trigger] us[i]).email@ == e
}

pub open spec fn id_of_email(us: Seq<User>, e: Seq<char>) -> Uid {
    us[choose|i: int| 0 <= i < us.len() && (#[trigger] us[i]).email@ == e].id
}

pub open spec fn accounts_of(us: Seq<User>) -> Map<Seq<char>, Uid> {
    Map::new(|e: Seq<char>| has_email(us, e), |e: Seq<char>| id_of_email(us, e))
}

pub open spec fn ids_of(us: Seq<User>) -> Set<Uid> {
    Set::new(|id: Uid| exists|i: int| 0 <= i < us.len() && (#[trigger] us[i]).id == id)
}

pub open spec fn has_record(rs: Seq<SettingsRecord>, id: Uid) -> bool {
    exists|i: int| 0 <= i < rs.len() && (#[trigger] rs[i]).account_id == id
}

pub open spec fn row_at(rs: Seq<SettingsRecord>, id: Uid) -> RowView {
    rs[choose|i: int| 0 <= i < rs.len() && (#[trigger] rs[i]).account_id == id].row@
}

pub open spec fn rows_of(rs: Seq<SettingsRecord>) -> Map<Uid, RowView> {
    Map::new(|id: Uid| has_record(rs, id), |id: Uid| row_at(rs, id))
}

pub open spec fn users_unique(us: Seq<User>) -> bool {
    forall|i: int, j: int|
        0 <= i < us.len() && 0 <= j < us.len() && i != j ==> (#[trigger] us[i]).email@
            != (#[trigger] us[j]).email@ && us[i].id != us[j].id
}

pub open spec fn records_unique(rs: Seq<SettingsRecord>) -> bool {
    forall|i: int, j: int|
        0 <= i < rs.len() && 0 <= j < rs.len() && i != j ==> (#[trigger] rs[i]).account_id
            != (#[trigger] rs[j]).account_id
}

impl View for AccountStore {
    type V = StoreView;

    closed spec fn view(&self) -> StoreView {
        StoreView {
            accounts: accounts_of(self.users@),
            ids: ids_of(self.users@),
            rows: rows_of(self.records@),
        }
    }
}

proof fn lemma_push_user(us: Seq<User>, u: User)
    requires
        users_unique(us),
        !has_email(us, u.email@),
        !ids_of(us).contains(u.id),
    ensures
        users_unique(us.push(u)),
        accounts_of(us.push(u)) == accounts_of(us).insert(u.email@, u.id),
        ids_of(us.push(u)) == ids_of(us).insert(u.id),
{
    let s = us.push(u);
    let n = us.len() as int;
    assert forall|i: int, j: int| 0 <= i < s.len() && 0 <= j < s.len() && i != j implies (
    #[trigger] s[i]).email@ != (#[trigger] s[j]).email@ && s[i].id != s[j].id by {
        if i == n {
            assert(us[j] == s[j]);
            assert(ids_of(us).contains(us[j].id));
        } else if j == n {
            assert(us[i] == s[i]);
            assert(ids_of(us).contains(us[i].id));
        } else {
            assert(us[i] == s[i] && us[j] == s[j]);
        }
    }
    assert forall|e: Seq<char>| has_email(s, e) == (has_email(us, e) || e == u.email@) by {
        if has_email(us, e) {
            let i = choose|i: int| 0 <= i < us.len() && (#[trigger] us[i]).email@ == e;
            assert(s[i] == us[i]);
        }
        if e == u.email@ {
            assert(s[n] == u);
        }
        if has_email(s, e) && e != u.email@ {
            let i = choose|i: int| 0 <= i < s.len() && (#[trigger] s[i]).email@ == e;
            assert(i < n);
            assert(s[i] == us[i]);
        }
    }
    assert forall|e: Seq<char>| has_email(s, e) implies id_of_email(s, e) == (if e == u.email@ {
        u.id
    } else {
        id_of_email(us, e)
    }) by {
        let i = choose|i: int| 0 <= i < s.len() && (#[trigger] s[i]).email@ == e;
        if e == u.email@ {
            if i < n {
                assert(s[i] == us[i]);
                assert(has_email(us, e));
            }
        } else {
            assert(i < n);
            assert(has_email(us, e));
            let j = choose|j: int| 0 <= j < us.len() && (#[trigger] us[j]).email@ == e;
            assert(s[j] == us[j]);
            assert(s[i] == us[i]);
        }
    }
    assert(accounts_of(s) =~= accounts_of(us).insert(u.email@, u.id));
    assert forall|id: Uid| ids_of(s).contains(id) == ids_of(us).insert(u.id).contains(id) by {
        if ids_of(us).contains(id) {
            let i = choose|i: int| 0 <= i < us.len() && (#[trigger] us[i]).id == id;
            assert(s[i] == us[i]);
        }
        if id == u.id {
            assert(s[n] == u);
        }
        if ids_of(s).contains(id) && id != u.id {
            let i = choose|i: int| 0 <= i < s.len() && (#[trigger] s[i]).id == id;
            assert(s[i] == us[i]);
        }
    }
    assert(ids_of(s) =~= ids_of(us).insert(u.id));
}

proof fn lemma_push_record(rs: Seq<SettingsRecord>, r: SettingsRecord)
    requires
        records_unique(rs),
        !has_record(rs, r.account_id),
    ensures
        records_unique(rs.push(r)),
        rows_of(rs.push(r)) == rows_of(rs).insert(r.account_id, r.row@),
{
    let s = rs.push(r);
    let n = rs.len() as int;
    assert forall|i: int, j: int| 0 <= i < s.len() && 0 <= j < s.len() && i != j implies (
    #[trigger] s[i]).account_id != (#[trigger] s[j]).account_id by {
        if i == n {
            assert(rs[j] == s[j]);
        } else if j == n {
            assert(rs[i] == s[i]);
        } else {
            assert(rs[i] == s[i] && rs[j] == s[j]);
        }
    }
    assert forall|id: Uid| has_record(s, id) == (has_record(rs, id) || id == r.account_id) by {
        if has_record(rs, id) {
            let i = choose|i: int| 0 <= i < rs.len() && (#[trigger] rs[i]).account_id == id;
            assert(s[i] == rs[i]);
        }
        if id == r.account_id {
            assert(s[n] == r);
        }
        if has_record(s, id) && id != r.account_id {
            let i = choose|i: int| 0 <= i < s.len() && (#[trigger] s[i]).account_id == id;
            assert(s[i] == rs[i]);
        }
    }
    assert forall|id: Uid| has_record(s, id) implies row_at(s, id) == (if id == r.account_id {
        r.row@
    } else {
        row_at(rs, id)
    }) by {
        let i = choose|i: int| 0 <= i < s.len() && (#[trigger] s[i]).account_id == id;
        if id == r.account_id {
            if i < n {
                assert(s[i] == rs[i]);
                assert(has_record(rs, id));
            }
        } else {
            assert(i < n);
            assert(has_record(rs, id));
            let j = choose|j: int| 0 <= j < rs.len() && (#[trigger] rs[j]).account_id == id;
            assert(s[j] == rs[j]);
            assert(s[i] == rs[i]);
        }
    }
    assert(rows_of(s) =~= rows_of(rs).insert(r.account_id, r.row@));
}

proof fn lemma_set_record(rs: Seq<SettingsRecord>, k: int, r: SettingsRecord)
    requires
        records_unique(rs),
        0 <= k < rs.len(),
        rs[k].account_id == r.account_id,
    ensures
        records_unique(rs.update(k, r)),
        rows_of(rs.update(k, r)) == rows_of(rs).insert(r.account_id, r.row@),
{
    let s = rs.update(k, r);
    assert forall|i: int, j: int| 0 <= i < s.len() && 0 <= j < s.len() && i != j implies (
    #[trigger] s[i]).account_id != (#[trigger] s[j]).account_id by {
        assert(rs[i].account_id == s[i].account_id);
        assert(rs[j].account_id == s[j].account_id);
    }
    assert forall|id: Uid| has_record(s, id) == has_record(rs, id) by {
        if has_record(rs, id) {
            let i = choose|i: int| 0 <= i < rs.len() && (#[trigger] rs[i]).account_id == id;
            assert(s[i].account_id == rs[i].account_id);
        }
        if has_record(s, id) {
            let i = choose|i: int| 0 <= i < s.len() && (#[trigger] s[i]).account_id == id;
            assert(s[i].account_id == rs[i].account_id);
        }
    }
    assert(has_record(rs, r.account_id)) by {
        assert(rs[k].account_id == r.account_id);
    }
    assert forall|id: Uid| has_record(s, id) implies row_at(s, id) == (if id == r.account_id {
        r.row@
    } else {
        row_at(rs, id)
    }) by {
        let i = choose|i: int| 0 <= i < s.len() && (#[trigger] s[i]).account_id == id;
        assert(s[i].account_id == rs[i].account_id);
        if id == r.account_id {
            assert(i == k);
        } else {
            let j = choose|j: int| 0 <= j < rs.len() && (#[trigger] rs[j]).account_id == id;
            assert(i != k);
            assert(s[i] == rs[i]);
        }
    }
    assert(rows_of(s) =~= rows_of(rs).insert(r.account_id, r.row@));
}

/// Registration: an email already in use is a duplicate entry and changes
/// nothing; otherwise the account gets an id that no account had, and the
/// account and its default preferences are stored together.
pub open spec fn registration(
    old: StoreView,
    email: Seq<char>,
    new: StoreView,
    r: Result<Uid, RepoError>,
) -> bool {
    if old.accounts.contains_key(email) {
        r matches Err(RepoError::DuplicateEntry(_)) && new == old
    } else {
        match r {
            Ok(id) => !old.ids.contains(id) && new == StoreView {
                accounts: old.accounts.insert(email, id),
                ids: old.ids.insert(id),
                rows: old.rows.insert(id, created_row(default_settings())),
            },
            Err(_) => false,
        }
    }
}

/// Creating preferences: a second record for an account is a duplicate
/// entry, a record for an unknown account a query error.
pub open spec fn creation(
    old: StoreView,
    id: Uid,
    s: Settings,
    new: StoreView,
    r: Result<(), RepoError>,
) -> bool {
    if old.rows.contains_key(id) {
        r matches Err(RepoError::DuplicateEntry(_)) && new == old
    } else if !old.ids.contains(id) {
        r matches Err(RepoError::QueryError(_)) && new == old
    } else {
        r == Ok::<(), RepoError>(()) && new == StoreView {
            rows: old.rows.insert(id, created_row(s)),
            ..old
        }
    }
}

/// Updating preferences: the record of the account is merged with the values
/// bound for `s`; where the account has no record nothing changes.
pub open spec fn update_outcome(
    old: StoreView,
    id: Uid,
    s: Settings,
    new: StoreView,
    r: Result<(), RepoError>,
) -> bool {
    if old.rows.contains_key(id) {
        r == Ok::<(), RepoError>(()) && new == StoreView {
            rows: old.rows.insert(id, merged_row(old.rows[id], written_row(s))),
            ..old
        }
    } else {
        r == Ok::<(), RepoError>(()) && new == old
    }
}

/// Looking preferences up: those the account's record holds, or not found.
pub open spec fn lookup(v: StoreView, id: Uid, r: Result<Settings, RepoError>) -> bool {
    if v.rows.contains_key(id) {
        r == Ok::<Settings, RepoError>(row_settings(v.rows[id]))
    } else {
        r matches Err(RepoError::NotFound(_))
    }
}

impl AccountStore {
    /// Unique emails, ids numbered in order of registration, and a record
    /// only for an existing account.
    pub closed spec fn wf(&self) -> bool {
        &&& users_unique(self.users@)
        &&& forall|i: int| 0 <= i < self.users@.len() ==> (#[trigger] self.users@[i]).id.bits == i
        &&& records_unique(self.records@)
        &&& forall|i: int|
            0 <= i < self.records@.len() ==> ids_of(self.users@).contains(
                #[trigger] self.records@[i].account_id,
            )
    }

    /// An empty store.
    pub fn new() -> (r: AccountStore)
        ensures
            r.wf(),
            r@.accounts.is_empty(),
            r@.ids.is_empty(),
            r@.rows.is_empty(),
    {
        let r = AccountStore { users: Vec::new(), records: Vec::new() };
        assert(r@.accounts =~= Map::empty());
        assert(r@.ids =~= Set::empty());
        assert(r@.rows =~= Map::empty());
        r
    }

    fn email_index(&self, email: &str) -> (r: Option<usize>)
        ensures
            match r {
                Some(i) => i < self.users@.len() && self.users@[i as int].email@ == email@,
                None => !has_email(self.users@, email@),
            },
    {
        let mut i: usize = 0;
        while i < self.users.len()
            invariant
                i <= self.users@.len(),
                forall|j: int| 0 <= j < i ==> (#[trigger] self.users@[j]).email@ != email@,
            decreases self.users@.len() - i,
        {
            if same_text(self.users[i].email.as_str(), email) {
                return Some(i);
            }
            i = i + 1;
        }
        None
    }

    fn id_in_use(&self, id: Uid) -> (r: bool)
        ensures
            r == ids_of(self.users@).contains(id),
    {
        let mut i: usize = 0;
        while i < self.users.len()
            invariant
                i <= self.users@.len(),
                forall|j: int| 0 <= j < i ==> (#[trigger] self.users@[j]).id != id,
            decreases self.users@.len() - i,
        {
            if self.users[i].id == id {
                assert(ids_of(self.users@).contains(id));
                return true;
            }
            i = i + 1;
        }
        false
    }

    fn record_index(&self, id: Uid) -> (r: Option<usize>)
        ensures
            match r {
                Some(i) => i < self.records@.len() && self.records@[i as int].account_id == id,
                None => !has_record(self.records@, id),
            },
    {
        let mut i: usize = 0;
        while i < self.records.len()
            invariant
                i <= self.records@.len(),
                forall|j: int| 0 <= j < i ==> (#[trigger] self.records@[j]).account_id != id,
            decreases self.records@.len() - i,
        {
            if self.records[i].account_id == id {
                return Some(i);
            }
            i = i + 1;
        }
        None
    }

    /// Registers an account under `email`, created at `now`, together with
    /// its default preferences, as one unit; the new account's id is one that
    /// no account has.
    pub fn register(&mut self, email: &str, now: i64) -> (r: Result<Uid, RepoError>)
        requires
            old(self).wf(),
        ensures
            final(self).wf(),
            registration(old(self)@, email@, final(self)@, r),
    {
        match self.email_index(email) {
            Some(_) => {
                return Err(RepoError::DuplicateEntry(String::from_str("account already registered")));
            },
            None => {},
        }
        let id = Uid { bits: self.users.len() as u128 };
        let user = User { id, email: String::from_str(email), created_at: now, updated_at: now };
        let record = SettingsRecord {
            account_id: id,
            row: SettingsRow::created(&Settings::defaults()),
        };
        proof {
            if ids_of(self.users@).contains(id) {
                let i = choose|i: int| 0 <= i < self.users@.len() && (#[trigger] self.users@[i]).id == id;
                assert(self.users@[i].id.bits == i);
            }
            if has_record(self.records@, id) {
                let i = choose|i: int| 0 <= i < self.records@.len() && (#[trigger] self.records@[i]).account_id == id;
                assert(ids_of(self.users@).contains(self.records@[i].account_id));
            }
            lemma_push_user(self.users@, user);
            lemma_push_record(self.records@, record);
        }
        let ghost old_users = self.users@;
        self.users.push(user);
        self.records.push(record);
        proof {
            assert forall|i: int| 0 <= i < self.records@.len() implies ids_of(self.users@).contains(
                #[trigger] self.records@[i].account_id,
            ) by {
                if i < self.records@.len() - 1 {
                    assert(ids_of(old_users).contains(self.records@[i].account_id));
                }
            }
            assert forall|i: int| 0 <= i < self.users@.len() implies (#[trigger] self.users@[i]).id.bits == i by {
                if i < old_users.len() {
                    assert(self.users@[i] == old_users[i]);
                }
            }
        }
        Ok(id)
    }

    /// The account registered under `email`, if any.
    pub fn find_by_email(&self, email: &str) -> (r: Option<Uid>)
        requires
            self.wf(),
        ensures
            r == (if self@.accounts.contains_key(email@) {
                Some(self@.accounts[email@])
            } else {
                None
            }),
    {
        match self.email_index(email) {
            Some(i) => {
                assert(has_email(self.users@, email@));
                Some(self.users[i].id)
            },
            None => None,
        }
    }
    /// The account registered under `email`; not found when there is none.
    pub fn resolve(&self, email: &str) -> (r: Result<Uid, RepoError>)
        requires
            self.wf(),
        ensures
            if self@.accounts.contains_key(email@) {
                r == Ok::<Uid, RepoError>(self@.accounts[email@])
            } else {
                r matches Err(RepoError::NotFound(_))
            },
    {
        match self.find_by_email(email) {
            Some(id) => Ok(id),
            None => Err(RepoError::NotFound(String::from_str("account not found"))),
        }
    }

    /// Stores the preferences `s` for the account `id`.
    pub fn create(&mut self, id: Uid, s: &Settings) -> (r: Result<(), RepoError>)
        requires
            old(self).wf(),
        ensures
            final(self).wf(),
            creation(old(self)@, id, *s, final(self)@, r),
    {
        match self.record_index(id) {
            Some(_) => {
                return Err(RepoError::DuplicateEntry(String::from_str("settings already exist")));
            },
            None => {},
        }
        if !self.id_in_use(id) {
            return Err(RepoError::QueryError(String::from_str("no account with this id")));
        }
        let record = SettingsRecord { account_id: id, row: SettingsRow::created(s) };
        proof {
            lemma_push_record(self.records@, record);
        }
        let ghost old_records = self.records@;
        self.records.push(record);
        proof {
            assert forall|i: int| 0 <= i < self.records@.len() implies ids_of(self.users@).contains(
                #[trigger] self.records@[i].account_id,
            ) by {
                if i < old_records.len() {
                    assert(self.records@[i] == old_records[i]);
                }
            }
        }
        Ok(())
    }

    /// Replaces the tags of the account's preferences with those of `s`; a
    /// parameter column is overwritten only where `s` supplies a non-zero
    /// parameter, so the parameters of inactive variants are kept. An account
    /// without preferences is left as it is.
    pub fn update(&mut self, id: Uid, s: &Settings) -> (r: Result<(), RepoError>)
        requires
            old(self).wf(),
        ensures
            final(self).wf(),
            update_outcome(old(self)@, id, *s, final(self)@, r),
    {
        match self.record_index(id) {
            Some(i) => {
                let row = self.records[i].row.merged(&SettingsRow::written(s));
                let record = SettingsRecord { account_id: id, row };
                proof {
                    assert(has_record(self.records@, id));
                    let k = choose|k: int| 0 <= k < self.records@.len() && (#[trigger] self.records@[k]).account_id == id;
                    assert(k == i);
                    lemma_set_record(self.records@, i as int, record);
                }
                let ghost old_records = self.records@;
                self.records.set(i, record);
                proof {
                    assert forall|j: int| 0 <= j < self.records@.len() implies ids_of(self.users@).contains(
                        #[trigger] self.records@[j].account_id,
                    ) by {
                        assert(self.records@[j].account_id == old_records[j].account_id);
                    }
                }
                Ok(())
            },
            None => Ok(()),
        }
    }

    /// The preferences of the account `id`; not found when it has none.
    pub fn find_by_user_id(&self, id: Uid) -> (r: Result<Settings, RepoError>)
        requires
            self.wf(),
        ensures
            lookup(self@, id, r),
    {
        match self.record_index(id) {
            Some(i) => {
                proof {
                    assert(has_record(self.records@, id));
                }
                Ok(self.records[i].row.to_settings())
            },
            None => Err(RepoError::NotFound(String::from_str("settings not found"))),
        }
    }
}

impl AccountStore {
    /// Every stored preferences record belongs to a registered account.
    pub proof fn lemma_rows_belong_to_accounts(&self)
        requires
            self.wf(),
        ensures
            forall|id: Uid| #[trigger] self@.rows.contains_key(id) ==> self@.ids.contains(id),
    {
        assert forall|id: Uid| #[trigger] self@.rows.contains_key(id) implies self@.ids.contains(id) by {
            let i = choose|i: int| 0 <= i < self.records@.len() && (#[trigger] self.records@[i]).account_id == id;
            assert(ids_of(self.users@).contains(self.records@[i].account_id));
        }
    }
}

/// Registering an unused email succeeds; registering it a second time is a
/// duplicate entry that leaves the store as it was.
pub proof fn lemma_second_registration_conflicts(
    v0: StoreView,
    v1: StoreView,
    v2: StoreView,
    email: Seq<char>,
    r1: Result<Uid, RepoError>,
    r2: Result<Uid, RepoError>,
)
    requires
        !v0.accounts.contains_key(email),
        registration(v0, email, v1, r1),
        registration(v1, email, v2, r2),
    ensures
        r1 is Ok,
        v1.accounts.contains_key(email) && v1.accounts[email] == r1->Ok_0,
        r2 matches Err(RepoError::DuplicateEntry(_)),
        v2 == v1,
{
    assert(v1.accounts.contains_key(email));
}

/// Right after a registration, the new account's preferences are the
/// defaults: Unix commands, and every behaviour off.
pub proof fn lemma_registration_provisions_defaults(
    v0: StoreView,
    v1: StoreView,
    email: Seq<char>,
    r: Result<Uid, RepoError>,
    found: Result<Settings, RepoError>,
)
    requires
        registration(v0, email, v1, r),
        r is Ok,
        lookup(v1, r->Ok_0, found),
    ensures
        found == Ok::<Settings, RepoError>(default_settings()),
{
    lemma_rows_read_back(default_settings());
}

/// Every timer and count of `s` is non-zero, so that an update with `s`
/// supplies the parameter of each active variant.
pub open spec fn supplies_parameters(s: Settings) -> bool {
    &&& (s.auto_commit_behaviour matches AutoCommitBehaviour::Timer(d) ==> d != 0)
    &&& (s.auto_commit_behaviour matches AutoCommitBehaviour::Count(n) ==> n != 0)
    &&& (s.auto_pull_behaviour matches AutoPullBehaviour::Timer(d) ==> d != 0)
    &&& (s.auto_push_behaviour matches AutoPushBehaviour::Timer(d) ==> d != 0)
    &&& (s.auto_push_behaviour matches AutoPushBehaviour::Count(n) ==> n != 0)
}

/// After an update that supplies every active parameter, reading the
/// preferences back gives exactly the preferences written.
pub proof fn lemma_update_then_read(
    v0: StoreView,
    v1: StoreView,
    id: Uid,
    s: Settings,
    r: Result<(), RepoError>,
    found: Result<Settings, RepoError>,
)
    requires
        v0.rows.contains_key(id),
        supplies_parameters(s),
        update_outcome(v0, id, s, v1, r),
        lookup(v1, id, found),
    ensures
        found == Ok::<Settings, RepoError>(s),
{
    lemma_rows_read_back(s);
}

/// A push timer interval survives a switch to counting: after an update to a
/// timer of `d` milliseconds, one to a count, and one back to a timer that
/// supplies no interval, the stored push behaviour is again a timer of `d`.
pub proof fn lemma_timer_interval_retained(
    v0: StoreView,
    v1: StoreView,
    v2: StoreView,
    v3: StoreView,
    id: Uid,
    s1: Settings,
    s2: Settings,
    s3: Settings,
    r1: Result<(), RepoError>,
    r2: Result<(), RepoError>,
    r3: Result<(), RepoError>,
    d: u64,
    n: u32,
)
    requires
        v0.rows.contains_key(id),
        update_outcome(v0, id, s1, v1, r1),
        update_outcome(v1, id, s2, v2, r2),
        update_outcome(v2, id, s3, v3, r3),
        s1.auto_push_behaviour == AutoPushBehaviour::Timer(d),
        d != 0,
        s2.auto_push_behaviour == AutoPushBehaviour::Count(n),
        s3.auto_push_behaviour == AutoPushBehaviour::Timer(0),
    ensures
        v3.rows.contains_key(id),
        row_settings(v3.rows[id]).auto_push_behaviour == AutoPushBehaviour::Timer(d),
{
}

/// Looking up the preferences of an id that no account has is not found.
pub proof fn lemma_unknown_account_not_found(
    store: &AccountStore,
    id: Uid,
    found: Result<Settings, RepoError>,
)
    requires
        store.wf(),
        !store@.ids.contains(id),
        lookup(store@, id, found),
    ensures
        found matches Err(RepoError::NotFound(_)),
{
    store.lemma_rows_belong_to_accounts();
}

} // verus!
