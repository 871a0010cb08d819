//! Stored accounts: sessions kept under a name of the user's choosing.
//!
//! Reading and writing the accounts file is the caller's part. The manager
//! here holds the accounts in memory, each name at most once.

use crate::text::{decimal_u64, spec_decimal};
use vstd::prelude::*;
use vstd::string::StringExecFns;

verus! {

/// The identity a client plays under.
#[derive(Debug, PartialEq, Eq)]
pub struct SessionInfo {
    pub username: String,
    pub player_id: String,
    pub access_token: String,
    pub session_type: String,
}

/// Model of a [`SessionInfo`].
pub struct SessionModel {
    pub username: Seq<char>,
    pub player_id: Seq<char>,
    pub access_token: Seq<char>,
    pub session_type: Seq<char>,
}

impl View for SessionInfo {
    type V = SessionModel;

    open spec fn view(&self) -> SessionModel {
        SessionModel {
            username: self.username@,
            player_id: self.player_id@,
            access_token: self.access_token@,
            session_type: self.session_type@,
        }
    }
}

impl Clone for SessionInfo {
    fn clone(&self) -> (r: Self)
        ensures
            r@ == self@,
    {
        SessionInfo {
            username: self.username.clone(),
            player_id: self.player_id.clone(),
            access_token: self.access_token.clone(),
            session_type: self.session_type.clone(),
        }
    }
}

impl Default for SessionInfo {
    /// The session of a client that has not logged in.
    fn default() -> (r: Self)
        ensures
            r@ == (SessionModel {
                username: "Player"@,
                player_id: "00000000-0000-0000-0000-000000000000"@,
                access_token: "0"@,
                session_type: "mojang"@,
            }),
    {
        SessionInfo {
            username: String::from_str("Player"),
            player_id: String::from_str("00000000-0000-0000-0000-000000000000"),
            access_token: String::from_str("0"),
            session_type: String::from_str("mojang"),
        }
    }
}

/// A session stored under a name, with the time it was stored and the time
/// it was last used, in seconds since the epoch.
#[derive(Debug, PartialEq, Eq)]
pub struct StoredAccount {
    pub name: String,
    pub username: String,
    pub player_id: String,
    pub access_token: String,
    pub session_type: String,
    pub created_at: u64,
    pub last_used: Option<u64>,
}

/// Model of a [`StoredAccount`].
pub struct AccountModel {
    pub name: Seq<char>,
    pub session: SessionModel,
    pub created_at: u64,
    pub last_used: Option<u64>,
}

impl View for StoredAccount {
    type V = AccountModel;

    open spec fn view(&self) -> AccountModel {
        AccountModel {
            name: self.name@,
            session: SessionModel {
                username: self.username@,
                player_id: self.player_id@,
                access_token: self.access_token@,
                session_type: self.session_type@,
            },
            created_at: self.created_at,
            last_used: self.last_used,
        }
    }
}

impl Clone for StoredAccount {
    fn clone(&self) -> (r: Self)
        ensures
            r@ == self@,
    {
        StoredAccount {
            name: self.name.clone(),
            username: self.username.clone(),
            player_id: self.player_id.clone(),
            access_token: self.access_token.clone(),
            session_type: self.session_type.clone(),
            created_at: self.created_at,
            last_used: self.last_used,
        }
    }
}

/// `SystemTime::now`, as whole seconds since the epoch; 0 for a clock that
/// stands before the epoch. Nothing is promised of the value: it is the
/// time of the call.
#[verifier::external_body]
pub(crate) fn unix_now_secs() -> u64 {
    match std::time::SystemTime::now().duration_since(std::time::UNIX_EPOCH) {
        Ok(d) => d.as_secs(),
        Err(_) => 0,
    }
}

/// How long ago `time` was, seen from `now`, in words.
pub open spec fn spec_format_age(now: u64, time: Option<u64>) -> Seq<char> {
    match time {
        None => "Never"@,
        Some(t) => {
            let diff: nat = if now >= t {
                (now - t) as nat
            } else {
                0
            };
            if diff < 60 {
                "Just now"@
            } else if diff < 3600 {
                spec_decimal(diff / 60) + " minutes ago"@
            } else if diff < 86400 {
                spec_decimal(diff / 3600) + " hours ago"@
            } else if diff < 2592000 {
                spec_decimal(diff / 86400) + " days ago"@
            } else if diff < 31536000 {
                spec_decimal(diff / 2592000) + " months ago"@
            } else {
                spec_decimal(diff / 31536000) + " years ago"@
            }
        },
    }
}

/// How long ago `time` was, seen from `now`, in words: `Never` for no time,
/// `Just now` under a minute, then whole minutes, hours, days, months of 30
/// days and years of 365 days.
pub fn format_age(now: u64, time: Option<u64>) -> (s: String)
    ensures
        s@ == spec_format_age(now, time),
{
    match time {
        None => String::from_str("Never"),
        Some(t) => {
            let diff = now.saturating_sub(t);
            if diff < 60 {
                String::from_str("Just now")
            } else if diff < 3600 {
                decimal_u64(diff / 60).concat(" minutes ago")
            } else if diff < 86400 {
                decimal_u64(diff / 3600).concat(" hours ago")
            } else if diff < 2592000 {
                decimal_u64(diff / 86400).concat(" days ago")
            } else if diff < 31536000 {
                decimal_u64(diff / 2592000).concat(" months ago")
            } else {
                decimal_u64(diff / 31536000).concat(" years ago")
            }
        },
    }
}

impl StoredAccount {
    /// The account that stores `session` under `name` at the time `now`.
    pub open spec fn spec_created(name: Seq<char>, session: SessionModel, now: u64) -> AccountModel {
        AccountModel { name, session, created_at: now, last_used: None }
    }

    /// Stores `session` under `name` at the time `now`. The account has not
    /// been used yet.
    pub fn created(name: String, session: SessionInfo, now: u64) -> (r: Self)
        ensures
            r@ == Self::spec_created(name@, session@, now),
    {
        StoredAccount {
            name,
            username: session.username,
            player_id: session.player_id,
            access_token: session.access_token,
            session_type: session.session_type,
            created_at: now,
            last_used: None,
        }
    }

    /// Stores `session` under `name`, now.
    pub fn new(name: String, session: SessionInfo) -> (r: Self)
        ensures
            r@ == Self::spec_created(name@, session@, r.created_at),
    {
        let now = unix_now_secs();
        Self::created(name, session, now)
    }

    /// The session this account stores.
    pub fn to_session_info(&self) -> (r: SessionInfo)
        ensures
            r@ == self@.session,
    {
        SessionInfo {
            username: self.username.clone(),
            player_id: self.player_id.clone(),
            access_token: self.access_token.clone(),
            session_type: self.session_type.clone(),
        }
    }

    /// Marks the account as used at the time `now`.
    pub fn mark_used(&mut self, now: u64)
        ensures
            final(self)@ == (AccountModel { last_used: Some(now), ..old(self)@ }),
    {
        self.last_used = Some(now);
    }

    /// Marks the account as used now.
    pub fn update_last_used(&mut self)
        ensures
            final(self)@.last_used is Some,
            final(self)@ == (AccountModel { last_used: final(self)@.last_used, ..old(self)@ }),
    {
        let now = unix_now_secs();
        self.mark_used(now);
    }

    /// How long ago the account was stored, seen from now.
    pub fn format_created_date(&self) -> (s: String)
        ensures
            exists|now: u64| s@ == spec_format_age(now, Some(self.created_at)),
    {
        self.format_time(Some(self.created_at))
    }

    /// How long ago the account was last used, seen from now.
    pub fn format_last_used(&self) -> (s: String)
        ensures
            exists|now: u64| s@ == spec_format_age(now, self.last_used),
    {
        self.format_time(self.last_used)
    }

    /// How long ago `time` was, seen from now.
    pub fn format_time(&self, time: Option<u64>) -> (s: String)
        ensures
            exists|now: u64| s@ == spec_format_age(now, time),
    {
        let now = unix_now_secs();
        let s = format_age(now, time);
        assert(s@ == spec_format_age(now, time));
        s
    }
}

/// The accounts as they are kept on file.
#[derive(Debug)]
pub struct AccountStorage {
    pub accounts: Vec<StoredAccount>,
    pub version: u32,
}

impl Default for AccountStorage {
    fn default() -> (r: Self)
        ensures
            r.accounts@ == Seq::<StoredAccount>::empty(),
            r.version == 1,
    {
        AccountStorage { accounts: Vec::new(), version: 1 }
    }
}

/// The models of a run of accounts.
pub open spec fn account_models(list: Seq<StoredAccount>) -> Seq<AccountModel> {
    list.map_values(|a: StoredAccount| a@)
}

/// Index of the first account from `i` on with the name `name`, or the number
/// of accounts when there is none.
pub open spec fn first_named(list: Seq<AccountModel>, name: Seq<char>, i: int) -> int
    decreases list.len() - i,
{
    if i < 0 || i >= list.len() {
        list.len() as int
    } else if list[i].name == name {
        i
    } else {
        first_named(list, name, i + 1)
    }
}

/// Whether an account with the name `name` is among `list`.
pub open spec fn has_name(list: Seq<AccountModel>, name: Seq<char>) -> bool {
    first_named(list, name, 0) < list.len()
}

/// No name occurs twice.
pub open spec fn names_unique(list: Seq<AccountModel>) -> bool {
    forall|i: int, j: int| 0 <= i < j < list.len() ==> list[i].name != list[j].name
}

pub proof fn lemma_first_named_bounds(list: Seq<AccountModel>, name: Seq<char>, i: int)
    requires
        0 <= i,
    ensures
        i <= first_named(list, name, i) || first_named(list, name, i) == list.len(),
        first_named(list, name, i) <= list.len(),
        first_named(list, name, i) < list.len() ==> list[first_named(list, name, i)].name == name,
        forall|j: int| i <= j < first_named(list, name, i) ==> list[j].name != name,
    decreases list.len() - i,
{
    if i < list.len() && list[i].name != name {
        lemma_first_named_bounds(list, name, i + 1);
    }
}

/// The rank of an account in the list shown to the user: accounts that were
/// used come first, the last used at the top; then those never used, the
/// newest at the top. A higher rank comes first.
pub open spec fn rank(a: AccountModel) -> int {
    match a.last_used {
        Some(t) => 0x1_0000_0000_0000_0000 + t,
        None => a.created_at as int,
    }
}

/// Whether the accounts stand by falling rank.
pub open spec fn by_rank(list: Seq<AccountModel>) -> bool {
    forall|i: int, j: int| 0 <= i < j < list.len() ==> rank(list[i]) >= rank(list[j])
}

/// Keeps the stored accounts.
#[derive(Debug)]
pub struct AccountManager {
    storage: AccountStorage,
    config_path: String,
}

impl View for AccountManager {
    type V = Seq<AccountModel>;

    /// The accounts, in the order in which they were added.
    closed spec fn view(&self) -> Seq<AccountModel> {
        account_models(self.storage.accounts@)
    }
}

impl AccountManager {
    #[verifier::type_invariant]
    spec fn inv(self) -> bool {
        names_unique(account_models(self.storage.accounts@))
    }

    /// The path of the accounts file.
    pub closed spec fn spec_config_path(&self) -> Seq<char> {
        self.config_path@
    }

    /// The version of the file format.
    pub closed spec fn spec_version(&self) -> u32 {
        self.storage.version
    }

    /// A manager without accounts, for the file `sessions.json`.
    pub fn new() -> (m: Self)
        ensures
            m@ == Seq::<AccountModel>::empty(),
            m.spec_config_path() == "sessions.json"@,
            m.spec_version() == 1,
    {
        let m = AccountManager {
            storage: AccountStorage::default(),
            config_path: String::from_str("sessions.json"),
        };
        assert(account_models(m.storage.accounts@) =~= Seq::<AccountModel>::empty());
        m
    }

    /// The accounts as they are written to the file.
    pub fn storage(&self) -> (r: &AccountStorage)
        ensures
            account_models(r.accounts@) == self@,
            r.version == self.spec_version(),
    {
        &self.storage
    }

    /// Whether no name occurs twice in `list`.
    fn all_names_differ(list: &Vec<StoredAccount>) -> (r: bool)
        ensures
            r == names_unique(account_models(list@)),
    {
        let ghost models = account_models(list@);
        let mut j: usize = 0;
        while j < list.len()
            invariant
                j <= list@.len(),
                models == account_models(list@),
                forall|a: int, b: int| 0 <= a < b < j ==> models[a].name != models[b].name,
            decreases list@.len() - j,
        {
            let mut i: usize = 0;
            while i < j
                invariant
                    i <= j < list@.len(),
                    models == account_models(list@),
                    forall|a: int| 0 <= a < i ==> models[a].name != models[j as int].name,
                decreases j - i,
            {
                if list[i].name == list[j].name {
                    assert(models[i as int].name == models[j as int].name);
                    return false;
                }
                i += 1;
            }
            j += 1;
        }
        true
    }

    /// Takes over the accounts read from the file. Accounts that share a
    /// name are refused, and the manager keeps what it had.
    pub fn load_accounts(&mut self, storage: AccountStorage) -> (r: Result<(), String>)
        ensures
            names_unique(account_models(storage.accounts@)) ==> r is Ok && final(self)@
                == account_models(storage.accounts@) && final(self).spec_version()
                == storage.version,
            !names_unique(account_models(storage.accounts@)) ==> r is Err && r->Err_0@
                == "Failed to parse config file: duplicate account name"@ && final(self)@ == old(self)@ && final(self).spec_version() == old(self).spec_version(),
            final(self).spec_config_path() == old(self).spec_config_path(),
    {
        if !Self::all_names_differ(&storage.accounts) {
            return Err(String::from_str("Failed to parse config file: duplicate account name"));
        }
        self.storage = storage;
        Ok(())
    }

    /// The path of the accounts file.
    pub fn config_path(&self) -> (p: &String)
        ensures
            p@ == self.spec_config_path(),
    {
        &self.config_path
    }

    /// No name occurs twice among the accounts.
    pub fn get_account_count(&self) -> (n: usize)
        ensures
            n == self@.len(),
            names_unique(self@),
    {
        proof {
            use_type_invariant(self);
        }
        self.storage.accounts.len()
    }

    /// Takes the list out, leaving none behind.
    fn take_list(&mut self) -> (list: Vec<StoredAccount>)
        ensures
            list@ == old(self).storage.accounts@,
            names_unique(account_models(list@)),
            final(self).storage.accounts@ == Seq::<StoredAccount>::empty(),
            final(self).config_path == old(self).config_path,
            final(self).storage.version == old(self).storage.version,
    {
        proof {
            use_type_invariant(&*self);
        }
        let mut list: Vec<StoredAccount> = Vec::new();
        assert(names_unique(account_models(list@)));
        std::mem::swap(&mut list, &mut self.storage.accounts);
        list
    }

    /// Puts a list in place.
    fn put_list(&mut self, list: Vec<StoredAccount>)
        requires
            names_unique(account_models(list@)),
        ensures
            final(self).storage.accounts@ == list@,
            final(self)@ == account_models(list@),
            final(self).config_path == old(self).config_path,
            final(self).storage.version == old(self).storage.version,
    {
        self.storage.accounts = list;
    }

    fn position_of(&self, name: &String) -> (pos: usize)
        ensures
            pos == first_named(self@, name@, 0),
            pos <= self@.len(),
            pos < self@.len() <==> has_name(self@, name@),
            names_unique(self@),
    {
        proof {
            use_type_invariant(self);
        }
        let mut i: usize = 0;
        while i < self.storage.accounts.len() && !(self.storage.accounts[i].name == *name)
            invariant
                i <= self.storage.accounts@.len(),
                first_named(self@, name@, 0) == first_named(self@, name@, i as int),
                self@ == account_models(self.storage.accounts@),
            decreases self.storage.accounts@.len() - i,
        {
            i += 1;
        }
        proof {
            lemma_first_named_bounds(self@, name@, i as int);
        }
        i
    }

    /// Adds `account` under its own name. Refused when the name is taken.
    pub fn add_stored(&mut self, account: StoredAccount) -> (r: Result<(), String>)
        ensures
            has_name(old(self)@, account@.name) ==> r is Err && r->Err_0@
                == "Account with this name already exists"@ && final(self)@ == old(self)@,
            !has_name(old(self)@, account@.name) ==> r is Ok && final(self)@ == old(self)@.push(
                account@,
            ),
            final(self).spec_config_path() == old(self).spec_config_path(),
            final(self).spec_version() == old(self).spec_version(),
    {
        let pos = self.position_of(&account.name);
        if pos < self.storage.accounts.len() {
            return Err(String::from_str("Account with this name already exists"));
        }
        let mut list = self.take_list();
        proof {
            lemma_first_named_bounds(old(self)@, account@.name, 0);
            assert(account_models(list@.push(account)) =~= old(self)@.push(account@));
        }
        list.push(account);
        self.put_list(list);
        Ok(())
    }

    /// Stores `session` under `name`, now. Refused when the name is taken.
    pub fn add_account(&mut self, name: String, session: SessionInfo) -> (r: Result<(), String>)
        ensures
            has_name(old(self)@, name@) ==> r is Err && r->Err_0@
                == "Account with this name already exists"@ && final(self)@ == old(self)@,
            !has_name(old(self)@, name@) ==> r is Ok && final(self)@.len() == old(self)@.len() + 1
                && final(self)@.drop_last() == old(self)@ && final(self)@.last()
                == StoredAccount::spec_created(name@, session@, final(self)@.last().created_at),
    {
        let account = StoredAccount::new(name, session);
        let r = self.add_stored(account);
        proof {
            if r is Ok {
                assert(self@.drop_last() =~= old(self)@);
            }
        }
        r
    }

    /// Takes the account named `name` out. The other accounts keep their
    /// order.
    pub fn remove_account(&mut self, name: &str) -> (r: Result<(), String>)
        ensures
            has_name(old(self)@, name@) ==> r is Ok && final(self)@ == old(self)@.remove(
                first_named(old(self)@, name@, 0),
            ),
            !has_name(old(self)@, name@) ==> r is Err && r->Err_0@ == "Account not found"@
                && final(self)@ == old(self)@,
    {
        let key = String::from_str(name);
        let pos = self.position_of(&key);
        if pos >= self.storage.accounts.len() {
            return Err(String::from_str("Account not found"));
        }
        let mut list = self.take_list();
        let _ = list.remove(pos);
        proof {
            assert(account_models(list@) =~= old(self)@.remove(pos as int));
        }
        self.put_list(list);
        Ok(())
    }

    /// The account named `name`.
    pub fn get_account(&self, name: &str) -> (r: Option<&StoredAccount>)
        ensures
            has_name(self@, name@) ==> r is Some && r->0@ == self@[first_named(self@, name@, 0)],
            !has_name(self@, name@) ==> r is None,
    {
        let key = String::from_str(name);
        let pos = self.position_of(&key);
        if pos < self.storage.accounts.len() {
            Some(&self.storage.accounts[pos])
        } else {
            None
        }
    }

    /// Replaces the session of the account named `name` and marks the account
    /// as used at the time `now`.
    pub fn update_account_at(&mut self, name: &str, session: SessionInfo, now: u64) -> (r: Result<
        (),
        String,
    >)
        ensures
            has_name(old(self)@, name@) ==> r is Ok && final(self)@ == old(self)@.update(
                first_named(old(self)@, name@, 0),
                AccountModel {
                    session: session@,
                    last_used: Some(now),
                    ..old(self)@[first_named(old(self)@, name@, 0)]
                },
            ),
            !has_name(old(self)@, name@) ==> r is Err && r->Err_0@ == "Account not found"@
                && final(self)@ == old(self)@,
    {
        let key = String::from_str(name);
        let pos = self.position_of(&key);
        if pos >= self.storage.accounts.len() {
            return Err(String::from_str("Account not found"));
        }
        let mut list = self.take_list();
        let old_account = list.remove(pos);
        let account = StoredAccount {
            name: old_account.name,
            username: session.username,
            player_id: session.player_id,
            access_token: session.access_token,
            session_type: session.session_type,
            created_at: old_account.created_at,
            last_used: Some(now),
        };
        proof {
            assert(account_models(list@.insert(pos as int, account)) =~= old(self)@.update(
                pos as int,
                account@,
            ));
        }
        list.insert(pos, account);
        self.put_list(list);
        Ok(())
    }

    /// Replaces the session of the account named `name` and marks the account
    /// as used now.
    pub fn update_account(&mut self, name: &str, session: SessionInfo) -> (r: Result<(), String>)
        ensures
            has_name(old(self)@, name@) ==> r is Ok && final(self)@.len() == old(self)@.len()
                && final(self)@[first_named(old(self)@, name@, 0)].last_used is Some && final(self)@ == old(self)@.update(
                first_named(old(self)@, name@, 0),
                AccountModel {
                    session: session@,
                    last_used: final(self)@[first_named(old(self)@, name@, 0)].last_used,
                    ..old(self)@[first_named(old(self)@, name@, 0)]
                },
            ),
            !has_name(old(self)@, name@) ==> r is Err && r->Err_0@ == "Account not found"@
                && final(self)@ == old(self)@,
    {
        let now = unix_now_secs();
        proof {
            lemma_first_named_bounds(old(self)@, name@, 0);
        }
        self.update_account_at(name, session, now)
    }

    /// Marks the account named `name` as used at the time `now` and gives its
    /// session.
    pub fn use_account_at(&mut self, name: &str, now: u64) -> (r: Result<SessionInfo, String>)
        ensures
            has_name(old(self)@, name@) ==> r is Ok && r->Ok_0@ == old(self)@[first_named(
                old(self)@,
                name@,
                0,
            )].session && final(self)@ == old(self)@.update(
                first_named(old(self)@, name@, 0),
                AccountModel {
                    last_used: Some(now),
                    ..old(self)@[first_named(old(self)@, name@, 0)]
                },
            ),
            !has_name(old(self)@, name@) ==> r is Err && r->Err_0@ == "Account not found"@
                && final(self)@ == old(self)@,
    {
        let key = String::from_str(name);
        let pos = self.position_of(&key);
        if pos >= self.storage.accounts.len() {
            return Err(String::from_str("Account not found"));
        }
        let mut list = self.take_list();
        let mut account = list.remove(pos);
        account.mark_used(now);
        let session = account.to_session_info();
        proof {
            assert(account_models(list@.insert(pos as int, account)) =~= old(self)@.update(
                pos as int,
                account@,
            ));
        }
        list.insert(pos, account);
        self.put_list(list);
        Ok(session)
    }

    /// Marks the account named `name` as used now and gives its session.
    pub fn use_account(&mut self, name: &str) -> (r: Result<SessionInfo, String>)
        ensures
            has_name(old(self)@, name@) ==> r is Ok && r->Ok_0@ == old(self)@[first_named(
                old(self)@,
                name@,
                0,
            )].session && final(self)@.len() == old(self)@.len() && final(self)@[first_named(
                old(self)@,
                name@,
                0,
            )].last_used is Some && final(self)@ == old(self)@.update(
                first_named(old(self)@, name@, 0),
                AccountModel {
                    last_used: final(self)@[first_named(old(self)@, name@, 0)].last_used,
                    ..old(self)@[first_named(old(self)@, name@, 0)]
                },
            ),
            !has_name(old(self)@, name@) ==> r is Err && r->Err_0@ == "Account not found"@
                && final(self)@ == old(self)@,
    {
        let now = unix_now_secs();
        proof {
            lemma_first_named_bounds(old(self)@, name@, 0);
        }
        self.use_account_at(name, now)
    }

    /// Copies of all accounts by falling rank, see [`rank`]: the accounts
    /// that were used first, the last used at the top, then those never used,
    /// the newest at the top.
    pub fn get_all_accounts(&self) -> (r: Vec<StoredAccount>)
        ensures
            by_rank(account_models(r@)),
            account_models(r@).to_multiset() == self@.to_multiset(),
    {
        let mut out: Vec<StoredAccount> = Vec::new();
        let mut i: usize = 0;
        assert(account_models(out@) =~= self@.take(0));
        while i < self.storage.accounts.len()
            invariant
                i <= self.storage.accounts@.len(),
                self@ == account_models(self.storage.accounts@),
                by_rank(account_models(out@)),
                account_models(out@).to_multiset() == self@.take(i as int).to_multiset(),
            decreases self.storage.accounts@.len() - i,
        {
            let account = self.storage.accounts[i].clone();
            let key_used = account.last_used;
            let key_created = account.created_at;
            let mut pos: usize = 0;
            while pos < out.len() && !Self::comes_before(&account, &out[pos])
                invariant
                    pos <= out@.len(),
                    forall|k: int| 0 <= k < pos ==> rank(out@[k]@) >= rank(account@),
                decreases out@.len() - pos,
            {
                pos += 1;
            }
            let ghost before = account_models(out@);
            out.insert(pos, account);
            proof {
                assert(account_models(out@) =~= before.insert(pos as int, account@));
                assert(self@.take(i + 1) =~= self@.take(i as int).push(account@));
                vstd::seq_lib::to_multiset_insert(before, pos as int, account@);
                vstd::seq_lib::to_multiset_build(self@.take(i as int), account@);
                assert forall|a: int, b: int| 0 <= a < b < out@.len() implies rank(
                    account_models(out@)[a],
                ) >= rank(account_models(out@)[b]) by {
                    let m = account_models(out@);
                    if a < pos && b > pos {
                        assert(m[a] == before[a] && m[b] == before[b - 1]);
                    } else if a < pos && b < pos {
                        assert(m[a] == before[a] && m[b] == before[b]);
                    } else if a > pos {
                        assert(m[a] == before[a - 1] && m[b] == before[b - 1]);
                    } else if a == pos {
                        assert(m[b] == before[b - 1]);
                        assert(rank(before[pos as int]) >= rank(before[b - 1]));
                    } else {
                        assert(m[a] == before[a]);
                    }
                }
            }
            i += 1;
        }
        assert(self@.take(self@.len() as int) =~= self@);
        out
    }

    /// Whether `a` ranks strictly above `b`.
    fn comes_before(a: &StoredAccount, b: &StoredAccount) -> (r: bool)
        ensures
            r == (rank(a@) > rank(b@)),
    {
        match a.last_used {
            Some(x) => match b.last_used {
                Some(y) => x > y,
                None => true,
            },
            None => match b.last_used {
                Some(_) => false,
                None => a.created_at > b.created_at,
            },
        }
    }

    /// Gives the account named `old_name` the name `new_name`. Nothing
    /// happens when the two names are the same; the new name must be free
    /// and the old one taken. The renamed account moves to the end.
    pub fn rename_account(&mut self, old_name: &str, new_name: String) -> (r: Result<(), String>)
        ensures
            old_name@ == new_name@ ==> r is Ok && final(self)@ == old(self)@,
            old_name@ != new_name@ && has_name(old(self)@, new_name@) ==> r is Err && r->Err_0@
                == "Account with this name already exists"@ && final(self)@ == old(self)@,
            old_name@ != new_name@ && !has_name(old(self)@, new_name@) && !has_name(
                old(self)@,
                old_name@,
            ) ==> r is Err && r->Err_0@ == "Account not found"@ && final(self)@ == old(self)@,
            old_name@ != new_name@ && !has_name(old(self)@, new_name@) && has_name(
                old(self)@,
                old_name@,
            ) ==> r is Ok && final(self)@ == old(self)@.remove(
                first_named(old(self)@, old_name@, 0),
            ).push(
                AccountModel {
                    name: new_name@,
                    ..old(self)@[first_named(old(self)@, old_name@, 0)]
                },
            ),
    {
        let key = String::from_str(old_name);
        if key == new_name {
            return Ok(());
        }
        let taken = self.position_of(&new_name);
        if taken < self.storage.accounts.len() {
            return Err(String::from_str("Account with this name already exists"));
        }
        let pos = self.position_of(&key);
        if pos >= self.storage.accounts.len() {
            return Err(String::from_str("Account not found"));
        }
        proof {
            lemma_first_named_bounds(old(self)@, new_name@, 0);
        }
        let mut list = self.take_list();
        let mut account = list.remove(pos);
        account.name = new_name;
        proof {
            assert(account_models(list@) =~= old(self)@.remove(pos as int));
            assert(account_models(list@.push(account)) =~= old(self)@.remove(pos as int).push(
                account@,
            ));
        }
        list.push(account);
        self.put_list(list);
        Ok(())
    }
}

} // verus!
