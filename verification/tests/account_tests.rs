use jhook::account::{
    format_age, AccountManager, AccountStorage, SessionInfo, StoredAccount,
};

fn session(user: &str) -> SessionInfo {
    SessionInfo {
        username: user.to_string(),
        player_id: format!("id-{}", user),
        access_token: format!("token-{}", user),
        session_type: "mojang".to_string(),
    }
}

fn stored(name: &str, created: u64, used: Option<u64>) -> StoredAccount {
    let mut a = StoredAccount::created(name.to_string(), session(name), created);
    if let Some(t) = used {
        a.mark_used(t);
    }
    a
}

#[test]
fn default_session() {
    let s = SessionInfo::default();
    assert_eq!(s.username, "Player");
    assert_eq!(s.player_id, "00000000-0000-0000-0000-000000000000");
    assert_eq!(s.access_token, "0");
    assert_eq!(s.session_type, "mojang");
    assert_eq!(s.clone(), s);
}

#[test]
fn created_account_holds_the_session() {
    let a = StoredAccount::created("main".to_string(), session("steve"), 1234);
    assert_eq!(a.name, "main");
    assert_eq!(a.username, "steve");
    assert_eq!(a.player_id, "id-steve");
    assert_eq!(a.access_token, "token-steve");
    assert_eq!(a.session_type, "mojang");
    assert_eq!(a.created_at, 1234);
    assert_eq!(a.last_used, None);
    assert_eq!(a.to_session_info(), session("steve"));
    assert_eq!(a.clone(), a);
}

#[test]
fn new_account_is_stamped_with_the_clock() {
    let a = StoredAccount::new("main".to_string(), session("steve"));
    assert!(a.created_at > 1_600_000_000);
    assert_eq!(a.last_used, None);
    let mut b = a.clone();
    b.update_last_used();
    assert!(b.last_used.unwrap() >= a.created_at);
    assert_eq!(b.name, a.name);
    assert_eq!(b.created_at, a.created_at);
    assert_eq!(a.format_created_date(), "Just now");
    assert_eq!(a.format_last_used(), "Never");
    assert_eq!(a.format_time(None), "Never");
    assert_eq!(a.format_time(Some(0)).ends_with(" years ago"), true);
}

#[test]
fn ages_in_words() {
    assert_eq!(format_age(1000, None), "Never");
    assert_eq!(format_age(1000, Some(1000)), "Just now");
    assert_eq!(format_age(1000, Some(2000)), "Just now");
    assert_eq!(format_age(1059, Some(1000)), "Just now");
    assert_eq!(format_age(1060, Some(1000)), "1 minutes ago");
    assert_eq!(format_age(4599, Some(1000)), "59 minutes ago");
    assert_eq!(format_age(4600, Some(1000)), "1 hours ago");
    assert_eq!(format_age(87399, Some(1000)), "23 hours ago");
    assert_eq!(format_age(87400, Some(1000)), "1 days ago");
    assert_eq!(format_age(2592999, Some(1000)), "29 days ago");
    assert_eq!(format_age(2593000, Some(1000)), "1 months ago");
    assert_eq!(format_age(31536999, Some(1000)), "12 months ago");
    assert_eq!(format_age(31537000, Some(1000)), "1 years ago");
    assert_eq!(format_age(u64::MAX, Some(0)), format!("{} years ago", u64::MAX / 31536000));
}

#[test]
fn manager_starts_empty() {
    let m = AccountManager::new();
    assert_eq!(m.get_account_count(), 0);
    assert_eq!(m.config_path(), "sessions.json");
    assert!(m.get_all_accounts().is_empty());
    assert_eq!(m.storage().version, 1);
    assert_eq!(AccountStorage::default().version, 1);
}

#[test]
fn add_and_get() {
    let mut m = AccountManager::new();
    assert_eq!(m.add_account("a".to_string(), session("x")), Ok(()));
    assert_eq!(m.add_stored(stored("b", 5, None)), Ok(()));
    assert_eq!(m.get_account_count(), 2);
    assert_eq!(m.get_account("b"), Some(&stored("b", 5, None)));
    assert_eq!(m.get_account("a").unwrap().username, "x");
    assert_eq!(m.get_account("c"), None);
    assert_eq!(
        m.add_account("a".to_string(), session("y")),
        Err("Account with this name already exists".to_string())
    );
    assert_eq!(
        m.add_stored(stored("b", 6, None)),
        Err("Account with this name already exists".to_string())
    );
    assert_eq!(m.get_account_count(), 2);
    assert_eq!(m.get_account("a").unwrap().username, "x");
}

#[test]
fn remove() {
    let mut m = AccountManager::new();
    m.add_stored(stored("a", 1, None)).unwrap();
    m.add_stored(stored("b", 2, None)).unwrap();
    m.add_stored(stored("c", 3, None)).unwrap();
    assert_eq!(m.remove_account("b"), Ok(()));
    assert_eq!(m.remove_account("b"), Err("Account not found".to_string()));
    assert_eq!(m.get_account_count(), 2);
    let names: Vec<String> = m.storage().accounts.iter().map(|a| a.name.clone()).collect();
    assert_eq!(names, vec!["a".to_string(), "c".to_string()]);
}

#[test]
fn update_replaces_the_session_and_marks_use() {
    let mut m = AccountManager::new();
    m.add_stored(stored("a", 1, None)).unwrap();
    m.add_stored(stored("b", 2, None)).unwrap();
    assert_eq!(m.update_account_at("a", session("new"), 77), Ok(()));
    let a = m.get_account("a").unwrap();
    assert_eq!(a.username, "new");
    assert_eq!(a.access_token, "token-new");
    assert_eq!(a.created_at, 1);
    assert_eq!(a.last_used, Some(77));
    assert_eq!(m.get_account("b"), Some(&stored("b", 2, None)));
    assert_eq!(m.update_account_at("z", session("new"), 77), Err("Account not found".to_string()));
    assert_eq!(m.update_account("b", session("other")), Ok(()));
    assert!(m.get_account("b").unwrap().last_used.is_some());
    assert_eq!(m.get_account("b").unwrap().username, "other");
    assert_eq!(m.update_account("z", session("other")), Err("Account not found".to_string()));
}

#[test]
fn use_gives_the_session_and_marks_use() {
    let mut m = AccountManager::new();
    m.add_stored(stored("a", 1, None)).unwrap();
    assert_eq!(m.use_account_at("a", 9), Ok(session("a")));
    assert_eq!(m.get_account("a").unwrap().last_used, Some(9));
    assert_eq!(m.use_account_at("b", 9), Err("Account not found".to_string()));
    assert_eq!(m.use_account("a"), Ok(session("a")));
    assert!(m.get_account("a").unwrap().last_used.unwrap() > 9);
    assert_eq!(m.use_account("b"), Err("Account not found".to_string()));
}

#[test]
fn all_accounts_by_rank() {
    let mut m = AccountManager::new();
    m.add_stored(stored("never-old", 10, None)).unwrap();
    m.add_stored(stored("used-early", 50, Some(100))).unwrap();
    m.add_stored(stored("never-new", 20, None)).unwrap();
    m.add_stored(stored("used-late", 1, Some(200))).unwrap();
    let names: Vec<String> = m.get_all_accounts().into_iter().map(|a| a.name).collect();
    assert_eq!(
        names,
        vec![
            "used-late".to_string(),
            "used-early".to_string(),
            "never-new".to_string(),
            "never-old".to_string(),
        ]
    );
}

#[test]
fn rename() {
    let mut m = AccountManager::new();
    m.add_stored(stored("a", 1, Some(5))).unwrap();
    m.add_stored(stored("b", 2, None)).unwrap();
    assert_eq!(m.rename_account("a", "a".to_string()), Ok(()));
    assert_eq!(m.rename_account("zz", "zz".to_string()), Ok(()));
    assert_eq!(
        m.rename_account("a", "b".to_string()),
        Err("Account with this name already exists".to_string())
    );
    assert_eq!(m.rename_account("z", "y".to_string()), Err("Account not found".to_string()));
    assert_eq!(m.rename_account("a", "c".to_string()), Ok(()));
    assert_eq!(m.get_account("a"), None);
    let c = m.get_account("c").unwrap();
    assert_eq!(c.name, "c");
    assert_eq!(c.username, "a");
    assert_eq!(c.created_at, 1);
    assert_eq!(c.last_used, Some(5));
    let names: Vec<String> = m.storage().accounts.iter().map(|a| a.name.clone()).collect();
    assert_eq!(names, vec!["b".to_string(), "c".to_string()]);
}

#[test]
fn load_takes_over_the_storage() {
    let mut m = AccountManager::new();
    m.add_stored(stored("old", 1, None)).unwrap();
    let storage = AccountStorage { accounts: vec![stored("a", 1, None), stored("b", 2, None)], version: 3 };
    assert_eq!(m.load_accounts(storage), Ok(()));
    assert_eq!(m.get_account_count(), 2);
    assert_eq!(m.storage().version, 3);
    assert_eq!(m.get_account("old"), None);
    let twice = AccountStorage { accounts: vec![stored("a", 1, None), stored("x", 2, None), stored("a", 3, None)], version: 4 };
    assert_eq!(
        m.load_accounts(twice),
        Err("Failed to parse config file: duplicate account name".to_string())
    );
    assert_eq!(m.get_account_count(), 2);
    assert_eq!(m.storage().version, 3);
}
