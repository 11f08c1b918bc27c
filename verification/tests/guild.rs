use confession_bot::guild::{add_or_nothing_guild, get_guild, get_guild_mod_role, store_outcome, GuildError, GuildModel};

#[test]
fn new_guild_has_no_mod_role() {
    let g = add_or_nothing_guild(42);
    assert_eq!(g, GuildModel { id: 42, admin_role: None });
}

#[test]
fn mod_role_of_a_stored_guild() {
    let found = Ok(Some(GuildModel { id: 1, admin_role: Some(99) }));
    assert_eq!(get_guild_mod_role(found).ok(), Some(Some(99)));
    let found = Ok(Some(GuildModel { id: 1, admin_role: None }));
    assert_eq!(get_guild_mod_role(found).ok(), Some(None));
}

#[test]
fn mod_role_of_a_missing_guild_is_an_error() {
    let e = get_guild_mod_role(Ok(None)).err().unwrap();
    assert!(matches!(e, GuildError::NotFound));
    assert_eq!(e.message(), "Guild not found. Have you used initialise?");
}

#[test]
fn lookup_errors_are_reported() {
    let e = get_guild_mod_role(Err("Conn".to_string())).err().unwrap();
    assert_eq!(e.message(), "Error getting guild from database: Conn");
    let e = get_guild(Err("Timeout".to_string())).err().unwrap();
    assert_eq!(e.message(), "Error getting guild from database: Timeout");
    let g = get_guild(Ok(Some(GuildModel { id: 3, admin_role: None }))).ok().unwrap();
    assert_eq!(g, Some(GuildModel { id: 3, admin_role: None }));
    assert!(get_guild(Ok(None)).ok().unwrap().is_none());
}

#[test]
fn store_errors_are_reported() {
    let e = store_outcome::<u64>(Err("Exec".to_string())).err().unwrap();
    assert_eq!(e.message(), "Error adding guild to database: Exec");
    assert_eq!(store_outcome::<u64>(Ok(5)).ok(), Some(5));
}
