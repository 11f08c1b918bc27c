use confession_bot::config::token_key;
use confession_bot::confess::ChannelUse;

#[test]
fn token_key_follows_test_setting() {
    assert_eq!(token_key(Some("true")), "TEST_DISCORD_TOKEN");
    assert_eq!(token_key(Some("false")), "DISCORD_TOKEN");
    assert_eq!(token_key(Some("True")), "DISCORD_TOKEN");
    assert_eq!(token_key(Some("")), "DISCORD_TOKEN");
    assert_eq!(token_key(None), "DISCORD_TOKEN");
}

#[test]
fn channel_use_storage_names() {
    assert_eq!(ChannelUse::Unused.storage_name(), "none");
    assert_eq!(ChannelUse::Confession.storage_name(), "confession");
    assert_eq!(ChannelUse::Vetting.storage_name(), "vetting");
    for usage in [ChannelUse::Unused, ChannelUse::Confession, ChannelUse::Vetting] {
        assert_eq!(ChannelUse::from_storage_name(&usage.storage_name()), usage);
    }
    assert_eq!(ChannelUse::from_storage_name("other"), ChannelUse::Unused);
    assert_eq!(ChannelUse::from_storage_name(""), ChannelUse::Unused);
}
