use vstd::prelude::*;
use crate::text::str_equal;

verus! {

/// The secret that holds the Discord token: the test bot's token when the
/// `TEST` setting is exactly "true", else the live bot's.
pub open spec fn token_key_for(test_setting: Option<Seq<char>>) -> Seq<char> {
    if test_setting == Some("true"@) {
        "TEST_DISCORD_TOKEN"@
    } else {
        "DISCORD_TOKEN"@
    }
}

/// The name of the secret that holds the Discord token, given the value of the
/// `TEST` setting, if it is set.
pub fn token_key(test_setting: Option<&str>) -> (key: String)
    ensures
        key@ == token_key_for(
            match test_setting {
                Some(s) => Some(s@),
                None => None,
            },
        ),
{
    let use_test = match test_setting {
        Some(s) => str_equal(s, "true"),
        None => false,
    };
    if use_test {
        String::from_str("TEST_DISCORD_TOKEN")
    } else {
        String::from_str("DISCORD_TOKEN")
    }
}

} // verus!
