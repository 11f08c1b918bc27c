use confession_bot::messages::{accepted_by_text, author_label_text, channel_mention_text, channel_usage_failed_text, denied_by_text, filename_placeholder_text, get_channel_failed_text, no_vetting_channel_text, not_for_confessing_text, sent_for_vetting_text, set_channel_failed_text, user_mention_text, vetting_already_set_text, vetting_lookup_failed_text, vetting_notice_text};

#[test]
fn mention_and_label_texts() {
    assert_eq!(channel_mention_text(123), "<#123>");
    assert_eq!(user_mention_text(0), "<@0>");
    assert_eq!(author_label_text(0x1a2b3c), "[1a2b3c]");
    assert_eq!(author_label_text(0), "[0]");
    assert_eq!(author_label_text(4096), format!("[{:x}]", 4096u32));
    assert_eq!(vetting_notice_text(987), "Confession going to <#987>");
}

#[test]
fn reply_texts() {
    assert_eq!(
        no_vetting_channel_text(),
        "There is no vetting channel set. Use `/set_vetting` to set one."
    );
    assert_eq!(sent_for_vetting_text(), "Your confession has been sent to be vetted.");
    assert_eq!(
        not_for_confessing_text(55),
        "This channel (<#55>) is not for confessing. Use `/list` to find places to confess."
    );
    assert_eq!(
        channel_usage_failed_text("db down"),
        "Error getting channel usage: db down\nYour confession has not been processed."
    );
    assert_eq!(
        vetting_already_set_text(9),
        "There is already a vetting channel: <#9>\nSet that one to none use before trying again."
    );
    assert_eq!(set_channel_failed_text("no"), "Error setting channel: no");
    assert_eq!(get_channel_failed_text("gone"), "Error getting channel: gone");
    assert_eq!(accepted_by_text(77), "Confession accepted by <@77>");
    assert_eq!(denied_by_text(78), "Confession denied by <@78>");
    assert_eq!(filename_placeholder_text("cat.png"), "[Filename: cat.png]");
}

#[test]
fn vetting_lookup_failure_quotes_the_error() {
    assert_eq!(vetting_lookup_failed_text("oops"), "Error getting vetting channel: \"oops\"");
    assert_eq!(
        vetting_lookup_failed_text("say \"hi\""),
        format!("Error getting vetting channel: {:?}", "say \"hi\"")
    );
}

#[test]
fn vetting_lookup_failure_from_shown_error() {
    assert_eq!(
        confession_bot::messages::vetting_lookup_failed_shown_text("\"x\""),
        "Error getting vetting channel: \"x\""
    );
}
