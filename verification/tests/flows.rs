use confession_bot::button::ButtonCustomId;
use confession_bot::confess::{
    confess, confess_to, Attachment, ChannelUse, ConfessAction, ConfessEvent, ConfessRequest, ConfessState,
};
use confession_bot::hash::get_hash_from_user;
use confession_bot::messages::author_label_text;
use confession_bot::review::{handle, EmbedContent, ReviewAction, ReviewEvent, ReviewState};
use confession_bot::setup::{is_authorised, set_confessing, set_vetting, SetupAction, SetupEvent, SetupState};
use confession_bot::vetting::{send_verify_confession, ButtonStyle, ConfessionInfo, VettingAction, VettingEvent, VettingState};

fn info(content: &str, image: Option<&str>) -> ConfessionInfo {
    ConfessionInfo { author: 1001, content: content.to_string(), image: image.map(|s| s.to_string()) }
}

#[test]
fn vetting_posts_to_first_vetting_channel() {
    let (state, action) = send_verify_confession(7, 300, info("hello", Some("http://img")));
    assert!(matches!(action, VettingAction::LookupVettingChannels(7)));
    let (state, action) = state.step(VettingEvent::VettingChannels(Ok(vec![500, 501])));
    assert!(matches!(state, VettingState::AwaitGuildHash { vetting_channel: 500, .. }));
    assert!(matches!(action, VettingAction::FetchGuildHash(7)));
    let (state, action) = state.step(VettingEvent::GuildHash(4242));
    assert!(matches!(state, VettingState::Finished));
    let id = get_hash_from_user(4242, 1001);
    match action {
        VettingAction::Post(post) => {
            assert_eq!(post.channel, 500);
            assert_eq!(post.content, "Confession going to <#300>");
            assert_eq!(post.embed.description, "hello");
            assert_eq!(post.embed.author_name, format!("[{:x}]", id));
            assert_eq!(post.embed.colour, id);
            assert_eq!(post.embed.image.as_deref(), Some("http://img"));
            assert_eq!(post.buttons.len(), 2);
            assert_eq!(post.buttons[0].label, "Approve");
            assert_eq!(post.buttons[0].style, ButtonStyle::Success);
            assert_eq!(post.buttons[0].custom_id, "approve_confession:1001:300");
            assert_eq!(post.buttons[1].label, "Deny");
            assert_eq!(post.buttons[1].style, ButtonStyle::Danger);
            assert_eq!(post.buttons[1].custom_id, "deny_confession");
        }
        _ => panic!("expected a post"),
    }
}

#[test]
fn vetting_without_channel_replies() {
    let (state, _) = send_verify_confession(7, 300, info("x", None));
    let (state, action) = state.step(VettingEvent::VettingChannels(Ok(vec![])));
    assert!(matches!(state, VettingState::Finished));
    match action {
        VettingAction::Reply(t) => {
            assert!(t.ephemeral && t.reply);
            assert_eq!(t.text, "There is no vetting channel set. Use `/set_vetting` to set one.")
        }
        _ => panic!("expected a reply"),
    }
}

#[test]
fn vetting_lookup_error_replies() {
    let (state, _) = send_verify_confession(7, 300, info("x", None));
    let (state, action) = state.step(VettingEvent::VettingChannels(Err("broken".to_string())));
    assert!(matches!(state, VettingState::Finished));
    match action {
        VettingAction::Reply(t) => assert_eq!(t.text, "Error getting vetting channel: \"broken\""),
        _ => panic!("expected a reply"),
    }
}

#[test]
fn vetting_ignores_unexpected_events() {
    let (state, _) = send_verify_confession(7, 300, info("x", None));
    let (state, action) = state.step(VettingEvent::GuildHash(1));
    assert!(matches!(state, VettingState::Finished));
    assert!(matches!(action, VettingAction::Done));
    let (state, action) = state.step(VettingEvent::GuildHash(1));
    assert!(matches!(state, VettingState::Finished));
    assert!(matches!(action, VettingAction::Done));
}

fn request(content: Option<&str>, image: Option<(&str, &str)>, interactive: bool) -> ConfessRequest {
    ConfessRequest {
        guild: 7,
        target: 300,
        invoked_in: 301,
        author: 1001,
        content: content.map(|s| s.to_string()),
        image: image.map(|(f, u)| Attachment { filename: f.to_string(), url: u.to_string() }),
        interactive,
    }
}

#[test]
fn confession_in_confession_channel_goes_to_vetting() {
    let (state, action) = confess_to(request(Some("secret"), None, true));
    assert!(matches!(action, ConfessAction::LookupChannelUse { guild: 7, channel: 300 }));
    let (state, action) = state.step(ConfessEvent::ChannelUsage(Ok(ChannelUse::Confession)));
    assert!(matches!(state, ConfessState::AwaitVetting));
    match action {
        ConfessAction::SubmitForVetting { guild, target, info } => {
            assert_eq!((guild, target), (7, 300));
            assert_eq!(info.author, 1001);
            assert_eq!(info.content, "secret");
            assert!(info.image.is_none());
        }
        _ => panic!("expected a submission"),
    }
    let (state, action) = state.step(ConfessEvent::VettingDone);
    assert!(matches!(state, ConfessState::Finished));
    match action {
        ConfessAction::Reply(t) => {
            assert!(t.ephemeral && t.reply);
            assert_eq!(t.text, "Your confession has been sent to be vetted.")
        }
        _ => panic!("expected a reply"),
    }
}

#[test]
fn image_only_confession_uses_filename() {
    let (state, _) = confess_to(request(None, Some(("cat.png", "http://cat")), true));
    let (_, action) = state.step(ConfessEvent::ChannelUsage(Ok(ChannelUse::Confession)));
    match action {
        ConfessAction::SubmitForVetting { info, .. } => {
            assert_eq!(info.content, "[Filename: cat.png]");
            assert_eq!(info.image.as_deref(), Some("http://cat"));
        }
        _ => panic!("expected a submission"),
    }
}

#[test]
fn empty_slash_confession_opens_form() {
    let (state, _) = confess_to(request(None, None, true));
    let (state, action) = state.step(ConfessEvent::ChannelUsage(Ok(ChannelUse::Confession)));
    assert!(matches!(action, ConfessAction::OpenForm));
    let (_, action) = state.step(ConfessEvent::FormContent(Some("typed".to_string())));
    match action {
        ConfessAction::SubmitForVetting { info, .. } => assert_eq!(info.content, "typed"),
        _ => panic!("expected a submission"),
    }
}

#[test]
fn empty_form_or_prefix_confession_sends_question_mark() {
    let (state, _) = confess_to(request(None, None, true));
    let (state, _) = state.step(ConfessEvent::ChannelUsage(Ok(ChannelUse::Confession)));
    let (_, action) = state.step(ConfessEvent::FormContent(None));
    match action {
        ConfessAction::SubmitForVetting { info, .. } => assert_eq!(info.content, "?"),
        _ => panic!("expected a submission"),
    }
    let (state, _) = confess_to(request(None, None, false));
    let (_, action) = state.step(ConfessEvent::ChannelUsage(Ok(ChannelUse::Confession)));
    match action {
        ConfessAction::SubmitForVetting { info, .. } => assert_eq!(info.content, "?"),
        _ => panic!("expected a submission"),
    }
}

#[test]
fn confession_elsewhere_is_refused() {
    let (state, _) = confess_to(request(Some("x"), None, true));
    let (state, action) = state.step(ConfessEvent::ChannelUsage(Ok(ChannelUse::Vetting)));
    assert!(matches!(state, ConfessState::Finished));
    match action {
        ConfessAction::Reply(t) => assert_eq!(
            t.text,
            "This channel (<#301>) is not for confessing. Use `/list` to find places to confess."
        ),
        _ => panic!("expected a reply"),
    }
}

#[test]
fn channel_use_error_is_reported_after_form() {
    let (state, _) = confess_to(request(None, None, true));
    let (state, action) = state.step(ConfessEvent::ChannelUsage(Err("db".to_string())));
    assert!(matches!(action, ConfessAction::OpenForm));
    let (state, action) = state.step(ConfessEvent::FormContent(Some("t".to_string())));
    assert!(matches!(state, ConfessState::Finished));
    match action {
        ConfessAction::Reply(t) => {
            assert_eq!(t.text, "Error getting channel usage: db\nYour confession has not been processed.")
        }
        _ => panic!("expected a reply"),
    }
}

#[test]
fn confess_targets_invoking_channel() {
    let (state, action) = confess(7, 301, 1001, Some("x".to_string()), None, true);
    assert!(matches!(action, ConfessAction::LookupChannelUse { guild: 7, channel: 301 }));
    match state {
        ConfessState::AwaitUsage { req } => assert_eq!((req.target, req.invoked_in), (301, 301)),
        _ => panic!("expected to wait for the channel use"),
    }
}

fn embed(text: Option<&str>) -> Option<EmbedContent> {
    Some(EmbedContent { description: text.map(|s| s.to_string()), image_url: None })
}

#[test]
fn approve_publishes_to_target_with_same_label() {
    let custom_id = ButtonCustomId::ApproveConfession(1001, 300).to_string();
    let (state, action) = handle(&custom_id, 7, 2002, embed(Some("hello")));
    assert!(matches!(action, ReviewAction::FetchAuthor(1001)));
    let (state, action) = state.step(ReviewEvent::AuthorFetched(true));
    assert!(matches!(action, ReviewAction::FetchGuildHash(7)));
    let (state, action) = state.step(ReviewEvent::GuildHash(4242));
    match action {
        ReviewAction::Publish { channel, embed } => {
            assert_eq!(channel, 300);
            assert_eq!(embed.description, "hello");
            assert_eq!(embed.author_name, author_label_text(get_hash_from_user(4242, 1001)));
            assert_eq!(embed.colour, get_hash_from_user(4242, 1001));
        }
        _ => panic!("expected a publication"),
    }
    let (state, action) = state.step(ReviewEvent::Published);
    match action {
        ReviewAction::Respond(t) => assert_eq!(t, "Confession accepted by <@2002>"),
        _ => panic!("expected a response"),
    }
    let (state, action) = state.step(ReviewEvent::Responded(true));
    assert!(matches!(state, ReviewState::Finished));
    assert!(matches!(action, ReviewAction::ClearButtons));
}

#[test]
fn approve_without_embed_or_author_stops() {
    let custom_id = ButtonCustomId::ApproveConfession(1001, 300).to_string();
    let (state, _) = handle(&custom_id, 7, 2002, None);
    let (state, action) = state.step(ReviewEvent::AuthorFetched(true));
    assert!(matches!(state, ReviewState::Finished));
    assert!(matches!(action, ReviewAction::Done));
    let (state, _) = handle(&custom_id, 7, 2002, embed(Some("x")));
    let (state, action) = state.step(ReviewEvent::AuthorFetched(false));
    assert!(matches!(state, ReviewState::Finished));
    assert!(matches!(action, ReviewAction::Done));
}

#[test]
fn approve_with_empty_description_publishes_empty_text() {
    let custom_id = ButtonCustomId::ApproveConfession(1, 2).to_string();
    let (state, _) = handle(&custom_id, 7, 3, embed(None));
    let (state, _) = state.step(ReviewEvent::AuthorFetched(true));
    let (_, action) = state.step(ReviewEvent::GuildHash(0));
    match action {
        ReviewAction::Publish { embed, .. } => assert_eq!(embed.description, ""),
        _ => panic!("expected a publication"),
    }
}

#[test]
fn deny_responds_and_clears_only_on_success() {
    let (state, action) = handle("deny_confession", 7, 2002, None);
    match action {
        ReviewAction::Respond(t) => assert_eq!(t, "Confession denied by <@2002>"),
        _ => panic!("expected a response"),
    }
    let (_, action) = state.step(ReviewEvent::Responded(false));
    assert!(matches!(action, ReviewAction::Done));
}

#[test]
fn unknown_button_is_ignored() {
    let (state, action) = handle("something_else", 7, 2002, None);
    assert!(matches!(state, ReviewState::Finished));
    assert!(matches!(action, ReviewAction::Done));
}

#[test]
fn set_vetting_checks_admin_and_existing_channel() {
    let (state, action) = set_vetting(7);
    assert!(matches!(action, SetupAction::CheckAdmin));
    let (state, action) = state.step(SetupEvent::Authorised(Ok(true)));
    assert!(matches!(action, SetupAction::LookupVettingChannels(7)));
    let (state, action) = state.step(SetupEvent::VettingChannels(Ok(vec![])));
    assert!(matches!(action, SetupAction::SetChannel(ChannelUse::Vetting)));
    let (state, action) = state.step(SetupEvent::ChannelSet(Ok(())));
    assert!(matches!(state, SetupState::Finished));
    assert!(matches!(action, SetupAction::Done));
}

#[test]
fn set_vetting_refuses_second_channel() {
    let (state, _) = set_vetting(7);
    let (state, _) = state.step(SetupEvent::Authorised(Ok(true)));
    let (_, action) = state.step(SetupEvent::VettingChannels(Ok(vec![44, 45])));
    match action {
        SetupAction::Say(t) => assert_eq!(
            t,
            "There is already a vetting channel: <#44>\nSet that one to none use before trying again."
        ),
        _ => panic!("expected a message"),
    }
}

#[test]
fn set_vetting_reports_errors() {
    let (state, _) = set_vetting(7);
    let (state, _) = state.step(SetupEvent::Authorised(Ok(true)));
    let (_, action) = state.step(SetupEvent::VettingChannels(Err("db".to_string())));
    match action {
        SetupAction::Say(t) => assert_eq!(t, "Error getting channel: db"),
        _ => panic!("expected a message"),
    }
    let (state, _) = set_vetting(7);
    let (state, _) = state.step(SetupEvent::Authorised(Ok(true)));
    let (state, _) = state.step(SetupEvent::VettingChannels(Ok(vec![])));
    let (_, action) = state.step(SetupEvent::ChannelSet(Err("no".to_string())));
    match action {
        SetupAction::Say(t) => assert_eq!(t, "Error setting channel: no"),
        _ => panic!("expected a message"),
    }
}

#[test]
fn unauthorised_setup_does_nothing() {
    for auth in [Ok(false), Err("x".to_string())] {
        let (state, _) = set_vetting(7);
        let (state, action) = state.step(SetupEvent::Authorised(auth.clone()));
        assert!(matches!(state, SetupState::Finished));
        assert!(matches!(action, SetupAction::Done));
        let (state, _) = set_confessing(7);
        let (state, action) = state.step(SetupEvent::Authorised(auth));
        assert!(matches!(state, SetupState::Finished));
        assert!(matches!(action, SetupAction::Done));
    }
}

#[test]
fn set_confessing_marks_channel_and_passes_error_on() {
    let (state, _) = set_confessing(7);
    let (state, action) = state.step(SetupEvent::Authorised(Ok(true)));
    assert!(matches!(action, SetupAction::SetChannel(ChannelUse::Confession)));
    let (_, action) = state.step(SetupEvent::ChannelSet(Err("fail".to_string())));
    match action {
        SetupAction::Fail(t) => assert_eq!(t, "fail"),
        _ => panic!("expected a failure"),
    }
}

#[test]
fn authorisation_needs_admin_or_mod_role() {
    assert!(is_authorised(true, None, &vec![]));
    assert!(is_authorised(false, Some(5), &vec![3, 5]));
    assert!(!is_authorised(false, Some(5), &vec![3, 4]));
    assert!(!is_authorised(false, None, &vec![5]));
}
