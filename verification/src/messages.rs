use vstd::prelude::*;
use crate::text::{decimal, lower_hex, push_decimal, push_lower_hex};

verus! {

/// The text that Debug formatting (`{:?}`) gives a string: quoted and escaped.
pub uninterp spec fn debug_text(s: Seq<char>) -> Seq<char>;

/// Calls std's `Debug` for `str` through `format!("{:?}", s)`. The contract
/// claims only that the result is a function of the string's characters; the
/// quoting and escaping rules are not stated here.
#[verifier::external_body]
fn debug_string(s: &str) -> (r: String)
    ensures
        r@ == debug_text(s@),
{
    format!("{:?}", s)
}

/// How a channel is mentioned: `<#id>`.
pub open spec fn channel_mention(channel: u64) -> Seq<char> {
    "<#"@ + decimal(channel as nat) + ">"@
}

/// How a user is mentioned: `<@id>`.
pub open spec fn user_mention(user: u64) -> Seq<char> {
    "<@"@ + decimal(user as nat) + ">"@
}

/// The name under which an anonymous author appears: the id in lower-case
/// hexadecimal between square brackets.
pub open spec fn author_label(show_id: u32) -> Seq<char> {
    "["@ + lower_hex(show_id as nat) + "]"@
}

/// The line above a confession waiting in the vetting channel.
pub open spec fn vetting_notice(target: u64) -> Seq<char> {
    "Confession going to "@ + channel_mention(target)
}

/// The reply when the vetting channel could not be looked up.
pub open spec fn vetting_lookup_failed(error: Seq<char>) -> Seq<char> {
    vetting_lookup_failed_shown(debug_text(error))
}

/// The reply when the vetting channel could not be looked up, given the error
/// as Debug formatting shows it.
pub open spec fn vetting_lookup_failed_shown(shown: Seq<char>) -> Seq<char> {
    "Error getting vetting channel: "@ + shown
}

/// The reply when a guild has no vetting channel.
pub open spec fn no_vetting_channel() -> Seq<char> {
    "There is no vetting channel set. Use `/set_vetting` to set one."@
}

/// The reply once a confession has been handed to vetting.
pub open spec fn sent_for_vetting() -> Seq<char> {
    "Your confession has been sent to be vetted."@
}

/// The reply when a confession is made in a channel not meant for them.
pub open spec fn not_for_confessing(channel: u64) -> Seq<char> {
    "This channel ("@ + channel_mention(channel)
        + ") is not for confessing. Use `/list` to find places to confess."@
}

/// The reply when the use of the target channel could not be looked up.
pub open spec fn channel_usage_failed(error: Seq<char>) -> Seq<char> {
    "Error getting channel usage: "@ + error + "\nYour confession has not been processed."@
}

/// The reply when a vetting channel is already set.
pub open spec fn vetting_already_set(channel: u64) -> Seq<char> {
    "There is already a vetting channel: "@ + channel_mention(channel)
        + "\nSet that one to none use before trying again."@
}

/// The reply when marking the channel failed.
pub open spec fn set_channel_failed(error: Seq<char>) -> Seq<char> {
    "Error setting channel: "@ + error
}

/// The reply when the channels of the guild could not be read.
pub open spec fn get_channel_failed(error: Seq<char>) -> Seq<char> {
    "Error getting channel: "@ + error
}

/// The interaction response when a moderator approves a confession.
pub open spec fn accepted_by(moderator: u64) -> Seq<char> {
    "Confession accepted by "@ + user_mention(moderator)
}

/// The interaction response when a moderator denies a confession.
pub open spec fn denied_by(moderator: u64) -> Seq<char> {
    "Confession denied by "@ + user_mention(moderator)
}

/// The content that stands for a confession made of an image alone.
pub open spec fn filename_placeholder(filename: Seq<char>) -> Seq<char> {
    "[Filename: "@ + filename + "]"@
}

/// Builds `channel_mention`.
pub fn channel_mention_text(channel: u64) -> (s: String)
    ensures
        s@ == channel_mention(channel),
{
    let mut s = String::from_str("<#");
    push_decimal(&mut s, channel);
    s.append(">");
    s
}

/// Builds `user_mention`.
pub fn user_mention_text(user: u64) -> (s: String)
    ensures
        s@ == user_mention(user),
{
    let mut s = String::from_str("<@");
    push_decimal(&mut s, user);
    s.append(">");
    s
}

/// Builds `author_label`, as `format!("[{:x}]", show_id)` does.
pub fn author_label_text(show_id: u32) -> (s: String)
    ensures
        s@ == author_label(show_id),
{
    let mut s = String::from_str("[");
    push_lower_hex(&mut s, show_id);
    s.append("]");
    s
}

/// Builds `vetting_notice`.
pub fn vetting_notice_text(target: u64) -> (s: String)
    ensures
        s@ == vetting_notice(target),
{
    let s = String::from_str("Confession going to ");
    let m = channel_mention_text(target);
    let s = s.concat(m.as_str());
    proof {
        assert(s@ =~= vetting_notice(target));
    }
    s
}

/// Builds `vetting_lookup_failed`.
pub fn vetting_lookup_failed_text(error: &str) -> (s: String)
    ensures
        s@ == vetting_lookup_failed(error@),
{
    let d = debug_string(error);
    vetting_lookup_failed_shown_text(d.as_str())
}

/// Builds `vetting_lookup_failed_shown` from the error's Debug text.
pub fn vetting_lookup_failed_shown_text(shown: &str) -> (s: String)
    ensures
        s@ == vetting_lookup_failed_shown(shown@),
{
    String::from_str("Error getting vetting channel: ").concat(shown)
}

/// Builds `no_vetting_channel`.
pub fn no_vetting_channel_text() -> (s: String)
    ensures
        s@ == no_vetting_channel(),
{
    String::from_str("There is no vetting channel set. Use `/set_vetting` to set one.")
}

/// Builds `sent_for_vetting`.
pub fn sent_for_vetting_text() -> (s: String)
    ensures
        s@ == sent_for_vetting(),
{
    String::from_str("Your confession has been sent to be vetted.")
}

/// Builds `not_for_confessing`.
pub fn not_for_confessing_text(channel: u64) -> (s: String)
    ensures
        s@ == not_for_confessing(channel),
{
    let m = channel_mention_text(channel);
    let s = String::from_str("This channel (").concat(m.as_str()).concat(
        ") is not for confessing. Use `/list` to find places to confess.",
    );
    proof {
        assert(s@ =~= not_for_confessing(channel));
    }
    s
}

/// Builds `channel_usage_failed`.
pub fn channel_usage_failed_text(error: &str) -> (s: String)
    ensures
        s@ == channel_usage_failed(error@),
{
    String::from_str("Error getting channel usage: ").concat(error).concat(
        "\nYour confession has not been processed.",
    )
}

/// Builds `vetting_already_set`.
pub fn vetting_already_set_text(channel: u64) -> (s: String)
    ensures
        s@ == vetting_already_set(channel),
{
    let m = channel_mention_text(channel);
    let s = String::from_str("There is already a vetting channel: ").concat(m.as_str()).concat(
        "\nSet that one to none use before trying again.",
    );
    proof {
        assert(s@ =~= vetting_already_set(channel));
    }
    s
}

/// Builds `set_channel_failed`.
pub fn set_channel_failed_text(error: &str) -> (s: String)
    ensures
        s@ == set_channel_failed(error@),
{
    String::from_str("Error setting channel: ").concat(error)
}

/// Builds `get_channel_failed`.
pub fn get_channel_failed_text(error: &str) -> (s: String)
    ensures
        s@ == get_channel_failed(error@),
{
    String::from_str("Error getting channel: ").concat(error)
}

/// Builds `accepted_by`.
pub fn accepted_by_text(moderator: u64) -> (s: String)
    ensures
        s@ == accepted_by(moderator),
{
    let m = user_mention_text(moderator);
    let s = String::from_str("Confession accepted by ").concat(m.as_str());
    proof {
        assert(s@ =~= accepted_by(moderator));
    }
    s
}

/// Builds `denied_by`.
pub fn denied_by_text(moderator: u64) -> (s: String)
    ensures
        s@ == denied_by(moderator),
{
    let m = user_mention_text(moderator);
    let s = String::from_str("Confession denied by ").concat(m.as_str());
    proof {
        assert(s@ =~= denied_by(moderator));
    }
    s
}

/// Builds `filename_placeholder`.
pub fn filename_placeholder_text(filename: &str) -> (s: String)
    ensures
        s@ == filename_placeholder(filename@),
{
    String::from_str("[Filename: ").concat(filename).concat("]")
}

/// A reply seen only by the user who invoked a command, as a reply to the
/// invocation.
pub struct PrivateReply {
    /// What is said.
    pub text: String,
    /// Only the invoking user sees it.
    pub ephemeral: bool,
    /// It is sent as a reply to the invocation.
    pub reply: bool,
}

/// `r` says `text`, privately, as a reply to the invocation.
pub open spec fn is_private_reply(r: PrivateReply, text: Seq<char>) -> bool {
    &&& r.text@ == text
    &&& r.ephemeral
    &&& r.reply
}

/// A private reply saying `text`.
pub fn private_reply(text: String) -> (r: PrivateReply)
    ensures
        is_private_reply(r, text@),
{
    PrivateReply { text, ephemeral: true, reply: true }
}

} // verus!
