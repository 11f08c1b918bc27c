use vstd::prelude::*;
use crate::button::{id_text, ButtonCustomId};
use crate::hash::{get_hash_from_user, spec_hash_from_user};
use crate::text::{lemma_lower_hex_injective, lower_hex};
use crate::messages::{
    is_private_reply, private_reply, PrivateReply,
    author_label, author_label_text, no_vetting_channel, no_vetting_channel_text, vetting_lookup_failed,
    vetting_lookup_failed_text, vetting_notice, vetting_notice_text,
};

verus! {

/// A confession on its way to the vetting channel.
pub struct ConfessionInfo {
    /// The user who confesses.
    pub author: u64,
    /// The text of the confession.
    pub content: String,
    /// The address of an attached image, if any.
    pub image: Option<String>,
}

/// The embed under which a confession is shown.
pub struct ConfessionEmbed {
    /// The confession's text.
    pub description: String,
    /// The anonymous author label, such as `[1a2b3c]`.
    pub author_name: String,
    /// The embed colour: the anonymous id itself.
    pub colour: u32,
    /// The address of an attached image, if any.
    pub image: Option<String>,
}

/// `embed` shows `content` and `image` under the anonymous id that
/// `author` has in the guild whose secret is `guild_hash`.
pub open spec fn is_confession_embed(
    embed: ConfessionEmbed,
    content: String,
    image: Option<String>,
    guild_hash: u64,
    author: u64,
) -> bool {
    let id = spec_hash_from_user(guild_hash, author);
    &&& embed.description == content
    &&& embed.author_name@ == author_label(id)
    &&& embed.colour == id
    &&& embed.image == image
}

/// Builds the embed of a confession.
pub fn confession_embed(content: String, image: Option<String>, guild_hash: u64, author: u64) -> (embed:
    ConfessionEmbed)
    ensures
        is_confession_embed(embed, content, image, guild_hash, author),
{
    let id = get_hash_from_user(guild_hash, author);
    ConfessionEmbed { description: content, author_name: author_label_text(id), colour: id, image }
}

/// The message posted in the vetting channel, with its two buttons.
pub struct VettingPost {
    /// The vetting channel.
    pub channel: u64,
    /// The line above the embed, naming the target channel.
    pub content: String,
    /// The confession itself.
    pub embed: ConfessionEmbed,
    /// The buttons under the message, in one row: Approve, then Deny.
    pub buttons: Vec<VettingButton>,
}

/// How a button looks.
#[derive(PartialEq, Eq, Structural, Debug, Clone, Copy)]
pub enum ButtonStyle {
    /// Green: a button that accepts.
    Success,
    /// Red: a button that refuses.
    Danger,
}

/// A button on a vetting message.
pub struct VettingButton {
    /// The text on the button.
    pub label: String,
    /// How the button looks.
    pub style: ButtonStyle,
    /// What pressing it does, as a custom id.
    pub custom_id: String,
}

/// `b` is labelled `label`, looks like `style` and stands for `id`.
pub open spec fn is_button(b: VettingButton, label: Seq<char>, style: ButtonStyle, id: ButtonCustomId) -> bool {
    &&& b.label@ == label
    &&& b.style == style
    &&& b.custom_id@ == id_text(id)
}

/// The two buttons of a confession waiting in the vetting channel: a green
/// Approve button naming the author and target channel, then a red Deny button.
pub open spec fn are_vetting_buttons(buttons: Seq<VettingButton>, author: u64, target: u64) -> bool {
    &&& buttons.len() == 2
    &&& is_button(
        buttons[0],
        "Approve"@,
        ButtonStyle::Success,
        ButtonCustomId::ApproveConfession(author, target),
    )
    &&& is_button(buttons[1], "Deny"@, ButtonStyle::Danger, ButtonCustomId::DenyConfession())
}

/// Builds the buttons of a confession by `author` meant for `target`.
pub fn vetting_buttons(author: u64, target: u64) -> (buttons: Vec<VettingButton>)
    ensures
        are_vetting_buttons(buttons@, author, target),
{
    let approve = VettingButton {
        label: String::from_str("Approve"),
        style: ButtonStyle::Success,
        custom_id: ButtonCustomId::ApproveConfession(author, target).to_string(),
    };
    let deny = VettingButton {
        label: String::from_str("Deny"),
        style: ButtonStyle::Danger,
        custom_id: ButtonCustomId::DenyConfession().to_string(),
    };
    let mut buttons = Vec::new();
    buttons.push(approve);
    buttons.push(deny);
    buttons
}

/// Where a confession stands on its way to vetting.
pub enum VettingState {
    /// Waiting for the list of vetting channels of the guild.
    AwaitChannels { guild: u64, target: u64, info: ConfessionInfo },
    /// Waiting for the guild's secret, to compute the anonymous id.
    AwaitGuildHash { guild: u64, vetting_channel: u64, target: u64, info: ConfessionInfo },
    /// Nothing more to do.
    Finished,
}

/// What the outside world reports back.
pub enum VettingEvent {
    /// The vetting channels of the guild, in stored order, or the lookup error text.
    VettingChannels(Result<Vec<u64>, String>),
    /// The guild's confession secret.
    GuildHash(u64),
}

/// What the outside world is asked to do next.
pub enum VettingAction {
    /// Look up the vetting channels of the guild.
    LookupVettingChannels(u64),
    /// Read the guild's confession secret.
    FetchGuildHash(u64),
    /// Reply privately to the user who confessed.
    Reply(PrivateReply),
    /// Post the confession in the vetting channel.
    Post(VettingPost),
    /// Nothing.
    Done,
}

impl VettingState {
    /// How many steps at most remain.
    pub open spec fn rank(self) -> nat {
        match self {
            VettingState::AwaitChannels { .. } => 2,
            VettingState::AwaitGuildHash { .. } => 1,
            VettingState::Finished => 0,
        }
    }

    /// Takes the next step on `event`.
    pub fn step(self, event: VettingEvent) -> (r: (VettingState, VettingAction))
        ensures
            self !is Finished ==> r.0.rank() < self.rank(),
            r.1 matches VettingAction::Reply(t) ==> t.ephemeral && t.reply,
            match self {
                VettingState::AwaitChannels { guild, target, info } => match event {
                    VettingEvent::VettingChannels(Err(e)) => {
                        &&& r.0 is Finished
                        &&& r.1 matches VettingAction::Reply(t) && is_private_reply(t, vetting_lookup_failed(e@))
                    },
                    VettingEvent::VettingChannels(Ok(channels)) => if channels@.len() == 0 {
                        &&& r.0 is Finished
                        &&& r.1 matches VettingAction::Reply(t) && is_private_reply(t, no_vetting_channel())
                    } else {
                        &&& r.0 == (VettingState::AwaitGuildHash {
                            guild,
                            vetting_channel: channels@[0],
                            target,
                            info,
                        })
                        &&& r.1 == VettingAction::FetchGuildHash(guild)
                    },
                    VettingEvent::GuildHash(_) => r.0 is Finished && r.1 is Done,
                },
                VettingState::AwaitGuildHash { guild, vetting_channel, target, info } => match event {
                    VettingEvent::GuildHash(h) => {
                        &&& r.0 is Finished
                        &&& r.1 matches VettingAction::Post(post) && {
                            &&& post.channel == vetting_channel
                            &&& post.content@ == vetting_notice(target)
                            &&& is_confession_embed(post.embed, info.content, info.image, h, info.author)
                            &&& are_vetting_buttons(post.buttons@, info.author, target)
                        }
                    },
                    VettingEvent::VettingChannels(_) => r.0 is Finished && r.1 is Done,
                },
                VettingState::Finished => r.0 is Finished && r.1 is Done,
            },
    {
        match self {
            VettingState::AwaitChannels { guild, target, info } => match event {
                VettingEvent::VettingChannels(Err(e)) => (
                    VettingState::Finished,
                    VettingAction::Reply(private_reply(vetting_lookup_failed_text(e.as_str()))),
                ),
                VettingEvent::VettingChannels(Ok(channels)) => {
                    if channels.len() == 0 {
                        (VettingState::Finished, VettingAction::Reply(private_reply(no_vetting_channel_text())))
                    } else {
                        let vetting_channel = channels[0];
                        (
                            VettingState::AwaitGuildHash { guild, vetting_channel, target, info },
                            VettingAction::FetchGuildHash(guild),
                        )
                    }
                },
                VettingEvent::GuildHash(_) => (VettingState::Finished, VettingAction::Done),
            },
            VettingState::AwaitGuildHash { guild, vetting_channel, target, info } => match event {
                VettingEvent::GuildHash(h) => {
                    let author = info.author;
                    let embed = confession_embed(info.content, info.image, h, author);
                    let post = VettingPost {
                        channel: vetting_channel,
                        content: vetting_notice_text(target),
                        embed,
                        buttons: vetting_buttons(author, target),
                    };
                    (VettingState::Finished, VettingAction::Post(post))
                },
                VettingEvent::VettingChannels(_) => (VettingState::Finished, VettingAction::Done),
            },
            VettingState::Finished => (VettingState::Finished, VettingAction::Done),
        }
    }
}

/// Starts sending a confession meant for `target` in `guild` to the guild's
/// vetting channel: first the vetting channels are looked up.
pub fn send_verify_confession(guild: u64, target: u64, info: ConfessionInfo) -> (r: (
    VettingState,
    VettingAction,
))
    ensures
        r.0 == (VettingState::AwaitChannels { guild, target, info }),
        r.1 == VettingAction::LookupVettingChannels(guild),
{
    (VettingState::AwaitChannels { guild, target, info }, VettingAction::LookupVettingChannels(guild))
}

/// A confession shown for the same author in the same guild carries the same
/// label and colour wherever it is shown: in the vetting channel and, once
/// approved, in the channel it was meant for.
pub proof fn lemma_same_author_same_label(
    first: ConfessionEmbed,
    second: ConfessionEmbed,
    first_content: String,
    second_content: String,
    first_image: Option<String>,
    second_image: Option<String>,
    guild_hash: u64,
    author: u64,
)
    requires
        is_confession_embed(first, first_content, first_image, guild_hash, author),
        is_confession_embed(second, second_content, second_image, guild_hash, author),
    ensures
        first.author_name@ == second.author_name@,
        first.colour == second.colour,
{
}

/// The label of a confession determines the anonymous id behind it: two
/// confessions shown under the same label come from the same anonymous id.
pub proof fn lemma_label_determines_id(
    first: ConfessionEmbed,
    second: ConfessionEmbed,
    first_content: String,
    second_content: String,
    first_image: Option<String>,
    second_image: Option<String>,
    first_hash: u64,
    second_hash: u64,
    first_author: u64,
    second_author: u64,
)
    requires
        is_confession_embed(first, first_content, first_image, first_hash, first_author),
        is_confession_embed(second, second_content, second_image, second_hash, second_author),
        first.author_name@ == second.author_name@,
    ensures
        spec_hash_from_user(first_hash, first_author) == spec_hash_from_user(second_hash, second_author),
        first.colour == second.colour,
{
    let a = spec_hash_from_user(first_hash, first_author);
    let b = spec_hash_from_user(second_hash, second_author);
    reveal_strlit("[");
    reveal_strlit("]");
    let la = author_label(a);
    let lb = author_label(b);
    assert(la.len() == lower_hex(a as nat).len() + 2);
    assert(lb.len() == lower_hex(b as nat).len() + 2);
    assert(la.subrange(1, la.len() - 1) =~= lower_hex(a as nat));
    assert(lb.subrange(1, lb.len() - 1) =~= lower_hex(b as nat));
    lemma_lower_hex_injective(a as nat, b as nat);
}

/// A confession's embed shows its whole content, of any length, and its
/// image, and is labelled and coloured with the author's anonymous id in that
/// guild.
pub proof fn lemma_embed_shows_whole_content(
    embed: ConfessionEmbed,
    content: String,
    image: Option<String>,
    guild_hash: u64,
    author: u64,
)
    requires
        is_confession_embed(embed, content, image, guild_hash, author),
    ensures
        embed.description@ == content@,
        embed.description@.len() == content@.len(),
        embed.image == image,
        embed.colour == spec_hash_from_user(guild_hash, author),
        embed.colour < 16_777_215,
{
    crate::hash::lemma_anonymous_id(guild_hash, author);
}

} // verus!
