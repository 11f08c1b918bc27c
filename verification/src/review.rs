use vstd::prelude::*;
use crate::button::{lemma_id_roundtrip, parse_id, ButtonCustomId};
use crate::messages::{accepted_by, accepted_by_text, denied_by, denied_by_text};
use crate::vetting::{are_vetting_buttons, confession_embed, is_confession_embed, ConfessionEmbed, VettingPost};

verus! {

/// The first embed of the vetting message a button was pressed on.
pub struct EmbedContent {
    /// The embed's description: the confession's text.
    pub description: Option<String>,
    /// The address of the embed's image, if any.
    pub image_url: Option<String>,
}

/// Where the handling of a pressed vetting button stands.
pub enum ReviewState {
    /// Waiting to learn whether the confessing user still exists.
    AwaitAuthor {
        guild: u64,
        author: u64,
        channel: u64,
        moderator: u64,
        embed: Option<EmbedContent>,
    },
    /// Waiting for the guild's secret, to compute the anonymous id.
    AwaitGuildHash { author: u64, channel: u64, moderator: u64, content: String, image: Option<String> },
    /// Waiting for the confession to have been posted.
    AwaitPublished { moderator: u64 },
    /// Waiting for the outcome of the response to the moderator.
    AwaitResponse,
    /// Nothing more to do.
    Finished,
}

/// What the outside world reports back.
pub enum ReviewEvent {
    /// Whether the confessing user could be fetched.
    AuthorFetched(bool),
    /// The guild's confession secret.
    GuildHash(u64),
    /// The confession was posted, or its posting failed and was logged.
    Published,
    /// Whether the response to the moderator was sent.
    Responded(bool),
}

/// What the outside world is asked to do next.
pub enum ReviewAction {
    /// Fetch the user with this id.
    FetchAuthor(u64),
    /// Read the confession secret of this guild.
    FetchGuildHash(u64),
    /// Post the confession in the channel it was meant for.
    Publish { channel: u64, embed: ConfessionEmbed },
    /// Answer the button press with this text.
    Respond(String),
    /// Remove the buttons from the vetting message.
    ClearButtons,
    /// Nothing.
    Done,
}

/// The confession text carried by an embed: its description, or nothing.
pub open spec fn embed_text(e: EmbedContent) -> Seq<char> {
    match e.description {
        Some(d) => d@,
        None => Seq::empty(),
    }
}

impl ReviewState {
    /// How many steps at most remain.
    pub open spec fn rank(self) -> nat {
        match self {
            ReviewState::AwaitAuthor { .. } => 4,
            ReviewState::AwaitGuildHash { .. } => 3,
            ReviewState::AwaitPublished { .. } => 2,
            ReviewState::AwaitResponse => 1,
            ReviewState::Finished => 0,
        }
    }

    /// Takes the next step on `event`.
    pub fn step(self, event: ReviewEvent) -> (r: (ReviewState, ReviewAction))
        ensures
            self !is Finished ==> r.0.rank() < self.rank(),
            r.1 is ClearButtons ==> self is AwaitResponse && event == ReviewEvent::Responded(true),
            match self {
                ReviewState::AwaitAuthor { guild, author, channel, moderator, embed } => match event {
                    ReviewEvent::AuthorFetched(true) => match embed {
                        Some(e) => {
                            &&& r.0 matches ReviewState::AwaitGuildHash {
                                author: a,
                                channel: c,
                                moderator: m,
                                content,
                                image,
                            } && a == author && c == channel && m == moderator && content@
                                == embed_text(e) && image == e.image_url
                            &&& r.1 == ReviewAction::FetchGuildHash(guild)
                        },
                        None => r.0 is Finished && r.1 is Done,
                    },
                    _ => r.0 is Finished && r.1 is Done,
                },
                ReviewState::AwaitGuildHash { author, channel, moderator, content, image } => match event {
                    ReviewEvent::GuildHash(h) => {
                        &&& r.0 == ReviewState::AwaitPublished { moderator }
                        &&& r.1 matches ReviewAction::Publish { channel: c, embed } && c == channel
                            && is_confession_embed(embed, content, image, h, author)
                    },
                    _ => r.0 is Finished && r.1 is Done,
                },
                ReviewState::AwaitPublished { moderator } => match event {
                    ReviewEvent::Published => {
                        &&& r.0 is AwaitResponse
                        &&& r.1 matches ReviewAction::Respond(t) && t@ == accepted_by(moderator)
                    },
                    _ => r.0 is Finished && r.1 is Done,
                },
                ReviewState::AwaitResponse => {
                    &&& r.0 is Finished
                    &&& r.1 is ClearButtons <==> event == ReviewEvent::Responded(true)
                    &&& r.1 is ClearButtons || r.1 is Done
                },
                ReviewState::Finished => r.0 is Finished && r.1 is Done,
            },
    {
        match self {
            ReviewState::AwaitAuthor { guild, author, channel, moderator, embed } => match event {
                ReviewEvent::AuthorFetched(true) => match embed {
                    Some(e) => {
                        let content = match e.description {
                            Some(d) => d,
                            None => String::new(),
                        };
                        (
                            ReviewState::AwaitGuildHash {
                                author,
                                channel,
                                moderator,
                                content,
                                image: e.image_url,
                            },
                            ReviewAction::FetchGuildHash(guild),
                        )
                    },
                    None => (ReviewState::Finished, ReviewAction::Done),
                },
                _ => (ReviewState::Finished, ReviewAction::Done),
            },
            ReviewState::AwaitGuildHash { author, channel, moderator, content, image } => match event {
                ReviewEvent::GuildHash(h) => {
                    let embed = confession_embed(content, image, h, author);
                    (ReviewState::AwaitPublished { moderator }, ReviewAction::Publish { channel, embed })
                },
                _ => (ReviewState::Finished, ReviewAction::Done),
            },
            ReviewState::AwaitPublished { moderator } => match event {
                ReviewEvent::Published => (
                    ReviewState::AwaitResponse,
                    ReviewAction::Respond(accepted_by_text(moderator)),
                ),
                _ => (ReviewState::Finished, ReviewAction::Done),
            },
            ReviewState::AwaitResponse => match event {
                ReviewEvent::Responded(true) => (ReviewState::Finished, ReviewAction::ClearButtons),
                _ => (ReviewState::Finished, ReviewAction::Done),
            },
            ReviewState::Finished => (ReviewState::Finished, ReviewAction::Done),
        }
    }
}

/// Starts handling a button pressed by `moderator` on a vetting message in
/// `guild`, whose custom id is `custom_id` and whose first embed is
/// `first_embed`.
pub fn handle(custom_id: &str, guild: u64, moderator: u64, first_embed: Option<EmbedContent>) -> (r: (
    ReviewState,
    ReviewAction,
))
    ensures
        match parse_id(custom_id@) {
            None => r.0 is Finished && r.1 is Done,
            Some(ButtonCustomId::ApproveConfession(author, channel)) => {
                &&& r.0 == (ReviewState::AwaitAuthor {
                    guild,
                    author,
                    channel,
                    moderator,
                    embed: first_embed,
                })
                &&& r.1 == ReviewAction::FetchAuthor(author)
            },
            Some(ButtonCustomId::DenyConfession()) => {
                &&& r.0 is AwaitResponse
                &&& r.1 matches ReviewAction::Respond(t) && t@ == denied_by(moderator)
            },
        },
{
    match ButtonCustomId::from_string(custom_id) {
        None => (ReviewState::Finished, ReviewAction::Done),
        Some(ButtonCustomId::ApproveConfession(author, channel)) => (
            ReviewState::AwaitAuthor { guild, author, channel, moderator, embed: first_embed },
            ReviewAction::FetchAuthor(author),
        ),
        Some(ButtonCustomId::DenyConfession()) => (
            ReviewState::AwaitResponse,
            ReviewAction::Respond(denied_by_text(moderator)),
        ),
    }
}

/// The buttons of a confession posted for vetting name that confession:
/// pressing Approve makes `handle` fetch the confession's author and, once the
/// author and the guild secret are known, publish in the channel the
/// confession was meant for; pressing Deny denies it.
pub proof fn lemma_vetting_buttons_name_confession(post: VettingPost, author: u64, target: u64)
    requires
        are_vetting_buttons(post.buttons@, author, target),
    ensures
        parse_id(post.buttons@[0].custom_id@) == Some(ButtonCustomId::ApproveConfession(author, target)),
        parse_id(post.buttons@[1].custom_id@) == Some(ButtonCustomId::DenyConfession()),
{
    lemma_id_roundtrip(ButtonCustomId::ApproveConfession(author, target));
    lemma_id_roundtrip(ButtonCustomId::DenyConfession());
}

/// The text carried from a vetting embed is its description whenever it has
/// one, whatever image it has; an embed without description carries no text.
pub proof fn lemma_description_carried(e: EmbedContent)
    ensures
        e.description matches Some(d) ==> embed_text(e) == d@,
        e.description is None ==> embed_text(e).len() == 0,
{
}

/// Once the author is known, an approved confession goes on with exactly the
/// description of the vetting embed, and with its image.
pub proof fn lemma_approval_keeps_description(
    r: ReviewState,
    e: EmbedContent,
    d: String,
)
    requires
        r matches ReviewState::AwaitGuildHash { content, image, .. } && content@ == embed_text(e)
            && image == e.image_url,
        e.description == Some(d),
    ensures
        r matches ReviewState::AwaitGuildHash { content, image, .. } && content@ == d@ && image
            == e.image_url,
{
}

} // verus!
