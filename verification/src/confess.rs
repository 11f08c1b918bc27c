use vstd::prelude::*;
use crate::messages::{
    is_private_reply, private_reply, PrivateReply,
    channel_usage_failed, channel_usage_failed_text, filename_placeholder, filename_placeholder_text,
    not_for_confessing, not_for_confessing_text, sent_for_vetting, sent_for_vetting_text,
};
use crate::text::str_equal;
use crate::vetting::ConfessionInfo;

verus! {

/// What a channel of a guild is set aside for.
#[derive(PartialEq, Eq, Structural, Debug, Clone, Copy)]
pub enum ChannelUse {
    /// Nothing in particular.
    Unused,
    /// Confessions are made here.
    Confession,
    /// Moderators vet confessions here.
    Vetting,
}

/// The name under which a channel use is stored.
pub open spec fn use_storage_name(usage: ChannelUse) -> Seq<char> {
    match usage {
        ChannelUse::Unused => "none"@,
        ChannelUse::Confession => "confession"@,
        ChannelUse::Vetting => "vetting"@,
    }
}

/// The channel use a stored name stands for; any unknown name stands for no use.
pub open spec fn use_from_storage_name(name: Seq<char>) -> ChannelUse {
    if name == "confession"@ {
        ChannelUse::Confession
    } else if name == "vetting"@ {
        ChannelUse::Vetting
    } else {
        ChannelUse::Unused
    }
}

impl ChannelUse {
    /// The name under which this use is stored.
    pub fn storage_name(self) -> (s: String)
        ensures
            s@ == use_storage_name(self),
    {
        match self {
            ChannelUse::Unused => String::from_str("none"),
            ChannelUse::Confession => String::from_str("confession"),
            ChannelUse::Vetting => String::from_str("vetting"),
        }
    }

    /// The use that a stored name stands for.
    pub fn from_storage_name(name: &str) -> (usage: ChannelUse)
        ensures
            usage == use_from_storage_name(name@),
    {
        if str_equal(name, "confession") {
            ChannelUse::Confession
        } else if str_equal(name, "vetting") {
            ChannelUse::Vetting
        } else {
            ChannelUse::Unused
        }
    }
}

/// Reading back the stored name of a channel use gives that use.
pub proof fn lemma_storage_name_roundtrip(usage: ChannelUse)
    ensures
        use_from_storage_name(use_storage_name(usage)) == usage,
{
    reveal_strlit("none");
    reveal_strlit("confession");
    reveal_strlit("vetting");
    assert("none"@ != "confession"@ && "none"@ != "vetting"@) by {
        assert("none"@.len() != "confession"@.len());
        assert("none"@[0] != "vetting"@[0]);
    }
    assert("vetting"@ != "confession"@) by {
        assert("vetting"@[0] != "confession"@[0]);
    }
}

/// A file attached to a confession.
pub struct Attachment {
    /// The file's name.
    pub filename: String,
    /// The address where the file can be fetched.
    pub url: String,
}

/// A confession command as it was invoked.
pub struct ConfessRequest {
    /// The guild it was invoked in.
    pub guild: u64,
    /// The channel the confession is meant for.
    pub target: u64,
    /// The channel the command was invoked in.
    pub invoked_in: u64,
    /// The user who confesses.
    pub author: u64,
    /// The text given with the command, if any.
    pub content: Option<String>,
    /// The attached file, if any.
    pub image: Option<Attachment>,
    /// Whether the command came as a slash command, which can open a form.
    pub interactive: bool,
}

/// The view of an optional text.
pub open spec fn opt_text(o: Option<String>) -> Option<Seq<char>> {
    match o {
        Some(s) => Some(s@),
        None => None,
    }
}

/// The content a confession has before any form is shown: the given text,
/// else a placeholder naming the attached file, else nothing.
pub open spec fn initial_content(req: ConfessRequest) -> Option<Seq<char>> {
    match req.content {
        Some(c) => Some(c@),
        None => match req.image {
            Some(a) => Some(filename_placeholder(a.filename@)),
            None => None,
        },
    }
}

/// The text a confession is sent with: its content, or "?" when it has none.
pub open spec fn final_content(content: Option<Seq<char>>) -> Seq<char> {
    match content {
        Some(c) => c,
        None => "?"@,
    }
}

/// The image address a confession is sent with.
pub open spec fn image_url(image: Option<Attachment>) -> Option<Seq<char>> {
    match image {
        Some(a) => Some(a.url@),
        None => None,
    }
}

/// Where a confession command stands.
pub enum ConfessState {
    /// Waiting for the use of the target channel.
    AwaitUsage { req: ConfessRequest },
    /// Waiting for the text typed into the confession form.
    AwaitForm { req: ConfessRequest, usage: Result<ChannelUse, String> },
    /// Waiting for the confession to have gone to vetting.
    AwaitVetting,
    /// Nothing more to do.
    Finished,
}

/// What the outside world reports back.
pub enum ConfessEvent {
    /// The use of the target channel, or the lookup error text.
    ChannelUsage(Result<ChannelUse, String>),
    /// The text from the confession form; `None` when the form gave none.
    FormContent(Option<String>),
    /// The confession has gone through the vetting hand-off.
    VettingDone,
}

/// What the outside world is asked to do next.
pub enum ConfessAction {
    /// Look up what the channel is used for, in the guild.
    LookupChannelUse { guild: u64, channel: u64 },
    /// Show the confession form to the user.
    OpenForm,
    /// Hand the confession to vetting, for the target channel of the guild.
    SubmitForVetting { guild: u64, target: u64, info: ConfessionInfo },
    /// Reply privately to the user.
    Reply(PrivateReply),
    /// Nothing.
    Done,
}

/// `info` carries the confession of `req` with the content `content`.
pub open spec fn is_submission(info: ConfessionInfo, req: ConfessRequest, content: Option<Seq<char>>) -> bool {
    &&& info.author == req.author
    &&& info.content@ == final_content(content)
    &&& opt_text(info.image) == image_url(req.image)
}

/// What the command does once both the channel use and the content are known.
pub open spec fn decided(
    r: (ConfessState, ConfessAction),
    req: ConfessRequest,
    usage: Result<ChannelUse, String>,
    content: Option<Seq<char>>,
) -> bool {
    match usage {
        Ok(ChannelUse::Confession) => {
            &&& r.0 is AwaitVetting
            &&& r.1 matches ConfessAction::SubmitForVetting { guild, target, info } && {
                &&& guild == req.guild
                &&& target == req.target
                &&& is_submission(info, req, content)
            }
        },
        Ok(_) => {
            &&& r.0 is Finished
            &&& r.1 matches ConfessAction::Reply(t) && is_private_reply(t, not_for_confessing(req.invoked_in))
        },
        Err(e) => {
            &&& r.0 is Finished
            &&& r.1 matches ConfessAction::Reply(t) && is_private_reply(t, channel_usage_failed(e@))
        },
    }
}

fn attachment_url(image: Option<Attachment>) -> (r: Option<String>)
    ensures
        opt_text(r) == image_url(image),
{
    match image {
        Some(a) => Some(a.url),
        None => None,
    }
}

fn decide(req: ConfessRequest, usage: Result<ChannelUse, String>, content: Option<String>) -> (r: (
    ConfessState,
    ConfessAction,
))
    ensures
        decided(r, req, usage, opt_text(content)),
{
    match usage {
        Ok(ChannelUse::Confession) => {
            let text = match content {
                Some(c) => c,
                None => String::from_str("?"),
            };
            let guild = req.guild;
            let target = req.target;
            let info = ConfessionInfo { author: req.author, content: text, image: attachment_url(req.image) };
            (ConfessState::AwaitVetting, ConfessAction::SubmitForVetting { guild, target, info })
        },
        Ok(_) => (ConfessState::Finished, ConfessAction::Reply(private_reply(not_for_confessing_text(req.invoked_in)))),
        Err(e) => (ConfessState::Finished, ConfessAction::Reply(private_reply(channel_usage_failed_text(e.as_str())))),
    }
}

/// A confession is handed on, to vetting and nowhere else, only on a step
/// that learns, or already knows, that the target channel is a confession
/// channel.
pub open spec fn hands_on_from_confession_channel(state: ConfessState, event: ConfessEvent) -> bool {
    match (state, event) {
        (ConfessState::AwaitUsage { .. }, ConfessEvent::ChannelUsage(usage)) => usage matches Ok(
            ChannelUse::Confession,
        ),
        (ConfessState::AwaitForm { usage, .. }, ConfessEvent::FormContent(_)) => usage matches Ok(
            ChannelUse::Confession,
        ),
        _ => false,
    }
}

impl ConfessState {
    /// How many steps at most remain.
    pub open spec fn rank(self) -> nat {
        match self {
            ConfessState::AwaitUsage { .. } => 3,
            ConfessState::AwaitForm { .. } => 2,
            ConfessState::AwaitVetting => 1,
            ConfessState::Finished => 0,
        }
    }

    /// Takes the next step on `event`.
    pub fn step(self, event: ConfessEvent) -> (r: (ConfessState, ConfessAction))
        ensures
            self !is Finished ==> r.0.rank() < self.rank(),
            r.1 matches ConfessAction::Reply(t) ==> t.ephemeral && t.reply,
            r.1 is SubmitForVetting ==> hands_on_from_confession_channel(self, event),
            match self {
                ConfessState::AwaitUsage { req } => match event {
                    ConfessEvent::ChannelUsage(usage) => if initial_content(req) is None
                        && req.interactive {
                        &&& r.0 == (ConfessState::AwaitForm { req, usage })
                        &&& r.1 is OpenForm
                    } else {
                        decided(r, req, usage, initial_content(req))
                    },
                    _ => r.0 is Finished && r.1 is Done,
                },
                ConfessState::AwaitForm { req, usage } => match event {
                    ConfessEvent::FormContent(content) => decided(r, req, usage, opt_text(content)),
                    _ => r.0 is Finished && r.1 is Done,
                },
                ConfessState::AwaitVetting => match event {
                    ConfessEvent::VettingDone => {
                        &&& r.0 is Finished
                        &&& r.1 matches ConfessAction::Reply(t) && is_private_reply(t, sent_for_vetting())
                    },
                    _ => r.0 is Finished && r.1 is Done,
                },
                ConfessState::Finished => r.0 is Finished && r.1 is Done,
            },
    {
        match self {
            ConfessState::AwaitUsage { req } => match event {
                ConfessEvent::ChannelUsage(usage) => {
                    let content: Option<String> = match &req.content {
                        Some(c) => Some(c.clone()),
                        None => match &req.image {
                            Some(a) => Some(filename_placeholder_text(a.filename.as_str())),
                            None => None,
                        },
                    };
                    if content.is_none() && req.interactive {
                        (ConfessState::AwaitForm { req, usage }, ConfessAction::OpenForm)
                    } else {
                        decide(req, usage, content)
                    }
                },
                _ => (ConfessState::Finished, ConfessAction::Done),
            },
            ConfessState::AwaitForm { req, usage } => match event {
                ConfessEvent::FormContent(content) => decide(req, usage, content),
                _ => (ConfessState::Finished, ConfessAction::Done),
            },
            ConfessState::AwaitVetting => match event {
                ConfessEvent::VettingDone => (
                    ConfessState::Finished,
                    ConfessAction::Reply(private_reply(sent_for_vetting_text())),
                ),
                _ => (ConfessState::Finished, ConfessAction::Done),
            },
            ConfessState::Finished => (ConfessState::Finished, ConfessAction::Done),
        }
    }
}

/// Starts a confession to the channel `req.target`: first the use of that
/// channel is looked up.
pub fn confess_to(req: ConfessRequest) -> (r: (ConfessState, ConfessAction))
    ensures
        r.1 == (ConfessAction::LookupChannelUse { guild: req.guild, channel: req.target }),
        r.0 == (ConfessState::AwaitUsage { req }),
{
    let guild = req.guild;
    let channel = req.target;
    (ConfessState::AwaitUsage { req }, ConfessAction::LookupChannelUse { guild, channel })
}

/// Starts a confession to the channel the command was invoked in.
pub fn confess(
    guild: u64,
    invoked_in: u64,
    author: u64,
    content: Option<String>,
    image: Option<Attachment>,
    interactive: bool,
) -> (r: (ConfessState, ConfessAction))
    ensures
        r.1 == (ConfessAction::LookupChannelUse { guild, channel: invoked_in }),
        r.0 matches ConfessState::AwaitUsage { req } && {
            &&& req.guild == guild
            &&& req.target == invoked_in
            &&& req.invoked_in == invoked_in
            &&& req.author == author
            &&& req.content == content
            &&& req.image == image
            &&& req.interactive == interactive
        },
{
    confess_to(ConfessRequest { guild, target: invoked_in, invoked_in, author, content, image, interactive })
}

/// Text given with the command is what the confession says, whether or not a
/// file is attached; a file's name stands in only when no text was given.
pub proof fn lemma_given_text_wins(req: ConfessRequest)
    ensures
        req.content matches Some(c) ==> initial_content(req) == Some(c@),
        req.content is None ==> initial_content(req) == (match req.image {
            Some(a) => Some(filename_placeholder(a.filename@)),
            None => None::<Seq<char>>,
        }),
{
}

/// When the target is a confession channel, the confession handed to vetting
/// carries the author of the request, the text given with the command (attached
/// file or not), and the address of the attached file.
pub proof fn lemma_submission_carries_given_text(
    r: (ConfessState, ConfessAction),
    req: ConfessRequest,
    c: String,
)
    requires
        decided(r, req, Ok(ChannelUse::Confession), initial_content(req)),
        req.content == Some(c),
    ensures
        r.1 matches ConfessAction::SubmitForVetting { guild, target, info } && {
            &&& guild == req.guild
            &&& target == req.target
            &&& info.author == req.author
            &&& info.content@ == c@
            &&& opt_text(info.image) == image_url(req.image)
        },
{
}

/// A confession with neither text nor file goes to vetting as "?"; one with
/// only a file goes as "[Filename: <name>]".
pub proof fn lemma_submission_without_text(r: (ConfessState, ConfessAction), req: ConfessRequest)
    requires
        decided(r, req, Ok(ChannelUse::Confession), initial_content(req)),
        req.content is None,
    ensures
        r.1 matches ConfessAction::SubmitForVetting { info, .. } && info.content@ == (match req.image {
            Some(a) => "[Filename: "@ + a.filename@ + "]"@,
            None => "?"@,
        }),
{
}

} // verus!
