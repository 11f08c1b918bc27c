use vstd::prelude::*;
use crate::confess::ChannelUse;
use crate::messages::{
    get_channel_failed, get_channel_failed_text, set_channel_failed, set_channel_failed_text,
    vetting_already_set, vetting_already_set_text,
};

verus! {

/// Whether the outcome of the administrator check lets a command go on: only
/// a successful check that found the caller authorised does.
pub open spec fn allows(auth: Result<bool, String>) -> bool {
    auth matches Ok(true)
}

/// Where a command that marks the current channel stands.
pub enum SetupState {
    /// Waiting for the administrator check; the channel is to get `usage`.
    AwaitAuth { guild: u64, usage: ChannelUse },
    /// Waiting for the vetting channels already set in the guild.
    AwaitChannels,
    /// Waiting for the channel to have been marked with `usage`.
    AwaitSet { usage: ChannelUse },
    /// Nothing more to do.
    Finished,
}

/// What the outside world reports back.
pub enum SetupEvent {
    /// The administrator check: whether the caller is authorised, or its error text.
    Authorised(Result<bool, String>),
    /// The vetting channels of the guild, or the lookup error text.
    VettingChannels(Result<Vec<u64>, String>),
    /// Whether marking the channel worked, or its error text.
    ChannelSet(Result<(), String>),
}

/// What the outside world is asked to do next.
pub enum SetupAction {
    /// Check that the caller is an administrator.
    CheckAdmin,
    /// Look up the vetting channels of the guild.
    LookupVettingChannels(u64),
    /// Mark the current channel with this use.
    SetChannel(ChannelUse),
    /// Say this in the channel.
    Say(String),
    /// End the command with this error.
    Fail(String),
    /// Nothing.
    Done,
}

/// A channel may be marked with `u` on this step: right after the caller was
/// found authorised, or, for a vetting channel, once no vetting channel is
/// found in the guild.
pub open spec fn may_set(state: SetupState, event: SetupEvent, u: ChannelUse) -> bool {
    match (state, event) {
        (SetupState::AwaitAuth { usage, .. }, SetupEvent::Authorised(a)) => allows(a) && u == usage
            && usage != ChannelUse::Vetting,
        (SetupState::AwaitChannels, SetupEvent::VettingChannels(Ok(v))) => v@.len() == 0 && u
            == ChannelUse::Vetting,
        _ => false,
    }
}

/// The vetting channels of a guild after `action` is carried out in
/// `channel`, when they were `existing` before.
pub open spec fn vetting_channels_after(existing: Seq<u64>, action: SetupAction, channel: u64) -> Seq<u64> {
    if action == SetupAction::SetChannel(ChannelUse::Vetting) && !existing.contains(channel) {
        existing.push(channel)
    } else {
        existing
    }
}

/// A guild never gets a second vetting channel from this step: only the step
/// that reads the vetting channels may mark one, and then only when the guild
/// has none; no other step marks a channel for vetting.
pub open spec fn keeps_one_vetting(state: SetupState, event: SetupEvent, action: SetupAction) -> bool {
    match (state, event) {
        (SetupState::AwaitChannels, SetupEvent::VettingChannels(Ok(v))) => v@.len() <= 1 ==> forall|
            channel: u64,
        | #[trigger] vetting_channels_after(v@, action, channel).len() <= 1,
        _ => action != SetupAction::SetChannel(ChannelUse::Vetting),
    }
}

impl SetupState {
    /// How many steps at most remain.
    pub open spec fn rank(self) -> nat {
        match self {
            SetupState::AwaitAuth { .. } => 3,
            SetupState::AwaitChannels => 2,
            SetupState::AwaitSet { .. } => 1,
            SetupState::Finished => 0,
        }
    }

    /// Takes the next step on `event`.
    pub fn step(self, event: SetupEvent) -> (r: (SetupState, SetupAction))
        ensures
            self !is Finished ==> r.0.rank() < self.rank(),
            r.1 matches SetupAction::SetChannel(u) ==> may_set(self, event, u),
            keeps_one_vetting(self, event, r.1),
            match self {
                SetupState::AwaitAuth { guild, usage } => match event {
                    SetupEvent::Authorised(a) => if !allows(a) {
                        r.0 is Finished && r.1 is Done
                    } else if usage == ChannelUse::Vetting {
                        r.0 is AwaitChannels && r.1 == SetupAction::LookupVettingChannels(guild)
                    } else {
                        r.0 == (SetupState::AwaitSet { usage }) && r.1 == SetupAction::SetChannel(usage)
                    },
                    _ => r.0 is Finished && r.1 is Done,
                },
                SetupState::AwaitChannels => match event {
                    SetupEvent::VettingChannels(Ok(v)) => if v@.len() == 0 {
                        &&& r.0 == (SetupState::AwaitSet { usage: ChannelUse::Vetting })
                        &&& r.1 == SetupAction::SetChannel(ChannelUse::Vetting)
                    } else {
                        &&& r.0 is Finished
                        &&& r.1 matches SetupAction::Say(t) && t@ == vetting_already_set(v@[0])
                    },
                    SetupEvent::VettingChannels(Err(e)) => {
                        &&& r.0 is Finished
                        &&& r.1 matches SetupAction::Say(t) && t@ == get_channel_failed(e@)
                    },
                    _ => r.0 is Finished && r.1 is Done,
                },
                SetupState::AwaitSet { usage } => match event {
                    SetupEvent::ChannelSet(Ok(())) => r.0 is Finished && r.1 is Done,
                    SetupEvent::ChannelSet(Err(e)) => {
                        &&& r.0 is Finished
                        &&& if usage == ChannelUse::Vetting {
                            r.1 matches SetupAction::Say(t) && t@ == set_channel_failed(e@)
                        } else {
                            r.1 matches SetupAction::Fail(t) && t@ == e@
                        }
                    },
                    _ => r.0 is Finished && r.1 is Done,
                },
                SetupState::Finished => r.0 is Finished && r.1 is Done,
            },
    {
        match self {
            SetupState::AwaitAuth { guild, usage } => match event {
                SetupEvent::Authorised(a) => {
                    let allowed = match a {
                        Ok(true) => true,
                        _ => false,
                    };
                    if !allowed {
                        (SetupState::Finished, SetupAction::Done)
                    } else if usage == ChannelUse::Vetting {
                        (SetupState::AwaitChannels, SetupAction::LookupVettingChannels(guild))
                    } else {
                        (SetupState::AwaitSet { usage }, SetupAction::SetChannel(usage))
                    }
                },
                _ => (SetupState::Finished, SetupAction::Done),
            },
            SetupState::AwaitChannels => match event {
                SetupEvent::VettingChannels(Ok(v)) => {
                    if v.len() == 0 {
                        (
                            SetupState::AwaitSet { usage: ChannelUse::Vetting },
                            SetupAction::SetChannel(ChannelUse::Vetting),
                        )
                    } else {
                        (SetupState::Finished, SetupAction::Say(vetting_already_set_text(v[0])))
                    }
                },
                SetupEvent::VettingChannels(Err(e)) => (
                    SetupState::Finished,
                    SetupAction::Say(get_channel_failed_text(e.as_str())),
                ),
                _ => (SetupState::Finished, SetupAction::Done),
            },
            SetupState::AwaitSet { usage } => match event {
                SetupEvent::ChannelSet(Ok(())) => (SetupState::Finished, SetupAction::Done),
                SetupEvent::ChannelSet(Err(e)) => {
                    if usage == ChannelUse::Vetting {
                        (SetupState::Finished, SetupAction::Say(set_channel_failed_text(e.as_str())))
                    } else {
                        (SetupState::Finished, SetupAction::Fail(e))
                    }
                },
                _ => (SetupState::Finished, SetupAction::Done),
            },
            SetupState::Finished => (SetupState::Finished, SetupAction::Done),
        }
    }
}

/// Starts marking the current channel of `guild` as its vetting channel:
/// first the caller must be an administrator.
pub fn set_vetting(guild: u64) -> (r: (SetupState, SetupAction))
    ensures
        r.0 == (SetupState::AwaitAuth { guild, usage: ChannelUse::Vetting }),
        r.1 is CheckAdmin,
{
    (SetupState::AwaitAuth { guild, usage: ChannelUse::Vetting }, SetupAction::CheckAdmin)
}

/// Starts marking the current channel of `guild` as a confession channel:
/// first the caller must be an administrator.
pub fn set_confessing(guild: u64) -> (r: (SetupState, SetupAction))
    ensures
        r.0 == (SetupState::AwaitAuth { guild, usage: ChannelUse::Confession }),
        r.1 is CheckAdmin,
{
    (SetupState::AwaitAuth { guild, usage: ChannelUse::Confession }, SetupAction::CheckAdmin)
}

/// Whether a member may change the guild's settings: a member with the
/// administrator permission, or one who holds the guild's moderator role.
pub open spec fn spec_is_authorised(administrator: bool, mod_role: Option<u64>, member_roles: Seq<u64>) -> bool {
    administrator || (mod_role matches Some(role) && member_roles.contains(role))
}

/// Decides `spec_is_authorised` for a member with the given permission and roles.
pub fn is_authorised(administrator: bool, mod_role: Option<u64>, member_roles: &Vec<u64>) -> (r: bool)
    ensures
        r == spec_is_authorised(administrator, mod_role, member_roles@),
{
    if administrator {
        return true;
    }
    let role = match mod_role {
        Some(role) => role,
        None => return false,
    };
    let mut i: usize = 0;
    while i < member_roles.len()
        invariant
            i <= member_roles@.len(),
            mod_role == Some(role),
            !administrator,
            forall|j: int| 0 <= j < i ==> member_roles@[j] != role,
        decreases member_roles@.len() - i,
    {
        if member_roles[i] == role {
            proof {
                assert(member_roles@[i as int] == role);
                assert(member_roles@.contains(role));
            }
            return true;
        }
        i = i + 1;
    }
    false
}

/// A member who holds the guild's moderator role is authorised, wherever the
/// role stands among their roles.
pub proof fn lemma_moderator_role_anywhere(administrator: bool, role: u64, member_roles: Seq<u64>, i: int)
    requires
        0 <= i < member_roles.len(),
        member_roles[i] == role,
    ensures
        spec_is_authorised(administrator, Some(role), member_roles),
{
    assert(member_roles.contains(role));
}

/// An administrator is always authorised; anyone else only by holding the
/// guild's moderator role, so a member without it, or in a guild without one,
/// is refused.
pub proof fn lemma_authorisation_needs_admin_or_role(
    administrator: bool,
    mod_role: Option<u64>,
    member_roles: Seq<u64>,
)
    ensures
        administrator ==> spec_is_authorised(administrator, mod_role, member_roles),
        !administrator && mod_role is None ==> !spec_is_authorised(administrator, mod_role, member_roles),
        !administrator && (mod_role matches Some(r) && forall|j: int|
            0 <= j < member_roles.len() ==> member_roles[j] != r) ==> !spec_is_authorised(
            administrator,
            mod_role,
            member_roles,
        ),
{
}

/// Authorisation depends on which roles a member holds, not on their order or
/// repetition: two role lists with the same members give the same answer.
pub proof fn lemma_authorisation_ignores_role_order(
    administrator: bool,
    mod_role: Option<u64>,
    first: Seq<u64>,
    second: Seq<u64>,
)
    requires
        forall|x: u64| first.contains(x) <==> second.contains(x),
    ensures
        spec_is_authorised(administrator, mod_role, first) == spec_is_authorised(
            administrator,
            mod_role,
            second,
        ),
{
    if let Some(r) = mod_role {
        assert(first.contains(r) <==> second.contains(r));
    }
}

} // verus!
