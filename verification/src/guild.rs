use vstd::prelude::*;

verus! {

/// A guild as stored: its id and the role of its moderators, if one is set.
#[derive(PartialEq, Eq, Structural, Debug, Clone, Copy)]
pub struct GuildModel {
    pub id: u64,
    pub admin_role: Option<u64>,
}

/// Why a guild operation failed; database errors carry their Debug text.
pub enum GuildError {
    /// Reading the guild failed.
    Lookup(String),
    /// Writing the guild failed.
    Store(String),
    /// No such guild is stored.
    NotFound,
}

/// The text reported for an error.
pub open spec fn error_message(e: GuildError) -> Seq<char> {
    match e {
        GuildError::Lookup(d) => "Error getting guild from database: "@ + d@,
        GuildError::Store(d) => "Error adding guild to database: "@ + d@,
        GuildError::NotFound => "Guild not found. Have you used initialise?"@,
    }
}

impl GuildError {
    /// The text reported for this error.
    pub fn message(&self) -> (s: String)
        ensures
            s@ == error_message(*self),
    {
        match self {
            GuildError::Lookup(d) => String::from_str("Error getting guild from database: ").concat(
                d.as_str(),
            ),
            GuildError::Store(d) => String::from_str("Error adding guild to database: ").concat(
                d.as_str(),
            ),
            GuildError::NotFound => String::from_str("Guild not found. Have you used initialise?"),
        }
    }
}

/// The row stored for a guild seen for the first time: no moderator role.
pub fn add_or_nothing_guild(guild_id: u64) -> (g: GuildModel)
    ensures
        g.id == guild_id,
        g.admin_role is None,
{
    GuildModel { id: guild_id, admin_role: None }
}

/// The outcome of reading a guild, from what the database answered.
pub fn get_guild(found: Result<Option<GuildModel>, String>) -> (r: Result<Option<GuildModel>, GuildError>)
    ensures
        match found {
            Ok(g) => r == Ok::<Option<GuildModel>, GuildError>(g),
            Err(d) => r matches Err(GuildError::Lookup(e)) && e == d,
        },
{
    match found {
        Ok(g) => Ok(g),
        Err(d) => Err(GuildError::Lookup(d)),
    }
}

/// The outcome of writing a guild, from what the database answered.
pub fn store_outcome<T>(stored: Result<T, String>) -> (r: Result<T, GuildError>)
    ensures
        match stored {
            Ok(v) => r matches Ok(w) && w == v,
            Err(d) => r matches Err(GuildError::Store(e)) && e == d,
        },
{
    match stored {
        Ok(v) => Ok(v),
        Err(d) => Err(GuildError::Store(d)),
    }
}

/// The moderator role of a guild, from what the database answered when the
/// guild was read: a guild that is not stored is an error.
pub fn get_guild_mod_role(found: Result<Option<GuildModel>, String>) -> (r: Result<
    Option<u64>,
    GuildError,
>)
    ensures
        match found {
            Ok(Some(g)) => r == Ok::<Option<u64>, GuildError>(g.admin_role),
            Ok(None) => r matches Err(GuildError::NotFound),
            Err(d) => r matches Err(GuildError::Lookup(e)) && e == d,
        },
{
    match found {
        Ok(Some(g)) => Ok(g.admin_role),
        Ok(None) => Err(GuildError::NotFound),
        Err(d) => Err(GuildError::Lookup(d)),
    }
}

} // verus!
