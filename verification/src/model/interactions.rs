//! Publicly available interaction models.

use crate::model::id::{ApplicationId, CommandId};
use vstd::prelude::*;

verus! {

/// An application, as a command search lists it.
#[derive(Clone, Debug)]
pub struct ApplicationInfo {
    /// The application's identifier.
    pub id: ApplicationId,
    /// The application's name.
    pub name: String,
    /// What the application says of itself.
    pub description: String,
}

/// An application command, as a command search lists it.
#[derive(Clone, Debug)]
pub struct ApplicationCommand {
    /// The command's identifier.
    pub id: CommandId,
    /// The application that the command belongs to.
    pub application_id: ApplicationId,
    /// The command's name.
    pub name: String,
    /// What the command does.
    pub description: String,
}

/// Where a page of search results stands among its neighbours.
#[derive(Clone, Debug)]
#[non_exhaustive]
pub struct Cursor {
    pub previous: Option<String>,
    pub next: Option<String>,
    pub repaired: Option<bool>,
}

/// One page of a search for application commands.
#[derive(Clone, Debug)]
#[non_exhaustive]
pub struct UserApplicationCommandSearchResult {
    pub applications: Vec<ApplicationInfo>,
    pub application_commands: Vec<ApplicationCommand>,
    pub cursor: Cursor,
}

impl Cursor {
    /// A cursor with the given neighbours.
    pub fn new(previous: Option<String>, next: Option<String>, repaired: Option<bool>) -> (cursor:
        Self)
        ensures
            cursor.previous == previous,
            cursor.next == next,
            cursor.repaired == repaired,
    {
        Cursor { previous, next, repaired }
    }
}

impl UserApplicationCommandSearchResult {
    /// A page with the given applications and commands.
    pub fn new(
        applications: Vec<ApplicationInfo>,
        application_commands: Vec<ApplicationCommand>,
        cursor: Cursor,
    ) -> (page: Self)
        ensures
            page.applications == applications,
            page.application_commands == application_commands,
            page.cursor == cursor,
    {
        UserApplicationCommandSearchResult { applications, application_commands, cursor }
    }
}

} // verus!
