//! The command registry: which keyword means which command, and what each
//! command answers.
//!
//! A keyword is looked up by exact match. Whatever is not a known keyword
//! means `help`, so every input gets an answer.

use crate::text::same_text;
use vstd::prelude::*;
use vstd::string::StringExecFns;

verus! {

/// Keyword of the command that celebrates.
pub const PARTY_KEYWORD: &'static str = "party";

/// Keyword of the command that lists the server's users.
pub const LIST_USERS_KEYWORD: &'static str = "list_users";

/// Keyword of the command that lists the commands.
pub const HELP_KEYWORD: &'static str = "help";

/// What `help` answers.
pub const HELP_TEXT: &'static str =
    "Available commands:\n\n!list_users: list all users on this server\n!party: are you ready to party?\n!help: list all available commands (this message)";

/// What `party` answers.
pub const PARTY_TEXT: &'static str = "🎉🎊🥳 let's PARTY!! 🥳🎊🎉";

/// Opening of the user table, with its header row.
pub const TABLE_START: &'static str =
    "<table><tr><th>User Id</th><th>Displayname</th><th>Admin</th></tr>";

/// Closing of the user table.
pub const TABLE_END: &'static str = "</table>";

/// A command of the bot.
#[derive(Clone, Copy, Debug, PartialEq, Eq, Structural)]
pub enum Command {
    Help,
    Party,
    ListUsers,
}

/// A message to send into a room: plain text, and a rich rendering of the
/// same content where there is one.
#[derive(Clone, Debug)]
pub struct Reply {
    pub body: String,
    pub html: Option<String>,
}

/// What a `Reply` holds.
pub struct ReplyView {
    pub body: Seq<char>,
    pub html: Option<Seq<char>>,
}

impl View for Reply {
    type V = ReplyView;

    open spec fn view(&self) -> ReplyView {
        ReplyView {
            body: self.body@,
            html: match self.html {
                Some(h) => Some(h@),
                None => None,
            },
        }
    }
}

/// One user of the server, as the admin interface reports it.
#[derive(Clone, Debug)]
pub struct UserRecord {
    pub name: String,
    pub displayname: String,
    pub admin: bool,
}

/// What a `UserRecord` holds.
pub struct UserRecordView {
    pub name: Seq<char>,
    pub displayname: Seq<char>,
    pub admin: bool,
}

impl View for UserRecord {
    type V = UserRecordView;

    open spec fn view(&self) -> UserRecordView {
        UserRecordView { name: self.name@, displayname: self.displayname@, admin: self.admin }
    }
}

/// The command that a keyword means.
pub open spec fn command_for(keyword: Seq<char>) -> Command {
    if keyword == PARTY_KEYWORD@ {
        Command::Party
    } else if keyword == LIST_USERS_KEYWORD@ {
        Command::ListUsers
    } else {
        Command::Help
    }
}

/// Looks a keyword up.
pub fn lookup(keyword: &str) -> (command: Command)
    ensures
        command == command_for(keyword@),
{
    if same_text(keyword, PARTY_KEYWORD) {
        Command::Party
    } else if same_text(keyword, LIST_USERS_KEYWORD) {
        Command::ListUsers
    } else {
        Command::Help
    }
}

/// What is to be done for a command.
#[derive(Clone, Debug)]
pub enum Plan {
    /// Send this reply into the room.
    Send(Reply),
    /// Ask the server for the list of its users, then send `list_users` of
    /// that list into the room.
    ListUsers,
}

/// What a `Plan` holds.
pub enum PlanView {
    Send(ReplyView),
    ListUsers,
}

impl View for Plan {
    type V = PlanView;

    open spec fn view(&self) -> PlanView {
        match self {
            Plan::Send(reply) => PlanView::Send(reply@),
            Plan::ListUsers => PlanView::ListUsers,
        }
    }
}

/// The plan for the message text `cmd`, the command marker taken off.
pub open spec fn plan_for(cmd: Seq<char>) -> PlanView {
    match command_for(cmd) {
        Command::Help => PlanView::Send(ReplyView { body: HELP_TEXT@, html: None }),
        Command::Party => PlanView::Send(ReplyView { body: PARTY_TEXT@, html: None }),
        Command::ListUsers => PlanView::ListUsers,
    }
}

/// Dispatches a command: `cmd` is the message text after the command marker.
/// Every text has a plan; what is no command's keyword is answered as `help`
/// is.
pub fn handle(cmd: &str) -> (plan: Plan)
    ensures
        plan@ == plan_for(cmd@),
{
    match lookup(cmd) {
        Command::Help => Plan::Send(help()),
        Command::Party => Plan::Send(party()),
        Command::ListUsers => Plan::ListUsers,
    }
}

/// The answer to `help`: the commands, one line each.
pub fn help() -> (reply: Reply)
    ensures
        reply@ == (ReplyView { body: HELP_TEXT@, html: None }),
{
    Reply { body: String::from_str(HELP_TEXT), html: None }
}

/// The answer to `party`.
pub fn party() -> (reply: Reply)
    ensures
        reply@ == (ReplyView { body: PARTY_TEXT@, html: None }),
{
    Reply { body: String::from_str(PARTY_TEXT), html: None }
}

/// How a truth value is written in the table.
pub open spec fn flag_text(flag: bool) -> Seq<char> {
    if flag {
        "true"@
    } else {
        "false"@
    }
}

/// The table row of one user: identifier, display name, admin flag.
pub open spec fn row(user: UserRecordView) -> Seq<char> {
    "<tr><td>"@ + user.name + "</td><td>"@ + user.displayname + "</td><td>"@ + flag_text(
        user.admin,
    ) + "</td></tr>"@
}

/// The rows of `users`, one after the other, first user first.
pub open spec fn rows(users: Seq<UserRecordView>) -> Seq<char>
    decreases users.len(),
{
    if users.len() == 0 {
        Seq::empty()
    } else {
        rows(users.drop_last()) + row(users.last())
    }
}

/// The whole table: header, one row for each user, closing.
pub open spec fn table(users: Seq<UserRecordView>) -> Seq<char> {
    TABLE_START@ + rows(users) + TABLE_END@
}

/// What each of `users` holds, in the same order.
pub open spec fn views(users: Seq<UserRecord>) -> Seq<UserRecordView> {
    users.map_values(|u: UserRecord| u@)
}

/// The answer to `list_users`, from the list that the server returned: a
/// table of identifier, display name and admin flag, one row for each user in
/// the order of the list. The plain text beside it is empty.
pub fn list_users(users: &Vec<UserRecord>) -> (reply: Reply)
    ensures
        reply@ == (ReplyView { body: Seq::empty(), html: Some(table(views(users@))) }),
{
    let mut out = String::from_str(TABLE_START);
    let mut i: usize = 0;
    assert(views(users@.take(0)) == Seq::<UserRecordView>::empty());
    assert(out@ == TABLE_START@ + rows(views(users@.take(0))));
    while i < users.len()
        invariant
            i <= users.len(),
            out@ == TABLE_START@ + rows(views(users@.take(i as int))),
        decreases users.len() - i,
    {
        let user = &users[i];
        let ghost done = views(users@.take(i as int));
        let ghost more = views(users@.take(i + 1));
        assert(more.drop_last() == done);
        assert(more.last() == user@);
        out.append("<tr><td>");
        out.append(user.name.as_str());
        out.append("</td><td>");
        out.append(user.displayname.as_str());
        out.append("</td><td>");
        out.append(if user.admin { "true" } else { "false" });
        out.append("</td></tr>");
        assert(out@ == TABLE_START@ + rows(done) + row(user@));
        i = i + 1;
    }
    assert(users@.take(i as int) == users@);
    out.append(TABLE_END);
    Reply { body: String::new(), html: Some(out) }
}

/// The table keeps the order of the list: the rows of two lists put together
/// are the rows of the first followed by the rows of the second.
pub proof fn law_rows_keep_order(first: Seq<UserRecordView>, second: Seq<UserRecordView>)
    ensures
        rows(first + second) == rows(first) + rows(second),
    decreases second.len(),
{
    if second.len() == 0 {
        assert(first + second == first);
    } else {
        assert((first + second).drop_last() == first + second.drop_last());
        assert((first + second).last() == second.last());
        law_rows_keep_order(first, second.drop_last());
    }
}

/// A text that is no command's keyword is answered as `help` is: with the
/// help text.
pub proof fn law_unknown_keyword_means_help(keyword: Seq<char>)
    requires
        keyword != PARTY_KEYWORD@,
        keyword != LIST_USERS_KEYWORD@,
    ensures
        command_for(keyword) == command_for(HELP_KEYWORD@),
        plan_for(keyword) == plan_for(HELP_KEYWORD@),
        plan_for(keyword) == PlanView::Send(ReplyView { body: HELP_TEXT@, html: None }),
{
    reveal_strlit("help");
    reveal_strlit("party");
    reveal_strlit("list_users");
    assert(HELP_KEYWORD@.len() == 4);
}

} // verus!
