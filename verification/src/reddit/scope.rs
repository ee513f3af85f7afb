//! The scopes that can be asked of a user.
use vstd::prelude::*;

verus! {

/// All possible scopes that can be requested from a user when authenticating.
///
/// Descriptions are from Reddit.
#[derive(Debug, PartialEq, Eq, Structural, Clone, Copy)]
pub enum Scope {
    /// Update preferences and related account information.
    /// Will not have access to your email or password.
    Account,
    /// Spend my reddit gold creddits on giving gold to other users.
    Creddits,
    /// Edit and delete my comments and submissions.
    Edit,
    /// Select my subreddit flair.
    /// Change link flair on my submissions.
    Flair,
    /// Access my voting history and comments or submissions I've saved or hidden.
    History,
    /// Access my reddit username and signup date.
    Identity,
    /// Manage settings and contributors of live threads I contribute to.
    LiveManage,
    /// Manage the configuration, sidebar, and CSS of subreddits I moderate.
    ModConfig,
    /// Add/remove users to approved submitter lists and
    /// ban/unban or mute/unmute users from subreddits I moderate.
    ModContributors,
    /// Manage and assign flair in subreddits I moderate.
    ModFlair,
    /// Access the moderation log in subreddits I moderate.
    ModLog,
    /// Access and manage modmail via mod.reddit.com.
    ModMail,
    /// Invite or remove other moderators from subreddits I moderate.
    ModOthers,
    /// Approve, remove, mark nsfw, and distinguish content in subreddits I moderate.
    ModPosts,
    /// Accept invitations to moderate a subreddit.
    /// Remove myself as a moderator or contributor of subreddits I moderate or contribute to.
    ModSelf,
    /// Access traffic stats in subreddits I moderate.
    ModTraffic,
    /// Change editors and visibility of wiki pages in subreddits I moderate.
    ModWiki,
    /// Access the list of subreddits I moderate, contribute to, and subscribe to.
    MySubreddits,
    /// Access my inbox and send private messages to other users.
    PrivateMessages,
    /// Access posts and comments through my account.
    Read,
    /// Report content for rules violations. Hide & show individual submissions.
    Report,
    /// Save and unsave comments and submissions.
    Save,
    /// Edit structured styles for a subreddit I moderate.
    StructuredStyles,
    /// Submit links and comments from my account.
    Submit,
    /// Manage my subreddit subscriptions. Manage "friends": users whose content I follow.
    Subscribe,
    /// Submit and change my votes on comments and submissions.
    Vote,
    /// Edit wiki pages on my behalf
    WikiEdit,
    /// Read wiki pages through my account
    WikiRead,
}

/// The name of a scope, as Reddit writes it.
pub open spec fn scope_name(scope: Scope) -> Seq<char> {
    match scope {
        Scope::Account => "account"@,
        Scope::Creddits => "creddits"@,
        Scope::Edit => "edit"@,
        Scope::Flair => "flair"@,
        Scope::History => "history"@,
        Scope::Identity => "identity"@,
        Scope::LiveManage => "livemanage"@,
        Scope::ModConfig => "modconfig"@,
        Scope::ModContributors => "modcontributors"@,
        Scope::ModFlair => "modflair"@,
        Scope::ModLog => "modlog"@,
        Scope::ModMail => "modmail"@,
        Scope::ModOthers => "modothers"@,
        Scope::ModPosts => "modposts"@,
        Scope::ModSelf => "modself"@,
        Scope::ModTraffic => "modtraffic"@,
        Scope::ModWiki => "modwiki"@,
        Scope::MySubreddits => "mysubreddits"@,
        Scope::PrivateMessages => "privatemessages"@,
        Scope::Read => "read"@,
        Scope::Report => "report"@,
        Scope::Save => "save"@,
        Scope::StructuredStyles => "structuredstyles"@,
        Scope::Submit => "submit"@,
        Scope::Subscribe => "subscribe"@,
        Scope::Vote => "vote"@,
        Scope::WikiEdit => "wikiedit"@,
        Scope::WikiRead => "wikiread"@,
    }
}

/// The names of a list of scopes.
pub open spec fn scope_names(scopes: Seq<Scope>) -> Seq<Seq<char>> {
    Seq::new(scopes.len(), |i: int| scope_name(scopes[i]))
}

impl Scope {
    /// The name of the scope, as Reddit writes it.
    pub fn to_string(&self) -> (name: String)
        ensures
            name@ == scope_name(*self),
    {
        match self {
            Scope::Account => "account".to_owned(),
            Scope::Creddits => "creddits".to_owned(),
            Scope::Edit => "edit".to_owned(),
            Scope::Flair => "flair".to_owned(),
            Scope::History => "history".to_owned(),
            Scope::Identity => "identity".to_owned(),
            Scope::LiveManage => "livemanage".to_owned(),
            Scope::ModConfig => "modconfig".to_owned(),
            Scope::ModContributors => "modcontributors".to_owned(),
            Scope::ModFlair => "modflair".to_owned(),
            Scope::ModLog => "modlog".to_owned(),
            Scope::ModMail => "modmail".to_owned(),
            Scope::ModOthers => "modothers".to_owned(),
            Scope::ModPosts => "modposts".to_owned(),
            Scope::ModSelf => "modself".to_owned(),
            Scope::ModTraffic => "modtraffic".to_owned(),
            Scope::ModWiki => "modwiki".to_owned(),
            Scope::MySubreddits => "mysubreddits".to_owned(),
            Scope::PrivateMessages => "privatemessages".to_owned(),
            Scope::Read => "read".to_owned(),
            Scope::Report => "report".to_owned(),
            Scope::Save => "save".to_owned(),
            Scope::StructuredStyles => "structuredstyles".to_owned(),
            Scope::Submit => "submit".to_owned(),
            Scope::Subscribe => "subscribe".to_owned(),
            Scope::Vote => "vote".to_owned(),
            Scope::WikiEdit => "wikiedit".to_owned(),
            Scope::WikiRead => "wikiread".to_owned(),
        }
    }
}

} // verus!
