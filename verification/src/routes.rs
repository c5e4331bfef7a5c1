//! The endpoints of Discord's HTTP API that the bot calls: their urls, how they read in a log,
//! and the rate limit bucket each one counts against.

use vstd::prelude::*;

use crate::cache::Cache;
use crate::channel::ChannelType;
use crate::emoji::{Emoji, reaction_text};
use crate::ids::{ApplicationId, ChannelId, CommandId, GuildId, InteractionId, MessageId, UserId};
use crate::text::{decimal, u64_to_string};

verus! {

/// An endpoint, with what its path names.
#[derive(Debug, Clone)]
pub enum Route {
    // general
    GetGateway,
    ApplicationInfo,

    // channels
    GetChannel(ChannelId),
    TriggerTyping(ChannelId),
    GetPinnedMessages(ChannelId),
    PinMessage(ChannelId, MessageId),
    UnpinMessage(ChannelId, MessageId),

    // messages
    GetMessage(ChannelId, MessageId),
    PostMessage(ChannelId),
    EditMessage(ChannelId, MessageId),
    DeleteMessage(ChannelId, MessageId),

    // reactions
    CreateReaction(ChannelId, MessageId, Emoji),
    DeleteOwnReaction(ChannelId, MessageId, Emoji),
    DeleteUserReaction(ChannelId, MessageId, Emoji, UserId),

    // commands
    GetGlobalCommands(ApplicationId),
    CreateGlobalCommand(ApplicationId),
    EditGlobalCommand(ApplicationId, CommandId),
    DeleteGlobalCommand(ApplicationId, CommandId),
    GetGuildCommands(ApplicationId, GuildId),
    CreateGuildCommand(ApplicationId, GuildId),
    EditGuildCommand(ApplicationId, GuildId, CommandId),
    DeleteGuildCommand(ApplicationId, GuildId, CommandId),
    CreateInteractionResponse(InteractionId, String),
    EditInteractionResponse(ApplicationId, String),
    DeleteInteractionResponse(ApplicationId, String),
    CreateFollowupMessage(ApplicationId, String),
    EditFollowupMessage(ApplicationId, String, MessageId),
    DeleteFollowupMessage(ApplicationId, String, MessageId),

    // users
    GetUser(UserId),
    CreateDm,
}

/// The root of the API's urls, with the API version.
pub open spec fn api_root() -> Seq<char> {
    "https://discord.com/api/v8"@
}

/// A snowflake in decimal.
pub open spec fn dec(n: u64) -> Seq<char> {
    decimal(n as nat)
}

/// The path of an endpoint, after the API's root.
pub open spec fn route_path(r: Route) -> Seq<char> {
    match r {
        Route::GetGateway => "/gateway/bot"@,
        Route::ApplicationInfo => "/oauth2/applications/@me"@,
        Route::GetChannel(c) => "/channels/"@ + dec(c.0),
        Route::TriggerTyping(c) => "/channels/"@ + dec(c.0) + "/typing"@,
        Route::GetPinnedMessages(c) => "/channels/"@ + dec(c.0) + "/pins"@,
        Route::PinMessage(c, m) => "/channels/"@ + dec(c.0) + "/pins/"@ + dec(m.0),
        Route::UnpinMessage(c, m) => "/channels/"@ + dec(c.0) + "/pins/"@ + dec(m.0),
        Route::GetMessage(c, m) => "/channels/"@ + dec(c.0) + "/messages/"@ + dec(m.0),
        Route::PostMessage(c) => "/channels/"@ + dec(c.0) + "/messages"@,
        Route::EditMessage(c, m) => "/channels/"@ + dec(c.0) + "/messages/"@ + dec(m.0),
        Route::DeleteMessage(c, m) => "/channels/"@ + dec(c.0) + "/messages/"@ + dec(m.0),
        Route::CreateReaction(c, m, e) => "/channels/"@ + dec(c.0) + "/messages/"@ + dec(m.0)
            + "/reactions/"@ + reaction_text(e) + "/@me"@,
        Route::DeleteOwnReaction(c, m, e) => "/channels/"@ + dec(c.0) + "/messages/"@ + dec(m.0)
            + "/reactions/"@ + reaction_text(e) + "/@me"@,
        Route::DeleteUserReaction(c, m, e, u) => "/channels/"@ + dec(c.0) + "/messages/"@ + dec(m.0)
            + "/reactions/"@ + reaction_text(e) + "/"@ + dec(u.0),
        Route::GetGlobalCommands(a) => "/applications/"@ + dec(a.0) + "/commands"@,
        Route::CreateGlobalCommand(a) => "/applications/"@ + dec(a.0) + "/commands"@,
        Route::EditGlobalCommand(a, c) => "/applications/"@ + dec(a.0) + "/commands/"@ + dec(c.0),
        Route::DeleteGlobalCommand(a, c) => "/applications/"@ + dec(a.0) + "/commands/"@ + dec(c.0),
        Route::GetGuildCommands(a, g) => "/applications/"@ + dec(a.0) + "/guilds/"@ + dec(g.0) + "/commands"@,
        Route::CreateGuildCommand(a, g) => "/applications/"@ + dec(a.0) + "/guilds/"@ + dec(g.0) + "/commands"@,
        Route::EditGuildCommand(a, g, c) => "/applications/"@ + dec(a.0) + "/guilds/"@ + dec(g.0)
            + "/commands/"@ + dec(c.0),
        Route::DeleteGuildCommand(a, g, c) => "/applications/"@ + dec(a.0) + "/guilds/"@ + dec(g.0)
            + "/commands/"@ + dec(c.0),
        Route::CreateInteractionResponse(i, t) => "/interactions/"@ + dec(i.0) + "/"@ + t@ + "/callback"@,
        Route::EditInteractionResponse(a, t) => "/webhooks/"@ + dec(a.0) + "/"@ + t@ + "/messages/@original"@,
        Route::DeleteInteractionResponse(a, t) => "/webhooks/"@ + dec(a.0) + "/"@ + t@ + "/messages/@original"@,
        Route::CreateFollowupMessage(a, t) => "/webhooks/"@ + dec(a.0) + "/"@ + t@,
        Route::EditFollowupMessage(a, t, m) => "/webhooks/"@ + dec(a.0) + "/"@ + t@ + "/messages/"@ + dec(m.0),
        Route::DeleteFollowupMessage(a, t, m) => "/webhooks/"@ + dec(a.0) + "/"@ + t@ + "/messages/"@ + dec(m.0),
        Route::GetUser(u) => "/users/"@ + dec(u.0),
        Route::CreateDm => "/users/@me/channels"@,
    }
}

/// `x` occurs somewhere in `s`.
pub open spec fn occurs_in(x: Seq<char>, s: Seq<char>) -> bool {
    exists|i: int| 0 <= i && i + x.len() <= s.len() && #[trigger] s.subrange(i, i + x.len()) == x
}

/// What an endpoint's path names, as it is written there: its ids in decimal, its token and
/// its emoji.
pub open spec fn route_arguments(r: Route) -> Seq<Seq<char>> {
    match r {
        Route::GetGateway => seq![],
        Route::ApplicationInfo => seq![],
        Route::GetChannel(c) => seq![dec(c.0)],
        Route::TriggerTyping(c) => seq![dec(c.0)],
        Route::GetPinnedMessages(c) => seq![dec(c.0)],
        Route::PinMessage(c, m) => seq![dec(c.0), dec(m.0)],
        Route::UnpinMessage(c, m) => seq![dec(c.0), dec(m.0)],
        Route::GetMessage(c, m) => seq![dec(c.0), dec(m.0)],
        Route::PostMessage(c) => seq![dec(c.0)],
        Route::EditMessage(c, m) => seq![dec(c.0), dec(m.0)],
        Route::DeleteMessage(c, m) => seq![dec(c.0), dec(m.0)],
        Route::CreateReaction(c, m, e) => seq![dec(c.0), dec(m.0), reaction_text(e)],
        Route::DeleteOwnReaction(c, m, e) => seq![dec(c.0), dec(m.0), reaction_text(e)],
        Route::DeleteUserReaction(c, m, e, u) => seq![dec(c.0), dec(m.0), reaction_text(e), dec(u.0)],
        Route::GetGlobalCommands(a) => seq![dec(a.0)],
        Route::CreateGlobalCommand(a) => seq![dec(a.0)],
        Route::EditGlobalCommand(a, c) => seq![dec(a.0), dec(c.0)],
        Route::DeleteGlobalCommand(a, c) => seq![dec(a.0), dec(c.0)],
        Route::GetGuildCommands(a, g) => seq![dec(a.0), dec(g.0)],
        Route::CreateGuildCommand(a, g) => seq![dec(a.0), dec(g.0)],
        Route::EditGuildCommand(a, g, c) => seq![dec(a.0), dec(g.0), dec(c.0)],
        Route::DeleteGuildCommand(a, g, c) => seq![dec(a.0), dec(g.0), dec(c.0)],
        Route::CreateInteractionResponse(i, t) => seq![dec(i.0), t@],
        Route::EditInteractionResponse(a, t) => seq![dec(a.0), t@],
        Route::DeleteInteractionResponse(a, t) => seq![dec(a.0), t@],
        Route::CreateFollowupMessage(a, t) => seq![dec(a.0), t@],
        Route::EditFollowupMessage(a, t, m) => seq![dec(a.0), t@, dec(m.0)],
        Route::DeleteFollowupMessage(a, t, m) => seq![dec(a.0), t@, dec(m.0)],
        Route::GetUser(u) => seq![dec(u.0)],
        Route::CreateDm => seq![],
    }
}

proof fn lemma_occurs(pre: Seq<char>, x: Seq<char>, post: Seq<char>)
    ensures
        occurs_in(x, pre + x + post),
{
    assert((pre + x + post).subrange(pre.len() as int, (pre.len() + x.len()) as int) =~= x);
}

proof fn lemma_url_names_get_channel(r: Route)
    requires
        r is GetChannel,
    ensures
        forall|k: int| 0 <= k < route_arguments(r).len()
            ==> occurs_in(#[trigger] route_arguments(r)[k], api_root() + route_path(r)),
{
    let url = api_root() + route_path(r);
    match r {
        Route::GetChannel(c) => {
            lemma_occurs(api_root() + "/channels/"@, dec(c.0), Seq::<char>::empty());
            assert(url =~= (api_root() + "/channels/"@) + dec(c.0) + (Seq::<char>::empty()));
        },
        _ => {},
    }
}

proof fn lemma_url_names_trigger_typing(r: Route)
    requires
        r is TriggerTyping,
    ensures
        forall|k: int| 0 <= k < route_arguments(r).len()
            ==> occurs_in(#[trigger] route_arguments(r)[k], api_root() + route_path(r)),
{
    let url = api_root() + route_path(r);
    match r {
        Route::TriggerTyping(c) => {
            lemma_occurs(api_root() + "/channels/"@, dec(c.0), "/typing"@);
            assert(url =~= (api_root() + "/channels/"@) + dec(c.0) + ("/typing"@));
        },
        _ => {},
    }
}

proof fn lemma_url_names_get_pinned_messages(r: Route)
    requires
        r is GetPinnedMessages,
    ensures
        forall|k: int| 0 <= k < route_arguments(r).len()
            ==> occurs_in(#[trigger] route_arguments(r)[k], api_root() + route_path(r)),
{
    let url = api_root() + route_path(r);
    match r {
        Route::GetPinnedMessages(c) => {
            lemma_occurs(api_root() + "/channels/"@, dec(c.0), "/pins"@);
            assert(url =~= (api_root() + "/channels/"@) + dec(c.0) + ("/pins"@));
        },
        _ => {},
    }
}

proof fn lemma_url_names_pin_message(r: Route)
    requires
        r is PinMessage,
    ensures
        forall|k: int| 0 <= k < route_arguments(r).len()
            ==> occurs_in(#[trigger] route_arguments(r)[k], api_root() + route_path(r)),
{
    let url = api_root() + route_path(r);
    match r {
        Route::PinMessage(c, m) => {
            lemma_occurs(api_root() + "/channels/"@, dec(c.0), "/pins/"@ + dec(m.0));
            assert(url =~= (api_root() + "/channels/"@) + dec(c.0) + ("/pins/"@ + dec(m.0)));
            lemma_occurs(api_root() + "/channels/"@ + dec(c.0) + "/pins/"@, dec(m.0), Seq::<char>::empty());
            assert(url =~= (api_root() + "/channels/"@ + dec(c.0) + "/pins/"@) + dec(m.0) + (Seq::<char>::empty()));
        },
        _ => {},
    }
}

proof fn lemma_url_names_unpin_message(r: Route)
    requires
        r is UnpinMessage,
    ensures
        forall|k: int| 0 <= k < route_arguments(r).len()
            ==> occurs_in(#[trigger] route_arguments(r)[k], api_root() + route_path(r)),
{
    let url = api_root() + route_path(r);
    match r {
        Route::UnpinMessage(c, m) => {
            lemma_occurs(api_root() + "/channels/"@, dec(c.0), "/pins/"@ + dec(m.0));
            assert(url =~= (api_root() + "/channels/"@) + dec(c.0) + ("/pins/"@ + dec(m.0)));
            lemma_occurs(api_root() + "/channels/"@ + dec(c.0) + "/pins/"@, dec(m.0), Seq::<char>::empty());
            assert(url =~= (api_root() + "/channels/"@ + dec(c.0) + "/pins/"@) + dec(m.0) + (Seq::<char>::empty()));
        },
        _ => {},
    }
}

proof fn lemma_url_names_get_message(r: Route)
    requires
        r is GetMessage,
    ensures
        forall|k: int| 0 <= k < route_arguments(r).len()
            ==> occurs_in(#[trigger] route_arguments(r)[k], api_root() + route_path(r)),
{
    let url = api_root() + route_path(r);
    match r {
        Route::GetMessage(c, m) => {
            lemma_occurs(api_root() + "/channels/"@, dec(c.0), "/messages/"@ + dec(m.0));
            assert(url =~= (api_root() + "/channels/"@) + dec(c.0) + ("/messages/"@ + dec(m.0)));
            lemma_occurs(api_root() + "/channels/"@ + dec(c.0) + "/messages/"@, dec(m.0), Seq::<char>::empty());
            assert(url =~= (api_root() + "/channels/"@ + dec(c.0) + "/messages/"@) + dec(m.0) + (Seq::<char>::empty()));
        },
        _ => {},
    }
}

proof fn lemma_url_names_post_message(r: Route)
    requires
        r is PostMessage,
    ensures
        forall|k: int| 0 <= k < route_arguments(r).len()
            ==> occurs_in(#[trigger] route_arguments(r)[k], api_root() + route_path(r)),
{
    let url = api_root() + route_path(r);
    match r {
        Route::PostMessage(c) => {
            lemma_occurs(api_root() + "/channels/"@, dec(c.0), "/messages"@);
            assert(url =~= (api_root() + "/channels/"@) + dec(c.0) + ("/messages"@));
        },
        _ => {},
    }
}

proof fn lemma_url_names_edit_message(r: Route)
    requires
        r is EditMessage,
    ensures
        forall|k: int| 0 <= k < route_arguments(r).len()
            ==> occurs_in(#[trigger] route_arguments(r)[k], api_root() + route_path(r)),
{
    let url = api_root() + route_path(r);
    match r {
        Route::EditMessage(c, m) => {
            lemma_occurs(api_root() + "/channels/"@, dec(c.0), "/messages/"@ + dec(m.0));
            assert(url =~= (api_root() + "/channels/"@) + dec(c.0) + ("/messages/"@ + dec(m.0)));
            lemma_occurs(api_root() + "/channels/"@ + dec(c.0) + "/messages/"@, dec(m.0), Seq::<char>::empty());
            assert(url =~= (api_root() + "/channels/"@ + dec(c.0) + "/messages/"@) + dec(m.0) + (Seq::<char>::empty()));
        },
        _ => {},
    }
}

proof fn lemma_url_names_delete_message(r: Route)
    requires
        r is DeleteMessage,
    ensures
        forall|k: int| 0 <= k < route_arguments(r).len()
            ==> occurs_in(#[trigger] route_arguments(r)[k], api_root() + route_path(r)),
{
    let url = api_root() + route_path(r);
    match r {
        Route::DeleteMessage(c, m) => {
            lemma_occurs(api_root() + "/channels/"@, dec(c.0), "/messages/"@ + dec(m.0));
            assert(url =~= (api_root() + "/channels/"@) + dec(c.0) + ("/messages/"@ + dec(m.0)));
            lemma_occurs(api_root() + "/channels/"@ + dec(c.0) + "/messages/"@, dec(m.0), Seq::<char>::empty());
            assert(url =~= (api_root() + "/channels/"@ + dec(c.0) + "/messages/"@) + dec(m.0) + (Seq::<char>::empty()));
        },
        _ => {},
    }
}

proof fn lemma_url_names_create_reaction(r: Route)
    requires
        r is CreateReaction,
    ensures
        forall|k: int| 0 <= k < route_arguments(r).len()
            ==> occurs_in(#[trigger] route_arguments(r)[k], api_root() + route_path(r)),
{
    let url = api_root() + route_path(r);
    match r {
        Route::CreateReaction(c, m, e) => {
            lemma_occurs(api_root() + "/channels/"@, dec(c.0), "/messages/"@ + dec(m.0) + "/reactions/"@ + reaction_text(e) + "/@me"@);
            assert(url =~= (api_root() + "/channels/"@) + dec(c.0) + ("/messages/"@ + dec(m.0) + "/reactions/"@ + reaction_text(e) + "/@me"@));
            lemma_occurs(api_root() + "/channels/"@ + dec(c.0) + "/messages/"@, dec(m.0), "/reactions/"@ + reaction_text(e) + "/@me"@);
            assert(url =~= (api_root() + "/channels/"@ + dec(c.0) + "/messages/"@) + dec(m.0) + ("/reactions/"@ + reaction_text(e) + "/@me"@));
            lemma_occurs(api_root() + "/channels/"@ + dec(c.0) + "/messages/"@ + dec(m.0) + "/reactions/"@, reaction_text(e), "/@me"@);
            assert(url =~= (api_root() + "/channels/"@ + dec(c.0) + "/messages/"@ + dec(m.0) + "/reactions/"@) + reaction_text(e) + ("/@me"@));
        },
        _ => {},
    }
}

proof fn lemma_url_names_delete_own_reaction(r: Route)
    requires
        r is DeleteOwnReaction,
    ensures
        forall|k: int| 0 <= k < route_arguments(r).len()
            ==> occurs_in(#[trigger] route_arguments(r)[k], api_root() + route_path(r)),
{
    let url = api_root() + route_path(r);
    match r {
        Route::DeleteOwnReaction(c, m, e) => {
            lemma_occurs(api_root() + "/channels/"@, dec(c.0), "/messages/"@ + dec(m.0) + "/reactions/"@ + reaction_text(e) + "/@me"@);
            assert(url =~= (api_root() + "/channels/"@) + dec(c.0) + ("/messages/"@ + dec(m.0) + "/reactions/"@ + reaction_text(e) + "/@me"@));
            lemma_occurs(api_root() + "/channels/"@ + dec(c.0) + "/messages/"@, dec(m.0), "/reactions/"@ + reaction_text(e) + "/@me"@);
            assert(url =~= (api_root() + "/channels/"@ + dec(c.0) + "/messages/"@) + dec(m.0) + ("/reactions/"@ + reaction_text(e) + "/@me"@));
            lemma_occurs(api_root() + "/channels/"@ + dec(c.0) + "/messages/"@ + dec(m.0) + "/reactions/"@, reaction_text(e), "/@me"@);
            assert(url =~= (api_root() + "/channels/"@ + dec(c.0) + "/messages/"@ + dec(m.0) + "/reactions/"@) + reaction_text(e) + ("/@me"@));
        },
        _ => {},
    }
}

proof fn lemma_url_names_delete_user_reaction(r: Route)
    requires
        r is DeleteUserReaction,
    ensures
        forall|k: int| 0 <= k < route_arguments(r).len()
            ==> occurs_in(#[trigger] route_arguments(r)[k], api_root() + route_path(r)),
{
    let url = api_root() + route_path(r);
    match r {
        Route::DeleteUserReaction(c, m, e, u) => {
            lemma_occurs(api_root() + "/channels/"@, dec(c.0), "/messages/"@ + dec(m.0) + "/reactions/"@ + reaction_text(e) + "/"@ + dec(u.0));
            assert(url =~= (api_root() + "/channels/"@) + dec(c.0) + ("/messages/"@ + dec(m.0) + "/reactions/"@ + reaction_text(e) + "/"@ + dec(u.0)));
            lemma_occurs(api_root() + "/channels/"@ + dec(c.0) + "/messages/"@, dec(m.0), "/reactions/"@ + reaction_text(e) + "/"@ + dec(u.0));
            assert(url =~= (api_root() + "/channels/"@ + dec(c.0) + "/messages/"@) + dec(m.0) + ("/reactions/"@ + reaction_text(e) + "/"@ + dec(u.0)));
            lemma_occurs(api_root() + "/channels/"@ + dec(c.0) + "/messages/"@ + dec(m.0) + "/reactions/"@, reaction_text(e), "/"@ + dec(u.0));
            assert(url =~= (api_root() + "/channels/"@ + dec(c.0) + "/messages/"@ + dec(m.0) + "/reactions/"@) + reaction_text(e) + ("/"@ + dec(u.0)));
            lemma_occurs(api_root() + "/channels/"@ + dec(c.0) + "/messages/"@ + dec(m.0) + "/reactions/"@ + reaction_text(e) + "/"@, dec(u.0), Seq::<char>::empty());
            assert(url =~= (api_root() + "/channels/"@ + dec(c.0) + "/messages/"@ + dec(m.0) + "/reactions/"@ + reaction_text(e) + "/"@) + dec(u.0) + (Seq::<char>::empty()));
        },
        _ => {},
    }
}

proof fn lemma_url_names_get_global_commands(r: Route)
    requires
        r is GetGlobalCommands,
    ensures
        forall|k: int| 0 <= k < route_arguments(r).len()
            ==> occurs_in(#[trigger] route_arguments(r)[k], api_root() + route_path(r)),
{
    let url = api_root() + route_path(r);
    match r {
        Route::GetGlobalCommands(a) => {
            lemma_occurs(api_root() + "/applications/"@, dec(a.0), "/commands"@);
            assert(url =~= (api_root() + "/applications/"@) + dec(a.0) + ("/commands"@));
        },
        _ => {},
    }
}

proof fn lemma_url_names_create_global_command(r: Route)
    requires
        r is CreateGlobalCommand,
    ensures
        forall|k: int| 0 <= k < route_arguments(r).len()
            ==> occurs_in(#[trigger] route_arguments(r)[k], api_root() + route_path(r)),
{
    let url = api_root() + route_path(r);
    match r {
        Route::CreateGlobalCommand(a) => {
            lemma_occurs(api_root() + "/applications/"@, dec(a.0), "/commands"@);
            assert(url =~= (api_root() + "/applications/"@) + dec(a.0) + ("/commands"@));
        },
        _ => {},
    }
}

proof fn lemma_url_names_edit_global_command(r: Route)
    requires
        r is EditGlobalCommand,
    ensures
        forall|k: int| 0 <= k < route_arguments(r).len()
            ==> occurs_in(#[trigger] route_arguments(r)[k], api_root() + route_path(r)),
{
    let url = api_root() + route_path(r);
    match r {
        Route::EditGlobalCommand(a, c) => {
            lemma_occurs(api_root() + "/applications/"@, dec(a.0), "/commands/"@ + dec(c.0));
            assert(url =~= (api_root() + "/applications/"@) + dec(a.0) + ("/commands/"@ + dec(c.0)));
            lemma_occurs(api_root() + "/applications/"@ + dec(a.0) + "/commands/"@, dec(c.0), Seq::<char>::empty());
            assert(url =~= (api_root() + "/applications/"@ + dec(a.0) + "/commands/"@) + dec(c.0) + (Seq::<char>::empty()));
        },
        _ => {},
    }
}

proof fn lemma_url_names_delete_global_command(r: Route)
    requires
        r is DeleteGlobalCommand,
    ensures
        forall|k: int| 0 <= k < route_arguments(r).len()
            ==> occurs_in(#[trigger] route_arguments(r)[k], api_root() + route_path(r)),
{
    let url = api_root() + route_path(r);
    match r {
        Route::DeleteGlobalCommand(a, c) => {
            lemma_occurs(api_root() + "/applications/"@, dec(a.0), "/commands/"@ + dec(c.0));
            assert(url =~= (api_root() + "/applications/"@) + dec(a.0) + ("/commands/"@ + dec(c.0)));
            lemma_occurs(api_root() + "/applications/"@ + dec(a.0) + "/commands/"@, dec(c.0), Seq::<char>::empty());
            assert(url =~= (api_root() + "/applications/"@ + dec(a.0) + "/commands/"@) + dec(c.0) + (Seq::<char>::empty()));
        },
        _ => {},
    }
}

proof fn lemma_url_names_get_guild_commands(r: Route)
    requires
        r is GetGuildCommands,
    ensures
        forall|k: int| 0 <= k < route_arguments(r).len()
            ==> occurs_in(#[trigger] route_arguments(r)[k], api_root() + route_path(r)),
{
    let url = api_root() + route_path(r);
    match r {
        Route::GetGuildCommands(a, g) => {
            lemma_occurs(api_root() + "/applications/"@, dec(a.0), "/guilds/"@ + dec(g.0) + "/commands"@);
            assert(url =~= (api_root() + "/applications/"@) + dec(a.0) + ("/guilds/"@ + dec(g.0) + "/commands"@));
            lemma_occurs(api_root() + "/applications/"@ + dec(a.0) + "/guilds/"@, dec(g.0), "/commands"@);
            assert(url =~= (api_root() + "/applications/"@ + dec(a.0) + "/guilds/"@) + dec(g.0) + ("/commands"@));
        },
        _ => {},
    }
}

proof fn lemma_url_names_create_guild_command(r: Route)
    requires
        r is CreateGuildCommand,
    ensures
        forall|k: int| 0 <= k < route_arguments(r).len()
            ==> occurs_in(#[trigger] route_arguments(r)[k], api_root() + route_path(r)),
{
    let url = api_root() + route_path(r);
    match r {
        Route::CreateGuildCommand(a, g) => {
            lemma_occurs(api_root() + "/applications/"@, dec(a.0), "/guilds/"@ + dec(g.0) + "/commands"@);
            assert(url =~= (api_root() + "/applications/"@) + dec(a.0) + ("/guilds/"@ + dec(g.0) + "/commands"@));
            lemma_occurs(api_root() + "/applications/"@ + dec(a.0) + "/guilds/"@, dec(g.0), "/commands"@);
            assert(url =~= (api_root() + "/applications/"@ + dec(a.0) + "/guilds/"@) + dec(g.0) + ("/commands"@));
        },
        _ => {},
    }
}

proof fn lemma_url_names_edit_guild_command(r: Route)
    requires
        r is EditGuildCommand,
    ensures
        forall|k: int| 0 <= k < route_arguments(r).len()
            ==> occurs_in(#[trigger] route_arguments(r)[k], api_root() + route_path(r)),
{
    let url = api_root() + route_path(r);
    match r {
        Route::EditGuildCommand(a, g, c) => {
            lemma_occurs(api_root() + "/applications/"@, dec(a.0), "/guilds/"@ + dec(g.0) + "/commands/"@ + dec(c.0));
            assert(url =~= (api_root() + "/applications/"@) + dec(a.0) + ("/guilds/"@ + dec(g.0) + "/commands/"@ + dec(c.0)));
            lemma_occurs(api_root() + "/applications/"@ + dec(a.0) + "/guilds/"@, dec(g.0), "/commands/"@ + dec(c.0));
            assert(url =~= (api_root() + "/applications/"@ + dec(a.0) + "/guilds/"@) + dec(g.0) + ("/commands/"@ + dec(c.0)));
            lemma_occurs(api_root() + "/applications/"@ + dec(a.0) + "/guilds/"@ + dec(g.0) + "/commands/"@, dec(c.0), Seq::<char>::empty());
            assert(url =~= (api_root() + "/applications/"@ + dec(a.0) + "/guilds/"@ + dec(g.0) + "/commands/"@) + dec(c.0) + (Seq::<char>::empty()));
        },
        _ => {},
    }
}

proof fn lemma_url_names_delete_guild_command(r: Route)
    requires
        r is DeleteGuildCommand,
    ensures
        forall|k: int| 0 <= k < route_arguments(r).len()
            ==> occurs_in(#[trigger] route_arguments(r)[k], api_root() + route_path(r)),
{
    let url = api_root() + route_path(r);
    match r {
        Route::DeleteGuildCommand(a, g, c) => {
            lemma_occurs(api_root() + "/applications/"@, dec(a.0), "/guilds/"@ + dec(g.0) + "/commands/"@ + dec(c.0));
            assert(url =~= (api_root() + "/applications/"@) + dec(a.0) + ("/guilds/"@ + dec(g.0) + "/commands/"@ + dec(c.0)));
            lemma_occurs(api_root() + "/applications/"@ + dec(a.0) + "/guilds/"@, dec(g.0), "/commands/"@ + dec(c.0));
            assert(url =~= (api_root() + "/applications/"@ + dec(a.0) + "/guilds/"@) + dec(g.0) + ("/commands/"@ + dec(c.0)));
            lemma_occurs(api_root() + "/applications/"@ + dec(a.0) + "/guilds/"@ + dec(g.0) + "/commands/"@, dec(c.0), Seq::<char>::empty());
            assert(url =~= (api_root() + "/applications/"@ + dec(a.0) + "/guilds/"@ + dec(g.0) + "/commands/"@) + dec(c.0) + (Seq::<char>::empty()));
        },
        _ => {},
    }
}

proof fn lemma_url_names_create_interaction_response(r: Route)
    requires
        r is CreateInteractionResponse,
    ensures
        forall|k: int| 0 <= k < route_arguments(r).len()
            ==> occurs_in(#[trigger] route_arguments(r)[k], api_root() + route_path(r)),
{
    let url = api_root() + route_path(r);
    match r {
        Route::CreateInteractionResponse(i, t) => {
            lemma_occurs(api_root() + "/interactions/"@, dec(i.0), "/"@ + t@ + "/callback"@);
            assert(url =~= (api_root() + "/interactions/"@) + dec(i.0) + ("/"@ + t@ + "/callback"@));
            lemma_occurs(api_root() + "/interactions/"@ + dec(i.0) + "/"@, t@, "/callback"@);
            assert(url =~= (api_root() + "/interactions/"@ + dec(i.0) + "/"@) + t@ + ("/callback"@));
        },
        _ => {},
    }
}

proof fn lemma_url_names_edit_interaction_response(r: Route)
    requires
        r is EditInteractionResponse,
    ensures
        forall|k: int| 0 <= k < route_arguments(r).len()
            ==> occurs_in(#[trigger] route_arguments(r)[k], api_root() + route_path(r)),
{
    let url = api_root() + route_path(r);
    match r {
        Route::EditInteractionResponse(a, t) => {
            lemma_occurs(api_root() + "/webhooks/"@, dec(a.0), "/"@ + t@ + "/messages/@original"@);
            assert(url =~= (api_root() + "/webhooks/"@) + dec(a.0) + ("/"@ + t@ + "/messages/@original"@));
            lemma_occurs(api_root() + "/webhooks/"@ + dec(a.0) + "/"@, t@, "/messages/@original"@);
            assert(url =~= (api_root() + "/webhooks/"@ + dec(a.0) + "/"@) + t@ + ("/messages/@original"@));
        },
        _ => {},
    }
}

proof fn lemma_url_names_delete_interaction_response(r: Route)
    requires
        r is DeleteInteractionResponse,
    ensures
        forall|k: int| 0 <= k < route_arguments(r).len()
            ==> occurs_in(#[trigger] route_arguments(r)[k], api_root() + route_path(r)),
{
    let url = api_root() + route_path(r);
    match r {
        Route::DeleteInteractionResponse(a, t) => {
            lemma_occurs(api_root() + "/webhooks/"@, dec(a.0), "/"@ + t@ + "/messages/@original"@);
            assert(url =~= (api_root() + "/webhooks/"@) + dec(a.0) + ("/"@ + t@ + "/messages/@original"@));
            lemma_occurs(api_root() + "/webhooks/"@ + dec(a.0) + "/"@, t@, "/messages/@original"@);
            assert(url =~= (api_root() + "/webhooks/"@ + dec(a.0) + "/"@) + t@ + ("/messages/@original"@));
        },
        _ => {},
    }
}

proof fn lemma_url_names_create_followup_message(r: Route)
    requires
        r is CreateFollowupMessage,
    ensures
        forall|k: int| 0 <= k < route_arguments(r).len()
            ==> occurs_in(#[trigger] route_arguments(r)[k], api_root() + route_path(r)),
{
    let url = api_root() + route_path(r);
    match r {
        Route::CreateFollowupMessage(a, t) => {
            lemma_occurs(api_root() + "/webhooks/"@, dec(a.0), "/"@ + t@);
            assert(url =~= (api_root() + "/webhooks/"@) + dec(a.0) + ("/"@ + t@));
            lemma_occurs(api_root() + "/webhooks/"@ + dec(a.0) + "/"@, t@, Seq::<char>::empty());
            assert(url =~= (api_root() + "/webhooks/"@ + dec(a.0) + "/"@) + t@ + (Seq::<char>::empty()));
        },
        _ => {},
    }
}

proof fn lemma_url_names_edit_followup_message(r: Route)
    requires
        r is EditFollowupMessage,
    ensures
        forall|k: int| 0 <= k < route_arguments(r).len()
            ==> occurs_in(#[trigger] route_arguments(r)[k], api_root() + route_path(r)),
{
    let url = api_root() + route_path(r);
    match r {
        Route::EditFollowupMessage(a, t, m) => {
            lemma_occurs(api_root() + "/webhooks/"@, dec(a.0), "/"@ + t@ + "/messages/"@ + dec(m.0));
            assert(url =~= (api_root() + "/webhooks/"@) + dec(a.0) + ("/"@ + t@ + "/messages/"@ + dec(m.0)));
            lemma_occurs(api_root() + "/webhooks/"@ + dec(a.0) + "/"@, t@, "/messages/"@ + dec(m.0));
            assert(url =~= (api_root() + "/webhooks/"@ + dec(a.0) + "/"@) + t@ + ("/messages/"@ + dec(m.0)));
            lemma_occurs(api_root() + "/webhooks/"@ + dec(a.0) + "/"@ + t@ + "/messages/"@, dec(m.0), Seq::<char>::empty());
            assert(url =~= (api_root() + "/webhooks/"@ + dec(a.0) + "/"@ + t@ + "/messages/"@) + dec(m.0) + (Seq::<char>::empty()));
        },
        _ => {},
    }
}

proof fn lemma_url_names_delete_followup_message(r: Route)
    requires
        r is DeleteFollowupMessage,
    ensures
        forall|k: int| 0 <= k < route_arguments(r).len()
            ==> occurs_in(#[trigger] route_arguments(r)[k], api_root() + route_path(r)),
{
    let url = api_root() + route_path(r);
    match r {
        Route::DeleteFollowupMessage(a, t, m) => {
            lemma_occurs(api_root() + "/webhooks/"@, dec(a.0), "/"@ + t@ + "/messages/"@ + dec(m.0));
            assert(url =~= (api_root() + "/webhooks/"@) + dec(a.0) + ("/"@ + t@ + "/messages/"@ + dec(m.0)));
            lemma_occurs(api_root() + "/webhooks/"@ + dec(a.0) + "/"@, t@, "/messages/"@ + dec(m.0));
            assert(url =~= (api_root() + "/webhooks/"@ + dec(a.0) + "/"@) + t@ + ("/messages/"@ + dec(m.0)));
            lemma_occurs(api_root() + "/webhooks/"@ + dec(a.0) + "/"@ + t@ + "/messages/"@, dec(m.0), Seq::<char>::empty());
            assert(url =~= (api_root() + "/webhooks/"@ + dec(a.0) + "/"@ + t@ + "/messages/"@) + dec(m.0) + (Seq::<char>::empty()));
        },
        _ => {},
    }
}

proof fn lemma_url_names_get_user(r: Route)
    requires
        r is GetUser,
    ensures
        forall|k: int| 0 <= k < route_arguments(r).len()
            ==> occurs_in(#[trigger] route_arguments(r)[k], api_root() + route_path(r)),
{
    let url = api_root() + route_path(r);
    match r {
        Route::GetUser(u) => {
            lemma_occurs(api_root() + "/users/"@, dec(u.0), Seq::<char>::empty());
            assert(url =~= (api_root() + "/users/"@) + dec(u.0) + (Seq::<char>::empty()));
        },
        _ => {},
    }
}

/// Every url starts at the API's root, and names each id, token and emoji of its endpoint.
pub proof fn lemma_url_names_arguments(r: Route)
    ensures
        (api_root() + route_path(r)).subrange(0, api_root().len() as int) == api_root(),
        forall|k: int| 0 <= k < route_arguments(r).len()
            ==> occurs_in(#[trigger] route_arguments(r)[k], api_root() + route_path(r)),
{
    assert((api_root() + route_path(r)).subrange(0, api_root().len() as int) =~= api_root());
    match r {
        Route::GetGateway | Route::ApplicationInfo | Route::CreateDm => {},
        Route::GetChannel(..) => lemma_url_names_get_channel(r),
        Route::TriggerTyping(..) => lemma_url_names_trigger_typing(r),
        Route::GetPinnedMessages(..) => lemma_url_names_get_pinned_messages(r),
        Route::PinMessage(..) => lemma_url_names_pin_message(r),
        Route::UnpinMessage(..) => lemma_url_names_unpin_message(r),
        Route::GetMessage(..) => lemma_url_names_get_message(r),
        Route::PostMessage(..) => lemma_url_names_post_message(r),
        Route::EditMessage(..) => lemma_url_names_edit_message(r),
        Route::DeleteMessage(..) => lemma_url_names_delete_message(r),
        Route::CreateReaction(..) => lemma_url_names_create_reaction(r),
        Route::DeleteOwnReaction(..) => lemma_url_names_delete_own_reaction(r),
        Route::DeleteUserReaction(..) => lemma_url_names_delete_user_reaction(r),
        Route::GetGlobalCommands(..) => lemma_url_names_get_global_commands(r),
        Route::CreateGlobalCommand(..) => lemma_url_names_create_global_command(r),
        Route::EditGlobalCommand(..) => lemma_url_names_edit_global_command(r),
        Route::DeleteGlobalCommand(..) => lemma_url_names_delete_global_command(r),
        Route::GetGuildCommands(..) => lemma_url_names_get_guild_commands(r),
        Route::CreateGuildCommand(..) => lemma_url_names_create_guild_command(r),
        Route::EditGuildCommand(..) => lemma_url_names_edit_guild_command(r),
        Route::DeleteGuildCommand(..) => lemma_url_names_delete_guild_command(r),
        Route::CreateInteractionResponse(..) => lemma_url_names_create_interaction_response(r),
        Route::EditInteractionResponse(..) => lemma_url_names_edit_interaction_response(r),
        Route::DeleteInteractionResponse(..) => lemma_url_names_delete_interaction_response(r),
        Route::CreateFollowupMessage(..) => lemma_url_names_create_followup_message(r),
        Route::EditFollowupMessage(..) => lemma_url_names_edit_followup_message(r),
        Route::DeleteFollowupMessage(..) => lemma_url_names_delete_followup_message(r),
        Route::GetUser(..) => lemma_url_names_get_user(r),
    }
}

/// The urls follow Discord's documented tree of resources: a channel lives at
/// `/channels/{id}`, its typing indicator, pins and messages under it, each message under the
/// channel's messages and each reaction under its message; an application's commands at
/// `/applications/{id}/commands` (or under one of its guilds), each command under them; an
/// interaction's followups at `/webhooks/{application}/{token}`, each followup and the original
/// answer under its `/messages`; users at `/users/{id}`. (Each url is the API's root followed by
/// this path.)
pub proof fn lemma_url_tree(
    c: ChannelId,
    m: MessageId,
    e: Emoji,
    u: UserId,
    a: ApplicationId,
    g: GuildId,
    cmd: CommandId,
    i: InteractionId,
    t: String,
)
    ensures
        route_path(Route::GetChannel(c)) == "/channels/"@ + dec(c.0),
        route_path(Route::TriggerTyping(c)) == route_path(Route::GetChannel(c)) + "/typing"@,
        route_path(Route::GetPinnedMessages(c)) == route_path(Route::GetChannel(c)) + "/pins"@,
        route_path(Route::PinMessage(c, m)) == route_path(Route::GetPinnedMessages(c)) + "/"@ + dec(m.0),
        route_path(Route::UnpinMessage(c, m)) == route_path(Route::GetPinnedMessages(c)) + "/"@ + dec(m.0),
        route_path(Route::PostMessage(c)) == route_path(Route::GetChannel(c)) + "/messages"@,
        route_path(Route::GetMessage(c, m)) == route_path(Route::PostMessage(c)) + "/"@ + dec(m.0),
        route_path(Route::EditMessage(c, m)) == route_path(Route::PostMessage(c)) + "/"@ + dec(m.0),
        route_path(Route::DeleteMessage(c, m)) == route_path(Route::PostMessage(c)) + "/"@ + dec(m.0),
        route_path(Route::CreateReaction(c, m, e))
            == route_path(Route::GetMessage(c, m)) + "/reactions/"@ + reaction_text(e) + "/@me"@,
        route_path(Route::DeleteOwnReaction(c, m, e))
            == route_path(Route::GetMessage(c, m)) + "/reactions/"@ + reaction_text(e) + "/@me"@,
        route_path(Route::DeleteUserReaction(c, m, e, u))
            == route_path(Route::GetMessage(c, m)) + "/reactions/"@ + reaction_text(e) + "/"@ + dec(u.0),
        route_path(Route::GetGlobalCommands(a)) == "/applications/"@ + dec(a.0) + "/commands"@,
        route_path(Route::CreateGlobalCommand(a)) == route_path(Route::GetGlobalCommands(a)),
        route_path(Route::EditGlobalCommand(a, cmd)) == route_path(Route::GetGlobalCommands(a)) + "/"@ + dec(cmd.0),
        route_path(Route::DeleteGlobalCommand(a, cmd)) == route_path(Route::GetGlobalCommands(a)) + "/"@ + dec(cmd.0),
        route_path(Route::GetGuildCommands(a, g))
            == "/applications/"@ + dec(a.0) + "/guilds/"@ + dec(g.0) + "/commands"@,
        route_path(Route::CreateGuildCommand(a, g)) == route_path(Route::GetGuildCommands(a, g)),
        route_path(Route::EditGuildCommand(a, g, cmd)) == route_path(Route::GetGuildCommands(a, g)) + "/"@ + dec(cmd.0),
        route_path(Route::DeleteGuildCommand(a, g, cmd)) == route_path(Route::GetGuildCommands(a, g)) + "/"@ + dec(cmd.0),
        route_path(Route::CreateInteractionResponse(i, t)) == "/interactions/"@ + dec(i.0) + "/"@ + t@ + "/callback"@,
        route_path(Route::CreateFollowupMessage(a, t)) == "/webhooks/"@ + dec(a.0) + "/"@ + t@,
        route_path(Route::EditFollowupMessage(a, t, m))
            == route_path(Route::CreateFollowupMessage(a, t)) + "/messages/"@ + dec(m.0),
        route_path(Route::DeleteFollowupMessage(a, t, m))
            == route_path(Route::CreateFollowupMessage(a, t)) + "/messages/"@ + dec(m.0),
        route_path(Route::EditInteractionResponse(a, t))
            == route_path(Route::CreateFollowupMessage(a, t)) + "/messages/@original"@,
        route_path(Route::DeleteInteractionResponse(a, t))
            == route_path(Route::CreateFollowupMessage(a, t)) + "/messages/@original"@,
        route_path(Route::GetUser(u)) == "/users/"@ + dec(u.0),
        route_path(Route::CreateDm) == "/users/@me/channels"@,
        route_path(Route::GetGateway) == "/gateway/bot"@,
        route_path(Route::ApplicationInfo) == "/oauth2/applications/@me"@,
{
    reveal_strlit("/messages/");
    reveal_strlit("/messages");
    reveal_strlit("/pins/");
    reveal_strlit("/pins");
    reveal_strlit("/commands/");
    reveal_strlit("/commands");
    reveal_strlit("/");
    let p = route_path(Route::PostMessage(c));
    assert(route_path(Route::GetMessage(c, m)) =~= p + "/"@ + dec(m.0));
    assert(route_path(Route::EditMessage(c, m)) =~= p + "/"@ + dec(m.0));
    assert(route_path(Route::DeleteMessage(c, m)) =~= p + "/"@ + dec(m.0));
    assert(route_path(Route::PostMessage(c)) =~= route_path(Route::GetChannel(c)) + "/messages"@);
    assert(route_path(Route::TriggerTyping(c)) =~= route_path(Route::GetChannel(c)) + "/typing"@);
    assert(route_path(Route::GetPinnedMessages(c)) =~= route_path(Route::GetChannel(c)) + "/pins"@);
    let pins = route_path(Route::GetPinnedMessages(c));
    assert(route_path(Route::PinMessage(c, m)) =~= pins + "/"@ + dec(m.0));
    assert(route_path(Route::UnpinMessage(c, m)) =~= pins + "/"@ + dec(m.0));
    let msg = route_path(Route::GetMessage(c, m));
    assert(route_path(Route::CreateReaction(c, m, e)) =~= msg + "/reactions/"@ + reaction_text(e) + "/@me"@);
    assert(route_path(Route::DeleteOwnReaction(c, m, e)) =~= msg + "/reactions/"@ + reaction_text(e) + "/@me"@);
    assert(route_path(Route::DeleteUserReaction(c, m, e, u))
        =~= msg + "/reactions/"@ + reaction_text(e) + "/"@ + dec(u.0));
    let gc = route_path(Route::GetGlobalCommands(a));
    assert(route_path(Route::EditGlobalCommand(a, cmd)) =~= gc + "/"@ + dec(cmd.0));
    assert(route_path(Route::DeleteGlobalCommand(a, cmd)) =~= gc + "/"@ + dec(cmd.0));
    let gg = route_path(Route::GetGuildCommands(a, g));
    assert(route_path(Route::EditGuildCommand(a, g, cmd)) =~= gg + "/"@ + dec(cmd.0));
    assert(route_path(Route::DeleteGuildCommand(a, g, cmd)) =~= gg + "/"@ + dec(cmd.0));
    let wh = route_path(Route::CreateFollowupMessage(a, t));
    assert(route_path(Route::EditFollowupMessage(a, t, m)) =~= wh + "/messages/"@ + dec(m.0));
    assert(route_path(Route::DeleteFollowupMessage(a, t, m)) =~= wh + "/messages/"@ + dec(m.0));
    assert(route_path(Route::EditInteractionResponse(a, t)) =~= wh + "/messages/@original"@);
    assert(route_path(Route::DeleteInteractionResponse(a, t)) =~= wh + "/messages/@original"@);
}

/// Endpoints that act on the same object share its url: pinning and unpinning a message;
/// getting, editing and deleting it; adding and taking back the bot's own reaction; editing and
/// deleting an interaction's answer.
pub proof fn lemma_shared_urls(c: ChannelId, m: MessageId, e: Emoji, a: ApplicationId, t: String)
    ensures
        route_path(Route::PinMessage(c, m)) == route_path(Route::UnpinMessage(c, m)),
        route_path(Route::GetMessage(c, m)) == route_path(Route::EditMessage(c, m)),
        route_path(Route::EditMessage(c, m)) == route_path(Route::DeleteMessage(c, m)),
        route_path(Route::CreateReaction(c, m, e)) == route_path(Route::DeleteOwnReaction(c, m, e)),
        route_path(Route::EditInteractionResponse(a, t)) == route_path(Route::DeleteInteractionResponse(a, t)),
{
}

fn push_str(s: &mut String, t: &str)
    ensures
        final(s)@ == old(s)@ + t@,
{
    s.append(t);
}

fn push_id(s: &mut String, n: u64)
    ensures
        final(s)@ == old(s)@ + dec(n),
{
    let d = u64_to_string(n);
    s.append(d.as_str());
}

impl Route {
    /// The endpoint's url.
    #[verifier::spinoff_prover]
    #[verifier::rlimit(40)]
    pub fn url(&self) -> (u: String)
        ensures
            u@ == api_root() + route_path(*self),
    {
        let mut s = String::from_str("https://discord.com/api/v8");
        match self {
            Route::GetGateway => push_str(&mut s, "/gateway/bot"),
            Route::ApplicationInfo => push_str(&mut s, "/oauth2/applications/@me"),
            Route::GetChannel(c) => {
                push_str(&mut s, "/channels/");
                push_id(&mut s, c.0);
            },
            Route::TriggerTyping(c) => {
                push_str(&mut s, "/channels/");
                push_id(&mut s, c.0);
                push_str(&mut s, "/typing");
            },
            Route::GetPinnedMessages(c) => {
                push_str(&mut s, "/channels/");
                push_id(&mut s, c.0);
                push_str(&mut s, "/pins");
            },
            Route::PinMessage(c, m) | Route::UnpinMessage(c, m) => {
                push_str(&mut s, "/channels/");
                push_id(&mut s, c.0);
                push_str(&mut s, "/pins/");
                push_id(&mut s, m.0);
            },
            Route::GetMessage(c, m) | Route::EditMessage(c, m) | Route::DeleteMessage(c, m) => {
                push_str(&mut s, "/channels/");
                push_id(&mut s, c.0);
                push_str(&mut s, "/messages/");
                push_id(&mut s, m.0);
            },
            Route::PostMessage(c) => {
                push_str(&mut s, "/channels/");
                push_id(&mut s, c.0);
                push_str(&mut s, "/messages");
            },
            Route::CreateReaction(c, m, e) | Route::DeleteOwnReaction(c, m, e) => {
                push_str(&mut s, "/channels/");
                push_id(&mut s, c.0);
                push_str(&mut s, "/messages/");
                push_id(&mut s, m.0);
                push_str(&mut s, "/reactions/");
                let r = e.as_reaction();
                push_str(&mut s, r.as_str());
                push_str(&mut s, "/@me");
            },
            Route::DeleteUserReaction(c, m, e, u) => {
                push_str(&mut s, "/channels/");
                push_id(&mut s, c.0);
                push_str(&mut s, "/messages/");
                push_id(&mut s, m.0);
                push_str(&mut s, "/reactions/");
                let r = e.as_reaction();
                push_str(&mut s, r.as_str());
                push_str(&mut s, "/");
                push_id(&mut s, u.0);
            },
            Route::GetGlobalCommands(a) | Route::CreateGlobalCommand(a) => {
                push_str(&mut s, "/applications/");
                push_id(&mut s, a.0);
                push_str(&mut s, "/commands");
            },
            Route::EditGlobalCommand(a, c) | Route::DeleteGlobalCommand(a, c) => {
                push_str(&mut s, "/applications/");
                push_id(&mut s, a.0);
                push_str(&mut s, "/commands/");
                push_id(&mut s, c.0);
            },
            Route::GetGuildCommands(a, g) | Route::CreateGuildCommand(a, g) => {
                push_str(&mut s, "/applications/");
                push_id(&mut s, a.0);
                push_str(&mut s, "/guilds/");
                push_id(&mut s, g.0);
                push_str(&mut s, "/commands");
            },
            Route::EditGuildCommand(a, g, c) | Route::DeleteGuildCommand(a, g, c) => {
                push_str(&mut s, "/applications/");
                push_id(&mut s, a.0);
                push_str(&mut s, "/guilds/");
                push_id(&mut s, g.0);
                push_str(&mut s, "/commands/");
                push_id(&mut s, c.0);
            },
            Route::CreateInteractionResponse(i, t) => {
                push_str(&mut s, "/interactions/");
                push_id(&mut s, i.0);
                push_str(&mut s, "/");
                push_str(&mut s, t.as_str());
                push_str(&mut s, "/callback");
            },
            Route::EditInteractionResponse(a, t) | Route::DeleteInteractionResponse(a, t) => {
                push_str(&mut s, "/webhooks/");
                push_id(&mut s, a.0);
                push_str(&mut s, "/");
                push_str(&mut s, t.as_str());
                push_str(&mut s, "/messages/@original");
            },
            Route::CreateFollowupMessage(a, t) => {
                push_str(&mut s, "/webhooks/");
                push_id(&mut s, a.0);
                push_str(&mut s, "/");
                push_str(&mut s, t.as_str());
            },
            Route::EditFollowupMessage(a, t, m) | Route::DeleteFollowupMessage(a, t, m) => {
                push_str(&mut s, "/webhooks/");
                push_id(&mut s, a.0);
                push_str(&mut s, "/");
                push_str(&mut s, t.as_str());
                push_str(&mut s, "/messages/");
                push_id(&mut s, m.0);
            },
            Route::GetUser(u) => {
                push_str(&mut s, "/users/");
                push_id(&mut s, u.0);
            },
            Route::CreateDm => push_str(&mut s, "/users/@me/channels"),
        }
        assert(s@ =~= api_root() + route_path(*self));
        s
    }
}

/// What a log calls a guild: its name where the cache knows one, else its id.
pub open spec fn guild_label(c: Cache, g: GuildId) -> Seq<char> {
    if c.guilds@.contains_key(g.0) && c.guilds@[g.0].info.name is Some {
        c.guilds@[g.0].info.name.unwrap()@
    } else {
        dec(g.0)
    }
}

/// The name of a guild followed by `/`, where the cache knows it; else nothing.
pub open spec fn guild_prefix(c: Cache, g: Option<GuildId>) -> Seq<char> {
    match g {
        Some(g) => if c.guilds@.contains_key(g.0) && c.guilds@[g.0].info.name is Some {
            c.guilds@[g.0].info.name.unwrap()@ + "/"@
        } else {
            Seq::empty()
        },
        None => Seq::empty(),
    }
}

/// What a log calls a channel: for a channel the cache keeps, its guild's name and `/` (where
/// known) and its name, or `DM: ` and the other user's name; else its id.
pub open spec fn channel_label(c: Cache, ch: ChannelId) -> Seq<char> {
    let k = ch.0;
    let kind = if c.channel_types@.contains_key(k) { Some(c.channel_types@[k]) } else { None };
    if kind == Some(ChannelType::GuildText) && c.channels@.contains_key(k) {
        guild_prefix(c, c.channels@[k].guild_id) + c.channels@[k].name@
    } else if kind == Some(ChannelType::Dm) && c.dms.1@.contains_key(k) {
        "DM: "@ + c.dms.1@[k].recipient.username@
    } else if kind == Some(ChannelType::GuildCategory) && c.categories@.contains_key(k) {
        guild_prefix(c, c.categories@[k].guild_id) + match c.categories@[k].name {
            Some(n) => n@,
            None => Seq::empty(),
        }
    } else if kind == Some(ChannelType::GuildNews) && c.news@.contains_key(k) {
        guild_prefix(c, c.news@[k].guild_id) + c.news@[k].name@
    } else if kind == Some(ChannelType::GuildStore) && c.stores@.contains_key(k) {
        guild_prefix(c, c.stores@[k].guild_id) + c.stores@[k].name@
    } else {
        dec(k)
    }
}

/// What a log calls a user: the bot's own name for the bot, else the id.
pub open spec fn user_label(c: Cache, u: UserId) -> Seq<char> {
    match c.user {
        Some(me) => if me.id == u { me.username@ } else { dec(u.0) },
        None => dec(u.0),
    }
}

/// How an endpoint reads in a log, with names from the cache; commands are named by id.
pub open spec fn route_debug(r: Route, c: Cache) -> Seq<char> {
    match r {
        Route::GetGateway => "Get Gateway"@,
        Route::ApplicationInfo => "Get Application Info"@,
        Route::GetChannel(ch) => "Get Channel `"@ + channel_label(c, ch) + "`"@,
        Route::TriggerTyping(ch) => "Trigger Typing `"@ + channel_label(c, ch) + "`"@,
        Route::GetPinnedMessages(ch) => "Get Pinned Messages `"@ + channel_label(c, ch) + "`"@,
        Route::PinMessage(ch, m) => "Pin Message `"@ + channel_label(c, ch) + "/"@ + dec(m.0) + "`"@,
        Route::UnpinMessage(ch, m) => "Unpin Message `"@ + channel_label(c, ch) + "/"@ + dec(m.0) + "`"@,
        Route::GetMessage(ch, m) => "Get Message `"@ + channel_label(c, ch) + "/"@ + dec(m.0) + "`"@,
        Route::PostMessage(ch) => "Post Message `"@ + channel_label(c, ch) + "`"@,
        Route::EditMessage(ch, m) => "Edit Message `"@ + channel_label(c, ch) + "/"@ + dec(m.0) + "`"@,
        Route::DeleteMessage(ch, m) => "Delete Message `"@ + channel_label(c, ch) + "/"@ + dec(m.0) + "`"@,
        Route::CreateReaction(ch, m, e) => "Create Reaction `"@ + channel_label(c, ch) + "/"@ + dec(m.0)
            + "/"@ + reaction_text(e) + "`"@,
        Route::DeleteOwnReaction(ch, m, e) => "Delete Own Reaction `"@ + channel_label(c, ch) + "/"@
            + dec(m.0) + "/"@ + reaction_text(e) + "`"@,
        Route::DeleteUserReaction(ch, m, e, u) => "Delete User Reaction `"@ + channel_label(c, ch) + "/"@
            + dec(m.0) + "/"@ + reaction_text(e) + "/"@ + user_label(c, u) + "`"@,
        Route::GetGlobalCommands(_) => "Get Global Commands"@,
        Route::CreateGlobalCommand(_) => "Create Global Command"@,
        Route::EditGlobalCommand(_, cmd) => "Edit Global Command `"@ + dec(cmd.0) + "`"@,
        Route::DeleteGlobalCommand(_, cmd) => "Delete Global Command `"@ + dec(cmd.0) + "`"@,
        Route::GetGuildCommands(_, g) => "Get Guild Commands `"@ + guild_label(c, g) + "`"@,
        Route::CreateGuildCommand(_, g) => "Create Guild Command `"@ + guild_label(c, g) + "`"@,
        Route::EditGuildCommand(_, g, cmd) => "Edit Guild Command `"@ + guild_label(c, g) + "/"@
            + dec(cmd.0) + "`"@,
        Route::DeleteGuildCommand(_, g, cmd) => "Delete Guild Command `"@ + guild_label(c, g) + "/"@
            + dec(cmd.0) + "`"@,
        Route::CreateInteractionResponse(_, _) => "Create Interaction Response"@,
        Route::EditInteractionResponse(_, _) => "Edit Interaction Response"@,
        Route::DeleteInteractionResponse(_, _) => "Delete Interaction Response"@,
        Route::CreateFollowupMessage(_, _) => "Create Followup Message"@,
        Route::EditFollowupMessage(_, _, m) => "Edit Followup Message `"@ + dec(m.0) + "`"@,
        Route::DeleteFollowupMessage(_, _, m) => "Delete Followup Message `"@ + dec(m.0) + "`"@,
        Route::GetUser(u) => "Get User `"@ + user_label(c, u) + "`"@,
        Route::CreateDm => "Create Dm"@,
    }
}

fn push_guild_prefix(s: &mut String, c: &Cache, g: Option<GuildId>)
    ensures
        final(s)@ == old(s)@ + guild_prefix(*c, g),
{
    if let Some(g) = g {
        if let Some(guild) = c.guilds.get(g) {
            if let Some(name) = &guild.info.name {
                push_str(s, name.as_str());
                push_str(s, "/");
                return;
            }
        }
    }
    assert(guild_prefix(*c, g) =~= Seq::<char>::empty());
    assert(s@ =~= old(s)@ + guild_prefix(*c, g));
}

fn push_channel(s: &mut String, c: &Cache, ch: ChannelId)
    ensures
        final(s)@ == old(s)@ + channel_label(*c, ch),
{
    let k = ch.0;
    let kind = match c.channel_types.get(&k) {
        Some(t) => Some(*t),
        None => None,
    };
    match kind {
        Some(ChannelType::GuildText) => {
            if let Some(t) = c.channels.get(ch) {
                push_guild_prefix(s, c, t.guild_id);
                push_str(s, t.name.as_str());
                return;
            }
        },
        Some(ChannelType::Dm) => {
            if let Some(d) = c.dms.1.get(ch) {
                push_str(s, "DM: ");
                push_str(s, d.recipient.username.as_str());
                return;
            }
        },
        Some(ChannelType::GuildCategory) => {
            if let Some(cat) = c.categories.get(ch) {
                push_guild_prefix(s, c, cat.guild_id);
                if let Some(n) = &cat.name {
                    push_str(s, n.as_str());
                } else {
                    assert(s@ =~= s@ + Seq::<char>::empty());
                }
                return;
            }
        },
        Some(ChannelType::GuildNews) => {
            if let Some(n) = c.news.get(ch) {
                push_guild_prefix(s, c, n.guild_id);
                push_str(s, n.name.as_str());
                return;
            }
        },
        Some(ChannelType::GuildStore) => {
            if let Some(st) = c.stores.get(ch) {
                push_guild_prefix(s, c, st.guild_id);
                push_str(s, st.name.as_str());
                return;
            }
        },
        _ => {},
    }
    push_id(s, k);
}

fn push_user(s: &mut String, c: &Cache, u: UserId)
    ensures
        final(s)@ == old(s)@ + user_label(*c, u),
{
    if let Some(me) = &c.user {
        if me.id.0 == u.0 {
            push_str(s, me.username.as_str());
            return;
        }
    }
    push_id(s, u.0);
}

fn push_guild(s: &mut String, c: &Cache, g: GuildId)
    ensures
        final(s)@ == old(s)@ + guild_label(*c, g),
{
    if let Some(guild) = c.guilds.get(g) {
        if let Some(name) = &guild.info.name {
            push_str(s, name.as_str());
            return;
        }
    }
    push_id(s, g.0);
}

fn push_reaction(s: &mut String, e: &Emoji)
    ensures
        final(s)@ == old(s)@ + reaction_text(*e),
{
    let r = e.as_reaction();
    push_str(s, r.as_str());
}

impl Route {
    /// How this endpoint reads in a log, with the names the cache knows.
    pub fn debug_with_cache(&self, cache: &Cache) -> (d: String)
        ensures
            d@ == route_debug(*self, *cache),
    {
        let mut s = String::new();
        match self {
            Route::GetGateway => push_str(&mut s, "Get Gateway"),
            Route::ApplicationInfo => push_str(&mut s, "Get Application Info"),
            Route::GetChannel(ch) => {
                push_str(&mut s, "Get Channel `");
                push_channel(&mut s, cache, *ch);
                push_str(&mut s, "`");
            },
            Route::TriggerTyping(ch) => {
                push_str(&mut s, "Trigger Typing `");
                push_channel(&mut s, cache, *ch);
                push_str(&mut s, "`");
            },
            Route::GetPinnedMessages(ch) => {
                push_str(&mut s, "Get Pinned Messages `");
                push_channel(&mut s, cache, *ch);
                push_str(&mut s, "`");
            },
            Route::PinMessage(ch, m) => {
                push_str(&mut s, "Pin Message `");
                push_channel(&mut s, cache, *ch);
                push_str(&mut s, "/");
                push_id(&mut s, m.0);
                push_str(&mut s, "`");
            },
            Route::UnpinMessage(ch, m) => {
                push_str(&mut s, "Unpin Message `");
                push_channel(&mut s, cache, *ch);
                push_str(&mut s, "/");
                push_id(&mut s, m.0);
                push_str(&mut s, "`");
            },
            Route::GetMessage(ch, m) => {
                push_str(&mut s, "Get Message `");
                push_channel(&mut s, cache, *ch);
                push_str(&mut s, "/");
                push_id(&mut s, m.0);
                push_str(&mut s, "`");
            },
            Route::PostMessage(ch) => {
                push_str(&mut s, "Post Message `");
                push_channel(&mut s, cache, *ch);
                push_str(&mut s, "`");
            },
            Route::EditMessage(ch, m) => {
                push_str(&mut s, "Edit Message `");
                push_channel(&mut s, cache, *ch);
                push_str(&mut s, "/");
                push_id(&mut s, m.0);
                push_str(&mut s, "`");
            },
            Route::DeleteMessage(ch, m) => {
                push_str(&mut s, "Delete Message `");
                push_channel(&mut s, cache, *ch);
                push_str(&mut s, "/");
                push_id(&mut s, m.0);
                push_str(&mut s, "`");
            },
            Route::CreateReaction(ch, m, e) => {
                push_str(&mut s, "Create Reaction `");
                push_channel(&mut s, cache, *ch);
                push_str(&mut s, "/");
                push_id(&mut s, m.0);
                push_str(&mut s, "/");
                push_reaction(&mut s, e);
                push_str(&mut s, "`");
            },
            Route::DeleteOwnReaction(ch, m, e) => {
                push_str(&mut s, "Delete Own Reaction `");
                push_channel(&mut s, cache, *ch);
                push_str(&mut s, "/");
                push_id(&mut s, m.0);
                push_str(&mut s, "/");
                push_reaction(&mut s, e);
                push_str(&mut s, "`");
            },
            Route::DeleteUserReaction(ch, m, e, u) => {
                push_str(&mut s, "Delete User Reaction `");
                push_channel(&mut s, cache, *ch);
                push_str(&mut s, "/");
                push_id(&mut s, m.0);
                push_str(&mut s, "/");
                push_reaction(&mut s, e);
                push_str(&mut s, "/");
                push_user(&mut s, cache, *u);
                push_str(&mut s, "`");
            },
            Route::GetGlobalCommands(_) => push_str(&mut s, "Get Global Commands"),
            Route::CreateGlobalCommand(_) => push_str(&mut s, "Create Global Command"),
            Route::EditGlobalCommand(_, cmd) => {
                push_str(&mut s, "Edit Global Command `");
                push_id(&mut s, cmd.0);
                push_str(&mut s, "`");
            },
            Route::DeleteGlobalCommand(_, cmd) => {
                push_str(&mut s, "Delete Global Command `");
                push_id(&mut s, cmd.0);
                push_str(&mut s, "`");
            },
            Route::GetGuildCommands(_, g) => {
                push_str(&mut s, "Get Guild Commands `");
                push_guild(&mut s, cache, *g);
                push_str(&mut s, "`");
            },
            Route::CreateGuildCommand(_, g) => {
                push_str(&mut s, "Create Guild Command `");
                push_guild(&mut s, cache, *g);
                push_str(&mut s, "`");
            },
            Route::EditGuildCommand(_, g, cmd) => {
                push_str(&mut s, "Edit Guild Command `");
                push_guild(&mut s, cache, *g);
                push_str(&mut s, "/");
                push_id(&mut s, cmd.0);
                push_str(&mut s, "`");
            },
            Route::DeleteGuildCommand(_, g, cmd) => {
                push_str(&mut s, "Delete Guild Command `");
                push_guild(&mut s, cache, *g);
                push_str(&mut s, "/");
                push_id(&mut s, cmd.0);
                push_str(&mut s, "`");
            },
            Route::CreateInteractionResponse(_, _) => push_str(&mut s, "Create Interaction Response"),
            Route::EditInteractionResponse(_, _) => push_str(&mut s, "Edit Interaction Response"),
            Route::DeleteInteractionResponse(_, _) => push_str(&mut s, "Delete Interaction Response"),
            Route::CreateFollowupMessage(_, _) => push_str(&mut s, "Create Followup Message"),
            Route::EditFollowupMessage(_, _, m) => {
                push_str(&mut s, "Edit Followup Message `");
                push_id(&mut s, m.0);
                push_str(&mut s, "`");
            },
            Route::DeleteFollowupMessage(_, _, m) => {
                push_str(&mut s, "Delete Followup Message `");
                push_id(&mut s, m.0);
                push_str(&mut s, "`");
            },
            Route::GetUser(u) => {
                push_str(&mut s, "Get User `");
                push_user(&mut s, cache, *u);
                push_str(&mut s, "`");
            },
            Route::CreateDm => push_str(&mut s, "Create Dm"),
        }
        assert(s@ =~= route_debug(*self, *cache));
        s
    }
}

} // verus!
