use vstd::prelude::*;

use crate::settings::Settings;
use crate::templates::texts;
use crate::text::{lower_of, lowercase, same_text};

verus! {

/// A chatter's standing in the channel, lowest first.
#[derive(Clone, Copy, Debug, PartialEq, Eq, Structural)]
pub enum UserLevel {
    Viewer,
    Subscriber,
    Vip,
    Moderator,
    Broadcaster,
    Creator,
    Bot,
}

/// The rank of `level`: its position from `Viewer` (0) up to `Bot` (6).
pub open spec fn level_rank(level: UserLevel) -> nat {
    match level {
        UserLevel::Viewer => 0,
        UserLevel::Subscriber => 1,
        UserLevel::Vip => 2,
        UserLevel::Moderator => 3,
        UserLevel::Broadcaster => 4,
        UserLevel::Creator => 5,
        UserLevel::Bot => 6,
    }
}

impl UserLevel {
    /// The rank of this level.
    pub fn index(&self) -> (r: usize)
        ensures
            r == level_rank(*self),
    {
        match self {
            UserLevel::Viewer => 0,
            UserLevel::Subscriber => 1,
            UserLevel::Vip => 2,
            UserLevel::Moderator => 3,
            UserLevel::Broadcaster => 4,
            UserLevel::Creator => 5,
            UserLevel::Bot => 6,
        }
    }
}

/// Whether `user_level` is at or above `required_user_level`.
pub fn has_sufficient_permissions(user_level: UserLevel, required_user_level: UserLevel) -> (r:
    bool)
    ensures
        r == (level_rank(user_level) >= level_rank(required_user_level)),
{
    user_level.index() >= required_user_level.index()
}

/// Whether `incoming_user_level` is at or above `reference_user_level`.
pub fn meets_minimum_user_level(incoming_user_level: UserLevel, reference_user_level: UserLevel) -> (r:
    bool)
    ensures
        r == (level_rank(incoming_user_level) >= level_rank(reference_user_level)),
{
    incoming_user_level.index() >= reference_user_level.index()
}

/// The lower-case name of the bot's creator, who ranks as `Creator`.
pub open spec fn creator_name() -> Seq<char> {
    "chrisgriffin522"@
}

/// The level that a chatter's badges give: the first badge that names a level
/// decides it; with none, `Viewer`.
pub open spec fn badge_level(badges: Seq<Seq<char>>) -> UserLevel
    decreases badges.len(),
{
    if badges.len() == 0 {
        UserLevel::Viewer
    } else if badges[0] == "broadcaster"@ {
        UserLevel::Broadcaster
    } else if badges[0] == "moderator"@ {
        UserLevel::Moderator
    } else if badges[0] == "vip"@ {
        UserLevel::Vip
    } else if badges[0] == "subscriber"@ {
        UserLevel::Subscriber
    } else {
        badge_level(badges.drop_first())
    }
}

/// The level of a chatter whose lower-case name is `lowered_sender`.
pub open spec fn sender_level(lowered_sender: Seq<char>, badges: Seq<Seq<char>>) -> UserLevel {
    if lowered_sender == creator_name() {
        UserLevel::Creator
    } else {
        badge_level(badges)
    }
}

/// The level of a chatter whose name, already in lower case, is
/// `lowered_sender` and who wears `badges`: see `sender_level`.
pub fn level_of_sender(lowered_sender: &str, badges: &Vec<String>) -> (r: UserLevel)
    ensures
        r == sender_level(lowered_sender@, texts(badges@)),
{
    if same_text(lowered_sender, "chrisgriffin522") {
        return UserLevel::Creator;
    }
    let ghost all = texts(badges@);
    let mut k: usize = 0;
    proof {
        assert(all.skip(0) =~= all);
    }
    while k < badges.len()
        invariant
            k <= badges@.len(),
            all == texts(badges@),
            lowered_sender@ != creator_name(),
            badge_level(all) == badge_level(all.skip(k as int)),
        decreases badges.len() - k,
    {
        let badge = badges[k].as_str();
        proof {
            assert(all.skip(k as int)[0] == badges@[k as int]@);
            assert(all.skip(k as int).drop_first() =~= all.skip(k + 1));
        }
        if same_text(badge, "broadcaster") {
            return UserLevel::Broadcaster;
        }
        if same_text(badge, "moderator") {
            return UserLevel::Moderator;
        }
        if same_text(badge, "vip") {
            return UserLevel::Vip;
        }
        if same_text(badge, "subscriber") {
            return UserLevel::Subscriber;
        }
        k = k + 1;
    }
    proof {
        assert(all.skip(k as int).len() == 0);
    }
    UserLevel::Viewer
}

/// The level of the chatter called `sender` who wears `badges`: the creator
/// by lower-case name, otherwise as the badges say.
pub fn parse_msg_for_user_level(sender: &str, badges: &Vec<String>) -> (r: UserLevel)
    ensures
        r == sender_level(lower_of(sender@), texts(badges@)),
{
    let lowered = lowercase(sender);
    level_of_sender(lowered.as_str(), badges)
}

/// Whether a whisper from a sender whose lower-case name is `lowered_sender`
/// may be repeated in chat: whispers are on and the sender is on the list.
pub open spec fn whisper_allowed(lowered_sender: Seq<char>, settings: Settings) -> bool {
    settings.enable_whispers && exists|k: int|
        0 <= k < settings.users_allowed_to_whisper@.len()
            && #[trigger] settings.users_allowed_to_whisper@[k]@ == lowered_sender
}

/// Whether a whisper from `lowered_sender`, already in lower case, may be
/// repeated in chat: see `whisper_allowed`.
pub fn may_repeat_whisper(lowered_sender: &str, settings: &Settings) -> (r: bool)
    ensures
        r == whisper_allowed(lowered_sender@, *settings),
{
    if !settings.enable_whispers {
        return false;
    }
    let allowed = &settings.users_allowed_to_whisper;
    let mut k: usize = 0;
    while k < allowed.len()
        invariant
            allowed == &settings.users_allowed_to_whisper,
            settings.enable_whispers,
            k <= allowed@.len(),
            forall|j: int| 0 <= j < k ==> allowed@[j]@ != lowered_sender@,
        decreases allowed.len() - k,
    {
        if same_text(allowed[k].as_str(), lowered_sender) {
            proof {
                assert(settings.users_allowed_to_whisper@[k as int]@ == lowered_sender@);
            }
            return true;
        }
        k = k + 1;
    }
    false
}

/// Whether a whisper from `sender` may be repeated in chat: whispers are on
/// and the sender's lower-case name is on the list.
pub fn handle_whisper(sender: &str, settings: &Settings) -> (r: bool)
    ensures
        r == whisper_allowed(lower_of(sender@), *settings),
{
    let lowered = lowercase(sender);
    may_repeat_whisper(lowered.as_str(), settings)
}

/// The greeting command of the command framework's example.
#[derive(Debug)]
pub struct HelloWorld;

impl HelloWorld {
    /// Greets `name`.
    pub fn say_hello_to(name: String) -> (r: String)
        ensures
            r@ == "Hello "@ + name@,
    {
        let mut out = String::from_str("Hello ");
        out.append(name.as_str());
        out
    }
}

/// A check mark for yes, a cross for no.
pub open spec fn status_mark(status: bool) -> Seq<char> {
    if status {
        "✅"@
    } else {
        "❌"@
    }
}

/// A check mark or a cross for a yes-or-no report.
pub fn status_emoji(status: bool) -> (r: String)
    ensures
        r@ == status_mark(status),
{
    if status {
        String::from_str("✅")
    } else {
        String::from_str("❌")
    }
}

/// What the diagnostic command does.
#[derive(Debug)]
pub enum DiagnosticAction {
    /// Answer with this text.
    Reply(String),
    /// Post an insult now.
    RunInsult,
    /// Reconnect to the chat service.
    Reconnect,
    /// Say nothing.
    Silent,
}

pub open spec fn diagnostic_usage() -> Seq<char> {
    "🔍 diagnostics: message_thread, insults, announcements, run <reconnect, insult>"@
}

fn reply_with_mark(status: bool, text: &str) -> (r: DiagnosticAction)
    ensures
        r matches DiagnosticAction::Reply(s) && s@ == status_mark(status) + text@,
{
    let mut out = status_emoji(status);
    out.append(text);
    DiagnosticAction::Reply(out)
}

/// What the diagnostic command does with `args`, given whether the scheduler
/// runs and whether there are insults and announcements: one argument asks
/// after one of those three; `run reconnect` and `run insult` act; anything
/// else gets a hint.
pub fn diagnostic_reply(
    args: &Vec<String>,
    message_thread_running: bool,
    has_insults: bool,
    has_announcements: bool,
) -> (r: DiagnosticAction)
    ensures
        args@.len() == 1 && args@[0]@ == "message_thread"@ ==> (r matches DiagnosticAction::Reply(
            s,
        ) && s@ == status_mark(message_thread_running) + if message_thread_running {
            " Message thread running"@
        } else {
            " Message thread not running"@
        }),
        args@.len() == 1 && args@[0]@ == "insults"@ ==> (r matches DiagnosticAction::Reply(s) && s@
            == status_mark(has_insults) + " Insults"@),
        args@.len() == 1 && args@[0]@ == "announcements"@ ==> (r matches DiagnosticAction::Reply(s)
            && s@ == status_mark(has_announcements) + " Announcements"@),
        args@.len() == 1 && args@[0]@ != "message_thread"@ && args@[0]@ != "insults"@ && args@[0]@
            != "announcements"@ ==> r is Silent,
        args@.len() == 2 && args@[0]@ == "run"@ && args@[1]@ == "reconnect"@ ==> r is Reconnect,
        args@.len() == 2 && args@[0]@ == "run"@ && args@[1]@ == "insult"@ ==> r is RunInsult,
        args@.len() == 2 && args@[0]@ == "run"@ && args@[1]@ != "reconnect"@ && args@[1]@
            != "insult"@ ==> (r matches DiagnosticAction::Reply(s) && s@
            == "🤔 Sub command not found"@),
        args@.len() == 2 && args@[0]@ != "run"@ ==> (r matches DiagnosticAction::Reply(s) && s@
            == "🔍 diagnostics: run argument not found."@),
        args@.len() != 1 && args@.len() != 2 ==> (r matches DiagnosticAction::Reply(s) && s@
            == diagnostic_usage()),
{
    proof {
        reveal_strlit("message_thread");
        reveal_strlit("insults");
        reveal_strlit("announcements");
        reveal_strlit("reconnect");
        reveal_strlit("insult");
        assert("insults"@.len() != "message_thread"@.len());
        assert("announcements"@.len() != "message_thread"@.len());
        assert("announcements"@.len() != "insults"@.len());
        assert("insult"@.len() != "reconnect"@.len());
    }
    if args.len() == 1 {
        let what = args[0].as_str();
        if same_text(what, "message_thread") {
            if message_thread_running {
                reply_with_mark(true, " Message thread running")
            } else {
                reply_with_mark(false, " Message thread not running")
            }
        } else if same_text(what, "insults") {
            reply_with_mark(has_insults, " Insults")
        } else if same_text(what, "announcements") {
            reply_with_mark(has_announcements, " Announcements")
        } else {
            DiagnosticAction::Silent
        }
    } else if args.len() == 2 {
        if same_text(args[0].as_str(), "run") {
            if same_text(args[1].as_str(), "reconnect") {
                DiagnosticAction::Reconnect
            } else if same_text(args[1].as_str(), "insult") {
                DiagnosticAction::RunInsult
            } else {
                DiagnosticAction::Reply(String::from_str("🤔 Sub command not found"))
            }
        } else {
            DiagnosticAction::Reply(String::from_str("🔍 diagnostics: run argument not found."))
        }
    } else {
        DiagnosticAction::Reply(
            String::from_str(
                "🔍 diagnostics: message_thread, insults, announcements, run <reconnect, insult>",
            ),
        )
    }
}

/// Why a chat message is not a command that can run.
#[derive(Clone, Copy, Debug, PartialEq, Eq, Structural)]
pub enum ParseCommandError {
    NotACommand,
    CommandNotFound,
    CommandArgsError,
}

/// `!consent`: a chatter agrees to be insulted.
#[derive(Debug)]
pub struct ConsentCommand;

/// `!unconsent`: a chatter withdraws consent.
#[derive(Debug)]
pub struct UnconsentCommand;

/// `!diagnostic`: reports on the bot's parts.
#[derive(Debug)]
pub struct DiagnosticCommand;

/// `!lurk`: a chatter goes quiet.
#[derive(Debug)]
pub struct LurkCommand;

/// `!test`: does nothing.
#[derive(Debug)]
pub struct TestCommand;

/// `!version`: reports the bot's version.
#[derive(Debug)]
pub struct VersionCommand;

} // verus!
