//! A chat companion bot's library.
//!
//! Its core is the outbound message scheduler: a FIFO of pending messages fed
//! by outside requests and by two periodic content sources (insults and
//! announcements) whose periods are drawn at random between configured bounds,
//! flushed to chat no faster than a minimum interval. Around it stand the
//! bot's records (users, insults, announcements, comebacks, settings), the
//! filling of message templates, the replies to chat, and command parsing.

mod announcements;
mod auth;
mod bot_data;
mod bot_info;
mod chat;
mod comebacks;
mod commands;
mod context;
mod corrections;
mod date;
mod insults;
mod jitter;
mod message_thread;
mod parse;
mod queue;
mod settings;
mod templates;
mod text;
mod titlecase;
mod users;
mod validation;

pub use announcements::{Announcement, Announcements, rotation_position};
pub use auth::{
    Authentication, AuthenticationBuilder, AuthenticationDetails, AuthenticationError,
    BuilderParts, ChannelDetails, incomplete_reason, text_of,
};
pub use bot_data::BotData;
pub use bot_info::BotInfo;
pub use chat::{
    Alert, ChangelogVersionNotes, DownloadEvent, SerializeRBGColor, TwitchMessage, UpdateMetadata,
    WriteFileError,
};
pub use comebacks::{Comeback, Comebacks};
pub use commands::{
    ConsentCommand, DiagnosticAction, DiagnosticCommand, HelloWorld, LurkCommand,
    ParseCommandError, TestCommand, UnconsentCommand, UserLevel, VersionCommand, badge_level,
    creator_name, diagnostic_reply, diagnostic_usage, handle_whisper, has_sufficient_permissions,
    level_of_sender, level_rank, may_repeat_whisper, meets_minimum_user_level,
    parse_msg_for_user_level, sender_level, status_emoji, status_mark, whisper_allowed,
};
pub use context::{
    MessageThreadContext, PeriodicSource, TIMESTAMP_LIMIT, clamped, configured_period,
    effective_period, fire_times, flush_step, lemma_clamp_uses_max, lemma_periodic_spacing,
    lemma_rate_limit, may_send, send_times, source_enabled,
};
pub use corrections::{
    addresses_bot, correction_allowed, correction_of, correction_text, may_correct,
    process_comebacks, process_corrections,
};
pub use date::{get_local_now_formatted, lurk_cutoff, rfc2822_seconds};
pub use insults::{
    Insult, InsultTag, InsultThreadShutdownError, Insults, filter_insults, filtered, passes_filter,
    same_insult, tag_filter, untagged_count,
};
pub use jitter::{pick_index, random_order, roll_percent};
pub use message_thread::{
    MessageThread, MessageThreadMessage, MessageThreadShutdownError, lemma_shutdown_twice,
    shutdown_outcome,
};
pub use parse::{
    CommandName, ConsentTargetError, command_from_str, command_named, consent_target,
    consent_target_of, is_space, is_whitespace, parse_for_command, parsed_command, pending,
    split_whitespace, split_words, without_at, words,
};
pub use queue::{Queue, QueueOp, apply_ops, enqueued, lemma_fifo_order};
pub use settings::Settings;
pub use templates::{
    fill_announcement, fill_comeback, fill_insult, filled_announcement, filled_insult,
    filled_randoms, format_announcement, format_insult, random_tag, streamer_tag, texts, user_tag,
    version_tag,
};
pub use text::{
    contains_or_empty, contains_text, has_match, lower_of, matches_at, occurs_in, replace_all,
    replace_first, replaced_all, replaced_first, same_text,
};
pub use titlecase::{TitleCase, capitalized, joined_capitalized, upper_of};
pub use users::{
    User, Users, consented_count, default_bool, eligible_names, is_eligible, unique_names,
    user_map,
};
pub use validation::{
    JsonField, JsonMember, ValidationReply, bad_lifetime_reason, bad_reply_reason,
    interpret_validation, read_validation_reply, validate_reply,
};
