use vstd::prelude::*;

use crate::commands::{ParseCommandError, UserLevel, level_rank, meets_minimum_user_level};
use crate::templates::texts;
use crate::text::same_text;

verus! {

/// The chat commands the bot answers.
#[derive(Clone, Copy, Debug, PartialEq, Eq, Structural)]
pub enum CommandName {
    Test,
    Consent,
    Unconsent,
    Version,
    Diagnostic,
    Lurk,
}

/// The command that `name` or one of its aliases calls, if any.
pub open spec fn command_named(name: Seq<char>) -> Option<CommandName> {
    if name == "test"@ || name == "t"@ {
        Some(CommandName::Test)
    } else if name == "consent"@ || name == "c"@ || name == "consennet"@ {
        Some(CommandName::Consent)
    } else if name == "unconsent"@ || name == "uc"@ || name == "unconsennet"@ {
        Some(CommandName::Unconsent)
    } else if name == "version"@ || name == "v"@ {
        Some(CommandName::Version)
    } else if name == "diagnostic"@ || name == "d"@ {
        Some(CommandName::Diagnostic)
    } else if name == "lurk"@ || name == "l"@ {
        Some(CommandName::Lurk)
    } else {
        None
    }
}

/// The command called `command_string`, by name or alias.
pub fn command_from_str(command_string: &str) -> (r: Option<CommandName>)
    ensures
        r == command_named(command_string@),
{
    let s = command_string;
    if same_text(s, "test") || same_text(s, "t") {
        Some(CommandName::Test)
    } else if same_text(s, "consent") || same_text(s, "c") || same_text(s, "consennet") {
        Some(CommandName::Consent)
    } else if same_text(s, "unconsent") || same_text(s, "uc") || same_text(s, "unconsennet") {
        Some(CommandName::Unconsent)
    } else if same_text(s, "version") || same_text(s, "v") {
        Some(CommandName::Version)
    } else if same_text(s, "diagnostic") || same_text(s, "d") {
        Some(CommandName::Diagnostic)
    } else if same_text(s, "lurk") || same_text(s, "l") {
        Some(CommandName::Lurk)
    } else {
        None
    }
}

impl CommandName {
    /// The lowest level allowed to run the command.
    pub fn get_required_user_level(&self) -> (r: UserLevel)
        ensures
            *self == CommandName::Diagnostic ==> r == UserLevel::Creator,
            *self != CommandName::Diagnostic ==> r == UserLevel::Viewer,
    {
        match self {
            CommandName::Diagnostic => UserLevel::Creator,
            _ => UserLevel::Viewer,
        }
    }
}

/// Why a consent command does not name whom it is for.
#[derive(Clone, Copy, Debug, PartialEq, Eq, Structural)]
pub enum ConsentTargetError {
    /// Only moderators and above may act for someone else.
    NotAllowed,
    /// More than one name was given.
    TooManyArguments,
}

/// `name` without one leading `@`.
pub open spec fn without_at(name: Seq<char>) -> Seq<char> {
    if name.len() > 0 && name[0] == '@' {
        name.drop_first()
    } else {
        name
    }
}

/// Whom a consent or unconsent command from `sender`, at `level`, is for: the
/// sender without arguments; with one argument, that name without a leading
/// `@`, for a moderator or above only.
pub open spec fn consent_target_of(args: Seq<Seq<char>>, sender: Seq<char>, level: UserLevel) -> Result<
    Seq<char>,
    ConsentTargetError,
> {
    if args.len() == 0 {
        Ok(sender)
    } else if args.len() == 1 {
        if level_rank(level) >= level_rank(UserLevel::Moderator) {
            Ok(without_at(args[0]))
        } else {
            Err(ConsentTargetError::NotAllowed)
        }
    } else {
        Err(ConsentTargetError::TooManyArguments)
    }
}

/// Whom a consent or unconsent command is for: see `consent_target_of`.
pub fn consent_target(args: &Vec<String>, sender: &str, level: UserLevel) -> (r: Result<
    String,
    ConsentTargetError,
>)
    ensures
        match (r, consent_target_of(texts(args@), sender@, level)) {
            (Ok(name), Ok(want)) => name@ == want,
            (Err(e), Err(f)) => e == f,
            _ => false,
        },
{
    if args.len() == 0 {
        return Ok(String::from_str(sender));
    }
    if args.len() > 1 {
        return Err(ConsentTargetError::TooManyArguments);
    }
    if !meets_minimum_user_level(level, UserLevel::Moderator) {
        return Err(ConsentTargetError::NotAllowed);
    }
    let name = args[0].as_str();
    let n = name.unicode_len();
    if n > 0 && name.get_char(0) == '@' {
        proof {
            assert(name@.subrange(1, n as int) =~= name@.drop_first());
        }
        Ok(String::from_str(name.substring_char(1, n)))
    } else {
        Ok(String::from_str(name))
    }
}

/// Whether `c` is white space as Unicode defines it.
pub open spec fn is_space(c: char) -> bool {
    ('\u{9}' <= c && c <= '\u{d}') || c == ' ' || c == '\u{85}' || c == '\u{a0}' || c == '\u{1680}'
        || ('\u{2000}' <= c && c <= '\u{200a}') || c == '\u{2028}' || c == '\u{2029}' || c
        == '\u{202f}' || c == '\u{205f}' || c == '\u{3000}'
}

/// Whether `c` is white space as Unicode defines it.
pub fn is_whitespace(c: char) -> (r: bool)
    ensures
        r == is_space(c),
{
    ('\u{9}' <= c && c <= '\u{d}') || c == ' ' || c == '\u{85}' || c == '\u{a0}' || c == '\u{1680}'
        || ('\u{2000}' <= c && c <= '\u{200a}') || c == '\u{2028}' || c == '\u{2029}' || c
        == '\u{202f}' || c == '\u{205f}' || c == '\u{3000}'
}

/// The word in progress, as a list of no or one word.
pub open spec fn pending(cur: Seq<char>) -> Seq<Seq<char>> {
    if cur.len() > 0 {
        seq![cur]
    } else {
        Seq::empty()
    }
}

/// The words of `s`, split at white space, after the word `cur` in progress.
pub open spec fn split_words(s: Seq<char>, cur: Seq<char>) -> Seq<Seq<char>>
    decreases s.len(),
{
    if s.len() == 0 {
        pending(cur)
    } else if is_space(s[0]) {
        pending(cur) + split_words(s.drop_first(), Seq::empty())
    } else {
        split_words(s.drop_first(), cur.push(s[0]))
    }
}

/// The words of `s`: the runs of characters between white space.
pub open spec fn words(s: Seq<char>) -> Seq<Seq<char>> {
    split_words(s, Seq::empty())
}

/// Splits `text` at white space into its words.
pub fn split_whitespace(text: &str) -> (r: Vec<String>)
    ensures
        texts(r@) == words(text@),
{
    let n = text.unicode_len();
    let mut out: Vec<String> = Vec::new();
    let mut cur = String::new();
    let mut i: usize = 0;
    proof {
        assert(text@.skip(0) =~= text@);
        assert(texts(out@) + split_words(text@, cur@) =~= words(text@));
    }
    while i < n
        invariant
            n == text@.len(),
            i <= n,
            words(text@) == texts(out@) + split_words(text@.skip(i as int), cur@),
        decreases n - i,
    {
        let c = text.get_char(i);
        let ghost rest = text@.skip(i as int);
        let ghost next = text@.skip(i + 1);
        let ghost prev_out = texts(out@);
        let ghost prev_cur = cur@;
        proof {
            assert(rest[0] == c);
            assert(rest.drop_first() =~= next);
        }
        if is_whitespace(c) {
            proof {
                assert(split_words(rest, prev_cur) == pending(prev_cur) + split_words(next, Seq::empty()));
                assert(prev_out + (pending(prev_cur) + split_words(next, Seq::empty())) =~= (prev_out
                    + pending(prev_cur)) + split_words(next, Seq::empty()));
            }
            if cur.unicode_len() > 0 {
                out.push(cur);
                proof {
                    assert(texts(out@) =~= prev_out + pending(prev_cur));
                }
                cur = String::new();
            } else {
                proof {
                    assert(cur@ =~= Seq::<char>::empty());
                    assert(prev_out + pending(prev_cur) =~= prev_out);
                }
            }
        } else {
            cur.append(text.substring_char(i, i + 1));
            proof {
                assert(text@.subrange(i as int, i + 1) =~= seq![c]);
                assert(cur@ =~= prev_cur.push(c));
                assert(split_words(rest, prev_cur) == split_words(next, prev_cur.push(c)));
            }
        }
        i = i + 1;
    }
    proof {
        assert(text@.skip(n as int).len() == 0);
    }
    if cur.unicode_len() > 0 {
        let ghost prev = out@;
        out.push(cur);
        proof {
            assert(texts(out@) =~= texts(prev) + pending(out@.last()@));
        }
    } else {
        proof {
            assert(texts(out@) + pending(cur@) =~= texts(out@));
        }
    }
    out
}

/// How a chat line is read as a command: it must start with `!`; after it, the
/// first of at most three words names the command and the others are its
/// arguments.
pub open spec fn parsed_command(text: Seq<char>) -> Result<
    (CommandName, Seq<Seq<char>>),
    ParseCommandError,
> {
    if text.len() == 0 || text[0] != '!' {
        Err(ParseCommandError::NotACommand)
    } else {
        let ws = words(text.drop_first());
        let ws = if ws.len() > 3 {
            ws.take(3)
        } else {
            ws
        };
        if ws.len() == 0 {
            Err(ParseCommandError::CommandArgsError)
        } else {
            match command_named(ws[0]) {
                None => Err(ParseCommandError::CommandNotFound),
                Some(c) => Ok((c, ws.drop_first())),
            }
        }
    }
}

/// Reads the chat line `text` as a command with its arguments: see
/// `parsed_command`.
pub fn parse_for_command(text: &str) -> (r: Result<(CommandName, Vec<String>), ParseCommandError>)
    ensures
        match (r, parsed_command(text@)) {
            (Ok((c, args)), Ok((d, want))) => c == d && texts(args@) == want,
            (Err(e), Err(f)) => e == f,
            _ => false,
        },
{
    let n = text.unicode_len();
    if n == 0 || text.get_char(0) != '!' {
        return Err(ParseCommandError::NotACommand);
    }
    let all = split_whitespace(text.substring_char(1, n));
    proof {
        assert(text@.subrange(1, n as int) =~= text@.drop_first());
    }
    let count = if all.len() > 3 {
        3
    } else {
        all.len()
    };
    if count == 0 {
        return Err(ParseCommandError::CommandArgsError);
    }
    match command_from_str(all[0].as_str()) {
        None => Err(ParseCommandError::CommandNotFound),
        Some(c) => {
            let mut args: Vec<String> = Vec::new();
            let mut k: usize = 1;
            while k < count
                invariant
                    1 <= k <= count,
                    count <= all@.len(),
                    texts(args@) =~= texts(all@).subrange(1, k as int),
                decreases count - k,
            {
                let ghost prev = args@;
                args.push(all[k].clone());
                proof {
                    assert(texts(args@) =~= texts(prev).push(all@[k as int]@));
                    assert(texts(all@).subrange(1, k + 1) =~= texts(all@).subrange(1, k as int).push(
                        all@[k as int]@,
                    ));
                }
                k = k + 1;
            }
            proof {
                let ws = words(text@.drop_first());
                let kept = if ws.len() > 3 {
                    ws.take(3)
                } else {
                    ws
                };
                assert(kept =~= texts(all@).subrange(0, count as int));
                assert(kept.drop_first() =~= texts(args@));
            }
            Ok((c, args))
        },
    }
}

} // verus!
