use rand::rngs::StdRng;
use rand::SeedableRng;

use ennesults::{
    command_from_str, consent_target, contains_or_empty, contains_text, fill_announcement,
    fill_comeback, fill_insult, format_announcement, format_insult, is_whitespace, lurk_cutoff,
    may_correct, parse_for_command, parse_msg_for_user_level, pick_index, process_comebacks,
    process_corrections, random_order, replace_all, replace_first, roll_percent, same_text,
    split_whitespace, status_emoji, correction_text, Comeback, Comebacks, CommandName,
    ConsentTargetError, ParseCommandError, Settings, UserLevel,
};

fn strings(v: &[&str]) -> Vec<String> {
    v.iter().map(|s| s.to_string()).collect()
}

#[test]
fn replace_all_replaces_every_occurrence() {
    assert_eq!(replace_all("a{{x}}b{{x}}", "{{x}}", "Y"), "aYbY");
    assert_eq!(replace_all("aaa", "aa", "b"), "ba");
    assert_eq!(replace_all("", "x", "y"), "");
    assert_eq!(replace_all("héllo en en", "en", "ENNE"), "héllo ENNE ENNE");
    assert_eq!(replace_all("none", "zz", "y"), "none");
}

#[test]
fn replace_first_replaces_one_occurrence() {
    assert_eq!(replace_first("{{r}} and {{r}}", "{{r}}", "ann"), "ann and {{r}}");
    assert_eq!(replace_first("plain", "{{r}}", "ann"), "plain");
    assert_eq!(replace_first("xx{{r}}", "{{r}}", ""), "xx");
}

#[test]
fn contains_and_same_text() {
    assert!(contains_text("hello there", "lo t"));
    assert!(!contains_text("hello", "hello!"));
    assert!(contains_or_empty("abc", ""));
    assert!(!contains_or_empty("abc", "d"));
    assert!(same_text("ünï", "ünï"));
    assert!(!same_text("ab", "abc"));
}

#[test]
fn insult_fill_with_target_and_randoms() {
    let picks = strings(&["bob", "cat"]);
    let out = fill_insult("{{user}} and {{random}} hate {{streamer}}", "chan", Some("ann"), &picks);
    assert_eq!(out, Some("ann and bob hate chan".to_string()));
}

#[test]
fn insult_fill_without_target_uses_first_pick_for_user() {
    let picks = strings(&["bob", "cat", "dan"]);
    let out = fill_insult("{{user}} {{user}} {{random}} {{random}}", "chan", None, &picks);
    assert_eq!(out, Some("bob bob cat dan".to_string()));
}

#[test]
fn insult_fill_runs_out_of_picks() {
    let picks = strings(&["bob"]);
    assert_eq!(fill_insult("{{random}} {{random}}", "chan", None, &picks), None);
    assert_eq!(fill_insult("{{user}}", "chan", None, &Vec::new()), None);
    assert_eq!(fill_insult("no tags", "chan", None, &Vec::new()), Some("no tags".to_string()));
}

#[test]
fn announcement_fill_sets_version_and_streamer() {
    let out = fill_announcement("{{streamer}} runs {{version}} with {{random}}", "chan", "1.2.3", &strings(&["bob"]));
    assert_eq!(out, Some("chan runs v1.2.3 with bob".to_string()));
    assert_eq!(fill_announcement("{{random}}", "chan", "1", &Vec::new()), None);
}

#[test]
fn comeback_fill_names_sender_and_streamer() {
    assert_eq!(fill_comeback("{{user}}, ask {{streamer}}", "bob", "chan"), "bob, ask chan");
}

#[test]
fn random_order_is_a_permutation() {
    let mut rng = StdRng::seed_from_u64(11);
    let pool = strings(&["a", "b", "c", "d", "e"]);
    let mut order = random_order(&mut rng, pool.clone());
    assert_eq!(order.len(), 5);
    order.sort();
    assert_eq!(order, pool);
    assert!(random_order::<u8>(&mut rng, Vec::new()).is_empty());
}

#[test]
fn format_insult_picks_distinct_users() {
    let mut rng = StdRng::seed_from_u64(3);
    for _ in 0..20 {
        let out = format_insult(&mut rng, "{{random}}+{{random}}", "chan", None, strings(&["a", "b"])).unwrap();
        assert!(out == "a+b" || out == "b+a", "{}", out);
    }
    assert_eq!(format_insult(&mut rng, "{{random}}{{random}}", "chan", None, strings(&["a"])), None);
}

#[test]
fn format_announcement_fills_from_pool() {
    let mut rng = StdRng::seed_from_u64(3);
    let out = format_announcement(&mut rng, "hi {{random}} on {{version}}", "chan", "2.0", strings(&["zed"]));
    assert_eq!(out, Some("hi zed on v2.0".to_string()));
}

#[test]
fn pick_index_and_roll_percent() {
    let mut rng = StdRng::seed_from_u64(5);
    assert_eq!(pick_index(&mut rng, 0), None);
    for _ in 0..50 {
        assert!(pick_index(&mut rng, 3).unwrap() < 3);
        assert!(!roll_percent(&mut rng, 0));
        assert!(roll_percent(&mut rng, 100));
        assert!(roll_percent(&mut rng, 250));
    }
}

fn correction_settings(percent: u32) -> Settings {
    let mut s = Settings::default();
    s.enable_corrections = true;
    s.percent_chance_of_correction = percent;
    s
}

#[test]
fn correction_rewrites_en() {
    assert_eq!(correction_text("then end"), "Correction: thENNE ENNEd");
    let mut rng = StdRng::seed_from_u64(1);
    let out = process_corrections(&mut rng, "Then END", &correction_settings(100));
    assert_eq!(out, Some("Correction: thENNE ENNEd".to_string()));
}

#[test]
fn correction_blocked_cases() {
    let mut rng = StdRng::seed_from_u64(1);
    assert_eq!(process_corrections(&mut rng, "no match here", &correction_settings(100)), None);
    assert_eq!(process_corrections(&mut rng, "then", &correction_settings(0)), None);
    let mut off = correction_settings(100);
    off.enable_corrections = false;
    assert_eq!(process_corrections(&mut rng, "then", &off), None);
    let mut except = correction_settings(100);
    except.correction_exceptions = strings(&["when"]);
    assert!(!may_correct("when then", &except));
    assert_eq!(process_corrections(&mut rng, "WHEN then", &except), None);
    assert!(may_correct("then", &except));
}

fn comeback_settings(percent: u32) -> Settings {
    let mut s = Settings::default();
    s.enable_comebacks = true;
    s.percent_chance_of_comeback = percent;
    s.channel_name = "chan".to_string();
    s
}

#[test]
fn comeback_when_bot_is_named() {
    let mut rng = StdRng::seed_from_u64(2);
    let comebacks = Comebacks(vec![Comeback { id: "1".to_string(), value: "{{user}} vs {{streamer}}".to_string() }]);
    let out = process_comebacks(&mut rng, "hey BotName!", "bob", "botname", &comebacks, &comeback_settings(100));
    assert_eq!(out, Some("bob vs chan".to_string()));
    let out = process_comebacks(&mut rng, "EnneGisults rocks", "bob", "other", &comebacks, &comeback_settings(100));
    assert_eq!(out, Some("bob vs chan".to_string()));
}

#[test]
fn no_comeback_cases() {
    let mut rng = StdRng::seed_from_u64(2);
    let comebacks = Comebacks(vec![Comeback { id: "1".to_string(), value: "x".to_string() }]);
    assert_eq!(process_comebacks(&mut rng, "hello", "bob", "botname", &comebacks, &comeback_settings(100)), None);
    assert_eq!(process_comebacks(&mut rng, "botname", "bob", "botname", &comebacks, &comeback_settings(0)), None);
    assert_eq!(process_comebacks(&mut rng, "botname", "bob", "botname", &Comebacks(Vec::new()), &comeback_settings(100)), None);
    let mut off = comeback_settings(100);
    off.enable_comebacks = false;
    assert_eq!(process_comebacks(&mut rng, "botname", "bob", "botname", &comebacks, &off), None);
}

#[test]
fn parse_commands() {
    let (c, args) = parse_for_command("!consent  @Bob extra more").unwrap();
    assert_eq!(c, CommandName::Consent);
    assert_eq!(args, strings(&["@Bob", "extra"]));
    let (c, args) = parse_for_command("!v").unwrap();
    assert_eq!(c, CommandName::Version);
    assert!(args.is_empty());
    assert_eq!(parse_for_command("hello").unwrap_err(), ParseCommandError::NotACommand);
    assert_eq!(parse_for_command("").unwrap_err(), ParseCommandError::NotACommand);
    assert_eq!(parse_for_command("!   ").unwrap_err(), ParseCommandError::CommandArgsError);
    assert_eq!(parse_for_command("!dance now").unwrap_err(), ParseCommandError::CommandNotFound);
    assert_eq!(parse_for_command("! lurk").unwrap().0, CommandName::Lurk);
}

#[test]
fn command_names_and_levels() {
    assert_eq!(command_from_str("uc"), Some(CommandName::Unconsent));
    assert_eq!(command_from_str("consennet"), Some(CommandName::Consent));
    assert_eq!(command_from_str("d"), Some(CommandName::Diagnostic));
    assert_eq!(command_from_str("t"), Some(CommandName::Test));
    assert_eq!(command_from_str("Test"), None);
    assert_eq!(CommandName::Diagnostic.get_required_user_level(), UserLevel::Creator);
    assert_eq!(CommandName::Lurk.get_required_user_level(), UserLevel::Viewer);
}

#[test]
fn whitespace_split() {
    assert_eq!(split_whitespace("  a\tbc\u{3000}d  "), strings(&["a", "bc", "d"]));
    assert!(split_whitespace("   ").is_empty());
    assert!(is_whitespace('\u{a0}'));
    assert!(!is_whitespace('x'));
    for c in ['\t', '\n', ' ', '\u{85}', '\u{2009}', '\u{2028}', '\u{205f}'] {
        assert_eq!(is_whitespace(c), c.is_whitespace());
    }
}

#[test]
fn consent_targets() {
    assert_eq!(consent_target(&Vec::new(), "bob", UserLevel::Viewer), Ok("bob".to_string()));
    assert_eq!(consent_target(&strings(&["@ann"]), "bob", UserLevel::Moderator), Ok("ann".to_string()));
    assert_eq!(consent_target(&strings(&["ann"]), "bob", UserLevel::Broadcaster), Ok("ann".to_string()));
    assert_eq!(consent_target(&strings(&["ann"]), "bob", UserLevel::Vip), Err(ConsentTargetError::NotAllowed));
    assert_eq!(consent_target(&strings(&["a", "b"]), "bob", UserLevel::Bot), Err(ConsentTargetError::TooManyArguments));
}

#[test]
fn user_levels_from_badges() {
    assert_eq!(parse_msg_for_user_level("ChrisGriffin522", &Vec::new()), UserLevel::Creator);
    assert_eq!(parse_msg_for_user_level("x", &strings(&["premium", "vip", "moderator"])), UserLevel::Vip);
    assert_eq!(parse_msg_for_user_level("x", &strings(&["broadcaster"])), UserLevel::Broadcaster);
    assert_eq!(parse_msg_for_user_level("x", &strings(&["subscriber"])), UserLevel::Subscriber);
    assert_eq!(parse_msg_for_user_level("x", &strings(&["premium"])), UserLevel::Viewer);
}

#[test]
fn status_emoji_and_cutoff() {
    assert_eq!(status_emoji(true), "✅");
    assert_eq!(status_emoji(false), "❌");
    assert_eq!(lurk_cutoff(10_000, 5), 9_700);
}
