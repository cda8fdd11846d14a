use ennesults::{
    default_bool, filter_insults, get_local_now_formatted, has_sufficient_permissions,
    meets_minimum_user_level, Announcement, Announcements, Authentication, AuthenticationBuilder,
    AuthenticationDetails, BotData, BotInfo, ChannelDetails, Comebacks, Insult, InsultTag,
    Insults, Settings, User, UserLevel, Users,
};

fn user(name: &str, id: &str) -> User {
    User {
        id: id.to_string(),
        username: name.to_string(),
        consented: false,
        last_seen: String::new(),
        lurk: false,
    }
}

fn announcement(id: &str) -> Announcement {
    Announcement { id: id.to_string(), value: format!("text {}", id) }
}

#[test]
fn users_from_keeps_one_per_name_and_later_wins() {
    let users = Users::from(vec![user("ann", "1"), user("bob", "2"), user("ann", "3")]);
    assert_eq!(users.0.len(), 2);
    let ann = users.0.iter().find(|u| u.username == "ann").unwrap();
    assert_eq!(ann.id, "3");
    let bob = users.0.iter().find(|u| u.username == "bob").unwrap();
    assert_eq!(bob.id, "2");
}

#[test]
fn users_from_empty_is_empty() {
    assert!(Users::from(Vec::new()).0.is_empty());
}

#[test]
fn default_bool_is_false() {
    assert!(!default_bool());
}

#[test]
fn bot_data_get_users_copies() {
    let data = BotData::new(
        Comebacks(Vec::new()),
        Insults(Vec::new()),
        Users::from(vec![user("ann", "1")]),
        Announcements::from(Vec::new()),
    );
    let copy = data.get_users();
    assert_eq!(copy.0.len(), 1);
    assert_eq!(copy.0[0].username, "ann");
    assert_eq!(data.users.0.len(), 1);
}

#[test]
fn announcements_from_starts_at_first() {
    let a = Announcements::from(vec![announcement("x"), announcement("y")]);
    assert_eq!(a.next_announcement_index, 0);
    assert_eq!(a.announcements.len(), 2);
}

#[test]
fn rotation_cycles_in_order() {
    let mut a = Announcements::from(vec![announcement("x"), announcement("y"), announcement("z")]);
    let ids: Vec<String> = (0..5).map(|_| a.next_in_rotation().unwrap().id).collect();
    assert_eq!(ids, vec!["x", "y", "z", "x", "y"]);
    assert_eq!(a.next_announcement_index, 2);
}

#[test]
fn rotation_on_empty_gives_none() {
    let mut a = Announcements::from(Vec::new());
    assert!(a.next_in_rotation().is_none());
    assert_eq!(a.next_announcement_index, 0);
}

#[test]
fn rotation_past_end_starts_over() {
    let mut a = Announcements::from(vec![announcement("x"), announcement("y")]);
    a.next_announcement_index = 9;
    assert_eq!(a.next_in_rotation().unwrap().id, "x");
    assert_eq!(a.next_announcement_index, 1);
}

fn insult(id: &str, tags: &[InsultTag]) -> Insult {
    Insult { id: id.to_string(), value: format!("{{{{user}}}} {}", id), tags: tags.to_vec() }
}

#[test]
fn filter_without_tags_keeps_all() {
    let all = vec![insult("a", &[]), insult("b", &[InsultTag::Lurk])];
    let out = filter_insults(&all, &None);
    assert_eq!(out.iter().map(|i| i.id.as_str()).collect::<Vec<_>>(), vec!["a", "b"]);
}

#[test]
fn filter_keeps_insults_sharing_a_tag() {
    let all = vec![
        insult("a", &[InsultTag::Insult]),
        insult("b", &[InsultTag::Lurk, InsultTag::Raid]),
        insult("c", &[]),
        insult("d", &[InsultTag::Consent, InsultTag::Insult]),
    ];
    let out = filter_insults(&all, &Some(vec![InsultTag::Insult, InsultTag::Raid]));
    assert_eq!(out.iter().map(|i| i.id.as_str()).collect::<Vec<_>>(), vec!["a", "b", "d"]);
    assert_eq!(out[1].tags, vec![InsultTag::Lurk, InsultTag::Raid]);
    let none = filter_insults(&all, &Some(vec![InsultTag::Unconsent]));
    assert!(none.is_empty());
    let empty_filter = filter_insults(&all, &Some(Vec::new()));
    assert!(empty_filter.is_empty());
}

#[test]
fn user_levels_rank_in_order() {
    assert_eq!(UserLevel::Viewer.index(), 0);
    assert_eq!(UserLevel::Moderator.index(), 3);
    assert_eq!(UserLevel::Bot.index(), 6);
    assert!(has_sufficient_permissions(UserLevel::Moderator, UserLevel::Vip));
    assert!(has_sufficient_permissions(UserLevel::Vip, UserLevel::Vip));
    assert!(!has_sufficient_permissions(UserLevel::Subscriber, UserLevel::Broadcaster));
    assert!(meets_minimum_user_level(UserLevel::Creator, UserLevel::Broadcaster));
    assert!(!meets_minimum_user_level(UserLevel::Viewer, UserLevel::Subscriber));
}

#[test]
fn builder_with_all_parts_is_valid() {
    let mut b = AuthenticationBuilder::new();
    b.access_token("tok".to_string());
    b.client_id("cid".to_string());
    b.login("bot".to_string());
    b.expires_in(3600);
    match b.build() {
        Authentication::Valid { details, last_validated } => {
            assert_eq!(details.access_token, "tok");
            assert_eq!(details.client_id, "cid");
            assert_eq!(details.login, "bot");
            assert_eq!(details.expires_in, 3600);
            assert!(matches!(details.channel_details, ChannelDetails::Disconnected));
            let stamp = last_validated.unwrap();
            assert!(chrono::DateTime::parse_from_rfc2822(&stamp).is_ok());
        }
        other => panic!("unexpected {:?}", other),
    }
}

#[test]
fn builder_missing_part_is_invalid() {
    let mut b = AuthenticationBuilder::new();
    b.access_token("tok".to_string());
    b.client_id("cid".to_string());
    b.expires_in(3600);
    match b.build() {
        Authentication::Invalid { reason } => assert_eq!(reason, "Not all data available"),
        other => panic!("unexpected {:?}", other),
    }
    assert!(matches!(AuthenticationBuilder::new().build(), Authentication::Invalid { .. }));
}

#[test]
fn set_channel_details_replaces_only_that() {
    let mut d = AuthenticationDetails {
        access_token: "t".to_string(),
        client_id: "c".to_string(),
        login: "l".to_string(),
        expires_in: 5,
        channel_details: ChannelDetails::default(),
    };
    d.set_channel_details(ChannelDetails::Connected { channel_id: "42".to_string() });
    assert!(matches!(&d.channel_details, ChannelDetails::Connected { channel_id } if channel_id == "42"));
    assert_eq!(d.login, "l");
    assert!(matches!(Authentication::default(), Authentication::NotSignedIn));
}

#[test]
fn local_now_formatted_is_rfc2822() {
    let s = get_local_now_formatted();
    assert!(chrono::DateTime::parse_from_rfc2822(&s).is_ok());
}

#[test]
fn settings_and_bot_info_defaults() {
    let s = Settings::default();
    assert_eq!(s.message_queue_interval, 6);
    assert_eq!(s.minimum_time_between_insults, 300);
    assert_eq!(s.maximum_time_between_announcements, 300);
    assert_eq!(s.lurk_time, 5);
    assert!(!s.enable_insults && !s.enable_announcements);
    assert!(s.channel_name.is_empty());
    let b = BotInfo::default();
    assert_eq!(b.time_between_insults, 300);
    assert_eq!(b.percent_chance_of_correction, 20);
}
