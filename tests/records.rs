use ennesults::{
    Announcement, Announcements, Comeback, Comebacks, Insult, InsultTag, Insults, User, Users,
};

fn user(name: &str, consented: bool, lurk: bool, last_seen: &str) -> User {
    User {
        id: format!("id-{}", name),
        username: name.to_string(),
        consented,
        last_seen: last_seen.to_string(),
        lurk,
    }
}

const RECENT: &str = "Tue, 1 Jul 2025 10:52:37 +0200";

#[test]
fn record_seen_updates_or_adds() {
    let mut users = Users::from(vec![user("ann", true, true, "old")]);
    users.record_seen("9".to_string(), "ann".to_string(), "now".to_string());
    assert_eq!(users.0.len(), 1);
    assert!(!users.0[0].lurk);
    assert_eq!(users.0[0].last_seen, "now");
    assert!(users.0[0].consented);
    users.record_seen("7".to_string(), "bob".to_string(), "now2".to_string());
    assert_eq!(users.0.len(), 2);
    let bob = &users.0[1];
    assert_eq!((bob.id.as_str(), bob.consented, bob.lurk), ("7", false, false));
}

#[test]
fn consent_and_lurk_updates() {
    let mut users = Users::from(vec![user("ann", false, false, RECENT)]);
    assert_eq!(users.set_consent(&"ann".to_string(), true), Some(false));
    assert_eq!(users.set_consent(&"ann".to_string(), true), Some(true));
    assert_eq!(users.set_consent(&"zed".to_string(), true), None);
    assert_eq!(users.set_lurking(&"ann".to_string()), Some(true));
    assert!(users.0[0].lurk);
    assert_eq!(users.set_lurking(&"zed".to_string()), None);
    assert_eq!(users.counts(), (1, 1));
}

#[test]
fn remove_and_well_formed() {
    let mut users = Users::from(vec![user("ann", true, false, ""), user("bob", false, false, "")]);
    assert!(users.is_well_formed());
    assert!(users.remove_user(&"ann".to_string()));
    assert!(!users.remove_user(&"ann".to_string()));
    assert_eq!(users.0.len(), 1);
    let dup = Users(vec![user("x", true, false, ""), user("x", false, false, "")]);
    assert!(!dup.is_well_formed());
}

#[test]
fn eligibility_rules() {
    let users = Users::from(vec![
        user("chan", false, true, "bad date"),
        user("ann", true, false, RECENT),
        user("bob", false, false, RECENT),
        user("cat", true, true, RECENT),
        user("dan", true, false, "not a date"),
        user("eve", true, false, "Mon, 1 Jan 2024 00:00:00 +0000"),
    ]);
    let recent = chrono::DateTime::parse_from_rfc2822(RECENT).unwrap().timestamp();
    let cutoff = recent - 60;
    assert_eq!(users.eligible_usernames("chan", true, true, cutoff), vec!["chan", "ann"]);
    assert_eq!(users.eligible_usernames("chan", false, true, cutoff), vec!["ann"]);
    assert_eq!(users.eligible_usernames("chan", false, false, cutoff), vec!["ann", "bob"]);
    assert!(users.eligible_usernames("chan", false, true, recent).is_empty());
}

#[test]
fn announcement_edits() {
    let mut a = Announcements::from(vec![
        Announcement { id: "1".to_string(), value: "one".to_string() },
        Announcement { id: "2".to_string(), value: "two".to_string() },
    ]);
    assert!(a.update_announcement("2", "TWO".to_string()));
    assert_eq!(a.announcements[1].value, "TWO");
    assert!(!a.update_announcement("9", "x".to_string()));
    a.save_announcement(Announcement { id: "1".to_string(), value: "ONE".to_string() });
    assert_eq!(a.announcements.len(), 2);
    assert_eq!(a.announcements[0].value, "ONE");
    a.save_announcement(Announcement { id: "3".to_string(), value: "three".to_string() });
    assert_eq!(a.announcements.len(), 3);
    assert!(a.delete_announcement("1"));
    assert!(!a.delete_announcement("1"));
    assert_eq!(a.announcements[0].id, "2");
}

#[test]
fn insult_and_comeback_edits() {
    let mut insults = Insults(vec![Insult { id: "a".to_string(), value: "v".to_string(), tags: vec![] }]);
    assert!(insults.update_insult(Insult { id: "a".to_string(), value: "w".to_string(), tags: vec![InsultTag::Raid] }));
    assert_eq!(insults.0[0].value, "w");
    assert_eq!(insults.0[0].tags, vec![InsultTag::Raid]);
    assert!(!insults.update_insult(Insult { id: "b".to_string(), value: "w".to_string(), tags: vec![] }));
    assert!(insults.delete_insult("a"));
    assert!(insults.0.is_empty());
    assert!(!insults.delete_insult("a"));

    let mut comebacks = Comebacks(vec![Comeback { id: "c".to_string(), value: "v".to_string() }]);
    assert!(comebacks.update_comeback(Comeback { id: "c".to_string(), value: "new".to_string() }));
    assert_eq!(comebacks.0[0].value, "new");
    assert!(!comebacks.update_comeback(Comeback { id: "z".to_string(), value: "new".to_string() }));
    assert!(comebacks.delete_comeback("c"));
    assert!(!comebacks.delete_comeback("c"));
}
