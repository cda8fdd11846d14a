use vstd::prelude::*;

use crate::announcements::Announcements;
use crate::comebacks::Comebacks;
use crate::insults::Insults;
use crate::users::Users;

verus! {

/// The bot's content and the users it knows.
#[derive(Debug)]
pub struct BotData {
    pub comebacks: Comebacks,
    pub insults: Insults,
    pub users: Users,
    pub announcements: Announcements,
}

impl BotData {
    pub fn new(
        comebacks: Comebacks,
        insults: Insults,
        users: Users,
        announcements: Announcements,
    ) -> (r: Self)
        ensures
            r.comebacks == comebacks,
            r.insults == insults,
            r.users == users,
            r.announcements == announcements,
    {
        BotData { comebacks, insults, users, announcements }
    }

    /// A copy of the known users.
    pub fn get_users(&self) -> (r: Users)
        ensures
            r.0@ == self.users.0@,
    {
        self.users.clone()
    }
}

} // verus!
