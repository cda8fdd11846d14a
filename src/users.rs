use vstd::prelude::*;

use crate::date::{parse_rfc2822_seconds, rfc2822_seconds};
use crate::templates::texts;
use crate::text::same_text;

verus! {

/// A chatter the bot has seen.
#[derive(Debug)]
pub struct User {
    pub id: String,
    pub username: String,
    pub consented: bool,
    /// When the user was last seen, as an RFC 2822 date.
    pub last_seen: String,
    pub lurk: bool,
}

impl Clone for User {
    fn clone(&self) -> (r: Self)
        ensures
            r == *self,
    {
        User {
            id: self.id.clone(),
            username: self.username.clone(),
            consented: self.consented,
            last_seen: self.last_seen.clone(),
            lurk: self.lurk,
        }
    }
}

/// The value a stored user's missing `lurk` flag takes.
pub fn default_bool() -> (r: bool)
    ensures
        !r,
{
    false
}

/// The users by name that inserting `users` in order into an empty map gives:
/// a later user replaces an earlier one of the same name.
pub open spec fn user_map(users: Seq<User>) -> Map<Seq<char>, User>
    decreases users.len(),
{
    if users.len() == 0 {
        Map::empty()
    } else {
        user_map(users.drop_last()).insert(users.last().username@, users.last())
    }
}

/// No two of `users` share a username.
pub open spec fn unique_names(users: Seq<User>) -> bool {
    forall|i: int, j: int|
        0 <= i < j < users.len() ==> #[trigger] users[i].username@ != #[trigger] users[j].username@
}

/// The known users, at most one per username.
#[derive(Debug)]
pub struct Users(pub Vec<User>);

impl Users {
    pub open spec fn wf(&self) -> bool {
        unique_names(self.0@)
    }

    /// The users by username.
    pub open spec fn by_name(&self) -> Map<Seq<char>, User> {
        user_map(self.0@)
    }

    /// Collects `users` by username; where names repeat, the later user wins.
    pub fn from(users: Vec<User>) -> (r: Self)
        ensures
            r.wf(),
            r.by_name() == user_map(users@),
    {
        let mut out: Vec<User> = Vec::new();
        let mut i: usize = 0;
        while i < users.len()
            invariant
                i <= users.len(),
                unique_names(out@),
                user_map(out@) == user_map(users@.take(i as int)),
            decreases users.len() - i,
        {
            let user = users[i].clone();
            proof {
                assert(users@.take(i as int + 1).drop_last() =~= users@.take(i as int));
            }
            match find_user(&out, &user.username) {
                Some(j) => {
                    let ghost prev = out@;
                    proof {
                        lemma_user_map_replace(out@, j as int, user);
                    }
                    out.set(j, user);
                    proof {
                        assert forall|a: int, b: int| 0 <= a < b < out@.len() implies #[trigger] out@[a].username@
                            != #[trigger] out@[b].username@ by {
                            assert(out@[a].username@ == prev[a].username@);
                            assert(out@[b].username@ == prev[b].username@);
                        }
                    }
                },
                None => {
                    let ghost prev = out@;
                    out.push(user);
                    proof {
                        assert(out@.drop_last() =~= prev);
                        assert forall|a: int, b: int| 0 <= a < b < out@.len() implies #[trigger] out@[a].username@
                            != #[trigger] out@[b].username@ by {
                            if b < prev.len() {
                                assert(out@[a] == prev[a] && out@[b] == prev[b]);
                            }
                        }
                    }
                },
            }
            i = i + 1;
        }
        proof {
            assert(users@.take(users@.len() as int) =~= users@);
        }
        Users(out)
    }
}

impl Clone for Users {
    fn clone(&self) -> (r: Self)
        ensures
            r.0@ == self.0@,
    {
        let mut out: Vec<User> = Vec::new();
        let mut i: usize = 0;
        while i < self.0.len()
            invariant
                i <= self.0@.len(),
                out@ == self.0@.take(i as int),
            decreases self.0.len() - i,
        {
            out.push(self.0[i].clone());
            proof {
                assert(out@ =~= self.0@.take(i as int + 1));
            }
            i = i + 1;
        }
        proof {
            assert(self.0@.take(self.0@.len() as int) =~= self.0@);
        }
        Users(out)
    }
}

/// Whether `user` may be picked for a message: the streamer only when
/// `streamer_inclusive`; anyone else when not lurking, last seen strictly after
/// `cutoff` (an unreadable last-seen date rules the user out), and consented
/// where `must_consent`.
pub open spec fn is_eligible(
    user: User,
    channel: Seq<char>,
    streamer_inclusive: bool,
    must_consent: bool,
    cutoff: int,
) -> bool {
    if user.username@ == channel {
        streamer_inclusive
    } else {
        &&& !user.lurk
        &&& rfc2822_seconds(user.last_seen@) matches Some(t) && t > cutoff
        &&& !must_consent || user.consented
    }
}

/// The names of the eligible users of `users`, in order.
pub open spec fn eligible_names(
    users: Seq<User>,
    channel: Seq<char>,
    streamer_inclusive: bool,
    must_consent: bool,
    cutoff: int,
) -> Seq<Seq<char>>
    decreases users.len(),
{
    if users.len() == 0 {
        Seq::empty()
    } else {
        let before = eligible_names(
            users.drop_last(),
            channel,
            streamer_inclusive,
            must_consent,
            cutoff,
        );
        if is_eligible(users.last(), channel, streamer_inclusive, must_consent, cutoff) {
            before.push(users.last().username@)
        } else {
            before
        }
    }
}

fn user_is_eligible(
    user: &User,
    channel: &str,
    streamer_inclusive: bool,
    must_consent: bool,
    cutoff: i64,
) -> (r: bool)
    ensures
        r == is_eligible(*user, channel@, streamer_inclusive, must_consent, cutoff as int),
{
    if same_text(user.username.as_str(), channel) {
        return streamer_inclusive;
    }
    let seen_recently = match parse_rfc2822_seconds(user.last_seen.as_str()) {
        Some(t) => t > cutoff,
        None => false,
    };
    !user.lurk && seen_recently && (!must_consent || user.consented)
}

impl Users {
    /// The names of the users that may be picked for a message, in order: see
    /// `is_eligible`.
    pub fn eligible_usernames(
        &self,
        channel: &str,
        streamer_inclusive: bool,
        must_consent: bool,
        cutoff: i64,
    ) -> (r: Vec<String>)
        ensures
            texts(r@) == eligible_names(
                self.0@,
                channel@,
                streamer_inclusive,
                must_consent,
                cutoff as int,
            ),
    {
        let ghost users = self.0@;
        let mut out: Vec<String> = Vec::new();
        let mut i: usize = 0;
        while i < self.0.len()
            invariant
                users == self.0@,
                i <= users.len(),
                texts(out@) == eligible_names(
                    users.take(i as int),
                    channel@,
                    streamer_inclusive,
                    must_consent,
                    cutoff as int,
                ),
            decreases users.len() - i,
        {
            proof {
                assert(users.take(i as int + 1).drop_last() =~= users.take(i as int));
                assert(users.take(i as int + 1).last() == users[i as int]);
            }
            let ghost prev = out@;
            if user_is_eligible(&self.0[i], channel, streamer_inclusive, must_consent, cutoff) {
                out.push(self.0[i].username.clone());
                proof {
                    assert(texts(out@) =~= texts(prev).push(users[i as int].username@));
                }
            }
            i = i + 1;
        }
        proof {
            assert(users.take(users.len() as int) =~= users);
        }
        out
    }
}

/// With unique names, each user is found in the map under its name.
proof fn lemma_user_map_lookup(users: Seq<User>, j: int)
    requires
        unique_names(users),
        0 <= j < users.len(),
    ensures
        user_map(users).contains_key(users[j].username@),
        user_map(users)[users[j].username@] == users[j],
    decreases users.len(),
{
    if j < users.len() - 1 {
        let prefix = users.drop_last();
        assert(unique_names(prefix)) by {
            assert forall|a: int, b: int| 0 <= a < b < prefix.len() implies #[trigger] prefix[a].username@
                != #[trigger] prefix[b].username@ by {
                assert(prefix[a] == users[a] && prefix[b] == users[b]);
            }
        }
        lemma_user_map_lookup(prefix, j);
        assert(prefix[j] == users[j]);
        assert(users[j].username@ != users[users.len() - 1].username@);
    }
}

/// A name that no user has is not in the map.
proof fn lemma_user_map_absent(users: Seq<User>, name: Seq<char>)
    requires
        forall|j: int| 0 <= j < users.len() ==> users[j].username@ != name,
    ensures
        !user_map(users).contains_key(name),
    decreases users.len(),
{
    if users.len() > 0 {
        let prefix = users.drop_last();
        assert forall|j: int| 0 <= j < prefix.len() implies prefix[j].username@ != name by {
            assert(prefix[j] == users[j]);
        }
        lemma_user_map_absent(prefix, name);
    }
}

/// Removing the user at `j` removes its name from the map, when names are
/// unique.
proof fn lemma_user_map_remove(users: Seq<User>, j: int)
    requires
        unique_names(users),
        0 <= j < users.len(),
    ensures
        user_map(users.remove(j)) == user_map(users).remove(users[j].username@),
    decreases users.len(),
{
    let name = users[j].username@;
    let prefix = users.drop_last();
    assert(unique_names(prefix)) by {
        assert forall|a: int, b: int| 0 <= a < b < prefix.len() implies #[trigger] prefix[a].username@
            != #[trigger] prefix[b].username@ by {
            assert(prefix[a] == users[a] && prefix[b] == users[b]);
        }
    }
    if j == users.len() - 1 {
        assert(users.remove(j) =~= prefix);
        assert forall|k: int| 0 <= k < prefix.len() implies prefix[k].username@ != name by {
            assert(prefix[k] == users[k]);
        }
        lemma_user_map_absent(prefix, name);
        assert(user_map(users).remove(name) =~= user_map(prefix));
    } else {
        lemma_user_map_remove(prefix, j);
        assert(users.remove(j).drop_last() =~= prefix.remove(j));
        assert(users.remove(j).last() == users.last());
        assert(users.last().username@ != name);
        assert(prefix[j] == users[j]);
        assert(user_map(users.remove(j)) =~= user_map(users).remove(name));
    }
}

/// Counts the consented users of `users`.
pub open spec fn consented_count(users: Seq<User>) -> nat
    decreases users.len(),
{
    if users.len() == 0 {
        0
    } else {
        consented_count(users.drop_last()) + if users.last().consented {
            1nat
        } else {
            0nat
        }
    }
}

impl Users {
    /// Puts `user` in place of the user at `j`, who has the same name.
    fn replace_at(&mut self, j: usize, user: User)
        requires
            old(self).wf(),
            j < old(self).0@.len(),
            old(self).0@[j as int].username@ == user.username@,
        ensures
            final(self).wf(),
            final(self).by_name() == old(self).by_name().insert(user.username@, user),
    {
        let ghost prev = self.0@;
        proof {
            lemma_user_map_replace(prev, j as int, user);
        }
        self.0.set(j, user);
        proof {
            assert(self.0@ == prev.update(j as int, user));
            assert forall|a: int, b: int| 0 <= a < b < self.0@.len() implies #[trigger] self.0@[a].username@
                != #[trigger] self.0@[b].username@ by {
                assert(self.0@[a].username@ == prev[a].username@);
                assert(self.0@[b].username@ == prev[b].username@);
            }
        }
    }

    /// Records that the user called `name`, with id `id`, spoke at `now`: a
    /// known user stops lurking and is last seen `now`; an unknown one is added,
    /// not consented and not lurking.
    pub fn record_seen(&mut self, id: String, name: String, now: String)
        requires
            old(self).wf(),
        ensures
            final(self).wf(),
            old(self).by_name().contains_key(name@) ==> final(self).by_name() == old(
                self,
            ).by_name().insert(
                name@,
                User { lurk: false, last_seen: now, ..old(self).by_name()[name@] },
            ),
            !old(self).by_name().contains_key(name@) ==> final(self).by_name() == old(
                self,
            ).by_name().insert(
                name@,
                User { id, username: name, consented: false, last_seen: now, lurk: false },
            ),
    {
        match find_user(&self.0, &name) {
            Some(j) => {
                proof {
                    lemma_user_map_lookup(self.0@, j as int);
                }
                let old_user = &self.0[j];
                let updated = User {
                    id: old_user.id.clone(),
                    username: old_user.username.clone(),
                    consented: old_user.consented,
                    last_seen: now,
                    lurk: false,
                };
                self.replace_at(j, updated);
            },
            None => {
                proof {
                    lemma_user_map_absent(self.0@, name@);
                }
                let ghost prev = self.0@;
                self.0.push(User { id, username: name, consented: false, last_seen: now, lurk: false });
                proof {
                    assert(self.0@.drop_last() =~= prev);
                    assert forall|a: int, b: int| 0 <= a < b < self.0@.len() implies #[trigger] self.0@[a].username@
                        != #[trigger] self.0@[b].username@ by {
                        if b < prev.len() {
                            assert(self.0@[a] == prev[a] && self.0@[b] == prev[b]);
                        }
                    }
                }
            },
        }
    }

    /// Sets the consent of the user called `name` and returns what it was;
    /// `None`, with nothing changed, for an unknown name.
    pub fn set_consent(&mut self, name: &String, consented: bool) -> (r: Option<bool>)
        requires
            old(self).wf(),
        ensures
            final(self).wf(),
            !old(self).by_name().contains_key(name@) ==> r is None && final(self).0@ == old(self).0@,
            old(self).by_name().contains_key(name@) ==> r == Some(old(self).by_name()[name@].consented)
                && final(self).by_name() == old(self).by_name().insert(
                name@,
                User { consented, ..old(self).by_name()[name@] },
            ),
    {
        match find_user(&self.0, name) {
            Some(j) => {
                proof {
                    lemma_user_map_lookup(self.0@, j as int);
                }
                let old_user = &self.0[j];
                let before = old_user.consented;
                let updated = User {
                    id: old_user.id.clone(),
                    username: old_user.username.clone(),
                    consented,
                    last_seen: old_user.last_seen.clone(),
                    lurk: old_user.lurk,
                };
                self.replace_at(j, updated);
                Some(before)
            },
            None => {
                proof {
                    lemma_user_map_absent(self.0@, name@);
                }
                None
            },
        }
    }

    /// Marks the user called `name` as lurking and returns whether that user
    /// has consented; `None`, with nothing changed, for an unknown name.
    pub fn set_lurking(&mut self, name: &String) -> (r: Option<bool>)
        requires
            old(self).wf(),
        ensures
            final(self).wf(),
            !old(self).by_name().contains_key(name@) ==> r is None && final(self).0@ == old(self).0@,
            old(self).by_name().contains_key(name@) ==> r == Some(old(self).by_name()[name@].consented)
                && final(self).by_name() == old(self).by_name().insert(
                name@,
                User { lurk: true, ..old(self).by_name()[name@] },
            ),
    {
        match find_user(&self.0, name) {
            Some(j) => {
                proof {
                    lemma_user_map_lookup(self.0@, j as int);
                }
                let old_user = &self.0[j];
                let consented = old_user.consented;
                let updated = User {
                    id: old_user.id.clone(),
                    username: old_user.username.clone(),
                    consented,
                    last_seen: old_user.last_seen.clone(),
                    lurk: true,
                };
                self.replace_at(j, updated);
                Some(consented)
            },
            None => {
                proof {
                    lemma_user_map_absent(self.0@, name@);
                }
                None
            },
        }
    }

    /// Forgets the user called `name`; `false`, with nothing changed, for an
    /// unknown name.
    pub fn remove_user(&mut self, name: &String) -> (found: bool)
        requires
            old(self).wf(),
        ensures
            final(self).wf(),
            found == old(self).by_name().contains_key(name@),
            final(self).by_name() == old(self).by_name().remove(name@),
    {
        match find_user(&self.0, name) {
            Some(j) => {
                let ghost prev = self.0@;
                proof {
                    lemma_user_map_lookup(prev, j as int);
                    lemma_user_map_remove(prev, j as int);
                }
                self.0.remove(j);
                proof {
                    assert forall|a: int, b: int| 0 <= a < b < self.0@.len() implies #[trigger] self.0@[a].username@
                        != #[trigger] self.0@[b].username@ by {
                        let pa = if a < j { a } else { a + 1 };
                        let pb = if b < j { b } else { b + 1 };
                        assert(self.0@[a] == prev[pa] && self.0@[b] == prev[pb]);
                    }
                }
                true
            },
            None => {
                proof {
                    lemma_user_map_absent(self.0@, name@);
                    assert(self.by_name().remove(name@) =~= self.by_name());
                }
                false
            },
        }
    }

    /// Whether no two users share a name.
    pub fn is_well_formed(&self) -> (r: bool)
        ensures
            r == self.wf(),
    {
        let mut b: usize = 0;
        while b < self.0.len()
            invariant
                b <= self.0@.len(),
                forall|x: int, y: int|
                    0 <= x < y < b ==> #[trigger] self.0@[x].username@ != #[trigger] self.0@[y].username@,
            decreases self.0.len() - b,
        {
            let mut a: usize = 0;
            while a < b
                invariant
                    a <= b < self.0@.len(),
                    forall|x: int, y: int|
                        0 <= x < y < b ==> #[trigger] self.0@[x].username@ != #[trigger] self.0@[y].username@,
                    forall|x: int| 0 <= x < a ==> self.0@[x].username@ != self.0@[b as int].username@,
                decreases b - a,
            {
                if self.0[a].username == self.0[b].username {
                    return false;
                }
                a = a + 1;
            }
            b = b + 1;
        }
        true
    }

    /// The number of users and the number of consented users.
    pub fn counts(&self) -> (r: (usize, usize))
        ensures
            r.0 == self.0@.len(),
            r.1 == consented_count(self.0@),
    {
        let mut consented: usize = 0;
        let mut i: usize = 0;
        while i < self.0.len()
            invariant
                i <= self.0@.len(),
                consented == consented_count(self.0@.take(i as int)),
                consented <= i,
            decreases self.0.len() - i,
        {
            proof {
                assert(self.0@.take(i as int + 1).drop_last() =~= self.0@.take(i as int));
            }
            if self.0[i].consented {
                consented = consented + 1;
            }
            i = i + 1;
        }
        proof {
            assert(self.0@.take(self.0@.len() as int) =~= self.0@);
        }
        (self.0.len(), consented)
    }
}

/// The position of the user called `name` in `users`, if any.
fn find_user(users: &Vec<User>, name: &String) -> (r: Option<usize>)
    ensures
        r matches Some(j) ==> j < users@.len() && users@[j as int].username@ == name@,
        r is None ==> forall|k: int| 0 <= k < users@.len() ==> users@[k].username@ != name@,
{
    let mut k: usize = 0;
    while k < users.len()
        invariant
            k <= users@.len(),
            forall|m: int| 0 <= m < k ==> users@[m].username@ != name@,
        decreases users.len() - k,
    {
        if users[k].username == *name {
            return Some(k);
        }
        k = k + 1;
    }
    None
}

/// Replacing the user at `j` by one of the same name is an insert into the map,
/// when names are unique.
proof fn lemma_user_map_replace(users: Seq<User>, j: int, user: User)
    requires
        unique_names(users),
        0 <= j < users.len(),
        users[j].username@ == user.username@,
    ensures
        user_map(users.update(j, user)) == user_map(users).insert(user.username@, user),
    decreases users.len(),
{
    let updated = users.update(j, user);
    if j == users.len() - 1 {
        assert(updated.drop_last() =~= users.drop_last());
        assert(user_map(users).insert(user.username@, user) =~= user_map(users.drop_last()).insert(
            user.username@,
            user,
        ));
    } else {
        let prefix = users.drop_last();
        assert(unique_names(prefix)) by {
            assert forall|a: int, b: int| 0 <= a < b < prefix.len() implies #[trigger] prefix[a].username@
                != #[trigger] prefix[b].username@ by {
                assert(prefix[a] == users[a] && prefix[b] == users[b]);
            }
        }
        lemma_user_map_replace(prefix, j, user);
        assert(updated.drop_last() =~= prefix.update(j, user));
        assert(updated.last() == users.last());
        assert(users[j].username@ != users[users.len() - 1].username@);
        assert(user_map(updated) =~= user_map(users).insert(user.username@, user));
    }
}

} // verus!
