use vstd::prelude::*;

use crate::text::same_text;

verus! {

/// A message the bot posts periodically.
#[derive(Debug)]
pub struct Announcement {
    pub id: String,
    pub value: String,
}

impl Clone for Announcement {
    fn clone(&self) -> (r: Self)
        ensures
            r == *self,
    {
        Announcement { id: self.id.clone(), value: self.value.clone() }
    }
}

/// The announcements, and which one comes next when they are posted in order.
#[derive(Debug)]
pub struct Announcements {
    pub announcements: Vec<Announcement>,
    pub next_announcement_index: usize,
}

/// The position posted from when the rotation stands at `index` over `len`
/// announcements: an index past the end starts over at the first.
pub open spec fn rotation_position(index: usize, len: nat) -> nat {
    if index < len {
        index as nat
    } else {
        0
    }
}

impl Announcements {
    /// The announcements `announcements`, with the rotation at the first.
    pub fn from(announcements: Vec<Announcement>) -> (r: Self)
        ensures
            r.announcements@ == announcements@,
            r.next_announcement_index == 0,
    {
        Announcements { announcements, next_announcement_index: 0 }
    }

    /// The first position holding an announcement with id `id`.
    fn position_of(&self, id: &str) -> (r: Option<usize>)
        ensures
            r matches Some(k) ==> k < self.announcements@.len() && self.announcements@[k as int].id@
                == id@ && forall|j: int| 0 <= j < k ==> self.announcements@[j].id@ != id@,
            r is None ==> forall|j: int|
                0 <= j < self.announcements@.len() ==> self.announcements@[j].id@ != id@,
    {
        let mut k: usize = 0;
        while k < self.announcements.len()
            invariant
                k <= self.announcements@.len(),
                forall|j: int| 0 <= j < k ==> self.announcements@[j].id@ != id@,
            decreases self.announcements.len() - k,
        {
            if same_text(self.announcements[k].id.as_str(), id) {
                return Some(k);
            }
            k = k + 1;
        }
        None
    }

    /// Sets the text of the first announcement with id `id`; `false`, with
    /// nothing changed, when there is none.
    pub fn update_announcement(&mut self, id: &str, value: String) -> (found: bool)
        ensures
            found == exists|j: int|
                0 <= j < old(self).announcements@.len() && #[trigger] old(self).announcements@[j].id@
                    == id@,
            final(self).next_announcement_index == old(self).next_announcement_index,
            !found ==> final(self).announcements@ == old(self).announcements@,
            found ==> exists|k: int|
                0 <= k < old(self).announcements@.len() && old(self).announcements@[k].id@ == id@
                    && (forall|j: int| 0 <= j < k ==> #[trigger] old(self).announcements@[j].id@ != id@)
                    && final(self).announcements@ == old(self).announcements@.update(
                    k,
                    Announcement { id: old(self).announcements@[k].id, value },
                ),
    {
        match self.position_of(id) {
            Some(k) => {
                let ghost before = self.announcements@;
                let kept = self.announcements[k].id.clone();
                self.announcements.set(k, Announcement { id: kept, value });
                proof {
                    assert(self.announcements@ =~= before.update(
                        k as int,
                        Announcement { id: before[k as int].id, value },
                    ));
                }
                true
            },
            None => false,
        }
    }

    /// Stores `announcement`: it takes the text of the first announcement with
    /// its id where there is one, and is appended otherwise.
    pub fn save_announcement(&mut self, announcement: Announcement)
        ensures
            final(self).next_announcement_index == old(self).next_announcement_index,
            (forall|j: int|
                0 <= j < old(self).announcements@.len() ==> #[trigger] old(self).announcements@[j].id@
                    != announcement.id@) ==> final(self).announcements@ == old(
                self,
            ).announcements@.push(announcement),
            (exists|j: int|
                0 <= j < old(self).announcements@.len() && #[trigger] old(self).announcements@[j].id@
                    == announcement.id@) ==> exists|k: int|
                0 <= k < old(self).announcements@.len() && old(self).announcements@[k].id@
                    == announcement.id@ && (forall|j: int|
                    0 <= j < k ==> #[trigger] old(self).announcements@[j].id@ != announcement.id@)
                    && final(self).announcements@ == old(self).announcements@.update(
                    k,
                    Announcement { id: old(self).announcements@[k].id, value: announcement.value },
                ),
    {
        match self.position_of(announcement.id.as_str()) {
            Some(k) => {
                let ghost before = self.announcements@;
                let kept = self.announcements[k].id.clone();
                self.announcements.set(k, Announcement { id: kept, value: announcement.value });
                proof {
                    assert(self.announcements@ =~= before.update(
                        k as int,
                        Announcement { id: before[k as int].id, value: announcement.value },
                    ));
                }
            },
            None => {
                self.announcements.push(announcement);
            },
        }
    }

    /// Removes the first announcement with id `id`; `false`, with nothing
    /// changed, when there is none.
    pub fn delete_announcement(&mut self, id: &str) -> (found: bool)
        ensures
            found == exists|j: int|
                0 <= j < old(self).announcements@.len() && #[trigger] old(self).announcements@[j].id@
                    == id@,
            final(self).next_announcement_index == old(self).next_announcement_index,
            !found ==> final(self).announcements@ == old(self).announcements@,
            found ==> exists|k: int|
                0 <= k < old(self).announcements@.len() && old(self).announcements@[k].id@ == id@
                    && (forall|j: int| 0 <= j < k ==> #[trigger] old(self).announcements@[j].id@ != id@)
                    && final(self).announcements@ == old(self).announcements@.remove(k),
    {
        match self.position_of(id) {
            Some(k) => {
                self.announcements.remove(k);
                true
            },
            None => false,
        }
    }

    /// Takes the announcement at the rotation's position and moves the rotation
    /// on by one, wrapping after the last; `None`, with nothing changed, when
    /// there are no announcements.
    pub fn next_in_rotation(&mut self) -> (r: Option<Announcement>)
        ensures
            final(self).announcements@ == old(self).announcements@,
            old(self).announcements@.len() == 0 ==> r is None && final(self).next_announcement_index
                == old(self).next_announcement_index,
            old(self).announcements@.len() > 0 ==> {
                let p = rotation_position(
                    old(self).next_announcement_index,
                    old(self).announcements@.len(),
                );
                &&& r == Some(old(self).announcements@[p as int])
                &&& final(self).next_announcement_index == (p + 1) % old(self).announcements@.len()
            },
    {
        let len = self.announcements.len();
        if len == 0 {
            return None;
        }
        let index = if self.next_announcement_index < len {
            self.next_announcement_index
        } else {
            0
        };
        let chosen = self.announcements[index].clone();
        self.next_announcement_index = (index + 1) % len;
        Some(chosen)
    }
}

} // verus!
