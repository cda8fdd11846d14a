use vstd::prelude::*;

use crate::text::same_text;

verus! {

/// A reply template for when a chatter addresses the bot.
#[derive(Debug)]
pub struct Comeback {
    pub id: String,
    pub value: String,
}

/// All comeback templates.
#[derive(Debug)]
pub struct Comebacks(pub Vec<Comeback>);

impl Comebacks {
    /// The first position holding a comeback with id `id`.
    fn position_of(&self, id: &str) -> (r: Option<usize>)
        ensures
            r matches Some(k) ==> k < self.0@.len() && self.0@[k as int].id@ == id@ && forall|j: int|
                0 <= j < k ==> self.0@[j].id@ != id@,
            r is None ==> forall|j: int| 0 <= j < self.0@.len() ==> self.0@[j].id@ != id@,
    {
        let mut k: usize = 0;
        while k < self.0.len()
            invariant
                k <= self.0@.len(),
                forall|j: int| 0 <= j < k ==> self.0@[j].id@ != id@,
            decreases self.0.len() - k,
        {
            if same_text(self.0[k].id.as_str(), id) {
                return Some(k);
            }
            k = k + 1;
        }
        None
    }

    /// Sets the text of the first comeback with the id of `comeback` to its
    /// text; `false`, with nothing changed, when there is none.
    pub fn update_comeback(&mut self, comeback: Comeback) -> (found: bool)
        ensures
            found == exists|j: int| 0 <= j < old(self).0@.len() && #[trigger] old(self).0@[j].id@ == comeback.id@,
            !found ==> final(self).0@ == old(self).0@,
            found ==> exists|k: int|
                0 <= k < old(self).0@.len() && old(self).0@[k].id@ == comeback.id@ && (forall|j: int|
                    0 <= j < k ==> #[trigger] old(self).0@[j].id@ != comeback.id@) && final(self).0@
                    == old(self).0@.update(k, Comeback { id: old(self).0@[k].id, value: comeback.value }),
    {
        match self.position_of(comeback.id.as_str()) {
            Some(k) => {
                let ghost before = self.0@;
                let kept = self.0[k].id.clone();
                self.0.set(k, Comeback { id: kept, value: comeback.value });
                proof {
                    assert(self.0@ =~= before.update(
                        k as int,
                        Comeback { id: before[k as int].id, value: comeback.value },
                    ));
                }
                true
            },
            None => false,
        }
    }

    /// Removes the first comeback with id `id`; `false`, with nothing changed,
    /// when there is none.
    pub fn delete_comeback(&mut self, id: &str) -> (found: bool)
        ensures
            found == exists|j: int| 0 <= j < old(self).0@.len() && #[trigger] old(self).0@[j].id@ == id@,
            !found ==> final(self).0@ == old(self).0@,
            found ==> exists|k: int|
                0 <= k < old(self).0@.len() && old(self).0@[k].id@ == id@ && (forall|j: int|
                    0 <= j < k ==> #[trigger] old(self).0@[j].id@ != id@) && final(self).0@ == old(
                    self,
                ).0@.remove(k),
    {
        match self.position_of(id) {
            Some(k) => {
                self.0.remove(k);
                true
            },
            None => false,
        }
    }
}

} // verus!
