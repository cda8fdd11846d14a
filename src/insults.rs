use vstd::prelude::*;

use crate::text::same_text;

verus! {

/// What an insult may be used for.
#[derive(Clone, Copy, Debug, PartialEq, Eq, Structural, Hash)]
pub enum InsultTag {
    Insult,
    Consent,
    Unconsent,
    Raid,
    Lurk,
}

/// An insult template, with the uses it is tagged for.
#[derive(Debug)]
pub struct Insult {
    pub id: String,
    pub value: String,
    pub tags: Vec<InsultTag>,
}

/// `a` and `b` hold the same text and the same tags.
pub open spec fn same_insult(a: Insult, b: Insult) -> bool {
    a.id == b.id && a.value == b.value && a.tags@ == b.tags@
}

impl Clone for Insult {
    fn clone(&self) -> (r: Self)
        ensures
            same_insult(r, *self),
    {
        let tags = self.tags.clone();
        proof {
            assert(tags@ =~= self.tags@);
        }
        Insult { id: self.id.clone(), value: self.value.clone(), tags }
    }
}

/// All insult templates.
#[derive(Debug)]
pub struct Insults(pub Vec<Insult>);

impl Insults {
    /// The first position holding an insult with id `id`.
    fn position_of(&self, id: &str) -> (r: Option<usize>)
        ensures
            r matches Some(k) ==> k < self.0@.len() && self.0@[k as int].id@ == id@ && forall|j: int|
                0 <= j < k ==> self.0@[j].id@ != id@,
            r is None ==> forall|j: int| 0 <= j < self.0@.len() ==> self.0@[j].id@ != id@,
    {
        let mut k: usize = 0;
        while k < self.0.len()
            invariant
                k <= self.0@.len(),
                forall|j: int| 0 <= j < k ==> self.0@[j].id@ != id@,
            decreases self.0.len() - k,
        {
            if same_text(self.0[k].id.as_str(), id) {
                return Some(k);
            }
            k = k + 1;
        }
        None
    }

    /// Puts `insult` in place of the first insult with its id; `false`, with
    /// nothing changed, when there is none.
    pub fn update_insult(&mut self, insult: Insult) -> (found: bool)
        ensures
            found == exists|j: int| 0 <= j < old(self).0@.len() && #[trigger] old(self).0@[j].id@ == insult.id@,
            !found ==> final(self).0@ == old(self).0@,
            found ==> exists|k: int|
                0 <= k < old(self).0@.len() && old(self).0@[k].id@ == insult.id@ && (forall|j: int|
                    0 <= j < k ==> #[trigger] old(self).0@[j].id@ != insult.id@) && final(self).0@ == old(
                    self,
                ).0@.update(k, insult),
    {
        match self.position_of(insult.id.as_str()) {
            Some(k) => {
                self.0.set(k, insult);
                true
            },
            None => false,
        }
    }

    /// Tags every untagged insult as a plain insult and returns how many it
    /// tagged; tagged insults, and everything else, stay as they were.
    pub fn tag_untagged(&mut self) -> (count: usize)
        ensures
            final(self).0@.len() == old(self).0@.len(),
            forall|k: int|
                0 <= k < old(self).0@.len() ==> {
                    let before = #[trigger] old(self).0@[k];
                    let after = final(self).0@[k];
                    &&& after.id == before.id
                    &&& after.value == before.value
                    &&& before.tags@.len() == 0 ==> after.tags@ == seq![InsultTag::Insult]
                    &&& before.tags@.len() > 0 ==> after.tags@ == before.tags@
                },
            count == untagged_count(old(self).0@),
    {
        let ghost start = self.0@;
        let mut count: usize = 0;
        let mut i: usize = 0;
        while i < self.0.len()
            invariant
                i <= self.0@.len(),
                self.0@.len() == start.len(),
                count == untagged_count(start.take(i as int)),
                count <= i,
                forall|k: int|
                    i <= k < start.len() ==> #[trigger] self.0@[k] == start[k],
                forall|k: int|
                    0 <= k < i ==> {
                        let before = #[trigger] start[k];
                        let after = self.0@[k];
                        &&& after.id == before.id
                        &&& after.value == before.value
                        &&& before.tags@.len() == 0 ==> after.tags@ == seq![InsultTag::Insult]
                        &&& before.tags@.len() > 0 ==> after.tags@ == before.tags@
                    },
            decreases start.len() - i,
        {
            proof {
                assert(start.take(i as int + 1).drop_last() =~= start.take(i as int));
                assert(start.take(i as int + 1).last() == start[i as int]);
            }
            if self.0[i].tags.len() == 0 {
                let mut tags: Vec<InsultTag> = Vec::new();
                tags.push(InsultTag::Insult);
                let id = self.0[i].id.clone();
                let value = self.0[i].value.clone();
                self.0.set(i, Insult { id, value, tags });
                count = count + 1;
            }
            i = i + 1;
        }
        proof {
            assert(start.take(start.len() as int) =~= start);
        }
        count
    }

    /// Removes the first insult with id `id`; `false`, with nothing changed,
    /// when there is none.
    pub fn delete_insult(&mut self, id: &str) -> (found: bool)
        ensures
            found == exists|j: int| 0 <= j < old(self).0@.len() && #[trigger] old(self).0@[j].id@ == id@,
            !found ==> final(self).0@ == old(self).0@,
            found ==> exists|k: int|
                0 <= k < old(self).0@.len() && old(self).0@[k].id@ == id@ && (forall|j: int|
                    0 <= j < k ==> #[trigger] old(self).0@[j].id@ != id@) && final(self).0@ == old(
                    self,
                ).0@.remove(k),
    {
        match self.position_of(id) {
            Some(k) => {
                self.0.remove(k);
                true
            },
            None => false,
        }
    }
}

/// How many of `insults` have no tags.
pub open spec fn untagged_count(insults: Seq<Insult>) -> nat
    decreases insults.len(),
{
    if insults.len() == 0 {
        0
    } else {
        untagged_count(insults.drop_last()) + if insults.last().tags@.len() == 0 {
            1nat
        } else {
            0nat
        }
    }
}

/// Returned by a shutdown of an insult loop that is not running.
#[derive(Debug, PartialEq, Eq, Structural)]
pub enum InsultThreadShutdownError {
    ThreadNotRunning,
}

/// Whether `insult` passes `filter`: every insult passes no filter, and
/// otherwise an insult passes when one of its tags is in the filter.
pub open spec fn passes_filter(insult: Insult, filter: Option<Seq<InsultTag>>) -> bool {
    match filter {
        None => true,
        Some(tags) => exists|t: int| 0 <= t < insult.tags@.len() && tags.contains(insult.tags@[t]),
    }
}

/// The tags of an optional filter.
pub open spec fn tag_filter(filter: Option<Vec<InsultTag>>) -> Option<Seq<InsultTag>> {
    match filter {
        Some(tags) => Some(tags@),
        None => None,
    }
}

/// The insults of `insults` that pass `filter`, in their order.
pub open spec fn filtered(insults: Seq<Insult>, filter: Option<Seq<InsultTag>>) -> Seq<Insult>
    decreases insults.len(),
{
    if insults.len() == 0 {
        Seq::empty()
    } else {
        let before = filtered(insults.drop_last(), filter);
        if passes_filter(insults.last(), filter) {
            before.push(insults.last())
        } else {
            before
        }
    }
}

fn contains_tag(tags: &Vec<InsultTag>, tag: InsultTag) -> (r: bool)
    ensures
        r == tags@.contains(tag),
{
    let mut k: usize = 0;
    while k < tags.len()
        invariant
            k <= tags@.len(),
            forall|m: int| 0 <= m < k ==> tags@[m] != tag,
        decreases tags.len() - k,
    {
        if tags[k] == tag {
            return true;
        }
        k = k + 1;
    }
    false
}

fn insult_passes(insult: &Insult, filter: &Option<Vec<InsultTag>>) -> (r: bool)
    ensures
        r == passes_filter(*insult, tag_filter(*filter)),
{
    match filter {
        None => true,
        Some(tags) => {

            let mut k: usize = 0;
            while k < insult.tags.len()
                invariant
                    tag_filter(*filter) == Some(tags@),
                    k <= insult.tags@.len(),
                    forall|m: int| 0 <= m < k ==> !tags@.contains(insult.tags@[m]),
                decreases insult.tags.len() - k,
            {
                if contains_tag(tags, insult.tags[k]) {
                    proof {
                        assert(tags@.contains(insult.tags@[k as int]));
                    }
                    return true;
                }
                k = k + 1;
            }
            false
        },
    }
}

/// Copies of the insults that `filter` lets through, in order: all of them
/// without a filter, else those with at least one tag in the filter.
pub fn filter_insults(insults: &Vec<Insult>, filter: &Option<Vec<InsultTag>>) -> (r: Vec<Insult>)
    ensures
        r@.len() == filtered(insults@, tag_filter(*filter)).len(),
        forall|k: int|
            0 <= k < r@.len() ==> same_insult(r@[k], #[trigger] filtered(insults@, tag_filter(*filter))[k]),
{
    let ghost f = tag_filter(*filter);
    let mut out: Vec<Insult> = Vec::new();
    let mut i: usize = 0;
    while i < insults.len()
        invariant
            f == tag_filter(*filter),
            i <= insults@.len(),
            out@.len() == filtered(insults@.take(i as int), f).len(),
            forall|k: int|
                0 <= k < out@.len() ==> same_insult(out@[k], #[trigger] filtered(insults@.take(i as int), f)[k]),
        decreases insults.len() - i,
    {
        let ghost prev = out@;
        let ghost prefix = insults@.take(i as int + 1);
        proof {
            assert(prefix.drop_last() =~= insults@.take(i as int));
            assert(prefix.last() == insults@[i as int]);
        }
        if insult_passes(&insults[i], filter) {
            out.push(insults[i].clone());
            proof {
                assert(filtered(prefix, f) == filtered(insults@.take(i as int), f).push(insults@[i as int]));
                assert forall|k: int| 0 <= k < out@.len() implies same_insult(out@[k], #[trigger] filtered(prefix, f)[k]) by {
                    if k < prev.len() {
                        assert(out@[k] == prev[k]);
                    }
                }
            }
        } else {
            proof {
                assert(filtered(prefix, f) == filtered(insults@.take(i as int), f));
            }
        }
        i = i + 1;
    }
    proof {
        assert(insults@.take(insults@.len() as int) =~= insults@);
    }
    out
}

} // verus!
