use rand::rngs::StdRng;
use vstd::prelude::*;

use crate::jitter::random_order;
use crate::text::{
    contains_text, has_match, replace_all, replace_first, replaced_all, replaced_first,
};

verus! {

/// Stands for the channel's name.
pub open spec fn streamer_tag() -> Seq<char> {
    "{{streamer}}"@
}

/// Stands for the user a message is aimed at.
pub open spec fn user_tag() -> Seq<char> {
    "{{user}}"@
}

/// Stands for a different randomly chosen user at each occurrence.
pub open spec fn random_tag() -> Seq<char> {
    "{{random}}"@
}

/// Stands for the application's version.
pub open spec fn version_tag() -> Seq<char> {
    "{{version}}"@
}

/// The texts of `v`.
pub open spec fn texts(v: Seq<String>) -> Seq<Seq<char>> {
    v.map_values(|s: String| s@)
}

/// Fills the random-user tags of `s` one at a time, the first remaining tag
/// with the next of `picks`; `None` when the picks run out first.
pub open spec fn filled_randoms(s: Seq<char>, picks: Seq<Seq<char>>) -> Option<Seq<char>>
    decreases picks.len(),
{
    if !has_match(s, random_tag()) {
        Some(s)
    } else if picks.len() == 0 {
        None
    } else {
        filled_randoms(replaced_first(s, random_tag(), picks[0]), picks.drop_first())
    }
}

/// An insult template filled in: the channel name for each streamer tag; then,
/// if a user tag remains, `target` for every user tag, or without a target the
/// first of `picks`; then the random-user tags from the picks left. `None` when
/// the picks run out.
pub open spec fn filled_insult(
    template: Seq<char>,
    channel: Seq<char>,
    target: Option<Seq<char>>,
    picks: Seq<Seq<char>>,
) -> Option<Seq<char>> {
    let s = replaced_all(template, streamer_tag(), channel);
    if has_match(s, user_tag()) {
        match target {
            Some(name) => filled_randoms(replaced_all(s, user_tag(), name), picks),
            None => if picks.len() == 0 {
                None
            } else {
                filled_randoms(replaced_all(s, user_tag(), picks[0]), picks.drop_first())
            },
        }
    } else {
        filled_randoms(s, picks)
    }
}

/// An announcement template filled in: the channel name for each streamer tag,
/// `v` and the version for each version tag, then the random-user tags from
/// `picks`.
pub open spec fn filled_announcement(
    template: Seq<char>,
    channel: Seq<char>,
    version: Seq<char>,
    picks: Seq<Seq<char>>,
) -> Option<Seq<char>> {
    let s = replaced_all(template, streamer_tag(), channel);
    filled_randoms(replaced_all(s, version_tag(), "v"@ + version), picks)
}

proof fn lemma_tags_nonempty()
    ensures
        streamer_tag().len() > 0,
        user_tag().len() > 0,
        random_tag().len() > 0,
        version_tag().len() > 0,
{
    reveal_strlit("{{streamer}}");
    reveal_strlit("{{user}}");
    reveal_strlit("{{random}}");
    reveal_strlit("{{version}}");
}

/// Fills the random-user tags of `text` from `picks`, starting at `picks[start]`.
fn fill_randoms(text: String, picks: &Vec<String>, start: usize) -> (r: Option<String>)
    requires
        start <= picks@.len(),
    ensures
        r matches Some(s) ==> filled_randoms(text@, texts(picks@).skip(start as int)) == Some(s@),
        r is None ==> filled_randoms(text@, texts(picks@).skip(start as int)) is None,
{
    proof {
        lemma_tags_nonempty();
    }
    let ghost all = texts(picks@);
    let mut msg = text;
    let mut k = start;
    while contains_text(msg.as_str(), "{{random}}")
        invariant
            start <= k <= picks@.len(),
            all == texts(picks@),
            random_tag().len() > 0,
            filled_randoms(text@, all.skip(start as int)) == filled_randoms(msg@, all.skip(k as int)),
        decreases picks@.len() - k,
    {
        if k >= picks.len() {
            return None;
        }
        proof {
            assert(all.skip(k as int).drop_first() =~= all.skip(k + 1));
            assert(all.skip(k as int)[0] == picks@[k as int]@);
        }
        msg = replace_first(msg.as_str(), "{{random}}", picks[k].as_str());
        k = k + 1;
    }
    Some(msg)
}

/// Fills an insult template with exact picks: see `filled_insult`.
pub fn fill_insult(template: &str, channel: &str, target: Option<&str>, picks: &Vec<String>) -> (r:
    Option<String>)
    ensures
        r matches Some(s) ==> filled_insult(
            template@,
            channel@,
            match target {
                Some(t) => Some(t@),
                None => None,
            },
            texts(picks@),
        ) == Some(s@),
        r is None ==> filled_insult(
            template@,
            channel@,
            match target {
                Some(t) => Some(t@),
                None => None,
            },
            texts(picks@),
        ) is None,
{
    proof {
        lemma_tags_nonempty();
        assert(texts(picks@).skip(0) =~= texts(picks@));
    }
    let s = replace_all(template, "{{streamer}}", channel);
    if contains_text(s.as_str(), "{{user}}") {
        match target {
            Some(name) => fill_randoms(replace_all(s.as_str(), "{{user}}", name), picks, 0),
            None => {
                if picks.len() == 0 {
                    None
                } else {
                    proof {
                        assert(texts(picks@).skip(1) =~= texts(picks@).drop_first());
                    }
                    fill_randoms(replace_all(s.as_str(), "{{user}}", picks[0].as_str()), picks, 1)
                }
            },
        }
    } else {
        fill_randoms(s, picks, 0)
    }
}

/// Fills an announcement template with exact picks: see `filled_announcement`.
pub fn fill_announcement(template: &str, channel: &str, version: &str, picks: &Vec<String>) -> (r:
    Option<String>)
    ensures
        r matches Some(s) ==> filled_announcement(template@, channel@, version@, texts(picks@))
            == Some(s@),
        r is None ==> filled_announcement(template@, channel@, version@, texts(picks@)) is None,
{
    proof {
        lemma_tags_nonempty();
        assert(texts(picks@).skip(0) =~= texts(picks@));
    }
    let s = replace_all(template, "{{streamer}}", channel);
    let mut label = String::from_str("v");
    label.append(version);
    let s = replace_all(s.as_str(), "{{version}}", label.as_str());
    fill_randoms(s, picks, 0)
}

/// A comeback template filled in: `sender` for every user tag, then the
/// channel name for every streamer tag.
pub fn fill_comeback(template: &str, sender: &str, channel: &str) -> (r: String)
    ensures
        r@ == replaced_all(replaced_all(template@, user_tag(), sender@), streamer_tag(), channel@),
{
    proof {
        lemma_tags_nonempty();
    }
    let s = replace_all(template, "{{user}}", sender);
    replace_all(s.as_str(), "{{streamer}}", channel)
}

/// Fills an insult template, picking users for the user and random-user tags
/// at random and without repeats from `pool`: the result is `filled_insult` for
/// some order of the pool.
pub fn format_insult(
    rng: &mut StdRng,
    template: &str,
    channel: &str,
    target: Option<&str>,
    pool: Vec<String>,
) -> (r: Option<String>)
    ensures
        exists|order: Seq<String>|
            #![trigger order.to_multiset()]
            order.to_multiset() == pool@.to_multiset() && filled_insult(
                template@,
                channel@,
                match target {
                    Some(t) => Some(t@),
                    None => None,
                },
                texts(order),
            ) == match r {
                Some(s) => Some(s@),
                None => None,
            },
{
    let order = random_order(rng, pool);
    let r = fill_insult(template, channel, target, &order);
    proof {
        assert(order@.to_multiset() == pool@.to_multiset());
    }
    r
}

/// Fills an announcement template, picking users for the random-user tags at
/// random and without repeats from `pool`: the result is
/// `filled_announcement` for some order of the pool.
pub fn format_announcement(
    rng: &mut StdRng,
    template: &str,
    channel: &str,
    version: &str,
    pool: Vec<String>,
) -> (r: Option<String>)
    ensures
        exists|order: Seq<String>|
            #![trigger order.to_multiset()]
            order.to_multiset() == pool@.to_multiset() && filled_announcement(
                template@,
                channel@,
                version@,
                texts(order),
            ) == match r {
                Some(s) => Some(s@),
                None => None,
            },
{
    let order = random_order(rng, pool);
    let r = fill_announcement(template, channel, version, &order);
    proof {
        assert(order@.to_multiset() == pool@.to_multiset());
    }
    r
}

} // verus!
