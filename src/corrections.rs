use rand::rngs::StdRng;
use vstd::prelude::*;

use crate::comebacks::Comebacks;
use crate::jitter::{pick_index, roll_percent};
use crate::settings::Settings;
use crate::templates::{fill_comeback, streamer_tag, user_tag};
use crate::text::{
    contains_or_empty, contains_text, has_match, lower_of, lowercase, occurs_in, replace_all,
    replaced_all,
};

verus! {

/// Whether a chat line, already in lower case, may be corrected under
/// `settings`: it holds "en", corrections are on, and none of the exceptions
/// occurs in it.
pub open spec fn correction_allowed(lowered: Seq<char>, settings: Settings) -> bool {
    &&& has_match(lowered, "en"@)
    &&& settings.enable_corrections
    &&& forall|k: int|
        0 <= k < settings.correction_exceptions@.len() ==> !occurs_in(
            lowered,
            #[trigger] settings.correction_exceptions@[k]@,
        )
}

/// The correction of a chat line already in lower case: every "en" written
/// "ENNE", after a "Correction: " prefix.
pub open spec fn correction_of(lowered: Seq<char>) -> Seq<char> {
    "Correction: "@ + replaced_all(lowered, "en"@, "ENNE"@)
}

/// Writes the correction of `lowered`: see `correction_of`.
pub fn correction_text(lowered: &str) -> (r: String)
    ensures
        r@ == correction_of(lowered@),
{
    proof {
        reveal_strlit("en");
    }
    let fixed = replace_all(lowered, "en", "ENNE");
    let mut out = String::from_str("Correction: ");
    out.append(fixed.as_str());
    out
}

fn any_exception(lowered: &str, exceptions: &Vec<String>) -> (r: bool)
    ensures
        r == exists|k: int| 0 <= k < exceptions@.len() && occurs_in(lowered@, #[trigger] exceptions@[k]@),
{
    let mut k: usize = 0;
    while k < exceptions.len()
        invariant
            k <= exceptions@.len(),
            forall|j: int| 0 <= j < k ==> !occurs_in(lowered@, #[trigger] exceptions@[j]@),
        decreases exceptions.len() - k,
    {
        if contains_or_empty(lowered, exceptions[k].as_str()) {
            return true;
        }
        k = k + 1;
    }
    false
}

/// Whether a chat line, already in lower case, may be corrected: see
/// `correction_allowed`.
pub fn may_correct(lowered: &str, settings: &Settings) -> (r: bool)
    ensures
        r == correction_allowed(lowered@, *settings),
{
    proof {
        reveal_strlit("en");
    }
    contains_text(lowered, "en") && settings.enable_corrections && !any_exception(
        lowered,
        &settings.correction_exceptions,
    )
}

/// The bot's correction of `message`, if it makes one: only when the lower-case
/// message may be corrected, and then with the configured percentage of chance.
pub fn process_corrections(rng: &mut StdRng, message: &str, settings: &Settings) -> (r: Option<
    String,
>)
    ensures
        r matches Some(s) ==> correction_allowed(lower_of(message@), *settings) && s@
            == correction_of(lower_of(message@)),
        !correction_allowed(lower_of(message@), *settings) ==> r is None,
        correction_allowed(lower_of(message@), *settings) && settings.percent_chance_of_correction
            >= 100 ==> r is Some,
{
    let lowered = lowercase(message);
    if !may_correct(lowered.as_str(), settings) {
        return None;
    }
    if roll_percent(rng, settings.percent_chance_of_correction) {
        Some(correction_text(lowered.as_str()))
    } else {
        None
    }
}

/// Whether a chat line, already in lower case, addresses the bot: it holds the
/// bot's lower-case name or "ennegisults".
pub open spec fn addresses_bot(lowered: Seq<char>, lowered_bot_name: Seq<char>) -> bool {
    occurs_in(lowered, lowered_bot_name) || has_match(lowered, "ennegisults"@)
}

/// The bot's comeback to `message` from `sender`, if it makes one: only when
/// comebacks are on, there are some, and the message addresses the bot; then,
/// with the configured percentage of chance, a randomly chosen comeback filled
/// with the sender's and the channel's names.
pub fn process_comebacks(
    rng: &mut StdRng,
    message: &str,
    sender: &str,
    bot_name: &str,
    comebacks: &Comebacks,
    settings: &Settings,
) -> (r: Option<String>)
    ensures
        r is Some ==> settings.enable_comebacks && comebacks.0@.len() > 0 && addresses_bot(
            lower_of(message@),
            lower_of(bot_name@),
        ),
        r matches Some(s) ==> exists|i: int|
            0 <= i < comebacks.0@.len() && s@ == replaced_all(
                replaced_all(#[trigger] comebacks.0@[i].value@, user_tag(), sender@),
                streamer_tag(),
                settings.channel_name@,
            ),
        settings.enable_comebacks && comebacks.0@.len() > 0 && addresses_bot(
            lower_of(message@),
            lower_of(bot_name@),
        ) && settings.percent_chance_of_comeback >= 100 ==> r is Some,
{
    if !settings.enable_comebacks || comebacks.0.len() == 0 {
        return None;
    }
    proof {
        reveal_strlit("ennegisults");
    }
    let lowered = lowercase(message);
    let lowered_name = lowercase(bot_name);
    let addressed = contains_or_empty(lowered.as_str(), lowered_name.as_str()) || contains_text(
        lowered.as_str(),
        "ennegisults",
    );
    if !addressed || !roll_percent(rng, settings.percent_chance_of_comeback) {
        return None;
    }
    match pick_index(rng, comebacks.0.len()) {
        Some(i) => Some(
            fill_comeback(comebacks.0[i].value.as_str(), sender, settings.channel_name.as_str()),
        ),
        None => None,
    }
}

} // verus!
