use vstd::prelude::*;

verus! {

/// The older form of the bot's configuration, with one fixed period per
/// periodic source; kept to read stored configuration written in it.
#[derive(Debug)]
pub struct BotInfo {
    pub channel_name: String,
    pub auto_connect_on_startup: bool,
    pub enable_whispers: bool,
    pub users_allowed_to_whisper: Vec<String>,
    pub enable_announcements: bool,
    pub randomize_announcements: bool,
    pub time_between_announcements: u32,
    pub enable_insults: bool,
    pub time_between_insults: u32,
    pub lurk_time: u32,
    pub enable_comebacks: bool,
    pub percent_chance_of_comeback: u32,
    pub comeback_exceptions: Vec<String>,
    pub enable_corrections: bool,
    pub percent_chance_of_correction: u32,
    pub correction_exceptions: Vec<String>,
}

impl Default for BotInfo {
    fn default() -> (r: Self)
        ensures
            r.channel_name@ == Seq::<char>::empty(),
            !r.auto_connect_on_startup,
            !r.enable_whispers,
            r.users_allowed_to_whisper@ == Seq::<String>::empty(),
            !r.enable_announcements,
            !r.randomize_announcements,
            r.time_between_announcements == 300,
            !r.enable_insults,
            r.time_between_insults == 300,
            r.lurk_time == 5,
            !r.enable_comebacks,
            r.percent_chance_of_comeback == 20,
            r.comeback_exceptions@ == Seq::<String>::empty(),
            !r.enable_corrections,
            r.percent_chance_of_correction == 20,
            r.correction_exceptions@ == Seq::<String>::empty(),
    {
        BotInfo {
            channel_name: String::new(),
            auto_connect_on_startup: false,
            enable_whispers: false,
            users_allowed_to_whisper: Vec::new(),
            enable_announcements: false,
            randomize_announcements: false,
            time_between_announcements: 300,
            enable_insults: false,
            time_between_insults: 300,
            lurk_time: 5,
            enable_comebacks: false,
            percent_chance_of_comeback: 20,
            comeback_exceptions: Vec::new(),
            enable_corrections: false,
            percent_chance_of_correction: 20,
            correction_exceptions: Vec::new(),
        }
    }
}

} // verus!
