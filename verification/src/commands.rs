//! The bot's slash commands.
use vstd::prelude::*;

use crate::text::str_eq;

verus! {

/// Every command a user can send the bot.
#[derive(Debug, Clone, Copy, PartialEq, Eq, Structural)]
pub enum Command {
    /// Subscribe, or greet an already subscribed user.
    Start,
    /// Explain what the bot does.
    Help,
    /// Open the daily-events option settings.
    DailyEventsSettings,
    /// Open the send-time settings.
    SetupSchedule,
    /// Show the interactive statistics.
    GetStat,
    /// Unsubscribe from all polls.
    Stop,
}

/// The message text of each command.
pub open spec fn spec_command_text(c: Command) -> Seq<char> {
    match c {
        Command::Start => "/start"@,
        Command::Help => "/help"@,
        Command::DailyEventsSettings => "/daily_events_settings"@,
        Command::SetupSchedule => "/setup_schedule"@,
        Command::GetStat => "/get_stat"@,
        Command::Stop => "/stop"@,
    }
}

impl Command {
    /// The message text of this command.
    pub fn text(self) -> (r: &'static str)
        ensures
            r@ == spec_command_text(self),
    {
        match self {
            Command::Start => "/start",
            Command::Help => "/help",
            Command::DailyEventsSettings => "/daily_events_settings",
            Command::SetupSchedule => "/setup_schedule",
            Command::GetStat => "/get_stat",
            Command::Stop => "/stop",
        }
    }

    /// Read a message text as a command, when it is exactly one.
    pub fn parse(text: &str) -> (r: Option<Command>)
        ensures
            r matches Some(c) ==> text@ == spec_command_text(c),
            r is None ==> forall|c: Command| text@ != spec_command_text(c),
    {
        if str_eq(text, "/start") {
            Some(Command::Start)
        } else if str_eq(text, "/help") {
            Some(Command::Help)
        } else if str_eq(text, "/daily_events_settings") {
            Some(Command::DailyEventsSettings)
        } else if str_eq(text, "/setup_schedule") {
            Some(Command::SetupSchedule)
        } else if str_eq(text, "/get_stat") {
            Some(Command::GetStat)
        } else if str_eq(text, "/stop") {
            Some(Command::Stop)
        } else {
            proof {
                assert forall|c: Command| text@ != spec_command_text(c) by {
                    match c {
                        Command::Start => {
                            assert(text@ != "/start"@);
                        },
                        Command::Help => {
                            assert(text@ != "/help"@);
                        },
                        Command::DailyEventsSettings => {
                            assert(text@ != "/daily_events_settings"@);
                        },
                        Command::SetupSchedule => {
                            assert(text@ != "/setup_schedule"@);
                        },
                        Command::GetStat => {
                            assert(text@ != "/get_stat"@);
                        },
                        Command::Stop => {
                            assert(text@ != "/stop"@);
                        },
                    }
                }
            }
            None
        }
    }
}

} // verus!
