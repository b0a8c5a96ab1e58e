//! Telling Telegram about the bot when it starts.

use vstd::prelude::*;

use crate::command::ABOUT;

verus! {

/// What the bot's profile says in short.
pub const SHORT_DESCRIPTION: &'static str = "Cuts screenshots down to the picture.";

/// What the bot is called.
pub const BOT_NAME: &'static str = "Autocrop";

/// Where the announcement stands.
#[derive(Clone, Copy, Debug, PartialEq, Eq, Structural)]
pub enum Announce {
    /// Register the commands.
    Commands,
    /// Set the short description.
    ShortDescription,
    /// Set the description.
    Description,
    /// Set the name.
    Name,
    /// Everything has been said.
    Published,
    /// Telegram refused something; the rest is left unsaid.
    Abandoned,
}

impl Announce {
    /// What follows a call that succeeded or failed. Telegram rate-limits name
    /// changes hard, so whether the name could be set makes no difference.
    pub open spec fn next(self, success: bool) -> Announce {
        match self {
            Announce::Commands => if success {
                Announce::ShortDescription
            } else {
                Announce::Abandoned
            },
            Announce::ShortDescription => if success {
                Announce::Description
            } else {
                Announce::Abandoned
            },
            Announce::Description => if success {
                Announce::Name
            } else {
                Announce::Abandoned
            },
            Announce::Name => Announce::Published,
            Announce::Published => Announce::Published,
            Announce::Abandoned => Announce::Abandoned,
        }
    }

    /// The text that the call carries.
    pub open spec fn text_of(self) -> Option<Seq<char>> {
        match self {
            Announce::ShortDescription => Some(SHORT_DESCRIPTION@),
            Announce::Description => Some(ABOUT@),
            Announce::Name => Some(BOT_NAME@),
            _ => None,
        }
    }

    /// The first call.
    pub fn start() -> (r: Announce)
        ensures
            r == Announce::Commands,
    {
        Announce::Commands
    }

    /// What follows a call that succeeded or failed.
    pub fn after(self, success: bool) -> (r: Announce)
        ensures
            r == self.next(success),
    {
        match (self, success) {
            (Announce::Commands, true) => Announce::ShortDescription,
            (Announce::ShortDescription, true) => Announce::Description,
            (Announce::Description, true) => Announce::Name,
            (Announce::Name, _) => Announce::Published,
            (Announce::Published, _) => Announce::Published,
            _ => Announce::Abandoned,
        }
    }

    /// The text that the call carries; the commands are none.
    pub fn text(self) -> (r: Option<&'static str>)
        ensures
            match r {
                Some(text) => self.text_of() == Some(text@),
                None => self.text_of() is None,
            },
    {
        match self {
            Announce::ShortDescription => Some(SHORT_DESCRIPTION),
            Announce::Description => Some(ABOUT),
            Announce::Name => Some(BOT_NAME),
            _ => None,
        }
    }

    /// The calls that still have to be made at most.
    pub open spec fn rank(self) -> nat {
        match self {
            Announce::Commands => 4,
            Announce::ShortDescription => 3,
            Announce::Description => 2,
            Announce::Name => 1,
            Announce::Published => 0,
            Announce::Abandoned => 0,
        }
    }
}

/// Every call brings the announcement closer to its end.
pub proof fn lemma_announcement_ends(state: Announce, success: bool)
    ensures
        state.rank() > 0 ==> state.next(success).rank() < state.rank(),
        state.rank() == 0 ==> state.next(success) == state,
{
}

/// What has ended stays ended, as it ended, and has no more to say. Of the four
/// calls only the one that registers the commands carries no text.
pub proof fn lemma_announcement_stays(state: Announce, success: bool)
    ensures
        state == Announce::Published || state == Announce::Abandoned ==> state.next(success)
            == state,
        state.text_of() is None <==> state == Announce::Published || state == Announce::Abandoned
            || state == Announce::Commands,
        success && state != Announce::Abandoned ==> state.next(success) != Announce::Abandoned,
{
}

/// A name that cannot be set does not spoil the announcement: what counts is
/// whether the three calls before it succeeded.
pub proof fn lemma_name_never_blocks(commands: bool, short: bool, description: bool, name: bool)
    ensures
        ({
            let end = Announce::Commands.next(commands).next(short).next(description).next(name);
            end == if commands && short && description {
                Announce::Published
            } else {
                Announce::Abandoned
            }
        }),
{
}

} // verus!
