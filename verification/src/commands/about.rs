//! `/about`: what the bot is and where it comes from.

use vstd::prelude::*;
use vstd::string::StringExecFns;
use crate::commands::{embed_message, embed_shape, rich_embed, single_embed_message, Command, Input};
use crate::discord::{
    ApplicationCommandOption, AutocompleteInteractionCallbackData, MessagesInteractionCallbackData,
};
use crate::utils::InteractionError;

verus! {

/// The `/about` command.
pub struct About {}

pub open spec fn about_text() -> Seq<char> {
    "This bot made by bryanli#2718 is the TC bot for [Kusanali mains](https://discord.gg/kusanali). You can invite the bot at <https://kusanalimains.com/invite/>. The source code is all open source and can be found [here](https://github.com/Bryli06/akasha-serverless). As this was designed to be a serverless discord bot, it is hosted for free on cloudflare workers!"@
}

/// The options `/about` is registered with.
pub open spec fn about_options(res: Option<Vec<ApplicationCommandOption>>) -> bool {
    res is None
}

impl Command for About {
    fn name(&self) -> (res: String)
        ensures
            res@ == "about"@,
    {
        String::from_str("about")
    }

    fn description(&self) -> (res: String)
        ensures
            res@ == "How does this bot work"@,
    {
        String::from_str("How does this bot work")
    }

    fn options(&self) -> (res: Option<Vec<ApplicationCommandOption>>)
        ensures
            about_options(res),
    {
        None
    }

    fn autocomplete(&self, input: &Input) -> (res: Result<
        Option<AutocompleteInteractionCallbackData>,
        InteractionError,
    >)
        ensures
            res == Ok::<Option<AutocompleteInteractionCallbackData>, InteractionError>(None),
    {
        Ok(None)
    }
}

impl About {
    /// Answers with an embed that tells about the bot.
    pub fn respond(&self, input: &Input) -> (res: Result<
        MessagesInteractionCallbackData,
        InteractionError,
    >)
        ensures
            res matches Ok(m) && m.embeds matches Some(es) && es@.len() == 1 && embed_message(
                m,
                es@[0],
                None,
            ) && embed_shape(es@[0], "About this bot"@, about_text(), 0x198754)
                && es@[0].fields is None,
    {
        let embed = rich_embed(
            "About this bot",
            String::from_str(
                "This bot made by bryanli#2718 is the TC bot for [Kusanali mains](https://discord.gg/kusanali). You can invite the bot at <https://kusanalimains.com/invite/>. The source code is all open source and can be found [here](https://github.com/Bryli06/akasha-serverless). As this was designed to be a serverless discord bot, it is hosted for free on cloudflare workers!",
            ),
            0x198754,
            None,
        );
        Ok(single_embed_message(embed, None))
    }
}

} // verus!
