//! `/invite`: the link to invite the bot.

use vstd::prelude::*;
use vstd::string::StringExecFns;
use crate::commands::{text_is, Command, Input};
use crate::discord::{
    ApplicationCommandOption, AutocompleteInteractionCallbackData, MessagesInteractionCallbackData,
};
use crate::utils::InteractionError;

verus! {

/// The `/invite` command.
pub struct Invite {}

/// The options `/invite` is registered with.
pub open spec fn invite_options(res: Option<Vec<ApplicationCommandOption>>) -> bool {
    res is None
}

impl Command for Invite {
    fn name(&self) -> (res: String)
        ensures
            res@ == "invite"@,
    {
        String::from_str("invite")
    }

    fn description(&self) -> (res: String)
        ensures
            res@ == "Get invite link"@,
    {
        String::from_str("Get invite link")
    }

    fn options(&self) -> (res: Option<Vec<ApplicationCommandOption>>)
        ensures
            invite_options(res),
    {
        None
    }

    fn autocomplete(&self, input: &Input) -> (res: Result<
        Option<AutocompleteInteractionCallbackData>,
        InteractionError,
    >)
        ensures
            res == Ok::<Option<AutocompleteInteractionCallbackData>, InteractionError>(None),
    {
        Ok(None)
    }
}

impl Invite {
    /// Answers with the invite link as plain text.
    pub fn respond(&self, input: &Input) -> (res: Result<
        MessagesInteractionCallbackData,
        InteractionError,
    >)
        ensures
            res matches Ok(m) && text_is(
                m.content,
                "You can invite Akasha at <https://kusanalimains.com/invite/>."@,
            ) && m.embeds is None && m.components is None && m.attachment is None
                && m.flags is None,
    {
        Ok(
            MessagesInteractionCallbackData {
                content: Some(
                    String::from_str("You can invite Akasha at <https://kusanalimains.com/invite/>."),
                ),
                embeds: None,
                components: None,
                attachment: None,
                flags: None,
            },
        )
    }
}

} // verus!
