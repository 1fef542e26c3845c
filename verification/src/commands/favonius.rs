//! `/favonius`: the chance that a Favonius weapon procs within a number of
//! hits. The chance is floating point; what stands here is the registration,
//! the reading of the integer options and the message.

use vstd::prelude::*;
use vstd::string::StringExecFns;
use crate::commands::{
    embed_message, embed_shape, option_number, option_shape, plain_option, rich_embed,
    single_embed_message, Command, Input,
};
use crate::discord::{
    ApplicationCommandOption, ApplicationCommandOptionType, AutocompleteInteractionCallbackData,
    MessagesInteractionCallbackData,
};
use crate::utils::InteractionError;

verus! {

/// The `/favonius` command.
pub struct Favonius {}

/// The integer options of a `/favonius` request.
#[derive(Debug, PartialEq, Eq, Clone, Copy)]
pub struct FavoniusArgs {
    pub hits: u64,
    pub refinement: u64,
}

/// The options `/favonius` is registered with.
pub open spec fn favonius_options(res: Option<Vec<ApplicationCommandOption>>) -> bool {
    res matches Some(v) && v@.len() == 3 && (forall|i: int|
        0 <= i < 3 ==> (#[trigger] v@[i]).choices is None) && option_shape(
        v@[0],
        "crit"@,
        "What is your character's crit rate?"@,
        ApplicationCommandOptionType::Number,
        false,
        true,
        Some(0),
        Some(100),
    ) && option_shape(
        v@[1],
        "hits"@,
        "How many hits per proc?"@,
        ApplicationCommandOptionType::Integer,
        false,
        true,
        Some(1),
        None,
    ) && option_shape(
        v@[2],
        "refinement"@,
        "What refinement is the weapon at?"@,
        ApplicationCommandOptionType::Integer,
        false,
        true,
        Some(1),
        Some(5),
    )
}

impl Command for Favonius {
    fn name(&self) -> (res: String)
        ensures
            res@ == "favonius"@,
    {
        String::from_str("favonius")
    }

    fn description(&self) -> (res: String)
        ensures
            res@ == "Get the probalitity that favonius sword procs"@,
    {
        String::from_str("Get the probalitity that favonius sword procs")
    }

    /// The crit rate (0 to 100), the hits per proc (at least 1) and the
    /// refinement (1 to 5).
    fn options(&self) -> (res: Option<Vec<ApplicationCommandOption>>)
        ensures
            favonius_options(res),
    {
        let mut v = Vec::new();
        v.push(
            plain_option(
                "crit",
                "What is your character's crit rate?",
                ApplicationCommandOptionType::Number,
                false,
                true,
                Some(0),
                Some(100),
            ),
        );
        v.push(
            plain_option(
                "hits",
                "How many hits per proc?",
                ApplicationCommandOptionType::Integer,
                false,
                true,
                Some(1),
                None,
            ),
        );
        v.push(
            plain_option(
                "refinement",
                "What refinement is the weapon at?",
                ApplicationCommandOptionType::Integer,
                false,
                true,
                Some(1),
                Some(5),
            ),
        );
        Some(v)
    }

    fn autocomplete(&self, input: &Input) -> (res: Result<
        Option<AutocompleteInteractionCallbackData>,
        InteractionError,
    >)
        ensures
            res == Ok::<Option<AutocompleteInteractionCallbackData>, InteractionError>(None),
    {
        Ok(None)
    }
}

impl Favonius {
    /// Reads the integer options of a request; `None` when one is absent or not a number.
    pub fn plan(&self, input: &Input) -> (res: Option<FavoniusArgs>)
        ensures
            res == (match (option_number(*input, "hits"@), option_number(*input, "refinement"@)) {
                (Some(h), Some(r)) => Some(FavoniusArgs { hits: h, refinement: r }),
                _ => None,
            }),
    {
        let hits = input.get_number("hits")?;
        let refinement = input.get_number("refinement")?;
        Some(FavoniusArgs { hits, refinement })
    }

    /// The answer: an embed whose text is `description`.
    pub fn message(description: String) -> (res: MessagesInteractionCallbackData)
        ensures
            res.embeds matches Some(es) && es@.len() == 1 && embed_message(res, es@[0], None)
                && embed_shape(es@[0], "Favonius proc chances calculator"@, description@, 0x198754)
                && es@[0].fields is None,
    {
        single_embed_message(
            rich_embed("Favonius proc chances calculator", description, 0x198754, None),
            None,
        )
    }
}

} // verus!
