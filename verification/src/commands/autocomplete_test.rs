//! `/autocomplete`: a command that exercises option autocompletion.

use vstd::prelude::*;
use vstd::string::StringExecFns;
use crate::commands::{
    choice, choices_are, embed_shape, inline_field, inline_text_field, option_shape,
    option_value, plain_option, rich_embed, single_embed_message, text_is, Command, Input,
};
use crate::discord::{
    ApplicationCommandOption, ApplicationCommandOptionType, AutocompleteInteractionCallbackData,
    EmbedField, MessagesInteractionCallbackData,
};
use crate::utils::InteractionError;

verus! {

/// The `/autocomplete` command.
pub struct AutocompleteTest {}

/// `value`, or `fallback` when there is none.
pub open spec fn or_else(value: Option<Seq<char>>, fallback: Seq<char>) -> Seq<char> {
    match value {
        Some(v) => v,
        None => fallback,
    }
}

fn value_or<'a>(value: Option<&'a str>, fallback: &'a str) -> (res: &'a str)
    ensures
        res@ == (match value {
            Some(v) => v@,
            None => fallback@,
        }),
{
    match value {
        Some(v) => v,
        None => fallback,
    }
}

/// The options `/autocomplete` is registered with.
pub open spec fn autocomplete_test_options(res: Option<Vec<ApplicationCommandOption>>) -> bool {
    res matches Some(v) && v@.len() == 2 && option_shape(
        v@[0],
        "deez"@,
        "nuts"@,
        ApplicationCommandOptionType::String,
        true,
        true,
        None,
        None,
    ) && v@[0].choices is None && option_shape(
        v@[1],
        "pppopoo"@,
        "nutsos"@,
        ApplicationCommandOptionType::String,
        false,
        true,
        None,
        None,
    ) && choices_are(
        v@[1].choices,
        seq!["x"@, "y"@, "z"@],
        seq!["a"@, "b"@, "c"@],
    )
}

impl Command for AutocompleteTest {
    fn name(&self) -> (res: String)
        ensures
            res@ == "autocomplete"@,
    {
        String::from_str("autocomplete")
    }

    fn description(&self) -> (res: String)
        ensures
            res@ == "autocomplete test"@,
    {
        String::from_str("autocomplete test")
    }

    /// `deez`, completed as it is typed, and `pppopoo`, one of `x`, `y`, `z`.
    fn options(&self) -> (res: Option<Vec<ApplicationCommandOption>>)
        ensures
            autocomplete_test_options(res),
    {
        let deez = plain_option(
            "deez",
            "nuts",
            ApplicationCommandOptionType::String,
            true,
            true,
            None,
            None,
        );
        let mut pppopoo = plain_option(
            "pppopoo",
            "nutsos",
            ApplicationCommandOptionType::String,
            false,
            true,
            None,
            None,
        );
        let mut choices = Vec::new();
        choices.push(choice("x", "a"));
        choices.push(choice("y", "b"));
        choices.push(choice("z", "c"));
        pppopoo.choices = Some(choices);
        let mut v = Vec::new();
        v.push(deez);
        v.push(pppopoo);
        Some(v)
    }

    /// Always suggests `a`, `b` and `c`.
    fn autocomplete(&self, input: &Input) -> (res: Result<
        Option<AutocompleteInteractionCallbackData>,
        InteractionError,
    >)
        ensures
            res matches Ok(Some(d)) && choices_are(
                Some(d.choices),
                seq!["a"@, "b"@, "c"@],
                seq!["a"@, "b"@, "c"@],
            ),
    {
        let mut choices = Vec::new();
        choices.push(choice("a", "a"));
        choices.push(choice("b", "b"));
        choices.push(choice("c", "c"));
        Ok(Some(AutocompleteInteractionCallbackData { choices }))
    }
}

impl AutocompleteTest {
    /// Greets the user and echoes the two options back.
    pub fn respond(&self, input: &Input) -> (res: Result<
        MessagesInteractionCallbackData,
        InteractionError,
    >)
        ensures
            res matches Ok(m) && m.embeds matches Some(es) && es@.len() == 1 && {
                let e = es@[0];
                &&& text_is(
                    m.content,
                    "Hello "@ + or_else(option_value(*input, "name"@), "pp"@),
                )
                &&& m.components is None
                &&& m.attachment is None
                &&& m.flags is None
                &&& embed_shape(
                    e,
                    "Hello"@,
                    "deez: "@ + or_else(option_value(*input, "deez"@), "Error"@) + "\npppopoo: "@
                        + or_else(option_value(*input, "pppopoo"@), "Error"@),
                    0x696969,
                )
                &&& e.fields matches Some(fs) && fs@.len() == 1 && inline_field(
                    fs@[0],
                    "Hello"@,
                    "e"@,
                )
            },
    {
        let mut description = String::from_str("deez: ");
        description.append(value_or(input.get_options("deez"), "Error"));
        description.append("\npppopoo: ");
        description.append(value_or(input.get_options("pppopoo"), "Error"));
        let mut fields: Vec<EmbedField> = Vec::new();
        fields.push(inline_text_field(String::from_str("Hello"), String::from_str("e")));
        let embed = rich_embed("Hello", description, 0x696969, Some(fields));
        let mut content = String::from_str("Hello ");
        content.append(value_or(input.get_options("name"), "pp"));
        let mut m = single_embed_message(embed, None);
        m.content = Some(content);
        Ok(m)
    }
}

} // verus!
