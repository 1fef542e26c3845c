//! Dispatch of interactions: what the bot answers to a ping, which command an
//! application command or autocomplete request goes to, and how a command's
//! result becomes the response sent back to Discord.

use vstd::prelude::*;
use vstd::string::StringExecFns;
use crate::commands::Input;
use crate::discord::{
    ApplicationCommandData, AutocompleteInteractionCallbackData, CallbackData, Interaction,
    InteractionCallbackType, InteractionData, InteractionResponse, InteractionType,
    MessagesInteractionCallbackData,
};
use crate::text::{decimal, parse_after_render, parse_decimal_spec, to_decimal};
use crate::utils::{Error, InteractionError};

verus! {

/// What to do with an interaction once it has been looked at.
#[derive(Debug, PartialEq)]
pub enum Dispatch {
    /// Answer at once with this response.
    Respond(InteractionResponse),
    /// Run the command at `index` of the command list on `input`, and hand its
    /// result to `Interaction::finish_command`.
    RunCommand { index: usize, input: Input },
    /// Run the autocompletion of the command at `index` on `input`, and hand its
    /// result to `Interaction::finish_autocomplete`.
    RunAutocomplete { index: usize, input: Input },
}

/// The application command payload of an interaction, if it carries one.
pub open spec fn command_data(i: Interaction) -> Option<ApplicationCommandData> {
    match i.data {
        Some(InteractionData::ApplicationCommand(d)) => Some(d),
        _ => None,
    }
}

/// `text` is the decimal form of `id`, and both are absent together.
pub open spec fn decimal_id(text: Option<String>, id: Option<u64>) -> bool {
    match (text, id) {
        (None, None) => true,
        (Some(t), Some(n)) => t@ == decimal(n as nat),
        _ => false,
    }
}

/// `input` holds what the interaction `i` with payload `d` gives a command.
pub open spec fn input_of(input: Input, i: Interaction, d: ApplicationCommandData) -> bool {
    &&& input.member == i.member
    &&& input.user == i.user
    &&& input.options == d.options
    &&& decimal_id(input.guild_id, i.guild_id)
    &&& decimal_id(input.channel_id, i.channel_id)
}

/// Whether some command in `names` is called `name`.
pub open spec fn names_contain(names: Seq<String>, name: Seq<char>) -> bool {
    exists|k: int| 0 <= k < names.len() && #[trigger] names[k]@ == name
}

/// `index` is the first position of `name` in `names`.
pub open spec fn first_position(names: Seq<String>, name: Seq<char>, index: int) -> bool {
    &&& 0 <= index < names.len()
    &&& names[index]@ == name
    &&& forall|j: int| 0 <= j < index ==> #[trigger] names[j]@ != name
}

/// The outcome of looking up the command of `i` among `names`, for a run
/// (`autocomplete` false) or an autocompletion (`autocomplete` true).
pub open spec fn lookup_outcome(
    i: Interaction,
    names: Seq<String>,
    autocomplete: bool,
    res: Result<Dispatch, InteractionError>,
) -> bool {
    match command_data(i) {
        None => res matches Err(InteractionError::Error(m)) && m@ == "No Data"@,
        Some(d) => if names_contain(names, d.name@) {
            if autocomplete {
                res matches Ok(Dispatch::RunAutocomplete { index, input })
                    && first_position(names, d.name@, index as int) && input_of(input, i, d)
            } else {
                res matches Ok(Dispatch::RunCommand { index, input })
                    && first_position(names, d.name@, index as int) && input_of(input, i, d)
            }
        } else {
            res matches Err(InteractionError::CommandNotFound(n)) && n@ == d.name@
        },
    }
}

/// The response that carries a command's answer.
pub open spec fn message_response(data: MessagesInteractionCallbackData) -> InteractionResponse {
    InteractionResponse {
        interaction_callback_type: InteractionCallbackType::ChannelMessageWithSource,
        data: Some(CallbackData::Message(data)),
    }
}

/// The response that carries an autocompletion.
pub open spec fn autocomplete_response(
    data: Option<AutocompleteInteractionCallbackData>,
) -> InteractionResponse {
    InteractionResponse {
        interaction_callback_type: InteractionCallbackType::ApplicationCommandAutocompleteResult,
        data: Some(CallbackData::Autocomplete(data)),
    }
}

fn optional_decimal(id: Option<u64>) -> (res: Option<String>)
    ensures
        decimal_id(res, id),
{
    match id {
        Some(n) => Some(to_decimal(n)),
        None => None,
    }
}

impl Interaction {
    /// The payload of the interaction, or a payload error when it has none.
    pub fn get_data(&self) -> (res: Result<&InteractionData, Error>)
        ensures
            self.data is Some ==> res == Ok::<&InteractionData, Error>(&self.data->0),
            self.data is None ==> (res matches Err(Error::PayloadError(m)) && m@ == "No data"@),
    {
        match &self.data {
            Some(d) => Ok(d),
            None => Err(Error::PayloadError(String::from_str("No data"))),
        }
    }

    /// The type of the interaction.
    pub fn get_type(&self) -> (res: &InteractionType)
        ensures
            *res == self.interaction_type,
    {
        &self.interaction_type
    }

    /// The answer to a ping: a pong without data.
    pub fn ping_handler(&self) -> (res: InteractionResponse)
        ensures
            res == (InteractionResponse {
                interaction_callback_type: InteractionCallbackType::Pong,
                data: None,
            }),
    {
        InteractionResponse { interaction_callback_type: InteractionCallbackType::Pong, data: None }
    }

    /// Finds the first command of `names` that the interaction calls, and the input to run it on.
    fn lookup(self, names: &Vec<String>, autocomplete: bool) -> (res: Result<Dispatch, InteractionError>)
        ensures
            lookup_outcome(self, names@, autocomplete, res),
    {
        let ghost whole = self;
        let Interaction { data, guild_id, channel_id, member, user, .. } = self;
        let d = match data {
            Some(InteractionData::ApplicationCommand(d)) => d,
            _ => {
                return Err(InteractionError::Error(String::from_str("No Data")));
            },
        };
        let ApplicationCommandData { name, options, .. } = d;
        let ghost dv = d;
        let mut k: usize = 0;
        while k < names.len()
            invariant
                0 <= k <= names@.len(),
                name == dv.name,
                options == dv.options,
                command_data(whole) == Some(dv),
                whole == self,
                member == whole.member,
                user == whole.user,
                guild_id == whole.guild_id,
                channel_id == whole.channel_id,
                forall|j: int| 0 <= j < k ==> #[trigger] names@[j]@ != name@,
            decreases names@.len() - k,
        {
            if names[k] == name {
                assert(names@[k as int]@ == dv.name@);
                assert(names_contain(names@, dv.name@));
                let input = Input {
                    member,
                    user,
                    options,
                    guild_id: optional_decimal(guild_id),
                    channel_id: optional_decimal(channel_id),
                };
                return if autocomplete {
                    Ok(Dispatch::RunAutocomplete { index: k, input })
                } else {
                    Ok(Dispatch::RunCommand { index: k, input })
                };
            }
            k = k + 1;
        }
        Err(InteractionError::CommandNotFound(name))
    }

    /// Routes an application command to the first command of `names` with its name.
    pub fn command_handler(self, names: &Vec<String>) -> (res: Result<Dispatch, InteractionError>)
        ensures
            self.data is None ==> (res matches Err(InteractionError::Error(m)) && m@ == "No Data"@),
            (self.data is Some && self.interaction_type != InteractionType::ApplicationCommand) ==> (
            res matches Err(InteractionError::Error(m)) && m@ == "Interaction was not a command"@),
            (self.data is Some && self.interaction_type == InteractionType::ApplicationCommand)
                ==> lookup_outcome(self, names@, false, res),
    {
        if self.get_data().is_err() {
            return Err(InteractionError::Error(String::from_str("No Data")));
        }
        match self.interaction_type {
            InteractionType::ApplicationCommand => self.lookup(names, false),
            _ => Err(InteractionError::Error(String::from_str("Interaction was not a command"))),
        }
    }

    /// Routes an autocomplete request to the first command of `names` with its name.
    pub fn handle_autocomplete(self, names: &Vec<String>) -> (res: Result<Dispatch, InteractionError>)
        ensures
            self.data is None ==> (res matches Err(InteractionError::Error(m)) && m@ == "No Data"@),
            (self.data is Some && self.interaction_type
                != InteractionType::ApplicationCommandAutocomplete) ==> (res matches Err(
                InteractionError::Error(m),
            ) && m@ == ""@),
            (self.data is Some && self.interaction_type
                == InteractionType::ApplicationCommandAutocomplete) ==> lookup_outcome(
                self,
                names@,
                true,
                res,
            ),
    {
        if self.get_data().is_err() {
            return Err(InteractionError::Error(String::from_str("No Data")));
        }
        match self.interaction_type {
            InteractionType::ApplicationCommandAutocomplete => self.lookup(names, true),
            _ => Err(InteractionError::Error(String::from_str(""))),
        }
    }

    /// Decides what to do with an interaction, given the names of the commands
    /// in the order they are offered: a ping is answered at once with a pong,
    /// an application command or an autocomplete request goes to the first
    /// command of that name, and any other interaction is refused.
    pub fn handle_interaction(self, names: &Vec<String>) -> (res: Result<Dispatch, Error>)
        ensures
            self.interaction_type == InteractionType::Ping ==> res == Ok::<Dispatch, Error>(
                Dispatch::Respond(
                    InteractionResponse {
                        interaction_callback_type: InteractionCallbackType::Pong,
                        data: None,
                    },
                ),
            ),
            self.interaction_type == InteractionType::ApplicationCommand ==> (match res {
                Ok(d) => lookup_outcome(self, names@, false, Ok(d)),
                Err(Error::InteractionFailed(e)) => lookup_outcome(self, names@, false, Err(e)),
                Err(_) => false,
            }),
            self.interaction_type == InteractionType::ApplicationCommandAutocomplete ==> (match res {
                Ok(d) => lookup_outcome(self, names@, true, Ok(d)),
                Err(Error::InteractionFailed(e)) => lookup_outcome(self, names@, true, Err(e)),
                Err(_) => false,
            }),
            (self.interaction_type == InteractionType::MessageComponent
                || self.interaction_type == InteractionType::ModalSubmit) ==> (res matches Err(
                Error::PayloadError(m),
            ) && m@ == "Interaction not implemented"@),
    {
        match self.interaction_type {
            InteractionType::Ping => Ok(Dispatch::Respond(self.ping_handler())),
            InteractionType::ApplicationCommand => match self.command_handler(names) {
                Ok(d) => Ok(d),
                Err(e) => Err(Error::InteractionFailed(e)),
            },
            InteractionType::ApplicationCommandAutocomplete => match self.handle_autocomplete(
                names,
            ) {
                Ok(d) => Ok(d),
                Err(e) => Err(Error::InteractionFailed(e)),
            },
            _ => Err(Error::PayloadError(String::from_str("Interaction not implemented"))),
        }
    }

    /// Turns the result of a command run into the response: an answer is sent
    /// as a channel message, a failure of the command fails the interaction.
    pub fn finish_command(result: Result<MessagesInteractionCallbackData, InteractionError>) -> (res:
        Result<InteractionResponse, Error>)
        ensures
            result matches Ok(data) ==> res == Ok::<InteractionResponse, Error>(
                message_response(data),
            ),
            result matches Ok(data) ==> res is Ok && res->Ok_0.interaction_callback_type
                == InteractionCallbackType::ChannelMessageWithSource && res->Ok_0.data == Some(
                CallbackData::Message(data),
            ),
            result matches Err(e) ==> res == Err::<InteractionResponse, Error>(
                Error::InteractionFailed(e),
            ),
    {
        match result {
            Ok(data) => Ok(
                InteractionResponse {
                    interaction_callback_type: InteractionCallbackType::ChannelMessageWithSource,
                    data: Some(CallbackData::Message(data)),
                },
            ),
            Err(e) => Err(Error::InteractionFailed(e)),
        }
    }

    /// Turns the result of an autocompletion into the response.
    pub fn finish_autocomplete(
        result: Result<Option<AutocompleteInteractionCallbackData>, InteractionError>,
    ) -> (res: Result<InteractionResponse, Error>)
        ensures
            result matches Ok(data) ==> res == Ok::<InteractionResponse, Error>(
                autocomplete_response(data),
            ),
            result matches Ok(data) ==> res is Ok && res->Ok_0.interaction_callback_type
                == InteractionCallbackType::ApplicationCommandAutocompleteResult && res->Ok_0.data
                == Some(CallbackData::Autocomplete(data)),
            result matches Err(e) ==> res == Err::<InteractionResponse, Error>(
                Error::InteractionFailed(e),
            ),
    {
        match result {
            Ok(data) => Ok(
                InteractionResponse {
                    interaction_callback_type: InteractionCallbackType::ApplicationCommandAutocompleteResult,
                    data: Some(CallbackData::Autocomplete(data)),
                },
            ),
            Err(e) => Err(Error::InteractionFailed(e)),
        }
    }
}

/// An application command or autocomplete request goes to the first offered
/// command that carries its name, and to no other; with no command of that
/// name it fails with `CommandNotFound` naming the command asked for.
pub proof fn dispatch_goes_to_first_named(
    i: Interaction,
    names: Seq<String>,
    autocomplete: bool,
    res: Result<Dispatch, InteractionError>,
    k: int,
)
    requires
        command_data(i) is Some,
        lookup_outcome(i, names, autocomplete, res),
    ensures
        first_position(names, command_data(i)->0.name@, k) ==> (match res {
            Ok(Dispatch::RunCommand { index, .. }) => !autocomplete && index == k,
            Ok(Dispatch::RunAutocomplete { index, .. }) => autocomplete && index == k,
            _ => false,
        }),
        (forall|j: int| 0 <= j < names.len() ==> #[trigger] names[j]@ != command_data(i)->0.name@)
            ==> (res matches Err(InteractionError::CommandNotFound(n)) && n@ == command_data(
            i,
        )->0.name@),
{
    let name = command_data(i)->0.name@;
    if first_position(names, name, k) {
        assert(names_contain(names, name));
        match res {
            Ok(Dispatch::RunCommand { index, .. }) => {
                if (index as int) < k {
                    assert(names[index as int]@ != name);
                } else if (index as int) > k {
                    assert(names[k]@ != name);
                }
            },
            Ok(Dispatch::RunAutocomplete { index, .. }) => {
                if (index as int) < k {
                    assert(names[index as int]@ != name);
                } else if (index as int) > k {
                    assert(names[k]@ != name);
                }
            },
            _ => {},
        }
    }
}

/// A command runs on what its interaction carries: the same member, user and
/// options, and the guild and channel ids written in decimal, which read back
/// as the same ids; an id is present in the input exactly when the interaction has it.
pub proof fn dispatched_input_carries_the_interaction(
    i: Interaction,
    names: Seq<String>,
    autocomplete: bool,
    res: Result<Dispatch, InteractionError>,
)
    requires
        command_data(i) is Some,
        lookup_outcome(i, names, autocomplete, res),
    ensures
        res matches Ok(Dispatch::RunCommand { input, .. }) ==> runs_on(input, i),
        res matches Ok(Dispatch::RunAutocomplete { input, .. }) ==> runs_on(input, i),
{
    if let Some(g) = i.guild_id {
        parse_after_render(g);
    }
    if let Some(c) = i.channel_id {
        parse_after_render(c);
    }
}

/// `input` carries the member, user and options of `i`, and its ids as decimal
/// text that parses back to them.
pub open spec fn runs_on(input: Input, i: Interaction) -> bool {
    &&& input.member == i.member
    &&& input.user == i.user
    &&& input.options == command_data(i)->0.options
    &&& input.guild_id is Some <==> i.guild_id is Some
    &&& input.channel_id is Some <==> i.channel_id is Some
    &&& i.guild_id matches Some(g) ==> parse_decimal_spec(input.guild_id->0@) == Some(g)
    &&& i.channel_id matches Some(c) ==> parse_decimal_spec(input.channel_id->0@) == Some(c)
}

/// A command's answer goes back as a channel message (Discord's code 4) that
/// carries it, and an autocompletion as autocomplete choices (code 8) that carry it.
pub proof fn responses_carry_their_answer(
    data: MessagesInteractionCallbackData,
    choices: Option<AutocompleteInteractionCallbackData>,
)
    ensures
        message_response(data).interaction_callback_type.spec_code() == 4,
        message_response(data).data == Some(CallbackData::Message(data)),
        autocomplete_response(choices).interaction_callback_type.spec_code() == 8,
        autocomplete_response(choices).data == Some(CallbackData::Autocomplete(choices)),
{
}

} // verus!
