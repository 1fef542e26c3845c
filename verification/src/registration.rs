//! Registration of the bot's commands with Discord: what is sent, where, and
//! with which credentials.

use vstd::prelude::*;
use vstd::string::StringExecFns;
use crate::commands::{command_description, command_name, command_options, CommandKind};
use crate::discord::RegisteredCommand;

verus! {

/// What is registered for each of `commands`, in order: its name, its
/// description and its options.
pub fn registered_commands(commands: &Vec<CommandKind>) -> (res: Vec<RegisteredCommand>)
    ensures
        res@.len() == commands@.len(),
        forall|i: int|
            0 <= i < commands@.len() ==> {
                &&& (#[trigger] res@[i]).name@ == command_name(commands@[i])
                &&& res@[i].description@ == command_description(commands@[i])
                &&& command_options(commands@[i], res@[i].options)
            },
{
    let mut register: Vec<RegisteredCommand> = Vec::new();
    let mut i: usize = 0;
    while i < commands.len()
        invariant
            0 <= i <= commands@.len(),
            register@.len() == i,
            forall|j: int|
                0 <= j < i ==> {
                    &&& (#[trigger] register@[j]).name@ == command_name(commands@[j])
                    &&& register@[j].description@ == command_description(commands@[j])
                    &&& command_options(commands@[j], register@[j].options)
                },
        decreases commands@.len() - i,
    {
        let command = &commands[i];
        register.push(
            RegisteredCommand {
                name: command.name(),
                description: command.description(),
                options: command.options(),
            },
        );
        i = i + 1;
    }
    register
}

/// The Discord API address that the commands of application `app_id` are put to.
pub fn commands_endpoint(app_id: &str) -> (res: String)
    ensures
        res@ == "https://discord.com/api/v10/applications/"@ + app_id@ + "/commands"@,
{
    let mut url = String::from_str("https://discord.com/api/v10/applications/");
    url.append(app_id);
    url.append("/commands");
    url
}

/// The `Authorization` header of a request made as the bot with `token`.
pub fn bot_authorization(token: &str) -> (res: String)
    ensures
        res@ == "Bot "@ + token@,
{
    let mut header = String::from_str("Bot ");
    header.append(token);
    header
}

/// The commands registered with Discord are, in the same order, the names
/// that interactions are looked up by: what `registered_commands` sends and
/// what `command_names` hands to dispatch agree on every command.
pub proof fn registered_names_are_dispatched_names(
    commands: Seq<CommandKind>,
    registered: Seq<RegisteredCommand>,
    names: Seq<String>,
)
    requires
        registered.len() == commands.len(),
        names.len() == commands.len(),
        forall|i: int| 0 <= i < commands.len() ==> (#[trigger] registered[i]).name@ == command_name(commands[i]),
        forall|i: int| 0 <= i < commands.len() ==> (#[trigger] names[i])@ == command_name(commands[i]),
    ensures
        forall|i: int| 0 <= i < commands.len() ==> (#[trigger] registered[i]).name@ == names[i]@,
{
    assert forall|i: int| 0 <= i < commands.len() implies (#[trigger] registered[i]).name@ == names[i]@ by {
        assert(names[i]@ == command_name(commands[i]));
    }
}

} // verus!
