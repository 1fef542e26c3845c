use akasha::commands::{command_names, get_commands, CommandKind, Input};
use akasha::discord::{
    ApplicationCommandData, ApplicationCommandInteractionDataOption,
    ApplicationCommandOptionType, AutocompleteInteractionCallbackData, CallbackData, Interaction,
    InteractionCallbackType, InteractionData, InteractionResponse, InteractionType,
    MessageComponentData, MessagesInteractionCallbackData, User,
};
use akasha::handler::Dispatch;
use akasha::utils::{Error, InteractionError};

fn option(name: &str, value: Option<&str>) -> ApplicationCommandInteractionDataOption {
    ApplicationCommandInteractionDataOption {
        name: name.to_string(),
        command_type: ApplicationCommandOptionType::Integer,
        value: value.map(|v| v.to_string()),
        options: None,
        focused: None,
    }
}

fn command(kind: InteractionType, name: &str) -> Interaction {
    Interaction {
        interaction_type: kind,
        data: Some(InteractionData::ApplicationCommand(ApplicationCommandData {
            id: 1,
            name: name.to_string(),
            options: Some(vec![option("wishes", Some("10"))]),
        })),
        guild_id: Some(1234),
        channel_id: None,
        member: None,
        user: Some(User {
            id: 5,
            username: "ayaka".to_string(),
            dicriminator: "0001".to_string(),
            bot: None,
        }),
        token: "t".to_string(),
    }
}

fn names(list: &[&str]) -> Vec<String> {
    list.iter().map(|s| s.to_string()).collect()
}

#[test]
fn ping_is_answered_with_pong() {
    let ping = Interaction {
        interaction_type: InteractionType::Ping,
        data: None,
        guild_id: None,
        channel_id: None,
        member: None,
        user: None,
        token: String::new(),
    };
    assert_eq!(
        ping.ping_handler(),
        InteractionResponse { interaction_callback_type: InteractionCallbackType::Pong, data: None }
    );
    assert_eq!(
        ping.handle_interaction(&names(&["about"])),
        Ok(Dispatch::Respond(InteractionResponse {
            interaction_callback_type: InteractionCallbackType::Pong,
            data: None,
        }))
    );
}

#[test]
fn command_goes_to_first_command_of_its_name() {
    let i = command(InteractionType::ApplicationCommand, "chance");
    let res = i.handle_interaction(&names(&["about", "chance", "chance"]));
    let expected_input = Input {
        member: None,
        user: Some(User {
            id: 5,
            username: "ayaka".to_string(),
            dicriminator: "0001".to_string(),
            bot: None,
        }),
        options: Some(vec![option("wishes", Some("10"))]),
        guild_id: Some("1234".to_string()),
        channel_id: None,
    };
    assert_eq!(res, Ok(Dispatch::RunCommand { index: 1, input: expected_input }));
}

#[test]
fn autocomplete_goes_to_its_command() {
    let i = command(InteractionType::ApplicationCommandAutocomplete, "autocomplete");
    match i.handle_interaction(&names(&["about", "autocomplete"])) {
        Ok(Dispatch::RunAutocomplete { index, input }) => {
            assert_eq!(index, 1);
            assert_eq!(input.guild_id, Some("1234".to_string()));
        }
        other => panic!("unexpected {:?}", other),
    }
}

#[test]
fn unknown_command_is_not_found() {
    let i = command(InteractionType::ApplicationCommand, "wish");
    assert_eq!(
        i.handle_interaction(&names(&["about", "chance"])),
        Err(Error::InteractionFailed(InteractionError::CommandNotFound("wish".to_string())))
    );
}

#[test]
fn offered_commands_are_none_yet() {
    let commands = get_commands();
    assert!(commands.is_empty());
    let i = command(InteractionType::ApplicationCommand, "about");
    assert_eq!(
        i.handle_interaction(&command_names(&commands)),
        Err(Error::InteractionFailed(InteractionError::CommandNotFound("about".to_string())))
    );
}

#[test]
fn command_names_in_order() {
    let all = vec![
        CommandKind::About,
        CommandKind::AutocompleteTest,
        CommandKind::Chance,
        CommandKind::Chances,
        CommandKind::Favonius,
        CommandKind::Invite,
        CommandKind::Pulls,
    ];
    assert_eq!(
        command_names(&all),
        names(&["about", "autocomplete", "chance", "chances", "favonius", "invite", "pulls"])
    );
}

#[test]
fn interaction_without_data() {
    let i = Interaction {
        interaction_type: InteractionType::ApplicationCommand,
        data: None,
        guild_id: None,
        channel_id: None,
        member: None,
        user: None,
        token: String::new(),
    };
    assert_eq!(i.get_data(), Err(Error::PayloadError("No data".to_string())));
    assert_eq!(
        i.handle_interaction(&names(&["about"])),
        Err(Error::InteractionFailed(InteractionError::Error("No Data".to_string())))
    );
}

#[test]
fn wrong_type_for_handler() {
    let i = command(InteractionType::ApplicationCommandAutocomplete, "about");
    assert_eq!(
        i.command_handler(&names(&["about"])),
        Err(InteractionError::Error("Interaction was not a command".to_string()))
    );
    let j = command(InteractionType::ApplicationCommand, "about");
    assert_eq!(j.handle_autocomplete(&names(&["about"])), Err(InteractionError::Error("".to_string())));
}

#[test]
fn other_interactions_are_not_implemented() {
    let i = Interaction {
        interaction_type: InteractionType::MessageComponent,
        data: Some(InteractionData::MessageComponent(MessageComponentData {})),
        guild_id: None,
        channel_id: None,
        member: None,
        user: None,
        token: String::new(),
    };
    assert_eq!(*i.get_type(), InteractionType::MessageComponent);
    assert_eq!(
        i.handle_interaction(&names(&["about"])),
        Err(Error::PayloadError("Interaction not implemented".to_string()))
    );
}

#[test]
fn finishing_a_command() {
    let data = MessagesInteractionCallbackData {
        content: Some("hi".to_string()),
        embeds: None,
        components: None,
        attachment: None,
        flags: None,
    };
    let expected = MessagesInteractionCallbackData {
        content: Some("hi".to_string()),
        embeds: None,
        components: None,
        attachment: None,
        flags: None,
    };
    assert_eq!(
        Interaction::finish_command(Ok(data)),
        Ok(InteractionResponse {
            interaction_callback_type: InteractionCallbackType::ChannelMessageWithSource,
            data: Some(CallbackData::Message(expected)),
        })
    );
    assert_eq!(
        Interaction::finish_command(Err(InteractionError::DiscordError("down".to_string()))),
        Err(Error::InteractionFailed(InteractionError::DiscordError("down".to_string())))
    );
    assert_eq!(
        Interaction::finish_autocomplete(Ok(Some(AutocompleteInteractionCallbackData { choices: vec![] }))),
        Ok(InteractionResponse {
            interaction_callback_type: InteractionCallbackType::ApplicationCommandAutocompleteResult,
            data: Some(CallbackData::Autocomplete(Some(AutocompleteInteractionCallbackData {
                choices: vec![]
            }))),
        })
    );
    assert_eq!(
        Interaction::finish_autocomplete(Err(InteractionError::CloudflareError("kv".to_string()))),
        Err(Error::InteractionFailed(InteractionError::CloudflareError("kv".to_string())))
    );
}

#[test]
fn options_of_input() {
    let input = Input {
        member: None,
        user: None,
        options: Some(vec![
            option("wishes", Some("80")),
            option("pity", None),
            option("wishes", Some("5")),
            option("banner", Some("x")),
        ]),
        guild_id: None,
        channel_id: None,
    };
    assert_eq!(input.get_options("wishes"), Some("80"));
    assert_eq!(input.get_options("pity"), None);
    assert_eq!(input.get_options("missing"), None);
    assert_eq!(input.get_number("wishes"), Some(80));
    assert_eq!(input.get_number("banner"), None);
    let empty = Input { member: None, user: None, options: None, guild_id: None, channel_id: None };
    assert_eq!(empty.get_options("wishes"), None);
}
