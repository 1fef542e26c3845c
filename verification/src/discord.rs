//! The Discord interaction data model the bot exchanges with the Discord API.

use vstd::prelude::*;

verus! {

/// The type of an application command option, with Discord's numeric codes.
#[derive(Clone, Copy, Debug, PartialEq, Eq, Structural)]
pub enum ApplicationCommandOptionType {
    SubCommand,
    SubCommandGroup,
    String,
    Integer,
    Boolean,
    User,
    Channel,
    Role,
    Mentionable,
    Number,
    Attachment,
}

impl ApplicationCommandOptionType {
    /// Discord's numeric code for this option type.
    pub open spec fn spec_code(self) -> u8 {
        match self {
            ApplicationCommandOptionType::SubCommand => 1,
            ApplicationCommandOptionType::SubCommandGroup => 2,
            ApplicationCommandOptionType::String => 3,
            ApplicationCommandOptionType::Integer => 4,
            ApplicationCommandOptionType::Boolean => 5,
            ApplicationCommandOptionType::User => 6,
            ApplicationCommandOptionType::Channel => 7,
            ApplicationCommandOptionType::Role => 8,
            ApplicationCommandOptionType::Mentionable => 9,
            ApplicationCommandOptionType::Number => 10,
            ApplicationCommandOptionType::Attachment => 11,
        }
    }

    pub fn code(&self) -> (res: u8)
        ensures
            res == self.spec_code(),
    {
        match self {
            ApplicationCommandOptionType::SubCommand => 1,
            ApplicationCommandOptionType::SubCommandGroup => 2,
            ApplicationCommandOptionType::String => 3,
            ApplicationCommandOptionType::Integer => 4,
            ApplicationCommandOptionType::Boolean => 5,
            ApplicationCommandOptionType::User => 6,
            ApplicationCommandOptionType::Channel => 7,
            ApplicationCommandOptionType::Role => 8,
            ApplicationCommandOptionType::Mentionable => 9,
            ApplicationCommandOptionType::Number => 10,
            ApplicationCommandOptionType::Attachment => 11,
        }
    }
}

/// Distinct option types carry distinct codes.
pub proof fn option_type_codes_distinct(a: ApplicationCommandOptionType, b: ApplicationCommandOptionType)
    ensures
        a.spec_code() == b.spec_code() ==> a == b,
{
}

/// The type of a Discord channel, with Discord's numeric codes.
#[derive(Clone, Copy, Debug, PartialEq, Eq, Structural)]
pub enum ChannelType {
    GuildText,
    DM,
    GuildVoice,
    GuildCategory,
    GuildAnnouncement,
    AnnouncmentThread,
    PublicThread,
    PrivateThread,
    GuildStageVoice,
    GuildDirectory,
    GuildForum,
}

impl ChannelType {
    /// Discord's numeric code for this value.
    pub open spec fn spec_code(self) -> u8 {
        match self {
            ChannelType::GuildText => 0,
            ChannelType::DM => 1,
            ChannelType::GuildVoice => 2,
            ChannelType::GuildCategory => 4,
            ChannelType::GuildAnnouncement => 5,
            ChannelType::AnnouncmentThread => 10,
            ChannelType::PublicThread => 11,
            ChannelType::PrivateThread => 12,
            ChannelType::GuildStageVoice => 13,
            ChannelType::GuildDirectory => 14,
            ChannelType::GuildForum => 15,
        }
    }

    pub fn code(&self) -> (res: u8)
        ensures
            res == self.spec_code(),
    {
        match self {
            ChannelType::GuildText => 0,
            ChannelType::DM => 1,
            ChannelType::GuildVoice => 2,
            ChannelType::GuildCategory => 4,
            ChannelType::GuildAnnouncement => 5,
            ChannelType::AnnouncmentThread => 10,
            ChannelType::PublicThread => 11,
            ChannelType::PrivateThread => 12,
            ChannelType::GuildStageVoice => 13,
            ChannelType::GuildDirectory => 14,
            ChannelType::GuildForum => 15,
        }
    }
}

/// The type of an incoming interaction, with Discord's numeric codes.
#[derive(Clone, Copy, Debug, PartialEq, Eq, Structural)]
pub enum InteractionType {
    Ping,
    ApplicationCommand,
    MessageComponent,
    ApplicationCommandAutocomplete,
    ModalSubmit,
}

impl InteractionType {
    /// Discord's numeric code for this value.
    pub open spec fn spec_code(self) -> u8 {
        match self {
            InteractionType::Ping => 1,
            InteractionType::ApplicationCommand => 2,
            InteractionType::MessageComponent => 3,
            InteractionType::ApplicationCommandAutocomplete => 4,
            InteractionType::ModalSubmit => 5,
        }
    }

    pub fn code(&self) -> (res: u8)
        ensures
            res == self.spec_code(),
            *self == InteractionType::Ping ==> res == 1,
            *self == InteractionType::ApplicationCommand ==> res == 2,
            *self == InteractionType::MessageComponent ==> res == 3,
            *self == InteractionType::ApplicationCommandAutocomplete ==> res == 4,
            *self == InteractionType::ModalSubmit ==> res == 5,
    {
        match self {
            InteractionType::Ping => 1,
            InteractionType::ApplicationCommand => 2,
            InteractionType::MessageComponent => 3,
            InteractionType::ApplicationCommandAutocomplete => 4,
            InteractionType::ModalSubmit => 5,
        }
    }
}

/// The type of an embed.
#[derive(Clone, Copy, Debug, PartialEq, Eq, Structural)]
pub enum EmbedType {
    Rich,
    Image,
    Video,
    Gifv,
    Article,
    Link,
}

/// The type of an interaction response, with Discord's numeric codes.
#[derive(Clone, Copy, Debug, PartialEq, Eq, Structural)]
pub enum InteractionCallbackType {
    Pong,
    ChannelMessageWithSource,
    DeferredChannelMessageWithSource,
    DeferredUpdateMessage,
    UpdateMessage,
    ApplicationCommandAutocompleteResult,
    Modal,
}

impl InteractionCallbackType {
    /// Discord's numeric code for this value.
    pub open spec fn spec_code(self) -> u8 {
        match self {
            InteractionCallbackType::Pong => 1,
            InteractionCallbackType::ChannelMessageWithSource => 4,
            InteractionCallbackType::DeferredChannelMessageWithSource => 5,
            InteractionCallbackType::DeferredUpdateMessage => 6,
            InteractionCallbackType::UpdateMessage => 7,
            InteractionCallbackType::ApplicationCommandAutocompleteResult => 8,
            InteractionCallbackType::Modal => 9,
        }
    }

    pub fn code(&self) -> (res: u8)
        ensures
            res == self.spec_code(),
            *self == InteractionCallbackType::Pong ==> res == 1,
            *self == InteractionCallbackType::ChannelMessageWithSource ==> res == 4,
            *self == InteractionCallbackType::DeferredChannelMessageWithSource ==> res == 5,
            *self == InteractionCallbackType::DeferredUpdateMessage ==> res == 6,
            *self == InteractionCallbackType::UpdateMessage ==> res == 7,
            *self == InteractionCallbackType::ApplicationCommandAutocompleteResult ==> res == 8,
            *self == InteractionCallbackType::Modal ==> res == 9,
    {
        match self {
            InteractionCallbackType::Pong => 1,
            InteractionCallbackType::ChannelMessageWithSource => 4,
            InteractionCallbackType::DeferredChannelMessageWithSource => 5,
            InteractionCallbackType::DeferredUpdateMessage => 6,
            InteractionCallbackType::UpdateMessage => 7,
            InteractionCallbackType::ApplicationCommandAutocompleteResult => 8,
            InteractionCallbackType::Modal => 9,
        }
    }
}

/// Distinct channel types carry distinct codes.
pub proof fn channel_type_codes_distinct(a: ChannelType, b: ChannelType)
    ensures
        a.spec_code() == b.spec_code() ==> a == b,
{
}

/// Distinct interaction types carry distinct codes.
pub proof fn interaction_type_codes_distinct(a: InteractionType, b: InteractionType)
    ensures
        a.spec_code() == b.spec_code() ==> a == b,
{
}

/// Distinct callback types carry distinct codes.
pub proof fn callback_type_codes_distinct(a: InteractionCallbackType, b: InteractionCallbackType)
    ensures
        a.spec_code() == b.spec_code() ==> a == b,
{
}

/// One option of an application command, as registered with Discord.
#[derive(Debug, PartialEq)]
pub struct ApplicationCommandOption {
    pub name: String,
    pub description: String,
    pub option_type: ApplicationCommandOptionType,
    pub choices: Option<Vec<ApplicationCommandOptionChoice>>,
    pub options: Option<Vec<ApplicationCommandOption>>,
    pub autocomplete: Option<bool>,
    pub required: Option<bool>,
    pub min_value: Option<u64>,
    pub max_value: Option<u64>,
    pub min_length: Option<u64>,
    pub max_length: Option<u64>,
    pub channel_types: Option<Vec<ChannelType>>,
}

/// A predefined choice of an option.
#[derive(Debug, PartialEq)]
pub struct ApplicationCommandOptionChoice {
    pub name: String,
    pub value: String,
}

/// The reply to an autocomplete interaction.
#[derive(Debug, PartialEq)]
pub struct AutocompleteInteractionCallbackData {
    pub choices: Vec<ApplicationCommandOptionChoice>,
}

/// The message a command answers with.
#[derive(Debug, PartialEq)]
pub struct MessagesInteractionCallbackData {
    pub content: Option<String>,
    pub embeds: Option<Vec<Embed>>,
    pub components: Option<Vec<Component>>,
    pub attachment: Option<Vec<Attachment>>,
    pub flags: Option<u64>,
}

/// An interaction received from Discord.
#[derive(Debug, PartialEq)]
pub struct Interaction {
    pub interaction_type: InteractionType,
    pub data: Option<InteractionData>,
    pub guild_id: Option<u64>,
    pub channel_id: Option<u64>,
    pub member: Option<Member>,
    pub user: Option<User>,
    pub token: String,
}

/// The payload of an interaction.
#[derive(Debug, PartialEq)]
pub enum InteractionData {
    ApplicationCommand(ApplicationCommandData),
    MessageComponent(MessageComponentData),
    ModalSubmit(ModalSubmitData),
    ApplicationCommandInteraction(ApplicationCommandInteractionDataOption),
}

/// The payload of an application command interaction.
#[derive(Debug, PartialEq)]
pub struct ApplicationCommandData {
    pub id: u64,
    pub name: String,
    pub options: Option<Vec<ApplicationCommandInteractionDataOption>>,
}

/// The payload of a message component interaction.
#[derive(Debug, PartialEq)]
pub struct MessageComponentData {}

/// The payload of a modal submit interaction.
#[derive(Debug, PartialEq)]
pub struct ModalSubmitData {}

/// One option value a user supplied to a command.
#[derive(Debug, PartialEq)]
pub struct ApplicationCommandInteractionDataOption {
    pub name: String,
    pub command_type: ApplicationCommandOptionType,
    pub value: Option<String>,
    pub options: Option<Vec<ApplicationCommandInteractionDataOption>>,
    pub focused: Option<bool>,
}

/// A Discord user.
#[derive(Debug, PartialEq)]
pub struct User {
    pub id: u64,
    pub username: String,
    pub dicriminator: String,
    pub bot: Option<bool>,
}

/// A member of a guild.
#[derive(Debug, PartialEq)]
pub struct Member {
    pub user: Option<User>,
}

/// The footer of an embed.
#[derive(Debug, PartialEq)]
pub struct EmbedFooter {
    pub text: String,
    pub icon_url: Option<String>,
}

/// The image of an embed.
#[derive(Debug, PartialEq)]
pub struct EmbedImage {
    pub url: String,
    pub height: Option<u64>,
    pub width: Option<u64>,
}

/// The thumbnail of an embed.
#[derive(Debug, PartialEq)]
pub struct EmbedThumbnail {
    pub url: String,
    pub height: Option<u64>,
    pub width: Option<u64>,
}

/// One field of an embed.
#[derive(Debug, PartialEq)]
pub struct EmbedField {
    pub name: String,
    pub value: String,
    pub inline: Option<bool>,
}

/// A rich embed of a message.
#[derive(Debug, PartialEq)]
pub struct Embed {
    pub title: Option<String>,
    pub embed_type: Option<EmbedType>,
    pub description: Option<String>,
    pub url: Option<String>,
    pub color: Option<u64>,
    pub footer: Option<EmbedFooter>,
    pub image: Option<EmbedImage>,
    pub thumbnail: Option<EmbedThumbnail>,
    pub fields: Option<Vec<EmbedField>>,
}

/// A message component.
#[derive(Debug, PartialEq)]
pub struct Component {}

/// A message attachment.
#[derive(Debug, PartialEq)]
pub struct Attachment {}

/// The answer the bot sends back to Discord for an interaction.
#[derive(Debug, PartialEq)]
pub struct InteractionResponse {
    pub interaction_callback_type: InteractionCallbackType,
    pub data: Option<CallbackData>,
}

/// The payload of an interaction response.
#[derive(Debug, PartialEq)]
pub enum CallbackData {
    Message(MessagesInteractionCallbackData),
    Autocomplete(Option<AutocompleteInteractionCallbackData>),
}

/// A command as registered with Discord.
#[derive(Debug, PartialEq)]
pub struct RegisteredCommand {
    pub name: String,
    pub description: String,
    pub options: Option<Vec<ApplicationCommandOption>>,
}


/// Every interaction type carries the code Discord gives it: a ping 1, a slash
/// command 2, a message component 3, an autocomplete request 4, a modal submit 5.
pub proof fn interaction_type_codes_are_discords(t: InteractionType)
    ensures
        t == InteractionType::Ping ==> t.spec_code() == 1,
        t == InteractionType::ApplicationCommand ==> t.spec_code() == 2,
        t == InteractionType::MessageComponent ==> t.spec_code() == 3,
        t == InteractionType::ApplicationCommandAutocomplete ==> t.spec_code() == 4,
        t == InteractionType::ModalSubmit ==> t.spec_code() == 5,
{
}

/// Every response type carries the code Discord gives it: a pong 1, a message 4,
/// a deferred message 5, a deferred update 6, an update 7, autocomplete
/// choices 8, a modal 9.
pub proof fn callback_type_codes_are_discords(t: InteractionCallbackType)
    ensures
        t == InteractionCallbackType::Pong ==> t.spec_code() == 1,
        t == InteractionCallbackType::ChannelMessageWithSource ==> t.spec_code() == 4,
        t == InteractionCallbackType::DeferredChannelMessageWithSource ==> t.spec_code() == 5,
        t == InteractionCallbackType::DeferredUpdateMessage ==> t.spec_code() == 6,
        t == InteractionCallbackType::UpdateMessage ==> t.spec_code() == 7,
        t == InteractionCallbackType::ApplicationCommandAutocompleteResult ==> t.spec_code() == 8,
        t == InteractionCallbackType::Modal ==> t.spec_code() == 9,
{
}

/// Every option type carries the code Discord gives it, from a sub-command 1
/// to an attachment 11, in Discord's order.
pub proof fn option_type_codes_are_discords(t: ApplicationCommandOptionType)
    ensures
        t == ApplicationCommandOptionType::SubCommand ==> t.spec_code() == 1,
        t == ApplicationCommandOptionType::SubCommandGroup ==> t.spec_code() == 2,
        t == ApplicationCommandOptionType::String ==> t.spec_code() == 3,
        t == ApplicationCommandOptionType::Integer ==> t.spec_code() == 4,
        t == ApplicationCommandOptionType::Boolean ==> t.spec_code() == 5,
        t == ApplicationCommandOptionType::User ==> t.spec_code() == 6,
        t == ApplicationCommandOptionType::Channel ==> t.spec_code() == 7,
        t == ApplicationCommandOptionType::Role ==> t.spec_code() == 8,
        t == ApplicationCommandOptionType::Mentionable ==> t.spec_code() == 9,
        t == ApplicationCommandOptionType::Number ==> t.spec_code() == 10,
        t == ApplicationCommandOptionType::Attachment ==> t.spec_code() == 11,
{
}

/// Every channel type carries the code Discord gives it.
pub proof fn channel_type_codes_are_discords(t: ChannelType)
    ensures
        t == ChannelType::GuildText ==> t.spec_code() == 0,
        t == ChannelType::DM ==> t.spec_code() == 1,
        t == ChannelType::GuildVoice ==> t.spec_code() == 2,
        t == ChannelType::GuildCategory ==> t.spec_code() == 4,
        t == ChannelType::GuildAnnouncement ==> t.spec_code() == 5,
        t == ChannelType::AnnouncmentThread ==> t.spec_code() == 10,
        t == ChannelType::PublicThread ==> t.spec_code() == 11,
        t == ChannelType::PrivateThread ==> t.spec_code() == 12,
        t == ChannelType::GuildStageVoice ==> t.spec_code() == 13,
        t == ChannelType::GuildDirectory ==> t.spec_code() == 14,
        t == ChannelType::GuildForum ==> t.spec_code() == 15,
{
}

} // verus!
