//! The slash commands of the bot and the input they are run on.

use vstd::prelude::*;
use vstd::string::StringExecFns;
use crate::discord::{
    ApplicationCommandInteractionDataOption, ApplicationCommandOption,
    ApplicationCommandOptionChoice, ApplicationCommandOptionType, AutocompleteInteractionCallbackData,
    Embed, EmbedField, EmbedType, Member, MessagesInteractionCallbackData, User,
};
use crate::text::{parse_decimal, parse_decimal_spec};
use crate::utils::InteractionError;
use crate::commands::about::{about_options, About};
use crate::commands::autocomplete_test::{autocomplete_test_options, AutocompleteTest};
use crate::commands::chance::{chance_options, Chance};
use crate::commands::chances::{chances_options, Chances};
use crate::commands::favonius::{favonius_options, Favonius};
use crate::commands::invite::{invite_options, Invite};
use crate::commands::pulls::{pulls_options, Pulls};

pub mod about;
pub mod autocomplete_test;
pub mod chance;
pub mod chances;
pub mod favonius;
pub mod invite;
pub mod pulls;

verus! {

/// What a command is run on: the invoking member or user, the options the user
/// supplied, and the guild and channel ids in decimal.
#[derive(Debug, PartialEq)]
pub struct Input {
    pub member: Option<Member>,
    pub user: Option<User>,
    pub options: Option<Vec<ApplicationCommandInteractionDataOption>>,
    pub guild_id: Option<String>,
    pub channel_id: Option<String>,
}

/// The position of the first option named `name` in `options`, if any.
pub open spec fn first_option_named(
    options: Seq<ApplicationCommandInteractionDataOption>,
    name: Seq<char>,
) -> Option<int>
    decreases options.len(),
{
    if options.len() == 0 {
        None
    } else if options[0].name@ == name {
        Some(0)
    } else {
        match first_option_named(options.drop_first(), name) {
            Some(i) => Some(i + 1),
            None => None,
        }
    }
}

pub open spec fn shifted(position: Option<int>, offset: int) -> Option<int> {
    match position {
        Some(k) => Some(k + offset),
        None => None,
    }
}

/// The value the user gave for the option `name`: that of the first option so named.
pub open spec fn option_value(input: Input, name: Seq<char>) -> Option<Seq<char>> {
    match input.options {
        None => None,
        Some(options) => match first_option_named(options@, name) {
            None => None,
            Some(i) => match options@[i].value {
                Some(v) => Some(v@),
                None => None,
            },
        },
    }
}

/// `first_option_named` finds the first option with the name, and nothing
/// when no option has it.
proof fn lemma_first_option_named(
    options: Seq<ApplicationCommandInteractionDataOption>,
    name: Seq<char>,
)
    ensures
        first_option_named(options, name) matches Some(i) ==> 0 <= i < options.len()
            && options[i].name@ == name && forall|j: int|
            0 <= j < i ==> (#[trigger] options[j]).name@ != name,
        first_option_named(options, name) is None ==> forall|j: int|
            0 <= j < options.len() ==> (#[trigger] options[j]).name@ != name,
    decreases options.len(),
{
    if options.len() > 0 && options[0].name@ != name {
        let rest = options.drop_first();
        lemma_first_option_named(rest, name);
        match first_option_named(rest, name) {
            Some(i) => {
                assert(options[i + 1] == rest[i]);
                assert forall|j: int| 0 <= j < i + 1 implies (#[trigger] options[j]).name@ != name by {
                    if j > 0 {
                        assert(options[j] == rest[j - 1]);
                    }
                }
            },
            None => {
                assert forall|j: int| 0 <= j < options.len() implies (#[trigger] options[j]).name@
                    != name by {
                    if j > 0 {
                        assert(options[j] == rest[j - 1]);
                    }
                }
            },
        }
    }
}

/// The value a command reads for the option `name` is the one the user gave
/// in the first option of that name: no option before it has the name, and
/// when the user gave no option of that name nothing is read.
pub proof fn option_value_is_the_first_named(input: Input, name: Seq<char>)
    ensures
        option_value(input, name) is Some ==> input.options is Some && exists|i: int|
            0 <= i < input.options->0@.len() && (#[trigger] input.options->0@[i]).name@ == name
                && input.options->0@[i].value is Some && input.options->0@[i].value->0@
                == option_value(input, name)->0 && forall|j: int|
                0 <= j < i ==> (#[trigger] input.options->0@[j]).name@ != name,
        input.options is None ==> option_value(input, name) is None,
        (input.options is Some && forall|j: int|
            0 <= j < input.options->0@.len() ==> (#[trigger] input.options->0@[j]).name@ != name)
            ==> option_value(input, name) is None,
{
    if let Some(options) = input.options {
        lemma_first_option_named(options@, name);
        if let Some(i) = first_option_named(options@, name) {
            assert(options@[i].name@ == name);
        }
    }
}

impl Input {
    /// The value of the first option named `name`, if the user gave one.
    pub fn get_options(&self, name: &str) -> (res: Option<&str>)
        ensures
            res is Some == option_value(*self, name@) is Some,
            res is Some ==> res->0@ == option_value(*self, name@)->0,
    {
        let options = match &self.options {
            Some(options) => options,
            None => {
                return None;
            },
        };
        let key = String::from_str(name);
        let mut i: usize = 0;
        assert(options@.skip(0) =~= options@);
        while i < options.len()
            invariant
                0 <= i <= options@.len(),
                key@ == name@,
                self.options == Some(*options),
                first_option_named(options@, name@) == shifted(
                    first_option_named(options@.skip(i as int), name@),
                    i as int,
                ),
            decreases options@.len() - i,
        {
            assert(options@.skip(i as int).drop_first() =~= options@.skip(i + 1));
            if options[i].name == key {
                return match &options[i].value {
                    Some(v) => Some(v.as_str()),
                    None => None,
                };
            }
            i = i + 1;
        }
        assert(options@.skip(i as int).len() == 0);
        None
    }

    /// The option `name` read as an unsigned decimal number: `None` when the
    /// option is absent or its value is not such a number.
    pub fn get_number(&self, name: &str) -> (res: Option<u64>)
        ensures
            res == option_number(*self, name@),
    {
        match self.get_options(name) {
            Some(v) => parse_decimal(v),
            None => None,
        }
    }
}

/// The value of the option `name` as an unsigned decimal number, if it is one.
pub open spec fn option_number(input: Input, name: Seq<char>) -> Option<u64> {
    match option_value(input, name) {
        Some(v) => parse_decimal_spec(v),
        None => None,
    }
}

/// A slash command of the bot: what it is registered with, and how it
/// completes what the user is typing.
pub trait Command {
    /// The name the command is invoked by.
    fn name(&self) -> String;

    /// The description shown to users.
    fn description(&self) -> String;

    /// The options the command takes.
    fn options(&self) -> Option<Vec<ApplicationCommandOption>>;

    /// The suggestions for the option being typed.
    fn autocomplete(&self, input: &Input) -> Result<
        Option<AutocompleteInteractionCallbackData>,
        InteractionError,
    >;
}

/// `s` holds the text `t`.
pub open spec fn text_is(s: Option<String>, t: Seq<char>) -> bool {
    s matches Some(x) && x@ == t
}

/// `o` is an option without predefined choices, nested options, length
/// limits or channel restrictions, with the given attributes.
pub open spec fn option_shape(
    o: ApplicationCommandOption,
    name: Seq<char>,
    description: Seq<char>,
    option_type: ApplicationCommandOptionType,
    autocomplete: bool,
    required: bool,
    min_value: Option<u64>,
    max_value: Option<u64>,
) -> bool {
    &&& o.name@ == name
    &&& o.description@ == description
    &&& o.option_type == option_type
    &&& o.options is None
    &&& o.autocomplete == Some(autocomplete)
    &&& o.required == Some(required)
    &&& o.min_value == min_value
    &&& o.max_value == max_value
    &&& o.min_length is None
    &&& o.max_length is None
    &&& o.channel_types is None
}

/// `choices` lists, in order, the choices named `names` with the values `values`.
pub open spec fn choices_are(
    choices: Option<Vec<ApplicationCommandOptionChoice>>,
    names: Seq<Seq<char>>,
    values: Seq<Seq<char>>,
) -> bool {
    &&& choices is Some
    &&& choices->0@.len() == names.len()
    &&& names.len() == values.len()
    &&& forall|i: int|
        0 <= i < names.len() ==> (#[trigger] choices->0@[i]).name@ == names[i]
            && choices->0@[i].value@ == values[i]
}

/// `e` is a rich embed with the given title, description and color, and no
/// link, footer, image or thumbnail.
pub open spec fn embed_shape(e: Embed, title: Seq<char>, description: Seq<char>, color: u64) -> bool {
    &&& text_is(e.title, title)
    &&& e.embed_type == Some(EmbedType::Rich)
    &&& text_is(e.description, description)
    &&& e.url is None
    &&& e.color == Some(color)
    &&& e.footer is None
    &&& e.image is None
    &&& e.thumbnail is None
}

/// `m` is a message made of the single embed `e`, with the given flags.
pub open spec fn embed_message(m: MessagesInteractionCallbackData, e: Embed, flags: Option<u64>) -> bool {
    &&& m.content is None
    &&& m.embeds matches Some(es) && es@ == seq![e]
    &&& m.components is None
    &&& m.attachment is None
    &&& m.flags == flags
}

/// `f` is an inline field with the given name and value.
pub open spec fn inline_field(f: EmbedField, name: Seq<char>, value: Seq<char>) -> bool {
    f.name@ == name && f.value@ == value && f.inline == Some(true)
}

/// `e` has exactly one field, an inline one with the given name and value.
pub open spec fn single_field(e: Embed, name: Seq<char>, value: Seq<char>) -> bool {
    e.fields matches Some(fs) && fs@.len() == 1 && inline_field(fs@[0], name, value)
}

pub(crate) fn plain_option(
    name: &str,
    description: &str,
    option_type: ApplicationCommandOptionType,
    autocomplete: bool,
    required: bool,
    min_value: Option<u64>,
    max_value: Option<u64>,
) -> (res: ApplicationCommandOption)
    ensures
        option_shape(
            res,
            name@,
            description@,
            option_type,
            autocomplete,
            required,
            min_value,
            max_value,
        ),
        res.choices is None,
{
    ApplicationCommandOption {
        name: String::from_str(name),
        description: String::from_str(description),
        option_type,
        choices: None,
        options: None,
        autocomplete: Some(autocomplete),
        required: Some(required),
        min_value,
        max_value,
        min_length: None,
        max_length: None,
        channel_types: None,
    }
}

pub(crate) fn choice(name: &str, value: &str) -> (res: ApplicationCommandOptionChoice)
    ensures
        res.name@ == name@,
        res.value@ == value@,
{
    ApplicationCommandOptionChoice { name: String::from_str(name), value: String::from_str(value) }
}

pub(crate) fn rich_embed(
    title: &str,
    description: String,
    color: u64,
    fields: Option<Vec<EmbedField>>,
) -> (res: Embed)
    ensures
        embed_shape(res, title@, description@, color),
        res.fields == fields,
{
    Embed {
        title: Some(String::from_str(title)),
        embed_type: Some(EmbedType::Rich),
        description: Some(description),
        url: None,
        color: Some(color),
        footer: None,
        image: None,
        thumbnail: None,
        fields,
    }
}

pub(crate) fn single_embed_message(embed: Embed, flags: Option<u64>) -> (res:
    MessagesInteractionCallbackData)
    ensures
        embed_message(res, embed, flags),
{
    let mut embeds: Vec<Embed> = Vec::new();
    embeds.push(embed);
    assert(embeds@ =~= seq![embed]);
    MessagesInteractionCallbackData {
        content: None,
        embeds: Some(embeds),
        components: None,
        attachment: None,
        flags,
    }
}

pub(crate) fn inline_text_field(name: String, value: String) -> (res: EmbedField)
    ensures
        inline_field(res, name@, value@),
{
    EmbedField { name, value, inline: Some(true) }
}

/// One of the bot's commands.
#[derive(Clone, Copy, Debug, PartialEq, Eq, Structural)]
pub enum CommandKind {
    About,
    AutocompleteTest,
    Chance,
    Chances,
    Favonius,
    Invite,
    Pulls,
}

/// The name each command is invoked by.
pub open spec fn command_name(kind: CommandKind) -> Seq<char> {
    match kind {
        CommandKind::About => "about"@,
        CommandKind::AutocompleteTest => "autocomplete"@,
        CommandKind::Chance => "chance"@,
        CommandKind::Chances => "chances"@,
        CommandKind::Favonius => "favonius"@,
        CommandKind::Invite => "invite"@,
        CommandKind::Pulls => "pulls"@,
    }
}

/// The description each command is registered with.
pub open spec fn command_description(kind: CommandKind) -> Seq<char> {
    match kind {
        CommandKind::About => "How does this bot work"@,
        CommandKind::AutocompleteTest => "autocomplete test"@,
        CommandKind::Chance => "Get the specific probabilty to pull a character and weapon combonation"@,
        CommandKind::Chances => "Get the probalitity to get desired 5 star"@,
        CommandKind::Favonius => "Get the probalitity that favonius sword procs"@,
        CommandKind::Invite => "Get invite link"@,
        CommandKind::Pulls => "Get the number of pulls needed for a character and weapon combinations with a specific probability"@,
    }
}

/// The options each command is registered with.
pub open spec fn command_options(kind: CommandKind, res: Option<Vec<ApplicationCommandOption>>) -> bool {
    match kind {
        CommandKind::About => about_options(res),
        CommandKind::AutocompleteTest => autocomplete_test_options(res),
        CommandKind::Chance => chance_options(res),
        CommandKind::Chances => chances_options(res),
        CommandKind::Favonius => favonius_options(res),
        CommandKind::Invite => invite_options(res),
        CommandKind::Pulls => pulls_options(res),
    }
}

/// Each command is registered and looked up under its own name: `/about`,
/// `/autocomplete`, `/chance`, `/chances`, `/favonius`, `/invite`, `/pulls`.
pub proof fn command_names_are_their_own(kind: CommandKind)
    ensures
        kind == CommandKind::About ==> command_name(kind) == "about"@,
        kind == CommandKind::AutocompleteTest ==> command_name(kind) == "autocomplete"@,
        kind == CommandKind::Chance ==> command_name(kind) == "chance"@,
        kind == CommandKind::Chances ==> command_name(kind) == "chances"@,
        kind == CommandKind::Favonius ==> command_name(kind) == "favonius"@,
        kind == CommandKind::Invite ==> command_name(kind) == "invite"@,
        kind == CommandKind::Pulls ==> command_name(kind) == "pulls"@,
{
}

/// No two commands share a name, so a name picks out one command.
pub proof fn command_names_distinct(a: CommandKind, b: CommandKind)
    ensures
        command_name(a) == command_name(b) ==> a == b,
{
    reveal_strlit("about");
    reveal_strlit("autocomplete");
    reveal_strlit("chance");
    reveal_strlit("chances");
    reveal_strlit("favonius");
    reveal_strlit("invite");
    reveal_strlit("pulls");
    if command_name(a) == command_name(b) && a != b {
        let na = command_name(a);
        let nb = command_name(b);
        if na.len() == nb.len() {
            assert(na[0] != nb[0] || na[1] != nb[1]);
        }
    }
}

impl CommandKind {
    /// The name the command is invoked by.
    pub fn name(&self) -> (res: String)
        ensures
            res@ == command_name(*self),
    {
        match self {
            CommandKind::About => About {}.name(),
            CommandKind::AutocompleteTest => AutocompleteTest {}.name(),
            CommandKind::Chance => Chance {}.name(),
            CommandKind::Chances => Chances {}.name(),
            CommandKind::Favonius => Favonius {}.name(),
            CommandKind::Invite => Invite {}.name(),
            CommandKind::Pulls => Pulls {}.name(),
        }
    }

    /// The description shown to users.
    pub fn description(&self) -> (res: String)
        ensures
            res@ == command_description(*self),
    {
        match self {
            CommandKind::About => About {}.description(),
            CommandKind::AutocompleteTest => AutocompleteTest {}.description(),
            CommandKind::Chance => Chance {}.description(),
            CommandKind::Chances => Chances {}.description(),
            CommandKind::Favonius => Favonius {}.description(),
            CommandKind::Invite => Invite {}.description(),
            CommandKind::Pulls => Pulls {}.description(),
        }
    }

    /// The options the command takes.
    pub fn options(&self) -> (res: Option<Vec<ApplicationCommandOption>>)
        ensures
            command_options(*self, res),
    {
        match self {
            CommandKind::About => About {}.options(),
            CommandKind::AutocompleteTest => AutocompleteTest {}.options(),
            CommandKind::Chance => Chance {}.options(),
            CommandKind::Chances => Chances {}.options(),
            CommandKind::Favonius => Favonius {}.options(),
            CommandKind::Invite => Invite {}.options(),
            CommandKind::Pulls => Pulls {}.options(),
        }
    }
}

/// The commands the bot offers, in the order they are looked up. The list is
/// empty: no command is offered yet.
pub fn get_commands() -> (res: Vec<CommandKind>)
    ensures
        res@ == Seq::<CommandKind>::empty(),
{
    Vec::new()
}

/// The names of `commands`, in order.
pub fn command_names(commands: &Vec<CommandKind>) -> (res: Vec<String>)
    ensures
        res@.len() == commands@.len(),
        forall|i: int| 0 <= i < commands@.len() ==> (#[trigger] res@[i])@ == command_name(commands@[i]),
{
    let mut names: Vec<String> = Vec::new();
    let mut i: usize = 0;
    while i < commands.len()
        invariant
            0 <= i <= commands@.len(),
            names@.len() == i,
            forall|j: int| 0 <= j < i ==> (#[trigger] names@[j])@ == command_name(commands@[j]),
        decreases commands@.len() - i,
    {
        names.push(commands[i].name());
        i = i + 1;
    }
    names
}

} // verus!
