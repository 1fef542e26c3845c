//! `/chance`: the probability of getting both a character constellation and a
//! weapon refinement within a number of wishes. The probability is floating
//! point; what stands here is the registration, the reading and checking of
//! the options, and the message.

use vstd::prelude::*;
use vstd::string::StringExecFns;
use crate::commands::{
    embed_message, embed_shape, single_field, inline_text_field, option_number, option_shape,
    plain_option, rich_embed, single_embed_message, Command, Input,
};
use crate::discord::{
    ApplicationCommandOption, ApplicationCommandOptionType, AutocompleteInteractionCallbackData,
    EmbedField, MessagesInteractionCallbackData,
};
use crate::text::{decimal, decimal_denotes, labelled, to_decimal};
use crate::utils::InteractionError;

verus! {

/// The `/chance` command.
pub struct Chance {}

/// The options of a `/chance` request.
#[derive(Debug, PartialEq, Eq, Clone, Copy)]
pub struct ChanceArgs {
    pub wishes: u64,
    pub character_pity: u64,
    pub weapon_pity: u64,
    pub character_cons: u64,
    pub weapon_refine: u64,
}

pub open spec fn chance_description() -> Seq<char> {
    "How does this calculation work? FREAKING MAGIC IDK. Looking for a detailed look at either characters or weapons? Use /chance**s**."@
}

/// The label of the answer: `C{cons}R{refine} with {wishes} wishes`.
pub open spec fn chance_label(args: ChanceArgs) -> Seq<char> {
    "C"@ + decimal(args.character_cons as nat) + "R"@ + decimal(args.weapon_refine as nat) + " with "@
        + decimal(args.wishes as nat) + " wishes"@
}

/// The options `/chance` is registered with.
pub open spec fn chance_options(res: Option<Vec<ApplicationCommandOption>>) -> bool {
    res matches Some(v) && v@.len() == 5 && (forall|i: int|
        0 <= i < 5 ==> (#[trigger] v@[i]).choices is None) && option_shape(
        v@[0],
        "wishes"@,
        "How many wishes do you have?"@,
        ApplicationCommandOptionType::Integer,
        false,
        true,
        Some(1),
        Some(2507),
    ) && option_shape(
        v@[1],
        "character_pity"@,
        "What character pity are you at right now?"@,
        ApplicationCommandOptionType::Integer,
        false,
        true,
        Some(0),
        Some(89),
    ) && option_shape(
        v@[2],
        "weapon_pity"@,
        "What character pity are you at right now?"@,
        ApplicationCommandOptionType::Integer,
        false,
        true,
        Some(0),
        Some(76),
    ) && option_shape(
        v@[3],
        "character_cons"@,
        "What character constellation are you aiming for?"@,
        ApplicationCommandOptionType::Integer,
        false,
        true,
        Some(0),
        Some(6),
    ) && option_shape(
        v@[4],
        "weapon_refine"@,
        "What weapon refinement are you aiming for?"@,
        ApplicationCommandOptionType::Integer,
        false,
        true,
        Some(1),
        Some(5),
    )
}

impl Command for Chance {
    fn name(&self) -> (res: String)
        ensures
            res@ == "chance"@,
    {
        String::from_str("chance")
    }

    fn description(&self) -> (res: String)
        ensures
            res@ == "Get the specific probabilty to pull a character and weapon combonation"@,
    {
        String::from_str("Get the specific probabilty to pull a character and weapon combonation")
    }

    /// Wishes (1 to 2507), character pity (0 to 89), weapon pity (0 to 76),
    /// the constellation (0 to 6) and the refinement (1 to 5) aimed for.
    fn options(&self) -> (res: Option<Vec<ApplicationCommandOption>>)
        ensures
            chance_options(res),
    {
        let mut v = Vec::new();
        v.push(
            plain_option(
                "wishes",
                "How many wishes do you have?",
                ApplicationCommandOptionType::Integer,
                false,
                true,
                Some(1),
                Some(2507),
            ),
        );
        v.push(
            plain_option(
                "character_pity",
                "What character pity are you at right now?",
                ApplicationCommandOptionType::Integer,
                false,
                true,
                Some(0),
                Some(89),
            ),
        );
        v.push(
            plain_option(
                "weapon_pity",
                "What character pity are you at right now?",
                ApplicationCommandOptionType::Integer,
                false,
                true,
                Some(0),
                Some(76),
            ),
        );
        v.push(
            plain_option(
                "character_cons",
                "What character constellation are you aiming for?",
                ApplicationCommandOptionType::Integer,
                false,
                true,
                Some(0),
                Some(6),
            ),
        );
        v.push(
            plain_option(
                "weapon_refine",
                "What weapon refinement are you aiming for?",
                ApplicationCommandOptionType::Integer,
                false,
                true,
                Some(1),
                Some(5),
            ),
        );
        Some(v)
    }

    fn autocomplete(&self, input: &Input) -> (res: Result<
        Option<AutocompleteInteractionCallbackData>,
        InteractionError,
    >)
        ensures
            res == Ok::<Option<AutocompleteInteractionCallbackData>, InteractionError>(None),
    {
        Ok(None)
    }
}

impl Chance {
    /// Reads the options of a request. `None` when one is absent or not a
    /// number, or when the wishes are 2508 or more, the character pity 90 or
    /// more, or the weapon pity 77 or more, which the calculation does not take.
    pub fn plan(&self, input: &Input) -> (res: Option<ChanceArgs>)
        ensures
            res == (match (
                option_number(*input, "character_cons"@),
                option_number(*input, "weapon_refine"@),
                option_number(*input, "wishes"@),
                option_number(*input, "character_pity"@),
                option_number(*input, "weapon_pity"@),
            ) {
                (Some(c), Some(r), Some(w), Some(cp), Some(wp)) => if w < 2508 && cp < 90 && wp < 77 {
                    Some(
                        ChanceArgs {
                            wishes: w,
                            character_pity: cp,
                            weapon_pity: wp,
                            character_cons: c,
                            weapon_refine: r,
                        },
                    )
                } else {
                    None
                },
                _ => None,
            }),
    {
        let character_cons = input.get_number("character_cons")?;
        let weapon_refine = input.get_number("weapon_refine")?;
        let wishes = input.get_number("wishes")?;
        let character_pity = input.get_number("character_pity")?;
        let weapon_pity = input.get_number("weapon_pity")?;
        if wishes < 2508 && character_pity < 90 && weapon_pity < 77 {
            Some(ChanceArgs { wishes, character_pity, weapon_pity, character_cons, weapon_refine })
        } else {
            None
        }
    }

    /// The label of the answer for `args`.
    pub fn label(args: &ChanceArgs) -> (res: String)
        ensures
            res@ == chance_label(*args),
            res@ == "C"@ + decimal(args.character_cons as nat) + "R"@ + decimal(
                args.weapon_refine as nat,
            ) + " with "@ + decimal(args.wishes as nat) + " wishes"@,
    {
        let mut s = labelled("C", args.character_cons);
        s.append(labelled("R", args.weapon_refine).as_str());
        s.append(" with ");
        s.append(to_decimal(args.wishes).as_str());
        s.append(" wishes");
        s
    }

    /// The answer: the probability text `chance` under the label of `args`.
    pub fn message(args: &ChanceArgs, chance: String) -> (res: MessagesInteractionCallbackData)
        ensures
            res.embeds matches Some(es) && es@.len() == 1 && embed_message(res, es@[0], None)
                && embed_shape(es@[0], "Combined chances calculator"@, chance_description(), 0x198754)
                && single_field(es@[0], chance_label(*args), chance@),
    {
        let mut fields: Vec<EmbedField> = Vec::new();
        fields.push(inline_text_field(Chance::label(args), chance));
        let embed = rich_embed(
            "Combined chances calculator",
            String::from_str(
                "How does this calculation work? FREAKING MAGIC IDK. Looking for a detailed look at either characters or weapons? Use /chance**s**.",
            ),
            0x198754,
            Some(fields),
        );
        single_embed_message(embed, None)
    }
}

/// The label of a `/chance` answer names the constellation, the refinement and
/// the number of wishes exactly as the request gave them:
/// `C{cons}R{refine} with {wishes} wishes`.
pub proof fn chance_label_names_the_request(args: ChanceArgs)
    ensures
        chance_label(args) == "C"@ + decimal(args.character_cons as nat) + "R"@ + decimal(
            args.weapon_refine as nat,
        ) + " with "@ + decimal(args.wishes as nat) + " wishes"@,
{
}

/// Two requests that ask for the same constellation and refinement within the
/// same number of wishes get the same label, whatever their pities.
pub proof fn chance_label_ignores_the_pities(a: ChanceArgs, b: ChanceArgs)
    requires
        a.wishes == b.wishes,
        a.character_cons == b.character_cons,
        a.weapon_refine == b.weapon_refine,
    ensures
        chance_label(a) == chance_label(b),
{
}

/// Requests for different numbers of wishes get different labels: the label
/// tells the wishes it was computed for.
pub proof fn chance_label_tells_the_wishes(a: ChanceArgs, b: ChanceArgs)
    requires
        a.character_cons == b.character_cons,
        a.weapon_refine == b.weapon_refine,
        a.wishes != b.wishes,
    ensures
        chance_label(a) != chance_label(b),
{
    let head = "C"@ + decimal(a.character_cons as nat) + "R"@ + decimal(a.weapon_refine as nat)
        + " with "@;
    let tail = " wishes"@;
    let la = head + decimal(a.wishes as nat) + tail;
    let lb = head + decimal(b.wishes as nat) + tail;
    if la == lb {
        assert(la.subrange(head.len() as int, la.len() - tail.len()) =~= decimal(a.wishes as nat));
        assert(lb.subrange(head.len() as int, lb.len() - tail.len()) =~= decimal(b.wishes as nat));
        decimal_denotes(a.wishes as nat);
        decimal_denotes(b.wishes as nat);
    }
}

} // verus!
