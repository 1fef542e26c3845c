//! `/pulls`: how many wishes reach a given probability of a character
//! constellation, a weapon refinement, or both. The search over the
//! probabilities is floating point; what stands here is the registration, the
//! reading and checking of the options, the label and the message.

use vstd::prelude::*;
use vstd::string::StringExecFns;
use crate::commands::{
    embed_message, embed_shape, inline_text_field, option_number, option_shape, option_value,
    plain_option, rich_embed, single_embed_message, single_field, Command, Input,
};
use crate::discord::{
    ApplicationCommandOption, ApplicationCommandOptionType, AutocompleteInteractionCallbackData,
    EmbedField, MessagesInteractionCallbackData,
};
use crate::text::{decimal, labelled, to_decimal};
use crate::utils::InteractionError;

verus! {

/// The `/pulls` command.
pub struct Pulls {}

/// The value that stands for a constellation or refinement the user did not ask for.
pub const NOT_AIMED_FOR: u64 = 100;

/// The integer options of a `/pulls` request; an unasked constellation or
/// refinement is `NOT_AIMED_FOR`.
#[derive(Debug, PartialEq, Eq, Clone, Copy)]
pub struct PullsArgs {
    pub character_pity: u64,
    pub weapon_pity: u64,
    pub character_cons: u64,
    pub weapon_refine: u64,
}

/// An optional option read as a number, `NOT_AIMED_FOR` when absent; `None`
/// when present but not a number.
pub open spec fn aimed_for(input: Input, name: Seq<char>) -> Option<u64> {
    match option_value(input, name) {
        None => Some(NOT_AIMED_FOR),
        Some(_) => option_number(input, name),
    }
}

/// The label of the answer, by what was aimed for.
pub open spec fn pulls_label(cons: u64, refine: u64, probability: Seq<char>) -> Seq<char> {
    if cons == NOT_AIMED_FOR && refine == NOT_AIMED_FOR {
        "Pulls necessary to get nothing"@
    } else if cons == NOT_AIMED_FOR {
        "Pulls necessary to get R"@ + decimal(refine as nat) + " with probability "@ + probability
    } else if refine == NOT_AIMED_FOR {
        "Pulls necessary to get C"@ + decimal(cons as nat) + " with probability "@ + probability
    } else {
        "Pulls necessary to get C"@ + decimal(cons as nat) + "R"@ + decimal(refine as nat)
            + " with probability "@ + probability
    }
}

/// The options `/pulls` is registered with.
pub open spec fn pulls_options(res: Option<Vec<ApplicationCommandOption>>) -> bool {
    res matches Some(v) && v@.len() == 5 && (forall|i: int|
        0 <= i < 5 ==> (#[trigger] v@[i]).choices is None) && option_shape(
        v@[0],
        "probability"@,
        "Probability you wish to need"@,
        ApplicationCommandOptionType::Number,
        false,
        true,
        Some(0),
        Some(1),
    ) && option_shape(
        v@[1],
        "character_pity"@,
        "What character pity are you at right now?"@,
        ApplicationCommandOptionType::Integer,
        false,
        true,
        Some(0),
        Some(89),
    ) && option_shape(
        v@[2],
        "weapon_pity"@,
        "What character pity are you at right now?"@,
        ApplicationCommandOptionType::Integer,
        false,
        true,
        Some(0),
        Some(76),
    ) && option_shape(
        v@[3],
        "character_cons"@,
        "What character constellation are you aiming for?"@,
        ApplicationCommandOptionType::Integer,
        false,
        false,
        Some(0),
        Some(6),
    ) && option_shape(
        v@[4],
        "weapon_refine"@,
        "What weapon refinement are you aiming for?"@,
        ApplicationCommandOptionType::Integer,
        false,
        false,
        Some(1),
        Some(5),
    )
}

impl Command for Pulls {
    fn name(&self) -> (res: String)
        ensures
            res@ == "pulls"@,
    {
        String::from_str("pulls")
    }

    fn description(&self) -> (res: String)
        ensures
            res@
                == "Get the number of pulls needed for a character and weapon combinations with a specific probability"@,
    {
        String::from_str(
            "Get the number of pulls needed for a character and weapon combinations with a specific probability",
        )
    }

    /// The probability (0 to 1), character pity (0 to 89), weapon pity (0 to
    /// 76), and optionally the constellation (0 to 6) and refinement (1 to 5).
    fn options(&self) -> (res: Option<Vec<ApplicationCommandOption>>)
        ensures
            pulls_options(res),
    {
        let mut v = Vec::new();
        v.push(
            plain_option(
                "probability",
                "Probability you wish to need",
                ApplicationCommandOptionType::Number,
                false,
                true,
                Some(0),
                Some(1),
            ),
        );
        v.push(
            plain_option(
                "character_pity",
                "What character pity are you at right now?",
                ApplicationCommandOptionType::Integer,
                false,
                true,
                Some(0),
                Some(89),
            ),
        );
        v.push(
            plain_option(
                "weapon_pity",
                "What character pity are you at right now?",
                ApplicationCommandOptionType::Integer,
                false,
                true,
                Some(0),
                Some(76),
            ),
        );
        v.push(
            plain_option(
                "character_cons",
                "What character constellation are you aiming for?",
                ApplicationCommandOptionType::Integer,
                false,
                false,
                Some(0),
                Some(6),
            ),
        );
        v.push(
            plain_option(
                "weapon_refine",
                "What weapon refinement are you aiming for?",
                ApplicationCommandOptionType::Integer,
                false,
                false,
                Some(1),
                Some(5),
            ),
        );
        Some(v)
    }

    fn autocomplete(&self, input: &Input) -> (res: Result<
        Option<AutocompleteInteractionCallbackData>,
        InteractionError,
    >)
        ensures
            res == Ok::<Option<AutocompleteInteractionCallbackData>, InteractionError>(None),
    {
        Ok(None)
    }
}

/// What `Pulls::plan` gives for `input`.
pub open spec fn pulls_plan(input: Input) -> Option<PullsArgs> {
    match (
        aimed_for(input, "character_cons"@),
        aimed_for(input, "weapon_refine"@),
        option_number(input, "character_pity"@),
        option_number(input, "weapon_pity"@),
    ) {
        (Some(c), Some(r), Some(cp), Some(wp)) => if cp < 90 && wp < 77 {
            Some(
                PullsArgs {
                    character_pity: cp,
                    weapon_pity: wp,
                    character_cons: c,
                    weapon_refine: r,
                },
            )
        } else {
            None
        },
        _ => None,
    }
}

/// The options of `input` can be computed with: both pities are numbers
/// within range, and an aimed-for option that is given is a number.
pub open spec fn pulls_options_usable(input: Input) -> bool {
    &&& option_number(input, "character_pity"@) is Some
    &&& option_number(input, "character_pity"@)->0 < 90
    &&& option_number(input, "weapon_pity"@) is Some
    &&& option_number(input, "weapon_pity"@)->0 < 77
    &&& option_value(input, "character_cons"@) is Some ==> option_number(
        input,
        "character_cons"@,
    ) is Some
    &&& option_value(input, "weapon_refine"@) is Some ==> option_number(input, "weapon_refine"@) is Some
}

/// `n` is what the request asked for under `name`: the number given, or
/// `NOT_AIMED_FOR` exactly when the option is absent.
pub open spec fn aimed_value_carried(input: Input, name: Seq<char>, n: u64) -> bool {
    &&& option_value(input, name) is Some ==> option_number(input, name) == Some(n)
    &&& option_value(input, name) is None ==> n == NOT_AIMED_FOR
}

/// A `/pulls` request is computed with exactly what it asked for: it is taken
/// exactly when its pities are numbers in range and every aimed-for option
/// given is a number; the pities are carried as given; a constellation or
/// refinement that is given is carried as the number given (C0 included),
/// and `NOT_AIMED_FOR` stands only for one that is absent.
pub proof fn pulls_plan_carries_what_was_asked(input: Input)
    ensures
        pulls_plan(input) is Some <==> pulls_options_usable(input),
        pulls_plan(input) is Some ==> Some(pulls_plan(input)->0.character_pity) == option_number(
            input,
            "character_pity"@,
        ) && Some(pulls_plan(input)->0.weapon_pity) == option_number(input, "weapon_pity"@),
        pulls_plan(input) is Some ==> {
            &&& option_value(input, "character_cons"@) is Some ==> option_number(
                input,
                "character_cons"@,
            ) == Some(pulls_plan(input)->0.character_cons)
            &&& option_value(input, "character_cons"@) is None ==> pulls_plan(input)->0.character_cons
                == NOT_AIMED_FOR
            &&& option_value(input, "weapon_refine"@) is Some ==> option_number(
                input,
                "weapon_refine"@,
            ) == Some(pulls_plan(input)->0.weapon_refine)
            &&& option_value(input, "weapon_refine"@) is None ==> pulls_plan(input)->0.weapon_refine
                == NOT_AIMED_FOR
        },
{
}

impl Pulls {
    fn aimed(input: &Input, name: &str) -> (res: Option<u64>)
        ensures
            res == aimed_for(*input, name@),
    {
        match input.get_options(name) {
            Some(_) => input.get_number(name),
            None => Some(NOT_AIMED_FOR),
        }
    }

    /// Reads the integer options of a request. `None` when the pities are
    /// absent or not numbers, when an aimed-for value is given but is not a
    /// number, or when the character pity is 90 or more or the weapon pity 77
    /// or more, which the calculation does not take.
    pub fn plan(&self, input: &Input) -> (res: Option<PullsArgs>)
        ensures
            res == pulls_plan(*input),
            res is Some <==> pulls_options_usable(*input),
            res is Some ==> Some(res->0.character_pity) == option_number(*input, "character_pity"@)
                && Some(res->0.weapon_pity) == option_number(*input, "weapon_pity"@),
            res is Some ==> aimed_value_carried(*input, "character_cons"@, res->0.character_cons),
            res is Some ==> aimed_value_carried(*input, "weapon_refine"@, res->0.weapon_refine),
    {
        let character_cons = Pulls::aimed(input, "character_cons")?;
        let weapon_refine = Pulls::aimed(input, "weapon_refine")?;
        let character_pity = input.get_number("character_pity")?;
        let weapon_pity = input.get_number("weapon_pity")?;
        if character_pity < 90 && weapon_pity < 77 {
            Some(PullsArgs { character_pity, weapon_pity, character_cons, weapon_refine })
        } else {
            None
        }
    }

    /// The label of the answer; `probability` is the probability as the user gave it.
    pub fn label(cons: u64, refine: u64, probability: &str) -> (res: String)
        ensures
            res@ == pulls_label(cons, refine, probability@),
            cons == NOT_AIMED_FOR && refine == NOT_AIMED_FOR ==> res@
                == "Pulls necessary to get nothing"@,
            cons == NOT_AIMED_FOR && refine != NOT_AIMED_FOR ==> res@ == "Pulls necessary to get R"@
                + decimal(refine as nat) + " with probability "@ + probability@,
            cons != NOT_AIMED_FOR && refine == NOT_AIMED_FOR ==> res@ == "Pulls necessary to get C"@
                + decimal(cons as nat) + " with probability "@ + probability@,
            cons != NOT_AIMED_FOR && refine != NOT_AIMED_FOR ==> res@ == "Pulls necessary to get C"@
                + decimal(cons as nat) + "R"@ + decimal(refine as nat) + " with probability "@
                + probability@,
    {
        if cons == NOT_AIMED_FOR && refine == NOT_AIMED_FOR {
            String::from_str("Pulls necessary to get nothing")
        } else if cons == NOT_AIMED_FOR {
            let mut s = labelled("Pulls necessary to get R", refine);
            s.append(" with probability ");
            s.append(probability);
            s
        } else if refine == NOT_AIMED_FOR {
            let mut s = labelled("Pulls necessary to get C", cons);
            s.append(" with probability ");
            s.append(probability);
            s
        } else {
            let mut s = labelled("Pulls necessary to get C", cons);
            s.append(labelled("R", refine).as_str());
            s.append(" with probability ");
            s.append(probability);
            s
        }
    }

    /// The answer: the number of pulls under its label.
    pub fn message(args: &PullsArgs, probability: &str, pulls: u64) -> (res:
        MessagesInteractionCallbackData)
        ensures
            res.embeds matches Some(es) && es@.len() == 1 && embed_message(res, es@[0], None)
                && embed_shape(
                es@[0],
                "Pulls necessary calculator"@,
                "Want the inverse of this function? use /chance or /chances."@,
                0x198754,
            ) && single_field(
                es@[0],
                pulls_label(args.character_cons, args.weapon_refine, probability@),
                decimal(pulls as nat),
            ),
    {
        let mut fields: Vec<EmbedField> = Vec::new();
        fields.push(
            inline_text_field(
                Pulls::label(args.character_cons, args.weapon_refine, probability),
                to_decimal(pulls),
            ),
        );
        let embed = rich_embed(
            "Pulls necessary calculator",
            String::from_str("Want the inverse of this function? use /chance or /chances."),
            0x198754,
            Some(fields),
        );
        single_embed_message(embed, None)
    }
}

/// The label of a `/pulls` answer names what was aimed for and nothing else:
/// `C{cons}` for a constellation asked for, `R{refine}` for a refinement asked
/// for, both in that order when both were, followed by the probability as the
/// user gave it; "nothing" only when neither was asked for.
pub proof fn pulls_label_names_the_goal(cons: u64, refine: u64, probability: Seq<char>)
    ensures
        cons == NOT_AIMED_FOR && refine == NOT_AIMED_FOR ==> pulls_label(cons, refine, probability)
            == "Pulls necessary to get nothing"@,
        cons == NOT_AIMED_FOR && refine != NOT_AIMED_FOR ==> pulls_label(cons, refine, probability)
            == "Pulls necessary to get R"@ + decimal(refine as nat) + " with probability "@
            + probability,
        cons != NOT_AIMED_FOR && refine == NOT_AIMED_FOR ==> pulls_label(cons, refine, probability)
            == "Pulls necessary to get C"@ + decimal(cons as nat) + " with probability "@
            + probability,
        cons != NOT_AIMED_FOR && refine != NOT_AIMED_FOR ==> pulls_label(cons, refine, probability)
            == "Pulls necessary to get C"@ + decimal(cons as nat) + "R"@ + decimal(refine as nat)
            + " with probability "@ + probability,
{
}

} // verus!
