//! `/chances`: the probability of each constellation of a 5-star character, or
//! of each refinement of a 5-star weapon, within a number of wishes. The
//! probabilities themselves are floating point; what stands here is the
//! command's registration, the choice of banner, the refusal of a weapon pity
//! out of range, the binomial coefficients the character odds are built from,
//! the significant-digit rule, and the messages.

use vstd::prelude::*;
use vstd::string::StringExecFns;
use crate::commands::{
    option_value, choice, choices_are, embed_message, embed_shape, inline_field, inline_text_field,
    option_number, option_shape, plain_option, rich_embed, single_embed_message, Command, Input,
};
use crate::discord::{
    ApplicationCommandOption, ApplicationCommandOptionType, AutocompleteInteractionCallbackData,
    EmbedField, MessagesInteractionCallbackData,
};
use crate::text::{all_digits, decimal, digits_value, labelled, parse_decimal_spec};
use crate::utils::InteractionError;

verus! {

/// The number of ways to pick `k` of `n` items (Pascal's rule).
pub open spec fn binom(n: nat, k: nat) -> nat
    decreases n,
{
    if k == 0 {
        1
    } else if n == 0 {
        0
    } else {
        binom((n - 1) as nat, (k - 1) as nat) + binom((n - 1) as nat, k)
    }
}

pub open spec fn smaller(a: nat, b: nat) -> nat {
    if a < b {
        a
    } else {
        b
    }
}

proof fn lemma_binom_beyond(n: nat, k: nat)
    requires
        k > n,
    ensures
        binom(n, k) == 0,
    decreases n,
{
    if n > 0 {
        lemma_binom_beyond((n - 1) as nat, (k - 1) as nat);
        lemma_binom_beyond((n - 1) as nat, k);
    }
}

proof fn lemma_binom_all(n: nat)
    ensures
        binom(n, n) == 1,
    decreases n,
{
    if n > 0 {
        lemma_binom_all((n - 1) as nat);
        lemma_binom_beyond((n - 1) as nat, n);
    }
}

proof fn lemma_binom_one(n: nat)
    ensures
        binom(n, 1) == n,
    decreases n,
{
    if n > 0 {
        lemma_binom_one((n - 1) as nat);
        assert(binom(n, 1) == binom((n - 1) as nat, 0) + binom((n - 1) as nat, 1));
    }
}

/// `k * C(n, k) == n * C(n - 1, k - 1)`.
proof fn lemma_absorption(n: nat, k: nat)
    requires
        n >= 1,
        k >= 1,
    ensures
        k * binom(n, k) == n * binom((n - 1) as nat, (k - 1) as nat),
    decreases n,
{
    if k == 1 {
        lemma_binom_one(n);
        assert(binom((n - 1) as nat, 0) == 1);
    } else if n == 1 {
        lemma_binom_beyond(0, (k - 1) as nat);
        lemma_binom_beyond(1, k);
    } else {
        let a = binom((n - 2) as nat, (k - 2) as nat);
        let b = binom((n - 2) as nat, (k - 1) as nat);
        let c1 = binom((n - 1) as nat, (k - 1) as nat);
        let c2 = binom((n - 1) as nat, k);
        lemma_absorption((n - 1) as nat, k);
        lemma_absorption((n - 1) as nat, (k - 1) as nat);
        assert(binom(n, k) == c1 + c2);
        assert(c1 == a + b);
        assert(k * c2 == (n - 1) * b);
        assert((k - 1) * c1 == (n - 1) * a);
        assert(k * binom(n, k) == n * c1) by (nonlinear_arith)
            requires
                binom(n, k) == c1 + c2,
                c1 == a + b,
                k * c2 == (n - 1) * b,
                (k - 1) * c1 == (n - 1) * a,
        ;
    }
}

/// One step of the multiplicative formula: `v * C(n, v) == (n - v + 1) * C(n, v - 1)`.
proof fn lemma_step(n: nat, v: nat)
    requires
        1 <= v <= n,
    ensures
        binom(n, v) * v == binom(n, (v - 1) as nat) * (n - v + 1),
{
    lemma_absorption(n, v);
    let p = binom((n - 1) as nat, (v - 2) as nat);
    let q = binom((n - 1) as nat, (v - 1) as nat);
    if v == 1 {
        lemma_binom_one(n);
        assert(binom(n, 0) == 1);
        assert(binom(n, v) * v == n);
        assert(binom(n, (v - 1) as nat) * (n - v + 1) == n);
    } else {
        lemma_absorption(n, (v - 1) as nat);
        assert(binom(n, (v - 1) as nat) == p + q);
        assert((v - 1) * binom(n, (v - 1) as nat) == n * p);
        assert(v * binom(n, v) == n * q);
        assert(binom(n, v) * v == binom(n, (v - 1) as nat) * (n - v + 1)) by (nonlinear_arith)
            requires
                binom(n, (v - 1) as nat) == p + q,
                (v - 1) * binom(n, (v - 1) as nat) == n * p,
                v * binom(n, v) == n * q,
                1 <= v <= n,
        ;
    }
}

/// Picking `k` of `n` items is picking the `n - k` left out.
pub proof fn binom_symmetric(n: nat, k: nat)
    requires
        k <= n,
    ensures
        binom(n, k) == binom(n, (n - k) as nat),
    decreases n,
{
    if k == 0 {
        lemma_binom_all(n);
    } else if k == n {
        lemma_binom_all(n);
    } else {
        binom_symmetric((n - 1) as nat, (k - 1) as nat);
        binom_symmetric((n - 1) as nat, k);
        assert(binom(n, (n - k) as nat) == binom((n - 1) as nat, (n - k - 1) as nat) + binom(
            (n - 1) as nat,
            (n - k) as nat,
        ));
    }
}

/// The binomial coefficient `C(n, k)`, by the multiplicative formula run up to
/// `min(k, n - k)` as `(1..=m).fold(1, |acc, v| acc * (n - v + 1) / v)` does;
/// each division is exact. The products must fit in a `usize`.
pub fn binomial(n: usize, k: usize) -> (res: usize)
    requires
        k <= n,
        forall|v: nat|
            1 <= v <= smaller(k as nat, (n - k) as nat) ==> #[trigger] binom(n as nat, v) * v
                <= usize::MAX,
    ensures
        res == binom(n as nat, k as nat),
{
    let m = if k < n - k {
        k
    } else {
        n - k
    };
    let mut acc: usize = 1;
    let mut v: usize = 1;
    while v <= m
        invariant
            m == smaller(k as nat, (n - k) as nat),
            m <= n,
            1 <= v <= m + 1,
            acc == binom(n as nat, (v - 1) as nat),
            forall|w: nat|
                1 <= w <= smaller(k as nat, (n - k) as nat) ==> #[trigger] binom(n as nat, w) * w
                    <= usize::MAX,
        decreases m + 1 - v,
    {
        proof {
            lemma_step(n as nat, v as nat);
            assert(binom(n as nat, v as nat) * v <= usize::MAX);
        }
        let product = acc * (n - v + 1);
        assert(product / v == binom(n as nat, v as nat)) by (nonlinear_arith)
            requires
                product == binom(n as nat, v as nat) * v,
                v >= 1,
        ;
        acc = product / v;
        v = v + 1;
    }
    proof {
        binom_symmetric(n as nat, k as nat);
        assert((n - (n - k)) as nat == k as nat);
    }
    acc
}

/// The number of digits after the decimal point that shows `sigfigs`
/// significant digits of a number with `leading_digits` digits before it
/// (negative for the zeros after the point of a fraction).
pub fn sigfig_decimals(leading_digits: isize, sigfigs: isize) -> (res: usize)
    requires
        leading_digits <= sigfigs ==> sigfigs - leading_digits <= isize::MAX,
    ensures
        leading_digits > sigfigs ==> res == 0,
        leading_digits <= sigfigs ==> res == sigfigs - leading_digits,
{
    if leading_digits > sigfigs {
        0
    } else {
        (sigfigs - leading_digits) as usize
    }
}

/// The `/chances` command.
pub struct Chances {}

/// The options `/chances` is registered with.
pub open spec fn chances_options(res: Option<Vec<ApplicationCommandOption>>) -> bool {
    res matches Some(v) && v@.len() == 4 && option_shape(
        v@[0],
        "banner"@,
        "Which banner are you rolling on?"@,
        ApplicationCommandOptionType::Integer,
        false,
        true,
        None,
        None,
    ) && choices_are(
        v@[0].choices,
        seq!["5 star Character"@, "5 star Weapon"@],
        seq!["0"@, "1"@],
    ) && option_shape(
        v@[1],
        "wishes"@,
        "How many wishes do you have?"@,
        ApplicationCommandOptionType::Integer,
        false,
        true,
        Some(1),
        Some(1260),
    ) && v@[1].choices is None && option_shape(
        v@[2],
        "pity"@,
        "What pity are you at right now?"@,
        ApplicationCommandOptionType::Integer,
        false,
        true,
        Some(0),
        Some(89),
    ) && v@[2].choices is None && option_shape(
        v@[3],
        "guarantee"@,
        "Do you have guarentee or are you at 50/50"@,
        ApplicationCommandOptionType::Integer,
        false,
        true,
        None,
        None,
    ) && choices_are(v@[3].choices, seq!["Yes"@, "No"@, "N/A"@], seq!["1"@, "0"@, "0"@])
}

impl Command for Chances {
    fn name(&self) -> (res: String)
        ensures
            res@ == "chances"@,
    {
        String::from_str("chances")
    }

    fn description(&self) -> (res: String)
        ensures
            res@ == "Get the probalitity to get desired 5 star"@,
    {
        String::from_str("Get the probalitity to get desired 5 star")
    }

    /// The banner (character `0` or weapon `1`), the number of wishes (1 to
    /// 1260), the current pity (0 to 89) and whether the next 5-star is guaranteed.
    fn options(&self) -> (res: Option<Vec<ApplicationCommandOption>>)
        ensures
            chances_options(res),
    {
        let mut banner = plain_option(
            "banner",
            "Which banner are you rolling on?",
            ApplicationCommandOptionType::Integer,
            false,
            true,
            None,
            None,
        );
        let mut banners = Vec::new();
        banners.push(choice("5 star Character", "0"));
        banners.push(choice("5 star Weapon", "1"));
        banner.choices = Some(banners);
        let wishes = plain_option(
            "wishes",
            "How many wishes do you have?",
            ApplicationCommandOptionType::Integer,
            false,
            true,
            Some(1),
            Some(1260),
        );
        let pity = plain_option(
            "pity",
            "What pity are you at right now?",
            ApplicationCommandOptionType::Integer,
            false,
            true,
            Some(0),
            Some(89),
        );
        let mut guarantee = plain_option(
            "guarantee",
            "Do you have guarentee or are you at 50/50",
            ApplicationCommandOptionType::Integer,
            false,
            true,
            None,
            None,
        );
        let mut answers = Vec::new();
        answers.push(choice("Yes", "1"));
        answers.push(choice("No", "0"));
        answers.push(choice("N/A", "0"));
        guarantee.choices = Some(answers);
        let mut v = Vec::new();
        v.push(banner);
        v.push(wishes);
        v.push(pity);
        v.push(guarantee);
        Some(v)
    }

    fn autocomplete(&self, input: &Input) -> (res: Result<
        Option<AutocompleteInteractionCallbackData>,
        InteractionError,
    >)
        ensures
            res == Ok::<Option<AutocompleteInteractionCallbackData>, InteractionError>(None),
    {
        Ok(None)
    }
}

/// What `/chances` computes for the options it was given.
#[derive(Debug, PartialEq)]
pub enum ChancesPlan {
    /// The odds of each constellation C0 to C6 of the banner character.
    Character { wishes: u64, pity: u64, guarantee: u64 },
    /// The odds of each refinement R1 to R5 of the banner weapon.
    Weapon { wishes: u64, pity: u64 },
    /// Answer with this message and compute nothing.
    Reply(MessagesInteractionCallbackData),
}

/// The message every error of the calculators is shown in: only to the user
/// who asked (flag `1 << 6`), with a red embed titled `Error`.
pub open spec fn refusal(m: MessagesInteractionCallbackData, description: Seq<char>) -> bool {
    m.embeds matches Some(es) && es@.len() == 1 && embed_message(m, es@[0], Some(64)) && embed_shape(
        es@[0],
        "Error"@,
        description,
        0xcc0000,
    ) && es@[0].fields is None
}

pub open spec fn explanation() -> Seq<char> {
    "If you wish to understand the math behind this calculation, view the explanation [here](https://drive.google.com/file/d/1EECcjNVpfiOTqRoS48hHWqH2Ake902vq/view?usp=sharing). Looking to pull for both a character and weapon? Use /chance (no s)."@
}

/// `m` shows the `values` under the labels `prefix` followed by `first`, `first + 1`, ....
pub open spec fn result_message(
    m: MessagesInteractionCallbackData,
    title: Seq<char>,
    prefix: Seq<char>,
    first: nat,
    values: Seq<String>,
) -> bool {
    &&& m.embeds is Some
    &&& m.embeds->0@.len() == 1
    &&& embed_message(m, m.embeds->0@[0], None)
    &&& embed_shape(m.embeds->0@[0], title, explanation(), 0x198754)
    &&& m.embeds->0@[0].fields is Some
    &&& m.embeds->0@[0].fields->0@.len() == values.len()
    &&& forall|i: int|
        0 <= i < values.len() ==> inline_field(
            #[trigger] m.embeds->0@[0].fields->0@[i],
            prefix + decimal((first + i) as nat),
            values[i]@,
        )
}

fn refusal_message(description: String) -> (res: MessagesInteractionCallbackData)
    ensures
        refusal(res, description@),
{
    let ephemeral: u64 = 1 << 6;
    assert(ephemeral == 64) by (bit_vector)
        requires
            ephemeral == 1u64 << 6,
    ;
    single_embed_message(rich_embed("Error", description, 0xcc0000, None), Some(ephemeral))
}

impl Chances {
    /// The answer to a weapon pity of `pity`: a refusal when it is 77 or more,
    /// the most a weapon banner's pity can be.
    pub fn weapon_pity_refusal(pity: u64) -> (res: Option<MessagesInteractionCallbackData>)
        ensures
            res is Some <==> pity >= 77,
            res matches Some(m) ==> refusal(
                m,
                "Pity "@ + decimal(pity as nat) + " is greater than the maximum weapon pity of 77."@,
            ),
    {
        if pity >= 77 {
            let mut text = labelled("Pity ", pity);
            text.append(" is greater than the maximum weapon pity of 77.");
            Some(refusal_message(text))
        } else {
            None
        }
    }

    /// What to compute for `input`: the banner `0` gives the character odds,
    /// `1` the weapon odds (refused for a pity of 77 or more), anything else a
    /// refusal. `None` when an option that the chosen banner needs is absent
    /// or not a number, or when no banner was given.
    pub fn plan(&self, input: &Input) -> (res: Option<ChancesPlan>)
        ensures
            option_value(*input, "banner"@) is None ==> res is None,
            option_value(*input, "banner"@) is Some ==> match option_number(*input, "banner"@) {
                Some(0) => match (
                    option_number(*input, "wishes"@),
                    option_number(*input, "pity"@),
                    option_number(*input, "guarantee"@),
                ) {
                    (Some(w), Some(p), Some(g)) => res == Some(
                        ChancesPlan::Character { wishes: w, pity: p, guarantee: g },
                    ),
                    _ => res is None,
                },
                Some(1) => match (option_number(*input, "wishes"@), option_number(*input, "pity"@)) {
                    (Some(w), Some(p)) => if p < 77 {
                        res == Some(ChancesPlan::Weapon { wishes: w, pity: p })
                    } else {
                        res matches Some(ChancesPlan::Reply(m)) && refusal(
                            m,
                            "Pity "@ + decimal(p as nat)
                                + " is greater than the maximum weapon pity of 77."@,
                        )
                    },
                    _ => res is None,
                },
                _ => res matches Some(ChancesPlan::Reply(m)) && refusal(
                    m,
                    "Got an unknown banner"@,
                ),
            },
    {
        if input.get_options("banner").is_none() {
            return None;
        }
        match input.get_number("banner") {
            Some(0) => {
                let wishes = input.get_number("wishes")?;
                let pity = input.get_number("pity")?;
                let guarantee = input.get_number("guarantee")?;
                Some(ChancesPlan::Character { wishes, pity, guarantee })
            },
            Some(1) => {
                let wishes = input.get_number("wishes")?;
                let pity = input.get_number("pity")?;
                match Chances::weapon_pity_refusal(pity) {
                    Some(m) => Some(ChancesPlan::Reply(m)),
                    None => Some(ChancesPlan::Weapon { wishes, pity }),
                }
            },
            _ => Some(
                ChancesPlan::Reply(refusal_message(String::from_str("Got an unknown banner"))),
            ),
        }
    }

    fn labelled_fields(prefix: &str, first: u64, values: &Vec<String>) -> (res: Vec<EmbedField>)
        requires
            first + values@.len() <= u64::MAX,
        ensures
            res@.len() == values@.len(),
            forall|i: int|
                0 <= i < values@.len() ==> inline_field(
                    #[trigger] res@[i],
                    prefix@ + decimal((first + i) as nat),
                    values@[i]@,
                ),
    {
        let mut fields: Vec<EmbedField> = Vec::new();
        let mut i: usize = 0;
        while i < values.len()
            invariant
                0 <= i <= values@.len(),
                first + values@.len() <= u64::MAX,
                fields@.len() == i,
                forall|j: int|
                    0 <= j < i ==> inline_field(
                        #[trigger] fields@[j],
                        prefix@ + decimal((first + j) as nat),
                        values@[j]@,
                    ),
            decreases values@.len() - i,
        {
            let label = labelled(prefix, first + i as u64);
            fields.push(inline_text_field(label, values[i].clone()));
            i = i + 1;
        }
        fields
    }

    /// The character answer: the probability texts of C0 to C6, in order.
    pub fn character_message(values: &Vec<String>) -> (res: MessagesInteractionCallbackData)
        requires
            values@.len() == 7,
        ensures
            result_message(res, "Character chances calculator"@, "C"@, 0, values@),
            res.embeds is Some && res.embeds->0@.len() == 1,
            res.embeds->0@[0].fields is Some && res.embeds->0@[0].fields->0@.len() == 7,
            forall|i: int|
                0 <= i < 7 ==> (#[trigger] res.embeds->0@[0].fields->0@[i]).name@ == "C"@ + decimal(i as nat)
                    && res.embeds->0@[0].fields->0@[i].value@ == values@[i]@,
    {
        let fields = Chances::labelled_fields("C", 0, values);
        let embed = rich_embed(
            "Character chances calculator",
            String::from_str(
                "If you wish to understand the math behind this calculation, view the explanation [here](https://drive.google.com/file/d/1EECcjNVpfiOTqRoS48hHWqH2Ake902vq/view?usp=sharing). Looking to pull for both a character and weapon? Use /chance (no s).",
            ),
            0x198754,
            Some(fields),
        );
        single_embed_message(embed, None)
    }

    /// The weapon answer: the probability texts of R1 to R5, in order.
    pub fn weapon_message(values: &Vec<String>) -> (res: MessagesInteractionCallbackData)
        requires
            values@.len() == 5,
        ensures
            result_message(res, "Weapon chances calculator"@, "R"@, 1, values@),
            res.embeds is Some && res.embeds->0@.len() == 1,
            res.embeds->0@[0].fields is Some && res.embeds->0@[0].fields->0@.len() == 5,
            forall|i: int|
                0 <= i < 5 ==> (#[trigger] res.embeds->0@[0].fields->0@[i]).name@ == "R"@ + decimal((i + 1) as nat)
                    && res.embeds->0@[0].fields->0@[i].value@ == values@[i]@,
    {
        let fields = Chances::labelled_fields("R", 1, values);
        let embed = rich_embed(
            "Weapon chances calculator",
            String::from_str(
                "If you wish to understand the math behind this calculation, view the explanation [here](https://drive.google.com/file/d/1EECcjNVpfiOTqRoS48hHWqH2Ake902vq/view?usp=sharing). Looking to pull for both a character and weapon? Use /chance (no s).",
            ),
            0x198754,
            Some(fields),
        );
        single_embed_message(embed, None)
    }
}

/// In the character answer, the field labelled `C` followed by `i` shows the
/// `i`-th of the odds handed over, for every constellation `i` from 0 to 6.
pub proof fn character_fields_show_their_own_odds(
    values: Seq<String>,
    m: MessagesInteractionCallbackData,
)
    requires
        values.len() == 7,
        result_message(m, "Character chances calculator"@, "C"@, 0, values),
    ensures
        m.embeds is Some && m.embeds->0@.len() == 1,
        m.embeds->0@[0].fields is Some && m.embeds->0@[0].fields->0@.len() == 7,
        forall|i: int|
            0 <= i < 7 ==> (#[trigger] m.embeds->0@[0].fields->0@[i]).name@ == "C"@ + decimal(i as nat)
                && m.embeds->0@[0].fields->0@[i].value@ == values[i]@,
{
}

/// In the weapon answer, the field labelled `R` followed by `i + 1` shows the
/// `i`-th of the odds handed over, for every refinement from R1 to R5.
pub proof fn weapon_fields_show_their_own_odds(values: Seq<String>, m: MessagesInteractionCallbackData)
    requires
        values.len() == 5,
        result_message(m, "Weapon chances calculator"@, "R"@, 1, values),
    ensures
        m.embeds is Some && m.embeds->0@.len() == 1,
        m.embeds->0@[0].fields is Some && m.embeds->0@[0].fields->0@.len() == 5,
        forall|i: int|
            0 <= i < 5 ==> (#[trigger] m.embeds->0@[0].fields->0@[i]).name@ == "R"@ + decimal((i + 1) as nat)
                && m.embeds->0@[0].fields->0@[i].value@ == values[i]@,
{
}

/// The banner a user picks by name is the banner `/chances` answers for: the
/// value registered under "5 star Character" is read by `Chances::plan` as
/// banner 0 (the character odds), the one under "5 star Weapon" as banner 1
/// (the weapon odds).
pub proof fn banner_choices_select_their_odds(res: Option<Vec<ApplicationCommandOption>>, input: Input)
    requires
        chances_options(res),
    ensures
        res->0@[0].choices is Some,
        forall|i: int|
            #![trigger res->0@[0].choices->0@[i]]
            0 <= i < res->0@[0].choices->0@.len() ==> {
                let cs = res->0@[0].choices->0;
                &&& cs@[i].name@ == "5 star Character"@ ==> parse_decimal_spec(
                    cs@[i].value@,
                ) == Some(0u64)
                &&& cs@[i].name@ == "5 star Character"@ && option_value(input, "banner"@) == Some(
                    cs@[i].value@,
                ) ==> option_number(input, "banner"@) == Some(0u64)
                &&& cs@[i].name@ == "5 star Weapon"@ ==> parse_decimal_spec(cs@[i].value@) == Some(
                    1u64,
                )
                &&& cs@[i].name@ == "5 star Weapon"@ && option_value(input, "banner"@) == Some(
                    cs@[i].value@,
                ) ==> option_number(input, "banner"@) == Some(1u64)
            },
{
    reveal_strlit("5 star Character");
    reveal_strlit("5 star Weapon");
    reveal_strlit("0");
    reveal_strlit("1");
    let cs = res->0@[0].choices->0@;
    assert(cs[0].name@ != "5 star Weapon"@) by {
        assert(cs[0].name@[7] != "5 star Weapon"@[7]);
    }
    assert(cs[1].name@ != "5 star Character"@) by {
        assert(cs[1].name@[7] != "5 star Character"@[7]);
    }
    let zero = "0"@;
    let one = "1"@;
    assert(zero.drop_last() =~= Seq::<char>::empty());
    assert(one.drop_last() =~= Seq::<char>::empty());
    assert(digits_value(Seq::<char>::empty()) == 0);
    assert(zero.len() == 1 && zero.last() == '0' && one.len() == 1 && one.last() == '1');
    assert(digits_value(zero) == 0);
    assert(digits_value(one) == 1);
    assert(all_digits(zero));
    assert(all_digits(one));
}

} // verus!
