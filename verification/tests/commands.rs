use akasha::commands::about::About;
use akasha::commands::autocomplete_test::AutocompleteTest;
use akasha::commands::chance::{Chance, ChanceArgs};
use akasha::commands::chances::{binomial, sigfig_decimals, Chances, ChancesPlan};
use akasha::commands::favonius::{Favonius, FavoniusArgs};
use akasha::commands::invite::Invite;
use akasha::commands::pulls::{Pulls, PullsArgs, NOT_AIMED_FOR};
use akasha::commands::{Command, CommandKind, Input};
use akasha::discord::{
    ApplicationCommandInteractionDataOption, ApplicationCommandOptionType, EmbedType,
    MessagesInteractionCallbackData,
};
use akasha::registration::{bot_authorization, commands_endpoint, registered_commands};

fn input(options: &[(&str, &str)]) -> Input {
    Input {
        member: None,
        user: None,
        options: Some(
            options
                .iter()
                .map(|(n, v)| ApplicationCommandInteractionDataOption {
                    name: n.to_string(),
                    command_type: ApplicationCommandOptionType::Integer,
                    value: Some(v.to_string()),
                    options: None,
                    focused: None,
                })
                .collect(),
        ),
        guild_id: None,
        channel_id: None,
    }
}

fn only_embed(m: &MessagesInteractionCallbackData) -> &akasha::discord::Embed {
    let embeds = m.embeds.as_ref().unwrap();
    assert_eq!(embeds.len(), 1);
    &embeds[0]
}

#[test]
fn about_answers_with_an_embed() {
    let about = About {};
    assert_eq!(about.name(), "about");
    assert_eq!(about.description(), "How does this bot work");
    assert!(about.options().is_none());
    assert_eq!(about.autocomplete(&input(&[])), Ok(None));
    let m = about.respond(&input(&[])).unwrap();
    assert_eq!(m.content, None);
    assert_eq!(m.flags, None);
    let e = only_embed(&m);
    assert_eq!(e.title.as_deref(), Some("About this bot"));
    assert_eq!(e.embed_type, Some(EmbedType::Rich));
    assert_eq!(e.color, Some(0x198754));
    assert!(e.description.as_ref().unwrap().starts_with("This bot made by bryanli#2718"));
    assert!(e.fields.is_none());
}

#[test]
fn invite_answers_with_a_link() {
    let invite = Invite {};
    assert_eq!(invite.name(), "invite");
    assert_eq!(invite.description(), "Get invite link");
    let m = invite.respond(&input(&[])).unwrap();
    assert_eq!(
        m.content.as_deref(),
        Some("You can invite Akasha at <https://kusanalimains.com/invite/>.")
    );
    assert!(m.embeds.is_none());
}

#[test]
fn autocomplete_test_command() {
    let cmd = AutocompleteTest {};
    assert_eq!(cmd.name(), "autocomplete");
    let options = cmd.options().unwrap();
    assert_eq!(options.len(), 2);
    assert_eq!(options[0].name, "deez");
    assert_eq!(options[0].autocomplete, Some(true));
    assert_eq!(options[0].option_type, ApplicationCommandOptionType::String);
    let choices = options[1].choices.as_ref().unwrap();
    assert_eq!(
        choices.iter().map(|c| (c.name.as_str(), c.value.as_str())).collect::<Vec<_>>(),
        vec![("x", "a"), ("y", "b"), ("z", "c")]
    );
    let completion = cmd.autocomplete(&input(&[])).unwrap().unwrap();
    assert_eq!(
        completion.choices.iter().map(|c| c.name.as_str()).collect::<Vec<_>>(),
        vec!["a", "b", "c"]
    );
    let m = cmd.respond(&input(&[("deez", "1"), ("name", "Nahida")])).unwrap();
    assert_eq!(m.content.as_deref(), Some("Hello Nahida"));
    let e = only_embed(&m);
    assert_eq!(e.description.as_deref(), Some("deez: 1\npppopoo: Error"));
    assert_eq!(e.color, Some(0x696969));
    let fields = e.fields.as_ref().unwrap();
    assert_eq!((fields[0].name.as_str(), fields[0].value.as_str()), ("Hello", "e"));
    let plain = cmd.respond(&input(&[])).unwrap();
    assert_eq!(plain.content.as_deref(), Some("Hello pp"));
}

#[test]
fn binomial_coefficients() {
    assert_eq!(binomial(0, 0), 1);
    assert_eq!(binomial(5, 0), 1);
    assert_eq!(binomial(5, 5), 1);
    assert_eq!(binomial(5, 2), 10);
    assert_eq!(binomial(5, 3), 10);
    assert_eq!(binomial(7, 3), 35);
    assert_eq!(binomial(6, 3), 20);
    assert_eq!(binomial(60, 30), 118264581564861424);
    for n in 0..20usize {
        for k in 0..=n {
            assert_eq!(binomial(n, k), binomial(n, n - k));
        }
    }
}

#[test]
fn significant_digits() {
    assert_eq!(sigfig_decimals(2, 4), 2);
    assert_eq!(sigfig_decimals(4, 4), 0);
    assert_eq!(sigfig_decimals(5, 4), 0);
    assert_eq!(sigfig_decimals(-1, 4), 5);
}

#[test]
fn chances_registration() {
    let cmd = Chances {};
    assert_eq!(cmd.name(), "chances");
    let options = cmd.options().unwrap();
    assert_eq!(
        options.iter().map(|o| o.name.as_str()).collect::<Vec<_>>(),
        vec!["banner", "wishes", "pity", "guarantee"]
    );
    assert_eq!(options[1].max_value, Some(1260));
    assert_eq!(options[2].max_value, Some(89));
}

#[test]
fn chances_plans() {
    let cmd = Chances {};
    assert_eq!(
        cmd.plan(&input(&[("banner", "0"), ("wishes", "80"), ("pity", "10"), ("guarantee", "1")])),
        Some(ChancesPlan::Character { wishes: 80, pity: 10, guarantee: 1 })
    );
    assert_eq!(
        cmd.plan(&input(&[("banner", "1"), ("wishes", "80"), ("pity", "10")])),
        Some(ChancesPlan::Weapon { wishes: 80, pity: 10 })
    );
    match cmd.plan(&input(&[("banner", "1"), ("wishes", "80"), ("pity", "77")])) {
        Some(ChancesPlan::Reply(m)) => {
            assert_eq!(m.flags, Some(64));
            let e = only_embed(&m);
            assert_eq!(e.title.as_deref(), Some("Error"));
            assert_eq!(
                e.description.as_deref(),
                Some("Pity 77 is greater than the maximum weapon pity of 77.")
            );
            assert_eq!(e.color, Some(0xcc0000));
        }
        other => panic!("unexpected {:?}", other),
    }
    match cmd.plan(&input(&[("banner", "2")])) {
        Some(ChancesPlan::Reply(m)) => {
            assert_eq!(only_embed(&m).description.as_deref(), Some("Got an unknown banner"));
        }
        other => panic!("unexpected {:?}", other),
    }
    assert_eq!(cmd.plan(&input(&[])), None);
    assert_eq!(cmd.plan(&input(&[("banner", "0"), ("wishes", "80")])), None);
    assert!(Chances::weapon_pity_refusal(76).is_none());
}

#[test]
fn chances_messages() {
    let values: Vec<String> = (0..7).map(|i| format!("{}.0000%", i)).collect();
    let m = Chances::character_message(&values);
    let e = only_embed(&m);
    assert_eq!(e.title.as_deref(), Some("Character chances calculator"));
    let fields = e.fields.as_ref().unwrap();
    assert_eq!(
        fields.iter().map(|f| f.name.as_str()).collect::<Vec<_>>(),
        vec!["C0", "C1", "C2", "C3", "C4", "C5", "C6"]
    );
    assert_eq!(fields[3].value, "3.0000%");
    assert_eq!(fields[3].inline, Some(true));
    let w: Vec<String> = (0..5).map(|i| i.to_string()).collect();
    let m = Chances::weapon_message(&w);
    let e = only_embed(&m);
    assert_eq!(e.title.as_deref(), Some("Weapon chances calculator"));
    assert_eq!(
        e.fields.as_ref().unwrap().iter().map(|f| f.name.as_str()).collect::<Vec<_>>(),
        vec!["R1", "R2", "R3", "R4", "R5"]
    );
}

#[test]
fn chance_command() {
    let cmd = Chance {};
    assert_eq!(cmd.name(), "chance");
    assert_eq!(cmd.options().unwrap().len(), 5);
    let args = cmd
        .plan(&input(&[
            ("character_cons", "2"),
            ("weapon_refine", "1"),
            ("wishes", "300"),
            ("character_pity", "0"),
            ("weapon_pity", "0"),
        ]))
        .unwrap();
    assert_eq!(
        args,
        ChanceArgs { wishes: 300, character_pity: 0, weapon_pity: 0, character_cons: 2, weapon_refine: 1 }
    );
    assert_eq!(Chance::label(&args), "C2R1 with 300 wishes");
    let m = Chance::message(&args, "12.34%".to_string());
    let e = only_embed(&m);
    assert_eq!(e.title.as_deref(), Some("Combined chances calculator"));
    let f = &e.fields.as_ref().unwrap()[0];
    assert_eq!((f.name.as_str(), f.value.as_str()), ("C2R1 with 300 wishes", "12.34%"));
    // Out of the range the calculation takes.
    assert_eq!(
        cmd.plan(&input(&[
            ("character_cons", "2"),
            ("weapon_refine", "1"),
            ("wishes", "2508"),
            ("character_pity", "0"),
            ("weapon_pity", "0"),
        ])),
        None
    );
}

#[test]
fn pulls_command() {
    let cmd = Pulls {};
    assert_eq!(cmd.name(), "pulls");
    let options = cmd.options().unwrap();
    assert_eq!(options[3].required, Some(false));
    let args = cmd.plan(&input(&[("character_pity", "5"), ("weapon_pity", "6")])).unwrap();
    assert_eq!(
        args,
        PullsArgs {
            character_pity: 5,
            weapon_pity: 6,
            character_cons: NOT_AIMED_FOR,
            weapon_refine: NOT_AIMED_FOR
        }
    );
    assert_eq!(Pulls::label(100, 100, "0.5"), "Pulls necessary to get nothing");
    assert_eq!(Pulls::label(100, 3, "0.5"), "Pulls necessary to get R3 with probability 0.5");
    assert_eq!(Pulls::label(2, 100, "0.5"), "Pulls necessary to get C2 with probability 0.5");
    assert_eq!(Pulls::label(2, 1, "0.9"), "Pulls necessary to get C2R1 with probability 0.9");
    let m = Pulls::message(&args, "0.5", 74);
    let e = only_embed(&m);
    assert_eq!(e.title.as_deref(), Some("Pulls necessary calculator"));
    let f = &e.fields.as_ref().unwrap()[0];
    assert_eq!((f.name.as_str(), f.value.as_str()), ("Pulls necessary to get nothing", "74"));
    assert_eq!(cmd.plan(&input(&[("character_pity", "5"), ("weapon_pity", "6"), ("character_cons", "x")])), None);
    assert_eq!(cmd.plan(&input(&[("character_pity", "90"), ("weapon_pity", "6")])), None);
}

#[test]
fn favonius_command() {
    let cmd = Favonius {};
    assert_eq!(cmd.name(), "favonius");
    assert_eq!(cmd.options().unwrap()[1].max_value, None);
    assert_eq!(
        cmd.plan(&input(&[("crit", "50.5"), ("hits", "3"), ("refinement", "5")])),
        Some(FavoniusArgs { hits: 3, refinement: 5 })
    );
    assert_eq!(cmd.plan(&input(&[("hits", "3")])), None);
    let m = Favonius::message("text".to_string());
    assert_eq!(only_embed(&m).title.as_deref(), Some("Favonius proc chances calculator"));
}

#[test]
fn registration() {
    let commands = vec![CommandKind::Invite, CommandKind::Chances];
    let registered = registered_commands(&commands);
    assert_eq!(registered.len(), 2);
    assert_eq!(registered[0].name, "invite");
    assert_eq!(registered[0].description, "Get invite link");
    assert!(registered[0].options.is_none());
    assert_eq!(registered[1].name, "chances");
    assert_eq!(registered[1].options.as_ref().unwrap().len(), 4);
    assert_eq!(
        commands_endpoint("123"),
        "https://discord.com/api/v10/applications/123/commands"
    );
    assert_eq!(bot_authorization("tok"), "Bot tok");
}
