use akasha::discord::{
    ApplicationCommandOptionType, ChannelType, InteractionCallbackType, InteractionType,
};
use akasha::text::{labelled, parse_decimal, to_decimal};
use akasha::utils::{Error, HttpError, HttpStatusCode, InteractionError, VerificationError};

#[test]
fn decimal_rendering() {
    assert_eq!(to_decimal(0), "0");
    assert_eq!(to_decimal(7), "7");
    assert_eq!(to_decimal(42), "42");
    assert_eq!(to_decimal(1000), "1000");
    assert_eq!(to_decimal(u64::MAX), "18446744073709551615");
}

#[test]
fn decimal_parsing() {
    assert_eq!(parse_decimal("0"), Some(0));
    assert_eq!(parse_decimal("42"), Some(42));
    assert_eq!(parse_decimal("007"), Some(7));
    assert_eq!(parse_decimal("18446744073709551615"), Some(u64::MAX));
    assert_eq!(parse_decimal("18446744073709551616"), None);
    assert_eq!(parse_decimal("99999999999999999999x"), None);
    assert_eq!(parse_decimal(""), None);
    assert_eq!(parse_decimal("-1"), None);
    assert_eq!(parse_decimal("1.5"), None);
    assert_eq!(parse_decimal(" 5"), None);
    assert_eq!(parse_decimal("٣"), None);
}

#[test]
fn parse_after_render_roundtrip() {
    for n in [0u64, 1, 9, 10, 99, 100, 12345, 4294967296, u64::MAX - 1, u64::MAX] {
        assert_eq!(parse_decimal(&to_decimal(n)), Some(n));
    }
}

#[test]
fn labels() {
    assert_eq!(labelled("C", 0), "C0");
    assert_eq!(labelled("R", 5), "R5");
    assert_eq!(labelled("", 12), "12");
}

#[test]
fn discord_codes() {
    assert_eq!(ApplicationCommandOptionType::SubCommand.code(), 1);
    assert_eq!(ApplicationCommandOptionType::String.code(), 3);
    assert_eq!(ApplicationCommandOptionType::Integer.code(), 4);
    assert_eq!(ApplicationCommandOptionType::Number.code(), 10);
    assert_eq!(ApplicationCommandOptionType::Attachment.code(), 11);
    assert_eq!(ChannelType::GuildText.code(), 0);
    assert_eq!(ChannelType::GuildCategory.code(), 4);
    assert_eq!(ChannelType::AnnouncmentThread.code(), 10);
    assert_eq!(ChannelType::GuildForum.code(), 15);
    assert_eq!(InteractionType::Ping.code(), 1);
    assert_eq!(InteractionType::ModalSubmit.code(), 5);
    assert_eq!(InteractionCallbackType::Pong.code(), 1);
    assert_eq!(InteractionCallbackType::ChannelMessageWithSource.code(), 4);
    assert_eq!(InteractionCallbackType::ApplicationCommandAutocompleteResult.code(), 8);
    assert_eq!(InteractionCallbackType::Modal.code(), 9);
}

#[test]
fn distinct_codes() {
    let all = [
        ChannelType::GuildText,
        ChannelType::DM,
        ChannelType::GuildVoice,
        ChannelType::GuildCategory,
        ChannelType::GuildAnnouncement,
        ChannelType::AnnouncmentThread,
        ChannelType::PublicThread,
        ChannelType::PrivateThread,
        ChannelType::GuildStageVoice,
        ChannelType::GuildDirectory,
        ChannelType::GuildForum,
    ];
    for a in all {
        for b in all {
            assert_eq!(a.code() == b.code(), a == b);
        }
    }
}

#[test]
fn http_statuses() {
    assert_eq!(HttpStatusCode::BadRequest.code(), 400);
    assert_eq!(HttpStatusCode::Unauthorized.code(), 401);
    assert_eq!(HttpStatusCode::InternalServerError.code(), 500);
    fn reason(k: u8) -> Error {
        match k {
            0 => Error::HeaderNotFound("h".to_string()),
            1 => Error::JsonFailed("bad".to_string()),
            2 => Error::PayloadError("".to_string()),
            3 => Error::VerificationFailed(VerificationError::InvalidSignature),
            4 => Error::EnvironmentVariableNotFound("DISCORD_KEY".to_string()),
            _ => Error::InteractionFailed(InteractionError::CommandNotFound("x".to_string())),
        }
    }
    let statuses = [400u16, 400, 400, 401, 500, 500];
    for k in 0..6u8 {
        let e = HttpError::from(reason(k));
        assert_eq!(e.status.code(), statuses[k as usize]);
        assert_eq!(e.reason, reason(k));
    }
}
