//! The setup wizard's decisions and the env file it writes.

use spotibot::setup::{
    audio_channels, channel_choice, channel_line, entered_token, env_text, fresh_env, greeting,
    guild_choice, invitation, invite_url, masked_token, summary, token_notice, token_step,
    updated_env, wizard_start, wizard_step, Answers, Channel, ChannelChoice, ChannelKind, Guild,
    GuildChoice, SetupError, TokenEntry, TokenStep, WizardAction, WizardEvent, WizardStage,
};

fn answers() -> Answers {
    Answers {
        token: "tok".into(),
        guild_id: 11,
        channel_id: 22,
        device_name: "Discord Player".into(),
    }
}

fn channel(id: u64, name: &str, kind: ChannelKind) -> Channel {
    Channel { id, name: name.into(), kind }
}

#[test]
fn the_invite_link_asks_for_voice_permissions() {
    assert_eq!(
        invite_url(42),
        "https://discord.com/oauth2/authorize?client_id=42&scope=bot&permissions=7340032"
    );
}

#[test]
fn an_env_file_is_updated_in_place() {
    let before = "# mine\nDISCORD_TOKEN_ALT=keep\r\n DISCORD_TOKEN = old=er\n\nDEVICE_NAME=x";
    let after = updated_env(before, &answers());
    assert_eq!(
        after,
        "# mine\nDISCORD_TOKEN_ALT=keep\nDISCORD_TOKEN=tok\n\nDEVICE_NAME=Discord Player\nDISCORD_GUILD_ID=11\nDISCORD_CHANNEL_ID=22\n"
    );
    assert_eq!(updated_env(&after, &answers()), after);
}

#[test]
fn an_empty_env_file_gets_every_setting() {
    assert_eq!(
        updated_env("", &answers()),
        "DISCORD_TOKEN=tok\nDISCORD_GUILD_ID=11\nDISCORD_CHANNEL_ID=22\nDEVICE_NAME=Discord Player\n"
    );
}

#[test]
fn a_new_env_file_explains_itself() {
    let text = fresh_env(&answers());
    assert!(text.starts_with(
        "# Discord Bot Token (from Bot page)\n# Get this from: https://discord.com/developers/applications\nDISCORD_TOKEN=tok\n\n# Discord Server ID\nDISCORD_GUILD_ID=11\n\n"
    ));
    assert!(text.contains("\nDISCORD_CHANNEL_ID=22\n"));
    assert!(text.contains("\nDEVICE_NAME=Discord Player\n\n# Spotify app client id"));
    assert!(text.ends_with("# RUST_LOG=warn\n"));
    assert_eq!(updated_env(&text, &answers()), text);
}

#[test]
fn three_entries_and_no_more() {
    assert_eq!(token_step(1, TokenEntry::Rejected), TokenStep::Again);
    assert_eq!(token_step(2, TokenEntry::Empty), TokenStep::Again);
    assert_eq!(token_step(3, TokenEntry::Empty), TokenStep::GiveUp);
    assert_eq!(token_step(3, TokenEntry::Rejected), TokenStep::GiveUp);
    assert_eq!(token_step(3, TokenEntry::Accepted), TokenStep::Accept);
    assert_eq!(
        token_notice(1, TokenEntry::Rejected),
        "  Invalid token. Please try again (2/3)."
    );
    assert_eq!(token_notice(3, TokenEntry::Rejected), "  Invalid token after 3 attempts.");
    assert_eq!(token_notice(1, TokenEntry::Empty), "  Token cannot be empty.");
    assert_eq!(entered_token(" t \n").as_deref(), Some("t"));
    assert_eq!(entered_token(" \n"), None);
}

#[test]
fn a_shown_token_is_mostly_hidden() {
    assert_eq!(masked_token("abcdefghijklmnop"), "abcdef...mnop");
    assert_eq!(masked_token("abcdefghij"), "abcdef...ghij");
    assert_eq!(masked_token("abcdefghi"), "(invalid?)");
}

#[test]
fn only_audio_channels_are_offered() {
    let kept = audio_channels(vec![
        channel(1, "chat", ChannelKind::Other),
        channel(2, "Music", ChannelKind::Voice),
        channel(3, "Talk", ChannelKind::Stage),
    ]);
    assert_eq!(kept.iter().map(|c| c.id).collect::<Vec<_>>(), [2, 3]);
    assert_eq!(channel_line(&kept[0]), "Music (voice)");
    assert_eq!(channel_line(&kept[1]), "Talk (stage)");
}

#[test]
fn only_a_real_choice_is_asked_for() {
    let guild = |id, name: &str| Guild { id, name: name.into() };
    match guild_choice(Vec::new()) {
        GuildChoice::Nowhere(lines) => assert_eq!(lines[1], "The bot isn't in any servers yet."),
        _ => panic!("there is nothing to choose"),
    }
    match guild_choice(vec![guild(1, "Home")]) {
        GuildChoice::Only(guild, lines) => {
            assert_eq!(guild.id, 1);
            assert_eq!(lines, ["", "Auto-selected server: Home"]);
        }
        _ => panic!("the only one is taken"),
    }
    match guild_choice(vec![guild(1, "Home"), guild(2, "Away")]) {
        GuildChoice::Ask(guilds, names) => {
            assert_eq!(guilds[1].id, 2);
            assert_eq!(names, ["Home", "Away"]);
        }
        _ => panic!("two are a choice"),
    }
    match channel_choice("Home", vec![channel(1, "chat", ChannelKind::Other)]) {
        ChannelChoice::Nowhere(lines) => {
            assert_eq!(lines[1], "No voice or stage channels found in \"Home\".")
        }
        _ => panic!("a chat carries no audio"),
    }
    match channel_choice("Home", vec![channel(2, "Music", ChannelKind::Voice)]) {
        ChannelChoice::Only(channel, lines) => {
            assert_eq!(channel.id, 2);
            assert_eq!(lines, ["Auto-selected voice channel: Music"]);
        }
        _ => panic!("the only one is taken"),
    }
    let two = vec![channel(2, "Music", ChannelKind::Voice), channel(3, "Talk", ChannelKind::Stage)];
    match channel_choice("Home", two) {
        ChannelChoice::Ask(channels, names) => {
            assert_eq!(channels.len(), 2);
            assert_eq!(names, ["Music (voice)", "Talk (stage)"]);
        }
        _ => panic!("two are a choice"),
    }
}

#[test]
fn the_wizard_prints_what_it_knows() {
    assert_eq!(greeting().len(), 7);
    assert_eq!(greeting()[5], "  https://discord.com/developers/applications");
    assert!(invitation(42)[2].ends_with("client_id=42&scope=bot&permissions=7340032"));
    let lines = summary(
        "Home",
        &channel(2, "Music", ChannelKind::Voice),
        "Discord Player",
        "abcdefghijklmnop",
    );
    assert_eq!(lines[3], "  Audio channel:  Music (voice)");
    assert_eq!(lines[5], "  Token:          abcdef...mnop");
    assert_eq!(env_text(None, &answers()), fresh_env(&answers()));
    assert_eq!(env_text(Some("A=1\n"), &answers()), updated_env("A=1\n", &answers()));
}

#[test]
fn setup_errors_have_their_words() {
    for (error, text) in [
        (SetupError::InvalidToken, "invalid bot token after multiple attempts"),
        (SetupError::NoGuilds, "bot is not in any servers"),
        (
            SetupError::NoAudioChannels,
            "no voice or stage channels found in the selected server",
        ),
        (SetupError::Cancelled, "setup cancelled"),
        (SetupError::Io("x".into()), "io error: x"),
        (SetupError::Dialoguer("x".into()), "prompt error: x"),
        (SetupError::Discord("x".into()), "discord api error: x"),
    ] {
        assert_eq!(error.message(), text);
    }
}

fn guilds() -> Vec<Guild> {
    vec![Guild { id: 11, name: "One".into() }, Guild { id: 12, name: "Two".into() }]
}

fn rooms() -> Vec<Channel> {
    vec![
        channel(21, "a", ChannelKind::Voice),
        channel(22, "b", ChannelKind::Stage),
    ]
}

/// Feed the wizard these events, and give where it stands after them.
fn wizard(events: Vec<WizardEvent>) -> Result<(WizardStage, WizardAction), SetupError> {
    let mut at = wizard_start();
    for event in events {
        at = wizard_step(at.0, event)?;
    }
    Ok(at)
}

/// The events of a run that leads to the last question.
fn to_the_last_question() -> Vec<WizardEvent> {
    vec![
        WizardEvent::Entered(None),
        WizardEvent::Entered(Some("bad".into())),
        WizardEvent::Checked(false),
        WizardEvent::Entered(Some("tok".into())),
        WizardEvent::Checked(true),
        WizardEvent::Application(42),
        WizardEvent::Answered(true),
        WizardEvent::Guilds(guild_choice(guilds())),
        WizardEvent::Picked(1),
        WizardEvent::Channels(channel_choice("Two", rooms())),
        WizardEvent::Picked(0),
        WizardEvent::Named("Speaker".into()),
    ]
}

#[test]
fn the_wizard_asks_in_order() {
    let actions = [
        "PromptToken", "PromptToken", "CheckToken", "PromptToken", "CheckToken",
        "FetchApplication", "AskInvited", "FetchGuilds", "PickGuild", "FetchChannels",
        "PickChannel", "AskName", "Confirm",
    ];
    for (steps, expected) in actions.iter().enumerate() {
        let mut events = to_the_last_question();
        events.truncate(steps);
        let (_, action) = wizard(events).unwrap();
        let got = match action {
            WizardAction::PromptToken => "PromptToken",
            WizardAction::CheckToken(token) => {
                assert_eq!(token, if steps == 2 { "bad" } else { "tok" });
                "CheckToken"
            }
            WizardAction::FetchApplication => "FetchApplication",
            WizardAction::AskInvited(id) => {
                assert_eq!(id, 42);
                "AskInvited"
            }
            WizardAction::FetchGuilds => "FetchGuilds",
            WizardAction::PickGuild(names) => {
                assert_eq!(names, ["One", "Two"]);
                "PickGuild"
            }
            WizardAction::FetchChannels(id) => {
                assert_eq!(id, 12);
                "FetchChannels"
            }
            WizardAction::PickChannel(names) => {
                assert_eq!(names.len(), 2);
                "PickChannel"
            }
            WizardAction::AskName => "AskName",
            WizardAction::Confirm => "Confirm",
            WizardAction::Write(_) => "Write",
        };
        assert_eq!(got, *expected);
    }
}

#[test]
fn the_last_yes_writes_what_was_answered() {
    let mut events = to_the_last_question();
    events.push(WizardEvent::Answered(true));
    match wizard(events).unwrap() {
        (WizardStage::Done, WizardAction::Write(written)) => {
            assert_eq!(written.token, "tok");
            assert_eq!((written.guild_id, written.channel_id), (12, 21));
            assert_eq!(written.device_name, "Speaker");
        }
        _ => panic!("the configuration is written"),
    }
}

#[test]
fn only_choices_are_taken_without_asking() {
    let mut events = to_the_last_question();
    events.truncate(7);
    let one = vec![Guild { id: 11, name: "One".into() }];
    events.push(WizardEvent::Guilds(guild_choice(one)));
    let (stage, action) = wizard(events).unwrap();
    assert!(matches!(action, WizardAction::FetchChannels(11)));
    let room = vec![channel(21, "a", ChannelKind::Voice)];
    let event = WizardEvent::Channels(channel_choice("One", room));
    let (stage, action) = wizard_step(stage, event).unwrap();
    assert!(matches!(action, WizardAction::AskName));
    assert!(matches!(stage, WizardStage::Naming { channel, .. } if channel.id == 21));
}

#[test]
fn the_wizard_ends_without_writing() {
    let after = |steps: usize, event: WizardEvent| {
        let mut events = to_the_last_question();
        events.truncate(steps);
        events.push(event);
        match wizard(events) {
            Err(error) => error.message(),
            Ok(_) => panic!("the wizard ends"),
        }
    };
    assert_eq!(after(6, WizardEvent::Answered(false)), "setup cancelled");
    assert_eq!(after(12, WizardEvent::Answered(false)), "setup cancelled");
    assert_eq!(after(8, WizardEvent::Picked(2)), "setup cancelled");
    assert_eq!(after(10, WizardEvent::Picked(2)), "setup cancelled");
    assert_eq!(after(0, WizardEvent::Answered(true)), "setup cancelled");
    assert_eq!(after(3, WizardEvent::Entered(None)), "invalid bot token after multiple attempts");
    assert_eq!(after(4, WizardEvent::Checked(false)), "invalid bot token after multiple attempts");
    assert_eq!(
        after(7, WizardEvent::Guilds(guild_choice(vec![]))),
        "bot is not in any servers"
    );
    assert_eq!(
        after(9, WizardEvent::Channels(channel_choice("Two", vec![]))),
        "no voice or stage channels found in the selected server"
    );
    assert_eq!(after(12, WizardEvent::Failed(SetupError::Io("x".into()))), "io error: x");
}
