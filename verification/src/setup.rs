//! The setup wizard: what it decides and what it writes.

use vstd::prelude::*;

use crate::bytes::{copy_bytes, text_bytes};
use crate::text::{add_text, cat, cat3, decimal_text, head_before, lines, trim, utf8_text};

verus! {

pub const DISCORD_DEV_PORTAL: &'static str = "https://discord.com/developers/applications";

/// Connect, speak and mute members.
pub const BOT_PERMISSIONS: u64 = 7340032;

pub const MAX_TOKEN_ATTEMPTS: u32 = 3;

pub const DEFAULT_DEVICE_NAME: &'static str = "Discord Player";

/// Why the wizard ended without a configuration.
#[derive(Debug)]
pub enum SetupError {
    InvalidToken,
    NoGuilds,
    NoAudioChannels,
    Cancelled,
    Io(String),
    Dialoguer(String),
    Discord(String),
}

impl SetupError {
    pub open spec fn text(&self) -> Seq<char> {
        match *self {
            SetupError::InvalidToken => "invalid bot token after multiple attempts"@,
            SetupError::NoGuilds => "bot is not in any servers"@,
            SetupError::NoAudioChannels =>
            "no voice or stage channels found in the selected server"@,
            SetupError::Cancelled => "setup cancelled"@,
            SetupError::Io(e) => "io error: "@ + e@,
            SetupError::Dialoguer(e) => "prompt error: "@ + e@,
            SetupError::Discord(e) => "discord api error: "@ + e@,
        }
    }

    pub fn message(&self) -> (r: String)
        ensures
            r@ == self.text(),
    {
        match self {
            SetupError::InvalidToken => "invalid bot token after multiple attempts".to_owned(),
            SetupError::NoGuilds => "bot is not in any servers".to_owned(),
            SetupError::NoAudioChannels =>
            "no voice or stage channels found in the selected server".to_owned(),
            SetupError::Cancelled => "setup cancelled".to_owned(),
            SetupError::Io(e) => cat("io error: ", e.as_str()),
            SetupError::Dialoguer(e) => cat("prompt error: ", e.as_str()),
            SetupError::Discord(e) => cat("discord api error: ", e.as_str()),
        }
    }
}

/// The link that invites the bot to a server.
pub open spec fn invite_text(app_id: u64) -> Seq<char> {
    "https://discord.com/oauth2/authorize?client_id="@ + crate::text::decimal(app_id as nat)
        + "&scope=bot&permissions="@ + crate::text::decimal(BOT_PERMISSIONS as nat)
}

/// The link that invites the bot to a server.
pub fn invite_url(app_id: u64) -> (r: String)
    ensures
        r@ == invite_text(app_id),
{
    let head = cat(
        "https://discord.com/oauth2/authorize?client_id=",
        decimal_text(app_id).as_str(),
    );
    cat3(head.as_str(), "&scope=bot&permissions=", decimal_text(BOT_PERMISSIONS).as_str())
}

/// What came of one token that was entered.
#[derive(Clone, Copy, Debug, PartialEq, Eq, Structural)]
pub enum TokenEntry {
    /// Nothing but white space.
    Empty,
    /// Discord did not accept it.
    Rejected,
    Accepted,
}

/// How the prompt for a token goes on.
#[derive(Clone, Copy, Debug, PartialEq, Eq, Structural)]
pub enum TokenStep {
    Accept,
    Again,
    GiveUp,
}

/// How the prompt goes on after the attempt of this number, counted from one:
/// every entry counts, an empty one too.
pub fn token_step(attempt: u32, entry: TokenEntry) -> (r: TokenStep)
    ensures
        r == (if entry == TokenEntry::Accepted {
            TokenStep::Accept
        } else if attempt < MAX_TOKEN_ATTEMPTS {
            TokenStep::Again
        } else {
            TokenStep::GiveUp
        }),
{
    if entry == TokenEntry::Accepted {
        TokenStep::Accept
    } else if attempt < MAX_TOKEN_ATTEMPTS {
        TokenStep::Again
    } else {
        TokenStep::GiveUp
    }
}

/// What is printed after the attempt of this number, when it failed.
pub open spec fn token_notice_of(attempt: u32, entry: TokenEntry) -> Seq<char> {
    match entry {
        TokenEntry::Accepted => Seq::empty(),
        TokenEntry::Empty => "  Token cannot be empty."@,
        TokenEntry::Rejected => if attempt < MAX_TOKEN_ATTEMPTS {
            "  Invalid token. Please try again ("@ + crate::text::decimal((attempt + 1) as nat)
                + "/3)."@
        } else {
            "  Invalid token after 3 attempts."@
        },
    }
}

/// What is printed after the attempt of this number, when it failed.
pub fn token_notice(attempt: u32, entry: TokenEntry) -> (r: String)
    ensures
        r@ == token_notice_of(attempt, entry),
{
    match entry {
        TokenEntry::Accepted => String::new(),
        TokenEntry::Empty => "  Token cannot be empty.".to_owned(),
        TokenEntry::Rejected => if attempt < MAX_TOKEN_ATTEMPTS {
            cat3(
                "  Invalid token. Please try again (",
                decimal_text((attempt + 1) as u64).as_str(),
                "/3).",
            )
        } else {
            "  Invalid token after 3 attempts.".to_owned()
        },
    }
}

/// The token without the white space around it, unless nothing is left.
pub fn entered_token(text: &str) -> (r: Option<String>)
    ensures
        match r {
            Some(token) => !crate::text::blank(text@) && token@ == crate::text::trimmed(text@),
            None => crate::text::blank(text@),
        },
{
    if crate::text::is_blank(text) {
        None
    } else {
        Some(trim(text))
    }
}

/// A token can be cut after its first six and before its last four bytes.
pub open spec fn maskable(token: Seq<char>) -> bool {
    let bytes = vstd::utf8::encode_utf8(token);
    bytes.len() >= 10 ==> vstd::utf8::valid_utf8(bytes.take(6)) && vstd::utf8::valid_utf8(
        bytes.skip(bytes.len() - 4),
    )
}

/// A token as it may be shown: its first six and last four bytes.
pub open spec fn masked(token: Seq<char>) -> Seq<char> {
    let bytes = vstd::utf8::encode_utf8(token);
    if bytes.len() >= 10 {
        vstd::utf8::decode_utf8(bytes.take(6)) + "..."@ + vstd::utf8::decode_utf8(
            bytes.skip(bytes.len() - 4),
        )
    } else {
        "(invalid?)"@
    }
}

/// A token as it may be shown.
pub fn masked_token(token: &str) -> (r: String)
    requires
        maskable(token@),
    ensures
        r@ == masked(token@),
{
    let bytes = text_bytes(token);
    if bytes.len() >= 10 {
        let head = copy_bytes(bytes.as_slice(), 0, 6);
        let tail = copy_bytes(bytes.as_slice(), bytes.len() - 4, bytes.len());
        proof {
            assert(head@ =~= bytes@.take(6));
            assert(tail@ =~= bytes@.skip(bytes@.len() - 4));
        }
        match (utf8_text(head), utf8_text(tail)) {
            (Some(head), Some(tail)) => cat3(head.as_str(), "...", tail.as_str()),
            _ => String::new(),
        }
    } else {
        "(invalid?)".to_owned()
    }
}

#[derive(Clone, Copy, Debug, PartialEq, Eq, Structural)]
pub enum ChannelKind {
    Voice,
    Stage,
    Other,
}

pub fn channel_kind_label(kind: ChannelKind) -> (r: &'static str)
    ensures
        r@ == kind_label(kind),
{
    match kind {
        ChannelKind::Stage => "stage",
        ChannelKind::Voice => "voice",
        ChannelKind::Other => "other",
    }
}

pub open spec fn kind_label(kind: ChannelKind) -> Seq<char> {
    match kind {
        ChannelKind::Stage => "stage"@,
        ChannelKind::Voice => "voice"@,
        ChannelKind::Other => "other"@,
    }
}

/// A channel of a server.
#[derive(Debug)]
pub struct Channel {
    pub id: u64,
    pub name: String,
    pub kind: ChannelKind,
}

/// The channels that carry audio, in order.
pub open spec fn audio_channels_of(channels: Seq<Channel>) -> Seq<Channel> {
    channels.filter(|c: Channel| c.kind != ChannelKind::Other)
}

/// The channels that carry audio, in order.
pub fn audio_channels(channels: Vec<Channel>) -> (r: Vec<Channel>)
    ensures
        r@ == audio_channels_of(channels@),
{
    let ghost all = channels@;
    let ghost wanted = |c: Channel| c.kind != ChannelKind::Other;
    let mut rest = channels;
    let mut out: Vec<Channel> = Vec::new();
    let ghost done: int = 0;
    proof {
        assert(all.skip(0) =~= all);
        reveal(Seq::filter);
        assert(all.take(0).filter(wanted) =~= Seq::empty());
    }
    while rest.len() > 0
        invariant
            0 <= done <= all.len(),
            wanted == (|c: Channel| c.kind != ChannelKind::Other),
            rest@ == all.skip(done),
            out@ == all.take(done).filter(wanted),
        decreases rest@.len(),
    {
        proof {
            assert(all.skip(done)[0] == all[done]);
            assert(all.skip(done).remove(0) =~= all.skip(done + 1));
            assert(all.take(done + 1).drop_last() =~= all.take(done));
            assert(all.take(done + 1).last() == all[done]);
            reveal(Seq::filter);
        }
        let channel = rest.remove(0);
        let audible = match channel.kind {
            ChannelKind::Other => false,
            _ => true,
        };
        if audible {
            out.push(channel);
        }
        proof {
            done = done + 1;
        }
    }
    assert(all.take(done) =~= all);
    out
}

/// A channel as the prompt lists it.
pub fn channel_line(channel: &Channel) -> (r: String)
    ensures
        r@ == channel.name@ + " ("@ + kind_label(channel.kind) + ")"@,
{
    let head = cat3(channel.name.as_str(), " (", channel_kind_label(channel.kind));
    cat(head.as_str(), ")")
}

/// A server the bot is in.
#[derive(Debug)]
pub struct Guild {
    pub id: u64,
    pub name: String,
}

/// The names of some servers, in order.
pub open spec fn guild_names(guilds: Seq<Guild>) -> Seq<Seq<char>> {
    guilds.map_values(|g: Guild| g.name@)
}

/// The lines for some channels, in order.
pub open spec fn channel_lines(channels: Seq<Channel>) -> Seq<Seq<char>> {
    channels.map_values(|c: Channel| c.name@ + " ("@ + kind_label(c.kind) + ")"@)
}

/// What is printed before the first question.
pub fn greeting() -> (r: Vec<String>)
    ensures
        crate::text::texts(r@) == seq![
            ""@,
            "=== Discord Spotify Player - Setup Wizard ==="@,
            ""@,
            "This wizard will walk you through the initial configuration."@,
            "You'll need a Discord bot token. Create one at:"@,
            "  "@ + DISCORD_DEV_PORTAL@,
            ""@,
        ],
{
    let mut out: Vec<String> = Vec::new();
    assert(crate::text::texts(out@) =~= Seq::empty());
    add_text(&mut out, "");
    add_text(&mut out, "=== Discord Spotify Player - Setup Wizard ===");
    add_text(&mut out, "");
    add_text(&mut out, "This wizard will walk you through the initial configuration.");
    add_text(&mut out, "You'll need a Discord bot token. Create one at:");
    add_text(&mut out, cat("  ", DISCORD_DEV_PORTAL).as_str());
    add_text(&mut out, "");
    out
}

/// What is printed once the application is known.
pub fn invitation(app_id: u64) -> (r: Vec<String>)
    ensures
        crate::text::texts(r@) == seq![
            ""@,
            "Invite your bot to a server using this link:"@,
            "  "@ + invite_text(app_id),
            ""@,
        ],
{
    let mut out: Vec<String> = Vec::new();
    assert(crate::text::texts(out@) =~= Seq::empty());
    add_text(&mut out, "");
    add_text(&mut out, "Invite your bot to a server using this link:");
    add_text(&mut out, cat("  ", invite_url(app_id).as_str()).as_str());
    add_text(&mut out, "");
    out
}

/// Which server is meant. Only a real choice is asked for.
pub enum GuildChoice {
    /// The bot is in none: what is printed before the wizard ends.
    Nowhere(Vec<String>),
    /// The only one, and what is printed.
    Only(Guild, Vec<String>),
    /// What is listed to pick from.
    Ask(Vec<Guild>, Vec<String>),
}

/// Which server is meant, of those the bot is in.
pub fn guild_choice(guilds: Vec<Guild>) -> (r: GuildChoice)
    ensures
        match r {
            GuildChoice::Nowhere(lines) => guilds@.len() == 0 && crate::text::texts(lines@)
                == seq![
                ""@,
                "The bot isn't in any servers yet."@,
                "Use the invite URL above, then re-run with --setup."@,
            ],
            GuildChoice::Only(guild, lines) => guilds@ == seq![guild] && crate::text::texts(lines@)
                == seq![""@, "Auto-selected server: "@ + guild.name@],
            GuildChoice::Ask(list, names) => guilds@.len() > 1 && list == guilds
                && crate::text::texts(names@) == guild_names(guilds@),
        },
{
    let mut out: Vec<String> = Vec::new();
    assert(crate::text::texts(out@) =~= Seq::empty());
    let mut guilds = guilds;
    if guilds.len() == 0 {
        add_text(&mut out, "");
        add_text(&mut out, "The bot isn't in any servers yet.");
        add_text(&mut out, "Use the invite URL above, then re-run with --setup.");
        return GuildChoice::Nowhere(out);
    }
    if guilds.len() == 1 {
        let ghost all = guilds@;
        let guild = guilds.remove(0);
        assert(all =~= seq![guild]);
        add_text(&mut out, "");
        add_text(&mut out, cat("Auto-selected server: ", guild.name.as_str()).as_str());
        return GuildChoice::Only(guild, out);
    }
    let mut i: usize = 0;
    while i < guilds.len()
        invariant
            i <= guilds@.len(),
            crate::text::texts(out@) == guild_names(guilds@).take(i as int),
        decreases guilds@.len() - i,
    {
        add_text(&mut out, guilds[i].name.as_str());
        assert(guild_names(guilds@).take(i + 1) =~= guild_names(guilds@).take(i as int).push(
            guilds@[i as int].name@,
        ));
        i += 1;
    }
    assert(guild_names(guilds@).take(i as int) =~= guild_names(guilds@));
    GuildChoice::Ask(guilds, out)
}

/// Which channel is meant. Only a real choice is asked for.
pub enum ChannelChoice {
    /// There is none that carries audio: what is printed before the wizard
    /// ends.
    Nowhere(Vec<String>),
    /// The only one, and what is printed.
    Only(Channel, Vec<String>),
    /// What is listed to pick from.
    Ask(Vec<Channel>, Vec<String>),
}

/// Which channel is meant, of those of the server.
pub fn channel_choice(guild_name: &str, channels: Vec<Channel>) -> (r: ChannelChoice)
    ensures
        ({
            let audio = audio_channels_of(channels@);
            match r {
                ChannelChoice::Nowhere(lines) => audio.len() == 0 && crate::text::texts(lines@)
                    == seq![
                    ""@,
                    "No voice or stage channels found in \""@ + guild_name@ + "\"."@,
                    "Create a voice channel in Discord first, then re-run with --setup."@,
                ],
                ChannelChoice::Only(channel, lines) => audio == seq![channel]
                    && crate::text::texts(lines@) == seq![
                    "Auto-selected "@ + kind_label(channel.kind) + " channel: "@ + channel.name@,
                ],
                ChannelChoice::Ask(list, names) => audio.len() > 1 && list@ == audio
                    && crate::text::texts(names@) == channel_lines(audio),
            }
        }),
{
    let mut out: Vec<String> = Vec::new();
    assert(crate::text::texts(out@) =~= Seq::empty());
    let mut channels = audio_channels(channels);
    if channels.len() == 0 {
        add_text(&mut out, "");
        add_text(
            &mut out,
            cat3("No voice or stage channels found in \"", guild_name, "\".").as_str(),
        );
        add_text(
            &mut out,
            "Create a voice channel in Discord first, then re-run with --setup.",
        );
        return ChannelChoice::Nowhere(out);
    }
    if channels.len() == 1 {
        let ghost all = channels@;
        let channel = channels.remove(0);
        assert(all =~= seq![channel]);
        let head = cat3("Auto-selected ", channel_kind_label(channel.kind), " channel: ");
        add_text(&mut out, cat(head.as_str(), channel.name.as_str()).as_str());
        return ChannelChoice::Only(channel, out);
    }
    let mut i: usize = 0;
    while i < channels.len()
        invariant
            i <= channels@.len(),
            crate::text::texts(out@) == channel_lines(channels@).take(i as int),
        decreases channels@.len() - i,
    {
        let line = channel_line(&channels[i]);
        add_text(&mut out, line.as_str());
        assert(channel_lines(channels@).take(i + 1) =~= channel_lines(channels@).take(
            i as int,
        ).push(line@));
        i += 1;
    }
    assert(channel_lines(channels@).take(i as int) =~= channel_lines(channels@));
    ChannelChoice::Ask(channels, out)
}

/// What is printed before the configuration is written; the token is shown
/// masked.
pub fn summary(guild_name: &str, channel: &Channel, device_name: &str, token: &str) -> (r: Vec<
    String,
>)
    requires
        maskable(token@),
    ensures
        crate::text::texts(r@) == seq![
            ""@,
            "--- Configuration Summary ---"@,
            "  Server:         "@ + guild_name@,
            "  Audio channel:  "@ + (channel.name@ + " ("@ + kind_label(channel.kind) + ")"@),
            "  Device name:    "@ + device_name@,
            "  Token:          "@ + masked(token@),
            ""@,
        ],
{
    let mut out: Vec<String> = Vec::new();
    assert(crate::text::texts(out@) =~= Seq::empty());
    add_text(&mut out, "");
    add_text(&mut out, "--- Configuration Summary ---");
    add_text(&mut out, cat("  Server:         ", guild_name).as_str());
    add_text(&mut out, cat("  Audio channel:  ", channel_line(channel).as_str()).as_str());
    add_text(&mut out, cat("  Device name:    ", device_name).as_str());
    add_text(&mut out, cat("  Token:          ", masked_token(token).as_str()).as_str());
    add_text(&mut out, "");
    out
}

/// What the wizard has learned.
#[derive(Debug)]
pub struct Answers {
    pub token: String,
    pub guild_id: u64,
    pub channel_id: u64,
    pub device_name: String,
}

impl Answers {
    /// The settings the wizard writes, in order.
    pub open spec fn settings(&self) -> Seq<(Seq<char>, Seq<char>)> {
        seq![
            ("DISCORD_TOKEN"@, self.token@),
            ("DISCORD_GUILD_ID"@, crate::text::decimal(self.guild_id as nat)),
            ("DISCORD_CHANNEL_ID"@, crate::text::decimal(self.channel_id as nat)),
            ("DEVICE_NAME"@, self.device_name@),
        ]
    }
}

/// How far the wizard has come, with what it has learned.
pub enum WizardStage {
    /// A token is asked for, for the attempt of this number.
    Token { attempt: u32 },
    /// Discord is asked about a token.
    Checking { attempt: u32, token: String },
    /// Discord is asked which application this is.
    Application { token: String },
    /// The operator is asked whether the bot has been invited.
    Inviting { token: String },
    /// Discord is asked for the bot's servers.
    ListingGuilds { token: String },
    PickingGuild { token: String, guilds: Vec<Guild> },
    /// Discord is asked for a server's channels.
    ListingChannels { token: String, guild: Guild },
    PickingChannel { token: String, guild: Guild, channels: Vec<Channel> },
    /// The device's name is asked for.
    Naming { token: String, guild: Guild, channel: Channel },
    /// The operator has seen the summary and is asked for the last word.
    Confirming { token: String, guild: Guild, channel: Channel, device_name: String },
    Done,
}

/// What happened to the wizard.
pub enum WizardEvent {
    /// What was entered as a token, unless it was blank.
    Entered(Option<String>),
    /// Whether Discord accepts the token.
    Checked(bool),
    /// The application's id.
    Application(u64),
    /// The answer to a question of yes or no.
    Answered(bool),
    Guilds(GuildChoice),
    Channels(ChannelChoice),
    /// The position of what was picked.
    Picked(usize),
    Named(String),
    /// A prompt, Discord or the disk failed.
    Failed(SetupError),
}

/// What the wizard has to do next.
pub enum WizardAction {
    PromptToken,
    CheckToken(String),
    FetchApplication,
    /// Show the invitation to this application, and ask whether it was used.
    AskInvited(u64),
    FetchGuilds,
    /// Let one of these be picked.
    PickGuild(Vec<String>),
    /// Fetch the channels of the server of this id.
    FetchChannels(u64),
    /// Let one of these be picked.
    PickChannel(Vec<String>),
    AskName,
    /// Show the summary, and ask for the last word.
    Confirm,
    /// Write the configuration.
    Write(Answers),
}

/// How the wizard goes on after a token that was no good.
pub open spec fn token_again(attempt: u32) -> Result<(WizardStage, WizardAction), SetupError> {
    if attempt < MAX_TOKEN_ATTEMPTS {
        Ok((WizardStage::Token { attempt: (attempt + 1) as u32 }, WizardAction::PromptToken))
    } else {
        Err(SetupError::InvalidToken)
    }
}

/// How the wizard goes on: the stage it is in next and what it does there, or
/// why it ends without a configuration. A failure ends it in every stage, and so
/// does what the stage does not wait for.
pub open spec fn wizard_next(stage: WizardStage, event: WizardEvent) -> Result<
    (WizardStage, WizardAction),
    SetupError,
> {
    match (stage, event) {
        (_, WizardEvent::Failed(error)) => Err(error),
        (WizardStage::Token { attempt }, WizardEvent::Entered(None)) => token_again(attempt),
        (WizardStage::Token { attempt }, WizardEvent::Entered(Some(token))) => Ok(
            (WizardStage::Checking { attempt, token }, WizardAction::CheckToken(token)),
        ),
        (WizardStage::Checking { attempt, token }, WizardEvent::Checked(good)) => if good {
            Ok((WizardStage::Application { token }, WizardAction::FetchApplication))
        } else {
            token_again(attempt)
        },
        (WizardStage::Application { token }, WizardEvent::Application(id)) => Ok(
            (WizardStage::Inviting { token }, WizardAction::AskInvited(id)),
        ),
        (WizardStage::Inviting { token }, WizardEvent::Answered(true)) => Ok(
            (WizardStage::ListingGuilds { token }, WizardAction::FetchGuilds),
        ),
        (WizardStage::ListingGuilds { token }, WizardEvent::Guilds(choice)) => match choice {
            GuildChoice::Nowhere(_) => Err(SetupError::NoGuilds),
            GuildChoice::Only(guild, _) => Ok(
                (
                    WizardStage::ListingChannels { token, guild },
                    WizardAction::FetchChannels(guild.id),
                ),
            ),
            GuildChoice::Ask(guilds, names) => Ok(
                (WizardStage::PickingGuild { token, guilds }, WizardAction::PickGuild(names)),
            ),
        },
        (WizardStage::PickingGuild { token, guilds }, WizardEvent::Picked(i)) => if i
            < guilds@.len() {
            let guild = guilds@[i as int];
            Ok(
                (
                    WizardStage::ListingChannels { token, guild },
                    WizardAction::FetchChannels(guild.id),
                ),
            )
        } else {
            Err(SetupError::Cancelled)
        },
        (
            WizardStage::ListingChannels { token, guild },
            WizardEvent::Channels(choice),
        ) => match choice {
            ChannelChoice::Nowhere(_) => Err(SetupError::NoAudioChannels),
            ChannelChoice::Only(channel, _) => Ok(
                (WizardStage::Naming { token, guild, channel }, WizardAction::AskName),
            ),
            ChannelChoice::Ask(channels, names) => Ok(
                (
                    WizardStage::PickingChannel { token, guild, channels },
                    WizardAction::PickChannel(names),
                ),
            ),
        },
        (
            WizardStage::PickingChannel { token, guild, channels },
            WizardEvent::Picked(i),
        ) => if i < channels@.len() {
            Ok(
                (
                    WizardStage::Naming { token, guild, channel: channels@[i as int] },
                    WizardAction::AskName,
                ),
            )
        } else {
            Err(SetupError::Cancelled)
        },
        (
            WizardStage::Naming { token, guild, channel },
            WizardEvent::Named(device_name),
        ) => Ok(
            (
                WizardStage::Confirming { token, guild, channel, device_name },
                WizardAction::Confirm,
            ),
        ),
        (
            WizardStage::Confirming { token, guild, channel, device_name },
            WizardEvent::Answered(true),
        ) => Ok(
            (
                WizardStage::Done,
                WizardAction::Write(
                    Answers { token, guild_id: guild.id, channel_id: channel.id, device_name },
                ),
            ),
        ),
        _ => Err(SetupError::Cancelled),
    }
}

/// Where the wizard begins.
pub fn wizard_start() -> (r: (WizardStage, WizardAction))
    ensures
        r == (WizardStage::Token { attempt: 1 }, WizardAction::PromptToken),
{
    (WizardStage::Token { attempt: 1 }, WizardAction::PromptToken)
}

/// One step of the wizard. Nothing is written before the last yes.
pub fn wizard_step(stage: WizardStage, event: WizardEvent) -> (r: Result<
    (WizardStage, WizardAction),
    SetupError,
>)
    ensures
        r == wizard_next(stage, event),
        r matches Ok((_, WizardAction::Write(_))) ==> stage is Confirming && event
            == WizardEvent::Answered(true),
{
    match (stage, event) {
        (_, WizardEvent::Failed(error)) => Err(error),
        (WizardStage::Token { attempt }, WizardEvent::Entered(None)) => token_retry(
            attempt,
            TokenEntry::Empty,
        ),
        (WizardStage::Token { attempt }, WizardEvent::Entered(Some(token))) => {
            let asked = token.clone();
            Ok((WizardStage::Checking { attempt, token }, WizardAction::CheckToken(asked)))
        },
        (WizardStage::Checking { attempt, token }, WizardEvent::Checked(good)) => if good {
            Ok((WizardStage::Application { token }, WizardAction::FetchApplication))
        } else {
            token_retry(attempt, TokenEntry::Rejected)
        },
        (WizardStage::Application { token }, WizardEvent::Application(id)) => Ok(
            (WizardStage::Inviting { token }, WizardAction::AskInvited(id)),
        ),
        (WizardStage::Inviting { token }, WizardEvent::Answered(true)) => Ok(
            (WizardStage::ListingGuilds { token }, WizardAction::FetchGuilds),
        ),
        (WizardStage::ListingGuilds { token }, WizardEvent::Guilds(choice)) => match choice {
            GuildChoice::Nowhere(_) => Err(SetupError::NoGuilds),
            GuildChoice::Only(guild, _) => {
                let id = guild.id;
                Ok((WizardStage::ListingChannels { token, guild }, WizardAction::FetchChannels(id)))
            },
            GuildChoice::Ask(guilds, names) => Ok(
                (WizardStage::PickingGuild { token, guilds }, WizardAction::PickGuild(names)),
            ),
        },
        (WizardStage::PickingGuild { token, guilds }, WizardEvent::Picked(i)) => {
            let mut guilds = guilds;
            if i >= guilds.len() {
                return Err(SetupError::Cancelled);
            }
            let guild = guilds.remove(i);
            let id = guild.id;
            Ok((WizardStage::ListingChannels { token, guild }, WizardAction::FetchChannels(id)))
        },
        (
            WizardStage::ListingChannels { token, guild },
            WizardEvent::Channels(choice),
        ) => match choice {
            ChannelChoice::Nowhere(_) => Err(SetupError::NoAudioChannels),
            ChannelChoice::Only(channel, _) => Ok(
                (WizardStage::Naming { token, guild, channel }, WizardAction::AskName),
            ),
            ChannelChoice::Ask(channels, names) => Ok(
                (
                    WizardStage::PickingChannel { token, guild, channels },
                    WizardAction::PickChannel(names),
                ),
            ),
        },
        (WizardStage::PickingChannel { token, guild, channels }, WizardEvent::Picked(i)) => {
            let mut channels = channels;
            if i >= channels.len() {
                return Err(SetupError::Cancelled);
            }
            let channel = channels.remove(i);
            Ok((WizardStage::Naming { token, guild, channel }, WizardAction::AskName))
        },
        (
            WizardStage::Naming { token, guild, channel },
            WizardEvent::Named(device_name),
        ) => Ok(
            (
                WizardStage::Confirming { token, guild, channel, device_name },
                WizardAction::Confirm,
            ),
        ),
        (
            WizardStage::Confirming { token, guild, channel, device_name },
            WizardEvent::Answered(true),
        ) => Ok(
            (
                WizardStage::Done,
                WizardAction::Write(
                    Answers { token, guild_id: guild.id, channel_id: channel.id, device_name },
                ),
            ),
        ),
        _ => Err(SetupError::Cancelled),
    }
}

/// Ask for a token again, unless the attempts are used up.
fn token_retry(attempt: u32, entry: TokenEntry) -> (r: Result<
    (WizardStage, WizardAction),
    SetupError,
>)
    requires
        entry != TokenEntry::Accepted,
    ensures
        r == token_again(attempt),
{
    match token_step(attempt, entry) {
        TokenStep::Again => Ok(
            (WizardStage::Token { attempt: attempt + 1 }, WizardAction::PromptToken),
        ),
        _ => Err(SetupError::InvalidToken),
    }
}

/// The stage the wizard is in after these events, while it has not ended.
pub open spec fn wizard_after(events: Seq<WizardEvent>) -> Option<WizardStage>
    decreases events.len(),
{
    if events.len() == 0 {
        Some(WizardStage::Token { attempt: 1 })
    } else {
        match wizard_after(events.drop_last()) {
            Some(stage) => match wizard_next(stage, events.last()) {
                Ok((next, _)) => Some(next),
                Err(_) => None,
            },
            None => None,
        }
    }
}

/// How many steps a stage is past the first, a token's attempts counted.
pub open spec fn wizard_rank(stage: WizardStage) -> int {
    match stage {
        WizardStage::Token { attempt } => 2 * attempt,
        WizardStage::Checking { attempt, .. } => 2 * attempt + 1,
        WizardStage::Application { .. } => 0x2_0000_0000,
        WizardStage::Inviting { .. } => 0x2_0000_0001,
        WizardStage::ListingGuilds { .. } => 0x2_0000_0002,
        WizardStage::PickingGuild { .. } => 0x2_0000_0003,
        WizardStage::ListingChannels { .. } => 0x2_0000_0004,
        WizardStage::PickingChannel { .. } => 0x2_0000_0005,
        WizardStage::Naming { .. } => 0x2_0000_0006,
        WizardStage::Confirming { .. } => 0x2_0000_0007,
        WizardStage::Done => 0x2_0000_0008,
    }
}

/// The wizard only moves forward: no stage comes twice, so no question is asked
/// twice but for the token, and at most one configuration is written.
pub proof fn law_the_wizard_moves_forward(stage: WizardStage, event: WizardEvent)
    ensures
        wizard_next(stage, event) matches Ok((next, action)) ==> wizard_rank(next) > wizard_rank(
            stage,
        ) && (action is Write <==> next is Done),
        stage is Done ==> wizard_next(stage, event) is Err,
{
}

/// A no to either question ends the setup as cancelled.
pub proof fn law_a_no_cancels_the_setup(stage: WizardStage)
    requires
        stage is Inviting || stage is Confirming,
    ensures
        wizard_next(stage, WizardEvent::Answered(false)) == Err::<(WizardStage, WizardAction), _>(
            SetupError::Cancelled,
        ),
{
}

proof fn lemma_invited(events: Seq<WizardEvent>)
    ensures
        wizard_after(events) matches Some(stage) ==> (wizard_rank(stage) >= 0x2_0000_0002
            ==> exists|i: int|
            0 <= i < events.len() && #[trigger] events[i] == WizardEvent::Answered(true)),
    decreases events.len(),
{
    if events.len() > 0 {
        let before = events.drop_last();
        lemma_invited(before);
        if wizard_after(events) is Some {
            let stage = wizard_after(before)->0;
            if wizard_rank(stage) >= 0x2_0000_0002 {
                let i = choose|i: int|
                    0 <= i < before.len() && #[trigger] before[i] == WizardEvent::Answered(true);
                assert(events[i] == WizardEvent::Answered(true));
            } else if wizard_rank(wizard_after(events)->0) >= 0x2_0000_0002 {
                assert(events[events.len() - 1] == WizardEvent::Answered(true));
            }
        }
    }
}

/// Nothing is written before both questions have been answered with yes, and
/// what is written is what the summary was made of.
pub proof fn law_nothing_is_written_before_the_last_yes(
    events: Seq<WizardEvent>,
    event: WizardEvent,
    answers: Answers,
)
    requires
        wizard_after(events) is Some,
        wizard_next(wizard_after(events)->0, event) == Ok::<_, SetupError>(
            (WizardStage::Done, WizardAction::Write(answers)),
        ),
    ensures
        event == WizardEvent::Answered(true),
        exists|i: int|
            0 <= i < events.len() && #[trigger] events[i] == WizardEvent::Answered(true),
        wizard_after(events) matches Some(
            WizardStage::Confirming { token, guild, channel, device_name },
        ) && answers == (Answers {
            token,
            guild_id: guild.id,
            channel_id: channel.id,
            device_name,
        }),
{
    lemma_invited(events);
}

/// The setting that a line of an env file makes: what stands left of its
/// first equals sign. The match is exact, so that a key which begins like
/// another is left alone.
pub open spec fn line_key(line: Seq<char>) -> Seq<char> {
    crate::text::trimmed(crate::text::before_first(line, '='))
}

/// A line that makes a setting.
pub open spec fn setting_line(setting: (Seq<char>, Seq<char>)) -> Seq<char> {
    setting.0 + "="@ + setting.1
}

/// The position of the setting of this key, or their number.
pub open spec fn setting_index(settings: Seq<(Seq<char>, Seq<char>)>, key: Seq<char>) -> int
    decreases settings.len(),
{
    if settings.len() == 0 || settings[0].0 == key {
        0
    } else {
        1 + setting_index(settings.drop_first(), key)
    }
}

/// A line of the file as it is written back.
pub open spec fn updated_line(line: Seq<char>, settings: Seq<(Seq<char>, Seq<char>)>) -> Seq<char> {
    let i = setting_index(settings, line_key(line));
    if 0 <= i < settings.len() {
        setting_line(settings[i])
    } else {
        line
    }
}

/// Whether some line makes the setting of this key.
pub open spec fn makes(file: Seq<Seq<char>>, key: Seq<char>) -> bool {
    exists|i: int| 0 <= i < file.len() && line_key(#[trigger] file[i]) == key
}

/// The lines for the settings that no line of the file makes.
pub open spec fn missing_lines(
    file: Seq<Seq<char>>,
    settings: Seq<(Seq<char>, Seq<char>)>,
) -> Seq<Seq<char>>
    decreases settings.len(),
{
    if settings.len() == 0 {
        Seq::empty()
    } else {
        let rest = missing_lines(file, settings.drop_last());
        if makes(file, settings.last().0) {
            rest
        } else {
            rest.push(setting_line(settings.last()))
        }
    }
}

/// The lines of the file as it is written back: each in its place, with the
/// wizard's settings made where they were made before, or else at the end.
pub open spec fn updated_lines(
    file: Seq<Seq<char>>,
    settings: Seq<(Seq<char>, Seq<char>)>,
) -> Seq<Seq<char>> {
    file.map_values(|line: Seq<char>| updated_line(line, settings)) + missing_lines(file, settings)
}

/// Lines as text, each ended by a newline.
pub open spec fn ended_lines(file: Seq<Seq<char>>) -> Seq<char> {
    crate::text::separated(file, "\n"@) + "\n"@
}

/// A setting of the wizard.
struct Setting {
    key: String,
    value: String,
}

/// What some settings are.
spec fn pairs(settings: Seq<Setting>) -> Seq<(Seq<char>, Seq<char>)> {
    settings.map_values(|s: Setting| (s.key@, s.value@))
}

fn add_setting(settings: &mut Vec<Setting>, key: &str, value: &str)
    ensures
        pairs(final(settings)@) == pairs(old(settings)@).push((key@, value@)),
{
    settings.push(Setting { key: key.to_owned(), value: value.to_owned() });
    assert(pairs(settings@) =~= pairs(old(settings)@).push((key@, value@)));
}

fn wizard_settings(answers: &Answers) -> (r: Vec<Setting>)
    ensures
        pairs(r@) == answers.settings(),
{
    let mut settings: Vec<Setting> = Vec::new();
    assert(pairs(settings@) =~= Seq::empty());
    add_setting(&mut settings, "DISCORD_TOKEN", answers.token.as_str());
    add_setting(&mut settings, "DISCORD_GUILD_ID", decimal_text(answers.guild_id).as_str());
    add_setting(&mut settings, "DISCORD_CHANNEL_ID", decimal_text(answers.channel_id).as_str());
    add_setting(&mut settings, "DEVICE_NAME", answers.device_name.as_str());
    assert(pairs(settings@) =~= answers.settings());
    settings
}

proof fn lemma_setting_index(settings: Seq<(Seq<char>, Seq<char>)>, key: Seq<char>, k: int)
    requires
        0 <= k <= settings.len(),
        forall|j: int| 0 <= j < k ==> (#[trigger] settings[j]).0 != key,
        k < settings.len() ==> settings[k].0 == key,
    ensures
        setting_index(settings, key) == k,
    decreases k,
{
    if k > 0 {
        let rest = settings.drop_first();
        assert forall|j: int| 0 <= j < k - 1 implies (#[trigger] rest[j]).0 != key by {
            assert(rest[j] == settings[j + 1]);
        }
        if k < settings.len() {
            assert(rest[k - 1] == settings[k]);
        }
        assert(settings[0].0 != key);
        lemma_setting_index(rest, key, k - 1);
    }
}

fn key_of(line: &str) -> (r: String)
    ensures
        r@ == line_key(line@),
{
    let head = head_before(line, '=');
    trim(head.as_str())
}

fn line_of(setting: &Setting) -> (r: String)
    ensures
        r@ == setting_line((setting.key@, setting.value@)),
{
    cat3(setting.key.as_str(), "=", setting.value.as_str())
}

fn rewrite_line(line: &str, settings: &Vec<Setting>) -> (r: String)
    ensures
        r@ == updated_line(line@, pairs(settings@)),
{
    let key = key_of(line);
    let mut k: usize = 0;
    while k < settings.len()
        invariant
            k <= settings@.len(),
            key@ == line_key(line@),
            forall|j: int| 0 <= j < k ==> (#[trigger] pairs(settings@)[j]).0 != key@,
        decreases settings@.len() - k,
    {
        assert(pairs(settings@)[k as int] == (settings@[k as int].key@, settings@[k as int].value@));
        if settings[k].key == key {
            proof {
                lemma_setting_index(pairs(settings@), key@, k as int);
            }
            return line_of(&settings[k]);
        }
        k += 1;
    }
    proof {
        lemma_setting_index(pairs(settings@), key@, k as int);
    }
    line.to_owned()
}

fn made_by(file: &Vec<String>, key: &String) -> (r: bool)
    ensures
        r == makes(crate::text::texts(file@), key@),
{
    let mut i: usize = 0;
    while i < file.len()
        invariant
            i <= file@.len(),
            forall|j: int|
                0 <= j < i ==> line_key(#[trigger] crate::text::texts(file@)[j]) != key@,
        decreases file@.len() - i,
    {
        assert(crate::text::texts(file@)[i as int] == file@[i as int]@);
        if key_of(file[i].as_str()) == *key {
            return true;
        }
        i += 1;
    }
    false
}

/// An existing env file with the wizard's settings in it: comments, order and
/// other settings are kept.
pub fn updated_env(contents: &str, answers: &Answers) -> (r: String)
    ensures
        r@ == ended_lines(
            updated_lines(crate::text::lines_of(contents@), answers.settings()),
        ),
{
    let settings = wizard_settings(answers);
    let file = lines(contents);
    let ghost old_lines = crate::text::texts(file@);
    let ghost wanted = answers.settings();
    let mut out: Vec<String> = Vec::new();
    let mut i: usize = 0;
    proof {
        assert(crate::text::texts(out@) =~= old_lines.take(0).map_values(
            |line: Seq<char>| updated_line(line, wanted),
        ));
    }
    while i < file.len()
        invariant
            i <= file@.len(),
            old_lines == crate::text::texts(file@),
            pairs(settings@) == wanted,
            crate::text::texts(out@) == old_lines.take(i as int).map_values(
                |line: Seq<char>| updated_line(line, wanted),
            ),
        decreases file@.len() - i,
    {
        let line = rewrite_line(file[i].as_str(), &settings);
        let ghost before = crate::text::texts(out@);
        add_text(&mut out, line.as_str());
        proof {
            assert(old_lines[i as int] == file@[i as int]@);
            assert(crate::text::texts(out@) =~= old_lines.take(i + 1).map_values(
                |line: Seq<char>| updated_line(line, wanted),
            ));
        }
        i += 1;
    }
    let ghost head = old_lines.map_values(|line: Seq<char>| updated_line(line, wanted));
    let mut k: usize = 0;
    proof {
        assert(old_lines.take(i as int) =~= old_lines);
        assert(head + missing_lines(old_lines, wanted.take(0)) =~= head);
    }
    while k < settings.len()
        invariant
            k <= settings@.len(),
            old_lines == crate::text::texts(file@),
            pairs(settings@) == wanted,
            crate::text::texts(out@) == head + missing_lines(old_lines, wanted.take(k as int)),
        decreases settings@.len() - k,
    {
        proof {
            assert(wanted[k as int] == (settings@[k as int].key@, settings@[k as int].value@));
            assert(wanted.take(k + 1).drop_last() =~= wanted.take(k as int));
            assert(wanted.take(k + 1).last() == wanted[k as int]);
        }
        if !made_by(&file, &settings[k].key) {
            let line = line_of(&settings[k]);
            add_text(&mut out, line.as_str());
            proof {
                let rest = missing_lines(old_lines, wanted.take(k as int));
                assert(head + rest.push(line@) =~= (head + rest).push(line@));
            }
        }
        k += 1;
    }
    assert(wanted.take(k as int) =~= wanted);
    let body = crate::text::separate(&out, "\n");
    cat(body.as_str(), "\n")
}

/// The head of a new env file, up to the token.
pub const ENV_HEAD: &'static str = "# Discord Bot Token (from Bot page)\n# Get this from: https://discord.com/developers/applications\nDISCORD_TOKEN=";

pub const ENV_GUILD: &'static str = "\n\n# Discord Server ID\nDISCORD_GUILD_ID=";

pub const ENV_CHANNEL: &'static str = "\n\n# Discord Voice Channel ID\nDISCORD_CHANNEL_ID=";

pub const ENV_DEVICE: &'static str = "\n\n# Device name shown in Spotify Connect\nDEVICE_NAME=";

/// The settings that a new env file only describes.
pub const ENV_TAIL: &'static str = "\n\n# Spotify app client id (required for /login). Redirect URI:\n# http://127.0.0.1:8766/callback. PKCE flow — no client secret needed.\n# SPOTIFY_CLIENT_ID=\n\n# Encryption key for stored OAuth tokens (any long random string).\n# Unset = tokens stored unencrypted (startup warning).\n# TOKEN_ENC_KEY=\n\n# Optional: text channel for now-playing embeds (defaults to the voice channel)\n# TEXT_CHANNEL_ID=\n\n# Optional: stable device id to avoid duplicate devices (auto-generated if omitted)\n# DEVICE_ID=\n\n# Audio buffer length in seconds (1-12, default: 8)\n# AUDIO_BUFFER_SECONDS=8\n\n# Prebuffer time before audio starts in seconds (0.0-8.0, default: 2.0)\n# PREBUFFER_SECONDS=2.0\n\n# EQ / audio tuning (adjust to taste)\n# PREAMP_DB=0.0\n# BASS_BOOST_DB=0.0\n# TREBLE_BOOST_DB=0.0\n\n# Logging level (default: warn)\n#   Simple:  trace | debug | info | warn | error\n#   Custom:  any valid RUST_LOG filter string\n# RUST_LOG=warn\n";

/// A new env file.
pub fn fresh_env(answers: &Answers) -> (r: String)
    ensures
        r@ == ENV_HEAD@ + answers.token@ + ENV_GUILD@ + crate::text::decimal(
            answers.guild_id as nat,
        ) + ENV_CHANNEL@ + crate::text::decimal(answers.channel_id as nat) + ENV_DEVICE@
            + answers.device_name@ + ENV_TAIL@,
{
    let token = cat3(ENV_HEAD, answers.token.as_str(), ENV_GUILD);
    let guild = cat3(token.as_str(), decimal_text(answers.guild_id).as_str(), ENV_CHANNEL);
    let channel = cat3(guild.as_str(), decimal_text(answers.channel_id).as_str(), ENV_DEVICE);
    cat3(channel.as_str(), answers.device_name.as_str(), ENV_TAIL)
}

/// The env file to write, from what is there.
pub fn env_text(existing: Option<&str>, answers: &Answers) -> (r: String)
    ensures
        match existing {
            Some(contents) => r@ == ended_lines(
                updated_lines(crate::text::lines_of(contents@), answers.settings()),
            ),
            None => r@ == ENV_HEAD@ + answers.token@ + ENV_GUILD@ + crate::text::decimal(
                answers.guild_id as nat,
            ) + ENV_CHANNEL@ + crate::text::decimal(answers.channel_id as nat) + ENV_DEVICE@
                + answers.device_name@ + ENV_TAIL@,
        },
{
    match existing {
        Some(contents) => updated_env(contents, answers),
        None => fresh_env(answers),
    }
}

/// Every line that makes none of the wizard's settings is kept, in its place.
pub proof fn law_other_lines_are_kept(
    file: Seq<Seq<char>>,
    settings: Seq<(Seq<char>, Seq<char>)>,
    i: int,
)
    requires
        0 <= i < file.len(),
        forall|k: int| 0 <= k < settings.len() ==> (#[trigger] settings[k]).0 != line_key(file[i]),
    ensures
        updated_lines(file, settings)[i] == file[i],
{
    lemma_setting_index(settings, line_key(file[i]), settings.len() as int);
}

/// Every setting of the wizard is made by some line of what is written.
pub proof fn law_every_setting_is_made(
    file: Seq<Seq<char>>,
    settings: Seq<(Seq<char>, Seq<char>)>,
    k: int,
)
    requires
        0 <= k < settings.len(),
        forall|i: int, j: int|
            0 <= i < j < settings.len() ==> (#[trigger] settings[i]).0 != (
            #[trigger] settings[j]).0,
    ensures
        updated_lines(file, settings).contains(setting_line(settings[k])),
{
    let out = updated_lines(file, settings);
    if makes(file, settings[k].0) {
        let i = choose|i: int| 0 <= i < file.len() && line_key(#[trigger] file[i]) == settings[k].0;
        lemma_setting_index(settings, settings[k].0, k);
        assert(out[i] == setting_line(settings[k]));
    } else {
        lemma_missing(file, settings, k);
        let rest = missing_lines(file, settings);
        let j = choose|j: int| 0 <= j < rest.len() && #[trigger] rest[j] == setting_line(
            settings[k],
        );
        assert(out[file.len() + j] == setting_line(settings[k]));
    }
}

proof fn lemma_missing(file: Seq<Seq<char>>, settings: Seq<(Seq<char>, Seq<char>)>, k: int)
    requires
        0 <= k < settings.len(),
        !makes(file, settings[k].0),
    ensures
        exists|j: int|
            0 <= j < missing_lines(file, settings).len() && #[trigger] missing_lines(
                file,
                settings,
            )[j] == setting_line(settings[k]),
    decreases settings.len(),
{
    let all = missing_lines(file, settings);
    let rest = missing_lines(file, settings.drop_last());
    if k == settings.len() - 1 {
        assert(all[rest.len() as int] == setting_line(settings[k]));
    } else {
        assert(settings.drop_last()[k] == settings[k]);
        lemma_missing(file, settings.drop_last(), k);
        let j = choose|j: int| 0 <= j < rest.len() && #[trigger] rest[j] == setting_line(
            settings[k],
        );
        assert(all[j] == rest[j]);
    }
}

/// What a line that makes a setting is read as: its key, where the key holds no
/// equals sign and no white space at its ends.
proof fn lemma_line_key(key: Seq<char>, value: Seq<char>)
    requires
        key.len() > 0,
        forall|i: int| 0 <= i < key.len() ==> #[trigger] key[i] != '=',
        !crate::text::is_white(key[0]),
        !crate::text::is_white(key.last()),
    ensures
        line_key(setting_line((key, value))) == key,
{
    reveal_strlit("=");
    let line = setting_line((key, value));
    let n = key.len() as int;
    assert(line[n] == '=');
    assert forall|j: int| 0 <= j < n implies #[trigger] line[j] != '=' by {
        assert(line[j] == key[j]);
    }
    crate::text::lemma_index_of(line, '=', n);
    assert(line.take(n) =~= key);
}

/// A setting's line is read as that setting, for each of them.
pub open spec fn read_back(settings: Seq<(Seq<char>, Seq<char>)>) -> bool {
    &&& forall|k: int|
        0 <= k < settings.len() ==> line_key(setting_line(#[trigger] settings[k]))
            == settings[k].0
    &&& forall|i: int, j: int|
        0 <= i < j < settings.len() ==> (#[trigger] settings[i]).0 != (#[trigger] settings[j]).0
}

/// The wizard's settings are read back as what they are, whatever was answered.
pub proof fn law_wizard_settings_read_back(answers: Answers)
    ensures
        read_back(answers.settings()),
{
    reveal_strlit("DISCORD_TOKEN");
    reveal_strlit("DISCORD_GUILD_ID");
    reveal_strlit("DISCORD_CHANNEL_ID");
    reveal_strlit("DEVICE_NAME");
    let s = answers.settings();
    lemma_line_key("DISCORD_TOKEN"@, s[0].1);
    lemma_line_key("DISCORD_GUILD_ID"@, s[1].1);
    lemma_line_key("DISCORD_CHANNEL_ID"@, s[2].1);
    lemma_line_key("DEVICE_NAME"@, s[3].1);
    assert("DISCORD_TOKEN"@.len() == 13);
    assert("DISCORD_GUILD_ID"@.len() == 16);
    assert("DISCORD_CHANNEL_ID"@.len() == 18);
    assert("DEVICE_NAME"@.len() == 11);
}

proof fn lemma_missing_are_settings(
    file: Seq<Seq<char>>,
    settings: Seq<(Seq<char>, Seq<char>)>,
    j: int,
)
    requires
        0 <= j < missing_lines(file, settings).len(),
    ensures
        exists|k: int|
            0 <= k < settings.len() && missing_lines(file, settings)[j] == setting_line(
                #[trigger] settings[k],
            ),
    decreases settings.len(),
{
    let rest = missing_lines(file, settings.drop_last());
    if j < rest.len() {
        lemma_missing_are_settings(file, settings.drop_last(), j);
        let k = choose|k: int|
            0 <= k < settings.drop_last().len() && rest[j] == setting_line(
                #[trigger] settings.drop_last()[k],
            );
        assert(missing_lines(file, settings)[j] == setting_line(settings[k]));
    } else {
        assert(missing_lines(file, settings)[j] == setting_line(settings[settings.len() - 1]));
    }
}

proof fn lemma_nothing_missing(file: Seq<Seq<char>>, settings: Seq<(Seq<char>, Seq<char>)>)
    requires
        forall|k: int| 0 <= k < settings.len() ==> makes(file, (#[trigger] settings[k]).0),
    ensures
        missing_lines(file, settings).len() == 0,
    decreases settings.len(),
{
    if settings.len() > 0 {
        assert(makes(file, settings[settings.len() - 1].0));
        assert forall|k: int| 0 <= k < settings.drop_last().len() implies makes(
            file,
            (#[trigger] settings.drop_last()[k]).0,
        ) by {
            assert(settings.drop_last()[k] == settings[k]);
        }
        lemma_nothing_missing(file, settings.drop_last());
    }
}

proof fn lemma_setting_index_bounds(settings: Seq<(Seq<char>, Seq<char>)>, key: Seq<char>)
    ensures
        0 <= setting_index(settings, key) <= settings.len(),
        setting_index(settings, key) < settings.len() ==> settings[setting_index(
            settings,
            key,
        )].0 == key,
    decreases settings.len(),
{
    if settings.len() > 0 && settings[0].0 != key {
        lemma_setting_index_bounds(settings.drop_first(), key);
    }
}

/// Running the wizard again with the same answers changes nothing more.
pub proof fn law_update_is_idempotent(
    file: Seq<Seq<char>>,
    settings: Seq<(Seq<char>, Seq<char>)>,
)
    requires
        read_back(settings),
    ensures
        updated_lines(updated_lines(file, settings), settings) == updated_lines(file, settings),
{
    let out = updated_lines(file, settings);
    let missing = missing_lines(file, settings);
    assert forall|i: int| 0 <= i < out.len() implies updated_line(#[trigger] out[i], settings)
        == out[i] by {
        if i < file.len() {
            let key = line_key(file[i]);
            lemma_setting_index_bounds(settings, key);
            let k = setting_index(settings, key);
            assert(out[i] == updated_line(file[i], settings));
            if k < settings.len() {
                assert(out[i] == setting_line(settings[k]));
                assert(line_key(out[i]) == key);
            }
        } else {
            let j = i - file.len();
            assert(out[i] == missing[j]);
            lemma_missing_are_settings(file, settings, j);
            let k = choose|k: int|
                0 <= k < settings.len() && missing[j] == setting_line(#[trigger] settings[k]);
            lemma_setting_index(settings, settings[k].0, k);
        }
    }
    assert forall|k: int| 0 <= k < settings.len() implies makes(
        out,
        (#[trigger] settings[k]).0,
    ) by {
        law_every_setting_is_made(file, settings, k);
        let i = choose|i: int| 0 <= i < out.len() && out[i] == setting_line(settings[k]);
        assert(line_key(out[i]) == settings[k].0);
    }
    lemma_nothing_missing(out, settings);
    assert(updated_lines(out, settings) =~= out);
}

/// Every way the wizard can end without a configuration says so in its own
/// words.
pub proof fn law_each_failure_is_told(error: SetupError, text: String)
    requires
        call_ensures(SetupError::message, (&error,), text),
    ensures
        error is InvalidToken ==> text@ == "invalid bot token after multiple attempts"@,
        error is NoGuilds ==> text@ == "bot is not in any servers"@,
        error is NoAudioChannels ==> text@
            == "no voice or stage channels found in the selected server"@,
        error is Cancelled ==> text@ == "setup cancelled"@,
        error matches SetupError::Io(e) ==> text@ == "io error: "@ + e@,
        error matches SetupError::Dialoguer(e) ==> text@ == "prompt error: "@ + e@,
        error matches SetupError::Discord(e) ==> text@ == "discord api error: "@ + e@,
{
}

/// The invitation names the application and asks to connect, speak and mute
/// members.
pub proof fn law_invitations_name_the_application(
    app_id: u64,
    url: String,
    lines: Vec<String>,
    greeted: Vec<String>,
)
    requires
        call_ensures(invite_url, (app_id,), url),
        call_ensures(invitation, (app_id,), lines),
        call_ensures(greeting, (), greeted),
    ensures
        url@ == "https://discord.com/oauth2/authorize?client_id="@ + crate::text::decimal(
            app_id as nat,
        ) + "&scope=bot&permissions="@ + crate::text::decimal(7340032),
        crate::text::texts(lines@) =~= seq![
            ""@,
            "Invite your bot to a server using this link:"@,
            "  "@ + url@,
            ""@,
        ],
        crate::text::texts(greeted@) =~= seq![
            ""@,
            "=== Discord Spotify Player - Setup Wizard ==="@,
            ""@,
            "This wizard will walk you through the initial configuration."@,
            "You'll need a Discord bot token. Create one at:"@,
            "  "@ + "https://discord.com/developers/applications"@,
            ""@,
        ],
        DEFAULT_DEVICE_NAME@ == "Discord Player"@,
{
}

/// A token is asked for three times at most, a blank entry counting like a
/// rejected one, and each failure but the last says which attempt is next.
pub proof fn law_three_tokens_can_be_tried(
    attempt: u32,
    entry: TokenEntry,
    step: TokenStep,
    notice: String,
)
    requires
        call_ensures(token_step, (attempt, entry), step),
        call_ensures(token_notice, (attempt, entry), notice),
    ensures
        entry is Accepted ==> step is Accept && notice@.len() == 0,
        !(entry is Accepted) && attempt < 3 ==> step is Again,
        !(entry is Accepted) && attempt >= 3 ==> step is GiveUp,
        entry is Empty ==> notice@ == "  Token cannot be empty."@,
        entry is Rejected && attempt < 3 ==> notice@ == "  Invalid token. Please try again ("@
            + crate::text::decimal((attempt + 1) as nat) + "/3)."@,
        entry is Rejected && attempt >= 3 ==> notice@ == "  Invalid token after 3 attempts."@,
{
}

/// A token is taken without the white space around it; nothing but white
/// space is no token.
pub proof fn law_tokens_are_taken_without_white_space(
    text: &str,
    before: Seq<char>,
    token: Seq<char>,
    after: Seq<char>,
    r: Option<String>,
)
    requires
        call_ensures(entered_token, (text,), r),
        text@ == before + token + after,
        crate::text::blank(before),
        crate::text::blank(after),
        token.len() > 0 ==> !crate::text::is_white(token[0]) && !crate::text::is_white(
            token.last(),
        ),
    ensures
        token.len() == 0 ==> r is None,
        token.len() > 0 ==> (r matches Some(t) && t@ == token),
{
    if token.len() > 0 {
        crate::text::law_trimming_takes_white_space_off(before, token, after);
        assert(text@[before.len() as int] == token[0]);
    } else {
        assert forall|i: int| 0 <= i < text@.len() implies crate::text::is_white(
            #[trigger] text@[i],
        ) by {
            if i < before.len() {
                assert(text@[i] == before[i]);
            } else {
                assert(text@[i] == after[i - before.len()]);
            }
        }
    }
}

/// A token of ten bytes or more is shown by its first six and its last four,
/// and a shorter one not at all.
pub proof fn law_tokens_are_shown_masked(token: &str, shown: String)
    requires
        call_ensures(masked_token, (token,), shown),
    ensures
        ({
            let bytes = vstd::utf8::encode_utf8(token@);
            &&& bytes.len() < 10 ==> shown@ == "(invalid?)"@
            &&& bytes.len() >= 10 ==> shown@ == vstd::utf8::decode_utf8(bytes.subrange(0, 6))
                + "..."@ + vstd::utf8::decode_utf8(
                bytes.subrange(bytes.len() - 4, bytes.len() as int),
            )
        }),
{
    let bytes = vstd::utf8::encode_utf8(token@);
    if bytes.len() >= 10 {
        assert(bytes.take(6) =~= bytes.subrange(0, 6));
        assert(bytes.skip(bytes.len() - 4) =~= bytes.subrange(
            bytes.len() - 4,
            bytes.len() as int,
        ));
    }
}

/// Voice and stage channels carry audio, and nothing else does; they are
/// listed in order, by name and kind.
pub proof fn law_audio_channels_are_listed_in_order(
    channels: Vec<Channel>,
    audio: Vec<Channel>,
    before: Seq<Channel>,
    channel: Channel,
    line: String,
    label: &'static str,
)
    requires
        call_ensures(audio_channels, (channels,), audio),
        call_ensures(channel_line, (&channel,), line),
        call_ensures(channel_kind_label, (channel.kind,), label),
    ensures
        audio@ == audio_channels_of(channels@),
        audio_channels_of(Seq::empty()).len() == 0,
        channel.kind is Other ==> audio_channels_of(before.push(channel)) == audio_channels_of(
            before,
        ),
        channel.kind is Voice || channel.kind is Stage ==> audio_channels_of(before.push(channel))
            == audio_channels_of(before).push(channel),
        channel.kind is Voice ==> label@ == "voice"@ && line@ == channel.name@ + " ("@ + "voice"@
            + ")"@,
        channel.kind is Stage ==> label@ == "stage"@ && line@ == channel.name@ + " ("@ + "stage"@
            + ")"@,
        channel.kind is Other ==> label@ == "other"@ && line@ == channel.name@ + " ("@ + "other"@
            + ")"@,
{
    reveal(Seq::filter);
    assert(before.push(channel).drop_last() =~= before);
}

/// A bot in no server ends the wizard, one in a single server needs no
/// question, and any other is asked which one it is, by name and in order.
pub proof fn law_only_a_real_choice_of_server_is_asked_for(
    guilds: Vec<Guild>,
    r: GuildChoice,
    i: int,
)
    requires
        call_ensures(guild_choice, (guilds,), r),
    ensures
        guilds@.len() == 0 ==> (r matches GuildChoice::Nowhere(lines) && crate::text::texts(lines@)
            =~= seq![
            ""@,
            "The bot isn't in any servers yet."@,
            "Use the invite URL above, then re-run with --setup."@,
        ]),
        guilds@.len() == 1 ==> (r matches GuildChoice::Only(guild, lines) && guild == guilds@[0]
            && crate::text::texts(lines@) =~= seq![
            ""@,
            "Auto-selected server: "@ + guilds@[0].name@,
        ]),
        guilds@.len() > 1 ==> (r matches GuildChoice::Ask(list, names) && list == guilds
            && names@.len() == guilds@.len() && (0 <= i < guilds@.len() ==> names@[i]@
            == guilds@[i].name@)),
{
    if guilds@.len() > 1 {
        let names = r->Ask_1;
        assert(crate::text::texts(names@).len() == guild_names(guilds@).len());
        if 0 <= i < guilds@.len() {
            assert(crate::text::texts(names@)[i] == guild_names(guilds@)[i]);
        }
    }
}

/// A server without an audio channel ends the wizard, a single one needs no
/// question, and of several it is asked which one, by name and kind.
pub proof fn law_only_a_real_choice_of_channel_is_asked_for(
    guild_name: &str,
    channels: Vec<Channel>,
    r: ChannelChoice,
    i: int,
)
    requires
        call_ensures(channel_choice, (guild_name, channels), r),
    ensures
        ({
            let audio = audio_channels_of(channels@);
            let kind = |c: Channel|
                if c.kind is Stage {
                    "stage"@
                } else if c.kind is Voice {
                    "voice"@
                } else {
                    "other"@
                };
            &&& audio.len() == 0 ==> (r matches ChannelChoice::Nowhere(lines) && crate::text::texts(
                lines@,
            ) =~= seq![
                ""@,
                "No voice or stage channels found in \""@ + guild_name@ + "\"."@,
                "Create a voice channel in Discord first, then re-run with --setup."@,
            ])
            &&& audio.len() == 1 ==> (r matches ChannelChoice::Only(channel, lines) && channel
                == audio[0] && crate::text::texts(lines@) =~= seq![
                "Auto-selected "@ + kind(audio[0]) + " channel: "@ + audio[0].name@,
            ])
            &&& audio.len() > 1 ==> (r matches ChannelChoice::Ask(list, names) && list@ == audio
                && names@.len() == audio.len() && (0 <= i < audio.len() ==> names@[i]@
                == audio[i].name@ + " ("@ + kind(audio[i]) + ")"@))
        }),
{
    let audio = audio_channels_of(channels@);
    if audio.len() > 1 {
        let names = r->Ask_1;
        assert(crate::text::texts(names@).len() == channel_lines(audio).len());
        if 0 <= i < audio.len() {
            assert(crate::text::texts(names@)[i] == channel_lines(audio)[i]);
        }
    }
}

/// The summary shows what will be written, the token masked.
pub proof fn law_the_summary_shows_the_answers(
    guild_name: &str,
    channel: Channel,
    device_name: &str,
    token: &str,
    line: String,
    shown: String,
    r: Vec<String>,
)
    requires
        call_ensures(summary, (guild_name, &channel, device_name, token), r),
        call_ensures(channel_line, (&channel,), line),
        call_ensures(masked_token, (token,), shown),
    ensures
        crate::text::texts(r@) =~= seq![
            ""@,
            "--- Configuration Summary ---"@,
            "  Server:         "@ + guild_name@,
            "  Audio channel:  "@ + line@,
            "  Device name:    "@ + device_name@,
            "  Token:          "@ + shown@,
            ""@,
        ],
{
}

/// The wizard begins with the first of three attempts at a token. Each good
/// answer leads to the next question and carries on what is known; each bad
/// one ends the wizard, but for a token, which is asked for again.
pub proof fn law_the_wizard_asks_in_order(
    start: (WizardStage, WizardAction),
    stage: WizardStage,
    event: WizardEvent,
    r: Result<(WizardStage, WizardAction), SetupError>,
)
    requires
        call_ensures(wizard_start, (), start),
        call_ensures(wizard_step, (stage, event), r),
    ensures
        start.0 == (WizardStage::Token { attempt: 1 }) && start.1 is PromptToken,
        event matches WizardEvent::Failed(e) ==> (r matches Err(told) && told == e),
        stage matches WizardStage::Token { attempt } ==> (event matches WizardEvent::Entered(None)
            ==> {
            &&& attempt < 3 ==> (r matches Ok(p) && p.0 == (WizardStage::Token {
                attempt: (attempt + 1) as u32,
            }) && p.1 is PromptToken)
            &&& attempt >= 3 ==> (r matches Err(e) && e is InvalidToken)
        }),
        stage matches WizardStage::Token { attempt } ==> (event matches WizardEvent::Entered(
            Some(token),
        ) ==> (r matches Ok(p) && p.0 == (WizardStage::Checking { attempt, token }) && p.1
            == WizardAction::CheckToken(token))),
        stage matches WizardStage::Checking { attempt, token } ==> {
            &&& event == WizardEvent::Checked(true) ==> (r matches Ok(p) && p.0 == (
            WizardStage::Application { token }) && p.1 is FetchApplication)
            &&& event == WizardEvent::Checked(false) && attempt < 3 ==> (r matches Ok(p) && p.0
                == (WizardStage::Token { attempt: (attempt + 1) as u32 }) && p.1 is PromptToken)
            &&& event == WizardEvent::Checked(false) && attempt >= 3 ==> (r matches Err(e) && e
                is InvalidToken)
        },
        stage matches WizardStage::Application { token } ==> (
        event matches WizardEvent::Application(id) ==> (r matches Ok(p) && p.0 == (
        WizardStage::Inviting { token }) && p.1 == WizardAction::AskInvited(id))),
        stage matches WizardStage::Inviting { token } ==> (event == WizardEvent::Answered(true)
            ==> (r matches Ok(p) && p.0 == (WizardStage::ListingGuilds { token }) && p.1
            is FetchGuilds)),
        stage matches WizardStage::ListingGuilds { token } ==> {
            &&& event matches WizardEvent::Guilds(GuildChoice::Nowhere(_)) ==> (r matches Err(e)
                && e is NoGuilds)
            &&& event matches WizardEvent::Guilds(GuildChoice::Only(guild, _)) ==> (r matches Ok(p)
                && p.0 == (WizardStage::ListingChannels { token, guild }) && p.1
                == WizardAction::FetchChannels(guild.id))
            &&& event matches WizardEvent::Guilds(GuildChoice::Ask(guilds, names)) ==> (
            r matches Ok(p) && p.0 == (WizardStage::PickingGuild { token, guilds }) && p.1
                == WizardAction::PickGuild(names))
        },
        stage matches WizardStage::PickingGuild { token, guilds } ==> (
        event matches WizardEvent::Picked(i) ==> {
            &&& i < guilds@.len() ==> (r matches Ok(p) && p.0 == (WizardStage::ListingChannels {
                token,
                guild: guilds@[i as int],
            }) && p.1 == WizardAction::FetchChannels(guilds@[i as int].id))
            &&& i >= guilds@.len() ==> (r matches Err(e) && e is Cancelled)
        }),
        stage matches WizardStage::ListingChannels { token, guild } ==> {
            &&& event matches WizardEvent::Channels(ChannelChoice::Nowhere(_)) ==> (
            r matches Err(e) && e is NoAudioChannels)
            &&& event matches WizardEvent::Channels(ChannelChoice::Only(channel, _)) ==> (
            r matches Ok(p) && p.0 == (WizardStage::Naming { token, guild, channel }) && p.1
                is AskName)
            &&& event matches WizardEvent::Channels(ChannelChoice::Ask(channels, names)) ==> (
            r matches Ok(p) && p.0 == (WizardStage::PickingChannel { token, guild, channels })
                && p.1 == WizardAction::PickChannel(names))
        },
        stage matches WizardStage::PickingChannel { token, guild, channels } ==> (
        event matches WizardEvent::Picked(i) ==> {
            &&& i < channels@.len() ==> (r matches Ok(p) && p.0 == (WizardStage::Naming {
                token,
                guild,
                channel: channels@[i as int],
            }) && p.1 is AskName)
            &&& i >= channels@.len() ==> (r matches Err(e) && e is Cancelled)
        }),
        stage matches WizardStage::Naming { token, guild, channel } ==> (
        event matches WizardEvent::Named(device_name) ==> (r matches Ok(p) && p.0 == (
        WizardStage::Confirming { token, guild, channel, device_name }) && p.1 is Confirm)),
        stage matches WizardStage::Confirming { token, guild, channel, device_name } ==> (event
            == WizardEvent::Answered(true) ==> (r matches Ok(p) && p.0 is Done && p.1
            == WizardAction::Write(
            Answers { token, guild_id: guild.id, channel_id: channel.id, device_name },
        ))),
        event == WizardEvent::Answered(false) ==> (r matches Err(e) && e is Cancelled),
        stage is Done && !(event is Failed) ==> (r matches Err(e) && e is Cancelled),
{
}

/// The key of a line is what stands before its first equals sign, without the
/// white space around it; a line without one is its own key.
pub proof fn law_a_line_is_known_by_its_key(
    before: Seq<char>,
    key: Seq<char>,
    after: Seq<char>,
    value: Seq<char>,
)
    requires
        key.len() > 0,
        !crate::text::is_white(key[0]) && !crate::text::is_white(key.last()),
        crate::text::blank(before),
        crate::text::blank(after),
        forall|i: int|
            0 <= i < (before + key + after).len() ==> #[trigger] (before + key + after)[i] != '=',
    ensures
        line_key((before + key + after).push('=') + value) == key,
        line_key(before + key + after) == key,
{
    let head = before + key + after;
    crate::text::law_marks_divide_a_text(value, '=', head);
    assert(head.push('=') + value =~= head + seq!['='] + value);
    crate::text::law_trimming_takes_white_space_off(before, key, after);
}

/// The wizard sets the token, the server, the channel and the device's name.
/// A line that sets one of them is replaced where it stands; every other line
/// stays; what no line sets is added at the end, in that order.
pub proof fn law_the_env_file_is_updated_in_place(
    contents: &str,
    answers: Answers,
    written: String,
    file: Seq<Seq<char>>,
    settings: Seq<(Seq<char>, Seq<char>)>,
    setting: (Seq<char>, Seq<char>),
    i: int,
)
    requires
        call_ensures(updated_env, (contents, &answers), written),
    ensures
        written@ == crate::text::separated(
            updated_lines(crate::text::lines_of(contents@), answers.settings()),
            "\n"@,
        ) + "\n"@,
        0 <= i < file.len() ==> {
            let line = updated_lines(file, answers.settings())[i];
            let key = line_key(file[i]);
            &&& key == "DISCORD_TOKEN"@ ==> line == "DISCORD_TOKEN"@ + "="@ + answers.token@
            &&& key == "DISCORD_GUILD_ID"@ ==> line == "DISCORD_GUILD_ID"@ + "="@
                + crate::text::decimal(answers.guild_id as nat)
            &&& key == "DISCORD_CHANNEL_ID"@ ==> line == "DISCORD_CHANNEL_ID"@ + "="@
                + crate::text::decimal(answers.channel_id as nat)
            &&& key == "DEVICE_NAME"@ ==> line == "DEVICE_NAME"@ + "="@ + answers.device_name@
            &&& key != "DISCORD_TOKEN"@ && key != "DISCORD_GUILD_ID"@ && key
                != "DISCORD_CHANNEL_ID"@ && key != "DEVICE_NAME"@ ==> line == file[i]
        },
        updated_lines(file, answers.settings()) == updated_lines(file, answers.settings()).take(
            file.len() as int,
        ) + missing_lines(file, answers.settings()),
        missing_lines(file, Seq::empty()).len() == 0,
        (exists|j: int| 0 <= j < file.len() && line_key(#[trigger] file[j]) == setting.0)
            ==> missing_lines(file, settings.push(setting)) == missing_lines(file, settings),
        !(exists|j: int| 0 <= j < file.len() && line_key(#[trigger] file[j]) == setting.0)
            ==> missing_lines(file, settings.push(setting)) == missing_lines(file, settings).push(
            setting.0 + "="@ + setting.1,
        ),
        answers.settings() =~= seq![
            ("DISCORD_TOKEN"@, answers.token@),
            ("DISCORD_GUILD_ID"@, crate::text::decimal(answers.guild_id as nat)),
            ("DISCORD_CHANNEL_ID"@, crate::text::decimal(answers.channel_id as nat)),
            ("DEVICE_NAME"@, answers.device_name@),
        ],
{
    let wanted = answers.settings();
    let all = updated_lines(file, wanted);
    assert(settings.push(setting).drop_last() =~= settings);
    assert(all =~= all.take(file.len() as int) + missing_lines(file, wanted));
    law_wizard_settings_read_back(answers);
    if 0 <= i < file.len() {
        let key = line_key(file[i]);
        lemma_setting_index_bounds(wanted, key);
        let k = setting_index(wanted, key);
        assert(all[i] == updated_line(file[i], wanted));
        assert(wanted[0].0 == "DISCORD_TOKEN"@);
        assert(wanted[1].0 == "DISCORD_GUILD_ID"@);
        assert(wanted[2].0 == "DISCORD_CHANNEL_ID"@);
        assert(wanted[3].0 == "DEVICE_NAME"@);
        if key == wanted[0].0 {
            lemma_setting_index(wanted, key, 0);
        } else if key == wanted[1].0 {
            lemma_setting_index(wanted, key, 1);
        } else if key == wanted[2].0 {
            lemma_setting_index(wanted, key, 2);
        } else if key == wanted[3].0 {
            lemma_setting_index(wanted, key, 3);
        }
    }
}

/// A new env file sets the token, the server, the channel and the device's
/// name, each on a line of its own under a comment; an existing one is
/// updated.
pub proof fn law_a_new_env_file_holds_the_answers(
    answers: Answers,
    fresh: String,
    contents: &str,
    kept: String,
    updated: String,
)
    requires
        call_ensures(env_text, (None, &answers), fresh),
        call_ensures(env_text, (Some(contents), &answers), kept),
        call_ensures(updated_env, (contents, &answers), updated),
    ensures
        kept@ == updated@,
        fresh@
            == "# Discord Bot Token (from Bot page)\n# Get this from: https://discord.com/developers/applications\nDISCORD_TOKEN="@
            + answers.token@ + "\n\n# Discord Server ID\nDISCORD_GUILD_ID="@
            + crate::text::decimal(answers.guild_id as nat)
            + "\n\n# Discord Voice Channel ID\nDISCORD_CHANNEL_ID="@ + crate::text::decimal(
            answers.channel_id as nat,
        ) + "\n\n# Device name shown in Spotify Connect\nDEVICE_NAME="@ + answers.device_name@
            + ENV_TAIL@,
        forall|r: String| #[trigger] call_ensures(fresh_env, (&answers,), r) ==> r@ == fresh@,
{
}

} // verus!
