//! What a board shows, and the run that brings the boards up to date.

use crate::action::Action;
use crate::aggregate::{tally_of, Aggregate};
use crate::board_service::BoardData;
use crate::sync::{SyncSession, SyncState, PACING_MILLIS};
use crate::text::{decimal, push_decimal, push_signed_decimal, signed_decimal};
use crate::time::{
    utc_month_day_text, utc_month_day_text_at, utc_weekday_at, utc_weekday_number, Timestamp,
    Weekday,
};
use crate::vote_service::VoteService;
use vstd::prelude::*;
use vstd::string::StringExecFns;

verus! {

/// How a button looks.
#[derive(Clone, Copy, Debug, PartialEq, Eq, Structural)]
pub enum ButtonStyle {
    /// The main choice.
    Primary,
    /// A lesser choice.
    Secondary,
    /// A choice that warns.
    Danger,
}

/// A button under a message.
#[derive(Debug, PartialEq, Eq)]
pub struct Button {
    /// What the button sends when it is pressed.
    pub custom_id: String,
    /// What the button says.
    pub label: String,
    /// How the button looks.
    pub style: ButtonStyle,
}

/// A colour, by its red, green and blue parts.
#[derive(Clone, Copy, Debug, PartialEq, Eq, Structural)]
pub struct Colour {
    /// Red.
    pub r: u8,
    /// Green.
    pub g: u8,
    /// Blue.
    pub b: u8,
}

/// The framed part of a message.
#[derive(Debug, PartialEq, Eq)]
pub struct Embed {
    /// The heading.
    pub title: String,
    /// The text under the heading.
    pub description: String,
    /// The colour of the frame.
    pub colour: Colour,
    /// The instant the frame is dated with.
    pub timestamp: Timestamp,
    /// The picture shown in the frame, if any.
    pub image: Option<String>,
}

/// What a board shows: the summary and the buttons to vote with.
#[derive(Debug, PartialEq, Eq)]
pub struct BoardMessage {
    /// The summary of the tally.
    pub embed: Embed,
    /// One button for each action.
    pub buttons: Vec<Button>,
}

/// An answer to the person who asked, seen by them alone where `ephemeral`
/// is set.
#[derive(Debug, PartialEq, Eq)]
pub struct Reply {
    /// The text of the answer.
    pub content: String,
    /// The buttons under the answer.
    pub buttons: Vec<Button>,
    /// Whether only the person who asked sees the answer.
    pub ephemeral: bool,
}

/// The colour of the frame of a board: green.
pub open spec fn board_colour() -> Colour {
    Colour { r: 0, g: 255, b: 0 }
}

/// The one character that stands for a day of the week.
pub open spec fn weekday_text(weekday: Weekday) -> Seq<char> {
    match weekday {
        Weekday::Mon => "月"@,
        Weekday::Tue => "火"@,
        Weekday::Wed => "水"@,
        Weekday::Thu => "木"@,
        Weekday::Fri => "金"@,
        Weekday::Sat => "土"@,
        Weekday::Sun => "日"@,
    }
}

/// The heading of a board: the date, the day of the week in brackets, and
/// the name of the board.
pub open spec fn board_title(month_day: Seq<char>, weekday: Weekday) -> Seq<char> {
    month_day + "("@ + weekday_text(weekday) + ")のケバブ情報掲示板"@
}

/// The text of a board: the three counts, and the instant `stamp` as the
/// time of the last change.
pub open spec fn tally_text(found: u64, not_found: u64, sold_out: u64, stamp: int) -> Seq<char> {
    "**📊 投票結果**\n🥙 営業してる: "@ + decimal(found as nat) + "票\n❌ いない: "@ + decimal(
        not_found as nat,
    ) + "票\n🚫 売り切れた: "@ + decimal(sold_out as nat) + "票\n\n更新日時: <t:"@ + signed_decimal(
        stamp,
    ) + ":F>"@
}

/// The instant a board gives as the time of its last change: that of the
/// last vote, or `now` where there is no vote.
pub open spec fn stamp_of(tally: Aggregate, now: Timestamp) -> Timestamp {
    match tally.latest_updated_at {
        Some(t) => t,
        None => now,
    }
}

/// The name under which the chart is attached to a message.
pub open spec fn chart_attachment() -> Seq<char> {
    "attachment://vote_timeline.png"@
}

/// Whether `button` sends the name of `action`, says its label and looks
/// like `style`.
pub open spec fn is_vote_button(button: Button, action: Action, style: ButtonStyle) -> bool {
    &&& button.custom_id@ == action.name()
    &&& button.label@ == action.label()
    &&& button.style == style
}

/// Whether `buttons` are the three buttons to vote with.
pub open spec fn are_vote_buttons(buttons: Seq<Button>) -> bool {
    &&& buttons.len() == 3
    &&& is_vote_button(buttons[0], Action::Found, ButtonStyle::Primary)
    &&& is_vote_button(buttons[1], Action::NotFound, ButtonStyle::Secondary)
    &&& is_vote_button(buttons[2], Action::SoldOut, ButtonStyle::Danger)
}

/// Whether `message` is the board for `tally`, headed by `month_day` and
/// `weekday`, dated `now`, with the chart shown where `chart_exists`.
pub open spec fn is_board_message(
    message: BoardMessage,
    tally: Aggregate,
    month_day: Seq<char>,
    weekday: Weekday,
    now: Timestamp,
    chart_exists: bool,
) -> bool {
    &&& message.embed.title@ == board_title(month_day, weekday)
    &&& message.embed.description@ == tally_text(
        tally.found,
        tally.not_found,
        tally.sold_out,
        stamp_of(tally, now)@,
    )
    &&& message.embed.colour == board_colour()
    &&& message.embed.timestamp == now
    &&& match message.embed.image {
        Some(name) => chart_exists && name@ == chart_attachment(),
        None => !chart_exists,
    }
    &&& are_vote_buttons(message.buttons@)
}

/// The button to vote for `action` with.
pub fn vote_button(action: Action, style: ButtonStyle) -> (button: Button)
    ensures
        is_vote_button(button, action, style),
{
    Button {
        custom_id: String::from_str(action.as_str()),
        label: String::from_str(action.label_str()),
        style,
    }
}

/// The board for `tally`, headed by the date `month_day` and the day of the
/// week, dated `now`, with the chart shown where `chart_exists`.
pub fn board_message(
    tally: &Aggregate,
    month_day: &str,
    weekday: Weekday,
    now: Timestamp,
    chart_exists: bool,
) -> (message: BoardMessage)
    ensures
        is_board_message(message, *tally, month_day@, weekday, now, chart_exists),
{
    let mut title = String::from_str(month_day);
    title.append("(");
    title.append(BoardUIService::get_weekday_string(weekday));
    title.append(")のケバブ情報掲示板");
    let stamp: Timestamp = match tally.latest_updated_at {
        Some(t) => t,
        None => now,
    };
    let mut description = String::from_str("**📊 投票結果**\n🥙 営業してる: ");
    push_decimal(&mut description, tally.found);
    description.append("票\n❌ いない: ");
    push_decimal(&mut description, tally.not_found);
    description.append("票\n🚫 売り切れた: ");
    push_decimal(&mut description, tally.sold_out);
    description.append("票\n\n更新日時: <t:");
    push_signed_decimal(&mut description, stamp.secs());
    description.append(":F>");
    let image: Option<String> = if chart_exists {
        Some(String::from_str("attachment://vote_timeline.png"))
    } else {
        None
    };
    let mut buttons: Vec<Button> = Vec::new();
    buttons.push(vote_button(Action::Found, ButtonStyle::Primary));
    buttons.push(vote_button(Action::NotFound, ButtonStyle::Secondary));
    buttons.push(vote_button(Action::SoldOut, ButtonStyle::Danger));
    BoardMessage {
        embed: Embed {
            title,
            description,
            colour: Colour { r: 0, g: 255, b: 0 },
            timestamp: now,
            image,
        },
        buttons,
    }
}

/// Namespace of what the boards show and how they are brought up to date.
pub struct BoardUIService;

impl BoardUIService {
    /// The answer given where no board is registered: a note, and a button
    /// to look again.
    pub fn handle_empty_board_data() -> (reply: Reply)
        ensures
            reply.content@ == "保存された掲示板データはありません。"@,
            reply.ephemeral,
            reply.buttons@.len() == 1,
            reply.buttons@[0].custom_id@ == "refresh_board"@,
            reply.buttons@[0].label@ == "更新"@,
            reply.buttons@[0].style == ButtonStyle::Primary,
    {
        let mut buttons: Vec<Button> = Vec::new();
        buttons.push(
            Button {
                custom_id: String::from_str("refresh_board"),
                label: String::from_str("更新"),
                style: ButtonStyle::Primary,
            },
        );
        Reply {
            content: String::from_str("保存された掲示板データはありません。"),
            buttons,
            ephemeral: true,
        }
    }

    /// Begins the run that takes `message` to every board in `board_data`,
    /// in the order given, with the usual pause between two boards. The
    /// chart goes with the summary where the summary shows it.
    pub fn update_all_board_messages(board_data: Vec<BoardData>, message: BoardMessage) -> (session:
        SyncSession)
        ensures
            session@ == SyncState::initial(
                board_data@,
                message.embed.image is Some,
                PACING_MILLIS,
            ),
            session@.wf(),
            session.payload() == message,
    {
        SyncSession::begin(board_data, message)
    }

    /// What every board shows at `now`: the tally of the votes under the
    /// date of the day, and the three buttons. The picture of the chart is
    /// named where `chart_exists`.
    pub fn create_board_embed_and_buttons(
        votes: &VoteService,
        now: Timestamp,
        chart_exists: bool,
    ) -> (message: BoardMessage)
        ensures
            is_board_message(
                message,
                tally_of(votes@),
                utc_month_day_text(now@),
                Weekday::after_monday(utc_weekday_number(now@)),
                now,
                chart_exists,
            ),
    {
        let tally: Aggregate = Aggregate::compute(votes);
        let month_day: String = utc_month_day_text_at(now);
        let weekday: Weekday = utc_weekday_at(now);
        board_message(&tally, month_day.as_str(), weekday, now, chart_exists)
    }

    /// The one character that stands for a day of the week.
    pub fn get_weekday_string(weekday: Weekday) -> (text: &'static str)
        ensures
            text@ == weekday_text(weekday),
    {
        match weekday {
            Weekday::Mon => "月",
            Weekday::Tue => "火",
            Weekday::Wed => "水",
            Weekday::Thu => "木",
            Weekday::Fri => "金",
            Weekday::Sat => "土",
            Weekday::Sun => "日",
        }
    }
}

} // verus!
