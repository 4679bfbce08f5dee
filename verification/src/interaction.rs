//! What the buttons and commands of the board answer.

use crate::action::{same_text, Action};
use crate::aggregate::Aggregate;
use crate::board_service::BoardData;
use crate::board_ui_service::{Colour, Embed, Reply};
use crate::text::{decimal, push_decimal, push_signed_decimal, signed_decimal};
use crate::time::Timestamp;
use vstd::prelude::*;
use vstd::string::StringExecFns;

verus! {

/// What a pressed button asks for.
#[derive(Clone, Copy, Debug, PartialEq, Eq, Structural)]
pub enum ButtonCommand {
    /// To see the registered boards.
    RefreshBoard,
    /// To vote for an action.
    Vote(Action),
    /// Nothing the board knows.
    Unknown,
}

/// How the making of a chart on request ended.
#[derive(Clone, Copy, Debug, PartialEq, Eq, Structural)]
pub enum ChartRequest {
    /// There was no vote to draw.
    NoVotes,
    /// The chart was drawn.
    Drawn,
    /// The chart could not be drawn.
    Failed,
}

impl ButtonCommand {
    /// What a button that sends `custom_id` asks for.
    pub open spec fn named(custom_id: Seq<char>) -> ButtonCommand {
        if custom_id == "refresh_board"@ {
            ButtonCommand::RefreshBoard
        } else {
            match Action::named(custom_id) {
                Some(action) => ButtonCommand::Vote(action),
                None => ButtonCommand::Unknown,
            }
        }
    }

    /// What a button that sends `custom_id` asks for.
    pub fn parse(custom_id: &str) -> (command: ButtonCommand)
        ensures
            command == ButtonCommand::named(custom_id@),
    {
        if same_text(custom_id, "refresh_board") {
            ButtonCommand::RefreshBoard
        } else {
            match Action::parse(custom_id) {
                Some(action) => ButtonCommand::Vote(action),
                None => ButtonCommand::Unknown,
            }
        }
    }
}

/// The thanks given for a vote.
pub open spec fn vote_thanks(action: Action) -> Seq<char> {
    match action {
        Action::Found => "🥙 「営業してる」に投票しました！"@,
        Action::NotFound => "❌ 「いない」に投票しました！"@,
        Action::SoldOut => "🚫 「売り切れた」に投票しました！"@,
    }
}

/// The line that lists one board.
pub open spec fn board_line(board: BoardData) -> Seq<char> {
    "• サーバーID: "@ + signed_decimal(board.server_id as int) + " | チャンネルID: "@
        + signed_decimal(board.channel_id as int) + " | メッセージID: "@ + signed_decimal(
        board.message_id as int,
    ) + "\n"@
}

/// The heading, and under it the line of each board.
pub open spec fn board_list(boards: Seq<BoardData>) -> Seq<char>
    decreases boards.len(),
{
    if boards.len() == 0 {
        "🔄 掲示板データを再読み込みしました:\n"@
    } else {
        board_list(boards.drop_last()) + board_line(boards.last())
    }
}

/// What is said of the registered boards: that there is none, or their
/// list.
pub open spec fn board_overview(boards: Seq<BoardData>) -> Seq<char> {
    if boards.len() == 0 {
        "まだ掲示板データがありません。"@
    } else {
        board_list(boards)
    }
}

/// The text of the results: the three counts and their total.
pub open spec fn results_text(found: u64, not_found: u64, sold_out: u64, total: u64) -> Seq<
    char,
> {
    "🥙 営業してる: "@ + decimal(found as nat) + "票\n❌ いない: "@ + decimal(not_found as nat)
        + "票\n🚫 売り切れた: "@ + decimal(sold_out as nat) + "票\n\n合計: "@ + decimal(
        total as nat,
    ) + "票"@
}

/// What is said once a board has been registered.
pub open spec fn board_saved_text(server_id: i64, channel_id: i64, message_id: i64) -> Seq<char> {
    "掲示板データを保存しました。\nサーバーID: "@ + signed_decimal(server_id as int)
        + "\nチャンネルID: "@ + signed_decimal(channel_id as int) + "\nメッセージID: "@
        + signed_decimal(message_id as int)
}

/// What is said once the votes have been deleted on request, or could not
/// be.
pub open spec fn reset_text(deleted: Option<u64>) -> Seq<char> {
    match deleted {
        Some(n) => "✅ "@ + decimal(n as nat) + "件の投票をリセットしました。"@,
        None => "❌ 投票のリセットに失敗しました。"@,
    }
}

/// What is said of a chart made on request.
pub open spec fn chart_text(request: ChartRequest) -> Seq<char> {
    match request {
        ChartRequest::NoVotes => "📊 まだ投票データがありません。"@,
        ChartRequest::Drawn => "📈 **投票の時系列グラフ**"@,
        ChartRequest::Failed => "❌ グラフの生成に失敗しました。"@,
    }
}

/// An answer of plain text, without buttons, for the person who asked alone.
fn private_note(content: String) -> (reply: Reply)
    ensures
        reply.content == content,
        reply.buttons@.len() == 0,
        reply.ephemeral,
{
    Reply { content, buttons: Vec::new(), ephemeral: true }
}

/// The answer to a vote: thanks where it was saved, a regret where not.
pub fn vote_reply(action: Action, saved: bool) -> (reply: Reply)
    ensures
        reply.content@ == if saved {
            vote_thanks(action)
        } else {
            "投票の保存に失敗しました。"@
        },
        reply.buttons@.len() == 0,
        reply.ephemeral,
{
    let words: &'static str = if saved {
        match action {
            Action::Found => "🥙 「営業してる」に投票しました！",
            Action::NotFound => "❌ 「いない」に投票しました！",
            Action::SoldOut => "🚫 「売り切れた」に投票しました！",
        }
    } else {
        "投票の保存に失敗しました。"
    };
    private_note(String::from_str(words))
}

/// The answer to a button the board does not know.
pub fn unknown_button_reply() -> (reply: Reply)
    ensures
        reply.content@ == "不明なボタンです。"@,
        reply.buttons@.len() == 0,
        reply.ephemeral,
{
    private_note(String::from_str("不明なボタンです。"))
}

/// The answer to the button that asks for the boards: that there is none,
/// or their list.
pub fn refresh_board_reply(boards: &Vec<BoardData>) -> (reply: Reply)
    ensures
        reply.content@ == board_overview(boards@),
        reply.buttons@.len() == 0,
        reply.ephemeral,
{
    if boards.len() == 0 {
        return private_note(String::from_str("まだ掲示板データがありません。"));
    }
    let mut content = String::from_str("🔄 掲示板データを再読み込みしました:\n");
    let mut i: usize = 0;
    proof {
        assert(boards@.take(0) =~= Seq::<BoardData>::empty());
    }
    while i < boards.len()
        invariant
            i <= boards.len(),
            content@ == board_list(boards@.take(i as int)),
        decreases boards.len() - i,
    {
        let board: BoardData = boards[i];
        let ghost before = content@;
        content.append("• サーバーID: ");
        push_signed_decimal(&mut content, board.server_id);
        content.append(" | チャンネルID: ");
        push_signed_decimal(&mut content, board.channel_id);
        content.append(" | メッセージID: ");
        push_signed_decimal(&mut content, board.message_id);
        content.append("\n");
        proof {
            assert(boards@.take(i as int + 1).drop_last() =~= boards@.take(i as int));
            assert(content@ =~= before + board_line(board));
        }
        i += 1;
    }
    proof {
        assert(boards@.take(i as int) =~= boards@);
    }
    private_note(content)
}

/// The answer once a board has been registered.
pub fn board_saved_reply(server_id: i64, channel_id: i64, message_id: i64) -> (reply: Reply)
    ensures
        reply.content@ == board_saved_text(server_id, channel_id, message_id),
        reply.buttons@.len() == 0,
        reply.ephemeral,
{
    let mut content = String::from_str("掲示板データを保存しました。\nサーバーID: ");
    push_signed_decimal(&mut content, server_id);
    content.append("\nチャンネルID: ");
    push_signed_decimal(&mut content, channel_id);
    content.append("\nメッセージID: ");
    push_signed_decimal(&mut content, message_id);
    private_note(content)
}

/// The answer once the votes have been deleted on request: how many went,
/// or, where `deleted` is absent, that it failed.
pub fn reset_votes_reply(deleted: Option<u64>) -> (reply: Reply)
    ensures
        reply.content@ == reset_text(deleted),
        reply.buttons@.len() == 0,
        reply.ephemeral,
{
    match deleted {
        Some(n) => {
            let mut content = String::from_str("✅ ");
            push_decimal(&mut content, n);
            content.append("件の投票をリセットしました。");
            private_note(content)
        },
        None => private_note(String::from_str("❌ 投票のリセットに失敗しました。")),
    }
}

/// What is said of a chart made on request.
pub fn vote_chart_caption(request: ChartRequest) -> (words: &'static str)
    ensures
        words@ == chart_text(request),
{
    match request {
        ChartRequest::NoVotes => "📊 まだ投票データがありません。",
        ChartRequest::Drawn => "📈 **投票の時系列グラフ**",
        ChartRequest::Failed => "❌ グラフの生成に失敗しました。",
    }
}

/// The results of the vote as they stand at `now`: the three counts and
/// their total, in a blue frame.
pub fn vote_results_embed(tally: &Aggregate, now: Timestamp) -> (embed: Embed)
    ensures
        embed.title@ == "📊 現在の投票結果"@,
        embed.description@ == results_text(
            tally.found,
            tally.not_found,
            tally.sold_out,
            tally.total,
        ),
        embed.colour == (Colour { r: 52, g: 152, b: 219 }),
        embed.timestamp == now,
        embed.image is None,
{
    let mut description = String::from_str("🥙 営業してる: ");
    push_decimal(&mut description, tally.found);
    description.append("票\n❌ いない: ");
    push_decimal(&mut description, tally.not_found);
    description.append("票\n🚫 売り切れた: ");
    push_decimal(&mut description, tally.sold_out);
    description.append("票\n\n合計: ");
    push_decimal(&mut description, tally.total);
    description.append("票");
    Embed {
        title: String::from_str("📊 現在の投票結果"),
        description,
        colour: Colour { r: 52, g: 152, b: 219 },
        timestamp: now,
        image: None,
    }
}

} // verus!
