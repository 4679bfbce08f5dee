use vote_board::action::Action;
use vote_board::aggregate::Aggregate;
use vote_board::board_ui_service::{
    board_message, vote_button, BoardUIService, Button, ButtonStyle, Colour,
};
use vote_board::time::{Timestamp, Weekday};
use vote_board::vote_service::VoteService;

fn at(secs: i64) -> Timestamp {
    Timestamp::from_secs(secs).expect("instant within the accepted range")
}

#[test]
fn board_shows_the_tally_under_the_date() {
    let mut store = VoteService::new();
    store.update_vote(1, Action::Found, at(1_710_046_800));
    store.update_vote(2, Action::Found, at(1_710_046_830));
    store.update_vote(3, Action::SoldOut, at(1_710_052_200));
    // 2024-03-10T07:00:00Z, a Sunday.
    let now = at(1_710_054_000);
    let message = BoardUIService::create_board_embed_and_buttons(&store, now, true);
    assert_eq!(message.embed.title, "03/10(日)のケバブ情報掲示板");
    assert_eq!(
        message.embed.description,
        "**📊 投票結果**\n\
         🥙 営業してる: 2票\n\
         ❌ いない: 0票\n\
         🚫 売り切れた: 1票\n\n\
         更新日時: <t:1710052200:F>"
    );
    assert_eq!(message.embed.colour, Colour { r: 0, g: 255, b: 0 });
    assert_eq!(message.embed.timestamp, now);
    assert_eq!(message.embed.image, Some(String::from("attachment://vote_timeline.png")));
}

#[test]
fn board_without_votes_is_stamped_now() {
    let store = VoteService::new();
    // 2025-06-12T03:56:46Z, a Thursday.
    let now = at(1_749_700_606);
    let message = BoardUIService::create_board_embed_and_buttons(&store, now, false);
    assert_eq!(message.embed.title, "06/12(木)のケバブ情報掲示板");
    assert_eq!(
        message.embed.description,
        "**📊 投票結果**\n\
         🥙 営業してる: 0票\n\
         ❌ いない: 0票\n\
         🚫 売り切れた: 0票\n\n\
         更新日時: <t:1749700606:F>"
    );
    assert_eq!(message.embed.image, None);
}

#[test]
fn board_is_dated_by_the_calendar_of_utc() {
    let store = VoteService::new();
    // 2024-12-31T15:00:00Z is already New Year in Tokyo, but a Tuesday in
    // December on the calendar that dates the board.
    let message = BoardUIService::create_board_embed_and_buttons(&store, at(1_735_657_200), false);
    assert_eq!(message.embed.title, "12/31(火)のケバブ情報掲示板");
    // Before the epoch the stamp is negative: 1969-12-31T23:59:59Z.
    let message = BoardUIService::create_board_embed_and_buttons(&store, at(-1), false);
    assert_eq!(message.embed.title, "12/31(水)のケバブ情報掲示板");
    assert!(message.embed.description.ends_with("更新日時: <t:-1:F>"));
}

#[test]
fn board_has_a_button_for_each_action() {
    let store = VoteService::new();
    let message = BoardUIService::create_board_embed_and_buttons(&store, at(0), false);
    assert_eq!(
        message.buttons,
        vec![
            Button {
                custom_id: String::from("found"),
                label: String::from("営業してる"),
                style: ButtonStyle::Primary,
            },
            Button {
                custom_id: String::from("not_found"),
                label: String::from("いない"),
                style: ButtonStyle::Secondary,
            },
            Button {
                custom_id: String::from("sold_out"),
                label: String::from("売り切れた"),
                style: ButtonStyle::Danger,
            },
        ]
    );
    assert_eq!(vote_button(Action::SoldOut, ButtonStyle::Primary).custom_id, "sold_out");
}

#[test]
fn board_of_a_given_tally() {
    let tally = Aggregate {
        found: 12,
        not_found: 3,
        sold_out: 40,
        total: 55,
        latest_updated_at: Some(at(99)),
    };
    let message = board_message(&tally, "01/02", Weekday::Fri, at(100), false);
    assert_eq!(message.embed.title, "01/02(金)のケバブ情報掲示板");
    assert_eq!(
        message.embed.description,
        "**📊 投票結果**\n🥙 営業してる: 12票\n❌ いない: 3票\n🚫 売り切れた: 40票\n\n更新日時: <t:99:F>"
    );
    assert_eq!(message.embed.timestamp, at(100));
}

#[test]
fn days_of_the_week_in_one_character() {
    let days = [
        (Weekday::Mon, "月"),
        (Weekday::Tue, "火"),
        (Weekday::Wed, "水"),
        (Weekday::Thu, "木"),
        (Weekday::Fri, "金"),
        (Weekday::Sat, "土"),
        (Weekday::Sun, "日"),
    ];
    for (day, text) in days {
        assert_eq!(BoardUIService::get_weekday_string(day), text);
    }
}

#[test]
fn every_day_of_a_week_heads_its_board() {
    let store = VoteService::new();
    // Monday 2024-03-04 to Sunday 2024-03-10, at noon UTC.
    let monday_noon = 1_710_028_800 - 6 * 86_400 + 12 * 3600;
    let titles = [
        "03/04(月)のケバブ情報掲示板",
        "03/05(火)のケバブ情報掲示板",
        "03/06(水)のケバブ情報掲示板",
        "03/07(木)のケバブ情報掲示板",
        "03/08(金)のケバブ情報掲示板",
        "03/09(土)のケバブ情報掲示板",
        "03/10(日)のケバブ情報掲示板",
    ];
    for (day, title) in titles.iter().enumerate() {
        let now = at(monday_noon + day as i64 * 86_400);
        let message = BoardUIService::create_board_embed_and_buttons(&store, now, false);
        assert_eq!(&message.embed.title, title);
    }
}

#[test]
fn answer_where_no_board_is_registered() {
    let reply = BoardUIService::handle_empty_board_data();
    assert_eq!(reply.content, "保存された掲示板データはありません。");
    assert!(reply.ephemeral);
    assert_eq!(
        reply.buttons,
        vec![Button {
            custom_id: String::from("refresh_board"),
            label: String::from("更新"),
            style: ButtonStyle::Primary,
        }]
    );
}
