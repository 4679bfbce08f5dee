use vote_board::board_service::{BoardData, BoardService};
use vote_board::error::StoreError;
use vote_board::time::Timestamp;

fn at(secs: i64) -> Timestamp {
    Timestamp::from_secs(secs).expect("instant within the accepted range")
}

fn board(id: i32, server: i64, channel: i64, message: i64, created: i64, updated: i64) -> BoardData {
    BoardData {
        id,
        server_id: server,
        channel_id: channel,
        message_id: message,
        created_at: at(created),
        updated_at: at(updated),
    }
}

/// Three boards: two on server 10, on channels 100 and 101, one on server 20.
fn three_boards() -> BoardService {
    let mut registry = BoardService::new();
    registry.create_board_data(10, 100, 1000, at(50)).expect("an identifier is left");
    registry.create_board_data(20, 200, 2000, at(70)).expect("an identifier is left");
    registry.create_board_data(10, 101, 1001, at(60)).expect("an identifier is left");
    registry
}

#[test]
fn boards_are_numbered_from_one() {
    let mut registry = BoardService::new();
    assert_eq!(registry.count_board_data(), 0);
    assert_eq!(registry.get_all_board_data(), vec![]);
    assert_eq!(
        registry.create_board_data(10, 100, 1000, at(50)),
        Ok(board(1, 10, 100, 1000, 50, 50))
    );
    assert_eq!(
        registry.create_board_data(10, 100, 1000, at(51)),
        Ok(board(2, 10, 100, 1000, 51, 51))
    );
    assert_eq!(registry.count_board_data(), 2);
    assert_eq!(
        registry.get_all_board_data(),
        vec![board(1, 10, 100, 1000, 50, 50), board(2, 10, 100, 1000, 51, 51)]
    );
}

#[test]
fn identifiers_are_not_given_twice() {
    let mut registry = three_boards();
    assert_eq!(registry.delete_board_data(3), Ok(1));
    assert_eq!(
        registry.create_board_data(30, 300, 3000, at(80)),
        Ok(board(4, 30, 300, 3000, 80, 80))
    );
}

#[test]
fn board_by_identifier() {
    let registry = three_boards();
    assert_eq!(registry.get_board_data_by_id(2), Some(board(2, 20, 200, 2000, 70, 70)));
    assert_eq!(registry.get_board_data_by_id(3), Some(board(3, 10, 101, 1001, 60, 60)));
    assert_eq!(registry.get_board_data_by_id(4), None);
    assert_eq!(registry.get_board_data_by_id(0), None);
    assert_eq!(registry.get_board_data_by_id(-1), None);
}

#[test]
fn boards_by_server_channel_and_message() {
    let registry = three_boards();
    assert_eq!(
        registry.get_board_data_by_server_id(10),
        vec![board(1, 10, 100, 1000, 50, 50), board(3, 10, 101, 1001, 60, 60)]
    );
    assert_eq!(registry.get_board_data_by_server_id(30), vec![]);
    assert_eq!(registry.get_board_data_by_channel_id(200), vec![board(2, 20, 200, 2000, 70, 70)]);
    assert_eq!(registry.get_board_data_by_channel_id(1000), vec![]);
    assert_eq!(
        registry.get_board_data_by_message_id(1001),
        Some(board(3, 10, 101, 1001, 60, 60))
    );
    assert_eq!(registry.get_board_data_by_message_id(100), None);
}

#[test]
fn first_board_of_a_message_is_found() {
    let mut registry = BoardService::new();
    registry.create_board_data(10, 100, 1000, at(50)).expect("an identifier is left");
    registry.create_board_data(11, 110, 1000, at(40)).expect("an identifier is left");
    assert_eq!(
        registry.get_board_data_by_message_id(1000),
        Some(board(1, 10, 100, 1000, 50, 50))
    );
}

#[test]
fn update_changes_what_is_given() {
    let mut registry = three_boards();
    assert_eq!(
        registry.update_board_data(2, None, Some(201), None, at(90)),
        Ok(board(2, 20, 201, 2000, 70, 90))
    );
    assert_eq!(
        registry.update_board_data(2, Some(21), None, Some(2002), at(91)),
        Ok(board(2, 21, 201, 2002, 70, 91))
    );
    assert_eq!(
        registry.update_board_data(1, None, None, None, at(92)),
        Ok(board(1, 10, 100, 1000, 50, 92))
    );
    assert_eq!(
        registry.get_all_board_data(),
        vec![
            board(1, 10, 100, 1000, 50, 92),
            board(2, 21, 201, 2002, 70, 91),
            board(3, 10, 101, 1001, 60, 60),
        ]
    );
}

#[test]
fn update_of_a_missing_board_is_refused() {
    let mut registry = three_boards();
    assert_eq!(
        registry.update_board_data(9, Some(1), Some(2), Some(3), at(90)),
        Err(StoreError::RecordNotFound)
    );
    assert_eq!(registry.get_all_board_data(), three_boards().get_all_board_data());
}

#[test]
fn delete_removes_one_board() {
    let mut registry = three_boards();
    assert_eq!(registry.delete_board_data(2), Ok(1));
    assert_eq!(
        registry.get_all_board_data(),
        vec![board(1, 10, 100, 1000, 50, 50), board(3, 10, 101, 1001, 60, 60)]
    );
    assert_eq!(registry.delete_board_data(2), Err(StoreError::RecordNotFound));
    assert_eq!(registry.count_board_data(), 2);
    assert_eq!(registry.delete_board_data(1), Ok(1));
    assert_eq!(registry.delete_board_data(3), Ok(1));
    assert_eq!(registry.count_board_data(), 0);
}

#[test]
fn boards_since_come_newest_first() {
    let registry = three_boards();
    assert_eq!(
        registry.get_board_data_since(at(60)),
        vec![board(2, 20, 200, 2000, 70, 70), board(3, 10, 101, 1001, 60, 60)]
    );
    assert_eq!(
        registry.get_board_data_since(at(0)),
        vec![
            board(2, 20, 200, 2000, 70, 70),
            board(3, 10, 101, 1001, 60, 60),
            board(1, 10, 100, 1000, 50, 50),
        ]
    );
    assert_eq!(registry.get_board_data_since(at(71)), vec![]);
}

#[test]
fn boards_of_a_server_and_channel_come_newest_first() {
    let mut registry = three_boards();
    registry.create_board_data(10, 100, 1002, at(55)).expect("an identifier is left");
    registry.create_board_data(10, 100, 1003, at(45)).expect("an identifier is left");
    registry.create_board_data(10, 100, 1004, at(55)).expect("an identifier is left");
    assert_eq!(
        registry.get_board_data_by_server_and_channel(10, 100),
        vec![
            board(4, 10, 100, 1002, 55, 55),
            board(6, 10, 100, 1004, 55, 55),
            board(1, 10, 100, 1000, 50, 50),
            board(5, 10, 100, 1003, 45, 45),
        ]
    );
    assert_eq!(registry.get_board_data_by_server_and_channel(10, 200), vec![]);
    assert_eq!(registry.get_board_data_by_server_and_channel(20, 100), vec![]);
}

#[test]
fn upsert_moves_the_board_of_a_server() {
    let mut registry = three_boards();
    // Server 10 has boards: the first is moved.
    assert_eq!(
        registry.upsert_board_data(10, 105, 1005, at(90)),
        Ok(board(1, 10, 105, 1005, 50, 90))
    );
    assert_eq!(registry.count_board_data(), 3);
    // Server 30 has none: one is registered.
    assert_eq!(
        registry.upsert_board_data(30, 300, 3000, at(91)),
        Ok(board(4, 30, 300, 3000, 91, 91))
    );
    assert_eq!(
        registry.get_all_board_data(),
        vec![
            board(1, 10, 105, 1005, 50, 90),
            board(2, 20, 200, 2000, 70, 70),
            board(3, 10, 101, 1001, 60, 60),
            board(4, 30, 300, 3000, 91, 91),
        ]
    );
}

#[test]
fn a_registry_is_made_of_boards_in_order() {
    let rows = vec![board(2, 10, 100, 1000, 50, 50), board(5, 20, 200, 2000, 70, 70)];
    let mut registry = BoardService::from_boards(rows.clone()).expect("identifiers ascend");
    assert_eq!(registry.get_all_board_data(), rows);
    assert_eq!(
        registry.create_board_data(30, 300, 3000, at(80)),
        Ok(board(6, 30, 300, 3000, 80, 80))
    );
    let unordered = vec![board(5, 10, 100, 1000, 50, 50), board(2, 20, 200, 2000, 70, 70)];
    assert!(BoardService::from_boards(unordered).is_none());
    let twice = vec![board(2, 10, 100, 1000, 50, 50), board(2, 20, 200, 2000, 70, 70)];
    assert!(BoardService::from_boards(twice).is_none());
    let not_positive = vec![board(0, 10, 100, 1000, 50, 50)];
    assert!(BoardService::from_boards(not_positive).is_none());
    let mut empty = BoardService::from_boards(vec![]).expect("no boards");
    assert_eq!(
        empty.create_board_data(1, 2, 3, at(4)),
        Ok(board(1, 1, 2, 3, 4, 4))
    );
}

#[test]
fn identifiers_run_out() {
    let rows = vec![board(i32::MAX - 1, 10, 100, 1000, 50, 50)];
    let mut registry = BoardService::from_boards(rows).expect("identifiers ascend");
    assert_eq!(
        registry.create_board_data(20, 200, 2000, at(60)),
        Ok(board(i32::MAX, 20, 200, 2000, 60, 60))
    );
    assert_eq!(registry.create_board_data(30, 300, 3000, at(70)), Err(StoreError::IdsExhausted));
    assert_eq!(registry.upsert_board_data(30, 300, 3000, at(70)), Err(StoreError::IdsExhausted));
    assert_eq!(registry.count_board_data(), 2);
    assert_eq!(
        registry.upsert_board_data(20, 201, 2001, at(80)),
        Ok(board(i32::MAX, 20, 201, 2001, 60, 80))
    );
}
