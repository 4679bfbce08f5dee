//! The registry of boards: one row for each message that mirrors the tally.
//!
//! Rows get their identifiers from a counter, so storage order is the order
//! of the identifiers. Several boards may stand on one server.

use crate::error::StoreError;
use crate::order::{arrange, arranged};
use crate::time::Timestamp;
use vstd::prelude::*;

verus! {

/// A registered board: the message on a channel of a server that shows the
/// tally.
#[derive(Clone, Copy, Debug, PartialEq, Eq, Structural)]
pub struct BoardData {
    /// The identifier the registry gave the row.
    pub id: i32,
    /// The server on which the board stands.
    pub server_id: i64,
    /// The channel on which the board stands.
    pub channel_id: i64,
    /// The message that is the board.
    pub message_id: i64,
    /// When the row was made.
    pub created_at: Timestamp,
    /// When the row was last changed.
    pub updated_at: Timestamp,
}

/// Identifiers rise from each row to the next, so no two rows share one.
pub open spec fn ids_ascend(rows: Seq<BoardData>) -> bool {
    forall|i: int, j: int| 0 <= i < j < rows.len() ==> rows[i].id < rows[j].id
}

/// Whether a row has the identifier `id`.
pub open spec fn has_id(rows: Seq<BoardData>, id: i32) -> bool {
    exists|i: int| 0 <= i < rows.len() && #[trigger] rows[i].id == id
}

/// Where the row with the identifier `id` stands, if there is one.
pub open spec fn row_of_id(rows: Seq<BoardData>, id: i32) -> Option<int> {
    if has_id(rows, id) {
        Some(choose|i: int| 0 <= i < rows.len() && #[trigger] rows[i].id == id)
    } else {
        None
    }
}

/// The row with the identifier `id`, if there is one.
pub open spec fn board_of_id(rows: Seq<BoardData>, id: i32) -> Option<BoardData> {
    match row_of_id(rows, id) {
        Some(i) => Some(rows[i]),
        None => None,
    }
}

/// The test that a board stands on the server `server_id`.
pub open spec fn on_server(server_id: i64) -> spec_fn(BoardData) -> bool {
    |b: BoardData| b.server_id == server_id
}

/// The test that a board stands on the channel `channel_id`.
pub open spec fn on_channel(channel_id: i64) -> spec_fn(BoardData) -> bool {
    |b: BoardData| b.channel_id == channel_id
}

/// The test that a board is the message `message_id`.
pub open spec fn is_message(message_id: i64) -> spec_fn(BoardData) -> bool {
    |b: BoardData| b.message_id == message_id
}

/// The test that a board stands on the channel `channel_id` of the server
/// `server_id`.
pub open spec fn on_server_and_channel(server_id: i64, channel_id: i64) -> spec_fn(
    BoardData,
) -> bool {
    |b: BoardData| b.server_id == server_id && b.channel_id == channel_id
}

/// The test that a board was registered at `since` or later.
pub open spec fn created_since(since: Timestamp) -> spec_fn(BoardData) -> bool {
    |b: BoardData| b.created_at@ >= since@
}

/// The key that puts the board registered last in front.
pub open spec fn by_newest_first() -> spec_fn(BoardData) -> int {
    |b: BoardData| -b.created_at@
}

/// The first of the rows, if there is any.
pub open spec fn first_of(rows: Seq<BoardData>) -> Option<BoardData> {
    if rows.len() > 0 {
        Some(rows[0])
    } else {
        None
    }
}

/// A row registered at `now` under the identifier `id`.
pub open spec fn new_board(
    id: i32,
    server_id: i64,
    channel_id: i64,
    message_id: i64,
    now: Timestamp,
) -> BoardData {
    BoardData { id, server_id, channel_id, message_id, created_at: now, updated_at: now }
}

/// The row `b` changed at `now`: each part that is given replaces the one
/// the row had.
pub open spec fn changed_board(
    b: BoardData,
    server_id: Option<i64>,
    channel_id: Option<i64>,
    message_id: Option<i64>,
    now: Timestamp,
) -> BoardData {
    BoardData {
        id: b.id,
        server_id: match server_id {
            Some(s) => s,
            None => b.server_id,
        },
        channel_id: match channel_id {
            Some(c) => c,
            None => b.channel_id,
        },
        message_id: match message_id {
            Some(m) => m,
            None => b.message_id,
        },
        created_at: b.created_at,
        updated_at: now,
    }
}

/// With ascending identifiers, a row stands where its identifier is seen.
pub proof fn lemma_row_of_id(rows: Seq<BoardData>, id: i32, i: int)
    requires
        ids_ascend(rows),
        0 <= i < rows.len(),
        rows[i].id == id,
    ensures
        row_of_id(rows, id) == Some(i),
        board_of_id(rows, id) == Some(rows[i]),
{
    assert(has_id(rows, id));
    let c = choose|k: int| 0 <= k < rows.len() && #[trigger] rows[k].id == id;
    if c < i {
        assert(rows[c].id < rows[i].id);
    } else if i < c {
        assert(rows[i].id < rows[c].id);
    }
}

/// A question put to the registry.
enum Query {
    Server(i64),
    Channel(i64),
    Message(i64),
    ServerAndChannel(i64, i64),
    Since(Timestamp),
}

impl Query {
    /// The test the question puts to each row.
    spec fn test(self) -> spec_fn(BoardData) -> bool {
        match self {
            Query::Server(s) => on_server(s),
            Query::Channel(c) => on_channel(c),
            Query::Message(m) => is_message(m),
            Query::ServerAndChannel(s, c) => on_server_and_channel(s, c),
            Query::Since(t) => created_since(t),
        }
    }

    /// Whether the row passes the test.
    fn accepts(&self, b: &BoardData) -> (r: bool)
        ensures
            r == (self.test())(*b),
    {
        match self {
            Query::Server(s) => b.server_id == *s,
            Query::Channel(c) => b.channel_id == *c,
            Query::Message(m) => b.message_id == *m,
            Query::ServerAndChannel(s, c) => b.server_id == *s && b.channel_id == *c,
            Query::Since(t) => b.created_at.secs() >= t.secs(),
        }
    }
}

/// The registry of boards.
pub struct BoardService {
    rows: Vec<BoardData>,
    next_id: i64,
}

impl View for BoardService {
    type V = Seq<BoardData>;

    closed spec fn view(&self) -> Seq<BoardData> {
        self.rows@
    }
}

impl BoardService {
    #[verifier::type_invariant]
    spec fn ids_in_order(self) -> bool {
        &&& ids_ascend(self.rows@)
        &&& 1 <= self.next_id <= i32::MAX + 1
        &&& forall|i: int| 0 <= i < self.rows@.len() ==> (#[trigger] self.rows@[i]).id < self.next_id
    }

    /// The identifier the next new row gets; one more than `i32::MAX` when
    /// none is left.
    pub closed spec fn next_id(&self) -> int {
        self.next_id as int
    }

    /// A registry without boards, whose first row will get the identifier 1.
    pub fn new() -> (registry: BoardService)
        ensures
            registry@ == Seq::<BoardData>::empty(),
            registry.next_id() == 1,
    {
        BoardService { rows: Vec::new(), next_id: 1 }
    }

    /// A registry of the given rows, if their identifiers are positive and
    /// ascend. The next new row gets the identifier after the last.
    pub fn from_boards(boards: Vec<BoardData>) -> (r: Option<BoardService>)
        ensures
            r is Some <==> ids_ascend(boards@) && (boards@.len() > 0 ==> boards@[0].id >= 1),
            r matches Some(registry) ==> registry@ == boards@ && registry.next_id() == if boards@.len()
                > 0 {
                boards@.last().id + 1
            } else {
                1
            },
    {
        let mut next_id: i64 = 1;
        let mut i: usize = 0;
        while i < boards.len()
            invariant
                i <= boards.len(),
                ids_ascend(boards@.take(i as int)),
                1 <= next_id <= i32::MAX + 1,
                i > 0 ==> next_id == boards@[i - 1].id + 1 && boards@[0].id >= 1,
                i == 0 ==> next_id == 1,
                forall|k: int| 0 <= k < i ==> (#[trigger] boards@[k]).id < next_id,
            decreases boards.len() - i,
        {
            let id: i64 = boards[i].id as i64;
            if id < next_id {
                proof {
                    if i > 0 {
                        assert(!(boards@[i - 1].id < boards@[i as int].id));
                    }
                }
                return None;
            }
            proof {
                let front = boards@.take(i as int);
                let upto = boards@.take(i as int + 1);
                assert forall|a: int, b: int| 0 <= a < b < upto.len() implies upto[a].id
                    < upto[b].id by {
                    if b == i {
                        assert(boards@[a].id < next_id);
                    } else {
                        assert(front[a].id < front[b].id);
                    }
                }
            }
            next_id = id + 1;
            i += 1;
        }
        proof {
            assert(boards@.take(i as int) =~= boards@);
        }
        Some(BoardService { rows: boards, next_id })
    }

    /// Takes the rows out of the registry, leaving it empty.
    fn take_rows(&mut self) -> (rows: Vec<BoardData>)
        ensures
            rows@ == old(self)@,
            ids_ascend(rows@),
            forall|i: int| 0 <= i < rows@.len() ==> (#[trigger] rows@[i]).id < old(self).next_id(),
            1 <= old(self).next_id() <= i32::MAX + 1,
            final(self).next_id() == old(self).next_id(),
            final(self)@ == Seq::<BoardData>::empty(),
    {
        proof {
            use_type_invariant(&*self);
        }
        let mut rows: Vec<BoardData> = Vec::new();
        core::mem::swap(&mut self.rows, &mut rows);
        rows
    }

    /// Where the row with the identifier `id` stands, if there is one.
    fn find(&self, id: i32) -> (r: Option<usize>)
        ensures
            ids_ascend(self@),
            r is Some <==> has_id(self@, id),
            r matches Some(i) ==> i < self@.len() && self@[i as int].id == id && row_of_id(
                self@,
                id,
            ) == Some(i as int),
    {
        proof {
            use_type_invariant(self);
        }
        let mut i: usize = 0;
        while i < self.rows.len()
            invariant
                i <= self.rows.len(),
                ids_ascend(self.rows@),
                forall|k: int| 0 <= k < i ==> self.rows[k].id != id,
            decreases self.rows.len() - i,
        {
            if self.rows[i].id == id {
                proof {
                    lemma_row_of_id(self.rows@, id, i as int);
                }
                return Some(i);
            }
            i += 1;
        }
        None
    }

    /// The rows that pass the test of the question, in storage order.
    fn select(&self, query: &Query) -> (picked: Vec<BoardData>)
        ensures
            picked@ == self@.filter(query.test()),
    {
        let mut picked: Vec<BoardData> = Vec::new();
        let mut i: usize = 0;
        proof {
            reveal(Seq::filter);
        }
        while i < self.rows.len()
            invariant
                i <= self.rows.len(),
                picked@ == self.rows@.take(i as int).filter(query.test()),
            decreases self.rows.len() - i,
        {
            proof {
                assert(self.rows@.take(i as int + 1) =~= self.rows@.take(i as int).push(
                    self.rows@[i as int],
                ));
                self.rows@.take(i as int).lemma_filter_push(self.rows@[i as int], query.test());
            }
            if query.accepts(&self.rows[i]) {
                picked.push(self.rows[i]);
            }
            i += 1;
        }
        proof {
            assert(self.rows@.take(i as int) =~= self.rows@);
        }
        picked
    }

    /// Registers a board at `now` under the next identifier. Where no
    /// identifier is left the registry stays as it was.
    pub fn create_board_data(
        &mut self,
        server_id: i64,
        channel_id: i64,
        message_id: i64,
        now: Timestamp,
    ) -> (r: Result<BoardData, StoreError>)
        ensures
            ids_ascend(final(self)@),
            old(self).next_id() > i32::MAX ==> r == Err::<BoardData, StoreError>(
                StoreError::IdsExhausted,
            ) && final(self)@ == old(self)@ && final(self).next_id() == old(self).next_id(),
            old(self).next_id() <= i32::MAX ==> r == Ok::<BoardData, StoreError>(
                new_board(old(self).next_id() as i32, server_id, channel_id, message_id, now),
            ) && final(self)@ == old(self)@.push(
                new_board(old(self).next_id() as i32, server_id, channel_id, message_id, now),
            ) && final(self).next_id() == old(self).next_id() + 1,
    {
        proof {
            use_type_invariant(&*self);
        }
        let next_id: i64 = self.next_id;
        if next_id > i32::MAX as i64 {
            return Err(StoreError::IdsExhausted);
        }
        let board = BoardData {
            id: next_id as i32,
            server_id,
            channel_id,
            message_id,
            created_at: now,
            updated_at: now,
        };
        let mut rows: Vec<BoardData> = self.take_rows();
        rows.push(board);
        *self = BoardService { rows, next_id: next_id + 1 };
        Ok(board)
    }

    /// The board with the identifier `id`, if there is one.
    pub fn get_board_data_by_id(&self, id: i32) -> (r: Option<BoardData>)
        ensures
            r == board_of_id(self@, id),
    {
        match self.find(id) {
            Some(i) => Some(self.rows[i]),
            None => None,
        }
    }

    /// The boards on the server `server_id`, in storage order.
    pub fn get_board_data_by_server_id(&self, server_id: i64) -> (boards: Vec<BoardData>)
        ensures
            boards@ == self@.filter(on_server(server_id)),
    {
        self.select(&Query::Server(server_id))
    }

    /// The boards on the channel `channel_id`, in storage order.
    pub fn get_board_data_by_channel_id(&self, channel_id: i64) -> (boards: Vec<BoardData>)
        ensures
            boards@ == self@.filter(on_channel(channel_id)),
    {
        self.select(&Query::Channel(channel_id))
    }

    /// The first board in storage order that is the message `message_id`,
    /// if there is one.
    pub fn get_board_data_by_message_id(&self, message_id: i64) -> (r: Option<BoardData>)
        ensures
            r == first_of(self@.filter(is_message(message_id))),
    {
        let found: Vec<BoardData> = self.select(&Query::Message(message_id));
        if found.len() > 0 {
            Some(found[0])
        } else {
            None
        }
    }

    /// Changes the board with the identifier `id` at `now`: each part that
    /// is given replaces the one the row had. Where there is no such board
    /// the registry stays as it was.
    pub fn update_board_data(
        &mut self,
        id: i32,
        server_id: Option<i64>,
        channel_id: Option<i64>,
        message_id: Option<i64>,
        now: Timestamp,
    ) -> (r: Result<BoardData, StoreError>)
        ensures
            ids_ascend(final(self)@),
            final(self).next_id() == old(self).next_id(),
            match row_of_id(old(self)@, id) {
                Some(i) => {
                    &&& r == Ok::<BoardData, StoreError>(
                        changed_board(old(self)@[i], server_id, channel_id, message_id, now),
                    )
                    &&& final(self)@ == old(self)@.update(
                        i,
                        changed_board(old(self)@[i], server_id, channel_id, message_id, now),
                    )
                },
                None => {
                    &&& r == Err::<BoardData, StoreError>(StoreError::RecordNotFound)
                    &&& final(self)@ == old(self)@
                },
            },
    {
        match self.find(id) {
            None => Err(StoreError::RecordNotFound),
            Some(i) => {
                let earlier: BoardData = self.rows[i];
                let board = BoardData {
                    id: earlier.id,
                    server_id: match server_id {
                        Some(s) => s,
                        None => earlier.server_id,
                    },
                    channel_id: match channel_id {
                        Some(c) => c,
                        None => earlier.channel_id,
                    },
                    message_id: match message_id {
                        Some(m) => m,
                        None => earlier.message_id,
                    },
                    created_at: earlier.created_at,
                    updated_at: now,
                };
                let next_id: i64 = self.next_id;
                let mut rows: Vec<BoardData> = self.take_rows();
                proof {
                    let after = rows@.update(i as int, board);
                    assert forall|a: int, b: int| 0 <= a < b < after.len() implies after[a].id
                        < after[b].id by {
                        assert(rows@[a].id < rows@[b].id);
                    }
                    assert forall|k: int| 0 <= k < after.len() implies (#[trigger] after[k]).id
                        < next_id by {
                        assert(rows@[k].id < next_id);
                    }
                }
                rows.set(i, board);
                *self = BoardService { rows, next_id };
                Ok(board)
            },
        }
    }

    /// Removes the board with the identifier `id` and returns how many rows
    /// went: one. Where there is no such board the registry stays as it was.
    pub fn delete_board_data(&mut self, id: i32) -> (r: Result<u64, StoreError>)
        ensures
            ids_ascend(final(self)@),
            final(self).next_id() == old(self).next_id(),
            match row_of_id(old(self)@, id) {
                Some(i) => r == Ok::<u64, StoreError>(1) && final(self)@ == old(self)@.remove(i),
                None => r == Err::<u64, StoreError>(StoreError::RecordNotFound) && final(self)@
                    == old(self)@,
            },
    {
        match self.find(id) {
            None => Err(StoreError::RecordNotFound),
            Some(i) => {
                let next_id: i64 = self.next_id;
                let mut rows: Vec<BoardData> = self.take_rows();
                proof {
                    let after = rows@.remove(i as int);
                    assert forall|a: int, b: int| 0 <= a < b < after.len() implies after[a].id
                        < after[b].id by {
                        let a0 = if a < i { a } else { a + 1 };
                        let b0 = if b < i { b } else { b + 1 };
                        assert(rows@[a0].id < rows@[b0].id);
                    }
                    assert forall|k: int| 0 <= k < after.len() implies (#[trigger] after[k]).id
                        < next_id by {
                        let k0 = if k < i { k } else { k + 1 };
                        assert(rows@[k0].id < next_id);
                    }
                }
                rows.remove(i);
                *self = BoardService { rows, next_id };
                Ok(1)
            },
        }
    }

    /// All boards, in storage order.
    pub fn get_all_board_data(&self) -> (boards: Vec<BoardData>)
        ensures
            boards@ == self@,
            ids_ascend(boards@),
    {
        proof {
            use_type_invariant(self);
        }
        let mut boards: Vec<BoardData> = Vec::new();
        let mut i: usize = 0;
        while i < self.rows.len()
            invariant
                i <= self.rows.len(),
                boards@ == self.rows@.take(i as int),
            decreases self.rows.len() - i,
        {
            boards.push(self.rows[i]);
            proof {
                assert(self.rows@.take(i as int + 1) =~= self.rows@.take(i as int).push(
                    self.rows@[i as int],
                ));
            }
            i += 1;
        }
        proof {
            assert(self.rows@.take(i as int) =~= self.rows@);
        }
        boards
    }

    /// How many boards are registered.
    pub fn count_board_data(&self) -> (count: u64)
        ensures
            count == self@.len(),
    {
        self.rows.len() as u64
    }

    /// The boards registered at `since` or later, the one registered last
    /// in front.
    pub fn get_board_data_since(&self, since: Timestamp) -> (boards: Vec<BoardData>)
        ensures
            boards@ == arranged(self@.filter(created_since(since)), by_newest_first()),
    {
        let picked: Vec<BoardData> = self.select(&Query::Since(since));
        newest_first(&picked)
    }

    /// The boards on the channel `channel_id` of the server `server_id`,
    /// the one registered last in front.
    pub fn get_board_data_by_server_and_channel(&self, server_id: i64, channel_id: i64) -> (boards:
        Vec<BoardData>)
        ensures
            boards@ == arranged(
                self@.filter(on_server_and_channel(server_id, channel_id)),
                by_newest_first(),
            ),
    {
        let picked: Vec<BoardData> = self.select(&Query::ServerAndChannel(server_id, channel_id));
        newest_first(&picked)
    }

    /// Moves the board of a server to a new message: the first board on the
    /// server `server_id` is changed to the given channel and message, or,
    /// where the server has none, a board is registered.
    pub fn upsert_board_data(
        &mut self,
        server_id: i64,
        channel_id: i64,
        message_id: i64,
        now: Timestamp,
    ) -> (r: Result<BoardData, StoreError>)
        ensures
            ids_ascend(final(self)@),
            match first_of(old(self)@.filter(on_server(server_id))) {
                Some(b) => {
                    &&& row_of_id(old(self)@, b.id) matches Some(i)
                    &&& r == Ok::<BoardData, StoreError>(
                        changed_board(b, None, Some(channel_id), Some(message_id), now),
                    )
                    &&& final(self)@ == old(self)@.update(
                        i,
                        changed_board(b, None, Some(channel_id), Some(message_id), now),
                    )
                    &&& final(self).next_id() == old(self).next_id()
                },
                None => if old(self).next_id() > i32::MAX {
                    &&& r == Err::<BoardData, StoreError>(StoreError::IdsExhausted)
                    &&& final(self)@ == old(self)@
                } else {
                    &&& r == Ok::<BoardData, StoreError>(
                        new_board(
                            old(self).next_id() as i32,
                            server_id,
                            channel_id,
                            message_id,
                            now,
                        ),
                    )
                    &&& final(self)@ == old(self)@.push(
                        new_board(
                            old(self).next_id() as i32,
                            server_id,
                            channel_id,
                            message_id,
                            now,
                        ),
                    )
                },
            },
    {
        let standing: Vec<BoardData> = self.get_board_data_by_server_id(server_id);
        if standing.len() > 0 {
            let b: BoardData = standing[0];
            proof {
                use_type_invariant(&*self);
                let found = self@.filter(on_server(server_id));
                assert(found.contains(found[0]));
                self@.lemma_filter_contains_rev(on_server(server_id), b);
                let k = choose|k: int| 0 <= k < self@.len() && self@[k] == b;
                lemma_row_of_id(self@, b.id, k);
            }
            self.update_board_data(b.id, None, Some(channel_id), Some(message_id), now)
        } else {
            self.create_board_data(server_id, channel_id, message_id, now)
        }
    }
}

/// The boards, the one registered last in front.
fn newest_first(rows: &Vec<BoardData>) -> (boards: Vec<BoardData>)
    ensures
        boards@ == arranged(rows@, by_newest_first()),
{
    let mut keys: Vec<i64> = Vec::new();
    let mut i: usize = 0;
    while i < rows.len()
        invariant
            i <= rows.len(),
            keys.len() == i,
            forall|k: int| 0 <= k < i ==> keys[k] == by_newest_first()(#[trigger] rows[k]),
        decreases rows.len() - i,
    {
        keys.push(-rows[i].created_at.secs());
        i += 1;
    }
    arrange(rows, &keys, Ghost(by_newest_first()))
}

} // verus!
