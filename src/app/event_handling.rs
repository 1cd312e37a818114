//! What one input event does to the state: navigation edits, search input
//! and the fetch commands it dispatches.
use vstd::prelude::*;
use crate::app::statistics::Statistics;
use crate::app::block::SelectableBlockDetailItem;
use crate::app::transaction::SelectableTransactionDetailItem;
use crate::app::{clamped, pasted, popped, searched, App, InputMode};
use crate::network::{IoEvent, NameOrAddress};
use crate::route::{same_block, ActiveBlock, Route, RouteId};
use crate::types::BlockWithTransactionReceipts;
use crate::widget::{next_selection, previous_selection, StatefulList};

verus! {

/// A key, as far as the bindings tell keys apart.
#[derive(Clone, Copy, PartialEq, Eq, Structural, Debug)]
pub enum KeyCode {
    Char(char),
    Enter,
    Backspace,
    Left,
    Right,
    Esc,
    Other,
}

/// A key event: the key, whether Control was the only modifier held, and
/// whether it is a press (not a release or a repeat).
#[derive(Clone, Copy, PartialEq, Eq, Structural, Debug)]
pub struct KeyEvent {
    pub code: KeyCode,
    pub ctrl: bool,
    pub is_press: bool,
}

/// One input event.
#[derive(Debug)]
pub enum Event {
    Key(KeyEvent),
    Paste(String),
    Other,
}

/// `new` is `old` with commands appended.
pub open spec fn appended(old: Seq<IoEvent>, new: Seq<IoEvent>) -> bool {
    new.len() >= old.len() && new.subrange(0, old.len() as int) == old
}

/// The event asks to quit: `q`, except while typing in the search bar.
pub open spec fn quits(app: App, event: Event) -> bool {
    match event {
        Event::Key(key) => key.code == KeyCode::Char('q') && (app.top().active_block
            != ActiveBlock::SearchBar || app.input_mode == InputMode::Normal),
        _ => false,
    }
}

/// The number of list rows that fit in a terminal of `height` rows.
pub open spec fn rows_for(height: int) -> int {
    if height < 20 {
        0
    } else {
        (height - 12) / 2 - 4
    }
}

/// The number of list rows that fit in a terminal of `height` rows, none when
/// it is too short.
pub fn visible_rows(height: usize) -> (r: usize)
    ensures
        r == rows_for(height as int),
{
    if height < 20 {
        0
    } else {
        (height - 12) / 2 - 4
    }
}

/// The cursor of a table of `len` rows moved down, wrapping to the top.
pub open spec fn wrap_down(i: int, len: int) -> int {
    (i + 1) % len
}

/// The cursor of a table of `len` rows moved up, wrapping to the bottom.
pub open spec fn wrap_up(i: int, len: int) -> int {
    (i + len - 1) % len
}

fn clone_block(b: &Option<BlockWithTransactionReceipts>) -> (r: Option<
    BlockWithTransactionReceipts,
>)
    ensures
        same_block(r, *b),
{
    match b {
        Some(bw) => Some(bw.clone()),
        None => None,
    }
}

fn step_down(sel: Option<usize>, len: usize) -> (r: Option<usize>)
    requires
        len > 0,
    ensures
        r == Some(
            match sel {
                Some(i) => wrap_down(i as int, len as int) as usize,
                None => 0usize,
            },
        ),
{
    match sel {
        Some(i) => {
            let j = i % len;
            proof {
                assert((i + 1) % (len as int) == (j + 1) % (len as int)) by (nonlinear_arith)
                    requires
                        j == (i as int) % (len as int),
                        len > 0,
                ;
            }
            Some((j + 1) % len)
        },
        None => Some(0),
    }
}

fn step_up(sel: Option<usize>, len: usize) -> (r: Option<usize>)
    requires
        len > 0,
    ensures
        r == Some(
            match sel {
                Some(i) => wrap_up(i as int, len as int) as usize,
                None => 0usize,
            },
        ),
{
    match sel {
        Some(i) => {
            let j = i % len;
            proof {
                assert((i + len - 1) % (len as int) == if j == 0 {
                    len - 1
                } else {
                    j - 1
                }) by (nonlinear_arith)
                    requires
                        j == (i as int) % (len as int),
                        len > 0,
                ;
            }
            if j == 0 {
                Some(len - 1)
            } else {
                Some(j - 1)
            }
        },
        None => Some(0),
    }
}

/// A table cursor after `j` (`down`) or `k` on `len` rows.
pub open spec fn table_cursor_after(sel: Option<usize>, len: int, down: bool) -> int {
    match sel {
        Some(i) => if down {
            wrap_down(i as int, len)
        } else {
            wrap_up(i as int, len)
        },
        None => 0,
    }
}

/// The state after `j` (`down`) or `k` on the view shown: the cursor of a
/// block's rows, of its transactions or withdrawals, or of a transaction's rows
/// moves; other views stay as they are.
pub open spec fn view_cursor_moved(app: App, down: bool) -> App {
    match app.top().id {
        RouteId::Block(Some(bw)) => App {
            block_detail_list_state: Some(
                match app.block_detail_list_state {
                    Some(i) => if down {
                        SelectableBlockDetailItem::at(i as int).next_row(&bw.block).index_of()
                    } else {
                        SelectableBlockDetailItem::at(i as int).previous_row(&bw.block).index_of()
                    },
                    None => 0,
                } as usize,
            ),
            ..app
        },
        RouteId::TransactionsOfBlock(Some(bw)) => if bw.block.transactions@.len() > 0 {
            App {
                transactions_table_state: Some(
                    table_cursor_after(
                        app.transactions_table_state,
                        bw.block.transactions@.len() as int,
                        down,
                    ) as usize,
                ),
                ..app
            }
        } else {
            app
        },
        RouteId::WithdrawalsOfBlock(Some(bw)) => match bw.block.withdrawals {
            Some(w) => if w@.len() > 0 {
                App {
                    withdrawals_table_state: Some(
                        table_cursor_after(app.withdrawals_table_state, w@.len() as int, down)
                            as usize,
                    ),
                    ..app
                }
            } else {
                app
            },
            None => app,
        },
        RouteId::Transaction(Some(t)) => App {
            transaction_detail_list_state: Some(
                match app.transaction_detail_list_state {
                    Some(i) => if down {
                        SelectableTransactionDetailItem::at(i as int).next_row(&t).index_of()
                    } else {
                        SelectableTransactionDetailItem::at(i as int).previous_row(&t).index_of()
                    },
                    None => 0,
                } as usize,
            ),
            ..app
        },
        _ => app,
    }
}

/// `new` is the list `old` with its cursor moved by `j` (`down`) or `k`.
pub open spec fn list_moved<T>(old: StatefulList<T>, new: Option<StatefulList<T>>, down: bool) -> bool {
    match new {
        Some(l) => {
            &&& l.items@ == old.items@
            &&& l.header_size == old.header_size
            &&& l.selected == Some(
                (if down {
                    next_selection(old.selected, old.header_size as int, old.items@.len() as int)
                } else {
                    previous_selection(
                        old.selected,
                        old.header_size as int,
                        old.items@.len() as int,
                    )
                }) as usize,
            )
        },
        None => false,
    }
}

/// The lookup or fetch that Enter starts on the view shown, where the view and
/// its selected row decide it: the fee recipient or parent of a block, a
/// transaction of a block, the sender or recipient of a transaction.
pub open spec fn enter_request(app: App) -> Option<IoEvent> {
    match app.top().id {
        RouteId::Block(Some(bw)) => match app.block_detail_list_state {
            Some(i) => if i == 2 {
                match bw.block.author {
                    Some(a) => Some(
                        IoEvent::GetNameOrAddressInfo {
                            name_or_address: NameOrAddress::Address(a),
                            is_searching: false,
                        },
                    ),
                    None => None,
                }
            } else if i == 3 {
                Some(IoEvent::GetBlockByHash { hash: bw.block.parent_hash })
            } else {
                None
            },
            None => None,
        },
        RouteId::TransactionsOfBlock(Some(bw)) => match app.transactions_table_state {
            Some(i) => if i < bw.block.transactions@.len() {
                Some(
                    IoEvent::GetTransactionWithReceipt {
                        transaction_hash: bw.block.transactions@[i as int].hash,
                    },
                )
            } else {
                None
            },
            None => None,
        },
        RouteId::Transaction(Some(t)) => match app.transaction_detail_list_state {
            Some(i) => if i == 0 {
                Some(
                    IoEvent::GetNameOrAddressInfo {
                        name_or_address: NameOrAddress::Address(t.transaction.from),
                        is_searching: false,
                    },
                )
            } else if i == 1 {
                match t.transaction.to {
                    Some(a) => Some(
                        IoEvent::GetNameOrAddressInfo {
                            name_or_address: NameOrAddress::Address(a),
                            is_searching: false,
                        },
                    ),
                    None => None,
                }
            } else {
                None
            },
            None => None,
        },
        _ => None,
    }
}

/// The view that Enter opens on the view shown: a block's transactions or
/// withdrawals, or a transaction's input data.
pub open spec fn enter_view(app: App) -> Option<RouteId> {
    match app.top().id {
        RouteId::Block(b) => match app.block_detail_list_state {
            Some(i) => if i == 0 {
                Some(RouteId::TransactionsOfBlock(b))
            } else if i == 1 {
                Some(RouteId::WithdrawalsOfBlock(b))
            } else {
                None
            },
            None => None,
        },
        RouteId::Transaction(Some(t)) => match app.transaction_detail_list_state {
            Some(i) => if i == 2 {
                Some(RouteId::InputDataOfTransaction(Some(t)))
            } else {
                None
            },
            None => None,
        },
        _ => None,
    }
}

/// `e` asks to decode the input of the transaction that `app` shows.
pub open spec fn decodes_shown(app: App, e: IoEvent) -> bool {
    match (e, app.top().id) {
        (IoEvent::GetDecodedInputData { transaction }, RouteId::Transaction(Some(t))) => transaction.same_as(
            &t.transaction,
        ),
        _ => false,
    }
}

/// `new` is `old` with a frame showing a view like `id` pushed on `pane`;
/// nothing else changes.
pub open spec fn opened(old: App, new: App, id: RouteId, pane: ActiveBlock) -> bool {
    &&& new.routes@.len() == old.routes@.len() + 1
    &&& new.routes@.drop_last() == old.routes@
    &&& new.top().id.same_as(&id)
    &&& new.top().active_block == pane
    &&& new == (App { routes: new.routes, ..old })
}

/// What Enter does on the main pane.
pub open spec fn enter_view_post(old: App, new: App) -> bool {
    match (enter_request(old), enter_view(old)) {
        (Some(e), _) => new.pending@ == old.pending@.push(e) && new == (App {
            pending: new.pending,
            is_loading: true,
            ..old
        }),
        (None, Some(id)) => if id is InputDataOfTransaction {
            &&& new.routes@.len() == old.routes@.len() + 1
            &&& new.routes@.drop_last() == old.routes@
            &&& new.top().id.same_as(&id)
            &&& new.top().active_block == ActiveBlock::Main
            &&& new.pending@.len() == old.pending@.len() + 1
            &&& new.pending@.drop_last() == old.pending@
            &&& decodes_shown(old, new.pending@.last())
            &&& new == (App { routes: new.routes, pending: new.pending, is_loading: true, ..old })
        } else {
            opened(old, new, id, ActiveBlock::Main)
        },
        (None, None) => new == old,
    }
}

/// What Enter does off the search bar: a list opens its selected item, the
/// main pane acts on its selected row.
pub open spec fn enter_post(old: App, new: App) -> bool {
    match old.top().active_block {
        ActiveBlock::LatestBlocks => match old.latest_blocks {
            Some(l) => match l.selected {
                Some(s) => opened(
                    old,
                    new,
                    RouteId::Block(Some(l.items@[s - l.header_size])),
                    ActiveBlock::Main,
                ),
                None => new == old,
            },
            None => new == old,
        },
        ActiveBlock::LatestTransactions => match old.latest_transactions {
            Some(l) => match l.selected {
                Some(s) => opened(
                    old,
                    new,
                    RouteId::Transaction(Some(l.items@[s - l.header_size])),
                    ActiveBlock::Main,
                ),
                None => new == old,
            },
            None => new == old,
        },
        ActiveBlock::Main => enter_view_post(old, new),
        ActiveBlock::SearchBar => new == old,
    }
}

/// What `j` (`down`) or `k` does off the search bar: a non-empty list moves
/// its cursor and shows the newly selected item in a new frame; the main pane
/// moves the cursor of the view shown.
pub open spec fn move_post(old: App, new: App, down: bool) -> bool {
    match old.top().active_block {
        ActiveBlock::LatestBlocks => match old.latest_blocks {
            Some(l) => if l.items@.len() > 0 {
                &&& list_moved(l, new.latest_blocks, down)
                &&& new.latest_blocks matches Some(nl) && nl.selected matches Some(s) && opened(
                    App { latest_blocks: new.latest_blocks, ..old },
                    new,
                    RouteId::Block(Some(l.items@[s - l.header_size])),
                    ActiveBlock::LatestBlocks,
                )
            } else {
                new == old
            },
            None => new == old,
        },
        ActiveBlock::LatestTransactions => match old.latest_transactions {
            Some(l) => if l.items@.len() > 0 {
                &&& list_moved(l, new.latest_transactions, down)
                &&& new.latest_transactions matches Some(nl) && nl.selected matches Some(s) && opened(
                    App { latest_transactions: new.latest_transactions, ..old },
                    new,
                    RouteId::Transaction(Some(l.items@[s - l.header_size])),
                    ActiveBlock::LatestTransactions,
                )
            } else {
                new == old
            },
            None => new == old,
        },
        ActiveBlock::Main => new == view_cursor_moved(old, down),
        ActiveBlock::SearchBar => new == old,
    }
}

/// What `r` does off the search bar: the focused list (and, for blocks, the
/// statistics) is cleared and its fetch dispatched again for `n` rows.
pub open spec fn reload_post(old: App, new: App, n: usize) -> bool {
    match old.top().active_block {
        ActiveBlock::LatestBlocks => {
            &&& new.statistics.is_empty()
            &&& new.pending@ == old.pending@.push(IoEvent::GetStatistics).push(
                IoEvent::GetLatestBlocks { n },
            )
            &&& new == (App {
                statistics: new.statistics,
                latest_blocks: None,
                pending: new.pending,
                is_loading: true,
                ..old
            })
        },
        ActiveBlock::LatestTransactions => {
            &&& new.pending@ == old.pending@.push(IoEvent::GetLatestTransactions { n })
            &&& new == (App {
                latest_transactions: None,
                pending: new.pending,
                is_loading: true,
                ..old
            })
        },
        _ => new == old,
    }
}

/// The top frame moved to `pane`, its view kept; nothing else changes.
pub open spec fn focused(old: App, new: App, pane: ActiveBlock) -> bool {
    &&& new.routes@ == old.routes@.update(
        old.routes@.len() - 1,
        Route { id: old.top().id, active_block: pane },
    )
    &&& new == (App { routes: new.routes, ..old })
}

/// One frame back, never past the root; nothing else changes.
pub open spec fn went_back(old: App, new: App) -> bool {
    &&& new.routes@ == popped(old.routes@)
    &&& new == (App { routes: new.routes, ..old })
}

/// What a key does on the search bar. In normal mode `i` starts editing,
/// `1`/`2` focus the lists, ctrl-`p` goes back and ctrl-`e` toggles. While
/// editing, a key press edits the input: Enter submits the search and leaves
/// editing, a character is inserted at the cursor, Backspace deletes before
/// it, the arrows move it and Esc leaves editing.
pub open spec fn search_key_post(old: App, new: App, key: KeyEvent) -> bool {
    match old.input_mode {
        InputMode::Normal => match key.code {
            KeyCode::Char(c) => if c == 'e' && key.ctrl {
                new == (App { is_toggled: !old.is_toggled, ..old })
            } else if c == 'i' {
                new == (App { input_mode: InputMode::Editing, ..old })
            } else if c == '1' {
                focused(old, new, ActiveBlock::LatestBlocks)
            } else if c == '2' {
                focused(old, new, ActiveBlock::LatestTransactions)
            } else if c == 'p' && key.ctrl {
                went_back(old, new)
            } else {
                new == old
            },
            _ => new == old,
        },
        InputMode::Editing => if !key.is_press {
            new == old
        } else {
            match key.code {
                KeyCode::Enter => {
                    &&& searched(old, new)
                    &&& new == (App {
                        input: new.input,
                        cursor_position: 0,
                        pending: new.pending,
                        is_loading: new.is_loading,
                        input_mode: InputMode::Normal,
                        ..old
                    })
                },
                KeyCode::Char(c) => if old.input@.len() < usize::MAX {
                    &&& new.input@ == old.input@.insert(old.cursor_position as int, c)
                    &&& new == (App {
                        input: new.input,
                        cursor_position: (old.cursor_position + 1) as usize,
                        ..old
                    })
                } else {
                    new == old
                },
                KeyCode::Backspace => if old.cursor_position == 0 {
                    new == old
                } else {
                    &&& new.input@ == old.input@.remove(old.cursor_position - 1)
                    &&& new == (App {
                        input: new.input,
                        cursor_position: (old.cursor_position - 1) as usize,
                        ..old
                    })
                },
                KeyCode::Left => new == (App {
                    cursor_position: clamped(
                        if old.cursor_position == 0 {
                            0
                        } else {
                            old.cursor_position - 1
                        },
                        old.input@.len() as int,
                    ) as usize,
                    ..old
                }),
                KeyCode::Right => new == (App {
                    cursor_position: clamped(
                        if old.cursor_position == usize::MAX {
                            usize::MAX as int
                        } else {
                            old.cursor_position + 1
                        },
                        old.input@.len() as int,
                    ) as usize,
                    ..old
                }),
                KeyCode::Esc => new == (App { input_mode: InputMode::Normal, ..old }),
                _ => new == old,
            }
        },
    }
}

/// What a key does off the search bar: Enter opens or fetches, ctrl-`e`
/// focuses the main pane from a list and toggles, ctrl-`p` goes back, `s`,
/// `1`, `2` move the focus, `j`/`k` move a cursor and `r` reloads a list with
/// as many rows as a terminal of `height` rows shows.
pub open spec fn key_post(old: App, new: App, key: KeyEvent, height: usize) -> bool {
    match key.code {
        KeyCode::Enter => enter_post(old, new),
        KeyCode::Char(c) => if c == 'e' && key.ctrl {
            &&& (if old.top().active_block == ActiveBlock::LatestBlocks || old.top().active_block
                == ActiveBlock::LatestTransactions {
                new.routes@ == old.routes@.update(
                    old.routes@.len() - 1,
                    Route { id: old.top().id, active_block: ActiveBlock::Main },
                )
            } else {
                new.routes == old.routes
            })
            &&& new == (App { routes: new.routes, is_toggled: !old.is_toggled, ..old })
        } else if c == 'p' && key.ctrl {
            went_back(old, new)
        } else if c == 's' {
            focused(old, new, ActiveBlock::SearchBar)
        } else if c == '1' {
            focused(old, new, ActiveBlock::LatestBlocks)
        } else if c == '2' {
            focused(old, new, ActiveBlock::LatestTransactions)
        } else if c == 'j' {
            move_post(old, new, true)
        } else if c == 'k' {
            move_post(old, new, false)
        } else if c == 'r' {
            reload_post(old, new, rows_for(height as int) as usize)
        } else {
            new == old
        },
        _ => new == old,
    }
}

/// What one event does: keys per pane, pasted text appended to the input
/// while editing the search, anything else nothing.
pub open spec fn event_post(old: App, new: App, event: Event, height: usize) -> bool {
    match event {
        Event::Key(key) => if old.top().active_block == ActiveBlock::SearchBar {
            search_key_post(old, new, key)
        } else {
            key_post(old, new, key, height)
        },
        Event::Paste(data) => if old.top().active_block == ActiveBlock::SearchBar && old.input_mode
            == InputMode::Editing {
            pasted(old, new, data)
        } else {
            new == old
        },
        Event::Other => new == old,
    }
}

impl App {
    /// A key while the search bar has the focus: in normal mode `i` starts
    /// editing, `1`/`2` focus the lists, ctrl-`p` goes back, ctrl-`e` toggles
    /// and `q` quits; while editing, keys edit the input and Enter submits.
    pub fn handle_search_key(&mut self, key: KeyEvent) -> (r: bool)
        requires
            old(self).wf(),
        ensures
            final(self).wf(),
            r == (key.code == KeyCode::Char('q') && old(self).input_mode == InputMode::Normal),
            appended(old(self).pending@, final(self).pending@),
            search_key_post(*old(self), *final(self), key),
    {
        let mut quit = false;
        match self.input_mode {
            InputMode::Normal => match key.code {
                KeyCode::Char('e') => {
                    if key.ctrl {
                        self.is_toggled = !self.is_toggled;
                    }
                },
                KeyCode::Char('i') => {
                    self.input_mode = InputMode::Editing;
                },
                KeyCode::Char('q') => {
                    quit = true;
                },
                KeyCode::Char('1') => {
                    self.change_active_block(ActiveBlock::LatestBlocks);
                },
                KeyCode::Char('2') => {
                    self.change_active_block(ActiveBlock::LatestTransactions);
                },
                KeyCode::Char('p') => {
                    if key.ctrl {
                        self.pop_current_route();
                    }
                },
                _ => {},
            },
            InputMode::Editing => {
                if key.is_press {
                    match key.code {
                        KeyCode::Enter => {
                            self.submit_message();
                            self.input_mode = InputMode::Normal;
                        },
                        KeyCode::Char(to_insert) => {
                            if self.input.len() < usize::MAX {
                                self.enter_char(to_insert);
                            }
                        },
                        KeyCode::Backspace => {
                            self.delete_char();
                        },
                        KeyCode::Left => {
                            self.move_cursor_left();
                        },
                        KeyCode::Right => {
                            self.move_cursor_right();
                        },
                        KeyCode::Esc => {
                            self.input_mode = InputMode::Normal;
                        },
                        _ => {},
                    }
                }
            },
        }
        proof {
            assert(self.pending@.subrange(0, old(self).pending@.len() as int) =~= old(self).pending@);
        }
        quit
    }

    /// Enter outside the search bar: opens the selected block or transaction
    /// of a list, or acts on the selected row of the view shown.
    pub fn handle_enter(&mut self)
        requires
            old(self).wf(),
        ensures
            final(self).wf(),
            appended(old(self).pending@, final(self).pending@),
            enter_post(*old(self), *final(self)),
    {
        let last = self.routes.len() - 1;
        match self.routes[last].active_block {
            ActiveBlock::LatestBlocks => {
                let mut route: Option<Route> = None;
                if let Some(blocks) = &self.latest_blocks {
                    if let Some(i) = blocks.get_selected_item_index() {
                        if i < blocks.items.len() {
                            route = Some(
                                Route::new(
                                    RouteId::Block(Some(blocks.items[i].clone())),
                                    ActiveBlock::Main,
                                ),
                            );
                        }
                    }
                }
                if let Some(route) = route {
                    self.set_route(route);
                    proof {
                        assert(self.routes@.drop_last() =~= old(self).routes@);
                    }
                }
            },
            ActiveBlock::LatestTransactions => {
                let mut route: Option<Route> = None;
                if let Some(transactions) = &self.latest_transactions {
                    if let Some(i) = transactions.get_selected_item_index() {
                        if i < transactions.items.len() {
                            route = Some(
                                Route::new(
                                    RouteId::Transaction(Some(transactions.items[i].clone())),
                                    ActiveBlock::Main,
                                ),
                            );
                        }
                    }
                }
                if let Some(route) = route {
                    self.set_route(route);
                    proof {
                        assert(self.routes@.drop_last() =~= old(self).routes@);
                    }
                }
            },
            ActiveBlock::Main => {
                self.handle_enter_on_view();
            },
            ActiveBlock::SearchBar => {},
        }
        proof {
            assert(self.pending@.subrange(0, old(self).pending@.len() as int) =~= old(self).pending@);
        }
    }

    /// Enter on the selected row of the view shown: a block's transactions
    /// or withdrawals open in a new frame, its fee recipient or parent is
    /// fetched; a transaction of a block is fetched; a transaction's sender or
    /// recipient is looked up, and its input data opened and decoded.
    pub fn handle_enter_on_view(&mut self)
        requires
            old(self).wf(),
        ensures
            final(self).wf(),
            appended(old(self).pending@, final(self).pending@),
            enter_view_post(*old(self), *final(self)),
    {
        let last = self.routes.len() - 1;
        let mut route: Option<Route> = None;
        let mut action: Option<IoEvent> = None;
        match &self.routes[last].id {
            RouteId::Block(block) => {
                if let Some(i) = self.block_detail_list_state {
                    match SelectableBlockDetailItem::from_index(i) {
                        SelectableBlockDetailItem::Transactions => {
                            route = Some(
                                Route::new(
                                    RouteId::TransactionsOfBlock(clone_block(block)),
                                    ActiveBlock::Main,
                                ),
                            );
                        },
                        SelectableBlockDetailItem::Withdrawls => {
                            route = Some(
                                Route::new(
                                    RouteId::WithdrawalsOfBlock(clone_block(block)),
                                    ActiveBlock::Main,
                                ),
                            );
                        },
                        SelectableBlockDetailItem::FeeRecipient => {
                            if let Some(bw) = block {
                                if let Some(address) = bw.block.author {
                                    action = Some(
                                        IoEvent::GetNameOrAddressInfo {
                                            name_or_address: NameOrAddress::Address(address),
                                            is_searching: false,
                                        },
                                    );
                                }
                            }
                        },
                        SelectableBlockDetailItem::ParentHash => {
                            if let Some(bw) = block {
                                action = Some(IoEvent::GetBlockByHash { hash: bw.block.parent_hash });
                            }
                        },
                    }
                }
            },
            RouteId::TransactionsOfBlock(block) => {
                if let Some(bw) = block {
                    if let Some(i) = self.transactions_table_state {
                        if i < bw.block.transactions.len() {
                            action = Some(
                                IoEvent::GetTransactionWithReceipt {
                                    transaction_hash: bw.block.transactions[i].hash,
                                },
                            );
                        }
                    }
                }
            },
            RouteId::Transaction(transaction) => {
                if let Some(i) = self.transaction_detail_list_state {
                    if let Some(t) = transaction {
                        match SelectableTransactionDetailItem::from_index(i) {
                            SelectableTransactionDetailItem::From => {
                                action = Some(
                                    IoEvent::GetNameOrAddressInfo {
                                        name_or_address: NameOrAddress::Address(t.transaction.from),
                                        is_searching: false,
                                    },
                                );
                            },
                            SelectableTransactionDetailItem::To => {
                                if let Some(address) = t.transaction.to {
                                    action = Some(
                                        IoEvent::GetNameOrAddressInfo {
                                            name_or_address: NameOrAddress::Address(address),
                                            is_searching: false,
                                        },
                                    );
                                }
                            },
                            SelectableTransactionDetailItem::InputData => {
                                route = Some(
                                    Route::new(
                                        RouteId::InputDataOfTransaction(Some(t.clone())),
                                        ActiveBlock::Main,
                                    ),
                                );
                                action = Some(
                                    IoEvent::GetDecodedInputData {
                                        transaction: t.transaction.clone(),
                                    },
                                );
                            },
                        }
                    }
                }
            },
            _ => {},
        }
        if let Some(route) = route {
            self.set_route(route);
            proof {
                assert(self.routes@.drop_last() =~= old(self).routes@);
            }
        }
        if let Some(action) = action {
            self.dispatch(action);
        }
        proof {
            assert(self.pending@.subrange(0, old(self).pending@.len() as int) =~= old(self).pending@);
        }
    }

    /// `j`: moves the cursor of the focused list or view down. On a list, the
    /// newly selected block or transaction is shown in a new frame.
    pub fn handle_next(&mut self)
        requires
            old(self).wf(),
        ensures
            final(self).wf(),
            final(self).pending == old(self).pending,
            move_post(*old(self), *final(self), true),
    {
        self.move_selection(true);
    }

    /// `k`: moves the cursor of the focused list or view up. On a list, the
    /// newly selected block or transaction is shown in a new frame.
    pub fn handle_previous(&mut self)
        requires
            old(self).wf(),
        ensures
            final(self).wf(),
            final(self).pending == old(self).pending,
            move_post(*old(self), *final(self), false),
    {
        self.move_selection(false);
    }

    fn move_selection(&mut self, down: bool)
        requires
            old(self).wf(),
        ensures
            final(self).wf(),
            final(self).pending == old(self).pending,
            move_post(*old(self), *final(self), down),
    {
        let last = self.routes.len() - 1;
        match self.routes[last].active_block {
            ActiveBlock::LatestBlocks => {
                let mut route: Option<Route> = None;
                if let Some(blocks) = &mut self.latest_blocks {
                    if blocks.items.len() > 0 {
                        if down {
                            blocks.next();
                        } else {
                            blocks.previous();
                        }
                        if let Some(i) = blocks.get_selected_item_index() {
                            route = Some(
                                Route::new(
                                    RouteId::Block(Some(blocks.items[i].clone())),
                                    ActiveBlock::LatestBlocks,
                                ),
                            );
                        }
                    }
                }
                if let Some(route) = route {
                    self.set_route(route);
                    proof {
                        assert(self.routes@.drop_last() =~= old(self).routes@);
                    }
                }
            },
            ActiveBlock::LatestTransactions => {
                let mut route: Option<Route> = None;
                if let Some(transactions) = &mut self.latest_transactions {
                    if transactions.items.len() > 0 {
                        if down {
                            transactions.next();
                        } else {
                            transactions.previous();
                        }
                        if let Some(i) = transactions.get_selected_item_index() {
                            route = Some(
                                Route::new(
                                    RouteId::Transaction(Some(transactions.items[i].clone())),
                                    ActiveBlock::LatestTransactions,
                                ),
                            );
                        }
                    }
                }
                if let Some(route) = route {
                    self.set_route(route);
                    proof {
                        assert(self.routes@.drop_last() =~= old(self).routes@);
                    }
                }
            },
            ActiveBlock::Main => {
                self.move_view_cursor(down);
            },
            ActiveBlock::SearchBar => {},
        }
    }

    fn move_view_cursor(&mut self, down: bool)
        requires
            old(self).wf(),
        ensures
            final(self).wf(),
            *final(self) == view_cursor_moved(*old(self), down),
    {
        let last = self.routes.len() - 1;
        match &self.routes[last].id {
            RouteId::Block(Some(bw)) => {
                let row = match self.block_detail_list_state {
                    Some(i) => {
                        let item = SelectableBlockDetailItem::from_index(i);
                        if down {
                            item.next(&bw.block)
                        } else {
                            item.previous(&bw.block)
                        }
                    },
                    None => SelectableBlockDetailItem::Transactions,
                };
                self.block_detail_list_state = Some(row.index());
            },
            RouteId::TransactionsOfBlock(Some(bw)) => {
                let len = bw.block.transactions.len();
                if len > 0 {
                    self.transactions_table_state = if down {
                        step_down(self.transactions_table_state, len)
                    } else {
                        step_up(self.transactions_table_state, len)
                    };
                }
            },
            RouteId::WithdrawalsOfBlock(Some(bw)) => {
                if let Some(withdrawals) = &bw.block.withdrawals {
                    let len = withdrawals.len();
                    if len > 0 {
                        self.withdrawals_table_state = if down {
                            step_down(self.withdrawals_table_state, len)
                        } else {
                            step_up(self.withdrawals_table_state, len)
                        };
                    }
                }
            },
            RouteId::Transaction(Some(t)) => {
                let row = match self.transaction_detail_list_state {
                    Some(i) => {
                        let item = SelectableTransactionDetailItem::from_index(i);
                        if down {
                            item.next(t)
                        } else {
                            item.previous(t)
                        }
                    },
                    None => SelectableTransactionDetailItem::From,
                };
                self.transaction_detail_list_state = Some(row.index());
            },
            _ => {},
        }
    }

    /// `r`: clears the focused list (and, for blocks, the statistics) and
    /// dispatches its fetch again for `n` rows.
    pub fn reload(&mut self, n: usize)
        requires
            old(self).wf(),
        ensures
            final(self).wf(),
            final(self).routes == old(self).routes,
            reload_post(*old(self), *final(self), n),
    {
        let last = self.routes.len() - 1;
        match self.routes[last].active_block {
            ActiveBlock::LatestBlocks => {
                self.statistics = Statistics::new();
                self.latest_blocks = None;
                self.dispatch(IoEvent::GetStatistics);
                self.dispatch(IoEvent::GetLatestBlocks { n });
            },
            ActiveBlock::LatestTransactions => {
                self.latest_transactions = None;
                self.dispatch(IoEvent::GetLatestTransactions { n });
            },
            _ => {},
        }
    }
}

/// Applies one input event to the state. Returns whether the user asked to
/// quit. `height` is the terminal's height in rows, which sets how many rows a
/// reload fetches.
pub fn event_handling(event: Event, app: &mut App, height: usize) -> (r: bool)
    requires
        old(app).wf(),
    ensures
        final(app).wf(),
        r == quits(*old(app), event),
        appended(old(app).pending@, final(app).pending@),
        event_post(*old(app), *final(app), event, height),
        final(app).routes@[0].id == old(app).routes@[0].id,
{
    let last = app.routes.len() - 1;
    let on_search_bar = match app.routes[last].active_block {
        ActiveBlock::SearchBar => true,
        _ => false,
    };
    let r = match event {
        Event::Key(key) => {
            if on_search_bar {
                app.handle_search_key(key)
            } else {
                match key.code {
                    KeyCode::Enter => {
                        app.handle_enter();
                        false
                    },
                    KeyCode::Char('e') => {
                        if key.ctrl {
                            match app.routes[last].active_block {
                                ActiveBlock::LatestBlocks | ActiveBlock::LatestTransactions => {
                                    app.change_active_block(ActiveBlock::Main);
                                },
                                _ => {},
                            }
                            app.is_toggled = !app.is_toggled;
                        }
                        false
                    },
                    KeyCode::Char('p') => {
                        if key.ctrl {
                            app.pop_current_route();
                        }
                        false
                    },
                    KeyCode::Char('q') => true,
                    KeyCode::Char('s') => {
                        app.change_active_block(ActiveBlock::SearchBar);
                        false
                    },
                    KeyCode::Char('1') => {
                        app.change_active_block(ActiveBlock::LatestBlocks);
                        false
                    },
                    KeyCode::Char('2') => {
                        app.change_active_block(ActiveBlock::LatestTransactions);
                        false
                    },
                    KeyCode::Char('j') => {
                        app.handle_next();
                        false
                    },
                    KeyCode::Char('k') => {
                        app.handle_previous();
                        false
                    },
                    KeyCode::Char('r') => {
                        app.reload(visible_rows(height));
                        false
                    },
                    _ => false,
                }
            }
        },
        Event::Paste(data) => {
            if on_search_bar && app.input_mode == InputMode::Editing {
                app.paste(data);
            }
            false
        },
        Event::Other => false,
    };
    proof {
        assert(app.pending@.subrange(0, old(app).pending@.len() as int) =~= old(app).pending@);
    }
    r
}

} // verus!
