//! The shared application state: navigation stack, fetched lists, name cache,
//! statistics, search input and the loading flag.
use vstd::prelude::*;
use crate::ens::EnsCache;
use crate::network::{IoEvent, NameOrAddress};
use crate::parse::{
    chars_of, hex_byte, is_fixed_hex, parse_address, parse_hash, parse_u64, parsed_u64, text_of,
};
use crate::route::{ActiveBlock, Route, RouteId};
use crate::types::{BlockWithTransactionReceipts, TransactionWithReceipt};
use crate::widget::StatefulList;
use statistics::Statistics;

pub mod address;
pub mod block;
pub mod event_handling;
pub mod statistics;
pub mod transaction;

verus! {

/// Whether keys edit the search input.
#[derive(Clone, Copy, PartialEq, Eq, Structural, Debug)]
pub enum InputMode {
    Normal,
    Editing,
}

/// The stack after a "back": the top frame goes unless it is the root.
pub open spec fn popped(s: Seq<Route>) -> Seq<Route> {
    if s.len() > 1 {
        s.drop_last()
    } else {
        s
    }
}

/// The cursor moved to `p`, kept within the input.
pub open spec fn clamped(p: int, len: int) -> int {
    if p > len {
        len
    } else {
        p
    }
}

/// Which commands a submitted search text leads to, in order: 0 for a block
/// number, 1 for a transaction hash, 2 for an address.
pub open spec fn search_kinds(s: Seq<char>) -> Seq<int> {
    (if parsed_u64(s) is Some {
        seq![0int]
    } else {
        Seq::empty()
    }) + (if is_fixed_hex(s, 32) {
        seq![1int]
    } else {
        Seq::empty()
    }) + (if is_fixed_hex(s, 20) {
        seq![2int]
    } else {
        Seq::empty()
    })
}

/// `e` is the command of kind `k` that the search text `s` asks for.
pub open spec fn is_search_event(s: Seq<char>, k: int, e: IoEvent) -> bool {
    match e {
        IoEvent::GetBlock { number } => k == 0 && parsed_u64(s) == Some(number),
        IoEvent::GetTransactionWithReceipt { transaction_hash } => k == 1 && forall|i: int|
            0 <= i < 32 ==> transaction_hash@[i] == hex_byte(s, i),
        IoEvent::GetNameOrAddressInfo {
            name_or_address: NameOrAddress::Address(a),
            is_searching,
        } => k == 2 && is_searching && forall|i: int| 0 <= i < 20 ==> a@[i] == hex_byte(s, i),
        _ => false,
    }
}

/// The commands that the search text of `old` asks for are appended, in
/// order; the input is emptied.
pub open spec fn searched(old: App, new: App) -> bool {
    let s = old.input@;
    let k = search_kinds(s);
    let base = old.pending@.len();
    &&& new.pending@.len() == base + k.len()
    &&& new.pending@.subrange(0, base as int) == old.pending@
    &&& forall|i: int|
        0 <= i < k.len() ==> is_search_event(s, k[i], #[trigger] new.pending@[base + i])
    &&& new.is_loading == (old.is_loading || k.len() > 0)
    &&& new.input@.len() == 0
}

/// `data` appended to the input, the cursor moved right by its length;
/// nothing changes when the input would grow past what a `usize` counts.
pub open spec fn pasted(old: App, new: App, data: String) -> bool {
    if old.input@.len() + data@.len() <= usize::MAX {
        &&& new.input@ == old.input@ + data@
        &&& new == (App {
            input: new.input,
            cursor_position: (old.cursor_position + data@.len()) as usize,
            ..old
        })
    } else {
        new == old
    }
}

/// The state that the interface draws from and that fetches fill in.
pub struct App {
    /// The navigation stack; the first frame is the root and never leaves.
    pub routes: Vec<Route>,
    /// Commands dispatched and not yet handed to the fetch worker.
    pub pending: Vec<IoEvent>,
    pub is_loading: bool,
    pub is_toggled: bool,
    pub statistics: Statistics,
    pub sidebar_items: Vec<String>,
    pub latest_blocks: Option<StatefulList<BlockWithTransactionReceipts>>,
    pub latest_transactions: Option<StatefulList<TransactionWithReceipt>>,
    pub address2ens_id: EnsCache,
    pub input_mode: InputMode,
    /// The search input, one entry per character.
    pub input: Vec<char>,
    /// Position of the cursor in the search input, in characters.
    pub cursor_position: usize,
    pub block_detail_list_state: Option<usize>,
    pub transactions_table_state: Option<usize>,
    pub withdrawals_table_state: Option<usize>,
    pub transaction_detail_list_state: Option<usize>,
}

impl App {
    pub open spec fn wf(&self) -> bool {
        &&& self.routes@.len() >= 1
        &&& self.address2ens_id.wf()
        &&& self.cursor_position <= self.input@.len()
        &&& self.latest_blocks matches Some(l) ==> l.wf()
        &&& self.latest_transactions matches Some(l) ==> l.wf()
        &&& self.block_detail_list_state matches Some(i) ==> i < 4
        &&& self.transaction_detail_list_state matches Some(i) ==> i < 3
    }

    /// The frame on top of the navigation stack.
    pub open spec fn top(&self) -> Route {
        self.routes@.last()
    }

    /// The state at start-up: the welcome view with the search bar focused.
    pub fn new() -> (r: App)
        ensures
            r.wf(),
            r.routes@ == seq![Route { id: RouteId::Welcome, active_block: ActiveBlock::SearchBar }],
            r.pending@.len() == 0,
            !r.is_loading,
            r.statistics.is_empty(),
            r.latest_blocks is None,
            r.latest_transactions is None,
            r.address2ens_id@ == Map::<Seq<u8>, Option<Seq<char>>>::empty(),
            r.input_mode == InputMode::Normal,
            r.input@.len() == 0,
            r.cursor_position == 0,
    {
        App {
            routes: vec![Route::default()],
            pending: Vec::new(),
            is_loading: false,
            is_toggled: false,
            statistics: Statistics::new(),
            sidebar_items: vec!["Latest Blocks".to_string(), "Latest Transactions".to_string()],
            latest_blocks: None,
            latest_transactions: None,
            address2ens_id: EnsCache::new(),
            input_mode: InputMode::Normal,
            input: Vec::new(),
            cursor_position: 0,
            block_detail_list_state: None,
            transactions_table_state: None,
            withdrawals_table_state: None,
            transaction_detail_list_state: None,
        }
    }

    /// Goes back one frame; the root frame stays.
    pub fn pop_current_route(&mut self)
        ensures
            final(self).routes@ == popped(old(self).routes@),
            *final(self) == (App { routes: final(self).routes, ..*old(self) }),
    {
        if self.routes.len() > 1 {
            self.routes.pop();
        }
    }

    /// A copy of the frame on top of the stack.
    pub fn get_current_route(&self) -> (r: Route)
        requires
            self.wf(),
        ensures
            r.same_as(&self.top()),
            r.active_block == self.top().active_block,
            r.id.shape() == self.top().id.shape(),
    {
        self.routes[self.routes.len() - 1].clone()
    }

    /// Drills into a new view.
    pub fn set_route(&mut self, route: Route)
        ensures
            final(self).routes@ == old(self).routes@.push(route),
            *final(self) == (App { routes: final(self).routes, ..*old(self) }),
    {
        self.routes.push(route);
    }

    /// Moves the focus to another pane without changing the view.
    pub fn change_active_block(&mut self, active_block: ActiveBlock)
        requires
            old(self).wf(),
        ensures
            final(self).routes@ == old(self).routes@.update(
                old(self).routes@.len() - 1,
                Route { id: old(self).top().id, active_block },
            ),
            *final(self) == (App { routes: final(self).routes, ..*old(self) }),
    {
        let mut route = self.routes.pop().unwrap();
        route.active_block = active_block;
        self.routes.push(route);
        proof {
            assert(self.routes@ =~= old(self).routes@.update(
                old(self).routes@.len() - 1,
                Route { id: old(self).top().id, active_block },
            ));
        }
    }

    /// Queues a command for the fetch worker and marks a fetch as outstanding.
    pub fn dispatch(&mut self, action: IoEvent)
        ensures
            final(self).is_loading,
            final(self).pending@ == old(self).pending@.push(action),
            *final(self) == (App { pending: final(self).pending, is_loading: true, ..*old(self) }),
    {
        self.is_loading = true;
        self.pending.push(action);
    }

    /// Hands over the queued commands, oldest first.
    pub fn take_pending(&mut self) -> (r: Vec<IoEvent>)
        ensures
            r@ == old(self).pending@,
            final(self).pending@.len() == 0,
    {
        let r = self.pending.split_off(0);
        proof {
            assert(r@ =~= old(self).pending@);
        }
        r
    }

    pub fn move_cursor_left(&mut self)
        ensures
            final(self).cursor_position == clamped(
                if old(self).cursor_position == 0 {
                    0
                } else {
                    old(self).cursor_position - 1
                },
                old(self).input@.len() as int,
            ),
            *final(self) == (App { cursor_position: final(self).cursor_position, ..*old(self) }),
    {
        let cursor_moved_left = if self.cursor_position == 0 {
            0
        } else {
            self.cursor_position - 1
        };
        self.cursor_position = self.clamp_cursor(cursor_moved_left);
    }

    pub fn move_cursor_right(&mut self)
        ensures
            final(self).cursor_position == clamped(
                if old(self).cursor_position == usize::MAX {
                    usize::MAX as int
                } else {
                    old(self).cursor_position + 1
                },
                old(self).input@.len() as int,
            ),
            *final(self) == (App { cursor_position: final(self).cursor_position, ..*old(self) }),
    {
        let cursor_moved_right = if self.cursor_position == usize::MAX {
            usize::MAX
        } else {
            self.cursor_position + 1
        };
        self.cursor_position = self.clamp_cursor(cursor_moved_right);
    }

    /// Inserts a character at the cursor and moves past it.
    pub fn enter_char(&mut self, new_char: char)
        requires
            old(self).cursor_position <= old(self).input@.len() < usize::MAX,
        ensures
            final(self).input@ == old(self).input@.insert(
                old(self).cursor_position as int,
                new_char,
            ),
            final(self).cursor_position == old(self).cursor_position + 1,
            *final(self) == (App { input: final(self).input, cursor_position: final(self).cursor_position, ..*old(self) }),
    {
        self.input.insert(self.cursor_position, new_char);
        self.move_cursor_right();
    }

    /// Appends pasted text; the cursor moves right by its length.
    ///
    /// Text that would make the input longer than a `usize` can count is
    /// ignored.
    pub fn paste(&mut self, data: String)
        requires
            old(self).cursor_position <= old(self).input@.len(),
        ensures
            old(self).input@.len() + data@.len() <= usize::MAX ==> final(self).input@ == old(
                self,
            ).input@ + data@ && final(self).cursor_position == old(self).cursor_position
                + data@.len(),
            old(self).input@.len() + data@.len() > usize::MAX ==> *final(self) == *old(self),
            *final(self) == (App { input: final(self).input, cursor_position: final(self).cursor_position, ..*old(self) }),
            pasted(*old(self), *final(self), data),
    {
        let mut added = chars_of(data.as_str());
        let n = added.len();
        if n > usize::MAX - self.input.len() {
            return;
        }
        self.input.append(&mut added);
        let mut k: usize = 0;
        while k < n
            invariant
                k <= n == data@.len(),
                self.input@ == old(self).input@ + data@,
                self.cursor_position == old(self).cursor_position + k,
                old(self).cursor_position <= old(self).input@.len(),
                old(self).input@.len() + data@.len() <= usize::MAX,
                *self == (App { input: self.input, cursor_position: self.cursor_position, ..*old(self) }),
            decreases n - k,
        {
            self.move_cursor_right();
            k = k + 1;
        }
    }

    /// Deletes the character before the cursor.
    pub fn delete_char(&mut self)
        requires
            old(self).cursor_position <= old(self).input@.len(),
        ensures
            old(self).cursor_position == 0 ==> final(self).input == old(self).input
                && final(self).cursor_position == 0,
            old(self).cursor_position > 0 ==> final(self).input@ == old(self).input@.remove(
                old(self).cursor_position - 1,
            ) && final(self).cursor_position == old(self).cursor_position - 1,
            *final(self) == (App { input: final(self).input, cursor_position: final(self).cursor_position, ..*old(self) }),
    {
        let is_not_cursor_leftmost = self.cursor_position != 0;
        if is_not_cursor_leftmost {
            let from_left_to_current_index = self.cursor_position - 1;
            self.input.remove(from_left_to_current_index);
            self.move_cursor_left();
        }
    }

    /// `new_cursor_pos` kept within the input.
    pub fn clamp_cursor(&self, new_cursor_pos: usize) -> (r: usize)
        ensures
            r == clamped(new_cursor_pos as int, self.input@.len() as int),
    {
        if new_cursor_pos > self.input.len() {
            self.input.len()
        } else {
            new_cursor_pos
        }
    }

    pub fn reset_cursor(&mut self)
        ensures
            *final(self) == (App { cursor_position: 0, ..*old(self) }),
    {
        self.cursor_position = 0;
    }

    /// Runs a search: dispatches a block fetch for a decimal number, a
    /// transaction fetch for a 32-byte hash and an address lookup for a 20-byte
    /// address, each where the input reads as one; then clears the input.
    pub fn submit_message(&mut self)
        ensures
            searched(*old(self), *final(self)),
            final(self).input@.len() == 0,
            final(self).cursor_position == 0,
            *final(self) == (App {
                input: final(self).input,
                cursor_position: 0,
                pending: final(self).pending,
                is_loading: final(self).is_loading,
                ..*old(self)
            }),
    {
        let text = text_of(&self.input);
        let ghost s = self.input@;
        let ghost base = self.pending@.len();
        let ghost k1: Seq<int> = if parsed_u64(s) is Some {
            seq![0int]
        } else {
            Seq::empty()
        };
        let ghost k2: Seq<int> = k1 + if is_fixed_hex(s, 32) {
            seq![1int]
        } else {
            Seq::empty()
        };
        if let Some(number) = parse_u64(text.as_str()) {
            self.dispatch(IoEvent::GetBlock { number });
        }
        proof {
            assert(self.pending@.subrange(0, base as int) =~= old(self).pending@);
            assert(self.pending@.len() == base + k1.len());
            assert forall|i: int| 0 <= i < k1.len() implies is_search_event(
                s,
                k1[i],
                #[trigger] self.pending@[base + i],
            ) by {}
        }
        let ghost after_number = self.pending@;
        if let Some(transaction_hash) = parse_hash(text.as_str()) {
            self.dispatch(IoEvent::GetTransactionWithReceipt { transaction_hash });
        }
        proof {
            assert(self.pending@.subrange(0, base as int) =~= old(self).pending@);
            assert(self.pending@.len() == base + k2.len());
            assert forall|i: int| 0 <= i < k2.len() implies is_search_event(
                s,
                k2[i],
                #[trigger] self.pending@[base + i],
            ) by {
                if i < k1.len() {
                    assert(self.pending@[base + i] == after_number[base + i]);
                }
            }
        }
        let ghost after_hash = self.pending@;
        if let Some(address) = parse_address(text.as_str()) {
            self.dispatch(
                IoEvent::GetNameOrAddressInfo {
                    name_or_address: NameOrAddress::Address(address),
                    is_searching: true,
                },
            );
        }
        proof {
            let k = search_kinds(s);
            assert(k =~= k2 + if is_fixed_hex(s, 20) {
                seq![2int]
            } else {
                Seq::empty()
            });
            assert(self.pending@.subrange(0, base as int) =~= old(self).pending@);
            assert forall|i: int| 0 <= i < k.len() implies is_search_event(
                s,
                k[i],
                #[trigger] self.pending@[base + i],
            ) by {
                if i < k2.len() {
                    assert(self.pending@[base + i] == after_hash[base + i]);
                }
            }
        }
        self.input.clear();
        self.reset_cursor();
    }
}

/// After a push, going back restores the stack as it was; on a stack of one
/// frame going back changes nothing.
pub proof fn lemma_push_then_pop(s: Seq<Route>, route: Route)
    requires
        s.len() >= 1,
    ensures
        popped(s.push(route)) == s,
        s.len() == 1 ==> popped(s) == s && popped(s).len() == 1,
{
    assert(s.push(route).drop_last() =~= s);
}

} // verus!
