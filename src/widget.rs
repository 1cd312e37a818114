//! A scrollable list with a wrapping cursor, and the loading spinner.
use vstd::prelude::*;

verus! {

/// Where the cursor goes on `next`: the first selectable row when nothing is
/// selected or the last one is, else the row below.
pub open spec fn next_selection(selected: Option<usize>, header_size: int, len: int) -> int {
    match selected {
        None => header_size,
        Some(i) => if i >= header_size + len - 1 {
            header_size
        } else {
            i + 1
        },
    }
}

/// Where the cursor goes on `previous`: the first selectable row when nothing is
/// selected, the last one from the first, else the row above.
pub open spec fn previous_selection(selected: Option<usize>, header_size: int, len: int) -> int {
    match selected {
        None => header_size,
        Some(i) => if i <= header_size {
            header_size + len - 1
        } else {
            i - 1
        },
    }
}

/// A list of items with an optional selected row. Rows below `header_size` are
/// headings and cannot be selected; row `header_size + k` shows `items[k]`.
#[derive(Clone, Debug)]
pub struct StatefulList<T> {
    pub selected: Option<usize>,
    pub items: Vec<T>,
    pub header_size: usize,
}

impl<T> StatefulList<T> {
    /// The selection is absent or names a row that shows an item.
    pub open spec fn wf(&self) -> bool {
        &&& self.header_size + self.items@.len() <= usize::MAX
        &&& self.selected matches Some(i) ==> self.header_size <= i < self.header_size
            + self.items@.len()
    }

    /// A list over `items` below two heading rows, with nothing selected.
    pub fn with_items(items: Vec<T>) -> (r: StatefulList<T>)
        requires
            items@.len() + 2 <= usize::MAX,
        ensures
            r.items@ == items@,
            r.header_size == 2,
            r.selected is None,
            r.wf(),
    {
        StatefulList { selected: None, items, header_size: 2 }
    }

    /// Moves the cursor one row down, wrapping from the last item to the first.
    pub fn next(&mut self)
        requires
            old(self).items@.len() > 0,
            old(self).header_size + old(self).items@.len() <= usize::MAX,
        ensures
            final(self).selected == Some(
                next_selection(
                    old(self).selected,
                    old(self).header_size as int,
                    old(self).items@.len() as int,
                ) as usize,
            ),
            final(self).items@ == old(self).items@,
            final(self).header_size == old(self).header_size,
            old(self).wf() ==> final(self).wf(),
    {
        let i = match self.selected {
            Some(i) => {
                if i >= self.items.len() - 1 + self.header_size {
                    self.header_size
                } else {
                    i + 1
                }
            },
            None => self.header_size,
        };
        self.selected = Some(i);
    }

    /// Moves the cursor one row up, wrapping from the first item to the last.
    pub fn previous(&mut self)
        requires
            old(self).items@.len() > 0,
            old(self).header_size + old(self).items@.len() <= usize::MAX,
        ensures
            final(self).selected == Some(
                previous_selection(
                    old(self).selected,
                    old(self).header_size as int,
                    old(self).items@.len() as int,
                ) as usize,
            ),
            final(self).items@ == old(self).items@,
            final(self).header_size == old(self).header_size,
            old(self).wf() ==> final(self).wf(),
    {
        let i = match self.selected {
            Some(i) => {
                if i <= self.header_size {
                    self.items.len() - 1 + self.header_size
                } else {
                    i - 1
                }
            },
            None => self.header_size,
        };
        self.selected = Some(i);
    }

    /// The position in `items` of the selected row.
    pub fn get_selected_item_index(&self) -> (r: Option<usize>)
        requires
            self.selected matches Some(i) ==> self.header_size <= i,
        ensures
            r is None <==> self.selected is None,
            self.selected matches Some(i) ==> r == Some((i - self.header_size) as usize),
    {
        match self.selected {
            Some(i) => Some(i - self.header_size),
            None => None,
        }
    }
}

/// On a list with a valid selection, moving down then up, or up then down,
/// returns the cursor to where it was.
pub proof fn lemma_next_previous_inverse(selected: usize, header_size: usize, len: usize)
    requires
        len > 0,
        header_size + len <= usize::MAX,
        header_size <= selected < header_size + len,
    ensures
        previous_selection(
            Some(next_selection(Some(selected), header_size as int, len as int) as usize),
            header_size as int,
            len as int,
        ) == selected,
        next_selection(
            Some(previous_selection(Some(selected), header_size as int, len as int) as usize),
            header_size as int,
            len as int,
        ) == selected,
{
}

/// The frames of the loading animation.
pub const FRAME_COUNT: usize = 10;

/// The length of one turn of the loading animation, in milliseconds.
pub const CYCLE_MILLIS: u64 = 1500;

/// The frame shown at `millis` milliseconds past the epoch; the first frame for
/// a clock that reads before it.
pub open spec fn frame_index(millis: int) -> int {
    if millis < 0 {
        0
    } else {
        (millis % CYCLE_MILLIS as int) / (CYCLE_MILLIS as int / FRAME_COUNT as int)
    }
}

/// Relies on std's `SystemTime::now` and chrono's `From<SystemTime>` for
/// `DateTime<Utc>` with `timestamp_millis`: the wall clock in milliseconds since
/// the epoch, negative for a clock that reads earlier. Nothing is known of the
/// value.
#[verifier::external_body]
fn now_millis() -> (r: i64) {
    chrono::DateTime::<chrono::Utc>::from(std::time::SystemTime::now()).timestamp_millis()
}

/// A loading animation that turns once every one and a half seconds.
pub struct Spinner {
    elements: Vec<String>,
}

impl Spinner {
    pub closed spec fn frames(&self) -> Seq<String> {
        self.elements@
    }

    pub open spec fn wf(&self) -> bool {
        self.frames().len() == FRAME_COUNT
    }

    /// The frame to show at `millis` milliseconds past the epoch.
    pub fn frame_at(&self, millis: i64) -> (r: String)
        requires
            self.wf(),
        ensures
            0 <= frame_index(millis as int) < FRAME_COUNT,
            r@ == self.frames()[frame_index(millis as int)]@,
    {
        let idx: usize = if millis < 0 {
            0
        } else {
            (((millis as u64) % CYCLE_MILLIS) / (CYCLE_MILLIS / FRAME_COUNT as u64)) as usize
        };
        self.elements[idx].clone()
    }

    /// The frame to show now.
    pub fn to_string(&self) -> (r: String)
        requires
            self.wf(),
        ensures
            exists|millis: i64| r@ == self.frames()[frame_index(millis as int)]@,
    {
        let millis = now_millis();
        self.frame_at(millis)
    }
}

impl Default for Spinner {
    fn default() -> (r: Spinner)
        ensures
            r.wf(),
    {
        Spinner {
            elements: vec![
                "\u{280b}".to_string(),
                "\u{2819}".to_string(),
                "\u{2839}".to_string(),
                "\u{2838}".to_string(),
                "\u{283c}".to_string(),
                "\u{2834}".to_string(),
                "\u{2826}".to_string(),
                "\u{2827}".to_string(),
                "\u{2807}".to_string(),
                "\u{280f}".to_string(),
            ],
        }
    }
}

} // verus!
