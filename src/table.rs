//! Row data and cursor movement of the subscription table.
use vstd::prelude::*;

verus! {

/// One row of the subscription table.
#[derive(Debug, Clone)]
pub struct SubData {
    pub id: u32,
    pub protocol: String,
    pub address: String,
    pub name: String,
    pub test_result: String,
}

impl SubData {
    /// A row with the given id and empty text columns.
    pub fn new(id: u32) -> (r: SubData)
        ensures
            r.id == id,
            r.protocol@.len() == 0,
            r.address@.len() == 0,
            r.name@.len() == 0,
            r.test_result@.len() == 0,
    {
        SubData {
            id,
            protocol: String::new(),
            address: String::new(),
            name: String::new(),
            test_result: String::new(),
        }
    }
}

/// Selection and scroll position over a list of rows.
pub struct TableNav {
    pub items: Vec<SubData>,
    pub selected: Option<usize>,
    pub scroll_offset: usize,
    pub visible_rows: usize,
}

/// The scroll offset that keeps row `index` in view.
pub open spec fn follow(offset: int, rows: int, index: int) -> int {
    if index >= offset + rows {
        index - rows + 1
    } else if index < offset {
        index
    } else {
        offset
    }
}

pub open spec fn sel(s: Option<usize>) -> int {
    match s {
        Some(i) => i as int,
        None => 0,
    }
}

impl TableNav {
    /// An empty table with the first row selected and ten visible rows.
    pub fn new() -> (r: TableNav)
        ensures
            r.items@.len() == 0,
            r.selected == Some(0usize),
            r.scroll_offset == 0,
            r.visible_rows == 10,
    {
        TableNav { items: Vec::new(), selected: Some(0), scroll_offset: 0, visible_rows: 10 }
    }

    fn scroll_to(&mut self, index: usize)
        requires
            index < usize::MAX,
        ensures
            final(self).scroll_offset as int == follow(
                old(self).scroll_offset as int,
                old(self).visible_rows as int,
                index as int,
            ),
            final(self).items == old(self).items,
            final(self).selected == old(self).selected,
            final(self).visible_rows == old(self).visible_rows,
    {
        if index >= self.scroll_offset && index - self.scroll_offset >= self.visible_rows {
            self.scroll_offset = (index - self.visible_rows) + 1;
        } else if index < self.scroll_offset {
            self.scroll_offset = index;
        }
    }

    /// Selects the next row, wrapping to the first after the last.
    pub fn next(&mut self)
        requires
            old(self).items@.len() > 0,
        ensures
            ({
                let s = sel(old(self).selected);
                let n = if s >= old(self).items@.len() - 1 { 0 } else { s + 1 };
                &&& final(self).selected == Some(n as usize)
                &&& final(self).scroll_offset as int == follow(
                    old(self).scroll_offset as int,
                    old(self).visible_rows as int,
                    n,
                )
                &&& final(self).items == old(self).items
                &&& final(self).visible_rows == old(self).visible_rows
            }),
    {
        let selected = match self.selected {
            Some(i) => i,
            None => 0,
        };
        let next_index = if selected >= self.items.len() - 1 {
            0
        } else {
            selected + 1
        };
        self.selected = Some(next_index);
        self.scroll_to(next_index);
    }

    /// Selects the previous row, wrapping to the last before the first.
    pub fn previous(&mut self)
        requires
            old(self).items@.len() > 0,
        ensures
            ({
                let s = sel(old(self).selected);
                let p = if s == 0 { old(self).items@.len() - 1 } else { s - 1 };
                &&& final(self).selected == Some(p as usize)
                &&& final(self).scroll_offset as int == follow(
                    old(self).scroll_offset as int,
                    old(self).visible_rows as int,
                    p,
                )
                &&& final(self).items == old(self).items
                &&& final(self).visible_rows == old(self).visible_rows
            }),
    {
        let selected = match self.selected {
            Some(i) => i,
            None => 0,
        };
        let prev_index = if selected == 0 {
            self.items.len() - 1
        } else {
            selected - 1
        };
        self.selected = Some(prev_index);
        self.scroll_to(prev_index);
    }

    /// Moves the selection one page down, stopping at the last row.
    pub fn page_down(&mut self)
        requires
            old(self).items@.len() > 0,
        ensures
            ({
                let s = sel(old(self).selected) + old(self).visible_rows;
                let n = if s < old(self).items@.len() - 1 { s } else { old(self).items@.len() - 1 };
                &&& final(self).selected == Some(n as usize)
                &&& final(self).scroll_offset as int == if n >= old(self).scroll_offset
                    + old(self).visible_rows {
                    n - old(self).visible_rows + 1
                } else {
                    old(self).scroll_offset as int
                }
                &&& final(self).items == old(self).items
                &&& final(self).visible_rows == old(self).visible_rows
            }),
    {
        let selected = match self.selected {
            Some(i) => i,
            None => 0,
        };
        let last = self.items.len() - 1;
        let new_index = if selected <= last && last - selected > self.visible_rows {
            selected + self.visible_rows
        } else {
            last
        };
        self.selected = Some(new_index);
        if new_index >= self.scroll_offset && new_index - self.scroll_offset >= self.visible_rows {
            self.scroll_offset = (new_index - self.visible_rows) + 1;
        }
    }

    /// Moves the selection one page up, stopping at the first row.
    pub fn page_up(&mut self)
        ensures
            ({
                let s = sel(old(self).selected);
                let n = if s >= old(self).visible_rows { s - old(self).visible_rows } else { 0 };
                &&& final(self).selected == Some(n as usize)
                &&& final(self).scroll_offset as int == if n < old(self).scroll_offset {
                    n
                } else {
                    old(self).scroll_offset as int
                }
                &&& final(self).items == old(self).items
                &&& final(self).visible_rows == old(self).visible_rows
            }),
    {
        let selected = match self.selected {
            Some(i) => i,
            None => 0,
        };
        let new_index = if selected >= self.visible_rows {
            selected - self.visible_rows
        } else {
            0
        };
        self.selected = Some(new_index);
        if new_index < self.scroll_offset {
            self.scroll_offset = new_index;
        }
    }

    /// Fits the number of visible rows to a table area of `height` lines:
    /// six lines go to borders, header and help panel, and at least one row
    /// stays.
    pub fn update_visible_rows(&mut self, height: usize)
        ensures
            final(self).visible_rows == if height > 6 { (height - 6) as usize } else { 1usize },
            final(self).items == old(self).items,
            final(self).selected == old(self).selected,
            final(self).scroll_offset == old(self).scroll_offset,
    {
        self.visible_rows = if height > 6 {
            height - 6
        } else {
            1
        };
    }

    /// Selects the first row and scrolls to the top.
    pub fn home(&mut self)
        ensures
            final(self).selected == Some(0usize),
            final(self).scroll_offset == 0,
            final(self).items == old(self).items,
            final(self).visible_rows == old(self).visible_rows,
    {
        self.selected = Some(0);
        self.scroll_offset = 0;
    }

    /// Selects the last row and scrolls so that it is the bottom row in view.
    pub fn end(&mut self)
        requires
            old(self).items@.len() > 0,
        ensures
            final(self).selected == Some((old(self).items@.len() - 1) as usize),
            final(self).scroll_offset as int == if old(self).items@.len() - 1 >= old(
                self,
            ).visible_rows {
                old(self).items@.len() - old(self).visible_rows
            } else {
                0
            },
            final(self).items == old(self).items,
            final(self).visible_rows == old(self).visible_rows,
    {
        let last_index = self.items.len() - 1;
        self.selected = Some(last_index);
        self.scroll_offset = if last_index >= self.visible_rows {
            (last_index - self.visible_rows) + 1
        } else {
            0
        };
    }

    /// The positions `[start, end)` of the rows in view.
    pub fn visible_range(&self) -> (r: (usize, usize))
        requires
            self.scroll_offset <= self.items@.len(),
        ensures
            r.0 == self.scroll_offset,
            r.1 as int == if self.scroll_offset + self.visible_rows < self.items@.len() {
                self.scroll_offset + self.visible_rows
            } else {
                self.items@.len() as int
            },
    {
        let len = self.items.len();
        let end = if len - self.scroll_offset > self.visible_rows {
            self.scroll_offset + self.visible_rows
        } else {
            len
        };
        (self.scroll_offset, end)
    }
}

} // verus!
