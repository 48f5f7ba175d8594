//! Cursor pagination over an ordered source of records: which records a page
//! request selects, in which order, and whether pages lie before or after it.
use vstd::prelude::*;

verus! {

/// The direction in which records are read from the source.
#[derive(Clone, Copy, Debug, PartialEq, Eq, Structural)]
pub enum IterDirection {
    Forward,
    Reverse,
}

#[derive(Clone, Copy, Debug, PartialEq, Eq, Structural)]
pub enum PaginationError {
    /// `first` with `before`, `after` with `before`, or `last` with `after`.
    WrongArgumentCombination,
}

/// The records of a page, as positions in what the source yields: `take` records
/// from position `skip` on, listed in reverse when `direction` is `Reverse`.
#[derive(Clone, Copy, Debug, PartialEq, Eq, Structural)]
pub struct PageWindow {
    pub skip: usize,
    pub take: usize,
    pub direction: IterDirection,
    pub has_previous_page: bool,
    pub has_next_page: bool,
}

pub open spec fn wrong_combination(
    first: Option<usize>,
    after: bool,
    last: Option<usize>,
    before: bool,
) -> bool {
    (first is Some && before) || (after && before) || (last is Some && after)
}

/// How many records a request asks for: `first`, else `last`, else none.
pub open spec fn records_spec(first: Option<usize>, last: Option<usize>) -> usize {
    match first {
        Some(n) => n,
        None => match last {
            Some(n) => n,
            None => 0,
        },
    }
}

pub open spec fn direction_spec(first: Option<usize>, last: Option<usize>) -> IterDirection {
    if first is None && last is Some {
        IterDirection::Reverse
    } else {
        IterDirection::Forward
    }
}

/// The page for a request over a source that yields `available` records. A cursor in
/// the reading direction (`after` forward, `before` in reverse) skips the record it
/// names, the first one read; then up to the requested number of records follow.
pub open spec fn page_spec(
    available: usize,
    first: Option<usize>,
    after: bool,
    last: Option<usize>,
    before: bool,
) -> PageWindow {
    let direction = direction_spec(first, last);
    let records = records_spec(first, last);
    let cursor = if direction == IterDirection::Forward {
        after
    } else {
        before
    };
    let skip: usize = if cursor && available > 0 {
        1
    } else {
        0
    };
    let remaining = available - skip;
    PageWindow {
        skip,
        take: if remaining <= records {
            remaining as usize
        } else {
            records
        },
        direction,
        has_previous_page: skip == 1,
        has_next_page: remaining > records,
    }
}

/// Works out the page that a request selects from a source of `available` records,
/// where `after` and `before` tell whether those cursors were given. Refuses the
/// argument combinations that name contradictory ends.
pub fn page_window(
    available: usize,
    first: Option<usize>,
    after: bool,
    last: Option<usize>,
    before: bool,
) -> (r: Result<PageWindow, PaginationError>)
    ensures
        r is Err <==> wrong_combination(first, after, last, before),
        r is Ok ==> r->Ok_0 == page_spec(available, first, after, last, before),
{
    let (records_to_fetch, direction) = match first {
        Some(n) => (n, IterDirection::Forward),
        None => match last {
            Some(n) => (n, IterDirection::Reverse),
            None => (0, IterDirection::Forward),
        },
    };
    if (first.is_some() && before) || (after && before) || (last.is_some() && after) {
        return Err(PaginationError::WrongArgumentCombination);
    }
    let start = if direction == IterDirection::Forward {
        after
    } else {
        before
    };
    let skip: usize = if start && available > 0 {
        1
    } else {
        0
    };
    let remaining: usize = available - skip;
    let has_next_page = remaining > records_to_fetch;
    let take: usize = if has_next_page {
        records_to_fetch
    } else {
        remaining
    };
    Ok(PageWindow { skip, take, direction, has_previous_page: skip == 1, has_next_page })
}

/// The positions in the source of the records of a page, in the order listed.
pub open spec fn page_positions(w: PageWindow) -> Seq<int> {
    Seq::new(
        w.take as nat,
        |i: int|
            if w.direction == IterDirection::Forward {
                w.skip + i
            } else {
                w.skip + w.take - 1 - i
            },
    )
}

/// Lists the records of a page: `items` is what the source yields, in order.
pub fn page_items<T: Copy>(items: &Vec<T>, w: PageWindow) -> (r: Vec<T>)
    requires
        w.skip + w.take <= items@.len(),
    ensures
        r@.len() == w.take,
        forall|i: int| 0 <= i < w.take ==> r@[i] == items@[#[trigger] page_positions(w)[i]],
{
    let mut out: Vec<T> = Vec::new();
    let n: usize = items.len();
    let mut i: usize = 0;
    while i < w.take
        invariant
            0 <= i <= w.take,
            n == items@.len(),
            w.skip + w.take <= items@.len(),
            out@.len() == i,
            forall|k: int| 0 <= k < i ==> out@[k] == items@[#[trigger] page_positions(w)[k]],
        decreases w.take - i,
    {
        let pos: usize = if w.direction == IterDirection::Forward {
            w.skip + i
        } else {
            w.skip + w.take - 1 - i
        };
        assert(pos == page_positions(w)[i as int]);
        out.push(items[pos]);
        i = i + 1;
    }
    out
}

} // verus!
