//! Following pagination cursors across a multi-page query.
use vstd::prelude::*;

verus! {

/// The pagination part of a query request.
#[derive(Clone, Debug)]
pub struct PageRequest {
    /// The cursor returned by the previous page.
    pub key: Vec<u8>,
    pub offset: u64,
    pub limit: u64,
    pub count_total: bool,
    pub reverse: bool,
}

/// How a query reads its position.
#[derive(Clone, Copy, Debug, PartialEq, Eq, Structural)]
pub enum PagingStyle {
    /// The cursor alone; offset and limit are left at zero.
    NextKey,
    /// The cursor, with the offset set to the number of items collected so
    /// far and a fixed page size, for queries that read the offset.
    OffsetAndKey { limit: u64 },
}

/// Items collected from the pages of one query so far.
pub struct Pager<T> {
    items: Vec<T>,
    style: PagingStyle,
    finished: bool,
}

impl<T> Pager<T> {
    /// The items collected so far, in the order the pages gave them.
    pub closed spec fn items_spec(&self) -> Seq<T> {
        self.items@
    }

    /// How the requests for later pages are written.
    pub closed spec fn style_spec(&self) -> PagingStyle {
        self.style
    }

    /// Whether the last page has been seen.
    pub closed spec fn finished_spec(&self) -> bool {
        self.finished
    }

    /// A pager with nothing collected; the first request carries no
    /// pagination.
    pub fn new(style: PagingStyle) -> (r: Pager<T>)
        ensures
            r.items_spec() == Seq::<T>::empty(),
            r.style_spec() == style,
            !r.finished_spec(),
    {
        Pager { items: Vec::new(), style, finished: false }
    }

    /// Takes in one page: its items `page` and the cursor `next_key` that
    /// the node returned with it. Returns the pagination of the request for
    /// the next page, or `None` when this page was the last: the node gave
    /// no cursor or an empty one, or the page held no items (a node that
    /// keeps handing out a cursor with empty pages would otherwise be asked
    /// forever).
    pub fn on_page(&mut self, page: Vec<T>, next_key: Option<Vec<u8>>) -> (r: Option<PageRequest>)
        requires
            !old(self).finished_spec(),
        ensures
            final(self).items_spec() == old(self).items_spec() + page@,
            final(self).style_spec() == old(self).style_spec(),
            r is None <==> (page@.len() == 0 || next_key is None || next_key->Some_0@.len() == 0),
            final(self).finished_spec() == r is None,
            r matches Some(q) ==> {
                &&& q.key@ == next_key->Some_0@
                &&& !q.count_total
                &&& !q.reverse
                &&& old(self).style_spec() == PagingStyle::NextKey ==> q.offset == 0 && q.limit == 0
                &&& old(self).style_spec() matches PagingStyle::OffsetAndKey { limit } ==> q.offset
                    == final(self).items_spec().len() && q.limit == limit
            },
    {
        let empty_page = page.len() == 0;
        let mut page = page;
        self.items.append(&mut page);
        if empty_page {
            self.finished = true;
            return None;
        }
        match next_key {
            Some(key) => {
                if key.len() == 0 {
                    self.finished = true;
                    return None;
                }
                let q = match self.style {
                    PagingStyle::NextKey => PageRequest {
                        key,
                        offset: 0,
                        limit: 0,
                        count_total: false,
                        reverse: false,
                    },
                    PagingStyle::OffsetAndKey { limit } => PageRequest {
                        key,
                        offset: self.items.len() as u64,
                        limit,
                        count_total: false,
                        reverse: false,
                    },
                };
                Some(q)
            },
            None => {
                self.finished = true;
                None
            },
        }
    }

    /// The items collected, in order.
    pub fn into_items(self) -> (r: Vec<T>)
        ensures
            r@ == self.items_spec(),
    {
        self.items
    }
}

} // verus!
