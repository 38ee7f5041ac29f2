//! Lists that the exchange hands out page by page.

use super::request::{self, ErrorDebugClient, ErrorDebugRequest, Method, RequestView};
use super::{APIError, END_CURSOR, START_CURSOR};
use crate::text;
use vstd::prelude::*;

verus! {

/// A page, and the cursor of the next one.
#[derive(Debug, Clone)]
pub struct PaginatedResponse<T> {
    pub data: Vec<T>,
    pub next_cursor: String,
}

/// A list that is read page by page. The next page is asked for as soon as its
/// cursor is known.
#[derive(Debug)]
pub struct PaginatedStream<T> {
    pub url: String,
    pub query: Vec<(String, String)>,
    /// The items of the current page that are still to be handed out, from the
    /// last to the first.
    pub buffer: Vec<T>,
    /// The cursor of the page that has been asked for last.
    pub in_flight: String,
    /// Whether there are no more pages.
    pub done: bool,
}

/// What a list has to hand out.
#[derive(Debug)]
pub enum PageStep<T> {
    /// An item.
    Item(T),
    /// Nothing any more.
    End,
    /// Nothing until the page that has been asked for is there.
    Await,
}

/// What a list hands out when a page is there.
#[derive(Debug)]
pub enum PageOutcome<T> {
    /// An item; where `fetch_next` holds, the next page is to be asked for.
    Item { item: T, fetch_next: bool },
    /// Nothing any more.
    End,
    /// The error that has come in place of the page.
    Failed(APIError),
}

/// What a list has to hand out, by the items that it holds and whether there
/// are no more pages.
pub open spec fn next_step<T>(buffer: Seq<T>, done: bool) -> PageStep<T> {
    if buffer.len() > 0 {
        PageStep::Item(buffer.last())
    } else if done {
        PageStep::End
    } else {
        PageStep::Await
    }
}

/// The items without the last one, if there is one.
pub open spec fn without_last<T>(items: Seq<T>) -> Seq<T> {
    if items.len() > 0 {
        items.drop_last()
    } else {
        items
    }
}

/// Whether no page comes behind a page with these items, before this cursor.
pub open spec fn is_last_page<T>(data: Seq<T>, next_cursor: Seq<char>) -> bool {
    data.len() == 0 || next_cursor == END_CURSOR@
}

/// What a list hands out when a page is there.
pub open spec fn page_outcome<T>(data: Seq<T>, next_cursor: Seq<char>) -> PageOutcome<T> {
    if data.len() == 0 {
        PageOutcome::End
    } else {
        PageOutcome::Item { item: data.last(), fetch_next: !is_last_page(data, next_cursor) }
    }
}

/// All that a list hands out, from a state on, where the pages come one after
/// the other and the answers to all further requests fail to come.
pub open spec fn handed_out<T>(
    buffer: Seq<T>,
    done: bool,
    pages: Seq<(Seq<T>, Seq<char>)>,
) -> Seq<T>
    decreases pages.len(), buffer.len(),
{
    match next_step(buffer, done) {
        PageStep::Item(item) => if buffer.len() > 0 {
            seq![item] + handed_out(without_last(buffer), done, pages)
        } else {
            seq![]
        },
        PageStep::End => seq![],
        PageStep::Await => if pages.len() == 0 {
            seq![]
        } else {
            let (data, next_cursor) = pages[0];
            match page_outcome(data, next_cursor) {
                PageOutcome::Item { item, fetch_next } => seq![item] + handed_out(
                    without_last(data),
                    is_last_page(data, next_cursor),
                    pages.skip(1),
                ),
                _ => seq![],
            }
        },
    }
}

/// The items of the pages up to the last one, each page from its end to its
/// start.
pub open spec fn listing<T>(pages: Seq<(Seq<T>, Seq<char>)>) -> Seq<T>
    decreases pages.len(),
{
    if pages.len() == 0 {
        seq![]
    } else if is_last_page(pages[0].0, pages[0].1) {
        pages[0].0.reverse()
    } else {
        pages[0].0.reverse() + listing(pages.skip(1))
    }
}

/// A list hands out each item of its pages exactly once: page by page, each
/// page from its end to its start, up to the last page.
pub proof fn listing_is_handed_out<T>(pages: Seq<(Seq<T>, Seq<char>)>)
    ensures
        handed_out(Seq::<T>::empty(), false, pages) == listing(pages),
{
    handed_out_from(Seq::<T>::empty(), false, pages);
    assert(Seq::<T>::empty().reverse() + listing(pages) =~= listing(pages));
}

/// A list hands out what it holds, and then what the pages hold.
proof fn handed_out_from<T>(buffer: Seq<T>, done: bool, pages: Seq<(Seq<T>, Seq<char>)>)
    ensures
        handed_out(buffer, done, pages) == buffer.reverse() + (if done {
            seq![]
        } else {
            listing(pages)
        }),
    decreases pages.len(), buffer.len(),
{
    let rest = if done {
        seq![]
    } else {
        listing(pages)
    };
    if buffer.len() > 0 {
        handed_out_from(buffer.drop_last(), done, pages);
        assert(seq![buffer.last()] + (buffer.drop_last().reverse() + rest) =~= buffer.reverse()
            + rest);
    } else if done || pages.len() == 0 {
        assert(buffer.reverse() + rest =~= seq![]);
    } else {
        let (data, next_cursor) = pages[0];
        if data.len() > 0 {
            let last = is_last_page(data, next_cursor);
            handed_out_from(data.drop_last(), last, pages.skip(1));
            let behind = if last {
                seq![]
            } else {
                listing(pages.skip(1))
            };
            assert(seq![data.last()] + (data.drop_last().reverse() + behind) =~= data.reverse()
                + behind);
            assert(buffer.reverse() + rest =~= data.reverse() + behind);
        } else {
            assert(buffer.reverse() + rest =~= seq![]);
        }
    }
}

impl<T> PaginatedStream<T> {
    /// Whether this is a list from which nothing has been read.
    pub open spec fn is_new(&self, url: Seq<char>, query: Seq<(Seq<char>, Seq<char>)>) -> bool {
        &&& self.url@ == url
        &&& text::pairs(self.query@) == query
        &&& self.buffer@.len() == 0
        &&& self.in_flight@ == START_CURSOR@
        &&& !self.done
    }

    /// The list at a URL. The first page is to be asked for.
    pub fn new(url: String, query: Vec<(String, String)>) -> (stream: PaginatedStream<T>)
        ensures
            stream.is_new(url@, text::pairs(query@)),
    {
        PaginatedStream {
            url,
            query,
            buffer: Vec::new(),
            in_flight: START_CURSOR.to_owned(),
            done: false,
        }
    }

    /// The request for the page that has been asked for last.
    pub fn page_request(&self) -> (req: ErrorDebugRequest)
        ensures
            req@ == (RequestView {
                query: text::pairs(self.query@).push(("nextCursor"@, self.in_flight@)),
                ..request::bare(Method::Get, self.url@)
            }),
    {
        let query = text::copy_pairs(&self.query);
        let req = ErrorDebugClient.get(self.url.clone()).extend_query(query).query(
            "nextCursor",
            &self.in_flight,
        );
        assert(req@.query =~= text::pairs(self.query@).push(("nextCursor"@, self.in_flight@)));
        req
    }

    /// The next item of the current page, if there is one.
    pub fn poll_next(&mut self) -> (step: PageStep<T>)
        ensures
            final(self).url == old(self).url,
            final(self).query == old(self).query,
            final(self).in_flight == old(self).in_flight,
            final(self).done == old(self).done,
            step == next_step(old(self).buffer@, old(self).done),
            final(self).buffer@ == without_last(old(self).buffer@),
    {
        match self.buffer.pop() {
            Some(item) => PageStep::Item(item),
            None => if self.done {
                PageStep::End
            } else {
                PageStep::Await
            },
        }
    }

    /// Takes the page that has been asked for last, or the error that has come
    /// in its place. An empty page ends the list, and so does the page before
    /// the end cursor once its items are handed out.
    pub fn receive(&mut self, response: Result<PaginatedResponse<T>, APIError>) -> (outcome:
        PageOutcome<T>)
        requires
            old(self).buffer@.len() == 0,
            !old(self).done,
        ensures
            final(self).url == old(self).url,
            final(self).query == old(self).query,
            match response {
                Err(e) => outcome == PageOutcome::<T>::Failed(e) && *final(self) == *old(self),
                Ok(page) => {
                    &&& outcome == page_outcome(page.data@, page.next_cursor@)
                    &&& final(self).buffer@ == without_last(page.data@)
                    &&& final(self).done == is_last_page(page.data@, page.next_cursor@)
                    &&& final(self).in_flight == (if final(self).done {
                        old(self).in_flight
                    } else {
                        page.next_cursor
                    })
                },
            },
    {
        let page = match response {
            Ok(page) => page,
            Err(e) => return PageOutcome::Failed(e),
        };
        let mut data = page.data;
        match data.pop() {
            None => {
                self.done = true;
                PageOutcome::End
            },
            Some(item) => {
                self.buffer = data;
                let last = text::same_text(&page.next_cursor, END_CURSOR);
                if last {
                    self.done = true;
                } else {
                    self.in_flight = page.next_cursor;
                }
                PageOutcome::Item { item, fetch_next: !last }
            },
        }
    }
}

/// A new list has handed out nothing, and its first page is asked for with the
/// first cursor behind the query.
pub proof fn first_page_is_asked_for<T>(
    url: String,
    query: Vec<(String, String)>,
    stream: PaginatedStream<T>,
    req: ErrorDebugRequest,
)
    requires
        call_ensures(PaginatedStream::<T>::new, (url, query), stream),
        call_ensures(PaginatedStream::<T>::page_request, (&stream,), req),
    ensures
        stream.buffer@.len() == 0,
        !stream.done,
        req.method == Method::Get,
        req.url@ == url@,
        text::pairs(req.query@) == text::pairs(query@).push(("nextCursor"@, "MA=="@)),
        req.headers@.len() == 0,
        req.body is None,
{
    assert(req@.query == text::pairs(req.query@));
    assert(req@.headers.len() == req.headers@.len());
}

/// A page is asked for with its cursor behind the list's query.
pub proof fn pages_are_asked_for_by_cursor<T>(stream: PaginatedStream<T>, req: ErrorDebugRequest)
    requires
        call_ensures(PaginatedStream::<T>::page_request, (&stream,), req),
    ensures
        req.method == Method::Get,
        req.url@ == stream.url@,
        text::pairs(req.query@) == text::pairs(stream.query@).push(
            ("nextCursor"@, stream.in_flight@),
        ),
        req.headers@.len() == 0,
        req.body is None,
{
    assert(req@.query == text::pairs(req.query@));
    assert(req@.headers.len() == req.headers@.len());
}

/// A list hands out the last of the items that it holds and keeps the others.
/// Where it holds none it ends if there are no more pages and waits otherwise.
pub proof fn held_items_come_from_the_end<T>(buffer: Seq<T>, done: bool)
    ensures
        buffer.len() > 0 ==> next_step(buffer, done) == PageStep::Item(buffer[buffer.len() - 1])
            && without_last(buffer).push(buffer[buffer.len() - 1]) == buffer,
        buffer.len() == 0 ==> without_last(buffer) == buffer,
        buffer.len() == 0 && done ==> next_step(buffer, done) is End,
        buffer.len() == 0 && !done ==> next_step(buffer, done) is Await,
{
    if buffer.len() > 0 {
        assert(buffer.drop_last().push(buffer.last()) =~= buffer);
    }
}

/// An empty page is the end. Of any other page the last item is handed out, and
/// the next page is asked for unless its cursor is the one behind the last
/// page.
pub proof fn pages_go_on_until_the_end<T>(data: Seq<T>, next_cursor: Seq<char>)
    ensures
        data.len() == 0 ==> page_outcome(data, next_cursor) is End,
        data.len() > 0 ==> page_outcome(data, next_cursor) == (PageOutcome::Item {
            item: data[data.len() - 1],
            fetch_next: next_cursor != "LTE="@,
        }),
        is_last_page(data, next_cursor) <==> data.len() == 0 || next_cursor == "LTE="@,
{
}

} // verus!
