use vstd::prelude::*;

use crate::client::ClientError;
use crate::model::{
    GetTransactionsOptions, GetTransactionsRequest, GetTransactionsResponse, Transaction,
};

verus! {

/// The number of transactions that a page holds at most when the caller
/// names none.
pub const DEFAULT_COUNT: usize = 100;

/// The offset of the first page when the caller names none.
pub const DEFAULT_OFFSET: usize = 0;

/// Where a walk through the pages of a transaction listing stands.
#[derive(Debug, Clone, Copy, PartialEq, Eq, Structural)]
pub enum IterState {
    /// No page was asked for yet.
    Initialized,
    /// A page was asked for; further pages may follow.
    AwaitingPage,
    /// The walk is over: no further page is asked for.
    Exhausted,
}

/// The mathematical content of a [`TransactionsIter`]: the cursor of the
/// walk, over unbounded integers.
pub struct Cursor {
    /// The request that the walk started from.
    pub base: GetTransactionsRequest,
    /// The size of a page.
    pub count: int,
    /// The offset that the walk started at.
    pub initial_offset: int,
    /// The offset of the next page.
    pub offset: int,
    /// How many transactions were handed out so far.
    pub yielded: int,
    /// How many transactions were left to fetch when the walk started: known
    /// from the first page on.
    pub target: Option<int>,
    pub state: IterState,
}

/// The account filter of a request, if it names one.
pub open spec fn spec_account_ids(req: GetTransactionsRequest) -> Option<String> {
    match req.options {
        Some(o) => o.account_ids,
        None => None,
    }
}

/// Whether a request asks for the original descriptions, if it says so.
pub open spec fn spec_original_description(req: GetTransactionsRequest) -> Option<String> {
    match req.options {
        Some(o) => o.include_original_description,
        None => None,
    }
}

/// The page size that a request names, or the default.
pub open spec fn spec_count(req: GetTransactionsRequest) -> int {
    match req.options {
        Some(GetTransactionsOptions { count: Some(n), .. }) => n as int,
        _ => DEFAULT_COUNT as int,
    }
}

/// The offset that a request names, or the default.
pub open spec fn spec_offset(req: GetTransactionsRequest) -> int {
    match req.options {
        Some(GetTransactionsOptions { offset: Some(n), .. }) => n as int,
        _ => DEFAULT_OFFSET as int,
    }
}

impl Cursor {
    /// The cursor of a walk that starts from `req`.
    pub open spec fn start(req: GetTransactionsRequest) -> Cursor {
        Cursor {
            base: req,
            count: spec_count(req),
            initial_offset: spec_offset(req),
            offset: spec_offset(req),
            yielded: 0,
            target: None,
            state: IterState::Initialized,
        }
    }

    /// Whether everything that was left to fetch has been handed out.
    pub open spec fn drained(self) -> bool {
        self.target matches Some(t) && self.yielded >= t
    }

    /// Whether the walk asks for no further page.
    pub open spec fn finished(self) -> bool {
        self.state == IterState::Exhausted || self.drained()
    }

    /// The cursor after the consumer asked for the next batch.
    pub open spec fn poll(self) -> Cursor {
        if self.finished() {
            Cursor { state: IterState::Exhausted, ..self }
        } else {
            Cursor { state: IterState::AwaitingPage, ..self }
        }
    }

    /// Whether `req` asks for the page at the cursor: the base request with
    /// the cursor's page size and offset.
    pub open spec fn asks(self, req: GetTransactionsRequest) -> bool {
        &&& req.access_token == self.base.access_token
        &&& req.start_date == self.base.start_date
        &&& req.end_date == self.base.end_date
        &&& req.options matches Some(o)
        &&& o.account_ids == spec_account_ids(self.base)
        &&& o.include_original_description == spec_original_description(self.base)
        &&& o.count matches Some(count)
        &&& count == self.count
        &&& o.offset matches Some(offset)
        &&& offset == self.offset
    }

    /// The cursor after a page of `len` transactions arrived, out of a
    /// listing that holds `total` in all. The first page fixes what was left
    /// to fetch; every page adds to what was handed out, and moves the
    /// offset on by all that was handed out so far.
    pub open spec fn accept(self, len: int, total: int) -> Cursor {
        let yielded = self.yielded + len;
        Cursor {
            target: match self.target {
                Some(t) => Some(t),
                None => Some(total - self.initial_offset),
            },
            yielded,
            offset: self.offset + yielded,
            ..self
        }
    }

    /// The cursor after a page could not be fetched.
    pub open spec fn fail(self) -> Cursor {
        Cursor { state: IterState::Exhausted, ..self }
    }
}

/// A walk through the pages of a transaction listing, one batch at a time.
///
/// The walk itself sends nothing. [`TransactionsIter::next_request`] says
/// which page to fetch next, if any, and [`TransactionsIter::receive`] takes
/// what the fetch brought back and hands out the batch.
#[derive(Debug)]
pub struct TransactionsIter {
    base: GetTransactionsRequest,
    count: usize,
    initial_offset: usize,
    offset: usize,
    yielded: usize,
    total: Option<usize>,
    state: IterState,
}

impl View for TransactionsIter {
    type V = Cursor;

    closed spec fn view(&self) -> Cursor {
        Cursor {
            base: self.base,
            count: self.count as int,
            initial_offset: self.initial_offset as int,
            offset: self.offset as int,
            yielded: self.yielded as int,
            target: match self.total {
                Some(t) => Some(t - self.initial_offset),
                None => None,
            },
            state: self.state,
        }
    }
}

fn copy_text(text: &Option<String>) -> (r: Option<String>)
    ensures
        r == *text,
{
    match text {
        Some(s) => Some(s.clone()),
        None => None,
    }
}

impl TransactionsIter {
    /// Starts a walk from `req`: at the offset and with the page size that
    /// its options name, and else at the start, with pages of a hundred.
    pub fn new(req: GetTransactionsRequest) -> (it: Self)
        ensures
            it@ == Cursor::start(req),
    {
        let (count, offset) = match &req.options {
            Some(o) => (
                match o.count {
                    Some(n) => n,
                    None => DEFAULT_COUNT,
                },
                match o.offset {
                    Some(n) => n,
                    None => DEFAULT_OFFSET,
                },
            ),
            None => (DEFAULT_COUNT, DEFAULT_OFFSET),
        };
        TransactionsIter {
            base: req,
            count,
            initial_offset: offset,
            offset,
            yielded: 0,
            total: None,
            state: IterState::Initialized,
        }
    }

    /// Returns where the walk stands.
    pub fn state(&self) -> (s: IterState)
        ensures
            s == self@.state,
    {
        self.state
    }

    /// Returns how many transactions were handed out so far.
    pub fn yielded(&self) -> (n: usize)
        ensures
            n == self@.yielded,
    {
        self.yielded
    }

    /// Returns the offset of the next page.
    pub fn offset(&self) -> (n: usize)
        ensures
            n == self@.offset,
    {
        self.offset
    }

    /// Tells whether the walk asks for no further page.
    pub fn is_finished(&self) -> (done: bool)
        ensures
            done == self@.finished(),
    {
        match self.state {
            IterState::Exhausted => true,
            _ => match self.total {
                Some(t) => t <= self.initial_offset || self.yielded >= t - self.initial_offset,
                None => false,
            },
        }
    }

    /// Asks for the next batch: returns the request for the page to fetch,
    /// or `None` when the walk is over.
    ///
    /// Whether the walk is over is decided here, before a page is fetched:
    /// it is once a fetch has failed, and once as many transactions were
    /// handed out as were left when the walk started.
    pub fn next_request(&mut self) -> (req: Option<GetTransactionsRequest>)
        ensures
            final(self)@ == old(self)@.poll(),
            match req {
                Some(r) => !old(self)@.finished() && old(self)@.asks(r),
                None => old(self)@.finished(),
            },
    {
        if self.is_finished() {
            self.state = IterState::Exhausted;
            return None;
        }
        self.state = IterState::AwaitingPage;
        let options = GetTransactionsOptions {
            account_ids: match &self.base.options {
                Some(o) => copy_text(&o.account_ids),
                None => None,
            },
            count: Some(self.count),
            offset: Some(self.offset),
            include_original_description: match &self.base.options {
                Some(o) => copy_text(&o.include_original_description),
                None => None,
            },
        };
        Some(
            GetTransactionsRequest {
                access_token: self.base.access_token.clone(),
                start_date: self.base.start_date.clone(),
                end_date: self.base.end_date.clone(),
                options: Some(options),
            },
        )
    }

    /// Takes what the fetch of a page brought back, and hands out the batch
    /// of transactions in it.
    ///
    /// A failed fetch ends the walk, and its error is handed out in place of
    /// a batch. The counters of the walk are machine integers: the offset of
    /// the page after this one has to fit in one.
    pub fn receive(&mut self, page: Result<GetTransactionsResponse, ClientError>) -> (batch: Result<
        Vec<Transaction>,
        ClientError,
    >)
        requires
            page matches Ok(p) ==> old(self)@.offset + old(self)@.yielded + p.transactions.len()
                <= usize::MAX,
        ensures
            match page {
                Ok(p) => {
                    &&& batch == Ok::<Vec<Transaction>, ClientError>(p.transactions)
                    &&& final(self)@ == old(self)@.accept(
                        p.transactions.len() as int,
                        p.total_transactions as int,
                    )
                },
                Err(e) => {
                    &&& batch == Err::<Vec<Transaction>, ClientError>(e)
                    &&& final(self)@ == old(self)@.fail()
                },
            },
    {
        match page {
            Ok(p) => {
                if self.total.is_none() {
                    self.total = Some(p.total_transactions);
                }
                self.yielded = self.yielded + p.transactions.len();
                self.offset = self.offset + self.yielded;
                Ok(p.transactions)
            },
            Err(e) => {
                self.state = IterState::Exhausted;
                Err(e)
            },
        }
    }
}

/// A walk that starts anew from a request starts at that request's own
/// offset, with nothing handed out and nothing known of the total, whatever
/// became of an earlier walk from the same request.
pub proof fn law_walks_start_fresh(req: GetTransactionsRequest)
    ensures
        Cursor::start(req).state == IterState::Initialized,
        Cursor::start(req).yielded == 0,
        Cursor::start(req).target is None,
        Cursor::start(req).offset == Cursor::start(req).initial_offset,
        !Cursor::start(req).finished(),
{
}

/// A walk that is over stays over: asking again changes nothing.
pub proof fn law_finished_walks_stay_finished(c: Cursor)
    requires
        c.finished(),
    ensures
        c.poll().state == IterState::Exhausted,
        c.poll().finished(),
        c.poll().poll() == c.poll(),
{
}

/// After a failed fetch the walk asks for no further page, at whatever
/// point it failed.
pub proof fn law_failure_ends_the_walk(c: Cursor)
    ensures
        c.fail().finished(),
        c.fail().poll().state == IterState::Exhausted,
{
}

/// A first page that holds all that was left to fetch ends the walk: the
/// next request for a batch finds nothing to ask for.
pub proof fn law_full_first_page_ends_the_walk(req: GetTransactionsRequest, len: int, total: int)
    requires
        len >= total - spec_offset(req),
    ensures
        Cursor::start(req).poll().accept(len, total).yielded == len,
        Cursor::start(req).poll().accept(len, total).finished(),
{
}

/// What was handed out never shrinks, the offset moves on by all that was
/// handed out so far, and what was left to fetch is fixed by the first page
/// for good.
pub proof fn law_pages_accumulate(c: Cursor, len: int, total: int)
    requires
        len >= 0,
    ensures
        c.accept(len, total).yielded == c.yielded + len,
        c.accept(len, total).offset == c.offset + c.yielded + len,
        c.target is Some ==> c.accept(len, total).target == c.target,
        c.target is None ==> c.accept(len, total).target == Some(total - c.initial_offset),
        c.accept(len, total).state == c.state,
{
}

} // verus!
