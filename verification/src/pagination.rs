//! Lists that come in pages: the reply to one page request, the state of a walk through the
//! pages, and the requests that the walk asks for.

use crate::error::{
    CBError, CBErrorView, DecodeError, DecodeErrorView, ErrorResponse, ErrorResponseView,
};
use crate::headers::pairs_of;
use crate::json::{
    field, json_document, optional_field, read_field, read_optional_field, FromJson, Json, JsonValue,
};
use crate::request::{Builder, BuilderView, ErrorKind, Request, RequestView};
use crate::text::{decimal_text, unsigned_text};
use crate::uri::{address_of, resolve, text_of, Uri, UriView};
use vstd::prelude::*;

verus! {

/// How long to wait before each request, in milliseconds, so as to stay under the rate that the
/// service allows.
pub const PACING_DELAY_MS: u64 = 350;

/// The member of a page that says where the page stands in the list.
pub const PAGINATION: &'static str = "pagination";

/// The member of [`PAGINATION`] that holds the cursor of the next page.
pub const NEXT_CURSOR: &'static str = "next_starting_after";

/// The query parameter that carries the page size.
pub const LIMIT: &'static str = "limit";

/// The query parameter that carries the cursor.
pub const STARTING_AFTER: &'static str = "starting_after";

/// The name of the template variable that holds the query parameters.
pub const QUERY: &'static str = "query";

/// What is added to the template of a list to put the query parameters behind it.
pub const QUERY_SUFFIX: &'static str = "{?query*}";

/// One page of a list.
#[derive(Debug)]
pub struct Page<T> {
    /// The items, in the order in which the service sent them.
    pub items: Vec<T>,
    /// Where the next page begins; `None` on the last page.
    pub next_cursor: Option<String>,
}

/// What a [`Page`] holds.
pub struct PageView<M> {
    pub items: Seq<M>,
    pub next_cursor: Option<Seq<char>>,
}

impl<T: DeepView> DeepView for Page<T> {
    type V = PageView<T::V>;

    open spec fn deep_view(&self) -> PageView<T::V> {
        PageView { items: self.items.deep_view(), next_cursor: self.next_cursor.deep_view() }
    }
}

/// The page that `value` decodes to: an object with the items under `resource`, and under
/// `pagination` an object whose `next_starting_after` is a string, `null` or missing.
pub open spec fn page_of<T: FromJson>(value: JsonValue, resource: Seq<char>) -> Option<
    PageView<T::V>,
> {
    match (field::<Vec<T>>(value, resource), value.member(PAGINATION@)) {
        (Some(items), Some(pagination)) => match optional_field::<String>(
            pagination,
            NEXT_CURSOR@,
        ) {
            Some(next_cursor) if pagination is Object => Some(PageView { items, next_cursor }),
            _ => None,
        },
        _ => None,
    }
}

/// Decodes a page whose items stand under `resource`.
pub fn read_page<T: FromJson>(tree: &Json, resource: &str) -> (r: Option<Page<T>>)
    ensures
        match page_of::<T>(tree@, resource@) {
            Some(m) => r matches Some(x) && x.deep_view() == m,
            None => r is None,
        },
{
    let items = match read_field::<Vec<T>>(tree, resource) {
        Some(x) => x,
        None => {
            return None;
        },
    };
    let pagination = match tree.member(PAGINATION) {
        Some(x) => x,
        None => {
            return None;
        },
    };
    if !pagination.is_object() {
        return None;
    }
    let next_cursor = match read_optional_field::<String>(pagination, NEXT_CURSOR) {
        Some(x) => x,
        None => {
            return None;
        },
    };
    Some(Page { items, next_cursor })
}

/// What came of one page request.
#[derive(Debug)]
pub enum Reply<T> {
    /// The body is a page.
    Page(Page<T>),
    /// The body is a refusal of the service.
    Refused(ErrorResponse),
    /// The body is neither.
    Malformed(DecodeError),
    /// No body came: the transport failed; with the cause in words.
    Lost(String),
}

/// What a [`Reply`] holds.
pub enum ReplyView<M> {
    Page(PageView<M>),
    Refused(ErrorResponseView),
    Malformed(DecodeErrorView),
    Lost(Seq<char>),
}

impl<T: DeepView> DeepView for Reply<T> {
    type V = ReplyView<T::V>;

    open spec fn deep_view(&self) -> ReplyView<T::V> {
        match self {
            Reply::Page(page) => ReplyView::Page(page.deep_view()),
            Reply::Refused(refusal) => ReplyView::Refused(refusal.deep_view()),
            Reply::Malformed(error) => ReplyView::Malformed(error.deep_view()),
            Reply::Lost(cause) => ReplyView::Lost(cause@),
        }
    }
}

/// What a parsed body holds: the document, or the parser's complaint.
pub open spec fn document_view(document: Result<Json, String>) -> Result<JsonValue, Seq<char>> {
    match document {
        Ok(tree) => Ok(tree@),
        Err(complaint) => Err(complaint@),
    }
}

/// The reply that a parsed body amounts to. The shape of a page is tried first, then the shape
/// of a refusal; a body of neither shape is malformed.
pub open spec fn reply_of<T: FromJson>(
    document: Result<JsonValue, Seq<char>>,
    resource: Seq<char>,
) -> ReplyView<T::V> {
    match document {
        Err(complaint) => ReplyView::Malformed(DecodeErrorView::Syntax(complaint)),
        Ok(value) => match page_of::<T>(value, resource) {
            Some(page) => ReplyView::Page(page),
            None => match ErrorResponse::decoded(value) {
                Some(refusal) => ReplyView::Refused(refusal),
                None => ReplyView::Malformed(DecodeErrorView::Shape),
            },
        },
    }
}

/// The reply that a parsed body amounts to.
pub fn classify<T: FromJson>(document: Result<Json, String>, resource: &str) -> (r: Reply<T>)
    ensures
        r.deep_view() == reply_of::<T>(document_view(document), resource@),
{
    match document {
        Err(complaint) => Reply::Malformed(DecodeError::Syntax(complaint)),
        Ok(tree) => match read_page::<T>(&tree, resource) {
            Some(page) => Reply::Page(page),
            None => match ErrorResponse::from_json(&tree) {
                Some(refusal) => Reply::Refused(refusal),
                None => Reply::Malformed(DecodeError::Shape),
            },
        },
    }
}

/// The reply that a body amounts to.
pub fn read_reply<T: FromJson>(body: &[u8], resource: &str) -> (r: Reply<T>)
    ensures
        match json_document(body@) {
            Some(value) => r.deep_view() == reply_of::<T>(Ok(value), resource@),
            None => r.deep_view() matches ReplyView::Malformed(DecodeErrorView::Syntax(_)),
        },
{
    classify(Json::parse(body), resource)
}

/// The answer that a parsed body amounts to, where one value is expected. The shape of the value
/// is tried first, then the shape of a refusal.
pub open spec fn answer_of<T: FromJson>(document: Result<JsonValue, Seq<char>>) -> Result<
    T::V,
    CBErrorView,
> {
    match document {
        Err(complaint) => Err(CBErrorView::MalformedResponse(DecodeErrorView::Syntax(complaint))),
        Ok(value) => match T::decoded(value) {
            Some(answer) => Ok(answer),
            None => match ErrorResponse::decoded(value) {
                Some(refusal) => Err(CBErrorView::RemoteError(refusal)),
                None => Err(CBErrorView::MalformedResponse(DecodeErrorView::Shape)),
            },
        },
    }
}

/// What an answer holds.
pub open spec fn answer_view<T: DeepView>(answer: Result<T, CBError>) -> Result<T::V, CBErrorView> {
    match answer {
        Ok(value) => Ok(value.deep_view()),
        Err(error) => Err(error.deep_view()),
    }
}

/// The answer that a parsed body amounts to, where one value is expected.
pub fn answer<T: FromJson>(document: Result<Json, String>) -> (r: Result<T, CBError>)
    ensures
        answer_view(r) == answer_of::<T>(document_view(document)),
{
    match document {
        Err(complaint) => Err(CBError::MalformedResponse(DecodeError::Syntax(complaint))),
        Ok(tree) => match T::from_json(&tree) {
            Some(value) => Ok(value),
            None => match ErrorResponse::from_json(&tree) {
                Some(refusal) => Err(CBError::RemoteError(refusal)),
                None => Err(CBError::MalformedResponse(DecodeError::Shape)),
            },
        },
    }
}

/// The answer that a body amounts to, where one value is expected.
pub fn read_answer<T: FromJson>(body: &[u8]) -> (r: Result<T, CBError>)
    ensures
        match json_document(body@) {
            Some(value) => answer_view(r) == answer_of::<T>(Ok(value)),
            None => answer_view(r) matches Err(
                CBErrorView::MalformedResponse(DecodeErrorView::Syntax(_)),
            ),
        },
{
    answer(Json::parse(body))
}

/// What a [`StreamState`] holds.
pub struct StreamStateView {
    /// Where the next page begins, once a page has said so.
    pub pending_cursor: Option<Seq<char>>,
    /// Whether the walk is over.
    pub exhausted: bool,
}

/// What one element of the stream holds: the items of a page, or a failure.
pub type Yield<M> = Result<Seq<M>, CBErrorView>;

impl StreamStateView {
    /// The state of a walk that has not asked for a page yet.
    pub open spec fn start() -> StreamStateView {
        StreamStateView { pending_cursor: None, exhausted: false }
    }

    /// The state of a walk that is over.
    pub open spec fn end() -> StreamStateView {
        StreamStateView { pending_cursor: None, exhausted: true }
    }

    /// The state after `reply`. A page with a cursor leads on; a last page, a refusal, a
    /// malformed body and a lost reply end the walk. A walk that is over stays so.
    pub open spec fn after<M>(self, reply: ReplyView<M>) -> StreamStateView {
        if self.exhausted {
            self
        } else {
            match reply {
                ReplyView::Page(page) if page.next_cursor is Some => StreamStateView {
                    pending_cursor: page.next_cursor,
                    exhausted: false,
                },
                _ => StreamStateView::end(),
            }
        }
    }

    /// The element that the stream yields for `reply`; none once the walk is over.
    pub open spec fn yields<M>(self, reply: ReplyView<M>) -> Option<Yield<M>> {
        if self.exhausted {
            None
        } else {
            Some(
                match reply {
                    ReplyView::Page(page) => Ok(page.items),
                    ReplyView::Refused(refusal) => Err(CBErrorView::RemoteError(refusal)),
                    ReplyView::Malformed(error) => Err(CBErrorView::MalformedResponse(error)),
                    ReplyView::Lost(cause) => Err(CBErrorView::Transport(cause)),
                },
            )
        }
    }
}

/// The walk from `state` through `replies`, one request for each element yielded: the state at
/// the end, and the elements in order. Replies that come after the walk is over are not looked
/// at.
pub open spec fn run<M>(state: StreamStateView, replies: Seq<ReplyView<M>>) -> (
    StreamStateView,
    Seq<Yield<M>>,
)
    decreases replies.len(),
{
    if replies.len() == 0 || state.exhausted {
        (state, Seq::empty())
    } else {
        let rest = run(state.after(replies[0]), replies.drop_first());
        (rest.0, seq![state.yields(replies[0])->0] + rest.1)
    }
}

/// The replies that carry `pages`, in order.
pub open spec fn page_replies<M>(pages: Seq<PageView<M>>) -> Seq<ReplyView<M>> {
    Seq::new(pages.len(), |i: int| ReplyView::Page(pages[i]))
}

/// The items of each of `pages`, in order.
pub open spec fn page_items<M>(pages: Seq<PageView<M>>) -> Seq<Yield<M>> {
    Seq::new(pages.len(), |i: int| Ok::<Seq<M>, CBErrorView>(pages[i].items))
}

/// A walk that is over yields nothing more and asks for nothing more, whatever replies come.
pub proof fn lemma_over_stays_over<M>(state: StreamStateView, replies: Seq<ReplyView<M>>)
    requires
        state.exhausted,
    ensures
        run(state, replies) == (state, Seq::<Yield<M>>::empty()),
{
}

/// Through pages of which each but the last names a next page, and the last names none, a walk
/// yields the items of each page in order, that many elements and no more, and is then over:
/// replies that come after are not looked at.
pub proof fn lemma_pages_then_end<M>(
    state: StreamStateView,
    pages: Seq<PageView<M>>,
    more: Seq<ReplyView<M>>,
)
    requires
        !state.exhausted,
        pages.len() > 0,
        forall|i: int| 0 <= i < pages.len() - 1 ==> (#[trigger] pages[i]).next_cursor is Some,
        pages.last().next_cursor is None,
    ensures
        run(state, page_replies(pages) + more).0 == StreamStateView::end(),
        run(state, page_replies(pages) + more).1 == page_items(pages),
        run(state, page_replies(pages) + more).1.len() == pages.len(),
    decreases pages.len(),
{
    let replies = page_replies(pages) + more;
    assert(replies[0] == ReplyView::Page(pages[0]));
    let next = state.after(replies[0]);
    let rest = replies.drop_first();
    if pages.len() == 1 {
        assert(pages[0] == pages.last());
        assert(next == StreamStateView::end());
        lemma_over_stays_over(next, rest);
        assert(run(state, replies).1 =~= page_items(pages));
    } else {
        let tail = pages.drop_first();
        assert(pages[0].next_cursor is Some);
        assert(!next.exhausted);
        assert(rest =~= page_replies(tail) + more);
        assert(tail.last() == pages.last());
        assert forall|i: int| 0 <= i < tail.len() - 1 implies (#[trigger] tail[i]).next_cursor
            is Some by {
            assert(tail[i] == pages[i + 1]);
        }
        lemma_pages_then_end(next, tail, more);
        assert(run(state, replies).1 =~= page_items(pages));
    }
}

/// A refusal of the service ends the walk: it yields that one failure, and replies that come
/// after are not looked at.
pub proof fn lemma_refusal_ends<M>(
    state: StreamStateView,
    refusal: ErrorResponseView,
    more: Seq<ReplyView<M>>,
)
    requires
        !state.exhausted,
    ensures
        run(state, seq![ReplyView::<M>::Refused(refusal)] + more) == (
            StreamStateView::end(),
            seq![Err::<Seq<M>, CBErrorView>(CBErrorView::RemoteError(refusal))],
        ),
{
    let replies = seq![ReplyView::<M>::Refused(refusal)] + more;
    assert(replies[0] == ReplyView::<M>::Refused(refusal));
    lemma_over_stays_over(StreamStateView::end(), replies.drop_first());
    assert(run(state, replies).1 =~= seq![
        Err::<Seq<M>, CBErrorView>(CBErrorView::RemoteError(refusal)),
    ]);
}

/// What the walk is to do next.
#[derive(Debug)]
pub enum Step {
    /// Wait `delay_ms` milliseconds, then ask for the page that begins after `cursor`, or for
    /// the first page where there is no cursor.
    Fetch { cursor: Option<String>, delay_ms: u64 },
    /// Nothing: the walk is over.
    Done,
}

/// The state of a walk through the pages of a list.
#[derive(Debug)]
pub struct StreamState {
    pending_cursor: Option<String>,
    exhausted: bool,
}

impl View for StreamState {
    type V = StreamStateView;

    closed spec fn view(&self) -> StreamStateView {
        StreamStateView { pending_cursor: text_of(self.pending_cursor), exhausted: self.exhausted }
    }
}

/// What an element of the stream holds.
pub open spec fn yield_view<T: DeepView>(element: Option<Result<Vec<T>, CBError>>) -> Option<
    Yield<T::V>,
> {
    match element {
        Some(Ok(items)) => Some(Ok(items.deep_view())),
        Some(Err(error)) => Some(Err(error.deep_view())),
        None => None,
    }
}

/// What a run of elements of the stream holds.
pub open spec fn yields_view<T: DeepView>(elements: Seq<Result<Vec<T>, CBError>>) -> Seq<
    Yield<T::V>,
> {
    Seq::new(elements.len(), |i: int| yield_view(Some(elements[i]))->0)
}

impl StreamState {
    /// The state of a walk that has not asked for a page yet.
    pub fn new() -> (r: StreamState)
        ensures
            r@ == StreamStateView::start(),
    {
        StreamState { pending_cursor: None, exhausted: false }
    }

    /// Whether the walk is over.
    pub fn is_exhausted(&self) -> (r: bool)
        ensures
            r == self@.exhausted,
    {
        self.exhausted
    }

    /// Where the next page begins, once a page has said so.
    pub fn pending_cursor(&self) -> (r: Option<&str>)
        ensures
            match r {
                Some(cursor) => self@.pending_cursor == Some(cursor@),
                None => self@.pending_cursor is None,
            },
    {
        match &self.pending_cursor {
            Some(cursor) => Some(cursor.as_str()),
            None => None,
        }
    }

    /// What the walk is to do next.
    pub fn next_step(&self) -> (r: Step)
        ensures
            match r {
                Step::Fetch { cursor, delay_ms } => !self@.exhausted && text_of(cursor)
                    == self@.pending_cursor && delay_ms == PACING_DELAY_MS,
                Step::Done => self@.exhausted,
            },
    {
        if self.exhausted {
            Step::Done
        } else {
            let cursor = match &self.pending_cursor {
                Some(cursor) => Some(cursor.clone()),
                None => None,
            };
            Step::Fetch { cursor, delay_ms: PACING_DELAY_MS }
        }
    }

    /// Takes the reply to the page request and gives the element that the stream yields for it.
    /// Once the walk is over a reply is dropped, and nothing is yielded.
    pub fn advance<T: FromJson>(&mut self, reply: Reply<T>) -> (r: Option<Result<Vec<T>, CBError>>)
        ensures
            final(self)@ == old(self)@.after(reply.deep_view()),
            yield_view(r) == old(self)@.yields(reply.deep_view()),
    {
        if self.exhausted {
            return None;
        }
        match reply {
            Reply::Page(page) => {
                let Page { items, next_cursor } = page;
                self.exhausted = next_cursor.is_none();
                self.pending_cursor = next_cursor;
                Some(Ok(items))
            },
            Reply::Refused(refusal) => {
                self.exhausted = true;
                self.pending_cursor = None;
                Some(Err(CBError::RemoteError(refusal)))
            },
            Reply::Malformed(error) => {
                self.exhausted = true;
                self.pending_cursor = None;
                Some(Err(CBError::MalformedResponse(error)))
            },
            Reply::Lost(cause) => {
                self.exhausted = true;
                self.pending_cursor = None;
                Some(Err(CBError::Transport(cause)))
            },
        }
    }

    /// Takes a run of replies, as they came in answer to one page request after the other, and
    /// gives the elements that the stream yields for them. Replies that come after the walk is
    /// over are dropped.
    pub fn walk<T: FromJson>(&mut self, replies: Vec<Reply<T>>) -> (r: Vec<Result<Vec<T>, CBError>>)
        ensures
            final(self)@ == run(old(self)@, replies.deep_view()).0,
            yields_view(r@) == run(old(self)@, replies.deep_view()).1,
    {
        let ghost all = replies.deep_view();
        let ghost first = self@;
        let mut elements: Vec<Result<Vec<T>, CBError>> = Vec::new();
        assert(all.skip(0) =~= all);
        assert(yields_view(elements@) =~= Seq::empty());
        for reply in it: replies
            invariant
                it.seq() == replies@,
                all == replies.deep_view(),
                run(first, all).0 == run(self@, all.skip(it.index() as int)).0,
                run(first, all).1 == yields_view(elements@) + run(
                    self@,
                    all.skip(it.index() as int),
                ).1,
        {
            let ghost before = self@;
            let ghost done = yields_view(elements@);
            let ghost rest = all.skip(it.index() as int);
            assert(rest[0] == reply.deep_view());
            assert(rest.drop_first() =~= all.skip(it.index() + 1));
            match self.advance(reply) {
                Some(element) => {
                    elements.push(element);
                    assert(yields_view(elements@) =~= done + seq![before.yields(rest[0])->0]);
                    assert(run(before, rest).1 =~= seq![before.yields(rest[0])->0] + run(
                        self@,
                        rest.drop_first(),
                    ).1);
                },
                None => {
                    proof {
                        lemma_over_stays_over(before, rest);
                        lemma_over_stays_over(before, rest.drop_first());
                    }
                },
            }
        }
        assert(all.skip(all.len() as int) =~= Seq::empty());
        elements
    }
}


/// The query parameters of a page request: the page size, where there is one, then the cursor,
/// where there is one.
pub open spec fn page_query(page_size: Option<usize>, cursor: Option<Seq<char>>) -> Seq<
    (Seq<char>, Seq<char>),
> {
    let limit = match page_size {
        Some(n) => seq![(LIMIT@, decimal_text(n as nat))],
        None => Seq::empty(),
    };
    let after = match cursor {
        Some(c) => seq![(STARTING_AFTER@, c)],
        None => Seq::empty(),
    };
    limit + after
}

/// The query parameters of a page request.
pub fn query_of(page_size: Option<usize>, cursor: Option<&str>) -> (r: Vec<(String, String)>)
    ensures
        pairs_of(r@) == page_query(
            page_size,
            match cursor {
                Some(c) => Some(c@),
                None => None,
            },
        ),
{
    let mut query: Vec<(String, String)> = Vec::new();
    match page_size {
        Some(n) => {
            query.push((LIMIT.to_owned(), unsigned_text(n)));
        },
        None => {},
    }
    match cursor {
        Some(c) => {
            query.push((STARTING_AFTER.to_owned(), c.to_owned()));
        },
        None => {},
    }
    assert(pairs_of(query@) =~= page_query(
        page_size,
        match cursor {
            Some(c) => Some(c@),
            None => None,
        },
    ));
    query
}

/// The outcome of asking for a request, as [`BuilderView::builds`] takes it.
pub open spec fn request_outcome(r: Result<Request, CBError>) -> Result<RequestView, ErrorKind> {
    match r {
        Ok(request) => Ok(request@),
        Err(CBError::KeyLoad) => Err(ErrorKind::KeyLoad),
        Err(CBError::SigningFailed(_)) => Err(ErrorKind::SigningFailed),
        Err(_) => Err(ErrorKind::MissingAuthority),
    }
}

/// Whether `error` is one of the failures to build a request.
pub open spec fn is_request_failure(error: CBError) -> bool {
    error is KeyLoad || error is SigningFailed || error is MissingAuthority
}

/// The request that `builder` builds once its URI is `address`; without an address nothing can
/// be bound, and the request is refused.
pub open spec fn requests(
    builder: BuilderView,
    address: Option<UriView>,
    outcome: Result<RequestView, ErrorKind>,
) -> bool {
    match address {
        Some(uri) => (BuilderView { uri, ..builder }).builds(outcome),
        None => outcome == Err::<RequestView, ErrorKind>(ErrorKind::MissingAuthority),
    }
}

/// Builds the request of `builder` for `address`.
pub fn request_for(builder: Builder, address: Option<Uri>) -> (r: Result<Request, CBError>)
    ensures
        requests(
            builder@,
            match address {
                Some(uri) => Some(uri@),
                None => None,
            },
            request_outcome(r),
        ),
        r matches Err(error) ==> is_request_failure(error),
{
    match address {
        Some(uri) => match builder.uri(uri).build() {
            Ok(request) => Ok(request),
            Err(error) => Err(CBError::from_request(error)),
        },
        None => Err(CBError::MissingAuthority),
    }
}

/// What a [`Pager`] holds.
pub struct PagerView {
    /// The builder of the page requests, with the credentials.
    pub builder: BuilderView,
    /// The address of the service.
    pub base: Seq<char>,
    /// The template of the path of the list.
    pub template: Seq<char>,
    /// The variables of the template.
    pub scalars: Seq<(Seq<char>, Seq<char>)>,
    /// How many items a page is to hold, where the caller says so.
    pub page_size: Option<usize>,
    /// The member of a page under which the items stand.
    pub resource: Seq<char>,
    /// How far the walk has come.
    pub state: StreamStateView,
}

impl PagerView {
    /// The address of the next page.
    pub open spec fn address(self) -> Option<UriView> {
        address_of(
            self.base,
            self.template + QUERY_SUFFIX@,
            self.scalars,
            QUERY@,
            page_query(self.page_size, self.state.pending_cursor),
        )
    }
}

/// A walk through the pages of one list. It asks for one request at a time, and only when it
/// is asked for the next element.
#[derive(Debug)]
pub struct Pager {
    builder: Builder,
    base: String,
    template: String,
    scalars: Vec<(String, String)>,
    page_size: Option<usize>,
    resource: String,
    state: StreamState,
}

impl View for Pager {
    type V = PagerView;

    closed spec fn view(&self) -> PagerView {
        PagerView {
            builder: self.builder@,
            base: self.base@,
            template: self.template@,
            scalars: pairs_of(self.scalars@),
            page_size: self.page_size,
            resource: self.resource@,
            state: self.state@,
        }
    }
}

impl Pager {
    /// A walk through the list at the path `template` of the service at `base`, with `scalars`
    /// for the variables of the template, in pages of `page_size` items whose items stand under
    /// `resource`. The requests are built by `builder`.
    pub fn paginate(
        builder: Builder,
        base: &str,
        template: &str,
        scalars: Vec<(String, String)>,
        page_size: Option<usize>,
        resource: &str,
    ) -> (r: Pager)
        ensures
            r@ == (PagerView {
                builder: builder@,
                base: base@,
                template: template@,
                scalars: pairs_of(scalars@),
                page_size,
                resource: resource@,
                state: StreamStateView::start(),
            }),
    {
        Pager {
            builder,
            base: base.to_owned(),
            template: template.to_owned(),
            scalars,
            page_size,
            resource: resource.to_owned(),
            state: StreamState::new(),
        }
    }

    /// How far the walk has come.
    pub fn state(&self) -> (r: &StreamState)
        ensures
            r@ == self@.state,
    {
        &self.state
    }

    /// What the walk is to do next.
    pub fn next_step(&self) -> (r: Step)
        ensures
            match r {
                Step::Fetch { cursor, delay_ms } => !self@.state.exhausted && text_of(cursor)
                    == self@.state.pending_cursor && delay_ms == PACING_DELAY_MS,
                Step::Done => self@.state.exhausted,
            },
    {
        self.state.next_step()
    }

    /// The request for the next page; none once the walk is over. Where the request cannot be
    /// built, the failure is the last element of the stream, and the walk is over.
    pub fn next_request(&mut self) -> (r: Option<Result<Request, CBError>>)
        ensures
            match r {
                None => old(self)@.state.exhausted && final(self)@ == old(self)@,
                Some(outcome) => !old(self)@.state.exhausted && requests(
                    old(self)@.builder,
                    old(self)@.address(),
                    request_outcome(outcome),
                ) && match outcome {
                    Ok(_) => final(self)@ == old(self)@,
                    Err(error) => is_request_failure(error) && final(self)@ == (PagerView {
                        state: StreamStateView::end(),
                        ..old(self)@
                    }),
                },
            },
    {
        if self.state.is_exhausted() {
            return None;
        }
        let query = query_of(self.page_size, self.state.pending_cursor());
        let template = self.template.clone().concat(QUERY_SUFFIX);
        let address = resolve(
            self.base.as_str(),
            template.as_str(),
            &self.scalars,
            QUERY,
            &query,
        );
        let outcome = request_for(self.builder.clone(), address);
        if outcome.is_err() {
            self.state = StreamState { pending_cursor: None, exhausted: true };
        }
        Some(outcome)
    }

    /// Takes the reply to the page request and gives the element that the stream yields for it.
    pub fn on_reply<T: FromJson>(&mut self, reply: Reply<T>) -> (r: Option<Result<Vec<T>, CBError>>)
        ensures
            final(self)@ == (PagerView {
                state: old(self)@.state.after(reply.deep_view()),
                ..old(self)@
            }),
            yield_view(r) == old(self)@.state.yields(reply.deep_view()),
    {
        self.state.advance(reply)
    }

    /// Takes the body of the reply to the page request and gives the element that the stream
    /// yields for it.
    pub fn on_body<T: FromJson>(&mut self, body: &[u8]) -> (r: Option<Result<Vec<T>, CBError>>)
        ensures
            match json_document(body@) {
                Some(value) => {
                    let reply = reply_of::<T>(Ok(value), old(self)@.resource);
                    final(self)@ == (PagerView {
                        state: old(self)@.state.after(reply),
                        ..old(self)@
                    }) && yield_view(r) == old(self)@.state.yields(reply)
                },
                None => final(self)@.state.exhausted && (old(self)@.state.exhausted
                    ==> r is None) && (!old(self)@.state.exhausted ==> yield_view(r) matches Some(
                    Err(CBErrorView::MalformedResponse(DecodeErrorView::Syntax(_))),
                )),
            },
    {
        let reply = read_reply::<T>(body, self.resource.as_str());
        self.state.advance(reply)
    }
}

} // verus!
