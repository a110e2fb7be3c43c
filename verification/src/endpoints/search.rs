//! The search endpoint: the query builder, its wire serialization, and the
//! paginated result iterator's state machine.

use crate::endpoints::spec_join_comma;
use crate::endpoints::spec_u64_dec;
use crate::endpoints::Sort;
use crate::endpoints::SortView;
use crate::error::AdsError;
use vstd::prelude::*;

verus! {

/// The maximum number of rows the API serves in one page.
pub const MAX_ROWS: u64 = 2000;

/// A builder for a search query. Every setter returns a new value, so a
/// snapshot can be reused and refined without aliasing; the builder holds
/// no connection state.
#[derive(Clone)]
#[must_use]
pub struct Search {
    q: String,
    rows: Option<u64>,
    start: Option<u64>,
    fl: Vec<String>,
    fq: Option<String>,
    sort: Vec<Sort>,
}

/// The mathematical content of a [`Search`].
pub struct SearchView {
    pub q: Seq<char>,
    pub rows: Option<u64>,
    pub start: Option<u64>,
    pub fl: Seq<Seq<char>>,
    pub fq: Option<Seq<char>>,
    pub sort: Seq<SortView>,
}

impl View for Search {
    type V = SearchView;

    closed spec fn view(&self) -> SearchView {
        SearchView {
            q: self.q@,
            rows: self.rows,
            start: self.start,
            fl: self.fl.deep_view(),
            fq: match self.fq {
                Some(ref s) => Some(s@),
                None => None,
            },
            sort: Seq::new(self.sort@.len(), |i: int| self.sort@[i]@),
        }
    }
}

/// The field list sent when the caller projected nothing: a fixed,
/// server-compatible default set, not the user's literal empty list.
pub open spec fn spec_default_fl() -> Seq<char> {
    "author,first_author,bibcode,id,year,title"@
}

/// The value of the `fl` parameter: the comma-join of the projected fields
/// in insertion order, or the default set when none were projected.
pub open spec fn spec_fl_value(v: SearchView) -> Seq<char> {
    if v.fl.len() == 0 {
        spec_default_fl()
    } else {
        spec_join_comma(v.fl)
    }
}

/// Each sort key rendered in the wire syntax, in order.
pub open spec fn spec_rendered_all(sort: Seq<SortView>) -> Seq<Seq<char>> {
    Seq::new(sort.len(), |i: int| sort[i].rendered())
}

/// The value of the `sort` parameter: the comma-join of the rendered sort
/// keys in insertion order.
pub open spec fn spec_sort_value(sort: Seq<SortView>) -> Seq<char> {
    spec_join_comma(spec_rendered_all(sort))
}

/// Renders each sort key into its wire syntax, in order.
pub(crate) fn render_sorts(sorts: &Vec<Sort>) -> (r: Vec<String>)
    ensures
        r.deep_view() == spec_rendered_all(Seq::new(sorts@.len(), |i: int| sorts@[i]@)),
{
    let ghost all = spec_rendered_all(Seq::new(sorts@.len(), |i: int| sorts@[i]@));
    let mut rendered: Vec<String> = Vec::new();
    let mut i: usize = 0;
    while i < sorts.len()
        invariant
            i <= sorts@.len(),
            all == spec_rendered_all(Seq::new(sorts@.len(), |k: int| sorts@[k]@)),
            all.len() == sorts@.len(),
            rendered@.len() == i as int,
            rendered.deep_view() =~= all.take(i as int),
        decreases sorts@.len() - i,
    {
        let ghost prev = rendered.deep_view();
        rendered.push(sorts[i].to_string());
        proof {
            assert forall|j: int| 0 <= j < i as int + 1 implies rendered.deep_view()[j]
                == all.take(i as int + 1)[j] by {
                assert(rendered.deep_view()[j] == rendered@[j]@);
                if j < i as int {
                    assert(rendered@[j]@ == prev[j]);
                    assert(prev[j] == all[j]);
                } else {
                    assert(rendered@[j]@ == all[j]);
                }
            }
            assert(rendered.deep_view() =~= all.take(i as int + 1));
        }
        i += 1;
    }
    proof {
        assert(rendered.deep_view() =~= all);
    }
    rendered
}

/// The rows value actually transmitted: clamped to the server's maximum
/// page size.
pub open spec fn spec_clamped_rows(n: u64) -> u64 {
    if n > MAX_ROWS {
        MAX_ROWS
    } else {
        n
    }
}

/// The full parameter list of a search request, in transmission order.
/// `rows`, `start` and `fq` are omitted when unset; `sort` is omitted when
/// no sort key was added; `q` and `fl` are always present.
pub open spec fn spec_params(v: SearchView) -> Seq<(Seq<char>, Seq<char>)> {
    seq![("q"@, v.q)] + (match v.rows {
        Some(n) => seq![("rows"@, spec_u64_dec(spec_clamped_rows(n) as nat))],
        None => Seq::empty(),
    }) + (match v.start {
        Some(n) => seq![("start"@, spec_u64_dec(n as nat))],
        None => Seq::empty(),
    }) + seq![("fl"@, spec_fl_value(v))] + (match v.fq {
        Some(s) => seq![("fq"@, s)],
        None => Seq::empty(),
    }) + (if v.sort.len() == 0 {
        Seq::empty()
    } else {
        seq![("sort"@, spec_sort_value(v.sort))]
    })
}

impl Search {
    /// Build a new query around a free-text search string, which is passed
    /// through to the server verbatim.
    pub fn new(query: &str) -> (r: Self)
        ensures
            r@ == (SearchView {
                q: query@,
                rows: None,
                start: None,
                fl: Seq::<Seq<char>>::empty(),
                fq: None,
                sort: Seq::<SortView>::empty(),
            }),
    {
        let r = Self {
            q: query.to_owned(),
            rows: None,
            start: None,
            fl: Vec::new(),
            fq: None,
            sort: Vec::new(),
        };
        proof {
            assert(r@.fl =~= Seq::<Seq<char>>::empty());
            assert(r@.sort =~= Seq::<SortView>::empty());
        }
        r
    }

    /// The starting offset of the returned results, used for pagination.
    pub fn start(self, start: u64) -> (r: Self)
        ensures
            r@ == (SearchView { start: Some(start), ..self@ }),
    {
        Self { start: Some(start), ..self }
    }

    /// Appends one entry to the list of fields to return. The entries are
    /// comma-joined in insertion order at serialization time.
    pub fn fl(self, fl: &str) -> (r: Self)
        ensures
            r@ == (SearchView { fl: self@.fl.push(fl@), ..self@ }),
    {
        let mut fls = self.fl;
        fls.push(fl.to_owned());
        let r = Self { fl: fls, ..self };
        proof {
            assert(r@.fl =~= self@.fl.push(fl@));
        }
        r
    }

    /// Sets the single filter applied to the search. Only one filter is
    /// supported: the last call wins.
    pub fn fq(self, fq: &str) -> (r: Self)
        ensures
            r@ == (SearchView { fq: Some(fq@), ..self@ }),
    {
        Self { fq: Some(fq.to_owned()), ..self }
    }

    /// Appends one sort key. Multi-key sorts render as a comma-joined list
    /// in insertion order.
    pub fn sort(self, field: Sort) -> (r: Self)
        ensures
            r@ == (SearchView { sort: self@.sort.push(field@), ..self@ }),
    {
        let ghost f = field@;
        let mut sorts = self.sort;
        sorts.push(field);
        let r = Self { sort: sorts, ..self };
        proof {
            assert(r@.sort =~= self@.sort.push(f));
        }
        r
    }

    /// The number of results to request per page. Values above the
    /// server's maximum are clamped at serialization time.
    pub fn rows(self, rows: u64) -> (r: Self)
        ensures
            r@ == (SearchView { rows: Some(rows), ..self@ }),
    {
        Self { rows: Some(rows), ..self }
    }

    /// Serializes the query to its wire parameters, exactly as
    /// [`spec_params`] states.
    pub fn to_params(&self) -> (r: Vec<(String, String)>)
        ensures
            r.deep_view() == spec_params(self@),
    {
        let mut out: Vec<(String, String)> = Vec::new();
        out.push((String::from_str("q"), self.q.clone()));
        if let Some(n) = self.rows {
            let m = if n > MAX_ROWS {
                MAX_ROWS
            } else {
                n
            };
            out.push((String::from_str("rows"), crate::endpoints::u64_to_dec(m)));
        }
        if let Some(n) = self.start {
            out.push((String::from_str("start"), crate::endpoints::u64_to_dec(n)));
        }
        if self.fl.len() == 0 {
            out.push(
                (
                    String::from_str("fl"),
                    String::from_str("author,first_author,bibcode,id,year,title"),
                ),
            );
        } else {
            out.push((String::from_str("fl"), crate::endpoints::comma_separated(&self.fl)));
        }
        if let Some(ref s) = self.fq {
            out.push((String::from_str("fq"), s.clone()));
        }
        if self.sort.len() > 0 {
            let rendered = render_sorts(&self.sort);
            proof {
                assert(rendered.deep_view() =~= spec_rendered_all(self@.sort));
            }
            out.push((String::from_str("sort"), crate::endpoints::comma_separated(&rendered)));
        }
        proof {
            assert(out.deep_view() =~~= spec_params(self@));
        }
        out
    }
}

/// Serialization is a function of the builder's content alone: two
/// builders rebuilt with identical field values serialize to byte-identical
/// parameter lists.
pub proof fn lemma_serialization_deterministic(a: Search, b: Search)
    requires
        a@ == b@,
    ensures
        spec_params(a@) == spec_params(b@),
{
}

/// A non-empty field list serializes as its comma-join, in insertion
/// order, with no default substitution: the parameter list carries the
/// pair `("fl", join)`.
pub proof fn lemma_fl_nonempty(v: SearchView)
    requires
        v.fl.len() > 0,
    ensures
        exists|i: int|
            0 <= i < spec_params(v).len() && spec_params(v)[i] == ("fl"@, spec_join_comma(v.fl)),
{
    let ps = spec_params(v);
    let i = fl_index(v);
    assert(ps[i] == ("fl"@, spec_fl_value(v)));
}

/// An empty field list serializes as the fixed default field set, exactly.
pub proof fn lemma_fl_empty_default(v: SearchView)
    requires
        v.fl.len() == 0,
    ensures
        exists|i: int|
            0 <= i < spec_params(v).len() && spec_params(v)[i] == ("fl"@, spec_default_fl()),
{
    let ps = spec_params(v);
    let i = fl_index(v);
    assert(ps[i] == ("fl"@, spec_fl_value(v)));
}

/// The position of the `fl` pair in the parameter list.
pub open spec fn fl_index(v: SearchView) -> int {
    1 + (if v.rows is Some {
        1int
    } else {
        0int
    }) + (if v.start is Some {
        1int
    } else {
        0int
    })
}

/// A sort list with at least one key serializes as the comma-join of the
/// rendered keys, in insertion order.
pub proof fn lemma_sort_nonempty(v: SearchView)
    requires
        v.sort.len() >= 1,
    ensures
        spec_params(v).last() == ("sort"@, spec_join_comma(spec_rendered_all(v.sort))),
{
}

/// With an empty sort list the `sort` key is absent from the serialized
/// form entirely.
pub proof fn lemma_sort_empty_omitted(v: SearchView)
    requires
        v.sort.len() == 0,
    ensures
        forall|i: int| 0 <= i < spec_params(v).len() ==> #[trigger] spec_params(v)[i].0 != "sort"@,
{
    reveal_strlit("q");
    reveal_strlit("rows");
    reveal_strlit("start");
    reveal_strlit("fl");
    reveal_strlit("fq");
    reveal_strlit("sort");
    let ps = spec_params(v);
    assert forall|i: int| 0 <= i < ps.len() implies #[trigger] ps[i].0 != "sort"@ by {
        assert("q"@.len() == 1);
        assert("rows"@.len() == 4);
        assert("sort"@.len() == 4);
        assert("rows"@[0] == 'r' && "sort"@[0] == 's');
        assert("start"@.len() == 5);
        assert("fl"@.len() == 2);
        assert("fq"@.len() == 2);
    }
}

/// A single page of responses from the search API. `num_found` is the
/// server's authoritative total for the whole result set as of this
/// request; it may differ between pages of one session.
pub struct Response<D> {
    pub num_found: u64,
    pub start: u64,
    pub docs: Vec<D>,
}

/// The mathematical content of a [`Response`].
pub struct PageView<D> {
    pub num_found: u64,
    pub start: u64,
    pub docs: Seq<D>,
}

impl<D> View for Response<D> {
    type V = PageView<D>;

    open spec fn view(&self) -> PageView<D> {
        PageView { num_found: self.num_found, start: self.start, docs: self.docs@ }
    }
}

/// One advance of the paginated iterator: a buffered document is ready,
/// the sequence is over, or exactly one page request must be performed
/// next. The caller performs the request and hands the decoded page back
/// through [`SearchIter::feed_page`]; a failed request is surfaced by the
/// caller as one failed item, and the iterator state is left untouched.
pub enum Step<D> {
    Ready(D),
    Finished,
    Fetch { start: u64, rows: u64 },
}

/// An iterator over all results of a query, hiding the server's page
/// limits: it buffers one fetched page at a time and tracks the absolute
/// offset of the next document.
#[must_use]
pub struct SearchIter<D> {
    query: Search,
    num_found: u64,
    start: u64,
    limit: Option<u64>,
    docs: Vec<D>,
}

/// The mathematical content of a [`SearchIter`]: the query snapshot, the
/// last total reported by the server, the absolute offset of the next
/// document (`cursor`), the optional cap on the total number of yielded
/// documents, and the buffered remainder of the last fetched page.
pub struct SearchIterView<D> {
    pub query: SearchView,
    pub num_found: u64,
    pub cursor: u64,
    pub limit: Option<u64>,
    pub buffered: Seq<D>,
}

impl<D> View for SearchIter<D> {
    type V = SearchIterView<D>;

    closed spec fn view(&self) -> SearchIterView<D> {
        SearchIterView {
            query: self.query@,
            num_found: self.num_found,
            cursor: self.start,
            limit: self.limit,
            buffered: self.docs@,
        }
    }
}

/// Well-formedness of the iterator state: the cursor can still advance
/// past every buffered document without overflowing.
pub open spec fn iter_wf<D>(m: SearchIterView<D>) -> bool {
    m.cursor + m.buffered.len() <= u64::MAX
}

/// When the sequence ends without a further request: a fetched total has
/// been reached (only meaningful once something was fetched, hence
/// `cursor > 0`), or the caller's limit has been reached (checked even at
/// offset zero, so a limit of zero yields an empty sequence with no
/// request at all).
pub open spec fn spec_done<D>(m: SearchIterView<D>) -> bool {
    ||| (m.cursor > 0 && m.cursor >= m.num_found)
    ||| (m.limit matches Some(l) && m.cursor >= l)
}

/// The page size of the next request: the server maximum, capped by the
/// rows the query asked for and by what remains under the caller's limit.
pub open spec fn spec_page_size<D>(m: SearchIterView<D>) -> u64 {
    let by_rows = match m.query.rows {
        Some(r) => spec_clamped_rows(r),
        None => MAX_ROWS,
    };
    match m.limit {
        Some(l) => if m.cursor < l && l - m.cursor < by_rows {
            (l - m.cursor) as u64
        } else {
            by_rows
        },
        None => by_rows,
    }
}

/// What one advance returns, as a function of the state.
pub open spec fn spec_step<D>(m: SearchIterView<D>) -> Step<D> {
    if m.buffered.len() > 0 {
        Step::Ready(m.buffered[0])
    } else if spec_done(m) {
        Step::Finished
    } else {
        Step::Fetch { start: m.cursor, rows: spec_page_size(m) }
    }
}

/// The state after one advance: popping a buffered document moves the
/// cursor past it; otherwise the state is unchanged.
pub open spec fn spec_after_step<D>(m: SearchIterView<D>) -> SearchIterView<D> {
    if m.buffered.len() > 0 {
        SearchIterView { cursor: (m.cursor + 1) as u64, buffered: m.buffered.drop_first(), ..m }
    } else {
        m
    }
}

/// The state after a fetched page is handed back: the total is re-read
/// from the response (the index may have changed between requests), the
/// cursor moves to just past the first returned document, and the page
/// refills the buffer minus the document that is returned immediately.
pub open spec fn spec_after_feed<D>(m: SearchIterView<D>, p: PageView<D>) -> SearchIterView<D> {
    SearchIterView {
        num_found: p.num_found,
        cursor: (p.start + 1) as u64,
        buffered: if p.docs.len() == 0 {
            p.docs
        } else {
            p.docs.drop_first()
        },
        ..m
    }
}

/// What feeding a page returns: its first document, or nothing when the
/// page was empty, which ends the sequence.
pub open spec fn spec_feed_result<D>(p: PageView<D>) -> Option<D> {
    if p.docs.len() == 0 {
        None
    } else {
        Some(p.docs[0])
    }
}

/// The state a fresh iterator starts in: nothing fetched yet, the cursor
/// at the query's own offset, no limit, an empty buffer.
pub open spec fn spec_iter_of<D>(q: SearchView) -> SearchIterView<D> {
    SearchIterView {
        query: q,
        num_found: 0,
        cursor: match q.start {
            Some(s) => s,
            None => 0,
        },
        limit: None,
        buffered: Seq::<D>::empty(),
    }
}

impl Search {
    /// Wraps this query in an iterator over all of its results, with
    /// transparent support for pagination. The iterator starts at the
    /// query's own offset; from offset zero the first advance always
    /// fetches, since no total is known until a response arrives.
    pub fn iter<D>(self) -> (r: SearchIter<D>)
        ensures
            r@ == spec_iter_of::<D>(self@),
            iter_wf(r@),
    {
        let start = match self.start {
            Some(s) => s,
            None => 0,
        };
        let r = SearchIter { query: self, num_found: 0, start, limit: None, docs: Vec::new() };
        proof {
            assert(r@.buffered =~= Seq::<D>::empty());
        }
        r
    }
}

impl<D> SearchIter<D> {
    /// Caps the total number of documents this iterator will yield.
    /// Requests are trimmed so that no more than this many documents are
    /// ever fetched; a limit of zero means no request is made at all.
    pub fn limit(self, limit: u64) -> (r: Self)
        ensures
            r@ == (SearchIterView { limit: Some(limit), ..self@ }),
    {
        Self { limit: Some(limit), ..self }
    }

    /// The query snapshot this iterator pages through.
    pub fn query(&self) -> (r: &Search)
        ensures
            r@ == self@.query,
    {
        &self.query
    }

    fn page_size(&self) -> (r: u64)
        ensures
            r == spec_page_size(self@),
    {
        let by_rows = match self.query.rows {
            Some(r) => if r > MAX_ROWS {
                MAX_ROWS
            } else {
                r
            },
            None => MAX_ROWS,
        };
        match self.limit {
            Some(l) => if self.start < l {
                let rem = l - self.start;
                if rem < by_rows {
                    rem
                } else {
                    by_rows
                }
            } else {
                by_rows
            },
            None => by_rows,
        }
    }

    /// Advances the iterator by one step without performing any I/O:
    /// returns the next buffered document, or the end of the sequence, or
    /// the one page request to perform next (in which case the state is
    /// unchanged until the page comes back through [`Self::feed_page`]).
    pub fn next_step(&mut self) -> (s: Step<D>)
        requires
            iter_wf(old(self)@),
        ensures
            iter_wf(final(self)@),
            final(self)@ == spec_after_step(old(self)@),
            s == spec_step(old(self)@),
    {
        if self.docs.len() > 0 {
            let d = self.docs.remove(0);
            self.start = self.start + 1;
            Step::Ready(d)
        } else {
            let done = if self.start > 0 && self.start >= self.num_found {
                true
            } else {
                match self.limit {
                    Some(l) => self.start >= l,
                    None => false,
                }
            };
            if done {
                Step::Finished
            } else {
                Step::Fetch { start: self.start, rows: self.page_size() }
            }
        }
    }

    /// Hands a fetched page back to the iterator. The server's total is
    /// re-read from every page, the cursor moves to just past the first
    /// returned document, and the page refills the buffer. Returns the
    /// page's first document, or `None` for an empty page, which ends the
    /// sequence.
    pub fn feed_page(&mut self, page: Response<D>) -> (first: Option<D>)
        requires
            iter_wf(old(self)@),
            page@.start + page@.docs.len() < u64::MAX,
        ensures
            iter_wf(final(self)@),
            final(self)@ == spec_after_feed(old(self)@, page@),
            first == spec_feed_result(page@),
    {
        self.num_found = page.num_found;
        self.start = page.start + 1;
        self.docs = page.docs;
        if self.docs.len() > 0 {
            Some(self.docs.remove(0))
        } else {
            None
        }
    }
}

// ---------------------------------------------------------------------
// Decoding the search envelope. The JSON mechanics stay behind the
// trusted boundary in `crate::json`; the three-way distinction between a
// page, a server-reported rejection and a malformed envelope is decided
// here, in verified code.
// ---------------------------------------------------------------------
/// The server-reported rejection in an envelope, when there is one: the
/// string at `error.msg`.
pub open spec fn spec_envelope_error(body: Seq<char>) -> Option<Seq<char>> {
    match crate::json::json_of_text(body) {
        None => None,
        Some(v) => match crate::json::json_member(v, "error"@) {
            None => None,
            Some(e) => match crate::json::json_member(e, "msg"@) {
                None => None,
                Some(m) => crate::json::json_string(m),
            },
        },
    }
}

/// The page carried by an envelope, when its `response` member has the
/// expected shape: `numFound` and `start` as unsigned numbers and `docs`
/// as an array, whose elements stay opaque JSON values.
pub open spec fn spec_envelope_page(body: Seq<char>) -> Option<PageView<serde_json::Value>> {
    match crate::json::json_of_text(body) {
        None => None,
        Some(v) => match crate::json::json_member(v, "response"@) {
            None => None,
            Some(resp) => {
                let nf = match crate::json::json_member(resp, "numFound"@) {
                    Some(x) => crate::json::json_uint(x),
                    None => None,
                };
                let st = match crate::json::json_member(resp, "start"@) {
                    Some(x) => crate::json::json_uint(x),
                    None => None,
                };
                let ds = match crate::json::json_member(resp, "docs"@) {
                    Some(x) => crate::json::json_items(x),
                    None => None,
                };
                if nf is Some && st is Some && ds is Some {
                    Some(
                        PageView {
                            num_found: nf.unwrap(),
                            start: st.unwrap(),
                            docs: ds.unwrap(),
                        },
                    )
                } else {
                    None
                }
            },
        },
    }
}

/// Decodes one search response body, distinguishing the three outcomes:
/// a page, a server-reported rejection carrying the server's own message
/// (`AdsError::Ads`), or a malformed envelope (`AdsError::Json`). The
/// three cases are mutually exclusive and cover every body.
pub fn parse_search_page(body: &str) -> (r: Result<Response<serde_json::Value>, AdsError>)
    ensures
        r matches Ok(p) ==> spec_envelope_error(body@) is None && spec_envelope_page(body@)
            == Some(p@),
        r matches Err(e) ==> match e {
            AdsError::Ads(m) => spec_envelope_error(body@) == Some(m@),
            AdsError::Json(_) => spec_envelope_error(body@) is None && spec_envelope_page(body@)
                is None,
            _ => false,
        },
{
    let v = match crate::json::parse_value(body) {
        Ok(v) => v,
        Err(e) => {
            return Err(AdsError::Json(crate::json::error_text(&e)));
        },
    };
    if let Some(error_v) = crate::json::value_member(&v, "error") {
        if let Some(msg_v) = crate::json::value_member(error_v, "msg") {
            if let Some(msg) = crate::json::value_string(msg_v) {
                return Err(AdsError::Ads(msg.to_owned()));
            }
        }
    }
    let resp = match crate::json::value_member(&v, "response") {
        Some(r) => r,
        None => {
            return Err(AdsError::Json(String::from_str("missing response object")));
        },
    };
    let num_found = match crate::json::value_member(resp, "numFound") {
        Some(x) => match x.as_u64() {
            Some(n) => n,
            None => {
                return Err(AdsError::Json(String::from_str("numFound is not an unsigned number")));
            },
        },
        None => {
            return Err(AdsError::Json(String::from_str("missing numFound")));
        },
    };
    let start = match crate::json::value_member(resp, "start") {
        Some(x) => match x.as_u64() {
            Some(n) => n,
            None => {
                return Err(AdsError::Json(String::from_str("start is not an unsigned number")));
            },
        },
        None => {
            return Err(AdsError::Json(String::from_str("missing start")));
        },
    };
    let items = match crate::json::value_member(resp, "docs") {
        Some(x) => match crate::json::value_items(x) {
            Some(items) => items,
            None => {
                return Err(AdsError::Json(String::from_str("docs is not an array")));
            },
        },
        None => {
            return Err(AdsError::Json(String::from_str("missing docs")));
        },
    };
    let mut docs: Vec<serde_json::Value> = Vec::new();
    let mut i: usize = 0;
    while i < items.len()
        invariant
            i <= items@.len(),
            docs@ =~= items@.take(i as int),
        decreases items@.len() - i,
    {
        docs.push(items[i].clone());
        i += 1;
    }
    proof {
        assert(docs@ =~= items@);
    }
    Ok(Response { num_found, start, docs })
}

// ---------------------------------------------------------------------
// The drain model: what repeatedly advancing an iterator against a
// deterministic backend produces. The laws below are stated over the very
// transition functions (`spec_step`, `spec_after_step`, `spec_after_feed`)
// that the executable `next_step` and `feed_page` are proved to implement,
// so they describe every driver that follows the iterator protocol.
// ---------------------------------------------------------------------
/// Integer ceiling division: the least `k` with `k * b >= a`.
pub open spec fn ceil_div(a: nat, b: nat) -> nat
    recommends
        b > 0,
{
    (((a + b - 1) as int) / (b as int)) as nat
}

proof fn lemma_ceil_div_zero(b: nat)
    requires
        1 <= b,
    ensures
        ceil_div(0, b) == 0,
{
    vstd::arithmetic::div_mod::lemma_basic_div(b as int - 1, b as int);
}

proof fn lemma_ceil_div_step(a: nat, b: nat)
    requires
        1 <= a,
        1 <= b,
    ensures
        ceil_div(a, b) == 1 + ceil_div(
            if a < b {
                0nat
            } else {
                (a - b) as nat
            },
            b,
        ),
{
    vstd::arithmetic::div_mod::lemma_div_plus_one(a as int - 1, b as int);
    if a < b {
        vstd::arithmetic::div_mod::lemma_basic_div(a as int - 1, b as int);
        vstd::arithmetic::div_mod::lemma_basic_div(b as int - 1, b as int);
    }
}

/// What a deterministic backend holding `docs` serves for one request: at
/// most `rows` documents from offset `start`, further capped by the
/// backend's own fixed page size, and always the authoritative total.
pub open spec fn backend_page<D>(docs: Seq<D>, cap: u64, start: u64, rows: u64) -> PageView<D> {
    let n = docs.len() as int;
    let s = if start <= n {
        start as int
    } else {
        n
    };
    let want = if rows <= cap {
        rows as int
    } else {
        cap as int
    };
    let e = if s + want <= n {
        s + want
    } else {
        n
    };
    PageView { num_found: docs.len() as u64, start, docs: docs.subrange(s, e) }
}

/// The outcome of repeatedly advancing an iterator against such a
/// backend: the documents yielded in order, the number of page requests
/// performed, and whether the sequence finished within `fuel` requests.
pub struct DrainView<D> {
    pub yielded: Seq<D>,
    pub requests: nat,
    pub complete: bool,
}

/// Runs the iterator protocol to completion against the backend: each
/// advance follows [`spec_step`], and each `Fetch` is answered with
/// [`backend_page`] and folded in as [`spec_after_feed`] does. `fuel`
/// bounds the number of requests only, so that the recursion is visibly
/// finite; the laws show that a small finite fuel always suffices.
pub open spec fn spec_drain<D>(
    m: SearchIterView<D>,
    docs: Seq<D>,
    cap: u64,
    fuel: nat,
) -> DrainView<D>
    decreases fuel, m.buffered.len(),
{
    if m.buffered.len() > 0 {
        let rest = spec_drain(spec_after_step(m), docs, cap, fuel);
        DrainView {
            yielded: seq![m.buffered[0]] + rest.yielded,
            requests: rest.requests,
            complete: rest.complete,
        }
    } else if spec_done(m) {
        DrainView { yielded: Seq::empty(), requests: 0, complete: true }
    } else if fuel == 0 {
        DrainView { yielded: Seq::empty(), requests: 0, complete: false }
    } else {
        let p = backend_page(docs, cap, m.cursor, spec_page_size(m));
        let m2 = spec_after_feed(m, p);
        if p.docs.len() == 0 {
            DrainView { yielded: Seq::empty(), requests: 1, complete: true }
        } else {
            let rest = spec_drain(m2, docs, cap, (fuel - 1) as nat);
            DrainView {
                yielded: seq![p.docs[0]] + rest.yielded,
                requests: rest.requests + 1,
                complete: rest.complete,
            }
        }
    }
}

/// How many documents a full drain yields: everything the backend holds,
/// cut to the caller's limit.
pub open spec fn drain_target<D>(m: SearchIterView<D>, docs: Seq<D>) -> int {
    match m.limit {
        Some(l) => if (l as int) < docs.len() {
            l as int
        } else {
            docs.len() as int
        },
        None => docs.len() as int,
    }
}

proof fn lemma_drain_from_boundary<D>(m: SearchIterView<D>, docs: Seq<D>, cap: u64, fuel: nat)
    requires
        m.buffered.len() == 0,
        m.query.rows is None,
        1 <= cap <= MAX_ROWS,
        docs.len() < u64::MAX,
        0 <= m.cursor <= drain_target(m, docs),
        m.cursor == 0 ==> m.num_found == 0,
        m.cursor > 0 ==> m.num_found == docs.len(),
        fuel >= ceil_div((drain_target(m, docs) - m.cursor) as nat, cap as nat) + 1,
    ensures
        ({
            let t = drain_target(m, docs);
            let d = spec_drain(m, docs, cap, fuel);
            &&& d.yielded == docs.subrange(m.cursor as int, t)
            &&& d.requests == (if m.cursor == t {
                if spec_done(m) {
                    0nat
                } else {
                    1nat
                }
            } else {
                ceil_div((t - m.cursor) as nat, cap as nat)
            })
            &&& d.complete
        }),
    decreases drain_target(m, docs) - m.cursor,
{
    let t = drain_target(m, docs);
    let n = docs.len() as int;
    let c = m.cursor as int;
    let b = cap as int;
    lemma_ceil_div_zero(cap as nat);
    if c == t {
        if spec_done(m) {
            assert(docs.subrange(c, t) =~= Seq::<D>::empty());
        } else {
            // Not done at the boundary only happens before anything was
            // fetched: the probe request comes back empty and ends the
            // sequence after exactly one request.
            assert(c == n);
            let p = backend_page(docs, cap, m.cursor, spec_page_size(m));
            assert(p.docs =~= Seq::<D>::empty());
            assert(docs.subrange(c, t) =~= Seq::<D>::empty());
        }
    } else {
        // Below the target the iterator is never done and the backend
        // always returns at least one document.
        assert(!spec_done(m));
        let p = backend_page(docs, cap, m.cursor, spec_page_size(m));
        let rows_req = spec_page_size(m) as int;
        let want = if rows_req <= b {
            rows_req
        } else {
            b
        };
        let e = if c + want <= n {
            c + want
        } else {
            n
        };
        assert(p.docs == docs.subrange(c, e));
        let d = e - c;
        assert(d == if b <= t - c {
            b
        } else {
            t - c
        });
        assert(1 <= d);
        let m2 = spec_after_feed(m, p);
        assert(m2.cursor == c + 1);
        assert(m2.buffered =~= docs.subrange(c + 1, e));
        assert(drain_target(m2, docs) == t);
        lemma_ceil_div_step((t - c) as nat, cap as nat);
        if d == 1 {
            lemma_drain_from_boundary(m2, docs, cap, (fuel - 1) as nat);
        } else {
            lemma_drain_with_buffer(m2, docs, cap, (fuel - 1) as nat);
        }
        let rest = spec_drain(m2, docs, cap, (fuel - 1) as nat);
        assert(rest.yielded == docs.subrange(c + 1, t));
        assert(seq![p.docs[0]] + rest.yielded =~= docs.subrange(c, t));
        if d == 1 && c + 1 == t {
            assert(spec_done(m2));
        }
    }
}

proof fn lemma_drain_with_buffer<D>(m: SearchIterView<D>, docs: Seq<D>, cap: u64, fuel: nat)
    requires
        m.query.rows is None,
        1 <= cap <= MAX_ROWS,
        docs.len() < u64::MAX,
        m.num_found == docs.len(),
        1 <= m.buffered.len(),
        m.cursor + m.buffered.len() <= drain_target(m, docs),
        m.buffered == docs.subrange(m.cursor as int, m.cursor + m.buffered.len()),
        fuel >= ceil_div(
            (drain_target(m, docs) - m.cursor - m.buffered.len()) as nat,
            cap as nat,
        ) + 1,
    ensures
        ({
            let t = drain_target(m, docs);
            let d = spec_drain(m, docs, cap, fuel);
            &&& d.yielded == docs.subrange(m.cursor as int, t)
            &&& d.requests == (if m.cursor + m.buffered.len() == t {
                0nat
            } else {
                ceil_div((t - m.cursor - m.buffered.len()) as nat, cap as nat)
            })
            &&& d.complete
        }),
    decreases drain_target(m, docs) - m.cursor,
{
    let t = drain_target(m, docs);
    let c = m.cursor as int;
    let k = m.buffered.len() as int;
    assert(m.buffered[0] == docs[c]);
    let m1 = spec_after_step(m);
    assert(m1.cursor == c + 1);
    assert(m1.buffered =~= docs.subrange(c + 1, c + k));
    assert(drain_target(m1, docs) == t);
    if k == 1 {
        lemma_drain_from_boundary(m1, docs, cap, fuel);
        if c + 1 == t {
            assert(spec_done(m1));
        }
    } else {
        lemma_drain_with_buffer(m1, docs, cap, fuel);
    }
    let rest = spec_drain(m1, docs, cap, fuel);
    assert(rest.yielded == docs.subrange(c + 1, t));
    assert(seq![m.buffered[0]] + rest.yielded =~= docs.subrange(c, t));
}

/// Pagination totality: against a deterministic backend holding `docs`
/// with a fixed page size `cap`, draining a fresh, unlimited iterator
/// yields exactly the backend's documents, in ascending offset order,
/// using exactly `ceil(len / cap)` requests. (A backend holding nothing
/// still costs one probe request: see [`lemma_zero_results`].)
pub proof fn lemma_pagination_totality<D>(q: SearchView, docs: Seq<D>, cap: u64, fuel: nat)
    requires
        q.rows is None,
        q.start is None,
        1 <= cap <= MAX_ROWS,
        1 <= docs.len() < u64::MAX,
        fuel >= ceil_div(docs.len(), cap as nat) + 1,
    ensures
        ({
            let d = spec_drain(spec_iter_of::<D>(q), docs, cap, fuel);
            &&& d.yielded == docs
            &&& d.requests == ceil_div(docs.len(), cap as nat)
            &&& d.complete
        }),
{
    let m = spec_iter_of::<D>(q);
    lemma_drain_from_boundary(m, docs, cap, fuel);
    assert(docs.subrange(0, docs.len() as int) =~= docs);
}

/// Pagination with a limit below the total: draining yields exactly the
/// first `l` documents and performs the minimum number of requests that
/// can produce them, `ceil(l / cap)`.
pub proof fn lemma_pagination_with_limit<D>(
    q: SearchView,
    docs: Seq<D>,
    cap: u64,
    l: u64,
    fuel: nat,
)
    requires
        q.rows is None,
        q.start is None,
        1 <= cap <= MAX_ROWS,
        docs.len() < u64::MAX,
        1 <= l,
        (l as int) < docs.len(),
        fuel >= ceil_div(l as nat, cap as nat) + 1,
    ensures
        ({
            let m = SearchIterView { limit: Some(l), ..spec_iter_of::<D>(q) };
            let d = spec_drain(m, docs, cap, fuel);
            &&& d.yielded == docs.subrange(0, l as int)
            &&& d.requests == ceil_div(l as nat, cap as nat)
            &&& d.complete
        }),
{
    let m = SearchIterView { limit: Some(l), ..spec_iter_of::<D>(q) };
    lemma_drain_from_boundary(m, docs, cap, fuel);
}

/// Zero-result boundary: a backend holding nothing yields an empty
/// sequence after exactly one request — the total is unknown until one
/// response arrives, so the first page is always fetched.
pub proof fn lemma_zero_results<D>(q: SearchView, cap: u64, fuel: nat)
    requires
        q.rows is None,
        q.start is None,
        1 <= cap <= MAX_ROWS,
        1 <= fuel,
    ensures
        ({
            let d = spec_drain(spec_iter_of::<D>(q), Seq::<D>::empty(), cap, fuel);
            &&& d.yielded == Seq::<D>::empty()
            &&& d.requests == 1
            &&& d.complete
        }),
{
    let m = spec_iter_of::<D>(q);
    lemma_ceil_div_zero(cap as nat);
    lemma_drain_from_boundary(m, Seq::<D>::empty(), cap, fuel);
}

/// Pages are requested in strictly increasing offset order, one at a
/// time: a request is only ever issued at the current cursor (see
/// [`spec_step`]), advancing consumes no request, and folding in the
/// fetched page moves the cursor strictly past the offset it was
/// requested at — so no later request can repeat or precede an earlier
/// one.
pub proof fn lemma_offsets_strictly_increase<D>(m: SearchIterView<D>, p: PageView<D>)
    requires
        p.start == m.cursor,
        m.cursor < u64::MAX,
    ensures
        spec_step(m) matches Step::Fetch { start, rows } ==> start == m.cursor,
        spec_after_step(m).cursor >= m.cursor,
        spec_after_feed(m, p).cursor > m.cursor,
{
}

/// A limit of zero ends the sequence before anything is requested: no
/// page request at all, whatever the backend holds.
pub proof fn lemma_limit_zero_no_requests<D>(q: SearchView, docs: Seq<D>, cap: u64, fuel: nat)
    requires
        q.rows is None,
        q.start is None,
        1 <= cap <= MAX_ROWS,
        docs.len() < u64::MAX,
    ensures
        ({
            let m = SearchIterView { limit: Some(0), ..spec_iter_of::<D>(q) };
            let d = spec_drain(m, docs, cap, fuel);
            &&& d.yielded == Seq::<D>::empty()
            &&& d.requests == 0
            &&& d.complete
        }),
{
    let m = SearchIterView { limit: Some(0u64), ..spec_iter_of::<D>(q) };
    assert(spec_done(m));
}

} // verus!
