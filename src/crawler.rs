//! Paging of the issue crawl.
//!
//! The crawl walks a repository's issues page by page, newest first, fetches
//! each issue's comments, and marks the last item of every page so that the
//! consumer can checkpoint whole pages. It ends when a page's `Link` header
//! names no next page.
use vstd::prelude::*;
use crate::text::{decimal_of, i64_to_string};

verus! {

/// A comment as the crawl fetches it.
#[derive(Clone, Debug)]
pub struct Comment {
    pub body: String,
    pub id: i64,
    pub url: String,
}

/// An issue as the listing returns it.
#[derive(Clone, Debug)]
pub struct Issue {
    pub body: String,
    pub comments_url: String,
    pub html_url: String,
    pub id: i64,
    pub number: i32,
    pub is_pull_request: bool,
    pub title: String,
    pub url: String,
}

/// An issue together with its comments, oldest first.
#[derive(Clone, Debug)]
pub struct IssueWithComments {
    pub body: String,
    pub comments: Vec<Comment>,
    pub html_url: String,
    pub id: i64,
    pub is_pull_request: bool,
    pub number: i32,
    pub title: String,
    pub url: String,
}

impl IssueWithComments {
    pub fn new(issue: Issue, comments: Vec<Comment>) -> (r: Self)
        ensures
            r.body == issue.body,
            r.comments == comments,
            r.html_url == issue.html_url,
            r.id == issue.id,
            r.is_pull_request == issue.is_pull_request,
            r.number == issue.number,
            r.title == issue.title,
            r.url == issue.url,
    {
        IssueWithComments {
            body: issue.body,
            comments,
            html_url: issue.html_url,
            id: issue.id,
            is_pull_request: issue.is_pull_request,
            number: issue.number,
            title: issue.title,
            url: issue.url,
        }
    }
}

/// A `, ` separator starts at `i`.
pub open spec fn sep_at(s: Seq<char>, i: int) -> bool {
    0 <= i && i + 1 < s.len() && s[i] == ',' && s[i + 1] == ' '
}

/// End of the part that starts at `i`: the next separator, or the end.
pub open spec fn part_end(s: Seq<char>, i: int) -> int
    decreases s.len() - i,
{
    if i >= s.len() {
        s.len() as int
    } else if sep_at(s, i) {
        i
    } else {
        part_end(s, i + 1)
    }
}

pub open spec fn rel_next() -> Seq<char> {
    "rel=\"next\""@
}

pub open spec fn occurs_at(s: Seq<char>, k: int, pat: Seq<char>) -> bool {
    0 <= k && k + pat.len() <= s.len() && s.subrange(k, k + pat.len()) == pat
}

pub open spec fn has_next_rel(part: Seq<char>) -> bool {
    exists|k: int| occurs_at(part, k, rel_next())
}

/// The characters before the first `>`.
pub open spec fn until_gt(p: Seq<char>) -> Seq<char>
    decreases p.len(),
{
    if p.len() == 0 || p[0] == '>' {
        Seq::empty()
    } else {
        seq![p[0]] + until_gt(p.drop_first())
    }
}

/// The URL of a part `<url>; rel="..."`: what follows its first character, up
/// to the closing `>`.
pub open spec fn link_target(part: Seq<char>) -> Seq<char> {
    if part.len() == 0 {
        part
    } else {
        until_gt(part.drop_first())
    }
}

/// The target of the first part, from `i` on, that has `rel="next"`.
pub open spec fn next_link_from(s: Seq<char>, i: int) -> Option<Seq<char>>
    decreases s.len() - i,
{
    if i < 0 || i > s.len() {
        None
    } else {
        let e = part_end(s, i);
        let part = s.subrange(i, e);
        if has_next_rel(part) {
            Some(link_target(part))
        } else if e + 2 > s.len() || e < i {
            None
        } else {
            next_link_from(s, e + 2)
        }
    }
}

pub open spec fn header_view(h: Option<&str>) -> Option<Seq<char>> {
    match h {
        Some(s) => Some(s@),
        None => None,
    }
}

/// The next page that a `Link` header announces, if any.
pub open spec fn next_page_link(header: Option<Seq<char>>) -> Option<Seq<char>> {
    match header {
        Some(h) => next_link_from(h, 0),
        None => None,
    }
}

proof fn lemma_part_end_bounds(s: Seq<char>, i: int)
    requires
        0 <= i <= s.len(),
    ensures
        i <= part_end(s, i) <= s.len(),
        part_end(s, i) < s.len() ==> sep_at(s, part_end(s, i)),
    decreases s.len() - i,
{
    if i < s.len() && !sep_at(s, i) {
        lemma_part_end_bounds(s, i + 1);
    }
}

proof fn lemma_until_gt(p: Seq<char>, g: int)
    requires
        0 <= g <= p.len(),
        forall|j: int| 0 <= j < g ==> p[j] != '>',
        g == p.len() || p[g] == '>',
    ensures
        until_gt(p) == p.subrange(0, g),
    decreases p.len(),
{
    if p.len() == 0 || p[0] == '>' {
        assert(p.subrange(0, g) =~= Seq::<char>::empty());
    } else {
        lemma_until_gt(p.drop_first(), g - 1);
        assert(seq![p[0]] + p.drop_first().subrange(0, g - 1) =~= p.subrange(0, g));
    }
}

fn sep_at_exec(h: &str, n: usize, i: usize) -> (r: bool)
    requires
        n == h@.len(),
    ensures
        r == sep_at(h@, i as int),
{
    i < n && i + 1 < n && h.get_char(i) == ',' && h.get_char(i + 1) == ' '
}

fn find_part_end(h: &str, n: usize, i: usize) -> (e: usize)
    requires
        n == h@.len(),
        i <= n,
    ensures
        e == part_end(h@, i as int),
{
    let mut e = i;
    while e < n && !sep_at_exec(h, n, e)
        invariant
            n == h@.len(),
            i <= e <= n,
            part_end(h@, i as int) == part_end(h@, e as int),
        decreases n - e,
    {
        e = e + 1;
    }
    e
}

/// Whether `pat` occurs in `h` between `i` and `e`.
fn occurs_between(h: &str, n: usize, i: usize, e: usize, pat: &str) -> (r: bool)
    requires
        n == h@.len(),
        i <= e <= n,
    ensures
        r == exists|k: int| occurs_at(h@.subrange(i as int, e as int), k, pat@),
{
    let ghost part = h@.subrange(i as int, e as int);
    let m = pat.unicode_len();
    if m > e - i {
        assert forall|k: int| !occurs_at(part, k, pat@) by {}
        return false;
    }
    let mut k: usize = i;
    while k <= e - m
        invariant
            n == h@.len(),
            i <= k <= e,
            i <= e <= n,
            m == pat@.len(),
            m <= e - i,
            part == h@.subrange(i as int, e as int),
            forall|q: int| 0 <= q < k - i ==> !occurs_at(part, q, pat@),
        decreases e - k,
    {
        let mut j: usize = 0;
        let mut same = true;
        while j < m
            invariant
                n == h@.len(),
                k + m <= e <= n,
                m == pat@.len(),
                j <= m,
                same == forall|x: int| 0 <= x < j ==> h@[k + x] == pat@[x],
            decreases m - j,
        {
            if h.get_char(k + j) != pat.get_char(j) {
                same = false;
            }
            j = j + 1;
        }
        let ghost q = k - i;
        if same {
            assert(part.subrange(q, q + m) =~= pat@);
            assert(occurs_at(part, q, pat@));
            return true;
        }
        assert(!occurs_at(part, q, pat@)) by {
            if part.subrange(q, q + m) == pat@ {
                let x = choose|x: int| 0 <= x < m && h@[k + x] != pat@[x];
                assert(part.subrange(q, q + m)[x] == h@[k + x]);
            }
        }
        k = k + 1;
    }
    assert forall|q: int| !occurs_at(part, q, pat@) by {
        if 0 <= q && q + m <= part.len() {
            assert(q < k - i);
        }
    }
    false
}

/// Parses a `Link` header (`<url>; rel="next", <url>; rel="last"`) for the
/// URL of the next page.
pub fn get_next_page(link_header: Option<&str>) -> (r: Option<String>)
    ensures
        match r {
            Some(u) => next_page_link(header_view(link_header)) == Some(u@),
            None => next_page_link(header_view(link_header)) is None,
        },
{
    let h = match link_header {
        Some(h) => h,
        None => {
            return None;
        },
    };
    assert(next_page_link(header_view(link_header)) == next_link_from(h@, 0));
    let n = h.unicode_len();
    let pat = "rel=\"next\"";
    let mut i: usize = 0;
    while i <= n
        invariant
            n == h@.len(),
            next_link_from(h@, 0) == next_link_from(h@, i as int),
            next_page_link(header_view(link_header)) == next_link_from(h@, 0),
            pat@ == rel_next(),
        decreases n + 1 - i,
    {
        let e = find_part_end(h, n, i);
        proof {
            lemma_part_end_bounds(h@, i as int);
        }
        if occurs_between(h, n, i, e, pat) {
            let ghost part = h@.subrange(i as int, e as int);
            if i == e {
                proof {
                    let k = choose|k: int| occurs_at(part, k, pat@);
                    reveal_strlit("rel=\"next\"");
                }
                return Some(String::new());
            }
            let mut g = i + 1;
            while g < e && h.get_char(g) != '>'
                invariant
                    n == h@.len(),
                    i + 1 <= g <= e <= n,
                    forall|j: int| i + 1 <= j < g ==> h@[j] != '>',
                decreases e - g,
            {
                g = g + 1;
            }
            proof {
                let p = part.drop_first();
                assert forall|j: int| 0 <= j < g - i - 1 implies p[j] != '>' by {
                    assert(p[j] == h@[i + 1 + j]);
                }
                if g < e {
                    assert(p[g - i - 1] == h@[g as int]);
                }
                lemma_until_gt(p, g - i - 1);
                assert(p.subrange(0, g - i - 1) =~= h@.subrange(i + 1, g as int));
            }
            let target = h.substring_char(i + 1, g);
            return Some(String::from_str(target));
        }
        if e >= n {
            return None;
        }
        assert(sep_at(h@, e as int));
        i = e + 2;
    }
    None
}

/// Query of one page of the issue listing: issues and pull requests in every
/// state, newest first, a full page of them.
pub fn issues_query(page: i32) -> (r: Vec<(&'static str, String)>)
    ensures
        r@.len() == 4,
        r@[0].0@ == "state"@ && r@[0].1@ == "all"@,
        r@[1].0@ == "direction"@ && r@[1].1@ == "desc"@,
        r@[2].0@ == "page"@ && r@[2].1@ == decimal_of(page as int),
        r@[3].0@ == "per_page"@ && r@[3].1@ == "100"@,
{
    let mut r: Vec<(&'static str, String)> = Vec::new();
    r.push(("state", String::from_str("all")));
    r.push(("direction", String::from_str("desc")));
    r.push(("page", i64_to_string(page as i64)));
    r.push(("per_page", String::from_str("100")));
    r
}

/// Query of an issue's comments: oldest first.
pub fn comments_query() -> (r: Vec<(&'static str, String)>)
    ensures
        r@.len() == 1,
        r@[0].0@ == "direction"@ && r@[0].1@ == "asc"@,
{
    let mut r: Vec<(&'static str, String)> = Vec::new();
    r.push(("direction", String::from_str("asc")));
    r
}

/// The page a completed item belongs to, when it is the last of its page.
pub open spec fn page_marker(i: int, n: int, page: i32) -> Option<i32> {
    if i + 1 == n {
        Some(page)
    } else {
        None
    }
}

#[derive(Clone, Copy, Debug, PartialEq, Eq, Structural)]
pub enum CrawlStage {
    ListPage,
    FetchComments,
    HandleItem,
    Finished,
    Aborted,
}

/// What the crawl asks for next.
#[derive(Clone, Copy, Debug, PartialEq, Eq, Structural)]
pub enum CrawlStep {
    /// List this page of issues.
    ListPage(i32),
    /// Fetch the comments of the issue at this position of the page.
    FetchComments(usize),
    /// Hand the issue at `index`, with its comments, to the consumer; `page`
    /// is set on the last issue of the page.
    HandleItem { index: usize, page: Option<i32> },
    /// The crawl is over: `completed` when it reached the last page, false
    /// when it was aborted.
    Done { completed: bool },
}

/// What happened to the last step.
#[derive(Clone, Debug)]
pub enum CrawlReport {
    /// The page was listed: its number of issues and its `Link` header.
    Listed { count: usize, link: Option<String> },
    /// The comments were fetched.
    Fetched,
    /// The consumer handled the item and the job goes on.
    Handled,
    /// The request failed, or the consumer stopped the job.
    Failed,
}

/// Position of the crawl: the page, its number of issues, the current issue,
/// and whether a next page was announced.
#[derive(Clone, Copy, Debug)]
pub struct Crawl {
    pub page: i32,
    pub count: usize,
    pub index: usize,
    pub more: bool,
    pub stage: CrawlStage,
}

/// After the last issue of a page: the next page when one was announced
/// (and its number does not overflow), else the end.
pub open spec fn after_page(c: Crawl, more: bool) -> Crawl {
    if more && c.page < i32::MAX {
        Crawl { page: (c.page + 1) as i32, count: 0, index: 0, more: false, stage: CrawlStage::ListPage }
    } else {
        Crawl { more, stage: CrawlStage::Finished, ..c }
    }
}

/// Any failure aborts the crawl; the checkpoint stays at the last completed page.
pub open spec fn next_crawl(c: Crawl, r: CrawlReport) -> Crawl {
    match (c.stage, r) {
        (CrawlStage::ListPage, CrawlReport::Listed { count, link }) => {
            let more = next_page_link(match link {
                Some(l) => Some(l@),
                None => None,
            }) is Some;
            if count == 0 {
                after_page(Crawl { count: 0, index: 0, ..c }, more)
            } else {
                Crawl { count, index: 0, more, stage: CrawlStage::FetchComments, ..c }
            }
        },
        (CrawlStage::FetchComments, CrawlReport::Fetched) => Crawl { stage: CrawlStage::HandleItem, ..c },
        (CrawlStage::HandleItem, CrawlReport::Handled) => if c.index + 1 < c.count {
            Crawl { index: (c.index + 1) as usize, stage: CrawlStage::FetchComments, ..c }
        } else {
            after_page(c, c.more)
        },
        (CrawlStage::Finished, _) => c,
        (CrawlStage::Aborted, _) => c,
        _ => Crawl { stage: CrawlStage::Aborted, ..c },
    }
}

pub open spec fn step_of(c: Crawl) -> CrawlStep {
    match c.stage {
        CrawlStage::ListPage => CrawlStep::ListPage(c.page),
        CrawlStage::FetchComments => CrawlStep::FetchComments(c.index),
        CrawlStage::HandleItem => CrawlStep::HandleItem {
            index: c.index,
            page: page_marker(c.index as int, c.count as int, c.page),
        },
        CrawlStage::Finished => CrawlStep::Done { completed: true },
        CrawlStage::Aborted => CrawlStep::Done { completed: false },
    }
}

impl Crawl {
    /// A crawl that starts by listing `from_page`.
    pub fn new(from_page: i32) -> (r: (Self, CrawlStep))
        ensures
            r.0 == (Crawl { page: from_page, count: 0, index: 0, more: false, stage: CrawlStage::ListPage }),
            r.1 == step_of(r.0),
    {
        let c = Crawl { page: from_page, count: 0, index: 0, more: false, stage: CrawlStage::ListPage };
        (c, c.step())
    }

    pub fn step(&self) -> (r: CrawlStep)
        ensures
            r == step_of(*self),
    {
        match self.stage {
            CrawlStage::ListPage => CrawlStep::ListPage(self.page),
            CrawlStage::FetchComments => CrawlStep::FetchComments(self.index),
            CrawlStage::HandleItem => CrawlStep::HandleItem {
                index: self.index,
                page: if self.index < self.count && self.index + 1 == self.count {
                    Some(self.page)
                } else {
                    None
                },
            },
            CrawlStage::Finished => CrawlStep::Done { completed: true },
            CrawlStage::Aborted => CrawlStep::Done { completed: false },
        }
    }

    fn end_of_page(&mut self, more: bool)
        ensures
            *final(self) == after_page(*old(self), more),
    {
        if more && self.page < i32::MAX {
            *self = Crawl { page: self.page + 1, count: 0, index: 0, more: false, stage: CrawlStage::ListPage };
        } else {
            self.more = more;
            self.stage = CrawlStage::Finished;
        }
    }

    /// Takes the report of the last step and names the next one.
    pub fn advance(&mut self, report: CrawlReport) -> (r: CrawlStep)
        ensures
            *final(self) == next_crawl(*old(self), report),
            r == step_of(*final(self)),
    {
        match (self.stage, report) {
            (CrawlStage::ListPage, CrawlReport::Listed { count, link }) => {
                let more = match link {
                    Some(l) => get_next_page(Some(l.as_str())).is_some(),
                    None => false,
                };
                if count == 0 {
                    self.count = 0;
                    self.index = 0;
                    self.end_of_page(more);
                } else {
                    self.count = count;
                    self.index = 0;
                    self.more = more;
                    self.stage = CrawlStage::FetchComments;
                }
            },
            (CrawlStage::FetchComments, CrawlReport::Fetched) => {
                self.stage = CrawlStage::HandleItem;
            },
            (CrawlStage::HandleItem, CrawlReport::Handled) => {
                if self.index < self.count && self.index + 1 < self.count {
                    self.index = self.index + 1;
                    self.stage = CrawlStage::FetchComments;
                } else {
                    let more = self.more;
                    self.end_of_page(more);
                }
            },
            (CrawlStage::Finished, _) => {},
            (CrawlStage::Aborted, _) => {},
            _ => {
                self.stage = CrawlStage::Aborted;
            },
        }
        self.step()
    }
}

} // verus!
