use vstd::prelude::*;

use crate::document::{open_request, OpenRequest};
use crate::error::PdfError;
use crate::util::CanonicalPath;

verus! {

/// Where a render run stands.
#[derive(Debug)]
pub enum RunState {
    /// The document open has been asked for.
    Opening,
    /// Pages `0..next` have been emitted, page `next` is being rendered; the
    /// page count stays fixed for the rest of the run.
    Rendering { page_count: usize, next: usize },
    /// Every page was emitted and the surface is finalized.
    Finished { pages: usize },
    /// The run stopped on an error; nothing more happens.
    Failed,
}

/// What the driver of the run reports back after carrying out an action.
#[derive(Debug)]
pub enum Event {
    /// The document opened; the engine's raw page count.
    Opened { raw_page_count: i32 },
    /// The document open failed.
    OpenFailed(PdfError),
    /// The page asked for was found and emitted to the surface.
    PageRendered,
    /// The page asked for gave no page handle.
    PageMissing,
}

/// What the driver of the run is to do next.
#[derive(Debug)]
pub enum Action {
    /// Open the document.
    Open(OpenRequest),
    /// Look the page up, query its size, and carry out `page_ops` for it.
    RenderPage(usize),
    /// Finalize the output surface.
    Finish,
    /// Report the error and stop.
    Report(PdfError),
    /// Nothing: the run is over.
    Idle,
}

/// One call on the drawing context or the output surface.
#[derive(Debug)]
pub enum SurfaceOp {
    Save,
    Render(usize),
    Restore,
    ShowPage(usize),
}

/// The calls that emit one page: its rendering stands between a save and a
/// restore of the drawing state, so nothing it changes there reaches the
/// next page, and the page is emitted after the restore.
pub open spec fn page_ops_of(index: usize) -> Seq<SurfaceOp> {
    seq![SurfaceOp::Save, SurfaceOp::Render(index), SurfaceOp::Restore, SurfaceOp::ShowPage(index)]
}

/// The step of a run on one event.
pub open spec fn step(s: RunState, e: Event) -> (RunState, Action) {
    match s {
        RunState::Opening => match e {
            Event::Opened { raw_page_count } => {
                let n = raw_page_count as usize;
                if n == 0 {
                    (RunState::Finished { pages: 0 }, Action::Finish)
                } else {
                    (RunState::Rendering { page_count: n, next: 0 }, Action::RenderPage(0))
                }
            },
            Event::OpenFailed(err) => (RunState::Failed, Action::Report(err)),
            _ => (RunState::Opening, Action::Idle),
        },
        RunState::Rendering { page_count, next } => match e {
            Event::PageRendered => {
                if next + 1 < page_count {
                    (
                        RunState::Rendering { page_count, next: (next + 1) as usize },
                        Action::RenderPage((next + 1) as usize),
                    )
                } else {
                    (RunState::Finished { pages: page_count }, Action::Finish)
                }
            },
            Event::PageMissing => (
                RunState::Failed,
                Action::Report(PdfError::PageLookupInconsistent(next)),
            ),
            _ => (RunState::Rendering { page_count, next }, Action::Idle),
        },
        RunState::Finished { pages } => (RunState::Finished { pages }, Action::Idle),
        RunState::Failed => (RunState::Failed, Action::Idle),
    }
}

/// The state that a run reaches on a sequence of events, and the actions it
/// asks for on the way, in order.
pub open spec fn run(s: RunState, events: Seq<Event>) -> (RunState, Seq<Action>)
    decreases events.len(),
{
    if events.len() == 0 {
        (s, Seq::empty())
    } else {
        let (s1, a) = step(s, events[0]);
        let (s2, rest) = run(s1, events.drop_first());
        (s2, seq![a] + rest)
    }
}

/// Well-formed states: a page being rendered lies below the page count.
pub open spec fn wf(s: RunState) -> bool {
    s matches RunState::Rendering { page_count, next } ==> next < page_count
}

/// From page `k` of `n` on, with every page found, the remaining pages are
/// asked for in ascending order and then the surface is finalized once.
proof fn lemma_rendering_tail(n: usize, k: usize)
    requires
        k < n,
    ensures
        ({
            let r = run(
                RunState::Rendering { page_count: n, next: k },
                Seq::new((n - k) as nat, |i: int| Event::PageRendered),
            );
            &&& r.0 == RunState::Finished { pages: n }
            &&& r.1 =~= Seq::new((n - k - 1) as nat, |i: int| Action::RenderPage((k + 1 + i) as usize))
                + seq![Action::Finish]
        }),
    decreases n - k,
{
    let evs = Seq::new((n - k) as nat, |i: int| Event::PageRendered);
    let tail = Seq::new((n - k - 1) as nat, |i: int| Event::PageRendered);
    assert(evs.drop_first() =~= tail);
    assert(evs[0] == Event::PageRendered);
    if k + 1 < n {
        lemma_rendering_tail(n, (k + 1) as usize);
        let rest = run(RunState::Rendering { page_count: n, next: (k + 1) as usize }, tail);
        assert(run(RunState::Rendering { page_count: n, next: k }, evs) == (
            rest.0,
            seq![Action::RenderPage((k + 1) as usize)] + rest.1,
        ));
        assert(seq![Action::RenderPage((k + 1) as usize)] + rest.1 =~= Seq::new(
            (n - k - 1) as nat,
            |i: int| Action::RenderPage((k + 1 + i) as usize),
        ) + seq![Action::Finish]);
    } else {
        assert(tail.len() == 0);
        assert(run(RunState::Finished { pages: n }, tail) == (
            RunState::Finished { pages: n },
            Seq::<Action>::empty(),
        ));
        assert(seq![Action::Finish] + Seq::<Action>::empty() =~= Seq::new(
            0,
            |i: int| Action::RenderPage((k + 1 + i) as usize),
        ) + seq![Action::Finish]);
    }
}

/// A document of `n` pages, each of them found, is rendered page by page in
/// strictly ascending order, one page emission for each page, and the output
/// surface is finalized exactly once, after the last page.
pub proof fn lemma_pages_in_order(n: i32)
    requires
        n >= 0,
    ensures
        ({
            let r = run(
                RunState::Opening,
                seq![Event::Opened { raw_page_count: n }] + Seq::new(
                    n as nat,
                    |i: int| Event::PageRendered,
                ),
            );
            &&& r.0 == RunState::Finished { pages: n as usize }
            &&& r.1 =~= Seq::new(n as nat, |i: int| Action::RenderPage(i as usize)) + seq![
                Action::Finish,
            ]
        }),
{
    let evs = seq![Event::Opened { raw_page_count: n }] + Seq::new(
        n as nat,
        |i: int| Event::PageRendered,
    );
    let pages = Seq::new(n as nat, |i: int| Event::PageRendered);
    assert(evs[0] == Event::Opened { raw_page_count: n });
    assert(evs.drop_first() =~= pages);
    if n == 0 {
        assert(pages.len() == 0);
        assert(run(RunState::Finished { pages: 0 }, pages) == (
            RunState::Finished { pages: 0 },
            Seq::<Action>::empty(),
        ));
        assert(seq![Action::Finish] + Seq::<Action>::empty() =~= Seq::new(
            0,
            |i: int| Action::RenderPage(i as usize),
        ) + seq![Action::Finish]);
    } else {
        assert(n as usize == n as nat);
        lemma_rendering_tail(n as usize, 0);
        assert(Seq::new((n as usize - 0) as nat, |i: int| Event::PageRendered) =~= pages);
        let rest = run(RunState::Rendering { page_count: n as usize, next: 0 }, pages);
        assert(run(RunState::Opening, evs) == (rest.0, seq![Action::RenderPage(0)] + rest.1));
        assert(seq![Action::RenderPage(0)] + rest.1 =~= Seq::new(
            n as nat,
            |i: int| Action::RenderPage(i as usize),
        ) + seq![Action::Finish]);
    }
}

/// A run that has failed stays failed, whatever it is told afterwards, and
/// asks for nothing more: in particular never for a document open.
pub proof fn lemma_failed_run_is_idle(events: Seq<Event>)
    ensures
        run(RunState::Failed, events).0 == RunState::Failed,
        forall|i: int|
            0 <= i < run(RunState::Failed, events).1.len() ==> #[trigger] run(
                RunState::Failed,
                events,
            ).1[i] is Idle,
        run(RunState::Failed, events).1.len() == events.len(),
    decreases events.len(),
{
    if events.len() > 0 {
        lemma_failed_run_is_idle(events.drop_first());
    }
}

/// No event of a run, in any state, leads to a document open: the open is
/// asked for only when the run starts.
pub proof fn lemma_events_never_open(s: RunState, events: Seq<Event>)
    ensures
        forall|i: int|
            0 <= i < run(s, events).1.len() ==> !(#[trigger] run(s, events).1[i] is Open),
    decreases events.len(),
{
    if events.len() > 0 {
        let (s1, a) = step(s, events[0]);
        lemma_events_never_open(s1, events.drop_first());
    }
}

/// The calls that emit page `index`.
pub fn page_ops(index: usize) -> (r: Vec<SurfaceOp>)
    ensures
        r@ == page_ops_of(index),
{
    vec![SurfaceOp::Save, SurfaceOp::Render(index), SurfaceOp::Restore, SurfaceOp::ShowPage(index)]
}

/// Starts a run: the path and the password are checked before anything else,
/// and only where both pass is the document open asked for.
pub fn start(canonical: CanonicalPath, password: &str) -> (r: (RunState, Action))
    ensures
        r matches (RunState::Opening, Action::Open(_)) || r matches (
            RunState::Failed,
            Action::Report(_),
        ),
        canonical is Unresolved ==> r matches (
            RunState::Failed,
            Action::Report(PdfError::PathNotFound),
        ),
        r.1 matches Action::Report(PdfError::InvalidPath) <==> (canonical is NotUnicode || (
        canonical matches CanonicalPath::Resolved(p) && crate::util::has_nul(p@))),
        r.1 matches Action::Report(PdfError::InvalidPassword) <==> (
        canonical matches CanonicalPath::Resolved(p) && !crate::util::has_nul(p@)
            && crate::util::has_nul(password@)),
        r.1 matches Action::Report(e) ==> (e is PathNotFound || e is InvalidPath
            || e is InvalidPassword),
        r.1 is Open <==> (canonical matches CanonicalPath::Resolved(p) && !crate::util::has_nul(p@)
            && !crate::util::has_nul(password@)),
        r.1 matches Action::Open(req) ==> (canonical matches CanonicalPath::Resolved(p)
            && req.url@ == crate::util::glib_url(p@) && req.password@ == password@),
        wf(r.0),
{
    match open_request(canonical, password) {
        Ok(req) => (RunState::Opening, Action::Open(req)),
        Err(e) => (RunState::Failed, Action::Report(e)),
    }
}

/// Takes one event of the run. The document open is never asked for here,
/// pages are asked for in strictly ascending order, a missing page ends the
/// run, and the surface is finalized once, after the last page.
pub fn on_event(state: RunState, event: Event) -> (r: (RunState, Action))
    ensures
        r == step(state, event),
        wf(state) ==> wf(r.0),
        !(r.1 is Open),
{
    match state {
        RunState::Opening => match event {
            Event::Opened { raw_page_count } => {
                let n = crate::document::page_count(raw_page_count);
                if n == 0 {
                    (RunState::Finished { pages: 0 }, Action::Finish)
                } else {
                    (RunState::Rendering { page_count: n, next: 0 }, Action::RenderPage(0))
                }
            },
            Event::OpenFailed(err) => (RunState::Failed, Action::Report(err)),
            Event::PageRendered => (RunState::Opening, Action::Idle),
            Event::PageMissing => (RunState::Opening, Action::Idle),
        },
        RunState::Rendering { page_count, next } => match event {
            Event::PageRendered => {
                if next < page_count && page_count - next > 1 {
                    (
                        RunState::Rendering { page_count, next: next + 1 },
                        Action::RenderPage(next + 1),
                    )
                } else {
                    (RunState::Finished { pages: page_count }, Action::Finish)
                }
            },
            Event::PageMissing => (
                RunState::Failed,
                Action::Report(PdfError::PageLookupInconsistent(next)),
            ),
            Event::Opened { .. } => (RunState::Rendering { page_count, next }, Action::Idle),
            Event::OpenFailed(_) => (RunState::Rendering { page_count, next }, Action::Idle),
        },
        RunState::Finished { pages } => (RunState::Finished { pages }, Action::Idle),
        RunState::Failed => (RunState::Failed, Action::Idle),
    }
}

} // verus!
