use poppler::{
    lookup_index, on_event, page_ops, start, Action, CanonicalPath, Event, PdfError, RunState,
    SurfaceOp,
};

#[derive(Debug, PartialEq)]
enum Call {
    Open,
    Lookup(i32),
    Save,
    Render(usize),
    Restore,
    ShowPage(usize),
    Finish,
}

struct Stub {
    pages: Vec<(f64, f64)>,
    open_fails: bool,
    missing_page: Option<usize>,
    calls: Vec<Call>,
}

impl Stub {
    fn drive(&mut self, canonical: CanonicalPath, password: &str) -> (RunState, Option<PdfError>) {
        let (mut state, mut action) = start(canonical, password);
        loop {
            let event = match action {
                Action::Open(_) => {
                    self.calls.push(Call::Open);
                    if self.open_fails {
                        Event::OpenFailed(PdfError::ForeignCallFailed("broken".to_string()))
                    } else {
                        Event::Opened { raw_page_count: self.pages.len() as i32 }
                    }
                }
                Action::RenderPage(i) => {
                    let count = self.pages.len();
                    match lookup_index(i, count) {
                        Some(raw) if self.missing_page != Some(i) => {
                            self.calls.push(Call::Lookup(raw));
                            let (w, h) = self.pages[i];
                            assert!(w > 0.0 && h > 0.0);
                            for op in page_ops(i) {
                                self.calls.push(match op {
                                    SurfaceOp::Save => Call::Save,
                                    SurfaceOp::Render(p) => Call::Render(p),
                                    SurfaceOp::Restore => Call::Restore,
                                    SurfaceOp::ShowPage(p) => Call::ShowPage(p),
                                });
                            }
                            Event::PageRendered
                        }
                        _ => Event::PageMissing,
                    }
                }
                Action::Finish => {
                    self.calls.push(Call::Finish);
                    return (state, None);
                }
                Action::Report(e) => return (state, Some(e)),
                Action::Idle => return (state, None),
            };
            let next = on_event(state, event);
            state = next.0;
            action = next.1;
        }
    }
}

fn stub(pages: Vec<(f64, f64)>) -> Stub {
    Stub { pages, open_fails: false, missing_page: None, calls: Vec::new() }
}

fn resolved() -> CanonicalPath {
    CanonicalPath::Resolved("/docs/test.pdf".to_string())
}

#[test]
fn two_pages_emitted_in_order_and_bracketed() {
    let mut s = stub(vec![(100.0, 200.0), (300.0, 400.0)]);
    let (state, err) = s.drive(resolved(), "");
    assert!(err.is_none());
    assert!(matches!(state, RunState::Finished { pages: 2 }));
    assert_eq!(
        s.calls,
        vec![
            Call::Open,
            Call::Lookup(0),
            Call::Save,
            Call::Render(0),
            Call::Restore,
            Call::ShowPage(0),
            Call::Lookup(1),
            Call::Save,
            Call::Render(1),
            Call::Restore,
            Call::ShowPage(1),
            Call::Finish,
        ]
    );
}

#[test]
fn three_pages_then_one_finish() {
    let mut s = stub(vec![(595.0, 842.0); 3]);
    let (state, err) = s.drive(resolved(), "");
    assert!(err.is_none());
    assert!(matches!(state, RunState::Finished { pages: 3 }));
    let shown: Vec<usize> = s
        .calls
        .iter()
        .filter_map(|c| match c {
            Call::ShowPage(p) => Some(*p),
            _ => None,
        })
        .collect();
    assert_eq!(shown, vec![0, 1, 2]);
    assert_eq!(s.calls.iter().filter(|c| **c == Call::Finish).count(), 1);
    assert_eq!(s.calls.last(), Some(&Call::Finish));
    assert_eq!(s.calls.iter().filter(|c| **c == Call::Open).count(), 1);
}

#[test]
fn missing_file_fails_before_any_open() {
    let mut s = stub(vec![(1.0, 1.0)]);
    let (state, err) = s.drive(CanonicalPath::Unresolved, "");
    assert!(matches!(state, RunState::Failed));
    assert!(matches!(err, Some(PdfError::PathNotFound)));
    assert!(s.calls.is_empty());
}

#[test]
fn bad_password_fails_before_any_open() {
    let mut s = stub(vec![(1.0, 1.0)]);
    let (_, err) = s.drive(resolved(), "x\0y");
    assert!(matches!(err, Some(PdfError::InvalidPassword)));
    assert!(s.calls.is_empty());
}

#[test]
fn open_failure_is_reported_without_output() {
    let mut s = stub(vec![(1.0, 1.0)]);
    s.open_fails = true;
    let (state, err) = s.drive(resolved(), "");
    assert!(matches!(state, RunState::Failed));
    match err {
        Some(PdfError::ForeignCallFailed(m)) => assert_eq!(m, "broken"),
        other => panic!("unexpected {:?}", other),
    }
    assert_eq!(s.calls, vec![Call::Open]);
}

#[test]
fn missing_page_is_fatal() {
    let mut s = stub(vec![(1.0, 1.0); 3]);
    s.missing_page = Some(1);
    let (state, err) = s.drive(resolved(), "");
    assert!(matches!(state, RunState::Failed));
    assert!(matches!(err, Some(PdfError::PageLookupInconsistent(1))));
    assert!(!s.calls.contains(&Call::Finish));
    assert!(!s.calls.contains(&Call::Lookup(2)));
}

#[test]
fn empty_document_only_finishes() {
    let mut s = stub(Vec::new());
    let (state, err) = s.drive(resolved(), "");
    assert!(err.is_none());
    assert!(matches!(state, RunState::Finished { pages: 0 }));
    assert_eq!(s.calls, vec![Call::Open, Call::Finish]);
}

#[test]
fn failed_and_finished_runs_stay_put() {
    let (st, a) = on_event(RunState::Failed, Event::PageRendered);
    assert!(matches!(st, RunState::Failed));
    assert!(matches!(a, Action::Idle));
    let (st, a) = on_event(RunState::Finished { pages: 2 }, Event::Opened { raw_page_count: 5 });
    assert!(matches!(st, RunState::Finished { pages: 2 }));
    assert!(matches!(a, Action::Idle));
}

#[test]
fn page_ops_bracket_render() {
    let ops = page_ops(4);
    assert_eq!(ops.len(), 4);
    assert!(matches!(ops[0], SurfaceOp::Save));
    assert!(matches!(ops[1], SurfaceOp::Render(4)));
    assert!(matches!(ops[2], SurfaceOp::Restore));
    assert!(matches!(ops[3], SurfaceOp::ShowPage(4)));
}
