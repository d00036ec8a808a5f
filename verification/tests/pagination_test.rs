use openagentmail::{PageStep, PaginatedResponse, PaginatedStream, PollStep};

fn page(items: Vec<u32>, next: Option<&str>, has_more: bool) -> PaginatedResponse<u32> {
    PaginatedResponse { items, next_page_token: next.map(|s| s.to_string()), has_more }
}

/// Drives the iteration with the given pages; returns the yielded items,
/// the cursors asked for, and whether it ended.
fn drive(pages: Vec<PaginatedResponse<u32>>) -> (Vec<u32>, Vec<Option<String>>, bool) {
    let mut s = PaginatedStream::new();
    let mut pages = pages.into_iter();
    let mut items = Vec::new();
    let mut cursors = Vec::new();
    for _ in 0..1000 {
        match s.poll_step() {
            PollStep::Item(x) => items.push(x),
            PollStep::Done => return (items, cursors, true),
            PollStep::Fetch(t) => {
                cursors.push(t);
                match pages.next() {
                    None => return (items, cursors, false),
                    Some(p) => match s.page_received(p) {
                        PageStep::Item(x) => items.push(x),
                        PageStep::Again => {},
                        PageStep::Done => return (items, cursors, true),
                    },
                }
            },
        }
    }
    (items, cursors, false)
}

#[test]
fn single_page_listing() {
    let (items, cursors, done) = drive(vec![page(vec![1, 2, 3], None, false)]);
    assert_eq!(items, vec![1, 2, 3]);
    assert_eq!(cursors, vec![None]);
    assert!(done);
}

#[test]
fn pages_are_chained_by_cursor() {
    let (items, cursors, done) = drive(vec![
        page(vec![1, 2], Some("p2"), true),
        page(vec![], Some("p3"), true),
        page(vec![3], Some("p4"), true),
        page(vec![4, 5], None, false),
    ]);
    assert_eq!(items, vec![1, 2, 3, 4, 5]);
    assert_eq!(
        cursors,
        vec![None, Some("p2".to_string()), Some("p3".to_string()), Some("p4".to_string())]
    );
    assert!(done);
}

#[test]
fn empty_listing_ends() {
    let (items, cursors, done) = drive(vec![page(vec![], None, false)]);
    assert!(items.is_empty());
    assert_eq!(cursors, vec![None]);
    assert!(done);
}

#[test]
fn exhausted_stays_exhausted() {
    let mut s = PaginatedStream::new();
    assert!(matches!(s.poll_step(), PollStep::Fetch(None)));
    assert!(matches!(s.page_received(page(vec![7], None, false)), PageStep::Item(7)));
    assert!(matches!(s.poll_step(), PollStep::Done));
    assert!(matches!(s.poll_step(), PollStep::Done));
}

#[test]
fn failed_fetch_starts_over() {
    let mut s: PaginatedStream<u32> = PaginatedStream::new();
    assert!(matches!(s.poll_step(), PollStep::Fetch(None)));
    assert!(matches!(s.page_received(page(vec![1], Some("p2"), true)), PageStep::Item(1)));
    match s.poll_step() {
        PollStep::Fetch(Some(t)) => assert_eq!(t, "p2"),
        _ => panic!("expected a fetch of the second page"),
    }
    s.fetch_failed();
    // The cursor was used up: the next fetch has none.
    assert!(matches!(s.poll_step(), PollStep::Fetch(None)));
}
