use pim::zitadel::{Page, PageCursor, PageRequest, PageStep};

fn drain<F: FnMut(PageRequest) -> Page<u32>>(mut fetch: F) -> Vec<u32> {
    let mut cursor = PageCursor::new();
    loop {
        let page = fetch(cursor.request());
        match cursor.accept(page) {
            PageStep::Continue(c) => cursor = c,
            PageStep::Done(v) => return v,
        }
    }
}

#[test]
fn page_request_default() {
    let r = PageRequest::default();
    assert_eq!((r.offset, r.limit, r.asc), (0, 100, true));
}

#[test]
fn stops_on_short_page() {
    let mut calls = 0usize;
    let got = drain(|req| {
        calls += 1;
        if req.offset == 0 {
            Page { items: (0..100).collect::<Vec<u32>>(), total: 150 }
        } else {
            Page { items: (100..150).collect::<Vec<u32>>(), total: 150 }
        }
    });
    assert_eq!(got.len(), 150);
    assert_eq!(calls, 2);
}

#[test]
fn stops_on_empty_page() {
    let got: Vec<u32> = drain(|_| Page { items: vec![], total: 0 });
    assert!(got.is_empty());
}

#[test]
fn stops_when_total_reached() {
    let mut offsets = Vec::new();
    let got = drain(|req| {
        offsets.push(req.offset);
        Page { items: (0..100).collect::<Vec<u32>>(), total: 200 }
    });
    assert_eq!(got.len(), 200);
    assert_eq!(offsets, vec![0, 100]);
}

#[test]
fn full_pages_without_total_continue_until_short() {
    let mut offsets = Vec::new();
    let got = drain(|req| {
        offsets.push(req.offset);
        let n = if req.offset < 300 { 100 } else { 7 };
        Page { items: vec![1; n], total: 0 }
    });
    assert_eq!(got.len(), 307);
    assert_eq!(offsets, vec![0, 100, 200, 300]);
}

#[test]
fn fetches_bounded_by_reported_total() {
    let mut calls = 0u64;
    let mut offsets = Vec::new();
    let items = drain(|req| {
        calls += 1;
        offsets.push(req.offset);
        Page { items: (0..100).collect(), total: 250 }
    });
    assert_eq!(calls, 3);
    assert_eq!(offsets, vec![0, 100, 200]);
    assert_eq!(items.len(), 300);
}
