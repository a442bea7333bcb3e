use cosmos::paging::{PageRequest, Pager, PagingStyle};

fn pages_source(pages: &[(Vec<u32>, Option<Vec<u8>>)]) -> (Vec<u32>, usize, Vec<Option<PageRequest>>) {
    let mut pager = Pager::new(PagingStyle::NextKey);
    let mut requests = 0usize;
    let mut seen = Vec::new();
    let mut next: Option<PageRequest> = None;
    loop {
        seen.push(next.clone());
        let (items, key) = pages[requests].clone();
        requests += 1;
        match pager.on_page(items, key) {
            Some(q) => next = Some(q),
            None => break,
        }
    }
    (pager.into_items(), requests, seen)
}

#[test]
fn pagination_concatenates_three_pages() {
    let pages = vec![
        (vec![1, 2], Some(vec![10])),
        (vec![3], Some(vec![20])),
        (vec![4, 5], Some(vec![])),
        (vec![99], None),
    ];
    let (items, requests, seen) = pages_source(&pages);
    assert_eq!(items, vec![1, 2, 3, 4, 5]);
    assert_eq!(requests, 3);
    assert!(seen[0].is_none());
    assert_eq!(seen[1].as_ref().unwrap().key, vec![10]);
    assert_eq!(seen[2].as_ref().unwrap().key, vec![20]);
}

#[test]
fn pagination_stops_on_empty_page_despite_key() {
    let pages = vec![(vec![1], Some(vec![1])), (vec![], Some(vec![2])), (vec![7], None)];
    let (items, requests, _) = pages_source(&pages);
    assert_eq!(items, vec![1]);
    assert_eq!(requests, 2);
}

#[test]
fn pagination_stops_without_key() {
    let pages = vec![(vec![1, 2, 3], None)];
    let (items, requests, _) = pages_source(&pages);
    assert_eq!(items, vec![1, 2, 3]);
    assert_eq!(requests, 1);
}

#[test]
fn offset_style_counts_collected_items() {
    let mut pager: Pager<&str> = Pager::new(PagingStyle::OffsetAndKey { limit: 10 });
    let q = pager.on_page(vec!["a", "b", "c"], Some(vec![5])).unwrap();
    assert_eq!(q.key, vec![5]);
    assert_eq!(q.offset, 3);
    assert_eq!(q.limit, 10);
    assert!(!q.count_total && !q.reverse);
    let q = pager.on_page(vec!["d"], Some(vec![6])).unwrap();
    assert_eq!(q.offset, 4);
    assert!(pager.on_page(vec!["e"], None).is_none());
    assert_eq!(pager.into_items(), vec!["a", "b", "c", "d", "e"]);
}

#[test]
fn key_style_leaves_offset_and_limit_zero() {
    let mut pager: Pager<u8> = Pager::new(PagingStyle::NextKey);
    let q = pager.on_page(vec![1], Some(vec![9, 9])).unwrap();
    assert_eq!((q.offset, q.limit), (0, 0));
    assert_eq!(q.key, vec![9, 9]);
}
