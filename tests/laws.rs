use pages::{OutOfBound, Page, Pages};

type Render = fn(usize, usize) -> String;

fn walk(pages: &Pages<Render>) -> Vec<Page> {
    let mut cursor = pages.into_iter();
    let mut out = Vec::new();
    while let Some(p) = cursor.next() {
        out.push(p);
    }
    out
}

fn plain(page_number: usize, length: usize, begin: usize, end: usize) -> Page {
    Page {
        page_number,
        length,
        begin,
        end,
        html: String::new(),
    }
}

#[test]
fn page_count_is_ceiling() {
    for length in 0usize..40 {
        for capacity in 1usize..9 {
            let pages = Pages::new(length, capacity, None::<Render>);
            let n = pages.page_count();
            assert!(n * capacity >= length);
            assert!(n * capacity < length + capacity);
        }
    }
    assert_eq!(Pages::new(17, 5, None::<Render>).page_count(), 4);
    assert_eq!(Pages::new(15, 5, None::<Render>).page_count(), 3);
}

#[test]
fn counts_bounded_and_sum_to_length() {
    for length in 0usize..30 {
        for capacity in 1usize..7 {
            let pages = Pages::new(length, capacity, None::<Render>);
            let mut total = 0usize;
            for index in 0..pages.page_count() {
                let p = pages.to_page_number(index).unwrap();
                assert!(p.length <= capacity);
                total += p.length;
            }
            assert_eq!(total, length);
        }
    }
}

#[test]
fn last_page_holds_the_rest() {
    let pages = Pages::new(17, 5, None::<Render>);
    assert_eq!(pages.to_page_number(3).unwrap(), plain(3, 2, 15, 16));
    let pages = Pages::new(15, 5, None::<Render>);
    assert_eq!(pages.to_page_number(2).unwrap(), plain(2, 5, 10, 14));
}

#[test]
fn lookup_past_the_end_fails() {
    let pages = Pages::new(10, 3, None::<Render>);
    assert_eq!(pages.page_count(), 4);
    assert_eq!(pages.to_page_number(4), Err(OutOfBound));
    assert_eq!(pages.to_page_number(5), Err(OutOfBound));
    assert_eq!(pages.to_page_number(usize::MAX), Err(OutOfBound));
}

#[test]
fn zero_capacity_has_no_pages() {
    let pages = Pages::new(7, 0, None::<Render>);
    assert_eq!(pages.page_count(), 0);
    assert_eq!(pages.to_page_number(0), Err(OutOfBound));
    assert_eq!(pages.to_page_number(3), Err(OutOfBound));
    assert!(walk(&pages).is_empty());
}

#[test]
fn zero_length_has_no_pages() {
    let pages = Pages::new(0, 4, None::<Render>);
    assert_eq!(pages.page_count(), 0);
    assert_eq!(pages.to_page_number(0), Err(OutOfBound));
    assert!(walk(&pages).is_empty());
}

#[test]
fn walk_even_items() {
    let pages = Pages::new(6, 2, None::<Render>);
    assert_eq!(
        walk(&pages),
        vec![plain(0, 2, 0, 1), plain(1, 2, 2, 3), plain(2, 2, 4, 5)]
    );
}

#[test]
fn walk_odd_items() {
    let pages = Pages::new(5, 2, None::<Render>);
    assert_eq!(
        walk(&pages),
        vec![plain(0, 2, 0, 1), plain(1, 2, 2, 3), plain(2, 1, 4, 4)]
    );
}

#[test]
fn walk_single_item() {
    let pages = Pages::new(1, 5, None::<Render>);
    assert_eq!(walk(&pages), vec![plain(0, 1, 0, 0)]);
}

#[test]
fn walk_matches_lookup_and_restarts() {
    let f: Render = |b, c| format!("{}+{}", b, c);
    let pages = Pages::new(11, 4, Some(f));
    let first = walk(&pages);
    assert_eq!(first.len(), 3);
    for (index, p) in first.iter().enumerate() {
        assert_eq!(*p, pages.to_page_number(index).unwrap());
    }
    assert_eq!(walk(&pages), first);
}

#[test]
fn render_gets_begin_and_count() {
    let f: Render = |b, c| format!("{}:{}", b, c);
    let pages = Pages::new(10, 4, Some(f));
    assert_eq!(pages.to_page_number(0).unwrap().html, "0:4");
    assert_eq!(pages.to_page_number(1).unwrap().html, "4:4");
    assert_eq!(pages.to_page_number(2).unwrap().html, "8:2");
}

#[test]
fn render_five_links() {
    let f: Render = |x, y| {
        (x..x + y).fold(String::new(), |s, t| format!("{}<a href=\"{}\"></a>", s, t))
    };
    let pages = Pages::new(5, 5, Some(f));
    let html = pages.to_page_number(0).unwrap().html;
    assert_eq!(html.matches("<a href=").count(), 5);
    for t in 0..5 {
        assert!(html.contains(&format!("\"{}\"", t)));
    }
}

#[test]
fn lookup_twice_is_equal() {
    let f: Render = |b, c| format!("{}-{}", b, c);
    let pages = Pages::new(9, 2, Some(f));
    for index in 0..6 {
        assert_eq!(pages.to_page_number(index), pages.to_page_number(index));
    }
}

#[test]
fn cursor_offset_moves_then_stops() {
    let mut cursor = Pages::new(3, 2, None::<Render>);
    assert_eq!(cursor.offset(), 0);
    assert!(cursor.next().is_some());
    assert_eq!(cursor.offset(), 1);
    assert!(cursor.next().is_some());
    assert_eq!(cursor.offset(), 2);
    assert!(cursor.next().is_none());
    assert_eq!(cursor.offset(), 2);
    let fresh = cursor.into_iter();
    assert_eq!(fresh.offset(), 0);
    assert_eq!(fresh.length(), 3);
    assert_eq!(fresh.per_page(), 2);
}

#[test]
fn largest_sizes() {
    let half = usize::MAX / 2 + 1;
    let pages = Pages::new(usize::MAX, half, None::<Render>);
    assert_eq!(pages.page_count(), 2);
    assert_eq!(pages.to_page_number(1).unwrap(), plain(1, half - 1, half, usize::MAX - 1));
    let pages = Pages::new(usize::MAX, 1, None::<Render>);
    assert_eq!(pages.page_count(), usize::MAX);
    let last = usize::MAX - 1;
    assert_eq!(pages.to_page_number(last).unwrap(), plain(last, 1, last, last));
    let pages = Pages::new(usize::MAX, usize::MAX, None::<Render>);
    assert_eq!(pages.page_count(), 1);
}

#[test]
fn out_of_bound_text() {
    assert_eq!(OutOfBound.to_string(), "out of bound");
}
