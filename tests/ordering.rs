use pdf_pages::{all_page_numbers, OrderedResults};

#[test]
fn pages_come_out_in_requested_order() {
    // pages 3, 1 and 2 asked for in that order; they finish as 2, 3, 1
    let pages = [3u32, 1, 2];
    let mut slots: OrderedResults<String> = OrderedResults::new(pages.len());
    let mut out: Vec<String> = Vec::new();
    for position in [2usize, 0, 1] {
        assert!(slots.complete(position, format!("page {}", pages[position])));
        out.extend(slots.take_ready());
    }
    assert_eq!(out, vec!["page 3", "page 1", "page 2"]);
    assert!(slots.is_finished());
}

#[test]
fn nothing_is_handed_out_before_the_front_completes() {
    let mut slots: OrderedResults<u32> = OrderedResults::new(4);
    assert!(slots.complete(3, 4));
    assert!(slots.take_ready().is_empty());
    assert!(slots.complete(1, 2));
    assert!(slots.take_ready().is_empty());
    assert!(slots.complete(0, 1));
    assert_eq!(slots.take_ready(), vec![1, 2]);
    assert!(!slots.is_finished());
    assert!(slots.complete(2, 3));
    assert_eq!(slots.take_ready(), vec![3, 4]);
    assert!(slots.is_finished());
}

#[test]
fn all_pages_in_reverse_completion_give_every_page_once() {
    let total: u16 = 5;
    let pages = all_page_numbers(total);
    let mut slots: OrderedResults<u32> = OrderedResults::new(pages.len());
    let mut out = Vec::new();
    for position in (0..pages.len()).rev() {
        slots.complete(position, pages[position]);
        out.extend(slots.take_ready());
    }
    assert_eq!(out, vec![1, 2, 3, 4, 5]);
    assert!(slots.is_finished());
}

#[test]
fn a_position_completes_once() {
    let mut slots: OrderedResults<u32> = OrderedResults::new(2);
    assert!(slots.complete(1, 10));
    assert!(!slots.complete(1, 11));
    assert!(!slots.complete(2, 12));
    assert!(slots.complete(0, 9));
    assert_eq!(slots.take_ready(), vec![9, 10]);
    assert!(!slots.complete(0, 8));
    assert!(slots.take_ready().is_empty());
}

#[test]
fn no_positions_is_finished_at_once() {
    let mut slots: OrderedResults<u32> = OrderedResults::new(0);
    assert!(slots.is_finished());
    assert!(slots.take_ready().is_empty());
}

#[test]
fn page_numbers_of_a_document() {
    assert_eq!(all_page_numbers(3), vec![1, 2, 3]);
    assert!(all_page_numbers(0).is_empty());
    let many = all_page_numbers(u16::MAX);
    assert_eq!(many.len(), 65535);
    assert_eq!(many[65534], 65535);
}
