use rtqdm::progress::{Progress, ProgressBarStyle, ProgressIteratorExtention, CLEAR};

fn full_bar(pct: &str, k: usize, width: usize, tail: &str) -> String {
    format!("{}% |{}{}| {}", pct, "\u{2588}".repeat(k), " ".repeat(width - k), tail)
}

#[test]
fn bounded_run_renders_counts_in_order_and_keeps_items() {
    let items = vec![10, 20, 30];
    let mut p = items.clone().into_iter().progress().with_bound();
    let mut frames = Vec::new();
    let mut got = Vec::new();
    loop {
        let (frame, item) = p.advance();
        frames.push(frame);
        match item {
            Some(x) => got.push(x),
            None => break,
        }
    }
    assert_eq!(got, items);
    assert_eq!(frames.len(), 4);
    assert_eq!(frames[0], full_bar("  0", 0, 50, "0/3"));
    assert_eq!(frames[1], full_bar(" 33", 16, 50, "1/3"));
    assert_eq!(frames[2], full_bar(" 67", 33, 50, "2/3"));
    assert_eq!(frames[3], full_bar("100", 50, 50, "3/3"));
    assert_eq!(p.count(), 4);
}

#[test]
fn unbounded_over_endless_sequence() {
    let mut p = (1u64..).progress();
    for k in 0..4u64 {
        let (frame, item) = p.advance();
        assert_eq!(frame, format!("Iterations: {}", k));
        assert_eq!(item, Some(k + 1));
    }
    assert_eq!(p.count(), 4);
}

#[test]
fn unbounded_marker_line() {
    let mut p = "abc".chars().progress().with_markers();
    assert_eq!(p.advance(), (String::new(), Some('a')));
    assert_eq!(p.advance(), ("#".to_string(), Some('b')));
    assert_eq!(p.advance(), ("##".to_string(), Some('c')));
    assert_eq!(p.advance(), ("###".to_string(), None));
}

#[test]
fn last_item_frame_is_not_complete() {
    let mut p = (0..10).progress().with_bound();
    let mut last = String::new();
    while let (frame, Some(_)) = p.advance() {
        last = frame;
    }
    assert_eq!(last, full_bar(" 90", 45, 50, "9/10"));
}

#[test]
fn bar_half_through_decorator() {
    let mut p = vec![0u8; 10].into_iter().progress().with_bound();
    for _ in 0..5 {
        let _ = p.step();
    }
    assert_eq!(p.count(), 5);
    assert_eq!(p.render(), full_bar(" 50", 25, 50, "5/10"));
}

#[test]
fn bracket_through_decorator() {
    let mut p = vec!['x'; 5].into_iter().progress().with_bound().with_markers();
    for _ in 0..3 {
        let _ = p.step();
    }
    assert_eq!(p.render(), "[###  ]");
}

#[test]
fn boundary_frame_before_exhaustion() {
    let mut p = vec![1, 2].into_iter().progress().with_bound().with_markers();
    assert_eq!(p.advance(), ("[  ]".to_string(), Some(1)));
    assert_eq!(p.advance(), ("[# ]".to_string(), Some(2)));
    assert_eq!(p.advance(), ("[##]".to_string(), None));
    assert_eq!(p.advance(), ("[###]".to_string(), None));
}

#[test]
fn empty_sequence_with_bound() {
    let mut p = Vec::<i32>::new().into_iter().progress().with_bound();
    assert_eq!(p.bound().total(), 0);
    assert_eq!(p.advance(), (full_bar("100", 50, 50, "0/0"), None));
}

#[test]
fn with_bound_takes_items_left_and_keeps_count() {
    let mut p = vec![1, 2, 3, 4].into_iter().progress();
    let _ = p.advance();
    let p = p.with_bound();
    assert_eq!(p.count(), 1);
    assert_eq!(p.bound().total(), 3);
    assert_eq!(p.bound().delimiters(), None);
    assert_eq!(*p.bound().style(), ProgressBarStyle::default());
}

#[test]
fn second_delimiters_win() {
    let p = (0..5)
        .progress()
        .with_bound()
        .with_delimiters(('(', ')'))
        .with_delimiters(('*', '*'))
        .with_markers();
    assert_eq!(p.bound().delimiters(), Some(('*', '*')));
    assert_eq!(p.render(), "*     *");
}

#[test]
fn style_keeps_count_and_total() {
    let mut p = (0..8).progress().with_bound();
    let _ = p.advance();
    let _ = p.advance();
    let p = p.with_style(ProgressBarStyle::new('=', '-', 4));
    assert_eq!(p.count(), 2);
    assert_eq!(p.bound().total(), 8);
    assert_eq!(*p.bound().style(), ProgressBarStyle::new('=', '-', 4));
    assert_eq!(p.render(), " 25% |=---| 2/8");
}

#[test]
fn bounded_style_builder() {
    let p = (0..4).progress().with_bound().with_delimiters(('{', '}'));
    let b = p.bound().with_progress_bar_style(ProgressBarStyle::new('+', '_', 2));
    assert_eq!(b.total(), 4);
    assert_eq!(b.delimiters(), Some(('{', '}')));
    assert_eq!(b.style().filled_char, '+');
    assert_eq!(b.style().unfilled_char, '_');
    assert_eq!(b.style().total_length, 2);
}

#[test]
fn default_style_and_new_decorator() {
    let s = ProgressBarStyle::default();
    assert_eq!((s.filled_char, s.unfilled_char, s.total_length), ('\u{2588}', ' ', 50));
    let p = Progress::new(0..3);
    assert_eq!(p.count(), 0);
    assert!(!p.markers());
    assert_eq!(p.render(), "Iterations: 0");
}

#[test]
fn pull_leaves_count() {
    let mut p = vec![7, 8].into_iter().progress();
    assert_eq!(p.pull(), Some(7));
    assert_eq!(p.count(), 0);
    assert_eq!(p.step(), "Iterations: 0");
    assert_eq!(p.pull(), Some(8));
    assert_eq!(p.pull(), None);
    assert_eq!(p.count(), 1);
}

#[test]
fn clear_sequence() {
    assert_eq!(CLEAR, "\x1B[2J\x1B[1;1H");
}
