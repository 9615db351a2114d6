use std::cell::Cell;

use raytracer::{
    ends_portion, line_notifications, portion_amount, progress_lines, render_line, Color,
    ProgressBar, ProgressLine, PORTION_SIZE,
};

#[test]
fn portion_amount_of_hd_frame() {
    assert_eq!(portion_amount(1280, 720), 1280 / PORTION_SIZE * 720);
    assert_eq!(portion_amount(1280, 720), 14400);
}

#[test]
fn portion_amount_drops_partial_portions() {
    assert_eq!(portion_amount(PORTION_SIZE - 1, 10), 0);
    assert_eq!(portion_amount(2 * PORTION_SIZE + 1, 3), 6);
    assert_eq!(portion_amount(0, 0), 0);
}

#[test]
fn portion_ends_every_portion_size_pixels() {
    assert!(ends_portion(PORTION_SIZE));
    assert!(ends_portion(3 * PORTION_SIZE));
    assert!(!ends_portion(PORTION_SIZE + 1));
    assert!(!ends_portion(1));
}

#[test]
fn line_notifications_counts_full_portions() {
    assert_eq!(line_notifications(1280), 20);
    assert_eq!(line_notifications(PORTION_SIZE - 1), 0);
    assert_eq!(line_notifications(0), 0);
    assert_eq!(line_notifications(1280) * 720, portion_amount(1280, 720));
}

#[test]
fn progress_bar_counts_up_then_finishes() {
    let mut bar = ProgressBar::new(2);
    assert!(!bar.is_finished());
    assert_eq!(bar.record(), ProgressLine::Tick { done: 1, total: 2 });
    assert_eq!(bar.record(), ProgressLine::Tick { done: 2, total: 2 });
    assert!(bar.is_finished());
    assert_eq!(bar.finish(), ProgressLine::Done);
}

#[test]
fn progress_lines_of_hd_frame() {
    let total = portion_amount(1280, 720);
    let lines = progress_lines(total);
    assert_eq!(lines.len(), total + 1);
    assert_eq!(lines[0], ProgressLine::Tick { done: 1, total: 14400 });
    assert_eq!(lines[total - 1], ProgressLine::Tick { done: 14400, total: 14400 });
    assert_eq!(lines[total], ProgressLine::Done);
    let ticks = lines.iter().filter(|l| matches!(l, ProgressLine::Tick { .. })).count();
    assert_eq!(ticks, total);
}

#[test]
fn progress_lines_with_nothing_to_wait_for() {
    assert_eq!(progress_lines(0), vec![ProgressLine::Done]);
}

#[test]
fn render_line_fills_line_and_notifies_per_portion() {
    let sent = Cell::new(0usize);
    let pixel = |p: (usize, usize)| Color::new((p.0 % 256) as u8, p.1 as u8, 7);
    let notify = || sent.set(sent.get() + 1);
    let mut line = vec![Color::new(9, 9, 9)];
    let columns = 2 * PORTION_SIZE + 5;
    let n = render_line(columns, 3, &mut line, &pixel, &notify);
    assert_eq!(n, 2);
    assert_eq!(sent.get(), 2);
    assert_eq!(line.len(), columns + 1);
    assert_eq!(line[0], Color::new(9, 9, 9));
    assert_eq!(line[1], Color::new(0, 3, 7));
    assert_eq!(line[columns], Color::new((columns - 1) as u8, 3, 7));
}
