use vstd::prelude::*;

use crate::color::Color;

verus! {

/// The number of pixels of a line after which a worker reports progress.
pub const PORTION_SIZE: usize = 64;

/// The number of progress notifications that a whole image sends.
pub open spec fn portion_amount_spec(columns: int, lines: int) -> int {
    columns / (PORTION_SIZE as int) * lines
}

/// The number of progress notifications that a line of `columns` pixels sends.
pub open spec fn line_notifications_spec(columns: int) -> int {
    columns / (PORTION_SIZE as int)
}

/// The number of progress notifications that a whole image sends.
pub fn portion_amount(columns: usize, lines: usize) -> (n: usize)
    requires
        portion_amount_spec(columns as int, lines as int) <= usize::MAX,
    ensures
        n == portion_amount_spec(columns as int, lines as int),
{
    columns / PORTION_SIZE * lines
}

/// Whether the pixel with the 1-based count `pixel_cnt` closes a portion, so
/// that the worker notifies after it.
pub fn ends_portion(pixel_cnt: usize) -> (b: bool)
    ensures
        b == (pixel_cnt % PORTION_SIZE == 0),
{
    pixel_cnt % PORTION_SIZE == 0
}

/// How many notifications a worker sends while it renders a line of
/// `columns` pixels, counted pixel by pixel as the worker does.
pub fn line_notifications(columns: usize) -> (n: usize)
    ensures
        n == line_notifications_spec(columns as int),
{
    let mut n: usize = 0;
    let mut pixel_cnt: usize = 0;
    while pixel_cnt < columns
        invariant
            pixel_cnt <= columns,
            n == pixel_cnt / PORTION_SIZE,
        decreases columns - pixel_cnt,
    {
        pixel_cnt = pixel_cnt + 1;
        if ends_portion(pixel_cnt) {
            n = n + 1;
        }
    }
    n
}

/// Renders line `line_num` of `columns` pixels onto the end of `line`:
/// `pixel(x, line_num)` gives the color of column `x`, and `notify` is called
/// once after each full portion of pixels. Returns how many notifications
/// were sent.
pub fn render_line<F: Fn((usize, usize)) -> Color, N: Fn()>(
    columns: usize,
    line_num: usize,
    line: &mut Vec<Color>,
    pixel: &F,
    notify: &N,
) -> (sent: usize)
    requires
        forall|x: usize| x < columns ==> pixel.requires(((x, line_num),)),
        notify.requires(()),
    ensures
        final(line)@.len() == old(line)@.len() + columns,
        final(line)@.subrange(0, old(line)@.len() as int) == old(line)@,
        forall|x: int|
            0 <= x < columns ==> pixel.ensures(
                ((x as usize, line_num),),
                #[trigger] final(line)@[old(line)@.len() + x],
            ),
        sent == line_notifications_spec(columns as int),
{
    let ghost start = line@.len();
    let mut sent: usize = 0;
    let mut pixel_cnt: usize = 0;
    while pixel_cnt < columns
        invariant
            pixel_cnt <= columns,
            sent == pixel_cnt / PORTION_SIZE,
            line@.len() == start + pixel_cnt,
            line@.subrange(0, start as int) == old(line)@,
            start == old(line)@.len(),
            forall|x: usize| x < columns ==> pixel.requires(((x, line_num),)),
            notify.requires(()),
            forall|x: int|
                0 <= x < pixel_cnt ==> pixel.ensures(
                    ((x as usize, line_num),),
                    #[trigger] line@[start + x],
                ),
        decreases columns - pixel_cnt,
    {
        let c = pixel((pixel_cnt, line_num));
        line.push(c);
        pixel_cnt = pixel_cnt + 1;
        if ends_portion(pixel_cnt) {
            notify();
            sent = sent + 1;
        }
    }
    sent
}

/// The notifications of all lines together are exactly what the progress
/// reporter waits for.
pub proof fn lemma_notifications_fill_report(columns: nat, lines: nat)
    ensures
        lines * line_notifications_spec(columns as int) == portion_amount_spec(
            columns as int,
            lines as int,
        ),
{
    let per_line = line_notifications_spec(columns as int);
    assert(per_line * lines == lines * per_line) by (nonlinear_arith);
}

/// One line that the progress reporter prints.
#[derive(Clone, Copy, Debug, PartialEq, Eq, Structural)]
pub enum ProgressLine {
    /// `done / total`
    Tick { done: usize, total: usize },
    /// The closing line once every notification has come.
    Done,
}

/// The state of the progress reporter: how many notifications came, out of
/// how many.
#[derive(Clone, Copy, Debug, PartialEq, Eq, Structural)]
pub struct ProgressBar {
    pub received: usize,
    pub total: usize,
}

impl ProgressBar {
    pub open spec fn wf(&self) -> bool {
        self.received <= self.total
    }

    pub fn new(total: usize) -> (p: ProgressBar)
        ensures
            p.received == 0,
            p.total == total,
            p.wf(),
    {
        ProgressBar { received: 0, total }
    }

    pub fn is_finished(&self) -> (b: bool)
        ensures
            b == (self.received >= self.total),
    {
        self.received >= self.total
    }

    /// Takes one notification and gives the line to print for it.
    pub fn record(&mut self) -> (line: ProgressLine)
        requires
            old(self).wf(),
            old(self).received < old(self).total,
        ensures
            final(self).wf(),
            final(self).received == old(self).received + 1,
            final(self).total == old(self).total,
            line == (ProgressLine::Tick { done: final(self).received, total: final(self).total }),
    {
        self.received = self.received + 1;
        ProgressLine::Tick { done: self.received, total: self.total }
    }

    /// The closing line, once every notification has come.
    pub fn finish(&self) -> (line: ProgressLine)
        requires
            self.received >= self.total,
        ensures
            line == ProgressLine::Done,
    {
        ProgressLine::Done
    }
}

/// Everything that the progress reporter prints for `total` notifications:
/// a tick for each, counting up from `1`, then the closing line.
pub fn progress_lines(total: usize) -> (v: Vec<ProgressLine>)
    requires
        total < usize::MAX,
    ensures
        v@.len() == total + 1,
        forall|i: int|
            0 <= i < total ==> v@[i] == (ProgressLine::Tick { done: (i + 1) as usize, total }),
        v@[total as int] == ProgressLine::Done,
{
    let mut bar = ProgressBar::new(total);
    let mut v: Vec<ProgressLine> = Vec::new();
    while !bar.is_finished()
        invariant
            bar.wf(),
            bar.total == total,
            v@.len() == bar.received,
            forall|i: int|
                0 <= i < v@.len() ==> v@[i] == (ProgressLine::Tick { done: (i + 1) as usize, total }),
        decreases total - bar.received,
    {
        let line = bar.record();
        v.push(line);
    }
    v.push(bar.finish());
    v
}

} // verus!
