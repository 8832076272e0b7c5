use vstd::prelude::*;

use crate::text::{decimal, digit_char, push_char, push_decimal};

verus! {

/// The percentage `100 * done / total` in hundredths, rounded to the nearest
/// hundredth, halves rounded up.
pub open spec fn hundredths(done: nat, total: nat) -> nat
    recommends
        total > 0,
{
    (20000 * done + total) / (2 * total)
}

/// A count of hundredths written with two decimal places (`5000` is `50.00`).
pub open spec fn two_places(h: nat) -> Seq<char> {
    decimal(h / 100) + seq!['.', digit_char((h % 100) / 10), digit_char(h % 10)]
}

/// The line shown after a progress event: the percentage when the total size
/// is known (and not zero), else the byte count so far.
pub open spec fn progress_text(done: nat, total: Option<u64>) -> Seq<char> {
    match total {
        Some(t) if t > 0 => "downloaded "@ + two_places(hundredths(done, t as nat)) + "%"@,
        _ => decimal(done) + " bytes"@,
    }
}

/// The sum of a sequence of chunk sizes.
pub open spec fn accumulated(deltas: Seq<u64>) -> nat
    decreases deltas.len(),
{
    if deltas.len() == 0 {
        0
    } else {
        accumulated(deltas.drop_last()) + deltas.last() as nat
    }
}

/// Within one download the byte count never goes down: after more events
/// it is at least what it was after fewer.
pub proof fn lemma_accumulated_monotone(deltas: Seq<u64>, i: int, j: int)
    requires
        0 <= i <= j <= deltas.len(),
    ensures
        accumulated(deltas.take(i)) <= accumulated(deltas.take(j)),
    decreases j - i,
{
    if i < j {
        lemma_accumulated_monotone(deltas, i, j - 1);
        assert(deltas.take(j).drop_last() =~= deltas.take(j - 1));
    }
}

/// Percentage of `total` that `done` bytes make, in hundredths.
pub fn percent_hundredths(done: u64, total: u64) -> (r: u128)
    requires
        total > 0,
    ensures
        r == hundredths(done as nat, total as nat),
{
    (20000 * (done as u128) + total as u128) / (2 * (total as u128))
}

/// The display line for `done` bytes out of `total`, if the total is known.
pub fn progress_line(done: u64, total: Option<u64>) -> (r: String)
    ensures
        r@ == progress_text(done as nat, total),
{
    let mut s = String::new();
    match total {
        Some(t) if t > 0 => {
            s.append("downloaded ");
            let h = percent_hundredths(done, t);
            push_decimal(&mut s, h / 100);
            push_char(&mut s, '.');
            push_decimal(&mut s, (h % 100) / 10);
            push_decimal(&mut s, h % 10);
            s.append("%");
            assert(s@ =~= progress_text(done as nat, total));
        },
        _ => {
            push_decimal(&mut s, done as u128);
            s.append(" bytes");
            assert(s@ =~= progress_text(done as nat, total));
        },
    }
    s
}

/// The byte count of one download, fed by its progress events.
pub struct DownloadProgress {
    downloaded: u64,
}

impl View for DownloadProgress {
    type V = nat;

    closed spec fn view(&self) -> nat {
        self.downloaded as nat
    }
}

impl DownloadProgress {
    /// A fresh count, at the start of a download.
    pub fn new() -> (r: Self)
        ensures
            r@ == 0,
    {
        DownloadProgress { downloaded: 0 }
    }

    /// Bytes received so far.
    pub fn downloaded(&self) -> (r: u64)
        ensures
            r == self@,
    {
        self.downloaded
    }

    /// Adds one chunk to the count and returns the line to show for it.
    pub fn record(&mut self, delta: u64, total: Option<u64>) -> (line: String)
        requires
            old(self)@ + delta <= u64::MAX,
        ensures
            final(self)@ == old(self)@ + delta,
            final(self)@ >= old(self)@,
            line@ == progress_text(final(self)@, total),
    {
        self.downloaded = self.downloaded + delta;
        progress_line(self.downloaded, total)
    }
}

} // verus!
