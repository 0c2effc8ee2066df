//! The texts the panes of the terminal interface show: titles, marks,
//! help, and the lines of downloads.

use vstd::prelude::*;
use crate::dates::{decimal_string, decimal_text};
use crate::session::{download_position, result_ids, App};
use crate::text::push_all;
use crate::tui::{DownloadState, DownloadUiStatus, DownloadView, Pane, StatusView, MAX_CONCURRENT_DOWNLOADS};

verus! {

/// How many of `ids` satisfy `p`.
pub open spec fn count_where(ids: Seq<Seq<char>>, p: spec_fn(Seq<char>) -> bool) -> nat
    decreases ids.len(),
{
    if ids.len() == 0 {
        0
    } else {
        count_where(ids.drop_last(), p) + if p(ids.last()) {
            1nat
        } else {
            0nat
        }
    }
}

/// How many downloads are under way.
pub open spec fn active_count(d: Seq<(Seq<char>, DownloadView)>) -> nat
    decreases d.len(),
{
    if d.len() == 0 {
        0
    } else {
        active_count(d.drop_last()) + if d.last().1.status is Downloading {
            1nat
        } else {
            0nat
        }
    }
}

/// The title of the results pane: how many results, and how many of them
/// are done (✓) or under way (↓).
pub open spec fn results_title_spec(total: nat, done: nat, busy: nat) -> Seq<char> {
    if done == 0 && busy == 0 {
        " Results ("@ + decimal_text(total) + ") "@
    } else if busy == 0 {
        " Results ("@ + decimal_text(total) + ", "@ + decimal_text(done) + "✓) "@
    } else if done == 0 {
        " Results ("@ + decimal_text(total) + ", "@ + decimal_text(busy) + "↓) "@
    } else {
        " Results ("@ + decimal_text(total) + ", "@ + decimal_text(done) + "✓ "@ + decimal_text(busy)
            + "↓) "@
    }
}

/// The title of the downloads pane.
pub open spec fn downloads_title_spec(active: nat) -> Seq<char> {
    if active > 0 {
        " Downloads ("@ + decimal_text(active) + " active, max "@ + decimal_text(
            MAX_CONCURRENT_DOWNLOADS as nat,
        ) + ") "@
    } else {
        " Downloads "@
    }
}

/// The line of a finished or failed download.
pub open spec fn download_line_spec(v: DownloadView) -> Seq<char> {
    match v.status {
        StatusView::Completed(path) => "✓ "@ + crate::tui::truncate_spec(v.label, 40) + " → "@ + path,
        StatusView::Failed(message) => "✗ "@ + crate::tui::truncate_spec(v.label, 40) + ": "@
            + message,
        StatusView::Downloading => crate::tui::truncate_spec(v.label, 40),
    }
}

/// The room left for the label of a download under way, in a line `width`
/// characters wide: a bar of a quarter of the width (12 to 28) where the
/// size is known, the statistics, and the gaps between; at least 8.
pub open spec fn label_budget_spec(width: nat, with_bar: bool, stats_len: nat) -> nat {
    let bar = if with_bar {
        if width / 4 < 12 {
            12
        } else if width / 4 > 28 {
            28
        } else {
            width / 4
        }
    } else {
        0
    };
    let chrome = if bar > 0 {
        2 + bar + 2 + 2 + stats_len
    } else {
        2 + stats_len
    };
    let left = if width > chrome {
        (width - chrome) as nat
    } else {
        0
    };
    if left < 8 {
        8
    } else {
        left
    }
}

/// The room left for the label of a download under way.
pub fn label_budget(width: usize, with_bar: bool, stats_len: usize) -> (r: usize)
    requires
        stats_len + 34 <= usize::MAX,
    ensures
        r == label_budget_spec(width as nat, with_bar, stats_len as nat),
{
    let bar: usize = if with_bar {
        if width / 4 < 12 {
            12
        } else if width / 4 > 28 {
            28
        } else {
            width / 4
        }
    } else {
        0
    };
    let chrome = if bar > 0 {
        2 + bar + 2 + 2 + stats_len
    } else {
        2 + stats_len
    };
    let left = if width > chrome {
        width - chrome
    } else {
        0
    };
    if left < 8 {
        8
    } else {
        left
    }
}

impl App {
    /// Whether the download of `id` is under way.
    pub open spec fn is_downloading_spec(self, id: Seq<char>) -> bool {
        match download_position(self.download_list(), id) {
            Some(i) => self.download_list()[i].1.status is Downloading,
            None => false,
        }
    }

    /// The title of the results pane.
    pub fn results_title(&self) -> (r: String)
        requires
            self.wf(),
        ensures
            r@ == results_title_spec(
                self.products@.len(),
                count_where(result_ids(self.products@), |id: Seq<char>| self.downloaded().contains(id)),
                count_where(result_ids(self.products@), |id: Seq<char>| self.is_downloading_spec(id)),
            ),
    {
        let ghost ids = result_ids(self.products@);
        let ghost pd = |id: Seq<char>| self.downloaded().contains(id);
        let ghost pb = |id: Seq<char>| self.is_downloading_spec(id);
        let mut done: usize = 0;
        let mut busy: usize = 0;
        let mut i: usize = 0;
        while i < self.products.len()
            invariant
                i <= self.products@.len(),
                self.wf(),
                ids == result_ids(self.products@),
                pd == (|id: Seq<char>| self.downloaded().contains(id)),
                pb == (|id: Seq<char>| self.is_downloading_spec(id)),
                done == count_where(ids.take(i as int), pd),
                busy == count_where(ids.take(i as int), pb),
                done <= i,
                busy <= i,
            decreases self.products@.len() - i,
        {
            assert(ids.take(i + 1).drop_last() == ids.take(i as int));
            assert(ids.take(i + 1).last() == self.products@[i as int].id@);
            if self.is_downloaded(self.products[i].id.as_str()) {
                done += 1;
            }
            if self.is_downloading(self.products[i].id.as_str()) {
                busy += 1;
            }
            i += 1;
        }
        assert(ids.take(self.products@.len() as int) == ids);
        let total = decimal_string(self.products.len() as u64);
        let mut r = " Results (".to_owned();
        push_all(&mut r, total.as_str());
        if done == 0 && busy == 0 {
            push_all(&mut r, ") ");
        } else if busy == 0 {
            push_all(&mut r, ", ");
            push_all(&mut r, decimal_string(done as u64).as_str());
            push_all(&mut r, "✓) ");
        } else if done == 0 {
            push_all(&mut r, ", ");
            push_all(&mut r, decimal_string(busy as u64).as_str());
            push_all(&mut r, "↓) ");
        } else {
            push_all(&mut r, ", ");
            push_all(&mut r, decimal_string(done as u64).as_str());
            push_all(&mut r, "✓ ");
            push_all(&mut r, decimal_string(busy as u64).as_str());
            push_all(&mut r, "↓) ");
        }
        r
    }

    /// The mark in front of a result: ✓ downloaded, ↓ under way, • marked.
    pub fn result_mark(&self, id: &str) -> (r: &'static str)
        requires
            self.wf(),
        ensures
            r@ == (if self.downloaded().contains(id@) {
                "✓"@
            } else if self.is_downloading_spec(id@) {
                "↓"@
            } else if self.marked_ids().contains(id@) {
                "•"@
            } else {
                " "@
            }),
    {
        if self.is_downloaded(id) {
            "✓"
        } else if self.is_downloading(id) {
            "↓"
        } else if self.is_marked(id) {
            "•"
        } else {
            " "
        }
    }

    /// The title of the downloads pane.
    pub fn downloads_title(&self) -> (r: String)
        ensures
            r@ == downloads_title_spec(active_count(self.download_list())),
    {
        let ghost all = self.download_list();
        let mut active: usize = 0;
        let mut i: usize = 0;
        while i < self.downloads.len()
            invariant
                i <= self.downloads@.len(),
                all == self.download_list(),
                all.len() == self.downloads@.len(),
                active == active_count(all.take(i as int)),
                active <= i,
            decreases self.downloads@.len() - i,
        {
            assert(all.take(i + 1).drop_last() == all.take(i as int));
            assert(all.take(i + 1).last() == (self.downloads@[i as int].id@, self.downloads@[i as int].state@));
            match self.downloads[i].state.status {
                DownloadUiStatus::Downloading => {
                    active += 1;
                },
                _ => {},
            }
            i += 1;
        }
        assert(all.take(self.downloads@.len() as int) == all);
        if active > 0 {
            let mut r = " Downloads (".to_owned();
            push_all(&mut r, decimal_string(active as u64).as_str());
            push_all(&mut r, " active, max ");
            push_all(&mut r, decimal_string(MAX_CONCURRENT_DOWNLOADS as u64).as_str());
            push_all(&mut r, ") ");
            r
        } else {
            " Downloads ".to_owned()
        }
    }

    /// The help line: the keys of the pane in focus, or of editing.
    pub fn help_text(&self) -> (r: &'static str)
        ensures
            r@ == (if self.editing {
                " editing  Enter/Esc finish  Backspace delete  Ctrl-u clear "@
            } else {
                match self.focus {
                    Pane::Filters => " Tab/Alt+←→  ↑↓ fields  ←→ sat/product  Enter edit  s search  S append  q "@,
                    Pane::Results => " Tab/Alt+←→  ↑↓/jk  Space  d/a  ↓=busy ✓=done  s/S search  q quit "@,
                    Pane::Downloads => " Tab/Alt+←→/Esc  ↑↓/jk  d/a queue  s/S search  q quit "@,
                }
            }),
    {
        if self.editing {
            " editing  Enter/Esc finish  Backspace delete  Ctrl-u clear "
        } else {
            match self.focus {
                Pane::Filters => " Tab/Alt+←→  ↑↓ fields  ←→ sat/product  Enter edit  s search  S append  q ",
                Pane::Results => " Tab/Alt+←→  ↑↓/jk  Space  d/a  ↓=busy ✓=done  s/S search  q quit ",
                Pane::Downloads => " Tab/Alt+←→/Esc  ↑↓/jk  d/a queue  s/S search  q quit ",
            }
        }
    }
}

/// The line of a finished or failed download (the label alone for one
/// under way, whose line carries a progress bar).
pub fn download_line(state: &DownloadState) -> (r: String)
    ensures
        r@ == download_line_spec(state@),
{
    let label = crate::tui::truncate(state.label.as_str(), 40);
    match &state.status {
        DownloadUiStatus::Completed(path) => {
            let mut r = "✓ ".to_owned();
            push_all(&mut r, label.as_str());
            push_all(&mut r, " → ");
            push_all(&mut r, path.as_str());
            r
        },
        DownloadUiStatus::Failed(message) => {
            let mut r = "✗ ".to_owned();
            push_all(&mut r, label.as_str());
            push_all(&mut r, ": ");
            push_all(&mut r, message.as_str());
            r
        },
        DownloadUiStatus::Downloading => label,
    }
}

} // verus!
