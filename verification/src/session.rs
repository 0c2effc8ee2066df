//! The interactive session: what the terminal interface shows, and how keys
//! and the results of background work change it.

use vstd::prelude::*;
use crate::models::Satellite;
use crate::tui::{
    DownloadState, DownloadUiStatus, DownloadView, FilterField, Pane, StatusView,
    MAX_CONCURRENT_DOWNLOADS,
};
use crate::text::{push_all, str_eq, strings_view, trimmed};
use crate::dates::{decimal_string, decimal_text};

verus! {

/// One search result as the session tracks it: its catalogue id and name.
#[derive(Debug)]
pub struct ResultEntry {
    pub id: String,
    pub name: String,
}

/// The catalogue ids of a list of results.
pub open spec fn result_ids(results: Seq<ResultEntry>) -> Seq<Seq<char>> {
    results.map_values(|r: ResultEntry| r.id@)
}

/// One followed download, by product id.
#[derive(Debug)]
pub struct DownloadEntry {
    pub id: String,
    pub state: DownloadState,
}

/// The followed downloads as (product id, download) pairs.
pub open spec fn downloads_view(d: Seq<DownloadEntry>) -> Seq<(Seq<char>, DownloadView)> {
    d.map_values(|e: DownloadEntry| (e.id@, e.state@))
}

/// The product ids of followed downloads.
pub open spec fn download_ids(d: Seq<(Seq<char>, DownloadView)>) -> Seq<Seq<char>> {
    d.map_values(|e: (Seq<char>, DownloadView)| e.0)
}

/// Position of a mission in the order the selector cycles through.
pub open spec fn satellite_index(s: Satellite) -> int {
    match s {
        Satellite::Sentinel1 => 0,
        Satellite::Sentinel2 => 1,
        Satellite::Sentinel3 => 2,
        Satellite::Sentinel5P => 3,
        Satellite::Sentinel6 => 4,
    }
}

/// The mission at position `i` (0 to 4) of the selector's order.
pub open spec fn satellite_at(i: int) -> Satellite {
    if i == 0 {
        Satellite::Sentinel1
    } else if i == 1 {
        Satellite::Sentinel2
    } else if i == 2 {
        Satellite::Sentinel3
    } else if i == 3 {
        Satellite::Sentinel5P
    } else {
        Satellite::Sentinel6
    }
}

/// `i` steps forward (or back) by one in a cycle of length `n`.
pub open spec fn cycle_step(i: int, n: int, forward: bool) -> int {
    if forward {
        (i + 1) % n
    } else {
        (i + n - 1) % n
    }
}

/// One step around a cycle of length `n`, from a position in it.
pub proof fn lemma_cycle_step(i: int, n: int)
    requires
        0 <= i < n,
    ensures
        cycle_step(i, n, true) == if i + 1 == n { 0 } else { i + 1 },
        cycle_step(i, n, false) == if i == 0 { n - 1 } else { i - 1 },
{
    if i + 1 < n {
        vstd::arithmetic::div_mod::lemma_small_mod((i + 1) as nat, n as nat);
    } else {
        vstd::arithmetic::div_mod::lemma_mod_self_0(n);
    }
    if i == 0 {
        vstd::arithmetic::div_mod::lemma_small_mod((n - 1) as nat, n as nat);
    } else {
        vstd::arithmetic::div_mod::lemma_mod_add_multiples_vanish(i - 1, n);
        vstd::arithmetic::div_mod::lemma_small_mod((i - 1) as nat, n as nat);
    }
}

/// The first position of `x` in `list`, or 0 where it does not occur.
pub open spec fn position_or_zero(list: Seq<Seq<char>>, x: Seq<char>) -> int {
    if exists|i: int| is_first_at(list, x, i) {
        choose|i: int| is_first_at(list, x, i)
    } else {
        0
    }
}

/// `x` occurs in `list` at `i` and nowhere before.
pub open spec fn is_first_at(list: Seq<Seq<char>>, x: Seq<char>, i: int) -> bool {
    &&& 0 <= i < list.len()
    &&& list[i] == x
    &&& forall|j: int| 0 <= j < i ==> list[j] != x
}

/// The state of the interactive interface.
///
/// The fields are public so that the interface can draw them; the
/// operations below keep [`App::wf`].
pub struct App {
    pub satellite: Satellite,
    pub product: String,
    pub start_date: String,
    pub end_date: String,
    pub tile: String,
    pub cloud_cover: String,
    pub point: String,
    pub bbox: String,
    pub geojson: String,
    pub max_results: String,
    pub products: Vec<ResultEntry>,
    pub selected_result: usize,
    /// Product ids marked for a batch download, each once.
    pub marked: Vec<String>,
    /// Product ids downloaded in this session, each once.
    pub downloaded_ids: Vec<String>,
    pub selected_download: usize,
    /// Followed downloads, one per product id.
    pub downloads: Vec<DownloadEntry>,
    /// Product ids in the order their downloads were first queued, each once.
    pub download_order: Vec<String>,
    pub focus: Pane,
    pub filter_field: FilterField,
    pub editing: bool,
    pub searching: bool,
    pub status: String,
    pub should_quit: bool,
}

impl App {
    /// The ids marked for download.
    pub open spec fn marked_ids(self) -> Seq<Seq<char>> {
        strings_view(self.marked@)
    }

    /// The ids downloaded in this session.
    pub open spec fn downloaded(self) -> Seq<Seq<char>> {
        strings_view(self.downloaded_ids@)
    }

    /// The followed downloads.
    pub open spec fn download_list(self) -> Seq<(Seq<char>, DownloadView)> {
        downloads_view(self.downloads@)
    }

    /// The queue order of downloads.
    pub open spec fn order(self) -> Seq<Seq<char>> {
        strings_view(self.download_order@)
    }

    /// Well-formedness: id lists hold each id once, and the selections point
    /// into their lists (or are 0 when the list is empty).
    pub open spec fn wf(self) -> bool {
        &&& self.marked_ids().no_duplicates()
        &&& self.downloaded().no_duplicates()
        &&& download_ids(self.download_list()).no_duplicates()
        &&& self.order().no_duplicates()
        &&& (self.selected_result == 0 || self.selected_result < self.products@.len())
        &&& (self.selected_download == 0 || self.selected_download < self.download_order@.len())
    }

    /// The session as it starts: Sentinel-2 with its first product type,
    /// the given date range, 15 % cloud cover, 10 results, focus on the
    /// filters.
    pub fn new(start_date: String, end_date: String) -> (r: App)
        ensures
            r.wf(),
            r.satellite == Satellite::Sentinel2,
            r.product@ == Satellite::Sentinel2.known_products_spec()[0],
            r.start_date@ == start_date@,
            r.end_date@ == end_date@,
            r.tile@ == Seq::<char>::empty(),
            r.cloud_cover@ == "15"@,
            r.point@ == Seq::<char>::empty(),
            r.bbox@ == Seq::<char>::empty(),
            r.geojson@ == Seq::<char>::empty(),
            r.max_results@ == "10"@,
            r.products@.len() == 0,
            r.selected_result == 0,
            r.marked@.len() == 0,
            r.downloaded_ids@.len() == 0,
            r.selected_download == 0,
            r.downloads@.len() == 0,
            r.download_order@.len() == 0,
            r.focus == Pane::Filters,
            r.filter_field == FilterField::Satellite,
            !r.editing,
            !r.searching,
            r.status@ == "Ready — s search · S append · see footer for keys"@,
            !r.should_quit,
    {
        let satellite = Satellite::Sentinel2;
        let known = satellite.known_products();
        App {
            satellite,
            product: known[0].to_owned(),
            start_date,
            end_date,
            tile: String::new(),
            cloud_cover: "15".to_owned(),
            point: String::new(),
            bbox: String::new(),
            geojson: String::new(),
            max_results: "10".to_owned(),
            products: Vec::new(),
            selected_result: 0,
            marked: Vec::new(),
            downloaded_ids: Vec::new(),
            selected_download: 0,
            downloads: Vec::new(),
            download_order: Vec::new(),
            focus: Pane::Filters,
            filter_field: FilterField::Satellite,
            editing: false,
            searching: false,
            status: "Ready — s search · S append · see footer for keys".to_owned(),
            should_quit: false,
        }
    }

    /// `next` is this session after the next (or previous) mission is selected.
    pub open spec fn satellite_cycled(self, next: App, forward: bool) -> bool {
        &&& next.satellite == satellite_at(
            cycle_step(satellite_index(self.satellite), 5, forward),
        )
        &&& next.product@ == next.satellite.known_products_spec()[0]
        &&& next.cloud_cover@ == (if next.satellite == Satellite::Sentinel1 {
            Seq::<char>::empty()
        } else if self.cloud_cover@.len() == 0 {
            "15"@
        } else {
            self.cloud_cover@
        })
        &&& next == (App {
            satellite: next.satellite,
            product: next.product,
            cloud_cover: next.cloud_cover,
            ..self
        })
    }

    /// Selects the next (or previous) mission, resets the product type to
    /// its first known one, and clears the cloud cover for Sentinel-1 (the
    /// catalogue rejects it there) or restores 15 % where it was empty.
    pub fn cycle_satellite(&mut self, forward: bool)
        requires
            old(self).wf(),
        ensures
            final(self).wf(),
            old(self).satellite_cycled(*final(self), forward),
    {
        let idx: usize = match self.satellite {
            Satellite::Sentinel1 => 0,
            Satellite::Sentinel2 => 1,
            Satellite::Sentinel3 => 2,
            Satellite::Sentinel5P => 3,
            Satellite::Sentinel6 => 4,
        };
        let next = if forward {
            (idx + 1) % 5
        } else {
            (idx + 4) % 5
        };
        let all = [
            Satellite::Sentinel1,
            Satellite::Sentinel2,
            Satellite::Sentinel3,
            Satellite::Sentinel5P,
            Satellite::Sentinel6,
        ];
        self.satellite = all[next];
        let known = self.satellite.known_products();
        self.product = known[0].to_owned();
        if self.satellite == Satellite::Sentinel1 {
            self.cloud_cover = String::new();
        } else if self.cloud_cover.as_str().is_empty() {
            self.cloud_cover = "15".to_owned();
        }
    }
}

impl App {
    /// `next` is this session after the next (or previous) product type is selected.
    pub open spec fn product_cycled(self, next: App, forward: bool) -> bool {
        &&& next.product@ == self.satellite.known_products_spec()[cycle_step(
            position_or_zero(self.satellite.known_products_spec(), self.product@),
            self.satellite.known_products_spec().len() as int,
            forward,
        )]
        &&& next == (App { product: next.product, ..self })
    }

    /// Selects the next (or previous) known product type of the mission,
    /// starting from the first one where the current text is not among them.
    pub fn cycle_product(&mut self, forward: bool)
        requires
            old(self).wf(),
        ensures
            final(self).wf(),
            old(self).product_cycled(*final(self), forward),
    {
        let known = self.satellite.known_products();
        let ghost list = self.satellite.known_products_spec();
        let n = known.len();
        let mut idx: usize = 0;
        let mut found = false;
        let mut i: usize = 0;
        while i < n && !found
            invariant
                i <= n == known@.len() == list.len(),
                list == self.satellite.known_products_spec(),
                forall|k: int| 0 <= k < known@.len() ==> #[trigger] known@[k]@ == list[k],
                found ==> idx < n && is_first_at(list, self.product@, idx as int),
                !found ==> idx == 0 && forall|j: int| 0 <= j < i ==> list[j] != self.product@,
            decreases n - i,
        {
            if str_eq(known[i], self.product.as_str()) {
                idx = i;
                found = true;
            }
            i += 1;
        }
        proof {
            if found {
                let c = choose|c: int| is_first_at(list, self.product@, c);
                assert(c == idx as int) by {
                    if c < idx {
                        assert(list[c] != self.product@);
                    } else if c > idx {
                        assert(list[idx as int] != self.product@);
                    }
                }
            } else {
                assert(!exists|c: int| is_first_at(list, self.product@, c));
            }
            lemma_cycle_step(idx as int, n as int);
        }
        let next = if forward {
            (idx + 1) % n
        } else if idx == 0 {
            n - 1
        } else {
            idx - 1
        };
        self.product = known[next].to_owned();
    }

    /// `next` is this session after the focus moved to the next filter field.
    pub open spec fn next_field_selected(self, next: App) -> bool {
        &&& next == (App {
            filter_field: FilterField::at((self.filter_field.index() + 1) % 10),
            editing: false,
            ..self
        })
    }

    /// Moves to the next filter field and leaves editing.
    pub fn next_filter_field(&mut self)
        requires
            old(self).wf(),
        ensures
            final(self).wf(),
            old(self).next_field_selected(*final(self)),
    {
        self.filter_field = self.filter_field.next();
        self.editing = false;
    }

    /// `next` is this session after the focus moved to the previous filter field.
    pub open spec fn previous_field_selected(self, next: App) -> bool {
        &&& next == (App {
            filter_field: FilterField::at((self.filter_field.index() + 9) % 10),
            editing: false,
            ..self
        })
    }

    /// Moves to the previous filter field and leaves editing.
    pub fn prev_filter_field(&mut self)
        requires
            old(self).wf(),
        ensures
            final(self).wf(),
            old(self).previous_field_selected(*final(self)),
    {
        self.filter_field = self.filter_field.previous();
        self.editing = false;
    }

    /// `next` is this session after the focus moved to the next pane.
    pub open spec fn next_pane_focused(self, next: App) -> bool {
        &&& next == (App { focus: self.focus.after(), editing: false, ..self })
    }

    /// Moves the focus to the next pane and leaves editing.
    pub fn cycle_pane(&mut self)
        requires
            old(self).wf(),
        ensures
            final(self).wf(),
            old(self).next_pane_focused(*final(self)),
    {
        self.focus = self.focus.next();
        self.editing = false;
    }

    /// `next` is this session after the focus moved to the previous pane.
    pub open spec fn previous_pane_focused(self, next: App) -> bool {
        &&& next == (App {
            focus: self.focus.before(),
            editing: false,
            ..self
        })
    }

    /// Moves the focus to the previous pane and leaves editing.
    pub fn cycle_pane_back(&mut self)
        requires
            old(self).wf(),
        ensures
            final(self).wf(),
            old(self).previous_pane_focused(*final(self)),
    {
        self.focus = self.focus.previous();
        self.editing = false;
    }

    /// `next` is this session after the next result is selected.
    pub open spec fn next_result_selected(self, next: App) -> bool {
        &&& next == (App {
            selected_result: (if self.products@.len() == 0 {
                self.selected_result as int
            } else {
                cycle_step(
                    self.selected_result as int,
                    self.products@.len() as int,
                    true,
                )
            }) as usize,
            ..self
        })
    }

    /// Selects the next result, wrapping around; nothing without results.
    pub fn select_next_result(&mut self)
        requires
            old(self).wf(),
        ensures
            final(self).wf(),
            old(self).next_result_selected(*final(self)),
    {
        let n = self.products.len();
        if n > 0 {
            self.selected_result = (self.selected_result + 1) % n;
        }
    }

    /// `next` is this session after the previous result is selected.
    pub open spec fn previous_result_selected(self, next: App) -> bool {
        &&& next == (App {
            selected_result: (if self.products@.len() == 0 {
                self.selected_result as int
            } else {
                cycle_step(
                    self.selected_result as int,
                    self.products@.len() as int,
                    false,
                )
            }) as usize,
            ..self
        })
    }

    /// Selects the previous result, wrapping around; nothing without results.
    pub fn select_prev_result(&mut self)
        requires
            old(self).wf(),
        ensures
            final(self).wf(),
            old(self).previous_result_selected(*final(self)),
    {
        let n = self.products.len();
        if n > 0 {
            proof {
                lemma_cycle_step(self.selected_result as int, n as int);
            }
            self.selected_result = if self.selected_result == 0 {
                n - 1
            } else {
                self.selected_result - 1
            };
        }
    }

    /// `next` is this session after the next download is selected.
    pub open spec fn next_download_selected(self, next: App) -> bool {
        &&& next == (App {
            selected_download: (if self.download_order@.len() == 0 {
                self.selected_download as int
            } else {
                cycle_step(
                    self.selected_download as int,
                    self.download_order@.len() as int,
                    true,
                )
            }) as usize,
            ..self
        })
    }

    /// Selects the next download, wrapping around; nothing without downloads.
    pub fn select_next_download(&mut self)
        requires
            old(self).wf(),
        ensures
            final(self).wf(),
            old(self).next_download_selected(*final(self)),
    {
        let n = self.download_order.len();
        if n > 0 {
            self.selected_download = (self.selected_download + 1) % n;
        }
    }

    /// `next` is this session after the previous download is selected.
    pub open spec fn previous_download_selected(self, next: App) -> bool {
        &&& next == (App {
            selected_download: (if self.download_order@.len() == 0 {
                self.selected_download as int
            } else {
                cycle_step(
                    self.selected_download as int,
                    self.download_order@.len() as int,
                    false,
                )
            }) as usize,
            ..self
        })
    }

    /// Selects the previous download, wrapping around; nothing without
    /// downloads.
    pub fn select_prev_download(&mut self)
        requires
            old(self).wf(),
        ensures
            final(self).wf(),
            old(self).previous_download_selected(*final(self)),
    {
        let n = self.download_order.len();
        if n > 0 {
            proof {
                lemma_cycle_step(self.selected_download as int, n as int);
            }
            self.selected_download = if self.selected_download == 0 {
                n - 1
            } else {
                self.selected_download - 1
            };
        }
    }
}

/// An edit of a text field.
#[derive(Debug, Clone, Copy, PartialEq, Eq, Structural)]
pub enum TextEdit {
    /// Type a character at the end.
    Push(char),
    /// Delete the last character (Backspace).
    Pop,
    /// Delete everything (Ctrl-U).
    Clear,
}

/// The text after an edit.
pub open spec fn edited(s: Seq<char>, e: TextEdit) -> Seq<char> {
    match e {
        TextEdit::Push(c) => s.push(c),
        TextEdit::Pop => if s.len() == 0 { s } else { s.drop_last() },
        TextEdit::Clear => Seq::empty(),
    }
}

/// Applies an edit to a string.
fn edit_text(s: &mut String, e: TextEdit)
    ensures
        final(s)@ == edited(old(s)@, e),
{
    match e {
        TextEdit::Push(c) => crate::text::push_char(s, c),
        TextEdit::Pop => {
            let cs = crate::text::chars_of(s.as_str());
            if cs.len() > 0 {
                *s = crate::text::string_of_range(&cs, 0, cs.len() - 1);
            }
        },
        TextEdit::Clear => {
            *s = String::new();
        },
    }
}

/// Where `id` is among the followed downloads, if it is.
pub open spec fn download_position(d: Seq<(Seq<char>, DownloadView)>, id: Seq<char>) -> Option<int> {
    if download_ids(d).contains(id) {
        Some(download_ids(d).index_of(id))
    } else {
        None
    }
}

impl App {
    /// The text a filter field shows: the mission's collection name, or the
    /// field's own text.
    pub open spec fn field_text(self, f: FilterField) -> Seq<char> {
        match f {
            FilterField::Satellite => self.satellite.collection_name_spec(),
            FilterField::Product => self.product@,
            FilterField::StartDate => self.start_date@,
            FilterField::EndDate => self.end_date@,
            FilterField::Tile => self.tile@,
            FilterField::CloudCover => self.cloud_cover@,
            FilterField::Point => self.point@,
            FilterField::Bbox => self.bbox@,
            FilterField::Geojson => self.geojson@,
            FilterField::MaxResults => self.max_results@,
        }
    }

    /// The text a filter field shows.
    pub fn field_value(&self, field: FilterField) -> (r: String)
        ensures
            r@ == self.field_text(field),
    {
        match field {
            FilterField::Satellite => self.satellite.collection_name().to_owned(),
            FilterField::Product => self.product.clone(),
            FilterField::StartDate => self.start_date.clone(),
            FilterField::EndDate => self.end_date.clone(),
            FilterField::Tile => self.tile.clone(),
            FilterField::CloudCover => self.cloud_cover.clone(),
            FilterField::Point => self.point.clone(),
            FilterField::Bbox => self.bbox.clone(),
            FilterField::Geojson => self.geojson.clone(),
            FilterField::MaxResults => self.max_results.clone(),
        }
    }

    /// This session with the text of filter field `f` replaced by `t`; the
    /// satellite and product selectors have no text to replace.
    pub open spec fn with_field_text(self, f: FilterField, t: String) -> App {
        match f {
            FilterField::Satellite => self,
            FilterField::Product => self,
            FilterField::StartDate => App { start_date: t, ..self },
            FilterField::EndDate => App { end_date: t, ..self },
            FilterField::Tile => App { tile: t, ..self },
            FilterField::CloudCover => App { cloud_cover: t, ..self },
            FilterField::Point => App { point: t, ..self },
            FilterField::Bbox => App { bbox: t, ..self },
            FilterField::Geojson => App { geojson: t, ..self },
            FilterField::MaxResults => App { max_results: t, ..self },
        }
    }

    /// The editable text of a filter field: there is one exactly when the
    /// field is a text field, and what is written through it becomes the
    /// field's text, nothing else of the session changing.
    pub fn field_value_mut(&mut self, field: FilterField) -> (r: Option<&mut String>)
        ensures
            r is Some <==> field.is_text_spec(),
            match r {
                Some(v) => (*v)@ == old(self).field_text(field) && *final(self) == old(
                    self,
                ).with_field_text(field, *final(v)),
                None => *final(self) == *old(self),
            },
    {
        match field {
            FilterField::Satellite | FilterField::Product => None,
            FilterField::StartDate => Some(&mut self.start_date),
            FilterField::EndDate => Some(&mut self.end_date),
            FilterField::Tile => Some(&mut self.tile),
            FilterField::CloudCover => Some(&mut self.cloud_cover),
            FilterField::Point => Some(&mut self.point),
            FilterField::Bbox => Some(&mut self.bbox),
            FilterField::Geojson => Some(&mut self.geojson),
            FilterField::MaxResults => Some(&mut self.max_results),
        }
    }

    /// `next` is this session after the selected filter field is edited.
    pub open spec fn field_edited(self, next: App, e: TextEdit) -> bool {
        &&& forall|f: FilterField| #[trigger] next.field_text(f) == if f == self.filter_field && f.is_text_spec() {
            edited(self.field_text(f), e)
        } else {
            self.field_text(f)
        }
        &&& next == (App {
            start_date: next.start_date,
            end_date: next.end_date,
            tile: next.tile,
            cloud_cover: next.cloud_cover,
            point: next.point,
            bbox: next.bbox,
            geojson: next.geojson,
            max_results: next.max_results,
            ..self
        })
    }

    /// Edits the text of the selected filter field; the satellite and
    /// product selectors are not text and stay as they are.
    pub fn edit_field(&mut self, e: TextEdit)
        requires
            old(self).wf(),
        ensures
            final(self).wf(),
            old(self).field_edited(*final(self), e),
    {
        let field = self.filter_field;
        if let Some(value) = self.field_value_mut(field) {
            edit_text(value, e);
        }
    }

    /// Where the download of `id` is in `downloads`, if it is followed.
    fn find_download(&self, id: &str) -> (r: Option<usize>)
        requires
            self.wf(),
        ensures
            match r {
                Some(i) => i < self.downloads@.len() && download_position(self.download_list(), id@)
                    == Some(i as int),
                None => download_position(self.download_list(), id@) is None,
            },
    {
        let ghost ids = download_ids(self.download_list());
        let mut i: usize = 0;
        while i < self.downloads.len()
            invariant
                i <= self.downloads@.len(),
                ids == download_ids(self.download_list()),
                ids.len() == self.downloads@.len(),
                ids.no_duplicates(),
                forall|j: int| 0 <= j < i ==> ids[j] != id@,
            decreases self.downloads@.len() - i,
        {
            assert(ids[i as int] == self.downloads@[i as int].id@);
            if str_eq(self.downloads[i].id.as_str(), id) {
                proof {
                    assert(ids.contains(id@));
                    let c = ids.index_of(id@);
                    assert(c == i as int) by {
                        if c != i as int {
                            assert(ids[c] == ids[i as int]);
                        }
                    }
                }
                return Some(i);
            }
            i += 1;
        }
        assert(!ids.contains(id@));
        None
    }

    /// Whether `id` is marked, and where.
    fn find_marked(&self, id: &str) -> (r: Option<usize>)
        requires
            self.wf(),
        ensures
            r matches Some(i) ==> i < self.marked@.len() && i == self.marked_ids().index_of(id@),
            r is Some <==> self.marked_ids().contains(id@),
    {
        let ghost ids = self.marked_ids();
        let mut i: usize = 0;
        while i < self.marked.len()
            invariant
                i <= self.marked@.len(),
                ids == self.marked_ids(),
                ids.len() == self.marked@.len(),
                ids.no_duplicates(),
                forall|j: int| 0 <= j < i ==> ids[j] != id@,
            decreases self.marked@.len() - i,
        {
            assert(ids[i as int] == self.marked@[i as int]@);
            if str_eq(self.marked[i].as_str(), id) {
                proof {
                    assert(ids.contains(id@));
                    let c = ids.index_of(id@);
                    assert(c == i as int) by {
                        if c != i as int {
                            assert(ids[c] == ids[i as int]);
                        }
                    }
                }
                return Some(i);
            }
            i += 1;
        }
        assert(!ids.contains(id@));
        None
    }

    /// Whether the product was downloaded in this session.
    pub fn is_downloaded(&self, product_id: &str) -> (r: bool)
        ensures
            r == self.downloaded().contains(product_id@),
    {
        let ghost ids = self.downloaded();
        let mut i: usize = 0;
        while i < self.downloaded_ids.len()
            invariant
                i <= self.downloaded_ids@.len(),
                ids == self.downloaded(),
                ids.len() == self.downloaded_ids@.len(),
                forall|j: int| 0 <= j < i ==> ids[j] != product_id@,
            decreases self.downloaded_ids@.len() - i,
        {
            assert(ids[i as int] == self.downloaded_ids@[i as int]@);
            if str_eq(self.downloaded_ids[i].as_str(), product_id) {
                return true;
            }
            i += 1;
        }
        false
    }

    /// Whether the product's download is under way.
    pub fn is_downloading(&self, product_id: &str) -> (r: bool)
        requires
            self.wf(),
        ensures
            r == match download_position(self.download_list(), product_id@) {
                Some(i) => self.download_list()[i].1.status is Downloading,
                None => false,
            },
    {
        match self.find_download(product_id) {
            Some(i) => {
                assert(self.download_list()[i as int] == (
                    self.downloads@[i as int].id@,
                    self.downloads@[i as int].state@,
                ));
                match self.downloads[i].state.status {
                    DownloadUiStatus::Downloading => true,
                    _ => false,
                }
            },
            None => false,
        }
    }
}

/// `id` taken out of `ids` where it is there, added at the end where it is not.
pub open spec fn toggled(ids: Seq<Seq<char>>, id: Seq<char>) -> Seq<Seq<char>> {
    if ids.contains(id) {
        ids.remove(ids.index_of(id))
    } else {
        ids.push(id)
    }
}

/// The status line after marking: how many products are marked.
pub open spec fn marked_status(n: nat) -> Seq<char> {
    if n == 0 {
        "No products marked"@
    } else {
        decimal_text(n) + " product(s) marked for download"@
    }
}

/// Taking an element out of a list without repeats leaves one without
/// repeats, and without that element.
pub proof fn lemma_remove_no_duplicates(s: Seq<Seq<char>>, i: int)
    requires
        s.no_duplicates(),
        0 <= i < s.len(),
    ensures
        s.remove(i).no_duplicates(),
        !s.remove(i).contains(s[i]),
        forall|x: Seq<char>| x != s[i] ==> (s.remove(i).contains(x) <==> s.contains(x)),
{
    let r = s.remove(i);
    s.remove_ensures(i);
    assert forall|a: int, b: int| 0 <= a < r.len() && 0 <= b < r.len() && a != b implies r[a] != r[b] by {
        let a2 = if a < i { a } else { a + 1 };
        let b2 = if b < i { b } else { b + 1 };
        assert(r[a] == s[a2] && r[b] == s[b2]);
    }
    if r.contains(s[i]) {
        let k = choose|k: int| 0 <= k < r.len() && r[k] == s[i];
        let k2 = if k < i { k } else { k + 1 };
        assert(r[k] == s[k2]);
    }
    assert forall|x: Seq<char>| x != s[i] implies (r.contains(x) <==> s.contains(x)) by {
        if s.contains(x) {
            let k = choose|k: int| 0 <= k < s.len() && s[k] == x;
            let k2 = if k < i { k } else { k - 1 };
            assert(r[k2] == x);
        }
        if r.contains(x) {
            let k = choose|k: int| 0 <= k < r.len() && r[k] == x;
            let k2 = if k < i { k } else { k + 1 };
            assert(s[k2] == x);
        }
    }
}

/// Adding an element that is not there to a list without repeats leaves one
/// without repeats.
pub proof fn lemma_push_no_duplicates(s: Seq<Seq<char>>, x: Seq<char>)
    requires
        s.no_duplicates(),
        !s.contains(x),
    ensures
        s.push(x).no_duplicates(),
{
    let r = s.push(x);
    assert forall|a: int, b: int| 0 <= a < r.len() && 0 <= b < r.len() && a != b implies r[a] != r[b] by {
        if a == s.len() {
            assert(r[b] == s[b]);
        } else if b == s.len() {
            assert(r[a] == s[a]);
        }
    }
}

impl App {
    /// `next` is this session after the selected result's mark is toggled.
    pub open spec fn mark_toggled(self, next: App) -> bool {
        &&& (self.selected_result < self.products@.len() ==> {
            &&& next.marked_ids() == toggled(
                self.marked_ids(),
                self.products@[self.selected_result as int].id@,
            )
            &&& next.status@ == marked_status(next.marked@.len())
            &&& next == (App {
                marked: next.marked,
                status: next.status,
                ..self
            })
        })
        &&& (self.selected_result >= self.products@.len() ==> next == self)
    }

    /// Marks the selected result for download, or unmarks it where it was
    /// marked, and says how many are marked; nothing without a selection.
    pub fn toggle_mark_selected(&mut self)
        requires
            old(self).wf(),
        ensures
            final(self).wf(),
            old(self).mark_toggled(*final(self)),
    {
        if self.selected_result >= self.products.len() {
            return;
        }
        let id = self.products[self.selected_result].id.clone();
        let ghost ids = self.marked_ids();
        match self.find_marked(id.as_str()) {
            Some(i) => {
                self.marked.remove(i);
                proof {
                    assert(self.marked_ids() =~= ids.remove(i as int));
                    lemma_remove_no_duplicates(ids, i as int);
                }
            },
            None => {
                self.marked.push(id);
                proof {
                    assert(self.marked_ids() =~= ids.push(id@));
                    lemma_push_no_duplicates(ids, id@);
                }
            },
        }
        let n = self.marked.len();
        if n == 0 {
            self.status = "No products marked".to_owned();
        } else {
            let mut text = decimal_string(n as u64);
            push_all(&mut text, " product(s) marked for download");
            self.status = text;
        }
    }
}

/// A download as it stands when queued under `label`.
pub open spec fn queued_view(label: Seq<char>) -> DownloadView {
    DownloadView { label, downloaded: 0, total: None, status: StatusView::Downloading }
}

/// The downloads with `id` set to `v`: replaced where it is followed, added
/// at the end where it is not.
pub open spec fn upsert(
    d: Seq<(Seq<char>, DownloadView)>,
    id: Seq<char>,
    v: DownloadView,
) -> Seq<(Seq<char>, DownloadView)> {
    match download_position(d, id) {
        Some(i) => d.update(i, (id, v)),
        None => d.push((id, v)),
    }
}

/// A download that is under way or done is not queued again; a failed one
/// is.
pub open spec fn blocks_requeue(v: DownloadView) -> bool {
    v.status is Downloading || v.status is Completed
}

/// Downloads, queue order and what was queued so far.
pub type QueueView = (Seq<(Seq<char>, DownloadView)>, Seq<Seq<char>>, Seq<(Seq<char>, Seq<char>)>);

/// The queue after considering one (product id, name) target.
pub open spec fn enqueue_step(q: QueueView, t: (Seq<char>, Seq<char>)) -> QueueView {
    let (d, order, queued) = q;
    let (id, name) = t;
    if download_position(d, id) matches Some(i) && blocks_requeue(d[i].1) {
        q
    } else {
        (
            upsert(d, id, queued_view(name)),
            if order.contains(id) { order } else { order.push(id) },
            queued.push(t),
        )
    }
}

/// The queue after considering each target in turn.
pub open spec fn enqueue_all(q: QueueView, targets: Seq<(Seq<char>, Seq<char>)>) -> QueueView
    decreases targets.len(),
{
    if targets.len() == 0 {
        q
    } else {
        enqueue_step(enqueue_all(q, targets.drop_last()), targets.last())
    }
}

/// (id, name) pairs as plain values.
pub open spec fn pairs_view(v: Seq<(String, String)>) -> Seq<(Seq<char>, Seq<char>)> {
    v.map_values(|p: (String, String)| (p.0@, p.1@))
}

/// The status line after queueing `n` downloads.
pub open spec fn queued_status(n: nat) -> Seq<char> {
    if n == 0 {
        "Nothing new to download (already queued or completed)"@
    } else {
        "Queued "@ + decimal_text(n) + " download(s) (max "@ + decimal_text(
            MAX_CONCURRENT_DOWNLOADS as nat,
        ) + " concurrent)…"@
    }
}

impl App {
    /// Whether `id` is in the download order.
    fn in_order(&self, id: &str) -> (r: bool)
        ensures
            r == self.order().contains(id@),
    {
        let ghost ids = self.order();
        let mut i: usize = 0;
        while i < self.download_order.len()
            invariant
                i <= self.download_order@.len(),
                ids == self.order(),
                ids.len() == self.download_order@.len(),
                forall|j: int| 0 <= j < i ==> ids[j] != id@,
            decreases self.download_order@.len() - i,
        {
            assert(ids[i as int] == self.download_order@[i as int]@);
            if str_eq(self.download_order[i].as_str(), id) {
                return true;
            }
            i += 1;
        }
        false
    }

    /// Queues the downloads of the targets that are neither under way nor
    /// done, clears the marks where any was queued, says what happened, and
    /// returns the (id, name) pairs queued, for the caller to start.
    pub fn enqueue_downloads(&mut self, targets: &Vec<(String, String)>) -> (queued: Vec<(String, String)>)
        requires
            old(self).wf(),
        ensures
            final(self).wf(),
            ({
                let q = enqueue_all(
                    (old(self).download_list(), old(self).order(), Seq::empty()),
                    pairs_view(targets@),
                );
                &&& final(self).download_list() == q.0
                &&& final(self).order() == q.1
                &&& pairs_view(queued@) == q.2
            }),
            final(self).status@ == queued_status(queued@.len()),
            queued@.len() > 0 ==> final(self).marked@.len() == 0,
            queued@.len() == 0 ==> final(self).marked == old(self).marked,
            *final(self) == (App {
                downloads: final(self).downloads,
                download_order: final(self).download_order,
                marked: final(self).marked,
                status: final(self).status,
                ..*old(self)
            }),
    {
        let ghost init: QueueView = (self.download_list(), self.order(), Seq::empty());
        let ghost tv = pairs_view(targets@);
        let ghost before = *self;
        let mut queued: Vec<(String, String)> = Vec::new();
        let mut k: usize = 0;
        while k < targets.len()
            invariant
                k <= targets@.len(),
                tv == pairs_view(targets@),
                tv.len() == targets@.len(),
                self.wf(),
                ({
                    let q = enqueue_all(init, tv.take(k as int));
                    &&& self.download_list() == q.0
                    &&& self.order() == q.1
                    &&& pairs_view(queued@) == q.2
                }),
                *self == (App {
                    downloads: self.downloads,
                    download_order: self.download_order,
                    ..before
                }),
            decreases targets@.len() - k,
        {
            let ghost q0 = enqueue_all(init, tv.take(k as int));
            assert(tv.take(k + 1).drop_last() == tv.take(k as int));
            assert(tv.take(k + 1).last() == tv[k as int]);
            let (id, name) = &targets[k];
            assert(tv[k as int] == (id@, name@));
            let pos = self.find_download(id.as_str());
            let skip = match pos {
                Some(i) => {
                    assert(self.download_list()[i as int] == (
                        self.downloads@[i as int].id@,
                        self.downloads@[i as int].state@,
                    ));
                    match self.downloads[i].state.status {
                        DownloadUiStatus::Downloading => true,
                        DownloadUiStatus::Completed(_) => true,
                        DownloadUiStatus::Failed(_) => false,
                    }
                },
                None => false,
            };
            if !skip {
                let ghost d0 = self.download_list();
                let entry = DownloadEntry {
                    id: id.clone(),
                    state: DownloadState {
                        label: name.clone(),
                        downloaded: 0,
                        total: None,
                        status: DownloadUiStatus::Downloading,
                    },
                };
                match pos {
                    Some(i) => {
                        self.downloads.set(i, entry);
                        proof {
                            assert(self.download_list() =~= d0.update(
                                i as int,
                                (id@, queued_view(name@)),
                            ));
                            assert(download_ids(self.download_list()) =~= download_ids(d0));
                        }
                    },
                    None => {
                        self.downloads.push(entry);
                        proof {
                            assert(self.download_list() =~= d0.push((id@, queued_view(name@))));
                            assert(download_ids(self.download_list()) =~= download_ids(d0).push(
                                id@,
                            ));
                            lemma_push_no_duplicates(download_ids(d0), id@);
                        }
                    },
                }
                if !self.in_order(id.as_str()) {
                    let ghost o0 = self.order();
                    self.download_order.push(id.clone());
                    proof {
                        assert(self.order() =~= o0.push(id@));
                        lemma_push_no_duplicates(o0, id@);
                    }
                }
                let ghost p0 = pairs_view(queued@);
                queued.push((id.clone(), name.clone()));
                assert(pairs_view(queued@) =~= p0.push((id@, name@)));
            }
            k += 1;
        }
        assert(tv.take(targets@.len() as int) == tv);
        let n = queued.len();
        if n == 0 {
            self.status = "Nothing new to download (already queued or completed)".to_owned();
        } else {
            self.marked = Vec::new();
            let mut text = "Queued ".to_owned();
            let count = decimal_string(n as u64);
            push_all(&mut text, count.as_str());
            push_all(&mut text, " download(s) (max ");
            let limit = decimal_string(MAX_CONCURRENT_DOWNLOADS as u64);
            push_all(&mut text, limit.as_str());
            push_all(&mut text, " concurrent)…");
            self.status = text;
        }
        queued
    }
}

/// The (id, name) pairs of a list of results.
pub open spec fn result_pairs(results: Seq<ResultEntry>) -> Seq<(Seq<char>, Seq<char>)> {
    results.map_values(|r: ResultEntry| (r.id@, r.name@))
}

impl App {
    /// What "download" takes: the marked results in list order, or the
    /// selected result where none is marked.
    pub open spec fn selection_targets(self) -> Seq<(Seq<char>, Seq<char>)> {
        if self.marked@.len() == 0 {
            if self.selected_result < self.products@.len() {
                seq![result_pairs(self.products@)[self.selected_result as int]]
            } else {
                Seq::empty()
            }
        } else {
            let marked = self.marked_ids();
            result_pairs(self.products@).filter(|p: (Seq<char>, Seq<char>)| marked.contains(p.0))
        }
    }

    /// Whether `id` is marked.
    pub(crate) fn is_marked(&self, id: &str) -> (r: bool)
        ensures
            r == self.marked_ids().contains(id@),
    {
        let ghost ids = self.marked_ids();
        let mut i: usize = 0;
        while i < self.marked.len()
            invariant
                i <= self.marked@.len(),
                ids == self.marked_ids(),
                ids.len() == self.marked@.len(),
                forall|j: int| 0 <= j < i ==> ids[j] != id@,
            decreases self.marked@.len() - i,
        {
            assert(ids[i as int] == self.marked@[i as int]@);
            if str_eq(self.marked[i].as_str(), id) {
                return true;
            }
            i += 1;
        }
        false
    }

    /// The (id, name) pairs of the selection targets.
    fn selection_pairs(&self) -> (r: Vec<(String, String)>)
        ensures
            pairs_view(r@) == self.selection_targets(),
    {
        let mut r: Vec<(String, String)> = Vec::new();
        if self.marked.len() == 0 {
            if self.selected_result < self.products.len() {
                let p = &self.products[self.selected_result];
                r.push((p.id.clone(), p.name.clone()));
                assert(pairs_view(r@) =~= seq![result_pairs(self.products@)[self.selected_result as int]]);
            } else {
                assert(pairs_view(r@) =~= Seq::<(Seq<char>, Seq<char>)>::empty());
            }
            return r;
        }
        let ghost marked = self.marked_ids();
        let ghost pred = |p: (Seq<char>, Seq<char>)| marked.contains(p.0);
        let ghost all = result_pairs(self.products@);
        let mut i: usize = 0;
        while i < self.products.len()
            invariant
                i <= self.products@.len(),
                marked == self.marked_ids(),
                pred == (|p: (Seq<char>, Seq<char>)| marked.contains(p.0)),
                all == result_pairs(self.products@),
                all.len() == self.products@.len(),
                pairs_view(r@) == all.take(i as int).filter(pred),
            decreases self.products@.len() - i,
        {
            proof {
                assert(all.take(i + 1).drop_last() == all.take(i as int));
                assert(all.take(i + 1).last() == all[i as int]);
                reveal_with_fuel(Seq::filter, 1);
            }
            let p = &self.products[i];
            assert(all[i as int] == (p.id@, p.name@));
            if self.is_marked(p.id.as_str()) {
                let ghost r0 = pairs_view(r@);
                r.push((p.id.clone(), p.name.clone()));
                assert(pairs_view(r@) =~= r0.push((p.id@, p.name@)));
            }
            i += 1;
        }
        assert(all.take(self.products@.len() as int) == all);
        r
    }

    /// `next` is this session after the marked (or selected) results are queued for download, `queued` being the (id, name) pairs queued.
    pub open spec fn selection_queued(self, next: App, queued: Seq<(Seq<char>, Seq<char>)>) -> bool {
        &&& (self.selection_targets().len() == 0 ==> {
            &&& queued.len() == 0
            &&& next.status@ == "No product selected"@
            &&& next == (App { status: next.status, ..self })
        })
        &&& (self.selection_targets().len() > 0 ==> {
            let q = enqueue_all(
                (self.download_list(), self.order(), Seq::empty()),
                self.selection_targets(),
            );
            &&& next.download_list() == q.0
            &&& next.order() == q.1
            &&& queued == q.2
            &&& next.status@ == queued_status(queued.len())
            &&& (queued.len() > 0 ==> next.marked@.len() == 0)
            &&& (queued.len() == 0 ==> next.marked == self.marked)
            &&& next == (App {
                downloads: next.downloads,
                download_order: next.download_order,
                marked: next.marked,
                status: next.status,
                ..self
            })
        })
    }

    /// Starts downloading the marked results, or the selected one where
    /// none is marked; returns the pairs queued for the caller to start.
    pub fn start_download_selected(&mut self) -> (queued: Vec<(String, String)>)
        requires
            old(self).wf(),
        ensures
            final(self).wf(),
            old(self).selection_queued(*final(self), pairs_view(queued@)),
    {
        let targets = self.selection_pairs();
        if targets.len() == 0 {
            self.status = "No product selected".to_owned();
            return Vec::new();
        }
        self.enqueue_downloads(&targets)
    }

    /// `next` is this session after every result is queued for download, `queued` being the (id, name) pairs queued.
    pub open spec fn all_queued(self, next: App, queued: Seq<(Seq<char>, Seq<char>)>) -> bool {
        &&& (self.products@.len() == 0 ==> {
            &&& queued.len() == 0
            &&& next.status@ == "No products to download — search first"@
            &&& next == (App { status: next.status, ..self })
        })
        &&& (self.products@.len() > 0 ==> {
            let q = enqueue_all(
                (self.download_list(), self.order(), Seq::empty()),
                result_pairs(self.products@),
            );
            &&& next.download_list() == q.0
            &&& next.order() == q.1
            &&& queued == q.2
            &&& next.status@ == queued_status(queued.len())
            &&& (queued.len() > 0 ==> next.marked@.len() == 0)
            &&& (queued.len() == 0 ==> next.marked == self.marked)
            &&& next == (App {
                downloads: next.downloads,
                download_order: next.download_order,
                marked: next.marked,
                status: next.status,
                ..self
            })
        })
    }

    /// Starts downloading every result; returns the pairs queued for the
    /// caller to start.
    pub fn start_download_all(&mut self) -> (queued: Vec<(String, String)>)
        requires
            old(self).wf(),
        ensures
            final(self).wf(),
            old(self).all_queued(*final(self), pairs_view(queued@)),
    {
        if self.products.len() == 0 {
            self.status = "No products to download — search first".to_owned();
            return Vec::new();
        }
        let mut targets: Vec<(String, String)> = Vec::new();
        let mut i: usize = 0;
        while i < self.products.len()
            invariant
                i <= self.products@.len(),
                pairs_view(targets@) == result_pairs(self.products@).take(i as int),
            decreases self.products@.len() - i,
        {
            let p = &self.products[i];
            let ghost t0 = pairs_view(targets@);
            targets.push((p.id.clone(), p.name.clone()));
            assert(pairs_view(targets@) =~= t0.push((p.id@, p.name@)));
            assert(result_pairs(self.products@).take(i + 1) =~= result_pairs(self.products@).take(
                i as int,
            ).push((p.id@, p.name@)));
            i += 1;
        }
        assert(result_pairs(self.products@).take(self.products@.len() as int) =~= result_pairs(
            self.products@,
        ));
        self.enqueue_downloads(&targets)
    }
}

/// The filters of a search, each trimmed, as the interface hands them to
/// the background search.
#[derive(Debug)]
pub struct SearchParams {
    pub satellite: Satellite,
    pub product: String,
    pub start_date: String,
    pub end_date: String,
    pub tile: String,
    pub cloud_cover: String,
    pub point: String,
    pub bbox: String,
    pub geojson: String,
    pub max_results: String,
}

/// How a background search ended.
#[derive(Debug)]
pub enum SearchOutcome {
    /// Products were found.
    Success(Vec<ResultEntry>),
    /// The catalogue had nothing matching.
    Empty,
    /// The search failed with this message.
    Failed(String),
}

/// What a background download reports.
#[derive(Debug)]
pub enum DownloadProgressEvent {
    Started { label: String, total: Option<u64> },
    Progress { downloaded: u64 },
    Completed { path: String },
    Failed { message: String },
}

/// A download report as plain values.
pub enum EventView {
    Started { label: Seq<char>, total: Option<u64> },
    Progress { downloaded: u64 },
    Completed { path: Seq<char> },
    Failed { message: Seq<char> },
}

impl View for DownloadProgressEvent {
    type V = EventView;

    open spec fn view(&self) -> EventView {
        match self {
            DownloadProgressEvent::Started { label, total } => EventView::Started {
                label: label@,
                total: *total,
            },
            DownloadProgressEvent::Progress { downloaded } => EventView::Progress {
                downloaded: *downloaded,
            },
            DownloadProgressEvent::Completed { path } => EventView::Completed { path: path@ },
            DownloadProgressEvent::Failed { message } => EventView::Failed { message: message@ },
        }
    }
}

/// The results after appending `incoming`, skipping those whose id is
/// already listed (or was appended before them).
pub open spec fn appended(
    existing: Seq<(Seq<char>, Seq<char>)>,
    incoming: Seq<(Seq<char>, Seq<char>)>,
) -> Seq<(Seq<char>, Seq<char>)>
    decreases incoming.len(),
{
    if incoming.len() == 0 {
        existing
    } else {
        let prev = appended(existing, incoming.drop_last());
        if prev.map_values(|p: (Seq<char>, Seq<char>)| p.0).contains(incoming.last().0) {
            prev
        } else {
            prev.push(incoming.last())
        }
    }
}

/// The positions in `incoming` of the results that `appended` keeps.
pub open spec fn kept_positions(
    existing: Seq<(Seq<char>, Seq<char>)>,
    incoming: Seq<(Seq<char>, Seq<char>)>,
) -> Seq<int>
    decreases incoming.len(),
{
    if incoming.len() == 0 {
        Seq::empty()
    } else {
        let prev = appended(existing, incoming.drop_last());
        let kept = kept_positions(existing, incoming.drop_last());
        if prev.map_values(|p: (Seq<char>, Seq<char>)| p.0).contains(incoming.last().0) {
            kept
        } else {
            kept.push(incoming.len() - 1)
        }
    }
}

/// A search failure's message without the prefix its error kind adds.
pub open spec fn failure_text(err: Seq<char>) -> Seq<char> {
    if crate::text::starts_with_seq(err, "search failed: "@) {
        err.skip(15)
    } else if crate::text::starts_with_seq(err, "invalid argument: "@) {
        err.skip(18)
    } else {
        err
    }
}

/// A download as it is first seen by a report for an unknown id.
pub open spec fn unknown_download(id: Seq<char>) -> DownloadView {
    DownloadView { label: id, downloaded: 0, total: None, status: StatusView::Downloading }
}

/// A download after a report.
pub open spec fn reported(v: DownloadView, e: EventView) -> DownloadView {
    match e {
        EventView::Started { label, total } => DownloadView {
            label,
            total,
            status: StatusView::Downloading,
            ..v
        },
        EventView::Progress { downloaded } => DownloadView { downloaded, ..v },
        EventView::Completed { path } => DownloadView { status: StatusView::Completed(path), ..v },
        EventView::Failed { message } => DownloadView { status: StatusView::Failed(message), ..v },
    }
}

/// `ids` with `id` taken out where it is there.
pub open spec fn without(ids: Seq<Seq<char>>, id: Seq<char>) -> Seq<Seq<char>> {
    if ids.contains(id) {
        ids.remove(ids.index_of(id))
    } else {
        ids
    }
}

/// `ids` with `id` added at the end where it is not there.
pub open spec fn with(ids: Seq<Seq<char>>, id: Seq<char>) -> Seq<Seq<char>> {
    if ids.contains(id) {
        ids
    } else {
        ids.push(id)
    }
}

impl App {
    /// `next` is this session after a search is asked for, `r` being the filters handed to it (none while one is under way).
    pub open spec fn search_started(self, next: App, append: bool, r: Option<SearchParams>) -> bool {
        &&& (self.searching ==> {
            &&& r is None
            &&& next.status@ == "Search already in progress"@
            &&& next == (App { status: next.status, ..self })
        })
        &&& (!self.searching ==> {
            &&& r matches Some(p) && {
                &&& p.satellite == self.satellite
                &&& p.product@ == crate::text::trim_spec(self.product@)
                &&& p.start_date@ == crate::text::trim_spec(self.start_date@)
                &&& p.end_date@ == crate::text::trim_spec(self.end_date@)
                &&& p.tile@ == crate::text::trim_spec(self.tile@)
                &&& p.cloud_cover@ == crate::text::trim_spec(self.cloud_cover@)
                &&& p.point@ == crate::text::trim_spec(self.point@)
                &&& p.bbox@ == crate::text::trim_spec(self.bbox@)
                &&& p.geojson@ == crate::text::trim_spec(self.geojson@)
                &&& p.max_results@ == crate::text::trim_spec(self.max_results@)
            }
            &&& next.status@ == (if append {
                "Searching (append)…"@
            } else {
                "Searching…"@
            })
            &&& next == (App {
                searching: true,
                status: next.status,
                ..self
            })
        })
    }

    /// Starts a search unless one is under way: marks the session as
    /// searching, says so, and returns the trimmed filters for the caller to
    /// run the search with; `None` (and a message) while one is under way.
    pub fn start_search(&mut self, append: bool) -> (r: Option<SearchParams>)
        requires
            old(self).wf(),
        ensures
            final(self).wf(),
            old(self).search_started(*final(self), append, r),
    {
        if self.searching {
            self.status = "Search already in progress".to_owned();
            return None;
        }
        self.searching = true;
        self.status = if append {
            "Searching (append)…".to_owned()
        } else {
            "Searching…".to_owned()
        };
        Some(
            SearchParams {
                satellite: self.satellite,
                product: trimmed(self.product.as_str()),
                start_date: trimmed(self.start_date.as_str()),
                end_date: trimmed(self.end_date.as_str()),
                tile: trimmed(self.tile.as_str()),
                cloud_cover: trimmed(self.cloud_cover.as_str()),
                point: trimmed(self.point.as_str()),
                bbox: trimmed(self.bbox.as_str()),
                geojson: trimmed(self.geojson.as_str()),
                max_results: trimmed(self.max_results.as_str()),
            },
        )
    }

    /// Whether a result with this id is listed.
    fn has_result(&self, id: &str) -> (r: bool)
        ensures
            r == result_ids(self.products@).contains(id@),
    {
        let ghost ids = result_ids(self.products@);
        let mut i: usize = 0;
        while i < self.products.len()
            invariant
                i <= self.products@.len(),
                ids == result_ids(self.products@),
                ids.len() == self.products@.len(),
                forall|j: int| 0 <= j < i ==> ids[j] != id@,
            decreases self.products@.len() - i,
        {
            assert(ids[i as int] == self.products@[i as int].id@);
            if str_eq(self.products[i].id.as_str(), id) {
                return true;
            }
            i += 1;
        }
        false
    }

    /// Appends the incoming results whose ids are new; returns their
    /// positions in `incoming`.
    fn append_results(&mut self, incoming: &Vec<ResultEntry>) -> (kept: Vec<usize>)
        requires
            old(self).wf(),
        ensures
            final(self).wf(),
            result_pairs(final(self).products@) == appended(
                result_pairs(old(self).products@),
                result_pairs(incoming@),
            ),
            kept@.map_values(|k: usize| k as int) == kept_positions(
                result_pairs(old(self).products@),
                result_pairs(incoming@),
            ),
            final(self).products@.len() >= old(self).products@.len(),
            *final(self) == (App { products: final(self).products, ..*old(self) }),
    {
        let ghost start = result_pairs(self.products@);
        let ghost inc = result_pairs(incoming@);
        let ghost before = *self;
        let mut kept: Vec<usize> = Vec::new();
        let mut i: usize = 0;
        while i < incoming.len()
            invariant
                i <= incoming@.len(),
                inc == result_pairs(incoming@),
                inc.len() == incoming@.len(),
                self.wf(),
                result_pairs(self.products@) == appended(start, inc.take(i as int)),
                self.products@.len() >= before.products@.len(),
                kept@.map_values(|k: usize| k as int) == kept_positions(start, inc.take(i as int)),
                *self == (App { products: self.products, ..before }),
            decreases incoming@.len() - i,
        {
            let ghost prev = result_pairs(self.products@);
            assert(inc.take(i + 1).drop_last() == inc.take(i as int));
            assert(inc.take(i + 1).last() == inc[i as int]);
            assert(prev.map_values(|p: (Seq<char>, Seq<char>)| p.0) =~= result_ids(self.products@));
            let item = &incoming[i];
            assert(inc[i as int] == (item.id@, item.name@));
            if !self.has_result(item.id.as_str()) {
                let ghost k0 = kept@.map_values(|k: usize| k as int);
                self.products.push(ResultEntry { id: item.id.clone(), name: item.name.clone() });
                kept.push(i);
                assert(result_pairs(self.products@) =~= prev.push((item.id@, item.name@)));
                assert(kept@.map_values(|k: usize| k as int) =~= k0.push(i as int));
            }
            i += 1;
        }
        assert(inc.take(incoming@.len() as int) == inc);
        kept
    }

    /// Takes in how a search ended: lists the products found (appending the
    /// new ones, or replacing the list and clearing selection and marks),
    /// says what happened, and moves the focus to the results where there
    /// are any. Returns the positions in the found list of the products now
    /// listed.
    pub fn finish_search(&mut self, outcome: &SearchOutcome, append: bool) -> (kept: Vec<usize>)
        requires
            old(self).wf(),
        ensures
            final(self).wf(),
            !final(self).searching,
            match outcome {
                SearchOutcome::Success(found) => {
                    let listed = if append {
                        appended(result_pairs(old(self).products@), result_pairs(found@))
                    } else {
                        result_pairs(found@)
                    };
                    &&& result_pairs(final(self).products@) == listed
                    &&& kept@.map_values(|k: usize| k as int) == (if append {
                        kept_positions(result_pairs(old(self).products@), result_pairs(found@))
                    } else {
                        Seq::new(found@.len(), |k: int| k)
                    })
                    &&& final(self).status@ == (if append {
                        "Appended "@ + decimal_text((listed.len() - old(self).products@.len()) as nat)
                            + " new product(s) ("@ + decimal_text(old(self).products@.len()) + " → "@
                            + decimal_text(listed.len()) + ")"@
                    } else {
                        "Found "@ + decimal_text(found@.len()) + " product(s)"@
                    })
                    &&& final(self).focus == (if listed.len() > 0 {
                        Pane::Results
                    } else {
                        old(self).focus
                    })
                    &&& final(self).selected_result == (if append {
                        old(self).selected_result
                    } else {
                        0
                    })
                    &&& final(self).marked@.len() == (if append {
                        old(self).marked@.len()
                    } else {
                        0
                    })
                    &&& append ==> final(self).marked == old(self).marked
                    &&& *final(self) == (App {
                        products: final(self).products,
                        selected_result: final(self).selected_result,
                        marked: final(self).marked,
                        status: final(self).status,
                        focus: final(self).focus,
                        searching: false,
                        ..*old(self)
                    })
                },
                SearchOutcome::Empty => {
                    &&& kept@.len() == 0
                    &&& append ==> {
                        &&& final(self).status@ == "No new products matched — existing list kept"@
                        &&& *final(self) == (App {
                            status: final(self).status,
                            searching: false,
                            ..*old(self)
                        })
                    }
                    &&& !append ==> {
                        &&& final(self).status@
                            == "No products matched these filters — try relaxing dates, cloud cover, or AOI"@
                        &&& final(self).products@.len() == 0
                        &&& final(self).marked@.len() == 0
                        &&& *final(self) == (App {
                            products: final(self).products,
                            selected_result: 0,
                            marked: final(self).marked,
                            status: final(self).status,
                            searching: false,
                            ..*old(self)
                        })
                    }
                },
                SearchOutcome::Failed(err) => {
                    &&& kept@.len() == 0
                    &&& final(self).status@ == "Search failed: "@ + failure_text(err@)
                    &&& *final(self) == (App {
                        status: final(self).status,
                        searching: false,
                        ..*old(self)
                    })
                },
            },
    {
        self.searching = false;
        match outcome {
            SearchOutcome::Success(found) => {
                let mut kept: Vec<usize> = Vec::new();
                if append {
                    let before = self.products.len();
                    kept = self.append_results(found);
                    let after = self.products.len();
                    let mut text = "Appended ".to_owned();
                    push_all(&mut text, decimal_string((after - before) as u64).as_str());
                    push_all(&mut text, " new product(s) (");
                    push_all(&mut text, decimal_string(before as u64).as_str());
                    push_all(&mut text, " → ");
                    push_all(&mut text, decimal_string(after as u64).as_str());
                    push_all(&mut text, ")");
                    self.status = text;
                } else {
                    let mut list: Vec<ResultEntry> = Vec::new();
                    let mut i: usize = 0;
                    while i < found.len()
                        invariant
                            i <= found@.len(),
                            result_pairs(list@) == result_pairs(found@).take(i as int),
                            kept@.map_values(|k: usize| k as int) == Seq::new(i as nat, |k: int| k),
                        decreases found@.len() - i,
                    {
                        let ghost l0 = result_pairs(list@);
                        let ghost k0 = kept@.map_values(|k: usize| k as int);
                        list.push(ResultEntry { id: found[i].id.clone(), name: found[i].name.clone() });
                        kept.push(i);
                        assert(result_pairs(list@) =~= l0.push((found@[i as int].id@, found@[i as int].name@)));
                        assert(result_pairs(found@).take(i + 1) =~= result_pairs(found@).take(i as int).push(
                            (found@[i as int].id@, found@[i as int].name@),
                        ));
                        assert(kept@.map_values(|k: usize| k as int) =~= k0.push(i as int));
                        assert(Seq::new((i + 1) as nat, |k: int| k) =~= Seq::new(i as nat, |k: int| k).push(
                            i as int,
                        ));
                        i += 1;
                    }
                    assert(result_pairs(found@).take(found@.len() as int) == result_pairs(found@));
                    self.products = list;
                    self.selected_result = 0;
                    self.marked = Vec::new();
                    let mut text = "Found ".to_owned();
                    push_all(&mut text, decimal_string(found.len() as u64).as_str());
                    push_all(&mut text, " product(s)");
                    self.status = text;
                }
                if self.products.len() > 0 {
                    self.focus = Pane::Results;
                }
                kept
            },
            SearchOutcome::Empty => {
                if append {
                    self.status = "No new products matched — existing list kept".to_owned();
                } else {
                    self.products = Vec::new();
                    self.selected_result = 0;
                    self.marked = Vec::new();
                    self.status =
                        "No products matched these filters — try relaxing dates, cloud cover, or AOI".to_owned();
                }
                Vec::new()
            },
            SearchOutcome::Failed(err) => {
                let mut text = "Search failed: ".to_owned();
                let msg = failure_message(err.as_str());
                push_all(&mut text, msg.as_str());
                self.status = text;
                Vec::new()
            },
        }
    }
}

/// A search failure's message without the prefix its error kind adds.
fn failure_message(err: &str) -> (r: String)
    ensures
        r@ == failure_text(err@),
{
    let v = crate::text::chars_of(err);
    let p1 = crate::text::chars_of("search failed: ");
    let p2 = crate::text::chars_of("invalid argument: ");
    proof {
        reveal_strlit("search failed: ");
        reveal_strlit("invalid argument: ");
    }
    if crate::text::starts_with_exec(&v, &p1) {
        let rest = crate::text::sub_vec(&v, 15, v.len());
        crate::text::string_of(&rest)
    } else if crate::text::starts_with_exec(&v, &p2) {
        let rest = crate::text::sub_vec(&v, 18, v.len());
        crate::text::string_of(&rest)
    } else {
        err.to_owned()
    }
}

/// A copy of a download status.
fn copy_status(s: &DownloadUiStatus) -> (r: DownloadUiStatus)
    ensures
        r@ == s@,
{
    match s {
        DownloadUiStatus::Downloading => DownloadUiStatus::Downloading,
        DownloadUiStatus::Completed(p) => DownloadUiStatus::Completed(p.clone()),
        DownloadUiStatus::Failed(m) => DownloadUiStatus::Failed(m.clone()),
    }
}

impl App {
    /// The download of `id` as a report finds it: the followed one, or a
    /// fresh one labelled with the id.
    pub open spec fn report_base(self, id: Seq<char>) -> DownloadView {
        match download_position(self.download_list(), id) {
            Some(i) => self.download_list()[i].1,
            None => unknown_download(id),
        }
    }

    /// Takes in what a background download reports: updates (or starts
    /// following) the download; a finished one counts as downloaded and is
    /// unmarked; finishing and failing are announced.
    #[verifier::rlimit(50)]
    #[verifier::spinoff_prover]
    pub fn apply_download_event(&mut self, id: &str, event: &DownloadProgressEvent)
        requires
            old(self).wf(),
        ensures
            final(self).wf(),
            final(self).download_list() == upsert(
                old(self).download_list(),
                id@,
                reported(old(self).report_base(id@), event@),
            ),
            match event@ {
                EventView::Completed { path } => {
                    &&& final(self).downloaded() == with(old(self).downloaded(), id@)
                    &&& final(self).marked_ids() == without(old(self).marked_ids(), id@)
                    &&& final(self).status@ == "Download complete: "@ + path
                },
                EventView::Failed { message } => {
                    &&& final(self).downloaded_ids == old(self).downloaded_ids
                    &&& final(self).marked == old(self).marked
                    &&& final(self).status@ == "Download failed: "@ + message
                },
                _ => {
                    &&& final(self).downloaded_ids == old(self).downloaded_ids
                    &&& final(self).marked == old(self).marked
                    &&& final(self).status == old(self).status
                },
            },
            *final(self) == (App {
                downloads: final(self).downloads,
                downloaded_ids: final(self).downloaded_ids,
                marked: final(self).marked,
                status: final(self).status,
                ..*old(self)
            }),
    {
        let pos = self.find_download(id);
        let base = match pos {
            Some(i) => {
                assert(self.download_list()[i as int] == (
                    self.downloads@[i as int].id@,
                    self.downloads@[i as int].state@,
                ));
                let st = &self.downloads[i].state;
                DownloadState {
                    label: st.label.clone(),
                    downloaded: st.downloaded,
                    total: st.total,
                    status: copy_status(&st.status),
                }
            },
            None => DownloadState {
                label: id.to_owned(),
                downloaded: 0,
                total: None,
                status: DownloadUiStatus::Downloading,
            },
        };
        let state = match event {
            DownloadProgressEvent::Started { label, total } => DownloadState {
                label: label.clone(),
                total: *total,
                status: DownloadUiStatus::Downloading,
                ..base
            },
            DownloadProgressEvent::Progress { downloaded } => DownloadState {
                downloaded: *downloaded,
                ..base
            },
            DownloadProgressEvent::Completed { path } => DownloadState {
                status: DownloadUiStatus::Completed(path.clone()),
                ..base
            },
            DownloadProgressEvent::Failed { message } => DownloadState {
                status: DownloadUiStatus::Failed(message.clone()),
                ..base
            },
        };
        assert(state@ == reported(self.report_base(id@), event@));
        let ghost d0 = self.download_list();
        let entry = DownloadEntry { id: id.to_owned(), state };
        match pos {
            Some(i) => {
                self.downloads.set(i, entry);
                proof {
                    assert(self.download_list() =~= d0.update(i as int, (id@, state@)));
                    assert(download_ids(self.download_list()) =~= download_ids(d0));
                }
            },
            None => {
                self.downloads.push(entry);
                proof {
                    assert(self.download_list() =~= d0.push((id@, state@)));
                    assert(download_ids(self.download_list()) =~= download_ids(d0).push(id@));
                    lemma_push_no_duplicates(download_ids(d0), id@);
                }
            },
        }
        match event {
            DownloadProgressEvent::Completed { path } => {
                if !self.is_downloaded(id) {
                    let ghost o0 = self.downloaded();
                    self.downloaded_ids.push(id.to_owned());
                    proof {
                        assert(self.downloaded() =~= o0.push(id@));
                        lemma_push_no_duplicates(o0, id@);
                    }
                }
                let ghost m0 = self.marked_ids();
                match self.find_marked(id) {
                    Some(i) => {
                        self.marked.remove(i);
                        proof {
                            assert(self.marked_ids() =~= m0.remove(i as int));
                            lemma_remove_no_duplicates(m0, i as int);
                        }
                    },
                    None => {},
                }
                let mut text = "Download complete: ".to_owned();
                push_all(&mut text, path.as_str());
                self.status = text;
            },
            DownloadProgressEvent::Failed { message } => {
                let mut text = "Download failed: ".to_owned();
                push_all(&mut text, message.as_str());
                self.status = text;
            },
            _ => {},
        }
    }
}

/// The product type a form shows after its mission selector was read: the
/// mission's first known type when the mission changed or the shown type is
/// not valid for it, else the shown type. Returns the mission to remember
/// as previous and the type to show.
pub fn sync_product_with_satellite(
    satellite: Satellite,
    previous: Satellite,
    product: &str,
) -> (r: (Satellite, String))
    ensures
        r.0 == satellite,
        r.1@ == (if satellite != previous || !satellite.is_valid_product_spec(product@) {
            satellite.known_products_spec()[0]
        } else {
            product@
        }),
{
    if satellite != previous || !satellite.is_valid_product(product) {
        let known = satellite.known_products();
        (satellite, known[0].to_owned())
    } else {
        (satellite, product.to_owned())
    }
}

} // verus!
