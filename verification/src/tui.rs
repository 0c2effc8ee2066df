//! State and text of the interactive terminal interface.

use vstd::prelude::*;
use crate::dates::{decimal_string, decimal_text};
use crate::text::{push_all, push_char};

verus! {

/// Max parallel downloads (same default as the command line's `-j`).
pub const MAX_CONCURRENT_DOWNLOADS: usize = 4;

/// `2^53`: below it every integer is exactly an `f64`.
pub open spec fn two_53() -> nat {
    9007199254740992
}

/// Spacing of the `f64` values near `b`: 1 below `2^53`, doubling with
/// each further binary digit of `b`.
pub open spec fn f64_spacing(b: nat) -> nat
    decreases b,
{
    if b < two_53() {
        1
    } else {
        2 * f64_spacing(b / 2)
    }
}

/// `n / d` rounded to the nearest integer, ties to the even one.
pub open spec fn div_round_half_even(n: nat, d: nat) -> nat {
    let q = n / d;
    let r = n % d;
    if 2 * r > d || (2 * r == d && q % 2 == 1) {
        q + 1
    } else {
        q
    }
}

/// The value of `b as f64`: `b` rounded to the nearest multiple of the
/// spacing, ties to even.
pub open spec fn f64_value(b: nat) -> nat {
    div_round_half_even(b, f64_spacing(b)) * f64_spacing(b)
}

/// `1024^u`.
pub open spec fn pow1024(u: nat) -> nat
    decreases u,
{
    if u == 0 {
        1
    } else {
        1024 * pow1024((u - 1) as nat)
    }
}

/// The unit `format_bytes` picks: how often the size, as an `f64`, can be
/// divided by 1024 staying at least 1, at most 4 times (TB).
pub open spec fn byte_unit(b: nat) -> nat {
    let v = f64_value(b);
    if v >= pow1024(4) {
        4
    } else if v >= pow1024(3) {
        3
    } else if v >= pow1024(2) {
        2
    } else if v >= pow1024(1) {
        1
    } else {
        0
    }
}

/// The name of a unit.
pub open spec fn unit_name(u: nat) -> Seq<char> {
    if u == 0 {
        "B"@
    } else if u == 1 {
        "KB"@
    } else if u == 2 {
        "MB"@
    } else if u == 3 {
        "GB"@
    } else {
        "TB"@
    }
}

/// A byte count for display: plain bytes below 1 KB, otherwise the size in
/// the largest unit up to TB, with one decimal (rounded as `{:.1}` rounds
/// the `f64` quotient: to nearest, ties to even).
pub open spec fn format_bytes_spec(b: nat) -> Seq<char> {
    let u = byte_unit(b);
    if u == 0 {
        decimal_text(b) + " B"@
    } else {
        let tenths = div_round_half_even(f64_value(b) * 10, pow1024(u));
        decimal_text(tenths / 10) + "."@ + decimal_text(tenths % 10) + " "@ + unit_name(u)
    }
}

/// `n / d` rounded to nearest, ties to even.
fn div_round_half_even_exec(n: u128, d: u128) -> (r: u128)
    requires
        d > 0,
        n < 0x1_0000_0000_0000_0000_0000u128,
        d < 0x1_0000_0000_0000_0000_0000u128,
    ensures
        r == div_round_half_even(n as nat, d as nat),
{
    let q = n / d;
    let rem = n % d;
    if 2 * rem > d || (2 * rem == d && q % 2 == 1) {
        q + 1
    } else {
        q
    }
}

/// The value of `b as f64`, as an integer.
fn f64_value_exec(b: u64) -> (r: u128)
    ensures
        r == f64_value(b as nat),
        r <= 0x2_0000_0000_0000_0000,
{
    let mut c: u64 = b;
    let mut p: u128 = 1;
    while c >= 9007199254740992
        invariant
            f64_spacing(b as nat) == p * f64_spacing(c as nat),
            p * c <= b,
            p >= 1,
            p <= 0x1_0000_0000_0000_0000,
            p <= b || p == 1,
            b < p * (c + 1),
        decreases c,
    {
        assert(f64_spacing(c as nat) == 2 * f64_spacing((c / 2) as nat));
        assert(p * 2 * (c / 2) <= p * c) by (nonlinear_arith)
            requires
                p >= 1,
        ;
        assert(p * (c + 1) <= p * 2 * (c / 2 + 1)) by (nonlinear_arith)
            requires
                p >= 1,
        ;
        assert(p * 2 <= 0x1_0000_0000_0000_0000) by (nonlinear_arith)
            requires
                p * c <= b,
                c >= 9007199254740992,
                b < 0x1_0000_0000_0000_0000,
        ;
        assert(p * (2 * f64_spacing((c / 2) as nat)) == (p * 2) * f64_spacing((c / 2) as nat))
            by (nonlinear_arith);
        assert(p * 2 <= b) by (nonlinear_arith)
            requires
                p * c <= b,
                c >= 2,
                p >= 1,
        ;
        c = c / 2;
        p = p * 2;
    }
    assert(f64_spacing(c as nat) == 1);
    assert(f64_spacing(b as nat) == p) by (nonlinear_arith)
        requires
            f64_spacing(b as nat) == p * f64_spacing(c as nat),
            f64_spacing(c as nat) == 1,
    ;
    let q = div_round_half_even_exec(b as u128, p);
    assert(q <= c + 1) by (nonlinear_arith)
        requires
            p * c <= b,
            b < p * (c + 1),
            p >= 1,
            q == div_round_half_even(b as nat, p as nat),
    ;
    assert(q * p <= 0x2_0000_0000_0000_0000) by (nonlinear_arith)
        requires
            q <= c + 1,
            p * c <= b,
            p <= b || p == 1,
            p >= 1,
            b < 0x1_0000_0000_0000_0000,
    ;
    assert(f64_value(b as nat) == div_round_half_even(b as nat, p as nat) * p);
    q * p
}

/// Format a byte count for display, e.g. `512 B`, `1.5 KB`, `2.0 GB`.
pub fn format_bytes(bytes: u64) -> (r: String)
    ensures
        r@ == format_bytes_spec(bytes as nat),
{
    proof {
        reveal_with_fuel(pow1024, 5);
    }
    assert(pow1024(1) == 1024);
    assert(pow1024(2) == 1048576);
    assert(pow1024(3) == 1073741824);
    assert(pow1024(4) == 1099511627776);
    let v = f64_value_exec(bytes);
    let (unit, divisor): (u64, u128) = if v >= 1099511627776 {
        (4, 1099511627776)
    } else if v >= 1073741824 {
        (3, 1073741824)
    } else if v >= 1048576 {
        (2, 1048576)
    } else if v >= 1024 {
        (1, 1024)
    } else {
        (0, 1)
    };
    assert(byte_unit(bytes as nat) == unit);
    assert(divisor == pow1024(unit as nat));
    let mut r = String::new();
    if unit == 0 {
        push_all(&mut r, decimal_string(bytes).as_str());
        push_all(&mut r, " B");
        return r;
    }
    let tenths = div_round_half_even_exec(v * 10, divisor);
    assert(tenths <= v * 10 / 1024 + 1) by (nonlinear_arith)
        requires
            divisor >= 1024,
            tenths == div_round_half_even((v * 10) as nat, divisor as nat),
    ;
    push_all(&mut r, decimal_string((tenths / 10) as u64).as_str());
    push_all(&mut r, ".");
    push_all(&mut r, decimal_string((tenths % 10) as u64).as_str());
    push_all(&mut r, " ");
    let name = if unit == 1 {
        "KB"
    } else if unit == 2 {
        "MB"
    } else if unit == 3 {
        "GB"
    } else {
        "TB"
    };
    push_all(&mut r, name);
    r
}

/// The panes of the interface.
#[derive(Debug, Clone, Copy, PartialEq, Eq, Structural)]
pub enum Pane {
    Filters,
    Results,
    Downloads,
}

impl Pane {
    /// The pane after this one: Filters, Results, Downloads, Filters.
    pub open spec fn after(self) -> Pane {
        match self {
            Pane::Filters => Pane::Results,
            Pane::Results => Pane::Downloads,
            Pane::Downloads => Pane::Filters,
        }
    }

    /// The pane before this one.
    pub open spec fn before(self) -> Pane {
        match self {
            Pane::Filters => Pane::Downloads,
            Pane::Results => Pane::Filters,
            Pane::Downloads => Pane::Results,
        }
    }

    /// The pane after this one (Tab): Filters, Results, Downloads, Filters.
    pub fn next(self) -> (r: Pane)
        ensures
            r == self.after(),
    {
        match self {
            Pane::Filters => Pane::Results,
            Pane::Results => Pane::Downloads,
            Pane::Downloads => Pane::Filters,
        }
    }

    /// The pane before this one (Shift-Tab).
    pub fn previous(self) -> (r: Pane)
        ensures
            r == self.before(),
    {
        match self {
            Pane::Filters => Pane::Downloads,
            Pane::Results => Pane::Filters,
            Pane::Downloads => Pane::Results,
        }
    }
}

/// The search filters the interface edits, in display order.
#[derive(Debug, Clone, Copy, PartialEq, Eq, Structural)]
pub enum FilterField {
    Satellite,
    Product,
    StartDate,
    EndDate,
    Tile,
    CloudCover,
    Point,
    Bbox,
    Geojson,
    MaxResults,
}

impl FilterField {
    /// Every filter field, in display order.
    pub const ALL: [FilterField; 10] = [
        FilterField::Satellite,
        FilterField::Product,
        FilterField::StartDate,
        FilterField::EndDate,
        FilterField::Tile,
        FilterField::CloudCover,
        FilterField::Point,
        FilterField::Bbox,
        FilterField::Geojson,
        FilterField::MaxResults,
    ];

    /// Position of the field in display order.
    pub open spec fn index(self) -> int {
        match self {
            FilterField::Satellite => 0,
            FilterField::Product => 1,
            FilterField::StartDate => 2,
            FilterField::EndDate => 3,
            FilterField::Tile => 4,
            FilterField::CloudCover => 5,
            FilterField::Point => 6,
            FilterField::Bbox => 7,
            FilterField::Geojson => 8,
            FilterField::MaxResults => 9,
        }
    }

    /// The field at position `i` (0 to 9) of the display order.
    pub open spec fn at(i: int) -> FilterField {
        if i == 0 {
            FilterField::Satellite
        } else if i == 1 {
            FilterField::Product
        } else if i == 2 {
            FilterField::StartDate
        } else if i == 3 {
            FilterField::EndDate
        } else if i == 4 {
            FilterField::Tile
        } else if i == 5 {
            FilterField::CloudCover
        } else if i == 6 {
            FilterField::Point
        } else if i == 7 {
            FilterField::Bbox
        } else if i == 8 {
            FilterField::Geojson
        } else {
            FilterField::MaxResults
        }
    }

    /// Whether the field is edited as free text: all but the satellite and
    /// product selectors.
    pub open spec fn is_text_spec(self) -> bool {
        !(self == FilterField::Satellite || self == FilterField::Product)
    }

    /// The label shown in front of the field.
    pub open spec fn label_spec(self) -> Seq<char> {
        match self {
            FilterField::Satellite => "Satellite"@,
            FilterField::Product => "Product"@,
            FilterField::StartDate => "Start date"@,
            FilterField::EndDate => "End date"@,
            FilterField::Tile => "Tile"@,
            FilterField::CloudCover => "Cloud cover %"@,
            FilterField::Point => "Point (lat,lon)"@,
            FilterField::Bbox => "BBox (tlat,llon,blat,rlon)"@,
            FilterField::Geojson => "GeoJSON path"@,
            FilterField::MaxResults => "Max results"@,
        }
    }

    /// The label shown in front of the field.
    pub fn label(self) -> (r: &'static str)
        ensures
            r@ == self.label_spec(),
    {
        match self {
            FilterField::Satellite => "Satellite",
            FilterField::Product => "Product",
            FilterField::StartDate => "Start date",
            FilterField::EndDate => "End date",
            FilterField::Tile => "Tile",
            FilterField::CloudCover => "Cloud cover %",
            FilterField::Point => "Point (lat,lon)",
            FilterField::Bbox => "BBox (tlat,llon,blat,rlon)",
            FilterField::Geojson => "GeoJSON path",
            FilterField::MaxResults => "Max results",
        }
    }

    /// Whether the field is edited as free text (all but the satellite and
    /// product selectors).
    pub fn is_text(self) -> (r: bool)
        ensures
            r == self.is_text_spec(),
    {
        !matches!(self, FilterField::Satellite | FilterField::Product)
    }

    /// The next field in display order, wrapping around.
    pub fn next(self) -> (r: FilterField)
        ensures
            r == FilterField::at((self.index() + 1) % 10),
    {
        let i = self.position();
        FilterField::ALL[(i + 1) % 10]
    }

    /// The previous field in display order, wrapping around.
    pub fn previous(self) -> (r: FilterField)
        ensures
            r == FilterField::at((self.index() + 9) % 10),
    {
        let i = self.position();
        FilterField::ALL[(i + 9) % 10]
    }

    /// Position of the field in display order.
    fn position(self) -> (r: usize)
        ensures
            r == self.index(),
    {
        match self {
            FilterField::Satellite => 0,
            FilterField::Product => 1,
            FilterField::StartDate => 2,
            FilterField::EndDate => 3,
            FilterField::Tile => 4,
            FilterField::CloudCover => 5,
            FilterField::Point => 6,
            FilterField::Bbox => 7,
            FilterField::Geojson => 8,
            FilterField::MaxResults => 9,
        }
    }
}

/// Where a download stands, as the interface shows it.
#[derive(Debug, Clone)]
pub enum DownloadUiStatus {
    Downloading,
    /// Finished, saved at this path (or S3 URI).
    Completed(String),
    /// Failed with this message.
    Failed(String),
}

/// One download as the interface shows it.
#[derive(Debug, Clone)]
pub struct DownloadState {
    pub label: String,
    pub downloaded: u64,
    pub total: Option<u64>,
    pub status: DownloadUiStatus,
}

/// Where a download stands, as plain values.
pub enum StatusView {
    Downloading,
    Completed(Seq<char>),
    Failed(Seq<char>),
}

impl View for DownloadUiStatus {
    type V = StatusView;

    open spec fn view(&self) -> StatusView {
        match self {
            DownloadUiStatus::Downloading => StatusView::Downloading,
            DownloadUiStatus::Completed(p) => StatusView::Completed(p@),
            DownloadUiStatus::Failed(m) => StatusView::Failed(m@),
        }
    }
}

/// One download as plain values.
pub struct DownloadView {
    pub label: Seq<char>,
    pub downloaded: u64,
    pub total: Option<u64>,
    pub status: StatusView,
}

impl View for DownloadState {
    type V = DownloadView;

    open spec fn view(&self) -> DownloadView {
        DownloadView {
            label: self.label@,
            downloaded: self.downloaded,
            total: self.total,
            status: self.status@,
        }
    }
}

/// `s` cut to at most `max` characters, an ellipsis marking a cut.
pub open spec fn truncate_spec(s: Seq<char>, max: nat) -> Seq<char> {
    if max == 0 {
        Seq::empty()
    } else if s.len() <= max {
        s
    } else if max <= 1 {
        seq!['…']
    } else {
        s.take(max - 1).push('…')
    }
}

/// Cut `s` to at most `max` characters, ending a cut text with `…`.
pub fn truncate(s: &str, max: usize) -> (r: String)
    ensures
        r@ == truncate_spec(s@, max as nat),
{
    if max == 0 {
        return String::new();
    }
    let cs = crate::text::chars_of(s);
    if cs.len() <= max {
        return s.to_owned();
    }
    let mut r = String::new();
    if max <= 1 {
        push_char(&mut r, '…');
        return r;
    }
    let mut r = crate::text::string_of_range(&cs, 0, max - 1);
    push_char(&mut r, '…');
    r
}

/// The XML text of one character: `&`, `<`, `>` and `"` as entities.
pub open spec fn xml_char(c: char) -> Seq<char> {
    if c == '&' {
        "&amp;"@
    } else if c == '<' {
        "&lt;"@
    } else if c == '>' {
        "&gt;"@
    } else if c == '"' {
        "&quot;"@
    } else {
        seq![c]
    }
}

/// The XML text of `s`, character by character.
pub open spec fn xml_escape_spec(s: Seq<char>) -> Seq<char>
    decreases s.len(),
{
    if s.len() == 0 {
        Seq::empty()
    } else {
        xml_escape_spec(s.drop_last()) + xml_char(s.last())
    }
}

/// Escape `s` for XML text.
pub fn xml_escape(s: &str) -> (r: String)
    ensures
        r@ == xml_escape_spec(s@),
{
    let cs = crate::text::chars_of(s);
    let mut r = String::new();
    let mut i: usize = 0;
    while i < cs.len()
        invariant
            i <= cs@.len(),
            cs@ == s@,
            r@ == xml_escape_spec(cs@.take(i as int)),
        decreases cs@.len() - i,
    {
        let c = cs[i];
        if c == '&' {
            push_all(&mut r, "&amp;");
        } else if c == '<' {
            push_all(&mut r, "&lt;");
        } else if c == '>' {
            push_all(&mut r, "&gt;");
        } else if c == '"' {
            push_all(&mut r, "&quot;");
        } else {
            push_char(&mut r, c);
            assert(seq![c] == Seq::<char>::empty().push(c));
        }
        assert(cs@.take(i + 1).drop_last() == cs@.take(i as int));
        i += 1;
    }
    assert(cs@.take(cs@.len() as int) == cs@);
    r
}

/// The spinner's frames.
pub open spec fn spinner_frames() -> Seq<Seq<char>> {
    seq!["⠋"@, "⠙"@, "⠹"@, "⠸"@, "⠼"@, "⠴"@, "⠦"@, "⠧"@, "⠇"@, "⠏"@]
}

/// The spinner frame to show after `elapsed_millis` milliseconds (none: the
/// first frame): one frame per 80 ms, cycling.
pub fn spinner_frame(elapsed_millis: Option<u128>) -> (r: &'static str)
    ensures
        r@ == spinner_frames()[match elapsed_millis {
            Some(ms) => ((ms / 80) as usize) as int % 10,
            None => 0,
        }],
{
    let frames: [&'static str; 10] = ["⠋", "⠙", "⠹", "⠸", "⠼", "⠴", "⠦", "⠧", "⠇", "⠏"];
    let ticks: u128 = match elapsed_millis {
        Some(ms) => ms / 80,
        None => 0,
    };
    frames[(ticks as usize) % 10]
}

} // verus!
