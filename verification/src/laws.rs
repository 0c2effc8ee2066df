//! Properties of the library as a whole, each proved over the same spec
//! functions the operations' contracts use.

use vstd::prelude::*;
use crate::error::CopernicusError;
use crate::geometry::{bbox_ring, closed_ring, has_three_distinct, same_point, BoundingBox};
use crate::models::{uppercase, Satellite};
use crate::search::{collection_clause, filter_spec, tile_id, SearchQueryView};
use crate::session::{
    appended, blocks_requeue, edited, App, TextEdit, cycle_step, download_ids, download_position, enqueue_all,
    enqueue_step, failure_text, queued_view, satellite_at, satellite_index, toggled, upsert,
    without, with, QueueView,
};
use crate::tui::DownloadView;
use crate::keys::{key_command, Command, Key, KeyPress};
use crate::text::{all_ascii, ascii_upper, contains_seq, occurs_at, starts_with_seq};
use crate::tui::{
    byte_unit, f64_spacing, f64_value, format_bytes_spec, pow1024, truncate_spec, xml_char,
    xml_escape_spec, FilterField, Pane,
};
use crate::dates::decimal_text;
use crate::s3::{object_key_spec, output_target_spec};

verus! {

/// Every known product type of a mission is a valid product type for it.
pub proof fn known_products_are_valid(sat: Satellite, i: int)
    requires
        0 <= i < sat.known_products_spec().len(),
    ensures
        sat.is_valid_product_spec(sat.known_products_spec()[i]),
{
    let k = sat.known_products_spec()[i];
    assert(occurs_at(uppercase(k), uppercase(k), 0)) by {
        assert(uppercase(k).subrange(0, uppercase(k).len() as int) =~= uppercase(k));
    }
    assert(contains_seq(uppercase(k), uppercase(k)));
    assert(Satellite::product_matches(k, k));
}

/// Whether a product type is valid for a mission depends on the type's
/// upper-case form alone: it ignores case.
pub proof fn product_validity_ignores_case(sat: Satellite, a: Seq<char>, b: Seq<char>)
    requires
        uppercase(a) == uppercase(b),
    ensures
        sat.is_valid_product_spec(a) == sat.is_valid_product_spec(b),
{
    assert forall|i: int| 0 <= i < sat.known_products_spec().len() implies Satellite::product_matches(
        sat.known_products_spec()[i],
        a,
    ) == Satellite::product_matches(sat.known_products_spec()[i], b) by {}
    if sat.is_valid_product_spec(a) {
        let i = choose|i: int|
            0 <= i < sat.known_products_spec().len() && #[trigger] Satellite::product_matches(
                sat.known_products_spec()[i],
                a,
            );
        assert(Satellite::product_matches(sat.known_products_spec()[i], b));
    }
    if sat.is_valid_product_spec(b) {
        let i = choose|i: int|
            0 <= i < sat.known_products_spec().len() && #[trigger] Satellite::product_matches(
                sat.known_products_spec()[i],
                b,
            );
        assert(Satellite::product_matches(sat.known_products_spec()[i], a));
    }
}

/// A polygon's ring begins with the given coordinates, holds at least 4
/// pairs, and is closed: its last pair is its first, or the same point.
pub proof fn polygon_ring_is_closed(coords: Seq<(Seq<char>, Seq<char>)>)
    requires
        has_three_distinct(coords),
    ensures
        closed_ring(coords).len() >= 4,
        closed_ring(coords).take(coords.len() as int) == coords,
        closed_ring(coords).last() == coords[0] || same_point(coords[0], closed_ring(coords).last()),
{
    let (i, j, k) = choose|i: int, j: int, k: int|
        0 <= i < j < k < coords.len() && !#[trigger] same_point(coords[i], coords[j])
            && !#[trigger] same_point(coords[i], coords[k]) && !#[trigger] same_point(
            coords[j],
            coords[k],
        );
    if coords.len() == 3 {
        assert(i == 0 && k == 2);
    }
    assert(closed_ring(coords).take(coords.len() as int) =~= coords);
}

/// A bounding box's ring has five pairs and is closed.
pub proof fn bbox_ring_is_closed(bb: BoundingBox)
    ensures
        bbox_ring(bb).len() == 5,
        bbox_ring(bb)[0] == bbox_ring(bb)[4],
{
}

/// Moving the focus on and back (Tab, Shift-Tab) returns to the same pane,
/// and so does moving back and on.
pub proof fn pane_cycle_round_trip(p: Pane)
    ensures
        p.after().before() == p,
        p.before().after() == p,
{
}

/// Moving to the next filter field and back returns to the same field, and
/// so does moving back and on.
pub proof fn filter_field_round_trip(f: FilterField)
    ensures
        FilterField::at((FilterField::at((f.index() + 1) % 10).index() + 9) % 10) == f,
        FilterField::at((FilterField::at((f.index() + 9) % 10).index() + 1) % 10) == f,
{
}

/// Selecting the next mission and then the previous one returns to the
/// same mission.
pub proof fn satellite_cycle_round_trip(s: Satellite)
    ensures
        satellite_at(cycle_step(satellite_index(satellite_at(cycle_step(satellite_index(s), 5, true))), 5, false)) == s,
        satellite_at(cycle_step(satellite_index(satellite_at(cycle_step(satellite_index(s), 5, false))), 5, true)) == s,
{
}

/// A join of one or more items starts with the first item.
pub proof fn lemma_join_starts_with_first(items: Seq<Seq<char>>, sep: Seq<char>)
    requires
        items.len() >= 1,
    ensures
        starts_with_seq(crate::text::join_spec(items, sep), items[0]),
    decreases items.len(),
{
    let j = crate::text::join_spec(items, sep);
    if items.len() == 1 {
        assert(j.subrange(0, items[0].len() as int) =~= items[0]);
    } else {
        lemma_join_starts_with_first(items.drop_last(), sep);
        let j0 = crate::text::join_spec(items.drop_last(), sep);
        assert(j == j0 + sep + items.last());
        assert(j.subrange(0, items[0].len() as int) =~= j0.subrange(0, items[0].len() as int));
    }
}

/// The clauses a query's filter joins, where none is refused.
pub open spec fn filter_clauses(q: SearchQueryView) -> Seq<Seq<char>> {
    match (
        crate::search::product_clause(q),
        crate::search::date_clause(q),
        crate::search::tile_clause(q),
        crate::search::cloud_clause(q),
    ) {
        (Ok(pc), Ok(dc), Ok(tc), Ok(cc)) => seq![collection_clause(q.satellite)]
            + crate::search::opt_list(pc) + crate::search::opt_list(dc)
            + crate::search::opt_list(tc) + crate::search::opt_list(cc)
            + crate::search::opt_list(crate::search::geometry_clause(q)),
        _ => seq![collection_clause(q.satellite)],
    }
}

/// The filter of a query, where it is accepted, starts with the clause
/// selecting the mission's collection.
pub proof fn filter_starts_with_collection(q: SearchQueryView)
    ensures
        filter_spec(q) matches Ok(f) ==> starts_with_seq(f, collection_clause(q.satellite)),
{
    if let Ok(f) = filter_spec(q) {
        let c = collection_clause(q.satellite);
        lemma_join_starts_with_first(filter_clauses(q), " and "@);
        assert(filter_clauses(q)[0] == c);
    }
}

/// The catalogue's tile id drops exactly one leading `T`.
pub proof fn tile_id_drops_one_t(x: Seq<char>)
    ensures
        tile_id(seq!['T'] + x) == x,
        (x.len() == 0 || x[0] != 'T') ==> tile_id(x) == x,
{
    assert((seq!['T'] + x).drop_first() =~= x);
}

/// A failed search shows the bare message of a search or argument error,
/// not the error's own prefix a second time.
pub proof fn failure_shows_bare_message(m: String)
    ensures
        failure_text(CopernicusError::SearchFailed(m).message_spec()) == m@,
        failure_text(CopernicusError::InvalidArgument(m).message_spec()) == m@,
{
    reveal_strlit("search failed: ");
    reveal_strlit("invalid argument: ");
    let a = "search failed: "@ + m@;
    assert(a.subrange(0, 15) =~= "search failed: "@);
    assert(a.skip(15) =~= m@);
    let b = "invalid argument: "@ + m@;
    assert(b.subrange(0, 18) =~= "invalid argument: "@);
    assert(b[0] != "search failed: "@[0]);
    assert(b.skip(18) =~= m@);
}

/// Marking a product twice leaves the marks as they were: the same list
/// where it was not marked, the same ids (the toggled one moved to the end)
/// where it was.
pub proof fn toggle_twice(ids: Seq<Seq<char>>, id: Seq<char>)
    requires
        ids.no_duplicates(),
    ensures
        toggled(toggled(ids, id), id).to_set() == ids.to_set(),
        !ids.contains(id) ==> toggled(toggled(ids, id), id) == ids,
{
    if ids.contains(id) {
        let i = ids.index_of(id);
        crate::session::lemma_remove_no_duplicates(ids, i);
        let r = ids.remove(i);
        assert(toggled(ids, id) == r);
        assert(!r.contains(id));
        assert(toggled(r, id) == r.push(id));
        assert(r.push(id).to_set() =~= ids.to_set()) by {
            assert forall|x: Seq<char>| r.push(id).contains(x) <==> ids.contains(x) by {
                if x != id {
                    if r.push(id).contains(x) {
                        let k = choose|k: int| 0 <= k < r.push(id).len() && r.push(id)[k] == x;
                        assert(k < r.len());
                        assert(r.contains(x));
                    }
                    if r.contains(x) {
                        let k = choose|k: int| 0 <= k < r.len() && r[k] == x;
                        assert(r.push(id)[k] == x);
                    }
                } else {
                    assert(r.push(id)[r.len() as int] == id);
                }
            }
        }
    } else {
        let p = ids.push(id);
        assert(p[ids.len() as int] == id);
        assert(p.contains(id));
        crate::session::lemma_push_no_duplicates(ids, id);
        let i = p.index_of(id);
        assert(i == ids.len()) by {
            if i != ids.len() {
                assert(p[i] == ids[i]);
            }
        }
        assert(p.remove(i) =~= ids);
    }
}

/// After a product's download completes it counts as downloaded and is no
/// longer marked.
pub proof fn completed_download_is_done(downloaded: Seq<Seq<char>>, marked: Seq<Seq<char>>, id: Seq<char>)
    requires
        marked.no_duplicates(),
    ensures
        with(downloaded, id).contains(id),
        !without(marked, id).contains(id),
{
    if !downloaded.contains(id) {
        assert(downloaded.push(id)[downloaded.len() as int] == id);
    }
    if marked.contains(id) {
        let i = marked.index_of(id);
        crate::session::lemma_remove_no_duplicates(marked, i);
    }
}

/// Appending search results keeps the listed ones first, in order, and
/// lists every incoming id; a list without repeated ids stays so.
pub proof fn append_keeps_and_dedups(
    existing: Seq<(Seq<char>, Seq<char>)>,
    incoming: Seq<(Seq<char>, Seq<char>)>,
)
    ensures
        appended(existing, incoming).len() >= existing.len(),
        appended(existing, incoming).take(existing.len() as int) == existing,
        forall|k: int| 0 <= k < incoming.len() ==> pair_ids(appended(existing, incoming)).contains(
            #[trigger] incoming[k].0,
        ),
        pair_ids(existing).no_duplicates() ==> pair_ids(appended(existing, incoming)).no_duplicates(),
    decreases incoming.len(),
{
    if incoming.len() > 0 {
        let prev = appended(existing, incoming.drop_last());
        append_keeps_and_dedups(existing, incoming.drop_last());
        let last = incoming.last();
        assert(pair_ids(prev) =~= prev.map_values(|p: (Seq<char>, Seq<char>)| p.0));
        let cur = appended(existing, incoming);
        if pair_ids(prev).contains(last.0) {
            assert(cur == prev);
        } else {
            assert(cur == prev.push(last));
            assert(cur.take(existing.len() as int) =~= prev.take(existing.len() as int));
            assert(pair_ids(cur) =~= pair_ids(prev).push(last.0));
            assert(pair_ids(cur)[prev.len() as int] == last.0);
            if pair_ids(prev).no_duplicates() {
                crate::session::lemma_push_no_duplicates(pair_ids(prev), last.0);
            }
            assert forall|k: int| 0 <= k < incoming.len() implies pair_ids(cur).contains(
                #[trigger] incoming[k].0,
            ) by {
                if k < incoming.len() - 1 {
                    assert(incoming[k] == incoming.drop_last()[k]);
                    let j = choose|j: int| 0 <= j < pair_ids(prev).len() && pair_ids(prev)[j] == incoming[k].0;
                    assert(pair_ids(cur)[j] == incoming[k].0);
                }
            }
        }
        assert forall|k: int| 0 <= k < incoming.len() implies pair_ids(cur).contains(
            #[trigger] incoming[k].0,
        ) by {
            if k < incoming.len() - 1 {
                assert(incoming[k] == incoming.drop_last()[k]);
                if cur != prev {
                    let j = choose|j: int| 0 <= j < pair_ids(prev).len() && pair_ids(prev)[j] == incoming[k].0;
                    assert(pair_ids(cur)[j] == incoming[k].0);
                }
            }
        }
    }
}

/// The ids of (id, name) pairs.
pub open spec fn pair_ids(s: Seq<(Seq<char>, Seq<char>)>) -> Seq<Seq<char>> {
    s.map_values(|p: (Seq<char>, Seq<char>)| p.0)
}

/// The download of `id` is followed and under way or done.
pub open spec fn is_blocking(d: Seq<(Seq<char>, DownloadView)>, id: Seq<char>) -> bool {
    download_position(d, id) matches Some(i) && blocks_requeue(d[i].1)
}

/// In a list without repeats, the index of an element is where it stands.
proof fn lemma_index_of_unique(ids: Seq<Seq<char>>, j: int)
    requires
        ids.no_duplicates(),
        0 <= j < ids.len(),
    ensures
        ids.contains(ids[j]),
        ids.index_of(ids[j]) == j,
{
    assert(ids.contains(ids[j]));
    let c = ids.index_of(ids[j]);
    if c != j {
        assert(ids[c] == ids[j]);
    }
}

/// One step of queueing keeps ids unrepeated, leaves its target under way
/// or done, and keeps those that were so.
proof fn lemma_enqueue_step(q: QueueView, t: (Seq<char>, Seq<char>))
    requires
        download_ids(q.0).no_duplicates(),
    ensures
        download_ids(enqueue_step(q, t).0).no_duplicates(),
        is_blocking(enqueue_step(q, t).0, t.0),
        forall|y: Seq<char>| is_blocking(q.0, y) ==> is_blocking(enqueue_step(q, t).0, y),
{
    let d = q.0;
    let x = t.0;
    let ids = download_ids(d);
    let n = enqueue_step(q, t).0;
    if is_blocking(d, x) {
        assert(n == d);
    } else {
        assert(n == upsert(d, x, queued_view(t.1)));
        match download_position(d, x) {
            Some(i) => {
                lemma_index_of_unique(ids, i);
                assert(ids[i] == x);
                assert(n == d.update(i, (x, queued_view(t.1))));
                assert(download_ids(n) =~= ids);
                assert(download_ids(n)[i] == x);
                lemma_index_of_unique(download_ids(n), i);
                assert forall|y: Seq<char>| is_blocking(d, y) implies is_blocking(n, y) by {
                    let j = ids.index_of(y);
                    assert(ids.contains(y));
                    assert(ids[j] == y);
                    lemma_index_of_unique(download_ids(n), j);
                    if j == i {
                        assert(blocks_requeue(n[j].1));
                    } else {
                        assert(n[j] == d[j]);
                    }
                }
            },
            None => {
                assert(!ids.contains(x));
                assert(n == d.push((x, queued_view(t.1))));
                assert(download_ids(n) =~= ids.push(x));
                crate::session::lemma_push_no_duplicates(ids, x);
                assert(download_ids(n)[d.len() as int] == x);
                lemma_index_of_unique(download_ids(n), d.len() as int);
                assert forall|y: Seq<char>| is_blocking(d, y) implies is_blocking(n, y) by {
                    let j = ids.index_of(y);
                    assert(ids.contains(y));
                    assert(ids[j] == y);
                    assert(download_ids(n)[j] == y);
                    lemma_index_of_unique(download_ids(n), j);
                    assert(n[j] == d[j]);
                }
            },
        }
    }
}

/// Queueing leaves every target under way or done, and keeps those that
/// were so.
proof fn lemma_enqueue_all(q: QueueView, t: Seq<(Seq<char>, Seq<char>)>)
    requires
        download_ids(q.0).no_duplicates(),
    ensures
        download_ids(enqueue_all(q, t).0).no_duplicates(),
        forall|k: int| 0 <= k < t.len() ==> is_blocking(enqueue_all(q, t).0, #[trigger] t[k].0),
        forall|y: Seq<char>| is_blocking(q.0, y) ==> is_blocking(enqueue_all(q, t).0, y),
    decreases t.len(),
{
    if t.len() > 0 {
        let prev = enqueue_all(q, t.drop_last());
        lemma_enqueue_all(q, t.drop_last());
        lemma_enqueue_step(prev, t.last());
        assert forall|k: int| 0 <= k < t.len() implies is_blocking(enqueue_all(q, t).0, #[trigger] t[k].0) by {
            if k < t.len() - 1 {
                assert(t[k] == t.drop_last()[k]);
            }
        }
    }
}

/// Queueing targets that are all under way or done changes nothing.
proof fn lemma_enqueue_blocked(q: QueueView, t: Seq<(Seq<char>, Seq<char>)>)
    requires
        forall|k: int| 0 <= k < t.len() ==> is_blocking(q.0, #[trigger] t[k].0),
    ensures
        enqueue_all(q, t) == q,
    decreases t.len(),
{
    if t.len() > 0 {
        assert forall|k: int| 0 <= k < t.drop_last().len() implies is_blocking(
            q.0,
            #[trigger] t.drop_last()[k].0,
        ) by {
            assert(t.drop_last()[k] == t[k]);
        }
        lemma_enqueue_blocked(q, t.drop_last());
        assert(is_blocking(q.0, t[t.len() - 1].0));
    }
}

/// Downloads are not queued twice: queueing the same targets again right
/// after queues nothing and changes no download, and every target is then
/// under way or done.
pub proof fn enqueue_is_idempotent(
    d: Seq<(Seq<char>, DownloadView)>,
    order: Seq<Seq<char>>,
    t: Seq<(Seq<char>, Seq<char>)>,
)
    requires
        download_ids(d).no_duplicates(),
    ensures
        ({
            let q1 = enqueue_all((d, order, Seq::empty()), t);
            let q2 = enqueue_all((q1.0, q1.1, Seq::empty()), t);
            &&& forall|k: int| 0 <= k < t.len() ==> is_blocking(q1.0, #[trigger] t[k].0)
            &&& q2.2.len() == 0
            &&& q2.0 == q1.0
            &&& q2.1 == q1.1
        }),
{
    let q1 = enqueue_all((d, order, Seq::empty()), t);
    lemma_enqueue_all((d, order, Seq::empty()), t);
    lemma_enqueue_blocked((q1.0, q1.1, Seq::empty()), t);
}

/// A size below one kilobyte is shown as plain bytes: `N B`.
pub proof fn small_sizes_in_bytes(b: nat)
    requires
        b < 1024,
    ensures
        format_bytes_spec(b) == decimal_text(b) + " B"@,
{
    assert(f64_spacing(b) == 1);
    assert(f64_value(b) == b);
    reveal_with_fuel(pow1024, 2);
    assert(byte_unit(b) == 0);
}

/// Text without `&`, `<`, `>` or `"` is its own XML escape.
pub proof fn plain_text_escapes_to_itself(s: Seq<char>)
    requires
        forall|k: int| 0 <= k < s.len() ==> !(s[k] == '&' || s[k] == '<' || s[k] == '>' || s[k] == '"'),
    ensures
        xml_escape_spec(s) == s,
    decreases s.len(),
{
    if s.len() > 0 {
        plain_text_escapes_to_itself(s.drop_last());
        assert(xml_char(s.last()) == seq![s.last()]);
        assert(s.drop_last().push(s.last()) =~= s);
    }
}

/// A cut text is at most `max` characters long, and a text that fits is
/// left as it is.
pub proof fn truncate_fits(s: Seq<char>, max: nat)
    ensures
        truncate_spec(s, max).len() <= max,
        s.len() <= max ==> truncate_spec(s, max) == s,
{
}

/// An object's key ends with the file's name.
pub proof fn object_key_ends_with_filename(prefix: Seq<char>, filename: Seq<char>)
    ensures
        crate::text::ends_with_seq(object_key_spec(prefix, filename), filename),
{
    let k = object_key_spec(prefix, filename);
    assert(k.subrange(k.len() - filename.len(), k.len() as int) =~= filename);
}

/// An output that does not start with `s3:` is a local path.
pub proof fn plain_output_is_local(output: Seq<char>)
    requires
        !starts_with_seq(output, "s3:"@),
    ensures
        output_target_spec(output) == Ok::<Option<(Seq<char>, Seq<char>)>, Seq<char>>(None),
{
    reveal_strlit("s3:");
    reveal_strlit("s3://");
    if starts_with_seq(output, "s3://"@) {
        assert(output.subrange(0, 3) =~= "s3:"@) by {
            assert(output.subrange(0, 5) == "s3://"@);
        }
    }
}

/// Ctrl-C quits in every state; `q` quits whenever no field is being
/// edited; while a field is edited, a character typed without Ctrl goes
/// into it.
pub proof fn quitting_and_typing_keys(
    editing: bool,
    focus: Pane,
    field: FilterField,
    c: char,
    ctrl: bool,
    alt: bool,
)
    ensures
        key_command(editing, focus, field, KeyPress { key: Key::Char('c'), ctrl: true, alt })
            == Command::Quit,
        !editing ==> key_command(editing, focus, field, KeyPress { key: Key::Char('q'), ctrl, alt })
            == Command::Quit,
        editing ==> key_command(editing, focus, field, KeyPress { key: Key::Char(c), ctrl: false, alt })
            == Command::Edit(TextEdit::Push(c)),
{
}

/// For ASCII product types, validity ignores case: types with the same
/// ASCII upper case are both valid or both not, and upper-casing a type
/// keeps its validity.
pub proof fn ascii_validity_ignores_case(sat: Satellite, a: Seq<char>, b: Seq<char>)
    ensures
        ascii_upper(a) == ascii_upper(b) ==> sat.is_valid_ascii_spec(a) == sat.is_valid_ascii_spec(b),
        sat.is_valid_ascii_spec(a) == sat.is_valid_ascii_spec(ascii_upper(a)),
{
    assert(ascii_upper(ascii_upper(a)) =~= ascii_upper(a));
    let ks = sat.known_products_spec();
    assert forall|i: int| 0 <= i < ks.len() implies Satellite::ascii_matches(ks[i], a)
        == Satellite::ascii_matches(ks[i], ascii_upper(a)) by {}
    if sat.is_valid_ascii_spec(a) {
        let i = choose|i: int| 0 <= i < ks.len() && #[trigger] Satellite::ascii_matches(ks[i], a);
        assert(Satellite::ascii_matches(ks[i], ascii_upper(a)));
        assert(ascii_upper(a) == ascii_upper(b) ==> Satellite::ascii_matches(ks[i], b));
    }
    if sat.is_valid_ascii_spec(ascii_upper(a)) {
        let i = choose|i: int| 0 <= i < ks.len() && #[trigger] Satellite::ascii_matches(ks[i], ascii_upper(a));
        assert(Satellite::ascii_matches(ks[i], a));
    }
    if sat.is_valid_ascii_spec(b) {
        let i = choose|i: int| 0 <= i < ks.len() && #[trigger] Satellite::ascii_matches(ks[i], b);
        assert(ascii_upper(a) == ascii_upper(b) ==> Satellite::ascii_matches(ks[i], a));
    }
}

/// The empty product type is valid for every mission: every known type
/// contains it.
pub proof fn empty_product_is_valid(sat: Satellite)
    ensures
        sat.is_valid_ascii_spec(Seq::<char>::empty()),
{
    crate::models::known_products_are_upper_ascii(sat);
    let k = sat.known_products_spec()[0];
    assert(ascii_upper(Seq::<char>::empty()) =~= Seq::<char>::empty());
    assert(occurs_at(k, Seq::<char>::empty(), 0)) by {
        assert(k.subrange(0, 0) =~= Seq::<char>::empty());
    }
    assert(Satellite::ascii_matches(k, Seq::<char>::empty()));
}

/// A scene name's product part such as `MSIL2A` is a valid Sentinel-2
/// product type: it contains `L2A`.
pub proof fn scene_product_part_is_valid()
    ensures
        Satellite::Sentinel2.is_valid_ascii_spec("MSIL2A"@),
{
    reveal_strlit("MSIL2A");
    reveal_strlit("L2A");
    let p = "MSIL2A"@;
    let k = Satellite::Sentinel2.known_products_spec()[1];
    assert(ascii_upper(p) =~= p);
    assert(occurs_at(p, k, 3)) by {
        assert(p.subrange(3, 6) =~= k);
    }
    assert(Satellite::ascii_matches(k, p));
}

/// Each mission's known product types are ASCII, their own upper case,
/// distinct, and valid for it; every mission has some.
pub proof fn known_products_are_upper_and_valid(sat: Satellite, i: int)
    requires
        0 <= i < sat.known_products_spec().len(),
    ensures
        sat.known_products_spec().len() > 0,
        all_ascii(sat.known_products_spec()[i]),
        ascii_upper(sat.known_products_spec()[i]) == sat.known_products_spec()[i],
        sat.is_valid_ascii_spec(sat.known_products_spec()[i]),
        forall|j: int|
            0 <= j < sat.known_products_spec().len() && j != i ==> sat.known_products_spec()[j]
                != sat.known_products_spec()[i],
{
    crate::models::known_products_are_upper_ascii(sat);
    let k = sat.known_products_spec()[i];
    assert(k.len() > 0);
    assert(occurs_at(k, k, 0)) by {
        assert(k.subrange(0, k.len() as int) =~= k);
    }
    assert(Satellite::ascii_matches(k, k));
}

/// A filter field is edited exactly when it is a text field: typing into
/// the selected field changes its text if and only if it is one.
pub proof fn only_text_fields_are_edited(s: App, next: App, c: char)
    requires
        s.field_edited(next, TextEdit::Push(c)),
    ensures
        s.filter_field.is_text_spec() <==> next.field_text(s.filter_field) != s.field_text(
            s.filter_field,
        ),
{
    let f = s.filter_field;
    assert(next.field_text(f) == if f.is_text_spec() {
        edited(s.field_text(f), TextEdit::Push(c))
    } else {
        s.field_text(f)
    });
    if f.is_text_spec() {
        assert(next.field_text(f).len() == s.field_text(f).len() + 1);
    }
}

/// Writing through a filter field's editable text sets that field's text
/// and no other field's; the satellite and product selectors have no
/// editable text, so writing "to" them changes nothing.
pub proof fn field_write_sets_only_that_field(s: App, f: FilterField, t: String, g: FilterField)
    ensures
        s.with_field_text(f, t).field_text(g) == if g == f && f.is_text_spec() {
            t@
        } else {
            s.field_text(g)
        },
        !f.is_text_spec() ==> s.with_field_text(f, t) == s,
{
}

} // verus!
