//! Properties of the requests the tool builds and of the replies and files
//! it reads: the acquisition window, the scene look-up window, the INI
//! credentials file, S3 object keys and the identity provider's token.
//! Each is stated over the spec functions the operations' contracts use.

use vstd::prelude::*;
use crate::auth::token_reply_spec;
use crate::dates::{
    date_of, day_parse, is_valid_ymd, midnight_text, next_day_spec, numeral_value,
    previous_day_spec, UtcDateTime,
};
use crate::error::CopernicusError;
use crate::form::window_outcome;
use crate::json::{member, JsonValue};
use crate::s3::{ini_sections_spec, ini_state, object_key_spec};
use crate::search::{lemma_numeral_bound, lemma_sensing_date_digits, pow10, scene_filter_spec, sensing_date_spec};
use crate::text::{split_spec, trim_end_in, CharClass};

verus! {

// ---------------------------------------------------------------------------
// The acquisition window
// ---------------------------------------------------------------------------

/// Where the acquisition window ends and begins. Without an end date it ends
/// at `now` (to the nanosecond), whether or not a start date is given; with
/// one it ends at that date's midnight. With a start date it begins at that
/// date's midnight; without one, thirty days before its end at the same
/// time of day.
pub proof fn window_bounds(
    r: Result<(UtcDateTime, UtcDateTime), CopernicusError>,
    start: Option<Seq<char>>,
    end: Option<Seq<char>>,
    now: UtcDateTime,
)
    requires
        window_outcome(r, start, end, now),
        r is Ok,
    ensures
        end is None ==> r->Ok_0.1.secs_spec() == now.secs_spec() && r->Ok_0.1.nanos_spec()
            == now.nanos_spec(),
        end matches Some(e) ==> day_parse(e) == Ok::<int, Seq<char>>(r->Ok_0.1.secs_spec())
            && r->Ok_0.1.nanos_spec() == 0,
        start matches Some(s) ==> day_parse(s) == Ok::<int, Seq<char>>(r->Ok_0.0.secs_spec())
            && r->Ok_0.0.nanos_spec() == 0,
        start is None ==> r->Ok_0.0.secs_spec() == r->Ok_0.1.secs_spec() - 30 * 24 * 3600
            && r->Ok_0.0.nanos_spec() == r->Ok_0.1.nanos_spec(),
{
}

/// The window is refused only for a date that does not parse: when the
/// given dates parse (and the default start fits), there is a window.
pub proof fn window_exists_for_good_dates(
    r: Result<(UtcDateTime, UtcDateTime), CopernicusError>,
    start: Option<Seq<char>>,
    end: Option<Seq<char>>,
    now: UtcDateTime,
)
    requires
        window_outcome(r, start, end, now),
        start matches Some(s) ==> day_parse(s) is Ok,
        end matches Some(e) ==> day_parse(e) is Ok,
    ensures
        r is Ok,
{
}

// ---------------------------------------------------------------------------
// The scene look-up window
// ---------------------------------------------------------------------------

/// `a` is an earlier day than `b` (days as year, month, day).
pub open spec fn day_before(a: (int, int, int), b: (int, int, int)) -> bool {
    a.0 < b.0 || (a.0 == b.0 && (a.1 < b.1 || (a.1 == b.1 && a.2 < b.2)))
}

/// `(y, m, d)` names an existing day.
pub open spec fn is_day(a: (int, int, int)) -> bool {
    is_valid_ymd(a.0, a.1, a.2)
}

/// `a` is the day just before `b`: an earlier day with no day between.
pub open spec fn just_before(a: (int, int, int), b: (int, int, int)) -> bool {
    &&& is_day(a)
    &&& day_before(a, b)
    &&& forall|x: (int, int, int)| is_day(x) && #[trigger] day_before(a, x) ==> !day_before(x, b)
}

/// The sensing day a scene name carries, as year, month, day.
pub open spec fn sensing_day(name: Seq<char>) -> (int, int, int) {
    let d8 = sensing_date_spec(name)->Some_0;
    (numeral_value(d8, 0, 4), numeral_value(d8, 4, 6), numeral_value(d8, 6, 8))
}

/// A day as the calendar date of the library.
pub open spec fn as_date(a: (int, int, int)) -> crate::dates::CalendarDate {
    date_of(a)
}

/// The scene look-up filter of a name with a valid sensing day `d` asks for
/// products sensed after the midnight of the day just before `d` and before
/// the midnight of the day just after `d`, and whose name holds the scene
/// name: a window of two days around `d`, lower bound first.
pub proof fn scene_window_surrounds_sensing_day(name: Seq<char>)
    requires
        sensing_date_spec(name) is Some,
        is_day(sensing_day(name)),
    ensures
        exists|lo: (int, int, int), hi: (int, int, int)|
            #![trigger just_before(lo, sensing_day(name)), just_before(sensing_day(name), hi)]
            {
                &&& just_before(lo, sensing_day(name))
                &&& just_before(sensing_day(name), hi)
                &&& scene_filter_spec(name) == Ok::<Seq<char>, Seq<char>>(
                    "ContentDate/Start gt "@ + midnight_text(as_date(lo))
                        + " and ContentDate/Start lt "@ + midnight_text(as_date(hi)) + " and "@
                        + "contains(Name,'"@ + name + "')"@,
                )
            },
{
    let d8 = sensing_date_spec(name)->Some_0;
    lemma_sensing_date_digits(split_spec(name, '_'));
    lemma_numeral_bound(d8, 0, 4);
    lemma_numeral_bound(d8, 4, 6);
    lemma_numeral_bound(d8, 6, 8);
    reveal_with_fuel(pow10, 5);
    let day = sensing_day(name);
    let date = date_of(day);
    assert(date.year as int == day.0 && date.month as int == day.1 && date.day as int == day.2);
    let lo = previous_day_spec(date);
    let hi = next_day_spec(date);
    lemma_previous_day_just_before(day);
    lemma_next_day_just_after(day);
    assert(just_before(lo, day));
    assert(just_before(day, hi));
    let by_name = "contains(Name,'"@ + name + "')"@;
    let front = "ContentDate/Start gt "@ + midnight_text(as_date(lo)) + " and ContentDate/Start lt "@
        + midnight_text(as_date(hi)) + " and "@;
    assert(scene_filter_spec(name) == Ok::<Seq<char>, Seq<char>>(front + by_name));
    assert(front + by_name =~= front + "contains(Name,'"@ + name + "')"@);
}

/// A scene name without a sensing date is looked up by its name alone; one
/// whose sensing date names no existing day is refused.
pub proof fn scene_filter_without_usable_date(name: Seq<char>)
    ensures
        sensing_date_spec(name) is None ==> scene_filter_spec(name) == Ok::<Seq<char>, Seq<char>>(
            "contains(Name,'"@ + name + "')"@,
        ),
        sensing_date_spec(name) is Some && !is_day(sensing_day(name)) ==> scene_filter_spec(
            name,
        ) is Err,
{
}

/// The day `previous_day_spec` gives is the day just before.
proof fn lemma_previous_day_just_before(day: (int, int, int))
    requires
        is_day(day),
        0 <= day.0 <= 9999,
    ensures
        just_before(previous_day_spec(date_of(day)), day),
{
}

/// The day `next_day_spec` gives is the day just after.
proof fn lemma_next_day_just_after(day: (int, int, int))
    requires
        is_day(day),
        0 <= day.0 <= 9999,
    ensures
        just_before(day, next_day_spec(date_of(day))),
{
}

// ---------------------------------------------------------------------------
// The INI credentials file
// ---------------------------------------------------------------------------

/// A final newline changes nothing: a file whose last line is not ended by
/// a newline has the same sections as the same file with one, so the last
/// `key = value` line reaches its section either way.
pub proof fn ini_final_newline_is_irrelevant(content: Seq<char>)
    ensures
        ini_sections_spec(content.push('\n')) == ini_sections_spec(content),
{
    assert(content.push('\n').drop_last() =~= content);
    assert(split_spec(content.push('\n'), '\n') == split_spec(content, '\n').push(Seq::<char>::empty()));
    let lines = split_spec(content, '\n').push(Seq::<char>::empty());
    assert(lines.drop_last() =~= split_spec(content, '\n'));
    assert(crate::text::trim_spec(Seq::<char>::empty()) =~= Seq::<char>::empty());
}

/// Splitting at `\n` a text, a `\n` and a line without `\n` gives the
/// pieces of the text and then that line.
proof fn lemma_split_then_line(content: Seq<char>, line: Seq<char>)
    requires
        forall|i: int| 0 <= i < line.len() ==> line[i] != '\n',
    ensures
        split_spec(content + seq!['\n'] + line, '\n') == split_spec(content, '\n').push(line),
    decreases line.len(),
{
    if line.len() == 0 {
        assert(content + seq!['\n'] + line =~= content.push('\n'));
        assert(content.push('\n').drop_last() =~= content);
        assert(line =~= Seq::<char>::empty());
    } else {
        let init = line.drop_last();
        lemma_split_then_line(content, init);
        let whole = content + seq!['\n'] + line;
        assert(whole.drop_last() =~= content + seq!['\n'] + init);
        assert(whole.last() == line.last());
        assert(whole.len() > 0 && whole.last() != '\n');
        let pieces = split_spec(content, '\n').push(init);
        assert(split_spec(whole, '\n') == pieces.update(pieces.len() - 1, pieces.last().push(whole.last())));
        assert(init.push(line.last()) =~= line);
        assert(split_spec(content, '\n').push(init).update(
            split_spec(content, '\n').len() as int,
            init.push(line.last()),
        ) =~= split_spec(content, '\n').push(line));
    }
}

/// Once a section is closed, one is open: the parser has no closed
/// sections while none is open.
proof fn lemma_open_after_closed(lines: Seq<Seq<char>>)
    ensures
        ini_state(lines).1 is None ==> ini_state(lines).0.len() == 0,
    decreases lines.len(),
{
    if lines.len() > 0 {
        lemma_open_after_closed(lines.drop_last());
    }
}

/// Blank lines and `#`/`;` comment lines change nothing, wherever they
/// stand at the end of the file (a final newline is such a line).
pub proof fn ini_blank_or_comment_line_is_irrelevant(content: Seq<char>, line: Seq<char>)
    requires
        forall|i: int| 0 <= i < line.len() ==> line[i] != '\n',
        ({
            let t = crate::text::trim_spec(line);
            t.len() == 0 || t[0] == '#' || t[0] == ';'
        }),
    ensures
        ini_sections_spec(content + seq!['\n'] + line) == ini_sections_spec(content),
{
    lemma_split_then_line(content, line);
    let lines = split_spec(content, '\n').push(line);
    assert(lines.drop_last() =~= split_spec(content, '\n'));
}

/// A `key = value` line at the end of a file adds the entry, both sides
/// trimmed, to the last section, whether or not a newline ends it; before
/// any section it is ignored.
pub proof fn ini_entry_line_joins_last_section(content: Seq<char>, line: Seq<char>, k: Seq<char>, v: Seq<char>)
    requires
        forall|i: int| 0 <= i < line.len() ==> line[i] != '\n',
        crate::text::trim_spec(line).len() > 0,
        crate::text::trim_spec(line)[0] != '#',
        crate::text::trim_spec(line)[0] != ';',
        crate::text::trim_spec(line)[0] != '[',
        crate::text::split_once_spec(crate::text::trim_spec(line), '=') == Some((k, v)),
    ensures
        ({
            let before = ini_sections_spec(content);
            let after = ini_sections_spec(content + seq!['\n'] + line);
            if before.len() == 0 {
                after == before
            } else {
                after == before.update(
                    before.len() - 1,
                    (
                        before.last().0,
                        before.last().1.push(
                            (crate::text::trim_spec(k), crate::text::trim_spec(v)),
                        ),
                    ),
                )
            }
        }),
        ini_sections_spec(content + seq!['\n'] + line + seq!['\n']) == ini_sections_spec(
            content + seq!['\n'] + line,
        ),
{
    lemma_split_then_line(content, line);
    let ls = split_spec(content, '\n');
    lemma_open_after_closed(ls);
    let lines = ls.push(line);
    assert(lines.drop_last() =~= ls);
    ini_final_newline_is_irrelevant(content + seq!['\n'] + line);
    assert(content + seq!['\n'] + line + seq!['\n'] =~= (content + seq!['\n'] + line).push('\n'));
    let before = ini_sections_spec(content);
    if before.len() > 0 {
        let st = ini_state(ls);
        assert(st.1 is Some);
        assert(before =~= st.0.push(st.1->Some_0));
    }
}

// ---------------------------------------------------------------------------
// S3 object keys
// ---------------------------------------------------------------------------

/// Trimming trailing `/`s leaves a prefix of the text, followed in it only
/// by `/`s, and ending in no `/`.
proof fn lemma_trim_slashes(p: Seq<char>)
    ensures
        ({
            let q = trim_end_in(p, CharClass::Exactly('/'));
            &&& q.len() <= p.len()
            &&& p.take(q.len() as int) == q
            &&& forall|i: int| q.len() <= i < p.len() ==> p[i] == '/'
            &&& (q.len() == 0 || q.last() != '/')
        }),
    decreases p.len(),
{
    let q = trim_end_in(p, CharClass::Exactly('/'));
    if p.len() > 0 && CharClass::Exactly('/').has(p.last()) {
        let init = p.drop_last();
        lemma_trim_slashes(init);
        assert(q == trim_end_in(init, CharClass::Exactly('/')));
        assert(p.take(q.len() as int) =~= init.take(q.len() as int));
        assert forall|i: int| q.len() <= i < p.len() implies p[i] == '/' by {
            if i < init.len() {
                assert(init[i] == p[i]);
            }
        }
    } else {
        assert(q == p);
        assert(p.take(p.len() as int) =~= p);
    }
}

/// For a non-empty prefix, the key of a file is the prefix without its
/// trailing `/`s, one `/`, and the file name; so `p` and `p/` give the same
/// key. An empty prefix gives the file name alone.
pub proof fn object_key_joins_with_one_slash(prefix: Seq<char>, filename: Seq<char>)
    ensures
        prefix.len() == 0 ==> object_key_spec(prefix, filename) == filename,
        prefix.len() > 0 ==> object_key_spec(prefix.push('/'), filename) == object_key_spec(
            prefix,
            filename,
        ),
        prefix.len() > 0 ==> exists|n: int|
            #![trigger prefix.take(n)]
            {
                &&& 0 <= n <= prefix.len()
                &&& (n == 0 || prefix[n - 1] != '/')
                &&& forall|i: int| n <= i < prefix.len() ==> prefix[i] == '/'
                &&& object_key_spec(prefix, filename) == prefix.take(n) + seq!['/'] + filename
            },
{
    if prefix.len() > 0 {
        reveal_strlit("/");
        assert(prefix.push('/').drop_last() =~= prefix);
        lemma_trim_slashes(prefix);
        let q = trim_end_in(prefix, CharClass::Exactly('/'));
        let n = q.len() as int;
        assert(n == 0 || prefix[n - 1] == q.last());
        assert(object_key_spec(prefix, filename) == prefix.take(n) + seq!['/'] + filename);
    }
}

// ---------------------------------------------------------------------------
// The access token
// ---------------------------------------------------------------------------

/// On a success status the token is the string value of the reply's
/// `access_token` member; a reply without a string `access_token` (or with
/// no body) is an error, and so is every failure status.
pub proof fn token_is_the_access_token_member(success: bool, status: Seq<char>, body: Option<JsonValue>)
    ensures
        !success ==> token_reply_spec(success, status, body) is Err,
        success && body is None ==> token_reply_spec(success, status, body) is Err,
        success ==> (body matches Some(b) ==> match member(b, "access_token"@) {
            Some(JsonValue::Str(t)) => token_reply_spec(success, status, body) == Ok::<
                Seq<char>,
                Seq<char>,
            >(t@),
            _ => token_reply_spec(success, status, body) is Err,
        }),
{
}

/// The token depends on no member of the reply but `access_token`: two
/// bodies that agree on it give the same outcome.
pub proof fn token_ignores_other_members(status: Seq<char>, b1: JsonValue, b2: JsonValue)
    requires
        member(b1, "access_token"@) == member(b2, "access_token"@),
    ensures
        token_reply_spec(true, status, Some(b1)) == token_reply_spec(true, status, Some(b2)),
{
}

} // verus!
