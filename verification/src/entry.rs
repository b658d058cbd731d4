//! Entry files: the deterministic minute-granularity path scheme, the date
//! query pattern, and the locator that reads walked paths back into
//! timestamps.

use vstd::prelude::*;
use vstd::string::StrSliceExecFns;
use vstd::string::StringExecFns;

use crate::datetime::Date;
use crate::datetime::Timestamp;
use crate::datetime::days_in_month;
use crate::datetime::month_length;
use crate::strutil::all_dec_digits;
use crate::strutil::dec_value;
use crate::strutil::four_digits;
use crate::strutil::lemma_dec_value_bound;
use crate::strutil::lemma_four_digits_value;
use crate::strutil::lemma_two_digits_value;
use crate::strutil::push_char;
use crate::strutil::push_four_digits;
use crate::strutil::push_two_digits;
use crate::strutil::read_digit_range;
use crate::strutil::ten_pow;

verus! {

/// The `YYYY/MM/DD.HH-MM` core of an entry's relative path.
pub open spec fn entry_core(ts: Timestamp) -> Seq<char> {
    four_digits(ts.date.year as int) + seq!['/'] + two_digits_of(ts.date.month) + seq!['/']
        + two_digits_of(ts.date.day) + seq!['.'] + two_digits_of(ts.hour) + seq!['-']
        + two_digits_of(ts.minute)
}

/// Shorthand for a field rendered as two digits.
pub open spec fn two_digits_of(n: u32) -> Seq<char> {
    crate::strutil::two_digits(n as int)
}

/// An entry's path relative to the data directory, extension included.
pub open spec fn entry_rel_path(ts: Timestamp) -> Seq<char> {
    entry_core(ts) + seq!['.', 't', 'x', 't']
}

/// An entry's full path under the data directory.
pub open spec fn entry_full_path(data_dir: Seq<char>, ts: Timestamp) -> Seq<char> {
    data_dir + seq!['/'] + entry_rel_path(ts)
}

/// The relative path of the entry for `ts`: `YYYY/MM/DD.HH-MM.txt`.
pub fn entry_file_name(ts: &Timestamp) -> (r: String)
    requires
        ts.wf(),
    ensures
        r@ == entry_rel_path(*ts),
{
    let mut out = String::new();
    push_four_digits(&mut out, ts.date.year);
    push_char(&mut out, '/');
    push_two_digits(&mut out, ts.date.month);
    push_char(&mut out, '/');
    push_two_digits(&mut out, ts.date.day);
    push_char(&mut out, '.');
    push_two_digits(&mut out, ts.hour);
    push_char(&mut out, '-');
    push_two_digits(&mut out, ts.minute);
    push_char(&mut out, '.');
    push_char(&mut out, 't');
    push_char(&mut out, 'x');
    push_char(&mut out, 't');
    proof {
        assert(out@ =~= entry_rel_path(*ts));
    }
    out
}

/// Today's entry path under the data directory, derived from the creation
/// timestamp down to the minute.
pub fn get_path_for_todays_entry(data_dir: &str, ts: &Timestamp) -> (r: String)
    requires
        ts.wf(),
    ensures
        r@ == entry_full_path(data_dir@, *ts),
{
    let mut out = String::from_str(data_dir);
    push_char(&mut out, '/');
    let name = entry_file_name(ts);
    out.append(name.as_str());
    proof {
        assert(out@ =~= entry_full_path(data_dir@, *ts));
    }
    out
}

/// The draft file the editor works on, inside the data directory.
pub fn get_temp_file_path(data_dir: &str) -> (r: String)
    ensures
        r@ == data_dir@ + seq!['/', '.', 't', 'e', 'm', 'p', '_', 'e', 'n', 't', 'r', 'y'],
{
    let mut out = String::from_str(data_dir);
    out.append("/.temp_entry");
    proof {
        reveal_strlit("/.temp_entry");
        assert(out@ =~= data_dir@ + seq![
            '/', '.', 't', 'e', 'm', 'p', '_', 'e', 'n', 't', 'r', 'y',
        ]);
    }
    out
}

/// The legacy pointer file in the home directory.
pub fn get_dotfile_path(home_dir: &str) -> (r: String)
    ensures
        r@ == home_dir@ + seq!['/', '.', 'j', 'o', 'u', 'r', 'n', 'a', 'l'],
{
    let mut out = String::from_str(home_dir);
    out.append("/.journal");
    proof {
        reveal_strlit("/.journal");
        assert(out@ =~= home_dir@ + seq!['/', '.', 'j', 'o', 'u', 'r', 'n', 'a', 'l']);
    }
    out
}

/// What a file name expands to: empty means the home journal directory, a
/// leading `~` component is swapped for the home directory, anything else
/// stands as given.
pub open spec fn expanded_file_path(file_name: Seq<char>, home_dir: Seq<char>) -> Seq<char> {
    if file_name.len() == 0 {
        home_dir + seq!['/', 'j', 'o', 'u', 'r', 'n', 'a', 'l']
    } else if file_name =~= seq!['~'] {
        home_dir + seq!['/']
    } else if file_name.len() >= 2 && file_name[0] == '~' && file_name[1] == '/' {
        home_dir + file_name.skip(1)
    } else {
        file_name
    }
}

/// Expands a file name against the home directory, tilde expansion included.
pub fn expand_file_path(file_name: &str, home_dir: &str) -> (r: String)
    ensures
        r@ == expanded_file_path(file_name@, home_dir@),
{
    let n: usize = file_name.unicode_len();
    if n == 0 {
        let mut out = String::from_str(home_dir);
        out.append("/journal");
        proof {
            reveal_strlit("/journal");
            assert(out@ =~= expanded_file_path(file_name@, home_dir@));
        }
        return out;
    }
    if file_name.get_char(0) == '~' {
        if n == 1 {
            let mut out = String::from_str(home_dir);
            push_char(&mut out, '/');
            proof {
                assert(file_name@ =~= seq!['~']);
                assert(out@ =~= expanded_file_path(file_name@, home_dir@));
            }
            return out;
        }
        if file_name.get_char(1) == '/' {
            let mut out = String::from_str(home_dir);
            let rest = file_name.substring_char(1, n);
            out.append(rest);
            proof {
                assert(file_name@.subrange(1, n as int) =~= file_name@.skip(1));
                assert(out@ =~= expanded_file_path(file_name@, home_dir@));
            }
            return out;
        }
    }
    proof {
        assert(!(file_name@ =~= seq!['~']) || file_name@.len() != 1 || file_name@[0] == '~');
    }
    String::from_str(file_name)
}

/// Whether `s` is a well-formed `YYYY/MM/DD.HH-MM.txt` relative entry path.
pub open spec fn entry_rel_ok(s: Seq<char>) -> bool {
    &&& s.len() == 20
    &&& s[4] == '/'
    &&& s[7] == '/'
    &&& s[10] == '.'
    &&& s[13] == '-'
    &&& s.subrange(16, 20) =~= seq!['.', 't', 'x', 't']
    &&& all_dec_digits(s.subrange(0, 4))
    &&& all_dec_digits(s.subrange(5, 7))
    &&& all_dec_digits(s.subrange(8, 10))
    &&& all_dec_digits(s.subrange(11, 13))
    &&& all_dec_digits(s.subrange(14, 16))
    &&& 1 <= dec_value(s.subrange(0, 4))
    &&& 1 <= dec_value(s.subrange(5, 7)) <= 12
    &&& 1 <= dec_value(s.subrange(8, 10)) <= days_in_month(
        dec_value(s.subrange(0, 4)) as int,
        dec_value(s.subrange(5, 7)) as int,
    )
    &&& dec_value(s.subrange(11, 13)) < 24
    &&& dec_value(s.subrange(14, 16)) < 60
}

/// The timestamp a well-formed relative entry path reads back as; the path
/// carries no seconds, so they read as zero.
pub open spec fn entry_rel_value(s: Seq<char>) -> Timestamp {
    Timestamp {
        date: Date {
            year: dec_value(s.subrange(0, 4)) as u32,
            month: dec_value(s.subrange(5, 7)) as u32,
            day: dec_value(s.subrange(8, 10)) as u32,
        },
        hour: dec_value(s.subrange(11, 13)) as u32,
        minute: dec_value(s.subrange(14, 16)) as u32,
        second: 0,
    }
}

/// Reads a relative entry path back into its creation timestamp: `Some`
/// exactly on well-formed `YYYY/MM/DD.HH-MM.txt` paths.
pub fn extract_naive_datetime(rel_path: &str) -> (r: Option<Timestamp>)
    ensures
        r is Some <==> entry_rel_ok(rel_path@),
        r matches Some(ts) ==> ts == entry_rel_value(rel_path@) && ts.wf(),
{
    let n: usize = rel_path.unicode_len();
    if n != 20 {
        return None;
    }
    if rel_path.get_char(4) != '/' || rel_path.get_char(7) != '/' || rel_path.get_char(10) != '.'
        || rel_path.get_char(13) != '-' {
        return None;
    }
    if rel_path.get_char(16) != '.' || rel_path.get_char(17) != 't' || rel_path.get_char(18) != 'x'
        || rel_path.get_char(19) != 't' {
        proof {
            let tail = rel_path@.subrange(16, 20);
            assert(tail[0] == rel_path@[16] && tail[1] == rel_path@[17] && tail[2]
                == rel_path@[18] && tail[3] == rel_path@[19]);
        }
        return None;
    }
    let year = match read_digit_range(rel_path, 0, 4) {
        Some(v) => v,
        None => {
            return None;
        },
    };
    let month = match read_digit_range(rel_path, 5, 7) {
        Some(v) => v,
        None => {
            return None;
        },
    };
    let day = match read_digit_range(rel_path, 8, 10) {
        Some(v) => v,
        None => {
            return None;
        },
    };
    let hour = match read_digit_range(rel_path, 11, 13) {
        Some(v) => v,
        None => {
            return None;
        },
    };
    let minute = match read_digit_range(rel_path, 14, 16) {
        Some(v) => v,
        None => {
            return None;
        },
    };
    proof {
        lemma_dec_value_bound(rel_path@.subrange(0, 4));
        assert(ten_pow(4) == 10000) by {
            reveal_with_fuel(ten_pow, 5);
        }
        assert(rel_path@.subrange(16, 20) =~= seq!['.', 't', 'x', 't']);
    }
    if year == 0 {
        return None;
    }
    if month == 0 || month > 12 {
        return None;
    }
    if day == 0 || day > month_length(year, month) {
        return None;
    }
    if hour >= 24 {
        return None;
    }
    if minute >= 60 {
        return None;
    }
    Some(Timestamp { date: Date { year, month, day }, hour, minute, second: 0 })
}

/// The fixed-path prefix a date's entries share: `<data-dir>/YYYY/MM/DD`.
pub open spec fn entry_query_prefix(data_dir: Seq<char>, d: Date) -> Seq<char> {
    data_dir + seq!['/'] + four_digits(d.year as int) + seq!['/'] + two_digits_of(d.month)
        + seq!['/'] + two_digits_of(d.day)
}

/// The glob-style pattern for a date's entries: the shared prefix, a `*`, and
/// the `.txt` extension.
pub fn entry_query_pattern(data_dir: &str, d: &Date) -> (r: String)
    requires
        d.wf(),
    ensures
        r@ == entry_query_prefix(data_dir@, *d) + seq!['*', '.', 't', 'x', 't'],
{
    let mut out = String::from_str(data_dir);
    push_char(&mut out, '/');
    push_four_digits(&mut out, d.year);
    push_char(&mut out, '/');
    push_two_digits(&mut out, d.month);
    push_char(&mut out, '/');
    push_two_digits(&mut out, d.day);
    push_char(&mut out, '*');
    push_char(&mut out, '.');
    push_char(&mut out, 't');
    push_char(&mut out, 'x');
    push_char(&mut out, 't');
    proof {
        assert(out@ =~= entry_query_prefix(data_dir@, *d) + seq!['*', '.', 't', 'x', 't']);
    }
    out
}

/// What the pattern matches: the prefix, anything, then `.txt`, with no
/// overlap between the two fixed parts.
pub open spec fn matches_entry_query(path: Seq<char>, data_dir: Seq<char>, d: Date) -> bool {
    let prefix = entry_query_prefix(data_dir, d);
    &&& path.len() >= prefix.len() + 4
    &&& path.subrange(0, prefix.len() as int) == prefix
    &&& path.subrange(path.len() - 4, path.len() as int) == seq!['.', 't', 'x', 't']
}

/// Whether `p` is a prefix of `s`.
pub fn str_has_prefix(s: &str, p: &str) -> (r: bool)
    ensures
        r == (s@.len() >= p@.len() && s@.subrange(0, p@.len() as int) == p@),
{
    let sn: usize = s.unicode_len();
    let pn: usize = p.unicode_len();
    if sn < pn {
        return false;
    }
    let mut i: usize = 0;
    while i < pn
        invariant
            0 <= i <= pn <= sn,
            sn == s@.len(),
            pn == p@.len(),
            forall|j: int| 0 <= j < i ==> s@[j] == p@[j],
        decreases pn - i,
    {
        if s.get_char(i) != p.get_char(i) {
            proof {
                assert(s@.subrange(0, p@.len() as int)[i as int] == s@[i as int]);
            }
            return false;
        }
        i = i + 1;
    }
    proof {
        assert(s@.subrange(0, p@.len() as int) =~= p@);
    }
    true
}

/// Whether `p` is a suffix of `s`.
pub fn str_has_suffix(s: &str, p: &str) -> (r: bool)
    ensures
        r == (s@.len() >= p@.len() && s@.subrange(s@.len() - p@.len(), s@.len() as int) == p@),
{
    let sn: usize = s.unicode_len();
    let pn: usize = p.unicode_len();
    if sn < pn {
        return false;
    }
    let off: usize = sn - pn;
    let mut i: usize = 0;
    while i < pn
        invariant
            0 <= i <= pn <= sn,
            sn == s@.len(),
            pn == p@.len(),
            off == sn - pn,
            forall|j: int| 0 <= j < i ==> s@[off + j] == p@[j],
        decreases pn - i,
    {
        if s.get_char(off + i) != p.get_char(i) {
            proof {
                assert(s@.subrange(s@.len() - p@.len(), s@.len() as int)[i as int] == s@[off + i]);
            }
            return false;
        }
        i = i + 1;
    }
    proof {
        assert(s@.subrange(s@.len() - p@.len(), s@.len() as int) =~= p@);
    }
    true
}

/// A matched path with the `<data-dir>/` prefix stripped.
pub open spec fn rel_of(path: Seq<char>, data_dir: Seq<char>) -> Seq<char> {
    path.skip(data_dir.len() + 1int)
}

/// The timestamps of the walked paths that match the date query and read
/// back as entry paths, in walk order.
pub open spec fn located(paths: Seq<Seq<char>>, data_dir: Seq<char>, d: Date) -> Seq<Timestamp>
    decreases paths.len(),
{
    if paths.len() == 0 {
        Seq::empty()
    } else {
        located(paths.drop_last(), data_dir, d) + (if matches_entry_query(
            paths.last(),
            data_dir,
            d,
        ) && entry_rel_ok(rel_of(paths.last(), data_dir)) {
            seq![entry_rel_value(rel_of(paths.last(), data_dir))]
        } else {
            Seq::empty()
        })
    }
}

/// Filters walked paths down to the date's entries and reads each back into
/// its creation timestamp.  A path the pattern matches but the fixed scheme
/// cannot read is passed over.
#[verifier::rlimit(50)]
pub fn locate_entries(paths: &Vec<String>, data_dir: &str, d: &Date) -> (r: Vec<Timestamp>)
    requires
        d.wf(),
    ensures
        r@ == located(paths.deep_view(), data_dir@, *d),
        forall|k: int| 0 <= k < r@.len() ==> (#[trigger] r@[k]).wf(),
{
    let dir_len: usize = data_dir.unicode_len();
    let mut prefix = String::from_str(data_dir);
    push_char(&mut prefix, '/');
    push_four_digits(&mut prefix, d.year);
    push_char(&mut prefix, '/');
    push_two_digits(&mut prefix, d.month);
    push_char(&mut prefix, '/');
    push_two_digits(&mut prefix, d.day);
    proof {
        assert(prefix@ =~= entry_query_prefix(data_dir@, *d));
    }
    let prefix_len: usize = prefix.as_str().unicode_len();
    let mut out: Vec<Timestamp> = Vec::new();
    let mut i: usize = 0;
    while i < paths.len()
        invariant
            0 <= i <= paths.len(),
            prefix@ == entry_query_prefix(data_dir@, *d),
            prefix_len == prefix@.len(),
            dir_len == data_dir@.len(),
            prefix_len == dir_len + 11,
            out@ == located(paths.deep_view().subrange(0, i as int), data_dir@, *d),
            forall|k: int| 0 <= k < out@.len() ==> (#[trigger] out@[k]).wf(),
        decreases paths.len() - i,
    {
        let p: &String = &paths[i];
        let p_len: usize = p.as_str().unicode_len();
        proof {
            reveal_strlit(".txt");
            assert(".txt"@ =~= seq!['.', 't', 'x', 't']);
        }
        let suff = str_has_suffix(p.as_str(), ".txt");
        let pref = str_has_prefix(p.as_str(), prefix.as_str());
        let is_match = suff && pref && p_len - 4 >= prefix_len;
        proof {
            assert(suff == (p@.len() >= 4 && p@.subrange(p@.len() - 4, p@.len() as int) == seq![
                '.', 't', 'x', 't',
            ]));
            assert(pref == (p@.len() >= prefix@.len() && p@.subrange(0, prefix@.len() as int)
                == entry_query_prefix(data_dir@, *d)));
            assert(is_match == matches_entry_query(p@, data_dir@, *d));
        }
        if is_match {
            let rel = p.as_str().substring_char(dir_len + 1, p_len);
            proof {
                assert(rel@ =~= rel_of(p@, data_dir@));
            }
            match extract_naive_datetime(rel) {
                Some(ts) => {
                    out.push(ts);
                },
                None => {},
            }
        }
        proof {
            let all = paths.deep_view();
            assert(all.subrange(0, i + 1int).drop_last() =~= all.subrange(0, i as int));
            assert(all.subrange(0, i + 1int).last() == p@);
        }
        i = i + 1;
    }
    proof {
        assert(paths.deep_view().subrange(0, paths.deep_view().len() as int) =~= paths.deep_view());
    }
    out
}

/// The locator round-trip: an entry written at its derived path is matched by
/// its own date's query, and its path reads back to the minute it was
/// created.
pub proof fn lemma_entry_locator_round_trip(ts: Timestamp, data_dir: Seq<char>)
    requires
        ts.wf(),
    ensures
        matches_entry_query(entry_full_path(data_dir, ts), data_dir, ts.date),
        entry_rel_ok(rel_of(entry_full_path(data_dir, ts), data_dir)),
        entry_rel_value(rel_of(entry_full_path(data_dir, ts), data_dir)) == (Timestamp {
            second: 0,
            ..ts
        }),
{
    let full = entry_full_path(data_dir, ts);
    let rel = rel_of(full, data_dir);
    let prefix = entry_query_prefix(data_dir, ts.date);
    lemma_four_digits_value(ts.date.year as int);
    lemma_two_digits_value(ts.date.month as int);
    lemma_two_digits_value(ts.date.day as int);
    lemma_two_digits_value(ts.hour as int);
    lemma_two_digits_value(ts.minute as int);
    assert(full.len() == data_dir.len() + 21);
    assert(full.subrange(0, prefix.len() as int) =~= prefix);
    assert(full.subrange(full.len() - 4, full.len() as int) =~= seq!['.', 't', 'x', 't']);
    assert(rel =~= entry_rel_path(ts));
    assert(rel.subrange(0, 4) =~= four_digits(ts.date.year as int));
    assert(rel.subrange(5, 7) =~= two_digits_of(ts.date.month));
    assert(rel.subrange(8, 10) =~= two_digits_of(ts.date.day));
    assert(rel.subrange(11, 13) =~= two_digits_of(ts.hour));
    assert(rel.subrange(14, 16) =~= two_digits_of(ts.minute));
    assert(rel.subrange(16, 20) =~= seq!['.', 't', 'x', 't']);
}

/// A single file written at its derived path is what its date's query
/// locates.
pub proof fn lemma_located_singleton(ts: Timestamp, data_dir: Seq<char>)
    requires
        ts.wf(),
    ensures
        located(seq![entry_full_path(data_dir, ts)], data_dir, ts.date) == (seq![
            Timestamp { second: 0, ..ts },
        ]),
{
    lemma_entry_locator_round_trip(ts, data_dir);
    let paths = seq![entry_full_path(data_dir, ts)];
    assert(paths.drop_last() =~= Seq::<Seq<char>>::empty());
    assert(located(paths.drop_last(), data_dir, ts.date) == Seq::<Timestamp>::empty());
    assert(located(paths, data_dir, ts.date) =~= seq![Timestamp { second: 0, ..ts }]);
}

} // verus!
