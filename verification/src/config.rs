//! The persisted defaults: rendering the config file's text, reading its
//! key/value table back, and the overwrite guard.

use vstd::prelude::*;
use vstd::string::StrSliceExecFns;
use vstd::string::StringExecFns;

use crate::error::JournalError;

verus! {

/// The user's persisted defaults: one flat record, overwritten wholesale.
#[derive(Debug)]
pub struct Config {
    pub location_full_name: String,
    pub location_latitude: String,
    pub location_longitude: String,
    pub timezone: String,
    pub editor: String,
}

/// The config file's full text for a record: one `[defaults]` table of five
/// quoted string values.
pub open spec fn rendered_config(c: Config) -> Seq<char> {
    "[defaults]\nlocation_full_name=\""@ + c.location_full_name@ + "\"\nlocation_latitude=\""@
        + c.location_latitude@ + "\"\nlocation_longitude=\""@ + c.location_longitude@
        + "\"\ntimezone=\""@ + c.timezone@ + "\"\neditor=\""@ + c.editor@ + "\"\n"@
}

/// Renders the config record to the text that is written to disk.
pub fn render_config(c: &Config) -> (r: String)
    ensures
        r@ == rendered_config(*c),
{
    let mut out = String::from_str("[defaults]\nlocation_full_name=\"");
    out.append(c.location_full_name.as_str());
    out.append("\"\nlocation_latitude=\"");
    out.append(c.location_latitude.as_str());
    out.append("\"\nlocation_longitude=\"");
    out.append(c.location_longitude.as_str());
    out.append("\"\ntimezone=\"");
    out.append(c.timezone.as_str());
    out.append("\"\neditor=\"");
    out.append(c.editor.as_str());
    out.append("\"\n");
    proof {
        assert(out@ =~= rendered_config(*c));
    }
    out
}

/// The overwrite guard: writing proceeds only where no config exists yet or
/// the user confirmed the overwrite.  A declined prompt performs no write and
/// leaves the existing file untouched.
pub fn should_write_config(config_exists: bool, overwrite_confirmed: bool) -> (r: bool)
    ensures
        r == (!config_exists || overwrite_confirmed),
{
    !config_exists || overwrite_confirmed
}

/// The first value under `key` in the parsed table: `None` when the key is
/// absent, `Some(None)` when it holds a non-string value, `Some(Some(v))`
/// when it holds the string `v`.
pub open spec fn pair_lookup(pairs: Seq<(String, Option<String>)>, key: Seq<char>) -> Option<
    Option<Seq<char>>,
>
    decreases pairs.len(),
{
    if pairs.len() == 0 {
        None
    } else if pairs.first().0@ == key {
        match pairs.first().1 {
            Some(v) => Some(Some(v@)),
            None => Some(None),
        }
    } else {
        pair_lookup(pairs.drop_first(), key)
    }
}

pub open spec fn key_present(pairs: Seq<(String, Option<String>)>, key: Seq<char>) -> bool {
    pair_lookup(pairs, key) matches Some(Some(_))
}

pub open spec fn key_absent(pairs: Seq<(String, Option<String>)>, key: Seq<char>) -> bool {
    pair_lookup(pairs, key) is None
}

pub open spec fn key_str(pairs: Seq<(String, Option<String>)>, key: Seq<char>) -> Seq<char> {
    pair_lookup(pairs, key)->Some_0->Some_0
}

/// Whether the first failing key, in check order, is absent rather than
/// non-string; meaningful only when some key fails.
pub open spec fn first_failure_absent(pairs: Seq<(String, Option<String>)>) -> bool {
    if !key_present(pairs, "location_full_name"@) {
        key_absent(pairs, "location_full_name"@)
    } else if !key_present(pairs, "location_latitude"@) {
        key_absent(pairs, "location_latitude"@)
    } else if !key_present(pairs, "location_longitude"@) {
        key_absent(pairs, "location_longitude"@)
    } else if !key_present(pairs, "timezone"@) {
        key_absent(pairs, "timezone"@)
    } else {
        key_absent(pairs, "editor"@)
    }
}

/// Looks `key` up in the table, first match wins.
fn lookup_value(pairs: &Vec<(String, Option<String>)>, key: &str) -> (r: Option<Option<String>>)
    ensures
        r is None <==> pair_lookup(pairs@, key@) is None,
        r matches Some(None) <==> pair_lookup(pairs@, key@) matches Some(None),
        r matches Some(Some(v)) ==> (pair_lookup(pairs@, key@) matches Some(Some(w)) && v@ == w),
{
    let n = pairs.len();
    let key_string = String::from_str(key);
    proof {
        assert(pairs@.skip(0) =~= pairs@);
    }
    let mut i: usize = 0;
    while i < n
        invariant
            0 <= i <= n,
            n == pairs@.len(),
            key_string@ == key@,
            pair_lookup(pairs@, key@) == pair_lookup(pairs@.skip(i as int), key@),
        decreases n - i,
    {
        proof {
            assert(pairs@.skip(i as int).first() == pairs@[i as int]);
            assert(pairs@.skip(i as int).drop_first() =~= pairs@.skip(i + 1int));
        }
        let pair = &pairs[i];
        let found = pair.0 == key_string;
        if found {
            let r = match &pair.1 {
                Some(v) => Some(Some(v.clone())),
                None => Some(None),
            };
            return r;
        }
        i = i + 1;
    }
    proof {
        assert(pairs@.skip(n as int) =~= Seq::<(String, Option<String>)>::empty());
    }
    None
}

/// Builds the config record from the parsed `[defaults]` table: it succeeds
/// exactly when all five keys hold strings; the first failing key decides the
/// error, absent keys over non-string values.
pub fn config_from_pairs(pairs: &Vec<(String, Option<String>)>) -> (r: Result<
    Config,
    JournalError,
>)
    ensures
        r is Ok <==> (key_present(pairs@, "location_full_name"@) && key_present(
            pairs@,
            "location_latitude"@,
        ) && key_present(pairs@, "location_longitude"@) && key_present(pairs@, "timezone"@)
            && key_present(pairs@, "editor"@)),
        r matches Ok(c) ==> c.location_full_name@ == key_str(pairs@, "location_full_name"@)
            && c.location_latitude@ == key_str(pairs@, "location_latitude"@)
            && c.location_longitude@ == key_str(pairs@, "location_longitude"@) && c.timezone@
            == key_str(pairs@, "timezone"@) && c.editor@ == key_str(pairs@, "editor"@),
        r matches Err(e) ==> (e is ConfigMissing <==> first_failure_absent(pairs@)) && (e
            is ConfigParse <==> !first_failure_absent(pairs@)),
{
    let location_full_name = match read_string_field(pairs, "location_full_name") {
        Ok(v) => v,
        Err(e) => {
            return Err(e);
        },
    };
    let location_latitude = match read_string_field(pairs, "location_latitude") {
        Ok(v) => v,
        Err(e) => {
            return Err(e);
        },
    };
    let location_longitude = match read_string_field(pairs, "location_longitude") {
        Ok(v) => v,
        Err(e) => {
            return Err(e);
        },
    };
    let timezone = match read_string_field(pairs, "timezone") {
        Ok(v) => v,
        Err(e) => {
            return Err(e);
        },
    };
    let editor = match read_string_field(pairs, "editor") {
        Ok(v) => v,
        Err(e) => {
            return Err(e);
        },
    };
    Ok(Config { location_full_name, location_latitude, location_longitude, timezone, editor })
}

/// One field: a string value under `key`, the missing error where the key is
/// absent, the parse error where it is not a string.
fn read_string_field(pairs: &Vec<(String, Option<String>)>, key: &str) -> (r: Result<
    String,
    JournalError,
>)
    ensures
        r is Ok <==> key_present(pairs@, key@),
        r matches Ok(v) ==> v@ == key_str(pairs@, key@),
        r matches Err(e) ==> (e is ConfigMissing <==> key_absent(pairs@, key@)) && (e
            is ConfigParse <==> !key_absent(pairs@, key@)),
{
    match lookup_value(pairs, key) {
        None => Err(JournalError::ConfigMissing),
        Some(None) => Err(JournalError::ConfigParse),
        Some(Some(v)) => Ok(v),
    }
}

} // verus!
