//! Unique filename selection.
//!
//! When a desired filename is already taken, a counter is appended before
//! the extension: `name.cap` becomes `name (1).cap`, then `name (2).cap`,
//! and so on, giving up after 1000 conflicts. The caller supplies the
//! names already present in the directory; this module picks the first
//! free one.

use vstd::prelude::*;

use crate::decimal::{dec_str, u64_to_string};

verus! {

/// The position of the rightmost `.` among indices `1 .. upto`, if any.
/// Index 0 is excluded so a leading dot marks a hidden file, not an empty
/// stem with an extension.
pub open spec fn last_dot_before(s: Seq<char>, upto: int) -> Option<int>
    decreases upto,
{
    if upto <= 1 {
        None
    } else if s[upto - 1] == '.' {
        Some(upto - 1)
    } else {
        last_dot_before(s, upto - 1)
    }
}

/// Where a filename splits into stem and extension: the rightmost dot not
/// in first position.
pub open spec fn split_point(s: Seq<char>) -> Option<int> {
    last_dot_before(s, s.len() as int)
}

/// The filename with ` (count)` inserted between stem and extension; the
/// extension (dot included) stays at the end, and a name without one is
/// numbered at its end.
pub open spec fn numbered_name(base: Seq<char>, count: nat) -> Seq<char> {
    match split_point(base) {
        Some(d) => base.take(d) + " ("@ + dec_str(count) + ")"@ + base.skip(d),
        None => base + " ("@ + dec_str(count) + ")"@,
    }
}

/// Whether some existing name reads `name`.
pub open spec fn name_taken(existing: Seq<String>, name: Seq<char>) -> bool {
    exists|k: int| 0 <= k < existing.len() && (#[trigger] existing[k])@ == name
}

/// The first free numbered variant of `base` at or after `count`, giving
/// up beyond 1000.
pub open spec fn first_free_from(base: Seq<char>, existing: Seq<String>, count: nat) -> Option<
    Seq<char>,
>
    decreases 1001 - count when count <= 1001
{
    if count > 1000 {
        None
    } else if !name_taken(existing, numbered_name(base, count)) {
        Some(numbered_name(base, count))
    } else {
        first_free_from(base, existing, count + 1)
    }
}

/// The name [`ensure_unique_filename`] must choose: the base name itself
/// when free, otherwise the first free numbered variant.
pub open spec fn unique_pick(base: Seq<char>, existing: Seq<String>) -> Option<Seq<char>> {
    if !name_taken(existing, base) {
        Some(base)
    } else {
        first_free_from(base, existing, 1)
    }
}

/// Runtime test for [`name_taken`].
fn is_name_taken(existing: &Vec<String>, name: &String) -> (r: bool)
    ensures
        r == name_taken(existing@, name@),
{
    let n = existing.len();
    let mut i: usize = 0;
    while i < n
        invariant
            i <= n,
            n == existing@.len(),
            forall|k: int| 0 <= k < i ==> (#[trigger] existing@[k])@ != name@,
        decreases n - i,
    {
        if name.eq(&existing[i]) {
            return true;
        }
        i = i + 1;
    }
    false
}

/// Splits `base` at [`split_point`], returning the stem and the extension
/// with its leading dot (empty if there is none).
fn split_extension(base: &str) -> (r: (String, String))
    ensures
        match split_point(base@) {
            Some(d) => r.0@ == base@.take(d) && r.1@ == base@.skip(d),
            None => r.0@ == base@ && r.1@.len() == 0,
        },
{
    let n = base.unicode_len();
    let mut j: usize = n;
    while j > 1
        invariant
            j <= n,
            n == base@.len(),
            last_dot_before(base@, n as int) == last_dot_before(base@, j as int),
        decreases j,
    {
        if base.get_char(j - 1) == '.' {
            let stem = base.substring_char(0, j - 1);
            let ext = base.substring_char(j - 1, n);
            proof {
                assert(base@.take(j - 1) =~= base@.subrange(0, j - 1));
                assert(base@.skip(j - 1) =~= base@.subrange(j - 1, n as int));
            }
            return (stem.to_owned(), ext.to_owned());
        }
        j = j - 1;
    }
    (base.to_owned(), String::new())
}

/// Builds the numbered variant of `base` for `count`.
fn make_numbered(stem: &str, ext: &str, count: u64) -> (r: String)
    ensures
        r@ == stem@ + " ("@ + dec_str(count as nat) + ")"@ + ext@,
{
    let mut name = stem.to_owned();
    name.append(" (");
    let digits = u64_to_string(count);
    name.append(digits.as_str());
    name.append(")");
    name.append(ext);
    name
}

/// Picks a filename that does not collide with any existing one: the base
/// name when free, else the first free ` (n)` variant, giving up with an
/// error after 1000 attempts.
pub fn ensure_unique_filename(base_filename: &str, existing: &Vec<String>) -> (r: Result<
    String,
    String,
>)
    ensures
        match unique_pick(base_filename@, existing@) {
            Some(name) => r matches Ok(chosen) && chosen@ == name,
            None => r matches Err(e) && e@
                == "Too many filename conflicts, unable to create unique filename"@,
        },
{
    let base = base_filename.to_owned();
    if !is_name_taken(existing, &base) {
        return Ok(base);
    }
    let (stem, ext) = split_extension(base_filename);
    let mut counter: u64 = 1;
    while counter <= 1000
        invariant
            1 <= counter <= 1001,
            first_free_from(base_filename@, existing@, 1) == first_free_from(
                base_filename@,
                existing@,
                counter as nat,
            ),
            match split_point(base_filename@) {
                Some(d) => stem@ == base_filename@.take(d) && ext@ == base_filename@.skip(d),
                None => stem@ == base_filename@ && ext@.len() == 0,
            },
            name_taken(existing@, base_filename@),
        decreases 1001 - counter,
    {
        let candidate = make_numbered(stem.as_str(), ext.as_str(), counter);
        proof {
            assert(candidate@ == numbered_name(base_filename@, counter as nat));
        }
        if !is_name_taken(existing, &candidate) {
            return Ok(candidate);
        }
        counter = counter + 1;
    }
    Err(String::from_str("Too many filename conflicts, unable to create unique filename"))
}

} // verus!
