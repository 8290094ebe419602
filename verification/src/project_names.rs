//! Project directory naming: recognizing UUID-named projects and planning
//! their rename to a pretty, filesystem-safe name.
//!
//! A freshly recorded project is stored as `<uuid>.cap`. Migration renames
//! it after the project's pretty name, sanitized for use as a filename and
//! made unique among its siblings by a ` (n)` counter. The filesystem walk
//! and the rename itself happen outside the verified core; this module
//! decides, from plain values, what the new name must be.

use vstd::prelude::*;

use crate::color::{is_ascii_hex_digit, is_hex_digit};

verus! {

/// A UUID-shaped project directory name: exactly `<8>-<4>-<4>-<4>-<12>`
/// hex digits followed by `.cap`, 40 characters in all.
pub open spec fn is_uuid_project_name(s: Seq<char>) -> bool {
    &&& s.len() == 40
    &&& s[36] == '.'
    &&& s[37] == 'c'
    &&& s[38] == 'a'
    &&& s[39] == 'p'
    &&& forall|i: int|
        0 <= i < 36 ==> if i == 8 || i == 13 || i == 18 || i == 23 {
            s[i] == '-'
        } else {
            is_hex_digit(#[trigger] s[i])
        }
}

/// Whether `filename` names a UUID-named project directory.
pub fn is_project_filename_uuid(filename: &str) -> (r: bool)
    ensures
        r == is_uuid_project_name(filename@),
{
    let n = filename.unicode_len();
    if n != 40 {
        return false;
    }
    if filename.get_char(36) != '.' || filename.get_char(37) != 'c' || filename.get_char(38) != 'a'
        || filename.get_char(39) != 'p' {
        return false;
    }
    let mut i: usize = 0;
    while i < 36
        invariant
            i <= 36,
            filename@.len() == 40,
            forall|k: int|
                0 <= k < i ==> if k == 8 || k == 13 || k == 18 || k == 23 {
                    filename@[k] == '-'
                } else {
                    is_hex_digit(#[trigger] filename@[k])
                },
        decreases 36 - i,
    {
        let c = filename.get_char(i);
        let ok = if i == 8 || i == 13 || i == 18 || i == 23 {
            c == '-'
        } else {
            is_ascii_hex_digit(c)
        };
        if !ok {
            return false;
        }
        i = i + 1;
    }
    true
}

/// What `pretty_name` sanitizes to as a filename.
///
/// The result of the sanitizer on fixed options is a function of the input
/// string alone; its exact value is left uninterpreted.
pub uninterp spec fn sanitized_of(name: Seq<char>) -> Seq<char>;

/// Relies on `sanitize_filename::sanitize_with_options`: with fixed options
/// (all platforms' reserved names and characters, truncation on, `-` as the
/// replacement) the sanitized filename depends on the input alone.
#[verifier::external_body]
fn sanitize_project_name(name: &str) -> (r: String)
    ensures
        r@ == sanitized_of(name@),
{
    sanitize_filename::sanitize_with_options(
        name,
        sanitize_filename::Options { windows: true, truncate: true, replacement: "-" },
    )
}

/// A Unicode whitespace character: exactly the set `str::trim` removes
/// (the White_Space property). The sanitizer replaces the control ones,
/// but the wider spaces — no-break space, the em/en spaces, ideographic
/// space and their kin — pass through it and must still count as blank.
pub open spec fn is_space_char(c: char) -> bool {
    let u = c as u32;
    (9 <= u && u <= 13)  // tab, line feed, vertical tab, form feed, carriage return
    || u == 0x20  // space
    || u == 0x85  // next line
    || u == 0xA0  // no-break space
    || u == 0x1680  // ogham space mark
    || (0x2000 <= u && u <= 0x200A)  // en quad .. hair space
    || u == 0x2028  // line separator
    || u == 0x2029  // paragraph separator
    || u == 0x202F  // narrow no-break space
    || u == 0x205F  // medium mathematical space
    || u == 0x3000  // ideographic space
}

/// Runtime test for [`is_space_char`].
fn is_space(c: char) -> (r: bool)
    ensures
        r == is_space_char(c),
{
    let u = c as u32;
    (9 <= u && u <= 13) || u == 0x20 || u == 0x85 || u == 0xA0 || u == 0x1680 || (0x2000 <= u && u
        <= 0x200A) || u == 0x2028 || u == 0x2029 || u == 0x202F || u == 0x205F || u == 0x3000
}

/// A sanitized name that cannot serve as a filename: nothing but
/// whitespace (in particular, empty), or a lone replacement dash.
pub open spec fn unusable_name(s: Seq<char>) -> bool {
    (forall|i: int| 0 <= i < s.len() ==> is_space_char(#[trigger] s[i])) || s == seq!['-']
}

/// The name ends in the project directory suffix `.cap`.
pub open spec fn has_cap_suffix(s: Seq<char>) -> bool {
    s.len() >= 4 && s[s.len() - 4] == '.' && s[s.len() - 3] == 'c' && s[s.len() - 2] == 'a' && s[
        s.len() - 1
    ] == 'p'
}

/// The name with the `.cap` suffix appended unless already present.
pub open spec fn with_cap_suffix(s: Seq<char>) -> Seq<char> {
    if has_cap_suffix(s) {
        s
    } else {
        s + ".cap"@
    }
}

/// Runtime test for [`has_cap_suffix`].
fn ends_with_cap(s: &str) -> (r: bool)
    ensures
        r == has_cap_suffix(s@),
{
    let n = s.unicode_len();
    if n < 4 {
        return false;
    }
    s.get_char(n - 4) == '.' && s.get_char(n - 3) == 'c' && s.get_char(n - 2) == 'a' && s.get_char(
        n - 1,
    ) == 'p'
}

/// Turns a sanitized pretty name into the project directory name to rename
/// to, rejecting names the sanitizer reduced to nothing usable.
///
/// This is the verified step after the sanitizer call: it accepts the
/// sanitizer's output as an argument, so its contract is exact for every
/// possible value of it.
pub fn rename_target(sanitized: &str) -> (r: Result<String, String>)
    ensures
        unusable_name(sanitized@) <==> r is Err,
        r matches Ok(name) ==> name@ == with_cap_suffix(sanitized@),
        r matches Err(e) ==> e@ == "Sanitized filename is invalid: '"@ + sanitized@ + "'"@,
{
    let n = sanitized.unicode_len();
    let mut blank = true;
    let mut i: usize = 0;
    while i < n
        invariant
            i <= n,
            n == sanitized@.len(),
            blank == (forall|k: int| 0 <= k < i ==> is_space_char(#[trigger] sanitized@[k])),
        decreases n - i,
    {
        let c = sanitized.get_char(i);
        if !is_space(c) {
            blank = false;
        }
        i = i + 1;
    }
    let lone_dash = n == 1 && sanitized.get_char(0) == '-';
    proof {
        if n == 1 && sanitized@[0] == '-' {
            assert(sanitized@ =~= seq!['-']);
        }
        if sanitized@ == seq!['-'] {
            assert(sanitized@[0] == '-');
        }
    }
    if blank || lone_dash {
        let mut msg = String::from_str("Sanitized filename is invalid: '");
        msg.append(sanitized);
        msg.append("'");
        return Err(msg);
    }
    if ends_with_cap(sanitized) {
        Ok(sanitized.to_owned())
    } else {
        let mut name = sanitized.to_owned();
        name.append(".cap");
        Ok(name)
    }
}

/// Decides what a project directory must be renamed to.
///
/// A directory not named after a UUID needs no migration. Otherwise the
/// pretty name is sanitized, given the `.cap` suffix, and made unique
/// among `existing`; a pretty name the sanitizer reduces to nothing, or
/// more than 1000 name conflicts, is an error.
pub fn plan_project_rename(file_name: &str, pretty_name: &str, existing: &Vec<String>) -> (r:
    Result<Option<String>, String>)
    ensures
        !is_uuid_project_name(file_name@) ==> (r matches Ok(o) && o is None),
        is_uuid_project_name(file_name@) ==> ({
            let s = sanitized_of(pretty_name@);
            &&& unusable_name(s) ==> (r matches Err(e) && e@
                == "Sanitized filename is invalid: '"@ + s + "'"@)
            &&& !unusable_name(s) ==> match crate::file_names::unique_pick(
                with_cap_suffix(s),
                existing@,
            ) {
                Some(name) => r matches Ok(o) && o matches Some(chosen) && chosen@ == name,
                None => r matches Err(e) && e@
                    == "Too many filename conflicts, unable to create unique filename"@,
            }
        }),
{
    if !is_project_filename_uuid(file_name) {
        return Ok(None);
    }
    let sanitized = sanitize_project_name(pretty_name);
    let target = match rename_target(sanitized.as_str()) {
        Ok(t) => t,
        Err(e) => {
            return Err(e);
        },
    };
    match crate::file_names::ensure_unique_filename(target.as_str(), existing) {
        Ok(unique) => Ok(Some(unique)),
        Err(e) => Err(e),
    }
}

} // verus!
