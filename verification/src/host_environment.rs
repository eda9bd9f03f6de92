//! Host environment bootstrap.
//!
//! Validates the host environment file before any command runs, decides which of
//! its entries apply without overriding caller-supplied variables, and derives the
//! uid-scoped runtime environment. The process environment itself is read and
//! written by the caller; this module decides what to write.

use vstd::prelude::*;

use crate::config::{configured, configured_path};
use crate::text::{
    char_is_ascii_alphabetic, char_is_ascii_alphanumeric, chars_of, decimal, find_char,
    first_index_of, has_char, is_ascii_alphabetic, is_ascii_alphanumeric, push_decimal, push_str,
    split, split_ranges, str_eq, string_from_range, trim, trim_range,
};

verus! {

/// Default location of the host environment file.
pub const DEFAULT_HOST_ENVIRONMENT_FILE: &'static str = "/etc/pneuma/environment";

/// Environment variable overriding the host environment file location.
pub const HOST_ENVIRONMENT_FILE_VARIABLE: &'static str = "PNEUMA_HOST_ENVIRONMENT_FILE";

/// A variable name: an ASCII letter or `_`, then ASCII letters, digits, or `_`.
pub open spec fn valid_variable_name(s: Seq<char>) -> bool {
    &&& s.len() > 0
    &&& is_ascii_alphabetic(s[0]) || s[0] == '_'
    &&& forall|i: int| 1 <= i < s.len() ==> is_ascii_alphanumeric(#[trigger] s[i]) || s[i] == '_'
}

/// Lines that carry no entry: blank after trimming, or a full-line comment.
pub open spec fn skipped_line(t: Seq<char>) -> bool {
    t.len() == 0 || t[0] == '#'
}

/// The common start of every message that rejects line `number`.
pub open spec fn line_error(number: nat, detail: Seq<char>) -> Seq<char> {
    "invalid host environment entry on line "@ + decimal(number) + ": "@ + detail
}

/// The entry a trimmed, non-skipped line holds, or the message rejecting it. The first
/// `=` separates name and value; both are trimmed, so values may be empty, contain
/// further `=` characters, and keep an inline `#`.
pub open spec fn line_entry(t: Seq<char>, number: nat) -> Result<(Seq<char>, Seq<char>), Seq<char>> {
    match first_index_of(t, '=') {
        None => Err(line_error(number, "expected NAME=VALUE"@)),
        Some(i) => {
            let name = trim(t.subrange(0, i));
            let value = trim(t.subrange(i + 1, t.len() as int));
            if name.len() == 0 {
                Err(line_error(number, "empty variable name"@))
            } else if !valid_variable_name(name) {
                Err(line_error(number, "invalid variable name `"@ + name + "`"@))
            } else if has_char(value, '\0') {
                Err(line_error(number, "NUL byte in value"@))
            } else {
                Ok((name, value))
            }
        },
    }
}

/// The line number of the first entry named `name`.
pub open spec fn first_line_of(entries: Seq<(Seq<char>, Seq<char>, nat)>, name: Seq<char>) -> Option<nat>
    decreases entries.len(),
{
    if entries.len() == 0 {
        None
    } else if entries[0].0 == name {
        Some(entries[0].2)
    } else {
        first_line_of(entries.drop_first(), name)
    }
}

/// The message rejecting a second definition of `name`.
pub open spec fn duplicate_error(name: Seq<char>, first: nat, number: nat) -> Seq<char> {
    "duplicate host environment variable `"@ + name + "` on lines "@ + decimal(first) + " and "@
        + decimal(number)
}

/// The entries of the first `k` lines with their line numbers, or the message
/// rejecting the first offending line among them.
pub open spec fn parse_lines(lines: Seq<Seq<char>>, k: nat) -> Result<
    Seq<(Seq<char>, Seq<char>, nat)>,
    Seq<char>,
>
    decreases k,
{
    if k == 0 {
        Ok(Seq::empty())
    } else {
        match parse_lines(lines, (k - 1) as nat) {
            Err(message) => Err(message),
            Ok(entries) => {
                let t = trim(lines[k - 1]);
                if skipped_line(t) {
                    Ok(entries)
                } else {
                    match line_entry(t, k) {
                        Err(message) => Err(message),
                        Ok((name, value)) => match first_line_of(entries, name) {
                            Some(first) => Err(duplicate_error(name, first, k)),
                            None => Ok(entries.push((name, value, k))),
                        },
                    }
                }
            },
        }
    }
}

/// Names and values of numbered entries.
pub open spec fn without_numbers(entries: Seq<(Seq<char>, Seq<char>, nat)>) -> Seq<(Seq<char>, Seq<char>)> {
    entries.map_values(|e: (Seq<char>, Seq<char>, nat)| (e.0, e.1))
}

/// The whole file, validated line by line (lines end at `\n`; a `\r` before it is
/// whitespace and trimmed away).
pub open spec fn host_environment(content: Seq<char>) -> Result<Seq<(Seq<char>, Seq<char>)>, Seq<char>> {
    let lines = split(content, '\n');
    match parse_lines(lines, lines.len()) {
        Ok(entries) => Ok(without_numbers(entries)),
        Err(message) => Err(message),
    }
}

/// Names and values of executable pairs.
pub open spec fn pairs_view(v: Seq<(String, String)>) -> Seq<(Seq<char>, Seq<char>)> {
    v.map_values(|p: (String, String)| (p.0@, p.1@))
}

/// `valid_variable_name` over `v[start..end]`.
fn range_is_variable_name(v: &Vec<char>, start: usize, end: usize) -> (r: bool)
    requires
        start <= end <= v@.len(),
    ensures
        r == valid_variable_name(v@.subrange(start as int, end as int)),
{
    let ghost s = v@.subrange(start as int, end as int);
    if start == end {
        return false;
    }
    if !(char_is_ascii_alphabetic(v[start]) || v[start] == '_') {
        return false;
    }
    let mut i = start + 1;
    while i < end
        invariant
            start < i <= end <= v@.len(),
            s == v@.subrange(start as int, end as int),
            forall|k: int| 1 <= k < i - start ==> is_ascii_alphanumeric(#[trigger] s[k]) || s[k] == '_',
        decreases end - i,
    {
        if !(char_is_ascii_alphanumeric(v[i]) || v[i] == '_') {
            assert(s[i - start] == v@[i as int]);
            return false;
        }
        assert(s[i - start] == v@[i as int]);
        i = i + 1;
    }
    true
}

/// The index found by `find_char` is the spec's first occurrence.
proof fn lemma_first_index(s: Seq<char>, c: char, i: int)
    requires
        0 <= i <= s.len(),
        forall|k: int| 0 <= k < i ==> s[k] != c,
        i < s.len() ==> s[i] == c,
    ensures
        i < s.len() ==> first_index_of(s, c) == Some(i),
        i == s.len() ==> first_index_of(s, c) is None,
{
    if i < s.len() {
        assert(has_char(s, c));
        let w = choose|j: int| 0 <= j < s.len() && s[j] == c && forall|l: int| 0 <= l < j ==> s[l] != c;
        assert(0 <= w < s.len() && s[w] == c && forall|l: int| 0 <= l < w ==> s[l] != c);
        if w < i {
        } else if w > i {
            assert(s[i] != c);
        }
    } else {
        assert(!has_char(s, c));
    }
}

/// `first_line_of` over numbered entries held as pairs plus line numbers.
fn find_first_line(
    entries: &Vec<(String, String)>,
    numbers: &Vec<usize>,
    name: &str,
    Ghost(model): Ghost<Seq<(Seq<char>, Seq<char>, nat)>>,
) -> (r: Option<usize>)
    requires
        model.len() == entries@.len() == numbers@.len(),
        forall|i: int|
            0 <= i < model.len() ==> #[trigger] model[i] == (
                entries@[i].0@,
                entries@[i].1@,
                numbers@[i] as nat,
            ),
    ensures
        r matches Some(n) ==> first_line_of(model, name@) == Some(n as nat),
        r is None ==> first_line_of(model, name@) is None,
{
    let mut j: usize = 0;
    assert(model.subrange(0, model.len() as int) == model);
    while j < entries.len()
        invariant
            j <= entries@.len() == model.len() == numbers@.len(),
            forall|i: int|
                0 <= i < model.len() ==> #[trigger] model[i] == (
                    entries@[i].0@,
                    entries@[i].1@,
                    numbers@[i] as nat,
                ),
            first_line_of(model, name@) == first_line_of(
                model.subrange(j as int, model.len() as int),
                name@,
            ),
        decreases entries@.len() - j,
    {
        let ghost rest = model.subrange(j as int, model.len() as int);
        assert(rest[0] == model[j as int]);
        if str_eq(entries[j].0.as_str(), name) {
            return Some(numbers[j]);
        }
        assert(rest.drop_first() == model.subrange(j + 1, model.len() as int));
        j = j + 1;
    }
    None
}

/// Appends `v[start..end]` to `out`.
fn push_range(out: &mut String, v: &Vec<char>, start: usize, end: usize)
    requires
        start <= end <= v@.len(),
    ensures
        final(out)@ == old(out)@ + v@.subrange(start as int, end as int),
{
    let piece = string_from_range(v, start, end);
    push_str(out, piece.as_str());
}

/// The message for line `number` with a fixed detail text.
fn line_error_text(number: usize, detail: &str) -> (r: String)
    ensures
        r@ == line_error(number as nat, detail@),
{
    let mut out = String::new();
    push_str(&mut out, "invalid host environment entry on line ");
    push_decimal(&mut out, number as u64);
    push_str(&mut out, ": ");
    push_str(&mut out, detail);
    proof {
        reveal_strlit("invalid host environment entry on line ");
        reveal_strlit(": ");
    }
    out
}

/// Once a line is rejected, the verdict on the whole file is that rejection.
proof fn lemma_rejection_persists(lines: Seq<Seq<char>>, k: nat, n: nat)
    requires
        k <= n,
        parse_lines(lines, k) is Err,
    ensures
        parse_lines(lines, n) == parse_lines(lines, k),
    decreases n - k,
{
    if k < n {
        lemma_rejection_persists(lines, k, (n - 1) as nat);
    }
}

/// The entry of one trimmed line `v[s..t]`: `Ok(None)` for a blank or comment line,
/// the name and value of a well-formed entry, or the message rejecting it.
fn line_entry_exec(v: &Vec<char>, s: usize, t: usize, number: usize) -> (r: Result<
    Option<(String, String)>,
    String,
>)
    requires
        s <= t <= v@.len(),
    ensures
        skipped_line(v@.subrange(s as int, t as int)) ==> r matches Ok(None),
        !skipped_line(v@.subrange(s as int, t as int)) ==> match line_entry(
            v@.subrange(s as int, t as int),
            number as nat,
        ) {
            Err(m) => r matches Err(x) && x@ == m,
            Ok(e) => r matches Ok(Some(p)) && p.0@ == e.0 && p.1@ == e.1,
        },
{
    let ghost line = v@.subrange(s as int, t as int);
    if s == t || v[s] == '#' {
        return Ok(None);
    }
    let eq = find_char(v, s, t, '=');
    proof {
        assert forall|j: int| 0 <= j < eq - s implies line[j] != '=' by {
            assert(line[j] == v@[s + j]);
        }
        if eq < t {
            assert(line[eq - s] == v@[eq as int]);
        }
        lemma_first_index(line, '=', eq - s);
    }
    if eq == t {
        return Err(line_error_text(number, "expected NAME=VALUE"));
    }
    let (n0, n1) = trim_range(v, s, eq);
    let (v0, v1) = trim_range(v, eq + 1, t);
    assert(line.subrange(0, eq - s) == v@.subrange(s as int, eq as int));
    assert(line.subrange(eq - s + 1, line.len() as int) == v@.subrange(eq + 1, t as int));
    let ghost value = v@.subrange(v0 as int, v1 as int);
    if n0 == n1 {
        return Err(line_error_text(number, "empty variable name"));
    }
    if !range_is_variable_name(v, n0, n1) {
        let mut out = line_error_text(number, "invalid variable name `");
        push_range(&mut out, v, n0, n1);
        push_str(&mut out, "`");
        proof {
            reveal_strlit("invalid variable name `");
            reveal_strlit("`");
            assert(out@ =~= line_error(
                number as nat,
                "invalid variable name `"@ + v@.subrange(n0 as int, n1 as int) + "`"@,
            ));
        }
        return Err(out);
    }
    let nul = find_char(v, v0, v1, '\0');
    proof {
        if nul < v1 {
            assert(value[nul - v0] == '\0');
        } else {
            assert forall|j: int| 0 <= j < value.len() implies value[j] != '\0' by {
                assert(value[j] == v@[v0 + j]);
            }
        }
    }
    if nul < v1 {
        return Err(line_error_text(number, "NUL byte in value"));
    }
    Ok(Some((string_from_range(v, n0, n1), string_from_range(v, v0, v1))))
}

/// The message rejecting a second definition of `name`.
fn duplicate_error_text(name: &str, first: usize, number: usize) -> (r: String)
    ensures
        r@ == duplicate_error(name@, first as nat, number as nat),
{
    let mut out = String::new();
    push_str(&mut out, "duplicate host environment variable `");
    push_str(&mut out, name);
    push_str(&mut out, "` on lines ");
    push_decimal(&mut out, first as u64);
    push_str(&mut out, " and ");
    push_decimal(&mut out, number as u64);
    proof {
        reveal_strlit("duplicate host environment variable `");
        reveal_strlit("` on lines ");
        reveal_strlit(" and ");
        assert(out@ =~= duplicate_error(name@, first as nat, number as nat));
    }
    out
}

/// Parses `NAME=VALUE` lines, ignoring blank lines and full-line comments. The whole
/// file is validated before any entry is returned; duplicates are rejected with both
/// line numbers.
pub fn parse_host_environment(content: &str) -> (r: Result<Vec<(String, String)>, String>)
    ensures
        r is Ok <==> host_environment(content@) is Ok,
        r matches Ok(v) ==> host_environment(content@) == Ok::<
            Seq<(Seq<char>, Seq<char>)>,
            Seq<char>,
        >(pairs_view(v@)),
        r matches Err(m) ==> host_environment(content@) == Err::<
            Seq<(Seq<char>, Seq<char>)>,
            Seq<char>,
        >(m@),
{
    let v = chars_of(content);
    let ranges = split_ranges(&v, 0, v.len(), '\n');
    let ghost lines = split(content@, '\n');
    assert(v@.subrange(0, v@.len() as int) == v@);
    let mut entries: Vec<(String, String)> = Vec::new();
    let mut numbers: Vec<usize> = Vec::new();
    let ghost mut model: Seq<(Seq<char>, Seq<char>, nat)> = Seq::empty();
    let mut k: usize = 0;
    while k < ranges.len()
        invariant
            v@ == content@,
            lines == split(content@, '\n'),
            crate::text::ranges_hold(v@, 0, v@.len() as int, ranges@, lines),
            k <= ranges@.len(),
            parse_lines(lines, k as nat) == Ok::<Seq<(Seq<char>, Seq<char>, nat)>, Seq<char>>(model),
            model.len() == entries@.len() == numbers@.len(),
            forall|i: int|
                0 <= i < model.len() ==> #[trigger] model[i] == (
                    entries@[i].0@,
                    entries@[i].1@,
                    numbers@[i] as nat,
                ),
        decreases ranges@.len() - k,
    {
        let number = k + 1;
        let (a, b) = ranges[k];
        assert(v@.subrange(a as int, b as int) == lines[k as int]);
        let (s, t) = trim_range(&v, a, b);
        assert(v@.subrange(s as int, t as int) == trim(lines[number - 1]));
        match line_entry_exec(&v, s, t, number) {
            Err(message) => {
                proof {
                    lemma_rejection_persists(lines, number as nat, lines.len());
                }
                return Err(message);
            },
            Ok(None) => {},
            Ok(Some((name, value))) => {
                match find_first_line(&entries, &numbers, name.as_str(), Ghost(model)) {
                    Some(first) => {
                        let message = duplicate_error_text(name.as_str(), first, number);
                        proof {
                            lemma_rejection_persists(lines, number as nat, lines.len());
                        }
                        return Err(message);
                    },
                    None => {},
                }
                proof {
                    model = model.push((name@, value@, number as nat));
                }
                entries.push((name, value));
                numbers.push(number);
            },
        }
        k = k + 1;
    }
    proof {
        assert(pairs_view(entries@) =~= without_numbers(model));
    }
    Ok(entries)
}

/// The value of the first variable named `name`.
pub open spec fn lookup(env: Seq<(Seq<char>, Seq<char>)>, name: Seq<char>) -> Option<Seq<char>>
    decreases env.len(),
{
    if env.len() == 0 {
        None
    } else if env[0].0 == name {
        Some(env[0].1)
    } else {
        lookup(env.drop_first(), name)
    }
}

/// The file entries the caller's environment does not already provide, in file order.
pub open spec fn unset_entries(
    entries: Seq<(Seq<char>, Seq<char>)>,
    caller: Seq<(Seq<char>, Seq<char>)>,
) -> Seq<(Seq<char>, Seq<char>)>
    decreases entries.len(),
{
    if entries.len() == 0 {
        Seq::empty()
    } else {
        let rest = unset_entries(entries.drop_last(), caller);
        if lookup(caller, entries.last().0) is None {
            rest.push(entries.last())
        } else {
            rest
        }
    }
}

/// A variable's value once the file entries were applied under the caller's environment.
pub open spec fn effective(
    caller: Seq<(Seq<char>, Seq<char>)>,
    entries: Seq<(Seq<char>, Seq<char>)>,
    name: Seq<char>,
) -> Option<Seq<char>> {
    match lookup(caller, name) {
        Some(value) => Some(value),
        None => lookup(entries, name),
    }
}

/// The uid-scoped runtime directory.
pub open spec fn runtime_directory(uid: u32) -> Seq<char> {
    "/run/user/"@ + decimal(uid as nat)
}

/// The session bus inside a runtime directory.
pub open spec fn session_bus_address(runtime_directory: Seq<char>) -> Seq<char> {
    "unix:path="@ + runtime_directory + "/bus"@
}

pub open spec fn is_nonempty(value: Option<Seq<char>>) -> bool {
    value matches Some(v) && v.len() > 0
}

/// The Quadlet directory derived from a nonempty `HOME` when none is configured.
pub open spec fn derived_quadlet_directory(
    caller: Seq<(Seq<char>, Seq<char>)>,
    entries: Seq<(Seq<char>, Seq<char>)>,
) -> Seq<(Seq<char>, Seq<char>)> {
    match effective(caller, entries, "HOME"@) {
        Some(home) => if home.len() > 0 && effective(caller, entries, "PNEUMA_QUADLET_DIR"@) is None {
            seq![("PNEUMA_QUADLET_DIR"@, home + "/.config/containers/systemd"@)]
        } else {
            Seq::empty()
        },
        None => Seq::empty(),
    }
}

/// The message refusing to start without a resolvable Quadlet directory.
pub open spec fn quadlet_requirement_error() -> Seq<char> {
    "either HOME or PNEUMA_QUADLET_DIR must be set to a nonempty value"@
}

/// Startup configuration: the variables to set, in order, given the host environment
/// file (if present), the caller's environment, and the effective uid. File entries
/// never override the caller; `XDG_RUNTIME_DIR` and `DBUS_SESSION_BUS_ADDRESS` are
/// always derived from the uid; a nonempty `HOME` or `PNEUMA_QUADLET_DIR` is required.
pub open spec fn startup_environment(
    content: Option<Seq<char>>,
    caller: Seq<(Seq<char>, Seq<char>)>,
    uid: u32,
) -> Result<Seq<(Seq<char>, Seq<char>)>, Seq<char>> {
    let parsed = match content {
        Some(c) => host_environment(c),
        None => Ok(Seq::empty()),
    };
    match parsed {
        Err(message) => Err(message),
        Ok(entries) => if is_nonempty(effective(caller, entries, "HOME"@)) || is_nonempty(
            effective(caller, entries, "PNEUMA_QUADLET_DIR"@),
        ) {
            Ok(
                unset_entries(entries, caller) + seq![
                    ("XDG_RUNTIME_DIR"@, runtime_directory(uid)),
                    ("DBUS_SESSION_BUS_ADDRESS"@, session_bus_address(runtime_directory(uid))),
                ] + derived_quadlet_directory(caller, entries),
            )
        } else {
            Err(quadlet_requirement_error())
        },
    }
}

/// Index of the first variable named `name`, matching `lookup`.
fn lookup_index(env: &Vec<(String, String)>, name: &str) -> (r: Option<usize>)
    ensures
        r matches Some(i) ==> i < env@.len() && lookup(pairs_view(env@), name@) == Some(
            env@[i as int].1@,
        ),
        r is None ==> lookup(pairs_view(env@), name@) is None,
{
    let ghost view = pairs_view(env@);
    let mut j: usize = 0;
    assert(view.subrange(0, view.len() as int) == view);
    while j < env.len()
        invariant
            j <= env@.len() == view.len(),
            view == pairs_view(env@),
            lookup(view, name@) == lookup(view.subrange(j as int, view.len() as int), name@),
        decreases env@.len() - j,
    {
        let ghost rest = view.subrange(j as int, view.len() as int);
        assert(rest[0] == view[j as int]);
        if str_eq(env[j].0.as_str(), name) {
            return Some(j);
        }
        assert(rest.drop_first() == view.subrange(j + 1, view.len() as int));
        j = j + 1;
    }
    None
}

/// `effective` for executable environments; returns the value when present.
fn effective_value(caller: &Vec<(String, String)>, entries: &Vec<(String, String)>, name: &str) -> (r:
    Option<String>)
    ensures
        r matches Some(v) ==> effective(pairs_view(caller@), pairs_view(entries@), name@) == Some(
            v@,
        ),
        r is None ==> effective(pairs_view(caller@), pairs_view(entries@), name@) is None,
{
    match lookup_index(caller, name) {
        Some(i) => Some(caller[i].1.clone()),
        None => match lookup_index(entries, name) {
            Some(i) => Some(entries[i].1.clone()),
            None => None,
        },
    }
}

/// The entries the caller's environment does not already provide.
fn unset_entries_exec(entries: &Vec<(String, String)>, caller: &Vec<(String, String)>) -> (r: Vec<
    (String, String),
>)
    ensures
        pairs_view(r@) == unset_entries(pairs_view(entries@), pairs_view(caller@)),
{
    let mut out: Vec<(String, String)> = Vec::new();
    let mut i: usize = 0;
    while i < entries.len()
        invariant
            i <= entries@.len(),
            pairs_view(out@) == unset_entries(pairs_view(entries@.subrange(0, i as int)), pairs_view(caller@)),
        decreases entries@.len() - i,
    {
        let ghost prefix = pairs_view(entries@.subrange(0, i + 1));
        assert(prefix.drop_last() == pairs_view(entries@.subrange(0, i as int)));
        assert(prefix.last() == (entries@[i as int].0@, entries@[i as int].1@));
        if lookup_index(caller, entries[i].0.as_str()).is_none() {
            out.push((entries[i].0.clone(), entries[i].1.clone()));
            assert(pairs_view(out@) =~= unset_entries(prefix.drop_last(), pairs_view(caller@)).push(prefix.last()));
        }
        i = i + 1;
    }
    assert(entries@.subrange(0, entries@.len() as int) == entries@);
    out
}

/// The uid-scoped runtime directory, `/run/user/<uid>`.
pub fn runtime_directory_path(uid: u32) -> (r: String)
    ensures
        r@ == runtime_directory(uid),
{
    let mut out = String::new();
    push_str(&mut out, "/run/user/");
    push_decimal(&mut out, uid as u64);
    proof {
        reveal_strlit("/run/user/");
    }
    out
}

/// The session bus address inside a runtime directory.
pub fn session_bus_address_for(runtime_directory: &str) -> (r: String)
    ensures
        r@ == session_bus_address(runtime_directory@),
{
    let mut out = String::new();
    push_str(&mut out, "unix:path=");
    push_str(&mut out, runtime_directory);
    push_str(&mut out, "/bus");
    proof {
        reveal_strlit("unix:path=");
        reveal_strlit("/bus");
    }
    out
}

/// The host environment file location: a nonempty override, else the default.
pub fn host_environment_file_path(override_path: Option<&str>) -> (r: String)
    ensures
        r@ == configured(
            match override_path {
                Some(p) => Some(p@),
                None => None,
            },
            DEFAULT_HOST_ENVIRONMENT_FILE@,
        ),
{
    configured_path(override_path, DEFAULT_HOST_ENVIRONMENT_FILE)
}

/// Validates the host environment file (when present) and decides the variables to
/// set at startup, in order: the file entries the caller's environment lacks, the
/// uid-scoped runtime directory and session bus, and the Quadlet directory derived
/// from `HOME` when none is configured. Fails on an invalid file, or when neither
/// `HOME` nor `PNEUMA_QUADLET_DIR` would be nonempty.
pub fn configure_startup_environment(
    content: Option<&str>,
    caller: &Vec<(String, String)>,
    uid: u32,
) -> (r: Result<Vec<(String, String)>, String>)
    ensures
        r matches Ok(v) ==> startup_environment(
            match content {
                Some(c) => Some(c@),
                None => None,
            },
            pairs_view(caller@),
            uid,
        ) == Ok::<Seq<(Seq<char>, Seq<char>)>, Seq<char>>(pairs_view(v@)),
        r matches Err(m) ==> startup_environment(
            match content {
                Some(c) => Some(c@),
                None => None,
            },
            pairs_view(caller@),
            uid,
        ) == Err::<Seq<(Seq<char>, Seq<char>)>, Seq<char>>(m@),
{
    let entries = match content {
        Some(text) => parse_host_environment(text)?,
        None => Vec::new(),
    };
    assert(content is None ==> pairs_view(entries@) =~= Seq::<(Seq<char>, Seq<char>)>::empty());
    let home = effective_value(caller, &entries, "HOME");
    let quadlet = effective_value(caller, &entries, "PNEUMA_QUADLET_DIR");
    let home_nonempty = match &home {
        Some(value) => !value.as_str().is_empty(),
        None => false,
    };
    let quadlet_nonempty = match &quadlet {
        Some(value) => !value.as_str().is_empty(),
        None => false,
    };
    if !home_nonempty && !quadlet_nonempty {
        return Err("either HOME or PNEUMA_QUADLET_DIR must be set to a nonempty value".to_owned());
    }
    let mut assignments = unset_entries_exec(&entries, caller);
    let ghost applied = pairs_view(assignments@);
    let directory_path = runtime_directory_path(uid);
    let bus = session_bus_address_for(directory_path.as_str());
    assignments.push(("XDG_RUNTIME_DIR".to_owned(), directory_path));
    assignments.push(("DBUS_SESSION_BUS_ADDRESS".to_owned(), bus));
    let ghost fixed = pairs_view(assignments@);
    if home_nonempty && quadlet.is_none() {
        let mut directory = home.unwrap();
        push_str(&mut directory, "/.config/containers/systemd");
        assignments.push(("PNEUMA_QUADLET_DIR".to_owned(), directory));
    }
    proof {
        let c = match content {
            Some(c) => Some(c@),
            None => None,
        };
        let e = pairs_view(entries@);
        assert(fixed =~= applied + seq![
            ("XDG_RUNTIME_DIR"@, runtime_directory(uid)),
            ("DBUS_SESSION_BUS_ADDRESS"@, session_bus_address(runtime_directory(uid))),
        ]);
        assert(pairs_view(assignments@) =~= fixed + derived_quadlet_directory(pairs_view(caller@), e));
    }
    Ok(assignments)
}

/// `first_line_of` finds nothing exactly when no entry has the name.
proof fn lemma_first_line_absent(entries: Seq<(Seq<char>, Seq<char>, nat)>, name: Seq<char>)
    ensures
        first_line_of(entries, name) is None <==> forall|i: int|
            0 <= i < entries.len() ==> (#[trigger] entries[i]).0 != name,
    decreases entries.len(),
{
    if entries.len() > 0 {
        lemma_first_line_absent(entries.drop_first(), name);
        assert forall|i: int| 1 <= i < entries.len() implies entries[i] == entries.drop_first()[i
            - 1] by {}
    }
}

/// Every entry parsed from the first `k` lines has a valid name, a value without NUL,
/// and a name no other entry has.
proof fn lemma_parsed_lines_are_valid(lines: Seq<Seq<char>>, k: nat)
    ensures
        parse_lines(lines, k) matches Ok(entries) ==> {
            &&& forall|i: int|
                0 <= i < entries.len() ==> valid_variable_name((#[trigger] entries[i]).0) && !has_char(
                    entries[i].1,
                    '\0',
                )
            &&& forall|i: int, j: int|
                0 <= i < j < entries.len() ==> (#[trigger] entries[i]).0 != (#[trigger] entries[j]).0
        },
    decreases k,
{
    if k > 0 {
        lemma_parsed_lines_are_valid(lines, (k - 1) as nat);
        if let Ok(entries) = parse_lines(lines, (k - 1) as nat) {
            let t = trim(lines[k - 1]);
            if !skipped_line(t) {
                if let Ok((name, value)) = line_entry(t, k) {
                    lemma_first_line_absent(entries, name);
                }
            }
        }
    }
}

/// Every accepted host environment file yields entries with valid variable names,
/// values free of NUL, and no name defined twice.
pub proof fn lemma_host_environment_entries_are_valid(content: Seq<char>)
    ensures
        host_environment(content) matches Ok(entries) ==> {
            &&& forall|i: int|
                0 <= i < entries.len() ==> valid_variable_name((#[trigger] entries[i]).0) && !has_char(
                    entries[i].1,
                    '\0',
                )
            &&& forall|i: int, j: int|
                0 <= i < j < entries.len() ==> (#[trigger] entries[i]).0 != (#[trigger] entries[j]).0
        },
{
    let lines = split(content, '\n');
    lemma_parsed_lines_are_valid(lines, lines.len());
}

/// File entries never override the caller: every entry kept is one the caller's
/// environment does not define, and every entry the caller lacks is kept.
pub proof fn lemma_file_entries_never_override_the_caller(
    entries: Seq<(Seq<char>, Seq<char>)>,
    caller: Seq<(Seq<char>, Seq<char>)>,
)
    ensures
        forall|i: int|
            0 <= i < unset_entries(entries, caller).len() ==> lookup(
                caller,
                (#[trigger] unset_entries(entries, caller)[i]).0,
            ) is None && entries.contains(unset_entries(entries, caller)[i]),
        forall|i: int|
            0 <= i < entries.len() && lookup(caller, (#[trigger] entries[i]).0) is None
                ==> unset_entries(entries, caller).contains(entries[i]),
    decreases entries.len(),
{
    if entries.len() > 0 {
        let init = entries.drop_last();
        lemma_file_entries_never_override_the_caller(init, caller);
        let rest = unset_entries(init, caller);
        assert forall|i: int| 0 <= i < rest.len() implies entries.contains(#[trigger] rest[i]) by {
            let j = choose|j: int| 0 <= j < init.len() && init[j] == rest[i];
            assert(entries[j] == init[j]);
        }
        assert forall|i: int|
            0 <= i < entries.len() && lookup(caller, (#[trigger] entries[i]).0) is None implies unset_entries(
            entries,
            caller,
        ).contains(entries[i]) by {
            if i < entries.len() - 1 {
                assert(init[i] == entries[i]);
                let j = choose|j: int| 0 <= j < rest.len() && rest[j] == init[i];
                if lookup(caller, entries.last().0) is None {
                    assert(unset_entries(entries, caller)[j] == rest[j]);
                }
            } else {
                assert(unset_entries(entries, caller).last() == entries[i]);
            }
        }
    }
}

pub open spec fn names_unique(env: Seq<(Seq<char>, Seq<char>)>) -> bool {
    forall|i: int, j: int| 0 <= i < j < env.len() ==> (#[trigger] env[i]).0 != (#[trigger] env[j]).0
}

proof fn lemma_lookup_finds(env: Seq<(Seq<char>, Seq<char>)>, k: int)
    requires
        0 <= k < env.len(),
        names_unique(env),
    ensures
        lookup(env, env[k].0) == Some(env[k].1),
    decreases env.len(),
{
    if k > 0 {
        let rest = env.drop_first();
        assert forall|i: int, j: int| 0 <= i < j < rest.len() implies (#[trigger] rest[i]).0
            != (#[trigger] rest[j]).0 by {
            assert(rest[i] == env[i + 1] && rest[j] == env[j + 1]);
        }
        assert(env[0].0 != env[k].0);
        lemma_lookup_finds(rest, k - 1);
        assert(rest[k - 1] == env[k]);
    }
}

proof fn lemma_lookup_absent(env: Seq<(Seq<char>, Seq<char>)>, name: Seq<char>, k: int)
    requires
        0 <= k < env.len(),
        lookup(env, name) is None,
    ensures
        env[k].0 != name,
    decreases env.len(),
{
    if k > 0 {
        lemma_lookup_absent(env.drop_first(), name, k - 1);
        assert(env.drop_first()[k - 1] == env[k]);
    }
}

proof fn lemma_unset_names_unique(
    entries: Seq<(Seq<char>, Seq<char>)>,
    caller: Seq<(Seq<char>, Seq<char>)>,
)
    requires
        names_unique(entries),
    ensures
        names_unique(unset_entries(entries, caller)),
    decreases entries.len(),
{
    if entries.len() > 0 {
        let init = entries.drop_last();
        assert forall|i: int, j: int| 0 <= i < j < init.len() implies (#[trigger] init[i]).0
            != (#[trigger] init[j]).0 by {
            assert(init[i] == entries[i] && init[j] == entries[j]);
        }
        lemma_unset_names_unique(init, caller);
        lemma_file_entries_never_override_the_caller(init, caller);
        let rest = unset_entries(init, caller);
        if lookup(caller, entries.last().0) is None {
            let all = rest.push(entries.last());
            assert forall|i: int, j: int| 0 <= i < j < all.len() implies (#[trigger] all[i]).0
                != (#[trigger] all[j]).0 by {
                if j == all.len() - 1 {
                    assert(all[i] == rest[i]);
                    assert(init.contains(rest[i]));
                    let k = choose|k: int| 0 <= k < init.len() && init[k] == rest[i];
                    assert(entries[k] == init[k]);
                    assert(entries[k].0 != entries[entries.len() - 1].0);
                } else {
                    assert(all[i] == rest[i] && all[j] == rest[j]);
                }
            }
        }
    }
}

/// The Quadlet directory is assigned at most once and never against what is already
/// configured: when the caller defines `PNEUMA_QUADLET_DIR` nothing assigns it; when
/// only the host environment file does, its one assignment is the file's value; only
/// when neither does may it be derived from `HOME`.
pub proof fn lemma_quadlet_directory_assigned_once(
    content: Option<Seq<char>>,
    caller: Seq<(Seq<char>, Seq<char>)>,
    uid: u32,
)
    requires
        startup_environment(content, caller, uid) is Ok,
    ensures
        ({
            let v = startup_environment(content, caller, uid)->Ok_0;
            let file = match content {
                Some(c) => host_environment(c)->Ok_0,
                None => Seq::<(Seq<char>, Seq<char>)>::empty(),
            };
            &&& forall|i: int, j: int|
                0 <= i < j < v.len() ==> !((#[trigger] v[i]).0 == "PNEUMA_QUADLET_DIR"@ && (
                #[trigger] v[j]).0 == "PNEUMA_QUADLET_DIR"@)
            &&& forall|i: int|
                0 <= i < v.len() && (#[trigger] v[i]).0 == "PNEUMA_QUADLET_DIR"@ ==> lookup(
                    caller,
                    "PNEUMA_QUADLET_DIR"@,
                ) is None
            &&& forall|i: int|
                0 <= i < v.len() && (#[trigger] v[i]).0 == "PNEUMA_QUADLET_DIR"@ && lookup(
                    file,
                    "PNEUMA_QUADLET_DIR"@,
                ) is Some ==> v[i].1 == lookup(file, "PNEUMA_QUADLET_DIR"@)->0
        }),
{
    reveal_strlit("PNEUMA_QUADLET_DIR");
    reveal_strlit("XDG_RUNTIME_DIR");
    reveal_strlit("DBUS_SESSION_BUS_ADDRESS");
    let q = "PNEUMA_QUADLET_DIR"@;
    let file = match content {
        Some(c) => host_environment(c)->Ok_0,
        None => Seq::<(Seq<char>, Seq<char>)>::empty(),
    };
    if let Some(c) = content {
        lemma_host_environment_entries_are_valid(c);
    }
    assert(names_unique(file));
    let unset = unset_entries(file, caller);
    lemma_file_entries_never_override_the_caller(file, caller);
    lemma_unset_names_unique(file, caller);
    let mid = seq![
        ("XDG_RUNTIME_DIR"@, runtime_directory(uid)),
        ("DBUS_SESSION_BUS_ADDRESS"@, session_bus_address(runtime_directory(uid))),
    ];
    let derived = derived_quadlet_directory(caller, file);
    let v = startup_environment(content, caller, uid)->Ok_0;
    assert(v == unset + mid + derived);
    assert(q.len() == 18);
    assert(("XDG_RUNTIME_DIR"@).len() == 15);
    assert(("DBUS_SESSION_BUS_ADDRESS"@).len() == 24);
    assert("XDG_RUNTIME_DIR"@ != q);
    assert("DBUS_SESSION_BUS_ADDRESS"@ != q);
    // An unset entry named `q` is the file's own entry: the caller lacks `q`.
    assert forall|i: int| 0 <= i < unset.len() && (#[trigger] unset[i]).0 == q implies lookup(caller, q)
        is None && lookup(file, q) == Some(unset[i].1) by {
        let k = choose|k: int| 0 <= k < file.len() && file[k] == unset[i];
        lemma_lookup_finds(file, k);
    }
    // A derived entry exists only when neither the caller nor the file names `q`.
    if derived.len() > 0 {
        assert(lookup(caller, q) is None && lookup(file, q) is None);
        assert forall|i: int| 0 <= i < unset.len() implies (#[trigger] unset[i]).0 != q by {
            let k = choose|k: int| 0 <= k < file.len() && file[k] == unset[i];
            lemma_lookup_absent(file, q, k);
        }
    }
    assert forall|i: int, j: int| 0 <= i < j < v.len() implies !((#[trigger] v[i]).0 == q && (
    #[trigger] v[j]).0 == q) by {
        if i < unset.len() && j < unset.len() {
            assert(v[i] == unset[i] && v[j] == unset[j]);
        } else if i < unset.len() {
            assert(v[i] == unset[i]);
            if j >= unset.len() + 2 {
                assert(v[j] == derived[j - unset.len() - 2]);
            } else {
                assert(v[j] == mid[j - unset.len()]);
            }
        } else if i < unset.len() + 2 {
            assert(v[i] == mid[i - unset.len()]);
        } else {
            assert(derived.len() <= 1);
        }
    }
    assert forall|i: int| 0 <= i < v.len() && (#[trigger] v[i]).0 == q implies lookup(caller, q) is None
        && (lookup(file, q) is Some ==> v[i].1 == lookup(file, q)->0) by {
        if i < unset.len() {
            assert(v[i] == unset[i]);
        } else if i < unset.len() + 2 {
            assert(v[i] == mid[i - unset.len()]);
        } else {
            assert(v[i] == derived[i - unset.len() - 2]);
        }
    }
}

} // verus!
