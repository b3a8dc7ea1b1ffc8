//! Reading a member's manifest text: workspace member lists, the package
//! name, and the driver-kit configuration section. A section that is absent
//! classifies the package as a non-driver; a section that is present but
//! unreadable is a package-level error — the two are never conflated.

use vstd::prelude::*;
use vstd::string::StrSliceExecFns;
use vstd::string::StringExecFns;
use crate::args::DriverType;
use crate::errors::MalformedDriverConfig;
use crate::text::str_eq;
use crate::text::trim;
use crate::text::trimmed;

verus! {

/// `s` split at every occurrence of `sep`: the separators are dropped and
/// the pieces kept, so `n` separators give `n + 1` pieces.
pub open spec fn split_on(s: Seq<char>, sep: char) -> Seq<Seq<char>>
    decreases s.len(),
{
    if s.len() == 0 {
        seq![Seq::<char>::empty()]
    } else if s[0] == sep {
        seq![Seq::<char>::empty()] + split_on(s.drop_first(), sep)
    } else {
        let rest = split_on(s.drop_first(), sep);
        seq![seq![s[0]] + rest[0]] + rest.drop_first()
    }
}

/// A split always yields at least one piece.
pub proof fn lemma_split_on_nonempty(s: Seq<char>, sep: char)
    ensures
        split_on(s, sep).len() >= 1,
    decreases s.len(),
{
    if s.len() == 0 {
    } else if s[0] == sep {
        lemma_split_on_nonempty(s.drop_first(), sep)
    } else {
        lemma_split_on_nonempty(s.drop_first(), sep)
    }
}

/// When no separator stands before position `i` then the split opens with
/// `s[..i]`: followed by the split of the remainder when `s[i]` is a
/// separator, and as the only piece when `i` is the end.
pub proof fn lemma_split_on_head(s: Seq<char>, sep: char, i: int)
    requires
        0 <= i <= s.len(),
        forall|j: int| 0 <= j < i ==> s[j] != sep,
        i < s.len() ==> s[i] == sep,
    ensures
        i < s.len() ==> split_on(s, sep) == seq![s.subrange(0, i)] + split_on(
            s.subrange(i + 1, s.len() as int),
            sep,
        ),
        i == s.len() ==> split_on(s, sep) == seq![s],
    decreases i,
{
    lemma_split_on_nonempty(s, sep);
    if i == 0 {
        if 0 < s.len() {
            assert(s.drop_first() =~= s.subrange(1, s.len() as int));
            assert(s.subrange(0, 0) =~= Seq::<char>::empty());
            assert(split_on(s, sep) =~= seq![s.subrange(0, 0)] + split_on(
                s.subrange(1, s.len() as int),
                sep,
            ));
        } else {
            assert(s =~= Seq::<char>::empty());
            assert(split_on(s, sep) =~= seq![s]);
        }
    } else {
        let t = s.drop_first();
        lemma_split_on_head(t, sep, i - 1);
        lemma_split_on_nonempty(t, sep);
        if i < s.len() {
            assert(t.subrange(0, i - 1) =~= s.subrange(1, i));
            assert(t.subrange(i, t.len() as int) =~= s.subrange(i + 1, s.len() as int));
            let rest = split_on(t, sep);
            assert(rest[0] == s.subrange(1, i));
            assert(seq![s[0]] + rest[0] =~= s.subrange(0, i));
            assert(split_on(s, sep) =~= seq![s.subrange(0, i)] + split_on(
                s.subrange(i + 1, s.len() as int),
                sep,
            ));
        } else {
            assert(t.subrange(0, t.len() as int) =~= t);
            assert(split_on(t, sep) == seq![t]);
            assert(seq![s[0]] + t =~= s);
            assert(split_on(s, sep) =~= seq![s]);
        }
    }
}

/// Finds the first occurrence of `sep` in `s` at or after `from`.
fn find_char(s: &str, from: usize, sep: char) -> (r: Option<usize>)
    requires
        from <= s@.len(),
    ensures
        (match r {
            Some(i) => from <= i < s@.len() && s@[i as int] == sep && (forall|j: int|
                from <= j < i ==> s@[j] != sep),
            None => forall|j: int| from <= j < s@.len() ==> s@[j] != sep,
        }),
{
    let len = s.unicode_len();
    let mut i: usize = from;
    while i < len
        invariant
            from <= i <= len,
            len == s@.len(),
            forall|j: int| from <= j < i ==> s@[j] != sep,
        decreases len - i,
    {
        if s.get_char(i) == sep {
            return Some(i);
        }
        i += 1;
    }
    None
}

/// Splits `s` at every occurrence of `sep`.
pub fn split_str(s: &str, sep: char) -> (r: Vec<String>)
    ensures
        r@.map_values(|l: String| l@) == split_on(s@, sep),
    decreases s@.len(),
{
    let len = s.unicode_len();
    match find_char(s, 0, sep) {
        None => {
            let mut v: Vec<String> = Vec::new();
            v.push(String::from_str(s));
            proof {
                lemma_split_on_head(s@, sep, len as int);
                assert(v@.map_values(|l: String| l@) =~= seq![s@]);
            }
            v
        },
        Some(i) => {
            let first = s.substring_char(0, i);
            let rest = s.substring_char(i + 1, len);
            let mut v = split_str(rest, sep);
            let ghost tail_views = v@.map_values(|l: String| l@);
            v.insert(0, String::from_str(first));
            proof {
                lemma_split_on_head(s@, sep, i as int);
                assert(v@.map_values(|l: String| l@) =~= seq![first@] + tail_views);
            }
            v
        },
    }
}

/// The lines of `s`.
pub open spec fn spec_lines(s: Seq<char>) -> Seq<Seq<char>> {
    split_on(s, '\n')
}

/// Splits `s` into its lines.
pub fn split_lines(s: &str) -> (r: Vec<String>)
    ensures
        r@.map_values(|l: String| l@) == spec_lines(s@),
{
    split_str(s, '\n')
}

/// `l` split at its first `=`: the text before it and the text after it,
/// or nothing when `l` holds no `=`.
pub open spec fn split_eq(l: Seq<char>) -> Option<(Seq<char>, Seq<char>)>
    decreases l.len(),
{
    if l.len() == 0 {
        None
    } else if l[0] == '=' {
        Some((Seq::<char>::empty(), l.drop_first()))
    } else {
        match split_eq(l.drop_first()) {
            None => None,
            Some(kv) => Some((seq![l[0]] + kv.0, kv.1)),
        }
    }
}

/// When no `=` stands before position `i`, the split happens at `i` — or
/// not at all when `i` is the end.
pub proof fn lemma_split_eq_at(l: Seq<char>, i: int)
    requires
        0 <= i <= l.len(),
        forall|j: int| 0 <= j < i ==> l[j] != '=',
        i < l.len() ==> l[i] == '=',
    ensures
        i < l.len() ==> split_eq(l) == Some(
            (l.subrange(0, i), l.subrange(i + 1, l.len() as int)),
        ),
        i == l.len() ==> split_eq(l) is None,
    decreases i,
{
    if i == 0 {
        if 0 < l.len() {
            assert(l.drop_first() =~= l.subrange(1, l.len() as int));
            assert(l.subrange(0, 0) =~= Seq::<char>::empty());
        }
    } else {
        let t = l.drop_first();
        lemma_split_eq_at(t, i - 1);
        if i < l.len() {
            assert(t.subrange(0, i - 1) =~= l.subrange(1, i));
            assert(t.subrange(i, t.len() as int) =~= l.subrange(i + 1, l.len() as int));
            let kv = split_eq(t).unwrap();
            assert(seq![l[0]] + kv.0 =~= l.subrange(0, i));
        }
    }
}

/// The key of a `key = value` line: the trimmed text before the first `=`.
pub open spec fn line_key(l: Seq<char>) -> Option<Seq<char>> {
    match split_eq(l) {
        None => None,
        Some(kv) => Some(trimmed(kv.0)),
    }
}

/// The value of a `key = value` line: the trimmed text after the first `=`.
pub open spec fn line_value(l: Seq<char>) -> Seq<char> {
    match split_eq(l) {
        None => Seq::<char>::empty(),
        Some(kv) => trimmed(kv.1),
    }
}

/// A line that opens a section: its trimmed text starts with `[`.
pub open spec fn is_header_line(l: Seq<char>) -> bool {
    trimmed(l).len() > 0 && trimmed(l)[0] == '['
}

/// Whether some line's trimmed text is exactly `header`.
pub open spec fn has_section(ls: Seq<Seq<char>>, header: Seq<char>) -> bool
    decreases ls.len(),
{
    ls.len() > 0 && (trimmed(ls[0]) == header || has_section(ls.drop_first(), header))
}

/// The value of the first `key = value` line for `key` that stands after a
/// header line equal to `header` and before the next header line; scanning
/// state: whether the scan stands inside the wanted section.
pub open spec fn section_value_from(
    ls: Seq<Seq<char>>,
    header: Seq<char>,
    key: Seq<char>,
    in_section: bool,
) -> Option<Seq<char>>
    decreases ls.len(),
{
    if ls.len() == 0 {
        None
    } else {
        let l = ls[0];
        if is_header_line(l) {
            section_value_from(ls.drop_first(), header, key, trimmed(l) == header)
        } else if in_section && line_key(l) == Some(key) {
            Some(line_value(l))
        } else {
            section_value_from(ls.drop_first(), header, key, in_section)
        }
    }
}

/// The value the manifest gives `key` inside the section named `header`.
pub open spec fn section_value(
    ls: Seq<Seq<char>>,
    header: Seq<char>,
    key: Seq<char>,
) -> Option<Seq<char>> {
    section_value_from(ls, header, key, false)
}

/// Tests whether some line's trimmed text is exactly `header`.
pub fn find_section(lines: &Vec<String>, header: &str) -> (r: bool)
    ensures
        r == has_section(lines@.map_values(|l: String| l@), header@),
{
    let ghost ls = lines@.map_values(|l: String| l@);
    proof {
        assert(ls.skip(0) =~= ls);
    }
    let mut i: usize = 0;
    while i < lines.len()
        invariant
            0 <= i <= lines.len(),
            ls == lines@.map_values(|l: String| l@),
            ls.len() == lines@.len(),
            has_section(ls, header@) == has_section(ls.skip(i as int), header@),
        decreases lines.len() - i,
    {
        let lt = trim(lines[i].as_str());
        proof {
            assert(ls.skip(i as int)[0] == ls[i as int]);
            assert(ls.skip(i as int).drop_first() =~= ls.skip(i + 1 as int));
        }
        if str_eq(lt, header) {
            return true;
        }
        i += 1;
    }
    proof {
        assert(ls.skip(lines@.len() as int) =~= Seq::<Seq<char>>::empty());
    }
    false
}

/// Looks up `key` inside the section named `header`, returning its trimmed
/// raw value.
pub fn find_section_value(lines: &Vec<String>, header: &str, key: &str) -> (r: Option<
    String,
>)
    ensures
        (match r {
            Some(v) => section_value(lines@.map_values(|l: String| l@), header@, key@)
                == Some(v@),
            None => section_value(lines@.map_values(|l: String| l@), header@, key@)
                is None,
        }),
{
    let ghost ls = lines@.map_values(|l: String| l@);
    proof {
        assert(ls.skip(0) =~= ls);
    }
    let mut in_sec = false;
    let mut i: usize = 0;
    while i < lines.len()
        invariant
            0 <= i <= lines.len(),
            ls == lines@.map_values(|l: String| l@),
            ls.len() == lines@.len(),
            section_value(ls, header@, key@) == section_value_from(
                ls.skip(i as int),
                header@,
                key@,
                in_sec,
            ),
        decreases lines.len() - i,
    {
        let line = lines[i].as_str();
        let lt = trim(line);
        proof {
            assert(ls.skip(i as int)[0] == ls[i as int]);
            assert(ls.skip(i as int).drop_first() =~= ls.skip(i + 1 as int));
        }
        let lt_len = lt.unicode_len();
        if lt_len > 0 && lt.get_char(0) == '[' {
            in_sec = str_eq(lt, header);
        } else {
            let line_len = line.unicode_len();
            match find_char(line, 0, '=') {
                Some(p) => {
                    proof {
                        lemma_split_eq_at(line@, p as int);
                    }
                    let key_part = line.substring_char(0, p);
                    let key_trimmed = trim(key_part);
                    if in_sec && str_eq(key_trimmed, key) {
                        let value_part = line.substring_char(p + 1, line_len);
                        let value_trimmed = trim(value_part);
                        return Some(String::from_str(value_trimmed));
                    }
                },
                None => {
                    proof {
                        lemma_split_eq_at(line@, line@.len() as int);
                    }
                },
            }
        }
        i += 1;
    }
    proof {
        assert(ls.skip(lines@.len() as int) =~= Seq::<Seq<char>>::empty());
    }
    None
}

/// The inner text of a value written as a quoted string, or nothing when it
/// is not one.
pub open spec fn unquoted(v: Seq<char>) -> Option<Seq<char>> {
    if v.len() >= 2 && v[0] == '"' && v[v.len() - 1] == '"' {
        Some(v.subrange(1, v.len() - 1))
    } else {
        None
    }
}

/// Strips the surrounding quotes from a quoted string value.
pub fn unquote(v: &str) -> (r: Option<String>)
    ensures
        (match r {
            Some(inner) => unquoted(v@) == Some(inner@),
            None => unquoted(v@) is None,
        }),
{
    let len = v.unicode_len();
    if len >= 2 && v.get_char(0) == '"' && v.get_char(len - 1) == '"' {
        let inner = v.substring_char(1, len - 1);
        Some(String::from_str(inner))
    } else {
        None
    }
}

/// The header line of the driver-kit configuration section.
pub open spec fn wdk_header() -> Seq<char> {
    "[package.metadata.wdk.driver-model]"@
}

/// The header line of the package section.
pub open spec fn package_header() -> Seq<char> {
    "[package]"@
}

/// The header line of the workspace section.
pub open spec fn workspace_header() -> Seq<char> {
    "[workspace]"@
}

/// The driver kind a `driver-type` value names.
pub open spec fn kind_of(v: Seq<char>) -> Option<DriverType> {
    if v == "KMDF"@ {
        Some(DriverType::Kmdf)
    } else if v == "UMDF"@ {
        Some(DriverType::Umdf)
    } else if v == "WDM"@ {
        Some(DriverType::Wdm)
    } else {
        None
    }
}

/// Whether the manifest holds a driver-kit configuration section at all.
pub open spec fn has_wdk_section(s: Seq<char>) -> bool {
    has_section(spec_lines(s), wdk_header())
}

/// The raw `driver-type` value of the driver-kit section.
pub open spec fn driver_type_value(s: Seq<char>) -> Option<Seq<char>> {
    section_value(spec_lines(s), wdk_header(), "driver-type"@)
}

/// The raw `inf-template` value of the driver-kit section.
pub open spec fn inf_template_value(s: Seq<char>) -> Option<Seq<char>> {
    section_value(spec_lines(s), wdk_header(), "inf-template"@)
}

/// The raw `driver-version` value of the driver-kit section.
pub open spec fn driver_version_value(s: Seq<char>) -> Option<Seq<char>> {
    section_value(spec_lines(s), wdk_header(), "driver-version"@)
}

/// A driver-kit section that parses completely: a quoted, recognized
/// `driver-type`, and quoted values for the optional keys where present.
pub open spec fn config_parses(s: Seq<char>) -> bool {
    &&& has_wdk_section(s)
    &&& (driver_type_value(s) matches Some(v) && unquoted(v) matches Some(i) && kind_of(
        i,
    ) is Some)
    &&& (driver_type_value(s) matches Some(v) ==> (unquoted(v) matches Some(i)
        ==> kind_of(i) is Some))
    &&& (inf_template_value(s) matches Some(v) ==> unquoted(v) is Some)
    &&& (driver_version_value(s) matches Some(v) ==> unquoted(v) is Some)
}

/// The parsed driver-kit configuration of one package.
#[derive(Debug, Clone)]
pub struct DriverMetadata {
    pub driver_type: DriverType,
    pub inf_template: Option<String>,
    pub driver_version: Option<String>,
}

/// The three-way outcome of reading a package's driver-kit configuration:
/// parsed, absent (the package is not a driver — no error), or present but
/// malformed (a package-level error).
#[derive(Debug, Clone)]
pub enum DriverConfigOutcome {
    Parsed(DriverMetadata),
    Absent,
    Malformed(MalformedDriverConfig),
}

/// Reads the driver-kit configuration section of a manifest. An absent
/// section means the package is no driver; a present section must hold a
/// quoted, recognized `driver-type` and quoted optional keys, and anything
/// else is a package-level error that names the first rule broken.
pub fn package_driver_config(manifest: &str) -> (r: DriverConfigOutcome)
    ensures
        r is Absent <==> !has_wdk_section(manifest@),
        r is Parsed <==> config_parses(manifest@),
        (match r {
            DriverConfigOutcome::Parsed(md) => {
                &&& (driver_type_value(manifest@) matches Some(v) && unquoted(v)
                    matches Some(i) && kind_of(i) == Some(md.driver_type))
                &&& (match md.inf_template {
                    Some(t) => inf_template_value(manifest@) matches Some(v2)
                        && unquoted(v2) == Some(t@),
                    None => inf_template_value(manifest@) is None,
                })
                &&& (match md.driver_version {
                    Some(t) => driver_version_value(manifest@) matches Some(v3)
                        && unquoted(v3) == Some(t@),
                    None => driver_version_value(manifest@) is None,
                })
            },
            DriverConfigOutcome::Absent => true,
            DriverConfigOutcome::Malformed(e) => e.reason@ == (if driver_type_value(
                manifest@,
            ) is None {
                "missing driver-type key in the driver-model section"@
            } else if unquoted(driver_type_value(manifest@)->Some_0) is None {
                "driver-type value is not a quoted string"@
            } else if kind_of(unquoted(driver_type_value(manifest@)->Some_0)->Some_0)
                is None {
                "unrecognized driver-type: "@ + unquoted(
                    driver_type_value(manifest@)->Some_0,
                )->Some_0
            } else if (inf_template_value(manifest@) matches Some(v2) && unquoted(v2)
                is None) {
                "inf-template value is not a quoted string"@
            } else {
                "driver-version value is not a quoted string"@
            }),
        }),
{
    let lines = split_lines(manifest);
    if !find_section(&lines, "[package.metadata.wdk.driver-model]") {
        return DriverConfigOutcome::Absent;
    }
    let dt = find_section_value(&lines, "[package.metadata.wdk.driver-model]", "driver-type");
    let dt_raw = match dt {
        None => {
            return DriverConfigOutcome::Malformed(MalformedDriverConfig {
                reason: String::from_str(
                    "missing driver-type key in the driver-model section",
                ),
            });
        },
        Some(v) => v,
    };
    let dt_inner = match unquote(dt_raw.as_str()) {
        None => {
            return DriverConfigOutcome::Malformed(MalformedDriverConfig {
                reason: String::from_str("driver-type value is not a quoted string"),
            });
        },
        Some(i) => i,
    };
    let kind: DriverType;
    if str_eq(dt_inner.as_str(), "KMDF") {
        kind = DriverType::Kmdf;
    } else if str_eq(dt_inner.as_str(), "UMDF") {
        kind = DriverType::Umdf;
    } else if str_eq(dt_inner.as_str(), "WDM") {
        kind = DriverType::Wdm;
    } else {
        proof {
            reveal_strlit("KMDF");
            reveal_strlit("UMDF");
            reveal_strlit("WDM");
        }
        let mut reason = String::from_str("unrecognized driver-type: ");
        reason.append(dt_inner.as_str());
        return DriverConfigOutcome::Malformed(MalformedDriverConfig { reason });
    }
    let inf_template: Option<String> = match find_section_value(
        &lines,
        "[package.metadata.wdk.driver-model]",
        "inf-template",
    ) {
        None => None,
        Some(v) => match unquote(v.as_str()) {
            None => {
                return DriverConfigOutcome::Malformed(MalformedDriverConfig {
                    reason: String::from_str("inf-template value is not a quoted string"),
                });
            },
            Some(i) => Some(i),
        },
    };
    let driver_version: Option<String> = match find_section_value(
        &lines,
        "[package.metadata.wdk.driver-model]",
        "driver-version",
    ) {
        None => None,
        Some(v) => match unquote(v.as_str()) {
            None => {
                return DriverConfigOutcome::Malformed(MalformedDriverConfig {
                    reason: String::from_str(
                        "driver-version value is not a quoted string",
                    ),
                });
            },
            Some(i) => Some(i),
        },
    };
    DriverConfigOutcome::Parsed(DriverMetadata { driver_type: kind, inf_template, driver_version })
}

/// Reads the package name of a manifest: the quoted `name` value of the
/// package section.
pub fn package_name(manifest: &str) -> (r: Option<String>)
    ensures
        (match r {
            Some(n) => section_value(spec_lines(manifest@), package_header(), "name"@)
                matches Some(v) && unquoted(v) == Some(n@),
            None => !(section_value(spec_lines(manifest@), package_header(), "name"@)
                matches Some(v) && unquoted(v) is Some),
        }),
{
    let lines = split_lines(manifest);
    match find_section_value(&lines, "[package]", "name") {
        None => None,
        Some(v) => unquote(v.as_str()),
    }
}

/// The inner text of a value written as a bracketed array, or nothing when
/// it is not one.
pub open spec fn array_inner(v: Seq<char>) -> Option<Seq<char>> {
    if v.len() >= 2 && v[0] == '[' && v[v.len() - 1] == ']' {
        Some(v.subrange(1, v.len() - 1))
    } else {
        None
    }
}

/// The raw `members` value of the workspace section.
pub open spec fn members_value(s: Seq<char>) -> Option<Seq<char>> {
    section_value(spec_lines(s), workspace_header(), "members"@)
}

/// A workspace member list that parses: a bracketed array, either blank or
/// made of comma-separated quoted strings.
pub open spec fn members_parse_ok(s: Seq<char>) -> bool {
    &&& (members_value(s) matches Some(v) && array_inner(v) is Some)
    &&& (members_value(s) matches Some(v) ==> (array_inner(v) matches Some(inner)
        ==> (trimmed(inner).len() == 0 || (forall|k: int|
            0 <= k < split_on(inner, ',').len() ==> unquoted(
                trimmed(split_on(inner, ',')[k]),
            ) is Some))))
}

/// Whether `list` is exactly the member list the manifest declares.
pub open spec fn member_list_matches(s: Seq<char>, list: Seq<Seq<char>>) -> bool {
    members_value(s) matches Some(v) && array_inner(v) matches Some(inner) && (if trimmed(
        inner,
    ).len() == 0 {
        list.len() == 0
    } else {
        list.len() == split_on(inner, ',').len() && (forall|k: int|
            0 <= k < list.len() ==> unquoted(trimmed(split_on(inner, ',')[k])) == Some(
                list[k],
            ))
    })
}

/// Reads the ordered workspace member list of a root manifest. No workspace
/// section means a single-crate root; a workspace section must hold a
/// `members` key whose value is a bracketed array of quoted strings.
pub fn workspace_member_dirs(manifest: &str) -> (r: Result<Option<Vec<String>>, String>)
    ensures
        r matches Ok(None) <==> !has_section(spec_lines(manifest@), workspace_header()),
        (match r {
            Result::Ok(Some(ms)) => members_parse_ok(manifest@) && member_list_matches(
                manifest@,
                ms@.map_values(|m: String| m@),
            ),
            Result::Ok(None) => true,
            Result::Err(m) => !members_parse_ok(manifest@) && m@ == (if members_value(
                manifest@,
            ) is None {
                "missing members key in the workspace section"@
            } else {
                "workspace members must be a bracketed array of quoted strings"@
            }),
        }),
        r is Err <==> (has_section(spec_lines(manifest@), workspace_header())
            && !members_parse_ok(manifest@)),
{
    let lines = split_lines(manifest);
    if !find_section(&lines, "[workspace]") {
        return Result::Ok(None);
    }
    let raw = match find_section_value(&lines, "[workspace]", "members") {
        None => {
            return Result::Err(String::from_str(
                "missing members key in the workspace section",
            ));
        },
        Some(v) => v,
    };
    let v = raw.as_str();
    let vlen = v.unicode_len();
    if !(vlen >= 2 && v.get_char(0) == '[' && v.get_char(vlen - 1) == ']') {
        return Result::Err(String::from_str(
            "workspace members must be a bracketed array of quoted strings",
        ));
    }
    let inner = v.substring_char(1, vlen - 1);
    let inner_trimmed = trim(inner);
    if inner_trimmed.unicode_len() == 0 {
        let ms: Vec<String> = Vec::new();
        proof {
            assert(ms@.map_values(|m: String| m@) =~= Seq::<Seq<char>>::empty());
        }
        return Result::Ok(Some(ms));
    }
    let items = split_str(inner, ',');
    let ghost item_views = split_on(inner@, ',');
    let mut ms: Vec<String> = Vec::new();
    let mut k: usize = 0;
    while k < items.len()
        invariant
            0 <= k <= items.len(),
            has_section(spec_lines(manifest@), workspace_header()),
            members_value(manifest@) matches Some(mv) && array_inner(mv) == Some(inner@),
            trimmed(inner@).len() != 0,
            item_views == split_on(inner@, ','),
            items@.map_values(|l: String| l@) == item_views,
            items@.len() == item_views.len(),
            ms@.len() == k,
            forall|j: int| 0 <= j < k ==> unquoted(trimmed(#[trigger] item_views[j]))
                == Some(ms@.map_values(|m: String| m@)[j]),
        decreases items.len() - k,
    {
        let it = trim(items[k].as_str());
        match unquote(it) {
            None => {
                proof {
                    let ghost ki = k as int;
                    assert(items@.map_values(|l: String| l@)[ki] == items@[ki]@);
                    assert(unquoted(trimmed(split_on(inner@, ',')[k as int])) is None);
                    assert(!members_parse_ok(manifest@));
                }
                return Result::Err(String::from_str(
                    "workspace members must be a bracketed array of quoted strings",
                ));
            },
            Some(name) => {
                ms.push(name);
            },
        }
        k += 1;
    }
    Result::Ok(Some(ms))
}

} // verus!
