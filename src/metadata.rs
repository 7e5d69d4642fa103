//! Application-level sections of the report: metadata, triggers, variables
//! and host requirements.
use vstd::prelude::*;
use vstd::string::*;

use crate::error::InfoError;

verus! {

/// A structured metadata value, as far as the report reads it.
pub struct MetaValue {
    /// The value's JSON text.
    pub text: String,
    /// The string itself, when the value is a string.
    pub string: Option<String>,
    /// The items, when the value is a list of strings.
    pub strings: Option<Vec<String>>,
}

/// One key of a metadata mapping, with its value.
pub struct MetaEntry {
    pub key: String,
    pub value: MetaValue,
}

/// How a value reads in the report: a string without its quotes, anything
/// else as its JSON text.
pub open spec fn shown(v: MetaValue) -> Seq<char> {
    match v.string {
        Some(s) => s@,
        None => v.text@,
    }
}

pub fn show(v: &MetaValue) -> (r: String)
    ensures
        r@ == shown(*v),
{
    match &v.string {
        Some(s) => s.clone(),
        None => v.text.clone(),
    }
}

pub open spec fn has_key(m: Seq<MetaEntry>, k: Seq<char>) -> bool {
    exists|i: int| 0 <= i < m.len() && m[i].key@ == k
}

/// `i` is the first position of key `k` in `m`.
pub open spec fn first_at(m: Seq<MetaEntry>, k: Seq<char>, i: int) -> bool {
    &&& 0 <= i < m.len()
    &&& m[i].key@ == k
    &&& forall|j: int| 0 <= j < i ==> m[j].key@ != k
}

/// The value under key `k`: the first entry with that key counts.
pub open spec fn value_at(m: Seq<MetaEntry>, k: Seq<char>) -> MetaValue
    recommends
        has_key(m, k),
{
    m[choose|i: int| first_at(m, k, i)].value
}

proof fn lemma_first_at_unique(m: Seq<MetaEntry>, k: Seq<char>, i: int)
    requires
        first_at(m, k, i),
    ensures
        value_at(m, k) == m[i].value,
{
    let c = choose|j: int| first_at(m, k, j);
    assert(first_at(m, k, c));
    if c < i {
        assert(m[c].key@ != k);
    } else if i < c {
        assert(m[i].key@ != k);
    }
}

/// The position of the first entry with key `key`, if any.
pub fn find_key(m: &Vec<MetaEntry>, key: &String) -> (r: Option<usize>)
    ensures
        r is None <==> !has_key(m@, key@),
        r is Some ==> first_at(m@, key@, r->Some_0 as int),
        r is Some ==> value_at(m@, key@) == m@[r->Some_0 as int].value,
{
    let mut i: usize = 0;
    while i < m.len()
        invariant
            i <= m.len(),
            forall|j: int| 0 <= j < i ==> m@[j].key@ != key@,
        decreases m.len() - i,
    {
        if m[i].key == *key {
            proof {
                lemma_first_at_unique(m@, key@, i as int);
            }
            return Some(i);
        }
        i = i + 1;
    }
    None
}

pub open spec fn author_line(a: Seq<char>) -> Seq<char> {
    "Author: "@ + a
}

/// Whether `k` is one of the keys that the metadata report treats apart.
pub open spec fn is_known_key(k: Seq<char>) -> bool {
    k == "name"@ || k == "version"@ || k == "authors"@ || k == "description"@
}

/// One line per metadata entry other than the known keys, in order.
pub open spec fn extra_lines(m: Seq<MetaEntry>) -> Seq<Seq<char>>
    decreases m.len(),
{
    if m.len() == 0 {
        Seq::empty()
    } else if is_known_key(m.last().key@) {
        extra_lines(m.drop_last())
    } else {
        extra_lines(m.drop_last()).push(m.last().key@ + ": "@ + shown(m.last().value))
    }
}

/// The metadata report of a manifest whose metadata is well formed: the
/// identity line `name@version`, one line per author, the description,
/// then every other entry.
pub open spec fn metadata_lines(m: Seq<MetaEntry>) -> Seq<Seq<char>> {
    let identity = shown(value_at(m, "name"@)) + "@"@ + shown(value_at(m, "version"@));
    let authors = if has_key(m, "authors"@) {
        value_at(m, "authors"@).strings->Some_0@.map_values(|a: String| author_line(a@))
    } else {
        Seq::empty()
    };
    let description = if has_key(m, "description"@) {
        seq!["Description: "@ + shown(value_at(m, "description"@))]
    } else {
        Seq::empty()
    };
    seq![identity] + authors + description + extra_lines(m)
}

/// The text of each line.
pub open spec fn texts(v: Seq<String>) -> Seq<Seq<char>> {
    v.map_values(|s: String| s@)
}

/// The error that the metadata report stops at, if any: a missing name,
/// then a missing version, then authors that are not a list of strings.
pub open spec fn metadata_error(m: Seq<MetaEntry>) -> Option<InfoError> {
    if !has_key(m, "name"@) {
        Some(InfoError::MissingName)
    } else if !has_key(m, "version"@) {
        Some(InfoError::MissingVersion)
    } else if has_key(m, "authors"@) && value_at(m, "authors"@).strings is None {
        Some(InfoError::AuthorsNotStrings)
    } else {
        None
    }
}

fn push_extra_lines(m: &Vec<MetaEntry>, lines: &mut Vec<String>)
    ensures
        texts(final(lines)@) == texts(old(lines)@) + extra_lines(m@),
{
    let ghost start = texts(lines@);
    let mut i: usize = 0;
    while i < m.len()
        invariant
            i <= m.len(),
            texts(lines@) == start + extra_lines(m@.subrange(0, i as int)),
        decreases m.len() - i,
    {
        let ghost pre = m@.subrange(0, i as int);
        let ghost next = m@.subrange(0, i + 1);
        assert(next.drop_last() =~= pre);
        let k = &m[i].key;
        proof {
            reveal_strlit("name");
            reveal_strlit("version");
            reveal_strlit("authors");
            reveal_strlit("description");
        }
        let known = *k == String::from_str("name") || *k == String::from_str("version") || *k
            == String::from_str("authors") || *k == String::from_str("description");
        assert(known == is_known_key(next.last().key@));
        if !known {
            let line = k.clone().concat(": ").concat(show(&m[i].value).as_str());
            let ghost before = texts(lines@);
            lines.push(line);
            assert(texts(lines@) =~= before.push(line@));
        }
        i = i + 1;
    }
    assert(m@.subrange(0, m.len() as int) =~= m@);
}

/// Renders application metadata. Fails, with nothing rendered, when the
/// name or the version is missing or the authors are not a list of
/// strings.
pub fn render_metadata(m: &Vec<MetaEntry>) -> (r: Result<Vec<String>, InfoError>)
    ensures
        metadata_error(m@) is Some ==> r == Err::<Vec<String>, InfoError>(
            metadata_error(m@)->Some_0,
        ),
        metadata_error(m@) is None ==> (r matches Ok(lines) && texts(lines@) == metadata_lines(
            m@,
        )),
{
    let name_key = String::from_str("name");
    let version_key = String::from_str("version");
    let authors_key = String::from_str("authors");
    let description_key = String::from_str("description");
    let name_at = match find_key(m, &name_key) {
        Some(i) => i,
        None => return Err(InfoError::MissingName),
    };
    let version_at = match find_key(m, &version_key) {
        Some(i) => i,
        None => return Err(InfoError::MissingVersion),
    };
    let mut lines: Vec<String> = Vec::new();
    let identity = show(&m[name_at].value).concat("@").concat(show(&m[version_at].value).as_str());
    lines.push(identity);
    match find_key(m, &authors_key) {
        Some(i) => match &m[i].value.strings {
            Some(authors) => {
                let mut j: usize = 0;
                while j < authors.len()
                    invariant
                        j <= authors.len(),
                        texts(lines@) == seq![identity@] + authors@.subrange(
                            0,
                            j as int,
                        ).map_values(|a: String| author_line(a@)),
                    decreases authors.len() - j,
                {
                    let line = String::from_str("Author: ").concat(authors[j].as_str());
                    let ghost before = texts(lines@);
                    lines.push(line);
                    assert(texts(lines@) =~= before.push(line@));
                    assert(authors@.subrange(0, j + 1).map_values(|a: String| author_line(a@))
                        =~= authors@.subrange(0, j as int).map_values(|a: String| author_line(a@)).push(author_line(authors@[j as int]@)));
                    j = j + 1;
                }
                assert(authors@.subrange(0, authors.len() as int) =~= authors@);
            },
            None => return Err(InfoError::AuthorsNotStrings),
        },
        None => {
            assert(texts(lines@) =~= seq![identity@]);
        },
    }
    let ghost after_authors = texts(lines@);
    match find_key(m, &description_key) {
        Some(i) => {
            let line = String::from_str("Description: ").concat(show(&m[i].value).as_str());
            lines.push(line);
            assert(texts(lines@) =~= after_authors + seq![line@]);
        },
        None => {
            assert(texts(lines@) =~= after_authors + Seq::<Seq<char>>::empty());
        },
    }
    push_extra_lines(m, &mut lines);
    Ok(lines)
}

/// An event source that invokes a component.
pub struct Trigger {
    pub id: String,
    pub trigger_type: String,
    /// The trigger's configuration as JSON text, not interpreted.
    pub config: String,
}

pub open spec fn trigger_line(t: Trigger) -> Seq<char> {
    "   * "@ + t.trigger_type@ + " trigger: "@ + t.id@ + ": "@ + t.config@
}

/// The trigger section: its heading, then one line per trigger, in order.
pub open spec fn trigger_lines(ts: Seq<Trigger>) -> Seq<Seq<char>> {
    seq!["Application will be triggered by:"@] + ts.map_values(|t: Trigger| trigger_line(t))
}

pub fn render_triggers(ts: &Vec<Trigger>) -> (r: Vec<String>)
    ensures
        texts(r@) == trigger_lines(ts@),
{
    let mut lines: Vec<String> = Vec::new();
    lines.push(String::from_str("Application will be triggered by:"));
    let ghost head = texts(lines@);
    let mut i: usize = 0;
    while i < ts.len()
        invariant
            i <= ts.len(),
            texts(lines@) == head + ts@.subrange(0, i as int).map_values(
                |t: Trigger| trigger_line(t),
            ),
        decreases ts.len() - i,
    {
        let t = &ts[i];
        let line = String::from_str("   * ").concat(t.trigger_type.as_str()).concat(
            " trigger: ",
        ).concat(t.id.as_str()).concat(": ").concat(t.config.as_str());
        let ghost before = texts(lines@);
        lines.push(line);
        assert(texts(lines@) =~= before.push(line@));
        assert(ts@.subrange(0, i + 1).map_values(|t: Trigger| trigger_line(t)) =~= ts@.subrange(
            0,
            i as int,
        ).map_values(|t: Trigger| trigger_line(t)).push(trigger_line(ts@[i as int])));
        i = i + 1;
    }
    assert(ts@.subrange(0, ts.len() as int) =~= ts@);
    lines
}

/// A declared application variable.
pub struct Variable {
    pub name: String,
    /// The default value, if one is declared.
    pub default: Option<String>,
    /// Whether the value is secret.
    pub secret: bool,
}

pub open spec fn variable_line(v: Variable) -> Seq<char> {
    "   * "@ + v.name@ + ": default "@ + match v.default {
        Some(d) => d@,
        None => "none"@,
    } + ", secret "@ + if v.secret {
        "true"@
    } else {
        "false"@
    }
}

/// The variable section: nothing when there are none, else a heading and
/// one line per variable, in order.
pub open spec fn variable_lines(vs: Seq<Variable>) -> Seq<Seq<char>> {
    if vs.len() == 0 {
        Seq::empty()
    } else {
        seq!["Variables:"@] + vs.map_values(|v: Variable| variable_line(v))
    }
}

pub fn render_variables(vs: &Vec<Variable>) -> (r: Vec<String>)
    ensures
        texts(r@) == variable_lines(vs@),
{
    let mut lines: Vec<String> = Vec::new();
    if vs.len() == 0 {
        assert(texts(lines@) =~= Seq::<Seq<char>>::empty());
        return lines;
    }
    lines.push(String::from_str("Variables:"));
    let ghost head = texts(lines@);
    let mut i: usize = 0;
    while i < vs.len()
        invariant
            i <= vs.len(),
            vs.len() > 0,
            texts(lines@) == head + vs@.subrange(0, i as int).map_values(
                |v: Variable| variable_line(v),
            ),
            head == seq!["Variables:"@],
        decreases vs.len() - i,
    {
        let v = &vs[i];
        let default = match &v.default {
            Some(d) => d.clone(),
            None => String::from_str("none"),
        };
        let secret = if v.secret {
            String::from_str("true")
        } else {
            String::from_str("false")
        };
        let line = String::from_str("   * ").concat(v.name.as_str()).concat(": default ").concat(
            default.as_str(),
        ).concat(", secret ").concat(secret.as_str());
        let ghost before = texts(lines@);
        lines.push(line);
        assert(texts(lines@) =~= before.push(line@));
        assert(vs@.subrange(0, i + 1).map_values(|v: Variable| variable_line(v)) =~= vs@.subrange(
            0,
            i as int,
        ).map_values(|v: Variable| variable_line(v)).push(variable_line(vs@[i as int])));
        i = i + 1;
    }
    assert(vs@.subrange(0, vs.len() as int) =~= vs@);
    lines
}

pub open spec fn entry_text(e: MetaEntry) -> Seq<char> {
    e.key@ + ": "@ + e.value.text@
}

/// All entries on one line, separated by commas.
pub open spec fn joined(m: Seq<MetaEntry>) -> Seq<char>
    decreases m.len(),
{
    if m.len() == 0 {
        Seq::empty()
    } else if m.len() == 1 {
        entry_text(m[0])
    } else {
        joined(m.drop_last()) + ", "@ + entry_text(m.last())
    }
}

/// The host requirement section: nothing when there are none, else one
/// line that holds every requirement.
pub open spec fn requirement_lines(m: Seq<MetaEntry>) -> Seq<Seq<char>> {
    if m.len() == 0 {
        Seq::empty()
    } else {
        seq!["Host Requirements: "@ + joined(m)]
    }
}

pub fn render_host_requirements(m: &Vec<MetaEntry>) -> (r: Vec<String>)
    ensures
        texts(r@) == requirement_lines(m@),
{
    let mut lines: Vec<String> = Vec::new();
    if m.len() == 0 {
        assert(texts(lines@) =~= Seq::<Seq<char>>::empty());
        return lines;
    }
    let mut text = String::new();
    let mut i: usize = 0;
    while i < m.len()
        invariant
            i <= m.len(),
            text@ == joined(m@.subrange(0, i as int)),
        decreases m.len() - i,
    {
        let ghost next = m@.subrange(0, i + 1);
        assert(next.drop_last() =~= m@.subrange(0, i as int));
        if i > 0 {
            text.append(", ");
        }
        text.append(m[i].key.as_str());
        text.append(": ");
        text.append(m[i].value.text.as_str());
        proof {
            if i == 0 {
                assert(next.len() == 1);
                assert(text@ =~= entry_text(next[0]));
            } else {
                assert(text@ =~= joined(next.drop_last()) + ", "@ + entry_text(next.last()));
            }
        }
        i = i + 1;
    }
    assert(m@.subrange(0, m.len() as int) =~= m@);
    lines.push(String::from_str("Host Requirements: ").concat(text.as_str()));
    assert(texts(lines@) =~= requirement_lines(m@));
    lines
}

/// Metadata without a `version` is malformed: the report fails, whatever
/// else the metadata holds.
pub proof fn law_missing_version_fails(m: Seq<MetaEntry>)
    requires
        !has_key(m, "version"@),
    ensures
        metadata_error(m) is Some,
        has_key(m, "name"@) ==> metadata_error(m) == Some(InfoError::MissingVersion),
{
}

} // verus!
