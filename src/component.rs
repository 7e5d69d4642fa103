//! The report block of one component: capability grants, build command,
//! artifact size, environment and mounted files.
use vstd::prelude::*;
use vstd::string::*;

use crate::error::InfoError;
use crate::files::{decimal, decimal_string};
use crate::metadata::{find_key, has_key, show, shown, texts, value_at, MetaEntry};

verus! {

/// What comfy_table renders for a table with this header and these rows.
pub uninterp spec fn table_text(header: Seq<Seq<char>>, rows: Seq<Seq<Seq<char>>>) -> Seq<char>;

pub open spec fn row_texts(rows: Seq<Vec<String>>) -> Seq<Seq<Seq<char>>> {
    rows.map_values(|row: Vec<String>| texts(row@))
}

/// Relies on comfy_table::Table: a table with the given header and rows,
/// drawn as text. Terminal detection is switched off, so the text depends
/// on the cells alone.
#[verifier::external_body]
fn draw_table(header: Vec<String>, rows: Vec<Vec<String>>) -> (r: String)
    ensures
        r@ == table_text(texts(header@), row_texts(rows@)),
{
    let mut table = comfy_table::Table::new();
    table.force_no_tty();
    table.set_header(header);
    table.add_rows(rows);
    table.to_string()
}


/// A file tree or file mounted into a component.
pub struct FileMount {
    /// Where it is mounted inside the component.
    pub path: String,
    /// Its source URI, normally `file://`.
    pub source: Option<String>,
}

/// The `build` metadata of a component.
pub struct Build {
    /// The build command, when one is given.
    pub command: Option<String>,
}

/// An environment variable given to a component.
pub struct EnvVar {
    pub key: String,
    pub value: String,
}

/// One deployable unit of the application.
pub struct Component {
    pub id: String,
    pub metadata: Vec<MetaEntry>,
    pub build: Option<Build>,
    /// The content type of the component's binary artifact.
    pub content_type: String,
    /// The source URI of the binary artifact.
    pub source: Option<String>,
    pub env: Vec<EnvVar>,
    pub files: Vec<FileMount>,
}

/// What was measured on disk for one mounted file set.
pub struct MountSize {
    /// The number of regular files.
    pub count: u64,
    /// Their total size, human scaled.
    pub size: String,
}

/// What was measured on disk for one component.
pub struct Footprint {
    /// The size of the binary artifact, human scaled.
    pub artifact_size: String,
    /// One measure per mounted file set, in the component's order.
    pub mounts: Vec<MountSize>,
}

/// A capability or description cell: the declared value, or the marker for
/// an absent key, which is never left out.
pub open spec fn cell(m: Seq<MetaEntry>, key: Seq<char>, absent: Seq<char>) -> Seq<char> {
    if has_key(m, key) {
        shown(value_at(m, key))
    } else {
        absent
    }
}

pub fn cell_text(m: &Vec<MetaEntry>, key: &str, absent: &str) -> (r: String)
    ensures
        r@ == cell(m@, key@, absent@),
{
    match find_key(m, &String::from_str(key)) {
        Some(i) => show(&m[i].value),
        None => String::from_str(absent),
    }
}

pub open spec fn pair(a: Seq<char>, b: Seq<char>) -> Seq<Seq<char>> {
    seq![a, b]
}

/// The rows of a component's information table. `build` is the build
/// command cell.
pub open spec fn component_rows(m: Seq<MetaEntry>, build: Seq<char>) -> Seq<Seq<Seq<char>>> {
    seq![
        pair("Description"@, cell(m, "description"@, "None"@)),
        pair("Allowed Outbound Hosts"@, cell(m, "allowed_outbound_hosts"@, "None"@)),
        pair("Allowed Key/Value Stores"@, cell(m, "key_value_stores"@, "[]"@)),
        pair("Allowed Databases"@, cell(m, "databases"@, "[]"@)),
        pair("Allowed AI Models"@, cell(m, "ai_models"@, "None"@)),
        pair("Build Command"@, build),
    ]
}

fn row(a: &str, b: String) -> (r: Vec<String>)
    ensures
        texts(r@) == pair(a@, b@),
{
    let r = vec![String::from_str(a), b];
    assert(texts(r@) =~= pair(a@, b@));
    r
}

pub open spec fn build_cell(b: Option<Build>) -> Option<Seq<char>> {
    match b {
        None => Some("None"@),
        Some(b) => match b.command {
            Some(c) => Some(c@),
            None => None,
        },
    }
}

pub open spec fn env_lines(env: Seq<EnvVar>) -> Seq<Seq<char>> {
    if env.len() == 0 {
        Seq::empty()
    } else {
        seq!["   Environment variables:"@] + env.map_values(
            |e: EnvVar| "      * "@ + e.key@ + "="@ + e.value@,
        )
    }
}

pub open spec fn mount_line(f: FileMount, s: MountSize) -> Seq<char> {
    "      * "@ + decimal(s.count as nat) + " files mounted at path "@ + f.path@ + ", "@ + s.size@
        + " in total"@
}

pub open spec fn mount_lines(files: Seq<FileMount>, sizes: Seq<MountSize>) -> Seq<Seq<char>> {
    if files.len() == 0 {
        Seq::empty()
    } else {
        seq!["   Files:"@] + Seq::new(files.len(), |i: int| mount_line(files[i], sizes[i]))
    }
}

/// The block for one component whose build metadata is well formed.
pub open spec fn component_lines(c: Component, fp: Footprint) -> Seq<Seq<char>> {
    seq![
        "Component "@ + c.id@,
        "Component Information:"@,
        table_text(
            seq!["Field"@, "Value"@],
            component_rows(c.metadata@, build_cell(c.build)->Some_0),
        ),
        "   The source for component "@ + c.id@,
        "      * content type: "@ + c.content_type@,
        "      * file size: "@ + fp.artifact_size@,
    ] + env_lines(c.env@) + mount_lines(c.files@, fp.mounts@)
}

/// Renders one component, with what was measured for it on disk. Fails
/// when `build` is given without a command.
pub fn render_component(c: &Component, fp: &Footprint) -> (r: Result<Vec<String>, InfoError>)
    requires
        fp.mounts.len() == c.files.len(),
    ensures
        build_cell(c.build) is None ==> (r matches Err(InfoError::BuildWithoutCommand(id)) && id@
            == c.id@),
        build_cell(c.build) is Some ==> (r matches Ok(lines) && texts(lines@) == component_lines(
            *c,
            *fp,
        )),
{
    let build = match &c.build {
        None => String::from_str("None"),
        Some(b) => match &b.command {
            Some(cmd) => cmd.clone(),
            None => return Err(InfoError::BuildWithoutCommand(c.id.clone())),
        },
    };
    let ghost build_text = build@;
    let rows = vec![
        row("Description", cell_text(&c.metadata, "description", "None")),
        row("Allowed Outbound Hosts", cell_text(&c.metadata, "allowed_outbound_hosts", "None")),
        row("Allowed Key/Value Stores", cell_text(&c.metadata, "key_value_stores", "[]")),
        row("Allowed Databases", cell_text(&c.metadata, "databases", "[]")),
        row("Allowed AI Models", cell_text(&c.metadata, "ai_models", "None")),
        row("Build Command", build),
    ];
    assert(row_texts(rows@) =~= component_rows(c.metadata@, build_text));
    let header = vec![String::from_str("Field"), String::from_str("Value")];
    assert(texts(header@) =~= seq!["Field"@, "Value"@]);
    let table = draw_table(header, rows);
    let mut lines: Vec<String> = vec![
        String::from_str("Component ").concat(c.id.as_str()),
        String::from_str("Component Information:"),
        table,
        String::from_str("   The source for component ").concat(c.id.as_str()),
        String::from_str("      * content type: ").concat(c.content_type.as_str()),
        String::from_str("      * file size: ").concat(fp.artifact_size.as_str()),
    ];
    let ghost head = texts(lines@);
    if c.env.len() > 0 {
        lines.push(String::from_str("   Environment variables:"));
        let mut i: usize = 0;
        while i < c.env.len()
            invariant
                i <= c.env.len(),
                texts(lines@) == head + seq!["   Environment variables:"@] + c.env@.subrange(
                    0,
                    i as int,
                ).map_values(|e: EnvVar| "      * "@ + e.key@ + "="@ + e.value@),
            decreases c.env.len() - i,
        {
            let e = &c.env[i];
            let line = String::from_str("      * ").concat(e.key.as_str()).concat("=").concat(
                e.value.as_str(),
            );
            let ghost before = texts(lines@);
            lines.push(line);
            assert(texts(lines@) =~= before.push(line@));
            assert(c.env@.subrange(0, i + 1).map_values(
                |e: EnvVar| "      * "@ + e.key@ + "="@ + e.value@,
            ) =~= c.env@.subrange(0, i as int).map_values(
                |e: EnvVar| "      * "@ + e.key@ + "="@ + e.value@,
            ).push("      * "@ + e.key@ + "="@ + e.value@));
            i = i + 1;
        }
        assert(c.env@.subrange(0, c.env.len() as int) =~= c.env@);
    }
    assert(texts(lines@) =~= head + env_lines(c.env@));
    let ghost mid = texts(lines@);
    if c.files.len() > 0 {
        lines.push(String::from_str("   Files:"));
        let mut i: usize = 0;
        while i < c.files.len()
            invariant
                i <= c.files.len(),
                fp.mounts.len() == c.files.len(),
                texts(lines@) == mid + seq!["   Files:"@] + Seq::new(
                    i as nat,
                    |k: int| mount_line(c.files@[k], fp.mounts@[k]),
                ),
            decreases c.files.len() - i,
        {
            let f = &c.files[i];
            let s = &fp.mounts[i];
            let line = String::from_str("      * ").concat(decimal_string(s.count).as_str()).concat(
                " files mounted at path ",
            ).concat(f.path.as_str()).concat(", ").concat(s.size.as_str()).concat(" in total");
            let ghost before = texts(lines@);
            lines.push(line);
            assert(texts(lines@) =~= before.push(line@));
            assert(Seq::new((i + 1) as nat, |k: int| mount_line(c.files@[k], fp.mounts@[k]))
                =~= Seq::new(i as nat, |k: int| mount_line(c.files@[k], fp.mounts@[k])).push(
                line@,
            ));
            i = i + 1;
        }
    }
    assert(texts(lines@) =~= mid + mount_lines(c.files@, fp.mounts@));
    Ok(lines)
}

/// A capability that a component does not declare still has its row, with
/// the marker for none.
pub proof fn law_absent_capability_shown(m: Seq<MetaEntry>, build: Seq<char>)
    ensures
        !has_key(m, "allowed_outbound_hosts"@) ==> component_rows(m, build)[1] == pair(
            "Allowed Outbound Hosts"@,
            "None"@,
        ),
        !has_key(m, "key_value_stores"@) ==> component_rows(m, build)[2] == pair(
            "Allowed Key/Value Stores"@,
            "[]"@,
        ),
        !has_key(m, "databases"@) ==> component_rows(m, build)[3] == pair(
            "Allowed Databases"@,
            "[]"@,
        ),
        !has_key(m, "ai_models"@) ==> component_rows(m, build)[4] == pair(
            "Allowed AI Models"@,
            "None"@,
        ),
        component_rows(m, build).len() == 6,
{
}

} // verus!
