//! The `info` command: choosing what to report on, and the whole report.
use vstd::prelude::*;
use vstd::string::*;

use crate::app_source::{AppSource, LocalProbe};
use crate::component::{build_cell, component_lines, render_component, Component, Footprint};
use crate::error::InfoError;
use crate::metadata::{metadata_error, metadata_lines, render_host_requirements, render_metadata, render_triggers, render_variables, requirement_lines, texts, trigger_lines, variable_lines, MetaEntry, Trigger, Variable};

verus! {

/// Options of the `info` command.
pub struct InfoCommand {
    /// The application to describe.
    pub app_source: Option<String>,
    /// Cache directory for downloaded components and assets.
    pub cache_dir: Option<String>,
}

pub open spec fn ambiguity_text() -> Seq<char> {
    "More than one application source was specified"@
}

impl InfoCommand {
    /// Where the application lives. `local` and `registry_shaped` are what
    /// is known of the given source string (see `AppSource::infer_source`).
    pub fn app_source(&self, local: LocalProbe, registry_shaped: bool) -> (r: AppSource)
        ensures
            self.app_source is None ==> (r matches AppSource::Unresolvable(m) && m@
                == ambiguity_text()),
            self.app_source is Some ==> {
                let s = self.app_source->Some_0@;
                &&& local is Resolved ==> (r matches AppSource::File(f) && f@
                    == local->Resolved_0@)
                &&& local is Failed ==> (r matches AppSource::Unresolvable(m) && m@
                    == local->Failed_0@)
                &&& (local is Missing && registry_shaped) ==> (r matches AppSource::OciRegistry(
                    x,
                ) && x@ == s)
                &&& (local is Missing && !registry_shaped) ==> (r matches AppSource::Unresolvable(
                    m,
                ) && m@ == crate::app_source::not_found_text(s))
            },
    {
        match &self.app_source {
            Some(src) => AppSource::infer_source(src.as_str(), local, registry_shaped),
            None => AppSource::unresolvable(
                String::from_str("More than one application source was specified"),
            ),
        }
    }
}

impl InfoCommand {
    /// What the command does with its source: the registry reference to
    /// load and report on, or the error that ends the run. Local manifests
    /// are not supported yet and fail.
    pub fn run(&self, local: LocalProbe, registry_shaped: bool) -> (r: Result<String, InfoError>)
        ensures
            self.app_source is None ==> (r matches Err(InfoError::Unresolvable(m)) && m@
                == ambiguity_text()),
            self.app_source is Some ==> {
                let s = self.app_source->Some_0@;
                &&& local is Resolved ==> (r matches Err(InfoError::LocalUnsupported(p)) && p@
                    == local->Resolved_0@)
                &&& local is Failed ==> (r matches Err(InfoError::Unresolvable(m)) && m@
                    == local->Failed_0@)
                &&& (local is Missing && registry_shaped) ==> (r matches Ok(x) && x@ == s)
                &&& (local is Missing && !registry_shaped) ==> (r matches Err(
                    InfoError::Unresolvable(m),
                ) && m@ == crate::app_source::not_found_text(s))
            },
    {
        self.app_source(local, registry_shaped).into_registry_reference()
    }
}

impl AppSource {
    /// The registry reference to report on; every other source fails.
    pub fn into_registry_reference(self) -> (r: Result<String, InfoError>)
        ensures
            self is OciRegistry ==> (r matches Ok(x) && x@ == self->OciRegistry_0@),
            self is File ==> (r matches Err(InfoError::LocalUnsupported(p)) && p@
                == self->File_0@),
            self is Unresolvable ==> (r matches Err(InfoError::Unresolvable(m)) && m@
                == self->Unresolvable_0@),
            self is Unspecified ==> r == Err::<String, InfoError>(InfoError::NoSource),
    {
        match self {
            AppSource::OciRegistry(x) => Ok(x),
            AppSource::File(p) => Err(InfoError::LocalUnsupported(p)),
            AppSource::Unresolvable(m) => Err(InfoError::Unresolvable(m)),
            AppSource::Unspecified => Err(InfoError::NoSource),
        }
    }
}


/// A loaded application, as far as the report reads it.
pub struct Manifest {
    pub metadata: Vec<MetaEntry>,
    pub triggers: Vec<Trigger>,
    pub variables: Vec<Variable>,
    pub host_requirements: Vec<MetaEntry>,
    pub components: Vec<Component>,
}

/// One footprint per component, and one mount measure per mounted file set.
pub open spec fn footprints_fit(cs: Seq<Component>, fps: Seq<Footprint>) -> bool {
    &&& fps.len() == cs.len()
    &&& forall|i: int| 0 <= i < cs.len() ==> #[trigger] fps[i].mounts.len() == cs[i].files.len()
}

/// Component `i` is the first whose build metadata is malformed.
pub open spec fn first_bad(cs: Seq<Component>, i: int) -> bool {
    &&& 0 <= i < cs.len()
    &&& build_cell(cs[i].build) is None
    &&& forall|j: int| 0 <= j < i ==> build_cell(#[trigger] cs[j].build) is Some
}

pub open spec fn all_good(cs: Seq<Component>) -> bool {
    forall|j: int| 0 <= j < cs.len() ==> build_cell(#[trigger] cs[j].build) is Some
}

/// The blocks of the first `n` components, in order.
pub open spec fn blocks(cs: Seq<Component>, fps: Seq<Footprint>, n: nat) -> Seq<Seq<char>>
    decreases n,
{
    if n == 0 {
        Seq::empty()
    } else {
        blocks(cs, fps, (n - 1) as nat) + component_lines(cs[n - 1], fps[n - 1])
    }
}

/// The whole report: metadata first, then triggers, variables, host
/// requirements and every component in order.
pub open spec fn report_lines(app: Manifest, fps: Seq<Footprint>) -> Seq<Seq<char>> {
    metadata_lines(app.metadata@) + trigger_lines(app.triggers@) + variable_lines(
        app.variables@,
    ) + requirement_lines(app.host_requirements@) + blocks(
        app.components@,
        fps,
        app.components@.len(),
    )
}

fn append_lines(lines: &mut Vec<String>, more: Vec<String>)
    ensures
        texts(final(lines)@) == texts(old(lines)@) + texts(more@),
{
    let ghost start = texts(lines@);
    let mut i: usize = 0;
    while i < more.len()
        invariant
            i <= more.len(),
            texts(lines@) == start + texts(more@.subrange(0, i as int)),
        decreases more.len() - i,
    {
        let ghost before = texts(lines@);
        lines.push(more[i].clone());
        assert(texts(lines@) =~= before.push(more@[i as int]@));
        assert(texts(more@.subrange(0, i + 1)) =~= texts(more@.subrange(0, i as int)).push(
            more@[i as int]@,
        ));
        i = i + 1;
    }
    assert(more@.subrange(0, more.len() as int) =~= more@);
}

/// Renders the report of a loaded application, given what was measured on
/// disk for its components. Metadata is checked before any component; on
/// failure nothing is rendered.
pub fn render_report(app: &Manifest, fps: &Vec<Footprint>) -> (r: Result<Vec<String>, InfoError>)
    requires
        footprints_fit(app.components@, fps@),
    ensures
        metadata_error(app.metadata@) is Some ==> r == Err::<Vec<String>, InfoError>(
            metadata_error(app.metadata@)->Some_0,
        ),
        metadata_error(app.metadata@) is None ==> forall|i: int| #[trigger]
            first_bad(app.components@, i) ==> (r matches Err(InfoError::BuildWithoutCommand(id))
                && id@ == app.components@[i].id@),
        metadata_error(app.metadata@) is None && all_good(app.components@) ==> (r matches Ok(
            lines,
        ) && texts(lines@) == report_lines(*app, fps@)),
{
    let mut lines = match render_metadata(&app.metadata) {
        Ok(lines) => lines,
        Err(e) => return Err(e),
    };
    append_lines(&mut lines, render_triggers(&app.triggers));
    append_lines(&mut lines, render_variables(&app.variables));
    append_lines(&mut lines, render_host_requirements(&app.host_requirements));
    let ghost head = texts(lines@);
    let cs = &app.components;
    assert(cs@ == app.components@);
    let mut i: usize = 0;
    while i < cs.len()
        invariant
            i <= cs.len(),
            cs@ == app.components@,
            metadata_error(app.metadata@) is None,
            footprints_fit(cs@, fps@),
            forall|j: int| 0 <= j < i ==> build_cell(#[trigger] cs@[j].build) is Some,
            texts(lines@) == head + blocks(cs@, fps@, i as nat),
        decreases cs.len() - i,
    {
        assert(fps@[i as int].mounts.len() == cs@[i as int].files.len());
        match render_component(&cs[i], &fps[i]) {
            Ok(block) => {
                append_lines(&mut lines, block);
                assert(head + blocks(cs@, fps@, (i + 1) as nat) =~= head + blocks(
                    cs@,
                    fps@,
                    i as nat,
                ) + component_lines(cs@[i as int], fps@[i as int]));
            },
            Err(e) => {
                assert(first_bad(cs@, i as int));
                assert forall|k: int| #[trigger] first_bad(cs@, k) implies k == i by {
                    if k < i {
                        assert(build_cell(cs@[k].build) is Some);
                    } else if k > i {
                        assert(build_cell(cs@[i as int].build) is Some);
                    }
                }
                assert(!all_good(cs@));
                let r: Result<Vec<String>, InfoError> = Err(e);
                assert(forall|k: int| #[trigger]
                    first_bad(app.components@, k) ==> (r matches Err(
                        InfoError::BuildWithoutCommand(id),
                    ) && id@ == app.components@[k].id@));
                return r;
            },
        }
        i = i + 1;
    }
    assert forall|k: int| #[trigger] first_bad(cs@, k) implies false by {
        assert(build_cell(cs@[k].build) is Some);
    }
    Ok(lines)
}

/// Rendering is repeatable: the same manifest and the same measures give
/// the same report, line for line.
pub proof fn law_report_repeatable(a: Manifest, b: Manifest, fa: Seq<Footprint>, fb: Seq<Footprint>)
    requires
        a == b,
        fa == fb,
    ensures
        report_lines(a, fa) == report_lines(b, fb),
        metadata_lines(a.metadata@) == metadata_lines(b.metadata@),
{
}

} // verus!
