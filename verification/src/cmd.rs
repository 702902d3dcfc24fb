//! The decisions of the commands: what to create a playbook from, which
//! options a session runs with, what to delete and what to offer for choice.

use vstd::prelude::*;
use crate::config::{position, Cluster, Configuration, ContextConfiguration};
use crate::errors::Errors;
use crate::pipeline::Options;
use crate::resource::PlaybookSpec;
use crate::text::same;

verus! {

/// What `run` creates its playbook from.
#[derive(Clone, Debug, PartialEq, Eq)]
pub enum Source {
    /// A remote git repository.
    Repository(String),
    /// A character of the registry.
    Registry(String),
    /// The local manifest, at this path if one was given.
    Manifest(Option<String>),
}

/// Decides what `run` creates its playbook from: the repository where one
/// is given, else the registry where a name is given, else the manifest.
pub fn run_source(git: Option<String>, name: Option<String>, filename: Option<String>) -> (source: Source)
    ensures
        match (git, name) {
            (Some(repository), _) => source == Source::Repository(repository),
            (None, Some(character)) => source == Source::Registry(character),
            (None, None) => source == Source::Manifest(filename),
        },
{
    match git {
        Some(repository) => Source::Repository(repository),
        None => match name {
            Some(character) => Source::Registry(character),
            None => Source::Manifest(filename),
        },
    }
}

/// The options of `run`: build and deploy once; the sources are
/// synchronized only where the playbook comes from the local manifest.
pub fn run_options(cleanup: bool, tail: bool, source: &Source) -> (options: Options)
    ensures
        options == (Options { cleanup, tail, live: source is Manifest, once: true }),
{
    let live = match source {
        Source::Manifest(_) => true,
        _ => false,
    };
    Options { cleanup, tail, live, once: true }
}

/// The options of `dev`: synchronize the sources and keep watching.
pub fn dev_options(cleanup: bool, tail: bool) -> (options: Options)
    ensures
        options == (Options { cleanup, tail, live: true, once: false }),
{
    Options { cleanup, tail, live: true, once: false }
}

/// An entry that is offered for choice: what it stands for and its title.
#[derive(Clone, Debug, PartialEq, Eq)]
pub struct OptionItem(pub String, pub String);

impl OptionItem {
    /// The line that offers a playbook: a hash sign, its ID, a space, its
    /// title.
    pub open spec fn playbook_line(self) -> Seq<char> {
        "#"@ + self.0@ + " "@ + self.1@
    }

    /// The line that offers a playbook.
    pub fn playbook_label(&self) -> (line: String)
        ensures
            line@ == self.playbook_line(),
    {
        String::from_str("#").concat(self.0.as_str()).concat(" ").concat(self.1.as_str())
    }

    /// The line that offers a context: its title.
    pub fn context_label(&self) -> (line: String)
        ensures
            line@ == self.1@,
    {
        self.1.clone()
    }
}

/// What `clean` does once it knows the playbooks of the account.
#[derive(Clone, Debug, PartialEq, Eq)]
pub enum CleanStep {
    /// Say this and stop.
    Report(String),
    /// Delete the playbooks of these IDs, in order; stop at the first
    /// deletion that fails.
    Delete(Vec<String>),
    /// Let the user select one of these and delete it.
    Select(Vec<OptionItem>),
}

/// Whether `step` is what `clean` does with these playbooks.
pub open spec fn cleans(all: bool, dry_run: bool, playbooks: Seq<PlaybookSpec>, step: CleanStep) -> bool {
    if playbooks.len() == 0 {
        step matches CleanStep::Report(line) && line@ == "No playbooks found"@
    } else if all && dry_run {
        step matches CleanStep::Report(line) && line@ == "Would delete all playbooks"@
    } else if all {
        step matches CleanStep::Delete(ids) && ids@.len() == playbooks.len() && forall|i: int|
            0 <= i < ids@.len() ==> (#[trigger] ids@[i]) == playbooks[i].id
    } else {
        step matches CleanStep::Select(items) && items@.len() == playbooks.len() && forall|i: int|
            0 <= i < items@.len() ==> (#[trigger] items@[i]).0 == playbooks[i].id && items@[i].1
                == playbooks[i].title
    }
}

/// Decides what `clean` does where no ID was given: nothing without
/// playbooks; all of them where asked, unless it is a dry run; else the
/// user selects one.
pub fn clean(all: bool, dry_run: bool, playbooks: &Vec<PlaybookSpec>) -> (step: CleanStep)
    ensures
        cleans(all, dry_run, playbooks@, step),
{
    if playbooks.len() == 0 {
        return CleanStep::Report(String::from_str("No playbooks found"));
    }
    if all {
        if dry_run {
            return CleanStep::Report(String::from_str("Would delete all playbooks"));
        }
        let mut ids: Vec<String> = Vec::new();
        let mut i: usize = 0;
        while i < playbooks.len()
            invariant
                0 <= i <= playbooks.len(),
                ids@.len() == i,
                forall|j: int| 0 <= j < i ==> (#[trigger] ids@[j]) == playbooks@[j].id,
            decreases playbooks.len() - i,
        {
            ids.push(playbooks[i].id.clone());
            i += 1;
        }
        return CleanStep::Delete(ids);
    }
    let mut items: Vec<OptionItem> = Vec::new();
    let mut i: usize = 0;
    while i < playbooks.len()
        invariant
            0 <= i <= playbooks.len(),
            items@.len() == i,
            forall|j: int|
                0 <= j < i ==> (#[trigger] items@[j]).0 == playbooks@[j].id && items@[j].1 == playbooks@[j].title,
        decreases playbooks.len() - i,
    {
        items.push(OptionItem(playbooks[i].id.clone(), playbooks[i].title.clone()));
        i += 1;
    }
    CleanStep::Select(items)
}

/// A row of the table of playbooks.
#[derive(Clone, Debug, PartialEq, Eq)]
pub struct PlaybookTable {
    pub id: String,
    pub title: String,
    pub description: String,
}

impl PlaybookTable {
    /// The row of a playbook; a playbook without a description has an empty
    /// one.
    pub fn from(value: &PlaybookSpec) -> (row: PlaybookTable)
        ensures
            row.id == value.id,
            row.title == value.title,
            match value.description {
                Some(description) => row.description == description,
                None => row.description@ == Seq::<char>::empty(),
            },
    {
        PlaybookTable {
            id: value.id.clone(),
            title: value.title.clone(),
            description: match &value.description {
                Some(description) => description.clone(),
                None => String::new(),
            },
        }
    }
}

/// The rows of the table of playbooks, or nothing where there are none.
pub fn list(playbooks: &Vec<PlaybookSpec>) -> (rows: Option<Vec<PlaybookTable>>)
    ensures
        playbooks@.len() == 0 ==> rows is None,
        playbooks@.len() > 0 ==> (rows matches Some(table) && table@.len() == playbooks@.len() && forall|i: int|
            0 <= i < table@.len() ==> (#[trigger] table@[i]).id == playbooks@[i].id && table@[i].title
                == playbooks@[i].title),
{
    if playbooks.len() == 0 {
        return None;
    }
    let mut table: Vec<PlaybookTable> = Vec::new();
    let mut i: usize = 0;
    while i < playbooks.len()
        invariant
            0 <= i <= playbooks.len(),
            table@.len() == i,
            forall|j: int|
                0 <= j < i ==> (#[trigger] table@[j]).id == playbooks@[j].id && table@[j].title
                    == playbooks@[j].title,
        decreases playbooks.len() - i,
    {
        table.push(PlaybookTable::from(&playbooks[i]));
        i += 1;
    }
    Some(table)
}

/// What the choice "create a new context" stands for.
pub open spec fn create_key() -> Seq<char> {
    "$$CREATE$$"@
}

/// The contexts that are offered for choice: each name with the title of
/// its cluster. Where `with_create` is set, the offer to create a new one
/// comes last.
pub fn select_context(contexts: &ContextConfiguration, with_create: bool) -> (items: Vec<OptionItem>)
    ensures
        items@.len() == contexts.list().len() + (if with_create {
            1int
        } else {
            0int
        }),
        forall|i: int|
            0 <= i < contexts.list().len() ==> (#[trigger] items@[i]).0@ == contexts.list()[i].0@ && items@[i].1@
                == contexts.list()[i].1.title@,
        with_create ==> items@.last().0@ == create_key() && items@.last().1@ == "Create new context"@,
{
    let titles = contexts.titles();
    let mut items: Vec<OptionItem> = Vec::new();
    for pair in it: titles
        invariant
            items@.len() == it.index(),
            it.seq().len() == contexts.list().len(),
            forall|j: int|
                0 <= j < it.seq().len() ==> (#[trigger] it.seq()[j]).0@ == contexts.list()[j].0@ && it.seq()[j].1@
                    == contexts.list()[j].1.title@,
            forall|j: int|
                0 <= j < it.index() ==> (#[trigger] items@[j]).0@ == contexts.list()[j].0@ && items@[j].1@
                    == contexts.list()[j].1.title@,
    {
        assert(it.seq()[it.index() as int] == pair);
        items.push(OptionItem(pair.0, pair.1));
    }
    if with_create {
        items.push(OptionItem(String::from_str("$$CREATE$$"), String::from_str("Create new context")));
    }
    items
}

/// Takes the context of the given name into use.
pub fn use_context(configuration: &mut Configuration, name: &str) -> (res: Result<(), Errors>)
    ensures
        match old(configuration).context {
            None => res matches Err(Errors::NotFoundContexts) && *final(configuration) == *old(configuration),
            Some(before) => final(configuration).context matches Some(after) && after.list() == before.list() && (
            match position(before.list(), name@) {
                Some(_) => res is Ok && after.chosen() == Some(name@),
                None => res matches Err(Errors::FailedSelectContext(_)) && after.chosen() == before.chosen(),
            }),
        },
{
    match &mut configuration.context {
        None => Err(Errors::NotFoundContexts),
        Some(context) => match context.select(name) {
            Ok(()) => Ok(()),
            Err(reason) => Err(Errors::FailedSelectContext(reason)),
        },
    }
}

/// Removes the context of the given name.
pub fn delete_context(configuration: &mut Configuration, name: &str) -> (res: Result<(), Errors>)
    requires
        old(configuration).context matches Some(before) ==> before.well_formed(),
    ensures
        match old(configuration).context {
            None => res matches Err(Errors::NotFoundContexts) && *final(configuration) == *old(configuration),
            Some(before) => final(configuration).context matches Some(after) && after.well_formed() && (
            match position(before.list(), name@) {
                Some(i) => res is Ok && after.list() == before.list().remove(i),
                None => res matches Err(Errors::FailedDeleteContext(_)) && after.list() == before.list()
                    && after.chosen() == before.chosen(),
            }),
        },
{
    match &mut configuration.context {
        None => Err(Errors::NotFoundContexts),
        Some(context) => match context.delete(name) {
            Ok(()) => Ok(()),
            Err(reason) => Err(Errors::FailedDeleteContext(reason)),
        },
    }
}

/// Adds a cluster under a new name.
pub fn create_context(configuration: &mut Configuration, name: &str, cluster: Cluster) -> (res: Result<(), Errors>)
    requires
        old(configuration).context matches Some(before) ==> before.well_formed(),
    ensures
        match old(configuration).context {
            None => res matches Err(Errors::NotFoundContexts) && *final(configuration) == *old(configuration),
            Some(before) => final(configuration).context matches Some(after) && after.well_formed()
                && after.chosen() == before.chosen() && (match position(before.list(), name@) {
                Some(_) => res matches Err(Errors::FailedAddContext(_)) && after.list() == before.list(),
                None => res is Ok && after.list().len() == before.list().len() + 1 && after.list().drop_last()
                    == before.list() && after.list().last().0@ == name@ && after.list().last().1 == cluster,
            }),
        },
{
    match &mut configuration.context {
        None => Err(Errors::NotFoundContexts),
        Some(context) => match context.add(name, cluster) {
            Ok(()) => Ok(()),
            Err(reason) => Err(Errors::FailedAddContext(reason)),
        },
    }
}

/// Whether the user chose to create a new context.
pub fn wants_new_context(answer: &OptionItem) -> (create: bool)
    ensures
        create == (answer.0@ == create_key()),
{
    same(answer.0.as_str(), "$$CREATE$$")
}

/// The name of a new character: the one given, else the name of the
/// directory.
pub fn init_name(name: Option<String>, directory: String) -> (chosen: String)
    ensures
        chosen == (match name {
            Some(given) => given,
            None => directory,
        }),
{
    match name {
        Some(given) => given,
        None => directory,
    }
}

/// Whether `init` may write the manifest: always where it is forced, else
/// only where none exists.
pub fn may_init(force: bool, exists: bool) -> (allowed: bool)
    ensures
        allowed == (force || !exists),
{
    force || !exists
}

/// The line that `version` prints.
pub fn version() -> (line: String)
    ensures
        line@ == "amp 0.1.0"@,
{
    String::from_str("amp 0.1.0")
}

} // verus!
