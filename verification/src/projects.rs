//! Projects and the store that keeps them.

use vstd::prelude::*;
use crate::error::Error;
use crate::ident::{format_id, parse_id, random_id, uuid_parsed, uuid_text};
use crate::store::{inserted, lookup, removed, values, EntityStore, Keyed, Record};

verus! {

/// The identifier of a project.
#[derive(Debug, Clone, Copy, PartialEq, Eq, PartialOrd, Ord, Hash)]
pub struct ProjectId(pub u128);

impl ProjectId {
    /// Reads an identifier from its text.
    pub fn parse(text: &str) -> (out: Result<ProjectId, Error>)
        ensures
            match uuid_parsed(text@) {
                Some(id) => out == Ok::<ProjectId, Error>(ProjectId(id)),
                None => out matches Err(Error::Validation(_)),
            },
    {
        match parse_id(text) {
            Ok(id) => Ok(ProjectId(id)),
            Err(e) => Err(e),
        }
    }

    /// The text of the identifier.
    pub fn to_string(&self) -> (text: String)
        ensures
            text@ == uuid_text(self.0),
    {
        format_id(self.0)
    }
}

/// The name of a project.
#[derive(Debug, PartialEq, Eq, PartialOrd, Ord, Hash)]
pub struct ProjectLabel(pub String);

impl View for ProjectLabel {
    type V = Seq<char>;

    open spec fn view(&self) -> Seq<char> {
        self.0@
    }
}

impl Clone for ProjectLabel {
    fn clone(&self) -> (copy: Self)
        ensures
            copy@ == self@,
    {
        ProjectLabel(self.0.clone())
    }
}

/// What a project is about.
#[derive(Debug, PartialEq, Eq, PartialOrd, Ord, Hash)]
pub struct ProjectDescription(pub String);

impl View for ProjectDescription {
    type V = Seq<char>;

    open spec fn view(&self) -> Seq<char> {
        self.0@
    }
}

impl Clone for ProjectDescription {
    fn clone(&self) -> (copy: Self)
        ensures
            copy@ == self@,
    {
        ProjectDescription(self.0.clone())
    }
}

/// A project that employees may work on.
#[derive(Debug, PartialEq, Eq, PartialOrd, Ord, Hash)]
pub struct Project {
    pub id: ProjectId,
    pub label: ProjectLabel,
    pub description: ProjectDescription,
}

/// The value of a project.
pub ghost struct ProjectView {
    pub id: u128,
    pub label: Seq<char>,
    pub description: Seq<char>,
}

impl View for Project {
    type V = ProjectView;

    open spec fn view(&self) -> ProjectView {
        ProjectView { id: self.id.0, label: self.label@, description: self.description@ }
    }
}

impl Keyed for ProjectView {
    type Key = u128;

    open spec fn key(&self) -> u128 {
        self.id
    }
}

impl Record for Project {
    fn key_value(&self) -> (k: u128) {
        self.id.0
    }

    fn duplicate(&self) -> (copy: Self) {
        Project {
            id: self.id,
            label: self.label.clone(),
            description: self.description.clone(),
        }
    }
}

impl Clone for Project {
    fn clone(&self) -> (copy: Self)
        ensures
            copy@ == self@,
    {
        self.duplicate()
    }
}

/// Adds a project under a fresh identifier.
pub trait AddProject {
    fn add(
        &mut self,
        project_label: ProjectLabel,
        project_description: ProjectDescription,
    ) -> Result<Project, Error>;
}

/// Removes one project.
pub trait DeleteProject {
    fn delete(&mut self, project_id: ProjectId) -> Result<(), Error>;
}

/// Lists the projects.
pub trait FindProjects {
    fn find_projects(&self) -> Result<Vec<Project>, Error>;
}

/// Reads one project.
pub trait GetProject {
    fn get(&self, project_id: ProjectId) -> Result<Option<Project>, Error>;
}

/// The projects, in the order in which they were added.
#[derive(Debug)]
pub struct ProjectDb(pub EntityStore<Project>);

impl View for ProjectDb {
    type V = Seq<ProjectView>;

    open spec fn view(&self) -> Seq<ProjectView> {
        self.0@
    }
}

impl Default for ProjectDb {
    fn default() -> (db: Self)
        ensures
            db@ == Seq::<ProjectView>::empty(),
            db.wf(),
    {
        ProjectDb(EntityStore::new())
    }
}

impl ProjectDb {
    /// No identifier occurs twice.
    pub open spec fn wf(&self) -> bool {
        self.0.wf()
    }

    /// Stores a project with the given identifier, label and description, and
    /// returns it. A project that had the identifier is replaced.
    pub fn add_with_id(
        &mut self,
        id: ProjectId,
        label: ProjectLabel,
        description: ProjectDescription,
    ) -> (project: Project)
        ensures
            project@ == (ProjectView { id: id.0, label: label@, description: description@ }),
            final(self)@ == inserted(old(self)@, project@),
            old(self).wf() ==> final(self).wf(),
    {
        let project = Project { id, label, description };
        self.0.insert(project.duplicate());
        project
    }
}

impl AddProject for ProjectDb {
    /// Stores a project with the given label and description under a random
    /// identifier, and returns it.
    fn add(&mut self, project_label: ProjectLabel, project_description: ProjectDescription) -> (out:
        Result<Project, Error>)
        ensures
            match out {
                Ok(project) => {
                    &&& project@.label == project_label@
                    &&& project@.description == project_description@
                    &&& final(self)@ == inserted(old(self)@, project@)
                },
                Err(_) => false,
            },
            old(self).wf() ==> final(self).wf(),
    {
        Ok(self.add_with_id(ProjectId(random_id()), project_label, project_description))
    }
}

impl DeleteProject for ProjectDb {
    /// Removes the project stored under `project_id`; where there is none,
    /// nothing changes.
    fn delete(&mut self, project_id: ProjectId) -> (out: Result<(), Error>)
        ensures
            out.is_ok(),
            final(self)@ == removed(old(self)@, project_id.0),
            old(self).wf() ==> final(self).wf(),
    {
        self.0.remove(project_id.0);
        Ok(())
    }
}

impl FindProjects for ProjectDb {
    /// All the projects, in the order of the store.
    fn find_projects(&self) -> (out: Result<Vec<Project>, Error>)
        ensures
            match out {
                Ok(projects) => values(projects@) == self@,
                Err(_) => false,
            },
    {
        Ok(self.0.all())
    }
}

impl GetProject for ProjectDb {
    /// The project stored under `project_id`, if any.
    fn get(&self, project_id: ProjectId) -> (out: Result<Option<Project>, Error>)
        ensures
            match out {
                Ok(Some(project)) => lookup(self@, project_id.0) == Some(project@),
                Ok(None) => lookup(self@, project_id.0).is_none(),
                Err(_) => false,
            },
    {
        Ok(self.0.get(project_id.0))
    }
}

} // verus!
