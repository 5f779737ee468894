//! Employees, the store that keeps them, and the two operations that link
//! an employee to a project or to a skill.

use vstd::prelude::*;
use crate::dates::{unix_now, Date};
use crate::error::Error;
use crate::ident::{format_id, parse_id, random_id, uuid_parsed, uuid_text};
use crate::projects::{Project, ProjectDb, ProjectId, ProjectView};
use crate::skills::{SkillDb, SkillId, SkillLabel, SkillView};
use crate::store::{
    distinct_keys, has_key, inserted, is_first, law_insert_keeps_others, law_lookup_after_insert,
    lemma_inserted_distinct, lemma_position, lookup, removed, values, EntityStore, Keyed, Record,
};

verus! {

/// The identifier of an employee.
#[derive(Debug, Clone, Copy, PartialEq, Eq, PartialOrd, Ord, Hash)]
pub struct EmployeeId(pub u128);

impl EmployeeId {
    /// Reads an identifier from its text.
    pub fn parse(text: &str) -> (out: Result<EmployeeId, Error>)
        ensures
            match uuid_parsed(text@) {
                Some(id) => out == Ok::<EmployeeId, Error>(EmployeeId(id)),
                None => out matches Err(Error::Validation(_)),
            },
    {
        match parse_id(text) {
            Ok(id) => Ok(EmployeeId(id)),
            Err(e) => Err(e),
        }
    }

    /// The text of the identifier.
    pub fn to_string(&self) -> (text: String)
        ensures
            text@ == uuid_text(self.0),
    {
        format_id(self.0)
    }
}

/// The identifier of the assignment of a project to an employee.
#[derive(Debug, Clone, Copy, PartialEq, Eq, PartialOrd, Ord, Hash)]
pub struct ProjectAssignmentId(pub u128);

impl ProjectAssignmentId {
    /// Reads an identifier from its text.
    pub fn parse(text: &str) -> (out: Result<ProjectAssignmentId, Error>)
        ensures
            match uuid_parsed(text@) {
                Some(id) => out == Ok::<ProjectAssignmentId, Error>(ProjectAssignmentId(id)),
                None => out matches Err(Error::Validation(_)),
            },
    {
        match parse_id(text) {
            Ok(id) => Ok(ProjectAssignmentId(id)),
            Err(e) => Err(e),
        }
    }

    /// The text of the identifier.
    pub fn to_string(&self) -> (text: String)
        ensures
            text@ == uuid_text(self.0),
    {
        format_id(self.0)
    }
}

/// The first name of an employee.
#[derive(Debug, PartialEq, Eq, PartialOrd, Ord, Hash)]
pub struct FirstName(pub String);

impl View for FirstName {
    type V = Seq<char>;

    open spec fn view(&self) -> Seq<char> {
        self.0@
    }
}

impl Clone for FirstName {
    fn clone(&self) -> (copy: Self)
        ensures
            copy@ == self@,
    {
        FirstName(self.0.clone())
    }
}

/// The last name of an employee.
#[derive(Debug, PartialEq, Eq, PartialOrd, Ord, Hash)]
pub struct LastName(pub String);

impl View for LastName {
    type V = Seq<char>;

    open spec fn view(&self) -> Seq<char> {
        self.0@
    }
}

impl Clone for LastName {
    fn clone(&self) -> (copy: Self)
        ensures
            copy@ == self@,
    {
        LastName(self.0.clone())
    }
}

/// The title of an employee.
#[derive(Debug, PartialEq, Eq, PartialOrd, Ord, Hash)]
pub struct Title(pub String);

impl View for Title {
    type V = Seq<char>;

    open spec fn view(&self) -> Seq<char> {
        self.0@
    }
}

impl Clone for Title {
    fn clone(&self) -> (copy: Self)
        ensures
            copy@ == self@,
    {
        Title(self.0.clone())
    }
}

/// The e-mail address of an employee.
#[derive(Debug, PartialEq, Eq, PartialOrd, Ord, Hash)]
pub struct EmailAddress(pub String);

impl View for EmailAddress {
    type V = Seq<char>;

    open spec fn view(&self) -> Seq<char> {
        self.0@
    }
}

impl Clone for EmailAddress {
    fn clone(&self) -> (copy: Self)
        ensures
            copy@ == self@,
    {
        EmailAddress(self.0.clone())
    }
}

/// The telephone number of an employee.
#[derive(Debug, PartialEq, Eq, PartialOrd, Ord, Hash)]
pub struct TelephoneNumber(pub String);

impl View for TelephoneNumber {
    type V = Seq<char>;

    open spec fn view(&self) -> Seq<char> {
        self.0@
    }
}

impl Clone for TelephoneNumber {
    fn clone(&self) -> (copy: Self)
        ensures
            copy@ == self@,
    {
        TelephoneNumber(self.0.clone())
    }
}

/// What an employee does in a project.
#[derive(Debug, PartialEq, Eq, PartialOrd, Ord, Hash)]
pub struct ProjectContribution(pub String);

impl View for ProjectContribution {
    type V = Seq<char>;

    open spec fn view(&self) -> Seq<char> {
        self.0@
    }
}

impl Clone for ProjectContribution {
    fn clone(&self) -> (copy: Self)
        ensures
            copy@ == self@,
    {
        ProjectContribution(self.0.clone())
    }
}

/// How well an employee knows a skill.
#[derive(Debug, Clone, Copy, PartialEq, Eq, PartialOrd, Ord, Hash)]
pub struct SkillLevel(pub usize);

/// What an employee knows of a skill. It holds the label that the skill had
/// when it was assigned.
#[derive(Debug, PartialEq, Eq, PartialOrd, Ord, Hash)]
pub struct SkillAssignment {
    pub label: SkillLabel,
    pub level: SkillLevel,
    pub secret: bool,
}

/// The value of a skill assignment.
pub ghost struct SkillAssignmentView {
    pub label: Seq<char>,
    pub level: usize,
    pub secret: bool,
}

impl View for SkillAssignment {
    type V = SkillAssignmentView;

    open spec fn view(&self) -> SkillAssignmentView {
        SkillAssignmentView { label: self.label@, level: self.level.0, secret: self.secret }
    }
}

impl Keyed for SkillAssignmentView {
    type Key = Seq<char>;

    /// An employee's skills are kept by label.
    open spec fn key(&self) -> Seq<char> {
        self.label
    }
}

impl Clone for SkillAssignment {
    fn clone(&self) -> (copy: Self)
        ensures
            copy@ == self@,
    {
        SkillAssignment { label: self.label.clone(), level: self.level, secret: self.secret }
    }
}

/// The work of an employee in a project. It holds the project as it was when
/// it was assigned.
#[derive(Debug, PartialEq, Eq, PartialOrd, Ord, Hash)]
pub struct ProjectAssignment {
    pub id: ProjectAssignmentId,
    pub project: Project,
    pub contribution: ProjectContribution,
    pub start_date: Date,
    pub end_date: Option<Date>,
}

/// The value of a project assignment.
pub ghost struct ProjectAssignmentView {
    pub id: u128,
    pub project: ProjectView,
    pub contribution: Seq<char>,
    pub start_date: Date,
    pub end_date: Option<Date>,
}

impl View for ProjectAssignment {
    type V = ProjectAssignmentView;

    open spec fn view(&self) -> ProjectAssignmentView {
        ProjectAssignmentView {
            id: self.id.0,
            project: self.project@,
            contribution: self.contribution@,
            start_date: self.start_date,
            end_date: self.end_date,
        }
    }
}

impl Clone for ProjectAssignment {
    fn clone(&self) -> (copy: Self)
        ensures
            copy@ == self@,
    {
        ProjectAssignment {
            id: self.id,
            project: self.project.clone(),
            contribution: self.contribution.clone(),
            start_date: self.start_date,
            end_date: self.end_date,
        }
    }
}

/// An employee, with the skills and the projects assigned so far.
#[derive(Debug, PartialEq, Eq, PartialOrd, Ord, Hash)]
pub struct Employee {
    pub id: EmployeeId,
    pub first_name: FirstName,
    pub last_name: LastName,
    pub title: Title,
    pub email: EmailAddress,
    pub telephone: TelephoneNumber,
    /// At most one entry for each label, in the order in which the labels
    /// were first assigned.
    pub skills: Vec<SkillAssignment>,
    /// In the order in which they were assigned.
    pub projects: Vec<ProjectAssignment>,
    /// Seconds since the Unix epoch at which the employee was added.
    pub last_update: i64,
}

/// The value of an employee.
pub ghost struct EmployeeView {
    pub id: u128,
    pub first_name: Seq<char>,
    pub last_name: Seq<char>,
    pub title: Seq<char>,
    pub email: Seq<char>,
    pub telephone: Seq<char>,
    pub skills: Seq<SkillAssignmentView>,
    pub projects: Seq<ProjectAssignmentView>,
    pub last_update: i64,
}

impl View for Employee {
    type V = EmployeeView;

    open spec fn view(&self) -> EmployeeView {
        EmployeeView {
            id: self.id.0,
            first_name: self.first_name@,
            last_name: self.last_name@,
            title: self.title@,
            email: self.email@,
            telephone: self.telephone@,
            skills: values(self.skills@),
            projects: values(self.projects@),
            last_update: self.last_update,
        }
    }
}

impl Keyed for EmployeeView {
    type Key = u128;

    open spec fn key(&self) -> u128 {
        self.id
    }
}

/// Copies of the skill assignments of `list`.
fn copy_skills(list: &Vec<SkillAssignment>) -> (out: Vec<SkillAssignment>)
    ensures
        values(out@) == values(list@),
{
    let mut out: Vec<SkillAssignment> = Vec::new();
    let mut i: usize = 0;
    while i < list.len()
        invariant
            i <= list.len(),
            out@.len() == i,
            forall|j: int| 0 <= j < i ==> (#[trigger] out@[j])@ == list@[j]@,
        decreases list.len() - i,
    {
        out.push(list[i].clone());
        i += 1;
    }
    assert(values(out@) =~= values(list@));
    out
}

/// Copies of the project assignments of `list`.
fn copy_projects(list: &Vec<ProjectAssignment>) -> (out: Vec<ProjectAssignment>)
    ensures
        values(out@) == values(list@),
{
    let mut out: Vec<ProjectAssignment> = Vec::new();
    let mut i: usize = 0;
    while i < list.len()
        invariant
            i <= list.len(),
            out@.len() == i,
            forall|j: int| 0 <= j < i ==> (#[trigger] out@[j])@ == list@[j]@,
        decreases list.len() - i,
    {
        out.push(list[i].clone());
        i += 1;
    }
    assert(values(out@) =~= values(list@));
    out
}

impl Record for Employee {
    fn key_value(&self) -> (k: u128) {
        self.id.0
    }

    fn duplicate(&self) -> (copy: Self) {
        Employee {
            id: self.id,
            first_name: self.first_name.clone(),
            last_name: self.last_name.clone(),
            title: self.title.clone(),
            email: self.email.clone(),
            telephone: self.telephone.clone(),
            skills: copy_skills(&self.skills),
            projects: copy_projects(&self.projects),
            last_update: self.last_update,
        }
    }
}

impl Clone for Employee {
    fn clone(&self) -> (copy: Self)
        ensures
            copy@ == self@,
    {
        self.duplicate()
    }
}

/// `e` with one more project assignment, after those it had.
pub open spec fn with_project(e: EmployeeView, a: ProjectAssignmentView) -> EmployeeView {
    EmployeeView { projects: e.projects.push(a), ..e }
}

/// `e` with `a` as its entry for the label of `a`: in the place of the entry
/// that had the label, or after the others where there was none.
pub open spec fn with_skill(e: EmployeeView, a: SkillAssignmentView) -> EmployeeView {
    EmployeeView { skills: inserted(e.skills, a), ..e }
}

/// Sets the entry for the label of `a` in `list`.
fn set_knowledge(list: &mut Vec<SkillAssignment>, a: SkillAssignment)
    ensures
        values(final(list)@) == inserted(values(old(list)@), a@),
{
    let ghost before = values(list@);
    let mut i: usize = 0;
    while i < list.len()
        invariant
            i <= list.len(),
            list@ == old(list)@,
            before == values(list@),
            forall|j: int| 0 <= j < i ==> (#[trigger] before[j]).label != a@.label,
        decreases list.len() - i,
    {
        assert(before[i as int] == list@[i as int]@);
        if list[i].label.0 == a.label.0 {
            assert(is_first(before, a@.label, i as int));
            list.set(i, a);
            assert(values(list@) =~= before.update(i as int, a@));
            return ;
        }
        i += 1;
    }
    assert(!has_key(before, a@.label));
    list.push(a);
    assert(values(list@) =~= before.push(a@));
}

/// What is asked for when an employee is added.
#[derive(Debug)]
pub struct AddEmployeeRequest {
    pub first_name: FirstName,
    pub last_name: LastName,
    pub title: Title,
    pub email: EmailAddress,
    pub telephone: TelephoneNumber,
}

/// What is asked for when a project is assigned to an employee.
#[derive(Debug)]
pub struct ProjectAssignmentRequest {
    pub employee_id: EmployeeId,
    pub project_id: ProjectId,
    pub contribution: ProjectContribution,
    pub start_date: Date,
    pub end_date: Option<Date>,
}

/// What is asked for when a skill is assigned to an employee.
#[derive(Debug)]
pub struct SetSkillKnowledgeRequest {
    pub employee_id: EmployeeId,
    pub skill_id: SkillId,
    pub level: SkillLevel,
    pub secret: bool,
}

/// No employee has the identifier that was given.
#[derive(Debug, PartialEq, Eq)]
pub struct EmployeeNotFoundError;

impl EmployeeNotFoundError {
    pub fn to_string(&self) -> (text: String)
        ensures
            text@ == "Employee not found"@,
    {
        "Employee not found".to_owned()
    }
}

/// No project has the identifier that was given.
#[derive(Debug, PartialEq, Eq)]
pub struct ProjectNotFoundError;

impl ProjectNotFoundError {
    pub fn to_string(&self) -> (text: String)
        ensures
            text@ == "Project not found"@,
    {
        "Project not found".to_owned()
    }
}

/// Why a project was not assigned.
#[derive(Debug, PartialEq, Eq)]
pub enum AssignProjectToEmployeeError {
    EmployeeNotFound(EmployeeNotFoundError),
    ProjectNotFound(ProjectNotFoundError),
}

impl AssignProjectToEmployeeError {
    pub fn to_string(&self) -> (text: String)
        ensures
            text@ == (match self {
                AssignProjectToEmployeeError::EmployeeNotFound(_) => "Employee not found"@,
                AssignProjectToEmployeeError::ProjectNotFound(_) => "Project not found"@,
            }),
    {
        match self {
            AssignProjectToEmployeeError::EmployeeNotFound(e) => e.to_string(),
            AssignProjectToEmployeeError::ProjectNotFound(e) => e.to_string(),
        }
    }
}

/// Why a project assignment was not removed.
#[derive(Debug, PartialEq, Eq)]
pub enum DeleteProjectAssignmentError {
    EmployeeNotFound(EmployeeNotFoundError),
    ProjectNotFound(ProjectNotFoundError),
}

impl DeleteProjectAssignmentError {
    pub fn to_string(&self) -> (text: String)
        ensures
            text@ == (match self {
                DeleteProjectAssignmentError::EmployeeNotFound(_) => "Employee not found"@,
                DeleteProjectAssignmentError::ProjectNotFound(_) => "Project not found"@,
            }),
    {
        match self {
            DeleteProjectAssignmentError::EmployeeNotFound(e) => e.to_string(),
            DeleteProjectAssignmentError::ProjectNotFound(e) => e.to_string(),
        }
    }
}

/// Why a skill was not assigned.
#[derive(Debug, PartialEq, Eq)]
pub enum AssignSkillToEmployeeError {
    EmployeeNotFound,
    SkillNotFound,
}

impl AssignSkillToEmployeeError {
    pub fn to_string(&self) -> (text: String)
        ensures
            text@ == (match self {
                AssignSkillToEmployeeError::EmployeeNotFound => "Employee not found"@,
                AssignSkillToEmployeeError::SkillNotFound => "Skill not found"@,
            }),
    {
        match self {
            AssignSkillToEmployeeError::EmployeeNotFound => "Employee not found".to_owned(),
            AssignSkillToEmployeeError::SkillNotFound => "Skill not found".to_owned(),
        }
    }
}

/// Adds an employee under a fresh identifier.
pub trait AddEmployee {
    fn add(&mut self, request: AddEmployeeRequest) -> Result<Employee, Error>;
}

/// Removes one employee.
pub trait DeleteEmployeeById {
    fn delete(&mut self, employee_id: EmployeeId) -> Result<(), Error>;
}

/// Lists the employees.
pub trait FindEmployees {
    fn find_employees(&self) -> Result<Vec<Employee>, Error>;
}

/// Reads one employee.
pub trait GetEmployeeById {
    fn get(&self, employee_id: EmployeeId) -> Result<Option<Employee>, Error>;
}

/// Assigns a project to an employee.
pub trait CreateProjectAssignment {
    fn create_project_assignment(
        &mut self,
        project_assignment: ProjectAssignmentRequest,
    ) -> Result<ProjectAssignment, AssignProjectToEmployeeError>;
}

/// Takes a project assignment from an employee.
pub trait DeleteProjectAssignment {
    fn delete_project_assignment(
        &mut self,
        employee_id: EmployeeId,
        assignment_id: String,
    ) -> Result<(), DeleteProjectAssignmentError>;
}

/// Assigns a skill to an employee.
pub trait SetSkillKnowledgeOfEmployee {
    fn set_skill_knowledge_of_employee(
        &mut self,
        request: SetSkillKnowledgeRequest,
    ) -> Result<SkillAssignment, AssignSkillToEmployeeError>;
}

/// Takes a skill from an employee.
pub trait DeleteSkillKnowledgeOfEmployee {
    fn delete_skill_knowledge_of_employee(
        &mut self,
        employee_id: EmployeeId,
        skill_id: SkillId,
    ) -> Result<(), Error>;
}

/// The employees, in the order in which they were added.
#[derive(Debug)]
pub struct EmployeeDb(pub EntityStore<Employee>);

impl View for EmployeeDb {
    type V = Seq<EmployeeView>;

    open spec fn view(&self) -> Seq<EmployeeView> {
        self.0@
    }
}

impl Default for EmployeeDb {
    fn default() -> (db: Self)
        ensures
            db@ == Seq::<EmployeeView>::empty(),
            db.wf(),
    {
        EmployeeDb(EntityStore::new())
    }
}

/// The employee that a request describes, with the given identifier and time
/// of adding, and with no skills and no projects yet.
pub open spec fn new_employee(id: u128, now: i64, request: AddEmployeeRequest) -> EmployeeView {
    EmployeeView {
        id,
        first_name: request.first_name@,
        last_name: request.last_name@,
        title: request.title@,
        email: request.email@,
        telephone: request.telephone@,
        skills: Seq::empty(),
        projects: Seq::empty(),
        last_update: now,
    }
}

/// Each employee of `s` has at most one entry for each label.
pub open spec fn skills_valid(s: Seq<EmployeeView>) -> bool {
    forall|i: int| 0 <= i < s.len() ==> distinct_keys((#[trigger] s[i]).skills)
}

/// Storing an employee whose skills are valid keeps the skills of all valid.
pub proof fn lemma_inserted_valid(s: Seq<EmployeeView>, e: EmployeeView)
    requires
        skills_valid(s),
        distinct_keys(e.skills),
    ensures
        skills_valid(inserted(s, e)),
{
    if has_key(s, e.key()) {
        lemma_position(s, e.key());
    }
}

/// Removing an employee keeps the skills of the others valid.
pub proof fn lemma_removed_valid(s: Seq<EmployeeView>, k: u128)
    requires
        skills_valid(s),
    ensures
        skills_valid(removed(s, k)),
{
    if has_key(s, k) {
        lemma_position(s, k);
    }
}

/// An employee found in a store whose skills are valid has valid skills.
pub proof fn lemma_lookup_valid(s: Seq<EmployeeView>, k: u128)
    requires
        skills_valid(s),
        has_key(s, k),
    ensures
        distinct_keys(lookup(s, k).unwrap().skills),
{
    lemma_position(s, k);
}

impl EmployeeDb {
    /// No identifier occurs twice, and no employee has two entries for one
    /// label.
    pub open spec fn wf(&self) -> bool {
        &&& distinct_keys(self@)
        &&& skills_valid(self@)
    }

    /// Stores the employee that `request` describes under `id`, added at
    /// `now`, and returns it. An employee that had the identifier is replaced.
    pub fn add_with(&mut self, id: EmployeeId, now: i64, request: AddEmployeeRequest) -> (employee:
        Employee)
        ensures
            employee@ == new_employee(id.0, now, request),
            final(self)@ == inserted(old(self)@, employee@),
            old(self).wf() ==> final(self).wf(),
    {
        let employee = Employee {
            id,
            first_name: request.first_name,
            last_name: request.last_name,
            title: request.title,
            email: request.email,
            telephone: request.telephone,
            skills: Vec::new(),
            projects: Vec::new(),
            last_update: now,
        };
        assert(employee@.skills =~= Seq::empty());
        assert(employee@.projects =~= Seq::empty());
        self.0.insert(employee.duplicate());
        proof {
            if old(self).wf() {
                lemma_inserted_valid(old(self)@, employee@);
            }
        }
        employee
    }
}

impl AddEmployee for EmployeeDb {
    /// Stores the employee that `request` describes under a random
    /// identifier, with the time of the clock, and returns it.
    fn add(&mut self, request: AddEmployeeRequest) -> (out: Result<Employee, Error>)
        ensures
            match out {
                Ok(employee) => {
                    &&& employee@ == new_employee(employee@.id, employee@.last_update, request)
                    &&& final(self)@ == inserted(old(self)@, employee@)
                },
                Err(_) => false,
            },
            old(self).wf() ==> final(self).wf(),
    {
        Ok(self.add_with(EmployeeId(random_id()), unix_now(), request))
    }
}

impl DeleteEmployeeById for EmployeeDb {
    /// Removes the employee stored under `employee_id`; where there is none,
    /// nothing changes.
    fn delete(&mut self, employee_id: EmployeeId) -> (out: Result<(), Error>)
        ensures
            out.is_ok(),
            final(self)@ == removed(old(self)@, employee_id.0),
            old(self).wf() ==> final(self).wf(),
    {
        self.0.remove(employee_id.0);
        proof {
            if old(self).wf() {
                lemma_removed_valid(old(self)@, employee_id.0);
            }
        }
        Ok(())
    }
}

impl GetEmployeeById for EmployeeDb {
    /// The employee stored under `employee_id`, if any.
    fn get(&self, employee_id: EmployeeId) -> (out: Result<Option<Employee>, Error>)
        ensures
            match out {
                Ok(Some(employee)) => lookup(self@, employee_id.0) == Some(employee@),
                Ok(None) => lookup(self@, employee_id.0).is_none(),
                Err(_) => false,
            },
    {
        Ok(self.0.get(employee_id.0))
    }
}

impl FindEmployees for EmployeeDb {
    /// All the employees, in the order of the store.
    fn find_employees(&self) -> (out: Result<Vec<Employee>, Error>)
        ensures
            match out {
                Ok(employees) => values(employees@) == self@,
                Err(_) => false,
            },
    {
        Ok(self.0.all())
    }
}

/// The assignment that a request asks for, of project `p` and under `id`.
pub open spec fn new_assignment(
    id: u128,
    p: ProjectView,
    request: ProjectAssignmentRequest,
) -> ProjectAssignmentView {
    ProjectAssignmentView {
        id,
        project: p,
        contribution: request.contribution@,
        start_date: request.start_date,
        end_date: request.end_date,
    }
}

/// What assigning a project does: `out` is what the caller gets and `after`
/// the employees then, for the employees `before`, the projects `projects`
/// and an assignment made under `id`.
pub open spec fn project_assigned(
    before: Seq<EmployeeView>,
    projects: Seq<ProjectView>,
    id: u128,
    request: ProjectAssignmentRequest,
    out: Result<ProjectAssignment, AssignProjectToEmployeeError>,
    after: Seq<EmployeeView>,
) -> bool {
    match (lookup(before, request.employee_id.0), lookup(projects, request.project_id.0)) {
        (None, _) => {
            &&& out matches Err(AssignProjectToEmployeeError::EmployeeNotFound(_))
            &&& after == before
        },
        (Some(_), None) => {
            &&& out matches Err(AssignProjectToEmployeeError::ProjectNotFound(_))
            &&& after == before
        },
        (Some(e), Some(p)) => {
            &&& out is Ok
            &&& out->Ok_0@ == new_assignment(id, p, request)
            &&& after == inserted(before, with_project(e, out->Ok_0@))
        },
    }
}

/// The entry that a request asks for, under the label `label`.
pub open spec fn new_knowledge(
    label: Seq<char>,
    request: SetSkillKnowledgeRequest,
) -> SkillAssignmentView {
    SkillAssignmentView { label, level: request.level.0, secret: request.secret }
}

/// What assigning a skill does: `out` is what the caller gets and `after` the
/// employees then, for the employees `before` and the skills `skills`.
pub open spec fn skill_assigned(
    before: Seq<EmployeeView>,
    skills: Seq<SkillView>,
    request: SetSkillKnowledgeRequest,
    out: Result<SkillAssignment, AssignSkillToEmployeeError>,
    after: Seq<EmployeeView>,
) -> bool {
    match (lookup(before, request.employee_id.0), lookup(skills, request.skill_id.0)) {
        (None, _) => {
            &&& out == Err::<SkillAssignment, _>(AssignSkillToEmployeeError::EmployeeNotFound)
            &&& after == before
        },
        (Some(_), None) => {
            &&& out == Err::<SkillAssignment, _>(AssignSkillToEmployeeError::SkillNotFound)
            &&& after == before
        },
        (Some(e), Some(skill)) => {
            &&& out is Ok
            &&& out->Ok_0@ == new_knowledge(skill.label, request)
            &&& after == inserted(before, with_skill(e, out->Ok_0@))
        },
    }
}

impl EmployeeDb {
    /// The employees together with another store, for an operation that
    /// reads the one and changes the other.
    pub fn with<'a, Db>(&'a mut self, other_db: &'a Db) -> (both: EmployeeDbWith<'a, Db>)
        ensures
            *both.employee_db == *old(self),
            *final(both.employee_db) == *final(self),
            both.other_db == other_db,
    {
        EmployeeDbWith { employee_db: self, other_db }
    }

    /// Assigns a project of `projects` to an employee, under the identifier
    /// `id`: the assignment holds a copy of the project and comes after the
    /// employee's other assignments. Where the employee or the project is
    /// not found, nothing changes.
    pub fn assign_project_with_id(
        &mut self,
        projects: &ProjectDb,
        id: ProjectAssignmentId,
        request: ProjectAssignmentRequest,
    ) -> (out: Result<ProjectAssignment, AssignProjectToEmployeeError>)
        ensures
            project_assigned(old(self)@, projects@, id.0, request, out, final(self)@),
            out is Err ==> *final(self) == *old(self),
            old(self).wf() ==> final(self).wf(),
    {
        let mut employee = match self.0.get(request.employee_id.0) {
            Some(e) => e,
            None => {
                return Err(AssignProjectToEmployeeError::EmployeeNotFound(EmployeeNotFoundError));
            },
        };
        let project = match projects.0.get(request.project_id.0) {
            Some(p) => p,
            None => {
                return Err(AssignProjectToEmployeeError::ProjectNotFound(ProjectNotFoundError));
            },
        };
        let assignment = ProjectAssignment {
            id,
            project,
            contribution: request.contribution,
            start_date: request.start_date,
            end_date: request.end_date,
        };
        let ghost found = employee@;
        employee.projects.push(assignment.clone());
        assert(employee@.projects =~= found.projects.push(assignment@));
        assert(employee@ == with_project(found, assignment@));
        self.0.insert(employee);
        proof {
            if old(self).wf() {
                lemma_lookup_valid(old(self)@, request.employee_id.0);
                lemma_inserted_distinct(old(self)@, with_project(found, assignment@));
                lemma_inserted_valid(old(self)@, with_project(found, assignment@));
            }
        }
        Ok(assignment)
    }

    /// Assigns a skill of `skills` to an employee: the employee's entry for
    /// the skill's label holds the level asked for. Where the employee or
    /// the skill is not found, nothing changes.
    pub fn assign_skill(&mut self, skills: &SkillDb, request: SetSkillKnowledgeRequest) -> (out:
        Result<SkillAssignment, AssignSkillToEmployeeError>)
        ensures
            skill_assigned(old(self)@, skills@, request, out, final(self)@),
            out is Err ==> *final(self) == *old(self),
            old(self).wf() ==> final(self).wf(),
    {
        let mut employee = match self.0.get(request.employee_id.0) {
            Some(e) => e,
            None => {
                return Err(AssignSkillToEmployeeError::EmployeeNotFound);
            },
        };
        let skill = match skills.0.get(request.skill_id.0) {
            Some(s) => s,
            None => {
                return Err(AssignSkillToEmployeeError::SkillNotFound);
            },
        };
        let assignment = SkillAssignment {
            label: skill.label,
            level: request.level,
            secret: request.secret,
        };
        let ghost found = employee@;
        set_knowledge(&mut employee.skills, assignment.clone());
        assert(employee@ == with_skill(found, assignment@));
        self.0.insert(employee);
        proof {
            if old(self).wf() {
                lemma_lookup_valid(old(self)@, request.employee_id.0);
                lemma_inserted_distinct(found.skills, assignment@);
                lemma_inserted_distinct(old(self)@, with_skill(found, assignment@));
                lemma_inserted_valid(old(self)@, with_skill(found, assignment@));
            }
        }
        Ok(assignment)
    }
}

/// Assigning a project to an employee that is not in the store changes no
/// employee and fails with `EmployeeNotFound`, whatever the projects are.
pub proof fn law_unknown_employee_gets_no_project(
    before: Seq<EmployeeView>,
    projects: Seq<ProjectView>,
    id: u128,
    request: ProjectAssignmentRequest,
    out: Result<ProjectAssignment, AssignProjectToEmployeeError>,
    after: Seq<EmployeeView>,
)
    requires
        !has_key(before, request.employee_id.0),
        project_assigned(before, projects, id, request, out, after),
    ensures
        out matches Err(AssignProjectToEmployeeError::EmployeeNotFound(_)),
        after == before,
{
}

/// Assigning a skill to an employee that is not in the store changes no
/// employee and fails with `EmployeeNotFound`, whatever the skills are.
pub proof fn law_unknown_employee_gets_no_skill(
    before: Seq<EmployeeView>,
    skills: Seq<SkillView>,
    request: SetSkillKnowledgeRequest,
    out: Result<SkillAssignment, AssignSkillToEmployeeError>,
    after: Seq<EmployeeView>,
)
    requires
        !has_key(before, request.employee_id.0),
        skill_assigned(before, skills, request, out, after),
    ensures
        out == Err::<SkillAssignment, _>(AssignSkillToEmployeeError::EmployeeNotFound),
        after == before,
{
}

/// A project that was assigned changes no other employee, and the employee
/// it was assigned to has it as the last of its assignments.
pub proof fn law_assigned_project_is_last(
    before: Seq<EmployeeView>,
    projects: Seq<ProjectView>,
    id: u128,
    request: ProjectAssignmentRequest,
    out: Result<ProjectAssignment, AssignProjectToEmployeeError>,
    after: Seq<EmployeeView>,
    other: u128,
)
    requires
        project_assigned(before, projects, id, request, out, after),
        out is Ok,
        other != request.employee_id.0,
    ensures
        lookup(after, other) == lookup(before, other),
        lookup(after, request.employee_id.0) is Some,
        lookup(after, request.employee_id.0).unwrap().projects == lookup(
            before,
            request.employee_id.0,
        ).unwrap().projects.push(out->Ok_0@),
        out->Ok_0@.project == lookup(projects, request.project_id.0).unwrap(),
{
    let k = request.employee_id.0;
    let e = lookup(before, k).unwrap();
    lemma_position(before, k);
    let changed = with_project(e, out->Ok_0@);
    law_lookup_after_insert(before, changed);
    law_insert_keeps_others(before, changed, other);
}

/// A skill that was assigned changes no other employee; the employee it was
/// assigned to has it as the entry for its label, and the entries for other
/// labels as before.
pub proof fn law_assigned_skill_is_known(
    before: Seq<EmployeeView>,
    skills: Seq<SkillView>,
    request: SetSkillKnowledgeRequest,
    out: Result<SkillAssignment, AssignSkillToEmployeeError>,
    after: Seq<EmployeeView>,
    other: u128,
    other_label: Seq<char>,
)
    requires
        skill_assigned(before, skills, request, out, after),
        out is Ok,
        other != request.employee_id.0,
        other_label != out->Ok_0@.label,
    ensures
        lookup(after, other) == lookup(before, other),
        lookup(after, request.employee_id.0) is Some,
        out->Ok_0@.label == lookup(skills, request.skill_id.0).unwrap().label,
        lookup(lookup(after, request.employee_id.0).unwrap().skills, out->Ok_0@.label) == Some(
            out->Ok_0@,
        ),
        lookup(lookup(after, request.employee_id.0).unwrap().skills, other_label) == lookup(
            lookup(before, request.employee_id.0).unwrap().skills,
            other_label,
        ),
        lookup(after, request.employee_id.0).unwrap().projects == lookup(
            before,
            request.employee_id.0,
        ).unwrap().projects,
{
    let k = request.employee_id.0;
    let e = lookup(before, k).unwrap();
    lemma_position(before, k);
    let changed = with_skill(e, out->Ok_0@);
    law_lookup_after_insert(before, changed);
    law_insert_keeps_others(before, changed, other);
    law_lookup_after_insert(e.skills, out->Ok_0@);
    law_insert_keeps_others(e.skills, out->Ok_0@, other_label);
}

/// The employees together with another store.
pub struct EmployeeDbWith<'a, Db> {
    pub employee_db: &'a mut EmployeeDb,
    pub other_db: &'a Db,
}

impl<'a> EmployeeDbWith<'a, ProjectDb> {
    /// Assigns a project to an employee under the identifier `id`.
    pub fn create_project_assignment_with_id(
        &mut self,
        id: ProjectAssignmentId,
        project_assignment: ProjectAssignmentRequest,
    ) -> (out: Result<ProjectAssignment, AssignProjectToEmployeeError>)
        ensures
            project_assigned(
                old(self).employee_db@,
                old(self).other_db@,
                id.0,
                project_assignment,
                out,
                final(self).employee_db@,
            ),
            out is Err ==> *final(self).employee_db == *old(self).employee_db,
            old(self).employee_db.wf() ==> final(self).employee_db.wf(),
            *final(final(self).employee_db) == *final(old(self).employee_db),
            final(self).other_db == old(self).other_db,
    {
        self.employee_db.assign_project_with_id(self.other_db, id, project_assignment)
    }
}

impl<'a> CreateProjectAssignment for EmployeeDbWith<'a, ProjectDb> {
    /// Assigns a project to an employee under a random identifier.
    fn create_project_assignment(&mut self, project_assignment: ProjectAssignmentRequest) -> (out:
        Result<ProjectAssignment, AssignProjectToEmployeeError>)
        ensures
            exists|id: u128|
                project_assigned(
                    old(self).employee_db@,
                    old(self).other_db@,
                    id,
                    project_assignment,
                    out,
                    final(self).employee_db@,
                ),
            out is Err ==> *final(self).employee_db == *old(self).employee_db,
            old(self).employee_db.wf() ==> final(self).employee_db.wf(),
            *final(final(self).employee_db) == *final(old(self).employee_db),
            final(self).other_db == old(self).other_db,
    {
        let id = ProjectAssignmentId(random_id());
        self.create_project_assignment_with_id(id, project_assignment)
    }
}

impl<'a> SetSkillKnowledgeOfEmployee for EmployeeDbWith<'a, SkillDb> {
    /// Assigns a skill to an employee.
    fn set_skill_knowledge_of_employee(&mut self, request: SetSkillKnowledgeRequest) -> (out:
        Result<SkillAssignment, AssignSkillToEmployeeError>)
        ensures
            skill_assigned(
                old(self).employee_db@,
                old(self).other_db@,
                request,
                out,
                final(self).employee_db@,
            ),
            out is Err ==> *final(self).employee_db == *old(self).employee_db,
            old(self).employee_db.wf() ==> final(self).employee_db.wf(),
            *final(final(self).employee_db) == *final(old(self).employee_db),
            final(self).other_db == old(self).other_db,
    {
        self.employee_db.assign_skill(self.other_db, request)
    }
}

} // verus!
