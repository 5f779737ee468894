//! The commands of the command line: what each does to the stores and what
//! it reports. Reading the arguments, printing the report and saving the
//! stores are left to the caller.

use vstd::prelude::*;
use vstd::string::StringExecFns;
use crate::dates::Date;
use crate::employees::{
    project_assigned, skill_assigned, AddEmployee, AddEmployeeRequest,
    AssignProjectToEmployeeError, AssignSkillToEmployeeError, DeleteEmployeeById, EmailAddress,
    Employee, EmployeeDb, EmployeeId, EmployeeView, FirstName, GetEmployeeById, LastName, ProjectAssignment,
    ProjectAssignmentId, ProjectAssignmentRequest, ProjectContribution, SetSkillKnowledgeRequest,
    SkillAssignment, SkillLevel, TelephoneNumber, Title,
};
use crate::error::Error;
use crate::ident::{random_id, uuid_text};
use crate::projects::{
    AddProject, DeleteProject, GetProject, Project, ProjectDb, ProjectDescription, ProjectId,
    ProjectLabel, ProjectView,
};
use crate::skills::{
    page_or_default, size_or_default, AddSkill, DeleteSkillById, GetSkillById, PageNumber,
    PageSize, Skill, SkillDb, SkillId, SkillLabel, SkillView,
};
use crate::store::{inserted, lookup, removed, values, window};

verus! {

/// A command on the skills.
#[derive(Debug)]
pub enum SkillCommand {
    Add { label: SkillLabel },
    Find { page: Option<PageNumber>, page_size: Option<PageSize> },
    Get { id: SkillId },
    Delete { id: SkillId },
}

/// What a command on the skills reports.
#[derive(Debug, PartialEq, Eq)]
pub enum SkillReport {
    Added(Skill),
    Found(Vec<Skill>),
    Got(Option<Skill>),
    Deleted(String),
}

/// A command on the projects.
#[derive(Debug)]
pub enum ProjectCommand {
    Add { label: ProjectLabel, description: ProjectDescription },
    Delete { id: ProjectId },
    Get { id: ProjectId },
}

/// What a command on the projects reports.
#[derive(Debug, PartialEq, Eq)]
pub enum ProjectReport {
    Added(Project),
    Deleted(String),
    Got(Option<Project>),
}

/// A command on the employees.
#[derive(Debug)]
pub enum EmployeeCommand {
    Add { first_name: FirstName, last_name: LastName },
    Delete { id: EmployeeId },
    Get { id: EmployeeId },
    AssignProject {
        employee_id: EmployeeId,
        project_id: ProjectId,
        start_date: Date,
        end_date: Option<Date>,
        contribution: ProjectContribution,
    },
    AssignSkill { employee_id: EmployeeId, skill_id: SkillId, skill_level: SkillLevel },
}

/// What a command on the employees reports.
#[derive(Debug, PartialEq, Eq)]
pub enum EmployeeReport {
    Added(Employee),
    Deleted(String),
    Got(Option<Employee>),
    AssignedProject(ProjectAssignment),
    AssignedSkill(SkillAssignment),
}

/// The line that reports a removal: `Deleted `, the kind of record, a space
/// and the identifier.
pub open spec fn deleted_line(kind: Seq<char>, id: u128) -> Seq<char> {
    "Deleted "@ + kind + " "@ + uuid_text(id)
}

fn deleted_message(kind: &str, id_text: String) -> (line: String)
    ensures
        line@ == "Deleted "@ + kind@ + " "@ + id_text@,
{
    String::from_str("Deleted ").concat(kind).concat(" ").concat(id_text.as_str())
}

/// What a command does to the skills `before`, leaving `after`, and what it
/// reports.
pub open spec fn skill_command_done(
    command: SkillCommand,
    before: Seq<SkillView>,
    out: Result<SkillReport, Error>,
    after: Seq<SkillView>,
) -> bool {
    match command {
        SkillCommand::Add { label } => {
            &&& out matches Ok(SkillReport::Added(skill))
            &&& skill@.label == label@
            &&& after == inserted(before, skill@)
        },
        SkillCommand::Find { page, page_size } => {
            &&& out matches Ok(SkillReport::Found(skills))
            &&& values(skills@) == window(
                before,
                (page_or_default(page) * size_or_default(page_size)) as nat,
                size_or_default(page_size),
            )
            &&& after == before
        },
        SkillCommand::Get { id } => {
            &&& out matches Ok(SkillReport::Got(found))
            &&& match found {
                Some(skill) => lookup(before, id.0) == Some(skill@),
                None => lookup(before, id.0).is_none(),
            }
            &&& after == before
        },
        SkillCommand::Delete { id } => {
            &&& out matches Ok(SkillReport::Deleted(line))
            &&& line@ == deleted_line("skill"@, id.0)
            &&& after == removed(before, id.0)
        },
    }
}

/// Carries out a command on the skills.
pub fn skill_op(skill_command: SkillCommand, skill_db: &mut SkillDb) -> (out: Result<
    SkillReport,
    Error,
>)
    ensures
        skill_command_done(skill_command, old(skill_db)@, out, final(skill_db)@),
        old(skill_db).wf() ==> final(skill_db).wf(),
{
    match skill_command {
        SkillCommand::Add { label } => {
            match skill_db.add(label) {
                Ok(skill) => Ok(SkillReport::Added(skill)),
                Err(e) => Err(e),
            }
        },
        SkillCommand::Find { page, page_size } => {
            match skill_db.find_page(page, page_size) {
                Ok(skills) => Ok(SkillReport::Found(skills)),
                Err(e) => Err(e),
            }
        },
        SkillCommand::Get { id } => {
            match skill_db.get(id) {
                Ok(found) => Ok(SkillReport::Got(found)),
                Err(e) => Err(e),
            }
        },
        SkillCommand::Delete { id } => {
            match skill_db.delete(id) {
                Ok(_) => Ok(SkillReport::Deleted(deleted_message("skill", id.to_string()))),
                Err(e) => Err(e),
            }
        },
    }
}

/// What a command does to the projects `before`, leaving `after`, and what
/// it reports.
pub open spec fn project_command_done(
    command: ProjectCommand,
    before: Seq<ProjectView>,
    out: Result<ProjectReport, Error>,
    after: Seq<ProjectView>,
) -> bool {
    match command {
        ProjectCommand::Add { label, description } => {
            &&& out matches Ok(ProjectReport::Added(project))
            &&& project@.label == label@
            &&& project@.description == description@
            &&& after == inserted(before, project@)
        },
        ProjectCommand::Delete { id } => {
            &&& out matches Ok(ProjectReport::Deleted(line))
            &&& line@ == deleted_line("project"@, id.0)
            &&& after == removed(before, id.0)
        },
        ProjectCommand::Get { id } => {
            &&& out matches Ok(ProjectReport::Got(found))
            &&& match found {
                Some(project) => lookup(before, id.0) == Some(project@),
                None => lookup(before, id.0).is_none(),
            }
            &&& after == before
        },
    }
}

/// Carries out a command on the projects.
pub fn project_op(project_command: ProjectCommand, project_db: &mut ProjectDb) -> (out: Result<
    ProjectReport,
    Error,
>)
    ensures
        project_command_done(project_command, old(project_db)@, out, final(project_db)@),
        old(project_db).wf() ==> final(project_db).wf(),
{
    match project_command {
        ProjectCommand::Add { label, description } => {
            match project_db.add(label, description) {
                Ok(project) => Ok(ProjectReport::Added(project)),
                Err(e) => Err(e),
            }
        },
        ProjectCommand::Delete { id } => {
            match project_db.delete(id) {
                Ok(_) => Ok(ProjectReport::Deleted(deleted_message("project", id.to_string()))),
                Err(e) => Err(e),
            }
        },
        ProjectCommand::Get { id } => {
            match project_db.get(id) {
                Ok(found) => Ok(ProjectReport::Got(found)),
                Err(e) => Err(e),
            }
        },
    }
}

/// What a command does to the employees `before`, leaving `after`, and what
/// it reports, for the projects and skills that are given.
pub open spec fn employee_command_done(
    command: EmployeeCommand,
    before: Seq<EmployeeView>,
    projects: Seq<ProjectView>,
    skills: Seq<SkillView>,
    out: Result<EmployeeReport, Error>,
    after: Seq<EmployeeView>,
) -> bool {
    match command {
        EmployeeCommand::Add { first_name, last_name } => {
            &&& out matches Ok(EmployeeReport::Added(employee))
            &&& employee@.first_name == first_name@
            &&& employee@.last_name == last_name@
            &&& employee@.title.len() == 0
            &&& employee@.email.len() == 0
            &&& employee@.telephone.len() == 0
            &&& employee@.skills.len() == 0
            &&& employee@.projects.len() == 0
            &&& after == inserted(before, employee@)
        },
        EmployeeCommand::Delete { id } => {
            &&& out matches Ok(EmployeeReport::Deleted(line))
            &&& line@ == deleted_line("employee"@, id.0)
            &&& after == removed(before, id.0)
        },
        EmployeeCommand::Get { id } => {
            &&& out matches Ok(EmployeeReport::Got(found))
            &&& match found {
                Some(employee) => lookup(before, id.0) == Some(employee@),
                None => lookup(before, id.0).is_none(),
            }
            &&& after == before
        },
        EmployeeCommand::AssignProject {
            employee_id,
            project_id,
            start_date,
            end_date,
            contribution,
        } => {
            let request = ProjectAssignmentRequest {
                employee_id,
                project_id,
                contribution,
                start_date,
                end_date,
            };
            exists|id: u128, done: Result<ProjectAssignment, AssignProjectToEmployeeError>|
                {
                    &&& #[trigger] project_assigned(before, projects, id, request, done, after)
                    &&& match done {
                        Ok(assignment) => out == Ok::<_, Error>(
                            EmployeeReport::AssignedProject(assignment),
                        ),
                        Err(e) => out matches Err(Error::Other(line)) && line@ == (match e {
                            AssignProjectToEmployeeError::EmployeeNotFound(_) => "Employee not found"@,
                            AssignProjectToEmployeeError::ProjectNotFound(_) => "Project not found"@,
                        }),
                    }
                }
        },
        EmployeeCommand::AssignSkill { employee_id, skill_id, skill_level } => {
            let request = SetSkillKnowledgeRequest {
                employee_id,
                skill_id,
                level: skill_level,
                secret: false,
            };
            exists|done: Result<SkillAssignment, AssignSkillToEmployeeError>|
                {
                    &&& #[trigger] skill_assigned(before, skills, request, done, after)
                    &&& match done {
                        Ok(assignment) => out == Ok::<_, Error>(
                            EmployeeReport::AssignedSkill(assignment),
                        ),
                        Err(e) => out matches Err(Error::Other(line)) && line@ == (match e {
                            AssignSkillToEmployeeError::EmployeeNotFound => "Employee not found"@,
                            AssignSkillToEmployeeError::SkillNotFound => "Skill not found"@,
                        }),
                    }
                }
        },
    }
}

/// Carries out a command on the employees; the projects and the skills are
/// only read.
pub fn employee_op(
    employee_command: EmployeeCommand,
    employee_db: &mut EmployeeDb,
    project_db: &ProjectDb,
    skill_db: &SkillDb,
) -> (out: Result<EmployeeReport, Error>)
    ensures
        employee_command_done(
            employee_command,
            old(employee_db)@,
            project_db@,
            skill_db@,
            out,
            final(employee_db)@,
        ),
        old(employee_db).wf() ==> final(employee_db).wf(),
{
    match employee_command {
        EmployeeCommand::Add { first_name, last_name } => {
            let request = AddEmployeeRequest {
                first_name,
                last_name,
                title: Title(String::new()),
                email: EmailAddress(String::new()),
                telephone: TelephoneNumber(String::new()),
            };
            match employee_db.add(request) {
                Ok(employee) => Ok(EmployeeReport::Added(employee)),
                Err(e) => Err(e),
            }
        },
        EmployeeCommand::Delete { id } => {
            match employee_db.delete(id) {
                Ok(_) => Ok(EmployeeReport::Deleted(deleted_message("employee", id.to_string()))),
                Err(e) => Err(e),
            }
        },
        EmployeeCommand::Get { id } => {
            match employee_db.get(id) {
                Ok(found) => Ok(EmployeeReport::Got(found)),
                Err(e) => Err(e),
            }
        },
        EmployeeCommand::AssignProject {
            employee_id,
            project_id,
            start_date,
            end_date,
            contribution,
        } => {
            let request = ProjectAssignmentRequest {
                employee_id,
                project_id,
                contribution,
                start_date,
                end_date,
            };
            let id = ProjectAssignmentId(random_id());
            let done = employee_db.assign_project_with_id(project_db, id, request);
            assert(project_assigned(
                old(employee_db)@,
                project_db@,
                id.0,
                request,
                done,
                employee_db@,
            ));
            match done {
                Ok(assignment) => Ok(EmployeeReport::AssignedProject(assignment)),
                Err(e) => Err(Error::Other(e.to_string())),
            }
        },
        EmployeeCommand::AssignSkill { employee_id, skill_id, skill_level } => {
            let request = SetSkillKnowledgeRequest {
                employee_id,
                skill_id,
                level: skill_level,
                secret: false,
            };
            let done = employee_db.assign_skill(skill_db, request);
            assert(skill_assigned(old(employee_db)@, skill_db@, request, done, employee_db@));
            match done {
                Ok(assignment) => Ok(EmployeeReport::AssignedSkill(assignment)),
                Err(e) => Err(Error::Other(e.to_string())),
            }
        },
    }
}

} // verus!
