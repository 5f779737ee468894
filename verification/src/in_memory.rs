//! The three stores of one application, held together.

use vstd::prelude::*;
use crate::employees::{
    new_employee, project_assigned, skill_assigned, AddEmployee, AddEmployeeRequest,
    AssignProjectToEmployeeError, AssignSkillToEmployeeError, DeleteEmployeeById, Employee,
    EmployeeDb, EmployeeId, EmployeeView, GetEmployeeById, ProjectAssignment,
    ProjectAssignmentId, ProjectAssignmentRequest, SetSkillKnowledgeRequest, SkillAssignment,
};
use crate::error::Error;
use crate::store::{inserted, lookup, removed};
use crate::ident::random_id;
use crate::projects::{ProjectDb, ProjectView};
use crate::skills::{SkillDb, SkillView};

verus! {

/// The skills, the projects and the employees of one application.
#[derive(Debug)]
pub struct InMemoryApi {
    pub skills: SkillDb,
    pub projects: ProjectDb,
    pub employees: EmployeeDb,
}

impl InMemoryApi {
    /// Each of the three stores is well formed.
    pub open spec fn wf(&self) -> bool {
        &&& self.skills.wf()
        &&& self.projects.wf()
        &&& self.employees.wf()
    }

    /// Assigns a project to an employee under the identifier `id`; the
    /// skills and the projects stay as they are.
    pub fn assign_project_with_id(
        &mut self,
        id: ProjectAssignmentId,
        request: ProjectAssignmentRequest,
    ) -> (out: Result<ProjectAssignment, AssignProjectToEmployeeError>)
        ensures
            project_assigned(
                old(self).employees@,
                old(self).projects@,
                id.0,
                request,
                out,
                final(self).employees@,
            ),
            out is Err ==> final(self).employees == old(self).employees,
            final(self).skills == old(self).skills,
            final(self).projects == old(self).projects,
            old(self).wf() ==> final(self).wf(),
    {
        self.employees.assign_project_with_id(&self.projects, id, request)
    }

    /// Assigns a project to an employee under a random identifier; the
    /// skills and the projects stay as they are.
    pub fn assign_project(&mut self, request: ProjectAssignmentRequest) -> (out: Result<
        ProjectAssignment,
        AssignProjectToEmployeeError,
    >)
        ensures
            exists|id: u128|
                project_assigned(
                    old(self).employees@,
                    old(self).projects@,
                    id,
                    request,
                    out,
                    final(self).employees@,
                ),
            out is Err ==> final(self).employees == old(self).employees,
            final(self).skills == old(self).skills,
            final(self).projects == old(self).projects,
            old(self).wf() ==> final(self).wf(),
    {
        let id = ProjectAssignmentId(random_id());
        self.assign_project_with_id(id, request)
    }

    /// Assigns a skill to an employee; the skills and the projects stay as
    /// they are.
    pub fn assign_skill(&mut self, request: SetSkillKnowledgeRequest) -> (out: Result<
        SkillAssignment,
        AssignSkillToEmployeeError,
    >)
        ensures
            skill_assigned(
                old(self).employees@,
                old(self).skills@,
                request,
                out,
                final(self).employees@,
            ),
            out is Err ==> final(self).employees == old(self).employees,
            final(self).skills == old(self).skills,
            final(self).projects == old(self).projects,
            old(self).wf() ==> final(self).wf(),
    {
        self.employees.assign_skill(&self.skills, request)
    }
}

/// Three empty stores.
pub fn in_memory_api() -> (api: InMemoryApi)
    ensures
        api.skills@ == Seq::<SkillView>::empty(),
        api.projects@ == Seq::<ProjectView>::empty(),
        api.employees@ == Seq::<EmployeeView>::empty(),
        api.wf(),
{
    InMemoryApi {
        skills: SkillDb::default(),
        projects: ProjectDb::default(),
        employees: EmployeeDb::default(),
    }
}

/// The three stores that are given.
pub fn in_memory_api_using(skill_db: SkillDb, project_db: ProjectDb, employee_db: EmployeeDb) -> (api:
    InMemoryApi)
    ensures
        api.skills == skill_db,
        api.projects == project_db,
        api.employees == employee_db,
{
    InMemoryApi { skills: skill_db, projects: project_db, employees: employee_db }
}

/// The employees of one application, with the projects and the skills that
/// may be assigned to them.
#[derive(Debug)]
pub struct EmployeeApi<'a> {
    pub employees: EmployeeDb,
    pub projects: &'a ProjectDb,
    pub skills: &'a SkillDb,
}

impl<'a> EmployeeApi<'a> {
    /// Adds the employee that `request` describes under a random identifier.
    pub fn add(&mut self, request: AddEmployeeRequest) -> (out: Result<Employee, Error>)
        ensures
            match out {
                Ok(employee) => {
                    &&& employee@ == new_employee(employee@.id, employee@.last_update, request)
                    &&& final(self).employees@ == inserted(old(self).employees@, employee@)
                },
                Err(_) => false,
            },
            final(self).projects == old(self).projects,
            final(self).skills == old(self).skills,
            old(self).employees.wf() ==> final(self).employees.wf(),
    {
        self.employees.add(request)
    }

    /// Removes the employee stored under `employee_id`, if there is one.
    pub fn delete(&mut self, employee_id: EmployeeId) -> (out: Result<(), Error>)
        ensures
            out is Ok,
            final(self).employees@ == removed(old(self).employees@, employee_id.0),
            final(self).projects == old(self).projects,
            final(self).skills == old(self).skills,
            old(self).employees.wf() ==> final(self).employees.wf(),
    {
        self.employees.delete(employee_id)
    }

    /// The employee stored under `employee_id`, if any.
    pub fn get(&self, employee_id: EmployeeId) -> (out: Result<Option<Employee>, Error>)
        ensures
            match out {
                Ok(Some(employee)) => lookup(self.employees@, employee_id.0) == Some(employee@),
                Ok(None) => lookup(self.employees@, employee_id.0).is_none(),
                Err(_) => false,
            },
    {
        self.employees.get(employee_id)
    }

    /// Assigns a project to an employee under a random identifier.
    pub fn assign_project(&mut self, request: ProjectAssignmentRequest) -> (out: Result<
        ProjectAssignment,
        AssignProjectToEmployeeError,
    >)
        ensures
            exists|id: u128|
                project_assigned(
                    old(self).employees@,
                    old(self).projects@,
                    id,
                    request,
                    out,
                    final(self).employees@,
                ),
            out is Err ==> final(self).employees == old(self).employees,
            final(self).projects == old(self).projects,
            final(self).skills == old(self).skills,
            old(self).employees.wf() ==> final(self).employees.wf(),
    {
        let id = ProjectAssignmentId(random_id());
        let out = self.employees.assign_project_with_id(self.projects, id, request);
        assert(project_assigned(
            old(self).employees@,
            old(self).projects@,
            id.0,
            request,
            out,
            self.employees@,
        ));
        out
    }

    /// Assigns a skill to an employee.
    pub fn assign_skill(&mut self, request: SetSkillKnowledgeRequest) -> (out: Result<
        SkillAssignment,
        AssignSkillToEmployeeError,
    >)
        ensures
            skill_assigned(
                old(self).employees@,
                old(self).skills@,
                request,
                out,
                final(self).employees@,
            ),
            out is Err ==> final(self).employees == old(self).employees,
            final(self).projects == old(self).projects,
            final(self).skills == old(self).skills,
            old(self).employees.wf() ==> final(self).employees.wf(),
    {
        self.employees.assign_skill(self.skills, request)
    }
}

/// No employees yet, with the projects and the skills that are given.
pub fn employees_api<'a>(project_db: &'a ProjectDb, skill_db: &'a SkillDb) -> (api: EmployeeApi<'a>)
    ensures
        api.employees@ == Seq::<EmployeeView>::empty(),
        api.employees.wf(),
        api.projects == project_db,
        api.skills == skill_db,
{
    employees_api_using(EmployeeDb::default(), project_db, skill_db)
}

/// The employees, the projects and the skills that are given.
pub fn employees_api_using<'a>(
    employee_db: EmployeeDb,
    project_db: &'a ProjectDb,
    skill_db: &'a SkillDb,
) -> (api: EmployeeApi<'a>)
    ensures
        api.employees == employee_db,
        api.projects == project_db,
        api.skills == skill_db,
{
    EmployeeApi { employees: employee_db, projects: project_db, skills: skill_db }
}

} // verus!
