use skill_manager::cli::{
    employee_op, project_op, skill_op, EmployeeCommand, EmployeeReport, ProjectCommand,
    ProjectReport, SkillCommand, SkillReport,
};
use skill_manager::dates::Date;
use skill_manager::employees::{
    EmployeeDb, EmployeeId, FindEmployees, FirstName, GetEmployeeById, LastName,
    ProjectContribution, SkillAssignment, SkillLevel,
};
use skill_manager::error::Error;
use skill_manager::projects::{
    FindProjects, GetProject, ProjectDb, ProjectDescription, ProjectId, ProjectLabel,
};
use skill_manager::skills::{PageNumber, PageSize, SkillDb, SkillId, SkillLabel};

#[test]
fn project_commands_add_get_and_delete() {
    let mut db = ProjectDb::default();
    let added = match project_op(
        ProjectCommand::Add {
            label: ProjectLabel("Website".into()),
            description: ProjectDescription("the site".into()),
        },
        &mut db,
    ) {
        Ok(ProjectReport::Added(project)) => project,
        other => panic!("unexpected report: {:?}", other),
    };
    assert_eq!(added.label, ProjectLabel("Website".into()));
    assert_eq!(added.description, ProjectDescription("the site".into()));
    assert_eq!(db.find_projects().unwrap(), vec![added.clone()]);

    assert_eq!(
        project_op(ProjectCommand::Get { id: added.id }, &mut db),
        Ok(ProjectReport::Got(Some(added.clone())))
    );
    assert_eq!(
        project_op(ProjectCommand::Get { id: ProjectId(added.id.0 ^ 1) }, &mut db),
        Ok(ProjectReport::Got(None))
    );
    assert_eq!(
        project_op(ProjectCommand::Delete { id: added.id }, &mut db),
        Ok(ProjectReport::Deleted(format!("Deleted project {}", added.id.to_string())))
    );
    assert_eq!(db.get(added.id).unwrap(), None);
    assert_eq!(
        project_op(ProjectCommand::Delete { id: ProjectId(255) }, &mut db),
        Ok(ProjectReport::Deleted(
            "Deleted project 00000000-0000-0000-0000-0000000000ff".to_string()
        ))
    );
}

#[test]
fn skill_commands_add_find_get_and_delete() {
    let mut db = SkillDb::default();
    let mut added = Vec::new();
    for name in ["a", "b", "c"] {
        match skill_op(SkillCommand::Add { label: SkillLabel(name.into()) }, &mut db) {
            Ok(SkillReport::Added(skill)) => added.push(skill),
            other => panic!("unexpected report: {:?}", other),
        }
    }
    assert_eq!(
        skill_op(SkillCommand::Find { page: None, page_size: None }, &mut db),
        Ok(SkillReport::Found(added.clone()))
    );
    assert_eq!(
        skill_op(
            SkillCommand::Find { page: Some(PageNumber(1)), page_size: Some(PageSize(2)) },
            &mut db
        ),
        Ok(SkillReport::Found(vec![added[2].clone()]))
    );
    assert_eq!(
        skill_op(SkillCommand::Get { id: added[1].id }, &mut db),
        Ok(SkillReport::Got(Some(added[1].clone())))
    );
    assert_eq!(
        skill_op(SkillCommand::Delete { id: SkillId(1) }, &mut db),
        Ok(SkillReport::Deleted(
            "Deleted skill 00000000-0000-0000-0000-000000000001".to_string()
        ))
    );
    assert_eq!(
        skill_op(SkillCommand::Delete { id: added[0].id }, &mut db),
        Ok(SkillReport::Deleted(format!("Deleted skill {}", added[0].id.to_string())))
    );
    assert_eq!(
        skill_op(SkillCommand::Find { page: None, page_size: None }, &mut db),
        Ok(SkillReport::Found(added[1..].to_vec()))
    );
}

#[test]
fn employee_commands_add_assign_and_delete() {
    let mut employees = EmployeeDb::default();
    let mut projects = ProjectDb::default();
    let mut skills = SkillDb::default();
    let project = projects.add_with_id(
        ProjectId(1),
        ProjectLabel("Website".into()),
        ProjectDescription("".into()),
    );
    let skill = skills.add_with_id(SkillId(2), SkillLabel("Rust".into()));

    let employee = match employee_op(
        EmployeeCommand::Add {
            first_name: FirstName("Jane".into()),
            last_name: LastName("Doe".into()),
        },
        &mut employees,
        &projects,
        &skills,
    ) {
        Ok(EmployeeReport::Added(employee)) => employee,
        other => panic!("unexpected report: {:?}", other),
    };
    assert_eq!(employee.first_name, FirstName("Jane".into()));
    assert_eq!(employee.last_name, LastName("Doe".into()));
    assert_eq!(employee.title.0, "");
    assert!(employee.skills.is_empty() && employee.projects.is_empty());

    let assignment = match employee_op(
        EmployeeCommand::AssignProject {
            employee_id: employee.id,
            project_id: project.id,
            start_date: Date { year: 2023, month: 1, day: 1 },
            end_date: None,
            contribution: ProjectContribution("backend".into()),
        },
        &mut employees,
        &projects,
        &skills,
    ) {
        Ok(EmployeeReport::AssignedProject(assignment)) => assignment,
        other => panic!("unexpected report: {:?}", other),
    };
    assert_eq!(assignment.project, project);
    assert_eq!(assignment.contribution, ProjectContribution("backend".into()));

    let knowledge = SkillAssignment {
        label: SkillLabel("Rust".into()),
        level: SkillLevel(4),
        secret: false,
    };
    assert_eq!(
        employee_op(
            EmployeeCommand::AssignSkill {
                employee_id: employee.id,
                skill_id: skill.id,
                skill_level: SkillLevel(4),
            },
            &mut employees,
            &projects,
            &skills,
        ),
        Ok(EmployeeReport::AssignedSkill(knowledge.clone()))
    );

    let stored = employees.get(employee.id).unwrap().unwrap();
    assert_eq!(stored.projects, vec![assignment]);
    assert_eq!(stored.skills, vec![knowledge]);
    assert_eq!(
        employee_op(EmployeeCommand::Get { id: employee.id }, &mut employees, &projects, &skills),
        Ok(EmployeeReport::Got(Some(stored)))
    );
    assert_eq!(
        employee_op(
            EmployeeCommand::Delete { id: employee.id },
            &mut employees,
            &projects,
            &skills
        ),
        Ok(EmployeeReport::Deleted(format!("Deleted employee {}", employee.id.to_string())))
    );
    assert_eq!(employees.find_employees().unwrap(), vec![]);
}

#[test]
fn employee_commands_report_what_was_not_found() {
    let mut employees = EmployeeDb::default();
    let projects = ProjectDb::default();
    let skills = SkillDb::default();
    let assign_project = |employee_id: EmployeeId| EmployeeCommand::AssignProject {
        employee_id,
        project_id: ProjectId(1),
        start_date: Date { year: 2023, month: 1, day: 1 },
        end_date: None,
        contribution: ProjectContribution("backend".into()),
    };
    let assign_skill = |employee_id: EmployeeId| EmployeeCommand::AssignSkill {
        employee_id,
        skill_id: SkillId(1),
        skill_level: SkillLevel(1),
    };
    assert_eq!(
        employee_op(assign_project(EmployeeId(5)), &mut employees, &projects, &skills),
        Err(Error::Other("Employee not found".into()))
    );
    assert_eq!(
        employee_op(assign_skill(EmployeeId(5)), &mut employees, &projects, &skills),
        Err(Error::Other("Employee not found".into()))
    );
    let employee = match employee_op(
        EmployeeCommand::Add { first_name: FirstName("J".into()), last_name: LastName("D".into()) },
        &mut employees,
        &projects,
        &skills,
    ) {
        Ok(EmployeeReport::Added(employee)) => employee,
        other => panic!("unexpected report: {:?}", other),
    };
    assert_eq!(
        employee_op(assign_project(employee.id), &mut employees, &projects, &skills),
        Err(Error::Other("Project not found".into()))
    );
    assert_eq!(
        employee_op(assign_skill(employee.id), &mut employees, &projects, &skills),
        Err(Error::Other("Skill not found".into()))
    );
    assert_eq!(employees.find_employees().unwrap(), vec![employee]);
}
