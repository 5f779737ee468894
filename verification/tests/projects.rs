use skill_manager::error::Error;
use skill_manager::projects::{
    AddProject, DeleteProject, FindProjects, GetProject, Project, ProjectDb, ProjectDescription,
    ProjectId, ProjectLabel,
};
use skill_manager::store::EntityStore;

#[test]
fn projects_api_test() {
    let mut db = ProjectDb::default();
    let project = ProjectLabel("Example project".into());
    let added = db.add(project.clone(), ProjectDescription("".into())).unwrap();
    assert_eq!(project, added.label);
    assert_eq!(db.get(added.id.clone()).unwrap(), Some(added.clone()));
    db.delete(added.id.clone()).unwrap();
    assert_eq!(db.get(added.id).unwrap(), None);
}

#[test]
fn find_projects_lists_all_in_order() {
    let mut db = ProjectDb::default();
    assert_eq!(db.find_projects().unwrap(), vec![]);
    let mut added: Vec<Project> = Vec::new();
    for i in 0..15u128 {
        added.push(db.add_with_id(
            ProjectId(i),
            ProjectLabel(format!("p{}", i)),
            ProjectDescription(format!("d{}", i)),
        ));
    }
    assert_eq!(added[3].description, ProjectDescription("d3".into()));
    assert_eq!(db.find_projects().unwrap(), added);
    db.delete(ProjectId(0)).unwrap();
    db.delete(ProjectId(14)).unwrap();
    db.delete(ProjectId(99)).unwrap();
    assert_eq!(db.find_projects().unwrap(), added[1..14].to_vec());
}

#[test]
fn project_id_is_read_from_its_text() {
    let id = ProjectId::parse("00000000-0000-0000-0000-0000000000ff").unwrap();
    assert_eq!(id, ProjectId(255));
    assert_eq!(id.to_string(), "00000000-0000-0000-0000-0000000000ff");
    assert!(matches!(ProjectId::parse("xyz"), Err(Error::Validation(_))));
}

#[test]
fn store_loaded_from_a_snapshot_keeps_the_later_of_two_with_one_id() {
    let a = Project {
        id: ProjectId(1),
        label: ProjectLabel("a".into()),
        description: ProjectDescription("".into()),
    };
    let b = Project {
        id: ProjectId(2),
        label: ProjectLabel("b".into()),
        description: ProjectDescription("".into()),
    };
    let a2 = Project {
        id: ProjectId(1),
        label: ProjectLabel("a2".into()),
        description: ProjectDescription("".into()),
    };
    let snapshot = vec![(1, a), (2, b.clone()), (1, a2.clone())];
    let db = ProjectDb(EntityStore::from_snapshot(Some(&snapshot)).unwrap());
    assert_eq!(db.find_projects().unwrap(), vec![a2, b]);
}

#[test]
fn error_line_names_the_reason() {
    assert_eq!(Error::Other("boom".into()).to_string(), "Error: boom");
    assert_eq!(Error::Validation("bad id".into()).to_string(), "Error: bad id");
    assert_eq!(Error::Persistence("".into()).to_string(), "Error: ");
}

#[test]
fn store_is_loaded_from_its_own_snapshot() {
    for n in [0u128, 1, 7] {
        let mut db = ProjectDb::default();
        for i in 0..n {
            db.add(ProjectLabel(format!("p{}", i)), ProjectDescription(format!("d{}", i)))
                .unwrap();
        }
        let snapshot = db.0.snapshot();
        let listing = db.find_projects().unwrap();
        assert_eq!(
            snapshot,
            listing.iter().map(|p| (p.id.0, p.clone())).collect::<Vec<_>>()
        );
        let again = ProjectDb(EntityStore::from_snapshot(Some(&snapshot)).unwrap());
        assert_eq!(again.find_projects().unwrap(), listing);
    }
}

#[test]
fn no_snapshot_stands_for_the_empty_store() {
    let db = ProjectDb(EntityStore::from_snapshot(None).unwrap());
    assert_eq!(db.find_projects().unwrap(), vec![]);
}

#[test]
fn snapshot_with_a_misfiled_record_is_refused() {
    let a = Project {
        id: ProjectId(1),
        label: ProjectLabel("a".into()),
        description: ProjectDescription("".into()),
    };
    let b = Project {
        id: ProjectId(2),
        label: ProjectLabel("b".into()),
        description: ProjectDescription("".into()),
    };
    let misfiled = vec![(1, a.clone()), (3, b.clone())];
    assert!(matches!(
        EntityStore::<Project>::from_snapshot(Some(&misfiled)),
        Err(Error::Persistence(_))
    ));
    let filed = vec![(1, a.clone()), (2, b.clone())];
    let db = ProjectDb(EntityStore::from_snapshot(Some(&filed)).unwrap());
    assert_eq!(db.find_projects().unwrap(), vec![a, b]);
}
