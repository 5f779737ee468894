use skill_manager::dates::{date_from_parse, Date};
use skill_manager::error::Error;
use skill_manager::ident::{id_from_parse, parse_id};
use skill_manager::skills::{
    add_skill, find_skills_in_hashmap, insert_skill_into_hashmap, AddSkill, DeleteSkillById,
    FindSkills, GetSkillById, PageNumber, PageSize, Skill, SkillDb, SkillId, SkillLabel,
};

fn five_skills() -> (SkillDb, Vec<Skill>) {
    let mut db = SkillDb::default();
    let mut added: Vec<Skill> = Vec::new();
    for (i, name) in ["a", "b", "c", "d", "e"].iter().enumerate() {
        added.push(db.add_with_id(SkillId(i as u128 + 1), SkillLabel(name.to_string())));
    }
    (db, added)
}

#[test]
fn add_skill_returns_itself() {
    let mut api = SkillDb::default();
    let label_to_create = SkillLabel(String::from("Example skill"));
    let added = api.add(label_to_create.clone()).unwrap();
    assert_eq!(added.label, label_to_create);
}

#[test]
fn skill_api_test() {
    let mut db = SkillDb::default();
    let skill = SkillLabel("Example".into());

    assert_eq!(db.find().unwrap(), vec![]);

    let added_skill = db.add(skill.clone()).unwrap();

    assert_eq!(added_skill.label, skill);
    assert_eq!(db.get(added_skill.id.clone()).unwrap().unwrap(), added_skill);
    assert_eq!(db.find().unwrap(), vec![added_skill.clone()]);

    db.delete(added_skill.id.clone()).unwrap();

    assert_eq!(db.find().unwrap(), vec![]);
    assert_eq!(db.get(added_skill.id).unwrap(), None);
}

#[test]
fn added_skill_is_found_under_its_id() {
    let mut db = SkillDb::default();
    let added = db.add(SkillLabel("Rust".into())).unwrap();
    assert_eq!(added.label, SkillLabel("Rust".into()));
    assert_eq!(db.get(added.id).unwrap(), Some(added));
}

#[test]
fn deleted_skill_is_gone_and_listing_is_empty() {
    let mut db = SkillDb::default();
    let added = db.add(SkillLabel("X".into())).unwrap();
    db.delete(added.id).unwrap();
    assert_eq!(db.find().unwrap(), vec![]);
    assert_eq!(db.get(added.id).unwrap(), None);
}

#[test]
fn delete_twice_is_no_error() {
    let (mut db, added) = five_skills();
    assert!(db.delete(added[1].id).is_ok());
    assert!(db.delete(added[1].id).is_ok());
    assert_eq!(db.get(added[1].id).unwrap(), None);
    assert!(db.delete(SkillId(77)).is_ok());
    assert_eq!(db.get(SkillId(77)).unwrap(), None);
    assert_eq!(
        db.find().unwrap(),
        vec![added[0].clone(), added[2].clone(), added[3].clone(), added[4].clone()]
    );
}

#[test]
fn find_page_returns_third_and_fourth_of_five() {
    let (db, added) = five_skills();
    let page = db.find_page(Some(PageNumber(1)), Some(PageSize(2))).unwrap();
    assert_eq!(page, vec![added[2].clone(), added[3].clone()]);
}

#[test]
fn find_page_at_the_end_and_beyond() {
    let (db, added) = five_skills();
    assert_eq!(
        db.find_page(Some(PageNumber(2)), Some(PageSize(2))).unwrap(),
        vec![added[4].clone()]
    );
    assert_eq!(db.find_page(Some(PageNumber(3)), Some(PageSize(2))).unwrap(), vec![]);
    assert_eq!(db.find_page(Some(PageNumber(0)), Some(PageSize(0))).unwrap(), vec![]);
    assert_eq!(
        db.find_page(Some(PageNumber(usize::MAX)), Some(PageSize(2))).unwrap(),
        vec![]
    );
    assert_eq!(db.find_page(None, Some(PageSize(usize::MAX))).unwrap(), added);
}

#[test]
fn find_defaults_to_the_first_ten() {
    let mut db = SkillDb::default();
    let mut added: Vec<Skill> = Vec::new();
    for i in 0..12u128 {
        added.push(db.add_with_id(SkillId(100 + i), SkillLabel(format!("s{}", i))));
    }
    assert_eq!(PageNumber::default(), PageNumber(0));
    assert_eq!(PageSize::default(), PageSize(10));
    assert_eq!(db.find().unwrap(), added[0..10].to_vec());
    assert_eq!(db.find_page(Some(PageNumber(1)), None).unwrap(), added[10..12].to_vec());
}

#[test]
fn add_with_a_used_id_replaces_in_place() {
    let (mut db, added) = five_skills();
    let again = db.add_with_id(added[1].id, SkillLabel("z".into()));
    assert_eq!(db.get(added[1].id).unwrap(), Some(again.clone()));
    assert_eq!(
        db.find().unwrap(),
        vec![added[0].clone(), again, added[2].clone(), added[3].clone(), added[4].clone()]
    );
}

#[test]
fn two_added_skills_get_two_ids() {
    let mut db = SkillDb::default();
    let a = db.add(SkillLabel("same".into())).unwrap();
    let b = db.add(SkillLabel("same".into())).unwrap();
    assert_ne!(a.id, b.id);
    assert_eq!(db.find().unwrap(), vec![a, b]);
}

#[test]
fn skill_id_is_read_from_its_text() {
    let id = SkillId::parse("936DA01F-9ABD-4D9D-80C7-02AF85C822A8").unwrap();
    assert_eq!(id, SkillId(0x936DA01F9ABD4D9D80C702AF85C822A8));
    assert_eq!(id.to_string(), "936da01f-9abd-4d9d-80c7-02af85c822a8");
    assert_eq!(SkillId::parse(&id.to_string()).unwrap(), id);
    assert_eq!(SkillId(0).to_string(), "00000000-0000-0000-0000-000000000000");
}

#[test]
fn skill_id_from_bad_text_is_a_validation_error() {
    assert!(matches!(SkillId::parse("not-an-id"), Err(Error::Validation(_))));
    assert!(matches!(SkillId::parse(""), Err(Error::Validation(_))));
}

#[test]
fn skills_are_added_and_paged_by_the_free_functions() {
    let mut db = SkillDb::default();
    let a = add_skill(&mut db, SkillId(1), SkillLabel("a".into())).unwrap();
    let b = Skill { id: SkillId(2), label: SkillLabel("b".into()) };
    insert_skill_into_hashmap(&mut db, b.clone()).unwrap();
    let c = add_skill(&mut db, SkillId(3), SkillLabel("c".into())).unwrap();
    assert_eq!(a, Skill { id: SkillId(1), label: SkillLabel("a".into()) });
    assert_eq!(
        find_skills_in_hashmap(&db, PageNumber(0), PageSize(2)).unwrap(),
        vec![a, b]
    );
    assert_eq!(find_skills_in_hashmap(&db, PageNumber(1), PageSize(2)).unwrap(), vec![c]);
}

#[test]
fn ids_of_odd_texts_are_refused_without_a_crash() {
    for text in [
        "936da01f-9abd-4d9d-80c7-02af85c822a",
        "936da01f-9abd-4d9d-80c7-02af85c822a8a",
        "936da01f9abd-4d9d-80c7-02af85c822a8a",
        "936da01f-9abd-4d9d-80c7-02af85c822g8",
        "------------------------------------",
        "936da01f-9abd-4d9d-80c7-02af85c822é",
        "ééééééééééééééééé",
        "urn:uuid:",
        "{936da01f-9abd-4d9d-80c7-02af85c822a8}",
        " 936da01f-9abd-4d9d-80c7-02af85c822a8",
    ] {
        assert!(matches!(SkillId::parse(text), Err(Error::Validation(_))), "{:?}", text);
    }
}

#[test]
fn ids_are_read_in_the_three_written_forms() {
    let id = SkillId(0x936DA01F9ABD4D9D80C702AF85C822A8);
    assert_eq!(SkillId::parse("936da01f9abd4d9d80c702af85c822a8"), Ok(id));
    assert_eq!(SkillId::parse("urn:uuid:936da01f-9abd-4d9d-80c7-02af85c822a8"), Ok(id));
    assert_eq!(SkillId::parse("936DA01F-9abd-4d9d-80c7-02af85c822a8"), Ok(id));
}

#[test]
fn answer_of_the_id_parser_becomes_an_id_or_a_validation_error() {
    assert_eq!(id_from_parse(Ok(7)), Ok(7));
    let refused = uuid::Uuid::parse_str("seven").map(|id| id.as_u128());
    match id_from_parse(refused) {
        Err(Error::Validation(reason)) => assert!(!reason.is_empty()),
        other => panic!("unexpected answer: {:?}", other),
    }
    assert_eq!(parse_id("00000000-0000-0000-0000-000000000007"), Ok(7));
}

#[test]
fn answer_of_the_date_parser_becomes_a_date_or_a_validation_error() {
    assert_eq!(
        date_from_parse(Ok((2023, 1, 31))),
        Ok(Date { year: 2023, month: 1, day: 31 })
    );
    let refused = time::Date::parse("soon", "%F").map(|d| (d.year(), d.month(), d.day()));
    match date_from_parse(refused) {
        Err(Error::Validation(reason)) => assert!(!reason.is_empty()),
        other => panic!("unexpected answer: {:?}", other),
    }
}
