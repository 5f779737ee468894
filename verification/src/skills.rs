//! Skills and the store that keeps them.

use vstd::prelude::*;
use crate::error::Error;
use crate::ident::{format_id, parse_id, random_id, uuid_parsed, uuid_text};
use crate::store::{inserted, lookup, removed, window, values, EntityStore, Keyed, Record};

verus! {

/// The identifier of a skill.
#[derive(Debug, Clone, Copy, PartialEq, Eq, PartialOrd, Ord, Hash)]
pub struct SkillId(pub u128);

impl SkillId {
    /// Reads an identifier from its text.
    pub fn parse(text: &str) -> (out: Result<SkillId, Error>)
        ensures
            match uuid_parsed(text@) {
                Some(id) => out == Ok::<SkillId, Error>(SkillId(id)),
                None => out matches Err(Error::Validation(_)),
            },
    {
        match parse_id(text) {
            Ok(id) => Ok(SkillId(id)),
            Err(e) => Err(e),
        }
    }

    /// The text of the identifier.
    pub fn to_string(&self) -> (text: String)
        ensures
            text@ == uuid_text(self.0),
    {
        format_id(self.0)
    }
}

/// The name of a skill.
#[derive(Debug, PartialEq, Eq, PartialOrd, Ord, Hash)]
pub struct SkillLabel(pub String);

impl View for SkillLabel {
    type V = Seq<char>;

    open spec fn view(&self) -> Seq<char> {
        self.0@
    }
}

impl Clone for SkillLabel {
    fn clone(&self) -> (copy: Self)
        ensures
            copy@ == self@,
    {
        SkillLabel(self.0.clone())
    }
}

/// A skill that employees may have.
#[derive(Debug, PartialEq, Eq, PartialOrd, Ord, Hash)]
pub struct Skill {
    pub id: SkillId,
    pub label: SkillLabel,
}

/// The value of a skill.
pub ghost struct SkillView {
    pub id: u128,
    pub label: Seq<char>,
}

impl View for Skill {
    type V = SkillView;

    open spec fn view(&self) -> SkillView {
        SkillView { id: self.id.0, label: self.label@ }
    }
}

impl Keyed for SkillView {
    type Key = u128;

    open spec fn key(&self) -> u128 {
        self.id
    }
}

impl Record for Skill {
    fn key_value(&self) -> (k: u128) {
        self.id.0
    }

    fn duplicate(&self) -> (copy: Self) {
        Skill { id: self.id, label: self.label.clone() }
    }
}

impl Clone for Skill {
    fn clone(&self) -> (copy: Self)
        ensures
            copy@ == self@,
    {
        self.duplicate()
    }
}

/// Which page of a listing is asked for, counted from 0.
#[derive(Debug, Clone, Copy, PartialEq, Eq)]
pub struct PageNumber(pub usize);

impl Default for PageNumber {
    fn default() -> (page: Self)
        ensures
            page.0 == 0,
    {
        PageNumber(0)
    }
}

/// How many records a page of a listing holds.
#[derive(Debug, Clone, Copy, PartialEq, Eq)]
pub struct PageSize(pub usize);

impl Default for PageSize {
    fn default() -> (size: Self)
        ensures
            size.0 == 10,
    {
        PageSize(10)
    }
}

/// Adds a skill under a fresh identifier.
pub trait AddSkill {
    fn add(&mut self, skill_label: SkillLabel) -> Result<Skill, Error>;
}

/// Lists skills.
pub trait FindSkills {
    fn find(&self) -> Result<Vec<Skill>, Error>;
}

/// Reads one skill.
pub trait GetSkillById {
    fn get(&self, skill_id: SkillId) -> Result<Option<Skill>, Error>;
}

/// Removes one skill.
pub trait DeleteSkillById {
    fn delete(&mut self, skill_id: SkillId) -> Result<(), Error>;
}

/// The skills, in the order in which they were added.
#[derive(Debug)]
pub struct SkillDb(pub EntityStore<Skill>);

impl View for SkillDb {
    type V = Seq<SkillView>;

    open spec fn view(&self) -> Seq<SkillView> {
        self.0@
    }
}

impl Default for SkillDb {
    fn default() -> (db: Self)
        ensures
            db@ == Seq::<SkillView>::empty(),
            db.wf(),
    {
        SkillDb(EntityStore::new())
    }
}

impl SkillDb {
    /// No identifier occurs twice.
    pub open spec fn wf(&self) -> bool {
        self.0.wf()
    }

    /// Stores a skill with the given identifier and label, and returns it. A
    /// skill that had the identifier is replaced.
    pub fn add_with_id(&mut self, id: SkillId, label: SkillLabel) -> (skill: Skill)
        ensures
            skill@ == (SkillView { id: id.0, label: label@ }),
            final(self)@ == inserted(old(self)@, skill@),
            old(self).wf() ==> final(self).wf(),
    {
        let skill = Skill { id, label };
        self.0.insert(skill.duplicate());
        skill
    }

    /// The skills of one page: those from place `page * size` on, at most
    /// `size` of them. A missing page number is 0, a missing size 10.
    pub fn find_page(&self, page: Option<PageNumber>, size: Option<PageSize>) -> (out: Result<
        Vec<Skill>,
        Error,
    >)
        ensures
            match out {
                Ok(skills) => values(skills@) == window(
                    self@,
                    (page_or_default(page) * size_or_default(size)) as nat,
                    size_or_default(size),
                ),
                Err(_) => false,
            },
    {
        let page: usize = match page {
            Some(p) => p.0,
            None => PageNumber::default().0,
        };
        let size: usize = match size {
            Some(s) => s.0,
            None => PageSize::default().0,
        };
        match page.checked_mul(size) {
            Some(skip) => Ok(self.0.page(skip, size)),
            None => {
                let n = self.0.len();
                assert(page * size > n);
                let out: Vec<Skill> = Vec::new();
                assert(values(out@) =~= Seq::<SkillView>::empty());
                Ok(out)
            },
        }
    }
}

/// The page number asked for, 0 where none is given.
pub open spec fn page_or_default(page: Option<PageNumber>) -> nat {
    match page {
        Some(p) => p.0 as nat,
        None => 0,
    }
}

/// The page size asked for, 10 where none is given.
pub open spec fn size_or_default(size: Option<PageSize>) -> nat {
    match size {
        Some(s) => s.0 as nat,
        None => 10,
    }
}

impl AddSkill for SkillDb {
    /// Stores a skill with the given label under a random identifier, and
    /// returns it.
    fn add(&mut self, skill_label: SkillLabel) -> (out: Result<Skill, Error>)
        ensures
            match out {
                Ok(skill) => skill@.label == skill_label@ && final(self)@ == inserted(
                    old(self)@,
                    skill@,
                ),
                Err(_) => false,
            },
            old(self).wf() ==> final(self).wf(),
    {
        Ok(self.add_with_id(SkillId(random_id()), skill_label))
    }
}

impl FindSkills for SkillDb {
    /// The first page of skills: the first ten.
    fn find(&self) -> (out: Result<Vec<Skill>, Error>)
        ensures
            match out {
                Ok(skills) => values(skills@) == window(self@, 0, 10),
                Err(_) => false,
            },
    {
        self.find_page(None, None)
    }
}

impl GetSkillById for SkillDb {
    /// The skill stored under `skill_id`, if any.
    fn get(&self, skill_id: SkillId) -> (out: Result<Option<Skill>, Error>)
        ensures
            match out {
                Ok(Some(skill)) => lookup(self@, skill_id.0) == Some(skill@),
                Ok(None) => lookup(self@, skill_id.0).is_none(),
                Err(_) => false,
            },
    {
        Ok(self.0.get(skill_id.0))
    }
}

impl DeleteSkillById for SkillDb {
    /// Removes the skill stored under `skill_id`; where there is none,
    /// nothing changes.
    fn delete(&mut self, skill_id: SkillId) -> (out: Result<(), Error>)
        ensures
            out.is_ok(),
            final(self)@ == removed(old(self)@, skill_id.0),
            old(self).wf() ==> final(self).wf(),
    {
        self.0.remove(skill_id.0);
        Ok(())
    }
}

/// Makes the skill with the given identifier and label and stores it.
pub fn add_skill(store: &mut SkillDb, id: SkillId, label: SkillLabel) -> (out: Result<Skill, String>)
    ensures
        match out {
            Ok(skill) => skill@ == (SkillView { id: id.0, label: label@ }) && final(store)@
                == inserted(old(store)@, skill@),
            Err(_) => false,
        },
        old(store).wf() ==> final(store).wf(),
{
    let skill = Skill { id, label };
    match insert_skill_into_hashmap(store, skill.clone()) {
        Ok(_) => Ok(skill),
        Err(e) => Err(e),
    }
}

/// Stores a skill under its identifier.
pub fn insert_skill_into_hashmap(store: &mut SkillDb, skill: Skill) -> (out: Result<(), String>)
    ensures
        out is Ok,
        final(store)@ == inserted(old(store)@, skill@),
        old(store).wf() ==> final(store).wf(),
{
    store.0.insert(skill);
    Ok(())
}

/// The skills of one page: those from place `page_number * page_size` on, at
/// most `page_size` of them.
pub fn find_skills_in_hashmap(store: &SkillDb, page_number: PageNumber, page_size: PageSize) -> (out:
    Result<Vec<Skill>, String>)
    ensures
        match out {
            Ok(skills) => values(skills@) == window(
                store@,
                (page_number.0 * page_size.0) as nat,
                page_size.0 as nat,
            ),
            Err(_) => false,
        },
{
    match store.find_page(Some(page_number), Some(page_size)) {
        Ok(skills) => Ok(skills),
        Err(e) => Err(e.to_string()),
    }
}

} // verus!
