//! The state of the terminal screen: which tab is open, what is being typed,
//! what a key does and what the open tab lists. Drawing and reading keys are
//! left to the caller.

use vstd::prelude::*;
use vstd::string::{StrSliceExecFns, StringExecFns};
use crate::employees::{
    AddEmployee, AddEmployeeRequest, EmailAddress, EmployeeView, FirstName, LastName,
    TelephoneNumber, Title,
};
use crate::error::Error;
use crate::in_memory::InMemoryApi;
use crate::projects::{AddProject, ProjectDescription, ProjectLabel, ProjectView};
use crate::skills::{AddSkill, SkillLabel, SkillView};
use crate::store::{inserted, values};

verus! {

/// The rows that the tabs take.
pub const HEADER_SIZE: u16 = 3;

/// The rows that the input field takes.
pub const INPUT_FIELD_SIZE: u16 = 1;

/// The rows that the line of hints takes.
pub const HOTKEY_HELP_SIZE: u16 = 1;

/// The rows that the list takes at least.
pub const LIST_MIN_SIZE: u16 = 20;

/// A tab of the screen.
#[derive(Debug, Clone, Copy, PartialEq, Eq)]
pub enum Header {
    Skills,
    Projects,
    Employees,
}

impl Header {
    /// The place of the tab among the tabs shown.
    pub open spec fn place(&self) -> usize {
        match self {
            Header::Skills => 2,
            Header::Projects => 1,
            Header::Employees => 0,
        }
    }

    /// The name of the tab.
    pub open spec fn name(&self) -> Seq<char> {
        match self {
            Header::Employees => "Employees"@,
            Header::Projects => "Projects"@,
            Header::Skills => "Skills"@,
        }
    }

    /// What the tab shows as its title: its name, with the key that opens
    /// it in brackets.
    pub open spec fn caption(&self) -> Seq<char> {
        match self {
            Header::Employees => "[E]mployees"@,
            Header::Projects => "[P]rojects"@,
            Header::Skills => "[S]kills"@,
        }
    }

    /// What stands before the text that is typed for a new record.
    pub open spec fn prompt(&self) -> Seq<char> {
        match self {
            Header::Skills => "New Skill: "@,
            Header::Projects => "New Project: "@,
            Header::Employees => "New Employee: "@,
        }
    }

    /// The place of the tab among the tabs shown: employees, projects, skills.
    pub fn ix(&self) -> (i: usize)
        ensures
            i == self.place(),
            i < 3,
    {
        match self {
            Header::Skills => 2,
            Header::Projects => 1,
            Header::Employees => 0,
        }
    }

    /// The tab that is shown at place `i`, if `i` is the place of a tab.
    pub fn at(i: usize) -> (tab: Option<Header>)
        ensures
            match tab {
                Some(header) => header.place() == i,
                None => i >= 3,
            },
    {
        if i == 0 {
            Some(Header::Employees)
        } else if i == 1 {
            Some(Header::Projects)
        } else if i == 2 {
            Some(Header::Skills)
        } else {
            None
        }
    }

    /// What the tab shows as its title.
    pub fn title(&self) -> (text: &'static str)
        ensures
            text@ == self.caption(),
    {
        match self {
            Header::Employees => "[E]mployees",
            Header::Projects => "[P]rojects",
            Header::Skills => "[S]kills",
        }
    }

    /// The name of the tab.
    pub fn to_string(&self) -> (text: String)
        ensures
            text@ == self.name(),
    {
        match self {
            Header::Employees => "Employees".to_owned(),
            Header::Projects => "Projects".to_owned(),
            Header::Skills => "Skills".to_owned(),
        }
    }
}

/// The list that a tab shows.
#[derive(Debug, PartialEq, Eq)]
pub struct List {
    pub title: String,
    pub data: Vec<String>,
}

impl List {
    /// The list of `data` under the name of the open tab.
    pub fn new(data: Vec<String>, state: &State) -> (list: Self)
        ensures
            list.data == data,
            list.title@ == state.open_tab.name(),
    {
        List { data, title: state.open_tab.to_string() }
    }
}

/// The field in which a new record is typed.
#[derive(Debug, Clone, Copy)]
pub struct InputField<'a> {
    pub input: &'a str,
    pub open_tab: Header,
}

impl<'a> InputField<'a> {
    /// The field for `input` on the tab `open_tab`.
    pub fn new(input: &'a str, open_tab: Header) -> (field: Self)
        ensures
            field.input == input,
            field.open_tab == open_tab,
    {
        InputField { input, open_tab }
    }

    /// What stands before the text that is typed.
    pub fn prefix(&self) -> (text: &'static str)
        ensures
            text@ == self.open_tab.prompt(),
    {
        match self.open_tab {
            Header::Skills => "New Skill: ",
            Header::Projects => "New Project: ",
            Header::Employees => "New Employee: ",
        }
    }

    /// Where the cursor stands when the field is drawn in a row that begins
    /// at column `left` of row `top`: behind the prompt and the text, and no
    /// further right than the last column that can be named.
    pub fn cursor(&self, left: u16, top: u16) -> (at: (u16, u16))
        ensures
            at.1 == top,
            at.0 == cursor_column(left, self.open_tab.prompt().len(), self.input@.len()),
    {
        let prompt_len = self.prefix().unicode_len();
        let input_len = self.input.unicode_len();
        let room: usize = (u16::MAX - left) as usize;
        if prompt_len > room || input_len > room - prompt_len {
            (u16::MAX, top)
        } else {
            let width: usize = prompt_len + input_len;
            (left + (width as u16), top)
        }
    }
}

/// The column `left + prompt + input`, or the last column where that is
/// beyond it.
pub open spec fn cursor_column(left: u16, prompt: nat, input: nat) -> u16 {
    if left + prompt + input > u16::MAX {
        u16::MAX
    } else {
        (left + prompt + input) as u16
    }
}

/// A key, as far as the screen tells keys apart.
#[derive(Debug, Clone, Copy, PartialEq, Eq)]
pub enum Key {
    Backspace,
    Esc,
    Char(char),
    Other,
}

/// Whether the screen lists records or takes the text of a new one.
#[derive(Debug, PartialEq, Eq)]
pub enum InputMode {
    List,
    Input(String),
}

/// The value of an input mode.
pub ghost enum InputModeView {
    List,
    Input(Seq<char>),
}

impl View for InputMode {
    type V = InputModeView;

    open spec fn view(&self) -> InputModeView {
        match self {
            InputMode::List => InputModeView::List,
            InputMode::Input(text) => InputModeView::Input(text@),
        }
    }
}

/// The state of the screen.
#[derive(Debug, PartialEq, Eq)]
pub struct State {
    pub open_tab: Header,
    pub mode: InputMode,
}

/// The value of a state.
pub ghost struct StateView {
    pub open_tab: Header,
    pub mode: InputModeView,
}

impl View for State {
    type V = StateView;

    open spec fn view(&self) -> StateView {
        StateView { open_tab: self.open_tab, mode: self.mode@ }
    }
}

/// What the caller is to do after a key.
#[derive(Debug, PartialEq, Eq)]
pub enum Effect {
    SendInput(String),
    Quit,
}

/// The value of an effect.
pub ghost enum EffectView {
    SendInput(Seq<char>),
    Quit,
}

impl View for Effect {
    type V = EffectView;

    open spec fn view(&self) -> EffectView {
        match self {
            Effect::SendInput(text) => EffectView::SendInput(text@),
            Effect::Quit => EffectView::Quit,
        }
    }
}

/// The state after `key` was pressed in the state `s`.
pub open spec fn state_after(s: StateView, key: Key) -> StateView {
    match s.mode {
        InputModeView::Input(text) => match key {
            Key::Esc => StateView { mode: InputModeView::List, ..s },
            Key::Backspace => StateView {
                mode: InputModeView::Input(
                    if text.len() > 0 {
                        text.drop_last()
                    } else {
                        text
                    },
                ),
                ..s
            },
            Key::Char(c) => if c == '\n' {
                StateView { mode: InputModeView::List, ..s }
            } else {
                StateView { mode: InputModeView::Input(text.push(c)), ..s }
            },
            Key::Other => s,
        },
        InputModeView::List => match key {
            Key::Char(c) => if c == 'p' {
                StateView { open_tab: Header::Projects, ..s }
            } else if c == 's' {
                StateView { open_tab: Header::Skills, ..s }
            } else if c == 'e' {
                StateView { open_tab: Header::Employees, ..s }
            } else if c == '+' {
                StateView { mode: InputModeView::Input(Seq::empty()), ..s }
            } else {
                s
            },
            _ => s,
        },
    }
}

/// What the caller is to do after `key` was pressed in the state `s`.
pub open spec fn effects_after(s: StateView, key: Key) -> Seq<EffectView> {
    match s.mode {
        InputModeView::Input(text) => if key == Key::Char('\n') {
            seq![EffectView::SendInput(text)]
        } else {
            Seq::empty()
        },
        InputModeView::List => if key == Key::Esc {
            seq![EffectView::Quit]
        } else {
            Seq::empty()
        },
    }
}

/// `String::push`: the character is appended.
#[verifier::external_body]
fn push_char(text: &mut String, c: char)
    ensures
        final(text)@ == old(text)@.push(c),
{
    text.push(c)
}

/// `String::pop`: the last character is removed, if there is one.
#[verifier::external_body]
fn pop_char(text: &mut String)
    ensures
        final(text)@ == (if old(text)@.len() > 0 {
            old(text)@.drop_last()
        } else {
            old(text)@
        }),
{
    let _ = text.pop();
}

impl Default for State {
    fn default() -> (state: Self)
        ensures
            state@ == (StateView { open_tab: Header::Employees, mode: InputModeView::List }),
    {
        State { open_tab: Header::Employees, mode: InputMode::List }
    }
}

impl State {
    /// Takes a key: the state changes as `state_after` says, and the caller
    /// is handed what `effects_after` says.
    pub fn handle_input(&mut self, key: Key) -> (out: Result<Vec<Effect>, Error>)
        ensures
            final(self)@ == state_after(old(self)@, key),
            match out {
                Ok(effects) => values(effects@) == effects_after(old(self)@, key),
                Err(_) => false,
            },
    {
        let mut effects: Vec<Effect> = Vec::new();
        assert(values(effects@) =~= Seq::empty());
        match &mut self.mode {
            InputMode::Input(input) => match key {
                Key::Esc => {
                    self.mode = InputMode::List;
                },
                Key::Backspace => {
                    pop_char(input);
                },
                Key::Char(c) => {
                    if c == '\n' {
                        let sent = Effect::SendInput(input.clone());
                        effects.push(sent);
                        assert(values(effects@) =~= seq![sent@]);
                        self.mode = InputMode::List;
                    } else {
                        push_char(input, c);
                    }
                },
                Key::Other => {},
            },
            InputMode::List => match key {
                Key::Char(c) => {
                    if c == 'p' {
                        self.open_tab = Header::Projects;
                    } else if c == 's' {
                        self.open_tab = Header::Skills;
                    } else if c == 'e' {
                        self.open_tab = Header::Employees;
                    } else if c == '+' {
                        self.mode = InputMode::Input(String::new());
                    }
                },
                Key::Esc => {
                    effects.push(Effect::Quit);
                    assert(values(effects@) =~= seq![EffectView::Quit]);
                },
                _ => {},
            },
        }
        Ok(effects)
    }
}

/// A row of the screen: so many lines, or at least so many.
#[derive(Debug, Clone, Copy, PartialEq, Eq)]
pub enum Row {
    Length(u16),
    Min(u16),
}

/// The rows of the screen from top to bottom: the tabs, the list, the input
/// field while something is typed, and the hints.
pub open spec fn rows_of(mode: InputModeView) -> Seq<Row> {
    match mode {
        InputModeView::List => seq![
            Row::Length(HEADER_SIZE),
            Row::Min(LIST_MIN_SIZE),
            Row::Length(HOTKEY_HELP_SIZE),
        ],
        InputModeView::Input(_) => seq![
            Row::Length(HEADER_SIZE),
            Row::Min(LIST_MIN_SIZE),
            Row::Length(INPUT_FIELD_SIZE),
            Row::Length(HOTKEY_HELP_SIZE),
        ],
    }
}

/// The rows of the screen from top to bottom.
pub fn layout(mode: &InputMode) -> (rows: Vec<Row>)
    ensures
        rows@ == rows_of(mode@),
{
    let mut rows: Vec<Row> = Vec::new();
    rows.push(Row::Length(HEADER_SIZE));
    rows.push(Row::Min(LIST_MIN_SIZE));
    match mode {
        InputMode::List => {},
        InputMode::Input(_) => {
            rows.push(Row::Length(INPUT_FIELD_SIZE));
        },
    }
    rows.push(Row::Length(HOTKEY_HELP_SIZE));
    assert(rows@ =~= rows_of(mode@));
    rows
}

/// The row that holds the hints: the last one.
pub fn hotkey_row(mode: &InputMode) -> (row: usize)
    ensures
        row == rows_of(mode@).len() - 1,
{
    match mode {
        InputMode::List => 2,
        InputMode::Input(_) => 3,
    }
}

/// The line that the list shows for a skill.
pub open spec fn skill_line(skill: SkillView) -> Seq<char> {
    skill.label + "\n"@
}

/// The line that the list shows for a project.
pub open spec fn project_line(project: ProjectView) -> Seq<char> {
    project.label + "\n"@
}

/// The line that the list shows for an employee.
pub open spec fn employee_line(employee: EmployeeView) -> Seq<char> {
    employee.first_name + " "@ + employee.last_name + "\n"@
}

/// The lines that the open tab shows, as values.
pub open spec fn lines_of(open_tab: Header, db: &InMemoryApi) -> Seq<Seq<char>> {
    match open_tab {
        Header::Skills => db.skills@.map_values(|r: SkillView| skill_line(r)),
        Header::Projects => db.projects@.map_values(|r: ProjectView| project_line(r)),
        Header::Employees => db.employees@.map_values(|r: EmployeeView| employee_line(r)),
    }
}

/// The lines that the open tab shows: one for each record of its store, in
/// the order of the store.
pub fn retrieve_data(state: &State, db: &InMemoryApi) -> (lines: Vec<String>)
    ensures
        lines@.map_values(|line: String| line@) == lines_of(state.open_tab, db),
{
    let mut lines: Vec<String> = Vec::new();
    match state.open_tab {
        Header::Skills => {
            let n = db.skills.0.len();
            let mut i: usize = 0;
            while i < n
                invariant
                    i <= n,
                    n == db.skills.0.records.len(),
                    lines@.len() == i,
                    forall|j: int|
                        0 <= j < i ==> (#[trigger] lines@[j])@ == skill_line(db.skills@[j]),
                decreases n - i,
            {
                let record = &db.skills.0.records[i];
                assert(db.skills@[i as int] == record@);
                lines.push(record.label.0.clone().concat("\n"));
                i += 1;
            }
        },
        Header::Projects => {
            let n = db.projects.0.len();
            let mut i: usize = 0;
            while i < n
                invariant
                    i <= n,
                    n == db.projects.0.records.len(),
                    lines@.len() == i,
                    forall|j: int|
                        0 <= j < i ==> (#[trigger] lines@[j])@ == project_line(db.projects@[j]),
                decreases n - i,
            {
                let record = &db.projects.0.records[i];
                assert(db.projects@[i as int] == record@);
                lines.push(record.label.0.clone().concat("\n"));
                i += 1;
            }
        },
        Header::Employees => {
            let n = db.employees.0.len();
            let mut i: usize = 0;
            while i < n
                invariant
                    i <= n,
                    n == db.employees.0.records.len(),
                    lines@.len() == i,
                    forall|j: int|
                        0 <= j < i ==> (#[trigger] lines@[j])@ == employee_line(db.employees@[j]),
                decreases n - i,
            {
                let record = &db.employees.0.records[i];
                assert(db.employees@[i as int] == record@);
                lines.push(
                    record.first_name.0.clone().concat(" ").concat(
                        record.last_name.0.as_str(),
                    ).concat("\n"),
                );
                i += 1;
            }
        },
    }
    assert(lines@.map_values(|line: String| line@) =~= lines_of(state.open_tab, db));
    lines
}

/// Whether a character is white space, as `char::is_whitespace` tells.
pub uninterp spec fn is_space(c: char) -> bool;

/// `char::is_whitespace`: the answer depends on the character alone and is
/// called `is_space(c)`.
#[verifier::external_body]
fn is_whitespace(c: char) -> (space: bool)
    ensures
        space == is_space(c),
{
    c.is_whitespace()
}

/// `s` without the white space it begins with.
pub open spec fn trimmed_start(s: Seq<char>) -> Seq<char>
    decreases s.len(),
{
    if s.len() > 0 && is_space(s[0]) {
        trimmed_start(s.drop_first())
    } else {
        s
    }
}

/// How many characters stand in `s` before its first white space.
pub open spec fn word_len(s: Seq<char>) -> nat
    decreases s.len(),
{
    if s.len() > 0 && !is_space(s[0]) {
        1 + word_len(s.drop_first())
    } else {
        0
    }
}

/// `s` without its white space.
pub open spec fn squeezed(s: Seq<char>) -> Seq<char>
    decreases s.len(),
{
    if s.len() == 0 {
        s
    } else if is_space(s[0]) {
        squeezed(s.drop_first())
    } else {
        seq![s[0]] + squeezed(s.drop_first())
    }
}

/// The first word of `s`.
pub open spec fn first_word(s: Seq<char>) -> Seq<char> {
    let t = trimmed_start(s);
    t.take(word_len(t) as int)
}

/// The words of `s` after the first, written one behind the other.
pub open spec fn later_words(s: Seq<char>) -> Seq<char> {
    let t = trimmed_start(s);
    squeezed(t.skip(word_len(t) as int))
}

/// The first word of `input` and its later words, written one behind the
/// other.
pub fn split_name(input: &str) -> (names: (String, String))
    ensures
        names.0@ == first_word(input@),
        names.1@ == later_words(input@),
{
    let n = input.unicode_len();
    let ghost s = input@;
    let mut i: usize = 0;
    assert(s.skip(0) =~= s);
    while i < n && is_whitespace(input.get_char(i))
        invariant
            i <= n,
            n == s.len(),
            s == input@,
            trimmed_start(s) == trimmed_start(s.skip(i as int)),
        decreases n - i,
    {
        assert(s.skip(i as int).drop_first() =~= s.skip(i + 1));
        i += 1;
    }
    let ghost t = s.skip(i as int);
    assert(trimmed_start(s) == t);
    let start = i;
    let mut first = String::new();
    while i < n && !is_whitespace(input.get_char(i))
        invariant
            start <= i <= n,
            n == s.len(),
            s == input@,
            t == s.skip(start as int),
            word_len(t) == (i - start) + word_len(s.skip(i as int)),
            first@ == s.subrange(start as int, i as int),
        decreases n - i,
    {
        assert(s.skip(i as int).drop_first() =~= s.skip(i + 1));
        push_char(&mut first, input.get_char(i));
        assert(first@ =~= s.subrange(start as int, i + 1));
        i += 1;
    }
    assert(word_len(t) == i - start);
    assert(first@ =~= t.take(word_len(t) as int));
    let ghost rest = t.skip(word_len(t) as int);
    assert(rest =~= s.skip(i as int));
    let mut later = String::new();
    assert(later@ + squeezed(s.skip(i as int)) =~= squeezed(rest));
    while i < n
        invariant
            i <= n,
            n == s.len(),
            s == input@,
            later@ + squeezed(s.skip(i as int)) == squeezed(rest),
        decreases n - i,
    {
        assert(s.skip(i as int).drop_first() =~= s.skip(i + 1));
        let c = input.get_char(i);
        let ghost before = later@;
        if !is_whitespace(c) {
            push_char(&mut later, c);
            assert(later@ + squeezed(s.skip(i + 1)) =~= before + (seq![c] + squeezed(
                s.skip(i + 1),
            )));
        }
        i += 1;
    }
    assert(later@ =~= squeezed(rest));
    (first, later)
}

/// What creating the employee that `input` names does to the employees
/// `before`, leaving `after`: an input without a word is refused and nothing
/// changes; else the first word is the first name and the later words
/// together the last name of an employee of whom nothing else is known.
pub open spec fn employee_created(
    before: Seq<EmployeeView>,
    input: Seq<char>,
    out: Result<(), Error>,
    after: Seq<EmployeeView>,
) -> bool {
    if first_word(input).len() == 0 {
        &&& out matches Err(Error::Other(reason))
        &&& reason@ == "Empty first name"@
        &&& after == before
    } else {
        &&& out is Ok
        &&& exists|added: EmployeeView|
            {
                &&& #[trigger] inserted(before, added) == after
                &&& added.first_name == first_word(input)
                &&& added.last_name == later_words(input)
                &&& added.title.len() == 0
                &&& added.email.len() == 0
                &&& added.telephone.len() == 0
                &&& added.skills.len() == 0
                &&& added.projects.len() == 0
            }
    }
}

/// Adds the employee that `input` names. An input without a word is
/// refused, and nothing changes.
pub fn create_employee(db: &mut InMemoryApi, input: String) -> (out: Result<(), Error>)
    ensures
        employee_created(old(db).employees@, input@, out, final(db).employees@),
        final(db).skills == old(db).skills,
        final(db).projects == old(db).projects,
        old(db).wf() ==> final(db).wf(),
{
    let (first_name, last_name) = split_name(input.as_str());
    if first_name.as_str().unicode_len() == 0 {
        return Err(Error::Other("Empty first name".to_owned()));
    }
    let request = AddEmployeeRequest {
        first_name: FirstName(first_name),
        last_name: LastName(last_name),
        title: Title(String::new()),
        email: EmailAddress(String::new()),
        telephone: TelephoneNumber(String::new()),
    };
    match db.employees.add(request) {
        Ok(employee) => {
            assert(inserted(old(db).employees@, employee@) == db.employees@);
            Ok(())
        },
        Err(e) => Err(e),
    }
}

/// What sending `input` on the tab `open_tab` does to the stores.
pub open spec fn input_sent(
    before: &InMemoryApi,
    open_tab: Header,
    input: Seq<char>,
    out: Result<(), Error>,
    after: &InMemoryApi,
) -> bool {
    match open_tab {
        Header::Skills => {
            &&& out is Ok
            &&& exists|added: SkillView|
                {
                    &&& #[trigger] inserted(before.skills@, added) == after.skills@
                    &&& added.label == input
                }
            &&& after.projects == before.projects
            &&& after.employees == before.employees
        },
        Header::Projects => {
            &&& out is Ok
            &&& exists|added: ProjectView|
                {
                    &&& #[trigger] inserted(before.projects@, added) == after.projects@
                    &&& added.label == input
                    &&& added.description.len() == 0
                }
            &&& after.skills == before.skills
            &&& after.employees == before.employees
        },
        Header::Employees => {
            &&& employee_created(before.employees@, input, out, after.employees@)
            &&& after.skills == before.skills
            &&& after.projects == before.projects
        },
    }
}

/// Adds the record that `input` describes to the store of the open tab: a
/// skill or a project with that label, or the employee of that name.
pub fn send_input(db: &mut InMemoryApi, open_tab: Header, input: String) -> (out: Result<
    (),
    Error,
>)
    ensures
        input_sent(old(db), open_tab, input@, out, final(db)),
        old(db).wf() ==> final(db).wf(),
{
    match open_tab {
        Header::Skills => {
            match db.skills.add(SkillLabel(input)) {
                Ok(skill) => {
                    assert(inserted(old(db).skills@, skill@) == db.skills@);
                    Ok(())
                },
                Err(e) => Err(e),
            }
        },
        Header::Employees => create_employee(db, input),
        Header::Projects => {
            match db.projects.add(ProjectLabel(input), ProjectDescription(String::new())) {
                Ok(project) => {
                    assert(inserted(old(db).projects@, project@) == db.projects@);
                    Ok(())
                },
                Err(e) => Err(e),
            }
        },
    }
}

} // verus!
