//! Skills: instructions kept in `SKILL.md` files whose YAML front matter names and
//! describes them. Here: splitting a skill file, listing skills for the system prompt,
//! and inserting a skill's text when the user invokes it by name.
use vstd::prelude::*;
use vstd::string::StringExecFns;

use crate::text::{
    chars_of, find_from, lemma_find_first, matches_at, matches_at_exec, string_from_chars, trim,
    trim_str,
};

verus! {

/// A skill found on disk.
#[derive(Debug)]
pub struct Skill {
    pub base_path: String,
    pub full: String,
    pub name: String,
    pub description: String,
    pub disable_model_invocation: bool,
    pub body: String,
}

/// Mathematical value of a [`Skill`].
pub struct SkillView {
    pub base_path: Seq<char>,
    pub full: Seq<char>,
    pub name: Seq<char>,
    pub description: Seq<char>,
    pub disable_model_invocation: bool,
    pub body: Seq<char>,
}

impl View for Skill {
    type V = SkillView;

    open spec fn view(&self) -> SkillView {
        SkillView {
            base_path: self.base_path@,
            full: self.full@,
            name: self.name@,
            description: self.description@,
            disable_model_invocation: self.disable_model_invocation,
            body: self.body@,
        }
    }
}

impl Clone for Skill {
    fn clone(&self) -> (res: Self)
        ensures
            res@ == self@,
    {
        Skill {
            base_path: self.base_path.clone(),
            full: self.full.clone(),
            name: self.name.clone(),
            description: self.description.clone(),
            disable_model_invocation: self.disable_model_invocation,
            body: self.body.clone(),
        }
    }
}

/// The fields of a skill's front matter.
pub struct SkillYaml {
    pub name: String,
    pub description: String,
    pub disable_model_invocation: bool,
}

/// A skill file taken apart: the whole text, its front matter and its body.
pub struct SkillParsed {
    pub full: String,
    pub yaml: SkillYaml,
    pub body: String,
}

/// The name of the file that holds a skill.
pub const SKILL_MD: &'static str = "SKILL.md";

/// The two parts of a skill file: the front matter's text and the trimmed body.
pub struct FrontMatter {
    pub yaml: String,
    pub body: String,
}

/// Why a skill file cannot be taken apart.
#[derive(Debug, Clone, Copy, PartialEq, Eq, Structural)]
pub enum SkillFormatError {
    /// The file does not start with `---`.
    NoOpening,
    /// No line starting with `---` closes the front matter.
    NoClosing,
}

impl SkillFormatError {
    /// The message for this error.
    pub fn message(&self) -> (res: &'static str)
        ensures
            res@ == match self {
                SkillFormatError::NoOpening => "wrong md format: first!"@,
                SkillFormatError::NoClosing => "wrong md format: second!"@,
            },
    {
        match self {
            SkillFormatError::NoOpening => "wrong md format: first!",
            SkillFormatError::NoClosing => "wrong md format: second!",
        }
    }
}

/// What a skill file comes to: after the opening `---`, the front matter runs to the
/// first `\n---`; the body is what follows that, trimmed.
pub open spec fn split_skill(s: Seq<char>) -> Result<(Seq<char>, Seq<char>), SkillFormatError> {
    if !matches_at(s, "---"@, 0) {
        Err(SkillFormatError::NoOpening)
    } else {
        let rest = s.skip(3);
        match find_from(rest, "\n---"@, 0) {
            None => Err(SkillFormatError::NoClosing),
            Some(pos) => Ok((rest.take(pos), trim(rest.skip(pos + 4)))),
        }
    }
}

/// Finds the first position of `p` in `s` from `i` on.
pub fn find_chars(s: &[char], p: &[char], i: usize) -> (res: Option<usize>)
    requires
        i <= s@.len(),
    ensures
        match res {
            Some(k) => find_from(s@, p@, i as int) == Some(k as int) && k + p@.len() <= s@.len(),
            None => find_from(s@, p@, i as int) is None,
        },
{
    let n = s.len();
    let mut k = i;
    while k <= n
        invariant
            i <= k,
            n == s@.len(),
            find_from(s@, p@, i as int) == find_from(s@, p@, k as int),
        decreases n + 1 - k,
    {
        if p.len() > n - k {
            return None;
        }
        if p.len() == 0 {
            assert(s@.subrange(k as int, k as int) =~= p@);
            return Some(k);
        }
        if matches_at_exec(s, p, k) {
            return Some(k);
        }
        k = k + 1;
    }
    None
}

/// Takes a skill file apart into its front matter and its body.
pub fn split_skill_str(skill_str: &str) -> (res: Result<FrontMatter, SkillFormatError>)
    ensures
        match (res, split_skill(skill_str@)) {
            (Ok(fm), Ok((yaml, body))) => fm.yaml@ == yaml && fm.body@ == body,
            (Err(e), Err(f)) => e == f,
            _ => false,
        },
{
    let cs = chars_of(skill_str);
    let dashes = chars_of("---");
    proof {
        reveal_strlit("---");
        reveal_strlit("\n---");
    }
    if cs.len() < 3 || !matches_at_exec(cs.as_slice(), dashes.as_slice(), 0) {
        return Err(SkillFormatError::NoOpening);
    }
    let total = cs.len();
    let rest = &cs.as_slice()[3..total];
    assert(rest@ =~= cs@.skip(3));
    let closing = chars_of("\n---");
    match find_chars(rest, closing.as_slice(), 0) {
        None => Err(SkillFormatError::NoClosing),
        Some(pos) => {
            let yaml = string_from_chars(&rest[0..pos]);
            assert(rest@.subrange(0, pos as int) =~= rest@.take(pos as int));
            let rest_len = rest.len();
            let after = string_from_chars(&rest[pos + 4..rest_len]);
            assert(rest@.subrange(pos + 4, rest@.len() as int) =~= rest@.skip(pos + 4));
            let body = trim_str(after.as_str());
            Ok(FrontMatter { yaml, body })
        },
    }
}

impl SkillParsed {
    /// Gathers the parts of a skill file.
    pub fn new(full: String, yaml: SkillYaml, body: String) -> (res: Self)
        ensures
            res.full == full,
            res.yaml == yaml,
            res.body == body,
    {
        Self { full, yaml, body }
    }
}

/// One line of the skill listing.
pub open spec fn skill_line(s: SkillView) -> Seq<char> {
    "- ["@ + s.base_path + "] "@ + s.name + ": "@ + s.description
}

/// The lines of the skill listing, each ended by a line break but the last.
pub open spec fn skill_lines(skills: Seq<SkillView>) -> Seq<char>
    decreases skills.len(),
{
    if skills.len() == 0 {
        Seq::empty()
    } else if skills.len() == 1 {
        skill_line(skills[0])
    } else {
        skill_lines(skills.drop_last()) + "\n"@ + skill_line(skills.last())
    }
}

/// The listing of skills that opens the system prompt's skill section.
pub open spec fn skills_listing(skills: Seq<SkillView>) -> Seq<char> {
    "Available skills:\n\n"@ + skill_lines(skills)
        + "\n\nIf a user request matches any skill descriptions, load it first using `<base_path>/SKILL.md`."@
}

/// The values of a sequence of skills.
pub open spec fn skills_view(skills: Seq<Skill>) -> Seq<SkillView> {
    skills.map_values(|s: Skill| s@)
}

impl Skill {
    /// A skill from a parsed skill file and the directory it was found in.
    pub fn new(skill_parsed: SkillParsed, base_path: String) -> (res: Self)
        ensures
            res.base_path == base_path,
            res.full == skill_parsed.full,
            res.name == skill_parsed.yaml.name,
            res.description == skill_parsed.yaml.description,
            res.disable_model_invocation == skill_parsed.yaml.disable_model_invocation,
            res.body == skill_parsed.body,
    {
        Self {
            base_path,
            full: skill_parsed.full,
            name: skill_parsed.yaml.name,
            description: skill_parsed.yaml.description,
            disable_model_invocation: skill_parsed.yaml.disable_model_invocation,
            body: skill_parsed.body,
        }
    }

    /// The skill's line in the listing: `- [base path] name: description`.
    pub fn format(&self) -> (res: String)
        ensures
            res@ == skill_line(self@),
    {
        let mut res = String::from_str("- [");
        res.append(self.base_path.as_str());
        res.append("] ");
        res.append(self.name.as_str());
        res.append(": ");
        res.append(self.description.as_str());
        res
    }
}

/// The listing of `skills` for the system prompt.
pub fn format_skills(skills: &[Skill]) -> (res: String)
    requires
        skills@.len() > 0,
    ensures
        res@ == skills_listing(skills_view(skills@)),
{
    let mut lines = String::new();
    let n = skills.len();
    for i in 0..n
        invariant
            n == skills@.len(),
            lines@ == skill_lines(skills_view(skills@.take(i as int))),
    {
        proof {
            let t = skills_view(skills@.take(i + 1));
            assert(t.drop_last() =~= skills_view(skills@.take(i as int)));
            assert(t.last() == skills@[i as int]@);
            if i == 0 {
                assert(t.len() == 1);
                assert(lines@ =~= Seq::<char>::empty());
            }
        }
        if i > 0 {
            lines.append("\n");
        }
        let line = skills[i].format();
        lines.append(line.as_str());
        proof {
            if i == 0 {
                assert(lines@ =~= line@);
            }
        }
    }
    assert(skills@.take(n as int) =~= skills@);
    let mut res = String::from_str("Available skills:\n\n");
    res.append(lines.as_str());
    res.append(
        "\n\nIf a user request matches any skill descriptions, load it first using `<base_path>/SKILL.md`.",
    );
    res
}

/// The first skill of `skills` named `name`, if any.
pub open spec fn first_named(skills: Seq<SkillView>, name: Seq<char>) -> Option<SkillView>
    decreases skills.len(),
{
    if skills.len() == 0 {
        None
    } else if skills[0].name == name {
        Some(skills[0])
    } else {
        first_named(skills.drop_first(), name)
    }
}

/// The text that replaces a prompt invoking skill `s` with arguments `args`.
pub open spec fn invocation_text(s: SkillView, args: Seq<char>) -> Seq<char> {
    if args.len() == 0 {
        s.full
    } else {
        "[Manual skill invocation]\nAuto-inserting SKILL.md text:\n"@ + trim(s.full)
            + "\nARGUMENTS: "@ + trim(args)
    }
}

/// The text of the first skill named `name`, with the arguments appended when there are any.
pub fn manually_invoke_skill(skills: &[Skill], name: &str, args: &str) -> (res: Option<String>)
    ensures
        match first_named(skills_view(skills@), name@) {
            Some(s) => res matches Some(t) && t@ == invocation_text(s, args@),
            None => res is None,
        },
{
    let n = skills.len();
    let name_s = String::from_str(name);
    assert(skills@.skip(0) =~= skills@);
    for i in 0..n
        invariant
            n == skills@.len(),
            name_s@ == name@,
            first_named(skills_view(skills@), name@) == first_named(
                skills_view(skills@.skip(i as int)),
                name@,
            ),
    {
        proof {
            let r = skills_view(skills@.skip(i as int));
            assert(r[0] == skills@[i as int]@);
            assert(r.drop_first() =~= skills_view(skills@.skip(i + 1)));
        }
        let skill = &skills[i];
        if skill.name == name_s {
            if !args.is_empty() {
                let mut res = String::from_str(
                    "[Manual skill invocation]\nAuto-inserting SKILL.md text:\n",
                );
                let full = trim_str(skill.full.as_str());
                res.append(full.as_str());
                res.append("\nARGUMENTS: ");
                let a = trim_str(args);
                res.append(a.as_str());
                return Some(res);
            } else {
                return Some(skill.full.clone());
            }
        }
    }
    proof {
        assert(skills_view(skills@.skip(n as int)) =~= Seq::<SkillView>::empty());
    }
    None
}

} // verus!

verus! {

/// A skill file written as `---`, front matter, a line `---`, then a body, is read back as
/// that front matter and the trimmed body, provided the front matter has no line that
/// starts with `---` itself.
pub proof fn lemma_skill_file_read_back(yaml: Seq<char>, body: Seq<char>)
    requires
        forall|i: int| 0 <= i < yaml.len() ==> !matches_at(yaml + "\n---"@, "\n---"@, i),
    ensures
        split_skill("---"@ + yaml + "\n---"@ + body) == Ok::<(Seq<char>, Seq<char>), SkillFormatError>(
            (yaml, trim(body)),
        ),
{
    reveal_strlit("---");
    reveal_strlit("\n---");
    let s = "---"@ + yaml + "\n---"@ + body;
    let p = "\n---"@;
    assert(s.subrange(0, 3) =~= "---"@);
    let rest = s.skip(3);
    assert(rest =~= yaml + p + body);
    let yl = yaml.len() as int;
    assert(rest.subrange(yl, yl + 4) =~= p);
    assert forall|j: int| 0 <= j < yl implies !matches_at(rest, p, j) by {
        assert(!matches_at(yaml + p, p, j));
        if j + 4 <= rest.len() {
            assert(rest.subrange(j, j + 4) =~= (yaml + p).subrange(j, j + 4));
        }
    }
    lemma_find_first(rest, p, 0, yl);
    assert(rest.take(yl) =~= yaml);
    assert(rest.skip(yl + 4) =~= body);
}

} // verus!

verus! {

/// The lookup of a skill by name matches names exactly and takes the first: a skill found
/// is in the list and has exactly that name, and no skill before it has; none found means
/// no skill has that name.
pub proof fn lemma_first_named_exact(skills: Seq<SkillView>, name: Seq<char>)
    ensures
        match first_named(skills, name) {
            Some(s) => s.name == name && exists|j: int|
                0 <= j < skills.len() && #[trigger] skills[j] == s && forall|k: int|
                    0 <= k < j ==> (#[trigger] skills[k]).name != name,
            None => forall|k: int| 0 <= k < skills.len() ==> (#[trigger] skills[k]).name != name,
        },
    decreases skills.len(),
{
    if skills.len() > 0 {
        let rest = skills.drop_first();
        lemma_first_named_exact(rest, name);
        if skills[0].name != name {
            match first_named(rest, name) {
                Some(s) => {
                    let j = choose|j: int|
                        0 <= j < rest.len() && #[trigger] rest[j] == s && forall|k: int|
                            0 <= k < j ==> (#[trigger] rest[k]).name != name;
                    assert(skills[j + 1] == rest[j]);
                    assert forall|k: int| 0 <= k < j + 1 implies (#[trigger] skills[k]).name != name by {
                        if k > 0 {
                            assert(skills[k] == rest[k - 1]);
                        }
                    }
                },
                None => {
                    assert forall|k: int| 0 <= k < skills.len() implies (#[trigger] skills[k]).name != name by {
                        if k > 0 {
                            assert(skills[k] == rest[k - 1]);
                        }
                    }
                },
            }
        } else {
            assert(skills[0] == first_named(skills, name).unwrap());
        }
    }
}

} // verus!
