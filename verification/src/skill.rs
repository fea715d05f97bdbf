//! Skills: reusable workflow definitions captured from successful runs, and
//! the in-memory store that keeps them by name.
//!
//! Confidence scores are `f64` values; they are held here by their IEEE-754
//! bit patterns.

use vstd::prelude::*;

use crate::outside::Timestamp;
use crate::pack::strings_view;
use crate::text::{copy_strings, distinct_names, find_name, lemma_position_of, position_of};

verus! {

/// A reusable skill definition: a versioned workflow pack.
#[derive(Debug, Clone)]
pub struct SkillSpec {
    /// Unique skill name (e.g. "ship-hotfix", "browser-regression-check").
    pub name: String,
    /// Human-readable description.
    pub description: String,
    /// Version string.
    pub version: String,
    /// The objective template this skill addresses.
    pub objective_template: String,
    /// Creature types needed to execute this skill.
    pub required_creatures: Vec<String>,
    /// Tool names required.
    pub required_tools: Vec<String>,
    /// Pre-run hook commands.
    pub pre_hooks: Vec<String>,
    /// Post-run hook commands.
    pub post_hooks: Vec<String>,
}

/// A skill captured from a successful run.
#[derive(Debug, Clone)]
pub struct CapturedSkill {
    /// Generated skill ID.
    pub id: u128,
    /// The skill specification.
    pub spec: SkillSpec,
    /// Session that produced this skill.
    pub source_session: u128,
    /// When this skill was captured.
    pub captured_at: Timestamp,
    /// Confidence score (0.0 to 1.0), as the IEEE-754 bits of an `f64`.
    pub confidence_bits: u64,
}

/// A captured skill as plain values.
pub struct SkillView {
    pub id: u128,
    pub name: Seq<char>,
    pub description: Seq<char>,
    pub version: Seq<char>,
    pub objective_template: Seq<char>,
    pub required_creatures: Seq<Seq<char>>,
    pub required_tools: Seq<Seq<char>>,
    pub pre_hooks: Seq<Seq<char>>,
    pub post_hooks: Seq<Seq<char>>,
    pub source_session: u128,
    pub captured_at: Timestamp,
    pub confidence_bits: u64,
}

impl CapturedSkill {
    pub open spec fn view(&self) -> SkillView {
        SkillView {
            id: self.id,
            name: self.spec.name@,
            description: self.spec.description@,
            version: self.spec.version@,
            objective_template: self.spec.objective_template@,
            required_creatures: strings_view(self.spec.required_creatures@),
            required_tools: strings_view(self.spec.required_tools@),
            pre_hooks: strings_view(self.spec.pre_hooks@),
            post_hooks: strings_view(self.spec.post_hooks@),
            source_session: self.source_session,
            captured_at: self.captured_at,
            confidence_bits: self.confidence_bits,
        }
    }

    /// A copy of the skill.
    pub fn duplicate(&self) -> (c: CapturedSkill)
        ensures
            c.view() == self.view(),
    {
        CapturedSkill {
            id: self.id,
            spec: SkillSpec {
                name: self.spec.name.clone(),
                description: self.spec.description.clone(),
                version: self.spec.version.clone(),
                objective_template: self.spec.objective_template.clone(),
                required_creatures: copy_strings(&self.spec.required_creatures),
                required_tools: copy_strings(&self.spec.required_tools),
                pre_hooks: copy_strings(&self.spec.pre_hooks),
                post_hooks: copy_strings(&self.spec.post_hooks),
            },
            source_session: self.source_session,
            captured_at: self.captured_at,
            confidence_bits: self.confidence_bits,
        }
    }
}

/// The skills of a list, as plain values.
pub open spec fn skills_view(v: Seq<CapturedSkill>) -> Seq<SkillView> {
    v.map_values(|c: CapturedSkill| c.view())
}

/// The names of a list of skills.
pub open spec fn skill_names(v: Seq<SkillView>) -> Seq<Seq<char>> {
    v.map_values(|c: SkillView| c.name)
}

/// A skill captured: in the place of the skill of the same name, or last.
pub open spec fn with_skill(skills: Seq<SkillView>, c: SkillView) -> Seq<SkillView> {
    match position_of(skill_names(skills), c.name) {
        Some(i) => skills.update(i, c),
        None => skills.push(c),
    }
}

/// Why the store refused a request.
#[derive(Debug, Clone)]
pub enum SkillError {
    /// No skill has this name.
    NotFound(String),
}

impl SkillError {
    /// The error's message: `skill not found: <name>`.
    pub fn message(&self) -> (m: String)
        ensures
            match self {
                SkillError::NotFound(n) => m@ == "skill not found: "@ + n@,
            },
    {
        match self {
            SkillError::NotFound(n) => String::from_str("skill not found: ").concat(n.as_str()),
        }
    }
}

/// Captured skills, by name.
pub struct MockSkillCapture {
    skills: Vec<CapturedSkill>,
}

impl MockSkillCapture {
    /// The captured skills, in order of first capture.
    pub closed spec fn contents(&self) -> Seq<SkillView> {
        skills_view(self.skills@)
    }

    pub closed spec fn wf(&self) -> bool {
        distinct_names(skill_names(self.contents()))
    }

    fn names_vec(&self) -> (v: Vec<String>)
        ensures
            strings_view(v@) == skill_names(self.contents()),
    {
        let mut v: Vec<String> = Vec::new();
        let mut i: usize = 0;
        while i < self.skills.len()
            invariant
                i <= self.skills@.len(),
                strings_view(v@) == skill_names(self.contents()).take(i as int),
            decreases self.skills.len() - i,
        {
            let ghost before = strings_view(v@);
            v.push(self.skills[i].spec.name.clone());
            proof {
                assert(strings_view(v@) =~= before.push(self.skills@[i as int].spec.name@));
                assert(skill_names(self.contents()).take(i + 1) =~= skill_names(self.contents()).take(
                    i as int,
                ).push(self.skills@[i as int].spec.name@));
            }
            i = i + 1;
        }
        assert(skill_names(self.contents()).take(i as int) =~= skill_names(self.contents()));
        v
    }

    /// An empty store.
    pub fn new() -> (r: MockSkillCapture)
        ensures
            r.wf(),
            r.contents() == Seq::<SkillView>::empty(),
    {
        let r = MockSkillCapture { skills: Vec::new() };
        assert(r.contents() =~= Seq::<SkillView>::empty());
        r
    }

    /// Capture a skill, replacing the one of the same name; gives its ID.
    pub fn capture(&mut self, skill: CapturedSkill) -> (id: u128)
        requires
            old(self).wf(),
        ensures
            final(self).wf(),
            id == skill.id,
            final(self).contents() == with_skill(old(self).contents(), skill.view()),
    {
        let id = skill.id;
        let names = self.names_vec();
        let ghost c0 = self.contents();
        proof {
            lemma_position_of(skill_names(c0), skill.view().name);
            lemma_position_of(strings_view(names@), skill.spec.name@);
            assert(strings_view(names@) == skill_names(c0));
            assert(skill.view().name == skill.spec.name@);
        }
        let ghost sv = skill.view();
        match find_name(&names, skill.spec.name.as_str()) {
            Some(i) => {
                self.skills.set(i, skill);
                proof {
                    assert(with_skill(c0, sv) == c0.update(i as int, sv));
                    assert(self.contents() =~= c0.update(i as int, sv));
                    assert(skill_names(self.contents()) =~= skill_names(c0));
                }
            },
            None => {
                self.skills.push(skill);
                proof {
                    assert(with_skill(c0, sv) == c0.push(sv));
                    assert(self.contents() =~= c0.push(sv));
                    assert(skill_names(self.contents()) =~= skill_names(c0).push(skill.view().name));
                }
            },
        }
        id
    }

    /// The names of the captured skills.
    pub fn list(&self) -> (names: Vec<String>)
        ensures
            strings_view(names@) == skill_names(self.contents()),
    {
        self.names_vec()
    }

    /// The skill captured under `name`.
    pub fn resolve(&self, name: &str) -> (r: Result<CapturedSkill, SkillError>)
        ensures
            match position_of(skill_names(self.contents()), name@) {
                Some(i) => r matches Ok(c) && c.view() == self.contents()[i],
                None => r matches Err(SkillError::NotFound(n)) && n@ == name@,
            },
    {
        let names = self.names_vec();
        proof {
            lemma_position_of(strings_view(names@), name@);
        }
        match find_name(&names, name) {
            Some(i) => {
                proof {
                    assert(self.contents()[i as int] == self.skills@[i as int].view());
                }
                Ok(self.skills[i].duplicate())
            },
            None => Err(SkillError::NotFound(String::from_str(name))),
        }
    }

    /// Remove the skill captured under `name`.
    pub fn remove(&mut self, name: &str) -> (r: Result<(), SkillError>)
        requires
            old(self).wf(),
        ensures
            final(self).wf(),
            match position_of(skill_names(old(self).contents()), name@) {
                Some(i) => r is Ok && final(self).contents() == old(self).contents().remove(i),
                None => r matches Err(SkillError::NotFound(n)) && n@ == name@ && final(self).contents()
                    == old(self).contents(),
            },
    {
        let names = self.names_vec();
        let ghost c0 = self.contents();
        proof {
            lemma_position_of(strings_view(names@), name@);
        }
        match find_name(&names, name) {
            Some(i) => {
                self.skills.remove(i);
                proof {
                    assert(self.contents() =~= c0.remove(i as int));
                    assert(skill_names(self.contents()) =~= skill_names(c0).remove(i as int));
                }
                Ok(())
            },
            None => Err(SkillError::NotFound(String::from_str(name))),
        }
    }
}


/// A skill captured is what resolving its name gives, and it is the only
/// skill of that name.
pub proof fn law_captured_skill_resolves(skills: Seq<SkillView>, c: SkillView)
    requires
        distinct_names(skill_names(skills)),
    ensures
        ({
            let after = with_skill(skills, c);
            &&& position_of(skill_names(after), c.name) matches Some(i) && after[i] == c
            &&& distinct_names(skill_names(after))
        }),
{
    lemma_position_of(skill_names(skills), c.name);
    let after = with_skill(skills, c);
    match position_of(skill_names(skills), c.name) {
        Some(i) => {
            assert(skill_names(after) =~= skill_names(skills));
            lemma_position_of(skill_names(after), c.name);
        },
        None => {
            assert(skill_names(after) =~= skill_names(skills).push(c.name));
            lemma_position_of(skill_names(after), c.name);
            assert(skill_names(after)[skills.len() as int] == c.name);
            assert forall|a: int, b: int| 0 <= a < b < skill_names(after).len() implies skill_names(
                after,
            )[a] != skill_names(after)[b] by {
                assert(skill_names(after)[a] == skill_names(skills)[a]);
                if b < skills.len() {
                    assert(skill_names(after)[b] == skill_names(skills)[b]);
                }
            }
        },
    }
}

/// A skill removed no longer resolves.
pub proof fn law_removed_skill_is_gone(skills: Seq<SkillView>, name: Seq<char>)
    requires
        distinct_names(skill_names(skills)),
    ensures
        match position_of(skill_names(skills), name) {
            Some(i) => position_of(skill_names(skills.remove(i)), name) is None,
            None => true,
        },
{
    lemma_position_of(skill_names(skills), name);
    match position_of(skill_names(skills), name) {
        Some(i) => {
            let after = skills.remove(i);
            assert(skill_names(after) =~= skill_names(skills).remove(i));
            lemma_position_of(skill_names(after), name);
            assert forall|j: int| 0 <= j < skill_names(after).len() implies skill_names(after)[j]
                != name by {
                if j < i {
                    assert(skill_names(after)[j] == skill_names(skills)[j]);
                } else {
                    assert(skill_names(after)[j] == skill_names(skills)[j + 1]);
                }
            }
        },
        None => {},
    }
}

impl Default for MockSkillCapture {
    /// An empty store.
    fn default() -> (r: MockSkillCapture)
        ensures
            r.wf(),
            r.contents() == Seq::<SkillView>::empty(),
    {
        MockSkillCapture::new()
    }
}

} // verus!
