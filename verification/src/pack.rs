//! Packs: predefined teams of creatures with a shared scope and objective
//! template, and the in-memory registry that keeps them by name.

use vstd::prelude::*;

use crate::text::{copy_strings, distinct_names, find_name, lemma_position_of, position_of};

verus! {

/// The character sequences of a list of strings.
pub open spec fn strings_view(v: Seq<String>) -> Seq<Seq<char>> {
    v.map_values(|s: String| s@)
}

/// Defines the boundaries within which a pack operates.
#[derive(Debug, Clone)]
pub struct ExecutionScope {
    /// Allowed path globs (e.g. "src/**", "tests/**").
    pub allowed_paths: Vec<String>,
    /// Denied path globs (e.g. ".env", "secrets/**").
    pub denied_paths: Vec<String>,
    /// Whether network access is permitted.
    pub network: bool,
    /// Whether commits are permitted.
    pub can_commit: bool,
    /// Whether external comms are permitted.
    pub can_message_external: bool,
    /// Maximum total token budget across all creatures.
    pub total_token_budget: Option<u64>,
    /// Maximum wall-clock time in seconds.
    pub timeout_secs: Option<u64>,
}

/// A scope as plain values.
pub struct ScopeView {
    pub allowed_paths: Seq<Seq<char>>,
    pub denied_paths: Seq<Seq<char>>,
    pub network: bool,
    pub can_commit: bool,
    pub can_message_external: bool,
    pub total_token_budget: Option<u64>,
    pub timeout_secs: Option<u64>,
}

impl ExecutionScope {
    pub open spec fn view(&self) -> ScopeView {
        ScopeView {
            allowed_paths: strings_view(self.allowed_paths@),
            denied_paths: strings_view(self.denied_paths@),
            network: self.network,
            can_commit: self.can_commit,
            can_message_external: self.can_message_external,
            total_token_budget: self.total_token_budget,
            timeout_secs: self.timeout_secs,
        }
    }

    /// A copy of the scope.
    pub fn duplicate(&self) -> (s: ExecutionScope)
        ensures
            s.view() == self.view(),
    {
        ExecutionScope {
            allowed_paths: copy_strings(&self.allowed_paths),
            denied_paths: copy_strings(&self.denied_paths),
            network: self.network,
            can_commit: self.can_commit,
            can_message_external: self.can_message_external,
            total_token_budget: self.total_token_budget,
            timeout_secs: self.timeout_secs,
        }
    }
}

/// The default scope: every path allowed but `.env` and `secrets/**`, no
/// network, no commits, no external messages, no budget or timeout.
pub open spec fn default_scope() -> ScopeView {
    ScopeView {
        allowed_paths: seq!["**"@],
        denied_paths: seq![".env"@, "secrets/**"@],
        network: false,
        can_commit: false,
        can_message_external: false,
        total_token_budget: None,
        timeout_secs: None,
    }
}

impl Default for ExecutionScope {
    fn default() -> (s: ExecutionScope)
        ensures
            s.view() == default_scope(),
    {
        let mut allowed_paths: Vec<String> = Vec::new();
        allowed_paths.push(String::from_str("**"));
        let mut denied_paths: Vec<String> = Vec::new();
        denied_paths.push(String::from_str(".env"));
        denied_paths.push(String::from_str("secrets/**"));
        let s = ExecutionScope {
            allowed_paths,
            denied_paths,
            network: false,
            can_commit: false,
            can_message_external: false,
            total_token_budget: None,
            timeout_secs: None,
        };
        assert(s.view().allowed_paths =~= seq!["**"@]);
        assert(s.view().denied_paths =~= seq![".env"@, "secrets/**"@]);
        s
    }
}

/// A predefined team of creatures with a shared scope and objective template.
#[derive(Debug, Clone)]
pub struct PackSpec {
    /// Pack name (e.g. "ship-hotfix", "incident-response", "browser-lab").
    pub name: String,
    /// Human-readable description.
    pub description: String,
    /// Creature type names that make up this pack.
    pub creatures: Vec<String>,
    /// The execution scope for this pack.
    pub scope: ExecutionScope,
    /// Optional default objective template.
    pub objective_template: Option<String>,
    /// Optional skill names to pre-load.
    pub skills: Vec<String>,
}

/// A pack as plain values.
pub struct PackView {
    pub name: Seq<char>,
    pub description: Seq<char>,
    pub creatures: Seq<Seq<char>>,
    pub scope: ScopeView,
    pub objective_template: Option<Seq<char>>,
    pub skills: Seq<Seq<char>>,
}

impl PackSpec {
    pub open spec fn view(&self) -> PackView {
        PackView {
            name: self.name@,
            description: self.description@,
            creatures: strings_view(self.creatures@),
            scope: self.scope.view(),
            objective_template: crate::llm::opt_view(self.objective_template),
            skills: strings_view(self.skills@),
        }
    }

    /// A copy of the pack.
    pub fn duplicate(&self) -> (p: PackSpec)
        ensures
            p.view() == self.view(),
    {
        PackSpec {
            name: self.name.clone(),
            description: self.description.clone(),
            creatures: copy_strings(&self.creatures),
            scope: self.scope.duplicate(),
            objective_template: crate::llm::copy_opt(&self.objective_template),
            skills: copy_strings(&self.skills),
        }
    }
}

/// The packs of a list, as plain values.
pub open spec fn packs_view(v: Seq<PackSpec>) -> Seq<PackView> {
    v.map_values(|p: PackSpec| p.view())
}

/// The names of a list of packs.
pub open spec fn pack_names(v: Seq<PackView>) -> Seq<Seq<char>> {
    v.map_values(|p: PackView| p.name)
}

/// A pack registered: in the place of the pack of the same name, or last.
pub open spec fn with_pack(packs: Seq<PackView>, p: PackView) -> Seq<PackView> {
    match position_of(pack_names(packs), p.name) {
        Some(i) => packs.update(i, p),
        None => packs.push(p),
    }
}

/// Why the registry refused a request.
#[derive(Debug, Clone)]
pub enum PackError {
    /// No pack has this name.
    NotFound(String),
}

impl PackError {
    /// The error's message: `pack not found: <name>`.
    pub fn message(&self) -> (m: String)
        ensures
            match self {
                PackError::NotFound(n) => m@ == "pack not found: "@ + n@,
            },
    {
        match self {
            PackError::NotFound(n) => String::from_str("pack not found: ").concat(n.as_str()),
        }
    }
}

/// Registered packs, by name.
pub struct InMemoryPackRegistry {
    packs: Vec<PackSpec>,
}

impl InMemoryPackRegistry {
    /// The registered packs, in order of first registration.
    pub closed spec fn contents(&self) -> Seq<PackView> {
        packs_view(self.packs@)
    }

    pub closed spec fn wf(&self) -> bool {
        distinct_names(pack_names(self.contents()))
    }

    fn names_vec(&self) -> (v: Vec<String>)
        ensures
            strings_view(v@) == pack_names(self.contents()),
    {
        let mut v: Vec<String> = Vec::new();
        let mut i: usize = 0;
        while i < self.packs.len()
            invariant
                i <= self.packs@.len(),
                strings_view(v@) == pack_names(self.contents()).take(i as int),
            decreases self.packs.len() - i,
        {
            let ghost before = strings_view(v@);
            v.push(self.packs[i].name.clone());
            proof {
                assert(strings_view(v@) =~= before.push(self.packs@[i as int].name@));
                assert(pack_names(self.contents()).take(i + 1) =~= pack_names(self.contents()).take(
                    i as int,
                ).push(self.packs@[i as int].name@));
            }
            i = i + 1;
        }
        assert(pack_names(self.contents()).take(i as int) =~= pack_names(self.contents()));
        v
    }

    /// An empty registry.
    pub fn new() -> (r: InMemoryPackRegistry)
        ensures
            r.wf(),
            r.contents() == Seq::<PackView>::empty(),
    {
        let r = InMemoryPackRegistry { packs: Vec::new() };
        assert(r.contents() =~= Seq::<PackView>::empty());
        r
    }

    /// The names of the registered packs.
    pub fn list(&self) -> (names: Vec<String>)
        ensures
            strings_view(names@) == pack_names(self.contents()),
    {
        self.names_vec()
    }

    /// The pack registered under `name`.
    pub fn resolve(&self, name: &str) -> (r: Result<PackSpec, PackError>)
        ensures
            match position_of(pack_names(self.contents()), name@) {
                Some(i) => r matches Ok(p) && p.view() == self.contents()[i],
                None => r matches Err(PackError::NotFound(n)) && n@ == name@,
            },
    {
        let names = self.names_vec();
        proof {
            lemma_position_of(strings_view(names@), name@);
        }
        match find_name(&names, name) {
            Some(i) => {
                proof {
                    assert(self.contents()[i as int] == self.packs@[i as int].view());
                }
                Ok(self.packs[i].duplicate())
            },
            None => Err(PackError::NotFound(String::from_str(name))),
        }
    }

    /// Register a pack, replacing the one of the same name.
    pub fn register(&mut self, spec: PackSpec)
        requires
            old(self).wf(),
        ensures
            final(self).wf(),
            final(self).contents() == with_pack(old(self).contents(), spec.view()),
    {
        let names = self.names_vec();
        let ghost c0 = self.contents();
        proof {
            lemma_position_of(pack_names(c0), spec.view().name);
            lemma_position_of(strings_view(names@), spec.name@);
        }
        match find_name(&names, spec.name.as_str()) {
            Some(i) => {
                self.packs.set(i, spec);
                proof {
                    assert(self.contents() =~= c0.update(i as int, spec.view()));
                    assert(pack_names(self.contents()) =~= pack_names(c0));
                }
            },
            None => {
                self.packs.push(spec);
                proof {
                    assert(self.contents() =~= c0.push(spec.view()));
                    assert(pack_names(self.contents()) =~= pack_names(c0).push(spec.view().name));
                }
            },
        }
    }

    /// Remove the pack registered under `name`.
    pub fn remove(&mut self, name: &str) -> (r: Result<(), PackError>)
        requires
            old(self).wf(),
        ensures
            final(self).wf(),
            match position_of(pack_names(old(self).contents()), name@) {
                Some(i) => r is Ok && final(self).contents() == old(self).contents().remove(i),
                None => r matches Err(PackError::NotFound(n)) && n@ == name@ && final(self).contents()
                    == old(self).contents(),
            },
    {
        let names = self.names_vec();
        let ghost c0 = self.contents();
        proof {
            lemma_position_of(strings_view(names@), name@);
        }
        match find_name(&names, name) {
            Some(i) => {
                self.packs.remove(i);
                proof {
                    assert(self.contents() =~= c0.remove(i as int));
                    assert(pack_names(self.contents()) =~= pack_names(c0).remove(i as int));
                }
                Ok(())
            },
            None => Err(PackError::NotFound(String::from_str(name))),
        }
    }

    /// Register the built-in packs: `ship-hotfix`, `incident-response` and
    /// `browser-lab`.
    pub fn seed_builtins(&mut self)
        requires
            old(self).wf(),
        ensures
            final(self).wf(),
            final(self).contents() == with_pack(
                with_pack(with_pack(old(self).contents(), ship_hotfix()), incident_response()),
                browser_lab(),
            ),
    {
        let mut hotfix_scope = ExecutionScope::default();
        hotfix_scope.can_commit = true;
        let mut hotfix_creatures: Vec<String> = Vec::new();
        hotfix_creatures.push(String::from_str("raven"));
        hotfix_creatures.push(String::from_str("mantis"));
        hotfix_creatures.push(String::from_str("hound"));
        hotfix_creatures.push(String::from_str("owl"));
        let mut hotfix_skills: Vec<String> = Vec::new();
        hotfix_skills.push(String::from_str("ship-hotfix"));
        let hotfix = PackSpec {
            name: String::from_str("ship-hotfix"),
            description: String::from_str("Rapid hotfix: recon, patch, verify, PR"),
            creatures: hotfix_creatures,
            scope: hotfix_scope,
            objective_template: Some(String::from_str("Fix: {objective}")),
            skills: hotfix_skills,
        };
        assert(strings_view(hotfix.creatures@) =~= seq!["raven"@, "mantis"@, "hound"@, "owl"@]);
        assert(strings_view(hotfix.skills@) =~= seq!["ship-hotfix"@]);
        assert(hotfix.view() =~~= ship_hotfix());
        self.register(hotfix);

        let mut incident_scope = ExecutionScope::default();
        incident_scope.network = true;
        incident_scope.can_commit = true;
        incident_scope.can_message_external = true;
        let mut incident_creatures: Vec<String> = Vec::new();
        incident_creatures.push(String::from_str("raven"));
        incident_creatures.push(String::from_str("hound"));
        incident_creatures.push(String::from_str("mantis"));
        incident_creatures.push(String::from_str("owl"));
        let mut incident_skills: Vec<String> = Vec::new();
        incident_skills.push(String::from_str("triage-incident"));
        let incident = PackSpec {
            name: String::from_str("incident-response"),
            description: String::from_str("Triage, diagnose, fix, verify, notify"),
            creatures: incident_creatures,
            scope: incident_scope,
            objective_template: None,
            skills: incident_skills,
        };
        assert(strings_view(incident.creatures@) =~= seq!["raven"@, "hound"@, "mantis"@, "owl"@]);
        assert(strings_view(incident.skills@) =~= seq!["triage-incident"@]);
        assert(incident.view() =~~= incident_response());
        self.register(incident);

        let mut lab_scope = ExecutionScope::default();
        lab_scope.network = true;
        let mut lab_creatures: Vec<String> = Vec::new();
        lab_creatures.push(String::from_str("raven"));
        lab_creatures.push(String::from_str("wasp"));
        lab_creatures.push(String::from_str("hound"));
        let mut lab_skills: Vec<String> = Vec::new();
        lab_skills.push(String::from_str("browser-regression-check"));
        let lab = PackSpec {
            name: String::from_str("browser-lab"),
            description: String::from_str("Browser automation and visual regression testing"),
            creatures: lab_creatures,
            scope: lab_scope,
            objective_template: None,
            skills: lab_skills,
        };
        assert(strings_view(lab.creatures@) =~= seq!["raven"@, "wasp"@, "hound"@]);
        assert(strings_view(lab.skills@) =~= seq!["browser-regression-check"@]);
        assert(lab.view() =~~= browser_lab());
        self.register(lab);
    }
}

/// The `ship-hotfix` pack: recon, patch, verify, PR; commits allowed.
pub open spec fn ship_hotfix() -> PackView {
    PackView {
        name: "ship-hotfix"@,
        description: "Rapid hotfix: recon, patch, verify, PR"@,
        creatures: seq!["raven"@, "mantis"@, "hound"@, "owl"@],
        scope: ScopeView { can_commit: true, ..default_scope() },
        objective_template: Some("Fix: {objective}"@),
        skills: seq!["ship-hotfix"@],
    }
}

/// The `incident-response` pack: network, commits and external messages
/// allowed.
pub open spec fn incident_response() -> PackView {
    PackView {
        name: "incident-response"@,
        description: "Triage, diagnose, fix, verify, notify"@,
        creatures: seq!["raven"@, "hound"@, "mantis"@, "owl"@],
        scope: ScopeView {
            network: true,
            can_commit: true,
            can_message_external: true,
            ..default_scope()
        },
        objective_template: None,
        skills: seq!["triage-incident"@],
    }
}

/// The `browser-lab` pack: network allowed.
pub open spec fn browser_lab() -> PackView {
    PackView {
        name: "browser-lab"@,
        description: "Browser automation and visual regression testing"@,
        creatures: seq!["raven"@, "wasp"@, "hound"@],
        scope: ScopeView { network: true, ..default_scope() },
        objective_template: None,
        skills: seq!["browser-regression-check"@],
    }
}

/// A pack registered is what resolving its name gives, and it is the only
/// pack of that name.
pub proof fn law_registered_pack_resolves(packs: Seq<PackView>, p: PackView)
    requires
        distinct_names(pack_names(packs)),
    ensures
        ({
            let after = with_pack(packs, p);
            &&& position_of(pack_names(after), p.name) matches Some(i) && after[i] == p
            &&& distinct_names(pack_names(after))
        }),
{
    lemma_position_of(pack_names(packs), p.name);
    let after = with_pack(packs, p);
    match position_of(pack_names(packs), p.name) {
        Some(i) => {
            assert(pack_names(after) =~= pack_names(packs));
            lemma_position_of(pack_names(after), p.name);
            assert(position_of(pack_names(after), p.name) == Some(i));
        },
        None => {
            assert(pack_names(after) =~= pack_names(packs).push(p.name));
            lemma_position_of(pack_names(after), p.name);
            assert(pack_names(after)[packs.len() as int] == p.name);
            assert(position_of(pack_names(after), p.name) == Some(packs.len() as int));
            assert forall|a: int, b: int| 0 <= a < b < pack_names(after).len() implies pack_names(
                after,
            )[a] != pack_names(after)[b] by {
                if b < packs.len() {
                    assert(pack_names(after)[a] == pack_names(packs)[a]);
                    assert(pack_names(after)[b] == pack_names(packs)[b]);
                } else {
                    assert(pack_names(after)[a] == pack_names(packs)[a]);
                }
            }
        },
    }
}

/// A pack removed no longer resolves.
pub proof fn law_removed_pack_is_gone(packs: Seq<PackView>, name: Seq<char>)
    requires
        distinct_names(pack_names(packs)),
    ensures
        match position_of(pack_names(packs), name) {
            Some(i) => position_of(pack_names(packs.remove(i)), name) is None,
            None => true,
        },
{
    lemma_position_of(pack_names(packs), name);
    match position_of(pack_names(packs), name) {
        Some(i) => {
            let after = packs.remove(i);
            assert(pack_names(after) =~= pack_names(packs).remove(i));
            lemma_position_of(pack_names(after), name);
            assert forall|j: int| 0 <= j < pack_names(after).len() implies pack_names(after)[j]
                != name by {
                if j < i {
                    assert(pack_names(after)[j] == pack_names(packs)[j]);
                } else {
                    assert(pack_names(after)[j] == pack_names(packs)[j + 1]);
                }
            }
        },
        None => {},
    }
}


/// A registry of packs, by name.
pub trait PackRegistry {
    /// Whether the registry is in a state its changes accept.
    spec fn valid(&self) -> bool;

    /// The names of the registered packs.
    fn list(&self) -> Vec<String>;

    /// The pack registered under `name`.
    fn resolve(&self, name: &str) -> Result<PackSpec, PackError>;

    /// Register a pack, replacing the one of the same name.
    fn register(&mut self, spec: PackSpec)
        requires
            old(self).valid(),
        ensures
            final(self).valid(),
    ;

    /// Remove the pack registered under `name`.
    fn remove(&mut self, name: &str) -> (r: Result<(), PackError>)
        requires
            old(self).valid(),
        ensures
            final(self).valid(),
    ;
}

impl PackRegistry for InMemoryPackRegistry {
    open spec fn valid(&self) -> bool {
        self.wf()
    }

    fn list(&self) -> (names: Vec<String>)
        ensures
            strings_view(names@) == pack_names(self.contents()),
    {
        InMemoryPackRegistry::list(self)
    }

    fn resolve(&self, name: &str) -> (r: Result<PackSpec, PackError>)
        ensures
            match position_of(pack_names(self.contents()), name@) {
                Some(i) => r matches Ok(p) && p.view() == self.contents()[i],
                None => r matches Err(PackError::NotFound(n)) && n@ == name@,
            },
    {
        InMemoryPackRegistry::resolve(self, name)
    }

    fn register(&mut self, spec: PackSpec)
        ensures
            final(self).contents() == with_pack(old(self).contents(), spec.view()),
    {
        InMemoryPackRegistry::register(self, spec)
    }

    fn remove(&mut self, name: &str) -> (r: Result<(), PackError>)
        ensures
            match position_of(pack_names(old(self).contents()), name@) {
                Some(i) => r is Ok && final(self).contents() == old(self).contents().remove(i),
                None => r matches Err(PackError::NotFound(n)) && n@ == name@ && final(self).contents()
                    == old(self).contents(),
            },
    {
        InMemoryPackRegistry::remove(self, name)
    }
}

impl Default for InMemoryPackRegistry {
    /// An empty registry.
    fn default() -> (r: InMemoryPackRegistry)
        ensures
            r.wf(),
            r.contents() == Seq::<PackView>::empty(),
    {
        InMemoryPackRegistry::new()
    }
}

} // verus!
