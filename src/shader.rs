use vstd::prelude::*;
use crate::uniform::{kind_of_gl_type, Uniform, UniformDefinition, UniformKind};

verus! {

/// Why a shader stage or a program could not be made, or a uniform bound.
#[derive(Debug)]
pub enum ShaderIssue {
    /// The stage did not compile; the compiler's log.
    CompileError(String),
    /// The program did not link; the linker's log.
    LinkError(String),
    /// Text that the graphics API handed back was not valid UTF-8.
    StringConversionError(String),
    /// The program reports a uniform of a type code that has no handle type.
    UnsupportedUniformType(u32),
    /// The program has no active uniform of this name.
    MissingUniform(String),
    /// The program reports the uniform with another type than the one asked for.
    UniformTypeMismatch { name: String, expected: UniformKind, found: UniformKind },
}

/// A compiled shader stage: the graphics API's handle and the stage's kind
/// (the API's enum value for vertex, fragment, ...).
pub struct Shader {
    id: u32,
    stage: u32,
}

impl Shader {
    pub closed spec fn spec_id(&self) -> u32 {
        self.id
    }

    pub closed spec fn spec_stage(&self) -> u32 {
        self.stage
    }

    /// The stage that compiling into handle `id` gave: the stage when the
    /// compiler reports success, else its log as a `CompileError`.
    pub fn from_compile_status(id: u32, stage: u32, compiled: bool, log: String) -> (r: Result<
        Shader,
        ShaderIssue,
    >)
        ensures
            compiled ==> (r matches Ok(s) && s.spec_id() == id && s.spec_stage() == stage),
            !compiled ==> (r matches Err(ShaderIssue::CompileError(m)) && m@ == log@),
    {
        if compiled {
            Ok(Shader { id, stage })
        } else {
            Err(ShaderIssue::CompileError(log))
        }
    }

    pub fn id(&self) -> (r: u32)
        ensures
            r == self.spec_id(),
    {
        self.id
    }

    pub fn stage(&self) -> (r: u32)
        ensures
            r == self.spec_stage(),
    {
        self.stage
    }
}

/// One active uniform as the program reports it: its OpenGL type code and
/// its definition.
pub struct ReportedUniform {
    pub gl_type: u32,
    pub def: UniformDefinition,
}

/// A linked program and the typed handles of all its active uniforms.
pub struct ShaderProgram {
    id: u32,
    uniform_defs: Vec<Uniform>,
}

/// Index of the first uniform of `us` named `name`.
pub open spec fn find_named(us: Seq<Uniform>, name: Seq<char>) -> Option<int>
    decreases us.len(),
{
    if us.len() == 0 {
        None
    } else if find_named(us.drop_last(), name) is Some {
        find_named(us.drop_last(), name)
    } else if us.last().spec_def().spec_name() == name {
        Some(us.len() - 1)
    } else {
        None
    }
}

/// What a lookup by name finds: an index of a uniform that has that name,
/// or, when it finds none, no uniform has it.
pub proof fn lemma_find_named_bounds(us: Seq<Uniform>, name: Seq<char>)
    ensures
        find_named(us, name) matches Some(i) ==> 0 <= i < us.len() && us[i].spec_def().spec_name()
            == name,
        find_named(us, name) is None ==> forall|j: int|
            0 <= j < us.len() ==> (#[trigger] us[j]).spec_def().spec_name() != name,
    decreases us.len(),
{
    if us.len() > 0 {
        let d = us.drop_last();
        lemma_find_named_bounds(d, name);
        if find_named(d, name) is None {
            assert forall|j: int| 0 <= j < us.len() implies (#[trigger] us[j]).spec_def().spec_name()
                != name || find_named(us, name) is Some by {
                if j < us.len() - 1 {
                    assert(us[j] == d[j]);
                }
            }
        }
    }
}

/// The program reports a uniform `name`, and the first one of that name has
/// type `kind`.
pub open spec fn binds(us: Seq<Uniform>, name: Seq<char>, kind: UniformKind) -> bool {
    find_named(us, name) matches Some(i) && us[i].spec_kind() == kind
}

/// The location of the first uniform named `name`.
pub open spec fn location_of(us: Seq<Uniform>, name: Seq<char>) -> u32 {
    us[find_named(us, name)->Some_0].spec_def().spec_id()
}

/// The program's reported uniforms all have handle types.
pub open spec fn all_supported(rs: Seq<ReportedUniform>) -> bool {
    forall|i: int| 0 <= i < rs.len() ==> (#[trigger] kind_of_gl_type(rs[i].gl_type)) is Some
}

impl ShaderProgram {
    pub closed spec fn spec_id(&self) -> u32 {
        self.id
    }

    pub closed spec fn spec_uniforms(&self) -> Seq<Uniform> {
        self.uniform_defs@
    }

    /// The program holds one handle per reported uniform, in the order
    /// reported, each tagged with the kind its type code stands for.
    pub open spec fn reflects(&self, reported: Seq<ReportedUniform>) -> bool {
        &&& self.spec_uniforms().len() == reported.len()
        &&& forall|i: int|
            0 <= i < reported.len() ==> {
                let u = #[trigger] self.spec_uniforms()[i];
                &&& Some(u.spec_kind()) == kind_of_gl_type(reported[i].gl_type)
                &&& u.spec_def().spec_id() == reported[i].def.spec_id()
                &&& u.spec_def().spec_name() == reported[i].def.spec_name()
                &&& u.spec_def().spec_data_size() == reported[i].def.spec_data_size()
            }
    }

    /// The program that linking into handle `id` gave, with a typed handle
    /// for each uniform it reports, in the order reported. A failed link
    /// gives its log as a `LinkError`; a reported type code without a
    /// handle type gives `UnsupportedUniformType` with that code.
    pub fn from_link_status(id: u32, linked: bool, log: String, reported: &[ReportedUniform]) -> (r:
        Result<ShaderProgram, ShaderIssue>)
        ensures
            !linked ==> (r matches Err(ShaderIssue::LinkError(m)) && m@ == log@),
            linked ==> (r is Ok <==> all_supported(reported@)),
            r matches Err(ShaderIssue::UnsupportedUniformType(c)) ==> exists|i: int|
                0 <= i < reported@.len() && (#[trigger] reported@[i]).gl_type == c
                    && kind_of_gl_type(c) is None,
            r matches Ok(p) ==> p.spec_id() == id && p.reflects(reported@),
    {
        if !linked {
            return Err(ShaderIssue::LinkError(log));
        }
        let mut unifs: Vec<Uniform> = Vec::new();
        let mut i: usize = 0;
        while i < reported.len()
            invariant
                linked,
                i <= reported@.len(),
                unifs@.len() == i,
                forall|k: int| 0 <= k < i ==> (#[trigger] kind_of_gl_type(reported@[k].gl_type)) is Some,
                forall|k: int|
                    0 <= k < i ==> {
                        let u = #[trigger] unifs@[k];
                        &&& Some(u.spec_kind()) == kind_of_gl_type(reported@[k].gl_type)
                        &&& u.spec_def().spec_id() == reported@[k].def.spec_id()
                        &&& u.spec_def().spec_name() == reported@[k].def.spec_name()
                        &&& u.spec_def().spec_data_size() == reported@[k].def.spec_data_size()
                    },
            decreases reported@.len() - i,
        {
            let rep = &reported[i];
            match Uniform::from_type(rep.gl_type, rep.def.duplicate()) {
                Some(u) => {
                    unifs.push(u);
                },
                None => {
                    assert(!all_supported(reported@));
                    return Err(ShaderIssue::UnsupportedUniformType(rep.gl_type));
                },
            }
            i = i + 1;
        }
        Ok(ShaderProgram { id, uniform_defs: unifs })
    }

    pub fn id(&self) -> (r: u32)
        ensures
            r == self.spec_id(),
    {
        self.id
    }

    /// Every uniform of the program, in the order the program reported them.
    pub fn uniforms(&self) -> (r: &[Uniform])
        ensures
            r@ == self.spec_uniforms(),
    {
        self.uniform_defs.as_slice()
    }

    /// The first uniform named `name`, if there is one.
    pub fn uniform_by_name(&self, name: &str) -> (r: Option<&Uniform>)
        ensures
            match find_named(self.spec_uniforms(), name@) {
                Some(i) => r matches Some(u) && *u == self.spec_uniforms()[i],
                None => r is None,
            },
    {
        let key: String = name.to_owned();
        let ghost us = self.uniform_defs@;
        let mut i: usize = 0;
        while i < self.uniform_defs.len()
            invariant
                us == self.uniform_defs@,
                key@ == name@,
                i <= us.len(),
                find_named(us.subrange(0, i as int), name@) is None,
            decreases us.len() - i,
        {
            let u = &self.uniform_defs[i];
            assert(us.subrange(0, i + 1).drop_last() =~= us.subrange(0, i as int));
            if u.definition().has_name(&key) {
                proof {
                    lemma_find_named_prefix(us, name@, (i + 1) as nat);
                }
                return Some(u);
            }
            i = i + 1;
        }
        assert(us.subrange(0, us.len() as int) =~= us);
        None
    }

    /// The uniform named `name`, provided the program reports it with type
    /// `kind`. Fails with `MissingUniform` when no uniform has that name,
    /// and with `UniformTypeMismatch` when the program reports another type:
    /// a handle of the wrong type is never handed out.
    pub fn uniform_of_kind(&self, name: &str, kind: UniformKind) -> (r: Result<&Uniform, ShaderIssue>)
        ensures
            match find_named(self.spec_uniforms(), name@) {
                Some(i) => if self.spec_uniforms()[i].spec_kind() == kind {
                    r matches Ok(u) && *u == self.spec_uniforms()[i]
                } else {
                    r matches Err(ShaderIssue::UniformTypeMismatch { name: n, expected, found })
                        && n@ == name@ && expected == kind && found
                        == self.spec_uniforms()[i].spec_kind()
                },
                None => r matches Err(ShaderIssue::MissingUniform(n)) && n@ == name@,
            },
            r is Ok <==> binds(self.spec_uniforms(), name@, kind),
            r matches Ok(u) ==> u.spec_kind() == kind,
    {
        match self.uniform_by_name(name) {
            None => Err(ShaderIssue::MissingUniform(name.to_owned())),
            Some(u) => {
                let found = u.kind();
                if found == kind {
                    Ok(u)
                } else {
                    Err(ShaderIssue::UniformTypeMismatch { name: name.to_owned(), expected: kind, found })
                }
            },
        }
    }
}

proof fn lemma_find_named_prefix(us: Seq<Uniform>, name: Seq<char>, n: nat)
    requires
        0 < n <= us.len(),
        find_named(us.subrange(0, n - 1), name) is None,
        us[n - 1].spec_def().spec_name() == name,
    ensures
        find_named(us, name) == Some(n - 1),
{
    let p = us.subrange(0, n as int);
    assert(p.drop_last() =~= us.subrange(0, n - 1));
    assert(find_named(p, name) == Some(n - 1));
    lemma_find_named_grow(us, name, n, n - 1);
}

proof fn lemma_find_named_grow(us: Seq<Uniform>, name: Seq<char>, n: nat, i: int)
    requires
        n <= us.len(),
        find_named(us.subrange(0, n as int), name) == Some(i),
    ensures
        find_named(us, name) == Some(i),
    decreases us.len(),
{
    if us.len() == n {
        assert(us.subrange(0, n as int) =~= us);
    } else {
        assert(us.drop_last().subrange(0, n as int) =~= us.subrange(0, n as int));
        lemma_find_named_grow(us.drop_last(), name, n, i);
    }
}

/// A handle is never handed out for a type other than the one the program
/// reports: in a program built from the reported uniforms, when the first
/// uniform called `name` was reported with a type code that does not stand
/// for `kind`, a request for `name` as `kind` fails.
pub proof fn lemma_mistyped_request_fails(
    p: ShaderProgram,
    reported: Seq<ReportedUniform>,
    name: Seq<char>,
    kind: UniformKind,
    i: int,
)
    requires
        p.reflects(reported),
        find_named(p.spec_uniforms(), name) == Some(i),
        kind_of_gl_type(reported[i].gl_type) != Some(kind),
    ensures
        !binds(p.spec_uniforms(), name, kind),
{
    lemma_find_named_bounds(p.spec_uniforms(), name);
    assert(Some(p.spec_uniforms()[i].spec_kind()) == kind_of_gl_type(reported[i].gl_type));
}

} // verus!
