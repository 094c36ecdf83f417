use vstd::prelude::*;

verus! {

/// Which shading-language family a fragment source belongs to.
#[derive(Clone, Copy, Debug, PartialEq, Eq, Structural)]
pub enum StageFamily {
    ExtendedShadingLanguage,
    LegacyStageLanguage,
}

/// Why a shader path cannot be used.
#[derive(Clone, Copy, Debug, PartialEq, Eq, Structural)]
pub enum ConfigError {
    /// No path was given.
    EmptyPath,
}

/// `s` ends with `suffix`.
pub open spec fn has_suffix(s: Seq<char>, suffix: Seq<char>) -> bool {
    suffix.len() <= s.len() && s.subrange(s.len() - suffix.len(), s.len() as int) == suffix
}

/// The family that a fragment source path decides: legacy for a path that
/// ends in `.frag`, the combined language for any other.
pub open spec fn family_of(path: Seq<char>) -> StageFamily {
    if has_suffix(path, ".frag"@) {
        StageFamily::LegacyStageLanguage
    } else {
        StageFamily::ExtendedShadingLanguage
    }
}

/// The vertex stage paired with a family.
pub open spec fn vertex_stage_of(family: StageFamily) -> Seq<char> {
    match family {
        StageFamily::LegacyStageLanguage => "shaders/default.vert"@,
        StageFamily::ExtendedShadingLanguage => "shaders/default.wgsl"@,
    }
}

/// The resolved pair of stages for one fragment source, fixed for the whole run.
#[derive(Debug)]
pub struct ShaderSpec {
    source_path: String,
    stage_family: StageFamily,
}

/// Abstract value of a `ShaderSpec`: the fragment path and its family.
pub struct ShaderSpecView {
    pub source_path: Seq<char>,
    pub stage_family: StageFamily,
}

impl View for ShaderSpec {
    type V = ShaderSpecView;

    closed spec fn view(&self) -> ShaderSpecView {
        ShaderSpecView { source_path: self.source_path@, stage_family: self.stage_family }
    }
}

/// `spec` is what resolving `path` gives.
pub open spec fn resolved_from(path: Seq<char>, spec: ShaderSpecView) -> bool {
    &&& spec.source_path == path
    &&& spec.stage_family == family_of(path)
}

/// Tests whether `s` ends with `suffix`, character by character.
pub fn ends_with(s: &str, suffix: &str) -> (r: bool)
    ensures
        r == has_suffix(s@, suffix@),
{
    let n = s.unicode_len();
    let m = suffix.unicode_len();
    if m > n {
        return false;
    }
    let off = n - m;
    let mut i: usize = 0;
    while i < m
        invariant
            n == s@.len(),
            m == suffix@.len(),
            off == n - m,
            i <= m,
            forall|j: int| 0 <= j < i ==> s@[off + j] == suffix@[j],
        decreases m - i,
    {
        if s.get_char(off + i) != suffix.get_char(i) {
            assert(s@.subrange(off as int, n as int)[i as int] != suffix@[i as int]);
            return false;
        }
        i = i + 1;
    }
    assert(s@.subrange(off as int, n as int) =~= suffix@);
    true
}

/// Resolves the stages for the fragment source at `path`.
///
/// A path that ends in `.frag` is legacy; any other path, with or without an
/// extension, takes the default combined-language pairing. An empty path is
/// the one configuration error.
pub fn resolve(path: &str) -> (r: Result<ShaderSpec, ConfigError>)
    ensures
        path@.len() == 0 <==> r is Err,
        r is Err ==> r == Err::<ShaderSpec, ConfigError>(ConfigError::EmptyPath),
        r matches Ok(spec) ==> resolved_from(path@, spec@),
{
    if path.unicode_len() == 0 {
        return Err(ConfigError::EmptyPath);
    }
    let stage_family = if ends_with(path, ".frag") {
        StageFamily::LegacyStageLanguage
    } else {
        StageFamily::ExtendedShadingLanguage
    };
    Ok(ShaderSpec { source_path: path.to_owned(), stage_family })
}

/// Resolving the same path twice gives the same shader description.
pub proof fn resolve_is_deterministic(path: Seq<char>, a: ShaderSpecView, b: ShaderSpecView)
    requires
        resolved_from(path, a),
        resolved_from(path, b),
    ensures
        a == b,
{
}

impl ShaderSpec {
    /// The family that was resolved.
    pub fn stage_family(&self) -> (r: StageFamily)
        ensures
            r == self@.stage_family,
    {
        self.stage_family
    }

    /// The fragment stage: the path exactly as it was given.
    pub fn fragment_stage(&self) -> (r: &str)
        ensures
            r@ == self@.source_path,
    {
        self.source_path.as_str()
    }

    /// The vertex stage paired with the resolved family.
    pub fn vertex_stage(&self) -> (r: &'static str)
        ensures
            r@ == vertex_stage_of(self@.stage_family),
    {
        match self.stage_family {
            StageFamily::LegacyStageLanguage => "shaders/default.vert",
            StageFamily::ExtendedShadingLanguage => "shaders/default.wgsl",
        }
    }
}

} // verus!
