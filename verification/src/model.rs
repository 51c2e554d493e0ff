//! The statistical choices an agent request can name: model kinds, GLMM families,
//! denominator-degrees-of-freedom methods, ANOVA types and bootstrap methods.

use vstd::prelude::*;

verus! {

/// The statistical meaning of a cached model.
#[derive(Debug, Clone, Copy, PartialEq, Eq, Structural)]
pub enum ModelKind {
    Lm,
    Lmm,
    Glmm,
    Nlmm,
}

/// The protocol name of a model kind.
pub open spec fn kind_name(k: ModelKind) -> Seq<char> {
    match k {
        ModelKind::Lm => "lm"@,
        ModelKind::Lmm => "lmm"@,
        ModelKind::Glmm => "glmm"@,
        ModelKind::Nlmm => "nlmm"@,
    }
}

impl ModelKind {
    /// The protocol name: `lm`, `lmm`, `glmm` or `nlmm`.
    pub fn as_str(&self) -> (r: &'static str)
        ensures
            r@ == kind_name(*self),
    {
        match self {
            ModelKind::Lm => "lm",
            ModelKind::Lmm => "lmm",
            ModelKind::Glmm => "glmm",
            ModelKind::Nlmm => "nlmm",
        }
    }
}

/// Response distribution of a generalized linear mixed model.
#[derive(Debug, Clone, Copy, PartialEq, Eq, Structural)]
pub enum GlmmFamily {
    Binomial,
    Poisson,
    Gaussian,
    Gamma,
}

/// Method for the denominator degrees of freedom of fixed-effects tests.
#[derive(Debug, Clone, Copy, PartialEq, Eq, Structural)]
pub enum DdfMethod {
    Satterthwaite,
    KenwardRoger,
}

/// Sums-of-squares type of a fixed-effects ANOVA table.
#[derive(Debug, Clone, Copy, PartialEq, Eq, Structural)]
pub enum AnovaType {
    Type1,
    Type2,
    Type3,
}

/// How bootstrap replicates are drawn.
#[derive(Debug, Clone, Copy, PartialEq, Eq, Structural)]
pub enum BootMethod {
    Parametric,
    Residual,
}

} // verus!
