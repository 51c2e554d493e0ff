//! Protocol-neutral request and response types, and the defaults that requests
//! fall back on.
//!
//! Floating-point values that the library only checks (NLMM start values, the
//! bootstrap confidence level) are carried as their IEEE-754 binary64 bit
//! patterns, so that the checks can be stated and proved over integers.

use vstd::prelude::*;

use crate::model::ModelKind;

verus! {

/// One named NLMM start value; `value_bits` is the bit pattern of the `f64`.
#[derive(Debug)]
pub struct StartValue {
    pub name: String,
    pub value_bits: u64,
}

/// Request for the semantic `fit_model` operation.
#[derive(Debug)]
pub struct FitModelRequest {
    pub model_kind: ModelKind,
    /// Model formula, e.g. `Reaction ~ Days + (1 | Subject)`.
    pub formula: String,
    /// Path of a CSV file on the server host.
    pub data_path: String,
    pub reml: Option<bool>,
    pub family: Option<String>,
    pub link: Option<String>,
    pub n_agq: Option<usize>,
    /// NLMM start values, in strictly ascending order of name (as a map keyed by
    /// name holds them).
    pub start: Option<Vec<StartValue>>,
}

/// Request of the compatible Gaussian LMM entry point.
#[derive(Debug)]
pub struct FitLmmRequest {
    /// Wilkinson formula, e.g. `Reaction ~ Days + (1 | Subject)`.
    pub formula: String,
    /// Absolute or relative path to a CSV file on the server host.
    pub data_path: String,
    /// Use REML when true, ML when false.
    pub reml: bool,
}

/// A request that names one cached fit.
#[derive(Debug)]
pub struct FitIdRequest {
    /// Identifier returned by a fitting operation.
    pub fit_id: String,
}

/// Request for a fixed-effects ANOVA of a cached fit.
#[derive(Debug)]
pub struct AnovaRequest {
    pub fit_id: String,
    pub ddf_method: String,
    pub anova_type: String,
}

/// Request for bootstrap confidence intervals of a cached LMM.
#[derive(Debug)]
pub struct BootstrapRequest {
    pub fit_id: String,
    pub nsim: usize,
    pub method: String,
    pub reml: bool,
    pub seed: Option<u64>,
    pub n_jobs: Option<usize>,
    /// Bit pattern of the `f64` confidence level.
    pub level_bits: u64,
}

/// Essential metadata of one cached fit.
#[derive(Debug)]
pub struct FitListEntry {
    pub fit_id: String,
    pub model_kind: ModelKind,
    pub formula: String,
    pub data_path: String,
    pub reml: Option<bool>,
    pub family: Option<String>,
    pub link: Option<String>,
    pub n_agq: Option<usize>,
    pub start: Option<Vec<StartValue>>,
    pub num_obs: usize,
}

/// All cached fits.
#[derive(Debug)]
pub struct FitListSummary {
    pub fits: Vec<FitListEntry>,
}

/// The handle that a forget operation dropped.
#[derive(Debug)]
pub struct ForgetFitResult {
    pub forgotten: String,
}

/// The metadata part of a fit summary: everything but the estimates, which the
/// statistical engine holds.
#[derive(Debug)]
pub struct FitSummary {
    pub fit_id: String,
    pub model_kind: ModelKind,
    pub formula: String,
    pub data_path: String,
    pub reml: Option<bool>,
    pub family: Option<String>,
    pub link: Option<String>,
    pub n_agq: Option<usize>,
    pub start: Option<Vec<StartValue>>,
    pub num_obs: usize,
    pub converged: bool,
    pub fixed_names: Vec<String>,
}

/// REML is the default estimation mode of LMM requests.
pub fn default_reml() -> (r: bool)
    ensures
        r,
{
    true
}

/// Satterthwaite is the default denominator-degrees-of-freedom method.
pub fn default_ddf() -> (r: String)
    ensures
        r@ == "satterthwaite"@,
{
    crate::text::owned("satterthwaite")
}

/// Type III is the default ANOVA type.
pub fn default_anova_type() -> (r: String)
    ensures
        r@ == "III"@,
{
    crate::text::owned("III")
}

/// Two hundred replicates is the default bootstrap size.
pub fn default_nsim() -> (r: usize)
    ensures
        r == 200,
{
    200
}

/// The parametric bootstrap is the default method.
pub fn default_boot_method() -> (r: String)
    ensures
        r@ == "parametric"@,
{
    crate::text::owned("parametric")
}

} // verus!
