//! The protocol-neutral agent API: fit requests become validated fit plans,
//! finished fits are cached under random handles, and cached fits are listed,
//! summarized, forgotten, and checked before ANOVA and bootstrap.
//!
//! The statistical engine and CSV loading stay outside: a caller hands the
//! library what the engine computed (link verdicts, the fitted model and the
//! facts it reports) as plain values.

use vstd::prelude::*;

use crate::dto::{
    AnovaRequest, BootstrapRequest, FitListEntry, FitListSummary, FitLmmRequest, FitModelRequest,
    FitSummary, ForgetFitResult, StartValue,
};
use crate::error::{agrees, invalid, not_found, AgentApiError, ApiErrorView};
use crate::model::{kind_name, AnovaType, BootMethod, DdfMethod, GlmmFamily, ModelKind};
use crate::session::{CachedFit, FitSession};
use crate::text::{ascii_lower, join3, owned};
use crate::validate::{
    anova_type_outcome, boot_method_outcome, bootstrap_input_problem, ddf_outcome, family_outcome, first_start_problem,
    link_outcome, normalized_name, opt_as_str, opt_string, parse_anova_type, parse_ddf_method,
    parse_boot_method, parse_glmm_family, parse_glmm_link, parse_nlmm_start, validate_bootstrap_input,
    validate_fit_input, validate_n_agq, fit_input_problem, start_in_name_order, LinkFacts,
};

verus! {

// ---------------------------------------------------------------- plans

/// A validated fit request with every default resolved: what the engine is to fit.
#[derive(Debug)]
pub struct FitPlan {
    pub model_kind: ModelKind,
    pub formula: String,
    pub data_path: String,
    pub reml: Option<bool>,
    pub family: Option<GlmmFamily>,
    pub n_agq: Option<usize>,
    pub start: Option<Vec<StartValue>>,
}

/// The mathematical model of a [`FitPlan`].
pub struct PlanView {
    pub model_kind: ModelKind,
    pub formula: Seq<char>,
    pub data_path: Seq<char>,
    pub reml: Option<bool>,
    pub family: Option<GlmmFamily>,
    pub n_agq: Option<usize>,
    pub start: Option<Seq<StartValue>>,
}

/// The view of optional start values.
pub open spec fn opt_start(o: Option<Vec<StartValue>>) -> Option<Seq<StartValue>> {
    match o {
        Some(v) => Some(v@),
        None => None,
    }
}

impl View for FitPlan {
    type V = PlanView;

    open spec fn view(&self) -> PlanView {
        PlanView {
            model_kind: self.model_kind,
            formula: self.formula@,
            data_path: self.data_path@,
            reml: self.reml,
            family: self.family,
            n_agq: self.n_agq,
            start: opt_start(self.start),
        }
    }
}

/// The executable result `r` is the abstract outcome `o`.
pub open spec fn plan_agrees(r: Result<FitPlan, AgentApiError>, o: Result<PlanView, ApiErrorView>) -> bool {
    match r {
        Ok(p) => o == Ok::<PlanView, ApiErrorView>(p@),
        Err(e) => o == Err::<PlanView, ApiErrorView>(e@),
    }
}

/// The plan for request `q` with the given resolved options.
pub open spec fn plan_of(
    kind: ModelKind,
    q: FitModelRequest,
    reml: Option<bool>,
    family: Option<GlmmFamily>,
    n_agq: Option<usize>,
    start: Option<Seq<StartValue>>,
) -> PlanView {
    PlanView {
        model_kind: kind,
        formula: q.formula@,
        data_path: q.data_path@,
        reml,
        family,
        n_agq,
        start,
    }
}

/// LM: none of the mixed-model options applies.
pub open spec fn lm_outcome(q: FitModelRequest) -> Result<PlanView, ApiErrorView> {
    if q.reml is Some || q.family is Some || q.link is Some || q.n_agq is Some || q.start is Some {
        Err(invalid("reml, family, link, n_agq, and start do not apply to lm models"@))
    } else {
        Ok(plan_of(ModelKind::Lm, q, None, None, None, None))
    }
}

/// LMM: GLMM and NLMM options are rejected; REML is the default.
pub open spec fn lmm_outcome(q: FitModelRequest) -> Result<PlanView, ApiErrorView> {
    if q.family is Some {
        Err(invalid("family applies to glmm models only"@))
    } else if q.link is Some {
        Err(invalid("link applies to glmm models only"@))
    } else if q.n_agq is Some {
        Err(invalid("n_agq applies to glmm and nlmm models only"@))
    } else if q.start is Some {
        Err(invalid("start applies to nlmm models only"@))
    } else {
        Ok(plan_of(ModelKind::Lmm, q, Some(q.reml.unwrap_or(true)), None, None, None))
    }
}

/// GLMM: REML and start values are rejected; the family is required, the link
/// must suit it, and one quadrature point is the default.
pub open spec fn glmm_outcome(q: FitModelRequest, facts: LinkFacts) -> Result<PlanView, ApiErrorView> {
    if q.reml is Some {
        Err(invalid("reml does not apply to glmm models"@))
    } else if q.start is Some {
        Err(invalid("start applies to nlmm models only"@))
    } else {
        match family_outcome(opt_string(q.family)) {
            Err(e) => Err(e),
            Ok(f) => match link_outcome(opt_string(q.link), f, facts) {
                Err(e) => Err(e),
                Ok(_) => {
                    let n = q.n_agq.unwrap_or(1);
                    if n == 0 {
                        Err(invalid("n_agq must be greater than zero"@))
                    } else {
                        Ok(plan_of(ModelKind::Glmm, q, None, Some(f), Some(n), None))
                    }
                },
            },
        }
    }
}

/// NLMM: family and link are rejected; ML is the default, one quadrature point is
/// the default, and start values must be named and finite.
pub open spec fn nlmm_outcome(q: FitModelRequest) -> Result<PlanView, ApiErrorView> {
    let n = q.n_agq.unwrap_or(1);
    if q.family is Some {
        Err(invalid("family applies to glmm models only"@))
    } else if q.link is Some {
        Err(invalid("link applies to glmm models only"@))
    } else if n == 0 {
        Err(invalid("n_agq must be greater than zero"@))
    } else if q.start is Some && first_start_problem(q.start->0@) is Some {
        Err(invalid(first_start_problem(q.start->0@)->0))
    } else {
        Ok(
            plan_of(
                ModelKind::Nlmm,
                q,
                Some(q.reml.unwrap_or(false)),
                None,
                Some(n),
                opt_start(q.start),
            ),
        )
    }
}

/// The outcome of the semantic fit request `q`: the formula and data path are
/// checked first, then the options of its model kind.
pub open spec fn fit_model_outcome(q: FitModelRequest, facts: LinkFacts) -> Result<PlanView, ApiErrorView> {
    match fit_input_problem(q.formula@, q.data_path@) {
        Some(m) => Err(invalid(m)),
        None => match q.model_kind {
            ModelKind::Lm => lm_outcome(q),
            ModelKind::Lmm => lmm_outcome(q),
            ModelKind::Glmm => glmm_outcome(q, facts),
            ModelKind::Nlmm => nlmm_outcome(q),
        },
    }
}

/// The semantic request that the compatible LMM request `q` stands for.
pub open spec fn lmm_request_of(q: FitLmmRequest) -> FitModelRequest {
    FitModelRequest {
        model_kind: ModelKind::Lmm,
        formula: q.formula,
        data_path: q.data_path,
        reml: Some(q.reml),
        family: None,
        link: None,
        n_agq: None,
        start: None,
    }
}

/// The outcome of the compatible LMM request `q`.
pub open spec fn fit_lmm_outcome(q: FitLmmRequest) -> Result<PlanView, ApiErrorView> {
    let m = lmm_request_of(q);
    match fit_input_problem(m.formula@, m.data_path@) {
        Some(p) => Err(invalid(p)),
        None => lmm_outcome(m),
    }
}

// ---------------------------------------------------------------- cached fits and summaries

/// What the engine reports of a finished fit.
#[derive(Debug)]
pub struct FitFacts {
    pub num_obs: usize,
    pub converged: Option<bool>,
    pub fixed_names: Option<Vec<String>>,
    pub family_name: Option<String>,
    pub link_name: Option<String>,
}

/// The family that metadata reports for a cached fit: the engine's family name in
/// lower case for a GLMM, nothing for other kinds.
pub open spec fn reported_family<F>(c: CachedFit<F>) -> Option<Seq<char>> {
    if c.model_kind == ModelKind::Glmm && c.family_name is Some {
        Some(ascii_lower(c.family_name->0@))
    } else {
        None
    }
}

/// The link that metadata reports for a cached fit: the engine's link name in
/// lower case for a GLMM, nothing for other kinds.
pub open spec fn reported_link<F>(c: CachedFit<F>) -> Option<Seq<char>> {
    if c.model_kind == ModelKind::Glmm && c.link_name is Some {
        Some(ascii_lower(c.link_name->0@))
    } else {
        None
    }
}

/// The mathematical model of a [`FitListEntry`].
pub struct EntryView {
    pub fit_id: Seq<char>,
    pub model_kind: ModelKind,
    pub formula: Seq<char>,
    pub data_path: Seq<char>,
    pub reml: Option<bool>,
    pub family: Option<Seq<char>>,
    pub link: Option<Seq<char>>,
    pub n_agq: Option<usize>,
    pub start: Option<Seq<StartValue>>,
    pub num_obs: usize,
}

impl View for FitListEntry {
    type V = EntryView;

    open spec fn view(&self) -> EntryView {
        EntryView {
            fit_id: self.fit_id@,
            model_kind: self.model_kind,
            formula: self.formula@,
            data_path: self.data_path@,
            reml: self.reml,
            family: opt_string(self.family),
            link: opt_string(self.link),
            n_agq: self.n_agq,
            start: opt_start(self.start),
            num_obs: self.num_obs,
        }
    }
}

/// The list entry of the fit `c` cached under `id`.
pub open spec fn entry_of<F>(id: Seq<char>, c: CachedFit<F>) -> EntryView {
    EntryView {
        fit_id: id,
        model_kind: c.model_kind,
        formula: c.formula@,
        data_path: c.data_path@,
        reml: c.reml,
        family: reported_family(c),
        link: reported_link(c),
        n_agq: c.n_agq,
        start: opt_start(c.start),
        num_obs: c.num_obs,
    }
}

/// The mathematical model of a [`FitSummary`].
pub struct SummaryView {
    pub entry: EntryView,
    pub converged: bool,
    pub fixed_names: Seq<String>,
}

impl View for FitSummary {
    type V = SummaryView;

    open spec fn view(&self) -> SummaryView {
        SummaryView {
            entry: EntryView {
                fit_id: self.fit_id@,
                model_kind: self.model_kind,
                formula: self.formula@,
                data_path: self.data_path@,
                reml: self.reml,
                family: opt_string(self.family),
                link: opt_string(self.link),
                n_agq: self.n_agq,
                start: opt_start(self.start),
                num_obs: self.num_obs,
            },
            converged: self.converged,
            fixed_names: self.fixed_names@,
        }
    }
}

/// The summary of the fit `c` cached under `id`: its metadata, convergence (false
/// when the engine does not say) and fixed-effect names (none when it does not say).
pub open spec fn summary_of<F>(id: Seq<char>, c: CachedFit<F>) -> SummaryView {
    SummaryView {
        entry: entry_of(id, c),
        converged: c.converged.unwrap_or(false),
        fixed_names: match c.fixed_names {
            Some(v) => v@,
            None => Seq::empty(),
        },
    }
}

/// The error for a handle that is not cached.
pub open spec fn unknown_fit(id: Seq<char>) -> ApiErrorView {
    not_found("unknown fit_id '"@ + id + "'"@)
}

/// The outcome of asking for the summary of `id` when the session holds `m`.
pub open spec fn fit_summary_outcome<F>(m: Map<Seq<char>, CachedFit<F>>, id: Seq<char>) -> Result<
    SummaryView,
    ApiErrorView,
> {
    if m.contains_key(id) {
        Ok(summary_of(id, m[id]))
    } else {
        Err(unknown_fit(id))
    }
}

/// The outcome of forgetting `id` when the session holds `m`: the forgotten handle.
pub open spec fn forget_outcome<F>(m: Map<Seq<char>, CachedFit<F>>, id: Seq<char>) -> Result<
    Seq<char>,
    ApiErrorView,
> {
    if m.contains_key(id) {
        Ok(id)
    } else {
        Err(unknown_fit(id))
    }
}

/// The error for an LMM-only operation applied to a fit of another kind.
pub open spec fn lmm_only_problem(operation: Seq<char>, kind: ModelKind) -> Option<Seq<char>> {
    if kind == ModelKind::Lmm {
        None
    } else {
        Some(operation + " currently supports lmm models only; fit is "@ + kind_name(kind))
    }
}

// ---------------------------------------------------------------- ANOVA and bootstrap plans

/// What the engine needs for a fixed-effects ANOVA of a cached LMM.
pub struct AnovaPlan<'a, F> {
    /// The handle of the fit, as requested.
    pub fit_id: String,
    pub ddf: DdfMethod,
    pub anova_type: AnovaType,
    /// The data the fit was made from; the ANOVA reloads it.
    pub data_path: String,
    pub fit: &'a F,
}

/// The outcome of an ANOVA request `q` when the session holds `m`: the fit must be
/// cached and an LMM, then the degrees-of-freedom method and the type must parse.
pub open spec fn anova_outcome<F>(m: Map<Seq<char>, CachedFit<F>>, q: AnovaRequest) -> Result<
    (DdfMethod, AnovaType, CachedFit<F>),
    ApiErrorView,
> {
    let id = q.fit_id@;
    if !m.contains_key(id) {
        Err(unknown_fit(id))
    } else if lmm_only_problem("anova"@, m[id].model_kind) is Some {
        Err(invalid(lmm_only_problem("anova"@, m[id].model_kind)->0))
    } else {
        match ddf_outcome(q.ddf_method@) {
            Err(e) => Err(e),
            Ok(d) => match anova_type_outcome(q.anova_type@) {
                Err(e) => Err(e),
                Ok(t) => Ok((d, t, m[id])),
            },
        }
    }
}

/// What the engine needs for bootstrap replicates of a cached LMM, with the
/// request's settings. The method is read by [`bootstrap_after_load`] once the
/// data is loaded.
pub struct BootstrapPlan<'a, F> {
    /// The handle of the fit, as requested.
    pub fit_id: String,
    /// The method as requested (verbatim); [`bootstrap_after_load`] reads it.
    pub method: String,
    pub nsim: usize,
    pub reml: bool,
    pub seed: Option<u64>,
    pub n_jobs: Option<usize>,
    /// Bit pattern of the `f64` confidence level, as requested.
    pub level_bits: u64,
    pub formula: String,
    pub data_path: String,
    pub fit: &'a F,
}

/// The outcome of a bootstrap request `q` when the session holds `m`: the numeric
/// settings are checked first, then the fit must be cached and an LMM.
pub open spec fn bootstrap_outcome<F>(m: Map<Seq<char>, CachedFit<F>>, q: BootstrapRequest) -> Result<
    CachedFit<F>,
    ApiErrorView,
> {
    let id = q.fit_id@;
    if bootstrap_input_problem(q.nsim, q.level_bits, q.n_jobs) is Some {
        Err(invalid(bootstrap_input_problem(q.nsim, q.level_bits, q.n_jobs)->0))
    } else if !m.contains_key(id) {
        Err(unknown_fit(id))
    } else if lmm_only_problem("bootstrap"@, m[id].model_kind) is Some {
        Err(invalid(lmm_only_problem("bootstrap"@, m[id].model_kind)->0))
    } else {
        Ok(m[id])
    }
}

// ---------------------------------------------------------------- helpers

fn clone_text_opt(o: &Option<String>) -> (r: Option<String>)
    ensures
        opt_string(r) == opt_string(*o),
{
    match o {
        Some(s) => Some(s.clone()),
        None => None,
    }
}

fn clone_texts(v: &Vec<String>) -> (r: Vec<String>)
    ensures
        r@ == v@,
{
    let mut r: Vec<String> = Vec::new();
    let n = v.len();
    let mut i: usize = 0;
    while i < n
        invariant
            n == v@.len(),
            i <= n,
            r@ == v@.subrange(0, i as int),
        decreases n - i,
    {
        r.push(v[i].clone());
        i = i + 1;
        assert(r@ =~= v@.subrange(0, i as int));
    }
    assert(v@.subrange(0, n as int) =~= v@);
    r
}

fn clone_start(o: &Option<Vec<StartValue>>) -> (r: Option<Vec<StartValue>>)
    ensures
        opt_start(r) == opt_start(*o),
{
    match o {
        None => None,
        Some(v) => {
            let mut r: Vec<StartValue> = Vec::new();
            let n = v.len();
            let mut i: usize = 0;
            while i < n
                invariant
                    n == v@.len(),
                    i <= n,
                    r@ == v@.subrange(0, i as int),
                decreases n - i,
            {
                r.push(StartValue { name: v[i].name.clone(), value_bits: v[i].value_bits });
                i = i + 1;
                assert(r@ =~= v@.subrange(0, i as int));
            }
            assert(v@.subrange(0, n as int) =~= v@);
            Some(r)
        },
    }
}

/// `uuid::Uuid::new_v4` rendered with `to_string`: a random version-4 UUID in its
/// hyphenated form, 36 characters with hyphens at positions 8, 13, 18 and 23.
/// Which UUID comes back is left open: it is drawn at random.
#[verifier::external_body]
fn new_fit_id() -> (id: String)
    ensures
        id@.len() == 36,
        id@[8] == '-' && id@[13] == '-' && id@[18] == '-' && id@[23] == '-',
{
    uuid::Uuid::new_v4().to_string()
}

/// The family and link that metadata reports for a cached fit.
pub fn glmm_family_link<F>(cached: &CachedFit<F>) -> (r: (Option<String>, Option<String>))
    ensures
        opt_string(r.0) == reported_family(*cached),
        opt_string(r.1) == reported_link(*cached),
{
    if cached.model_kind == ModelKind::Glmm {
        (
            normalized_name(opt_as_str(&cached.family_name)),
            normalized_name(opt_as_str(&cached.link_name)),
        )
    } else {
        (None, None)
    }
}

/// The summary of the fit `cached` under the handle `fit_id`.
pub fn fit_summary_from_cached<F>(fit_id: &str, cached: &CachedFit<F>) -> (r: FitSummary)
    ensures
        r@ == summary_of(fit_id@, *cached),
        r.converged == (cached.converged == Some(true)),
        r.fit_id@ == fit_id@,
        r.model_kind == cached.model_kind,
{
    let (family, link) = glmm_family_link(cached);
    let fixed_names = match &cached.fixed_names {
        Some(v) => clone_texts(v),
        None => Vec::new(),
    };
    let converged = match cached.converged {
        Some(b) => b,
        None => false,
    };
    let r = FitSummary {
        fit_id: owned(fit_id),
        model_kind: cached.model_kind,
        formula: cached.formula.clone(),
        data_path: cached.data_path.clone(),
        reml: cached.reml,
        family,
        link,
        n_agq: cached.n_agq,
        start: clone_start(&cached.start),
        num_obs: cached.num_obs,
        converged,
        fixed_names,
    };
    assert(r@.fixed_names =~= summary_of(fit_id@, *cached).fixed_names);
    r
}

/// The list entry of the fit `cached` under the handle `fit_id`.
fn list_entry_from_cached<F>(fit_id: String, cached: &CachedFit<F>) -> (r: FitListEntry)
    ensures
        r@ == entry_of(fit_id@, *cached),
{
    let (family, link) = glmm_family_link(cached);
    FitListEntry {
        fit_id,
        model_kind: cached.model_kind,
        formula: cached.formula.clone(),
        data_path: cached.data_path.clone(),
        reml: cached.reml,
        family,
        link,
        n_agq: cached.n_agq,
        start: clone_start(&cached.start),
        num_obs: cached.num_obs,
    }
}

/// Accepts only LMM fits for operations that the engine offers for LMMs alone.
pub fn ensure_lmm_operation<F>(cached: &CachedFit<F>, operation: &str) -> (r: Result<(), AgentApiError>)
    ensures
        agrees(
            r,
            match lmm_only_problem(operation@, cached.model_kind) {
                Some(m) => Err(invalid(m)),
                None => Ok(()),
            },
        ),
{
    if cached.model_kind == ModelKind::Lmm {
        Ok(())
    } else {
        Err(
            AgentApiError::InvalidInput(
                join3(operation, " currently supports lmm models only; fit is ", cached.model_kind.as_str()),
            ),
        )
    }
}

// ---------------------------------------------------------------- the API

/// The agent-facing API over one session of cached fits. Its view is the session's
/// map from `fit_id` to cached fit.
pub struct LmeAgentApi<F> {
    session: FitSession<F>,
}

impl<F> View for LmeAgentApi<F> {
    type V = Map<Seq<char>, CachedFit<F>>;

    closed spec fn view(&self) -> Map<Seq<char>, CachedFit<F>> {
        self.session@
    }
}

impl<F> LmeAgentApi<F> {
    /// An API with an empty session.
    pub fn new() -> (r: Self)
        ensures
            r@ == Map::<Seq<char>, CachedFit<F>>::empty(),
    {
        LmeAgentApi { session: FitSession::new() }
    }

    /// Validates a semantic fit request and resolves its defaults. `facts` is what
    /// the engine says of the requested (or canonical) GLMM link; it is consulted
    /// for GLMM requests only. Nothing is read or fitted here.
    pub fn fit_model(&self, request: FitModelRequest, facts: &LinkFacts) -> (r: Result<FitPlan, AgentApiError>)
        requires
            start_in_name_order(opt_start(request.start)),
        ensures
            plan_agrees(r, fit_model_outcome(request, *facts)),
    {
        match validate_fit_input(request.formula.as_str(), request.data_path.as_str()) {
            Err(e) => return Err(e),
            Ok(()) => {},
        }
        match request.model_kind {
            ModelKind::Lm => Self::fit_model_lm(request),
            ModelKind::Lmm => Self::fit_model_lmm(request),
            ModelKind::Glmm => Self::fit_model_glmm(request, facts),
            ModelKind::Nlmm => Self::fit_model_nlmm(request),
        }
    }

    /// Validates a compatible Gaussian LMM request: the semantic LMM request with
    /// the given REML choice.
    pub fn fit_lmm(&self, request: FitLmmRequest) -> (r: Result<FitPlan, AgentApiError>)
        ensures
            plan_agrees(r, fit_lmm_outcome(request)),
    {
        let q = FitModelRequest {
            model_kind: ModelKind::Lmm,
            formula: request.formula,
            data_path: request.data_path,
            reml: Some(request.reml),
            family: None,
            link: None,
            n_agq: None,
            start: None,
        };
        match validate_fit_input(q.formula.as_str(), q.data_path.as_str()) {
            Err(e) => return Err(e),
            Ok(()) => {},
        }
        Self::fit_model_lmm(q)
    }

    fn fit_model_lm(request: FitModelRequest) -> (r: Result<FitPlan, AgentApiError>)
        ensures
            plan_agrees(r, lm_outcome(request)),
    {
        if request.reml.is_some() || request.family.is_some() || request.link.is_some()
            || request.n_agq.is_some() || request.start.is_some() {
            return Err(
                AgentApiError::InvalidInput(
                    owned("reml, family, link, n_agq, and start do not apply to lm models"),
                ),
            );
        }
        Ok(
            FitPlan {
                model_kind: ModelKind::Lm,
                formula: request.formula,
                data_path: request.data_path,
                reml: None,
                family: None,
                n_agq: None,
                start: None,
            },
        )
    }

    fn fit_model_lmm(request: FitModelRequest) -> (r: Result<FitPlan, AgentApiError>)
        ensures
            plan_agrees(r, lmm_outcome(request)),
    {
        if request.family.is_some() {
            return Err(AgentApiError::InvalidInput(owned("family applies to glmm models only")));
        }
        if request.link.is_some() {
            return Err(AgentApiError::InvalidInput(owned("link applies to glmm models only")));
        }
        if request.n_agq.is_some() {
            return Err(
                AgentApiError::InvalidInput(owned("n_agq applies to glmm and nlmm models only")),
            );
        }
        if request.start.is_some() {
            return Err(AgentApiError::InvalidInput(owned("start applies to nlmm models only")));
        }
        let reml = match request.reml {
            Some(b) => b,
            None => true,
        };
        Ok(
            FitPlan {
                model_kind: ModelKind::Lmm,
                formula: request.formula,
                data_path: request.data_path,
                reml: Some(reml),
                family: None,
                n_agq: None,
                start: None,
            },
        )
    }

    fn fit_model_glmm(request: FitModelRequest, facts: &LinkFacts) -> (r: Result<FitPlan, AgentApiError>)
        ensures
            plan_agrees(r, glmm_outcome(request, *facts)),
    {
        if request.reml.is_some() {
            return Err(AgentApiError::InvalidInput(owned("reml does not apply to glmm models")));
        }
        if request.start.is_some() {
            return Err(AgentApiError::InvalidInput(owned("start applies to nlmm models only")));
        }
        let family = match parse_glmm_family(opt_as_str(&request.family)) {
            Ok(f) => f,
            Err(e) => return Err(e),
        };
        match parse_glmm_link(opt_as_str(&request.link), family, facts) {
            Ok(()) => {},
            Err(e) => return Err(e),
        }
        let n_agq = match request.n_agq {
            Some(n) => n,
            None => 1,
        };
        match validate_n_agq(n_agq) {
            Ok(()) => {},
            Err(e) => return Err(e),
        }
        Ok(
            FitPlan {
                model_kind: ModelKind::Glmm,
                formula: request.formula,
                data_path: request.data_path,
                reml: None,
                family: Some(family),
                n_agq: Some(n_agq),
                start: None,
            },
        )
    }

    fn fit_model_nlmm(request: FitModelRequest) -> (r: Result<FitPlan, AgentApiError>)
        requires
            start_in_name_order(opt_start(request.start)),
        ensures
            plan_agrees(r, nlmm_outcome(request)),
    {
        if request.family.is_some() {
            return Err(AgentApiError::InvalidInput(owned("family applies to glmm models only")));
        }
        if request.link.is_some() {
            return Err(AgentApiError::InvalidInput(owned("link applies to glmm models only")));
        }
        let reml = match request.reml {
            Some(b) => b,
            None => false,
        };
        let n_agq = match request.n_agq {
            Some(n) => n,
            None => 1,
        };
        match validate_n_agq(n_agq) {
            Ok(()) => {},
            Err(e) => return Err(e),
        }
        match parse_nlmm_start(request.start.as_ref()) {
            Ok(_) => {},
            Err(e) => return Err(e),
        }
        Ok(
            FitPlan {
                model_kind: ModelKind::Nlmm,
                formula: request.formula,
                data_path: request.data_path,
                reml: Some(reml),
                family: None,
                n_agq: Some(n_agq),
                start: request.start,
            },
        )
    }

    /// Caches a finished fit of `plan`, made from the data at the resolved
    /// `data_path`, under a random handle (a new version-4 UUID), and returns its
    /// summary. A fit already cached under the drawn handle would be replaced;
    /// the random draw makes that unlikely, and nothing here rules it out.
    pub fn record_fit(&mut self, plan: FitPlan, data_path: String, fit: F, facts: FitFacts) -> (r: FitSummary)
        ensures
            final(self)@ == old(self)@.insert(r.fit_id@, cached_from_plan(plan, data_path, fit, facts)),
            r@ == summary_of(r.fit_id@, cached_from_plan(plan, data_path, fit, facts)),
            r.fit_id@.len() == 36,
    {
        let cached = CachedFit {
            model_kind: plan.model_kind,
            formula: plan.formula,
            data_path,
            reml: plan.reml,
            n_agq: plan.n_agq,
            start: plan.start,
            num_obs: facts.num_obs,
            converged: facts.converged,
            fixed_names: facts.fixed_names,
            family_name: facts.family_name,
            link_name: facts.link_name,
            fit,
        };
        self.cache_fit(cached)
    }

    /// Caches `cached` under a random handle (a new version-4 UUID) and returns its
    /// summary. A fit already cached under the drawn handle would be replaced.
    pub fn cache_fit(&mut self, cached: CachedFit<F>) -> (r: FitSummary)
        ensures
            final(self)@ == old(self)@.insert(r.fit_id@, cached),
            r@ == summary_of(r.fit_id@, cached),
            r.fit_id@.len() == 36,
    {
        let fit_id = new_fit_id();
        self.cache_fit_with_id(fit_id, cached)
    }

    /// Caches `cached` under `fit_id`, replacing what was cached there, and returns
    /// its summary.
    pub fn cache_fit_with_id(&mut self, fit_id: String, cached: CachedFit<F>) -> (r: FitSummary)
        ensures
            final(self)@ == old(self)@.insert(fit_id@, cached),
            r@ == summary_of(fit_id@, cached),
            r.fit_id@ == fit_id@,
    {
        let summary = fit_summary_from_cached(fit_id.as_str(), &cached);
        self.session.insert(fit_id, cached);
        summary
    }

    /// The fit cached under `fit_id`.
    pub fn cached_fit(&self, fit_id: &str) -> (r: Result<&CachedFit<F>, AgentApiError>)
        ensures
            match r {
                Ok(c) => self@.contains_key(fit_id@) && *c == self@[fit_id@],
                Err(e) => !self@.contains_key(fit_id@) && e@ == unknown_fit(fit_id@),
            },
    {
        match self.session.get(fit_id) {
            Some(c) => Ok(c),
            None => Err(AgentApiError::NotFound(join3("unknown fit_id '", fit_id, "'"))),
        }
    }

    /// The listing of the session: the entry of every cached fit, in the session's
    /// key order. Two listings of one state are the same.
    pub closed spec fn listing(&self) -> Seq<EntryView> {
        self.session.key_order().map_values(|k: Seq<char>| entry_of(k, self@[k]))
    }

    /// `s` is the listing of this API's session, entry for entry.
    pub open spec fn lists(&self, s: FitListSummary) -> bool {
        &&& s.fits@.len() == self.listing().len()
        &&& forall|i: int| 0 <= i < s.fits@.len() ==> #[trigger] s.fits@[i]@ == self.listing()[i]
    }

    /// Metadata of every cached fit, each once, in the order of [`Self::listing`].
    pub fn list_fits(&self) -> (r: FitListSummary)
        ensures
            self.lists(r),
            forall|i: int|
                0 <= i < r.fits@.len() ==> self@.contains_key(#[trigger] r.fits@[i].fit_id@)
                    && r.fits@[i]@ == entry_of(r.fits@[i].fit_id@, self@[r.fits@[i].fit_id@]),
            forall|k: Seq<char>|
                #[trigger] self@.contains_key(k) ==> exists|i: int|
                    0 <= i < r.fits@.len() && #[trigger] r.fits@[i].fit_id@ == k,
            forall|i: int, j: int|
                0 <= i < r.fits@.len() && 0 <= j < r.fits@.len() && i != j ==> #[trigger] r.fits@[i].fit_id@
                    != #[trigger] r.fits@[j].fit_id@,
    {
        let all = self.session.list();
        let n = all.len();
        let mut fits: Vec<FitListEntry> = Vec::new();
        let mut i: usize = 0;
        while i < n
            invariant
                n == all@.len(),
                i <= n,
                fits@.len() == i,
                forall|j: int|
                    0 <= j < i ==> #[trigger] fits@[j]@ == entry_of(all@[j].0@, *all@[j].1),
            decreases n - i,
        {
            let (id, c) = &all[i];
            fits.push(list_entry_from_cached(id.clone(), *c));
            i = i + 1;
        }
        proof {
            assert forall|j: int| 0 <= j < fits@.len() implies #[trigger] fits@[j].fit_id@ == all@[j].0@ by {
                assert(fits@[j]@ == entry_of(all@[j].0@, *all@[j].1));
            }
            assert forall|k: Seq<char>| #[trigger] self@.contains_key(k) implies exists|j: int|
                0 <= j < fits@.len() && #[trigger] fits@[j].fit_id@ == k by {
                let j = choose|j: int| 0 <= j < all@.len() && #[trigger] all@[j].0@ == k;
                assert(fits@[j].fit_id@ == all@[j].0@);
            }
        }
        FitListSummary { fits }
    }

    /// The summary of the fit cached under `fit_id`.
    pub fn fit_summary(&self, fit_id: &str) -> (r: Result<FitSummary, AgentApiError>)
        ensures
            match (r, fit_summary_outcome(self@, fit_id@)) {
                (Ok(s), Ok(v)) => s@ == v,
                (Err(e), Err(v)) => e@ == v,
                _ => false,
            },
    {
        match self.cached_fit(fit_id) {
            Ok(c) => Ok(fit_summary_from_cached(fit_id, c)),
            Err(e) => Err(e),
        }
    }

    /// Drops the fit cached under `fit_id` and reports its handle; an unknown
    /// handle is an error and changes nothing.
    pub fn forget_fit(&mut self, fit_id: &str) -> (r: Result<ForgetFitResult, AgentApiError>)
        ensures
            final(self)@ == old(self)@.remove(fit_id@),
            match (r, forget_outcome(old(self)@, fit_id@)) {
                (Ok(f), Ok(v)) => f.forgotten@ == v,
                (Err(e), Err(v)) => e@ == v,
                _ => false,
            },
    {
        if self.session.remove(fit_id) {
            Ok(ForgetFitResult { forgotten: owned(fit_id) })
        } else {
            Err(AgentApiError::NotFound(join3("unknown fit_id '", fit_id, "'")))
        }
    }

    /// The semantic name of [`Self::list_fits`].
    pub fn list_models(&self) -> (r: FitListSummary)
        ensures
            self.lists(r),
            forall|i: int|
                0 <= i < r.fits@.len() ==> self@.contains_key(#[trigger] r.fits@[i].fit_id@)
                    && r.fits@[i]@ == entry_of(r.fits@[i].fit_id@, self@[r.fits@[i].fit_id@]),
            forall|k: Seq<char>|
                #[trigger] self@.contains_key(k) ==> exists|i: int|
                    0 <= i < r.fits@.len() && #[trigger] r.fits@[i].fit_id@ == k,
            forall|i: int, j: int|
                0 <= i < r.fits@.len() && 0 <= j < r.fits@.len() && i != j ==> #[trigger] r.fits@[i].fit_id@
                    != #[trigger] r.fits@[j].fit_id@,
    {
        self.list_fits()
    }

    /// The semantic name of [`Self::fit_summary`].
    pub fn model_summary(&self, fit_id: &str) -> (r: Result<FitSummary, AgentApiError>)
        ensures
            match (r, fit_summary_outcome(self@, fit_id@)) {
                (Ok(s), Ok(v)) => s@ == v,
                (Err(e), Err(v)) => e@ == v,
                _ => false,
            },
    {
        self.fit_summary(fit_id)
    }

    /// The semantic name of [`Self::forget_fit`].
    pub fn forget_model(&mut self, fit_id: &str) -> (r: Result<ForgetFitResult, AgentApiError>)
        ensures
            final(self)@ == old(self)@.remove(fit_id@),
            match (r, forget_outcome(old(self)@, fit_id@)) {
                (Ok(f), Ok(v)) => f.forgotten@ == v,
                (Err(e), Err(v)) => e@ == v,
                _ => false,
            },
    {
        self.forget_fit(fit_id)
    }

    /// Checks an ANOVA request against the session: the fit must be a cached LMM
    /// and the options must parse. The engine then reloads the data and tests.
    pub fn anova(&self, request: &AnovaRequest) -> (r: Result<AnovaPlan<'_, F>, AgentApiError>)
        ensures
            match (r, anova_outcome(self@, *request)) {
                (Ok(p), Ok((d, t, c))) => p.fit_id@ == request.fit_id@ && p.ddf == d && p.anova_type
                    == t && p.data_path@ == c.data_path@ && *p.fit == c.fit,
                (Err(e), Err(v)) => e@ == v,
                _ => false,
            },
    {
        let cached = match self.cached_fit(request.fit_id.as_str()) {
            Ok(c) => c,
            Err(e) => return Err(e),
        };
        match ensure_lmm_operation(cached, "anova") {
            Ok(()) => {},
            Err(e) => return Err(e),
        }
        let ddf = match parse_ddf_method(request.ddf_method.as_str()) {
            Ok(d) => d,
            Err(e) => return Err(e),
        };
        let anova_type = match parse_anova_type(request.anova_type.as_str()) {
            Ok(t) => t,
            Err(e) => return Err(e),
        };
        Ok(
            AnovaPlan {
                fit_id: request.fit_id.clone(),
                ddf,
                anova_type,
                data_path: cached.data_path.clone(),
                fit: &cached.fit,
            },
        )
    }

    /// Checks a bootstrap request against the session: the numeric settings must
    /// be sound and the fit must be a cached LMM.
    pub fn bootstrap(&self, request: &BootstrapRequest) -> (r: Result<BootstrapPlan<'_, F>, AgentApiError>)
        ensures
            match (r, bootstrap_outcome(self@, *request)) {
                (Ok(p), Ok(c)) => {
                    &&& p.fit_id@ == request.fit_id@
                    &&& p.method@ == request.method@
                    &&& p.nsim == request.nsim
                    &&& p.reml == request.reml
                    &&& p.seed == request.seed
                    &&& p.n_jobs == request.n_jobs
                    &&& p.level_bits == request.level_bits
                    &&& p.formula@ == c.formula@
                    &&& p.data_path@ == c.data_path@
                    &&& *p.fit == c.fit
                },
                (Err(e), Err(v)) => e@ == v,
                _ => false,
            },
    {
        match validate_bootstrap_input(request.nsim, request.level_bits, request.n_jobs) {
            Ok(()) => {},
            Err(e) => return Err(e),
        }
        let cached = match self.cached_fit(request.fit_id.as_str()) {
            Ok(c) => c,
            Err(e) => return Err(e),
        };
        match ensure_lmm_operation(cached, "bootstrap") {
            Ok(()) => {},
            Err(e) => return Err(e),
        }
        Ok(
            BootstrapPlan {
                fit_id: request.fit_id.clone(),
                method: request.method.clone(),
                nsim: request.nsim,
                reml: request.reml,
                seed: request.seed,
                n_jobs: request.n_jobs,
                level_bits: request.level_bits,
                formula: cached.formula.clone(),
                data_path: cached.data_path.clone(),
                fit: &cached.fit,
            },
        )
    }
}

/// The step of a bootstrap after its data was loaded: a failed load is reported
/// as it is, otherwise the requested method is read.
pub fn bootstrap_after_load(load: Result<(), AgentApiError>, method: &str) -> (r: Result<
    BootMethod,
    AgentApiError,
>)
    ensures
        match load {
            Err(e) => r matches Err(x) && x@ == e@,
            Ok(_) => agrees(r, boot_method_outcome(method@)),
        },
{
    match load {
        Err(e) => Err(e),
        Ok(()) => parse_boot_method(method),
    }
}

impl<F> Default for LmeAgentApi<F> {
    fn default() -> (r: Self)
        ensures
            r@ == Map::<Seq<char>, CachedFit<F>>::empty(),
    {
        Self::new()
    }
}

/// The cached fit that [`LmeAgentApi::record_fit`] stores for a finished fit.
pub open spec fn cached_from_plan<F>(plan: FitPlan, data_path: String, fit: F, facts: FitFacts) -> CachedFit<F> {
    CachedFit {
        model_kind: plan.model_kind,
        formula: plan.formula,
        data_path,
        reml: plan.reml,
        n_agq: plan.n_agq,
        start: plan.start,
        num_obs: facts.num_obs,
        converged: facts.converged,
        fixed_names: facts.fixed_names,
        family_name: facts.family_name,
        link_name: facts.link_name,
        fit,
    }
}

} // verus!
