//! Properties that hold across the operations of the agent API.

use vstd::prelude::*;

use crate::api::{
    anova_outcome, bootstrap_outcome, cached_from_plan, entry_of, fit_lmm_outcome, fit_model_outcome,
    fit_summary_outcome, forget_outcome, lmm_only_problem, lmm_request_of, summary_of, unknown_fit,
    FitFacts, FitPlan, LmeAgentApi, opt_start,
};
use crate::dto::{AnovaRequest, BootstrapRequest, FitListSummary, FitLmmRequest, FitModelRequest};
use crate::error::invalid;
use crate::model::ModelKind;
use crate::session::CachedFit;
use crate::text::{unicode_lowercase, unicode_uppercase};
use crate::validate::{
    anova_type_outcome, boot_method_named, boot_method_outcome, bootstrap_input_problem,
    ddf_outcome, strictly_between_zero_and_one, LinkFacts,
};

verus! {

/// A fit cached under a handle is what a summary of that handle reports.
pub proof fn law_cached_fit_reads_back<F>(m: Map<Seq<char>, CachedFit<F>>, id: Seq<char>, c: CachedFit<F>)
    ensures
        m.insert(id, c).contains_key(id),
        fit_summary_outcome(m.insert(id, c), id) == Ok::<_, crate::error::ApiErrorView>(summary_of(id, c)),
{
}

/// Caching a fit under one handle leaves the summaries of all other handles as
/// they were.
pub proof fn law_cache_leaves_other_fits<F>(
    m: Map<Seq<char>, CachedFit<F>>,
    id: Seq<char>,
    c: CachedFit<F>,
    other: Seq<char>,
)
    requires
        other != id,
    ensures
        fit_summary_outcome(m.insert(id, c), other) == fit_summary_outcome(m, other),
{
}

/// After a handle is forgotten, asking for it or forgetting it again reports it
/// as unknown.
pub proof fn law_forgotten_fit_is_unknown<F>(m: Map<Seq<char>, CachedFit<F>>, id: Seq<char>)
    ensures
        fit_summary_outcome(m.remove(id), id) == Err::<crate::api::SummaryView, _>(unknown_fit(id)),
        forget_outcome(m.remove(id), id) == Err::<Seq<char>, _>(unknown_fit(id)),
{
}

/// A just-cached fit can be forgotten, and forgetting it leaves the session
/// as forgetting its handle would have left the session before.
pub proof fn law_forget_undoes_cache<F>(m: Map<Seq<char>, CachedFit<F>>, id: Seq<char>, c: CachedFit<F>)
    ensures
        forget_outcome(m.insert(id, c), id) == Ok::<_, crate::error::ApiErrorView>(id),
        m.insert(id, c).remove(id) == m.remove(id),
{
    assert(m.insert(id, c).remove(id) =~= m.remove(id));
}

/// The compatible LMM entry point behaves as the semantic request for an LMM
/// with the same formula, data and REML choice, whatever the link facts.
pub proof fn law_lmm_entry_point_is_semantic_lmm(q: FitLmmRequest, facts: LinkFacts)
    ensures
        fit_model_outcome(lmm_request_of(q), facts) == fit_lmm_outcome(q),
{
}

/// An option that does not apply to the requested model kind is rejected, never
/// ignored.
pub open spec fn has_inapplicable_option(q: FitModelRequest) -> bool {
    match q.model_kind {
        ModelKind::Lm => q.reml is Some || q.family is Some || q.link is Some || q.n_agq is Some
            || q.start is Some,
        ModelKind::Lmm => q.family is Some || q.link is Some || q.n_agq is Some || q.start is Some,
        ModelKind::Glmm => q.reml is Some || q.start is Some,
        ModelKind::Nlmm => q.family is Some || q.link is Some,
    }
}

/// A request with an option that does not apply to its model kind fails.
pub proof fn law_inapplicable_options_rejected(q: FitModelRequest, facts: LinkFacts)
    requires
        has_inapplicable_option(q),
    ensures
        fit_model_outcome(q, facts) is Err,
{
}

/// Defaults of an accepted request: an LMM uses REML and an NLMM uses ML unless
/// told otherwise; GLMMs and NLMMs use one quadrature point unless told otherwise.
pub proof fn law_fit_defaults(q: FitModelRequest, facts: LinkFacts)
    requires
        fit_model_outcome(q, facts) is Ok,
    ensures
        ({
            let p = fit_model_outcome(q, facts)->Ok_0;
            &&& p.model_kind == q.model_kind
            &&& (q.model_kind == ModelKind::Lmm ==> p.reml == Some(q.reml.unwrap_or(true)))
            &&& (q.model_kind == ModelKind::Nlmm ==> p.reml == Some(q.reml.unwrap_or(false)))
            &&& ((q.model_kind == ModelKind::Glmm || q.model_kind == ModelKind::Nlmm) ==> p.n_agq
                == Some(q.n_agq.unwrap_or(1)))
            &&& (q.model_kind == ModelKind::Nlmm ==> p.start == opt_start(q.start))
        }),
{
}

/// The metadata of a recorded fit is the plan it was fitted from.
pub proof fn law_summary_reports_plan<F>(plan: FitPlan, data_path: String, fit: F, facts: FitFacts, id: Seq<char>)
    ensures
        ({
            let s = summary_of(id, cached_from_plan(plan, data_path, fit, facts));
            &&& s.entry.fit_id == id
            &&& s.entry.model_kind == plan@.model_kind
            &&& s.entry.formula == plan@.formula
            &&& s.entry.data_path == data_path@
            &&& s.entry.reml == plan@.reml
            &&& s.entry.n_agq == plan@.n_agq
            &&& s.entry.start == plan@.start
            &&& s.entry.num_obs == facts.num_obs
        }),
{
}

/// ANOVA is refused for every cached fit that is not an LMM.
pub proof fn law_anova_is_lmm_only<F>(m: Map<Seq<char>, CachedFit<F>>, q: AnovaRequest)
    requires
        m.contains_key(q.fit_id@),
        m[q.fit_id@].model_kind != ModelKind::Lmm,
    ensures
        anova_outcome(m, q) == Err::<(crate::model::DdfMethod, crate::model::AnovaType, CachedFit<F>), _>(
            invalid(lmm_only_problem("anova"@, m[q.fit_id@].model_kind)->0),
        ),
{
}

/// A well-formed bootstrap request is refused for every cached fit that is not an
/// LMM.
pub proof fn law_bootstrap_is_lmm_only<F>(m: Map<Seq<char>, CachedFit<F>>, q: BootstrapRequest)
    requires
        bootstrap_input_problem(q.nsim, q.level_bits, q.n_jobs) is None,
        m.contains_key(q.fit_id@),
        m[q.fit_id@].model_kind != ModelKind::Lmm,
    ensures
        bootstrap_outcome(m, q) == Err::<CachedFit<F>, _>(
            invalid(lmm_only_problem("bootstrap"@, m[q.fit_id@].model_kind)->0),
        ),
{
}

/// Method and type names are read without regard to case.
pub proof fn law_option_names_ignore_case(a: Seq<char>, b: Seq<char>)
    ensures
        unicode_lowercase(a) == unicode_lowercase(b) ==> ddf_outcome(a) == ddf_outcome(b)
            && boot_method_outcome(a) == boot_method_outcome(b),
        unicode_uppercase(a) == unicode_uppercase(b) ==> anova_type_outcome(a) == anova_type_outcome(b),
{
}

/// An ANOVA plan reads the session: the fit it hands out is the cached LMM under
/// the requested handle, and its options are the parsed request options.
pub proof fn law_anova_reads_the_session<F>(m: Map<Seq<char>, CachedFit<F>>, q: AnovaRequest)
    requires
        anova_outcome(m, q) is Ok,
    ensures
        ({
            let (d, t, c) = anova_outcome(m, q)->Ok_0;
            &&& m.contains_key(q.fit_id@)
            &&& c == m[q.fit_id@]
            &&& c.model_kind == ModelKind::Lmm
            &&& ddf_outcome(q.ddf_method@) == Ok::<_, crate::error::ApiErrorView>(d)
            &&& anova_type_outcome(q.anova_type@) == Ok::<_, crate::error::ApiErrorView>(t)
        }),
{
}

/// A bootstrap runs only for a sound request: replicates were asked for, the level
/// lies strictly between 0 and 1, no zero job count was given, the fit is a cached
/// LMM and the method names the parametric or residual bootstrap.
pub proof fn law_bootstrap_run_needs_valid_request<F>(m: Map<Seq<char>, CachedFit<F>>, q: BootstrapRequest)
    requires
        bootstrap_outcome(m, q) is Ok,
        boot_method_outcome(q.method@) is Ok,
    ensures
        q.nsim > 0,
        strictly_between_zero_and_one(q.level_bits),
        q.n_jobs != Some(0usize),
        m.contains_key(q.fit_id@),
        m[q.fit_id@].model_kind == ModelKind::Lmm,
        boot_method_named(unicode_lowercase(q.method@)) is Some,
{
}

/// The list entry of a cached fit is the metadata part of its summary, and only
/// GLMM entries report a family or a link.
pub proof fn law_listing_matches_summaries<F>(m: Map<Seq<char>, CachedFit<F>>, id: Seq<char>)
    requires
        m.contains_key(id),
    ensures
        fit_summary_outcome(m, id) == Ok::<_, crate::error::ApiErrorView>(summary_of(id, m[id])),
        summary_of(id, m[id]).entry == entry_of(id, m[id]),
        m[id].model_kind != ModelKind::Glmm ==> entry_of(id, m[id]).family is None
            && entry_of(id, m[id]).link is None,
{
}

/// One change of the session: a fit cached under a handle, or a handle forgotten.
/// Every other operation leaves the session as it is.
pub enum SessionEvent<F> {
    Cached(Seq<char>, CachedFit<F>),
    Forgotten(Seq<char>),
}

/// The session after one event.
pub open spec fn apply_event<F>(m: Map<Seq<char>, CachedFit<F>>, e: SessionEvent<F>) -> Map<
    Seq<char>,
    CachedFit<F>,
> {
    match e {
        SessionEvent::Cached(id, c) => m.insert(id, c),
        SessionEvent::Forgotten(id) => m.remove(id),
    }
}

/// The session after a sequence of events, starting from `m`.
pub open spec fn replay<F>(m: Map<Seq<char>, CachedFit<F>>, es: Seq<SessionEvent<F>>) -> Map<
    Seq<char>,
    CachedFit<F>,
>
    decreases es.len(),
{
    if es.len() == 0 {
        m
    } else {
        apply_event(replay(m, es.drop_last()), es.last())
    }
}

/// The handle `id` was cached by some event and not forgotten after the last such
/// event.
pub open spec fn is_live<F>(id: Seq<char>, es: Seq<SessionEvent<F>>) -> bool
    decreases es.len(),
{
    if es.len() == 0 {
        false
    } else {
        match es.last() {
            SessionEvent::Cached(i, _) => i == id || is_live(id, es.drop_last()),
            SessionEvent::Forgotten(i) => i != id && is_live(id, es.drop_last()),
        }
    }
}

/// The fit of the last event that cached `id`.
pub open spec fn last_cached<F>(id: Seq<char>, es: Seq<SessionEvent<F>>) -> CachedFit<F>
    decreases es.len(),
{
    if es.len() == 0 {
        arbitrary()
    } else {
        match es.last() {
            SessionEvent::Cached(i, c) => if i == id {
                c
            } else {
                last_cached(id, es.drop_last())
            },
            SessionEvent::Forgotten(_) => last_cached(id, es.drop_last()),
        }
    }
}

/// Starting from an empty session, the cached handles after any sequence of cache
/// and forget events are exactly those cached and not forgotten since, each with
/// the fit that was cached last under it. With the contract of `list_fits`, the
/// listing holds exactly these handles, each once.
pub proof fn law_session_holds_live_fits<F>(es: Seq<SessionEvent<F>>, id: Seq<char>)
    ensures
        replay(Map::<Seq<char>, CachedFit<F>>::empty(), es).contains_key(id) == is_live(id, es),
        is_live(id, es) ==> replay(Map::<Seq<char>, CachedFit<F>>::empty(), es)[id] == last_cached(
            id,
            es,
        ),
    decreases es.len(),
{
    if es.len() > 0 {
        law_session_holds_live_fits(es.drop_last(), id);
    }
}

/// Two listings of one state of the API are the same, entry for entry and in
/// the same order: `list_fits` and its semantic name `list_models` agree.
pub proof fn law_listings_of_one_state_agree<F>(api: LmeAgentApi<F>, a: FitListSummary, b: FitListSummary)
    requires
        api.lists(a),
        api.lists(b),
    ensures
        a.fits@.len() == b.fits@.len(),
        forall|i: int| 0 <= i < a.fits@.len() ==> #[trigger] a.fits@[i]@ == b.fits@[i]@,
{
    assert forall|i: int| 0 <= i < a.fits@.len() implies #[trigger] a.fits@[i]@ == b.fits@[i]@ by {
        assert(a.fits@[i]@ == api.listing()[i]);
        assert(b.fits@[i]@ == api.listing()[i]);
    }
}

} // verus!
