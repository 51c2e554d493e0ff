//! What the request checks and parsers accept and produce, stated directly over
//! their inputs: which names denote which choice, which settings are accepted, and
//! what an accepted request is planned as.

use vstd::prelude::*;

use crate::api::{
    anova_outcome, bootstrap_outcome, entry_of, fit_model_outcome, lmm_only_problem, opt_start,
    summary_of,
};
use crate::dto::{AnovaRequest, BootstrapRequest, FitModelRequest, StartValue};
use crate::error::ApiErrorView;
use crate::model::{AnovaType, BootMethod, DdfMethod, GlmmFamily, ModelKind};
use crate::data::{
    location_problem, resolution_of, DataPathResolution, LocationFacts,
};
use crate::session::CachedFit;
use crate::text::{all_white, ascii_lower, trimmed, unicode_lowercase, unicode_uppercase};
use crate::validate::{
    anova_type_outcome, anova_type_upper_outcome, boot_method_lower_outcome, boot_method_outcome,
    bootstrap_input_problem, ddf_lower_outcome, ddf_outcome, family_normalized_outcome,
    family_outcome, finite_bits, first_start_problem, link_outcome, opt_string,
    start_value_problem, strictly_between_zero_and_one, LinkFacts,
};

verus! {

broadcast use vstd::string::group_string_axioms;

/// The degrees-of-freedom method names: `satterthwaite` or `sat` is Satterthwaite,
/// `kenward-roger`, `kenward_roger` or `kr` is Kenward-Roger, all else is refused.
pub proof fn rule_ddf_method_names(n: Seq<char>)
    ensures
        (ddf_lower_outcome(n) == Ok::<_, ApiErrorView>(DdfMethod::Satterthwaite)) <==> (n
            == "satterthwaite"@ || n == "sat"@),
        (ddf_lower_outcome(n) == Ok::<_, ApiErrorView>(DdfMethod::KenwardRoger)) <==> (n
            == "kenward-roger"@ || n == "kenward_roger"@ || n == "kr"@),
        ddf_lower_outcome(n) is Err <==> !(n == "satterthwaite"@ || n == "sat"@ || n
            == "kenward-roger"@ || n == "kenward_roger"@ || n == "kr"@),
        ddf_outcome(n) == ddf_lower_outcome(unicode_lowercase(n)),
{
    reveal_strlit("satterthwaite");
    reveal_strlit("sat");
    reveal_strlit("kenward-roger");
    reveal_strlit("kenward_roger");
    reveal_strlit("kr");
    assert("satterthwaite"@.len() != "sat"@.len());
    assert("satterthwaite"@[0] != "kenward-roger"@[0]);
    assert("satterthwaite"@[0] != "kenward_roger"@[0]);
    assert("satterthwaite"@.len() != "kr"@.len());
    assert("sat"@.len() != "kenward-roger"@.len());
    assert("sat"@.len() != "kenward_roger"@.len());
    assert("sat"@.len() != "kr"@.len());
    assert("kenward-roger"@[7] != "kenward_roger"@[7]);
    assert("kenward-roger"@.len() != "kr"@.len());
    assert("kenward_roger"@.len() != "kr"@.len());
}

/// The ANOVA type names: `I`, `1`, `TYPE1` or `TYPE I` is type I; `II`, `2`,
/// `TYPE2` or `TYPE II` is type II; `III`, `3`, `TYPE3` or `TYPE III` is type III
/// (compared in upper case); all else is refused.
pub proof fn rule_anova_type_names(n: Seq<char>)
    ensures
        (anova_type_upper_outcome(n) == Ok::<_, ApiErrorView>(AnovaType::Type1)) <==> (n == "I"@
            || n == "1"@ || n == "TYPE1"@ || n == "TYPE I"@),
        (anova_type_upper_outcome(n) == Ok::<_, ApiErrorView>(AnovaType::Type2)) <==> (n == "II"@
            || n == "2"@ || n == "TYPE2"@ || n == "TYPE II"@),
        (anova_type_upper_outcome(n) == Ok::<_, ApiErrorView>(AnovaType::Type3)) <==> (n == "III"@
            || n == "3"@ || n == "TYPE3"@ || n == "TYPE III"@),
        anova_type_upper_outcome(n) is Err <==> !(n == "I"@ || n == "1"@ || n == "TYPE1"@ || n
            == "TYPE I"@ || n == "II"@ || n == "2"@ || n == "TYPE2"@ || n == "TYPE II"@ || n
            == "III"@ || n == "3"@ || n == "TYPE3"@ || n == "TYPE III"@),
        anova_type_outcome(n) == anova_type_upper_outcome(unicode_uppercase(n)),
{
    reveal_strlit("I");
    reveal_strlit("1");
    reveal_strlit("TYPE1");
    reveal_strlit("TYPE I");
    reveal_strlit("II");
    reveal_strlit("2");
    reveal_strlit("TYPE2");
    reveal_strlit("TYPE II");
    reveal_strlit("III");
    reveal_strlit("3");
    reveal_strlit("TYPE3");
    reveal_strlit("TYPE III");
    assert("I"@[0] != "1"@[0]);
    assert("I"@.len() != "TYPE1"@.len());
    assert("I"@.len() != "TYPE I"@.len());
    assert("I"@.len() != "II"@.len());
    assert("I"@[0] != "2"@[0]);
    assert("I"@.len() != "TYPE2"@.len());
    assert("I"@.len() != "TYPE II"@.len());
    assert("I"@.len() != "III"@.len());
    assert("I"@[0] != "3"@[0]);
    assert("I"@.len() != "TYPE3"@.len());
    assert("I"@.len() != "TYPE III"@.len());
    assert("1"@.len() != "TYPE1"@.len());
    assert("1"@.len() != "TYPE I"@.len());
    assert("1"@.len() != "II"@.len());
    assert("1"@[0] != "2"@[0]);
    assert("1"@.len() != "TYPE2"@.len());
    assert("1"@.len() != "TYPE II"@.len());
    assert("1"@.len() != "III"@.len());
    assert("1"@[0] != "3"@[0]);
    assert("1"@.len() != "TYPE3"@.len());
    assert("1"@.len() != "TYPE III"@.len());
    assert("TYPE1"@.len() != "TYPE I"@.len());
    assert("TYPE1"@.len() != "II"@.len());
    assert("TYPE1"@.len() != "2"@.len());
    assert("TYPE1"@[4] != "TYPE2"@[4]);
    assert("TYPE1"@.len() != "TYPE II"@.len());
    assert("TYPE1"@.len() != "III"@.len());
    assert("TYPE1"@.len() != "3"@.len());
    assert("TYPE1"@[4] != "TYPE3"@[4]);
    assert("TYPE1"@.len() != "TYPE III"@.len());
    assert("TYPE I"@.len() != "II"@.len());
    assert("TYPE I"@.len() != "2"@.len());
    assert("TYPE I"@.len() != "TYPE2"@.len());
    assert("TYPE I"@.len() != "TYPE II"@.len());
    assert("TYPE I"@.len() != "III"@.len());
    assert("TYPE I"@.len() != "3"@.len());
    assert("TYPE I"@.len() != "TYPE3"@.len());
    assert("TYPE I"@.len() != "TYPE III"@.len());
    assert("II"@.len() != "2"@.len());
    assert("II"@.len() != "TYPE2"@.len());
    assert("II"@.len() != "TYPE II"@.len());
    assert("II"@.len() != "III"@.len());
    assert("II"@.len() != "3"@.len());
    assert("II"@.len() != "TYPE3"@.len());
    assert("II"@.len() != "TYPE III"@.len());
    assert("2"@.len() != "TYPE2"@.len());
    assert("2"@.len() != "TYPE II"@.len());
    assert("2"@.len() != "III"@.len());
    assert("2"@[0] != "3"@[0]);
    assert("2"@.len() != "TYPE3"@.len());
    assert("2"@.len() != "TYPE III"@.len());
    assert("TYPE2"@.len() != "TYPE II"@.len());
    assert("TYPE2"@.len() != "III"@.len());
    assert("TYPE2"@.len() != "3"@.len());
    assert("TYPE2"@[4] != "TYPE3"@[4]);
    assert("TYPE2"@.len() != "TYPE III"@.len());
    assert("TYPE II"@.len() != "III"@.len());
    assert("TYPE II"@.len() != "3"@.len());
    assert("TYPE II"@.len() != "TYPE3"@.len());
    assert("TYPE II"@.len() != "TYPE III"@.len());
    assert("III"@.len() != "3"@.len());
    assert("III"@.len() != "TYPE3"@.len());
    assert("III"@.len() != "TYPE III"@.len());
    assert("3"@.len() != "TYPE3"@.len());
    assert("3"@.len() != "TYPE III"@.len());
    assert("TYPE3"@.len() != "TYPE III"@.len());
}

/// The bootstrap method names: `parametric` or `param` is the parametric
/// bootstrap, `residual` or `res` the residual one, all else is refused.
pub proof fn rule_boot_method_names(n: Seq<char>)
    ensures
        (boot_method_lower_outcome(n) == Ok::<_, ApiErrorView>(BootMethod::Parametric)) <==> (n
            == "parametric"@ || n == "param"@),
        (boot_method_lower_outcome(n) == Ok::<_, ApiErrorView>(BootMethod::Residual)) <==> (n
            == "residual"@ || n == "res"@),
        boot_method_lower_outcome(n) is Err <==> !(n == "parametric"@ || n == "param"@ || n
            == "residual"@ || n == "res"@),
        boot_method_outcome(n) == boot_method_lower_outcome(unicode_lowercase(n)),
{
    reveal_strlit("parametric");
    reveal_strlit("param");
    reveal_strlit("residual");
    reveal_strlit("res");
    assert("parametric"@.len() != "param"@.len());
    assert("parametric"@.len() != "residual"@.len());
    assert("parametric"@.len() != "res"@.len());
    assert("param"@.len() != "residual"@.len());
    assert("param"@.len() != "res"@.len());
    assert("residual"@.len() != "res"@.len());
}

/// The GLMM family names, read after trimming and ASCII lower-casing: `binomial`,
/// `poisson`, `gaussian` or `normal`, and `gamma`; a missing or other name is
/// refused.
pub proof fn rule_family_names(f: Option<Seq<char>>)
    ensures
        f is None ==> family_outcome(f) is Err,
        f is Some ==> family_outcome(f) == family_normalized_outcome(ascii_lower(trimmed(f->0))),
        forall|n: Seq<char>|
            (#[trigger] family_normalized_outcome(n) == Ok::<_, ApiErrorView>(GlmmFamily::Binomial))
                <==> n == "binomial"@,
        forall|n: Seq<char>|
            (#[trigger] family_normalized_outcome(n) == Ok::<_, ApiErrorView>(GlmmFamily::Poisson))
                <==> n == "poisson"@,
        forall|n: Seq<char>|
            (#[trigger] family_normalized_outcome(n) == Ok::<_, ApiErrorView>(GlmmFamily::Gaussian))
                <==> (n == "gaussian"@ || n == "normal"@),
        forall|n: Seq<char>|
            (#[trigger] family_normalized_outcome(n) == Ok::<_, ApiErrorView>(GlmmFamily::Gamma))
                <==> n == "gamma"@,
        forall|n: Seq<char>|
            #[trigger] family_normalized_outcome(n) is Err <==> !(n == "binomial"@ || n
                == "poisson"@ || n == "gaussian"@ || n == "normal"@ || n == "gamma"@),
{
    reveal_strlit("binomial");
    reveal_strlit("poisson");
    reveal_strlit("gaussian");
    reveal_strlit("normal");
    reveal_strlit("gamma");
    assert("binomial"@.len() != "poisson"@.len());
    assert("binomial"@[0] != "gaussian"@[0]);
    assert("binomial"@.len() != "normal"@.len());
    assert("binomial"@.len() != "gamma"@.len());
    assert("poisson"@.len() != "gaussian"@.len());
    assert("poisson"@.len() != "normal"@.len());
    assert("poisson"@.len() != "gamma"@.len());
    assert("gaussian"@.len() != "normal"@.len());
    assert("gaussian"@.len() != "gamma"@.len());
    assert("normal"@.len() != "gamma"@.len());
}

/// Bootstrap settings are accepted exactly when replicates are asked for, the
/// level's bit pattern is that of a number strictly between 0 and 1 (above the
/// pattern of +0.0 and below that of 1.0), and the job count, if given, is not
/// zero. An absent job count is never a problem.
pub proof fn rule_bootstrap_settings(nsim: usize, level_bits: u64, n_jobs: Option<usize>)
    ensures
        bootstrap_input_problem(nsim, level_bits, n_jobs) is None <==> (nsim > 0 && 0 < level_bits
            && level_bits < 0x3ff0_0000_0000_0000 && n_jobs != Some(0usize)),
        nsim > 0 && 0 < level_bits && level_bits < 0x3ff0_0000_0000_0000 ==> bootstrap_input_problem(
            nsim,
            level_bits,
            None,
        ) is None,
{
}

/// In terms of the binary64 layout: a number is finite exactly when its exponent
/// field (bits 52 to 62) is not all ones, and it lies strictly between 0 and 1
/// exactly when its sign bit is clear, it is not +0.0 and its exponent field is
/// below that of 1.0.
pub proof fn rule_float_bit_tests(bits: u64)
    ensures
        finite_bits(bits) <==> (bits & 0x7ff0_0000_0000_0000) != 0x7ff0_0000_0000_0000,
        strictly_between_zero_and_one(bits) <==> ((bits >> 63) == 0 && bits != 0 && (bits >> 52)
            < 0x3ff),
{
    assert(((bits / 0x10_0000_0000_0000) % 0x800 != 0x7ff) <==> ((bits & 0x7ff0_0000_0000_0000)
        != 0x7ff0_0000_0000_0000)) by (bit_vector);
    assert((0 < bits && bits < 0x3ff0_0000_0000_0000) <==> ((bits >> 63) == 0 && bits != 0 && (bits
        >> 52) < 0x3ff)) by (bit_vector);
}

/// A start value is acceptable when its name is not blank and its value finite.
pub open spec fn start_value_ok(v: StartValue) -> bool {
    !all_white(v.name@) && (v.value_bits & 0x7ff0_0000_0000_0000) != 0x7ff0_0000_0000_0000
}

/// Start values are refused exactly when one of them is unacceptable, and the
/// reported problem is that of the first unacceptable one.
pub proof fn rule_start_values(s: Seq<StartValue>)
    ensures
        first_start_problem(s) is None <==> forall|i: int| 0 <= i < s.len() ==> start_value_ok(#[trigger] s[i]),
        first_start_problem(s) is Some ==> exists|i: int|
            0 <= i < s.len() && !start_value_ok(#[trigger] s[i]) && (forall|j: int| 0 <= j < i ==> start_value_ok(#[trigger] s[j]))
                && first_start_problem(s) == start_value_problem(s[i]),
    decreases s.len(),
{
    assert forall|v: StartValue| start_value_problem(v) is None <==> start_value_ok(v) by {
        rule_float_bit_tests(v.value_bits);
    }
    if s.len() > 0 {
        rule_start_values(s.drop_first());
        assert forall|i: int| 0 < i < s.len() implies s[i] == s.drop_first()[i - 1] by {}
        if first_start_problem(s) is None {
            assert forall|i: int| 0 <= i < s.len() implies start_value_ok(#[trigger] s[i]) by {
                if i > 0 {
                    assert(start_value_ok(s.drop_first()[i - 1]));
                }
            }
        } else if start_value_problem(s[0]) is Some {
            assert(!start_value_ok(s[0]));
        } else {
            let k = choose|k: int|
                0 <= k < s.drop_first().len() && !start_value_ok(#[trigger] s.drop_first()[k]) && (forall|j: int| 0 <= j < k ==> start_value_ok(#[trigger] s.drop_first()[j]))
                    && first_start_problem(s.drop_first()) == start_value_problem(s.drop_first()[k]);
            assert(s[k + 1] == s.drop_first()[k]);
            assert forall|j: int| 0 <= j < k + 1 implies start_value_ok(#[trigger] s[j]) by {
                if j > 0 {
                    assert(s[j] == s.drop_first()[j - 1]);
                }
            }
        }
        if forall|i: int| 0 <= i < s.len() ==> start_value_ok(#[trigger] s[i]) {
            assert(start_value_ok(s[0]));
            assert forall|i: int| 0 <= i < s.drop_first().len() implies start_value_ok(#[trigger] s.drop_first()[i]) by {
                assert(s.drop_first()[i] == s[i + 1]);
            }
        }
    }
}

/// The link of a GLMM of family `f` is accepted exactly when the engine knows a
/// requested link's name (or none was requested) and accepts the resulting link
/// for `f`.
pub proof fn rule_glmm_link(link: Option<Seq<char>>, f: GlmmFamily, facts: LinkFacts)
    ensures
        link_outcome(link, f, facts) is Ok <==> ((link is None || !facts.unparsable) && facts.check_for(f).valid),
{
}

/// The request was accepted for its model kind: none of the options that do not
/// apply is given, and the given ones are acceptable.
pub open spec fn request_acceptable(q: FitModelRequest, facts: LinkFacts) -> bool {
    &&& !all_white(q.formula@)
    &&& !all_white(q.data_path@)
    &&& match q.model_kind {
        ModelKind::Lm => q.reml is None && q.family is None && q.link is None && q.n_agq is None
            && q.start is None,
        ModelKind::Lmm => q.family is None && q.link is None && q.n_agq is None && q.start is None,
        ModelKind::Glmm => q.reml is None && q.start is None && q.n_agq != Some(0usize)
            && family_outcome(opt_string(q.family)) is Ok
            && link_outcome(opt_string(q.link), family_outcome(opt_string(q.family))->Ok_0, facts) is Ok,
        ModelKind::Nlmm => q.family is None && q.link is None && q.n_agq != Some(0usize)
            && (q.start is None || forall|i: int| 0 <= i < q.start->0@.len() ==> start_value_ok(#[trigger] q.start->0@[i])),
    }
}

/// A fit request is accepted exactly when it is acceptable for its kind; the plan
/// then keeps the kind, formula and data path; the REML choice is the requested
/// one with ML as NLMM default and REML as LMM default (none for LM and GLMM); the
/// family is the named one for a GLMM (none otherwise); a GLMM or NLMM uses the
/// requested quadrature points or one (none otherwise); an NLMM keeps its start
/// values (none otherwise).
pub proof fn rule_fit_model(q: FitModelRequest, facts: LinkFacts)
    ensures
        fit_model_outcome(q, facts) is Ok <==> request_acceptable(q, facts),
        fit_model_outcome(q, facts) is Ok ==> ({
            let p = fit_model_outcome(q, facts)->Ok_0;
            &&& p.model_kind == q.model_kind
            &&& p.formula == q.formula@
            &&& p.data_path == q.data_path@
            &&& p.reml == match q.model_kind {
                ModelKind::Lmm => Some(q.reml.unwrap_or(true)),
                ModelKind::Nlmm => Some(q.reml.unwrap_or(false)),
                _ => None,
            }
            &&& p.family == if q.model_kind == ModelKind::Glmm {
                Some(family_outcome(opt_string(q.family))->Ok_0)
            } else {
                None
            }
            &&& p.n_agq == if q.model_kind == ModelKind::Glmm || q.model_kind == ModelKind::Nlmm {
                Some(q.n_agq.unwrap_or(1))
            } else {
                None
            }
            &&& p.start == if q.model_kind == ModelKind::Nlmm {
                opt_start(q.start)
            } else {
                None
            }
        }),
{
    crate::text::lemma_trimmed_empty_iff_all_white(q.formula@);
    if q.start is Some {
        rule_start_values(q.start->0@);
    }
}

/// The summary of a cached fit reports the engine's own verdicts: converged only
/// when the engine says so (a fit reported as not converged, or without a verdict,
/// is summarized as not converged), the engine's fixed-effect names (none when it
/// gives none), and the cached metadata unchanged; a family and link (lower-cased)
/// only for a GLMM.
pub proof fn rule_summary_reports_engine<F>(id: Seq<char>, c: CachedFit<F>)
    ensures
        summary_of(id, c).converged <==> c.converged == Some(true),
        c.converged == Some(false) ==> !summary_of(id, c).converged,
        c.fixed_names is Some ==> summary_of(id, c).fixed_names == c.fixed_names->0@,
        c.fixed_names is None ==> summary_of(id, c).fixed_names.len() == 0,
        summary_of(id, c).entry == entry_of(id, c),
        entry_of(id, c).fit_id == id,
        entry_of(id, c).model_kind == c.model_kind,
        entry_of(id, c).formula == c.formula@,
        entry_of(id, c).data_path == c.data_path@,
        entry_of(id, c).reml == c.reml,
        entry_of(id, c).n_agq == c.n_agq,
        entry_of(id, c).start == opt_start(c.start),
        entry_of(id, c).num_obs == c.num_obs,
        c.model_kind == ModelKind::Glmm && c.family_name is Some ==> entry_of(id, c).family == Some(
            ascii_lower(c.family_name->0@),
        ),
        c.model_kind == ModelKind::Glmm && c.link_name is Some ==> entry_of(id, c).link == Some(
            ascii_lower(c.link_name->0@),
        ),
        c.model_kind != ModelKind::Glmm || c.family_name is None ==> entry_of(id, c).family is None,
        c.model_kind != ModelKind::Glmm || c.link_name is None ==> entry_of(id, c).link is None,
{
}

/// The operations for LMMs only accept an LMM and refuse every other kind.
pub proof fn rule_lmm_only(operation: Seq<char>, kind: ModelKind)
    ensures
        lmm_only_problem(operation, kind) is None <==> kind == ModelKind::Lmm,
{
}

/// An ANOVA request is accepted exactly when its fit is a cached LMM and both
/// options parse; the plan then carries the parsed options and the cached fit.
pub proof fn rule_anova<F>(m: Map<Seq<char>, CachedFit<F>>, q: AnovaRequest)
    ensures
        anova_outcome(m, q) is Ok <==> (m.contains_key(q.fit_id@) && m[q.fit_id@].model_kind
            == ModelKind::Lmm && ddf_outcome(q.ddf_method@) is Ok && anova_type_outcome(q.anova_type@) is Ok),
        anova_outcome(m, q) is Ok ==> anova_outcome(m, q)->Ok_0 == (
            ddf_outcome(q.ddf_method@)->Ok_0,
            anova_type_outcome(q.anova_type@)->Ok_0,
            m[q.fit_id@],
        ),
{
}

/// A bootstrap request is accepted exactly when its settings are sound (see
/// [`rule_bootstrap_settings`]) and its fit is a cached LMM; the plan then carries
/// that fit.
pub proof fn rule_bootstrap<F>(m: Map<Seq<char>, CachedFit<F>>, q: BootstrapRequest)
    ensures
        bootstrap_outcome(m, q) is Ok <==> (q.nsim > 0 && 0 < q.level_bits && q.level_bits
            < 0x3ff0_0000_0000_0000 && q.n_jobs != Some(0usize) && m.contains_key(q.fit_id@)
            && m[q.fit_id@].model_kind == ModelKind::Lmm),
        bootstrap_outcome(m, q) is Ok ==> bootstrap_outcome(m, q)->Ok_0 == m[q.fit_id@],
{
}

/// A relative data path is read under the data root exactly when one is
/// configured; an absolute path is always read as given.
pub proof fn rule_data_path_resolution(path_is_absolute: bool, root_configured: bool)
    ensures
        (resolution_of(path_is_absolute, root_configured) == DataPathResolution::UnderRoot) <==> (
        !path_is_absolute && root_configured),
{
}

/// Data is accepted exactly when it lies inside the configured data root (or no
/// root is configured) and its extension is `csv`; a path outside the root is
/// refused even when it names a CSV file, and every refusal is an input error.
pub proof fn rule_data_location(facts: LocationFacts)
    ensures
        location_problem(facts) is None <==> ((facts.root is None || facts.root->0.contains_path)
            && opt_string(facts.extension) == Some("csv"@)),
        facts.root is Some && !facts.root->0.contains_path ==> location_problem(facts) is Some
            && location_problem(facts) != Some("only CSV files are supported in this MCP server version"@),
{
    reveal_strlit("data_path ");
    reveal_strlit("only CSV files are supported in this MCP server version");
    if facts.root is Some && !facts.root->0.contains_path {
        let m = location_problem(facts)->0;
        assert(m[0] == 'd');
        assert("only CSV files are supported in this MCP server version"@[0] == 'o');
    }
}

} // verus!
