use lme_agent::api::LmeAgentApi;
use lme_agent::dto::{
    default_anova_type, default_boot_method, default_ddf, default_nsim, default_reml, FitLmmRequest,
    FitModelRequest, StartValue,
};
use lme_agent::error::AgentApiError;
use lme_agent::model::{AnovaType, BootMethod, DdfMethod, GlmmFamily, ModelKind};
use lme_agent::validate::{
    normalized_name, parse_anova_type, parse_boot_method, parse_ddf_method, parse_glmm_family,
    parse_glmm_link, parse_nlmm_start, validate_fit_input, validate_n_agq, LinkCheck, LinkFacts,
};

fn check(valid: bool, link: &str, family: &str) -> LinkCheck {
    LinkCheck {
        valid,
        link_name: link.to_string(),
        family_label: family.to_string(),
    }
}

fn facts(unparsable: bool, poisson_valid: bool) -> LinkFacts {
    LinkFacts {
        unparsable,
        binomial: check(true, "logit", "binomial"),
        poisson: check(poisson_valid, "identity", "poisson"),
        gaussian: check(true, "identity", "gaussian"),
        gamma: check(true, "inverse", "gamma"),
    }
}

fn request(kind: ModelKind) -> FitModelRequest {
    FitModelRequest {
        model_kind: kind,
        formula: "y ~ x".to_string(),
        data_path: "d.csv".to_string(),
        reml: None,
        family: None,
        link: None,
        n_agq: None,
        start: None,
    }
}

fn message(r: Result<lme_agent::api::FitPlan, AgentApiError>) -> String {
    match r {
        Ok(_) => panic!("expected an error"),
        Err(AgentApiError::InvalidInput(m)) => m,
        Err(other) => panic!("expected InvalidInput, got {}", other.message()),
    }
}

#[test]
fn blank_formula_and_data_path_are_rejected_first() {
    let e = validate_fit_input(" \t\n", "d.csv").unwrap_err();
    assert_eq!(e.message(), "formula must not be empty");
    let e = validate_fit_input("y ~ x", "\u{3000}").unwrap_err();
    assert_eq!(e.message(), "data_path must not be empty");
    assert!(validate_fit_input(" y ~ x ", " d.csv ").is_ok());

    let api: LmeAgentApi<()> = LmeAgentApi::new();
    let mut q = request(ModelKind::Glmm);
    q.formula = "   ".to_string();
    assert_eq!(message(api.fit_model(q, &facts(false, true))), "formula must not be empty");
    let e = api
        .fit_lmm(FitLmmRequest { formula: "y ~ x".to_string(), data_path: "".to_string(), reml: false })
        .unwrap_err();
    assert_eq!(e.message(), "data_path must not be empty");
}

#[test]
fn inapplicable_options_are_rejected_per_model_kind() {
    let api: LmeAgentApi<()> = LmeAgentApi::new();
    let f = facts(false, true);

    let mut q = request(ModelKind::Lm);
    q.n_agq = Some(1);
    assert_eq!(message(api.fit_model(q, &f)), "reml, family, link, n_agq, and start do not apply to lm models");

    let mut q = request(ModelKind::Lmm);
    q.family = Some("poisson".to_string());
    assert_eq!(message(api.fit_model(q, &f)), "family applies to glmm models only");
    let mut q = request(ModelKind::Lmm);
    q.link = Some("log".to_string());
    assert_eq!(message(api.fit_model(q, &f)), "link applies to glmm models only");
    let mut q = request(ModelKind::Lmm);
    q.n_agq = Some(2);
    assert_eq!(message(api.fit_model(q, &f)), "n_agq applies to glmm and nlmm models only");
    let mut q = request(ModelKind::Lmm);
    q.start = Some(vec![]);
    assert_eq!(message(api.fit_model(q, &f)), "start applies to nlmm models only");

    let mut q = request(ModelKind::Glmm);
    q.reml = Some(true);
    q.family = Some("poisson".to_string());
    assert_eq!(message(api.fit_model(q, &f)), "reml does not apply to glmm models");
    let mut q = request(ModelKind::Glmm);
    q.start = Some(vec![]);
    assert_eq!(message(api.fit_model(q, &f)), "start applies to nlmm models only");

    let mut q = request(ModelKind::Nlmm);
    q.family = Some("poisson".to_string());
    assert_eq!(message(api.fit_model(q, &f)), "family applies to glmm models only");
    let mut q = request(ModelKind::Nlmm);
    q.link = Some("log".to_string());
    assert_eq!(message(api.fit_model(q, &f)), "link applies to glmm models only");
}

#[test]
fn plain_requests_get_their_defaults() {
    let api: LmeAgentApi<()> = LmeAgentApi::new();
    let f = facts(false, true);
    let lm = api.fit_model(request(ModelKind::Lm), &f).unwrap();
    assert_eq!(lm.model_kind, ModelKind::Lm);
    assert_eq!((lm.reml, lm.family, lm.n_agq), (None, None, None));
    let lmm = api.fit_model(request(ModelKind::Lmm), &f).unwrap();
    assert_eq!(lmm.reml, Some(true));
    let mut q = request(ModelKind::Lmm);
    q.reml = Some(false);
    assert_eq!(api.fit_model(q, &f).unwrap().reml, Some(false));
    let nlmm = api.fit_model(request(ModelKind::Nlmm), &f).unwrap();
    assert_eq!((nlmm.reml, nlmm.n_agq), (Some(false), Some(1)));
    assert!(nlmm.start.is_none());
    let mut q = request(ModelKind::Glmm);
    q.family = Some("gamma".to_string());
    let glmm = api.fit_model(q, &f).unwrap();
    assert_eq!((glmm.family, glmm.n_agq, glmm.reml), (Some(GlmmFamily::Gamma), Some(1), None));
    assert_eq!(glmm.formula, "y ~ x");
    assert_eq!(glmm.data_path, "d.csv");

    let legacy = api
        .fit_lmm(FitLmmRequest { formula: "y ~ x".to_string(), data_path: "d.csv".to_string(), reml: false })
        .unwrap();
    assert_eq!((legacy.model_kind, legacy.reml), (ModelKind::Lmm, Some(false)));
}

#[test]
fn zero_quadrature_points_are_rejected() {
    assert_eq!(validate_n_agq(0).unwrap_err().message(), "n_agq must be greater than zero");
    assert!(validate_n_agq(3).is_ok());
    let api: LmeAgentApi<()> = LmeAgentApi::new();
    let mut q = request(ModelKind::Nlmm);
    q.n_agq = Some(0);
    assert_eq!(message(api.fit_model(q, &facts(false, true))), "n_agq must be greater than zero");
    let mut q = request(ModelKind::Glmm);
    q.family = Some("binomial".to_string());
    q.n_agq = Some(0);
    assert_eq!(message(api.fit_model(q, &facts(false, true))), "n_agq must be greater than zero");
}

#[test]
fn glmm_family_is_required_and_read_loosely() {
    assert_eq!(
        parse_glmm_family(None).unwrap_err().message(),
        "family is required for glmm models (binomial, poisson, gaussian, or gamma)"
    );
    assert_eq!(parse_glmm_family(Some("  Poisson \n")).unwrap(), GlmmFamily::Poisson);
    assert_eq!(parse_glmm_family(Some("BINOMIAL")).unwrap(), GlmmFamily::Binomial);
    assert_eq!(parse_glmm_family(Some("Normal")).unwrap(), GlmmFamily::Gaussian);
    assert_eq!(parse_glmm_family(Some("gaussian")).unwrap(), GlmmFamily::Gaussian);
    assert_eq!(parse_glmm_family(Some("gamma")).unwrap(), GlmmFamily::Gamma);
    assert_eq!(
        parse_glmm_family(Some(" Tweedie ")).unwrap_err().message(),
        "unknown glmm family 'tweedie' (use binomial, poisson, gaussian, or gamma)"
    );
}

#[test]
fn glmm_link_is_checked_against_the_engine_verdict() {
    let e = parse_glmm_link(Some("  probitx "), GlmmFamily::Poisson, &facts(true, true)).unwrap_err();
    assert_eq!(
        e.message(),
        "unknown glmm link 'probitx' (use logit, probit, cloglog, log, identity, inverse, or sqrt)"
    );
    let e = parse_glmm_link(Some("identity"), GlmmFamily::Poisson, &facts(false, false)).unwrap_err();
    assert_eq!(e.message(), "link 'identity' is not valid for family 'poisson'");
    assert!(parse_glmm_link(Some("identity"), GlmmFamily::Poisson, &facts(false, true)).is_ok());
    assert!(parse_glmm_link(None, GlmmFamily::Gamma, &facts(false, false)).is_ok());
}

#[test]
fn nlmm_start_values_must_be_named_and_finite() {
    let v = |n: &str, x: f64| StartValue { name: n.to_string(), value_bits: x.to_bits() };
    assert!(parse_nlmm_start(None).unwrap().is_empty());
    let good = vec![v("K", 1.5), v("Vmax", -3.0)];
    let parsed = parse_nlmm_start(Some(&good)).unwrap();
    assert_eq!(parsed.len(), 2);
    assert_eq!(parsed[1].name, "Vmax");
    assert_eq!(f64::from_bits(parsed[1].value_bits), -3.0);

    let e = parse_nlmm_start(Some(&vec![v(" ", 2.0), v("K", 1.0), v("V", f64::NAN)])).unwrap_err();
    assert_eq!(e.message(), "nlmm start parameter names must not be empty");
    let e = parse_nlmm_start(Some(&vec![v("K", f64::INFINITY), v("Vmax", f64::NAN)])).unwrap_err();
    assert_eq!(e.message(), "nlmm start value for 'K' must be finite");
    let e = parse_nlmm_start(Some(&vec![v("", 1.0), v("K", f64::INFINITY)])).unwrap_err();
    assert_eq!(e.message(), "nlmm start parameter names must not be empty");
    let e = parse_nlmm_start(Some(&vec![v("Vmax", f64::NEG_INFINITY)])).unwrap_err();
    assert_eq!(e.message(), "nlmm start value for 'Vmax' must be finite");
    assert!(parse_nlmm_start(Some(&vec![v("big", f64::MAX), v("tiny", f64::MIN_POSITIVE / 2.0)])).is_ok());
}

#[test]
fn option_names_are_read_without_regard_to_case() {
    assert_eq!(parse_ddf_method("Satterthwaite").unwrap(), DdfMethod::Satterthwaite);
    assert_eq!(parse_ddf_method("SAT").unwrap(), DdfMethod::Satterthwaite);
    assert_eq!(parse_ddf_method("KR").unwrap(), DdfMethod::KenwardRoger);
    assert_eq!(parse_ddf_method("kenward_roger").unwrap(), DdfMethod::KenwardRoger);
    assert_eq!(
        parse_ddf_method("Wald").unwrap_err().message(),
        "unknown ddf_method 'wald' (use satterthwaite or kenward-roger)"
    );

    assert_eq!(parse_anova_type("iii").unwrap(), AnovaType::Type3);
    assert_eq!(parse_anova_type("Type III").unwrap(), AnovaType::Type3);
    assert_eq!(parse_anova_type("2").unwrap(), AnovaType::Type2);
    assert_eq!(parse_anova_type("type1").unwrap(), AnovaType::Type1);
    assert_eq!(parse_anova_type("i").unwrap(), AnovaType::Type1);
    assert_eq!(parse_anova_type("type 3").unwrap_err().message(), "unknown anova_type 'TYPE 3' (use I, II, or III)");

    assert_eq!(parse_boot_method("Parametric").unwrap(), BootMethod::Parametric);
    assert_eq!(parse_boot_method("PARAM").unwrap(), BootMethod::Parametric);
    assert_eq!(parse_boot_method("Res").unwrap(), BootMethod::Residual);
    assert_eq!(
        parse_boot_method("Jackknife").unwrap_err().message(),
        "unknown boot method 'jackknife' (use parametric or residual)"
    );
}

#[test]
fn engine_names_are_reported_in_lower_case() {
    assert_eq!(normalized_name(Some("Poisson")).as_deref(), Some("poisson"));
    assert_eq!(normalized_name(Some("CLogLog")).as_deref(), Some("cloglog"));
    assert_eq!(normalized_name(None), None);
}

#[test]
fn request_defaults() {
    assert!(default_reml());
    assert_eq!(default_ddf(), "satterthwaite");
    assert_eq!(default_anova_type(), "III");
    assert_eq!(default_nsim(), 200);
    assert_eq!(default_boot_method(), "parametric");
    assert_eq!(parse_ddf_method(&default_ddf()).unwrap(), DdfMethod::Satterthwaite);
    assert_eq!(parse_anova_type(&default_anova_type()).unwrap(), AnovaType::Type3);
    assert_eq!(parse_boot_method(&default_boot_method()).unwrap(), BootMethod::Parametric);
}

#[test]
fn model_kind_protocol_names() {
    assert_eq!(ModelKind::Lm.as_str(), "lm");
    assert_eq!(ModelKind::Lmm.as_str(), "lmm");
    assert_eq!(ModelKind::Glmm.as_str(), "glmm");
    assert_eq!(ModelKind::Nlmm.as_str(), "nlmm");
}

#[test]
fn error_kinds_and_messages() {
    let e = AgentApiError::Computation("engine failed".to_string());
    assert!(!e.is_caller_error());
    assert_eq!(e.message(), "engine failed");
    assert!(AgentApiError::NotFound("x".to_string()).is_caller_error());
    assert!(AgentApiError::InvalidInput("y".to_string()).is_caller_error());
}
