use lme_agent::api::{bootstrap_after_load, FitFacts, LmeAgentApi};
use lme_agent::dto::{AnovaRequest, BootstrapRequest, FitLmmRequest, FitModelRequest, StartValue};
use lme_agent::error::AgentApiError;
use lme_agent::model::{AnovaType, BootMethod, DdfMethod, GlmmFamily, ModelKind};
use lme_agent::validate::{LinkCheck, LinkFacts};

fn check(valid: bool, link: &str, family: &str) -> LinkCheck {
    LinkCheck {
        valid,
        link_name: link.to_string(),
        family_label: family.to_string(),
    }
}

fn canonical_facts() -> LinkFacts {
    LinkFacts {
        unparsable: false,
        binomial: check(true, "logit", "binomial"),
        poisson: check(true, "log", "poisson"),
        gaussian: check(true, "identity", "gaussian"),
        gamma: check(true, "inverse", "gamma"),
    }
}

fn request(kind: ModelKind) -> FitModelRequest {
    FitModelRequest {
        model_kind: kind,
        formula: "Reaction ~ Days + (1 | Subject)".to_string(),
        data_path: "sleepstudy.csv".to_string(),
        reml: None,
        family: None,
        link: None,
        n_agq: None,
        start: None,
    }
}

fn facts(num_obs: usize, family: Option<&str>, link: Option<&str>) -> FitFacts {
    FitFacts {
        num_obs,
        converged: Some(true),
        fixed_names: Some(vec!["(Intercept)".to_string(), "Days".to_string()]),
        family_name: family.map(|s| s.to_string()),
        link_name: link.map(|s| s.to_string()),
    }
}

#[test]
fn protocol_neutral_api_fit_lifecycle() {
    let mut api: LmeAgentApi<&str> = LmeAgentApi::new();
    let plan = api
        .fit_lmm(FitLmmRequest {
            formula: "Reaction ~ Days + (1 | Subject)".to_string(),
            data_path: "sleepstudy.csv".to_string(),
            reml: true,
        })
        .expect("valid LMM request");
    assert_eq!(plan.model_kind, ModelKind::Lmm);
    assert_eq!(plan.reml, Some(true));

    let fit = api.record_fit(plan, "/data/sleepstudy.csv".to_string(), "engine-fit", facts(180, None, None));
    assert_eq!(fit.model_kind, ModelKind::Lmm);
    assert_eq!(fit.reml, Some(true));
    assert_eq!(fit.family, None);
    assert_eq!(fit.link, None);
    assert_eq!(fit.n_agq, None);
    assert!(fit.start.is_none());
    assert_eq!(fit.num_obs, 180);
    assert!(fit.converged);
    assert_eq!(fit.fixed_names, vec!["(Intercept)".to_string(), "Days".to_string()]);
    assert_eq!(fit.data_path, "/data/sleepstudy.csv");

    let listed = api.list_fits();
    assert_eq!(listed.fits.len(), 1);
    assert_eq!(listed.fits[0].fit_id, fit.fit_id);
    assert_eq!(listed.fits[0].model_kind, ModelKind::Lmm);
    assert_eq!(listed.fits[0].reml, Some(true));

    let summary = api.fit_summary(&fit.fit_id).expect("cached summary");
    assert_eq!(summary.formula, fit.formula);
    assert_eq!(summary.model_kind, ModelKind::Lmm);
    assert_eq!(summary.fit_id, fit.fit_id);
    assert_eq!(api.cached_fit(&fit.fit_id).expect("cached fit").fit, "engine-fit");

    let forgotten = api.forget_fit(&fit.fit_id).expect("forget fit");
    assert_eq!(forgotten.forgotten, fit.fit_id);
    assert!(api.list_fits().fits.is_empty());

    let again = api.forget_fit(&fit.fit_id).expect_err("second forget fails");
    assert!(matches!(again, AgentApiError::NotFound(_)));
    assert_eq!(again.message(), format!("unknown fit_id '{}'", fit.fit_id));
    let missing = api.fit_summary(&fit.fit_id).expect_err("forgotten fit is unknown");
    assert!(matches!(missing, AgentApiError::NotFound(_)));
}

#[test]
fn fit_ids_are_hyphenated_uuids_and_distinct() {
    let mut api: LmeAgentApi<u32> = LmeAgentApi::new();
    let a = api.record_fit(
        api.fit_model(request(ModelKind::Lmm), &canonical_facts()).unwrap(),
        "a.csv".to_string(),
        1,
        facts(10, None, None),
    );
    let b = api.record_fit(
        api.fit_model(request(ModelKind::Lmm), &canonical_facts()).unwrap(),
        "b.csv".to_string(),
        2,
        facts(20, None, None),
    );
    for id in [&a.fit_id, &b.fit_id] {
        assert_eq!(id.len(), 36);
        for (i, c) in id.chars().enumerate() {
            if [8, 13, 18, 23].contains(&i) {
                assert_eq!(c, '-');
            } else {
                assert!(c.is_ascii_hexdigit());
            }
        }
    }
    assert_ne!(a.fit_id, b.fit_id);
    assert_eq!(api.list_fits().fits.len(), 2);
    assert_eq!(api.cached_fit(&a.fit_id).unwrap().fit, 1);
    assert_eq!(api.cached_fit(&b.fit_id).unwrap().fit, 2);
}

#[test]
fn cache_under_existing_id_replaces_the_fit() {
    let mut api: LmeAgentApi<u32> = LmeAgentApi::new();
    let plan = api.fit_model(request(ModelKind::Lmm), &canonical_facts()).unwrap();
    let first = api.record_fit(plan, "a.csv".to_string(), 1, facts(10, None, None));
    let cached = api.cached_fit(&first.fit_id).unwrap();
    let replacement = lme_agent::session::CachedFit {
        model_kind: cached.model_kind,
        formula: "y ~ 1".to_string(),
        data_path: cached.data_path.clone(),
        reml: Some(false),
        n_agq: None,
        start: None,
        num_obs: 7,
        converged: None,
        fixed_names: None,
        family_name: None,
        link_name: None,
        fit: 9,
    };
    let summary = api.cache_fit_with_id(first.fit_id.clone(), replacement);
    assert_eq!(summary.fit_id, first.fit_id);
    assert!(!summary.converged);
    assert!(summary.fixed_names.is_empty());
    assert_eq!(api.list_fits().fits.len(), 1);
    let now = api.fit_summary(&first.fit_id).unwrap();
    assert_eq!(now.formula, "y ~ 1");
    assert_eq!(now.num_obs, 7);
    assert_eq!(api.cached_fit(&first.fit_id).unwrap().fit, 9);
}

#[test]
fn protocol_neutral_fit_model_glmm_lifecycle() {
    let mut api: LmeAgentApi<()> = LmeAgentApi::new();
    let mut q = request(ModelKind::Glmm);
    q.formula = "y ~ x + (1 | group)".to_string();
    q.family = Some("Poisson".to_string());
    q.n_agq = Some(1);
    let plan = api.fit_model(q, &canonical_facts()).expect("valid GLMM");
    assert_eq!(plan.family, Some(GlmmFamily::Poisson));
    assert_eq!(plan.reml, None);
    assert_eq!(plan.n_agq, Some(1));

    let fit = api.record_fit(plan, "poisson_glmm.csv".to_string(), (), facts(36, Some("Poisson"), Some("Log")));
    assert_eq!(fit.model_kind, ModelKind::Glmm);
    assert_eq!(fit.reml, None);
    assert_eq!(fit.family.as_deref(), Some("poisson"));
    assert_eq!(fit.link.as_deref(), Some("log"));
    assert_eq!(fit.n_agq, Some(1));
    assert_eq!(fit.num_obs, 36);

    let listed = api.list_fits();
    assert_eq!(listed.fits[0].family.as_deref(), Some("poisson"));
    assert_eq!(listed.fits[0].link.as_deref(), Some("log"));

    let error = api
        .anova(&AnovaRequest {
            fit_id: fit.fit_id.clone(),
            ddf_method: "satterthwaite".to_string(),
            anova_type: "III".to_string(),
        })
        .err()
        .expect("LMM ANOVA must reject GLMMs");
    assert!(error.message().contains("lmm models only"));
    assert_eq!(error.message(), "anova currently supports lmm models only; fit is glmm");

    let boot = api
        .bootstrap(&BootstrapRequest {
            fit_id: fit.fit_id.clone(),
            nsim: 2,
            method: "parametric".to_string(),
            reml: true,
            seed: Some(1),
            n_jobs: Some(1),
            level_bits: 0.95f64.to_bits(),
        })
        .err()
        .expect("LMM bootstrap must reject GLMMs");
    assert_eq!(boot.message(), "bootstrap currently supports lmm models only; fit is glmm");

    api.forget_fit(&fit.fit_id).expect("forget GLMM");
    assert!(api.list_fits().fits.is_empty());
}

#[test]
fn non_glmm_fits_report_no_family_or_link() {
    let mut api: LmeAgentApi<()> = LmeAgentApi::new();
    let plan = api.fit_model(request(ModelKind::Lmm), &canonical_facts()).unwrap();
    let fit = api.record_fit(plan, "s.csv".to_string(), (), facts(180, Some("Gaussian"), Some("Identity")));
    assert_eq!(fit.family, None);
    assert_eq!(fit.link, None);
}

#[test]
fn protocol_neutral_fit_model_nlmm_lifecycle() {
    let mut api: LmeAgentApi<()> = LmeAgentApi::new();
    let mut q = request(ModelKind::Nlmm);
    q.formula = "y ~ SSmicmen(x, Vmax, K) ~ Vmax|g".to_string();
    q.start = Some(vec![
        StartValue { name: "K".to_string(), value_bits: 1.5f64.to_bits() },
        StartValue { name: "Vmax".to_string(), value_bits: 10.0f64.to_bits() },
    ]);
    let plan = api.fit_model(q, &canonical_facts()).expect("valid NLMM");
    assert_eq!(plan.model_kind, ModelKind::Nlmm);
    assert_eq!(plan.reml, Some(false));
    assert_eq!(plan.n_agq, Some(1));
    assert_eq!(plan.family, None);
    let start = plan.start.as_ref().expect("start kept");
    assert_eq!(start.len(), 2);
    assert_eq!(start[0].name, "K");
    assert_eq!(f64::from_bits(start[0].value_bits), 1.5);
    assert_eq!(start[1].name, "Vmax");
    assert_eq!(f64::from_bits(start[1].value_bits), 10.0);

    let fit = api.record_fit(plan, "nlmm_micmen.csv".to_string(), (), facts(40, None, None));
    assert_eq!(fit.reml, Some(false));
    assert_eq!(fit.n_agq, Some(1));
    let s = fit.start.as_ref().expect("start reported");
    assert_eq!(s[1].name, "Vmax");
    let listed = api.list_fits();
    assert_eq!(listed.fits[0].start.as_ref().unwrap()[0].name, "K");
    let error = api
        .anova(&AnovaRequest {
            fit_id: fit.fit_id.clone(),
            ddf_method: "satterthwaite".to_string(),
            anova_type: "III".to_string(),
        })
        .err()
        .expect("LMM ANOVA must reject NLMMs");
    assert!(error.message().contains("lmm models only"));
}

#[test]
fn anova_and_bootstrap_plans_for_an_lmm() {
    let mut api: LmeAgentApi<u8> = LmeAgentApi::new();
    let plan = api.fit_model(request(ModelKind::Lmm), &canonical_facts()).unwrap();
    let fit = api.record_fit(plan, "/d/sleepstudy.csv".to_string(), 5, facts(180, None, None));

    let anova = api
        .anova(&AnovaRequest {
            fit_id: fit.fit_id.clone(),
            ddf_method: "Kenward-Roger".to_string(),
            anova_type: "type ii".to_string(),
        })
        .ok()
        .expect("LMM ANOVA plan");
    assert_eq!(anova.fit_id, fit.fit_id);
    assert_eq!(anova.ddf, DdfMethod::KenwardRoger);
    assert_eq!(anova.anova_type, AnovaType::Type2);
    assert_eq!(anova.data_path, "/d/sleepstudy.csv");
    assert_eq!(*anova.fit, 5);

    let bad_type = api
        .anova(&AnovaRequest {
            fit_id: fit.fit_id.clone(),
            ddf_method: "sat".to_string(),
            anova_type: "IV".to_string(),
        })
        .err()
        .expect("unknown ANOVA type");
    assert_eq!(bad_type.message(), "unknown anova_type 'IV' (use I, II, or III)");

    let unknown = api
        .anova(&AnovaRequest {
            fit_id: "nope".to_string(),
            ddf_method: "sat".to_string(),
            anova_type: "III".to_string(),
        })
        .err()
        .expect("unknown fit");
    assert_eq!(unknown.message(), "unknown fit_id 'nope'");

    let boot = api
        .bootstrap(&BootstrapRequest {
            fit_id: fit.fit_id.clone(),
            nsim: 8,
            method: "parametric".to_string(),
            reml: true,
            seed: Some(1),
            n_jobs: Some(1),
            level_bits: 0.95f64.to_bits(),
        })
        .ok()
        .expect("LMM bootstrap plan");
    assert_eq!(boot.fit_id, fit.fit_id);
    assert_eq!(boot.method, "parametric");
    assert_eq!(boot.nsim, 8);
    assert_eq!(boot.seed, Some(1));
    assert_eq!(boot.n_jobs, Some(1));
    assert_eq!(f64::from_bits(boot.level_bits), 0.95);
    assert_eq!(boot.formula, "Reaction ~ Days + (1 | Subject)");
    assert_eq!(boot.data_path, "/d/sleepstudy.csv");
    assert_eq!(*boot.fit, 5);
}

#[test]
fn bootstrap_settings_are_checked_before_the_session() {
    let api: LmeAgentApi<u8> = LmeAgentApi::new();
    let base = |nsim: usize, level: f64, n_jobs: Option<usize>| BootstrapRequest {
        fit_id: "unknown".to_string(),
        nsim,
        method: "parametric".to_string(),
        reml: true,
        seed: None,
        n_jobs,
        level_bits: level.to_bits(),
    };
    let e = api.bootstrap(&base(0, 0.95, None)).err().unwrap();
    assert_eq!(e.message(), "nsim must be greater than zero");
    for level in [0.0, 1.0, -0.5, 1.5, f64::NAN, f64::INFINITY, -0.0] {
        let e = api.bootstrap(&base(10, level, None)).err().unwrap();
        assert_eq!(e.message(), "level must be finite and strictly between 0 and 1");
    }
    let e = api.bootstrap(&base(10, 0.9, Some(0))).err().unwrap();
    assert_eq!(e.message(), "n_jobs must be greater than zero when provided");
    let e = api.bootstrap(&base(10, 1e-300, Some(2))).err().unwrap();
    assert!(matches!(e, AgentApiError::NotFound(_)));
}

#[test]
fn semantic_lifecycle_aliases() {
    let mut api: LmeAgentApi<u8> = LmeAgentApi::new();
    let mut q = request(ModelKind::Lm);
    q.formula = "Reaction ~ Days".to_string();
    let plan = api.fit_model(q, &canonical_facts()).expect("LM plan");
    let fit = api.record_fit(plan, "sleepstudy.csv".to_string(), 3, facts(180, None, None));
    assert_eq!(fit.model_kind, ModelKind::Lm);
    assert_eq!(fit.fixed_names.len(), 2);

    let listed = api.list_models();
    assert_eq!(listed.fits.len(), 1);
    assert_eq!(listed.fits[0].fit_id, fit.fit_id);
    let summary = api.model_summary(&fit.fit_id).expect("semantic model summary");
    assert_eq!(summary.model_kind, ModelKind::Lm);
    let forgotten = api.forget_model(&fit.fit_id).expect("semantic forget model");
    assert_eq!(forgotten.forgotten, fit.fit_id);
    assert!(api.list_models().fits.is_empty());
}

#[test]
fn bootstrap_method_is_read_after_the_data_loads() {
    let loaded = bootstrap_after_load(Ok(()), "Residual").expect("known method");
    assert_eq!(loaded, BootMethod::Residual);
    let e = bootstrap_after_load(Ok(()), "wild").unwrap_err();
    assert_eq!(e.message(), "unknown boot method 'wild' (use parametric or residual)");
    let e = bootstrap_after_load(Err(AgentApiError::InvalidInput("failed to open \"x.csv\"".to_string())), "wild")
        .unwrap_err();
    assert_eq!(e.message(), "failed to open \"x.csv\"");
}

#[test]
fn listings_of_one_state_agree() {
    let mut api: LmeAgentApi<u8> = LmeAgentApi::new();
    for i in 0..4u8 {
        let plan = api.fit_model(request(ModelKind::Lmm), &canonical_facts()).unwrap();
        api.record_fit(plan, format!("d{i}.csv"), i, facts(10 + i as usize, None, None));
    }
    let a = api.list_fits();
    let b = api.list_models();
    let c = api.list_fits();
    let ids = |s: &lme_agent::dto::FitListSummary| s.fits.iter().map(|e| (e.fit_id.clone(), e.data_path.clone(), e.num_obs)).collect::<Vec<_>>();
    assert_eq!(a.fits.len(), 4);
    assert_eq!(ids(&a), ids(&b));
    assert_eq!(ids(&a), ids(&c));
}
