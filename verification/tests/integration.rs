use lme_agent::api::LmeAgentApi;
use lme_agent::dto::{FitModelRequest, StartValue};
use lme_agent::error::AgentApiError;
use lme_agent::model::ModelKind;
use lme_agent::validate::{LinkCheck, LinkFacts};

fn check(valid: bool, link: &str, family: &str) -> LinkCheck {
    LinkCheck {
        valid,
        link_name: link.to_string(),
        family_label: family.to_string(),
    }
}

/// What the engine reports for a request whose link is `logit`.
fn logit_facts() -> LinkFacts {
    LinkFacts {
        unparsable: false,
        binomial: check(true, "logit", "binomial"),
        poisson: check(false, "logit", "poisson"),
        gaussian: check(false, "logit", "gaussian"),
        gamma: check(false, "logit", "gamma"),
    }
}

/// What the engine reports for a request without a link: canonical links.
fn canonical_facts() -> LinkFacts {
    LinkFacts {
        unparsable: false,
        binomial: check(true, "logit", "binomial"),
        poisson: check(true, "log", "poisson"),
        gaussian: check(true, "identity", "gaussian"),
        gamma: check(true, "inverse", "gamma"),
    }
}

#[test]
fn fit_model_rejects_invalid_glmm_family_link_before_io() {
    let api: LmeAgentApi<()> = LmeAgentApi::new();
    let error = api
        .fit_model(
            FitModelRequest {
                model_kind: ModelKind::Glmm,
                formula: "y ~ x + (1 | group)".to_string(),
                data_path: "does-not-exist.csv".to_string(),
                reml: None,
                family: Some("poisson".to_string()),
                link: Some("logit".to_string()),
                n_agq: Some(1),
                start: None,
            },
            &logit_facts(),
        )
        .expect_err("invalid family/link pair must be rejected");

    match error {
        AgentApiError::InvalidInput(message) => {
            assert!(message.contains("not valid for family"));
        }
        other => panic!("expected InvalidInput, got {}", other.message()),
    }
}

#[test]
fn fit_model_rejects_invalid_nlmm_start_before_io() {
    let api: LmeAgentApi<()> = LmeAgentApi::new();
    let start = vec![StartValue {
        name: "Vmax".to_string(),
        value_bits: f64::NAN.to_bits(),
    }];
    let error = api
        .fit_model(
            FitModelRequest {
                model_kind: ModelKind::Nlmm,
                formula: "y ~ SSmicmen(x, Vmax, K) ~ Vmax|g".to_string(),
                data_path: "does-not-exist.csv".to_string(),
                reml: None,
                family: None,
                link: None,
                n_agq: Some(1),
                start: Some(start),
            },
            &canonical_facts(),
        )
        .expect_err("non-finite NLMM start must be rejected before IO");

    match error {
        AgentApiError::InvalidInput(message) => {
            assert!(message.contains("must be finite"));
        }
        other => panic!("expected InvalidInput, got {}", other.message()),
    }
}

#[test]
fn fit_model_lm_rejects_mixed_model_options_before_io() {
    let api: LmeAgentApi<()> = LmeAgentApi::new();
    let error = api
        .fit_model(
            FitModelRequest {
                model_kind: ModelKind::Lm,
                formula: "y ~ x".to_string(),
                data_path: "does-not-exist.csv".to_string(),
                reml: Some(false),
                family: None,
                link: None,
                n_agq: None,
                start: None,
            },
            &canonical_facts(),
        )
        .expect_err("LM-only field validation should happen before IO");
    assert!(error.message().contains("do not apply"));
}
