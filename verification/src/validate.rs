//! Checks and parsers for the fields of agent requests.

use vstd::prelude::*;

use crate::dto::StartValue;
use crate::error::{agrees, invalid, AgentApiError, ApiErrorView};
use crate::model::{AnovaType, BootMethod, DdfMethod, GlmmFamily};
use crate::text::{
    all_white, ascii_lower, ascii_lowercase_text, is_blank, join3, join5, lowercase_text, owned,
    same_text, trim_text, trimmed, unicode_lowercase, unicode_uppercase, uppercase_text,
};

verus! {

/// The view of an optional borrowed text.
pub open spec fn opt_text(o: Option<&str>) -> Option<Seq<char>> {
    match o {
        Some(s) => Some(s@),
        None => None,
    }
}

/// The view of an optional owned text.
pub open spec fn opt_string(o: Option<String>) -> Option<Seq<char>> {
    match o {
        Some(s) => Some(s@),
        None => None,
    }
}

/// An optional borrowed text, taken from an optional owned one.
pub fn opt_as_str(o: &Option<String>) -> (r: Option<&str>)
    ensures
        opt_text(r) == opt_string(*o),
{
    match o {
        Some(s) => Some(s.as_str()),
        None => None,
    }
}

// ---------------------------------------------------------------- formula and data

/// What is wrong with the formula and data path of a fit request, if anything.
pub open spec fn fit_input_problem(formula: Seq<char>, data_path: Seq<char>) -> Option<Seq<char>> {
    if all_white(formula) {
        Some("formula must not be empty"@)
    } else if all_white(data_path) {
        Some("data_path must not be empty"@)
    } else {
        None
    }
}

/// Rejects a blank formula, then a blank data path.
pub fn validate_fit_input(formula: &str, data_path: &str) -> (r: Result<(), AgentApiError>)
    ensures
        agrees(
            r,
            match fit_input_problem(formula@, data_path@) {
                Some(m) => Err(invalid(m)),
                None => Ok(()),
            },
        ),
{
    if is_blank(formula) {
        return Err(AgentApiError::InvalidInput(owned("formula must not be empty")));
    }
    if is_blank(data_path) {
        return Err(AgentApiError::InvalidInput(owned("data_path must not be empty")));
    }
    Ok(())
}

/// Rejects zero adaptive Gauss-Hermite quadrature points.
pub fn validate_n_agq(n_agq: usize) -> (r: Result<(), AgentApiError>)
    ensures
        agrees(
            r,
            if n_agq == 0 {
                Err(invalid("n_agq must be greater than zero"@))
            } else {
                Ok(())
            },
        ),
{
    if n_agq == 0 {
        Err(AgentApiError::InvalidInput(owned("n_agq must be greater than zero")))
    } else {
        Ok(())
    }
}

// ---------------------------------------------------------------- NLMM start values

/// The binary64 number with these bits is finite: its exponent field is not all ones.
pub open spec fn finite_bits(bits: u64) -> bool {
    (bits / 0x10_0000_0000_0000) % 0x800 != 0x7ff
}

/// The binary64 number with these bits lies strictly between 0 and 1: it is
/// positive (sign clear, not zero) and below the bit pattern of 1.0. Infinities and
/// NaNs have larger bit patterns, negative numbers have the sign bit set.
pub open spec fn strictly_between_zero_and_one(bits: u64) -> bool {
    0 < bits && bits < 0x3ff0_0000_0000_0000
}

/// `a` comes before `b` in the order of `String`: lexicographic by code point, a
/// proper prefix first.
pub open spec fn text_precedes(a: Seq<char>, b: Seq<char>) -> bool
    decreases a.len(),
{
    if a.len() == 0 {
        b.len() > 0
    } else if b.len() == 0 {
        false
    } else if a[0] != b[0] {
        (a[0] as u32) < (b[0] as u32)
    } else {
        text_precedes(a.drop_first(), b.drop_first())
    }
}

/// The start values are in strictly ascending order of name, as the entries of a
/// map keyed by name are: each name occurs once.
pub open spec fn names_ascending(s: Seq<StartValue>) -> bool {
    forall|i: int, j: int| 0 <= i < j < s.len() ==> text_precedes(#[trigger] s[i].name@, #[trigger] s[j].name@)
}

/// Optional start values, if present, are in strictly ascending order of name.
pub open spec fn start_in_name_order(start: Option<Seq<StartValue>>) -> bool {
    match start {
        Some(s) => names_ascending(s),
        None => true,
    }
}

/// What is wrong with one start value, if anything.
pub open spec fn start_value_problem(v: StartValue) -> Option<Seq<char>> {
    if all_white(v.name@) {
        Some("nlmm start parameter names must not be empty"@)
    } else if !finite_bits(v.value_bits) {
        Some("nlmm start value for '"@ + v.name@ + "' must be finite"@)
    } else {
        None
    }
}

/// The problem of the first faulty start value, in order.
pub open spec fn first_start_problem(s: Seq<StartValue>) -> Option<Seq<char>>
    decreases s.len(),
{
    if s.len() == 0 {
        None
    } else if start_value_problem(s[0]) is Some {
        start_value_problem(s[0])
    } else {
        first_start_problem(s.drop_first())
    }
}

proof fn lemma_first_start_problem_step(s: Seq<StartValue>, i: int)
    requires
        0 <= i < s.len(),
        start_value_problem(s[i]) is None,
    ensures
        first_start_problem(s.skip(i)) == first_start_problem(s.skip(i + 1)),
{
    assert(s.skip(i)[0] == s[i]);
    assert(s.skip(i).drop_first() =~= s.skip(i + 1));
}

/// Checks NLMM start values in order of name and returns them when every name is
/// non-blank and every value finite; no start values give an empty set.
pub fn parse_nlmm_start(start: Option<&Vec<StartValue>>) -> (r: Result<Vec<StartValue>, AgentApiError>)
    requires
        match start {
            Some(s) => names_ascending(s@),
            None => true,
        },
    ensures
        match start {
            None => r matches Ok(v) && v@.len() == 0,
            Some(s) => match first_start_problem(s@) {
                None => r matches Ok(v) && v@ == s@,
                Some(m) => r matches Err(e) && e@ == invalid(m),
            },
        },
{
    let mut parsed: Vec<StartValue> = Vec::new();
    match start {
        None => Ok(parsed),
        Some(s) => {
            let n = s.len();
            let mut i: usize = 0;
            assert(s@.skip(0) =~= s@);
            while i < n
                invariant
                    start == Some(s),
                    n == s@.len(),
                    i <= n,
                    parsed@ == s@.subrange(0, i as int),
                    first_start_problem(s@) == first_start_problem(s@.skip(i as int)),
                decreases n - i,
            {
                let v = &s[i];
                let ghost rest = s@.skip(i as int);
                assert(rest[0] == s@[i as int]);
                if is_blank(v.name.as_str()) {
                    return Err(
                        AgentApiError::InvalidInput(
                            owned("nlmm start parameter names must not be empty"),
                        ),
                    );
                }
                if (v.value_bits / 0x10_0000_0000_0000) % 0x800 == 0x7ff {
                    let m = join3("nlmm start value for '", v.name.as_str(), "' must be finite");
                    return Err(AgentApiError::InvalidInput(m));
                }
                proof {
                    lemma_first_start_problem_step(s@, i as int);
                }
                parsed.push(StartValue { name: v.name.clone(), value_bits: v.value_bits });
                i = i + 1;
                assert(parsed@ =~= s@.subrange(0, i as int));
            }
            assert(s@.skip(n as int).len() == 0);
            assert(s@.subrange(0, n as int) =~= s@);
            Ok(parsed)
        },
    }
}

// ---------------------------------------------------------------- GLMM family and link

/// The family a normalized name denotes.
pub open spec fn family_named(n: Seq<char>) -> Option<GlmmFamily> {
    if n == "binomial"@ {
        Some(GlmmFamily::Binomial)
    } else if n == "poisson"@ {
        Some(GlmmFamily::Poisson)
    } else if n == "gaussian"@ || n == "normal"@ {
        Some(GlmmFamily::Gaussian)
    } else if n == "gamma"@ {
        Some(GlmmFamily::Gamma)
    } else {
        None
    }
}

/// The outcome of parsing an optional family name: it is required, and compared
/// after trimming and ASCII lower-casing.
pub open spec fn family_outcome(family: Option<Seq<char>>) -> Result<GlmmFamily, ApiErrorView> {
    match family {
        None => Err(invalid("family is required for glmm models (binomial, poisson, gaussian, or gamma)"@)),
        Some(f) => family_normalized_outcome(ascii_lower(trimmed(f))),
    }
}

/// The outcome of reading an already trimmed and lower-cased family name.
pub open spec fn family_normalized_outcome(n: Seq<char>) -> Result<GlmmFamily, ApiErrorView> {
    match family_named(n) {
        Some(x) => Ok(x),
        None => Err(
            invalid("unknown glmm family '"@ + n + "' (use binomial, poisson, gaussian, or gamma)"@),
        ),
    }
}

/// Parses the family of a GLMM request.
pub fn parse_glmm_family(family: Option<&str>) -> (r: Result<GlmmFamily, AgentApiError>)
    ensures
        agrees(r, family_outcome(opt_text(family))),
{
    match family {
        None => Err(
            AgentApiError::InvalidInput(
                owned("family is required for glmm models (binomial, poisson, gaussian, or gamma)"),
            ),
        ),
        Some(f) => {
            let n = ascii_lowercase_text(trim_text(f));
            glmm_family_from_normalized(n.as_str())
        },
    }
}

/// Reads a family name that is already trimmed and lower-cased.
pub fn glmm_family_from_normalized(t: &str) -> (r: Result<GlmmFamily, AgentApiError>)
    ensures
        agrees(r, family_normalized_outcome(t@)),
{
    if same_text(t, "binomial") {
        Ok(GlmmFamily::Binomial)
    } else if same_text(t, "poisson") {
        Ok(GlmmFamily::Poisson)
    } else if same_text(t, "gaussian") || same_text(t, "normal") {
        Ok(GlmmFamily::Gaussian)
    } else if same_text(t, "gamma") {
        Ok(GlmmFamily::Gamma)
    } else {
        Err(
            AgentApiError::InvalidInput(
                join3("unknown glmm family '", t, "' (use binomial, poisson, gaussian, or gamma)"),
            ),
        )
    }
}

/// What the statistical engine says of the link that a GLMM of one family would
/// use: the requested link, or the family's canonical link when none is requested.
#[derive(Debug)]
pub struct LinkCheck {
    /// The engine accepts this link for the family.
    pub valid: bool,
    /// The engine's name of the link.
    pub link_name: String,
    /// The engine's display name of the family.
    pub family_label: String,
}

/// The engine's verdict on the link of a GLMM request, for every family.
#[derive(Debug)]
pub struct LinkFacts {
    /// A link was requested and the engine does not know its name.
    pub unparsable: bool,
    pub binomial: LinkCheck,
    pub poisson: LinkCheck,
    pub gaussian: LinkCheck,
    pub gamma: LinkCheck,
}

impl LinkFacts {
    /// The verdict for one family.
    pub open spec fn check_for(self, family: GlmmFamily) -> LinkCheck {
        match family {
            GlmmFamily::Binomial => self.binomial,
            GlmmFamily::Poisson => self.poisson,
            GlmmFamily::Gaussian => self.gaussian,
            GlmmFamily::Gamma => self.gamma,
        }
    }

    /// The verdict for one family.
    pub fn for_family(&self, family: GlmmFamily) -> (r: &LinkCheck)
        ensures
            *r == self.check_for(family),
    {
        match family {
            GlmmFamily::Binomial => &self.binomial,
            GlmmFamily::Poisson => &self.poisson,
            GlmmFamily::Gaussian => &self.gaussian,
            GlmmFamily::Gamma => &self.gamma,
        }
    }
}

/// The outcome of checking the link of a GLMM of the given family: an unknown
/// link name is reported first, then a link the family does not accept.
pub open spec fn link_outcome(link: Option<Seq<char>>, family: GlmmFamily, facts: LinkFacts) -> Result<
    (),
    ApiErrorView,
> {
    let c = facts.check_for(family);
    if link is Some && facts.unparsable {
        Err(
            invalid(
                "unknown glmm link '"@ + trimmed(link->0)
                    + "' (use logit, probit, cloglog, log, identity, inverse, or sqrt)"@,
            ),
        )
    } else if !c.valid {
        Err(
            invalid(
                "link '"@ + c.link_name@ + "' is not valid for family '"@ + c.family_label@ + "'"@,
            ),
        )
    } else {
        Ok(())
    }
}

/// Checks the requested (or canonical) link of a GLMM against its family.
pub fn parse_glmm_link(link: Option<&str>, family: GlmmFamily, facts: &LinkFacts) -> (r: Result<
    (),
    AgentApiError,
>)
    ensures
        agrees(r, link_outcome(opt_text(link), family, *facts)),
{
    if let Some(raw) = link {
        if facts.unparsable {
            return Err(
                AgentApiError::InvalidInput(
                    join3(
                        "unknown glmm link '",
                        trim_text(raw),
                        "' (use logit, probit, cloglog, log, identity, inverse, or sqrt)",
                    ),
                ),
            );
        }
    }
    let c = facts.for_family(family);
    if !c.valid {
        return Err(
            AgentApiError::InvalidInput(
                join5(
                    "link '",
                    c.link_name.as_str(),
                    "' is not valid for family '",
                    c.family_label.as_str(),
                    "'",
                ),
            ),
        );
    }
    Ok(())
}

/// An engine-reported name in lower case, as metadata reports it.
pub fn normalized_name(name: Option<&str>) -> (r: Option<String>)
    ensures
        opt_string(r) == match name {
            Some(n) => Some(ascii_lower(n@)),
            None => None::<Seq<char>>,
        },
{
    match name {
        Some(n) => Some(ascii_lowercase_text(n)),
        None => None,
    }
}

// ---------------------------------------------------------------- ANOVA and bootstrap options

/// The method a lower-cased name denotes.
pub open spec fn ddf_named(n: Seq<char>) -> Option<DdfMethod> {
    if n == "satterthwaite"@ || n == "sat"@ {
        Some(DdfMethod::Satterthwaite)
    } else if n == "kenward-roger"@ || n == "kenward_roger"@ || n == "kr"@ {
        Some(DdfMethod::KenwardRoger)
    } else {
        None
    }
}

/// The outcome of reading an already lower-cased degrees-of-freedom method.
pub open spec fn ddf_lower_outcome(n: Seq<char>) -> Result<DdfMethod, ApiErrorView> {
    match ddf_named(n) {
        Some(x) => Ok(x),
        None => Err(invalid("unknown ddf_method '"@ + n + "' (use satterthwaite or kenward-roger)"@)),
    }
}

/// The outcome of parsing a degrees-of-freedom method, compared in lower case.
pub open spec fn ddf_outcome(method: Seq<char>) -> Result<DdfMethod, ApiErrorView> {
    ddf_lower_outcome(unicode_lowercase(method))
}

/// Parses the denominator-degrees-of-freedom method of an ANOVA request.
pub fn parse_ddf_method(method: &str) -> (r: Result<DdfMethod, AgentApiError>)
    ensures
        agrees(r, ddf_outcome(method@)),
{
    let n = lowercase_text(method);
    ddf_method_from_lowercase(n.as_str())
}

/// Reads a degrees-of-freedom method that is already in lower case.
pub fn ddf_method_from_lowercase(t: &str) -> (r: Result<DdfMethod, AgentApiError>)
    ensures
        agrees(r, ddf_lower_outcome(t@)),
{
    if same_text(t, "satterthwaite") || same_text(t, "sat") {
        Ok(DdfMethod::Satterthwaite)
    } else if same_text(t, "kenward-roger") || same_text(t, "kenward_roger") || same_text(t, "kr") {
        Ok(DdfMethod::KenwardRoger)
    } else {
        Err(
            AgentApiError::InvalidInput(
                join3("unknown ddf_method '", t, "' (use satterthwaite or kenward-roger)"),
            ),
        )
    }
}

/// The ANOVA type an upper-cased name denotes.
pub open spec fn anova_type_named(n: Seq<char>) -> Option<AnovaType> {
    if n == "III"@ || n == "3"@ || n == "TYPE3"@ || n == "TYPE III"@ {
        Some(AnovaType::Type3)
    } else if n == "II"@ || n == "2"@ || n == "TYPE2"@ || n == "TYPE II"@ {
        Some(AnovaType::Type2)
    } else if n == "I"@ || n == "1"@ || n == "TYPE1"@ || n == "TYPE I"@ {
        Some(AnovaType::Type1)
    } else {
        None
    }
}

/// The outcome of reading an already upper-cased ANOVA type.
pub open spec fn anova_type_upper_outcome(n: Seq<char>) -> Result<AnovaType, ApiErrorView> {
    match anova_type_named(n) {
        Some(x) => Ok(x),
        None => Err(invalid("unknown anova_type '"@ + n + "' (use I, II, or III)"@)),
    }
}

/// The outcome of parsing an ANOVA type, compared in upper case.
pub open spec fn anova_type_outcome(t: Seq<char>) -> Result<AnovaType, ApiErrorView> {
    anova_type_upper_outcome(unicode_uppercase(t))
}

/// Parses the sums-of-squares type of an ANOVA request.
pub fn parse_anova_type(anova_type: &str) -> (r: Result<AnovaType, AgentApiError>)
    ensures
        agrees(r, anova_type_outcome(anova_type@)),
{
    let n = uppercase_text(anova_type);
    anova_type_from_uppercase(n.as_str())
}

/// Reads an ANOVA type that is already in upper case.
pub fn anova_type_from_uppercase(t: &str) -> (r: Result<AnovaType, AgentApiError>)
    ensures
        agrees(r, anova_type_upper_outcome(t@)),
{
    if same_text(t, "III") || same_text(t, "3") || same_text(t, "TYPE3") || same_text(t, "TYPE III") {
        Ok(AnovaType::Type3)
    } else if same_text(t, "II") || same_text(t, "2") || same_text(t, "TYPE2") || same_text(
        t,
        "TYPE II",
    ) {
        Ok(AnovaType::Type2)
    } else if same_text(t, "I") || same_text(t, "1") || same_text(t, "TYPE1") || same_text(
        t,
        "TYPE I",
    ) {
        Ok(AnovaType::Type1)
    } else {
        Err(AgentApiError::InvalidInput(join3("unknown anova_type '", t, "' (use I, II, or III)")))
    }
}

/// The bootstrap method a lower-cased name denotes.
pub open spec fn boot_method_named(n: Seq<char>) -> Option<BootMethod> {
    if n == "parametric"@ || n == "param"@ {
        Some(BootMethod::Parametric)
    } else if n == "residual"@ || n == "res"@ {
        Some(BootMethod::Residual)
    } else {
        None
    }
}

/// The outcome of reading an already lower-cased bootstrap method.
pub open spec fn boot_method_lower_outcome(n: Seq<char>) -> Result<BootMethod, ApiErrorView> {
    match boot_method_named(n) {
        Some(x) => Ok(x),
        None => Err(invalid("unknown boot method '"@ + n + "' (use parametric or residual)"@)),
    }
}

/// The outcome of parsing a bootstrap method, compared in lower case.
pub open spec fn boot_method_outcome(method: Seq<char>) -> Result<BootMethod, ApiErrorView> {
    boot_method_lower_outcome(unicode_lowercase(method))
}

/// Parses the method of a bootstrap request.
pub fn parse_boot_method(method: &str) -> (r: Result<BootMethod, AgentApiError>)
    ensures
        agrees(r, boot_method_outcome(method@)),
{
    let n = lowercase_text(method);
    boot_method_from_lowercase(n.as_str())
}

/// Reads a bootstrap method that is already in lower case.
pub fn boot_method_from_lowercase(t: &str) -> (r: Result<BootMethod, AgentApiError>)
    ensures
        agrees(r, boot_method_lower_outcome(t@)),
{
    if same_text(t, "parametric") || same_text(t, "param") {
        Ok(BootMethod::Parametric)
    } else if same_text(t, "residual") || same_text(t, "res") {
        Ok(BootMethod::Residual)
    } else {
        Err(
            AgentApiError::InvalidInput(
                join3("unknown boot method '", t, "' (use parametric or residual)"),
            ),
        )
    }
}

/// What is wrong with the numeric settings of a bootstrap request, if anything.
pub open spec fn bootstrap_input_problem(nsim: usize, level_bits: u64, n_jobs: Option<usize>) -> Option<
    Seq<char>,
> {
    if nsim == 0 {
        Some("nsim must be greater than zero"@)
    } else if !strictly_between_zero_and_one(level_bits) {
        Some("level must be finite and strictly between 0 and 1"@)
    } else if n_jobs == Some(0usize) {
        Some("n_jobs must be greater than zero when provided"@)
    } else {
        None
    }
}

/// Rejects an empty bootstrap, a confidence level outside (0, 1), and zero jobs.
pub fn validate_bootstrap_input(nsim: usize, level_bits: u64, n_jobs: Option<usize>) -> (r: Result<
    (),
    AgentApiError,
>)
    ensures
        agrees(
            r,
            match bootstrap_input_problem(nsim, level_bits, n_jobs) {
                Some(m) => Err(invalid(m)),
                None => Ok(()),
            },
        ),
{
    if nsim == 0 {
        return Err(AgentApiError::InvalidInput(owned("nsim must be greater than zero")));
    }
    if !(0 < level_bits && level_bits < 0x3ff0_0000_0000_0000) {
        return Err(
            AgentApiError::InvalidInput(owned("level must be finite and strictly between 0 and 1")),
        );
    }
    if n_jobs == Some(0usize) {
        return Err(
            AgentApiError::InvalidInput(owned("n_jobs must be greater than zero when provided")),
        );
    }
    Ok(())
}

} // verus!
