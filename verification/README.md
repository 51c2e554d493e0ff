# lme_agent

Agent-facing API for mixed-effects models, verified with Verus.

The library (`src/`) holds the logic of the API and proves it against its contracts:

- `validate` – checks and parsers for request fields (blank formula or data path,
  quadrature points, NLMM start values, GLMM family and link, ANOVA and bootstrap
  options);
- `api` – `LmeAgentApi`: turns fit requests into fit plans with resolved defaults,
  caches finished fits under random UUID handles, lists, summarizes and forgets them,
  and checks ANOVA and bootstrap requests (LMM fits only);
- `session` – the in-memory map from `fit_id` to cached fit;
- `data` – where request data may be read from: resolution under
  `LME_MCP_DATA_ROOT`, the allowlist on canonical paths, the CSV-only rule and the
  load error messages (the platform's path verdicts come in as plain values);
- `laws` – properties across operations (a cached fit reads back, forgetting undoes
  caching, the session holds exactly the live fits, inapplicable options are
  rejected, defaults, LMM-only operations, sound bootstrap requests);
- `text`, `model`, `dto`, `error` – text helpers, statistical choices, request and
  response types, errors.

Floating-point values that the library only checks are carried as IEEE-754 bit
patterns (`u64`). The statistical engine's fit is a type parameter that the library
carries without looking inside.

`app/` is the MCP stdio server around the library: file-system and platform path
calls for CSV loading, the `lme-rs` engine calls, serde/JSON-schema forms of the types, and the `rmcp` tool router.
