# mcp-analytics

A governed analytics backend for AI agents: a catalog of data sources,
datasets, metrics and segments; funnels, cohorts and breakdowns; dashboards
built from widgets; a policy that decides which actions are allowed; and an
audit log of governed actions. The MCP server around it answers 28 tools.

- `src/` is the library, verified with Verus: `policy` (the policy and its
  verdicts), `governance` (policy checks, export risk, access requests), `queries`
  (the query tools, each recorded in the audit log),
  `api` (the backend state and its seeded content), `catalog` (lookups),
  `analysis` (breakdowns, cohorts, funnels, insights, change explanations), `dashboards`
  (dashboards and the audit log), `timeline` (date schedules, anomalies,
  events), `stamps` (UUIDs, clock and calendar from `uuid` and `chrono`),
  `text` (string helpers), `inputs` (tool arguments) and `laws` (properties
  proved across operations).
- `app/` is the MCP server (`rmcp` over stdio), the JSON forms of the records,
  the floating-point metric series, forecasts and funnel conversion rates.
- `tests/` exercises the library on concrete values.
