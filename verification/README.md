# perp_adversary

The verified core of an adversarial economic conformance harness for a
perpetual-futures risk engine: the campaign vocabulary, the invariant oracles
run after every step of a campaign, and the bookkeeping that turns per-step
engine observations into a trace.

Layout:

- `src/scenario.rs` — actions, scenarios, and their structural validation.
- `src/driver.rs` — observation types, the named campaigns, the arithmetic the
  engine adapter performs around engine calls, and `TraceRecorder`, which keeps
  the external-flow ledgers while the engine is driven step by step.
- `src/oracles/` — the realizability, market cross-link, liquidation insurance
  isolation, ADL accounting, vault conservation and funding claimable-value
  oracles, each with an exact contract and a soundness lemma.
- `src/runner.rs`, `src/report.rs` — first-violation scan and markdown findings.
- `src/text.rs` — decimal rendering used by violation details.
- `app/` — the engine adapter (`run`), JSON forms of the scenario types, and the
  `replay` program.
