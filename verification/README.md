# open_router

The routing rules of a payment-gateway decider, written in Verus with their
contracts proved.

- `src/decider/` — choosing a gateway: environment settings, the eligibility
  filters' bookkeeping, the preferred/enforced gateway rules, the message that
  explains an empty result, the merchant's configured priority, success-rate
  scoring decisions (cache keys, configuration records, downtime classes) and
  the EMI and gateway-account queries.
- `src/feedback/` — recording outcomes: which scores a finished transaction
  updates, the elimination-score bookkeeping (lifetimes, counts, merchant
  details, cache fallback) and the keys and moving-window decisions of the v3
  success rates.
- `src/text.rs` — the string operations the rules rest on, with their laws.
- `app/` — environment reads, JSON forms of the library's types, the clock
  read and the floating-point parts of scoring. Dates are rendered in `src/` through
  chrono behind one trusted wrapper.
