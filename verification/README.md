# Opt-Out Desk (verified core)

Opt-Out Desk is a local, browser-hosted checklist for removing personal
listings from data-broker sites. This crate holds its logic, verified with
Verus:

- `src/search.rs`: broker search links, Google/Bing links, discovery queries,
  the support-request template, and the progress percentage.
- `src/status.rs`: discovery status, checklist progress, broker status labels,
  and task totals.
- `src/order.rs`: broker ordering (not-found brokers last), filtering, and the
  category list.
- `src/model.rs`, `src/keyed.rs`: the application state and its broker-keyed
  tables.
- `src/encoding.rs`: percent-encoding through the `urlencoding` crate.
- `src/routes.rs`, `src/storage.rs`: route links, broker selection, DOM ids and
  the export link.
- `src/laws.rs`: properties that relate several operations.

`app/` is the Leptos browser front end: components, local storage, clipboard,
and the broker catalog.
