# Rubric Revision Loop

A service where teachers build rubric codes, combine them into private
student links, and review each student's before/after excerpt and revision
explanation.

- `src/` is the library, verified with Verus: every check on what a request
  carries (fields, link tokens, workspace keys, rubric codes, Studio
  licenses), the student's checklist and how it is stored, the answer to
  each request given what the store reported, and the browser cache policy.
  `src/laws.rs` holds the properties that hold for every input.
- `app/` is the HTTP service around it: axum routes, SQLite storage through
  sqlx, the billing service through reqwest, and the JSON shapes.
- `tests/` runs the library on concrete values.
