# orb_treasury

A planner for summoning with orbs. A treasury of orbs pays for heroes either
sniped one at a time (5 orbs each) or in full circles of five (20 orbs each).

- `src/` is the verified library (Verus): pull potentials (`profile`), the book
  of named treasuries kept in name order (`book`), the run options and file
  names (`settings`), the integer counters of a projection (`projection`), and
  the text it prints and reports (`report`, `messages`, `text`).
- `app/` is the command-line program: argument parsing, the TOML database,
  the CSV files, and the floating-point probabilities of a projection.
- `tests/` runs the library on concrete values.
