# convex_curves

Date, tenor and market-convention logic for building interest-rate curves,
written in Verus: each public function carries a contract that Verus proves.

## Layout

- `src/` is the verified library.
  - `date.rs`: calendar dates (year, month, day) with a day-number model
    (January 1 of year 1 is day 1); day, month and year arithmetic, weekdays
    and day counts, done by `convex_core` and stated over that model.
  - `text.rs`: integer parsing, white-space trimming, decimal text.
  - `calendars.rs`: business-day moves on the SIFMA, TARGET2, UK and Japan
    calendars of `convex_core`.
  - `builder.rs`: tenors in months, IMM dates, futures contract codes.
  - `instruments/`: deposit, swap and OIS tenors, FRA periods, IMM dates of
    rate futures, swap schedules, bond coupon dates, quote kinds.
  - `conventions/`: per-currency market conventions and deposit periods.
  - `bootstrap/`: the order in which a sequential bootstrap solves
    instruments.
  - `basis.rs`, `interpolation.rs`, `error.rs` and the small enum modules.
- `tests/` runs the library on concrete inputs.
- `app/` is ordinary Rust around the library: instruments with floating-point
  prices and rates, quote validation, serde and error types.

Laws of the library stand in `src/` as public proof functions (their names
begin with `lemma_`), next to the functions they speak of.
