# meteo_types

Types and rules for meteorological and environmental observation data.

- `src/` is the verified library (Verus): environmental domains and their names,
  provenance chains, the consistency rules of an environmental report, the order in
  which data quality components and sensor accuracy metrics are checked and the
  errors they produce, quality and accuracy bands and the mapping between them, the
  sample count of a sensor comparison, the span of an accuracy window, and the
  counting of present weather variables.
- `app/` holds the serializable types with their real-valued measurements, the
  floating-point tests (ranges, thresholds, statistics) and the `Display` impls; it
  hands the library the verdict of each floating-point test as a plain value.
- `tests/` exercises the library.
