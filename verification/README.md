# source_types

Types of the source ingestion pipeline, and the metrics that a source reports, verified with
[Verus](https://github.com/verus-lang/verus).

- `src/` is the verified library. `message` and `length` hold what sources hand on and how large it
  is. `source`, `partition`, `reader`, `sink` and `upsert` hold the metrics of a source; `base`
  holds the families that they are taken from, and `partition_map` holds maps from partitions.
  `laws` proves what holds of the metrics as a whole.
- `src/metrics/` is the boundary to the `prometheus` crate, which keeps the metrics. There is one
  module for each kind of metric vector. A handle of a metric knows its vector, its label values and
  what has been written through it, and the metric leaves its vector when the handle is dropped.
- `app/` holds what surrounds the library: the interface of sources that render themselves in a
  dataflow, serialized forms of records and errors, the lookup of shared metrics, and recording of
  unchecked progress.
- `tests/` runs the library against a registry and looks at what is exported.
