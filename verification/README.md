# trino_connection

The controller of `TrinoConnection` resources, which deploy a Trino datasource in Superset. What it
decides is written and proved in Verus.

- `src/` is the verified library: the resource and its status (`trinoconnection`), the import job
  (`import_job`) with the YAML that it imports (`yaml`), the discovery config map (`discovery`), the decisions of a reconciliation
  (`reconcile`) with their errors (`trino_connection_controller`), and what holds of every
  reconciliation (`lifecycle`).
- `app/` carries the requests of the library out against a cluster.
- `tests/` runs the library on concrete values.
