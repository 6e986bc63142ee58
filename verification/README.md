# external_postgres

Manages databases and users on an external PostgreSQL server, for a
management HTTP API, its command-line client, and a Kubernetes operator
that reconciles `Database` custom resources into databases plus connection
secrets.

- `src/` is the verified library (Verus): the pool registry of managed
  databases and the SQL statements that provision, prepare and remove them
  (`database`), the step machines that set up a manager and ensure a
  database (`provisioning`), the reconciliation decisions and the operator's lifecycle
  (`operator`), the client's requests and answers (`client`), the API's error
  answers (`http`), the request/response bodies (`models`), and two building
  blocks (`named_map`, `text`).
- `app/` is the program around it: argument parsing, logging, the HTTP
  server, the PostgreSQL connections, the Kubernetes runtime, and the HTTP
  client. It carries out what the library decides.
- `tests/` exercise the library on concrete values.

The program's older `Controller` (a command queue for database work) and
`Kube` (an earlier copy of the operator) are left out on purpose: neither
was part of the program's module tree, `Kube` is superseded by the operator
here, and `Controller` depends on database operations the program never had.
