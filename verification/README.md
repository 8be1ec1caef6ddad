# danta

Registration for an event paid over the Lightning Network.

- `src/` is the verified library (Verus): hexadecimal payment hashes, decimal numbers of the
  configuration, the queries over stored attendees, the decisions of each endpoint
  (registration open or closed, what a registration stores, what verification shows, what an
  invoice update settles), the attendee sheet's cells and the ticket's QR code.
  `src/laws.rs` proves properties that span several of these operations.
- `app/` is the web service around it: Rocket routes, the SQLite store (diesel), the LND
  gRPC client, and the PDF and spreadsheet writers.
- `tests/` runs the library on concrete inputs.
