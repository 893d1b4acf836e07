# mystock

The verified core of a desktop tool that fetches Chinese A-share market
history, stores it locally, and looks for candlestick patterns.

- `src/` is the library, checked by Verus: the calendar rules that decide
  when stored history is stale (`calendar`), text splitting and decimal
  rendering (`text`), the quote-service requests (`crawl`, `sse`), the
  database statements and save decisions (`database`), row selection by date
  (`frame`), the pattern catalogue (`indicator`), command planning
  (`commands`), the pattern job's bookkeeping (`task`), and the records and
  errors (`model`, `error`).
- `app/` is the desktop shell: window, commands, network, database, table
  files, and the floating-point pattern routines.
- `tests/` runs the library on concrete values.
