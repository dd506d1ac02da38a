# devperf

DevOps "four keys" delivery metrics of a project (deployment frequency and
lead time for changes), from GitHub deployments, merged pull requests or
Heroku releases.

- `src/` is the verified library: deployment records and how they are read
  from each source, commit comparisons, the settings file's projects, and
  the metrics (daily summaries, weekly and monthly medians, frequency label,
  median lead time). Rates and medians are kept exact: medians doubled,
  working days per week in thousandths of a day.
- `app/` is the command line tool `devperf` around it: argument handling,
  the settings file on disk, and the requests to GitHub and Heroku.
- `tests/` runs the library on concrete values.
