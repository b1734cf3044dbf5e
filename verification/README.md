# my-prs

A command-line tool that lists a user's GitHub pull requests and their CI status,
across the repositories cloned in a local folder or those of an organization.

- `src/` is the verified library (Verus): the GitHub records, the rules that
  decide the CI status of a pull request, the grouping and summaries of the
  reports, the request paths of the GitHub API, the selection and ordering of a
  pull request's workflow runs, the parsing of repository references and remote
  URLs, the settings and the configuration wizard's rules, and the monitor's
  memory of statuses.
- `app/` is the program around it: command-line parsing, the configuration file,
  the HTTP client, the scan of the local folder, and the terminal output.
- `tests/` exercises the library on concrete values.
