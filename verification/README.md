# jf

A job runner. Jobs are defined by name in `jf.toml`: a command, a shell
script, a group of jobs run in parallel or one after another, or a job that
is rerun whenever a watched file changes.

```
jf run <job>            # run a job
jf list                 # the public jobs
jf validate             # check that every job definition builds
jf description <job>    # the description of a job
jf completion <shell>   # a completion script: bash, zsh, fish, powershell, elvish
```

- `src/` is the library, verified with Verus: the configuration model, the
  pool of job definitions (lookup, visibility, validation), the building of
  jobs from their definitions, the decisions a running job makes (what a
  sequential run does after each job, how a parallel run ends, when a watch
  stops waiting and whether it restarts, how long a mock job pauses), error
  messages, log levels and log lines.
- `app/` is the `jf` command: argument parsing, reading the configuration,
  and the asynchronous runtime that spawns processes, reads the clock,
  watches files and writes the log, carrying out the library's decisions.
- `tests/` exercises the library.
