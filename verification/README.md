# ma-demo

A harness that stands up a throwaway test environment for the OpenSearch Migration Assistant and
hands over to it. It asks a short series of questions, has the plan reviewed, provisions the
environment — KIND clusters on this machine, or Terraform files for AWS — and shows what is running.

The decisions are a library verified with Verus; what touches the terminal, the file system or a
process is the binary around it.

## Layout

| Where | What |
|---|---|
| `src/text.rs`, `src/util.rs` | text: splitting, trimming, numbers, quoting |
| `src/model.rs`, `src/wizard.rs` | the answers, and the questions that collect them |
| `src/plan.rs`, `src/manifests.rs`, `src/terraform.rs` | what a set of answers is turned into |
| `src/runner.rs`, `src/errand.rs` | external commands, and the log that contracts speak of |
| `src/journal.rs` | when a record accounts for what happened |
| `src/app.rs`, `src/collection.rs`, `src/handoff.rs` | carrying a plan out, and handing over |
| `src/aws.rs`, `src/update.rs`, `src/context.rs` | identity, newer releases, what a review tells |
| `src/tui.rs`, `src/dashboard.rs`, `src/board.rs`, `src/progress.rs`, `src/styled.rs`, `src/ui.rs` | what is shown |
| `src/cli.rs`, `src/session.rs` | the command line, and a whole run from it to its exit code |
| `src/state.rs`, `src/error.rs` | the saved plan, and errors |
| `app/` | the binary: processes, files, the terminal |
| `tests/` | tests against a scripted runner, with files in memory |

## How it works

A `Session` goes forward in steps. Each step ends in an `Effect` that the binary brings about (print,
save, write a file, show the review, open the dashboard, exit), and the next step is told in a
`Report` how that went. The contract of a step says, for every stage, what is asked of the runner,
what is put to the operator, what is said, and where the step leads.

Commands go through a `CommandRunner`. The library holds it in a `Logged`, whose log of questions and
replies exists for contracts only; so a contract can say what was run, in which order, and what
became of each reply. `Told` and `Heard` do the same for progress and for the wizard. Each contract
also says that the runner, the progress and the wizard are what those exchanges made of them and
nothing else (`leads_to`), so nothing is done behind a record and no record tells of what was not
done.

## What is proved

Every function states its result exactly. Beyond that the `law_…` proof functions state what holds
across functions, among them:

- nothing is carried out before an interactive run was confirmed in its review;
- a dry run leaves the runner as it was, an unknown command leaves everything as it was, and a run
  with `-y` asks nothing;
- what a log says was run is what the scripted runner behind it has recorded;
- every step of a session leads further, and every plan comes to an end;
- commands use only files that were written before, and what an action reached is saved;
- an offered answer settles its question, and the defaults settle all that is left;
- manifests are structured, names are DNS labels, and host ports do not collide;
- the source in the cloud stands in a private network behind a NAT gateway and has no public address,
  and the target in the cloud is the collection or the domain that was chosen;
- where a serverless target is reached is recorded in the saved plan;
- `q`, Esc and an interrupt cancel every screen;
- the first reply of a script that matches is the one that is given, and a bounded one is given to
  exactly as many of its calls as it may be.
