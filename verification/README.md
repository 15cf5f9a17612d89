# ai_work

Verified core of `aiw`, a command-line tool that scaffolds AI/ML research
projects (Hydra configs, PyTorch Lightning boilerplate, `uv` for packages).

The library in `src/` is written in Verus and proved against its contracts:

- `config` — the project configuration (`ProjectConfig`, `Os`) and its model.
- `scaffold` — the directories of a new project.
- `templates` — the text of every generated file as a function of the
  configuration, with specifications built from the template pieces.
- `template_laws` — proofs about the generated project: every file lies in
  one of the created directories, no path is written twice, only the two
  placeholders are empty, `src/main.py` mentions WandB, Transformers and the
  GPU exactly when they are selected, the logger config follows the WandB
  choice, and the project name opens the general config, README and notes.
- `setup` — offered Python/PyTorch versions and the refusal of others,
  CUDA/PyTorch compatibility and the decision on a requested CUDA version.
- `install` — the PyTorch package index added to `pyproject.toml`, the
  packages and `uv` commands of the install (PyTorch by `uv pip install`
  from the CUDA wheel index on Linux with a GPU, by `uv add` otherwise),
  the trimming of `uv`'s output lines and the error report of a failed
  command.
- `text` — facts about texts (occurrences, absent characters and pairs),
  the scanning predicates used to check them on literals, and trimming of
  Unicode white space.

`app/` is the program around the library: flag parsing (clap), prompts
(dialoguer), spinners (indicatif, console), file-system writes and running
`uv`. The project's contents, the accepted choices, the CUDA decision, the
`uv` commands and the report of a failed command come from the library; the
program decides only the order of the prompts and falls back on the default
when a yes/no prompt fails.
