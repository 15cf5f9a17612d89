//! The text of every file the scaffolder writes into a new project, as a
//! function of the project's configuration.
//!
//! Each template is stored in pieces (the constants below); a file whose text
//! depends on the configuration is the concatenation of its pieces with the
//! configuration's values, and optional pieces enter only when their feature
//! is selected.

use vstd::prelude::*;

use crate::config::{gpu_active, ConfigView, ProjectConfig};
use crate::text::included;

verus! {

/// `.gitignore` of the generated project.
pub const GITIGNORE: &'static str = "\
__pycache__/
*.py[cod]
*.egg-info/
dist/
build/
.venv/
data/*
!data/.gitkeep
.idea/
.vscode/
*.swp
.DS_Store
Thumbs.db
*.log
wandb/
outputs/
multirun/
uv.lock
";

/// `config/config.yaml`: the Hydra root config that composes every group.
pub const ROOT_CONFIG: &'static str = "\
defaults:
  - general: default
  - datamodule: default
  - experiment: default
  - logger: default
  - callbacks: default
  - _self_

seed: 42
debug: false
";

/// Start of `config/general/default.yaml`, before the project name.
pub const GENERAL_HEAD: &'static str = "project_name: ";

/// Rest of `config/general/default.yaml`, after the project name.
pub const GENERAL_TAIL: &'static str = "\n\
seed: 42
device: auto
precision: 32
num_workers: 4
verbose: true
";

/// `config/datamodule/default.yaml`: data paths, splits and loader settings.
pub const DATAMODULE_CONFIG: &'static str = "\
data_dir: ${hydra:runtime.cwd}/data
train_split: 0.8
val_split: 0.1
test_split: 0.1
batch_size: 32
num_workers: ${general.num_workers}
pin_memory: true

sources:
  raw: ${.data_dir}/raw
  processed: ${.data_dir}/processed
  external: ${.data_dir}/external
";

/// `config/experiment/default.yaml`: the baseline training run.
pub const EXPERIMENT_DEFAULT: &'static str = "\
# @package _global_
name: baseline

trainer:
  max_epochs: 100
  accelerator: auto
  devices: auto
  gradient_clip_val: 1.0

model:
  learning_rate: 1e-3
  weight_decay: 1e-5
  scheduler: cosine
";

/// `config/experiment/debug.yaml`: a fast CPU run of two epochs.
pub const EXPERIMENT_DEBUG: &'static str = "\
# @package _global_
name: debug

trainer:
  max_epochs: 2
  accelerator: cpu
  devices: 1
  fast_dev_run: true

model:
  learning_rate: 1e-3
";

/// `config/experiment/lg/mnist_classify.yaml`: Lightning MNIST example.
pub const MNIST_EXPERIMENT: &'static str = "\
# @package _global_
# Lightning MNIST classification example
# Usage: uv run python src/main.py experiment=lg/mnist_classify
name: mnist_classify

trainer:
  max_epochs: 10
  accelerator: auto
  devices: auto
  precision: 16-mixed
  gradient_clip_val: 1.0
  log_every_n_steps: 50
  check_val_every_n_epoch: 1
  deterministic: true

model:
  _target_: src.models.MNISTClassifier
  input_dim: 784
  hidden_dim: 256
  output_dim: 10
  learning_rate: 1e-3
  weight_decay: 1e-5
  dropout: 0.2
  scheduler: cosine
  warmup_epochs: 1

datamodule:
  _target_: src.datamodules.MNISTDataModule
  data_dir: ${hydra:runtime.cwd}/data
  batch_size: 128
  num_workers: ${general.num_workers}
  pin_memory: true
  train_split: 0.9
  val_split: 0.1
";

/// `config/experiment/hf/llm_finetune.yaml`: HuggingFace LoRA finetuning example.
pub const LLM_FINETUNE_EXPERIMENT: &'static str = "\
# @package _global_
# HuggingFace LLM finetuning example
# Usage: uv run python src/main.py experiment=hf/llm_finetune
name: llm_finetune

model:
  pretrained_model_name: meta-llama/Llama-3.2-1B
  task: causal_lm
  load_in_4bit: true
  use_peft: true

peft:
  method: lora
  r: 16
  lora_alpha: 32
  lora_dropout: 0.05
  target_modules:
    - q_proj
    - v_proj

training:
  max_steps: 1000
  per_device_train_batch_size: 4
  gradient_accumulation_steps: 4
  learning_rate: 2e-4
  weight_decay: 0.01
  warmup_ratio: 0.03
  lr_scheduler_type: cosine
  fp16: true
  logging_steps: 10
  save_steps: 200
  eval_steps: 200
  output_dir: ${hydra:runtime.cwd}/outputs/hf_finetune

dataset:
  name: tatsu-lab/alpaca
  split: train
  max_length: 512
  text_field: text
";

/// Start of the WandB logger config, before the project name.
pub const LOGGER_WANDB_HEAD: &'static str = "\
wandb:
  project: ";

/// Rest of the WandB logger config, after the project name.
pub const LOGGER_WANDB_TAIL: &'static str = "
  entity: null
  group: null
  tags: []
  mode: online
  log_model: false
  save_dir: ${hydra:runtime.cwd}/outputs
";

/// Logger config when WandB is not installed.
pub const LOGGER_NULL: &'static str = "logger: null\n";

/// `config/callbacks/default.yaml`: checkpointing and early stopping.
pub const CALLBACKS_CONFIG: &'static str = "\
model_checkpoint:
  monitor: val_loss
  mode: min
  save_top_k: 3
  save_last: true
  dirpath: ${hydra:runtime.cwd}/outputs/checkpoints

early_stopping:
  monitor: val_loss
  patience: 10
  mode: min
";

/// Imports that open `src/main.py`.
pub const MAIN_PY_IMPORTS: &'static str = "\
import os
import time
import functools
import random

import hydra
import torch
import lightning
import numpy as np
from omegaconf import DictConfig, OmegaConf
from watermark import watermark
";

/// Blank line after the imports of `src/main.py`.
pub const MAIN_PY_GAP: &'static str = "\n";

/// Helpers and the entry point of `src/main.py`, up to the watermark package list.
pub const MAIN_PY_BODY: &'static str = "\n\
def get_time(func):
    \"\"\"Decorator that prints execution time.\"\"\"
    @functools.wraps(func)
    def wrapper(*args, **kwargs):
        start = time.perf_counter()
        result = func(*args, **kwargs)
        elapsed = time.perf_counter() - start
        print(f\"\\n⏱  {func.__name__} took {elapsed:.2f}s\")
        return result
    return wrapper


def set_seed(seed: int = 42, deterministic: bool = True):
    \"\"\"Set random seed for reproducibility.\"\"\"
    random.seed(seed)
    np.random.seed(seed)
    torch.manual_seed(seed)
    torch.cuda.manual_seed_all(seed)
    if deterministic:
        torch.backends.cudnn.deterministic = True
        torch.backends.cudnn.benchmark = False


@get_time
@hydra.main(version_base=\"1.1\", config_path=\"../config\", config_name=\"config\")
def main(cfg: DictConfig):
    print(watermark(packages=\"torch,lightning";

/// Rest of the entry point of `src/main.py`, after the watermark package list.
pub const MAIN_PY_RUN: &'static str = "\
\", python=True))

    # loading configuration
    config = OmegaConf.create(OmegaConf.to_container(cfg))

    # setting random seed for reproducibility
    set_seed(seed=config.general.seed, deterministic=True)

    print(config)
";

/// Closing `__main__` guard of `src/main.py`.
pub const MAIN_PY_END: &'static str = "

if __name__ == \"__main__\":
    main()
";

/// Import line added to `src/main.py` when WandB is installed.
pub const WANDB_IMPORT: &'static str = "import wandb\n";

/// Device pinning added to `src/main.py` on a Linux machine with a GPU.
pub const GPU_ENV_LINE: &'static str = "\
os.environ[\"CUDA_VISIBLE_DEVICES\"] = \"0\"

";

/// Watermark package entry added when Transformers is installed.
pub const TRANSFORMERS_WATERMARK: &'static str = ",transformers";

/// Watermark package entry added when WandB is installed.
pub const WANDB_WATERMARK: &'static str = ",wandb";

/// Smoke test of WandB added to the entry point when WandB is installed.
pub const WANDB_TEST_BLOCK: &'static str = "
    # ── wandb test ──
    wandb.init(project=config.logger.wandb.project, mode=\"disabled\")
    wandb.log({\"test_metric\": 1.0})
    wandb.finish()
    print(\"✔ wandb test passed\")
";

/// Start of `notes/README.md`, before the project name.
pub const NOTES_HEAD: &'static str = "# ";

/// Rest of `notes/README.md`, after the project name.
pub const NOTES_TAIL: &'static str = " — Notes

Experiment notes and observations go here.
";

/// Start of `README.md`, before the project name.
pub const README_HEAD: &'static str = "# ";

/// Part of `README.md` between the title and the project tree.
pub const README_MID: &'static str = "

## Setup

```bash
uv sync
```

## Run

```bash
uv run python src/main.py
```

## Experiments

```bash
uv run python src/main.py experiment=debug
```

## Structure

```
";

/// Rest of `README.md` after the project tree's root.
pub const README_TAIL: &'static str = "\
/
├── config/
│   ├── general/
│   ├── datamodule/
│   ├── experiment/
│   ├── logger/
│   ├── callbacks/
│   └── config.yaml
├── src/
│   └── main.py
├── data/
├── notes/
└── .gitignore
```
";

/// Relative paths of the generated files, in the order they are written.
pub const GITIGNORE_PATH: &'static str = ".gitignore";
pub const ROOT_CONFIG_PATH: &'static str = "config/config.yaml";
pub const GENERAL_CONFIG_PATH: &'static str = "config/general/default.yaml";
pub const DATAMODULE_CONFIG_PATH: &'static str = "config/datamodule/default.yaml";
pub const EXPERIMENT_DEFAULT_PATH: &'static str = "config/experiment/default.yaml";
pub const EXPERIMENT_DEBUG_PATH: &'static str = "config/experiment/debug.yaml";
pub const MNIST_EXPERIMENT_PATH: &'static str = "config/experiment/lg/mnist_classify.yaml";
pub const LLM_FINETUNE_EXPERIMENT_PATH: &'static str = "config/experiment/hf/llm_finetune.yaml";
pub const LOGGER_CONFIG_PATH: &'static str = "config/logger/default.yaml";
pub const CALLBACKS_CONFIG_PATH: &'static str = "config/callbacks/default.yaml";
pub const MAIN_PY_PATH: &'static str = "src/main.py";
pub const INIT_PY_PATH: &'static str = "src/__init__.py";
pub const GITKEEP_PATH: &'static str = "data/.gitkeep";
pub const NOTES_PATH: &'static str = "notes/README.md";
pub const README_PATH: &'static str = "README.md";

/// `config/general/default.yaml` for a project called `name`.
pub open spec fn general_config_text(name: Seq<char>) -> Seq<char> {
    GENERAL_HEAD@ + name + GENERAL_TAIL@
}

/// `config/logger/default.yaml`: the WandB logger naming the project when
/// WandB is installed, a null logger otherwise.
pub open spec fn logger_config_text(c: ConfigView) -> Seq<char> {
    if c.use_wandb {
        LOGGER_WANDB_HEAD@ + c.name + LOGGER_WANDB_TAIL@
    } else {
        LOGGER_NULL@
    }
}

/// `src/main.py`: the fixed entry point, with the WandB import, watermark
/// entry and smoke test when WandB is installed, the Transformers watermark
/// entry when Transformers is installed, and GPU pinning on Linux with a GPU.
pub open spec fn main_py_text(c: ConfigView) -> Seq<char> {
    MAIN_PY_IMPORTS@
        + included(c.use_wandb, WANDB_IMPORT@)
        + MAIN_PY_GAP@
        + included(gpu_active(c), GPU_ENV_LINE@)
        + MAIN_PY_BODY@
        + included(c.use_transformers, TRANSFORMERS_WATERMARK@)
        + included(c.use_wandb, WANDB_WATERMARK@)
        + MAIN_PY_RUN@
        + included(c.use_wandb, WANDB_TEST_BLOCK@)
        + MAIN_PY_END@
}

/// `notes/README.md` for a project called `name`.
pub open spec fn notes_text(name: Seq<char>) -> Seq<char> {
    NOTES_HEAD@ + name + NOTES_TAIL@
}

/// `README.md` for a project called `name`.
pub open spec fn readme_text(name: Seq<char>) -> Seq<char> {
    README_HEAD@ + name + README_MID@ + name + README_TAIL@
}

/// Every generated file as (relative path, contents), in writing order.
pub open spec fn project_files(c: ConfigView) -> Seq<(Seq<char>, Seq<char>)> {
    seq![
        (GITIGNORE_PATH@, GITIGNORE@),
        (ROOT_CONFIG_PATH@, ROOT_CONFIG@),
        (GENERAL_CONFIG_PATH@, general_config_text(c.name)),
        (DATAMODULE_CONFIG_PATH@, DATAMODULE_CONFIG@),
        (EXPERIMENT_DEFAULT_PATH@, EXPERIMENT_DEFAULT@),
        (EXPERIMENT_DEBUG_PATH@, EXPERIMENT_DEBUG@),
        (MNIST_EXPERIMENT_PATH@, MNIST_EXPERIMENT@),
        (LLM_FINETUNE_EXPERIMENT_PATH@, LLM_FINETUNE_EXPERIMENT@),
        (LOGGER_CONFIG_PATH@, logger_config_text(c)),
        (CALLBACKS_CONFIG_PATH@, CALLBACKS_CONFIG@),
        (MAIN_PY_PATH@, main_py_text(c)),
        (INIT_PY_PATH@, Seq::empty()),
        (GITKEEP_PATH@, Seq::empty()),
        (NOTES_PATH@, notes_text(c.name)),
        (README_PATH@, readme_text(c.name)),
    ]
}

/// One file to write: its path relative to the project root and its text.
pub struct TemplateFile {
    pub path: String,
    pub contents: String,
}

impl View for TemplateFile {
    type V = (Seq<char>, Seq<char>);

    open spec fn view(&self) -> (Seq<char>, Seq<char>) {
        (self.path@, self.contents@)
    }
}

/// Text of `config/general/default.yaml`.
pub fn general_config(name: &str) -> (s: String)
    ensures
        s@ == general_config_text(name@),
{
    let mut s = String::from_str(GENERAL_HEAD);
    s.append(name);
    s.append(GENERAL_TAIL);
    s
}

/// Text of `config/logger/default.yaml`.
pub fn logger_config(cfg: &ProjectConfig) -> (s: String)
    ensures
        s@ == logger_config_text(cfg@),
{
    if cfg.use_wandb {
        let mut s = String::from_str(LOGGER_WANDB_HEAD);
        s.append(cfg.name.as_str());
        s.append(LOGGER_WANDB_TAIL);
        s
    } else {
        String::from_str(LOGGER_NULL)
    }
}

/// Appends `piece` to `s` when `b` holds.
fn append_when(s: &mut String, b: bool, piece: &str)
    ensures
        final(s)@ == old(s)@ + included(b, piece@),
{
    if b {
        s.append(piece);
    } else {
        assert(old(s)@ + included(b, piece@) =~= old(s)@);
    }
}

/// Text of `src/main.py`.
pub fn main_py(cfg: &ProjectConfig) -> (s: String)
    ensures
        s@ == main_py_text(cfg@),
{
    let gpu = cfg.gpu_active();
    let mut s = String::from_str(MAIN_PY_IMPORTS);
    append_when(&mut s, cfg.use_wandb, WANDB_IMPORT);
    s.append(MAIN_PY_GAP);
    append_when(&mut s, gpu, GPU_ENV_LINE);
    s.append(MAIN_PY_BODY);
    append_when(&mut s, cfg.use_transformers, TRANSFORMERS_WATERMARK);
    append_when(&mut s, cfg.use_wandb, WANDB_WATERMARK);
    s.append(MAIN_PY_RUN);
    append_when(&mut s, cfg.use_wandb, WANDB_TEST_BLOCK);
    s.append(MAIN_PY_END);
    s
}

/// Text of `notes/README.md`.
pub fn notes_readme(name: &str) -> (s: String)
    ensures
        s@ == notes_text(name@),
{
    let mut s = String::from_str(NOTES_HEAD);
    s.append(name);
    s.append(NOTES_TAIL);
    s
}

/// Text of `README.md`.
pub fn readme(name: &str) -> (s: String)
    ensures
        s@ == readme_text(name@),
{
    let mut s = String::from_str(README_HEAD);
    s.append(name);
    s.append(README_MID);
    s.append(name);
    s.append(README_TAIL);
    s
}

fn file(path: &str, contents: String) -> (f: TemplateFile)
    ensures
        f@ == (path@, contents@),
{
    TemplateFile { path: String::from_str(path), contents }
}

/// Every file of a new project, with its text, in the order the files are
/// written.
pub fn render_all(cfg: &ProjectConfig) -> (files: Vec<TemplateFile>)
    ensures
        files.len() == project_files(cfg@).len(),
        forall|i: int| 0 <= i < files.len() ==> #[trigger] files[i]@ == project_files(cfg@)[i],
{
    let name = cfg.name.as_str();
    let mut files: Vec<TemplateFile> = Vec::new();
    files.push(file(GITIGNORE_PATH, String::from_str(GITIGNORE)));
    files.push(file(ROOT_CONFIG_PATH, String::from_str(ROOT_CONFIG)));
    files.push(file(GENERAL_CONFIG_PATH, general_config(name)));
    files.push(file(DATAMODULE_CONFIG_PATH, String::from_str(DATAMODULE_CONFIG)));
    files.push(file(EXPERIMENT_DEFAULT_PATH, String::from_str(EXPERIMENT_DEFAULT)));
    files.push(file(EXPERIMENT_DEBUG_PATH, String::from_str(EXPERIMENT_DEBUG)));
    files.push(file(MNIST_EXPERIMENT_PATH, String::from_str(MNIST_EXPERIMENT)));
    files.push(file(LLM_FINETUNE_EXPERIMENT_PATH, String::from_str(LLM_FINETUNE_EXPERIMENT)));
    files.push(file(LOGGER_CONFIG_PATH, logger_config(cfg)));
    files.push(file(CALLBACKS_CONFIG_PATH, String::from_str(CALLBACKS_CONFIG)));
    files.push(file(MAIN_PY_PATH, main_py(cfg)));
    files.push(file(INIT_PY_PATH, String::new()));
    files.push(file(GITKEEP_PATH, String::new()));
    files.push(file(NOTES_PATH, notes_readme(name)));
    files.push(file(README_PATH, readme(name)));
    files
}

} // verus!
