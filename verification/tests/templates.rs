use ai_work::scaffold::dirs;
use ai_work::templates::{render_all, TemplateFile};
use ai_work::{Os, ProjectConfig};

const MAIN_PY_PLAIN: &str = "\
import os
import time
import functools
import random

import hydra
import torch
import lightning
import numpy as np
from omegaconf import DictConfig, OmegaConf
from watermark import watermark


def get_time(func):
    \"\"\"Decorator that prints execution time.\"\"\"
    @functools.wraps(func)
    def wrapper(*args, **kwargs):
        start = time.perf_counter()
        result = func(*args, **kwargs)
        elapsed = time.perf_counter() - start
        print(f\"\\n⏱  {func.__name__} took {elapsed:.2f}s\")
        return result
    return wrapper


def set_seed(seed: int = 42, deterministic: bool = True):
    \"\"\"Set random seed for reproducibility.\"\"\"
    random.seed(seed)
    np.random.seed(seed)
    torch.manual_seed(seed)
    torch.cuda.manual_seed_all(seed)
    if deterministic:
        torch.backends.cudnn.deterministic = True
        torch.backends.cudnn.benchmark = False


@get_time
@hydra.main(version_base=\"1.1\", config_path=\"../config\", config_name=\"config\")
def main(cfg: DictConfig):
    print(watermark(packages=\"torch,lightning\", python=True))

    # loading configuration
    config = OmegaConf.create(OmegaConf.to_container(cfg))

    # setting random seed for reproducibility
    set_seed(seed=config.general.seed, deterministic=True)

    print(config)


if __name__ == \"__main__\":
    main()
";

const MAIN_PY_FULL: &str = "\
import os
import time
import functools
import random

import hydra
import torch
import lightning
import numpy as np
from omegaconf import DictConfig, OmegaConf
from watermark import watermark
import wandb

os.environ[\"CUDA_VISIBLE_DEVICES\"] = \"0\"


def get_time(func):
    \"\"\"Decorator that prints execution time.\"\"\"
    @functools.wraps(func)
    def wrapper(*args, **kwargs):
        start = time.perf_counter()
        result = func(*args, **kwargs)
        elapsed = time.perf_counter() - start
        print(f\"\\n⏱  {func.__name__} took {elapsed:.2f}s\")
        return result
    return wrapper


def set_seed(seed: int = 42, deterministic: bool = True):
    \"\"\"Set random seed for reproducibility.\"\"\"
    random.seed(seed)
    np.random.seed(seed)
    torch.manual_seed(seed)
    torch.cuda.manual_seed_all(seed)
    if deterministic:
        torch.backends.cudnn.deterministic = True
        torch.backends.cudnn.benchmark = False


@get_time
@hydra.main(version_base=\"1.1\", config_path=\"../config\", config_name=\"config\")
def main(cfg: DictConfig):
    print(watermark(packages=\"torch,lightning,transformers,wandb\", python=True))

    # loading configuration
    config = OmegaConf.create(OmegaConf.to_container(cfg))

    # setting random seed for reproducibility
    set_seed(seed=config.general.seed, deterministic=True)

    print(config)

    # ── wandb test ──
    wandb.init(project=config.logger.wandb.project, mode=\"disabled\")
    wandb.log({\"test_metric\": 1.0})
    wandb.finish()
    print(\"✔ wandb test passed\")


if __name__ == \"__main__\":
    main()
";

const LOGGER_WANDB: &str = "\
wandb:
  project: test-proj
  entity: null
  group: null
  tags: []
  mode: online
  log_model: false
  save_dir: ${hydra:runtime.cwd}/outputs
";

const GENERAL: &str = "\
project_name: test-proj
seed: 42
device: auto
precision: 32
num_workers: 4
verbose: true
";

const README: &str = "\
# test-proj

## Setup

```bash
uv sync
```

## Run

```bash
uv run python src/main.py
```

## Experiments

```bash
uv run python src/main.py experiment=debug
```

## Structure

```
test-proj/
├── config/
│   ├── general/
│   ├── datamodule/
│   ├── experiment/
│   ├── logger/
│   ├── callbacks/
│   └── config.yaml
├── src/
│   └── main.py
├── data/
├── notes/
└── .gitignore
```
";

const NOTES: &str = "\
# test-proj — Notes

Experiment notes and observations go here.
";


fn make_cfg(wandb: bool, transformers: bool, gpu: bool) -> ProjectConfig {
    ProjectConfig {
        name: "test-proj".into(),
        output: "/tmp/projects".into(),
        python_version: "3.12".into(),
        pytorch_version: "2.8.0".into(),
        cuda_version: if gpu { Some("12.8".into()) } else { None },
        use_wandb: wandb,
        use_transformers: transformers,
        os: Os::Linux,
        has_gpu: gpu,
    }
}

fn setup(wandb: bool, transformers: bool, gpu: bool) -> Vec<TemplateFile> {
    render_all(&make_cfg(wandb, transformers, gpu))
}

fn read(files: &[TemplateFile], path: &str) -> String {
    files
        .iter()
        .find(|f| f.path == path)
        .unwrap_or_else(|| panic!("missing file: {path}"))
        .contents
        .clone()
}

const BASE_FILES: [&str; 15] = [
    ".gitignore",
    "README.md",
    "src/__init__.py",
    "src/main.py",
    "data/.gitkeep",
    "notes/README.md",
    "config/config.yaml",
    "config/general/default.yaml",
    "config/datamodule/default.yaml",
    "config/experiment/default.yaml",
    "config/experiment/debug.yaml",
    "config/experiment/lg/mnist_classify.yaml",
    "config/experiment/hf/llm_finetune.yaml",
    "config/logger/default.yaml",
    "config/callbacks/default.yaml",
];

#[test]
fn all_base_files_created() {
    let files = setup(false, false, false);
    for f in &BASE_FILES {
        assert!(files.iter().any(|t| t.path == *f), "missing file: {f}");
    }
    assert_eq!(files.len(), BASE_FILES.len());
}

#[test]
fn wandb_enabled_logger_config() {
    let files = setup(true, false, false);
    let content = read(&files, "config/logger/default.yaml");
    assert!(content.contains("wandb:"));
    assert!(content.contains("project: test-proj"));
}

#[test]
fn wandb_disabled_logger_config() {
    let files = setup(false, false, false);
    let content = read(&files, "config/logger/default.yaml");
    assert!(content.contains("logger: null"));
}

#[test]
fn wandb_enabled_main_py() {
    let files = setup(true, false, false);
    let content = read(&files, "src/main.py");
    assert!(content.contains("import wandb"));
    assert!(content.contains("wandb.init"));
}

#[test]
fn wandb_disabled_main_py() {
    let files = setup(false, false, false);
    let content = read(&files, "src/main.py");
    assert!(!content.contains("import wandb"));
}

#[test]
fn transformers_watermark_included() {
    let files = setup(false, true, false);
    let content = read(&files, "src/main.py");
    assert!(content.contains(",transformers"));
}

#[test]
fn gpu_sets_cuda_visible_devices() {
    let files = setup(false, false, true);
    let content = read(&files, "src/main.py");
    assert!(content.contains("CUDA_VISIBLE_DEVICES"));
}

#[test]
fn no_gpu_no_cuda_env() {
    let files = setup(false, false, false);
    let content = read(&files, "src/main.py");
    assert!(!content.contains("CUDA_VISIBLE_DEVICES"));
}

#[test]
fn project_name_in_general_config() {
    let files = setup(false, false, false);
    let content = read(&files, "config/general/default.yaml");
    assert!(content.contains("project_name: test-proj"));
}

#[test]
fn lg_experiment_has_trainer_and_model() {
    let files = setup(false, false, false);
    let content = read(&files, "config/experiment/lg/mnist_classify.yaml");
    assert!(content.contains("trainer:"));
    assert!(content.contains("model:"));
    assert!(content.contains("datamodule:"));
    assert!(content.contains("MNISTClassifier"));
}

#[test]
fn hf_experiment_has_peft_and_training() {
    let files = setup(false, false, false);
    let content = read(&files, "config/experiment/hf/llm_finetune.yaml");
    assert!(content.contains("peft:"));
    assert!(content.contains("training:"));
    assert!(content.contains("dataset:"));
    assert!(content.contains("lora"));
}

#[test]
fn readme_contains_project_name() {
    let files = setup(false, false, false);
    let content = read(&files, "README.md");
    assert!(content.contains("# test-proj"));
}

#[test]
fn full_project_minimal() {
    let files = setup(false, false, false);
    let ds = dirs();
    // Every file's directory is one of the project's directories.
    for f in &files {
        let parent = match f.path.rfind('/') {
            Some(i) => f.path[..i].to_string(),
            None => String::new(),
        };
        assert!(ds.contains(&parent), "missing dir: {parent}");
    }
    for f in &BASE_FILES {
        let content = read(&files, f);
        // __init__.py and .gitkeep are allowed to be empty
        if !f.contains("__init__") && !f.contains(".gitkeep") {
            assert!(!content.is_empty(), "file is empty: {f}");
        }
    }
}

#[test]
fn full_project_all_options_enabled() {
    let files = setup(true, true, true);
    let main_py = read(&files, "src/main.py");
    assert!(main_py.contains("import wandb"));
    assert!(main_py.contains(",transformers"));
    assert!(main_py.contains("CUDA_VISIBLE_DEVICES"));

    let logger = read(&files, "config/logger/default.yaml");
    assert!(logger.contains("wandb:"));
}

#[test]
fn no_extra_files_outside_template() {
    let files = setup(false, false, false);
    let mut count = 0;
    for f in &files {
        count += 1;
        let valid_prefixes = ["src/", "config/", "data/", "notes/", ".gitignore", "README.md"];
        assert!(
            valid_prefixes.iter().any(|p| f.path.starts_with(p)),
            "unexpected file: {}",
            f.path
        );
    }
    assert!(count > 0, "no files found");
}

#[test]
fn main_py_matches_expected_text() {
    assert_eq!(read(&setup(false, false, false), "src/main.py"), MAIN_PY_PLAIN);
    assert_eq!(read(&setup(true, true, true), "src/main.py"), MAIN_PY_FULL);
}

#[test]
fn name_dependent_files_match_expected_text() {
    let files = setup(true, false, false);
    assert_eq!(read(&files, "config/logger/default.yaml"), LOGGER_WANDB);
    assert_eq!(read(&files, "config/general/default.yaml"), GENERAL);
    assert_eq!(read(&files, "README.md"), README);
    assert_eq!(read(&files, "notes/README.md"), NOTES);
    assert_eq!(read(&setup(false, false, false), "config/logger/default.yaml"), "logger: null\n");
}

#[test]
fn placeholders_are_empty_and_paths_distinct() {
    let files = setup(true, true, true);
    assert_eq!(read(&files, "src/__init__.py"), "");
    assert_eq!(read(&files, "data/.gitkeep"), "");
    for (i, a) in files.iter().enumerate() {
        for b in files.iter().skip(i + 1) {
            assert_ne!(a.path, b.path);
        }
    }
}

#[test]
fn gpu_pinning_needs_linux() {
    let mut cfg = make_cfg(false, false, true);
    cfg.os = Os::Mac;
    let files = render_all(&cfg);
    assert!(!read(&files, "src/main.py").contains("CUDA_VISIBLE_DEVICES"));
}

#[test]
fn directory_list() {
    let ds = dirs();
    let expected = [
        "",
        "src",
        "data",
        "notes",
        "config",
        "config/general",
        "config/datamodule",
        "config/experiment",
        "config/experiment/lg",
        "config/experiment/hf",
        "config/logger",
        "config/callbacks",
    ];
    assert_eq!(ds, expected.iter().map(|s| s.to_string()).collect::<Vec<_>>());
}

#[test]
fn test_default_values() {
    let cfg = ProjectConfig::test_default("demo", "/tmp/out");
    assert_eq!(cfg.name, "demo");
    assert_eq!(cfg.output, "/tmp/out");
    assert_eq!(cfg.python_version, "3.12");
    assert_eq!(cfg.pytorch_version, "2.8.0");
    assert_eq!(cfg.cuda_version, None);
    assert!(!cfg.use_wandb && !cfg.use_transformers && !cfg.has_gpu);
    assert_eq!(cfg.os, Os::Linux);
    assert!(!cfg.gpu_active());
}

#[test]
fn debug_experiment_is_short_cpu_run() {
    let files = setup(false, false, false);
    let content = read(&files, "config/experiment/debug.yaml");
    assert!(content.contains("max_epochs: 2"));
    assert!(content.contains("accelerator: cpu"));
    assert!(content.contains("fast_dev_run: true"));
}
