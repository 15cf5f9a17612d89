use ai_work::install::{
    cuda_tag, error_tail, progress_line, index_config, init_leftovers, install_plan, runtime_packages,
    torch_spec, with_index_config,
};
use ai_work::setup::{
    check_python_version, check_pytorch_version, choose_cuda, join_with, python_versions, pytorch_versions, CudaChoice, TRANSFORMERS_DEFAULT,
    WANDB_DEFAULT,
};
use ai_work::{compatible_cuda, Os, ProjectConfig};

const GPU_INDEX_128: &str = "\n\
[[tool.uv.index]]
name = \"pytorch-cu128\"
url = \"https://download.pytorch.org/whl/cu128\"
explicit = true

[tool.uv.sources]
torch = [
{ index = \"pytorch-cu128\", marker = \"sys_platform == 'linux'\" },
]
torchvision = [
{ index = \"pytorch-cu128\", marker = \"sys_platform == 'linux'\" },
]
torchaudio = [
{ index = \"pytorch-cu128\", marker = \"sys_platform == 'linux'\" },
]
";

const CPU_INDEX: &str = "\n\
[[tool.uv.index]]
name = \"pytorch-cpu\"
url = \"https://download.pytorch.org/whl/cpu\"
explicit = true

[tool.uv.sources]
torch = [
{ index = \"pytorch-cpu\" },
]
torchvision = [
{ index = \"pytorch-cpu\" },
]
torchaudio = [
{ index = \"pytorch-cpu\" },
]
";


fn strings(v: &[&str]) -> Vec<String> {
    v.iter().map(|s| s.to_string()).collect()
}

fn cfg(wandb: bool, transformers: bool, gpu: bool, cuda: Option<&str>) -> ProjectConfig {
    ProjectConfig {
        name: "integ-proj".into(),
        output: ".".into(),
        python_version: "3.12".into(),
        pytorch_version: "2.8.0".into(),
        cuda_version: cuda.map(|c| c.to_string()),
        use_wandb: wandb,
        use_transformers: transformers,
        os: Os::Linux,
        has_gpu: gpu,
    }
}

#[test]
fn offered_versions() {
    assert_eq!(python_versions(), strings(&["3.12", "3.11", "3.10", "3.13"]));
    assert_eq!(pytorch_versions(), strings(&["2.8.0", "2.7.1", "2.6.0", "2.5.1", "2.4.1"]));
    assert!(WANDB_DEFAULT);
    assert!(!TRANSFORMERS_DEFAULT);
}

#[test]
fn compatible_cuda_per_torch_version() {
    assert_eq!(compatible_cuda("2.8.0"), strings(&["12.8", "12.6"]));
    assert_eq!(compatible_cuda("2.7.1"), strings(&["12.8", "12.6", "11.8"]));
    assert_eq!(compatible_cuda("2.6.0"), strings(&["12.6", "12.4", "11.8"]));
    assert_eq!(compatible_cuda("2.5.1"), strings(&["12.4", "12.1", "11.8"]));
    assert_eq!(compatible_cuda("2.4.1"), strings(&["12.4", "12.1", "11.8"]));
    assert!(compatible_cuda("1.0.0").is_empty());
    let documented = ["11.8", "12.1", "12.4", "12.6", "12.8"];
    for t in pytorch_versions() {
        for c in compatible_cuda(&t) {
            assert!(documented.contains(&c.as_str()));
        }
    }
}

#[test]
fn cuda_not_applicable_without_linux_gpu() {
    assert!(matches!(
        choose_cuda(Os::Mac, true, "2.8.0", Some("12.8".into())),
        CudaChoice::NotApplicable
    ));
    assert!(matches!(
        choose_cuda(Os::Linux, false, "2.8.0", Some("12.8".into())),
        CudaChoice::NotApplicable
    ));
    assert!(matches!(choose_cuda(Os::Windows, true, "2.8.0", None), CudaChoice::NotApplicable));
}

#[test]
fn cuda_request_accepted_or_refused() {
    match choose_cuda(Os::Linux, true, "2.8.0", Some("12.8".into())) {
        CudaChoice::Use(c) => assert_eq!(c, "12.8"),
        _ => panic!("12.8 fits PyTorch 2.8.0"),
    }
    match choose_cuda(Os::Linux, true, "2.8.0", Some("11.8".into())) {
        CudaChoice::Refused(m) => assert_eq!(
            m,
            "CUDA 11.8 is not compatible with PyTorch 2.8.0. Valid options: 12.8, 12.6"
        ),
        _ => panic!("11.8 does not fit PyTorch 2.8.0"),
    }
    match choose_cuda(Os::Linux, true, "9.9.9", Some("12.8".into())) {
        CudaChoice::Refused(m) => {
            assert_eq!(m, "CUDA 12.8 is not compatible with PyTorch 9.9.9. Valid options: ")
        }
        _ => panic!("unknown PyTorch version"),
    }
}

#[test]
fn cuda_asked_when_not_requested() {
    match choose_cuda(Os::Linux, true, "2.6.0", None) {
        CudaChoice::Ask(opts) => assert_eq!(opts, strings(&["12.6", "12.4", "11.8"])),
        _ => panic!("the user picks a CUDA version"),
    }
    match choose_cuda(Os::Linux, true, "9.9.9", None) {
        CudaChoice::Refused(m) => {
            assert_eq!(m, "No CUDA version is known to be compatible with PyTorch 9.9.9")
        }
        _ => panic!("nothing to pick from"),
    }
}

#[test]
fn join_separates_neighbours() {
    assert_eq!(join_with(&strings(&[]), ", "), "");
    assert_eq!(join_with(&strings(&["a"]), ", "), "a");
    assert_eq!(join_with(&strings(&["a", "b", "c"]), ", "), "a, b, c");
}

#[test]
fn cuda_tag_drops_dots() {
    assert_eq!(cuda_tag("12.8"), "128");
    assert_eq!(cuda_tag("11.8"), "118");
    assert_eq!(cuda_tag("1.2.3"), "123");
    assert_eq!(cuda_tag(""), "");
}

#[test]
fn index_config_for_gpu_and_cpu() {
    assert_eq!(index_config(&cfg(false, false, true, Some("12.8"))), GPU_INDEX_128);
    assert_eq!(index_config(&cfg(false, false, false, None)), CPU_INDEX);
    // A GPU without a CUDA version, or a CUDA version without a GPU, uses the CPU index.
    assert_eq!(index_config(&cfg(false, false, true, None)), CPU_INDEX);
    assert_eq!(index_config(&cfg(false, false, false, Some("12.8"))), CPU_INDEX);
    let mut mac = cfg(false, false, true, Some("12.8"));
    mac.os = Os::Mac;
    assert_eq!(index_config(&mac), CPU_INDEX);
    assert_eq!(
        with_index_config("[project]\nname = \"x\"\n", &cfg(false, false, false, None)),
        format!("[project]\nname = \"x\"\n{CPU_INDEX}")
    );
}

#[test]
fn runtime_packages_follow_options() {
    let base = ["hydra-core", "omegaconf", "watermark", "rdkit", "lightning"];
    assert_eq!(runtime_packages(&cfg(false, false, false, None)), strings(&base));
    let mut all = base.to_vec();
    all.push("wandb");
    all.push("transformers");
    assert_eq!(runtime_packages(&cfg(true, true, false, None)), strings(&all));
    let mut tr = base.to_vec();
    tr.push("transformers");
    assert_eq!(runtime_packages(&cfg(false, true, false, None)), strings(&tr));
}

#[test]
fn install_plan_steps() {
    assert_eq!(torch_spec("2.8.0"), "torch==2.8.0");
    let plan = install_plan(&cfg(true, false, true, Some("12.8")));
    assert_eq!(plan.len(), 4);
    assert_eq!(plan[0].args, strings(&["init", "--python", "3.12", "--no-readme"]));
    assert_eq!(plan[0].label, "Initializing uv project (Python 3.12)");
    assert_eq!(
        plan[1].args,
        strings(&[
            "pip",
            "install",
            "torch==2.8.0",
            "--index-url",
            "https://download.pytorch.org/whl/cu128"
        ])
    );
    assert_eq!(plan[1].label, "Installing PyTorch 2.8.0 + CUDA 12.8");
    assert_eq!(
        plan[2].args,
        strings(&["add", "hydra-core", "omegaconf", "watermark", "rdkit", "lightning", "wandb"])
    );
    assert_eq!(plan[2].label, "Installing runtime packages");
    assert_eq!(plan[3].args, strings(&["add", "--dev", "ipykernel", "ruff"]));
    assert_eq!(plan[3].label, "Installing dev dependencies (ipykernel, ruff)");
    let cpu = install_plan(&cfg(false, false, false, None));
    assert_eq!(cpu[1].args, strings(&["add", "torch==2.8.0"]));
    assert_eq!(cpu[1].label, "Installing PyTorch 2.8.0");
    let mut mac = cfg(false, false, true, Some("12.8"));
    mac.os = Os::Mac;
    assert_eq!(install_plan(&mac)[1].args, strings(&["add", "torch==2.8.0"]));
    let no_cuda = install_plan(&cfg(false, false, true, None));
    assert_eq!(no_cuda[1].args, strings(&["add", "torch==2.8.0"]));
    assert_eq!(init_leftovers(), strings(&["hello.py", "main.py"]));
}

#[test]
fn error_tail_keeps_last_five_lines() {
    assert_eq!(error_tail(&strings(&[])), "");
    assert_eq!(error_tail(&strings(&["a", "b"])), "a\nb");
    assert_eq!(
        error_tail(&strings(&["1", "2", "3", "4", "5", "6", "7"])),
        "3\n4\n5\n6\n7"
    );
}

#[test]
fn cleanup_spares_generated_files() {
    let files = ai_work::templates::render_all(&cfg(true, true, true, Some("12.8")));
    for left in init_leftovers() {
        assert!(files.iter().all(|f| f.path != left), "{left} is a generated file");
    }
}

#[test]
fn torch_install_uses_the_appended_index() {
    let c = cfg(false, false, true, Some("12.4"));
    let plan = install_plan(&c);
    let url = &plan[1].args[4];
    assert_eq!(url, "https://download.pytorch.org/whl/cu124");
    assert!(index_config(&c).contains(url.as_str()));
}

#[test]
fn unlisted_versions_refused() {
    assert_eq!(check_python_version("3.12"), Ok(()));
    assert_eq!(check_python_version("3.13"), Ok(()));
    assert_eq!(
        check_python_version("3.9"),
        Err("Python 3.9 is not supported. Valid options: 3.12, 3.11, 3.10, 3.13".to_string())
    );
    assert_eq!(check_pytorch_version("2.4.1"), Ok(()));
    assert_eq!(
        check_pytorch_version("2.3.0"),
        Err("PyTorch 2.3.0 is not supported. Valid options: 2.8.0, 2.7.1, 2.6.0, 2.5.1, 2.4.1"
            .to_string())
    );
}

#[test]
fn progress_lines_are_trimmed() {
    assert_eq!(progress_line("  Resolved 3 packages \t"), Some("Resolved 3 packages".to_string()));
    assert_eq!(progress_line(" \u{3000}\u{a0}\n"), None);
    assert_eq!(progress_line(""), None);
    assert_eq!(progress_line("x"), Some("x".to_string()));
    assert_eq!(progress_line("\u{2003}a b\u{85}"), Some("a b".to_string()));
    for s in ["  a  ", "\t\tb", "c\r\n", " d e ", "\u{2028}f\u{205f}"] {
        let expected = s.trim();
        let got = progress_line(s);
        assert_eq!(got.as_deref(), if expected.is_empty() { None } else { Some(expected) });
    }
}
