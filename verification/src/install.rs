//! What is done to a new project after its files are written: the PyTorch
//! package index added to `pyproject.toml`, the packages to install and the
//! `uv` commands that install them.

use vstd::prelude::*;

use crate::config::{ConfigView, Os, ProjectConfig};
use crate::setup::{join, strings_view};
use crate::text::{
    agrees_in, contains, lemma_occurs_within, lemma_pair_free_excludes, lemma_scan_occurs,
    lemma_scan_pair_free, no_pair_in, occurs_at, pair_free, trim, trimmed,
};

verus! {

/// Opening of the CUDA package index table, before the index name.
pub const INDEX_HEAD: &'static str = "\n\
[[tool.uv.index]]
name = \"";

/// Between the CUDA index name and its URL.
pub const INDEX_URL_FIELD: &'static str = "\
\"
url = \"";

/// After the CUDA index URL, up to the index name of the `torch` source.
pub const INDEX_SOURCES_TORCH: &'static str = "\
\"
explicit = true

[tool.uv.sources]
torch = [
{ index = \"";

/// After the `torch` source, up to the index name of the `torchvision` source.
pub const INDEX_SOURCES_TORCHVISION: &'static str = "\
\", marker = \"sys_platform == 'linux'\" },
]
torchvision = [
{ index = \"";

/// After the `torchvision` source, up to the index name of the `torchaudio` source.
pub const INDEX_SOURCES_TORCHAUDIO: &'static str = "\
\", marker = \"sys_platform == 'linux'\" },
]
torchaudio = [
{ index = \"";

/// Closing of the `torchaudio` source.
pub const INDEX_SOURCES_END: &'static str = "\
\", marker = \"sys_platform == 'linux'\" },
]
";

/// Package index settings that take PyTorch from the CPU wheel index.
pub const CPU_INDEX_CONFIG: &'static str = "\n\
[[tool.uv.index]]
name = \"pytorch-cpu\"
url = \"https://download.pytorch.org/whl/cpu\"
explicit = true

[tool.uv.sources]
torch = [
{ index = \"pytorch-cpu\" },
]
torchvision = [
{ index = \"pytorch-cpu\" },
]
torchaudio = [
{ index = \"pytorch-cpu\" },
]
";

/// Base URL of PyTorch's CUDA wheel indexes; the CUDA tag completes it.
pub const CUDA_INDEX_URL_BASE: &'static str = "https://download.pytorch.org/whl/cu";

/// Prefix of the name given to a CUDA wheel index; the CUDA tag completes it.
pub const CUDA_INDEX_NAME_BASE: &'static str = "pytorch-cu";

/// A CUDA version as PyTorch's wheel indexes spell it: without its dots
/// (`12.8` becomes `128`).
pub open spec fn cuda_tag_text(cuda: Seq<char>) -> Seq<char> {
    cuda.filter(|ch: char| ch != '.')
}

/// Index settings that take `torch`, `torchvision` and `torchaudio` on Linux
/// from PyTorch's wheel index for the CUDA version with tag `tag`.
pub open spec fn cuda_index_text(tag: Seq<char>) -> Seq<char> {
    let name = CUDA_INDEX_NAME_BASE@ + tag;
    let url = CUDA_INDEX_URL_BASE@ + tag;
    INDEX_HEAD@ + name + INDEX_URL_FIELD@ + url + INDEX_SOURCES_TORCH@ + name
        + INDEX_SOURCES_TORCHVISION@ + name + INDEX_SOURCES_TORCHAUDIO@ + name
        + INDEX_SOURCES_END@
}

/// The index settings appended to `pyproject.toml`: the CUDA index when the
/// project targets Linux with a GPU and has a CUDA version, the CPU index
/// otherwise.
pub open spec fn index_config_text(c: ConfigView) -> Seq<char> {
    match c.cuda_version {
        Some(cu) => if c.os == Os::Linux && c.has_gpu {
            cuda_index_text(cuda_tag_text(cu))
        } else {
            CPU_INDEX_CONFIG@
        },
        None => CPU_INDEX_CONFIG@,
    }
}

/// Runtime packages installed into every project, then WandB and
/// Transformers when selected.
pub open spec fn runtime_package_names(c: ConfigView) -> Seq<Seq<char>> {
    let base = seq!["hydra-core"@, "omegaconf"@, "watermark"@, "rdkit"@, "lightning"@];
    let with_wandb = if c.use_wandb {
        base.push("wandb"@)
    } else {
        base
    };
    if c.use_transformers {
        with_wandb.push("transformers"@)
    } else {
        with_wandb
    }
}

/// The requirement that pins PyTorch to the configured version.
pub open spec fn torch_requirement(version: Seq<char>) -> Seq<char> {
    "torch=="@ + version
}

/// Progress label of the PyTorch install: the CUDA version is named when
/// the configuration has one.
pub open spec fn torch_label(c: ConfigView) -> Seq<char> {
    "Installing PyTorch "@ + c.pytorch_version + match c.cuda_version {
        Some(cu) => " + CUDA "@ + cu,
        None => Seq::empty(),
    }
}

/// One `uv` invocation: its arguments and the label shown while it runs.
pub struct UvStep {
    pub args: Vec<String>,
    pub label: String,
}

impl View for UvStep {
    type V = (Seq<Seq<char>>, Seq<char>);

    open spec fn view(&self) -> (Seq<Seq<char>>, Seq<char>) {
        (strings_view(self.args@), self.label@)
    }
}

/// The project installs PyTorch from a CUDA wheel index: it targets Linux
/// with a GPU and has a CUDA version.
pub open spec fn uses_cuda_index(c: ConfigView) -> bool {
    c.os == Os::Linux && c.has_gpu && c.cuda_version is Some
}

/// The URL of the CUDA wheel index for the CUDA version `cuda`.
pub open spec fn cuda_index_url(cuda: Seq<char>) -> Seq<char> {
    CUDA_INDEX_URL_BASE@ + cuda_tag_text(cuda)
}

/// The `uv` arguments that install PyTorch: on Linux with a GPU and a CUDA
/// version, `pip install torch==<version> --index-url <CUDA wheel index>`;
/// elsewhere `add torch==<version>`, which takes the CPU wheel index from
/// the settings appended to `pyproject.toml`.
pub open spec fn torch_install_args(c: ConfigView) -> Seq<Seq<char>> {
    if uses_cuda_index(c) {
        seq![
            "pip"@,
            "install"@,
            torch_requirement(c.pytorch_version),
            "--index-url"@,
            cuda_index_url(c.cuda_version->0),
        ]
    } else {
        seq!["add"@, torch_requirement(c.pytorch_version)]
    }
}

/// The `uv` commands run in a new project, in order: create the project
/// with the chosen Python, install the pinned PyTorch, install the runtime
/// packages, install the development tools.  Between the first and the
/// second, the files `uv init` leaves behind are removed and the index
/// settings are appended to `pyproject.toml` ([`index_config_text`]); with a
/// CUDA index these settings name the same index as the PyTorch install, so
/// that packages added later that depend on PyTorch resolve it there too.
pub open spec fn install_steps(c: ConfigView) -> Seq<(Seq<Seq<char>>, Seq<char>)> {
    seq![
        (
            seq!["init"@, "--python"@, c.python_version, "--no-readme"@],
            "Initializing uv project (Python "@ + c.python_version + ")"@,
        ),
        (torch_install_args(c), torch_label(c)),
        (seq!["add"@] + runtime_package_names(c), "Installing runtime packages"@),
        (
            seq!["add"@, "--dev"@, "ipykernel"@, "ruff"@],
            "Installing dev dependencies (ipykernel, ruff)"@,
        ),
    ]
}

/// Files that `uv init` creates and a new project does not keep.
pub open spec fn init_leftover_names() -> Seq<Seq<char>> {
    seq!["hello.py"@, "main.py"@]
}

/// What is reported of a failed `uv` command: its last (at most five)
/// non-empty output lines, one per line.
pub open spec fn error_tail_text(lines: Seq<Seq<char>>) -> Seq<char> {
    let start: int = if lines.len() > 5 {
        lines.len() - 5
    } else {
        0
    };
    join(lines.subrange(start as int, lines.len() as int), "\n"@)
}

/// `cuda` without its dots.
pub fn cuda_tag(cuda: &str) -> (tag: String)
    ensures
        tag@ == cuda_tag_text(cuda@),
{
    let n: usize = cuda.unicode_len();
    let mut tag = String::new();
    let mut i: usize = 0;
    proof {
        reveal(Seq::filter);
    }
    while i < n
        invariant
            n == cuda@.len(),
            i <= n,
            tag@ == cuda_tag_text(cuda@.take(i as int)),
        decreases n - i,
    {
        let ch = cuda.get_char(i);
        assert(cuda@.take(i + 1).drop_last() =~= cuda@.take(i as int));
        assert(cuda@.take(i + 1).last() == ch);
        reveal(Seq::filter);
        if ch != '.' {
            let one = cuda.substring_char(i, i + 1);
            assert(one@ =~= seq![ch]);
            tag.append(one);
            assert(tag@ =~= cuda_tag_text(cuda@.take(i as int)).push(ch));
        }
        i = i + 1;
    }
    assert(cuda@.take(n as int) =~= cuda@);
    tag
}

/// The index settings to append to `pyproject.toml`.
pub fn index_config(cfg: &ProjectConfig) -> (s: String)
    ensures
        s@ == index_config_text(cfg@),
{
    match &cfg.cuda_version {
        Some(cu) => {
            if cfg.os == Os::Linux && cfg.has_gpu {
                let tag = cuda_tag(cu.as_str());
                let mut name = String::from_str(CUDA_INDEX_NAME_BASE);
                name.append(tag.as_str());
                let mut url = String::from_str(CUDA_INDEX_URL_BASE);
                url.append(tag.as_str());
                let mut s = String::from_str(INDEX_HEAD);
                s.append(name.as_str());
                s.append(INDEX_URL_FIELD);
                s.append(url.as_str());
                s.append(INDEX_SOURCES_TORCH);
                s.append(name.as_str());
                s.append(INDEX_SOURCES_TORCHVISION);
                s.append(name.as_str());
                s.append(INDEX_SOURCES_TORCHAUDIO);
                s.append(name.as_str());
                s.append(INDEX_SOURCES_END);
                s
            } else {
                String::from_str(CPU_INDEX_CONFIG)
            }
        },
        None => String::from_str(CPU_INDEX_CONFIG),
    }
}

/// `pyproject.toml` as `uv init` wrote it, followed by the index settings.
pub fn with_index_config(pyproject: &str, cfg: &ProjectConfig) -> (s: String)
    ensures
        s@ == pyproject@ + index_config_text(cfg@),
{
    let mut s = pyproject.to_owned();
    let extra = index_config(cfg);
    s.append(extra.as_str());
    s
}

/// The runtime packages to install.
pub fn runtime_packages(cfg: &ProjectConfig) -> (pkgs: Vec<String>)
    ensures
        strings_view(pkgs@) == runtime_package_names(cfg@),
{
    let mut pkgs: Vec<String> = Vec::new();
    pkgs.push(String::from_str("hydra-core"));
    pkgs.push(String::from_str("omegaconf"));
    pkgs.push(String::from_str("watermark"));
    pkgs.push(String::from_str("rdkit"));
    pkgs.push(String::from_str("lightning"));
    if cfg.use_wandb {
        pkgs.push(String::from_str("wandb"));
    }
    if cfg.use_transformers {
        pkgs.push(String::from_str("transformers"));
    }
    assert(strings_view(pkgs@) =~= runtime_package_names(cfg@));
    pkgs
}

/// `torch==` followed by `version`.
pub fn torch_spec(version: &str) -> (s: String)
    ensures
        s@ == torch_requirement(version@),
        s@ == "torch=="@ + version@,
{
    let mut s = String::from_str("torch==");
    s.append(version);
    s
}

fn strings_of(items: Vec<&str>) -> (v: Vec<String>)
    ensures
        v.len() == items.len(),
        forall|i: int| 0 <= i < v.len() ==> #[trigger] v[i]@ == items[i]@,
{
    let mut v: Vec<String> = Vec::new();
    let mut i: usize = 0;
    while i < items.len()
        invariant
            i <= items.len(),
            v.len() == i,
            forall|k: int| 0 <= k < i ==> #[trigger] v[k]@ == items[k]@,
        decreases items.len() - i,
    {
        v.push(String::from_str(items[i]));
        i = i + 1;
    }
    v
}

/// The `uv` commands to run in a new project, as [`install_steps`] lists
/// them.
pub fn install_plan(cfg: &ProjectConfig) -> (steps: Vec<UvStep>)
    ensures
        steps.len() == install_steps(cfg@).len(),
        forall|i: int| 0 <= i < steps.len() ==> #[trigger] steps[i]@ == install_steps(cfg@)[i],
{
    let init_args = strings_of(vec!["init", "--python", cfg.python_version.as_str(), "--no-readme"]);
    let mut init_label = String::from_str("Initializing uv project (Python ");
    init_label.append(cfg.python_version.as_str());
    init_label.append(")");
    assert(strings_view(init_args@) =~= install_steps(cfg@)[0].0);

    let torch = torch_spec(cfg.pytorch_version.as_str());
    let torch_args = match &cfg.cuda_version {
        Some(cu) => {
            if cfg.os == Os::Linux && cfg.has_gpu {
                let mut url = String::from_str(CUDA_INDEX_URL_BASE);
                let tag = cuda_tag(cu.as_str());
                url.append(tag.as_str());
                strings_of(vec!["pip", "install", torch.as_str(), "--index-url", url.as_str()])
            } else {
                strings_of(vec!["add", torch.as_str()])
            }
        },
        None => strings_of(vec!["add", torch.as_str()]),
    };
    let mut torch_label = String::from_str("Installing PyTorch ");
    torch_label.append(cfg.pytorch_version.as_str());
    match &cfg.cuda_version {
        Some(cu) => {
            torch_label.append(" + CUDA ");
            torch_label.append(cu.as_str());
        },
        None => {
            assert(torch_label@ =~= torch_label@ + Seq::<char>::empty());
        },
    }
    assert(strings_view(torch_args@) =~= install_steps(cfg@)[1].0);

    let pkgs = runtime_packages(cfg);
    let mut pkg_args: Vec<String> = Vec::new();
    pkg_args.push(String::from_str("add"));
    let mut i: usize = 0;
    while i < pkgs.len()
        invariant
            i <= pkgs.len(),
            strings_view(pkg_args@) == seq!["add"@] + strings_view(pkgs@).take(i as int),
        decreases pkgs.len() - i,
    {
        let ghost prev = pkg_args@;
        pkg_args.push(pkgs[i].clone());
        assert(strings_view(pkg_args@) =~= strings_view(prev).push(pkgs@[i as int]@));
        assert(strings_view(pkgs@).take(i + 1) =~= strings_view(pkgs@).take(i as int).push(
            pkgs@[i as int]@,
        ));
        assert(strings_view(pkg_args@) =~= seq!["add"@] + strings_view(pkgs@).take(i + 1));
        i = i + 1;
    }
    assert(strings_view(pkgs@).take(pkgs.len() as int) =~= strings_view(pkgs@));

    let dev_args = strings_of(vec!["add", "--dev", "ipykernel", "ruff"]);
    assert(strings_view(dev_args@) =~= install_steps(cfg@)[3].0);

    let mut steps: Vec<UvStep> = Vec::new();
    steps.push(UvStep { args: init_args, label: init_label });
    steps.push(UvStep { args: torch_args, label: torch_label });
    steps.push(UvStep { args: pkg_args, label: String::from_str("Installing runtime packages") });
    steps.push(
        UvStep {
            args: dev_args,
            label: String::from_str("Installing dev dependencies (ipykernel, ruff)"),
        },
    );
    steps
}

/// Names of the files `uv init` leaves that a new project does not keep.
pub fn init_leftovers() -> (names: Vec<String>)
    ensures
        strings_view(names@) == init_leftover_names(),
{
    let names = strings_of(vec!["hello.py", "main.py"]);
    assert(strings_view(names@) =~= init_leftover_names());
    names
}

/// A line of `uv`'s progress output as it is shown and kept for the error
/// report: trimmed of white space, and dropped when nothing is left.
pub fn progress_line(raw: &str) -> (line: Option<String>)
    ensures
        match line {
            Some(t) => trimmed(raw@).len() > 0 && t@ == trimmed(raw@),
            None => trimmed(raw@).len() == 0,
        },
{
    let t = trim(raw);
    if !t.as_str().is_empty() {
        Some(t)
    } else {
        None
    }
}

/// The report of a failed `uv` command from its non-empty output lines.
pub fn error_tail(lines: &Vec<String>) -> (s: String)
    ensures
        s@ == error_tail_text(strings_view(lines@)),
{
    let n: usize = lines.len();
    let start: usize = if n > 5 {
        n - 5
    } else {
        0
    };
    let mut s = String::new();
    let mut i: usize = start;
    while i < n
        invariant
            start <= i <= n,
            n == lines.len(),
            s@ == join(strings_view(lines@).subrange(start as int, i as int), "\n"@),
        decreases n - i,
    {
        let ghost before = strings_view(lines@).subrange(start as int, i as int);
        let ghost after = strings_view(lines@).subrange(start as int, i + 1);
        assert(after.drop_last() =~= before);
        if i > start {
            s.append("\n");
        } else {
            assert(s@ =~= Seq::<char>::empty());
        }
        s.append(lines[i].as_str());
        assert(after.last() == lines@[i as int]@);
        i = i + 1;
    }
    s
}

/// Every project gets the five base packages; WandB is installed exactly
/// when selected, and so is Transformers.
pub proof fn lemma_runtime_packages(c: ConfigView)
    ensures
        forall|name: Seq<char>|
            seq!["hydra-core"@, "omegaconf"@, "watermark"@, "rdkit"@, "lightning"@].contains(name)
                ==> #[trigger] runtime_package_names(c).contains(name),
        runtime_package_names(c).contains("wandb"@) <==> c.use_wandb,
        runtime_package_names(c).contains("transformers"@) <==> c.use_transformers,
{
    reveal_strlit("hydra-core");
    reveal_strlit("omegaconf");
    reveal_strlit("watermark");
    reveal_strlit("rdkit");
    reveal_strlit("lightning");
    reveal_strlit("wandb");
    reveal_strlit("transformers");
    let names = runtime_package_names(c);
    let base = seq!["hydra-core"@, "omegaconf"@, "watermark"@, "rdkit"@, "lightning"@];
    assert(names.subrange(0, 5) =~= base);
    assert forall|name: Seq<char>| base.contains(name) implies #[trigger] names.contains(name) by {
        let k = choose|k: int| 0 <= k < base.len() && base[k] == name;
        assert(names[k] == name);
    }
    assert("hydra-core"@.len() == 10 && "omegaconf"@.len() == 9 && "watermark"@.len() == 9);
    assert("lightning"@.len() == 9 && "rdkit"@.len() == 5 && "wandb"@.len() == 5);
    assert("transformers"@.len() == 12);
    assert("rdkit"@[0] != "wandb"@[0]);
    if c.use_wandb {
        assert(names[5] == "wandb"@);
    }
    if c.use_transformers {
        assert(names[names.len() - 1] == "transformers"@);
    }
}

/// PyTorch is taken from the CUDA wheel index of the project's CUDA version
/// exactly when the project targets Linux with a GPU and has a CUDA version;
/// otherwise from the CPU wheel index, and no CUDA index is named.
pub proof fn lemma_index_matches_platform(c: ConfigView)
    ensures
        uses_cuda_index(c) ==> contains(index_config_text(c), cuda_index_url(c.cuda_version->0)),
        !uses_cuda_index(c) ==> {
            &&& contains(index_config_text(c), "https://download.pytorch.org/whl/cpu"@)
            &&& !contains(index_config_text(c), CUDA_INDEX_URL_BASE@)
        },
{
    if uses_cuda_index(c) {
        let tag = cuda_tag_text(c.cuda_version->0);
        let name = CUDA_INDEX_NAME_BASE@ + tag;
        let url = CUDA_INDEX_URL_BASE@ + tag;
        let x = INDEX_HEAD@ + name + INDEX_URL_FIELD@;
        let y = INDEX_SOURCES_TORCH@ + name + INDEX_SOURCES_TORCHVISION@ + name
            + INDEX_SOURCES_TORCHAUDIO@ + name + INDEX_SOURCES_END@;
        assert(index_config_text(c) =~= x + url + y);
        assert(url.subrange(0, url.len() as int) =~= url);
        lemma_occurs_within(x, url, y, url, 0);
    } else {
        lemma_cpu_index_facts();
        reveal_strlit("https://download.pytorch.org/whl/cu");
        lemma_pair_free_excludes(CPU_INDEX_CONFIG@, CUDA_INDEX_URL_BASE@, 33);
    }
}

#[verifier::spinoff_prover]
#[verifier::rlimit(40)]
proof fn lemma_cpu_index_facts()
    ensures
        contains(CPU_INDEX_CONFIG@, "https://download.pytorch.org/whl/cpu"@),
        pair_free(CPU_INDEX_CONFIG@, 'c', 'u'),
{
    reveal_strlit("\n\
[[tool.uv.index]]
name = \"pytorch-cpu\"
url = \"https://download.pytorch.org/whl/cpu\"
explicit = true

[tool.uv.sources]
torch = [
{ index = \"pytorch-cpu\" },
]
torchvision = [
{ index = \"pytorch-cpu\" },
]
torchaudio = [
{ index = \"pytorch-cpu\" },
]
");
    assert(occurs_at(CPU_INDEX_CONFIG@, "https://download.pytorch.org/whl/cpu"@, 47)) by {
        reveal_strlit("https://download.pytorch.org/whl/cpu");
        reveal_with_fuel(agrees_in, 8);
        lemma_scan_occurs(CPU_INDEX_CONFIG@, "https://download.pytorch.org/whl/cpu"@, 47);
    }
    assert(pair_free(CPU_INDEX_CONFIG@, 'c', 'u')) by {
        reveal_with_fuel(no_pair_in, 10);
        lemma_scan_pair_free(CPU_INDEX_CONFIG@, 'c', 'u');
    }
}

/// PyTorch is installed from the index the appended settings name: with a
/// CUDA index by `uv pip install` from that very index URL, otherwise by
/// `uv add`, which resolves it from the CPU index of the settings.
pub proof fn lemma_torch_install_follows_index(c: ConfigView)
    ensures
        uses_cuda_index(c) ==> {
            let args = install_steps(c)[1].0;
            &&& args.len() == 5
            &&& args[0] == "pip"@ && args[1] == "install"@ && args[3] == "--index-url"@
            &&& args[2] == torch_requirement(c.pytorch_version)
            &&& args[4] == cuda_index_url(c.cuda_version->0)
            &&& contains(index_config_text(c), args[4])
        },
        !uses_cuda_index(c) ==> {
            &&& install_steps(c)[1].0 == seq!["add"@, torch_requirement(c.pytorch_version)]
            &&& contains(index_config_text(c), "https://download.pytorch.org/whl/cpu"@)
        },
{
    lemma_index_matches_platform(c);
}

/// The PyTorch requirement is `torch==` followed by exactly the chosen
/// version: its first seven characters are `torch==` and the rest is the
/// version, so different versions give different requirements.
pub proof fn lemma_torch_requirement_pins_version(v: Seq<char>, w: Seq<char>)
    ensures
        torch_requirement(v).len() == v.len() + 7,
        torch_requirement(v).subrange(0, 7) == "torch=="@,
        torch_requirement(v).subrange(7, torch_requirement(v).len() as int) == v,
        v != w ==> torch_requirement(v) != torch_requirement(w),
{
    reveal_strlit("torch==");
    let r = torch_requirement(v);
    assert(r.subrange(0, 7) =~= "torch=="@);
    assert(r.subrange(7, r.len() as int) =~= v);
    if v != w {
        let q = torch_requirement(w);
        assert(q.subrange(7, q.len() as int) =~= w);
    }
}

/// The `uv` commands of a new project carry the chosen versions: `uv init`
/// creates it with the chosen Python; PyTorch is required at exactly the
/// chosen version, by `uv pip install` from the CUDA wheel index of the
/// chosen CUDA version on Linux with a GPU, by `uv add` otherwise; then the
/// runtime packages and the development tools are added.
pub proof fn lemma_install_steps_carry_choices(c: ConfigView)
    ensures
        install_steps(c).len() == 4,
        install_steps(c)[0].0 == seq!["init"@, "--python"@, c.python_version, "--no-readme"@],
        install_steps(c)[0].1 == "Initializing uv project (Python "@ + c.python_version + ")"@,
        c.os == Os::Linux && c.has_gpu && c.cuda_version is Some ==> install_steps(c)[1].0 == seq![
            "pip"@,
            "install"@,
            "torch=="@ + c.pytorch_version,
            "--index-url"@,
            "https://download.pytorch.org/whl/cu"@ + cuda_tag_text(c.cuda_version->0),
        ],
        !(c.os == Os::Linux && c.has_gpu && c.cuda_version is Some) ==> install_steps(c)[1].0
            == seq!["add"@, "torch=="@ + c.pytorch_version],
        install_steps(c)[1].1 == "Installing PyTorch "@ + c.pytorch_version + match c.cuda_version {
            Some(cu) => " + CUDA "@ + cu,
            None => Seq::empty(),
        },
        install_steps(c)[2].0[0] == "add"@,
        install_steps(c)[2].0.subrange(1, install_steps(c)[2].0.len() as int)
            == runtime_package_names(c),
        install_steps(c)[3].0 == seq!["add"@, "--dev"@, "ipykernel"@, "ruff"@],
{
    let pkgs = install_steps(c)[2].0;
    assert(pkgs.subrange(1, pkgs.len() as int) =~= runtime_package_names(c));
}

/// A CUDA tag has no dots left.
pub proof fn lemma_cuda_tag_has_no_dots(cuda: Seq<char>)
    ensures
        !cuda_tag_text(cuda).contains('.'),
{
    broadcast use Seq::lemma_filter_pred;

    let tag = cuda_tag_text(cuda);
    assert forall|i: int| 0 <= i < tag.len() implies tag[i] != '.' by {
        cuda.lemma_filter_pred(|ch: char| ch != '.', i);
    }
}

} // verus!
