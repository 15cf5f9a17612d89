use vstd::prelude::*;

verus! {

/// The operating system the generated project is set up for.
#[derive(Clone, Copy, PartialEq, Eq, Debug, Structural)]
pub enum Os {
    Linux,
    Mac,
    Windows,
}

/// Everything the scaffolder needs to know about the project to create.
///
/// `output` is the parent directory, held as the text of its path.
#[derive(Clone, Debug)]
pub struct ProjectConfig {
    pub name: String,
    pub output: String,
    pub python_version: String,
    pub pytorch_version: String,
    pub cuda_version: Option<String>,
    pub use_wandb: bool,
    pub use_transformers: bool,
    pub os: Os,
    pub has_gpu: bool,
}

/// The mathematical model of a [`ProjectConfig`]: every text as a sequence
/// of characters.
pub struct ConfigView {
    pub name: Seq<char>,
    pub output: Seq<char>,
    pub python_version: Seq<char>,
    pub pytorch_version: Seq<char>,
    pub cuda_version: Option<Seq<char>>,
    pub use_wandb: bool,
    pub use_transformers: bool,
    pub os: Os,
    pub has_gpu: bool,
}

pub open spec fn opt_view(o: Option<String>) -> Option<Seq<char>> {
    match o {
        Some(s) => Some(s@),
        None => None,
    }
}

impl View for ProjectConfig {
    type V = ConfigView;

    open spec fn view(&self) -> ConfigView {
        ConfigView {
            name: self.name@,
            output: self.output@,
            python_version: self.python_version@,
            pytorch_version: self.pytorch_version@,
            cuda_version: opt_view(self.cuda_version),
            use_wandb: self.use_wandb,
            use_transformers: self.use_transformers,
            os: self.os,
            has_gpu: self.has_gpu,
        }
    }
}

/// A project targets an NVIDIA GPU exactly when it runs on Linux and a GPU
/// was detected.
pub open spec fn gpu_active(c: ConfigView) -> bool {
    c.os == Os::Linux && c.has_gpu
}

impl ProjectConfig {
    /// A configuration suitable for testing: Python 3.12, PyTorch 2.8.0,
    /// Linux without GPU, no CUDA, no optional packages.
    pub fn test_default(name: &str, output: &str) -> (cfg: ProjectConfig)
        ensures
            cfg@.name == name@,
            cfg@.output == output@,
            cfg@.python_version == "3.12"@,
            cfg@.pytorch_version == "2.8.0"@,
            cfg@.cuda_version is None,
            !cfg@.use_wandb,
            !cfg@.use_transformers,
            cfg@.os == Os::Linux,
            !cfg@.has_gpu,
    {
        ProjectConfig {
            name: name.to_owned(),
            output: output.to_owned(),
            python_version: String::from_str("3.12"),
            pytorch_version: String::from_str("2.8.0"),
            cuda_version: None,
            use_wandb: false,
            use_transformers: false,
            os: Os::Linux,
            has_gpu: false,
        }
    }

    /// Whether the project is set up for an NVIDIA GPU (Linux with a GPU).
    pub fn gpu_active(&self) -> (b: bool)
        ensures
            b == gpu_active(self@),
            b == (self.os == Os::Linux && self.has_gpu),
    {
        self.os == Os::Linux && self.has_gpu
    }
}

/// Only a Linux machine with a GPU counts as a GPU target: neither macOS nor
/// Windows, whatever GPU they have.
pub proof fn lemma_gpu_active_only_on_linux(c: ConfigView)
    ensures
        gpu_active(c) <==> (c.os == Os::Linux && c.has_gpu),
        c.os != Os::Linux ==> !gpu_active(c),
        !c.has_gpu ==> !gpu_active(c),
{
}

} // verus!
