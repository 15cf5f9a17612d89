//! Laws of the generated project: where the files go, which files have
//! content, and what the configuration-dependent files say.
//!
//! Facts about a template's characters are read off its literal with
//! `reveal_strlit`, which takes the literal itself; the literals below are
//! therefore the same texts as the constants of `templates`. Should one of
//! them differ, the revealed facts concern another string, the constant stays
//! opaque and the proof that uses it fails.

use vstd::prelude::*;

use crate::config::{gpu_active, ConfigView, Os};
use crate::install::init_leftover_names;
use crate::scaffold::{lies_in, project_dirs};
use crate::templates::{
    general_config_text, logger_config_text, notes_text, project_files, readme_text,
    main_py_text, CALLBACKS_CONFIG, CALLBACKS_CONFIG_PATH, DATAMODULE_CONFIG,
    DATAMODULE_CONFIG_PATH, EXPERIMENT_DEBUG, EXPERIMENT_DEBUG_PATH, EXPERIMENT_DEFAULT,
    EXPERIMENT_DEFAULT_PATH, GENERAL_CONFIG_PATH, GITIGNORE, GITIGNORE_PATH, GITKEEP_PATH,
    INIT_PY_PATH, LLM_FINETUNE_EXPERIMENT, LLM_FINETUNE_EXPERIMENT_PATH, LOGGER_CONFIG_PATH,
    LOGGER_NULL, LOGGER_WANDB_HEAD, LOGGER_WANDB_TAIL, GENERAL_HEAD, GENERAL_TAIL, MAIN_PY_PATH, MNIST_EXPERIMENT,
    MNIST_EXPERIMENT_PATH, NOTES_PATH, README_PATH, ROOT_CONFIG, ROOT_CONFIG_PATH, GPU_ENV_LINE, MAIN_PY_BODY, MAIN_PY_END, MAIN_PY_GAP, MAIN_PY_IMPORTS,
    MAIN_PY_RUN, TRANSFORMERS_WATERMARK, WANDB_IMPORT, WANDB_TEST_BLOCK, WANDB_WATERMARK,
};
use crate::text::{
    agrees_in, char_free, contains, included, lemma_char_free_concat, lemma_char_free_excludes,
    lemma_occurs_within, lemma_pair_free_concat, lemma_pair_free_excludes, lemma_scan_char_free,
    lemma_scan_occurs, lemma_scan_pair_free, lemma_no_char_in, no_char_in, no_pair_in, occurs_at, pair_free, starts_with,
};

verus! {

/// What the laws on `src/main.py` need to know of a part of it: which of
/// the marker character `V` (of `CUDA_VISIBLE_DEVICES`) and the marker pairs
/// `db` (of `import wandb`) and `,t` (of `,transformers`) it lacks, and that
/// its last character opens neither pair.
spec fn marker_facts(s: Seq<char>, v_free: bool, db_free: bool, ct_free: bool) -> bool {
    &&& s.len() > 0 ==> s[s.len() - 1] != 'd' && s[s.len() - 1] != ','
    &&& v_free ==> char_free(s, 'V')
    &&& db_free ==> pair_free(s, 'd', 'b')
    &&& ct_free ==> pair_free(s, ',', 't')
}

/// Marker facts of `MAIN_PY_IMPORTS`, read off the literal.
#[verifier::spinoff_prover]
#[verifier::rlimit(60)]
proof fn lemma_facts_main_py_imports()
    ensures
        marker_facts(MAIN_PY_IMPORTS@, true, true, true),
{
    reveal_strlit("\
import os
import time
import functools
import random

import hydra
import torch
import lightning
import numpy as np
from omegaconf import DictConfig, OmegaConf
from watermark import watermark
");
    assert(char_free(MAIN_PY_IMPORTS@, 'V')) by {
        reveal_with_fuel(no_char_in, 12);
        lemma_scan_char_free(MAIN_PY_IMPORTS@, 'V');
    }
    assert(pair_free(MAIN_PY_IMPORTS@, 'd', 'b')) by {
        reveal_with_fuel(no_pair_in, 12);
        lemma_scan_pair_free(MAIN_PY_IMPORTS@, 'd', 'b');
    }
    assert(pair_free(MAIN_PY_IMPORTS@, ',', 't')) by {
        reveal_with_fuel(no_pair_in, 12);
        lemma_scan_pair_free(MAIN_PY_IMPORTS@, ',', 't');
    }
}

/// Marker facts of `MAIN_PY_GAP`, read off the literal.
#[verifier::spinoff_prover]
#[verifier::rlimit(60)]
proof fn lemma_facts_main_py_gap()
    ensures
        marker_facts(MAIN_PY_GAP@, true, true, true),
{
    reveal_strlit("\n");
    assert(char_free(MAIN_PY_GAP@, 'V')) by {
        reveal_with_fuel(no_char_in, 12);
        lemma_scan_char_free(MAIN_PY_GAP@, 'V');
    }
    assert(pair_free(MAIN_PY_GAP@, 'd', 'b')) by {
        reveal_with_fuel(no_pair_in, 12);
        lemma_scan_pair_free(MAIN_PY_GAP@, 'd', 'b');
    }
    assert(pair_free(MAIN_PY_GAP@, ',', 't')) by {
        reveal_with_fuel(no_pair_in, 12);
        lemma_scan_pair_free(MAIN_PY_GAP@, ',', 't');
    }
}

/// Marker facts of `MAIN_PY_BODY`, read off the literal.
#[verifier::spinoff_prover]
#[verifier::rlimit(60)]
proof fn lemma_facts_main_py_body()
    ensures
        marker_facts(MAIN_PY_BODY@, true, true, true),
{
    reveal_strlit("\n\
def get_time(func):
    \"\"\"Decorator that prints execution time.\"\"\"
    @functools.wraps(func)
    def wrapper(*args, **kwargs):
        start = time.perf_counter()
        result = func(*args, **kwargs)
        elapsed = time.perf_counter() - start
        print(f\"\\n⏱  {func.__name__} took {elapsed:.2f}s\")
        return result
    return wrapper


def set_seed(seed: int = 42, deterministic: bool = True):
    \"\"\"Set random seed for reproducibility.\"\"\"
    random.seed(seed)
    np.random.seed(seed)
    torch.manual_seed(seed)
    torch.cuda.manual_seed_all(seed)
    if deterministic:
        torch.backends.cudnn.deterministic = True
        torch.backends.cudnn.benchmark = False


@get_time
@hydra.main(version_base=\"1.1\", config_path=\"../config\", config_name=\"config\")
def main(cfg: DictConfig):
    print(watermark(packages=\"torch,lightning");
    assert(char_free(MAIN_PY_BODY@, 'V')) by {
        reveal_with_fuel(no_char_in, 12);
        lemma_scan_char_free(MAIN_PY_BODY@, 'V');
    }
    assert(pair_free(MAIN_PY_BODY@, 'd', 'b')) by {
        reveal_with_fuel(no_pair_in, 12);
        lemma_scan_pair_free(MAIN_PY_BODY@, 'd', 'b');
    }
    assert(pair_free(MAIN_PY_BODY@, ',', 't')) by {
        reveal_with_fuel(no_pair_in, 12);
        lemma_scan_pair_free(MAIN_PY_BODY@, ',', 't');
    }
}

/// Marker facts of `MAIN_PY_RUN`, read off the literal.
#[verifier::spinoff_prover]
#[verifier::rlimit(60)]
proof fn lemma_facts_main_py_run()
    ensures
        marker_facts(MAIN_PY_RUN@, true, true, true),
{
    reveal_strlit("\
\", python=True))

    # loading configuration
    config = OmegaConf.create(OmegaConf.to_container(cfg))

    # setting random seed for reproducibility
    set_seed(seed=config.general.seed, deterministic=True)

    print(config)
");
    assert(char_free(MAIN_PY_RUN@, 'V')) by {
        reveal_with_fuel(no_char_in, 12);
        lemma_scan_char_free(MAIN_PY_RUN@, 'V');
    }
    assert(pair_free(MAIN_PY_RUN@, 'd', 'b')) by {
        reveal_with_fuel(no_pair_in, 12);
        lemma_scan_pair_free(MAIN_PY_RUN@, 'd', 'b');
    }
    assert(pair_free(MAIN_PY_RUN@, ',', 't')) by {
        reveal_with_fuel(no_pair_in, 12);
        lemma_scan_pair_free(MAIN_PY_RUN@, ',', 't');
    }
}

/// Marker facts of `MAIN_PY_END`, read off the literal.
#[verifier::spinoff_prover]
#[verifier::rlimit(60)]
proof fn lemma_facts_main_py_end()
    ensures
        marker_facts(MAIN_PY_END@, true, true, true),
{
    reveal_strlit("

if __name__ == \"__main__\":
    main()
");
    assert(char_free(MAIN_PY_END@, 'V')) by {
        reveal_with_fuel(no_char_in, 12);
        lemma_scan_char_free(MAIN_PY_END@, 'V');
    }
    assert(pair_free(MAIN_PY_END@, 'd', 'b')) by {
        reveal_with_fuel(no_pair_in, 12);
        lemma_scan_pair_free(MAIN_PY_END@, 'd', 'b');
    }
    assert(pair_free(MAIN_PY_END@, ',', 't')) by {
        reveal_with_fuel(no_pair_in, 12);
        lemma_scan_pair_free(MAIN_PY_END@, ',', 't');
    }
}

/// Marker facts of `WANDB_IMPORT`, read off the literal.
#[verifier::spinoff_prover]
#[verifier::rlimit(60)]
proof fn lemma_facts_wandb_import()
    ensures
        marker_facts(WANDB_IMPORT@, true, false, true),
{
    reveal_strlit("import wandb\n");
    assert(char_free(WANDB_IMPORT@, 'V')) by {
        reveal_with_fuel(no_char_in, 12);
        lemma_scan_char_free(WANDB_IMPORT@, 'V');
    }
    assert(pair_free(WANDB_IMPORT@, ',', 't')) by {
        reveal_with_fuel(no_pair_in, 12);
        lemma_scan_pair_free(WANDB_IMPORT@, ',', 't');
    }
}

/// Marker facts of `GPU_ENV_LINE`, read off the literal.
#[verifier::spinoff_prover]
#[verifier::rlimit(60)]
proof fn lemma_facts_gpu_env_line()
    ensures
        marker_facts(GPU_ENV_LINE@, false, true, true),
{
    reveal_strlit("\
os.environ[\"CUDA_VISIBLE_DEVICES\"] = \"0\"

");
    assert(pair_free(GPU_ENV_LINE@, 'd', 'b')) by {
        reveal_with_fuel(no_pair_in, 12);
        lemma_scan_pair_free(GPU_ENV_LINE@, 'd', 'b');
    }
    assert(pair_free(GPU_ENV_LINE@, ',', 't')) by {
        reveal_with_fuel(no_pair_in, 12);
        lemma_scan_pair_free(GPU_ENV_LINE@, ',', 't');
    }
}

/// Marker facts of `TRANSFORMERS_WATERMARK`, read off the literal.
#[verifier::spinoff_prover]
#[verifier::rlimit(60)]
proof fn lemma_facts_transformers_watermark()
    ensures
        marker_facts(TRANSFORMERS_WATERMARK@, true, true, false),
{
    reveal_strlit(",transformers");
    assert(char_free(TRANSFORMERS_WATERMARK@, 'V')) by {
        reveal_with_fuel(no_char_in, 12);
        lemma_scan_char_free(TRANSFORMERS_WATERMARK@, 'V');
    }
    assert(pair_free(TRANSFORMERS_WATERMARK@, 'd', 'b')) by {
        reveal_with_fuel(no_pair_in, 12);
        lemma_scan_pair_free(TRANSFORMERS_WATERMARK@, 'd', 'b');
    }
}

/// Marker facts of `WANDB_WATERMARK`, read off the literal.
#[verifier::spinoff_prover]
#[verifier::rlimit(60)]
proof fn lemma_facts_wandb_watermark()
    ensures
        marker_facts(WANDB_WATERMARK@, true, false, true),
{
    reveal_strlit(",wandb");
    assert(char_free(WANDB_WATERMARK@, 'V')) by {
        reveal_with_fuel(no_char_in, 12);
        lemma_scan_char_free(WANDB_WATERMARK@, 'V');
    }
    assert(pair_free(WANDB_WATERMARK@, ',', 't')) by {
        reveal_with_fuel(no_pair_in, 12);
        lemma_scan_pair_free(WANDB_WATERMARK@, ',', 't');
    }
}

/// Marker facts of `WANDB_TEST_BLOCK`, read off the literal.
#[verifier::spinoff_prover]
#[verifier::rlimit(60)]
proof fn lemma_facts_wandb_test_block()
    ensures
        marker_facts(WANDB_TEST_BLOCK@, true, false, true),
{
    reveal_strlit("
    # ── wandb test ──
    wandb.init(project=config.logger.wandb.project, mode=\"disabled\")
    wandb.log({\"test_metric\": 1.0})
    wandb.finish()
    print(\"✔ wandb test passed\")
");
    assert(char_free(WANDB_TEST_BLOCK@, 'V')) by {
        reveal_with_fuel(no_char_in, 12);
        lemma_scan_char_free(WANDB_TEST_BLOCK@, 'V');
    }
    assert(pair_free(WANDB_TEST_BLOCK@, ',', 't')) by {
        reveal_with_fuel(no_pair_in, 12);
        lemma_scan_pair_free(WANDB_TEST_BLOCK@, ',', 't');
    }
}

/// Joining two parts keeps the marker facts they share.
proof fn lemma_marker_join(x: Seq<char>, y: Seq<char>, v: bool, db: bool, ct: bool)
    requires
        marker_facts(x, v, db, ct),
        marker_facts(y, v, db, ct),
    ensures
        marker_facts(x + y, v, db, ct),
{
    if v {
        lemma_char_free_concat(x, y, 'V');
    }
    if db {
        lemma_pair_free_concat(x, y, 'd', 'b');
    }
    if ct {
        lemma_pair_free_concat(x, y, ',', 't');
    }
    if y.len() > 0 {
        assert((x + y)[(x + y).len() - 1] == y[y.len() - 1]);
    } else {
        assert(x + y =~= x);
    }
}

/// `src/main.py` lacks every marker whose feature is off.
proof fn lemma_main_py_markers(c: ConfigView, v: bool, db: bool, ct: bool)
    requires
        v ==> !gpu_active(c),
        db ==> !c.use_wandb,
        ct ==> !c.use_transformers,
    ensures
        marker_facts(main_py_text(c), v, db, ct),
{
    lemma_facts_main_py_imports();
    lemma_facts_main_py_gap();
    lemma_facts_main_py_body();
    lemma_facts_main_py_run();
    lemma_facts_main_py_end();
    lemma_facts_wandb_import();
    lemma_facts_gpu_env_line();
    lemma_facts_transformers_watermark();
    lemma_facts_wandb_watermark();
    lemma_facts_wandb_test_block();
    let iw = included(c.use_wandb, WANDB_IMPORT@);
    let ig = included(gpu_active(c), GPU_ENV_LINE@);
    let it = included(c.use_transformers, TRANSFORMERS_WATERMARK@);
    let iww = included(c.use_wandb, WANDB_WATERMARK@);
    let iwt = included(c.use_wandb, WANDB_TEST_BLOCK@);
    assert(marker_facts(iw, v, db, ct));
    assert(marker_facts(ig, v, db, ct));
    assert(marker_facts(it, v, db, ct));
    assert(marker_facts(iww, v, db, ct));
    assert(marker_facts(iwt, v, db, ct));
    let m1 = MAIN_PY_IMPORTS@ + iw;
    lemma_marker_join(MAIN_PY_IMPORTS@, iw, v, db, ct);
    let m2 = m1 + MAIN_PY_GAP@;
    lemma_marker_join(m1, MAIN_PY_GAP@, v, db, ct);
    let m3 = m2 + ig;
    lemma_marker_join(m2, ig, v, db, ct);
    let m4 = m3 + MAIN_PY_BODY@;
    lemma_marker_join(m3, MAIN_PY_BODY@, v, db, ct);
    let m5 = m4 + it;
    lemma_marker_join(m4, it, v, db, ct);
    let m6 = m5 + iww;
    lemma_marker_join(m5, iww, v, db, ct);
    let m7 = m6 + MAIN_PY_RUN@;
    lemma_marker_join(m6, MAIN_PY_RUN@, v, db, ct);
    let m8 = m7 + iwt;
    lemma_marker_join(m7, iwt, v, db, ct);
    lemma_marker_join(m8, MAIN_PY_END@, v, db, ct);
}

/// `src/main.py` imports WandB and runs its smoke test exactly when WandB is
/// installed; without WandB it does not mention WandB at all.
pub proof fn lemma_main_py_uses_wandb(c: ConfigView)
    ensures
        contains(main_py_text(c), "import wandb"@) <==> c.use_wandb,
        contains(main_py_text(c), "wandb.init"@) <==> c.use_wandb,
        contains(main_py_text(c), "wandb"@) <==> c.use_wandb,
{
    reveal_strlit("import wandb");
    reveal_strlit("wandb.init");
    reveal_strlit("wandb");
    if c.use_wandb {
        assert(occurs_at(WANDB_IMPORT@, "import wandb"@, 0)) by {
            reveal_strlit("import wandb\n");
            reveal_with_fuel(agrees_in, 6);
            lemma_scan_occurs(WANDB_IMPORT@, "import wandb"@, 0);
        }
        assert(occurs_at(WANDB_IMPORT@, "wandb"@, 7)) by {
            reveal_strlit("import wandb\n");
            reveal_with_fuel(agrees_in, 5);
            lemma_scan_occurs(WANDB_IMPORT@, "wandb"@, 7);
        }
        let y = MAIN_PY_GAP@ + included(gpu_active(c), GPU_ENV_LINE@) + MAIN_PY_BODY@
            + included(c.use_transformers, TRANSFORMERS_WATERMARK@)
            + included(c.use_wandb, WANDB_WATERMARK@) + MAIN_PY_RUN@
            + included(c.use_wandb, WANDB_TEST_BLOCK@) + MAIN_PY_END@;
        assert(main_py_text(c) =~= MAIN_PY_IMPORTS@ + WANDB_IMPORT@ + y);
        lemma_occurs_within(MAIN_PY_IMPORTS@, WANDB_IMPORT@, y, "import wandb"@, 0);
        lemma_occurs_within(MAIN_PY_IMPORTS@, WANDB_IMPORT@, y, "wandb"@, 7);
        assert(occurs_at(WANDB_TEST_BLOCK@, "wandb.init"@, 28)) by {
            reveal_strlit(
                "\n    # ── wandb test ──\n    wandb.init(project=config.logger.wandb.project, mode=\"disabled\")\n    wandb.log({\"test_metric\": 1.0})\n    wandb.finish()\n    print(\"✔ wandb test passed\")\n",
            );
            reveal_with_fuel(agrees_in, 6);
            lemma_scan_occurs(WANDB_TEST_BLOCK@, "wandb.init"@, 28);
        }
        let x = MAIN_PY_IMPORTS@ + included(c.use_wandb, WANDB_IMPORT@) + MAIN_PY_GAP@
            + included(gpu_active(c), GPU_ENV_LINE@) + MAIN_PY_BODY@
            + included(c.use_transformers, TRANSFORMERS_WATERMARK@)
            + included(c.use_wandb, WANDB_WATERMARK@) + MAIN_PY_RUN@;
        assert(main_py_text(c) =~= x + WANDB_TEST_BLOCK@ + MAIN_PY_END@);
        lemma_occurs_within(x, WANDB_TEST_BLOCK@, MAIN_PY_END@, "wandb.init"@, 28);
    } else {
        lemma_main_py_markers(c, false, true, false);
        lemma_pair_free_excludes(main_py_text(c), "import wandb"@, 10);
        lemma_pair_free_excludes(main_py_text(c), "wandb.init"@, 3);
        lemma_pair_free_excludes(main_py_text(c), "wandb"@, 3);
    }
}

/// `src/main.py` lists Transformers among the watermarked packages exactly
/// when Transformers is installed.
pub proof fn lemma_main_py_watermarks_transformers(c: ConfigView)
    ensures
        contains(main_py_text(c), ",transformers"@) <==> c.use_transformers,
{
    reveal_strlit(",transformers");
    if c.use_transformers {
        let x = MAIN_PY_IMPORTS@ + included(c.use_wandb, WANDB_IMPORT@) + MAIN_PY_GAP@
            + included(gpu_active(c), GPU_ENV_LINE@) + MAIN_PY_BODY@;
        let y = included(c.use_wandb, WANDB_WATERMARK@) + MAIN_PY_RUN@
            + included(c.use_wandb, WANDB_TEST_BLOCK@) + MAIN_PY_END@;
        assert(main_py_text(c) =~= x + TRANSFORMERS_WATERMARK@ + y);
        assert(occurs_at(TRANSFORMERS_WATERMARK@, ",transformers"@, 0)) by {
            assert(TRANSFORMERS_WATERMARK@.subrange(0, 13) =~= TRANSFORMERS_WATERMARK@);
        }
        lemma_occurs_within(x, TRANSFORMERS_WATERMARK@, y, ",transformers"@, 0);
    } else {
        lemma_main_py_markers(c, false, false, true);
        lemma_pair_free_excludes(main_py_text(c), ",transformers"@, 0);
    }
}

/// `src/main.py` pins the process to the first GPU exactly when the project
/// targets Linux with a GPU.
pub proof fn lemma_main_py_pins_gpu(c: ConfigView)
    ensures
        contains(main_py_text(c), "CUDA_VISIBLE_DEVICES"@) <==> c.os == Os::Linux && c.has_gpu,
{
    reveal_strlit("CUDA_VISIBLE_DEVICES");
    if gpu_active(c) {
        assert(occurs_at(GPU_ENV_LINE@, "CUDA_VISIBLE_DEVICES"@, 12)) by {
            reveal_strlit("os.environ[\"CUDA_VISIBLE_DEVICES\"] = \"0\"\n\n");
            reveal_with_fuel(agrees_in, 7);
            lemma_scan_occurs(GPU_ENV_LINE@, "CUDA_VISIBLE_DEVICES"@, 12);
        }
        let x = MAIN_PY_IMPORTS@ + included(c.use_wandb, WANDB_IMPORT@) + MAIN_PY_GAP@;
        let y = MAIN_PY_BODY@ + included(c.use_transformers, TRANSFORMERS_WATERMARK@)
            + included(c.use_wandb, WANDB_WATERMARK@) + MAIN_PY_RUN@
            + included(c.use_wandb, WANDB_TEST_BLOCK@) + MAIN_PY_END@;
        assert(main_py_text(c) =~= x + GPU_ENV_LINE@ + y);
        lemma_occurs_within(x, GPU_ENV_LINE@, y, "CUDA_VISIBLE_DEVICES"@, 12);
    } else {
        lemma_main_py_markers(c, true, false, false);
        lemma_char_free_excludes(main_py_text(c), "CUDA_VISIBLE_DEVICES"@, 5);
    }
}

/// Each generated file's path is its parent directory, `/` and a name
/// without `/`, read off the literals.
#[verifier::spinoff_prover]
#[verifier::rlimit(80)]
proof fn lemma_each_file_in_parent()
    ensures
        lies_in(GITIGNORE_PATH@, project_dirs()[0]),
        lies_in(ROOT_CONFIG_PATH@, project_dirs()[4]),
        lies_in(GENERAL_CONFIG_PATH@, project_dirs()[5]),
        lies_in(DATAMODULE_CONFIG_PATH@, project_dirs()[6]),
        lies_in(EXPERIMENT_DEFAULT_PATH@, project_dirs()[7]),
        lies_in(EXPERIMENT_DEBUG_PATH@, project_dirs()[7]),
        lies_in(MNIST_EXPERIMENT_PATH@, project_dirs()[8]),
        lies_in(LLM_FINETUNE_EXPERIMENT_PATH@, project_dirs()[9]),
        lies_in(LOGGER_CONFIG_PATH@, project_dirs()[10]),
        lies_in(CALLBACKS_CONFIG_PATH@, project_dirs()[11]),
        lies_in(MAIN_PY_PATH@, project_dirs()[1]),
        lies_in(INIT_PY_PATH@, project_dirs()[1]),
        lies_in(GITKEEP_PATH@, project_dirs()[2]),
        lies_in(NOTES_PATH@, project_dirs()[3]),
        lies_in(README_PATH@, project_dirs()[0]),
{
    assert(lies_in(GITIGNORE_PATH@, project_dirs()[0])) by {
        reveal_strlit("");
        reveal_strlit(".gitignore");
        reveal_with_fuel(no_char_in, 8);
        lemma_scan_char_free(GITIGNORE_PATH@, '/');
    }
    assert(lies_in(ROOT_CONFIG_PATH@, project_dirs()[4])) by {
        reveal_strlit("config/config.yaml");
        reveal_strlit("config");
        reveal_with_fuel(agrees_in, 8);
        reveal_with_fuel(no_char_in, 8);
        lemma_scan_occurs(ROOT_CONFIG_PATH@, project_dirs()[4], 0);
        lemma_no_char_in(ROOT_CONFIG_PATH@, '/', 7, ROOT_CONFIG_PATH@.len() as int);
    }
    assert(lies_in(GENERAL_CONFIG_PATH@, project_dirs()[5])) by {
        reveal_strlit("config/general/default.yaml");
        reveal_strlit("config/general");
        reveal_with_fuel(agrees_in, 8);
        reveal_with_fuel(no_char_in, 8);
        lemma_scan_occurs(GENERAL_CONFIG_PATH@, project_dirs()[5], 0);
        lemma_no_char_in(GENERAL_CONFIG_PATH@, '/', 15, GENERAL_CONFIG_PATH@.len() as int);
    }
    assert(lies_in(DATAMODULE_CONFIG_PATH@, project_dirs()[6])) by {
        reveal_strlit("config/datamodule/default.yaml");
        reveal_strlit("config/datamodule");
        reveal_with_fuel(agrees_in, 8);
        reveal_with_fuel(no_char_in, 8);
        lemma_scan_occurs(DATAMODULE_CONFIG_PATH@, project_dirs()[6], 0);
        lemma_no_char_in(DATAMODULE_CONFIG_PATH@, '/', 18, DATAMODULE_CONFIG_PATH@.len() as int);
    }
    assert(lies_in(EXPERIMENT_DEFAULT_PATH@, project_dirs()[7])) by {
        reveal_strlit("config/experiment/default.yaml");
        reveal_strlit("config/experiment");
        reveal_with_fuel(agrees_in, 8);
        reveal_with_fuel(no_char_in, 8);
        lemma_scan_occurs(EXPERIMENT_DEFAULT_PATH@, project_dirs()[7], 0);
        lemma_no_char_in(EXPERIMENT_DEFAULT_PATH@, '/', 18, EXPERIMENT_DEFAULT_PATH@.len() as int);
    }
    assert(lies_in(EXPERIMENT_DEBUG_PATH@, project_dirs()[7])) by {
        reveal_strlit("config/experiment/debug.yaml");
        reveal_strlit("config/experiment");
        reveal_with_fuel(agrees_in, 8);
        reveal_with_fuel(no_char_in, 8);
        lemma_scan_occurs(EXPERIMENT_DEBUG_PATH@, project_dirs()[7], 0);
        lemma_no_char_in(EXPERIMENT_DEBUG_PATH@, '/', 18, EXPERIMENT_DEBUG_PATH@.len() as int);
    }
    assert(lies_in(MNIST_EXPERIMENT_PATH@, project_dirs()[8])) by {
        reveal_strlit("config/experiment/lg/mnist_classify.yaml");
        reveal_strlit("config/experiment/lg");
        reveal_with_fuel(agrees_in, 8);
        reveal_with_fuel(no_char_in, 8);
        lemma_scan_occurs(MNIST_EXPERIMENT_PATH@, project_dirs()[8], 0);
        lemma_no_char_in(MNIST_EXPERIMENT_PATH@, '/', 21, MNIST_EXPERIMENT_PATH@.len() as int);
    }
    assert(lies_in(LLM_FINETUNE_EXPERIMENT_PATH@, project_dirs()[9])) by {
        reveal_strlit("config/experiment/hf/llm_finetune.yaml");
        reveal_strlit("config/experiment/hf");
        reveal_with_fuel(agrees_in, 8);
        reveal_with_fuel(no_char_in, 8);
        lemma_scan_occurs(LLM_FINETUNE_EXPERIMENT_PATH@, project_dirs()[9], 0);
        lemma_no_char_in(LLM_FINETUNE_EXPERIMENT_PATH@, '/', 21, LLM_FINETUNE_EXPERIMENT_PATH@.len() as int);
    }
    assert(lies_in(LOGGER_CONFIG_PATH@, project_dirs()[10])) by {
        reveal_strlit("config/logger/default.yaml");
        reveal_strlit("config/logger");
        reveal_with_fuel(agrees_in, 8);
        reveal_with_fuel(no_char_in, 8);
        lemma_scan_occurs(LOGGER_CONFIG_PATH@, project_dirs()[10], 0);
        lemma_no_char_in(LOGGER_CONFIG_PATH@, '/', 14, LOGGER_CONFIG_PATH@.len() as int);
    }
    assert(lies_in(CALLBACKS_CONFIG_PATH@, project_dirs()[11])) by {
        reveal_strlit("config/callbacks/default.yaml");
        reveal_strlit("config/callbacks");
        reveal_with_fuel(agrees_in, 8);
        reveal_with_fuel(no_char_in, 8);
        lemma_scan_occurs(CALLBACKS_CONFIG_PATH@, project_dirs()[11], 0);
        lemma_no_char_in(CALLBACKS_CONFIG_PATH@, '/', 17, CALLBACKS_CONFIG_PATH@.len() as int);
    }
    assert(lies_in(MAIN_PY_PATH@, project_dirs()[1])) by {
        reveal_strlit("src/main.py");
        reveal_strlit("src");
        reveal_with_fuel(agrees_in, 8);
        reveal_with_fuel(no_char_in, 8);
        lemma_scan_occurs(MAIN_PY_PATH@, project_dirs()[1], 0);
        lemma_no_char_in(MAIN_PY_PATH@, '/', 4, MAIN_PY_PATH@.len() as int);
    }
    assert(lies_in(INIT_PY_PATH@, project_dirs()[1])) by {
        reveal_strlit("src/__init__.py");
        reveal_strlit("src");
        reveal_with_fuel(agrees_in, 8);
        reveal_with_fuel(no_char_in, 8);
        lemma_scan_occurs(INIT_PY_PATH@, project_dirs()[1], 0);
        lemma_no_char_in(INIT_PY_PATH@, '/', 4, INIT_PY_PATH@.len() as int);
    }
    assert(lies_in(GITKEEP_PATH@, project_dirs()[2])) by {
        reveal_strlit("data/.gitkeep");
        reveal_strlit("data");
        reveal_with_fuel(agrees_in, 8);
        reveal_with_fuel(no_char_in, 8);
        lemma_scan_occurs(GITKEEP_PATH@, project_dirs()[2], 0);
        lemma_no_char_in(GITKEEP_PATH@, '/', 5, GITKEEP_PATH@.len() as int);
    }
    assert(lies_in(NOTES_PATH@, project_dirs()[3])) by {
        reveal_strlit("notes/README.md");
        reveal_strlit("notes");
        reveal_with_fuel(agrees_in, 8);
        reveal_with_fuel(no_char_in, 8);
        lemma_scan_occurs(NOTES_PATH@, project_dirs()[3], 0);
        lemma_no_char_in(NOTES_PATH@, '/', 6, NOTES_PATH@.len() as int);
    }
    assert(lies_in(README_PATH@, project_dirs()[0])) by {
        reveal_strlit("");
        reveal_strlit("README.md");
        reveal_with_fuel(no_char_in, 8);
        lemma_scan_char_free(README_PATH@, '/');
    }
}

/// Every generated file lies directly inside one of the project's
/// directories, so writing the files after creating the directories finds
/// each file's parent in place.
pub proof fn lemma_files_lie_in_dirs(c: ConfigView)
    ensures
        forall|i: int|
            0 <= i < project_files(c).len() ==> exists|j: int|
                0 <= j < project_dirs().len() && lies_in(
                    #[trigger] project_files(c)[i].0,
                    project_dirs()[j],
                ),
{
    lemma_each_file_in_parent();
    let parent = seq![0int, 4, 5, 6, 7, 7, 8, 9, 10, 11, 1, 1, 2, 3, 0];
    assert forall|i: int| 0 <= i < project_files(c).len() implies exists|j: int|
        0 <= j < project_dirs().len() && lies_in(#[trigger] project_files(c)[i].0, project_dirs()[j]) by {
        assert(lies_in(project_files(c)[i].0, project_dirs()[parent[i]]));
    }
}

/// Lengths of the generated files' paths, and where two paths of equal
/// length differ.
proof fn lemma_path_facts()
    ensures
        GITIGNORE_PATH@.len() == 10,
        ROOT_CONFIG_PATH@.len() == 18,
        GENERAL_CONFIG_PATH@.len() == 27,
        DATAMODULE_CONFIG_PATH@.len() == 30,
        EXPERIMENT_DEFAULT_PATH@.len() == 30,
        EXPERIMENT_DEBUG_PATH@.len() == 28,
        MNIST_EXPERIMENT_PATH@.len() == 40,
        LLM_FINETUNE_EXPERIMENT_PATH@.len() == 38,
        LOGGER_CONFIG_PATH@.len() == 26,
        CALLBACKS_CONFIG_PATH@.len() == 29,
        MAIN_PY_PATH@.len() == 11,
        INIT_PY_PATH@.len() == 15,
        GITKEEP_PATH@.len() == 13,
        NOTES_PATH@.len() == 15,
        README_PATH@.len() == 9,
        DATAMODULE_CONFIG_PATH@[7] != EXPERIMENT_DEFAULT_PATH@[7],
        INIT_PY_PATH@[0] != NOTES_PATH@[0],
{
    reveal_strlit(".gitignore");
    reveal_strlit("config/config.yaml");
    reveal_strlit("config/general/default.yaml");
    reveal_strlit("config/datamodule/default.yaml");
    reveal_strlit("config/experiment/default.yaml");
    reveal_strlit("config/experiment/debug.yaml");
    reveal_strlit("config/experiment/lg/mnist_classify.yaml");
    reveal_strlit("config/experiment/hf/llm_finetune.yaml");
    reveal_strlit("config/logger/default.yaml");
    reveal_strlit("config/callbacks/default.yaml");
    reveal_strlit("src/main.py");
    reveal_strlit("src/__init__.py");
    reveal_strlit("data/.gitkeep");
    reveal_strlit("notes/README.md");
    reveal_strlit("README.md");
}

/// No two generated files share a path: every file is written once.
pub proof fn lemma_file_paths_distinct(c: ConfigView)
    ensures
        forall|i: int, j: int|
            0 <= i < project_files(c).len() && 0 <= j < project_files(c).len() && i != j
                ==> #[trigger] project_files(c)[i].0 != #[trigger] project_files(c)[j].0,
{
    lemma_path_facts();
}

/// The files removed after `uv init` are none of the generated files, so
/// the clean-up never deletes what the templates wrote.
pub proof fn lemma_cleanup_spares_generated_files(c: ConfigView)
    ensures
        forall|i: int, j: int|
            0 <= i < init_leftover_names().len() && 0 <= j < project_files(c).len()
                ==> #[trigger] init_leftover_names()[i] != #[trigger] project_files(c)[j].0,
{
    lemma_path_facts();
    reveal_strlit("hello.py");
    reveal_strlit("main.py");
    assert(init_leftover_names()[0].len() == 8 && init_leftover_names()[1].len() == 7);
}

/// Every generated file has content, except the two placeholders
/// `src/__init__.py` and `data/.gitkeep`, which are empty.
pub proof fn lemma_only_placeholders_empty(c: ConfigView)
    ensures
        forall|i: int|
            0 <= i < project_files(c).len() ==> ((#[trigger] project_files(c)[i]).1.len() == 0
                <==> (project_files(c)[i].0 == INIT_PY_PATH@ || project_files(c)[i].0
                == GITKEEP_PATH@)),
{
    lemma_file_paths_distinct(c);
    reveal_strlit("\
__pycache__/
*.py[cod]
*.egg-info/
dist/
build/
.venv/
data/*
!data/.gitkeep
.idea/
.vscode/
*.swp
.DS_Store
Thumbs.db
*.log
wandb/
outputs/
multirun/
uv.lock
");
    reveal_strlit("\
defaults:
  - general: default
  - datamodule: default
  - experiment: default
  - logger: default
  - callbacks: default
  - _self_

seed: 42
debug: false
");
    reveal_strlit("\
data_dir: ${hydra:runtime.cwd}/data
train_split: 0.8
val_split: 0.1
test_split: 0.1
batch_size: 32
num_workers: ${general.num_workers}
pin_memory: true

sources:
  raw: ${.data_dir}/raw
  processed: ${.data_dir}/processed
  external: ${.data_dir}/external
");
    reveal_strlit("\
# @package _global_
name: baseline

trainer:
  max_epochs: 100
  accelerator: auto
  devices: auto
  gradient_clip_val: 1.0

model:
  learning_rate: 1e-3
  weight_decay: 1e-5
  scheduler: cosine
");
    reveal_strlit("\
# @package _global_
name: debug

trainer:
  max_epochs: 2
  accelerator: cpu
  devices: 1
  fast_dev_run: true

model:
  learning_rate: 1e-3
");
    reveal_strlit("\
# @package _global_
# Lightning MNIST classification example
# Usage: uv run python src/main.py experiment=lg/mnist_classify
name: mnist_classify

trainer:
  max_epochs: 10
  accelerator: auto
  devices: auto
  precision: 16-mixed
  gradient_clip_val: 1.0
  log_every_n_steps: 50
  check_val_every_n_epoch: 1
  deterministic: true

model:
  _target_: src.models.MNISTClassifier
  input_dim: 784
  hidden_dim: 256
  output_dim: 10
  learning_rate: 1e-3
  weight_decay: 1e-5
  dropout: 0.2
  scheduler: cosine
  warmup_epochs: 1

datamodule:
  _target_: src.datamodules.MNISTDataModule
  data_dir: ${hydra:runtime.cwd}/data
  batch_size: 128
  num_workers: ${general.num_workers}
  pin_memory: true
  train_split: 0.9
  val_split: 0.1
");
    reveal_strlit("\
# @package _global_
# HuggingFace LLM finetuning example
# Usage: uv run python src/main.py experiment=hf/llm_finetune
name: llm_finetune

model:
  pretrained_model_name: meta-llama/Llama-3.2-1B
  task: causal_lm
  load_in_4bit: true
  use_peft: true

peft:
  method: lora
  r: 16
  lora_alpha: 32
  lora_dropout: 0.05
  target_modules:
    - q_proj
    - v_proj

training:
  max_steps: 1000
  per_device_train_batch_size: 4
  gradient_accumulation_steps: 4
  learning_rate: 2e-4
  weight_decay: 0.01
  warmup_ratio: 0.03
  lr_scheduler_type: cosine
  fp16: true
  logging_steps: 10
  save_steps: 200
  eval_steps: 200
  output_dir: ${hydra:runtime.cwd}/outputs/hf_finetune

dataset:
  name: tatsu-lab/alpaca
  split: train
  max_length: 512
  text_field: text
");
    reveal_strlit("\
model_checkpoint:
  monitor: val_loss
  mode: min
  save_top_k: 3
  save_last: true
  dirpath: ${hydra:runtime.cwd}/outputs/checkpoints

early_stopping:
  monitor: val_loss
  patience: 10
  mode: min
");
    reveal_strlit("logger: null\n");
    reveal_strlit("\
import os
import time
import functools
import random

import hydra
import torch
import lightning
import numpy as np
from omegaconf import DictConfig, OmegaConf
from watermark import watermark
");
    reveal_strlit("project_name: ");
    reveal_strlit("wandb:\n  project: ");
    reveal_strlit("# ");
    assert forall|i: int| 0 <= i < project_files(c).len() implies ((#[trigger] project_files(
        c,
    )[i]).1.len() == 0 <==> (project_files(c)[i].0 == INIT_PY_PATH@ || project_files(c)[i].0
        == GITKEEP_PATH@)) by {
        assert(project_files(c)[11].0 == INIT_PY_PATH@);
        assert(project_files(c)[12].0 == GITKEEP_PATH@);
        if i == 10 {
            assert(main_py_text(c).len() >= MAIN_PY_IMPORTS@.len());
        }
    }
}

/// With WandB the logger config is a WandB section naming the project;
/// without it the logger is null and WandB is not mentioned.
pub proof fn lemma_logger_config(c: ConfigView)
    ensures
        contains(logger_config_text(c), "wandb:"@) <==> c.use_wandb,
        c.use_wandb ==> contains(logger_config_text(c), "project: "@ + c.name),
        !c.use_wandb ==> starts_with(logger_config_text(c), "logger: null"@),
{
    reveal_strlit("wandb:");
    reveal_strlit("project: ");
    reveal_strlit("logger: null");
    reveal_strlit("wandb:\n  project: ");
    reveal_strlit("logger: null\n");
    reveal_with_fuel(agrees_in, 6);
    reveal_with_fuel(no_char_in, 6);
    let t = logger_config_text(c);
    if c.use_wandb {
        let head = LOGGER_WANDB_HEAD@;
        lemma_scan_occurs(head, "wandb:"@, 0);
        lemma_occurs_within(Seq::empty(), head, c.name + LOGGER_WANDB_TAIL@, "wandb:"@, 0);
        assert(t =~= Seq::empty() + head + (c.name + LOGGER_WANDB_TAIL@));
        lemma_scan_occurs(head, "project: "@, 9);
        assert(t.subrange(9, 18 + c.name.len() as int) =~= head.subrange(9, 18) + c.name);
        assert(occurs_at(t, "project: "@ + c.name, 9));
    } else {
        lemma_scan_occurs(LOGGER_NULL@, "logger: null"@, 0);
        lemma_scan_char_free(LOGGER_NULL@, 'w');
        lemma_char_free_excludes(t, "wandb:"@, 0);
    }
}

/// The project's name opens the general config, the README title and the
/// notes title.
pub proof fn lemma_project_name_in_texts(name: Seq<char>)
    ensures
        starts_with(general_config_text(name), "project_name: "@ + name),
        starts_with(readme_text(name), "# "@ + name),
        starts_with(notes_text(name), "# "@ + name),
{
    let g = general_config_text(name);
    assert(g.subrange(0, ("project_name: "@ + name).len() as int) =~= "project_name: "@ + name);
    let r = readme_text(name);
    assert(r.subrange(0, ("# "@ + name).len() as int) =~= "# "@ + name);
    let n = notes_text(name);
    assert(n.subrange(0, ("# "@ + name).len() as int) =~= "# "@ + name);
}

/// The default experiment has no `f` at all (so no `fast_dev_run`).
#[verifier::spinoff_prover]
#[verifier::rlimit(100)]
proof fn lemma_experiment_default_lacks_f()
    ensures
        char_free(EXPERIMENT_DEFAULT@, 'f'),
{
    reveal_strlit("\
# @package _global_
name: baseline

trainer:
  max_epochs: 100
  accelerator: auto
  devices: auto
  gradient_clip_val: 1.0

model:
  learning_rate: 1e-3
  weight_decay: 1e-5
  scheduler: cosine
");
    reveal_with_fuel(no_char_in, 10);
    lemma_scan_char_free(EXPERIMENT_DEFAULT@, 'f');
}

/// Landmarks of `EXPERIMENT_DEFAULT`, read off the literal.
#[verifier::spinoff_prover]
#[verifier::rlimit(40)]
proof fn lemma_marks_experiment_default()
    ensures
        contains(EXPERIMENT_DEFAULT@, "name: baseline"@),
        contains(EXPERIMENT_DEFAULT@, "max_epochs: 100"@),
        contains(EXPERIMENT_DEFAULT@, "accelerator: auto"@),
        !contains(EXPERIMENT_DEFAULT@, "fast_dev_run"@),
{
    reveal_strlit("\
# @package _global_
name: baseline

trainer:
  max_epochs: 100
  accelerator: auto
  devices: auto
  gradient_clip_val: 1.0

model:
  learning_rate: 1e-3
  weight_decay: 1e-5
  scheduler: cosine
");
    assert(occurs_at(EXPERIMENT_DEFAULT@, "name: baseline"@, 20)) by {
        reveal_strlit("name: baseline");
        reveal_with_fuel(agrees_in, 6);
        lemma_scan_occurs(EXPERIMENT_DEFAULT@, "name: baseline"@, 20);
    }
    assert(occurs_at(EXPERIMENT_DEFAULT@, "max_epochs: 100"@, 47)) by {
        reveal_strlit("max_epochs: 100");
        reveal_with_fuel(agrees_in, 6);
        lemma_scan_occurs(EXPERIMENT_DEFAULT@, "max_epochs: 100"@, 47);
    }
    assert(occurs_at(EXPERIMENT_DEFAULT@, "accelerator: auto"@, 65)) by {
        reveal_strlit("accelerator: auto");
        reveal_with_fuel(agrees_in, 7);
        lemma_scan_occurs(EXPERIMENT_DEFAULT@, "accelerator: auto"@, 65);
    }
    lemma_experiment_default_lacks_f();
    reveal_strlit("fast_dev_run");
    lemma_char_free_excludes(EXPERIMENT_DEFAULT@, "fast_dev_run"@, 0);
}

/// Landmarks of `EXPERIMENT_DEBUG`, read off the literal.
#[verifier::spinoff_prover]
#[verifier::rlimit(40)]
proof fn lemma_marks_experiment_debug()
    ensures
        contains(EXPERIMENT_DEBUG@, "name: debug"@),
        contains(EXPERIMENT_DEBUG@, "max_epochs: 2"@),
        contains(EXPERIMENT_DEBUG@, "accelerator: cpu"@),
        contains(EXPERIMENT_DEBUG@, "fast_dev_run: true"@),
{
    reveal_strlit("\
# @package _global_
name: debug

trainer:
  max_epochs: 2
  accelerator: cpu
  devices: 1
  fast_dev_run: true

model:
  learning_rate: 1e-3
");
    assert(occurs_at(EXPERIMENT_DEBUG@, "name: debug"@, 20)) by {
        reveal_strlit("name: debug");
        reveal_with_fuel(agrees_in, 6);
        lemma_scan_occurs(EXPERIMENT_DEBUG@, "name: debug"@, 20);
    }
    assert(occurs_at(EXPERIMENT_DEBUG@, "max_epochs: 2"@, 44)) by {
        reveal_strlit("max_epochs: 2");
        reveal_with_fuel(agrees_in, 6);
        lemma_scan_occurs(EXPERIMENT_DEBUG@, "max_epochs: 2"@, 44);
    }
    assert(occurs_at(EXPERIMENT_DEBUG@, "accelerator: cpu"@, 60)) by {
        reveal_strlit("accelerator: cpu");
        reveal_with_fuel(agrees_in, 6);
        lemma_scan_occurs(EXPERIMENT_DEBUG@, "accelerator: cpu"@, 60);
    }
    assert(occurs_at(EXPERIMENT_DEBUG@, "fast_dev_run: true"@, 92)) by {
        reveal_strlit("fast_dev_run: true");
        reveal_with_fuel(agrees_in, 7);
        lemma_scan_occurs(EXPERIMENT_DEBUG@, "fast_dev_run: true"@, 92);
    }
}

/// Landmarks of `GITIGNORE`, read off the literal.
#[verifier::spinoff_prover]
#[verifier::rlimit(40)]
proof fn lemma_marks_gitignore()
    ensures
        contains(GITIGNORE@, ".venv/"@),
{
    reveal_strlit("\
__pycache__/
*.py[cod]
*.egg-info/
dist/
build/
.venv/
data/*
!data/.gitkeep
.idea/
.vscode/
*.swp
.DS_Store
Thumbs.db
*.log
wandb/
outputs/
multirun/
uv.lock
");
    assert(occurs_at(GITIGNORE@, ".venv/"@, 48)) by {
        reveal_strlit(".venv/");
        reveal_with_fuel(agrees_in, 5);
        lemma_scan_occurs(GITIGNORE@, ".venv/"@, 48);
    }
}

/// Landmarks of `ROOT_CONFIG`, read off the literal.
#[verifier::spinoff_prover]
#[verifier::rlimit(40)]
proof fn lemma_marks_root_config()
    ensures
        contains(ROOT_CONFIG@, "defaults:"@),
{
    reveal_strlit("\
defaults:
  - general: default
  - datamodule: default
  - experiment: default
  - logger: default
  - callbacks: default
  - _self_

seed: 42
debug: false
");
    assert(occurs_at(ROOT_CONFIG@, "defaults:"@, 0)) by {
        reveal_strlit("defaults:");
        reveal_with_fuel(agrees_in, 6);
        lemma_scan_occurs(ROOT_CONFIG@, "defaults:"@, 0);
    }
}

/// Landmarks of `DATAMODULE_CONFIG`, read off the literal.
#[verifier::spinoff_prover]
#[verifier::rlimit(40)]
proof fn lemma_marks_datamodule_config()
    ensures
        contains(DATAMODULE_CONFIG@, "batch_size: 32"@),
{
    reveal_strlit("\
data_dir: ${hydra:runtime.cwd}/data
train_split: 0.8
val_split: 0.1
test_split: 0.1
batch_size: 32
num_workers: ${general.num_workers}
pin_memory: true

sources:
  raw: ${.data_dir}/raw
  processed: ${.data_dir}/processed
  external: ${.data_dir}/external
");
    assert(occurs_at(DATAMODULE_CONFIG@, "batch_size: 32"@, 84)) by {
        reveal_strlit("batch_size: 32");
        reveal_with_fuel(agrees_in, 6);
        lemma_scan_occurs(DATAMODULE_CONFIG@, "batch_size: 32"@, 84);
    }
}

/// Landmarks of `MNIST_EXPERIMENT`, read off the literal.
#[verifier::spinoff_prover]
#[verifier::rlimit(40)]
proof fn lemma_marks_mnist_experiment()
    ensures
        contains(MNIST_EXPERIMENT@, "MNISTClassifier"@),
{
    reveal_strlit("\
# @package _global_
# Lightning MNIST classification example
# Usage: uv run python src/main.py experiment=lg/mnist_classify
name: mnist_classify

trainer:
  max_epochs: 10
  accelerator: auto
  devices: auto
  precision: 16-mixed
  gradient_clip_val: 1.0
  log_every_n_steps: 50
  check_val_every_n_epoch: 1
  deterministic: true

model:
  _target_: src.models.MNISTClassifier
  input_dim: 784
  hidden_dim: 256
  output_dim: 10
  learning_rate: 1e-3
  weight_decay: 1e-5
  dropout: 0.2
  scheduler: cosine
  warmup_epochs: 1

datamodule:
  _target_: src.datamodules.MNISTDataModule
  data_dir: ${hydra:runtime.cwd}/data
  batch_size: 128
  num_workers: ${general.num_workers}
  pin_memory: true
  train_split: 0.9
  val_split: 0.1
");
    assert(occurs_at(MNIST_EXPERIMENT@, "MNISTClassifier"@, 362)) by {
        reveal_strlit("MNISTClassifier");
        reveal_with_fuel(agrees_in, 6);
        lemma_scan_occurs(MNIST_EXPERIMENT@, "MNISTClassifier"@, 362);
    }
}

/// Landmarks of `LLM_FINETUNE_EXPERIMENT`, read off the literal.
#[verifier::spinoff_prover]
#[verifier::rlimit(40)]
proof fn lemma_marks_llm_finetune_experiment()
    ensures
        contains(LLM_FINETUNE_EXPERIMENT@, "lora"@),
{
    reveal_strlit("\
# @package _global_
# HuggingFace LLM finetuning example
# Usage: uv run python src/main.py experiment=hf/llm_finetune
name: llm_finetune

model:
  pretrained_model_name: meta-llama/Llama-3.2-1B
  task: causal_lm
  load_in_4bit: true
  use_peft: true

peft:
  method: lora
  r: 16
  lora_alpha: 32
  lora_dropout: 0.05
  target_modules:
    - q_proj
    - v_proj

training:
  max_steps: 1000
  per_device_train_batch_size: 4
  gradient_accumulation_steps: 4
  learning_rate: 2e-4
  weight_decay: 0.01
  warmup_ratio: 0.03
  lr_scheduler_type: cosine
  fp16: true
  logging_steps: 10
  save_steps: 200
  eval_steps: 200
  output_dir: ${hydra:runtime.cwd}/outputs/hf_finetune

dataset:
  name: tatsu-lab/alpaca
  split: train
  max_length: 512
  text_field: text
");
    assert(occurs_at(LLM_FINETUNE_EXPERIMENT@, "lora"@, 268)) by {
        reveal_strlit("lora");
        reveal_with_fuel(agrees_in, 4);
        lemma_scan_occurs(LLM_FINETUNE_EXPERIMENT@, "lora"@, 268);
    }
}

/// Landmarks of `CALLBACKS_CONFIG`, read off the literal.
#[verifier::spinoff_prover]
#[verifier::rlimit(40)]
proof fn lemma_marks_callbacks_config()
    ensures
        contains(CALLBACKS_CONFIG@, "early_stopping:"@),
{
    reveal_strlit("\
model_checkpoint:
  monitor: val_loss
  mode: min
  save_top_k: 3
  save_last: true
  dirpath: ${hydra:runtime.cwd}/outputs/checkpoints

early_stopping:
  monitor: val_loss
  patience: 10
  mode: min
");
    assert(occurs_at(CALLBACKS_CONFIG@, "early_stopping:"@, 137)) by {
        reveal_strlit("early_stopping:");
        reveal_with_fuel(agrees_in, 6);
        lemma_scan_occurs(CALLBACKS_CONFIG@, "early_stopping:"@, 137);
    }
}

/// Each fixed-text file holds its own template: no experiment, config or
/// ignore file is swapped for another one or left out.
pub proof fn lemma_fixed_files_hold_their_templates(c: ConfigView)
    ensures
        forall|i: int|
            0 <= i < project_files(c).len() ==> {
                let f = #[trigger] project_files(c)[i];
                &&& f.0 == GITIGNORE_PATH@ ==> f.1 == GITIGNORE@
                &&& f.0 == ROOT_CONFIG_PATH@ ==> f.1 == ROOT_CONFIG@
                &&& f.0 == DATAMODULE_CONFIG_PATH@ ==> f.1 == DATAMODULE_CONFIG@
                &&& f.0 == EXPERIMENT_DEFAULT_PATH@ ==> f.1 == EXPERIMENT_DEFAULT@
                &&& f.0 == EXPERIMENT_DEBUG_PATH@ ==> f.1 == EXPERIMENT_DEBUG@
                &&& f.0 == MNIST_EXPERIMENT_PATH@ ==> f.1 == MNIST_EXPERIMENT@
                &&& f.0 == LLM_FINETUNE_EXPERIMENT_PATH@ ==> f.1 == LLM_FINETUNE_EXPERIMENT@
                &&& f.0 == CALLBACKS_CONFIG_PATH@ ==> f.1 == CALLBACKS_CONFIG@
            },
{
    lemma_path_facts();
}

/// What the generated experiments and configs say: the default experiment
/// is the baseline run (100 epochs, accelerator chosen automatically, no
/// `fast_dev_run`), the debug experiment a quick CPU run of two epochs, and
/// each other fixed file carries its landmark.
pub proof fn lemma_fixed_file_contents(c: ConfigView)
    ensures
        forall|i: int|
            0 <= i < project_files(c).len() ==> {
                let f = #[trigger] project_files(c)[i];
                &&& f.0 == EXPERIMENT_DEFAULT_PATH@ ==> {
                    &&& contains(f.1, "name: baseline"@)
                    &&& contains(f.1, "max_epochs: 100"@)
                    &&& contains(f.1, "accelerator: auto"@)
                    &&& !contains(f.1, "fast_dev_run"@)
                }
                &&& f.0 == EXPERIMENT_DEBUG_PATH@ ==> {
                    &&& contains(f.1, "name: debug"@)
                    &&& contains(f.1, "max_epochs: 2"@)
                    &&& contains(f.1, "accelerator: cpu"@)
                    &&& contains(f.1, "fast_dev_run: true"@)
                }
                &&& f.0 == GITIGNORE_PATH@ ==> contains(f.1, ".venv/"@)
                &&& f.0 == ROOT_CONFIG_PATH@ ==> contains(f.1, "defaults:"@)
                &&& f.0 == DATAMODULE_CONFIG_PATH@ ==> contains(f.1, "batch_size: 32"@)
                &&& f.0 == MNIST_EXPERIMENT_PATH@ ==> contains(f.1, "MNISTClassifier"@)
                &&& f.0 == LLM_FINETUNE_EXPERIMENT_PATH@ ==> contains(f.1, "lora"@)
                &&& f.0 == CALLBACKS_CONFIG_PATH@ ==> contains(f.1, "early_stopping:"@)
            },
{
    lemma_fixed_files_hold_their_templates(c);
    lemma_marks_experiment_default();
    lemma_marks_experiment_debug();
    lemma_marks_gitignore();
    lemma_marks_root_config();
    lemma_marks_datamodule_config();
    lemma_marks_mnist_experiment();
    lemma_marks_llm_finetune_experiment();
    lemma_marks_callbacks_config();
}

/// The watermark line of `src/main.py` lists PyTorch and Lightning, then
/// Transformers when selected, then WandB when selected; `,wandb` appears
/// in `src/main.py` exactly when WandB is selected, whatever else is.
pub proof fn lemma_main_py_watermark(c: ConfigView)
    ensures
        contains(
            main_py_text(c),
            "watermark(packages=\"torch,lightning"@ + included(c.use_transformers, ",transformers"@)
                + included(c.use_wandb, ",wandb"@) + "\", python=True))"@,
        ),
        contains(main_py_text(c), ",wandb"@) <==> c.use_wandb,
{
    let head = "watermark(packages=\"torch,lightning"@;
    let tail = "\", python=True))"@;
    lemma_marks_main_py_body();
    lemma_marks_main_py_run();
    reveal_strlit(",transformers");
    reveal_strlit(",wandb");
    let tw = included(c.use_transformers, TRANSFORMERS_WATERMARK@);
    let ww = included(c.use_wandb, WANDB_WATERMARK@);
    assert(tw == included(c.use_transformers, ",transformers"@));
    assert(ww == included(c.use_wandb, ",wandb"@));
    let line = head + tw + ww + tail;
    let x = MAIN_PY_IMPORTS@ + included(c.use_wandb, WANDB_IMPORT@) + MAIN_PY_GAP@
        + included(gpu_active(c), GPU_ENV_LINE@) + MAIN_PY_BODY@.subrange(0, 817);
    let y = MAIN_PY_RUN@.subrange(tail.len() as int, MAIN_PY_RUN@.len() as int)
        + included(c.use_wandb, WANDB_TEST_BLOCK@) + MAIN_PY_END@;
    assert(MAIN_PY_BODY@ =~= MAIN_PY_BODY@.subrange(0, 817) + head);
    assert(MAIN_PY_RUN@ =~= tail + MAIN_PY_RUN@.subrange(tail.len() as int, MAIN_PY_RUN@.len() as int));
    assert(main_py_text(c) =~= x + line + y);
    assert(line.subrange(0, line.len() as int) =~= line);
    lemma_occurs_within(x, line, y, line, 0);
    if c.use_wandb {
        assert(WANDB_WATERMARK@.subrange(0, 6) =~= ",wandb"@);
        let x2 = x + head + tw;
        let y2 = tail + y;
        assert(main_py_text(c) =~= x2 + WANDB_WATERMARK@ + y2);
        lemma_occurs_within(x2, WANDB_WATERMARK@, y2, ",wandb"@, 0);
    } else {
        lemma_main_py_markers(c, false, true, false);
        lemma_pair_free_excludes(main_py_text(c), ",wandb"@, 4);
    }
}

/// Where the watermark line starts in `src/main.py`.
#[verifier::spinoff_prover]
proof fn lemma_marks_main_py_body()
    ensures
        MAIN_PY_BODY@.len() == 852,
        "watermark(packages=\"torch,lightning"@.len() == 35,
        occurs_at(MAIN_PY_BODY@, "watermark(packages=\"torch,lightning"@, 817),
{
    reveal_strlit("\n\
def get_time(func):
    \"\"\"Decorator that prints execution time.\"\"\"
    @functools.wraps(func)
    def wrapper(*args, **kwargs):
        start = time.perf_counter()
        result = func(*args, **kwargs)
        elapsed = time.perf_counter() - start
        print(f\"\\n⏱  {func.__name__} took {elapsed:.2f}s\")
        return result
    return wrapper


def set_seed(seed: int = 42, deterministic: bool = True):
    \"\"\"Set random seed for reproducibility.\"\"\"
    random.seed(seed)
    np.random.seed(seed)
    torch.manual_seed(seed)
    torch.cuda.manual_seed_all(seed)
    if deterministic:
        torch.backends.cudnn.deterministic = True
        torch.backends.cudnn.benchmark = False


@get_time
@hydra.main(version_base=\"1.1\", config_path=\"../config\", config_name=\"config\")
def main(cfg: DictConfig):
    print(watermark(packages=\"torch,lightning");
    reveal_strlit("watermark(packages=\"torch,lightning");
    reveal_with_fuel(agrees_in, 8);
    lemma_scan_occurs(MAIN_PY_BODY@, "watermark(packages=\"torch,lightning"@, 817);
}

/// Where the watermark line ends in `src/main.py`.
#[verifier::spinoff_prover]
proof fn lemma_marks_main_py_run()
    ensures
        occurs_at(MAIN_PY_RUN@, "\", python=True))"@, 0),
{
    reveal_strlit("\
\", python=True))

    # loading configuration
    config = OmegaConf.create(OmegaConf.to_container(cfg))

    # setting random seed for reproducibility
    set_seed(seed=config.general.seed, deterministic=True)

    print(config)
");
    reveal_strlit("\", python=True))");
    reveal_with_fuel(agrees_in, 7);
    lemma_scan_occurs(MAIN_PY_RUN@, "\", python=True))"@, 0);
}

/// Settings the name-dependent configs carry besides the name: the general
/// config fixes the seed at 42, and the WandB logger logs online.
pub proof fn lemma_named_config_settings(c: ConfigView)
    ensures
        contains(general_config_text(c.name), "seed: 42"@),
        c.use_wandb ==> contains(logger_config_text(c), "mode: online"@),
{
    assert(occurs_at(GENERAL_TAIL@, "seed: 42"@, 1)) by {
        reveal_strlit("\n\
seed: 42
device: auto
precision: 32
num_workers: 4
verbose: true
");
        reveal_strlit("seed: 42");
        reveal_with_fuel(agrees_in, 5);
        lemma_scan_occurs(GENERAL_TAIL@, "seed: 42"@, 1);
    }
    lemma_occurs_within(GENERAL_HEAD@ + c.name, GENERAL_TAIL@, Seq::empty(), "seed: 42"@, 1);
    assert(general_config_text(c.name) =~= GENERAL_HEAD@ + c.name + GENERAL_TAIL@ + Seq::empty());
    if c.use_wandb {
        assert(occurs_at(LOGGER_WANDB_TAIL@, "mode: online"@, 43)) by {
            reveal_strlit("
  entity: null
  group: null
  tags: []
  mode: online
  log_model: false
  save_dir: ${hydra:runtime.cwd}/outputs
");
            reveal_strlit("mode: online");
            reveal_with_fuel(agrees_in, 6);
            lemma_scan_occurs(LOGGER_WANDB_TAIL@, "mode: online"@, 43);
        }
        lemma_occurs_within(
            LOGGER_WANDB_HEAD@ + c.name,
            LOGGER_WANDB_TAIL@,
            Seq::empty(),
            "mode: online"@,
            43,
        );
        assert(logger_config_text(c) =~= LOGGER_WANDB_HEAD@ + c.name + LOGGER_WANDB_TAIL@
            + Seq::empty());
    }
}

} // verus!
