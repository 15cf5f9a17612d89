//! The choices offered while gathering a project's configuration and the
//! rules that decide them: supported Python and PyTorch versions, which CUDA
//! versions fit a PyTorch version, and whether a requested CUDA version is
//! accepted.

use vstd::prelude::*;

use crate::config::Os;

verus! {

/// Installing Weights & Biases is proposed by default.
pub const WANDB_DEFAULT: bool = true;

/// Installing HuggingFace Transformers is not proposed by default.
pub const TRANSFORMERS_DEFAULT: bool = false;

/// Python versions offered, the default first.
pub open spec fn python_choices() -> Seq<Seq<char>> {
    seq!["3.12"@, "3.11"@, "3.10"@, "3.13"@]
}

/// PyTorch versions offered, the default (newest) first.
pub open spec fn pytorch_choices() -> Seq<Seq<char>> {
    seq!["2.8.0"@, "2.7.1"@, "2.6.0"@, "2.5.1"@, "2.4.1"@]
}

/// Every CUDA version the tool knows of.
pub open spec fn cuda_choices() -> Seq<Seq<char>> {
    seq!["11.8"@, "12.1"@, "12.4"@, "12.6"@, "12.8"@]
}

/// CUDA versions for which PyTorch publishes wheels of the given PyTorch
/// version, newest first; none for a PyTorch version the tool does not know.
pub open spec fn compatible_cuda_versions(pytorch: Seq<char>) -> Seq<Seq<char>> {
    if pytorch == "2.8.0"@ {
        seq!["12.8"@, "12.6"@]
    } else if pytorch == "2.7.1"@ {
        seq!["12.8"@, "12.6"@, "11.8"@]
    } else if pytorch == "2.6.0"@ {
        seq!["12.6"@, "12.4"@, "11.8"@]
    } else if pytorch == "2.5.1"@ || pytorch == "2.4.1"@ {
        seq!["12.4"@, "12.1"@, "11.8"@]
    } else {
        seq![]
    }
}

/// `parts` joined with `sep` between neighbours.
pub open spec fn join(parts: Seq<Seq<char>>, sep: Seq<char>) -> Seq<char>
    decreases parts.len(),
{
    if parts.len() == 0 {
        Seq::empty()
    } else if parts.len() == 1 {
        parts[0]
    } else {
        join(parts.drop_last(), sep) + sep + parts.last()
    }
}

/// The refusal of a CUDA version that does not fit the PyTorch version.
pub open spec fn incompatible_message(
    cuda: Seq<char>,
    pytorch: Seq<char>,
    valid: Seq<Seq<char>>,
) -> Seq<char> {
    "CUDA "@ + cuda + " is not compatible with PyTorch "@ + pytorch + ". Valid options: "@ + join(
        valid,
        ", "@,
    )
}

/// The refusal when no CUDA version is known for the PyTorch version.
pub open spec fn unsupported_message(pytorch: Seq<char>) -> Seq<char> {
    "No CUDA version is known to be compatible with PyTorch "@ + pytorch
}

/// The refusal of a value outside the documented choices.
pub open spec fn unlisted_message(what: Seq<char>, value: Seq<char>, choices: Seq<Seq<char>>) -> Seq<
    char,
> {
    what + " "@ + value + " is not supported. Valid options: "@ + join(choices, ", "@)
}

/// The views of a vector of strings.
pub open spec fn strings_view(v: Seq<String>) -> Seq<Seq<char>> {
    v.map_values(|s: String| s@)
}

/// How the CUDA version of a project is settled.
pub enum CudaChoice {
    /// The project does not target a GPU: no CUDA version.
    NotApplicable,
    /// The requested CUDA version is used.
    Use(String),
    /// No version was requested: the user picks one of these.
    Ask(Vec<String>),
    /// The request is refused with this message.
    Refused(String),
}

/// Python versions to offer, the default first.
pub fn python_versions() -> (v: Vec<String>)
    ensures
        strings_view(v@) == python_choices(),
{
    let mut v: Vec<String> = Vec::new();
    v.push(String::from_str("3.12"));
    v.push(String::from_str("3.11"));
    v.push(String::from_str("3.10"));
    v.push(String::from_str("3.13"));
    assert(strings_view(v@) =~= python_choices());
    v
}

/// PyTorch versions to offer, the default first.
pub fn pytorch_versions() -> (v: Vec<String>)
    ensures
        strings_view(v@) == pytorch_choices(),
{
    let mut v: Vec<String> = Vec::new();
    v.push(String::from_str("2.8.0"));
    v.push(String::from_str("2.7.1"));
    v.push(String::from_str("2.6.0"));
    v.push(String::from_str("2.5.1"));
    v.push(String::from_str("2.4.1"));
    assert(strings_view(v@) =~= pytorch_choices());
    v
}

fn strings2(a: &str, b: &str) -> (v: Vec<String>)
    ensures
        strings_view(v@) == seq![a@, b@],
{
    let mut v: Vec<String> = Vec::new();
    v.push(String::from_str(a));
    v.push(String::from_str(b));
    assert(strings_view(v@) =~= seq![a@, b@]);
    v
}

fn strings3(a: &str, b: &str, c: &str) -> (v: Vec<String>)
    ensures
        strings_view(v@) == seq![a@, b@, c@],
{
    let mut v: Vec<String> = Vec::new();
    v.push(String::from_str(a));
    v.push(String::from_str(b));
    v.push(String::from_str(c));
    assert(strings_view(v@) =~= seq![a@, b@, c@]);
    v
}

/// Whether two texts are equal.
fn same_text(a: &str, b: &str) -> (r: bool)
    ensures
        r == (a@ == b@),
{
    a.to_owned() == b.to_owned()
}

/// CUDA versions compatible with `pytorch_version`, newest first.
pub fn compatible_cuda(pytorch_version: &str) -> (v: Vec<String>)
    ensures
        strings_view(v@) == compatible_cuda_versions(pytorch_version@),
{
    if same_text(pytorch_version, "2.8.0") {
        strings2("12.8", "12.6")
    } else if same_text(pytorch_version, "2.7.1") {
        strings3("12.8", "12.6", "11.8")
    } else if same_text(pytorch_version, "2.6.0") {
        strings3("12.6", "12.4", "11.8")
    } else if same_text(pytorch_version, "2.5.1") || same_text(pytorch_version, "2.4.1") {
        strings3("12.4", "12.1", "11.8")
    } else {
        let v: Vec<String> = Vec::new();
        assert(strings_view(v@) =~= Seq::<Seq<char>>::empty());
        v
    }
}

/// `parts` joined with `sep` between neighbours.
pub fn join_with(parts: &Vec<String>, sep: &str) -> (s: String)
    ensures
        s@ == join(strings_view(parts@), sep@),
{
    let mut s = String::new();
    let mut i: usize = 0;
    while i < parts.len()
        invariant
            i <= parts.len(),
            s@ == join(strings_view(parts@).take(i as int), sep@),
        decreases parts.len() - i,
    {
        let ghost before = strings_view(parts@).take(i as int);
        let ghost after = strings_view(parts@).take(i + 1);
        assert(after.drop_last() =~= before);
        if i > 0 {
            s.append(sep);
        } else {
            assert(s@ =~= Seq::<char>::empty());
        }
        s.append(parts[i].as_str());
        i = i + 1;
    }
    assert(strings_view(parts@).take(parts.len() as int) =~= strings_view(parts@));
    s
}

/// Whether `item` is one of `items`.
fn has_string(items: &Vec<String>, item: &String) -> (r: bool)
    ensures
        r == strings_view(items@).contains(item@),
{
    let mut i: usize = 0;
    while i < items.len()
        invariant
            i <= items.len(),
            forall|k: int| 0 <= k < i ==> items@[k]@ != item@,
        decreases items.len() - i,
    {
        if items[i] == *item {
            assert(strings_view(items@)[i as int] == item@);
            return true;
        }
        i = i + 1;
    }
    assert forall|k: int| 0 <= k < strings_view(items@).len() implies strings_view(items@)[k]
        != item@ by {
        assert(strings_view(items@)[k] == items@[k]@);
    }
    false
}

/// Accepts `value` when it is one of `choices`, refuses it otherwise.
fn check_listed(what: &str, value: &str, choices: Vec<String>) -> (r: Result<(), String>)
    ensures
        r is Ok <==> strings_view(choices@).contains(value@),
        r matches Err(m) ==> m@ == unlisted_message(what@, value@, strings_view(choices@)),
{
    let v = value.to_owned();
    if has_string(&choices, &v) {
        Ok(())
    } else {
        let mut m = what.to_owned();
        m.append(" ");
        m.append(value);
        m.append(" is not supported. Valid options: ");
        let joined = join_with(&choices, ", ");
        m.append(joined.as_str());
        Err(m)
    }
}

/// Accepts a Python version exactly when it is one of the offered ones.
pub fn check_python_version(version: &str) -> (r: Result<(), String>)
    ensures
        r is Ok <==> python_choices().contains(version@),
        r matches Err(m) ==> m@ == unlisted_message("Python"@, version@, python_choices()),
{
    check_listed("Python", version, python_versions())
}

/// Accepts a PyTorch version exactly when it is one of the offered ones.
pub fn check_pytorch_version(version: &str) -> (r: Result<(), String>)
    ensures
        r is Ok <==> pytorch_choices().contains(version@),
        r matches Err(m) ==> m@ == unlisted_message("PyTorch"@, version@, pytorch_choices()),
{
    check_listed("PyTorch", version, pytorch_versions())
}

/// Settles the CUDA version: none unless the project targets Linux with a
/// GPU; otherwise the requested version when it fits the PyTorch version, a
/// refusal when it does not, and when none was requested the list to choose
/// from (a refusal if that list is empty).
pub fn choose_cuda(os: Os, has_gpu: bool, pytorch_version: &str, requested: Option<String>) -> (r:
    CudaChoice)
    ensures
        !(os == Os::Linux && has_gpu) ==> r is NotApplicable,
        os == Os::Linux && has_gpu ==> {
            let valid = compatible_cuda_versions(pytorch_version@);
            match requested {
                Some(c) => if valid.contains(c@) {
                    r matches CudaChoice::Use(u) && u@ == c@
                } else {
                    r matches CudaChoice::Refused(m) && m@ == incompatible_message(
                        c@,
                        pytorch_version@,
                        valid,
                    )
                },
                None => if valid.len() > 0 {
                    r matches CudaChoice::Ask(opts) && strings_view(opts@) == valid
                } else {
                    r matches CudaChoice::Refused(m) && m@ == unsupported_message(
                        pytorch_version@,
                    )
                },
            }
        },
{
    if !(os == Os::Linux && has_gpu) {
        return CudaChoice::NotApplicable;
    }
    let valid = compatible_cuda(pytorch_version);
    match requested {
        Some(c) => {
            if has_string(&valid, &c) {
                CudaChoice::Use(c)
            } else {
                let mut m = String::from_str("CUDA ");
                m.append(c.as_str());
                m.append(" is not compatible with PyTorch ");
                m.append(pytorch_version);
                m.append(". Valid options: ");
                let joined = join_with(&valid, ", ");
                m.append(joined.as_str());
                CudaChoice::Refused(m)
            }
        },
        None => {
            if valid.len() > 0 {
                CudaChoice::Ask(valid)
            } else {
                let mut m = String::from_str("No CUDA version is known to be compatible with PyTorch ");
                m.append(pytorch_version);
                CudaChoice::Refused(m)
            }
        },
    }
}

/// Every CUDA version offered for a PyTorch version is one the tool
/// documents.
pub proof fn lemma_compatible_cuda_documented(pytorch: Seq<char>)
    ensures
        forall|cu: Seq<char>|
            #[trigger] compatible_cuda_versions(pytorch).contains(cu) ==> cuda_choices().contains(
                cu,
            ),
{
    let all = cuda_choices();
    assert(all[0] == "11.8"@ && all[1] == "12.1"@ && all[2] == "12.4"@);
    assert(all[3] == "12.6"@ && all[4] == "12.8"@);
}

/// Every offered PyTorch version has at least one compatible CUDA version,
/// so a GPU user who picks from the offered versions always has a CUDA
/// version to choose; the first offered is the newest CUDA, 12.8 for the
/// default PyTorch.
pub proof fn lemma_offered_pytorch_has_cuda(pytorch: Seq<char>)
    ensures
        pytorch_choices().contains(pytorch) ==> compatible_cuda_versions(pytorch).len() > 0,
        compatible_cuda_versions(pytorch_choices()[0]).contains("12.8"@),
{
    assert(compatible_cuda_versions(pytorch_choices()[0])[0] == "12.8"@);
}

} // verus!
