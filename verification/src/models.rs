use crate::error::CoreError;
use crate::text::{is_blank, str_is_blank};
use vstd::prelude::*;
use vstd::utf8::encode_utf8;

verus! {

/// One entry of the model catalog, as shown to the user: a known or custom
/// model file, whether it is installed, and whether it is the active one.
#[derive(Debug)]
pub struct ModelInfo {
    pub file_name: String,
    pub label: String,
    pub quality: String,
    pub installed: bool,
    pub active: bool,
    pub download_url: Option<String>,
}

/// How many models the built-in catalog knows.
pub const KNOWN_MODEL_COUNT: usize = 7;

/// The catalog's file names, in preference order, best first.
pub open spec fn known_model_name(i: int) -> Seq<char> {
    if i == 0 {
        "ggml-large-v3-turbo-q5_0.bin"@
    } else if i == 1 {
        "ggml-large-v3-turbo.bin"@
    } else if i == 2 {
        "ggml-large-v3.bin"@
    } else if i == 3 {
        "ggml-medium.en.bin"@
    } else if i == 4 {
        "ggml-small.en.bin"@
    } else if i == 5 {
        "ggml-base.en.bin"@
    } else {
        "ggml-tiny.en.bin"@
    }
}

/// The catalog's display labels.
pub open spec fn known_model_label(i: int) -> Seq<char> {
    if i == 0 {
        "large-v3-turbo-q5_0"@
    } else if i == 1 {
        "large-v3-turbo"@
    } else if i == 2 {
        "large-v3"@
    } else if i == 3 {
        "medium.en"@
    } else if i == 4 {
        "small.en"@
    } else if i == 5 {
        "base.en"@
    } else {
        "tiny.en"@
    }
}

/// The catalog's quality descriptions.
pub open spec fn known_model_quality(i: int) -> Seq<char> {
    if i == 0 {
        "best balance"@
    } else if i == 1 {
        "highest quality (fast)"@
    } else if i == 2 {
        "highest quality"@
    } else if i == 3 {
        "high quality"@
    } else if i == 4 {
        "better than base"@
    } else if i == 5 {
        "balanced"@
    } else {
        "fastest"@
    }
}

/// The catalog's download addresses.
pub open spec fn known_model_url(i: int) -> Seq<char> {
    if i == 0 {
        "https://huggingface.co/ggerganov/whisper.cpp/resolve/main/ggml-large-v3-turbo-q5_0.bin"@
    } else if i == 1 {
        "https://huggingface.co/ggerganov/whisper.cpp/resolve/main/ggml-large-v3-turbo.bin"@
    } else if i == 2 {
        "https://huggingface.co/ggerganov/whisper.cpp/resolve/main/ggml-large-v3.bin"@
    } else if i == 3 {
        "https://huggingface.co/ggerganov/whisper.cpp/resolve/main/ggml-medium.en.bin"@
    } else if i == 4 {
        "https://huggingface.co/ggerganov/whisper.cpp/resolve/main/ggml-small.en.bin"@
    } else if i == 5 {
        "https://huggingface.co/ggerganov/whisper.cpp/resolve/main/ggml-base.en.bin"@
    } else {
        "https://huggingface.co/ggerganov/whisper.cpp/resolve/main/ggml-tiny.en.bin"@
    }
}

/// The file name of catalog entry `i`.
pub fn known_model_name_at(i: usize) -> (r: String)
    requires
        i < KNOWN_MODEL_COUNT,
    ensures
        r@ == known_model_name(i as int),
{
    if i == 0 {
        String::from_str("ggml-large-v3-turbo-q5_0.bin")
    } else if i == 1 {
        String::from_str("ggml-large-v3-turbo.bin")
    } else if i == 2 {
        String::from_str("ggml-large-v3.bin")
    } else if i == 3 {
        String::from_str("ggml-medium.en.bin")
    } else if i == 4 {
        String::from_str("ggml-small.en.bin")
    } else if i == 5 {
        String::from_str("ggml-base.en.bin")
    } else {
        String::from_str("ggml-tiny.en.bin")
    }
}

/// The display label of catalog entry `i`.
pub fn known_model_label_at(i: usize) -> (r: String)
    requires
        i < KNOWN_MODEL_COUNT,
    ensures
        r@ == known_model_label(i as int),
{
    if i == 0 {
        String::from_str("large-v3-turbo-q5_0")
    } else if i == 1 {
        String::from_str("large-v3-turbo")
    } else if i == 2 {
        String::from_str("large-v3")
    } else if i == 3 {
        String::from_str("medium.en")
    } else if i == 4 {
        String::from_str("small.en")
    } else if i == 5 {
        String::from_str("base.en")
    } else {
        String::from_str("tiny.en")
    }
}

/// The quality description of catalog entry `i`.
pub fn known_model_quality_at(i: usize) -> (r: String)
    requires
        i < KNOWN_MODEL_COUNT,
    ensures
        r@ == known_model_quality(i as int),
{
    if i == 0 {
        String::from_str("best balance")
    } else if i == 1 {
        String::from_str("highest quality (fast)")
    } else if i == 2 {
        String::from_str("highest quality")
    } else if i == 3 {
        String::from_str("high quality")
    } else if i == 4 {
        String::from_str("better than base")
    } else if i == 5 {
        String::from_str("balanced")
    } else {
        String::from_str("fastest")
    }
}

/// The download address of catalog entry `i`.
pub fn known_model_url_at(i: usize) -> (r: String)
    requires
        i < KNOWN_MODEL_COUNT,
    ensures
        r@ == known_model_url(i as int),
{
    if i == 0 {
        String::from_str(
            "https://huggingface.co/ggerganov/whisper.cpp/resolve/main/ggml-large-v3-turbo-q5_0.bin",
        )
    } else if i == 1 {
        String::from_str(
            "https://huggingface.co/ggerganov/whisper.cpp/resolve/main/ggml-large-v3-turbo.bin",
        )
    } else if i == 2 {
        String::from_str(
            "https://huggingface.co/ggerganov/whisper.cpp/resolve/main/ggml-large-v3.bin",
        )
    } else if i == 3 {
        String::from_str(
            "https://huggingface.co/ggerganov/whisper.cpp/resolve/main/ggml-medium.en.bin",
        )
    } else if i == 4 {
        String::from_str(
            "https://huggingface.co/ggerganov/whisper.cpp/resolve/main/ggml-small.en.bin",
        )
    } else if i == 5 {
        String::from_str(
            "https://huggingface.co/ggerganov/whisper.cpp/resolve/main/ggml-base.en.bin",
        )
    } else {
        String::from_str(
            "https://huggingface.co/ggerganov/whisper.cpp/resolve/main/ggml-tiny.en.bin",
        )
    }
}

/// Whether a list of file names holds the given name.
pub open spec fn seq_contains_str(vs: Seq<String>, n: Seq<char>) -> bool {
    exists|j: int| 0 <= j < vs.len() && #[trigger] vs[j]@ == n
}

/// Tests whether a list of file names holds the given name.
pub fn contains_name(names: &Vec<String>, name: &String) -> (r: bool)
    ensures
        r == seq_contains_str(names@, name@),
{
    let n = names.len();
    let mut i: usize = 0;
    while i < n
        invariant
            n == names@.len(),
            0 <= i <= n,
            forall|j: int| 0 <= j < i ==> #[trigger] names@[j]@ != name@,
        decreases n - i,
    {
        if names[i].eq(name) {
            return true;
        }
        i = i + 1;
    }
    false
}

/// Whether a file name is one of the catalog's known models.
pub open spec fn is_known_name(n: Seq<char>) -> bool {
    exists|i: int| 0 <= i < KNOWN_MODEL_COUNT && #[trigger] known_model_name(i) == n
}

/// Finds the catalog index of a file name.
pub fn find_known_model(file_name: &String) -> (r: Option<usize>)
    ensures
        match r {
            Some(i) => i < KNOWN_MODEL_COUNT && file_name@ == known_model_name(i as int),
            None => !is_known_name(file_name@),
        },
{
    let mut i: usize = 0;
    while i < KNOWN_MODEL_COUNT
        invariant
            0 <= i <= KNOWN_MODEL_COUNT,
            forall|j: int| 0 <= j < i ==> #[trigger] known_model_name(j) != file_name@,
        decreases KNOWN_MODEL_COUNT - i,
    {
        let name = known_model_name_at(i);
        if name.eq(file_name) {
            return Some(i);
        }
        i = i + 1;
    }
    None
}

/// The default model for a list of installed file names: the first catalog
/// entry, in preference order, that is installed; then the first installed
/// file; then the base English model.
pub open spec fn pick_from(installed: Seq<String>, i: int) -> Seq<char>
    decreases KNOWN_MODEL_COUNT - i,
{
    if i < 0 || i >= KNOWN_MODEL_COUNT {
        if installed.len() > 0 {
            installed[0]@
        } else {
            "ggml-base.en.bin"@
        }
    } else if seq_contains_str(installed, known_model_name(i)) {
        known_model_name(i)
    } else {
        pick_from(installed, i + 1)
    }
}

/// What `pick_default_model` returns.
pub open spec fn pick_default_spec(installed: Seq<String>) -> Seq<char> {
    pick_from(installed, 0)
}

/// Picks the default model among the installed file names, preferring the
/// best installed catalog entry and falling back to the first installed
/// file, then to the base English model. The caller passes the installed
/// names in sorted order, as the models directory lists them.
pub fn pick_default_model(installed: &Vec<String>) -> (r: String)
    ensures
        r@ == pick_default_spec(installed@),
{
    let mut i: usize = 0;
    while i < KNOWN_MODEL_COUNT
        invariant
            0 <= i <= KNOWN_MODEL_COUNT,
            pick_from(installed@, 0) == pick_from(installed@, i as int),
        decreases KNOWN_MODEL_COUNT - i,
    {
        let name = known_model_name_at(i);
        if contains_name(installed, &name) {
            return name;
        }
        i = i + 1;
    }
    if installed.len() > 0 {
        installed[0].clone()
    } else {
        String::from_str("ggml-base.en.bin")
    }
}

/// The installed file names that are not catalog entries, in their given
/// order.
pub open spec fn custom_models(installed: Seq<String>) -> Seq<String>
    decreases installed.len(),
{
    if installed.len() == 0 {
        Seq::empty()
    } else {
        let front = custom_models(installed.drop_last());
        if is_known_name(installed.last()@) {
            front
        } else {
            front.push(installed.last())
        }
    }
}

/// Builds the model catalog: the seven known models with their installed and
/// active flags, followed by every installed file the catalog does not know,
/// marked as a custom model.
pub fn list_models(installed: &Vec<String>, active_model: &String) -> (r: Vec<ModelInfo>)
    ensures
        r@.len() == KNOWN_MODEL_COUNT + custom_models(installed@).len(),
        forall|i: int|
            0 <= i < KNOWN_MODEL_COUNT ==> {
                let m = #[trigger] r@[i];
                &&& m.file_name@ == known_model_name(i)
                &&& m.label@ == known_model_label(i)
                &&& m.quality@ == known_model_quality(i)
                &&& m.installed == seq_contains_str(installed@, known_model_name(i))
                &&& m.active == (active_model@ == known_model_name(i))
                &&& m.download_url is Some
                &&& m.download_url->0@ == known_model_url(i)
            },
        forall|i: int|
            KNOWN_MODEL_COUNT <= i < r@.len() ==> {
                let m = #[trigger] r@[i];
                let name = custom_models(installed@)[i - KNOWN_MODEL_COUNT]@;
                &&& m.file_name@ == name
                &&& m.label@ == name
                &&& m.quality@ == "custom"@
                &&& m.installed
                &&& m.active == (active_model@ == name)
                &&& m.download_url is None
            },
{
    let mut r: Vec<ModelInfo> = Vec::new();
    let mut i: usize = 0;
    while i < KNOWN_MODEL_COUNT
        invariant
            0 <= i <= KNOWN_MODEL_COUNT,
            r@.len() == i,
            forall|t: int|
                0 <= t < i ==> {
                    let m = #[trigger] r@[t];
                    &&& m.file_name@ == known_model_name(t)
                    &&& m.label@ == known_model_label(t)
                    &&& m.quality@ == known_model_quality(t)
                    &&& m.installed == seq_contains_str(installed@, known_model_name(t))
                    &&& m.active == (active_model@ == known_model_name(t))
                    &&& m.download_url is Some
                    &&& m.download_url->0@ == known_model_url(t)
                },
        decreases KNOWN_MODEL_COUNT - i,
    {
        let name = known_model_name_at(i);
        let is_installed = contains_name(installed, &name);
        let is_active = active_model.eq(&name);
        r.push(
            ModelInfo {
                file_name: name,
                label: known_model_label_at(i),
                quality: known_model_quality_at(i),
                installed: is_installed,
                active: is_active,
                download_url: Some(known_model_url_at(i)),
            },
        );
        i = i + 1;
    }
    let n = installed.len();
    let mut k: usize = 0;
    while k < n
        invariant
            n == installed@.len(),
            0 <= k <= n,
            r@.len() == KNOWN_MODEL_COUNT + custom_models(installed@.subrange(0, k as int)).len(),
            forall|t: int|
                0 <= t < KNOWN_MODEL_COUNT ==> {
                    let m = #[trigger] r@[t];
                    &&& m.file_name@ == known_model_name(t)
                    &&& m.label@ == known_model_label(t)
                    &&& m.quality@ == known_model_quality(t)
                    &&& m.installed == seq_contains_str(installed@, known_model_name(t))
                    &&& m.active == (active_model@ == known_model_name(t))
                    &&& m.download_url is Some
                    &&& m.download_url->0@ == known_model_url(t)
                },
            forall|t: int|
                KNOWN_MODEL_COUNT <= t < r@.len() ==> {
                    let m = #[trigger] r@[t];
                    let name = custom_models(installed@.subrange(0, k as int))[t
                        - KNOWN_MODEL_COUNT]@;
                    &&& m.file_name@ == name
                    &&& m.label@ == name
                    &&& m.quality@ == "custom"@
                    &&& m.installed
                    &&& m.active == (active_model@ == name)
                    &&& m.download_url is None
                },
        decreases n - k,
    {
        proof {
            let pre = installed@.subrange(0, k as int);
            let post = installed@.subrange(0, k as int + 1);
            assert(post.drop_last() =~= pre);
            assert(post.last() == installed@[k as int]);
        }
        let file_name = &installed[k];
        if find_known_model(file_name).is_none() {
            let name = file_name.clone();
            let label = file_name.clone();
            let is_active = active_model.eq(file_name);
            r.push(
                ModelInfo {
                    file_name: name,
                    label,
                    quality: String::from_str("custom"),
                    installed: true,
                    active: is_active,
                    download_url: None,
                },
            );
        }
        k = k + 1;
    }
    proof {
        assert(installed@.subrange(0, n as int) =~= installed@);
    }
    r
}

/// The progress of a download, in whole percent, capped at one hundred.
pub fn download_percent(downloaded: u64, total_bytes: u64) -> (r: u8)
    requires
        total_bytes > 0,
    ensures
        ({
            let scaled = if downloaded * 100 <= u64::MAX {
                downloaded * 100
            } else {
                u64::MAX as int
            };
            r == if scaled / total_bytes as int <= 100 {
                scaled / total_bytes as int
            } else {
                100int
            }
        }),
{
    let scaled = if downloaded <= u64::MAX / 100 {
        downloaded * 100
    } else {
        u64::MAX
    };
    proof {
        assert(downloaded <= u64::MAX as int / 100 ==> downloaded * 100 <= u64::MAX)
            by (nonlinear_arith);
        assert(downloaded > u64::MAX as int / 100 ==> downloaded * 100 > u64::MAX)
            by (nonlinear_arith);
    }
    let pct = scaled / total_bytes;
    if pct <= 100 {
        pct as u8
    } else {
        100
    }
}

/// The model a transcription should load: the active model if it is
/// installed, else the default pick among the installed files if that one
/// is, else no model at all.
pub fn resolve_model(active: &String, installed: &Vec<String>) -> (r: Result<String, CoreError>)
    ensures
        seq_contains_str(installed@, active@) ==> (r matches Ok(m) && m@ == active@),
        (!seq_contains_str(installed@, active@) && seq_contains_str(
            installed@,
            pick_default_spec(installed@),
        )) ==> (r matches Ok(m) && m@ == pick_default_spec(installed@)),
        (!seq_contains_str(installed@, active@) && !seq_contains_str(
            installed@,
            pick_default_spec(installed@),
        )) ==> r == Err::<String, CoreError>(CoreError::ModelNotFound),
{
    if contains_name(installed, active) {
        return Ok(active.clone());
    }
    let fallback = pick_default_model(installed);
    if contains_name(installed, &fallback) {
        return Ok(fallback);
    }
    Err(CoreError::ModelNotFound)
}

/// Whether a model selection can be made active: the name must not be blank
/// and the file must be installed.
pub fn validate_model_selection(file_name: &String, installed: &Vec<String>) -> (r: Result<
    (),
    CoreError,
>)
    ensures
        r is Ok <==> (!is_blank(encode_utf8(file_name@)) && seq_contains_str(
            installed@,
            file_name@,
        )),
        r is Err ==> r == Err::<(), CoreError>(CoreError::ModelNotFound),
{
    if str_is_blank(file_name.as_str()) {
        return Err(CoreError::ModelNotFound);
    }
    if !contains_name(installed, file_name) {
        return Err(CoreError::ModelNotFound);
    }
    Ok(())
}

} // verus!
