use vstd::prelude::*;

verus! {

/// Separator of the dynamic linker's path lists.
pub open spec fn list_separator() -> Seq<char> {
    ":"@
}

pub open spec fn preload_var() -> Seq<char> {
    "LD_PRELOAD"@
}

pub open spec fn auto_open_var() -> Seq<char> {
    "TAURI_SPY_AUTO_OPEN"@
}

pub open spec fn no_compositing_var() -> Seq<char> {
    "WEBKIT_DISABLE_COMPOSITING_MODE"@
}

pub open spec fn no_dmabuf_var() -> Seq<char> {
    "WEBKIT_DISABLE_DMABUF_RENDERER"@
}

pub open spec fn flag_text(b: bool) -> Seq<char> {
    if b {
        "1"@
    } else {
        "0"@
    }
}

/// The preload list for the child: the artifact first, then whatever non-empty
/// list the parent already had.
pub open spec fn preload_value(artifact: Seq<char>, existing: Option<String>) -> Seq<char> {
    match existing {
        Some(x) if x@.len() > 0 => artifact + list_separator() + x@,
        _ => artifact,
    }
}

/// The variables set in the child on top of everything it inherits.
pub open spec fn env_overlay(artifact: Seq<char>, existing: Option<String>, auto_open: bool) -> Seq<
    (Seq<char>, Seq<char>),
> {
    seq![
        (preload_var(), preload_value(artifact, existing)),
        (auto_open_var(), flag_text(auto_open)),
        (no_compositing_var(), "1"@),
        (no_dmabuf_var(), "1"@),
    ]
}

/// The value of the preload variable for the child process, keeping every
/// library the parent already preloads.
pub fn compose_preload(artifact: &str, existing: &Option<String>) -> (r: String)
    ensures
        r@ == preload_value(artifact@, *existing),
{
    let mut r = String::from_str(artifact);
    if let Some(x) = existing {
        if x.as_str().unicode_len() > 0 {
            r.append(":");
            r.append(x.as_str());
        }
    }
    r
}

fn entry(name: &str, value: String) -> (r: (String, String))
    ensures
        r.0@ == name@,
        r.1@ == value@,
{
    (String::from_str(name), value)
}

/// The variables to set in the child, as name and value pairs; the child
/// inherits every other variable of the parent unchanged.
pub fn compose_env(artifact: &str, existing: &Option<String>, auto_open: bool) -> (r: Vec<
    (String, String),
>)
    ensures
        r.deep_view() == env_overlay(artifact@, *existing, auto_open),
{
    let flag = if auto_open {
        "1"
    } else {
        "0"
    };
    let mut r: Vec<(String, String)> = Vec::new();
    r.push(entry("LD_PRELOAD", compose_preload(artifact, existing)));
    r.push(entry("TAURI_SPY_AUTO_OPEN", String::from_str(flag)));
    r.push(entry("WEBKIT_DISABLE_COMPOSITING_MODE", String::from_str("1")));
    r.push(entry("WEBKIT_DISABLE_DMABUF_RENDERER", String::from_str("1")));
    assert(r.deep_view() =~= env_overlay(artifact@, *existing, auto_open));
    r
}

/// No variable is set twice in the child's environment.
pub proof fn lemma_overlay_names_distinct(artifact: Seq<char>, existing: Option<String>, auto_open: bool)
    ensures
        ({
            let s = env_overlay(artifact, existing, auto_open);
            forall|i: int, j: int| 0 <= i < j < s.len() ==> #[trigger] s[i].0 != #[trigger] s[j].0
        }),
{
    reveal_strlit("LD_PRELOAD");
    reveal_strlit("TAURI_SPY_AUTO_OPEN");
    reveal_strlit("WEBKIT_DISABLE_COMPOSITING_MODE");
    reveal_strlit("WEBKIT_DISABLE_DMABUF_RENDERER");
    let s = env_overlay(artifact, existing, auto_open);
    assert(s[0].0.len() == 10);
    assert(s[1].0.len() == 19);
    assert(s[2].0.len() == 31);
    assert(s[3].0.len() == 30);
    assert forall|i: int, j: int| 0 <= i < j < s.len() implies #[trigger] s[i].0 != #[trigger] s[j].0 by {
        assert(s[i].0.len() != s[j].0.len());
    }
}

/// With no non-empty list inherited, the preload list is the artifact alone.
pub proof fn lemma_fresh_preload_is_artifact(artifact: Seq<char>, existing: Option<String>)
    requires
        existing matches Some(x) ==> x@.len() == 0,
    ensures
        preload_value(artifact, existing) == artifact,
{
}

} // verus!
